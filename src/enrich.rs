use vstd::prelude::*;

use crate::metrics::{
    average_fee_of, compute_metrics, hash_rate_of, metrics_fit, value_or_zero, volume_total,
    checked_total_volume,
};
use crate::model::{
    BlockAnnouncement, BlockDetail, BlockRecord, MarketSnapshot, MempoolSnapshot, TxDetail,
    TxSummary,
};

verus! {

/// How many transactions a block record keeps.
pub const RECENT_TRANSACTIONS_LIMIT: usize = 5;

/// Why one secondary source gave no usable answer.
#[derive(Clone, Copy, Debug, PartialEq, Eq, Structural)]
pub enum FetchFault {
    /// The request did not complete.
    Transport,
    /// The source answered with a status other than success.
    Status { code: u16 },
    /// The answer could not be decoded.
    Malformed,
}

/// Why an announcement produced no record.
#[derive(Clone, Copy, Debug, PartialEq, Eq, Structural)]
pub enum EnrichError {
    /// The block detail could not be fetched; nothing can be derived without it.
    DetailFetch(FetchFault),
    /// The output values of the block add up to more than a `u128` holds.
    VolumeOutOfRange,
}

/// The hash of a transaction, empty where the source left it out.
pub open spec fn hash_or_empty(tx: TxDetail) -> Seq<char> {
    match tx.hash {
        Some(h) => h@,
        None => Seq::empty(),
    }
}

/// `s` is the summary of `tx`.
pub open spec fn is_summary_of(s: TxSummary, tx: TxDetail) -> bool {
    s.hash@ == hash_or_empty(tx) && s.fee == value_or_zero(tx.fee)
}

/// Number of transactions kept out of `n`.
pub open spec fn recent_count(n: nat) -> nat {
    if n < RECENT_TRANSACTIONS_LIMIT {
        n
    } else {
        RECENT_TRANSACTIONS_LIMIT as nat
    }
}

/// `r` holds the summaries of the first transactions of `txs`, in order.
pub open spec fn is_recent_of(r: Seq<TxSummary>, txs: Seq<TxDetail>) -> bool {
    &&& r.len() == recent_count(txs.len())
    &&& forall|i: int| 0 <= i < r.len() ==> is_summary_of(#[trigger] r[i], txs[i])
}

/// Market figures, or zeros where the fetch failed.
pub open spec fn market_or_default(m: Option<MarketSnapshot>) -> MarketSnapshot {
    match m {
        Some(s) => s,
        None => MarketSnapshot { price_usd: 0, trading_volume_24h: 0 },
    }
}

/// Mempool figures, or zero where the fetch failed.
pub open spec fn mempool_or_default(m: Option<MempoolSnapshot>) -> MempoolSnapshot {
    match m {
        Some(s) => s,
        None => MempoolSnapshot { pending_count: 0 },
    }
}

/// The successful value of a fetch, if any.
pub open spec fn fetched<T>(r: Result<T, FetchFault>) -> Option<T> {
    match r {
        Ok(v) => Some(v),
        Err(_) => None,
    }
}

/// `r` is the record derived from `ann`, its detail `d` and the secondary
/// figures `market` and `mempool` (`None` where that fetch failed).
pub open spec fn is_record_of(
    r: BlockRecord,
    ann: BlockAnnouncement,
    d: BlockDetail,
    market: Option<MarketSnapshot>,
    mempool: Option<MempoolSnapshot>,
) -> bool {
    &&& r.block_height == ann.height
    &&& r.transaction_count == value_or_zero(d.transaction_count)
    &&& is_recent_of(r.recent_transactions@, d.transactions@)
    &&& r.average_fee == average_fee_of(d.transactions@)
    &&& r.total_volume == volume_total(d.transactions@)
    &&& r.difficulty == value_or_zero(d.difficulty)
    &&& r.hash_rate == hash_rate_of(d.difficulty)
    &&& r.market_price == market_or_default(market).price_usd
    &&& r.trading_volume_24h == market_or_default(market).trading_volume_24h
    &&& r.active_addresses_24h == 0
    &&& r.mempool_size == mempool_or_default(mempool).pending_count
}

/// The summary of one transaction; missing hash and fee become empty and zero.
pub fn summarize(tx: &TxDetail) -> (r: TxSummary)
    ensures
        is_summary_of(r, *tx),
{
    let hash = match &tx.hash {
        Some(h) => h.clone(),
        None => String::new(),
    };
    let fee: u64 = match tx.fee {
        Some(f) => f,
        None => 0,
    };
    TxSummary { hash, fee }
}

/// Summaries of the first five transactions of `txs`, in block order.
pub fn recent_transactions(txs: &Vec<TxDetail>) -> (r: Vec<TxSummary>)
    ensures
        is_recent_of(r@, txs@),
        r@.len() <= RECENT_TRANSACTIONS_LIMIT,
{
    let n: usize = if txs.len() < RECENT_TRANSACTIONS_LIMIT {
        txs.len()
    } else {
        RECENT_TRANSACTIONS_LIMIT
    };
    let mut out: Vec<TxSummary> = Vec::new();
    let mut i: usize = 0;
    while i < n
        invariant
            n == recent_count(txs@.len()),
            i <= n,
            out@.len() == i,
            forall|k: int| 0 <= k < i ==> is_summary_of(#[trigger] out@[k], txs@[k]),
        decreases n - i,
    {
        let s = summarize(&txs[i]);
        out.push(s);
        i = i + 1;
    }
    out
}

/// Assembles the record of `ann` from its detail and the secondary figures;
/// a failed market or mempool fetch (`None`) contributes zeros.
pub fn build_record(
    ann: BlockAnnouncement,
    detail: &BlockDetail,
    market: Option<MarketSnapshot>,
    mempool: Option<MempoolSnapshot>,
) -> (r: BlockRecord)
    requires
        metrics_fit(*detail),
    ensures
        is_record_of(r, ann, *detail, market, mempool),
        r.recent_transactions@.len() <= RECENT_TRANSACTIONS_LIMIT,
{
    let m = compute_metrics(detail);
    let market_figures = match market {
        Some(s) => s,
        None => MarketSnapshot { price_usd: 0, trading_volume_24h: 0 },
    };
    let mempool_figures = match mempool {
        Some(s) => s,
        None => MempoolSnapshot { pending_count: 0 },
    };
    let transaction_count: u64 = match detail.transaction_count {
        Some(c) => c,
        None => 0,
    };
    let difficulty: u64 = match detail.difficulty {
        Some(d) => d,
        None => 0,
    };
    BlockRecord {
        block_height: ann.height,
        transaction_count,
        recent_transactions: recent_transactions(&detail.transactions),
        average_fee: m.average_fee,
        total_volume: m.total_volume,
        difficulty,
        hash_rate: m.hash_rate,
        market_price: market_figures.price_usd,
        trading_volume_24h: market_figures.trading_volume_24h,
        active_addresses_24h: 0,
        mempool_size: mempool_figures.pending_count,
    }
}

/// Merges the outcomes of the three fetches made for `ann` into its record.
/// A failed detail fetch drops the announcement; failed market or mempool
/// fetches are replaced by zeros.
pub fn enrich(
    ann: BlockAnnouncement,
    detail: Result<BlockDetail, FetchFault>,
    market: Result<MarketSnapshot, FetchFault>,
    mempool: Result<MempoolSnapshot, FetchFault>,
) -> (r: Result<BlockRecord, EnrichError>)
    ensures
        match detail {
            Err(f) => r == Err::<BlockRecord, EnrichError>(EnrichError::DetailFetch(f)),
            Ok(d) => if metrics_fit(d) {
                r is Ok && is_record_of(r->Ok_0, ann, d, fetched(market), fetched(mempool))
            } else {
                r == Err::<BlockRecord, EnrichError>(EnrichError::VolumeOutOfRange)
            },
        },
{
    let d = match detail {
        Ok(d) => d,
        Err(f) => {
            return Err(EnrichError::DetailFetch(f));
        },
    };
    if checked_total_volume(&d.transactions).is_none() {
        return Err(EnrichError::VolumeOutOfRange);
    }
    let market_figures = match market {
        Ok(s) => Some(s),
        Err(_) => None,
    };
    let mempool_figures = match mempool {
        Ok(s) => Some(s),
        Err(_) => None,
    };
    Ok(build_record(ann, &d, market_figures, mempool_figures))
}

} // verus!
