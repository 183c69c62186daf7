use vstd::prelude::*;

use crate::model::{BlockDetail, Quotient, TxDetail};

verus! {

/// Target spacing between blocks, in seconds. Dividing difficulty by it is a
/// rough estimate of the network hash rate, not an accurate measurement.
pub const TARGET_BLOCK_INTERVAL_SECS: u64 = 600;

/// A value the source left out counts as zero.
pub open spec fn value_or_zero(v: Option<u64>) -> nat {
    match v {
        Some(x) => x as nat,
        None => 0,
    }
}

/// Sum of the fees of `txs`.
pub open spec fn fee_total(txs: Seq<TxDetail>) -> nat
    decreases txs.len(),
{
    if txs.len() == 0 {
        0
    } else {
        fee_total(txs.drop_last()) + value_or_zero(txs.last().fee)
    }
}

/// Sum of the output values `outs`.
pub open spec fn output_total(outs: Seq<Option<u64>>) -> nat
    decreases outs.len(),
{
    if outs.len() == 0 {
        0
    } else {
        output_total(outs.drop_last()) + value_or_zero(outs.last())
    }
}

/// Sum of all output values of all transactions of `txs`.
pub open spec fn volume_total(txs: Seq<TxDetail>) -> nat
    decreases txs.len(),
{
    if txs.len() == 0 {
        0
    } else {
        volume_total(txs.drop_last()) + output_total(txs.last().outputs@)
    }
}

/// The sums of a block detail fit the types that hold them.
pub open spec fn metrics_fit(d: BlockDetail) -> bool {
    volume_total(d.transactions@) <= u128::MAX
}

/// Average fee: the fee total over the number of transactions; zero (as 0/1)
/// for a block without transactions.
pub open spec fn average_fee_of(txs: Seq<TxDetail>) -> Quotient {
    if txs.len() == 0 {
        Quotient { numerator: 0, denominator: 1 }
    } else {
        Quotient { numerator: fee_total(txs) as u128, denominator: txs.len() as u128 }
    }
}

/// Hash rate estimate: difficulty (zero when absent) over the block interval.
pub open spec fn hash_rate_of(difficulty: Option<u64>) -> Quotient {
    Quotient {
        numerator: value_or_zero(difficulty) as u128,
        denominator: TARGET_BLOCK_INTERVAL_SECS as u128,
    }
}

/// The figures derived from one block detail.
#[derive(Clone, Copy, Debug, PartialEq, Eq, Structural)]
pub struct BlockMetrics {
    pub average_fee: Quotient,
    pub total_volume: u128,
    pub hash_rate: Quotient,
}

proof fn lemma_fee_total_bound(txs: Seq<TxDetail>)
    ensures
        fee_total(txs) <= txs.len() * (u64::MAX as nat),
    decreases txs.len(),
{
    if txs.len() > 0 {
        lemma_fee_total_bound(txs.drop_last());
    }
}

proof fn lemma_output_total_prefix(outs: Seq<Option<u64>>, i: int, j: int)
    requires
        0 <= i <= j <= outs.len(),
    ensures
        output_total(outs.subrange(0, i)) <= output_total(outs.subrange(0, j)),
    decreases j - i,
{
    if i < j {
        lemma_output_total_prefix(outs, i, j - 1);
        assert(outs.subrange(0, j).drop_last() =~= outs.subrange(0, j - 1));
    }
}

proof fn lemma_volume_total_prefix(txs: Seq<TxDetail>, i: int, j: int)
    requires
        0 <= i <= j <= txs.len(),
    ensures
        volume_total(txs.subrange(0, i)) <= volume_total(txs.subrange(0, j)),
    decreases j - i,
{
    if i < j {
        lemma_volume_total_prefix(txs, i, j - 1);
        assert(txs.subrange(0, j).drop_last() =~= txs.subrange(0, j - 1));
    }
}

/// Sum of the fees of `txs`; a missing fee counts as zero.
pub fn total_fees(txs: &Vec<TxDetail>) -> (r: u128)
    ensures
        r == fee_total(txs@),
{
    let mut sum: u128 = 0;
    let mut i: usize = 0;
    while i < txs.len()
        invariant
            i <= txs@.len(),
            sum == fee_total(txs@.subrange(0, i as int)),
        decreases txs@.len() - i,
    {
        proof {
            assert(txs@.subrange(0, i + 1).drop_last() =~= txs@.subrange(0, i as int));
            lemma_fee_total_bound(txs@.subrange(0, i + 1));
            let n: int = i + 1;
            assert(n * (u64::MAX as int) <= (u64::MAX as int) * (u64::MAX as int)) by (nonlinear_arith)
                requires n <= u64::MAX;
        }
        let fee: u64 = match txs[i].fee {
            Some(f) => f,
            None => 0,
        };
        sum = sum + fee as u128;
        i = i + 1;
    }
    assert(txs@.subrange(0, i as int) =~= txs@);
    sum
}

/// Sum of all output values of `txs`, or `None` where it exceeds `u128`.
/// Missing values count as zero.
pub fn checked_total_volume(txs: &Vec<TxDetail>) -> (r: Option<u128>)
    ensures
        match r {
            Some(v) => volume_total(txs@) <= u128::MAX && v == volume_total(txs@),
            None => volume_total(txs@) > u128::MAX,
        },
{
    let mut sum: u128 = 0;
    let mut i: usize = 0;
    while i < txs.len()
        invariant
            i <= txs@.len(),
            sum == volume_total(txs@.subrange(0, i as int)),
        decreases txs@.len() - i,
    {
        let outs = &txs[i].outputs;
        assert(txs@.subrange(0, i + 1).drop_last() =~= txs@.subrange(0, i as int));
        let mut j: usize = 0;
        let mut part: u128 = sum;
        while j < outs.len()
            invariant
                i < txs@.len(),
                j <= outs@.len(),
                outs == txs@[i as int].outputs,
                sum == volume_total(txs@.subrange(0, i as int)),
                part == sum + output_total(outs@.subrange(0, j as int)),
            decreases outs@.len() - j,
        {
            assert(outs@.subrange(0, j + 1).drop_last() =~= outs@.subrange(0, j as int));
            let v: u64 = match outs[j] {
                Some(x) => x,
                None => 0,
            };
            if v as u128 > u128::MAX - part {
                proof {
                    lemma_output_total_prefix(outs@, j + 1, outs@.len() as int);
                    assert(outs@.subrange(0, outs@.len() as int) =~= outs@);
                    assert(txs@.subrange(0, i + 1).drop_last() =~= txs@.subrange(0, i as int));
                    assert(txs@.subrange(0, i + 1).last() == txs@[i as int]);
                    assert(volume_total(txs@.subrange(0, i + 1)) == sum + output_total(outs@));
                    lemma_volume_total_prefix(txs@, i + 1, txs@.len() as int);
                    assert(txs@.subrange(0, txs@.len() as int) =~= txs@);
                }
                return None;
            }
            part = part + v as u128;
            j = j + 1;
        }
        assert(outs@.subrange(0, j as int) =~= outs@);
        sum = part;
        i = i + 1;
    }
    assert(txs@.subrange(0, i as int) =~= txs@);
    Some(sum)
}

/// Average fee per transaction of `txs`.
pub fn average_fee(txs: &Vec<TxDetail>) -> (r: Quotient)
    ensures
        r == average_fee_of(txs@),
        r.wf(),
{
    if txs.len() == 0 {
        Quotient { numerator: 0, denominator: 1 }
    } else {
        let total = total_fees(txs);
        Quotient { numerator: total, denominator: txs.len() as u128 }
    }
}

/// Estimated hash rate for the given difficulty.
pub fn hash_rate(difficulty: Option<u64>) -> (r: Quotient)
    ensures
        r == hash_rate_of(difficulty),
        r.wf(),
{
    let d: u64 = match difficulty {
        Some(x) => x,
        None => 0,
    };
    Quotient { numerator: d as u128, denominator: TARGET_BLOCK_INTERVAL_SECS as u128 }
}

/// Derives average fee, total volume and hash rate from a block detail.
pub fn compute_metrics(detail: &BlockDetail) -> (r: BlockMetrics)
    requires
        metrics_fit(*detail),
    ensures
        r.average_fee == average_fee_of(detail.transactions@),
        r.total_volume == volume_total(detail.transactions@),
        r.hash_rate == hash_rate_of(detail.difficulty),
        r.average_fee.wf(),
        r.hash_rate.wf(),
{
    // `metrics_fit` rules out `None` here.
    let total_volume: u128 = match checked_total_volume(&detail.transactions) {
        Some(v) => v,
        None => 0,
    };
    BlockMetrics {
        average_fee: average_fee(&detail.transactions),
        total_volume,
        hash_rate: hash_rate(detail.difficulty),
    }
}

/// A block without transactions has average fee and total volume zero.
pub proof fn lemma_empty_block_metrics(detail: BlockDetail)
    requires
        detail.transactions@.len() == 0,
    ensures
        average_fee_of(detail.transactions@).numerator == 0,
        average_fee_of(detail.transactions@).wf(),
        volume_total(detail.transactions@) == 0,
        metrics_fit(detail),
{
}

/// The hash rate is exactly the difficulty over 600 seconds, for every detail.
pub proof fn lemma_hash_rate_exact(detail: BlockDetail)
    ensures
        hash_rate_of(detail.difficulty).numerator == value_or_zero(detail.difficulty),
        hash_rate_of(detail.difficulty).denominator == 600,
{
}

} // verus!
