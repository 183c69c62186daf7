use vstd::prelude::*;

verus! {

/// A new block as announced by the streaming feed.
#[derive(Clone, Debug)]
pub struct BlockAnnouncement {
    pub height: u64,
    pub hash: String,
}

/// One transaction of a block detail, as decoded from the detail source.
/// A field the source left out or sent in an unusable form is `None`.
#[derive(Clone, Debug)]
pub struct TxDetail {
    pub hash: Option<String>,
    /// Fee in satoshi.
    pub fee: Option<u64>,
    /// Output values in satoshi.
    pub outputs: Vec<Option<u64>>,
}

/// The full payload of one block, fetched separately from its announcement.
#[derive(Clone, Debug)]
pub struct BlockDetail {
    pub hash: String,
    pub transaction_count: Option<u64>,
    pub transactions: Vec<TxDetail>,
    /// Difficulty, in whole units.
    pub difficulty: Option<u64>,
}

/// Current market figures; both in hundredths of a US dollar.
#[derive(Clone, Copy, Debug, PartialEq, Eq, Structural)]
pub struct MarketSnapshot {
    pub price_usd: u64,
    pub trading_volume_24h: u64,
}

/// Current state of the mempool.
#[derive(Clone, Copy, Debug, PartialEq, Eq, Structural)]
pub struct MempoolSnapshot {
    pub pending_count: u64,
}

/// The hash and fee of one transaction, as kept in a block record.
#[derive(Clone, Debug)]
pub struct TxSummary {
    pub hash: String,
    pub fee: u64,
}

/// An exact non-negative rational number `numerator / denominator`.
#[derive(Clone, Copy, Debug, PartialEq, Eq, Structural)]
pub struct Quotient {
    pub numerator: u128,
    pub denominator: u128,
}

impl Quotient {
    pub open spec fn wf(self) -> bool {
        self.denominator > 0
    }

    /// The integer part of the value.
    pub fn whole_part(&self) -> (r: u128)
        requires
            self.wf(),
        ensures
            r == self.numerator / self.denominator,
    {
        self.numerator / self.denominator
    }

    /// The value is zero.
    pub fn is_zero(&self) -> (r: bool)
        ensures
            r == (self.numerator == 0),
    {
        self.numerator == 0
    }
}

/// The persisted state of one block.
#[derive(Clone, Debug)]
pub struct BlockRecord {
    pub block_height: u64,
    pub transaction_count: u64,
    /// At most the first five transactions of the block, in block order.
    pub recent_transactions: Vec<TxSummary>,
    /// Mean fee per transaction, in satoshi.
    pub average_fee: Quotient,
    /// Sum of all output values, in satoshi.
    pub total_volume: u128,
    pub difficulty: u64,
    /// Estimated hash rate: difficulty over the target block interval.
    pub hash_rate: Quotient,
    /// Hundredths of a US dollar.
    pub market_price: u64,
    /// Hundredths of a US dollar.
    pub trading_volume_24h: u64,
    /// No source feeds this figure; it stays zero.
    pub active_addresses_24h: u64,
    pub mempool_size: u64,
}

impl BlockRecord {
    /// Every figure zero and no transactions: what the read side serves when
    /// no stored record can be read.
    pub open spec fn is_placeholder(self) -> bool {
        &&& self.block_height == 0
        &&& self.transaction_count == 0
        &&& self.recent_transactions@.len() == 0
        &&& self.average_fee == Quotient { numerator: 0, denominator: 1 }
        &&& self.total_volume == 0
        &&& self.difficulty == 0
        &&& self.hash_rate == Quotient { numerator: 0, denominator: 1 }
        &&& self.market_price == 0
        &&& self.trading_volume_24h == 0
        &&& self.active_addresses_24h == 0
        &&& self.mempool_size == 0
    }

    /// The all-zero record.
    pub fn placeholder() -> (r: BlockRecord)
        ensures
            r.is_placeholder(),
    {
        BlockRecord {
            block_height: 0,
            transaction_count: 0,
            recent_transactions: Vec::new(),
            average_fee: Quotient { numerator: 0, denominator: 1 },
            total_volume: 0,
            difficulty: 0,
            hash_rate: Quotient { numerator: 0, denominator: 1 },
            market_price: 0,
            trading_volume_24h: 0,
            active_addresses_24h: 0,
            mempool_size: 0,
        }
    }
}

} // verus!
