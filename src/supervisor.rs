use vstd::prelude::*;

use crate::enrich::{enrich, fetched, is_record_of, market_or_default, EnrichError, FetchFault};
use crate::metrics::metrics_fit;
use crate::model::{BlockAnnouncement, BlockDetail, MarketSnapshot, MempoolSnapshot, BlockRecord};
use crate::store::{upserted, BlockStore};

verus! {

/// Fixed pause before a new connection attempt, in milliseconds.
pub const RECONNECT_DELAY_MILLIS: u64 = 5000;

/// Where the ingestion loop stands with its feed connection.
#[derive(Clone, Copy, Debug, PartialEq, Eq, Structural)]
pub enum Phase {
    Connecting,
    Streaming,
    Backoff,
}

/// What the outside world reports to the loop.
#[derive(Clone, Debug)]
pub enum FeedEvent {
    /// The connection to the feed is open.
    Connected,
    /// Opening the connection failed.
    ConnectFailed,
    /// A frame announced a new block.
    Announcement(BlockAnnouncement),
    /// A frame did not have the shape of an announcement.
    Unrecognized,
    /// The feed closed the connection.
    Closed,
    /// The connection failed, for instance by a reset without closing handshake.
    Faulted,
    /// The reconnect delay has passed.
    DelayElapsed,
}

/// What the loop asks the outside world to do next.
#[derive(Clone, Debug)]
pub enum Action {
    /// Open a connection to the feed.
    OpenConnection,
    /// Send the subscription request on the open connection.
    SendSubscription,
    /// Sleep this long, then report `DelayElapsed`.
    Wait { millis: u64 },
    /// Enrich and store this announcement, then read the next frame.
    Process(BlockAnnouncement),
    /// Read the next frame; nothing else to do.
    Continue,
}

/// The control message that subscribes to block announcements, sent as a
/// text frame right after connecting.
pub fn subscription_request() -> (r: &'static str)
    ensures
        r@ == "{\"op\":\"blocks_sub\"}"@,
{
    "{\"op\":\"blocks_sub\"}"
}

/// The phase and action that follow `event` in `phase`. An event that does not
/// belong to the phase changes nothing.
pub open spec fn transition(phase: Phase, event: FeedEvent) -> (Phase, Action) {
    match (phase, event) {
        (Phase::Connecting, FeedEvent::Connected) => (Phase::Streaming, Action::SendSubscription),
        (Phase::Connecting, FeedEvent::ConnectFailed) => (
            Phase::Backoff,
            Action::Wait { millis: RECONNECT_DELAY_MILLIS },
        ),
        (Phase::Streaming, FeedEvent::Announcement(a)) => (Phase::Streaming, Action::Process(a)),
        (Phase::Streaming, FeedEvent::Closed) => (
            Phase::Backoff,
            Action::Wait { millis: RECONNECT_DELAY_MILLIS },
        ),
        (Phase::Streaming, FeedEvent::Faulted) => (
            Phase::Backoff,
            Action::Wait { millis: RECONNECT_DELAY_MILLIS },
        ),
        (Phase::Backoff, FeedEvent::DelayElapsed) => (Phase::Connecting, Action::OpenConnection),
        (Phase::Connecting, _) => (Phase::Connecting, Action::OpenConnection),
        (Phase::Backoff, _) => (Phase::Backoff, Action::Wait { millis: RECONNECT_DELAY_MILLIS }),
        (Phase::Streaming, _) => (Phase::Streaming, Action::Continue),
    }
}

/// The loop's decision on one event.
pub fn step(phase: Phase, event: FeedEvent) -> (r: (Phase, Action))
    ensures
        r == transition(phase, event),
{
    match phase {
        Phase::Connecting => match event {
            FeedEvent::Connected => (Phase::Streaming, Action::SendSubscription),
            FeedEvent::ConnectFailed => (
                Phase::Backoff,
                Action::Wait { millis: RECONNECT_DELAY_MILLIS },
            ),
            _ => (Phase::Connecting, Action::OpenConnection),
        },
        Phase::Streaming => match event {
            FeedEvent::Announcement(a) => (Phase::Streaming, Action::Process(a)),
            FeedEvent::Closed => (Phase::Backoff, Action::Wait { millis: RECONNECT_DELAY_MILLIS }),
            FeedEvent::Faulted => (Phase::Backoff, Action::Wait { millis: RECONNECT_DELAY_MILLIS }),
            _ => (Phase::Streaming, Action::Continue),
        },
        Phase::Backoff => match event {
            FeedEvent::DelayElapsed => (Phase::Connecting, Action::OpenConnection),
            _ => (Phase::Backoff, Action::Wait { millis: RECONNECT_DELAY_MILLIS }),
        },
    }
}

/// A fault on the stream leads, after the fixed delay, to a new connection, a
/// new subscription, and the processing of the announcements that follow.
pub proof fn lemma_reconnect_resumes(a: BlockAnnouncement)
    ensures
        transition(Phase::Streaming, FeedEvent::Faulted) == (
            Phase::Backoff,
            Action::Wait { millis: RECONNECT_DELAY_MILLIS },
        ),
        transition(Phase::Streaming, FeedEvent::Closed) == (
            Phase::Backoff,
            Action::Wait { millis: RECONNECT_DELAY_MILLIS },
        ),
        transition(Phase::Backoff, FeedEvent::DelayElapsed) == (
            Phase::Connecting,
            Action::OpenConnection,
        ),
        transition(Phase::Connecting, FeedEvent::ConnectFailed) == (
            Phase::Backoff,
            Action::Wait { millis: RECONNECT_DELAY_MILLIS },
        ),
        transition(Phase::Connecting, FeedEvent::Connected) == (
            Phase::Streaming,
            Action::SendSubscription,
        ),
        transition(Phase::Streaming, FeedEvent::Announcement(a)) == (
            Phase::Streaming,
            Action::Process(a),
        ),
{
}

/// Processes one announcement: merges the outcomes of its three fetches into
/// a record and upserts it. On any failure the store is left as it was.
pub fn ingest(
    store: &mut BlockStore,
    ann: BlockAnnouncement,
    detail: Result<BlockDetail, FetchFault>,
    market: Result<MarketSnapshot, FetchFault>,
    mempool: Result<MempoolSnapshot, FetchFault>,
) -> (r: Result<(), EnrichError>)
    requires
        old(store).wf(),
    ensures
        final(store).wf(),
        match detail {
            Err(f) => r == Err::<(), EnrichError>(EnrichError::DetailFetch(f))
                && final(store)@ == old(store)@,
            Ok(d) => if metrics_fit(d) {
                &&& r is Ok
                &&& final(store)@.contains_key(ann.height)
                &&& final(store)@ == upserted(old(store)@, final(store)@[ann.height])
                &&& is_record_of(
                    final(store)@[ann.height],
                    ann,
                    d,
                    fetched(market),
                    fetched(mempool),
                )
            } else {
                r == Err::<(), EnrichError>(EnrichError::VolumeOutOfRange)
                    && final(store)@ == old(store)@
            },
        },
{
    match enrich(ann, detail, market, mempool) {
        Ok(record) => {
            store.upsert(record);
            Ok(())
        },
        Err(e) => Err(e),
    }
}

/// A failed market fetch leaves the market fields of the record at zero while
/// the rest of the record is still derived.
pub proof fn lemma_market_failure_defaults(
    rec: BlockRecord,
    ann: BlockAnnouncement,
    d: BlockDetail,
    f: FetchFault,
    mempool: Option<MempoolSnapshot>,
)
    requires
        is_record_of(rec, ann, d, fetched(Err::<MarketSnapshot, FetchFault>(f)), mempool),
    ensures
        rec.market_price == 0,
        rec.trading_volume_24h == 0,
        rec.block_height == ann.height,
{
    assert(market_or_default(None) == MarketSnapshot { price_usd: 0, trading_volume_24h: 0 });
}

} // verus!
