use block_ingest::decode::decode_mempool;
use block_ingest::enrich::{
    build_record, enrich, recent_transactions, summarize, EnrichError, FetchFault,
};
use block_ingest::metrics::{
    average_fee, checked_total_volume, compute_metrics, hash_rate, total_fees,
    TARGET_BLOCK_INTERVAL_SECS,
};
use block_ingest::model::{
    BlockAnnouncement, BlockDetail, BlockRecord, MarketSnapshot, MempoolSnapshot, Quotient,
    TxDetail,
};
use block_ingest::store::BlockStore;
use block_ingest::supervisor::{
    ingest, step, subscription_request, Action, FeedEvent, Phase, RECONNECT_DELAY_MILLIS,
};

fn tx(hash: &str, fee: u64, outputs: &[u64]) -> TxDetail {
    TxDetail {
        hash: Some(hash.to_string()),
        fee: Some(fee),
        outputs: outputs.iter().map(|v| Some(*v)).collect(),
    }
}

fn detail(txs: Vec<TxDetail>, difficulty: Option<u64>) -> BlockDetail {
    BlockDetail {
        hash: "abc".to_string(),
        transaction_count: Some(txs.len() as u64),
        transactions: txs,
        difficulty,
    }
}

fn announcement(height: u64) -> BlockAnnouncement {
    BlockAnnouncement { height, hash: "abc".to_string() }
}

fn value(q: &Quotient) -> f64 {
    q.numerator as f64 / q.denominator as f64
}

fn sample_record(height: u64, price: u64) -> BlockRecord {
    let d = detail(vec![tx("t1", 7, &[3])], Some(1200));
    let market = MarketSnapshot { price_usd: price, trading_volume_24h: 9 };
    build_record(announcement(height), &d, Some(market), Some(MempoolSnapshot { pending_count: 4 }))
}

fn same_record(a: &BlockRecord, b: &BlockRecord) -> bool {
    a.block_height == b.block_height
        && a.transaction_count == b.transaction_count
        && a.recent_transactions.len() == b.recent_transactions.len()
        && a.recent_transactions
            .iter()
            .zip(b.recent_transactions.iter())
            .all(|(x, y)| x.hash == y.hash && x.fee == y.fee)
        && a.average_fee == b.average_fee
        && a.total_volume == b.total_volume
        && a.difficulty == b.difficulty
        && a.hash_rate == b.hash_rate
        && a.market_price == b.market_price
        && a.trading_volume_24h == b.trading_volume_24h
        && a.active_addresses_24h == b.active_addresses_24h
        && a.mempool_size == b.mempool_size
}

#[test]
fn empty_block_has_zero_fee_and_volume() {
    let d = detail(vec![], Some(600));
    let m = compute_metrics(&d);
    assert!(m.average_fee.is_zero());
    assert_eq!(value(&m.average_fee), 0.0);
    assert_eq!(m.total_volume, 0);
    assert_eq!(total_fees(&d.transactions), 0);
}

#[test]
fn hash_rate_is_difficulty_over_interval() {
    assert_eq!(TARGET_BLOCK_INTERVAL_SECS, 600);
    let q = hash_rate(Some(60_000_000));
    assert_eq!(q, Quotient { numerator: 60_000_000, denominator: 600 });
    assert_eq!(q.whole_part(), 100_000);
    let q = hash_rate(Some(1_000));
    assert_eq!(value(&q), 1_000.0 / 600.0);
    let q = hash_rate(None);
    assert!(q.is_zero());
    assert_eq!(q.denominator, 600);
}

#[test]
fn missing_fields_count_as_zero() {
    let txs = vec![
        TxDetail { hash: None, fee: None, outputs: vec![None, Some(5)] },
        tx("b", 9, &[1, 2]),
    ];
    assert_eq!(total_fees(&txs), 9);
    assert_eq!(checked_total_volume(&txs), Some(8));
    let q = average_fee(&txs);
    assert_eq!(q, Quotient { numerator: 9, denominator: 2 });
    let s = summarize(&txs[0]);
    assert_eq!(s.hash, "");
    assert_eq!(s.fee, 0);
}

#[test]
fn volume_sums_beyond_u64() {
    let txs = vec![
        TxDetail { hash: None, fee: None, outputs: vec![Some(u64::MAX); 3] },
    ];
    assert_eq!(checked_total_volume(&txs), Some(3 * (u64::MAX as u128)));
}

#[test]
fn recent_transactions_keep_at_most_five_in_order() {
    for n in [0usize, 1, 5, 100] {
        let txs: Vec<TxDetail> = (0..n).map(|i| tx(&format!("h{i}"), i as u64, &[1])).collect();
        let r = recent_transactions(&txs);
        assert_eq!(r.len(), n.min(5));
        for (i, s) in r.iter().enumerate() {
            assert_eq!(s.hash, format!("h{i}"));
            assert_eq!(s.fee, i as u64);
        }
    }
}

#[test]
fn scenario_three_transactions() {
    let d = detail(
        vec![tx("t1", 10, &[1]), tx("t2", 20, &[2]), tx("t3", 30, &[3])],
        Some(60_000_000),
    );
    let r = enrich(
        announcement(800_000),
        Ok(d),
        Ok(MarketSnapshot { price_usd: 3_000_000, trading_volume_24h: 500 }),
        Ok(MempoolSnapshot { pending_count: 42 }),
    )
    .ok()
    .unwrap();
    assert_eq!(r.block_height, 800_000);
    assert_eq!(r.transaction_count, 3);
    assert_eq!(value(&r.average_fee), 20.0);
    assert_eq!(r.total_volume, 6);
    assert_eq!(value(&r.hash_rate), 100_000.0);
    assert_eq!(r.difficulty, 60_000_000);
    let hashes: Vec<&str> = r.recent_transactions.iter().map(|t| t.hash.as_str()).collect();
    assert_eq!(hashes, vec!["t1", "t2", "t3"]);
    let fees: Vec<u64> = r.recent_transactions.iter().map(|t| t.fee).collect();
    assert_eq!(fees, vec![10, 20, 30]);
    assert_eq!(r.market_price, 3_000_000);
    assert_eq!(r.trading_volume_24h, 500);
    assert_eq!(r.mempool_size, 42);
    assert_eq!(r.active_addresses_24h, 0);
}

#[test]
fn market_and_mempool_failures_use_defaults_and_persist() {
    let mut store = BlockStore::new();
    let d = detail(vec![tx("t1", 10, &[1])], Some(600));
    let r = ingest(
        &mut store,
        announcement(7),
        Ok(d),
        Err(FetchFault::Transport),
        Err(FetchFault::Malformed),
    );
    assert!(r.is_ok());
    let rec = store.get(7).unwrap();
    assert_eq!(rec.market_price, 0);
    assert_eq!(rec.trading_volume_24h, 0);
    assert_eq!(rec.mempool_size, 0);
    assert_eq!(rec.active_addresses_24h, 0);
    assert_eq!(rec.transaction_count, 1);
    assert_eq!(value(&rec.hash_rate), 1.0);
}

#[test]
fn detail_failure_stores_nothing() {
    let mut store = BlockStore::new();
    let r = ingest(
        &mut store,
        announcement(7),
        Err(FetchFault::Status { code: 503 }),
        Ok(MarketSnapshot { price_usd: 1, trading_volume_24h: 1 }),
        Ok(MempoolSnapshot { pending_count: 1 }),
    );
    assert_eq!(r, Err(EnrichError::DetailFetch(FetchFault::Status { code: 503 })));
    assert_eq!(store.len(), 0);
    assert!(store.get(7).is_none());
}

#[test]
fn large_volume_still_fits() {
    let many: Vec<TxDetail> = (0..3)
        .map(|_| TxDetail { hash: None, fee: None, outputs: vec![Some(u64::MAX); 1] })
        .collect();
    assert!(checked_total_volume(&many).is_some());
    let mut store = BlockStore::new();
    let fits = detail(many, None);
    assert!(ingest(&mut store, announcement(1), Ok(fits), Err(FetchFault::Transport), Err(FetchFault::Transport)).is_ok());
    assert_eq!(store.len(), 1);
}

#[test]
fn upsert_twice_equals_once() {
    let mut once = BlockStore::new();
    once.upsert(sample_record(5, 100));
    let mut twice = BlockStore::new();
    twice.upsert(sample_record(5, 100));
    twice.upsert(sample_record(5, 100));
    assert_eq!(once.len(), 1);
    assert_eq!(twice.len(), 1);
    assert!(same_record(once.get(5).unwrap(), twice.get(5).unwrap()));
}

#[test]
fn upsert_same_height_overwrites_every_field() {
    let mut store = BlockStore::new();
    store.upsert(sample_record(5, 100));
    store.upsert(sample_record(6, 100));
    let mut r2 = build_record(
        announcement(5),
        &detail(vec![], None),
        None,
        None,
    );
    r2.market_price = 250;
    store.upsert(r2);
    let expected = {
        let mut r = build_record(announcement(5), &detail(vec![], None), None, None);
        r.market_price = 250;
        r
    };
    assert_eq!(store.len(), 2);
    let got = store.get(5).unwrap();
    assert!(same_record(got, &expected));
    assert_eq!(got.recent_transactions.len(), 0);
    assert_eq!(got.mempool_size, 0);
    assert_eq!(store.get(6).unwrap().market_price, 100);
}

#[test]
fn reconnect_after_reset() {
    let (p, a) = step(Phase::Streaming, FeedEvent::Faulted);
    assert_eq!(p, Phase::Backoff);
    assert!(matches!(a, Action::Wait { millis } if millis == RECONNECT_DELAY_MILLIS));
    assert_eq!(RECONNECT_DELAY_MILLIS, 5000);
    let (p, a) = step(p, FeedEvent::DelayElapsed);
    assert_eq!(p, Phase::Connecting);
    assert!(matches!(a, Action::OpenConnection));
    let (p, a) = step(p, FeedEvent::ConnectFailed);
    assert_eq!(p, Phase::Backoff);
    assert!(matches!(a, Action::Wait { millis: 5000 }));
    let (p, _) = step(p, FeedEvent::DelayElapsed);
    let (p, a) = step(p, FeedEvent::Connected);
    assert_eq!(p, Phase::Streaming);
    assert!(matches!(a, Action::SendSubscription));
    let (p, a) = step(p, FeedEvent::Announcement(announcement(800_001)));
    assert_eq!(p, Phase::Streaming);
    match a {
        Action::Process(ann) => assert_eq!(ann.height, 800_001),
        _ => panic!("expected an announcement to process"),
    }
}

#[test]
fn closed_stream_and_junk_frames() {
    let (p, a) = step(Phase::Streaming, FeedEvent::Unrecognized);
    assert_eq!(p, Phase::Streaming);
    assert!(matches!(a, Action::Continue));
    let (p, a) = step(Phase::Streaming, FeedEvent::Closed);
    assert_eq!(p, Phase::Backoff);
    assert!(matches!(a, Action::Wait { millis: 5000 }));
    let (p, a) = step(Phase::Backoff, FeedEvent::Connected);
    assert_eq!(p, Phase::Backoff);
    assert!(matches!(a, Action::Wait { .. }));
}

#[test]
fn subscription_message_text() {
    assert_eq!(subscription_request(), "{\"op\":\"blocks_sub\"}");
}

#[test]
fn mempool_body_decodes_to_count() {
    assert_eq!(decode_mempool("4213").unwrap().pending_count, 4213);
    assert_eq!(decode_mempool("0").unwrap().pending_count, 0);
    assert_eq!(decode_mempool("18446744073709551615").unwrap().pending_count, u64::MAX);
    assert_eq!(decode_mempool("busy").unwrap_err(), FetchFault::Malformed);
    assert_eq!(decode_mempool("-3").unwrap_err(), FetchFault::Malformed);
    assert_eq!(decode_mempool("18446744073709551616").unwrap_err(), FetchFault::Malformed);
}

#[test]
fn placeholder_record_is_all_zero() {
    let r = BlockRecord::placeholder();
    assert_eq!(r.block_height, 0);
    assert_eq!(r.transaction_count, 0);
    assert!(r.recent_transactions.is_empty());
    assert!(r.average_fee.is_zero());
    assert_eq!(r.average_fee.denominator, 1);
    assert_eq!(r.total_volume, 0);
    assert_eq!(r.difficulty, 0);
    assert!(r.hash_rate.is_zero());
    assert_eq!(r.market_price, 0);
    assert_eq!(r.trading_volume_24h, 0);
    assert_eq!(r.active_addresses_24h, 0);
    assert_eq!(r.mempool_size, 0);
}
