use std::collections::VecDeque;

use deribit_mcp::resources::live::{
    channel_name_for, notify_gate, push_history, Published, SubscriptionTable,
    DEFAULT_NOTIFY_INTERVAL_NANOS, HISTORY_CAPACITY,
};
use deribit_mcp::resources::ResourceUri;

fn book_btc() -> ResourceUri {
    ResourceUri::Book { instrument: "BTC-PERPETUAL".to_string() }
}

/// `subscribe` as the runtime drives it: the fast path, else open the
/// upstream channel and publish. Returns the id and whether a channel was
/// opened.
fn subscribe(table: &mut SubscriptionTable, uri: &ResourceUri, opened: &mut u32) -> u64 {
    if let Some(id) = table.try_attach(uri) {
        return id;
    }
    *opened += 1;
    match table.publish(uri) {
        Published::Fresh(id) => id,
        Published::Joined(id) => id,
    }
}

#[test]
fn first_subscribe_opens_upstream() {
    let mut table = SubscriptionTable::new();
    let mut opened = 0;
    let _id = subscribe(&mut table, &book_btc(), &mut opened);
    assert_eq!(table.refcount(&book_btc()), 1);
    assert_eq!(opened, 1);
}

#[test]
fn second_subscribe_reuses_entry() {
    let mut table = SubscriptionTable::new();
    let mut opened = 0;
    let h1 = subscribe(&mut table, &book_btc(), &mut opened);
    let h2 = subscribe(&mut table, &book_btc(), &mut opened);
    assert_eq!(h1, h2);
    assert_eq!(table.refcount(&book_btc()), 2);
    assert_eq!(opened, 1, "upstream should have been opened exactly once");
}

#[test]
fn dropping_last_handle_closes_upstream_and_removes_entry() {
    let mut table = SubscriptionTable::new();
    let mut opened = 0;
    let h1 = subscribe(&mut table, &book_btc(), &mut opened);
    let h2 = subscribe(&mut table, &book_btc(), &mut opened);
    assert_eq!(table.refcount(&book_btc()), 2);

    assert!(!table.release(&book_btc(), h2));
    assert_eq!(table.refcount(&book_btc()), 1);

    assert!(table.release(&book_btc(), h1));
    assert_eq!(table.teardown(&book_btc()), Some(h1));
    assert!(table.is_empty());
    assert_eq!(table.refcount(&book_btc()), 0);
}

#[test]
fn resubscribe_before_teardown_keeps_the_channel() {
    let mut table = SubscriptionTable::new();
    let mut opened = 0;
    let h1 = subscribe(&mut table, &book_btc(), &mut opened);
    assert!(table.release(&book_btc(), h1));
    let h2 = subscribe(&mut table, &book_btc(), &mut opened);
    assert_eq!(h1, h2);
    assert_eq!(opened, 1);
    assert_eq!(table.teardown(&book_btc()), None);
    assert_eq!(table.refcount(&book_btc()), 1);
    assert_eq!(table.len(), 1);
}

#[test]
fn racing_publish_joins_the_first_subscription() {
    let mut table = SubscriptionTable::new();
    assert_eq!(table.try_attach(&book_btc()), None);
    assert_eq!(table.try_attach(&book_btc()), None);
    let first = table.publish(&book_btc());
    let second = table.publish(&book_btc());
    match (first, second) {
        (Published::Fresh(a), Published::Joined(b)) => assert_eq!(a, b),
        other => panic!("unexpected: {other:?}"),
    }
    assert_eq!(table.refcount(&book_btc()), 2);
}

#[test]
fn distinct_uris_get_distinct_ids() {
    let mut table = SubscriptionTable::new();
    let mut opened = 0;
    let a = subscribe(&mut table, &book_btc(), &mut opened);
    let ticker = ResourceUri::Ticker { instrument: "BTC-PERPETUAL".to_string() };
    let b = subscribe(&mut table, &ticker, &mut opened);
    assert_ne!(a, b);
    assert_eq!(opened, 2);
    assert_eq!(table.len(), 2);
    assert!(table.release(&ticker, b));
    assert_eq!(table.teardown(&ticker), Some(b));
    assert_eq!(table.refcount(&book_btc()), 1);
    // A later subscription to the torn-down URI is a fresh one.
    let c = subscribe(&mut table, &ticker, &mut opened);
    assert_ne!(c, b);
    assert_eq!(opened, 3);
}

#[test]
fn notification_sink_fires_after_first_frame() {
    let mut last = None;
    assert!(notify_gate(0, &mut last, 5));
    assert_eq!(last, Some(5));
}

#[test]
fn notification_throttle_coalesces_burst_into_single_emit() {
    // A hundred frames in immediate succession against a 1 s interval.
    let interval = 1_000_000_000u64;
    let mut last = None;
    let mut n = 0;
    for i in 0..100u64 {
        if notify_gate(interval, &mut last, 1_000 + i * 10) {
            n += 1;
        }
    }
    assert_eq!(n, 1, "throttle must coalesce 100-frame burst into a single notification (got {n})");
    // Once the interval has elapsed the next frame fires again.
    assert!(notify_gate(interval, &mut last, 1_000 + interval));
}

#[test]
fn throttle_off_fires_every_frame_and_backwards_clock_waits() {
    let mut last = None;
    for t in [3u64, 3, 2, 10] {
        assert!(notify_gate(0, &mut last, t));
    }
    let mut last = Some(1_000u64);
    assert!(!notify_gate(DEFAULT_NOTIFY_INTERVAL_NANOS, &mut last, 10));
    assert_eq!(last, Some(1_000));
    assert_eq!(DEFAULT_NOTIFY_INTERVAL_NANOS, 100_000_000);
}

#[test]
fn history_keeps_newest_first_up_to_capacity() {
    let mut h: VecDeque<u32> = VecDeque::new();
    for i in 0..40u32 {
        push_history(&mut h, i);
    }
    assert_eq!(h.len(), HISTORY_CAPACITY);
    assert_eq!(h.front(), Some(&39));
    assert_eq!(h.back(), Some(&8));
}

#[test]
fn channel_names_match_deribit_taxonomy() {
    assert_eq!(
        channel_name_for(&ResourceUri::Book { instrument: "BTC-PERPETUAL".to_string() }),
        "book.BTC-PERPETUAL.raw"
    );
    assert_eq!(
        channel_name_for(&ResourceUri::Ticker { instrument: "ETH-PERPETUAL".to_string() }),
        "ticker.ETH-PERPETUAL.100ms"
    );
    assert_eq!(
        channel_name_for(&ResourceUri::Trades { instrument: "BTC-31MAY24-50000-C".to_string() }),
        "trades.BTC-31MAY24-50000-C.raw"
    );
}

#[test]
fn fresh_table_publishes_id_zero() {
    let mut table = SubscriptionTable::new();
    assert_eq!(table.fresh_id(), 0);
    assert_eq!(table.publish(&book_btc()), Published::Fresh(0));
    assert_eq!(table.fresh_id(), 1);
    assert_eq!(table.lookup(&book_btc()), Some((0, 1)));
}
