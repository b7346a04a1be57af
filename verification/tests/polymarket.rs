use obird::decimal::{Dec, Price, Quantity};
use obird::types::error::ConnectorError;
use obird::types::event::Event;
use obird::types::instrument::{Exchange, InstrumentId, InstrumentKind};
use obird::types::order::{OrderRequest, OrderSide, TimeInForce};
use obird::venues::polymarket::{
    check_order_price, is_pong, next_backoff, parse_ts_ms, poly_decimal_precision, recv_timed_out,
    token_ids_from, BookState, PolyOrders, PolymarketEvent, PolymarketFeedState, PolymarketMarketDataFeed,
    PriceChangeEntry, PriceLevel,
};

fn d(m: i64, s: u32) -> Dec {
    Dec::new(m, s)
}

fn lvl(p: &str, s: &str) -> PriceLevel {
    PriceLevel { price: p.to_string(), size: s.to_string() }
}

fn chg(p: &str, s: &str, side: &str) -> PriceChangeEntry {
    PriceChangeEntry { price: p.to_string(), size: s.to_string(), side: side.to_string() }
}

fn inst(sym: &str) -> InstrumentId {
    InstrumentId::new(Exchange::Polymarket, InstrumentKind::Binary, sym.to_string())
}

#[test]
fn snapshot_keeps_best_levels() {
    let mut b = BookState::new();
    b.apply_snapshot(
        &vec![lvl("0.40", "10"), lvl("0.45", "5"), lvl("bad", "1"), lvl("0.30", "0")],
        &vec![lvl("0.55", "3"), lvl("0.50", "2")],
    );
    assert_eq!(b.best_bid(), Some(d(45, 2)));
    assert_eq!(b.best_ask(), Some(d(50, 2)));
    assert_eq!(b.bids.len(), 2);
    let snap = b.to_snapshot(7).unwrap();
    assert_eq!(snap.bids[0].1.inner(), d(5, 0));
    assert_eq!(snap.asks[0].0.inner(), d(50, 2));
    assert_eq!(snap.timestamp_ns, 7);
}

#[test]
fn zero_size_change_removes_and_others_replace() {
    let mut b = BookState::new();
    b.apply_snapshot(&vec![lvl("0.40", "10"), lvl("0.45", "5")], &vec![lvl("0.50", "2")]);
    b.apply_changes(&vec![chg("0.45", "0", "BUY"), chg("0.5", "9", "SELL"), chg("0.48", "1", "OTHER")]);
    assert_eq!(b.best_bid(), Some(d(40, 2)));
    assert_eq!(b.asks.len(), 1);
    assert_eq!(b.asks[0].1, d(9, 0));
    b.apply_changes(&vec![chg("0.50", "0", "SELL")]);
    assert_eq!(b.best_ask(), None);
    assert!(b.to_snapshot(1).is_none());
}

#[test]
fn timestamps_in_milliseconds() {
    assert_eq!(parse_ts_ms(&Some("1700".to_string()), 5), 1_700_000_000);
    assert_eq!(parse_ts_ms(&Some("x".to_string()), 5), 5);
    assert_eq!(parse_ts_ms(&None, 5), 5);
    assert!(is_pong("  PONG\n"));
    assert!(!is_pong("PING"));
}

#[test]
fn feed_publishes_two_sided_books() {
    let mut st = PolymarketFeedState::new(vec![("tok".to_string(), inst("A")), ("tok".to_string(), inst("B"))]);
    assert_eq!(st.books.len(), 1);
    let ev = PolymarketEvent::Book {
        asset_id: "tok".to_string(),
        bids: vec![lvl("0.4", "1")],
        asks: vec![lvl("0.6", "1")],
        timestamp: Some("2".to_string()),
    };
    match st.on_event(&ev, 9).unwrap() {
        Event::BookUpdate { instrument, exchange_ts_ns, local_ts_ns, .. } => {
            assert_eq!(instrument, inst("B"));
            assert_eq!(exchange_ts_ns, 2_000_000);
            assert_eq!(local_ts_ns, 9);
        }
        _ => panic!(),
    }
    let other = PolymarketEvent::PriceChange { asset_id: "nope".to_string(), changes: vec![], timestamp: None };
    assert!(st.on_event(&other, 9).is_none());
    let pongs = st.on_pong(11);
    assert_eq!(pongs.len(), 1);
    let one_sided = PolymarketEvent::PriceChange {
        asset_id: "tok".to_string(),
        changes: vec![chg("0.6", "0", "SELL")],
        timestamp: None,
    };
    assert!(st.on_event(&one_sided, 12).is_none());
    assert!(st.on_pong(13).is_empty());
}

#[test]
fn reconnection_backoff_doubles_to_thirty() {
    assert_eq!(next_backoff(1), 2);
    assert_eq!(next_backoff(16), 30);
    assert_eq!(next_backoff(30), 30);
    assert!(recv_timed_out(60));
    assert!(!recv_timed_out(59));
}

#[test]
fn token_lookup_checks_the_reply() {
    let one = vec!["[\"y\", \"n\"]".to_string()];
    assert_eq!(token_ids_from(&one, "c1"), Ok(("y".to_string(), "n".to_string())));
    assert_eq!(
        token_ids_from(&vec![], "c1"),
        Err("No Polymarket market found for condition_id=c1".to_string())
    );
    assert_eq!(
        token_ids_from(&vec!["[]".to_string(), "[]".to_string()], "c1"),
        Err("Gamma API returned 2 markets for condition_ids=c1 — filter was not applied (API contract changed?)".to_string())
    );
    assert_eq!(
        token_ids_from(&vec!["[\"y\"]".to_string()], "c1"),
        Err("Expected 2 token IDs for condition_id=c1, got 1".to_string())
    );
    let bad = token_ids_from(&vec!["not json".to_string()], "c1").unwrap_err();
    assert!(bad.starts_with("Failed to parse clobTokenIds JSON: "));
}

fn req(p: Dec) -> OrderRequest {
    OrderRequest {
        instrument: inst("123"),
        side: OrderSide::Buy,
        price: Price::new(p),
        quantity: Quantity::new(d(1, 0)),
        tif: TimeInForce::Gtc,
        client_order_id: None,
    }
}

#[test]
fn execution_price_bounds() {
    assert!(check_order_price(&req(d(5, 1))).is_ok());
    assert!(check_order_price(&req(d(1, 2))).is_ok());
    match check_order_price(&req(d(995, 3))) {
        Err(ConnectorError::OrderRejected(m)) => assert_eq!(m, "price 0.995 out of bounds [0.01, 0.99]"),
        _ => panic!(),
    }
    assert_eq!(poly_decimal_precision(&inst("x")), Some(2));
}

#[test]
fn execution_tracks_orders() {
    let mut o = PolyOrders::new();
    o.record_placed("o1".to_string(), inst("A"));
    o.record_placed("o2".to_string(), inst("B"));
    let open = o.open_orders(&inst("A"));
    assert_eq!(open.len(), 1);
    assert_eq!(open[0].order_id, "o1");
    assert_eq!(open[0].side, OrderSide::Buy);
    o.cancelled("o1");
    assert_eq!(o.cancel_all_ids(), vec!["o2".to_string()]);
    o.clear();
    assert!(o.cancel_all_ids().is_empty());
    let f = PolymarketMarketDataFeed::new(vec![("t1".to_string(), inst("A"))]);
    assert_eq!(f.token_ids(), vec!["t1".to_string()]);
}

#[test]
fn heartbeat_republishes_in_book_order() {
    let mut st = PolymarketFeedState::new(vec![
        ("t1".to_string(), inst("A")),
        ("t2".to_string(), inst("B")),
        ("t3".to_string(), inst("C")),
    ]);
    for tok in ["t3", "t1"] {
        let ev = PolymarketEvent::Book {
            asset_id: tok.to_string(),
            bids: vec![lvl("0.4", "1")],
            asks: vec![lvl("0.6", "1")],
            timestamp: None,
        };
        assert!(st.on_event(&ev, 1).is_some());
    }
    let pongs = st.on_pong(50);
    assert_eq!(pongs.len(), 2);
    let names: Vec<InstrumentId> = pongs
        .iter()
        .map(|e| match e {
            Event::BookUpdate { instrument, exchange_ts_ns, local_ts_ns, .. } => {
                assert_eq!(*exchange_ts_ns, 50);
                assert_eq!(*local_ts_ns, 50);
                instrument.clone()
            }
            _ => panic!(),
        })
        .collect();
    assert_eq!(names, vec![inst("A"), inst("C")]);
}

#[test]
fn subscription_names_every_token_with_lowercase_market_type() {
    let feed = PolymarketMarketDataFeed::new(vec![("t1".to_string(), inst("A")), ("t\"2".to_string(), inst("B"))]);
    assert_eq!(feed.subscription_message(), "{\"assets_ids\":[\"t1\",\"t\\\"2\"],\"type\":\"market\"}");
    // The same text as the JSON object built by serde_json.
    let mut m = serde_json::Map::new();
    m.insert("type".to_string(), serde_json::Value::String("market".to_string()));
    m.insert(
        "assets_ids".to_string(),
        serde_json::Value::Array(vec![
            serde_json::Value::String("t1".to_string()),
            serde_json::Value::String("t\"2".to_string()),
        ]),
    );
    let expected = serde_json::Value::Object(m).to_string();
    assert_eq!(feed.subscription_message(), expected);
}

#[test]
fn pong_check_trims_unicode_white_space_only() {
    assert!(is_pong("\u{3000}\u{85}PONG\u{2009}\r\n"));
    assert!(!is_pong("\u{200b}PONG"));
    assert!(!is_pong("PONG!"));
}

#[test]
fn subscription_escapes_control_characters_as_json_does() {
    let feed = PolymarketMarketDataFeed::new(vec![
        ("a\u{1}b".to_string(), inst("A")),
        ("c\nd\\".to_string(), inst("B")),
        ("\u{1f}\u{7f}".to_string(), inst("C")),
    ]);
    assert_eq!(
        feed.subscription_message(),
        "{\"assets_ids\":[\"a\\u0001b\",\"c\\nd\\\\\",\"\\u001f\u{7f}\"],\"type\":\"market\"}"
    );
}
