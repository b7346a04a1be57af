use obird::decimal::{Dec, Price, Quantity};
use obird::types::error::ConnectorError;
use obird::types::event::Event;
use obird::types::instrument::{Exchange, InstrumentId, InstrumentKind};
use obird::types::order::{OrderRequest, OrderSide, OrderStatus, TimeInForce};
use obird::venues::predict_fun::{
    api_endpoint, book_update, from_wei, on_request_response, orderbook_to_snapshot, outcome_symbol,
    position_from_raw, to_wei, PlaceReply, PredictFillDetails, PredictFunClient, PredictFunParams, PredictLevel, PredictMarket,
    PredictOpenOrderRaw, PredictOrderbook, PredictOrders, PredictPositionRaw, PredictWalletEvent,
    WsReplyAction,
};

fn d(m: i64, s: u32) -> Dec {
    Dec::new(m, s)
}

fn params() -> PredictFunParams {
    PredictFunParams {
        market_id: 42,
        yes_outcome_name: "YES".to_string(),
        yes_token_id: "111".to_string(),
        no_outcome_name: "NO".to_string(),
        no_token_id: "222".to_string(),
        is_neg_risk: true,
        is_yield_bearing: false,
        fee_rate_bps: 200,
        polymarket_yes_token_id: None,
        polymarket_no_token_id: None,
    }
}

fn yes() -> InstrumentId {
    InstrumentId::new(Exchange::PredictFun, InstrumentKind::Binary, "42-YES".to_string())
}

fn no() -> InstrumentId {
    InstrumentId::new(Exchange::PredictFun, InstrumentKind::Binary, "42-NO".to_string())
}

#[test]
fn test_to_wei_round_trip() {
    let price = d(5, 1);
    let wei = to_wei(price);
    assert_eq!(wei, "500000000000000000");
    assert_eq!(from_wei(&wei), price);
}

#[test]
fn test_from_wei_ten_shares() {
    assert_eq!(from_wei("10000000000000000000"), d(10, 0));
}

#[test]
fn test_from_wei_zero() {
    assert_eq!(from_wei("0"), Dec::zero());
    assert_eq!(from_wei("invalid"), Dec::zero());
}

#[test]
fn wei_round_trip_holds_for_large_values_with_fractions() {
    // 70000000000.123456 * 10^18 needs more than 96 bits before the zeros are dropped.
    let v = Dec::parse_str("70000000000.123456").unwrap();
    let wei = to_wei(v);
    assert_eq!(wei, "70000000000123456000000000000");
    assert_eq!(from_wei(&wei), v);
    let n = Dec::parse_str("-0.000000000000000001").unwrap();
    assert_eq!(to_wei(n), "-1");
    assert_eq!(from_wei(&to_wei(n)), n);
}

#[test]
fn to_wei_truncates_below_one_wei() {
    // 1.23456789012345678912 has more than 18 fractional digits: the rest is cut.
    let v = Dec::parse_str("1.23456789012345678912").unwrap();
    assert_eq!(to_wei(v), "1234567890123456789");
}

#[test]
fn snapshot_sorts_bids_down_and_asks_up_stably() {
    let book = PredictOrderbook {
        bids: vec![
            PredictLevel { price: d(40, 2), size: d(1, 0) },
            PredictLevel { price: d(45, 2), size: d(2, 0) },
            PredictLevel { price: d(40, 2), size: d(3, 0) },
        ],
        asks: vec![
            PredictLevel { price: d(60, 2), size: d(4, 0) },
            PredictLevel { price: d(55, 2), size: d(5, 0) },
        ],
        timestamp: Some(1_700),
    };
    let snap = orderbook_to_snapshot(&book, 99);
    let bids: Vec<(Dec, Dec)> = snap.bids.iter().map(|(p, q)| (p.inner(), q.inner())).collect();
    assert_eq!(bids, vec![(d(45, 2), d(2, 0)), (d(40, 2), d(1, 0)), (d(40, 2), d(3, 0))]);
    assert_eq!(snap.best_ask().unwrap().0.inner(), d(55, 2));
    assert_eq!(snap.timestamp_ns, 1_700_000_000);
}

#[test]
fn snapshot_falls_back_to_local_time_and_saturates() {
    let mut book = PredictOrderbook { bids: vec![], asks: vec![], timestamp: None };
    assert_eq!(orderbook_to_snapshot(&book, 77).timestamp_ns, 77);
    book.timestamp = Some(u64::MAX);
    assert_eq!(orderbook_to_snapshot(&book, 77).timestamp_ns, u64::MAX);
}

#[test]
fn book_update_goes_to_yes_instrument() {
    let book = PredictOrderbook {
        bids: vec![PredictLevel { price: d(4, 1), size: d(1, 0) }],
        asks: vec![],
        timestamp: Some(5),
    };
    match book_update(&book, &yes(), 10) {
        Event::BookUpdate { instrument, exchange_ts_ns, local_ts_ns, .. } => {
            assert_eq!(instrument, yes());
            assert_eq!(exchange_ts_ns, 5_000_000);
            assert_eq!(local_ts_ns, 10);
        }
        _ => panic!("expected a book update"),
    }
}

#[test]
fn symbols_and_endpoints() {
    assert_eq!(outcome_symbol(42, "YES"), "42-YES");
    let (chain, url) = api_endpoint(true);
    assert_eq!((chain, url), (97, "https://api-testnet.predict.fun"));
    assert_eq!(api_endpoint(false).0, 56);
}

#[test]
fn market_from_params() {
    let m = PredictMarket::from_params(&params(), None);
    assert_eq!(m.yes_instrument, yes());
    assert_eq!(m.no_instrument, no());
    assert_eq!(m.decimal_precision, 2);
    assert_eq!(m.token_id_for(&yes()).ok(), Some("111".to_string()));
    assert_eq!(m.decimal_precision(&no()), Some(2));
    let other = InstrumentId::new(Exchange::PredictFun, InstrumentKind::Binary, "7-X".to_string());
    match m.token_id_for(&other) {
        Err(ConnectorError::OrderRejected(msg)) => {
            assert_eq!(msg, "unknown instrument '7-X' — expected one of: [\"42-YES\", \"42-NO\"]")
        }
        _ => panic!("expected a rejection"),
    }
    let m3 = PredictMarket::from_params(&params(), Some(3));
    assert_eq!(m3.decimal_precision, 3);
}

fn req(instrument: InstrumentId, price: Dec) -> OrderRequest {
    OrderRequest {
        instrument,
        side: OrderSide::Buy,
        price: Price::new(price),
        quantity: Quantity::new(d(10, 0)),
        tif: TimeInForce::PostOnly,
        client_order_id: None,
    }
}

#[test]
fn place_checks_shutdown_bounds_and_instrument() {
    let m = PredictMarket::from_params(&params(), None);
    match m.prepare_place(true, &req(yes(), d(5, 1))) {
        Err(ConnectorError::OrderRejected(msg)) => assert_eq!(msg, "shutting down"),
        _ => panic!(),
    }
    match m.prepare_place(false, &req(yes(), d(9995, 4))) {
        Err(ConnectorError::OrderRejected(msg)) => {
            assert_eq!(msg, "price 0.9995 out of bounds (0.001, 0.999)")
        }
        _ => panic!(),
    }
    match m.prepare_place(false, &req(yes(), d(5, 4))) {
        Err(ConnectorError::OrderRejected(msg)) => {
            assert_eq!(msg, "price 0.0005 out of bounds (0.001, 0.999)")
        }
        _ => panic!(),
    }
    // The bounds themselves are outside the open interval.
    match m.prepare_place(false, &req(yes(), d(999, 3))) {
        Err(ConnectorError::OrderRejected(msg)) => {
            assert_eq!(msg, "price 0.999 out of bounds (0.001, 0.999)")
        }
        _ => panic!(),
    }
    match m.prepare_place(false, &req(yes(), d(1, 3))) {
        Err(ConnectorError::OrderRejected(msg)) => {
            assert_eq!(msg, "price 0.001 out of bounds (0.001, 0.999)")
        }
        _ => panic!(),
    }
    let p = m.prepare_place(false, &req(no(), d(998, 3))).ok().unwrap();
    assert_eq!(p.token_id, "222");
    assert_eq!(p.price_wei, Dec::parse_str("998000000000000000").unwrap());
    assert_eq!(p.qty_wei, Dec::parse_str("10000000000000000000").unwrap());
    assert!(p.is_neg_risk);
    assert_eq!(p.fee_rate_bps, 200);
}

fn success(hash: &str, price: Option<&str>, qty: Option<&str>, quote: Option<&str>) -> PredictWalletEvent {
    PredictWalletEvent::OrderTransactionSuccess {
        order_hash: hash.to_string(),
        details: PredictFillDetails {
            price: price.map(|s| s.to_string()),
            quantity_filled: qty.map(|s| s.to_string()),
            quote_type: quote.map(|s| s.to_string()),
        },
    }
}

#[test]
fn wallet_events_update_the_books() {
    let mut orders = PredictOrders::new();
    orders.record_placed("0xa".to_string(), "1".to_string(), OrderSide::Buy, yes());
    orders.record_placed("0xb".to_string(), "2".to_string(), OrderSide::Buy, no());

    let out = orders.on_wallet_event(PredictWalletEvent::OrderAccepted { order_hash: "0xa".to_string() }, 5);
    assert!(out.fill.is_none());
    let u = out.update.unwrap();
    assert_eq!(u.status, OrderStatus::Acknowledged);
    assert_eq!(u.instrument, yes());
    assert_eq!(orders.cancel_target("0xa"), Some("1".to_string()));

    let out = orders.on_wallet_event(success("0xb", Some("0.42"), Some("7"), Some("ASK")), 6);
    let f = out.fill.unwrap();
    assert_eq!(f.side, OrderSide::Sell);
    assert_eq!(f.instrument, no());
    assert_eq!(f.price.inner(), d(42, 2));
    assert_eq!(f.quantity.inner(), d(7, 0));
    let u = out.update.unwrap();
    assert_eq!(u.status, OrderStatus::Filled);
    assert_eq!(u.avg_fill_price.unwrap().inner(), d(42, 2));
    assert_eq!(orders.cancel_target("0xb"), None);

    // A repeated fill still resolves to the NO instrument.
    let again = orders.on_wallet_event(success("0xb", None, Some("bad"), None), 7);
    let f = again.fill.unwrap();
    assert_eq!(f.instrument, no());
    assert_eq!(f.side, OrderSide::Buy);
    assert_eq!(f.price.inner(), Dec::zero());
    assert_eq!(f.quantity.inner(), Dec::zero());

    let out = orders.on_wallet_event(PredictWalletEvent::OrderExpired { order_hash: "0xa".to_string() }, 8);
    assert_eq!(out.update.unwrap().status, OrderStatus::Cancelled);

    let none = orders.on_wallet_event(PredictWalletEvent::OrderAccepted { order_hash: "0xzz".to_string() }, 9);
    assert!(none.fill.is_none() && none.update.is_none());
    let none = orders.on_wallet_event(PredictWalletEvent::Unknown { event_type: "x".to_string() }, 9);
    assert!(none.update.is_none());
    let failed = orders.on_wallet_event(PredictWalletEvent::OrderTransactionFailed { order_hash: "0xa".to_string() }, 9);
    assert!(failed.update.is_none());
}

#[test]
fn rejected_order_leaves_active_orders() {
    let mut orders = PredictOrders::new();
    orders.record_placed("h".to_string(), "9".to_string(), OrderSide::Sell, yes());
    let out = orders.on_wallet_event(
        PredictWalletEvent::OrderNotAccepted { order_hash: "h".to_string(), reason: None },
        1,
    );
    assert_eq!(out.update.unwrap().status, OrderStatus::Rejected);
    assert_eq!(orders.cancel_target("h"), None);
    assert_eq!(orders.instrument_for("h"), Some(yes()));
}

#[test]
fn late_fill_after_cancel_all_resolves() {
    let mut orders = PredictOrders::new();
    orders.record_placed("h1".to_string(), "11".to_string(), OrderSide::Buy, no());
    orders.clear_active();
    assert_eq!(orders.cancel_target("h1"), None);
    assert_eq!(orders.instrument_for("h1"), Some(no()));
}

#[test]
fn cancel_all_in_one_request() {
    let mut orders = PredictOrders::new();
    for i in 0..250 {
        orders.record_placed(format!("h{i}"), format!("{i}"), OrderSide::Buy, yes());
    }
    let ids = orders.cancel_all_request().unwrap();
    assert_eq!(ids.len(), 250);
    assert_eq!(ids[249], "249");
    assert!(PredictOrders::new().cancel_all_request().is_none());
}

#[test]
fn modify_keeps_side_and_posts_only() {
    let mut orders = PredictOrders::new();
    orders.record_placed("h".to_string(), "1".to_string(), OrderSide::Sell, yes());
    let r = orders.modify_request(&yes(), "h", Price::new(d(3, 1)), Quantity::new(d(2, 0)));
    assert_eq!(r.side, OrderSide::Sell);
    assert_eq!(r.tif, TimeInForce::PostOnly);
    let r = orders.modify_request(&yes(), "unknown", Price::new(d(3, 1)), Quantity::new(d(2, 0)));
    assert_eq!(r.side, OrderSide::Buy);
}

fn raw(id: &str, hash: &str, token: &str, side: u64, maker: &str, taker: &str) -> PredictOpenOrderRaw {
    PredictOpenOrderRaw {
        id: id.to_string(),
        hash: hash.to_string(),
        token_id: token.to_string(),
        side,
        maker_amount: maker.to_string(),
        taker_amount: taker.to_string(),
        amount_filled: "1000000000000000000".to_string(),
    }
}

#[test]
fn seeding_takes_only_this_markets_orders() {
    let m = PredictMarket::from_params(&params(), None);
    let listed = vec![
        raw("1", "ha", "111", 0, "1", "1"),
        raw("2", "hb", "333", 0, "1", "1"),
        raw("3", "hc", "222", 1, "1", "1"),
    ];
    let seeded = m.seed_orders(&listed);
    assert_eq!(seeded.instrument_for("ha"), Some(yes()));
    assert_eq!(seeded.instrument_for("hb"), None);
    assert_eq!(seeded.instrument_for("hc"), Some(no()));
    assert_eq!(seeded.modify_side("hc"), OrderSide::Sell);
    assert_eq!(seeded.cancel_target("hc"), Some("3".to_string()));
}

#[test]
fn open_orders_price_from_amounts() {
    let m = PredictMarket::from_params(&params(), None);
    let listed = vec![
        // buy: pays 4 (maker) for 10 shares (taker) at 0.4
        raw("1", "ha", "111", 0, "4000000000000000000", "10000000000000000000"),
        // sell: gives 5 shares (maker) for 3 (taker) at 0.6
        raw("2", "hb", "222", 1, "5000000000000000000", "3000000000000000000"),
        raw("3", "hc", "999", 0, "1", "1"),
        // zero denominator: price zero
        raw("4", "hd", "111", 0, "1", "0"),
    ];
    let oo = m.open_orders_from(&listed).unwrap();
    assert_eq!(oo.len(), 3);
    assert_eq!(oo[0].price.inner(), d(4, 1));
    assert_eq!(oo[0].quantity.inner(), d(10, 0));
    assert_eq!(oo[0].filled_qty.inner(), d(1, 0));
    assert_eq!(oo[1].instrument, no());
    assert_eq!(oo[1].side, OrderSide::Sell);
    assert_eq!(oo[1].price.inner(), d(6, 1));
    assert_eq!(oo[1].quantity.inner(), d(5, 0));
    assert_eq!(oo[2].price.inner(), Dec::zero());
    // A denominator so small that the price overflows refuses the listing.
    let bad = vec![raw("5", "he", "111", 0, "70000000000000000000000000000", "0.0000000000000000000000000001")];
    assert!(m.open_orders_from(&bad).is_none());
}

#[test]
fn positions_from_wei() {
    let p = position_from_raw(&PredictPositionRaw {
        market_id: 7,
        outcome_name: "UP".to_string(),
        amount: "2500000000000000000".to_string(),
    });
    assert_eq!(p.instrument.symbol, "7-UP");
    assert_eq!(p.size.inner(), d(25, 1));
    assert_eq!(p.avg_entry_price.inner(), Dec::zero());
}

#[test]
fn expired_session_token_asks_to_reauthenticate() {
    assert_eq!(on_request_response(true, None), WsReplyAction::Ignore);
    assert_eq!(on_request_response(false, Some("invalid_credentials")), WsReplyAction::Reauthenticate);
    assert_eq!(on_request_response(false, Some("other")), WsReplyAction::Warn);
    assert_eq!(on_request_response(false, None), WsReplyAction::Warn);
}

#[test]
fn seeding_compares_token_ids_even_with_equal_outcome_names() {
    let mut p = params();
    p.no_outcome_name = "YES".to_string();
    let m = PredictMarket::from_params(&p, None);
    let listed = vec![raw("1", "ha", "111", 0, "1", "1"), raw("2", "hb", "222", 0, "1", "1")];
    let seeded = m.seed_orders(&listed);
    assert_eq!(seeded.instrument_for("ha"), Some(m.yes_instrument.clone()));
    assert_eq!(seeded.instrument_for("hb"), Some(m.no_instrument.clone()));
    assert_eq!(seeded.cancel_target("ha"), Some("1".to_string()));
}

#[test]
fn shutdown_refuses_every_place_and_leaves_the_tables() {
    let mut c = PredictFunClient::new(PredictMarket::from_params(&params(), None), PredictOrders::new());
    let p = c.place_order(&req(yes(), d(5, 1))).ok().unwrap();
    assert_eq!(p.token_id, "111");
    let placed = c.on_place_reply(
        &req(yes(), d(5, 1)),
        PlaceReply::Placed { order_hash: "0xh1".to_string(), predict_id: "7".to_string() },
    );
    assert_eq!(placed.ok().unwrap(), "0xh1");
    assert_eq!(c.orders.instrument_for("0xh1"), Some(yes()));
    assert_eq!(c.orders.all_predict_ids(), vec!["7".to_string()]);

    c.set_shutting_down();
    for r in [req(yes(), d(5, 1)), req(no(), d(2, 0)), req(yes(), d(5, 4))] {
        match c.place_order(&r) {
            Err(ConnectorError::OrderRejected(msg)) => assert_eq!(msg, "shutting down"),
            _ => panic!(),
        }
    }
    assert_eq!(c.orders.all_predict_ids(), vec!["7".to_string()]);
    assert_eq!(c.orders.instrument_for("0xh1"), Some(yes()));
}

#[test]
fn place_reply_without_data_or_failed_is_a_rejection() {
    let mut c = PredictFunClient::new(PredictMarket::from_params(&params(), None), PredictOrders::new());
    match c.on_place_reply(&req(no(), d(4, 1)), PlaceReply::NoData) {
        Err(ConnectorError::OrderRejected(msg)) => assert_eq!(msg, "empty response data"),
        _ => panic!(),
    }
    match c.on_place_reply(&req(no(), d(4, 1)), PlaceReply::Failed("insufficient balance".to_string())) {
        Err(ConnectorError::OrderRejected(msg)) => assert_eq!(msg, "insufficient balance"),
        _ => panic!(),
    }
    assert!(c.orders.all_predict_ids().is_empty());
    assert_eq!(c.orders.instrument_for("0xh1"), None);
}
