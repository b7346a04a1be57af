use obird::decimal::{Dec, Price, Quantity};
use obird::types::error::ConnectorError;
use obird::types::event::Event;
use obird::types::instrument::{Exchange, InstrumentId, InstrumentKind};
use obird::types::order::{OrderRequest, OrderSide, OrderStatus, TimeInForce};
use obird::venues::hyperliquid::{
    cancel_all_ids, cancel_update, fill_at, handle_message, l2book_to_snapshot, map_status, modify_outcome,
    oid_from_order_id, open_orders_from, order_id_from_oid, order_update_at, parse_decimal, parse_oid,
    parse_order_oid, place_outcome, positions_from, to_core_side, to_hl_side, to_hl_tif, to_instrument,
    AssetInfo, HlAssetPosition, HlBasicOrder, HlBookLevel, HlDataStatus, HlFill, HlIncoming, HlL2Book,
    HlOpenOrder, HlOrderStatus, HlOrderUpdate, HlResponse,
};

fn d(m: i64, s: u32) -> Dec {
    Dec::new(m, s)
}

fn eth() -> InstrumentId {
    InstrumentId::new(Exchange::Hyperliquid, InstrumentKind::Perpetual, "ETH".to_string())
}

#[test]
fn statuses_map_to_ours() {
    assert_eq!(map_status(HlOrderStatus::Open), OrderStatus::Acknowledged);
    assert_eq!(map_status(HlOrderStatus::SelfTradeCanceled), OrderStatus::Cancelled);
    assert_eq!(map_status(HlOrderStatus::ScheduledCancel), OrderStatus::Cancelled);
    assert_eq!(map_status(HlOrderStatus::Triggered), OrderStatus::Rejected);
    assert_eq!(map_status(HlOrderStatus::TickRejected), OrderStatus::Rejected);
    assert_eq!(map_status(HlOrderStatus::Other), OrderStatus::Acknowledged);
}

#[test]
fn order_update_reports_filled_part() {
    let u = order_update_at(
        &eth(),
        &HlOrderUpdate { order: HlBasicOrder { oid: 12, orig_sz: d(5, 0), sz: d(2, 0) }, status: HlOrderStatus::Open },
        3,
    );
    assert_eq!(u.order_id, "12");
    assert_eq!(u.filled_qty.inner(), d(3, 0));
    assert_eq!(u.remaining_qty.inner(), d(2, 0));
    assert!(u.avg_fill_price.is_none());
}

#[test]
fn fills_and_sides() {
    let f = fill_at(&eth(), &HlFill { oid: 4, is_bid: false, px: d(2, 0), sz: d(1, 0), fee: d(1, 3) }, 8);
    assert_eq!(f.side, OrderSide::Sell);
    assert_eq!(f.order_id, "4");
    assert!(to_hl_side(OrderSide::Buy));
    assert!(!to_hl_side(OrderSide::Sell));
    assert_eq!(to_core_side("B"), OrderSide::Buy);
    assert_eq!(to_core_side("BuY"), OrderSide::Buy);
    assert_eq!(to_core_side("A"), OrderSide::Sell);
    assert_eq!(to_core_side("bu"), OrderSide::Sell);
    assert_eq!(to_hl_tif(TimeInForce::PostOnly), "Alo");
    assert_eq!(order_id_from_oid(99), "99");
}

#[test]
fn order_id_parsing() {
    assert_eq!(oid_from_order_id(&"42".to_string()), Ok(42));
    assert_eq!(
        oid_from_order_id(&"x1".to_string()),
        Err("invalid oid 'x1': invalid digit found in string".to_string())
    );
    match parse_order_oid("") {
        Err(ConnectorError::Other(m)) => assert_eq!(m, "invalid oid: cannot parse integer from empty string"),
        _ => panic!(),
    }
    match parse_decimal("abc") {
        Err(ConnectorError::Other(m)) => assert!(m.starts_with("decimal parse failed: ")),
        _ => panic!(),
    }
    assert_eq!(parse_decimal("1.5").ok(), Some(d(15, 1)));
}

fn req() -> OrderRequest {
    OrderRequest {
        instrument: eth(),
        side: OrderSide::Buy,
        price: Price::new(d(2000, 0)),
        quantity: Quantity::new(d(3, 0)),
        tif: TimeInForce::Gtc,
        client_order_id: None,
    }
}

#[test]
fn place_reply_meanings() {
    let (id, u) = place_outcome(&req(), HlResponse::Accepted(Some(HlDataStatus::Resting { oid: 5 })), 1).ok().unwrap();
    assert_eq!(id, "5");
    assert_eq!(u.status, OrderStatus::Acknowledged);
    assert_eq!(u.remaining_qty.inner(), d(3, 0));
    let filled = HlDataStatus::Filled { oid: 6, total_sz: "3".to_string(), avg_px: "1999.5".to_string() };
    let (_, u) = place_outcome(&req(), HlResponse::Accepted(Some(filled)), 1).ok().unwrap();
    assert_eq!(u.status, OrderStatus::Filled);
    assert_eq!(u.avg_fill_price.unwrap().inner(), d(19995, 1));
    match place_outcome(&req(), HlResponse::Refused("bad".to_string()), 1) {
        Err(ConnectorError::OrderRejected(m)) => assert_eq!(m, "bad"),
        _ => panic!(),
    }
    match place_outcome(&req(), HlResponse::Accepted(None), 1) {
        Err(ConnectorError::OrderRejected(m)) => assert_eq!(m, "empty order status"),
        _ => panic!(),
    }
    let other = HlDataStatus::Other { debug: "Error(\"x\")".to_string() };
    match place_outcome(&req(), HlResponse::Accepted(Some(other)), 1) {
        Err(ConnectorError::OrderRejected(m)) => assert_eq!(m, "unexpected status: Error(\"x\")"),
        _ => panic!(),
    }
    let bad = HlDataStatus::Filled { oid: 6, total_sz: "?".to_string(), avg_px: "1".to_string() };
    assert!(matches!(place_outcome(&req(), HlResponse::Accepted(Some(bad)), 1), Err(ConnectorError::Other(_))));
    assert_eq!(modify_outcome(HlResponse::Accepted(Some(HlDataStatus::Resting { oid: 9 }))).ok(), Some("9".to_string()));
    match modify_outcome(HlResponse::Accepted(None)) {
        Err(ConnectorError::OrderRejected(m)) => assert_eq!(m, "empty modify status"),
        _ => panic!(),
    }
    assert_eq!(parse_oid(&HlDataStatus::Other { debug: String::new() }), None);
}

#[test]
fn cancel_update_and_ids() {
    let u = cancel_update(&eth(), &"8".to_string(), 2);
    assert_eq!(u.status, OrderStatus::Cancelled);
    let orders = vec![
        HlOpenOrder { coin: "ETH".to_string(), oid: 1, side: "B".to_string(), limit_px: "10".to_string(), sz: "1".to_string() },
        HlOpenOrder { coin: "BTC".to_string(), oid: 2, side: "A".to_string(), limit_px: "10".to_string(), sz: "1".to_string() },
        HlOpenOrder { coin: "ETH".to_string(), oid: 3, side: "A".to_string(), limit_px: "11".to_string(), sz: "2".to_string() },
    ];
    assert_eq!(cancel_all_ids(&orders, &eth()), vec!["1".to_string(), "3".to_string()]);
    let open = open_orders_from(&orders, &eth()).ok().unwrap();
    assert_eq!(open.len(), 2);
    assert_eq!(open[1].side, OrderSide::Sell);
    assert_eq!(open[1].price.inner(), d(11, 0));
    let mut broken = orders.clone();
    broken[2].sz = "x".to_string();
    assert!(open_orders_from(&broken, &eth()).is_err());
    broken[2].coin = "SOL".to_string();
    assert_eq!(open_orders_from(&broken, &eth()).ok().unwrap().len(), 1);
}

#[test]
fn account_positions() {
    let ps = positions_from(&vec![HlAssetPosition {
        coin: "ETH".to_string(),
        szi: "-1.5".to_string(),
        entry_px: None,
        unrealized_pnl: "2".to_string(),
    }])
    .ok()
    .unwrap();
    assert_eq!(ps[0].instrument, to_instrument("ETH"));
    assert_eq!(ps[0].size.inner(), d(-15, 1));
    assert_eq!(ps[0].avg_entry_price.inner(), Dec::zero());
    let bad = positions_from(&vec![HlAssetPosition {
        coin: "ETH".to_string(),
        szi: "1".to_string(),
        entry_px: Some("?".to_string()),
        unrealized_pnl: "2".to_string(),
    }]);
    assert!(bad.is_err());
}

fn asset() -> AssetInfo {
    AssetInfo { mids_key: "ETH".to_string(), ws_coin: "ETH".to_string(), instrument: eth() }
}

#[test]
fn feed_messages() {
    let book = HlL2Book {
        time: 10,
        bids: vec![HlBookLevel { px: d(99, 0), sz: d(1, 0) }],
        asks: vec![HlBookLevel { px: d(101, 0), sz: d(2, 0) }],
    };
    let snap = l2book_to_snapshot(&book, 5);
    assert_eq!(snap.timestamp_ns, 5);
    let evs = handle_message(&asset(), &HlIncoming::L2Book(book), 77);
    match &evs[0] {
        Event::BookUpdate { exchange_ts_ns, local_ts_ns, book, .. } => {
            assert_eq!(*exchange_ts_ns, 10_000_000);
            assert_eq!(*local_ts_ns, 77);
            assert_eq!(book.best_ask().unwrap().0.inner(), d(101, 0));
        }
        _ => panic!(),
    }
    let fills = vec![HlFill { oid: 1, is_bid: true, px: d(1, 0), sz: d(1, 0), fee: d(0, 0) }];
    assert!(handle_message(&asset(), &HlIncoming::UserFills { fills: fills.clone(), is_snapshot: true }, 1).is_empty());
    assert_eq!(handle_message(&asset(), &HlIncoming::UserFills { fills: fills.clone(), is_snapshot: false }, 1).len(), 1);
    assert_eq!(handle_message(&asset(), &HlIncoming::UserEventFills(fills), 1).len(), 1);
    assert!(handle_message(&asset(), &HlIncoming::UserEventOther, 1).is_empty());
    let ups = vec![HlOrderUpdate { order: HlBasicOrder { oid: 1, orig_sz: d(1, 0), sz: d(1, 0) }, status: HlOrderStatus::Filled }];
    assert_eq!(handle_message(&asset(), &HlIncoming::OrderUpdates(ups), 1).len(), 1);
}

#[test]
fn order_id_text_round_trips() {
    for oid in [0u64, 7, 1234567890, u64::MAX] {
        assert_eq!(oid_from_order_id(&order_id_from_oid(oid)), Ok(oid));
    }
}
