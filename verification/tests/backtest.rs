use obird::backtest::matching_engine::{FillModel, MatchingEngine};
use obird::backtest::replay::{
    event_time_of, sort_events, total_pnl, MarketDataRecorder, RecordStats, SimMarketDataFeed,
};
use obird::backtest::harness::{feed_event, process_actions};
use obird::backtest::sim_connector::SimConnector;
use obird::types::action::Action;
use obird::decimal::{Dec, Price, Quantity};
use obird::types::event::Event;
use obird::types::instrument::{Exchange, InstrumentId, InstrumentKind};
use obird::types::order::{OrderRequest, OrderSide, OrderStatus, TimeInForce};
use obird::types::position::Position;

fn d(m: i64, s: u32) -> Dec {
    Dec::new(m, s)
}

fn inst(sym: &str) -> InstrumentId {
    InstrumentId::new(Exchange::Hyperliquid, InstrumentKind::Perpetual, sym.to_string())
}

fn req(sym: &str, side: OrderSide, price: i64, qty: i64) -> OrderRequest {
    OrderRequest {
        instrument: inst(sym),
        side,
        price: Price::new(d(price, 0)),
        quantity: Quantity::new(d(qty, 0)),
        tif: TimeInForce::Gtc,
        client_order_id: None,
    }
}

#[test]
fn buy_fills_at_or_below_limit_and_moves_position() {
    let mut e = MatchingEngine::new();
    e.add_order("b1".to_string(), req("ETH", OrderSide::Buy, 100, 2));
    e.add_order("s1".to_string(), req("ETH", OrderSide::Sell, 110, 1));
    e.add_order("b2".to_string(), req("BTC", OrderSide::Buy, 100, 5));
    assert!(e.check_fills(&inst("ETH"), Price::new(d(101, 0))).is_empty());
    let ups = e.check_fills(&inst("ETH"), Price::new(d(100, 0)));
    assert_eq!(ups.len(), 1);
    assert_eq!(ups[0].order_id, "b1");
    assert_eq!(ups[0].status, OrderStatus::Filled);
    assert_eq!(ups[0].filled_qty.inner(), d(2, 0));
    assert_eq!(ups[0].avg_fill_price.unwrap().inner(), d(100, 0));
    let pos = e.positions();
    assert_eq!(pos.len(), 1);
    assert_eq!(pos[0].size.inner(), d(2, 0));
    assert_eq!(pos[0].avg_entry_price.inner(), d(100, 0));
    // The sell fills at or above its limit and brings the position down.
    let ups = e.check_fills(&inst("ETH"), Price::new(d(120, 0)));
    assert_eq!(ups.len(), 1);
    assert_eq!(e.positions()[0].size.inner(), d(1, 0));
    assert_eq!(e.positions()[0].avg_entry_price.inner(), d(110, 0));
    assert!(e.open_orders_for(&inst("ETH")).is_empty());
    assert_eq!(e.open_orders_for(&inst("BTC")).len(), 1);
}

#[test]
fn cancel_all_for_one_instrument() {
    let mut e = MatchingEngine::new().with_fill_model(FillModel::Optimistic);
    assert_eq!(e.fill_model, FillModel::Optimistic);
    e.add_order("a".to_string(), req("ETH", OrderSide::Buy, 1, 1));
    e.add_order("b".to_string(), req("BTC", OrderSide::Buy, 1, 1));
    e.add_order("c".to_string(), req("ETH", OrderSide::Sell, 2, 1));
    assert_eq!(e.cancel_all_for(&inst("ETH")), vec!["a".to_string(), "c".to_string()]);
    assert!(e.open_orders_for(&inst("ETH")).is_empty());
    e.cancel_order("b");
    assert!(e.open_orders_for(&inst("BTC")).is_empty());
}

#[test]
fn sim_connector_sends_updates_in_order() {
    let mut c = SimConnector::new(Exchange::Hyperliquid);
    assert_eq!(c.exchange(), Exchange::Hyperliquid);
    let id = c.place_order(&req("ETH", OrderSide::Buy, 100, 1));
    assert_eq!(id.len(), 36);
    let id2 = c.place_order_with_id(&req("ETH", OrderSide::Sell, 200, 1), "fixed".to_string());
    assert_eq!(id2, "fixed");
    assert!(c.try_on_market_data(&inst("ETH"), Price::new(d(99, 0))));
    c.cancel_all(&inst("ETH"));
    let ups = c.take_updates();
    let statuses: Vec<OrderStatus> = ups.iter().map(|u| u.status).collect();
    assert_eq!(
        statuses,
        vec![OrderStatus::Acknowledged, OrderStatus::Acknowledged, OrderStatus::Filled, OrderStatus::Cancelled]
    );
    assert_eq!(ups[1].remaining_qty.inner(), d(1, 0));
    assert_eq!(ups[3].order_id, "fixed");
    assert!(c.take_updates().is_empty());
    assert_eq!(c.positions()[0].size.inner(), d(1, 0));
    let new_id = c.modify_order(&inst("ETH"), &"missing".to_string(), Price::new(d(5, 0)), Quantity::new(d(2, 0)));
    let open = c.open_orders(&inst("ETH"));
    assert_eq!(open.len(), 1);
    assert_eq!(open[0].order_id, new_id);
    assert_eq!(open[0].side, OrderSide::Buy);
    let ups = c.take_updates();
    assert_eq!(ups[0].status, OrderStatus::Cancelled);
    assert_eq!(ups[1].status, OrderStatus::Acknowledged);
}

fn tick(ts: u64) -> Event {
    Event::Tick { timestamp_ns: ts }
}

#[test]
fn replay_order_is_by_time_and_stable() {
    let events = vec![
        tick(5),
        Event::PositionSnapshot { positions: vec![] },
        tick(1),
        Event::PlaceFailed { instrument: inst("ETH"), reason: "x".to_string() },
        tick(5),
    ];
    let sorted = sort_events(events);
    let times: Vec<u64> = sorted.iter().map(event_time_of).collect();
    assert_eq!(times, vec![0, 0, 1, 5, 5]);
    assert!(matches!(sorted[0], Event::PositionSnapshot { .. }));
    assert!(matches!(sorted[1], Event::PlaceFailed { .. }));
}

#[test]
fn report_total_is_sum_of_unrealised() {
    let p = |pnl: Dec| Position {
        instrument: inst("ETH"),
        size: Quantity::new(d(1, 0)),
        avg_entry_price: Price::new(d(1, 0)),
        unrealized_pnl: Price::new(pnl),
    };
    assert_eq!(total_pnl(&vec![p(d(15, 1)), p(d(-5, 1))]), Some(d(1, 0)));
    assert_eq!(total_pnl(&vec![]), Some(Dec::zero()));
    let huge = Dec::parse_str("79228162514264337593543950335").unwrap();
    assert_eq!(total_pnl(&vec![p(huge), p(huge)]), None);
}

#[test]
fn recording_flushes_every_ten_thousand() {
    let mut s = RecordStats::new();
    let mut flushes = 0;
    for _ in 0..20_000 {
        if s.on_written() {
            flushes += 1;
        }
    }
    assert_eq!(flushes, 2);
    s.on_lagged(3);
    assert_eq!(s.lags, 3);
    assert_eq!(MarketDataRecorder::file_name("eth_book"), "eth_book.jsonl");
    assert_eq!(MarketDataRecorder::new("data".to_string()).output_dir, "data");
    assert_eq!(SimMarketDataFeed::new("d".to_string()).data_dir, "d");
}

fn book_event(sym: &str, bid: i64, ask: i64) -> Event {
    Event::BookUpdate {
        instrument: inst(sym),
        book: obird::types::market_data::OrderbookSnapshot {
            bids: vec![(Price::new(d(bid, 0)), Quantity::new(d(1, 0)))],
            asks: vec![(Price::new(d(ask, 0)), Quantity::new(d(1, 0)))],
            timestamp_ns: 0,
        },
        exchange_ts_ns: 0,
        local_ts_ns: 0,
    }
}

#[test]
fn replayed_book_matches_at_its_mid() {
    let mut c = SimConnector::new(Exchange::Hyperliquid);
    c.place_order_with_id(&req("ETH", OrderSide::Buy, 100, 2), "b1".to_string());
    c.take_updates();
    // Mid 101: above the buy limit, nothing fills.
    assert!(feed_event(&mut c, &book_event("ETH", 100, 102)));
    assert!(c.take_updates().is_empty());
    // Mid 99.5: the buy fills.
    assert!(feed_event(&mut c, &book_event("ETH", 99, 100)));
    let ups = c.take_updates();
    assert_eq!(ups.len(), 1);
    assert_eq!(ups[0].order_id, "b1");
    assert_eq!(ups[0].status, OrderStatus::Filled);
    assert_eq!(c.positions()[0].size.inner(), d(2, 0));
    // Other events leave the connector as it is.
    assert!(feed_event(&mut c, &Event::Tick { timestamp_ns: 5 }));
    assert!(c.take_updates().is_empty());
}

#[test]
fn actions_are_carried_out_in_order() {
    let mut c = SimConnector::new(Exchange::Hyperliquid);
    let actions = vec![
        Action::PlaceOrder(req("ETH", OrderSide::Buy, 100, 1)),
        Action::PlaceOrder(req("ETH", OrderSide::Sell, 110, 1)),
        Action::PlaceOrder(req("BTC", OrderSide::Buy, 50, 1)),
        Action::CancelAll { instrument: inst("ETH") },
        Action::ModifyOrder {
            instrument: inst("BTC"),
            order_id: "nope".to_string(),
            new_price: Price::new(d(1, 0)),
            new_qty: Quantity::new(d(1, 0)),
        },
    ];
    process_actions(&mut c, &actions);
    let ups = c.take_updates();
    assert_eq!(ups.len(), 5);
    assert_eq!(ups[0].status, OrderStatus::Acknowledged);
    assert_eq!(ups[2].status, OrderStatus::Acknowledged);
    assert_eq!(ups[3].status, OrderStatus::Cancelled);
    assert_eq!(ups[3].order_id, ups[0].order_id);
    assert_eq!(ups[4].order_id, ups[1].order_id);
    assert!(c.open_orders(&inst("ETH")).is_empty());
    assert_eq!(c.open_orders(&inst("BTC")).len(), 1);
    // A cancel of one order.
    let id = ups[2].order_id.clone();
    process_actions(&mut c, &vec![Action::CancelOrder { instrument: inst("BTC"), order_id: id.clone() }]);
    let ups = c.take_updates();
    assert_eq!(ups.len(), 1);
    assert_eq!(ups[0].order_id, id);
    assert!(c.open_orders(&inst("BTC")).is_empty());
}
