use obird::decimal::{Dec, Price, Quantity};
use obird::engine::bus::MarketDataBus;
use obird::engine::nonce::NonceManager;
use obird::engine::risk::{PositionTracker, RiskCheck, UnifiedRiskManager};
use obird::engine::routing::{default_risk_manager, route, uses_nonce, ConnectorCall, OrderManager, RouteDecision};
use obird::types::action::Action;
use obird::types::event::Event;
use obird::types::instrument::{Exchange, InstrumentId, InstrumentKind};
use obird::types::position::{Fill, Position};
use obird::types::order::OrderSide;

fn inst(e: Exchange, sym: &str) -> InstrumentId {
    InstrumentId::new(e, InstrumentKind::Perpetual, sym.to_string())
}

#[test]
fn nonces_count_up_and_wrap() {
    let mut n = NonceManager::new(7);
    assert_eq!(n.next(), 7);
    assert_eq!(n.next(), 8);
    let mut m = NonceManager::new(u64::MAX);
    assert_eq!(m.next(), u64::MAX);
    assert_eq!(m.next(), 0);
}

#[test]
fn venues_with_nonces() {
    assert!(uses_nonce(Exchange::Hyperliquid));
    assert!(uses_nonce(Exchange::Lighter));
    assert!(!uses_nonce(Exchange::Binance));
    assert!(OrderManager::new(true).nonce.is_some());
    assert!(OrderManager::new(false).nonce.is_none());
}

#[test]
fn router_decisions() {
    let risk = default_risk_manager();
    assert_eq!(risk.max_total_notional, Dec::new(1_000_000, 0));
    let managed = vec![Exchange::Hyperliquid];
    let cancel = Action::CancelAll { instrument: inst(Exchange::Hyperliquid, "ETH") };
    assert!(matches!(route(&cancel, &risk, &managed), RouteDecision::Route(Exchange::Hyperliquid)));
    let other = Action::CancelAll { instrument: inst(Exchange::Binance, "ETH") };
    assert!(matches!(route(&other, &risk, &managed), RouteDecision::NoManager(Exchange::Binance)));
    let log = Action::LogDecision {
        strategy_id: "s".to_string(),
        decision: "d".to_string(),
        context: serde_json::Value::Null,
    };
    assert!(matches!(route(&log, &risk, &managed), RouteDecision::LogOnly));
    assert_eq!(log.exchange(), None);
    let mgr = OrderManager::new(false);
    assert_eq!(mgr.submit_call(&cancel), ConnectorCall::CancelAll);
    assert_eq!(mgr.submit_call(&log), ConnectorCall::Nothing);
}

#[test]
fn risk_gate_passes_and_keeps_latest_positions() {
    let mut r = UnifiedRiskManager::new(Dec::new(10, 0), 0);
    let i = inst(Exchange::Binance, "ETH");
    let p = |s: i64| Position {
        instrument: i.clone_id(),
        size: Quantity::new(Dec::new(s, 0)),
        avg_entry_price: Price::zero(),
        unrealized_pnl: Price::zero(),
    };
    r.update_position(i.clone_id(), p(1));
    r.update_position(i.clone_id(), p(3));
    let all = r.all_positions();
    assert_eq!(all.len(), 1);
    assert_eq!(all[0].size.inner(), Dec::new(3, 0));
    let a = Action::CancelAll { instrument: i.clone_id() };
    assert!(r.check(&a, &all).is_ok());
    let mut t = PositionTracker::new();
    t.on_fill(&Fill {
        order_id: "1".to_string(),
        instrument: i.clone_id(),
        side: OrderSide::Buy,
        price: Price::zero(),
        quantity: Quantity::zero(),
        fee: Price::zero(),
        timestamp_ns: 0,
    });
    assert!(t.get(&i).is_none());
    assert!(t.all().is_empty());
}

#[test]
fn bus_drops_events_without_channel() {
    let mut bus = MarketDataBus::new();
    let i = inst(Exchange::Hyperliquid, "ETH");
    assert!(!bus.publish(&i, Event::Tick { timestamp_ns: 1 }));
    let mut rx = bus.subscribe(&i);
    assert!(bus.publish(&i, Event::Tick { timestamp_ns: 2 }));
    match rx.try_recv() {
        Ok(Event::Tick { timestamp_ns }) => assert_eq!(timestamp_ns, 2),
        _ => panic!("expected the tick"),
    }
    let _tx = bus.sender(&i);
    assert_eq!(bus.channels.entries.len(), 1);
}

#[test]
fn strategy_state_starts_empty() {
    let s = obird::engine::strategy_state::StrategyState::empty();
    assert!(s.positions.is_empty());
    assert!(s.open_orders.is_empty());
    assert_eq!(s.decimal_precisions.len(), 0);
}

#[test]
fn instrument_display_text() {
    let i = InstrumentId::new(Exchange::PredictFun, InstrumentKind::Binary, "42-YES".to_string());
    assert_eq!(i.to_string(), "PredictFun.Binary.42-YES");
    assert_eq!(inst(Exchange::Hyperliquid, "ETH").to_string(), "Hyperliquid.Perpetual.ETH");
}

#[test]
fn default_bus_has_no_channels() {
    let bus = MarketDataBus::default();
    assert!(!bus.publish(&inst(Exchange::Binance, "ETHUSDT"), Event::Tick { timestamp_ns: 1 }));
}
