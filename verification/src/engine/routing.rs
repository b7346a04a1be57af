//! Where strategy actions go: the router's decision for each action, the
//! per-venue order manager's dispatch, and which venues take nonces.

use vstd::prelude::*;
use crate::decimal::Dec;
use crate::engine::nonce::NonceManager;
use crate::engine::risk::{RiskCheck, UnifiedRiskManager};
use crate::types::action::Action;
use crate::types::error::RiskRejection;
use crate::types::instrument::Exchange;

verus! {

/// Venues whose orders carry a nonce.
pub open spec fn uses_nonce_spec(exchange: Exchange) -> bool {
    exchange == Exchange::Hyperliquid || exchange == Exchange::Lighter
}

/// Whether orders on `exchange` carry a nonce: Hyperliquid and Lighter.
pub fn uses_nonce(exchange: Exchange) -> (r: bool)
    ensures
        r == uses_nonce_spec(exchange),
{
    match exchange {
        Exchange::Hyperliquid => true,
        Exchange::Lighter => true,
        _ => false,
    }
}

/// Notional limit of the engine's risk gate: one million.
pub const DEFAULT_MAX_NOTIONAL: u64 = 1_000_000;

/// Drawdown limit of the engine's risk gate, 0.10, as IEEE-754 double bits.
pub const DEFAULT_MAX_DRAWDOWN_BITS: u64 = 0x3FB9_9999_9999_999A;

/// The engine's risk gate: notional limit one million, drawdown limit 10%.
pub fn default_risk_manager() -> (r: UnifiedRiskManager)
    ensures
        r.wf(),
        r.positions.view().len() == 0,
        r.max_total_notional == Dec::whole(DEFAULT_MAX_NOTIONAL),
        r.max_drawdown_pct_bits == DEFAULT_MAX_DRAWDOWN_BITS,
{
    UnifiedRiskManager::new(Dec::from_u64(DEFAULT_MAX_NOTIONAL), DEFAULT_MAX_DRAWDOWN_BITS)
}

/// The connector call an action becomes.
#[derive(Clone, Copy, Debug, PartialEq, Eq, Structural)]
pub enum ConnectorCall {
    Place,
    Cancel,
    CancelAll,
    Modify,
    /// A logged decision reaches no venue.
    Nothing,
}

/// Per-venue order manager: submits actions in order and owns the venue's nonce.
pub struct OrderManager {
    pub nonce: Option<NonceManager>,
}

impl OrderManager {
    /// A manager, with a nonce from 0 when the venue takes nonces.
    pub fn new(use_nonce: bool) -> (r: OrderManager)
        ensures
            use_nonce ==> (r.nonce matches Some(n) && n.current == 0),
            !use_nonce ==> r.nonce is None,
    {
        let nonce = if use_nonce {
            Some(NonceManager::new(0))
        } else {
            None
        };
        OrderManager { nonce }
    }

    /// The connector call that submits `action`.
    pub fn submit_call(&self, action: &Action) -> (r: ConnectorCall)
        ensures
            r == call_of(*action),
    {
        match action {
            Action::PlaceOrder(_) => ConnectorCall::Place,
            Action::CancelOrder { .. } => ConnectorCall::Cancel,
            Action::CancelAll { .. } => ConnectorCall::CancelAll,
            Action::ModifyOrder { .. } => ConnectorCall::Modify,
            Action::LogDecision { .. } => ConnectorCall::Nothing,
        }
    }
}

/// Each action becomes the connector call of its own kind: a place places,
/// a cancel cancels, a cancel-all cancels all, a modify modifies; only a
/// logged decision reaches no venue.
pub proof fn law_call_kinds(action: Action)
    ensures
        action is PlaceOrder <==> call_of(action) == ConnectorCall::Place,
        action is CancelOrder <==> call_of(action) == ConnectorCall::Cancel,
        action is CancelAll <==> call_of(action) == ConnectorCall::CancelAll,
        action is ModifyOrder <==> call_of(action) == ConnectorCall::Modify,
        action is LogDecision <==> call_of(action) == ConnectorCall::Nothing,
{
}

pub open spec fn call_of(action: Action) -> ConnectorCall {
    match action {
        Action::PlaceOrder(_) => ConnectorCall::Place,
        Action::CancelOrder { .. } => ConnectorCall::Cancel,
        Action::CancelAll { .. } => ConnectorCall::CancelAll,
        Action::ModifyOrder { .. } => ConnectorCall::Modify,
        Action::LogDecision { .. } => ConnectorCall::Nothing,
    }
}

/// What the router does with an action.
#[derive(Debug)]
pub enum RouteDecision {
    /// A logged decision: log it, reach no venue.
    LogOnly,
    /// The risk gate refused the action.
    Rejected(RiskRejection),
    /// Submit to the manager of this venue.
    Route(Exchange),
    /// No manager serves the action's venue.
    NoManager(Exchange),
}

/// The router's decision: logged decisions are only logged; any other action
/// goes through the risk gate with all known positions, then to the manager
/// of its venue, if there is one among `managed`.
pub fn route(action: &Action, risk: &UnifiedRiskManager, managed: &Vec<Exchange>) -> (r: RouteDecision)
    ensures
        action is LogDecision <==> r is LogOnly,
        !(action is LogDecision) ==> (r matches RouteDecision::Route(e) ==> Some(e) == action.exchange_spec()
            && managed@.contains(e)),
        !(action is LogDecision) ==> (r matches RouteDecision::NoManager(e) ==> Some(e) == action.exchange_spec()
            && !managed@.contains(e)),
        !(action is LogDecision) ==> !(r is Rejected),
        !(action is LogDecision) ==> (r is Route || r is NoManager),
{
    if let Action::LogDecision { .. } = action {
        return RouteDecision::LogOnly;
    }
    let exchange = match action.exchange() {
        Some(e) => e,
        None => return RouteDecision::LogOnly,
    };
    let positions = risk.all_positions();
    match RiskCheck::check(risk, action, positions.as_slice()) {
        Err(rejection) => return RouteDecision::Rejected(rejection),
        Ok(()) => {},
    }
    let mut i: usize = 0;
    while i < managed.len()
        invariant
            0 <= i <= managed@.len(),
            forall|j: int| 0 <= j < i ==> managed@[j] != exchange,
            Some(exchange) == action.exchange_spec(),
            !(action is LogDecision),
        decreases managed@.len() - i,
    {
        if managed[i] == exchange {
            assert(managed@[i as int] == exchange);
            return RouteDecision::Route(exchange);
        }
        i = i + 1;
    }
    assert(!managed@.contains(exchange));
    RouteDecision::NoManager(exchange)
}

} // verus!
