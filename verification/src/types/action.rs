//! Actions flow out of strategies: intentions that the router checks and routes.

use vstd::prelude::*;
use crate::decimal::{Price, Quantity};
use crate::types::instrument::{Exchange, InstrumentId};
use crate::types::order::{OrderId, OrderRequest};

verus! {

#[verifier::external_type_specification]
#[verifier::external_body]
pub struct ExJsonValue(serde_json::Value);

#[derive(Debug)]
pub enum Action {
    PlaceOrder(OrderRequest),
    CancelOrder { instrument: InstrumentId, order_id: OrderId },
    CancelAll { instrument: InstrumentId },
    ModifyOrder {
        instrument: InstrumentId,
        order_id: OrderId,
        new_price: Price,
        new_qty: Quantity,
    },
    LogDecision { strategy_id: String, decision: String, context: serde_json::Value },
}

impl Action {
    /// The venue an action is addressed to; `None` for a logged decision.
    pub open spec fn exchange_spec(self) -> Option<Exchange> {
        match self {
            Action::PlaceOrder(req) => Some(req.instrument.exchange),
            Action::CancelOrder { instrument, .. } => Some(instrument.exchange),
            Action::CancelAll { instrument } => Some(instrument.exchange),
            Action::ModifyOrder { instrument, .. } => Some(instrument.exchange),
            Action::LogDecision { .. } => None,
        }
    }

    /// The exchange of the action's instrument.
    pub fn exchange(&self) -> (r: Option<Exchange>)
        ensures
            r == self.exchange_spec(),
            r is None <==> self is LogDecision,
    {
        match self {
            Action::PlaceOrder(req) => Some(req.instrument.exchange),
            Action::CancelOrder { instrument, .. } => Some(instrument.exchange),
            Action::CancelAll { instrument } => Some(instrument.exchange),
            Action::ModifyOrder { instrument, .. } => Some(instrument.exchange),
            Action::LogDecision { .. } => None,
        }
    }
}

} // verus!
