//! Positions and fills.

use vstd::prelude::*;
use crate::decimal::{Price, Quantity};
use crate::types::instrument::InstrumentId;
use crate::types::order::{OrderId, OrderSide};
use crate::text::copy_string;

verus! {

#[derive(Clone, Debug)]
pub struct Position {
    pub instrument: InstrumentId,
    /// Signed: positive = long, negative = short.
    pub size: Quantity,
    pub avg_entry_price: Price,
    pub unrealized_pnl: Price,
}

impl Position {
    /// A copy equal to `self`.
    pub fn copy(&self) -> (r: Position)
        ensures
            r == *self,
    {
        Position {
            instrument: self.instrument.clone_id(),
            size: self.size,
            avg_entry_price: self.avg_entry_price,
            unrealized_pnl: self.unrealized_pnl,
        }
    }
}

#[derive(Clone, Debug)]
pub struct Fill {
    pub order_id: OrderId,
    pub instrument: InstrumentId,
    pub side: OrderSide,
    pub price: Price,
    pub quantity: Quantity,
    pub fee: Price,
    pub timestamp_ns: u64,
}

} // verus!
