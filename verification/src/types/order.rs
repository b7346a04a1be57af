//! Orders: requests, updates and resting orders.

use vstd::prelude::*;
use crate::decimal::{Price, Quantity};
use crate::types::instrument::InstrumentId;
use crate::text::copy_string;

verus! {

/// Order identifier as a venue returns it.
pub type OrderId = String;

#[derive(Clone, Copy, Debug, PartialEq, Eq, Structural)]
pub enum OrderSide {
    Buy,
    Sell,
}

#[derive(Clone, Copy, Debug, PartialEq, Eq, Structural)]
pub enum TimeInForce {
    Gtc,
    Ioc,
    PostOnly,
}

#[derive(Clone, Debug)]
pub struct OrderRequest {
    pub instrument: InstrumentId,
    pub side: OrderSide,
    pub price: Price,
    pub quantity: Quantity,
    pub tif: TimeInForce,
    /// Client-assigned order ID for correlation.
    pub client_order_id: Option<String>,
}

impl OrderRequest {
    /// A copy equal to `self`.
    pub fn copy(&self) -> (r: OrderRequest)
        ensures
            r == *self,
    {
        OrderRequest {
            instrument: self.instrument.clone_id(),
            side: self.side,
            price: self.price,
            quantity: self.quantity,
            tif: self.tif,
            client_order_id: match &self.client_order_id {
                Some(c) => Some(copy_string(c)),
                None => None,
            },
        }
    }
}

#[derive(Clone, Debug)]
pub struct OrderUpdate {
    pub instrument: InstrumentId,
    pub order_id: OrderId,
    pub status: OrderStatus,
    pub filled_qty: Quantity,
    pub remaining_qty: Quantity,
    pub avg_fill_price: Option<Price>,
    pub timestamp_ns: u64,
}

#[derive(Clone, Copy, Debug, PartialEq, Eq, Structural)]
pub enum OrderStatus {
    Acknowledged,
    PartiallyFilled,
    Filled,
    Cancelled,
    Rejected,
}

#[derive(Clone, Debug)]
pub struct OpenOrder {
    pub order_id: OrderId,
    pub instrument: InstrumentId,
    pub side: OrderSide,
    pub price: Price,
    pub quantity: Quantity,
    pub filled_qty: Quantity,
}

} // verus!
