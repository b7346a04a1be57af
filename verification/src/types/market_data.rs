//! Market data shared by all venues.

use vstd::prelude::*;
use crate::decimal::{Dec, Price, Quantity, decimal_checked_add, decimal_checked_div, in_range, pow10};

verus! {

/// Level-2 book. Bids best (highest) first, asks best (lowest) first.
#[derive(Clone, Debug)]
pub struct OrderbookSnapshot {
    pub bids: Vec<(Price, Quantity)>,
    pub asks: Vec<(Price, Quantity)>,
    pub timestamp_ns: u64,
}

impl OrderbookSnapshot {
    pub fn best_bid(&self) -> (r: Option<(Price, Quantity)>)
        ensures
            r == (if self.bids@.len() > 0 {
                Some(self.bids@[0])
            } else {
                None
            }),
    {
        if self.bids.len() > 0 {
            Some(self.bids[0])
        } else {
            None
        }
    }

    pub fn best_ask(&self) -> (r: Option<(Price, Quantity)>)
        ensures
            r == (if self.asks@.len() > 0 {
                Some(self.asks@[0])
            } else {
                None
            }),
    {
        if self.asks.len() > 0 {
            Some(self.asks[0])
        } else {
            None
        }
    }

    /// The sum of best bid and best ask does not overflow, whenever both sides are present.
    pub open spec fn mid_fits(self) -> bool {
        self.bids@.len() > 0 && self.asks@.len() > 0 ==> in_range(
            self.bids@[0].0.value() + self.asks@[0].0.value(),
        )
    }

    /// `(best_bid + best_ask) / 2`, or `None` when either side is empty.
    pub fn mid_price(&self) -> (r: Option<Price>)
        requires
            self.mid_fits(),
        ensures
            (self.bids@.len() == 0 || self.asks@.len() == 0) ==> r is None,
            self.bids@.len() > 0 && self.asks@.len() > 0 ==> {
                let bid = self.bids@[0].0.dec();
                let ask = self.asks@[0].0.dec();
                let sum = decimal_checked_add(bid, ask)->0;
                &&& decimal_checked_add(bid, ask) is Some
                &&& (Dec::add_fits(bid, ask) ==> sum.value() == bid.value() + ask.value())
                &&& r == Some(Price(decimal_checked_div(sum, Dec::two_spec())->0))
                &&& (Dec::div_fits(sum, Dec::two_spec()) ==> 2 * r->0.value() == sum.value())
            },
    {
        match (self.best_bid(), self.best_ask()) {
            (Some((b, _)), Some((a, _))) => {
                let sum = b.0.add(a.0);
                let two = Dec::two();
                proof {
                    crate::decimal::lemma_pow10_28();
                    Dec::lemma_two_spec();
                }
                let mid = sum.checked_div(two).unwrap();
                Some(Price::new(mid))
            },
            _ => None,
        }
    }
}

#[derive(Clone, Debug)]
pub struct Trade {
    pub price: Price,
    pub quantity: Quantity,
    pub side: TradeSide,
    pub timestamp_ns: u64,
}

#[derive(Clone, Copy, Debug, PartialEq, Eq, Structural)]
pub enum TradeSide {
    Buy,
    Sell,
}

} // verus!
