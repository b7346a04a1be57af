//! Events flow into strategies: things that happened.

use vstd::prelude::*;
use crate::decimal::Price;
use crate::types::instrument::InstrumentId;
use crate::types::market_data::{OrderbookSnapshot, Trade};
use crate::types::order::OrderUpdate;
use crate::types::position::{Fill, Position};

verus! {

#[derive(Clone, Debug)]
pub enum Event {
    BookUpdate {
        instrument: InstrumentId,
        book: OrderbookSnapshot,
        exchange_ts_ns: u64,
        local_ts_ns: u64,
    },
    MarketTrade { instrument: InstrumentId, trade: Trade },
    Fill { instrument: InstrumentId, fill: Fill },
    OrderUpdate { instrument: InstrumentId, update: OrderUpdate },
    Tick { timestamp_ns: u64 },
    FairValueUpdate {
        instrument: InstrumentId,
        fair_value: Price,
        /// Confidence in [0, 1], as the bits of an IEEE-754 double (`f64::to_bits`).
        confidence_bits: u64,
        model_version: String,
    },
    PositionSnapshot { positions: Vec<Position> },
    /// All orders of a batch failed; `reason` is the first error text of the batch.
    PlaceFailed { instrument: InstrumentId, reason: String },
}

} // verus!
