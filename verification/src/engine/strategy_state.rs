//! What a strategy is handed at startup.

use vstd::prelude::*;
use crate::engine::instrument_table::InstrumentTable;
use crate::types::instrument::{Exchange, InstrumentKind};
use crate::types::order::OpenOrder;
use crate::types::position::Position;

verus! {

/// Initial state of a strategy: its positions, its open orders, and the price
/// precision of each instrument it quotes (`n` for ticks of `10^-n`; an
/// instrument without an entry has none from its venue).
pub struct StrategyState {
    pub positions: Vec<Position>,
    pub open_orders: Vec<OpenOrder>,
    pub decimal_precisions: InstrumentTable<u32>,
}

impl StrategyState {
    pub open spec fn wf(self) -> bool {
        self.decimal_precisions.wf()
    }

    /// No position, no open order, no precision.
    pub fn empty() -> (r: StrategyState)
        ensures
            r.wf(),
            r.positions@.len() == 0,
            r.open_orders@.len() == 0,
            r.decimal_precisions.view() == Map::<(Exchange, InstrumentKind, Seq<char>), u32>::empty(),
    {
        StrategyState { positions: Vec::new(), open_orders: Vec::new(), decimal_precisions: InstrumentTable::new() }
    }
}

} // verus!
