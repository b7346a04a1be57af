//! The unified risk gate and the position tracker, across all venues.

use vstd::prelude::*;
use crate::decimal::Dec;
use crate::engine::instrument_table::InstrumentTable;
use crate::types::action::Action;
use crate::types::error::RiskRejection;
use crate::types::instrument::{Exchange, InstrumentId, InstrumentKind};
use crate::types::position::{Fill, Position};

verus! {

/// The last position reported for each instrument, and the limits to check
/// actions against.
pub struct UnifiedRiskManager {
    pub positions: InstrumentTable<Position>,
    pub max_total_notional: Dec,
    /// Largest drawdown allowed, a fraction, as the bits of an IEEE-754 double.
    pub max_drawdown_pct_bits: u64,
}

/// The positions of a table, in table order.
pub open spec fn table_positions(es: Seq<(InstrumentId, Position)>) -> Seq<Position> {
    es.map_values(|e: (InstrumentId, Position)| e.1)
}

fn positions_of(t: &InstrumentTable<Position>) -> (r: Vec<Position>)
    ensures
        r@ == table_positions(t.entries@),
{
    let ghost es = t.entries@;
    let mut out: Vec<Position> = Vec::new();
    let mut i: usize = 0;
    while i < t.entries.len()
        invariant
            0 <= i <= es.len(),
            es == t.entries@,
            out@ == table_positions(es.take(i as int)),
        decreases es.len() - i,
    {
        out.push(t.entries[i].1.copy());
        assert(table_positions(es.take(i + 1)) =~= table_positions(es.take(i as int)).push(es[i as int].1));
        i = i + 1;
    }
    assert(es.take(es.len() as int) =~= es);
    out
}

/// Pre-trade risk check, made on every action before it is routed: `Ok` when
/// the action is allowed given the positions, else why not.
pub trait RiskCheck {
    fn check(&self, action: &Action, positions: &[Position]) -> Result<(), RiskRejection>;
}

impl RiskCheck for UnifiedRiskManager {
    /// No limit is enforced yet: every action passes.
    fn check(&self, action: &Action, positions: &[Position]) -> (r: Result<(), RiskRejection>)
        ensures
            r is Ok,
    {
        Ok(())
    }
}

impl UnifiedRiskManager {
    pub open spec fn wf(self) -> bool {
        self.positions.wf()
    }

    pub fn new(max_total_notional: Dec, max_drawdown_pct_bits: u64) -> (r: UnifiedRiskManager)
        ensures
            r.wf(),
            r.positions.view() == Map::<(Exchange, InstrumentKind, Seq<char>), Position>::empty(),
            r.max_total_notional == max_total_notional,
            r.max_drawdown_pct_bits == max_drawdown_pct_bits,
    {
        UnifiedRiskManager { positions: InstrumentTable::new(), max_total_notional, max_drawdown_pct_bits }
    }

    /// Every position held, in table order.
    pub fn all_positions(&self) -> (r: Vec<Position>)
        ensures
            r@ == table_positions(self.positions.entries@),
    {
        positions_of(&self.positions)
    }

    /// Record the latest position of an instrument.
    pub fn update_position(&mut self, instrument: InstrumentId, position: Position)
        requires
            old(self).wf(),
        ensures
            final(self).wf(),
            final(self).positions.view() == old(self).positions.view().insert(instrument.key(), position),
            final(self).max_total_notional == old(self).max_total_notional,
            final(self).max_drawdown_pct_bits == old(self).max_drawdown_pct_bits,
    {
        self.positions.insert(instrument, position);
    }
}

/// Positions across all venues, by instrument. Fills do not move them yet.
pub struct PositionTracker {
    pub positions: InstrumentTable<Position>,
}

impl PositionTracker {
    pub open spec fn wf(self) -> bool {
        self.positions.wf()
    }

    pub fn new() -> (r: PositionTracker)
        ensures
            r.wf(),
            r.positions.view() == Map::<(Exchange, InstrumentKind, Seq<char>), Position>::empty(),
    {
        PositionTracker { positions: InstrumentTable::new() }
    }

    /// A fill was reported; positions are left as they are.
    pub fn on_fill(&mut self, fill: &Fill)
        ensures
            final(self).positions == old(self).positions,
    {
    }

    pub fn get(&self, instrument: &InstrumentId) -> (r: Option<&Position>)
        requires
            self.wf(),
        ensures
            r matches Some(p) ==> self.positions.view().contains_key(instrument.key()) && self.positions.view()[instrument.key()] == *p,
            r is None ==> !self.positions.view().contains_key(instrument.key()),
    {
        self.positions.get(instrument)
    }

    /// Every position, in table order.
    pub fn all(&self) -> (r: Vec<Position>)
        ensures
            r@ == table_positions(self.positions.entries@),
    {
        positions_of(&self.positions)
    }
}

} // verus!
