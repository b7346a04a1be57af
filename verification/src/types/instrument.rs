//! Instrument identification. The same symbol on two venues is two instruments.

use vstd::prelude::*;

verus! {

#[derive(Clone, Copy, Debug, PartialEq, Eq, Hash, Structural)]
pub enum Exchange {
    Hyperliquid,
    Lighter,
    Binance,
    Polymarket,
    PredictFun,
}

#[derive(Clone, Copy, Debug, PartialEq, Eq, Hash, Structural)]
pub enum InstrumentKind {
    Perpetual,
    Spot,
    /// Binary outcome (prediction market).
    Binary,
    /// Multi-outcome (prediction market).
    MultiOutcome,
}

#[derive(Clone, Debug, Hash)]
pub struct InstrumentId {
    pub exchange: Exchange,
    pub kind: InstrumentKind,
    pub symbol: String,
}

impl PartialEq for InstrumentId {
    fn eq(&self, other: &InstrumentId) -> (r: bool) {
        self.exchange == other.exchange && self.kind == other.kind && self.symbol == other.symbol
    }
}

impl Eq for InstrumentId {

}

impl vstd::std_specs::cmp::PartialEqSpecImpl for InstrumentId {
    open spec fn obeys_eq_spec() -> bool {
        true
    }

    open spec fn eq_spec(&self, other: &InstrumentId) -> bool {
        self.exchange == other.exchange && self.kind == other.kind && self.symbol@ == other.symbol@
    }
}

impl InstrumentId {
    pub fn new(exchange: Exchange, kind: InstrumentKind, symbol: String) -> (r: InstrumentId)
        ensures
            r.exchange == exchange,
            r.kind == kind,
            r.symbol@ == symbol@,
    {
        InstrumentId { exchange, kind, symbol }
    }

    /// A copy equal to `self`.
    pub fn clone_id(&self) -> (r: InstrumentId)
        ensures
            r == *self,
    {
        InstrumentId { exchange: self.exchange, kind: self.kind, symbol: self.symbol.clone() }
    }

    /// Same venue, kind and symbol.
    pub fn same_as(&self, other: &InstrumentId) -> (r: bool)
        ensures
            r == self.same_spec(*other),
            r == (self.key() == other.key()),
    {
        self == other
    }

    /// What identifies an instrument: venue, kind and symbol text.
    pub open spec fn key(self) -> (Exchange, InstrumentKind, Seq<char>) {
        (self.exchange, self.kind, self.symbol@)
    }

    pub open spec fn same_spec(self, other: InstrumentId) -> bool {
        self.exchange == other.exchange && self.kind == other.kind && self.symbol@ == other.symbol@
    }

    /// Display text: `"{exchange}.{kind}.{symbol}"`, e.g. `"PredictFun.Binary.42-YES"`.
    pub fn to_string(&self) -> (r: String)
        ensures
            r@ == exchange_text(self.exchange) + "."@ + kind_text(self.kind) + "."@ + self.symbol@,
    {
        let mut s = String::from_str(exchange_str(self.exchange));
        s.append(".");
        s.append(kind_str(self.kind));
        s.append(".");
        s.append(self.symbol.as_str());
        s
    }
}

/// Name of a venue, as its variant is written.
pub open spec fn exchange_text(e: Exchange) -> Seq<char> {
    match e {
        Exchange::Hyperliquid => "Hyperliquid"@,
        Exchange::Lighter => "Lighter"@,
        Exchange::Binance => "Binance"@,
        Exchange::Polymarket => "Polymarket"@,
        Exchange::PredictFun => "PredictFun"@,
    }
}

/// Name of an instrument kind, as its variant is written.
pub open spec fn kind_text(k: InstrumentKind) -> Seq<char> {
    match k {
        InstrumentKind::Perpetual => "Perpetual"@,
        InstrumentKind::Spot => "Spot"@,
        InstrumentKind::Binary => "Binary"@,
        InstrumentKind::MultiOutcome => "MultiOutcome"@,
    }
}

fn exchange_str(e: Exchange) -> (r: &'static str)
    ensures
        r@ == exchange_text(e),
{
    match e {
        Exchange::Hyperliquid => "Hyperliquid",
        Exchange::Lighter => "Lighter",
        Exchange::Binance => "Binance",
        Exchange::Polymarket => "Polymarket",
        Exchange::PredictFun => "PredictFun",
    }
}

fn kind_str(k: InstrumentKind) -> (r: &'static str)
    ensures
        r@ == kind_text(k),
{
    match k {
        InstrumentKind::Perpetual => "Perpetual",
        InstrumentKind::Spot => "Spot",
        InstrumentKind::Binary => "Binary",
        InstrumentKind::MultiOutcome => "MultiOutcome",
    }
}

} // verus!
