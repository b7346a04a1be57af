//! Simulated matching for backtests.
//!
//! A resting buy fills in full when a price at or below its limit is seen on
//! its instrument, a resting sell when a price at or above it is seen. A fill
//! moves the instrument's position by the filled quantity (up for a buy, down
//! for a sell) and sets its entry price to the order's price.

use vstd::prelude::*;
use crate::decimal::{Dec, Price, Quantity, decimal_checked_add, decimal_checked_mul, decimal_checked_sub};
use crate::engine::instrument_table::InstrumentTable;
use crate::text::copy_string;
use crate::types::instrument::{Exchange, InstrumentId, InstrumentKind};
use crate::types::order::{OpenOrder, OrderRequest, OrderSide, OrderStatus, OrderUpdate};
use crate::types::position::Position;
use crate::venues::order_table::{OrderTable, unique_keys};

verus! {

#[derive(Clone, Copy, Debug, PartialEq, Eq, Structural)]
pub enum FillModel {
    /// Fill as soon as the price crosses the order.
    Optimistic,
    /// Fill only after a trade at or through the order's price.
    TradeThrough,
}

/// A resting simulated order.
#[derive(Clone, Debug)]
pub struct SimOrder {
    pub order_id: String,
    pub instrument: InstrumentId,
    pub side: OrderSide,
    pub price: Price,
    pub quantity: Quantity,
    pub filled: Quantity,
}

impl SimOrder {
    /// A copy equal to `self`.
    pub fn copy(&self) -> (r: SimOrder)
        ensures
            r == *self,
    {
        SimOrder {
            order_id: copy_string(&self.order_id),
            instrument: self.instrument.clone_id(),
            side: self.side,
            price: self.price,
            quantity: self.quantity,
            filled: self.filled,
        }
    }
}

pub struct MatchingEngine {
    /// Resting orders by order id.
    pub orders: OrderTable<SimOrder>,
    /// Instrument to (signed size, entry price).
    pub positions: InstrumentTable<(Dec, Dec)>,
    pub fill_model: FillModel,
}

/// The order fills at `price` seen on `inst`.
pub open spec fn should_fill(o: SimOrder, inst: InstrumentId, price: Price) -> bool {
    o.instrument.key() == inst.key() && match o.side {
        OrderSide::Buy => price.value() <= o.price.value(),
        OrderSide::Sell => price.value() >= o.price.value(),
    }
}

/// Quantity still open: quantity minus filled.
pub open spec fn remaining(o: SimOrder) -> Option<Dec> {
    decimal_checked_sub(o.quantity.dec(), o.filled.dec())
}

/// One, negated for a sell.
pub open spec fn unit_sign(side: OrderSide) -> Dec {
    match side {
        OrderSide::Buy => Dec::whole(1),
        OrderSide::Sell => Dec::whole(1).neg_spec(),
    }
}

/// Position change of a fill: the open quantity, negated for a sell.
pub open spec fn signed_remaining(o: SimOrder) -> Option<Dec> {
    match remaining(o) {
        Some(r) => decimal_checked_mul(unit_sign(o.side), r),
        None => None,
    }
}

/// Size after the fills among `es`, taken in order from `size`; `None` when
/// a step overflows.
pub open spec fn size_after(size: Dec, es: Seq<(String, SimOrder)>, inst: InstrumentId, price: Price) -> Option<Dec>
    decreases es.len(),
{
    if es.len() == 0 {
        Some(size)
    } else {
        match size_after(size, es.drop_last(), inst, price) {
            None => None,
            Some(s) => {
                let o = es.last().1;
                if should_fill(o, inst, price) {
                    match signed_remaining(o) {
                        Some(d) => decimal_checked_add(s, d),
                        None => None,
                    }
                } else {
                    Some(s)
                }
            },
        }
    }
}

/// Update reporting the full fill of an order at its own price.
pub open spec fn fill_update(id: String, o: SimOrder) -> OrderUpdate {
    OrderUpdate {
        instrument: o.instrument,
        order_id: id,
        status: OrderStatus::Filled,
        filled_qty: Quantity(remaining(o)->0),
        remaining_qty: Quantity(Dec::whole(0)),
        avg_fill_price: Some(o.price),
        timestamp_ns: 0,
    }
}

/// Updates of the orders among `es` that fill, in order.
pub open spec fn fill_updates(es: Seq<(String, SimOrder)>, inst: InstrumentId, price: Price) -> Seq<OrderUpdate>
    decreases es.len(),
{
    if es.len() == 0 {
        Seq::empty()
    } else {
        let prev = fill_updates(es.drop_last(), inst, price);
        if should_fill(es.last().1, inst, price) {
            prev.push(fill_update(es.last().0, es.last().1))
        } else {
            prev
        }
    }
}

/// Orders among `es` that do not fill, in order.
pub open spec fn unfilled(es: Seq<(String, SimOrder)>, inst: InstrumentId, price: Price) -> Seq<(String, SimOrder)>
    decreases es.len(),
{
    if es.len() == 0 {
        Seq::empty()
    } else {
        let prev = unfilled(es.drop_last(), inst, price);
        if should_fill(es.last().1, inst, price) {
            prev
        } else {
            prev.push(es.last())
        }
    }
}

/// Price of the last order among `es` that fills.
pub open spec fn last_fill_price(es: Seq<(String, SimOrder)>, inst: InstrumentId, price: Price) -> Option<Dec>
    decreases es.len(),
{
    if es.len() == 0 {
        None
    } else if should_fill(es.last().1, inst, price) {
        Some(es.last().1.price.dec())
    } else {
        last_fill_price(es.drop_last(), inst, price)
    }
}

/// Orders among `es` on instrument `inst`, in order.
pub open spec fn orders_on(es: Seq<(String, SimOrder)>, inst: InstrumentId) -> Seq<(String, SimOrder)>
    decreases es.len(),
{
    if es.len() == 0 {
        Seq::empty()
    } else {
        let prev = orders_on(es.drop_last(), inst);
        if es.last().1.instrument.key() == inst.key() {
            prev.push(es.last())
        } else {
            prev
        }
    }
}

/// Orders among `es` on other instruments, in order.
pub open spec fn orders_off(es: Seq<(String, SimOrder)>, inst: InstrumentId) -> Seq<(String, SimOrder)>
    decreases es.len(),
{
    if es.len() == 0 {
        Seq::empty()
    } else {
        let prev = orders_off(es.drop_last(), inst);
        if es.last().1.instrument.key() == inst.key() {
            prev
        } else {
            prev.push(es.last())
        }
    }
}

/// The view of a resting order as an open order.
pub open spec fn open_order_of(o: SimOrder) -> OpenOrder {
    OpenOrder {
        order_id: o.order_id,
        instrument: o.instrument,
        side: o.side,
        price: o.price,
        quantity: o.quantity,
        filled_qty: o.filled,
    }
}

pub open spec fn position_of(e: (InstrumentId, (Dec, Dec))) -> Position {
    Position {
        instrument: e.0,
        size: Quantity(e.1.0),
        avg_entry_price: Price(e.1.1),
        unrealized_pnl: Price(Dec::whole(0)),
    }
}

proof fn lemma_size_after_prefix(size: Dec, es: Seq<(String, SimOrder)>, inst: InstrumentId, price: Price, j: int)
    requires
        0 <= j <= es.len(),
        size_after(size, es, inst, price) is Some,
    ensures
        size_after(size, es.take(j), inst, price) is Some,
    decreases es.len(),
{
    if j == es.len() {
        assert(es.take(j) =~= es);
    } else {
        assert(es.drop_last().take(j) =~= es.take(j));
        lemma_size_after_prefix(size, es.drop_last(), inst, price, j);
    }
}

proof fn lemma_size_after_none(size: Dec, es: Seq<(String, SimOrder)>, inst: InstrumentId, price: Price, j: int)
    requires
        0 <= j <= es.len(),
        size_after(size, es.take(j), inst, price) is None,
    ensures
        size_after(size, es, inst, price) is None,
    decreases es.len(),
{
    if j == es.len() {
        assert(es.take(j) =~= es);
    } else {
        assert(es.drop_last().take(j) =~= es.take(j));
        lemma_size_after_none(size, es.drop_last(), inst, price, j);
    }
}

/// After a cancel-all for an instrument no order on it rests.
pub proof fn law_cancel_all_clears(es: Seq<(String, SimOrder)>, inst: InstrumentId)
    ensures
        forall|k: int| 0 <= k < orders_off(es, inst).len() ==> (#[trigger] orders_off(es, inst)[k]).1.instrument.key()
            != inst.key(),
        orders_on(es, inst).len() + orders_off(es, inst).len() == es.len(),
    decreases es.len(),
{
    if es.len() > 0 {
        law_cancel_all_clears(es.drop_last(), inst);
        let p = orders_off(es.drop_last(), inst);
        assert forall|k: int| 0 <= k < orders_off(es, inst).len() implies (#[trigger] orders_off(es, inst)[k]).1.instrument.key()
            != inst.key() by {
            if k < p.len() {
                assert(orders_off(es, inst)[k] == p[k]);
            }
        }
    }
}

/// After a price is seen, no resting order is one that price reaches; every
/// order either filled (and was reported) or still rests.
pub proof fn law_no_crossed_order_rests(es: Seq<(String, SimOrder)>, inst: InstrumentId, price: Price)
    ensures
        forall|k: int| 0 <= k < unfilled(es, inst, price).len() ==> !should_fill(
            (#[trigger] unfilled(es, inst, price)[k]).1,
            inst,
            price,
        ),
        fill_updates(es, inst, price).len() + unfilled(es, inst, price).len() == es.len(),
    decreases es.len(),
{
    if es.len() > 0 {
        law_no_crossed_order_rests(es.drop_last(), inst, price);
        let p = unfilled(es.drop_last(), inst, price);
        assert forall|k: int| 0 <= k < unfilled(es, inst, price).len() implies !should_fill(
            (#[trigger] unfilled(es, inst, price)[k]).1,
            inst,
            price,
        ) by {
            if k < p.len() {
                assert(unfilled(es, inst, price)[k] == p[k]);
            }
        }
    }
}

impl MatchingEngine {
    pub open spec fn wf(self) -> bool {
        self.orders.wf() && self.positions.wf()
    }

    /// Start of the position of `inst`: its size, or zero.
    pub open spec fn size_of(self, inst: InstrumentId) -> Dec {
        if self.positions.view().contains_key(inst.key()) {
            self.positions.view()[inst.key()].0
        } else {
            Dec::whole(0)
        }
    }

    /// `after` is `self` once a trade at `price` on `inst` filled what it
    /// reaches: those orders leave the book, and the position takes the size
    /// they move it to and the last fill's price.
    pub open spec fn filled(self, after: MatchingEngine, inst: InstrumentId, price: Price) -> bool {
        &&& after.fill_model == self.fill_model
        &&& after.orders.entries@ == unfilled(self.orders.entries@, inst, price)
        &&& match last_fill_price(self.orders.entries@, inst, price) {
            Some(p) => after.positions.view() == self.positions.view().insert(
                inst.key(),
                (size_after(self.size_of(inst), self.orders.entries@, inst, price)->0, p),
            ),
            None => after.positions == self.positions,
        }
    }

    /// No resting order, no position, fills after a trade through the price.
    pub fn new() -> (r: MatchingEngine)
        ensures
            r.wf(),
            r.orders.view() == Map::<Seq<char>, SimOrder>::empty(),
            r.positions.view() == Map::<(Exchange, InstrumentKind, Seq<char>), (Dec, Dec)>::empty(),
            r.fill_model == FillModel::TradeThrough,
    {
        MatchingEngine {
            orders: OrderTable::new(),
            positions: InstrumentTable::new(),
            fill_model: FillModel::TradeThrough,
        }
    }

    pub fn with_fill_model(self, model: FillModel) -> (r: MatchingEngine)
        ensures
            r.orders == self.orders,
            r.positions == self.positions,
            r.fill_model == model,
    {
        MatchingEngine { orders: self.orders, positions: self.positions, fill_model: model }
    }

    /// Rest an order under `order_id`, nothing filled; an order of the same id
    /// is replaced.
    pub fn add_order(&mut self, order_id: String, req: OrderRequest)
        requires
            old(self).wf(),
        ensures
            final(self).wf(),
            final(self).positions == old(self).positions,
            final(self).fill_model == old(self).fill_model,
            final(self).orders.view() == old(self).orders.view().insert(
                order_id@,
                (SimOrder {
                    order_id: order_id,
                    instrument: req.instrument,
                    side: req.side,
                    price: req.price,
                    quantity: req.quantity,
                    filled: Quantity(Dec::whole(0)),
                }),
            ),
    {
        let key = copy_string(&order_id);
        let o = SimOrder {
            order_id,
            instrument: req.instrument,
            side: req.side,
            price: req.price,
            quantity: req.quantity,
            filled: Quantity::zero(),
        };
        self.orders.insert(key, o);
    }

    /// Forget the order `order_id`, if it rests.
    pub fn cancel_order(&mut self, order_id: &str)
        requires
            old(self).wf(),
        ensures
            final(self).wf(),
            final(self).positions == old(self).positions,
            final(self).fill_model == old(self).fill_model,
            final(self).orders.view() == old(self).orders.view().remove(order_id@),
    {
        let _ = self.orders.remove(order_id);
    }

    /// Forget every order on `instrument`; returns their ids, in table order.
    pub fn cancel_all_for(&mut self, instrument: &InstrumentId) -> (r: Vec<String>)
        requires
            old(self).wf(),
        ensures
            final(self).wf(),
            final(self).positions == old(self).positions,
            final(self).fill_model == old(self).fill_model,
            final(self).orders.entries@ == orders_off(old(self).orders.entries@, *instrument),
            r@ == orders_on(old(self).orders.entries@, *instrument).map_values(|e: (String, SimOrder)| e.0),
    {
        let ghost es = self.orders.entries@;
        let mut ids: Vec<String> = Vec::new();
        let mut kept: Vec<(String, SimOrder)> = Vec::new();
        let mut i: usize = 0;
        while i < self.orders.entries.len()
            invariant
                0 <= i <= es.len(),
                es == self.orders.entries@,
                unique_keys(es),
                ids@ == orders_on(es.take(i as int), *instrument).map_values(|e: (String, SimOrder)| e.0),
                kept@ == orders_off(es.take(i as int), *instrument),
                unique_keys(kept@),
                forall|a: int| 0 <= a < kept@.len() ==> exists|j: int| 0 <= j < i && #[trigger] kept@[a].0@ == es[j].0@,
            decreases es.len() - i,
        {
            let e = &self.orders.entries[i];
            assert(es.take(i + 1).drop_last() =~= es.take(i as int));
            assert(es.take(i + 1).last() == es[i as int]);
            if e.1.instrument.same_as(instrument) {
                ids.push(copy_string(&e.0));
                assert(ids@ =~= orders_on(es.take(i + 1), *instrument).map_values(|e: (String, SimOrder)| e.0));
            } else {
                let ghost before = kept@;
                kept.push((copy_string(&e.0), e.1.copy()));
                assert forall|a: int, b: int| 0 <= a < b < kept@.len() implies #[trigger] kept@[a].0@
                    != #[trigger] kept@[b].0@ by {
                    if b == kept@.len() - 1 {
                        let j = choose|j: int| 0 <= j < i && #[trigger] before[a].0@ == es[j].0@;
                        assert(es[j].0@ != es[i as int].0@);
                    } else {
                        assert(before[a] == kept@[a] && before[b] == kept@[b]);
                    }
                }
                assert forall|a: int| 0 <= a < kept@.len() implies exists|j: int| 0 <= j < i + 1 && #[trigger] kept@[a].0@ == es[j].0@ by {
                    if a < before.len() {
                        assert(before[a] == kept@[a]);
                    } else {
                        assert(kept@[a].0@ == es[i as int].0@);
                    }
                }
            }
            i = i + 1;
        }
        assert(es.take(es.len() as int) =~= es);
        self.orders = OrderTable { entries: kept };
        ids
    }

    /// Fill every resting order on `instrument` that `trade_price` reaches, in
    /// table order: each is reported filled in full at its own price and leaves
    /// the book; the instrument's position moves by each fill and takes the
    /// last fill's price as entry price. Without a fill nothing changes.
    pub fn check_fills(&mut self, instrument: &InstrumentId, trade_price: Price) -> (r: Vec<OrderUpdate>)
        requires
            old(self).wf(),
            size_after(old(self).size_of(*instrument), old(self).orders.entries@, *instrument, trade_price) is Some,
        ensures
            final(self).wf(),
            final(self).fill_model == old(self).fill_model,
            r@ == fill_updates(old(self).orders.entries@, *instrument, trade_price),
            old(self).filled(*final(self), *instrument, trade_price),
            final(self).orders.entries@ == unfilled(old(self).orders.entries@, *instrument, trade_price),
            match last_fill_price(old(self).orders.entries@, *instrument, trade_price) {
                Some(p) => final(self).positions.view() == old(self).positions.view().insert(
                    instrument.key(),
                    (
                        size_after(
                            old(self).size_of(*instrument),
                            old(self).orders.entries@,
                            *instrument,
                            trade_price,
                        )->0,
                        p,
                    ),
                ),
                None => final(self).positions == old(self).positions,
            },
    {
        let ghost es = self.orders.entries@;
        let start = match self.positions.get(instrument) {
            Some(p) => p.0,
            None => Dec::zero(),
        };
        let mut size = start;
        let mut last: Option<Dec> = None;
        let mut updates: Vec<OrderUpdate> = Vec::new();
        let mut kept: Vec<(String, SimOrder)> = Vec::new();
        let mut i: usize = 0;
        while i < self.orders.entries.len()
            invariant
                0 <= i <= es.len(),
                es == self.orders.entries@,
                unique_keys(es),
                start == self.size_of(*instrument),
                size_after(start, es, *instrument, trade_price) is Some,
                size_after(start, es.take(i as int), *instrument, trade_price) == Some(size),
                updates@ == fill_updates(es.take(i as int), *instrument, trade_price),
                kept@ == unfilled(es.take(i as int), *instrument, trade_price),
                last == last_fill_price(es.take(i as int), *instrument, trade_price),
                unique_keys(kept@),
                forall|a: int| 0 <= a < kept@.len() ==> exists|j: int| 0 <= j < i && #[trigger] kept@[a].0@ == es[j].0@,
            decreases es.len() - i,
        {
            let e = &self.orders.entries[i];
            assert(es.take(i + 1).drop_last() =~= es.take(i as int));
            assert(es.take(i + 1).last() == es[i as int]);
            proof {
                lemma_size_after_prefix(start, es, *instrument, trade_price, i + 1);
            }
            let o = &e.1;
            let fills = if o.instrument.same_as(instrument) {
                match o.side {
                    OrderSide::Buy => trade_price.inner().le(&o.price.inner()),
                    OrderSide::Sell => trade_price.inner().ge(&o.price.inner()),
                }
            } else {
                false
            };
            if fills {
                let rem = o.quantity.inner().checked_sub(o.filled.inner()).unwrap();
                let sign = match o.side {
                    OrderSide::Buy => Dec::one(),
                    OrderSide::Sell => Dec::one().neg(),
                };
                let delta = sign.checked_mul(rem).unwrap();
                size = size.checked_add(delta).unwrap();
                last = Some(o.price.inner());
                updates.push(
                    OrderUpdate {
                        instrument: o.instrument.clone_id(),
                        order_id: copy_string(&e.0),
                        status: OrderStatus::Filled,
                        filled_qty: Quantity::new(rem),
                        remaining_qty: Quantity::zero(),
                        avg_fill_price: Some(o.price),
                        timestamp_ns: 0,
                    },
                );
            } else {
                let ghost before = kept@;
                kept.push((copy_string(&e.0), o.copy()));
                assert forall|a: int, b: int| 0 <= a < b < kept@.len() implies #[trigger] kept@[a].0@
                    != #[trigger] kept@[b].0@ by {
                    if b == kept@.len() - 1 {
                        let j = choose|j: int| 0 <= j < i && #[trigger] before[a].0@ == es[j].0@;
                        assert(es[j].0@ != es[i as int].0@);
                    } else {
                        assert(before[a] == kept@[a] && before[b] == kept@[b]);
                    }
                }
                assert forall|a: int| 0 <= a < kept@.len() implies exists|j: int| 0 <= j < i + 1 && #[trigger] kept@[a].0@ == es[j].0@ by {
                    if a < before.len() {
                        assert(before[a] == kept@[a]);
                    } else {
                        assert(kept@[a].0@ == es[i as int].0@);
                    }
                }
            }
            i = i + 1;
        }
        assert(es.take(es.len() as int) =~= es);
        self.orders = OrderTable { entries: kept };
        match last {
            Some(p) => {
                self.positions.insert(instrument.clone_id(), (size, p));
            },
            None => {},
        }
        updates
    }

    /// Whether filling at `trade_price` on `instrument` moves the position
    /// without overflow.
    pub fn fills_fit(&self, instrument: &InstrumentId, trade_price: Price) -> (r: bool)
        requires
            self.wf(),
        ensures
            r == (size_after(self.size_of(*instrument), self.orders.entries@, *instrument, trade_price) is Some),
    {
        let ghost es = self.orders.entries@;
        let start = match self.positions.get(instrument) {
            Some(p) => p.0,
            None => Dec::zero(),
        };
        let mut size = start;
        let mut i: usize = 0;
        while i < self.orders.entries.len()
            invariant
                0 <= i <= es.len(),
                es == self.orders.entries@,
                start == self.size_of(*instrument),
                size_after(start, es.take(i as int), *instrument, trade_price) == Some(size),
            decreases es.len() - i,
        {
            let o = &self.orders.entries[i].1;
            assert(es.take(i + 1).drop_last() =~= es.take(i as int));
            assert(es.take(i + 1).last() == es[i as int]);
            let fills = if o.instrument.same_as(instrument) {
                match o.side {
                    OrderSide::Buy => trade_price.inner().le(&o.price.inner()),
                    OrderSide::Sell => trade_price.inner().ge(&o.price.inner()),
                }
            } else {
                false
            };
            if fills {
                let rem = match o.quantity.inner().checked_sub(o.filled.inner()) {
                    Some(v) => v,
                    None => {
                        proof {
                            lemma_size_after_none(start, es, *instrument, trade_price, i + 1);
                        }
                        return false;
                    },
                };
                let sign = match o.side {
                    OrderSide::Buy => Dec::one(),
                    OrderSide::Sell => Dec::one().neg(),
                };
                let delta = match sign.checked_mul(rem) {
                    Some(v) => v,
                    None => {
                        proof {
                            lemma_size_after_none(start, es, *instrument, trade_price, i + 1);
                        }
                        return false;
                    },
                };
                size = match size.checked_add(delta) {
                    Some(v) => v,
                    None => {
                        proof {
                            lemma_size_after_none(start, es, *instrument, trade_price, i + 1);
                        }
                        return false;
                    },
                };
            }
            i = i + 1;
        }
        assert(es.take(es.len() as int) =~= es);
        true
    }

    /// `check_fills` where the position moves without overflow; otherwise
    /// `None`, and nothing changes.
    pub fn try_check_fills(&mut self, instrument: &InstrumentId, trade_price: Price) -> (r: Option<Vec<OrderUpdate>>)
        requires
            old(self).wf(),
        ensures
            final(self).wf(),
            size_after(old(self).size_of(*instrument), old(self).orders.entries@, *instrument, trade_price) is None
                ==> r is None && final(self).orders == old(self).orders && final(self).positions == old(self).positions,
            size_after(old(self).size_of(*instrument), old(self).orders.entries@, *instrument, trade_price) is Some
                ==> (r matches Some(v) && v@ == fill_updates(old(self).orders.entries@, *instrument, trade_price)
                && old(self).filled(*final(self), *instrument, trade_price)),
    {
        if self.fills_fit(instrument, trade_price) {
            Some(self.check_fills(instrument, trade_price))
        } else {
            None
        }
    }

    /// Every position, in table order, with no unrealised profit.
    pub fn positions(&self) -> (r: Vec<Position>)
        ensures
            r@ == self.positions.entries@.map_values(|e: (InstrumentId, (Dec, Dec))| position_of(e)),
    {
        let ghost es = self.positions.entries@;
        let mut out: Vec<Position> = Vec::new();
        let mut i: usize = 0;
        while i < self.positions.entries.len()
            invariant
                0 <= i <= es.len(),
                es == self.positions.entries@,
                out@ == es.take(i as int).map_values(|e: (InstrumentId, (Dec, Dec))| position_of(e)),
            decreases es.len() - i,
        {
            let e = &self.positions.entries[i];
            out.push(
                Position {
                    instrument: e.0.clone_id(),
                    size: Quantity::new(e.1.0),
                    avg_entry_price: Price::new(e.1.1),
                    unrealized_pnl: Price::zero(),
                },
            );
            assert(es.take(i + 1).map_values(|e: (InstrumentId, (Dec, Dec))| position_of(e)) =~= es.take(
                i as int,
            ).map_values(|e: (InstrumentId, (Dec, Dec))| position_of(e)).push(position_of(es[i as int])));
            i = i + 1;
        }
        assert(es.take(es.len() as int) =~= es);
        out
    }

    /// The resting orders on `instrument`, in table order.
    pub fn open_orders_for(&self, instrument: &InstrumentId) -> (r: Vec<OpenOrder>)
        ensures
            r@ == orders_on(self.orders.entries@, *instrument).map_values(
                |e: (String, SimOrder)| open_order_of(e.1),
            ),
    {
        let ghost es = self.orders.entries@;
        let mut out: Vec<OpenOrder> = Vec::new();
        let mut i: usize = 0;
        while i < self.orders.entries.len()
            invariant
                0 <= i <= es.len(),
                es == self.orders.entries@,
                out@ == orders_on(es.take(i as int), *instrument).map_values(
                    |e: (String, SimOrder)| open_order_of(e.1),
                ),
            decreases es.len() - i,
        {
            let o = &self.orders.entries[i].1;
            assert(es.take(i + 1).drop_last() =~= es.take(i as int));
            assert(es.take(i + 1).last() == es[i as int]);
            if o.instrument.same_as(instrument) {
                out.push(
                    OpenOrder {
                        order_id: copy_string(&o.order_id),
                        instrument: o.instrument.clone_id(),
                        side: o.side,
                        price: o.price,
                        quantity: o.quantity,
                        filled_qty: o.filled,
                    },
                );
                assert(out@ =~= orders_on(es.take(i + 1), *instrument).map_values(
                    |e: (String, SimOrder)| open_order_of(e.1),
                ));
            }
            i = i + 1;
        }
        assert(es.take(es.len() as int) =~= es);
        out
    }
}

} // verus!
