//! The simulated connector: orders go to a matching engine instead of a venue,
//! and every order update it would send is kept in an outbox, in order.

use vstd::prelude::*;
use crate::backtest::matching_engine::{MatchingEngine, SimOrder, fill_updates, size_after};
use crate::decimal::{Dec, Price, Quantity};
use crate::text::copy_string;
use crate::types::instrument::{Exchange, InstrumentId};
use crate::types::order::{OpenOrder, OrderRequest, OrderSide, OrderStatus, OrderUpdate, TimeInForce};
use crate::types::position::Position;

verus! {

/// `uuid::Uuid::new_v4` in its hyphenated text form: a random id. Nothing is
/// stated of it.
#[verifier::external_body]
fn new_order_id() -> (r: String) {
    uuid::Uuid::new_v4().to_string()
}

pub struct SimConnector {
    pub exchange: Exchange,
    pub engine: MatchingEngine,
    /// Order updates sent and not yet handed out, oldest first.
    pub outbox: Vec<OrderUpdate>,
}

/// Update reporting a status alone for an order.
pub open spec fn status_update(instrument: InstrumentId, order_id: String, status: OrderStatus, remaining: Quantity) -> OrderUpdate {
    OrderUpdate {
        instrument,
        order_id,
        status,
        filled_qty: Quantity(Dec::whole(0)),
        remaining_qty: remaining,
        avg_fill_price: None,
        timestamp_ns: 0,
    }
}

/// The resting order a request becomes.
pub open spec fn sim_order_of(order_id: String, req: OrderRequest) -> SimOrder {
    SimOrder {
        order_id,
        instrument: req.instrument,
        side: req.side,
        price: req.price,
        quantity: req.quantity,
        filled: Quantity(Dec::whole(0)),
    }
}

fn status_update_of(instrument: InstrumentId, order_id: String, status: OrderStatus, remaining: Quantity) -> (r: OrderUpdate)
    ensures
        r == status_update(instrument, order_id, status, remaining),
{
    OrderUpdate {
        instrument,
        order_id,
        status,
        filled_qty: Quantity::zero(),
        remaining_qty: remaining,
        avg_fill_price: None,
        timestamp_ns: 0,
    }
}

impl SimConnector {
    pub open spec fn wf(self) -> bool {
        self.engine.wf()
    }

    pub fn new(exchange: Exchange) -> (r: SimConnector)
        ensures
            r.wf(),
            r.exchange == exchange,
            r.engine.orders.view() == Map::<Seq<char>, SimOrder>::empty(),
            r.engine.positions.view() == Map::<(crate::types::instrument::Exchange, crate::types::instrument::InstrumentKind, Seq<char>), (Dec, Dec)>::empty(),
            r.outbox@.len() == 0,
    {
        SimConnector { exchange, engine: MatchingEngine::new(), outbox: Vec::new() }
    }

    pub fn exchange(&self) -> (r: Exchange)
        ensures
            r == self.exchange,
    {
        self.exchange
    }

    /// A price seen on `instrument`: fill what it reaches and send the fills.
    pub fn on_market_data(&mut self, instrument: &InstrumentId, mid_price: Price)
        requires
            old(self).wf(),
            size_after(old(self).engine.size_of(*instrument), old(self).engine.orders.entries@, *instrument, mid_price)
                is Some,
        ensures
            final(self).wf(),
            final(self).exchange == old(self).exchange,
            old(self).engine.filled(final(self).engine, *instrument, mid_price),
            final(self).outbox@ == old(self).outbox@ + fill_updates(old(self).engine.orders.entries@, *instrument, mid_price),
    {
        let mut fills = self.engine.check_fills(instrument, mid_price);
        self.outbox.append(&mut fills);
    }

    /// `on_market_data` where the fills move the position without overflow;
    /// otherwise `false`, and nothing changes.
    pub fn try_on_market_data(&mut self, instrument: &InstrumentId, mid_price: Price) -> (r: bool)
        requires
            old(self).wf(),
        ensures
            final(self).wf(),
            r == (size_after(old(self).engine.size_of(*instrument), old(self).engine.orders.entries@, *instrument, mid_price) is Some),
            final(self).exchange == old(self).exchange,
            r ==> final(self).outbox@ == old(self).outbox@ + fill_updates(old(self).engine.orders.entries@, *instrument, mid_price)
                && old(self).engine.filled(final(self).engine, *instrument, mid_price),
            !r ==> *final(self) == *old(self),
    {
        if self.engine.fills_fit(instrument, mid_price) {
            self.on_market_data(instrument, mid_price);
            true
        } else {
            false
        }
    }

    /// Rest `req` under `order_id` and send its acknowledgement.
    pub fn place_order_with_id(&mut self, req: &OrderRequest, order_id: String) -> (r: String)
        requires
            old(self).wf(),
        ensures
            final(self).wf(),
            final(self).exchange == old(self).exchange,
            r == order_id,
            final(self).engine.orders.view() == old(self).engine.orders.view().insert(order_id@, sim_order_of(order_id, *req)),
            final(self).engine.positions == old(self).engine.positions,
            final(self).outbox@ == old(self).outbox@.push(
                status_update(req.instrument, order_id, OrderStatus::Acknowledged, req.quantity),
            ),
    {
        self.engine.add_order(copy_string(&order_id), req.copy());
        let ack = status_update_of(req.instrument.clone_id(), copy_string(&order_id), OrderStatus::Acknowledged, req.quantity);
        self.outbox.push(ack);
        order_id
    }

    /// Rest `req` under a fresh random id, send its acknowledgement, return the id.
    pub fn place_order(&mut self, req: &OrderRequest) -> (r: String)
        requires
            old(self).wf(),
        ensures
            final(self).wf(),
            final(self).exchange == old(self).exchange,
            final(self).engine.orders.view() == old(self).engine.orders.view().insert(r@, sim_order_of(r, *req)),
            final(self).engine.positions == old(self).engine.positions,
            final(self).outbox@ == old(self).outbox@.push(
                status_update(req.instrument, r, OrderStatus::Acknowledged, req.quantity),
            ),
    {
        let id = new_order_id();
        self.place_order_with_id(req, id)
    }

    /// Forget the order and send its cancellation (also for an unknown id).
    pub fn cancel_order(&mut self, instrument: &InstrumentId, order_id: &String)
        requires
            old(self).wf(),
        ensures
            final(self).wf(),
            final(self).exchange == old(self).exchange,
            final(self).engine.orders.view() == old(self).engine.orders.view().remove(order_id@),
            final(self).engine.positions == old(self).engine.positions,
            final(self).outbox@ == old(self).outbox@.push(
                status_update(*instrument, *order_id, OrderStatus::Cancelled, Quantity(Dec::whole(0))),
            ),
    {
        self.engine.cancel_order(order_id.as_str());
        let u = status_update_of(instrument.clone_id(), copy_string(order_id), OrderStatus::Cancelled, Quantity::zero());
        self.outbox.push(u);
    }

    /// Forget every order on `instrument` and send a cancellation for each.
    pub fn cancel_all(&mut self, instrument: &InstrumentId)
        requires
            old(self).wf(),
        ensures
            final(self).wf(),
            final(self).exchange == old(self).exchange,
            final(self).engine.positions == old(self).engine.positions,
            final(self).engine.orders.entries@ == crate::backtest::matching_engine::orders_off(old(self).engine.orders.entries@, *instrument),
            final(self).outbox@.len() >= old(self).outbox@.len(),
            final(self).outbox@.take(old(self).outbox@.len() as int) == old(self).outbox@,
            forall|k: int| old(self).outbox@.len() <= k < final(self).outbox@.len() ==> #[trigger] final(self).outbox@[k]
                == status_update(*instrument, final(self).outbox@[k].order_id, OrderStatus::Cancelled, Quantity(Dec::whole(0))),
            final(self).outbox@.skip(old(self).outbox@.len() as int).map_values(|u: OrderUpdate| u.order_id)
                == crate::backtest::matching_engine::orders_on(old(self).engine.orders.entries@, *instrument).map_values(
                |e: (String, SimOrder)| e.0,
            ),
    {
        let ghost start = self.outbox@;
        let ids = self.engine.cancel_all_for(instrument);
        assert(self.exchange == old(self).exchange);
        let ghost eng = self.engine;
        let ghost ex = self.exchange;
        let mut i: usize = 0;
        while i < ids.len()
            invariant
                0 <= i <= ids@.len(),
                self.wf(),
                self.exchange == ex,
                self.engine == eng,
                self.outbox@.len() == start.len() + i,
                self.outbox@.take(start.len() as int) == start,
                forall|k: int| start.len() <= k < self.outbox@.len() ==> #[trigger] self.outbox@[k] == status_update(
                    *instrument,
                    self.outbox@[k].order_id,
                    OrderStatus::Cancelled,
                    Quantity(Dec::whole(0)),
                ),
                self.outbox@.skip(start.len() as int).map_values(|u: OrderUpdate| u.order_id) == ids@.take(i as int),
            decreases ids@.len() - i,
        {
            let u = status_update_of(instrument.clone_id(), copy_string(&ids[i]), OrderStatus::Cancelled, Quantity::zero());
            let ghost before = self.outbox@;
            self.outbox.push(u);
            assert(self.outbox@.take(start.len() as int) =~= before.take(start.len() as int));
            assert(self.outbox@.skip(start.len() as int).map_values(|u: OrderUpdate| u.order_id) =~= ids@.take(i + 1));
            i = i + 1;
        }
        assert(ids@.take(ids@.len() as int) =~= ids@);
    }

    /// Cancel, then place a buy at the new price and quantity, good till
    /// cancelled; the side of the cancelled order is not kept.
    pub fn modify_order(&mut self, instrument: &InstrumentId, order_id: &String, new_price: Price, new_qty: Quantity) -> (r:
        String)
        requires
            old(self).wf(),
        ensures
            final(self).wf(),
            final(self).exchange == old(self).exchange,
            final(self).engine.orders.view() == old(self).engine.orders.view().remove(order_id@).insert(
                r@,
                sim_order_of(
                    r,
                    (OrderRequest {
                        instrument: *instrument,
                        side: OrderSide::Buy,
                        price: new_price,
                        quantity: new_qty,
                        tif: TimeInForce::Gtc,
                        client_order_id: None,
                    }),
                ),
            ),
            final(self).outbox@ == old(self).outbox@.push(
                status_update(*instrument, *order_id, OrderStatus::Cancelled, Quantity(Dec::whole(0))),
            ).push(status_update(*instrument, r, OrderStatus::Acknowledged, new_qty)),
    {
        self.cancel_order(instrument, order_id);
        let req = OrderRequest {
            instrument: instrument.clone_id(),
            side: OrderSide::Buy,
            price: new_price,
            quantity: new_qty,
            tif: TimeInForce::Gtc,
            client_order_id: None,
        };
        self.place_order(&req)
    }

    pub fn positions(&self) -> (r: Vec<Position>)
        ensures
            r@ == self.engine.positions.entries@.map_values(
                |e: (InstrumentId, (Dec, Dec))| crate::backtest::matching_engine::position_of(e),
            ),
    {
        self.engine.positions()
    }

    pub fn open_orders(&self, instrument: &InstrumentId) -> (r: Vec<OpenOrder>)
        ensures
            r@ == crate::backtest::matching_engine::orders_on(self.engine.orders.entries@, *instrument).map_values(
                |e: (String, SimOrder)| crate::backtest::matching_engine::open_order_of(e.1),
            ),
    {
        self.engine.open_orders_for(instrument)
    }

    /// Hand out the updates sent so far, oldest first.
    pub fn take_updates(&mut self) -> (r: Vec<OrderUpdate>)
        ensures
            r == old(self).outbox,
            final(self).outbox@.len() == 0,
            final(self).engine == old(self).engine,
            final(self).exchange == old(self).exchange,
    {
        let mut out: Vec<OrderUpdate> = Vec::new();
        std::mem::swap(&mut out, &mut self.outbox);
        out
    }
}

} // verus!
