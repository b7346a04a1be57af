//! The replay loop's own steps: a recorded book reaches the simulated
//! connector as its mid price, and the strategy's actions are carried out on
//! it one after the other. The strategy itself runs outside.

use vstd::prelude::*;
use crate::backtest::matching_engine::{fill_updates, orders_off, orders_on, size_after, SimOrder};
use crate::backtest::sim_connector::{SimConnector, sim_order_of, status_update};
use crate::decimal::{Dec, Price, Quantity, decimal_checked_add, decimal_checked_div};
use crate::types::action::Action;
use crate::types::event::Event;
use crate::types::market_data::OrderbookSnapshot;
use crate::types::order::{OrderStatus, OrderUpdate};

verus! {

/// Mid of a book with both sides whose best prices add up without overflow;
/// `None` otherwise.
pub open spec fn mid_of(book: OrderbookSnapshot) -> Option<Price> {
    if book.bids@.len() > 0 && book.asks@.len() > 0 {
        match decimal_checked_add(book.bids@[0].0.dec(), book.asks@[0].0.dec()) {
            Some(s) => Some(Price(decimal_checked_div(s, Dec::two_spec())->0)),
            None => None,
        }
    } else {
        None
    }
}

/// The mid fed to the venue is the average of the best bid and the best ask:
/// whenever both sides are present, their sum `s` is exact and halving it is
/// exact, the mid `m` satisfies `2 * m == best_bid + best_ask`.
pub proof fn law_mid_is_average(book: OrderbookSnapshot, s: Dec, q: Dec)
    requires
        book.bids@.len() > 0,
        book.asks@.len() > 0,
        decimal_checked_add(book.bids@[0].0.dec(), book.asks@[0].0.dec()) == Some(s),
        s.value() == book.bids@[0].0.dec().value() + book.asks@[0].0.dec().value(),
        decimal_checked_div(s, Dec::two_spec()) == Some(q),
        2 * q.value() == s.value(),
    ensures
        mid_of(book) matches Some(m) && 2 * m.dec().value() == book.bids@[0].0.dec().value()
            + book.asks@[0].0.dec().value(),
{
}

/// A book without a bid or without an ask has no mid, and nothing reaches
/// the venue.
pub proof fn law_mid_needs_both_sides(book: OrderbookSnapshot)
    requires
        book.bids@.len() == 0 || book.asks@.len() == 0,
    ensures
        mid_of(book) is None,
        !mid_overflows(book),
{
}

/// Both sides are present and their best prices overflow when added.
pub open spec fn mid_overflows(book: OrderbookSnapshot) -> bool {
    book.bids@.len() > 0 && book.asks@.len() > 0 && decimal_checked_add(
        book.bids@[0].0.dec(),
        book.asks@[0].0.dec(),
    ) is None
}

/// Mid price of `book`, checked: `Ok(None)` without both sides, `Err(())`
/// when the best prices overflow when added.
pub fn checked_mid(book: &OrderbookSnapshot) -> (r: Result<Option<Price>, ()>)
    ensures
        mid_overflows(*book) <==> r is Err,
        r is Ok ==> r->Ok_0 == mid_of(*book),
{
    if book.bids.len() > 0 && book.asks.len() > 0 {
        let b = book.bids[0].0.inner();
        let a = book.asks[0].0.inner();
        match b.checked_add(a) {
            Some(s) => {
                let two = Dec::two();
                proof {
                    crate::decimal::lemma_pow10_28();
                    Dec::lemma_two_spec();
                }
                let mid = s.checked_div(two);
                Ok(Some(Price::new(mid.unwrap())))
            },
            None => Err(()),
        }
    } else {
        Ok(None)
    }
}

/// `after` is `before` once the book `event` carries (if it is one) reached
/// the simulated venue, and the fills it made fit; `ok` tells whether they
/// did. Every event other than a book leaves the connector as it is.
pub open spec fn fed(before: SimConnector, event: Event, after: SimConnector, ok: bool) -> bool {
    &&& after.exchange == before.exchange
    &&& match event {
        Event::BookUpdate { instrument, book, .. } => match mid_of(book) {
            Some(mid) => {
                &&& ok == (size_after(before.engine.size_of(instrument), before.engine.orders.entries@, instrument, mid) is Some)
                &&& ok ==> after.outbox@ == before.outbox@ + fill_updates(before.engine.orders.entries@, instrument, mid)
                    && before.engine.filled(after.engine, instrument, mid)
                &&& !ok ==> after == before
            },
            None => ok == !mid_overflows(book) && after == before,
        },
        _ => ok && after == before,
    }
}

/// Feed a replayed event to the simulated venue: a book is matched at its
/// mid price. `false` when the mid or the position would overflow, and then
/// nothing changes.
pub fn feed_event(connector: &mut SimConnector, event: &Event) -> (ok: bool)
    requires
        old(connector).wf(),
    ensures
        final(connector).wf(),
        fed(*old(connector), *event, *final(connector), ok),
{
    match event {
        Event::BookUpdate { instrument, book, .. } => match checked_mid(book) {
            Ok(Some(mid)) => connector.try_on_market_data(instrument, mid),
            Ok(None) => true,
            Err(()) => false,
        },
        _ => true,
    }
}

/// Ids of the updates of `us`.
pub open spec fn update_ids(us: Seq<OrderUpdate>) -> Seq<String> {
    us.map_values(|u: OrderUpdate| u.order_id)
}

/// `after` is `before` once the action `a` was carried out: an order is
/// rested under a fresh id and acknowledged, a cancel forgets the order and
/// reports it cancelled, a cancel-all does so for every order of the
/// instrument; a modification or a logged decision changes nothing.
/// Positions and the exchange never change.
pub open spec fn applied(before: SimConnector, a: Action, after: SimConnector) -> bool {
    &&& after.wf()
    &&& after.exchange == before.exchange
    &&& after.engine.positions == before.engine.positions
    &&& match a {
        Action::PlaceOrder(req) => exists|id: String|
            after.engine.orders.view() == before.engine.orders.view().insert(id@, #[trigger] sim_order_of(id, req))
                && after.outbox@ == before.outbox@.push(
                status_update(req.instrument, id, OrderStatus::Acknowledged, req.quantity),
            ),
        Action::CancelOrder { instrument, order_id } => {
            &&& after.engine.orders.view() == before.engine.orders.view().remove(order_id@)
            &&& after.outbox@ == before.outbox@.push(
                status_update(instrument, order_id, OrderStatus::Cancelled, Quantity(Dec::whole(0))),
            )
        },
        Action::CancelAll { instrument } => {
            &&& after.engine.orders.entries@ == orders_off(before.engine.orders.entries@, instrument)
            &&& after.outbox@.len() >= before.outbox@.len()
            &&& after.outbox@.take(before.outbox@.len() as int) == before.outbox@
            &&& forall|k: int| before.outbox@.len() <= k < after.outbox@.len() ==> #[trigger] after.outbox@[k]
                == status_update(instrument, after.outbox@[k].order_id, OrderStatus::Cancelled, Quantity(Dec::whole(0)))
            &&& update_ids(after.outbox@.skip(before.outbox@.len() as int)) == orders_on(
                before.engine.orders.entries@,
                instrument,
            ).map_values(|e: (String, SimOrder)| e.0)
        },
        _ => after == before,
    }
}

/// Carry out one action of the strategy on the simulated venue.
pub fn process_action(connector: &mut SimConnector, action: &Action)
    requires
        old(connector).wf(),
    ensures
        applied(*old(connector), *action, *final(connector)),
{
    match action {
        Action::PlaceOrder(req) => {
            let id = connector.place_order(req);
            assert(connector.engine.orders.view() == old(connector).engine.orders.view().insert(
                id@,
                sim_order_of(id, *req),
            ));
        },
        Action::CancelOrder { instrument, order_id } => {
            connector.cancel_order(instrument, order_id);
        },
        Action::CancelAll { instrument } => {
            connector.cancel_all(instrument);
        },
        _ => {},
    }
}

/// Carry out the strategy's actions in order: there are states from the
/// connector before to the connector after, each the previous one with the
/// next action carried out.
pub fn process_actions(connector: &mut SimConnector, actions: &Vec<Action>)
    requires
        old(connector).wf(),
    ensures
        final(connector).wf(),
        exists|states: Seq<SimConnector>|
            #![trigger states.len()]
            states.len() == actions@.len() + 1 && states[0] == *old(connector)
                && states.last() == *final(connector)
                && forall|i: int| 0 <= i < actions@.len() ==> applied(#[trigger] states[i], actions@[i], states[i + 1]),
{
    let ghost mut states: Seq<SimConnector> = seq![*connector];
    let mut i: usize = 0;
    while i < actions.len()
        invariant
            0 <= i <= actions@.len(),
            connector.wf(),
            states.len() == i + 1,
            states[0] == *old(connector),
            states.last() == *connector,
            forall|j: int| 0 <= j < i ==> applied(#[trigger] states[j], actions@[j], states[j + 1]),
        decreases actions@.len() - i,
    {
        let ghost before = *connector;
        process_action(connector, &actions[i]);
        proof {
            let prev = states;
            states = states.push(*connector);
            assert forall|j: int| 0 <= j < i + 1 implies applied(#[trigger] states[j], actions@[j], states[j + 1]) by {
                if j < i {
                    assert(states[j] == prev[j] && states[j + 1] == prev[j + 1]);
                }
            }
        }
        i = i + 1;
    }
    assert(states.len() == actions@.len() + 1);
}

} // verus!
