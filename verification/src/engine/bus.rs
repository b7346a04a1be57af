//! Market data fan-out: one broadcast channel per instrument, created on
//! first use. Events for an instrument without a channel are dropped.

use vstd::prelude::*;
use crate::engine::instrument_table::InstrumentTable;
use crate::types::event::Event;
use crate::types::instrument::{Exchange, InstrumentId, InstrumentKind};

verus! {

#[verifier::external_type_specification]
#[verifier::external_body]
#[verifier::reject_recursive_types(T)]
pub struct ExBroadcastSender<T>(tokio::sync::broadcast::Sender<T>);

#[verifier::external_type_specification]
#[verifier::external_body]
#[verifier::reject_recursive_types(T)]
pub struct ExBroadcastReceiver<T>(tokio::sync::broadcast::Receiver<T>);

/// Events buffered per instrument before a slow subscriber lags.
pub const BROADCAST_BUFFER: usize = 64;

/// `tokio::sync::broadcast::channel(cap)`, keeping the sender. The channel
/// panics on a zero capacity or one above `usize::MAX / 2`, which `requires`
/// leaves out. Nothing is stated of the sender.
#[verifier::external_body]
fn open_channel(cap: usize) -> (r: tokio::sync::broadcast::Sender<Event>)
    requires
        0 < cap <= usize::MAX / 2,
{
    tokio::sync::broadcast::channel(cap).0
}

/// `Sender::clone`: another handle to the same channel. Nothing is stated of it.
#[verifier::external_body]
fn sender_handle(s: &tokio::sync::broadcast::Sender<Event>) -> (r: tokio::sync::broadcast::Sender<Event>) {
    s.clone()
}

/// `Sender::subscribe`: a receiver of what is sent from now on. Nothing is
/// stated of it.
#[verifier::external_body]
fn new_receiver(s: &tokio::sync::broadcast::Sender<Event>) -> (r: tokio::sync::broadcast::Receiver<Event>) {
    s.subscribe()
}

/// `Sender::send`; whether some receiver got the event is not stated.
#[verifier::external_body]
fn send_event(s: &tokio::sync::broadcast::Sender<Event>, e: Event) -> (r: bool) {
    s.send(e).is_ok()
}

pub struct MarketDataBus {
    pub channels: InstrumentTable<tokio::sync::broadcast::Sender<Event>>,
}

impl MarketDataBus {
    pub open spec fn wf(self) -> bool {
        self.channels.wf()
    }

    /// The instruments that have a channel.
    pub open spec fn registered(self) -> Set<(Exchange, InstrumentKind, Seq<char>)> {
        self.channels.view().dom()
    }

    pub fn new() -> (r: MarketDataBus)
        ensures
            r.wf(),
            r.registered() == Set::<(Exchange, InstrumentKind, Seq<char>)>::empty(),
    {
        MarketDataBus { channels: InstrumentTable::new() }
    }

    /// The sender of an instrument's channel, created if it has none; an
    /// existing channel is kept.
    pub fn sender(&mut self, instrument: &InstrumentId) -> (r: tokio::sync::broadcast::Sender<Event>)
        requires
            old(self).wf(),
        ensures
            final(self).wf(),
            final(self).registered() == old(self).registered().insert(instrument.key()),
            old(self).registered().contains(instrument.key()) ==> final(self).channels.view() == old(self).channels.view(),
    {
        match self.channels.get(instrument) {
            Some(tx) => sender_handle(tx),
            None => {
                let tx = open_channel(BROADCAST_BUFFER);
                let out = sender_handle(&tx);
                self.channels.insert(instrument.clone_id(), tx);
                assert(self.registered() =~= old(self).registered().insert(instrument.key()));
                out
            },
        }
    }

    /// A receiver of the instrument's market data, its channel created if needed.
    pub fn subscribe(&mut self, instrument: &InstrumentId) -> (r: tokio::sync::broadcast::Receiver<Event>)
        requires
            old(self).wf(),
        ensures
            final(self).wf(),
            final(self).registered() == old(self).registered().insert(instrument.key()),
            old(self).registered().contains(instrument.key()) ==> final(self).channels.view() == old(self).channels.view(),
    {
        let tx = self.sender(instrument);
        new_receiver(&tx)
    }

    /// Send an event on the instrument's channel; returns whether it has one
    /// (without one the event is dropped).
    pub fn publish(&self, instrument: &InstrumentId, event: Event) -> (r: bool)
        requires
            self.wf(),
        ensures
            r == self.registered().contains(instrument.key()),
    {
        match self.channels.get(instrument) {
            Some(tx) => {
                let _ = send_event(tx, event);
                true
            },
            None => false,
        }
    }
}

impl Default for MarketDataBus {
    /// A bus without channels.
    fn default() -> (r: MarketDataBus)
        ensures
            r.wf(),
            r.registered() == Set::<(Exchange, InstrumentKind, Seq<char>)>::empty(),
    {
        MarketDataBus::new()
    }
}

} // verus!
