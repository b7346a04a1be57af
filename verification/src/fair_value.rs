//! The fair value service: latest prices by key, the model's fair value, and
//! the framing of published messages.

use vstd::prelude::*;
use crate::decimal::{Dec, Price};
use crate::venues::order_table::OrderTable;

verus! {

/// Latest price of each source, by key.
pub struct PriceAggregator {
    pub prices: OrderTable<Price>,
}

impl PriceAggregator {
    pub open spec fn wf(self) -> bool {
        self.prices.wf()
    }

    pub fn new() -> (r: PriceAggregator)
        ensures
            r.wf(),
            r.prices.view() == Map::<Seq<char>, Price>::empty(),
    {
        PriceAggregator { prices: OrderTable::new() }
    }

    /// Record the latest price under `key`.
    pub fn update(&mut self, key: String, price: Price)
        requires
            old(self).wf(),
        ensures
            final(self).wf(),
            final(self).prices.view() == old(self).prices.view().insert(key@, price),
    {
        self.prices.insert(key, price);
    }

    /// The latest price under `key`.
    pub fn get(&self, key: &str) -> (r: Option<Price>)
        requires
            self.wf(),
        ensures
            self.prices.view().contains_key(key@) ==> r == Some(self.prices.view()[key@]),
            !self.prices.view().contains_key(key@) ==> r is None,
    {
        match self.prices.get(key) {
            Some(p) => Some(*p),
            None => None,
        }
    }
}

/// The fair value model. It has no parameters yet.
pub struct FairValueModel {}

impl FairValueModel {
    pub fn new() -> (r: FairValueModel) {
        FairValueModel {  }
    }

    /// The model's fair value: 0.50, whatever the features.
    pub fn fair_value(&self) -> (r: Dec)
        ensures
            r.mantissa_spec() == 50,
            r.scale_spec() == 2,
            !r.is_neg_spec(),
    {
        Dec::new(50, 2)
    }
}

/// Publishes fair values to the clients of a Unix socket.
pub struct FairValuePublisher {
    pub socket_path: String,
}

impl FairValuePublisher {
    pub fn new(socket_path: String) -> (r: FairValuePublisher)
        ensures
            r.socket_path == socket_path,
    {
        FairValuePublisher { socket_path }
    }
}

/// Four little-endian bytes of the low 32 bits of `len`: the prefix written
/// before each message.
pub fn length_prefix(len: usize) -> (r: Vec<u8>)
    ensures
        r@.len() == 4,
        r@[0] == (len as u32) % 256,
        r@[1] == ((len as u32) / 256) % 256,
        r@[2] == ((len as u32) / 65536) % 256,
        r@[3] == (len as u32) / 16777216,
{
    let n = len as u32;
    let mut v: Vec<u8> = Vec::new();
    v.push((n % 256) as u8);
    v.push(((n / 256) % 256) as u8);
    v.push(((n / 65536) % 256) as u8);
    v.push((n / 16777216) as u8);
    v
}

} // verus!
