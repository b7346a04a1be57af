//! Polymarket CLOB: incremental book state, the multiplexed market feed,
//! market-metadata token lookup, and order-side checks of the execution client.
//!
//! The book keeps both sides as price-sorted levels; the best bid is the highest
//! bid and the best ask the lowest ask. A `price_change` with size 0 removes a
//! level; a `book` event clears the side and fills it again.

use vstd::prelude::*;
use vstd::arithmetic::power2::pow2;
use crate::decimal::{Dec, Price, Quantity, decimal_display, decimal_from_str, pow10};

pub use crate::clock::now_ns;
use crate::text::{
    copy_string, json_quote, json_str, owned, parse_u64, str_eq, str_trim, trim, u64_digits, u64_from_str,
    u64_to_string,
};
use crate::types::error::ConnectorError;
use crate::types::event::Event;
use crate::types::instrument::{Exchange, InstrumentId};
use crate::types::order::{OpenOrder, OrderRequest, OrderSide, TimeInForce};
use crate::venues::order_table::OrderTable;
use crate::types::market_data::OrderbookSnapshot;
use crate::venues::book_levels::{
    has_price,
    law_change_sets_level,
    law_zero_size_removes,
    level_insert,
    level_remove,
    lemma_sorted_extremes,
    sorted_levels,
    spec_insert,
    spec_remove,
};

verus! {

/// One bid or ask level of a `book` snapshot, as text.
#[derive(Clone, Debug)]
pub struct PriceLevel {
    pub price: String,
    pub size: String,
}

/// One entry of a `price_change` event; `side` is `"BUY"` (bid) or `"SELL"` (ask).
#[derive(Clone, Debug)]
pub struct PriceChangeEntry {
    pub price: String,
    pub size: String,
    pub side: String,
}

/// A CLOB websocket event.
#[derive(Clone, Debug)]
pub enum PolymarketEvent {
    /// Full snapshot; `timestamp` in milliseconds.
    Book { asset_id: String, bids: Vec<PriceLevel>, asks: Vec<PriceLevel>, timestamp: Option<String> },
    /// Incremental change; `timestamp` in milliseconds.
    PriceChange { asset_id: String, changes: Vec<PriceChangeEntry>, timestamp: Option<String> },
}

/// Incremental book of one token.
#[derive(Debug)]
pub struct BookState {
    pub bids: Vec<(Dec, Dec)>,
    pub asks: Vec<(Dec, Dec)>,
}

/// One snapshot side: each level whose price and size parse, with a positive
/// size, inserted in turn.
pub open spec fn snapshot_side(levels: Seq<PriceLevel>) -> Seq<(Dec, Dec)>
    decreases levels.len(),
{
    if levels.len() == 0 {
        Seq::empty()
    } else {
        let prev = snapshot_side(levels.drop_last());
        let l = levels.last();
        match (decimal_from_str(l.price@), decimal_from_str(l.size@)) {
            (Some(p), Some(s)) => if s.value() > 0 {
                spec_insert(prev, p, s)
            } else {
                prev
            },
            _ => prev,
        }
    }
}

/// Effect of one change entry on `(bids, asks)`.
pub open spec fn change_step(bids: Seq<(Dec, Dec)>, asks: Seq<(Dec, Dec)>, c: PriceChangeEntry) -> (
    Seq<(Dec, Dec)>,
    Seq<(Dec, Dec)>,
) {
    match (decimal_from_str(c.price@), decimal_from_str(c.size@)) {
        (Some(p), Some(s)) => if c.side@ == "BUY"@ {
            if s.value() == 0 {
                (spec_remove(bids, p), asks)
            } else {
                (spec_insert(bids, p, s), asks)
            }
        } else if c.side@ == "SELL"@ {
            if s.value() == 0 {
                (bids, spec_remove(asks, p))
            } else {
                (bids, spec_insert(asks, p, s))
            }
        } else {
            (bids, asks)
        },
        _ => (bids, asks),
    }
}

/// Effect of a sequence of change entries.
pub open spec fn changes_applied(bids: Seq<(Dec, Dec)>, asks: Seq<(Dec, Dec)>, cs: Seq<PriceChangeEntry>) -> (
    Seq<(Dec, Dec)>,
    Seq<(Dec, Dec)>,
)
    decreases cs.len(),
{
    if cs.len() == 0 {
        (bids, asks)
    } else {
        let prev = changes_applied(bids, asks, cs.drop_last());
        change_step(prev.0, prev.1, cs.last())
    }
}

proof fn lemma_change_step_sorted(bids: Seq<(Dec, Dec)>, asks: Seq<(Dec, Dec)>, c: PriceChangeEntry)
    requires
        sorted_levels(bids),
        sorted_levels(asks),
    ensures
        sorted_levels(change_step(bids, asks, c).0),
        sorted_levels(change_step(bids, asks, c).1),
{
    match (decimal_from_str(c.price@), decimal_from_str(c.size@)) {
        (Some(p), Some(s)) => {
            law_zero_size_removes(bids, p);
            law_change_sets_level(bids, p, s);
            law_zero_size_removes(asks, p);
            law_change_sets_level(asks, p, s);
        },
        _ => {},
    }
}

proof fn lemma_changes_sorted(bids: Seq<(Dec, Dec)>, asks: Seq<(Dec, Dec)>, cs: Seq<PriceChangeEntry>)
    requires
        sorted_levels(bids),
        sorted_levels(asks),
    ensures
        sorted_levels(changes_applied(bids, asks, cs).0),
        sorted_levels(changes_applied(bids, asks, cs).1),
    decreases cs.len(),
{
    if cs.len() > 0 {
        lemma_changes_sorted(bids, asks, cs.drop_last());
        let prev = changes_applied(bids, asks, cs.drop_last());
        lemma_change_step_sorted(prev.0, prev.1, cs.last());
    }
}

/// A snapshot side holds the levels of the snapshot: with no levels it is
/// empty; the last level, when its price `p` and size `s` parse and `s` is
/// positive, is in the side as `(p, s)`; a level that does not parse or has
/// no positive size adds nothing. The side is sorted.
pub proof fn law_snapshot_side_levels(levels: Seq<PriceLevel>)
    ensures
        sorted_levels(snapshot_side(levels)),
        levels.len() == 0 ==> snapshot_side(levels).len() == 0,
        levels.len() > 0 ==> match (decimal_from_str(levels.last().price@), decimal_from_str(levels.last().size@)) {
            (Some(p), Some(s)) => if s.value() > 0 {
                exists|k: int|
                    0 <= k < snapshot_side(levels).len() && #[trigger] snapshot_side(levels)[k].0.value()
                        == p.value() && snapshot_side(levels)[k].1 == s
            } else {
                snapshot_side(levels) == snapshot_side(levels.drop_last())
            },
            _ => snapshot_side(levels) == snapshot_side(levels.drop_last()),
        },
    decreases levels.len(),
{
    if levels.len() > 0 {
        law_snapshot_side_levels(levels.drop_last());
        let prev = snapshot_side(levels.drop_last());
        match (decimal_from_str(levels.last().price@), decimal_from_str(levels.last().size@)) {
            (Some(p), Some(s)) => {
                law_change_sets_level(prev, p, s);
            },
            _ => {},
        }
    }
}

/// The last entry of a `price_change` event decides its price level: with
/// side `BUY` and a non-zero size `s` at price `p`, the bids hold the level
/// `(p, s)` (so the best bid is at least `p`) and the asks are untouched; with
/// size zero no bid is left at `p`. `SELL` does the same on the asks (the
/// best ask is then at most `p`). An entry whose price or size does not
/// parse, or of another side, changes nothing. Both sides stay sorted.
pub proof fn law_price_change_sets_level(bids: Seq<(Dec, Dec)>, asks: Seq<(Dec, Dec)>, cs: Seq<PriceChangeEntry>)
    requires
        sorted_levels(bids),
        sorted_levels(asks),
        cs.len() > 0,
    ensures
        ({
            let before = changes_applied(bids, asks, cs.drop_last());
            let after = changes_applied(bids, asks, cs);
            let c = cs.last();
            &&& sorted_levels(after.0)
            &&& sorted_levels(after.1)
            &&& match (decimal_from_str(c.price@), decimal_from_str(c.size@)) {
                (Some(p), Some(s)) => {
                    &&& c.side@ == "BUY"@ && s.value() != 0 ==> {
                        &&& after.1 == before.1
                        &&& exists|k: int|
                            0 <= k < after.0.len() && #[trigger] after.0[k].0.value() == p.value() && after.0[k].1 == s
                        &&& after.0.len() > 0 && after.0.last().0.value() >= p.value()
                    }
                    &&& c.side@ == "BUY"@ && s.value() == 0 ==> after.1 == before.1 && !has_price(after.0, p.value())
                    &&& c.side@ == "SELL"@ && s.value() != 0 ==> {
                        &&& after.0 == before.0
                        &&& exists|k: int|
                            0 <= k < after.1.len() && #[trigger] after.1[k].0.value() == p.value() && after.1[k].1 == s
                        &&& after.1.len() > 0 && after.1[0].0.value() <= p.value()
                    }
                    &&& c.side@ == "SELL"@ && s.value() == 0 ==> after.0 == before.0 && !has_price(after.1, p.value())
                    &&& c.side@ != "BUY"@ && c.side@ != "SELL"@ ==> after == before
                },
                _ => after == before,
            }
        }),
{
    reveal_strlit("BUY");
    reveal_strlit("SELL");
    assert("BUY"@ != "SELL"@) by {
        assert("BUY"@[0] != "SELL"@[0]);
    }
    lemma_changes_sorted(bids, asks, cs.drop_last());
    lemma_changes_sorted(bids, asks, cs);
    let before = changes_applied(bids, asks, cs.drop_last());
    let after = changes_applied(bids, asks, cs);
    let c = cs.last();
    match (decimal_from_str(c.price@), decimal_from_str(c.size@)) {
        (Some(p), Some(s)) => {
            law_zero_size_removes(before.0, p);
            law_change_sets_level(before.0, p, s);
            law_zero_size_removes(before.1, p);
            law_change_sets_level(before.1, p, s);
            if c.side@ == "BUY"@ && s.value() != 0 {
                let k = choose|k: int|
                    0 <= k < after.0.len() && #[trigger] after.0[k].0.value() == p.value() && after.0[k].1 == s;
                lemma_sorted_extremes(after.0);
                assert(after.0[k].0.value() <= after.0[after.0.len() - 1].0.value());
            }
            if c.side@ == "SELL"@ && s.value() != 0 {
                let k = choose|k: int|
                    0 <= k < after.1.len() && #[trigger] after.1[k].0.value() == p.value() && after.1[k].1 == s;
                lemma_sorted_extremes(after.1);
                assert(after.1[0].0.value() <= after.1[k].0.value());
            }
        },
        _ => {},
    }
}

impl BookState {
    pub open spec fn wf(self) -> bool {
        sorted_levels(self.bids@) && sorted_levels(self.asks@)
    }

    pub fn new() -> (r: BookState)
        ensures
            r.bids@.len() == 0,
            r.asks@.len() == 0,
            r.wf(),
    {
        BookState { bids: Vec::new(), asks: Vec::new() }
    }

    /// Replace the book with a full snapshot.
    pub fn apply_snapshot(&mut self, bids: &Vec<PriceLevel>, asks: &Vec<PriceLevel>)
        ensures
            final(self).bids@ == snapshot_side(bids@),
            final(self).asks@ == snapshot_side(asks@),
            final(self).wf(),
    {
        self.bids = fill_side(bids);
        self.asks = fill_side(asks);
    }

    /// Apply the entries of a `price_change` event in order.
    pub fn apply_changes(&mut self, changes: &Vec<PriceChangeEntry>)
        requires
            old(self).wf(),
        ensures
            (final(self).bids@, final(self).asks@) == changes_applied(
                old(self).bids@,
                old(self).asks@,
                changes@,
            ),
            final(self).wf(),
    {
        let ghost b0 = self.bids@;
        let ghost a0 = self.asks@;
        let mut i: usize = 0;
        while i < changes.len()
            invariant
                0 <= i <= changes@.len(),
                self.wf(),
                (self.bids@, self.asks@) == changes_applied(b0, a0, changes@.take(i as int)),
            decreases changes@.len() - i,
        {
            let c = &changes[i];
            assert(changes@.take(i + 1).drop_last() == changes@.take(i as int));
            assert(changes@.take(i + 1).last() == changes@[i as int]);
            let price = Dec::parse_str(c.price.as_str());
            let size = Dec::parse_str(c.size.as_str());
            if let (Some(p), Some(s)) = (price, size) {
                if str_eq(c.side.as_str(), "BUY") {
                    if s.is_zero() {
                        level_remove(&mut self.bids, p);
                    } else {
                        level_insert(&mut self.bids, p, s);
                    }
                } else if str_eq(c.side.as_str(), "SELL") {
                    if s.is_zero() {
                        level_remove(&mut self.asks, p);
                    } else {
                        level_insert(&mut self.asks, p, s);
                    }
                }
            }
            i = i + 1;
        }
        assert(changes@.take(changes@.len() as int) == changes@);
    }

    /// Highest bid price.
    pub fn best_bid(&self) -> (r: Option<Dec>)
        requires
            self.wf(),
        ensures
            self.bids@.len() == 0 ==> r is None,
            self.bids@.len() > 0 ==> r == Some(self.bids@.last().0),
            r matches Some(b) ==> forall|k: int|
                0 <= k < self.bids@.len() ==> #[trigger] self.bids@[k].0.value() <= b.value(),
    {
        if self.bids.len() == 0 {
            None
        } else {
            proof {
                lemma_sorted_extremes(self.bids@);
            }
            Some(self.bids[self.bids.len() - 1].0)
        }
    }

    /// Lowest ask price.
    pub fn best_ask(&self) -> (r: Option<Dec>)
        requires
            self.wf(),
        ensures
            self.asks@.len() == 0 ==> r is None,
            self.asks@.len() > 0 ==> r == Some(self.asks@[0].0),
            r matches Some(a) ==> forall|k: int|
                0 <= k < self.asks@.len() ==> a.value() <= #[trigger] self.asks@[k].0.value(),
    {
        if self.asks.len() == 0 {
            None
        } else {
            proof {
                lemma_sorted_extremes(self.asks@);
            }
            Some(self.asks[0].0)
        }
    }

    /// A one-level snapshot of the best bid and best ask with their sizes, or
    /// `None` when either side is empty.
    pub fn to_snapshot(&self, ts_ns: u64) -> (r: Option<OrderbookSnapshot>)
        requires
            self.wf(),
        ensures
            (self.bids@.len() == 0 || self.asks@.len() == 0) <==> r is None,
            r matches Some(snap) ==> {
                &&& snap.bids@ == seq![(Price(self.bids@.last().0), Quantity(self.bids@.last().1))]
                &&& snap.asks@ == seq![(Price(self.asks@[0].0), Quantity(self.asks@[0].1))]
                &&& snap.timestamp_ns == ts_ns
            },
    {
        if self.bids.len() == 0 || self.asks.len() == 0 {
            return None;
        }
        let b = self.bids[self.bids.len() - 1];
        let a = self.asks[0];
        let mut bids: Vec<(Price, Quantity)> = Vec::new();
        bids.push((Price::new(b.0), Quantity::new(b.1)));
        let mut asks: Vec<(Price, Quantity)> = Vec::new();
        asks.push((Price::new(a.0), Quantity::new(a.1)));
        Some(OrderbookSnapshot { bids, asks, timestamp_ns: ts_ns })
    }
}

/// A side rebuilt from snapshot levels.
fn fill_side(levels: &Vec<PriceLevel>) -> (r: Vec<(Dec, Dec)>)
    ensures
        r@ == snapshot_side(levels@),
        sorted_levels(r@),
{
    let mut side: Vec<(Dec, Dec)> = Vec::new();
    let mut i: usize = 0;
    while i < levels.len()
        invariant
            0 <= i <= levels@.len(),
            side@ == snapshot_side(levels@.take(i as int)),
            sorted_levels(side@),
        decreases levels@.len() - i,
    {
        let l = &levels[i];
        assert(levels@.take(i + 1).drop_last() == levels@.take(i as int));
        assert(levels@.take(i + 1).last() == levels@[i as int]);
        let price = Dec::parse_str(l.price.as_str());
        let size = Dec::parse_str(l.size.as_str());
        if let (Some(p), Some(s)) = (price, size) {
            if s.gt(&Dec::zero()) {
                level_insert(&mut side, p, s);
            }
        }
        i = i + 1;
    }
    assert(levels@.take(levels@.len() as int) == levels@);
    side
}

/// A millisecond timestamp text turned into nanoseconds; `fallback_ns` when
/// absent or not an integer.
pub open spec fn ts_ns_spec(ts: Option<Seq<char>>, fallback_ns: u64) -> int {
    match ts {
        Some(s) => match u64_from_str(s) {
            Some(ms) => ms * 1_000_000,
            None => fallback_ns as int,
        },
        None => fallback_ns as int,
    }
}

/// The timestamp, if present and an integer, fits in nanoseconds.
pub open spec fn ts_in_range(ts: Option<Seq<char>>) -> bool {
    match ts {
        Some(s) => match u64_from_str(s) {
            Some(ms) => ms <= u64::MAX / 1_000_000,
            None => true,
        },
        None => true,
    }
}

pub open spec fn opt_view(ts: Option<String>) -> Option<Seq<char>> {
    match ts {
        Some(s) => Some(s@),
        None => None,
    }
}

/// Parse a millisecond timestamp into nanoseconds, falling back to `fallback_ns`.
pub fn parse_ts_ms(ts: &Option<String>, fallback_ns: u64) -> (r: u64)
    requires
        ts_in_range(opt_view(*ts)),
    ensures
        r == ts_ns_spec(opt_view(*ts), fallback_ns),
{
    match ts {
        Some(s) => match parse_u64(s.as_str()) {
            Some(ms) => ms * 1_000_000,
            None => fallback_ns,
        },
        None => fallback_ns,
    }
}

/// Check that the timestamp text, if it parses, converts without overflow.
pub fn ts_fits(ts: &Option<String>) -> (r: bool)
    ensures
        r == ts_in_range(opt_view(*ts)),
{
    match ts {
        Some(s) => match parse_u64(s.as_str()) {
            Some(ms) => ms <= u64::MAX / 1_000_000,
            None => true,
        },
        None => true,
    }
}

/// Whether a text frame is the heartbeat reply `"PONG"` (surrounding whitespace ignored).
pub fn is_pong(text: &str) -> (r: bool)
    ensures
        r == (str_trim(text@) == "PONG"@),
{
    str_eq(trim(text), "PONG")
}

/// Some book is for token `t`.
pub open spec fn has_token(books: Seq<TokenBook>, t: Seq<char>) -> bool {
    exists|i: int| 0 <= i < books.len() && #[trigger] books[i].token_id@ == t
}

/// One of the first `k` subscriptions names token `t`.
pub open spec fn subscribed(subs: Seq<(String, InstrumentId)>, k: int, t: Seq<char>) -> bool {
    exists|m: int| 0 <= m < k && #[trigger] subs[m].0@ == t
}

/// Instrument of the last of the first `k` subscriptions that names token `t`.
pub open spec fn last_instrument(subs: Seq<(String, InstrumentId)>, k: int, t: Seq<char>) -> Option<InstrumentId>
    decreases k,
{
    if k <= 0 {
        None
    } else if subs[k - 1].0@ == t {
        Some(subs[k - 1].1)
    } else {
        last_instrument(subs, k - 1, t)
    }
}

/// Per-token book state of one multiplexed feed connection.
pub struct TokenBook {
    pub token_id: String,
    pub instrument: InstrumentId,
    pub book: BookState,
}

/// State of the CLOB market feed: one book per subscribed token.
///
/// Subscriptions name a token and the instrument its updates are published to;
/// a token named twice keeps one book, published to the instrument named last.
pub struct PolymarketFeedState {
    pub books: Vec<TokenBook>,
}

/// The book update published for a token.
pub open spec fn book_update(instrument: InstrumentId, snap: OrderbookSnapshot, exchange_ts: u64, local_ts: u64) -> Event {
    Event::BookUpdate { instrument, book: snap, exchange_ts_ns: exchange_ts, local_ts_ns: local_ts }
}

impl PolymarketFeedState {
    pub open spec fn wf(self) -> bool {
        &&& forall|i: int| 0 <= i < self.books@.len() ==> (#[trigger] self.books@[i]).book.wf()
        &&& forall|i: int, j: int|
            0 <= i < j < self.books@.len() ==> #[trigger] self.books@[i].token_id@ != #[trigger] self.books@[j].token_id@
    }

    /// Empty books for the `(token, instrument)` subscriptions; an empty
    /// subscription list is a programming error, refused by `requires`.
    #[verifier::rlimit(40)]
    pub fn new(subscriptions: Vec<(String, InstrumentId)>) -> (r: PolymarketFeedState)
        requires
            subscriptions@.len() > 0,
        ensures
            r.wf(),
            r.books@.len() > 0,
            forall|i: int| 0 <= i < r.books@.len() ==> (#[trigger] r.books@[i]).book.bids@.len() == 0
                && r.books@[i].book.asks@.len() == 0,
            forall|k: int| 0 <= k < subscriptions@.len() ==> has_token(r.books@, #[trigger] subscriptions@[k].0@),
            forall|i: int| 0 <= i < r.books@.len() ==> subscribed(subscriptions@, subscriptions@.len() as int, #[trigger] r.books@[i].token_id@),
            forall|i: int| 0 <= i < r.books@.len() ==> last_instrument(subscriptions@, subscriptions@.len() as int, #[trigger] r.books@[i].token_id@)
                == Some(r.books@[i].instrument),
    {
        let mut books: Vec<TokenBook> = Vec::new();
        let mut k: usize = 0;
        while k < subscriptions.len()
            invariant
                0 <= k <= subscriptions@.len(),
                (PolymarketFeedState { books }).wf(),
                k > 0 ==> books@.len() > 0,
                forall|i: int| 0 <= i < books@.len() ==> (#[trigger] books@[i]).book.bids@.len() == 0
                    && books@[i].book.asks@.len() == 0,
                forall|m: int| 0 <= m < k ==> has_token(books@, #[trigger] subscriptions@[m].0@),
                forall|i: int| 0 <= i < books@.len() ==> subscribed(subscriptions@, k as int, #[trigger] books@[i].token_id@),
                forall|i: int| 0 <= i < books@.len() ==> last_instrument(subscriptions@, k as int, #[trigger] books@[i].token_id@)
                    == Some(books@[i].instrument),
            decreases subscriptions@.len() - k,
        {
            let ghost prev = books@;
            subscribe_one(&mut books, &subscriptions[k].0, subscriptions[k].1.clone_id());
            assert forall|m: int| 0 <= m < k + 1 implies has_token(books@, #[trigger] subscriptions@[m].0@) by {
                if m < k {
                    let j = choose|j: int| 0 <= j < prev.len() && #[trigger] prev[j].token_id@ == subscriptions@[m].0@;
                    assert(books@[j].token_id@ == prev[j].token_id@);
                }
            }
            assert forall|j: int| 0 <= j < books@.len() implies subscribed(subscriptions@, k + 1, #[trigger] books@[j].token_id@) by {
                if j < prev.len() {
                    assert(books@[j].token_id@ == prev[j].token_id@);
                    assert(subscribed(subscriptions@, k as int, prev[j].token_id@));
                    let m = choose|m: int| 0 <= m < k && #[trigger] subscriptions@[m].0@ == prev[j].token_id@;
                    assert(subscriptions@[m].0@ == books@[j].token_id@);
                } else {
                    assert(subscriptions@[k as int].0@ == books@[j].token_id@);
                }
            }
            assert forall|j: int| 0 <= j < books@.len() implies last_instrument(subscriptions@, k + 1, #[trigger] books@[j].token_id@)
                == Some(books@[j].instrument) by {
                if books@[j].token_id@ != subscriptions@[k as int].0@ {
                    assert(j < prev.len());
                    assert(books@[j].token_id@ == prev[j].token_id@);
                    assert(last_instrument(subscriptions@, k as int, prev[j].token_id@) == Some(prev[j].instrument));
                }
            }
            k = k + 1;
        }
        let r = PolymarketFeedState { books };
        r
    }
}

/// Subscribe `token` for `instrument`: a known token keeps its book and takes
/// the new instrument; a new token gets an empty book at the end.
fn subscribe_one(books: &mut Vec<TokenBook>, token: &String, instrument: InstrumentId)
    requires
        (PolymarketFeedState { books: *old(books) }).wf(),
        forall|i: int| 0 <= i < old(books)@.len() ==> (#[trigger] old(books)@[i]).book.bids@.len() == 0
            && old(books)@[i].book.asks@.len() == 0,
    ensures
        (PolymarketFeedState { books: *final(books) }).wf(),
        forall|i: int| 0 <= i < final(books)@.len() ==> (#[trigger] final(books)@[i]).book.bids@.len() == 0
            && final(books)@[i].book.asks@.len() == 0,
        final(books)@.len() >= old(books)@.len(),
        final(books)@.len() <= old(books)@.len() + 1,
        final(books)@.len() > 0,
        forall|i: int| 0 <= i < old(books)@.len() ==> #[trigger] final(books)@[i].token_id@ == old(books)@[i].token_id@,
        forall|i: int| old(books)@.len() <= i < final(books)@.len() ==> #[trigger] final(books)@[i].token_id@ == token@,
        exists|i: int| 0 <= i < final(books)@.len() && #[trigger] final(books)@[i].token_id@ == token@,
        forall|i: int| 0 <= i < final(books)@.len() && #[trigger] final(books)@[i].token_id@ == token@
            ==> final(books)@[i].instrument == instrument,
        forall|i: int| 0 <= i < old(books)@.len() && #[trigger] old(books)@[i].token_id@ != token@
            ==> final(books)@[i].instrument == old(books)@[i].instrument,
{
    match find_token(books, token.as_str()) {
        Some(i) => {
            let ghost before = books@;
            let old_book = books.remove(i);
            let tb = TokenBook { token_id: old_book.token_id, instrument, book: old_book.book };
            books.insert(i, tb);
            assert(books@ =~= before.update(i as int, tb));
            assert(books@[i as int].token_id@ == token@);
        },
        None => {
            let tb = TokenBook { token_id: token.clone(), instrument, book: BookState::new() };
            books.push(tb);
            assert(books@[books@.len() - 1].token_id@ == token@);
        },
    }
}

/// The book holds a best bid and a best ask.
pub open spec fn two_sided(b: BookState) -> bool {
    b.bids@.len() > 0 && b.asks@.len() > 0
}

/// `snap` is the one-level snapshot of `b` at `ts`.
pub open spec fn snapshot_of(snap: OrderbookSnapshot, b: BookState, ts: u64) -> bool {
    &&& snap.bids@ == seq![(Price(b.bids@.last().0), Quantity(b.bids@.last().1))]
    &&& snap.asks@ == seq![(Price(b.asks@[0].0), Quantity(b.asks@[0].1))]
    &&& snap.timestamp_ns == ts
}

/// `ev` publishes the best bid/ask of `b` for `instrument`.
pub open spec fn publishes(ev: Event, instrument: InstrumentId, b: BookState, exchange_ts: u64, local_ts: u64) -> bool {
    match ev {
        Event::BookUpdate { instrument: i2, book, exchange_ts_ns, local_ts_ns } => i2 == instrument
            && snapshot_of(book, b, exchange_ts) && exchange_ts_ns == exchange_ts && local_ts_ns == local_ts,
        _ => false,
    }
}

/// The two-sided books, in book order.
pub open spec fn two_sided_books(books: Seq<TokenBook>) -> Seq<TokenBook>
    decreases books.len(),
{
    if books.len() == 0 {
        Seq::empty()
    } else {
        let prev = two_sided_books(books.drop_last());
        if two_sided(books.last().book) {
            prev.push(books.last())
        } else {
            prev
        }
    }
}

pub open spec fn event_asset(e: PolymarketEvent) -> Seq<char> {
    match e {
        PolymarketEvent::Book { asset_id, .. } => asset_id@,
        PolymarketEvent::PriceChange { asset_id, .. } => asset_id@,
    }
}

pub open spec fn event_ts(e: PolymarketEvent) -> Option<String> {
    match e {
        PolymarketEvent::Book { timestamp, .. } => timestamp,
        PolymarketEvent::PriceChange { timestamp, .. } => timestamp,
    }
}

/// The book after one event.
pub open spec fn book_after(old: BookState, new: BookState, e: PolymarketEvent) -> bool {
    match e {
        PolymarketEvent::Book { bids, asks, .. } => new.bids@ == snapshot_side(bids@)
            && new.asks@ == snapshot_side(asks@),
        PolymarketEvent::PriceChange { changes, .. } => (new.bids@, new.asks@) == changes_applied(
            old.bids@,
            old.asks@,
            changes@,
        ),
    }
}

impl PolymarketFeedState {
    /// Heartbeat reply: republish the current best bid/ask of every two-sided
    /// book, in book order, stamped with `local_ts` as both exchange and local time.
    pub fn on_pong(&self, local_ts: u64) -> (r: Vec<Event>)
        requires
            self.wf(),
        ensures
            r@.len() == two_sided_books(self.books@).len(),
            forall|j: int| 0 <= j < r@.len() ==> publishes(
                #[trigger] r@[j],
                two_sided_books(self.books@)[j].instrument,
                two_sided_books(self.books@)[j].book,
                local_ts,
                local_ts,
            ),
    {
        let ghost bs = self.books@;
        let mut out: Vec<Event> = Vec::new();
        let mut i: usize = 0;
        while i < self.books.len()
            invariant
                0 <= i <= bs.len(),
                bs == self.books@,
                self.wf(),
                out@.len() == two_sided_books(bs.take(i as int)).len(),
                forall|j: int| 0 <= j < out@.len() ==> publishes(
                    #[trigger] out@[j],
                    two_sided_books(bs.take(i as int))[j].instrument,
                    two_sided_books(bs.take(i as int))[j].book,
                    local_ts,
                    local_ts,
                ),
            decreases bs.len() - i,
        {
            let tb = &self.books[i];
            assert(tb.book.wf());
            assert(bs.take(i + 1).drop_last() =~= bs.take(i as int));
            assert(bs.take(i + 1).last() == bs[i as int]);
            let ghost prev = two_sided_books(bs.take(i as int));
            match tb.book.to_snapshot(local_ts) {
                Some(snap) => {
                    let ev = Event::BookUpdate {
                        instrument: tb.instrument.clone_id(),
                        book: snap,
                        exchange_ts_ns: local_ts,
                        local_ts_ns: local_ts,
                    };
                    out.push(ev);
                    assert(two_sided_books(bs.take(i + 1)) == prev.push(bs[i as int]));
                    assert forall|j: int| 0 <= j < out@.len() implies publishes(
                        #[trigger] out@[j],
                        two_sided_books(bs.take(i + 1))[j].instrument,
                        two_sided_books(bs.take(i + 1))[j].book,
                        local_ts,
                        local_ts,
                    ) by {
                        if j < out@.len() - 1 {
                            assert(two_sided_books(bs.take(i + 1))[j] == prev[j]);
                        }
                    }
                },
                None => {
                    assert(two_sided_books(bs.take(i + 1)) == prev);
                },
            }
            i = i + 1;
        }
        assert(bs.take(bs.len() as int) =~= bs);
        out
    }

    /// Apply one parsed event to the book of its token and say what to publish.
    ///
    /// An event for a token without a book changes nothing. Otherwise the book is
    /// replaced (`book`) or changed (`price_change`), and when both sides are
    /// non-empty its best bid/ask is published with the event time (milliseconds
    /// turned into nanoseconds; `local_ts` when absent or not an integer). An
    /// event time too large to express in nanoseconds publishes nothing.
    pub fn on_event(&mut self, event: &PolymarketEvent, local_ts: u64) -> (r: Option<Event>)
        requires
            old(self).wf(),
        ensures
            final(self).wf(),
            final(self).books@.len() == old(self).books@.len(),
            !has_token(old(self).books@, event_asset(*event)) ==> r is None && final(self).books@ == old(self).books@,
            has_token(old(self).books@, event_asset(*event)) ==> exists|i: int| {
                &&& 0 <= i < old(self).books@.len()
                &&& #[trigger] old(self).books@[i].token_id@ == event_asset(*event)
                &&& final(self).books@[i].token_id == old(self).books@[i].token_id
                &&& final(self).books@[i].instrument == old(self).books@[i].instrument
                &&& book_after(old(self).books@[i].book, final(self).books@[i].book, *event)
                &&& forall|j: int| 0 <= j < old(self).books@.len() && j != i ==> #[trigger] final(self).books@[j] == old(self).books@[j]
                &&& (ts_in_range(opt_view(event_ts(*event))) && two_sided(final(self).books@[i].book)) ==> r is Some
                    && publishes(r->0, old(self).books@[i].instrument, final(self).books@[i].book, ts_ns_spec(opt_view(event_ts(*event)), local_ts) as u64, local_ts)
                &&& !(ts_in_range(opt_view(event_ts(*event))) && two_sided(final(self).books@[i].book)) ==> r is None
            },
    {
        let (asset, ts) = match event {
            PolymarketEvent::Book { asset_id, timestamp, .. } => (asset_id, timestamp),
            PolymarketEvent::PriceChange { asset_id, timestamp, .. } => (asset_id, timestamp),
        };
        let pos = find_token(&self.books, asset.as_str());
        let i = match pos {
            Some(i) => i,
            None => return None,
        };
        let ghost prev = self.books@;
        let mut tb = self.books.remove(i);
        assert(tb == prev[i as int]);
        assert(tb.book.wf());
        match event {
            PolymarketEvent::Book { bids, asks, .. } => {
                tb.book.apply_snapshot(bids, asks);
            },
            PolymarketEvent::PriceChange { changes, .. } => {
                tb.book.apply_changes(changes);
            },
        }
        let fits = ts_fits(ts);
        let out = if fits {
            let ts_ns = parse_ts_ms(ts, local_ts);
            match tb.book.to_snapshot(ts_ns) {
                Some(snap) => Some(
                    Event::BookUpdate {
                        instrument: tb.instrument.clone_id(),
                        book: snap,
                        exchange_ts_ns: ts_ns,
                        local_ts_ns: local_ts,
                    },
                ),
                None => None,
            }
        } else {
            None
        };
        self.books.insert(i, tb);
        assert forall|j: int| 0 <= j < prev.len() && j != i implies #[trigger] self.books@[j] == prev[j] by {}
        assert forall|a: int, b: int| 0 <= a < b < self.books@.len() implies #[trigger] self.books@[a].token_id@ != #[trigger] self.books@[b].token_id@ by {
            assert(prev[a].token_id@ != prev[b].token_id@);
        }
        assert(self.books@[i as int].token_id@ == event_asset(*event));
        out
    }
}

/// Position of `token` among the books.
fn find_token(books: &Vec<TokenBook>, token: &str) -> (r: Option<usize>)
    ensures
        r matches Some(i) ==> i < books@.len() && books@[i as int].token_id@ == token@,
        r is None ==> forall|i: int| 0 <= i < books@.len() ==> (#[trigger] books@[i]).token_id@ != token@,
{
    let mut i: usize = 0;
    while i < books.len()
        invariant
            0 <= i <= books@.len(),
            forall|j: int| 0 <= j < i ==> (#[trigger] books@[j]).token_id@ != token@,
        decreases books@.len() - i,
    {
        if str_eq(books[i].token_id.as_str(), token) {
            return Some(i);
        }
        i = i + 1;
    }
    None
}

// ── feed connection ────────────────────────────────────────────────────────

/// Seconds between heartbeats sent on the feed.
pub const PING_INTERVAL_SECS: u64 = 10;

/// Seconds of silence after which the feed reconnects.
pub const RECV_TIMEOUT_SECS: u64 = 60;

/// Longest wait between reconnections, in seconds.
pub const MAX_BACKOFF_SECS: u64 = 30;

/// The wait after `backoff`: double it, at most 30 seconds.
pub open spec fn next_backoff_spec(backoff: u64) -> u64 {
    if 2 * backoff < MAX_BACKOFF_SECS {
        (2 * backoff) as u64
    } else {
        MAX_BACKOFF_SECS
    }
}

/// Wait before reconnection attempt `k + 1` (`k = 0, 1, ...`), the first
/// wait being one second: `min(2^k, 30)` seconds.
pub open spec fn backoff_delay(k: nat) -> u64 {
    if pow2(k) < MAX_BACKOFF_SECS {
        pow2(k) as u64
    } else {
        MAX_BACKOFF_SECS
    }
}

/// The wait before attempt `k + 1` of a feed that starts at one second and
/// applies `next_backoff` after each of its `k` earlier attempts.
pub open spec fn backoff_after_attempts(k: nat) -> u64
    decreases k,
{
    if k == 0 {
        1
    } else {
        next_backoff_spec(backoff_after_attempts((k - 1) as nat))
    }
}

/// Starting from one second and applying `next_backoff` after each attempt
/// gives the waits 1, 2, 4, 8, 16, 30, 30, ...: `min(2^k, 30)` before attempt
/// `k + 1`, never more than 30 seconds.
pub proof fn law_backoff_sequence(k: nat)
    ensures
        backoff_after_attempts(k) == backoff_delay(k),
        backoff_delay(k) <= MAX_BACKOFF_SECS,
        next_backoff_spec(backoff_delay(k)) == backoff_delay(k + 1),
    decreases k,
{
    vstd::arithmetic::power2::lemma2_to64();
    vstd::arithmetic::power2::lemma_pow2_unfold(k + 1);
    vstd::arithmetic::power2::lemma_pow2_pos(k);
    if k > 0 {
        law_backoff_sequence((k - 1) as nat);
    }
}

/// Wait before the next reconnection: double the last, at most 30 seconds.
pub fn next_backoff(backoff: u64) -> (r: u64)
    requires
        backoff <= MAX_BACKOFF_SECS,
    ensures
        r == next_backoff_spec(backoff),
        r == (if 2 * backoff < MAX_BACKOFF_SECS {
            2 * backoff
        } else {
            MAX_BACKOFF_SECS as int
        }),
        r <= MAX_BACKOFF_SECS,
{
    let d = backoff * 2;
    if d < MAX_BACKOFF_SECS {
        d
    } else {
        MAX_BACKOFF_SECS
    }
}

/// Whether the feed has been silent too long at a heartbeat.
pub fn recv_timed_out(elapsed_secs: u64) -> (r: bool)
    ensures
        r == (elapsed_secs >= RECV_TIMEOUT_SECS),
{
    elapsed_secs >= RECV_TIMEOUT_SECS
}

/// The CLOB market feed: the `(token, instrument)` subscriptions of one
/// connection, at least one.
pub struct PolymarketMarketDataFeed {
    pub subscriptions: Vec<(String, InstrumentId)>,
}

impl PolymarketMarketDataFeed {
    /// A feed for the subscriptions; an empty list is refused by `requires`
    /// (it is a programming error).
    pub fn new(subscriptions: Vec<(String, InstrumentId)>) -> (r: PolymarketMarketDataFeed)
        requires
            subscriptions@.len() > 0,
        ensures
            r.subscriptions == subscriptions,
    {
        PolymarketMarketDataFeed { subscriptions }
    }

    /// Token ids to subscribe to, in order.
    pub fn token_ids(&self) -> (r: Vec<String>)
        ensures
            r@.len() == self.subscriptions@.len(),
            forall|k: int| 0 <= k < r@.len() ==> #[trigger] r@[k] == self.subscriptions@[k].0,
    {
        let mut out: Vec<String> = Vec::new();
        let mut i: usize = 0;
        while i < self.subscriptions.len()
            invariant
                0 <= i <= self.subscriptions@.len(),
                out@.len() == i,
                forall|k: int| 0 <= k < i ==> #[trigger] out@[k] == self.subscriptions@[k].0,
            decreases self.subscriptions@.len() - i,
        {
            out.push(copy_string(&self.subscriptions[i].0));
            i = i + 1;
        }
        out
    }
}

/// The quoted token ids, comma-separated.
pub open spec fn json_items(tokens: Seq<Seq<char>>) -> Seq<char>
    decreases tokens.len(),
{
    if tokens.len() == 0 {
        Seq::empty()
    } else if tokens.len() == 1 {
        json_str(tokens[0])
    } else {
        json_items(tokens.drop_last()) + ","@ + json_str(tokens.last())
    }
}

/// The subscription sent after connecting, a JSON object with its keys in
/// sorted order: `{"assets_ids":[...],"type":"market"}`. The type must be
/// lowercase `market`, or the server ignores the subscription.
pub open spec fn subscription_text(tokens: Seq<Seq<char>>) -> Seq<char> {
    "{\"assets_ids\":["@ + json_items(tokens) + "],\"type\":\"market\"}"@
}

impl PolymarketMarketDataFeed {
    /// The subscription message for the feed's tokens, in order.
    pub fn subscription_message(&self) -> (r: String)
        ensures
            r@ == subscription_text(self.subscriptions@.map_values(|s: (String, InstrumentId)| s.0@)),
    {
        let ghost toks = self.subscriptions@.map_values(|s: (String, InstrumentId)| s.0@);
        let mut items = String::new();
        let mut i: usize = 0;
        while i < self.subscriptions.len()
            invariant
                0 <= i <= self.subscriptions@.len(),
                toks == self.subscriptions@.map_values(|s: (String, InstrumentId)| s.0@),
                items@ == json_items(toks.take(i as int)),
            decreases self.subscriptions@.len() - i,
        {
            assert(toks.take(i + 1).drop_last() =~= toks.take(i as int));
            assert(toks.take(i + 1).last() == self.subscriptions@[i as int].0@);
            if i > 0 {
                items.append(",");
            }
            let q = json_quote(self.subscriptions[i].0.as_str());
            items.append(q.as_str());
            i = i + 1;
        }
        assert(toks.take(toks.len() as int) =~= toks);
        let mut out = owned("{\"assets_ids\":[");
        out.append(items.as_str());
        out.append("],\"type\":\"market\"}");
        out
    }
}

// ── market metadata ────────────────────────────────────────────────────────

/// Result of `serde_json::from_str::<Vec<String>>` on the text: the strings,
/// or the error's text.
pub uninterp spec fn json_string_list(s: Seq<char>) -> Result<Seq<Seq<char>>, Seq<char>>;

/// `serde_json::from_str::<Vec<String>>`, the error as its display text.
#[verifier::external_body]
fn parse_string_list(s: &str) -> (r: Result<Vec<String>, String>)
    ensures
        match r {
            Ok(v) => json_string_list(s@) == Ok::<Seq<Seq<char>>, Seq<char>>(v@.map_values(|t: String| t@)),
            Err(e) => json_string_list(s@) == Err::<Seq<Seq<char>>, Seq<char>>(e@),
        },
{
    match serde_json::from_str::<Vec<String>>(s) {
        Ok(v) => Ok(v),
        Err(e) => Err(e.to_string()),
    }
}

/// The YES and NO token ids of a condition, from the `clobTokenIds` field of
/// each market the metadata service returned for it (a JSON array inside a
/// string): an error for more than one market (the filter was ignored), for
/// none, for a field that is not a JSON array of strings, or for fewer than
/// two ids; else the first two ids.
pub open spec fn token_ids_spec(clob_token_ids: Seq<Seq<char>>, condition_id: Seq<char>) -> Result<
    (Seq<char>, Seq<char>),
    Seq<char>,
> {
    if clob_token_ids.len() > 1 {
        Err(
            "Gamma API returned "@ + u64_digits(clob_token_ids.len()) + " markets for condition_ids="@
                + condition_id + " — filter was not applied (API contract changed?)"@,
        )
    } else if clob_token_ids.len() == 0 {
        Err("No Polymarket market found for condition_id="@ + condition_id)
    } else {
        match json_string_list(clob_token_ids[0]) {
            Err(e) => Err("Failed to parse clobTokenIds JSON: "@ + e),
            Ok(tokens) => if tokens.len() < 2 {
                Err(
                    "Expected 2 token IDs for condition_id="@ + condition_id + ", got "@ + u64_digits(
                        tokens.len(),
                    ),
                )
            } else {
                Ok((tokens[0], tokens[1]))
            },
        }
    }
}

/// The token ids of a condition from the markets returned for it.
pub fn token_ids_from(clob_token_ids: &Vec<String>, condition_id: &str) -> (r: Result<(String, String), String>)
    ensures
        match r {
            Ok((y, n)) => token_ids_spec(clob_token_ids@.map_values(|t: String| t@), condition_id@) == Ok::<
                (Seq<char>, Seq<char>),
                Seq<char>,
            >((y@, n@)),
            Err(m) => token_ids_spec(clob_token_ids@.map_values(|t: String| t@), condition_id@) == Err::<
                (Seq<char>, Seq<char>),
                Seq<char>,
            >(m@),
        },
{
    let ghost v = clob_token_ids@.map_values(|t: String| t@);
    if clob_token_ids.len() > 1 {
        let mut m = owned("Gamma API returned ");
        m.append(u64_to_string(clob_token_ids.len() as u64).as_str());
        m.append(" markets for condition_ids=");
        m.append(condition_id);
        m.append(" — filter was not applied (API contract changed?)");
        return Err(m);
    }
    if clob_token_ids.len() == 0 {
        let mut m = owned("No Polymarket market found for condition_id=");
        m.append(condition_id);
        return Err(m);
    }
    assert(v[0] == clob_token_ids@[0]@);
    match parse_string_list(clob_token_ids[0].as_str()) {
        Err(e) => {
            let mut m = owned("Failed to parse clobTokenIds JSON: ");
            m.append(e.as_str());
            Err(m)
        },
        Ok(tokens) => {
            if tokens.len() < 2 {
                let mut m = owned("Expected 2 token IDs for condition_id=");
                m.append(condition_id);
                m.append(", got ");
                m.append(u64_to_string(tokens.len() as u64).as_str());
                Err(m)
            } else {
                let y = copy_string(&tokens[0]);
                let n = copy_string(&tokens[1]);
                Ok((y, n))
            }
        },
    }
}

// ── execution client ───────────────────────────────────────────────────────

/// `price` lies outside `[0.01, 0.99]`.
pub open spec fn poly_price_out_of_bounds(price: Price) -> bool {
    price.value() < pow10(26) || price.value() > 99 * pow10(26)
}

/// Price check before an order is sent.
pub fn check_order_price(req: &OrderRequest) -> (r: Result<(), ConnectorError>)
    ensures
        poly_price_out_of_bounds(req.price) ==> (r matches Err(ConnectorError::OrderRejected(m)) && m@ == "price "@
            + decimal_display(req.price.dec()) + " out of bounds [0.01, 0.99]"@),
        !poly_price_out_of_bounds(req.price) ==> r is Ok,
{
    let p = req.price.inner();
    let lo = Dec::new(1, 2);
    let hi = Dec::new(99, 2);
    proof {
        crate::decimal::lemma_pow10_adds(2, 26);
        assert(pow10(2) == 100) by {
            reveal_with_fuel(pow10, 3);
        }
    }
    if p.lt(&lo) || p.gt(&hi) {
        let mut m = owned("price ");
        m.append(p.to_string().as_str());
        m.append(" out of bounds [0.01, 0.99]");
        return Err(ConnectorError::OrderRejected(m));
    }
    Ok(())
}

/// Orders the execution client placed and has not seen cancelled, by order id.
pub struct PolyOrders {
    pub active_orders: OrderTable<InstrumentId>,
}

/// Resting orders on `inst`, as open orders without price or size.
pub open spec fn poly_open_orders(es: Seq<(String, InstrumentId)>, inst: InstrumentId) -> Seq<OpenOrder>
    decreases es.len(),
{
    if es.len() == 0 {
        Seq::empty()
    } else {
        let prev = poly_open_orders(es.drop_last(), inst);
        let e = es.last();
        if e.1.key() == inst.key() {
            prev.push(
                OpenOrder {
                    order_id: e.0,
                    instrument: e.1,
                    side: OrderSide::Buy,
                    price: Price(Dec::whole(0)),
                    quantity: Quantity(Dec::whole(0)),
                    filled_qty: Quantity(Dec::whole(0)),
                },
            )
        } else {
            prev
        }
    }
}

impl PolyOrders {
    pub open spec fn wf(self) -> bool {
        self.active_orders.wf()
    }

    pub fn new() -> (r: PolyOrders)
        ensures
            r.wf(),
            r.active_orders.view() == Map::<Seq<char>, InstrumentId>::empty(),
    {
        PolyOrders { active_orders: OrderTable::new() }
    }

    /// The venue accepted order `order_id`.
    pub fn record_placed(&mut self, order_id: String, instrument: InstrumentId)
        requires
            old(self).wf(),
        ensures
            final(self).wf(),
            final(self).active_orders.view() == old(self).active_orders.view().insert(order_id@, instrument),
    {
        self.active_orders.insert(order_id, instrument);
    }

    /// The venue cancelled order `order_id`.
    pub fn cancelled(&mut self, order_id: &str)
        requires
            old(self).wf(),
        ensures
            final(self).wf(),
            final(self).active_orders.view() == old(self).active_orders.view().remove(order_id@),
    {
        let _ = self.active_orders.remove(order_id);
    }

    /// Ids to cancel on cancel-all: every tracked order (none: no request).
    pub fn cancel_all_ids(&self) -> (r: Vec<String>)
        requires
            self.wf(),
        ensures
            r@.len() == self.active_orders.view().len(),
            forall|k: Seq<char>| self.active_orders.view().contains_key(k) <==> exists|i: int| 0 <= i < r@.len() && #[trigger] r@[i]@ == k,
    {
        self.active_orders.keys()
    }

    /// Every order was cancelled.
    pub fn clear(&mut self)
        ensures
            final(self).wf(),
            final(self).active_orders.view() == Map::<Seq<char>, InstrumentId>::empty(),
    {
        self.active_orders.clear();
    }

    /// Tracked orders on `instrument`; the client keeps neither side nor price,
    /// so they read as buys of zero at zero.
    pub fn open_orders(&self, instrument: &InstrumentId) -> (r: Vec<OpenOrder>)
        ensures
            r@ == poly_open_orders(self.active_orders.entries@, *instrument),
    {
        let ghost es = self.active_orders.entries@;
        let mut out: Vec<OpenOrder> = Vec::new();
        let mut i: usize = 0;
        while i < self.active_orders.entries.len()
            invariant
                0 <= i <= es.len(),
                es == self.active_orders.entries@,
                out@ == poly_open_orders(es.take(i as int), *instrument),
            decreases es.len() - i,
        {
            let e = &self.active_orders.entries[i];
            assert(es.take(i + 1).drop_last() =~= es.take(i as int));
            assert(es.take(i + 1).last() == es[i as int]);
            if e.1.same_as(instrument) {
                out.push(
                    OpenOrder {
                        order_id: copy_string(&e.0),
                        instrument: e.1.clone_id(),
                        side: OrderSide::Buy,
                        price: Price::zero(),
                        quantity: Quantity::zero(),
                        filled_qty: Quantity::zero(),
                    },
                );
            }
            i = i + 1;
        }
        assert(es.take(es.len() as int) =~= es);
        out
    }
}

/// Price precision of every Polymarket instrument: two digits.
pub fn poly_decimal_precision(instrument: &InstrumentId) -> (r: Option<u32>)
    ensures
        r == Some(2u32),
{
    Some(2)
}

/// The replacement order of a modify: a buy, good till cancelled.
pub fn poly_modify_request(instrument: &InstrumentId, new_price: Price, new_qty: Quantity) -> (r: OrderRequest)
    ensures
        r == (OrderRequest {
            instrument: *instrument,
            side: OrderSide::Buy,
            price: new_price,
            quantity: new_qty,
            tif: TimeInForce::Gtc,
            client_order_id: None,
        }),
{
    OrderRequest {
        instrument: instrument.clone_id(),
        side: OrderSide::Buy,
        price: new_price,
        quantity: new_qty,
        tif: TimeInForce::Gtc,
        client_order_id: None,
    }
}

} // verus!
