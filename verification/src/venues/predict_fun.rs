//! predict.fun: one connector per binary market (a YES and a NO outcome,
//! each its own instrument `"{market_id}-{outcome}"`).
//!
//! Here stand the conversion of book payloads into snapshots, the 18-decimal
//! wei conversions, the order bookkeeping that the connector and its wallet
//! feed share, the checks made before an order is sent, and what the feed does
//! with each wallet event.

use vstd::prelude::*;
use crate::decimal::{
    Dec,
    MAX_MAGNITUDE,
    Price,
    Quantity,
    decimal_checked_div,
    decimal_checked_mul,
    decimal_display,
    decimal_from_str,
    iabs,
    pow10,
    representable,
};
use crate::text::{copy_string, owned, str_eq, u64_digits, u64_to_string};
use crate::types::error::ConnectorError;
use crate::types::event::Event;
use crate::types::instrument::{Exchange, InstrumentId, InstrumentKind};
use crate::types::market_data::OrderbookSnapshot;
use crate::types::order::{OpenOrder, OrderRequest, OrderSide, OrderStatus, OrderUpdate, TimeInForce};
use crate::types::position::{Fill, Position};
use crate::venues::level_sort::{ordered, sort_by_price, sort_levels};
use crate::venues::order_table::OrderTable;

pub use crate::clock::now_ns;

verus! {

/// `10^18`: one share, or one unit of collateral, in wei.
pub const WEI_PER_UNIT: u64 = 1_000_000_000_000_000_000;

// ── book payloads ──────────────────────────────────────────────────────────

/// One level of an orderbook payload.
#[derive(Clone, Copy, Debug)]
pub struct PredictLevel {
    pub price: Dec,
    pub size: Dec,
}

/// Payload of the `predictOrderbook/{market_id}` topic (YES outcome);
/// `timestamp` in milliseconds.
#[derive(Clone, Debug)]
pub struct PredictOrderbook {
    pub bids: Vec<PredictLevel>,
    pub asks: Vec<PredictLevel>,
    pub timestamp: Option<u64>,
}

pub open spec fn level_pair(l: PredictLevel) -> (Price, Quantity) {
    (Price(l.price), Quantity(l.size))
}

pub open spec fn level_pairs(ls: Seq<PredictLevel>) -> Seq<(Price, Quantity)> {
    ls.map_values(|l: PredictLevel| level_pair(l))
}

/// Milliseconds in nanoseconds, saturating at `u64::MAX`.
pub open spec fn saturating_ns(ms: u64) -> u64 {
    if ms * 1_000_000 > u64::MAX {
        u64::MAX
    } else {
        (ms * 1_000_000) as u64
    }
}

/// Exchange time in nanoseconds when positive, else the local time.
pub open spec fn snapshot_ts(ts: Option<u64>, local_ts_ns: u64) -> u64 {
    let ex = saturating_ns(
        match ts {
            Some(t) => t,
            None => 0,
        },
    );
    if ex > 0 {
        ex
    } else {
        local_ts_ns
    }
}

fn pairs_of(ls: &Vec<PredictLevel>) -> (r: Vec<(Price, Quantity)>)
    ensures
        r@ == level_pairs(ls@),
{
    let mut out: Vec<(Price, Quantity)> = Vec::new();
    let mut i: usize = 0;
    while i < ls.len()
        invariant
            0 <= i <= ls@.len(),
            out@ == level_pairs(ls@.take(i as int)),
        decreases ls@.len() - i,
    {
        out.push((Price::new(ls[i].price), Quantity::new(ls[i].size)));
        assert(level_pairs(ls@.take(i + 1)) =~= level_pairs(ls@.take(i as int)).push(level_pair(ls@[i as int])));
        i = i + 1;
    }
    assert(ls@.take(ls@.len() as int) == ls@);
    out
}

/// Snapshot of a book payload: bids highest first, asks lowest first (stable
/// among equal prices), stamped with the exchange time (milliseconds in
/// nanoseconds, saturating) when positive, else with `local_ts_ns`.
pub fn orderbook_to_snapshot(book: &PredictOrderbook, local_ts_ns: u64) -> (r: OrderbookSnapshot)
    ensures
        r.bids@ == sort_levels(level_pairs(book.bids@), true),
        r.asks@ == sort_levels(level_pairs(book.asks@), false),
        ordered(r.bids@, true),
        ordered(r.asks@, false),
        r.timestamp_ns == snapshot_ts(book.timestamp, local_ts_ns),
{
    let t = match book.timestamp {
        Some(t) => t,
        None => 0,
    };
    let ex = match t.checked_mul(1_000_000) {
        Some(v) => v,
        None => u64::MAX,
    };
    let bids = sort_by_price(pairs_of(&book.bids), true);
    let asks = sort_by_price(pairs_of(&book.asks), false);
    let ts = if ex > 0 {
        ex
    } else {
        local_ts_ns
    };
    OrderbookSnapshot { bids, asks, timestamp_ns: ts }
}

/// Exchange time of a payload in nanoseconds (0 when absent) fits in 64 bits.
pub open spec fn book_ts_fits(book: PredictOrderbook) -> bool {
    match book.timestamp {
        Some(t) => t * 1_000_000 <= u64::MAX,
        None => true,
    }
}

/// The `BookUpdate` published for a payload: always to the YES instrument,
/// with the exchange time in nanoseconds (0 when absent).
pub fn book_update(book: &PredictOrderbook, yes_instrument: &InstrumentId, local_ts_ns: u64) -> (r: Event)
    requires
        book_ts_fits(*book),
    ensures
        r matches Event::BookUpdate { instrument, book: snap, exchange_ts_ns, local_ts_ns: l } && instrument
            == *yes_instrument && l == local_ts_ns && exchange_ts_ns == (match book.timestamp {
            Some(t) => t * 1_000_000,
            None => 0,
        }) && snap.bids@ == sort_levels(level_pairs(book.bids@), true) && snap.asks@ == sort_levels(
            level_pairs(book.asks@),
            false,
        ) && snap.timestamp_ns == snapshot_ts(book.timestamp, local_ts_ns),
{
    let ex: u64 = match book.timestamp {
        Some(t) => t * 1_000_000,
        None => 0,
    };
    let snap = orderbook_to_snapshot(book, local_ts_ns);
    Event::BookUpdate {
        instrument: yes_instrument.clone_id(),
        book: snap,
        exchange_ts_ns: ex,
        local_ts_ns: local_ts_ns,
    }
}

// ── wei ────────────────────────────────────────────────────────────────────

/// One unit in wei, as a decimal.
pub open spec fn wei_unit() -> Dec {
    Dec::whole(WEI_PER_UNIT)
}

/// Wei text parsed and divided by `10^18`; zero when it does not parse.
pub open spec fn from_wei_spec(wei: Seq<char>) -> Dec {
    match decimal_from_str(wei) {
        Some(n) => match decimal_checked_div(n, wei_unit()) {
            Some(q) => q,
            None => Dec::whole(0),
        },
        None => Dec::whole(0),
    }
}

/// `text` is the wei text of `val`: what a decimal worth `val * 10^18` is
/// displayed as (and `val` is a decimal's value).
pub open spec fn is_wei_text_of(text: Seq<char>, val: Dec) -> bool {
    &&& representable(val.value())
    &&& exists|w: Dec| text == #[trigger] decimal_display(w) && w.value() == val.value() * pow10(18)
}

/// `r` is what `text` reads as in units: for each decimal that `text`
/// displays and that divides exactly by `10^18`, the quotient.
pub open spec fn reads_as_units(text: Seq<char>, r: Dec) -> bool {
    forall|d: Dec|
        text == #[trigger] decimal_display(d) && Dec::div_fits(d, wei_unit()) ==> r.value() * wei_unit().value()
            == d.value() * pow10(28)
}

/// Wei amount text (18 decimals) as a decimal: `"500000000000000000"` is 0.5;
/// text that does not parse gives zero.
pub fn from_wei(wei: &str) -> (r: Dec)
    ensures
        r == from_wei_spec(wei@),
        decimal_from_str(wei@) is None ==> r.value() == 0,
        decimal_from_str(wei@) matches Some(n) ==> (Dec::div_fits(n, wei_unit()) ==> r.value()
            * wei_unit().value() == n.value() * pow10(28)),
        reads_as_units(wei@, r),
{
    proof {
        Dec::lemma_whole(0);
        Dec::lemma_whole(WEI_PER_UNIT);
        crate::decimal::lemma_pow10_pos(28);
        vstd::arithmetic::mul::lemma_mul_increases(WEI_PER_UNIT as int, pow10(28));
    }
    let n = match Dec::parse_str(wei) {
        Some(n) => n,
        None => return Dec::zero(),
    };
    match n.checked_div(Dec::from_u64(WEI_PER_UNIT)) {
        Some(q) => q,
        None => Dec::zero(),
    }
}

/// The product `val * 10^18` does not overflow.
pub open spec fn to_wei_fits(val: Dec) -> bool {
    iabs(val.value() * wei_unit().value()) < MAX_MAGNITUDE * pow10(28) * pow10(28)
}

/// Decimal as a wei integer text: `0.5` is `"500000000000000000"` (the product
/// with `10^18`, truncated).
pub fn to_wei(val: Dec) -> (r: String)
    requires
        to_wei_fits(val),
    ensures
        r@ == decimal_display(decimal_checked_mul(val, wei_unit())->0.trunc_spec()),
        val.scale_spec() <= 18 && iabs(val.value() * pow10(18)) <= MAX_MAGNITUDE * pow10(28) ==> is_wei_text_of(
            r@,
            val,
        ),
{
    let w = val.mul(Dec::from_u64(WEI_PER_UNIT));
    let t = w.trunc();
    proof {
        use_type_invariant(&val);
        use_type_invariant(&w);
        val.lemma_representable();
        val.lemma_scale_bound();
        w.lemma_scale_bound();
        if val.scale_spec() <= 18 && iabs(val.value() * pow10(18)) <= MAX_MAGNITUDE * pow10(28) {
            lemma_wei_product_exact(val);
            lemma_wei_product_whole(val, w, t);
            assert(t.value() == val.value() * pow10(18));
        }
    }
    t.to_string()
}

/// With at most 18 fractional digits, `val * 10^18` is a whole number; when
/// it is within 96 bits the exact product has a representation.
proof fn lemma_wei_product_exact(val: Dec)
    requires
        val.scale_spec() <= 18,
        iabs(val.value() * pow10(18)) <= MAX_MAGNITUDE * pow10(28),
    ensures
        Dec::mul_exact(val, wei_unit()),
{
    let vs = val.scale_spec();
    let vm = val.mantissa_spec();
    Dec::lemma_whole(WEI_PER_UNIT);
    crate::decimal::lemma_pow10_28();
    assert(pow10(18) == 1_000_000_000_000_000_000) by {
        reveal_with_fuel(pow10, 19);
    }
    crate::decimal::lemma_pow10_pos(28);
    let p28 = pow10(28);
    let k = vm * pow10((18 - vs) as nat);
    crate::decimal::lemma_pow10_adds((28 - vs) as nat, 18);
    crate::decimal::lemma_pow10_adds((18 - vs) as nat, 28);
    assert(((28 - vs) as nat + 18) as nat == ((18 - vs) as nat + 28) as nat);
    assert(val.value() * pow10(18) == k * p28) by (nonlinear_arith)
        requires
            val.value() == vm * pow10((28 - vs) as nat),
            pow10((28 - vs) as nat) * pow10(18) == pow10((18 - vs) as nat) * p28,
            k == vm * pow10((18 - vs) as nat),
    ;
    let prod = val.value() * wei_unit().value();
    assert(wei_unit().value() == pow10(18) * p28);
    assert(prod == (k * p28) * p28) by (nonlinear_arith)
        requires
            prod == val.value() * (pow10(18) * p28),
            val.value() * pow10(18) == k * p28,
    ;
    vstd::arithmetic::div_mod::lemma_mod_multiples_basic(k * p28, p28);
    vstd::arithmetic::div_mod::lemma_div_multiples_vanish(k * p28, p28);
    assert(prod % p28 == 0);
    assert(prod / p28 == k * p28);
    // |k| is within 96 bits, so `k * 10^28` is representable at scale 0.
    assert(iabs(k) <= MAX_MAGNITUDE) by (nonlinear_arith)
        requires
            iabs(k * p28) <= MAX_MAGNITUDE * p28,
            p28 > 0,
    {
        if k < 0 {
            assert(iabs(k * p28) == (-k) * p28);
        }
    }
    vstd::arithmetic::div_mod::lemma_mod_multiples_basic(k, p28);
    vstd::arithmetic::div_mod::lemma_div_multiples_vanish(k, p28);
    vstd::arithmetic::mul::lemma_mul_is_commutative(k, p28);
    assert((k * p28) % pow10((28 - 0nat) as nat) == 0);
    assert(iabs((k * p28) / pow10((28 - 0nat) as nat)) <= MAX_MAGNITUDE);
    assert(representable(k * p28));
}

/// The truncation of `val * 10^18` is exact when `val` has at most 18
/// fractional digits and the product is exact.
proof fn lemma_wei_product_whole(val: Dec, w: Dec, t: Dec)
    requires
        val.scale_spec() <= 18,
        w.scale_spec() <= 28,
        w.value() * pow10(28) == val.value() * wei_unit().value(),
        t.scale_spec() == 0,
        t.mantissa_spec() == crate::decimal::trunc_mantissa(w.mantissa_spec(), w.scale_spec()),
    ensures
        w.value() == val.value() * pow10(18),
        t.value() == val.value() * pow10(18),
{
    let vs = val.scale_spec();
    let ws = w.scale_spec();
    let vm = val.mantissa_spec();
    let wm = w.mantissa_spec();
    Dec::lemma_whole(WEI_PER_UNIT);
    crate::decimal::lemma_pow10_28();
    crate::decimal::lemma_pow10_adds(18, 28);
    assert(pow10(18) == 1_000_000_000_000_000_000) by {
        reveal_with_fuel(pow10, 19);
    }
    crate::decimal::lemma_pow10_pos(28);
    crate::decimal::lemma_pow10_pos((28 - ws) as nat);
    crate::decimal::lemma_pow10_pos(ws);
    crate::decimal::lemma_pow10_pos((18 - vs) as nat);
    // w.value() * 10^28 == val.value() * 10^18 * 10^28
    assert(wei_unit().value() == pow10(18) * pow10(28));
    assert(w.value() * pow10(28) == (val.value() * pow10(18)) * pow10(28)) by (nonlinear_arith)
        requires
            w.value() * pow10(28) == val.value() * (pow10(18) * pow10(28)),
    ;
    vstd::arithmetic::mul::lemma_mul_equality_converse(pow10(28), w.value(), val.value() * pow10(18));
    // val.value() * 10^18 == K * 10^28 with K = vm * 10^(18 - vs)
    let k = vm * pow10((18 - vs) as nat);
    crate::decimal::lemma_pow10_adds((28 - vs) as nat, 18);
    crate::decimal::lemma_pow10_adds((18 - vs) as nat, 28);
    assert(((28 - vs) as nat + 18) as nat == ((18 - vs) as nat + 28) as nat);
    assert(val.value() * pow10(18) == k * pow10(28)) by (nonlinear_arith)
        requires
            val.value() == vm * pow10((28 - vs) as nat),
            pow10((28 - vs) as nat) * pow10(18) == pow10((18 - vs) as nat) * pow10(28),
            k == vm * pow10((18 - vs) as nat),
    ;
    // wm * 10^(28 - ws) == k * 10^(28 - ws) * 10^ws, so wm == k * 10^ws
    crate::decimal::lemma_pow10_adds((28 - ws) as nat, ws);
    assert(((28 - ws) as nat + ws) as nat == 28);
    assert(wm * pow10((28 - ws) as nat) == (k * pow10(ws)) * pow10((28 - ws) as nat)) by (nonlinear_arith)
        requires
            wm * pow10((28 - ws) as nat) == k * pow10(28),
            pow10(28) == pow10((28 - ws) as nat) * pow10(ws),
    ;
    vstd::arithmetic::mul::lemma_mul_equality_converse(pow10((28 - ws) as nat), wm, k * pow10(ws));
    // truncating drops exactly the factor 10^ws
    if wm < 0 {
        assert(-wm == (-k) * pow10(ws)) by (nonlinear_arith)
            requires
                wm == k * pow10(ws),
        ;
        vstd::arithmetic::div_mod::lemma_div_multiples_vanish(-k, pow10(ws));
    } else {
        vstd::arithmetic::div_mod::lemma_div_multiples_vanish(k, pow10(ws));
    }
    assert(t.mantissa_spec() == k);
}

/// Printing a decimal in wei and reading the text back gives the decimal's
/// value again: `from_wei(&to_wei(v)) == v`, for a `v` with at most 18
/// fractional digits whose wei amount `v * 10^18` fits in 96 bits.
pub proof fn law_wei_round_trip(val: Dec, text: Seq<char>, back: Dec)
    requires
        is_wei_text_of(text, val),
        reads_as_units(text, back),
    ensures
        back.value() == val.value(),
{
    let w = choose|w: Dec| text == #[trigger] decimal_display(w) && w.value() == val.value() * pow10(18);
    Dec::lemma_whole(WEI_PER_UNIT);
    crate::decimal::lemma_pow10_28();
    assert(pow10(18) == 1_000_000_000_000_000_000) by {
        reveal_with_fuel(pow10, 19);
    }
    let u = wei_unit().value();
    assert(u == pow10(18) * pow10(28));
    assert(w.value() * pow10(28) == val.value() * u) by (nonlinear_arith)
        requires
            w.value() == val.value() * pow10(18),
            u == pow10(18) * pow10(28),
    ;
    assert(u > 0);
    vstd::arithmetic::div_mod::lemma_mod_multiples_basic(val.value(), u);
    vstd::arithmetic::div_mod::lemma_div_multiples_vanish(val.value(), u);
    assert((w.value() * pow10(28)) % u == 0);
    assert((w.value() * pow10(28)) / u == val.value());
    assert(Dec::div_fits(w, wei_unit()));
    assert(back.value() * u == val.value() * u);
    assert(u * back.value() == u * val.value()) by (nonlinear_arith)
        requires
            back.value() * u == val.value() * u,
    ;
    vstd::arithmetic::mul::lemma_mul_equality_converse(u, back.value(), val.value());
}

// ── order bookkeeping ──────────────────────────────────────────────────────

/// What is kept of an order for cancel-by-hash and for modify.
#[derive(Clone, Debug)]
pub struct OrderEntry {
    /// Numeric order id of the cancel endpoint.
    pub predict_id: String,
    pub side: OrderSide,
    pub instrument: InstrumentId,
}

/// Orders known to one connector, keyed by order hash.
///
/// `active_orders` holds the resting orders and is emptied by cancel-all;
/// `placed_instruments` remembers the instrument of every order placed this
/// session and is never emptied, so that a fill arriving after a cancel still
/// resolves to its instrument.
pub struct PredictOrders {
    pub active_orders: OrderTable<OrderEntry>,
    pub placed_instruments: OrderTable<InstrumentId>,
}

/// The instrument an order hash resolves to: `placed_instruments` first, then
/// `active_orders`.
pub open spec fn resolve_spec(
    active: Map<Seq<char>, OrderEntry>,
    placed: Map<Seq<char>, InstrumentId>,
    hash: Seq<char>,
) -> Option<InstrumentId> {
    if placed.contains_key(hash) {
        Some(placed[hash])
    } else if active.contains_key(hash) {
        Some(active[hash].instrument)
    } else {
        None
    }
}

/// Predict ids of the entries, in table order.
pub open spec fn predict_ids(entries: Seq<(String, OrderEntry)>) -> Seq<Seq<char>> {
    entries.map_values(|e: (String, OrderEntry)| e.1.predict_id@)
}

impl PredictOrders {
    pub open spec fn wf(self) -> bool {
        self.active_orders.wf() && self.placed_instruments.wf()
    }

    pub fn new() -> (r: PredictOrders)
        ensures
            r.wf(),
            r.active_orders.view() == Map::<Seq<char>, OrderEntry>::empty(),
            r.placed_instruments.view() == Map::<Seq<char>, InstrumentId>::empty(),
    {
        PredictOrders { active_orders: OrderTable::new(), placed_instruments: OrderTable::new() }
    }

    /// Record an order the venue accepted, in both tables.
    pub fn record_placed(
        &mut self,
        order_hash: String,
        predict_id: String,
        side: OrderSide,
        instrument: InstrumentId,
    )
        requires
            old(self).wf(),
        ensures
            final(self).wf(),
            final(self).active_orders.view() == old(self).active_orders.view().insert(
                order_hash@,
                (OrderEntry { predict_id, side, instrument }),
            ),
            final(self).placed_instruments.view() == old(self).placed_instruments.view().insert(
                order_hash@,
                instrument,
            ),
    {
        let key = copy_string(&order_hash);
        let inst = instrument.clone_id();
        self.active_orders.insert(order_hash, OrderEntry { predict_id, side, instrument });
        self.placed_instruments.insert(key, inst);
    }

    /// The instrument of an order hash; `None` for a hash this connector never
    /// placed (the wallet stream carries other orders too).
    pub fn instrument_for(&self, order_hash: &str) -> (r: Option<InstrumentId>)
        requires
            self.wf(),
        ensures
            r == resolve_spec(self.active_orders.view(), self.placed_instruments.view(), order_hash@),
    {
        match self.placed_instruments.get(order_hash) {
            Some(i) => Some(i.clone_id()),
            None => match self.active_orders.get(order_hash) {
                Some(e) => Some(e.instrument.clone_id()),
                None => None,
            },
        }
    }

    /// Forget a resting order; its instrument stays remembered.
    pub fn remove_from_active(&mut self, order_hash: &str)
        requires
            old(self).wf(),
        ensures
            final(self).wf(),
            final(self).active_orders.view() == old(self).active_orders.view().remove(order_hash@),
            final(self).placed_instruments == old(self).placed_instruments,
    {
        let _ = self.active_orders.remove(order_hash);
    }

    /// Predict id to cancel for an order hash; `None` (nothing to send) for an
    /// unknown hash.
    pub fn cancel_target(&self, order_id: &str) -> (r: Option<String>)
        requires
            self.wf(),
        ensures
            self.active_orders.view().contains_key(order_id@) ==> r == Some(
                self.active_orders.view()[order_id@].predict_id,
            ),
            !self.active_orders.view().contains_key(order_id@) ==> r is None,
    {
        match self.active_orders.get(order_id) {
            Some(e) => Some(copy_string(&e.predict_id)),
            None => None,
        }
    }

    /// Predict ids of all resting orders, in table order.
    pub fn all_predict_ids(&self) -> (r: Vec<String>)
        ensures
            r@.map_values(|s: String| s@) == predict_ids(self.active_orders.entries@),
    {
        let mut out: Vec<String> = Vec::new();
        let mut i: usize = 0;
        while i < self.active_orders.entries.len()
            invariant
                0 <= i <= self.active_orders.entries@.len(),
                out@.map_values(|s: String| s@) == predict_ids(self.active_orders.entries@.take(i as int)),
            decreases self.active_orders.entries@.len() - i,
        {
            out.push(copy_string(&self.active_orders.entries[i].1.predict_id));
            assert(predict_ids(self.active_orders.entries@.take(i + 1)) =~= predict_ids(
                self.active_orders.entries@.take(i as int),
            ).push(self.active_orders.entries@[i as int].1.predict_id@));
            assert(out@.map_values(|s: String| s@) =~= predict_ids(self.active_orders.entries@.take(i as int)).push(
                self.active_orders.entries@[i as int].1.predict_id@,
            ));
            i = i + 1;
        }
        assert(self.active_orders.entries@.take(self.active_orders.entries@.len() as int)
            == self.active_orders.entries@);
        out
    }

    /// The cancel-all request: the predict ids of all resting orders of both
    /// outcomes, in one request; none when nothing rests.
    pub fn cancel_all_request(&self) -> (r: Option<Vec<String>>)
        ensures
            predict_ids(self.active_orders.entries@).len() == 0 ==> r is None,
            predict_ids(self.active_orders.entries@).len() > 0 ==> (r matches Some(ids) && ids@.map_values(
                |s: String| s@,
            ) == predict_ids(self.active_orders.entries@)),
    {
        let ids = self.all_predict_ids();
        if ids.len() == 0 {
            assert(ids@.map_values(|s: String| s@).len() == 0);
            None
        } else {
            Some(ids)
        }
    }

    /// Every resting order was cancelled: forget them all.
    pub fn clear_active(&mut self)
        ensures
            final(self).wf() == old(self).placed_instruments.wf(),
            final(self).active_orders.view() == Map::<Seq<char>, OrderEntry>::empty(),
            final(self).placed_instruments == old(self).placed_instruments,
    {
        self.active_orders.clear();
    }

    /// Side of a resting order for its replacement; `Buy` when unknown.
    pub fn modify_side(&self, order_id: &str) -> (r: OrderSide)
        requires
            self.wf(),
        ensures
            self.active_orders.view().contains_key(order_id@) ==> r == self.active_orders.view()[order_id@].side,
            !self.active_orders.view().contains_key(order_id@) ==> r == OrderSide::Buy,
    {
        match self.active_orders.get(order_id) {
            Some(e) => e.side,
            None => OrderSide::Buy,
        }
    }

    /// The replacement order of a modify: the known side (else `Buy`), the new
    /// price and quantity, post-only, no client id.
    pub fn modify_request(&self, instrument: &InstrumentId, order_id: &str, new_price: Price, new_qty: Quantity) -> (r:
        OrderRequest)
        requires
            self.wf(),
        ensures
            r.instrument == *instrument,
            self.active_orders.view().contains_key(order_id@) ==> r.side == self.active_orders.view()[order_id@].side,
            !self.active_orders.view().contains_key(order_id@) ==> r.side == OrderSide::Buy,
            r.price == new_price,
            r.quantity == new_qty,
            r.tif == TimeInForce::PostOnly,
            r.client_order_id is None,
    {
        let side = self.modify_side(order_id);
        OrderRequest {
            instrument: instrument.clone_id(),
            side,
            price: new_price,
            quantity: new_qty,
            tif: TimeInForce::PostOnly,
            client_order_id: None,
        }
    }
}

/// Every resting order's instrument is also remembered among the placed ones.
pub open spec fn placed_covers_active(active: Map<Seq<char>, OrderEntry>, placed: Map<Seq<char>, InstrumentId>) -> bool {
    forall|k: Seq<char>| active.contains_key(k) ==> placed.contains_key(k)
}

/// An order placed this session still resolves to its instrument after a
/// cancel-all has emptied the resting orders.
pub proof fn law_late_fill_resolves(
    placed: Map<Seq<char>, InstrumentId>,
    hash: Seq<char>,
    instrument: InstrumentId,
)
    ensures
        resolve_spec(Map::empty(), placed.insert(hash, instrument), hash) == Some(instrument),
{
}

/// Once an order has resolved, a repeated event for it (the venue can send a
/// fill twice) resolves to the same instrument after the first one removed it
/// from the resting orders.
pub proof fn law_repeated_event_resolves(
    active: Map<Seq<char>, OrderEntry>,
    placed: Map<Seq<char>, InstrumentId>,
    hash: Seq<char>,
)
    requires
        placed_covers_active(active, placed),
        resolve_spec(active, placed, hash) is Some,
    ensures
        resolve_spec(active.remove(hash), placed, hash) == resolve_spec(active, placed, hash),
{
}

/// Recording a placed order, forgetting a resting one and clearing them all
/// keep every resting order remembered among the placed ones.
pub proof fn law_placed_covers_active(
    active: Map<Seq<char>, OrderEntry>,
    placed: Map<Seq<char>, InstrumentId>,
    hash: Seq<char>,
    entry: OrderEntry,
)
    requires
        placed_covers_active(active, placed),
    ensures
        placed_covers_active(active.insert(hash, entry), placed.insert(hash, entry.instrument)),
        placed_covers_active(active.remove(hash), placed),
        placed_covers_active(Map::empty(), placed),
{
}

// ── wallet events ──────────────────────────────────────────────────────────

/// Fill details of a successful order transaction, as the venue sends them.
#[derive(Clone, Debug)]
pub struct PredictFillDetails {
    pub price: Option<String>,
    pub quantity_filled: Option<String>,
    /// `"ASK"` for a sell; anything else is a buy.
    pub quote_type: Option<String>,
}

/// Order lifecycle events of the wallet topic.
#[derive(Clone, Debug)]
pub enum PredictWalletEvent {
    OrderAccepted { order_hash: String },
    OrderNotAccepted { order_hash: String, reason: Option<String> },
    OrderTransactionSuccess { order_hash: String, details: PredictFillDetails },
    OrderTransactionFailed { order_hash: String },
    OrderCancelled { order_hash: String },
    OrderExpired { order_hash: String },
    OrderTransactionSubmitted { order_hash: String },
    Unknown { event_type: String },
}

/// What the feed does with a wallet event: a fill to publish on the order's
/// instrument, and an order update to send.
#[derive(Debug)]
pub struct WalletOutcome {
    pub fill: Option<Fill>,
    pub update: Option<OrderUpdate>,
}

/// Decimal text parsed, zero when absent or not a number.
pub open spec fn parse_or_zero(s: Option<String>) -> Dec {
    match s {
        Some(t) => match decimal_from_str(t@) {
            Some(d) => d,
            None => Dec::whole(0),
        },
        None => Dec::whole(0),
    }
}

/// `Sell` for quote type `"ASK"`, `Buy` otherwise.
pub open spec fn fill_side_spec(quote_type: Option<String>) -> OrderSide {
    match quote_type {
        Some(q) => if q@ == "ASK"@ {
            OrderSide::Sell
        } else {
            OrderSide::Buy
        },
        None => OrderSide::Buy,
    }
}

/// Update with a status alone: nothing filled, nothing remaining, no price.
pub open spec fn plain_update(instrument: InstrumentId, order_id: String, status: OrderStatus, ts: u64) -> OrderUpdate {
    OrderUpdate {
        instrument,
        order_id,
        status,
        filled_qty: Quantity(Dec::whole(0)),
        remaining_qty: Quantity(Dec::whole(0)),
        avg_fill_price: None,
        timestamp_ns: ts,
    }
}

/// Order hash an event speaks of (empty for an unknown event).
pub open spec fn wallet_hash(e: PredictWalletEvent) -> Seq<char> {
    match e {
        PredictWalletEvent::OrderAccepted { order_hash } => order_hash@,
        PredictWalletEvent::OrderNotAccepted { order_hash, .. } => order_hash@,
        PredictWalletEvent::OrderTransactionSuccess { order_hash, .. } => order_hash@,
        PredictWalletEvent::OrderTransactionFailed { order_hash } => order_hash@,
        PredictWalletEvent::OrderCancelled { order_hash } => order_hash@,
        PredictWalletEvent::OrderExpired { order_hash } => order_hash@,
        PredictWalletEvent::OrderTransactionSubmitted { order_hash } => order_hash@,
        PredictWalletEvent::Unknown { .. } => Seq::empty(),
    }
}

/// Events after which an order no longer rests: rejected, filled, cancelled, expired.
pub open spec fn ends_order(e: PredictWalletEvent) -> bool {
    match e {
        PredictWalletEvent::OrderNotAccepted { .. } => true,
        PredictWalletEvent::OrderTransactionSuccess { .. } => true,
        PredictWalletEvent::OrderCancelled { .. } => true,
        PredictWalletEvent::OrderExpired { .. } => true,
        _ => false,
    }
}

/// Fill and update for an event whose order resolved to `inst` (nothing for
/// an order of unknown instrument, a failed or submitted transaction, or an
/// unknown event).
pub open spec fn wallet_outcome_spec(e: PredictWalletEvent, inst: Option<InstrumentId>, ts: u64) -> (
    Option<Fill>,
    Option<OrderUpdate>,
) {
    match inst {
        None => (None, None),
        Some(i) => match e {
            PredictWalletEvent::OrderAccepted { order_hash } => (
                None,
                Some(plain_update(i, order_hash, OrderStatus::Acknowledged, ts)),
            ),
            PredictWalletEvent::OrderNotAccepted { order_hash, .. } => (
                None,
                Some(plain_update(i, order_hash, OrderStatus::Rejected, ts)),
            ),
            PredictWalletEvent::OrderTransactionSuccess { order_hash, details } => {
                let p = parse_or_zero(details.price);
                let q = parse_or_zero(details.quantity_filled);
                (
                    Some(
                        Fill {
                            order_id: order_hash,
                            instrument: i,
                            side: fill_side_spec(details.quote_type),
                            price: Price(p),
                            quantity: Quantity(q),
                            fee: Price(Dec::whole(0)),
                            timestamp_ns: ts,
                        },
                    ),
                    Some(
                        OrderUpdate {
                            instrument: i,
                            order_id: order_hash,
                            status: OrderStatus::Filled,
                            filled_qty: Quantity(q),
                            remaining_qty: Quantity(Dec::whole(0)),
                            avg_fill_price: Some(Price(p)),
                            timestamp_ns: ts,
                        },
                    ),
                )
            },
            PredictWalletEvent::OrderCancelled { order_hash } => (
                None,
                Some(plain_update(i, order_hash, OrderStatus::Cancelled, ts)),
            ),
            PredictWalletEvent::OrderExpired { order_hash } => (
                None,
                Some(plain_update(i, order_hash, OrderStatus::Cancelled, ts)),
            ),
            _ => (None, None),
        },
    }
}

/// Every wallet event of an order whose instrument resolves is answered for
/// that order, on that instrument, at the event's time: an acceptance with
/// an acknowledged update, a refusal with a rejected one, a successful
/// transaction with a fill and a filled update of the filled quantity, a
/// cancellation or an expiry with a cancelled update. A failed or submitted
/// transaction, an unknown event, and any event of an order that does not
/// resolve, give nothing. The order stops resting after a refusal, a
/// successful transaction, a cancellation or an expiry, and only then.
pub proof fn law_wallet_event_answers(e: PredictWalletEvent, i: InstrumentId, ts: u64)
    ensures
        ({
            let out = wallet_outcome_spec(e, Some(i), ts);
            let answered = out.1 matches Some(u) && u.order_id@ == wallet_hash(e) && u.instrument == i
                && u.timestamp_ns == ts;
            &&& e is OrderAccepted ==> answered && out.1->0.status == OrderStatus::Acknowledged && out.0 is None
            &&& e is OrderNotAccepted ==> answered && out.1->0.status == OrderStatus::Rejected && out.0 is None
            &&& e is OrderTransactionSuccess ==> {
                &&& answered && out.1->0.status == OrderStatus::Filled
                &&& out.0 matches Some(f) && f.order_id@ == wallet_hash(e) && f.instrument == i
                    && f.timestamp_ns == ts && out.1->0.filled_qty == f.quantity
            }
            &&& e is OrderCancelled || e is OrderExpired ==> answered && out.1->0.status == OrderStatus::Cancelled
                && out.0 is None
            &&& e is OrderTransactionFailed || e is OrderTransactionSubmitted || e is Unknown ==> out.0 is None
                && out.1 is None
        }),
        wallet_outcome_spec(e, None, ts).0 is None,
        wallet_outcome_spec(e, None, ts).1 is None,
        ends_order(e) <==> (e is OrderNotAccepted || e is OrderTransactionSuccess || e is OrderCancelled
            || e is OrderExpired),
{
}

fn plain_update_of(instrument: InstrumentId, order_id: String, status: OrderStatus, ts: u64) -> (r: OrderUpdate)
    ensures
        r == plain_update(instrument, order_id, status, ts),
{
    OrderUpdate {
        instrument,
        order_id,
        status,
        filled_qty: Quantity::zero(),
        remaining_qty: Quantity::zero(),
        avg_fill_price: None,
        timestamp_ns: ts,
    }
}

fn parse_opt_or_zero(s: &Option<String>) -> (r: Dec)
    ensures
        r == parse_or_zero(*s),
{
    match s {
        Some(t) => match Dec::parse_str(t.as_str()) {
            Some(d) => d,
            None => Dec::zero(),
        },
        None => Dec::zero(),
    }
}

fn fill_side_of(quote_type: &Option<String>) -> (r: OrderSide)
    ensures
        r == fill_side_spec(*quote_type),
{
    proof {
        reveal_strlit("ASK");
    }
    match quote_type {
        Some(q) => if str_eq(q.as_str(), "ASK") {
            OrderSide::Sell
        } else {
            OrderSide::Buy
        },
        None => OrderSide::Buy,
    }
}

impl PredictOrders {
    /// Handle one wallet event: resolve the order's instrument (events of
    /// orders this connector did not place are ignored), forget an order that
    /// no longer rests, and say what to publish and send.
    pub fn on_wallet_event(&mut self, event: PredictWalletEvent, ts_ns: u64) -> (r: WalletOutcome)
        requires
            old(self).wf(),
        ensures
            final(self).wf(),
            final(self).placed_instruments == old(self).placed_instruments,
            ({
                let inst = resolve_spec(
                    old(self).active_orders.view(),
                    old(self).placed_instruments.view(),
                    wallet_hash(event),
                );
                &&& (r.fill, r.update) == wallet_outcome_spec(event, inst, ts_ns)
                &&& final(self).active_orders.view() == (if ends_order(event) && inst is Some {
                    old(self).active_orders.view().remove(wallet_hash(event))
                } else {
                    old(self).active_orders.view()
                })
            }),
    {
        match event {
            PredictWalletEvent::OrderAccepted { order_hash } => {
                match self.instrument_for(order_hash.as_str()) {
                    Some(inst) => WalletOutcome {
                        fill: None,
                        update: Some(plain_update_of(inst, order_hash, OrderStatus::Acknowledged, ts_ns)),
                    },
                    None => WalletOutcome { fill: None, update: None },
                }
            },
            PredictWalletEvent::OrderNotAccepted { order_hash, .. } => {
                match self.instrument_for(order_hash.as_str()) {
                    Some(inst) => {
                        self.remove_from_active(order_hash.as_str());
                        WalletOutcome {
                            fill: None,
                            update: Some(plain_update_of(inst, order_hash, OrderStatus::Rejected, ts_ns)),
                        }
                    },
                    None => WalletOutcome { fill: None, update: None },
                }
            },
            PredictWalletEvent::OrderTransactionSuccess { order_hash, details } => {
                match self.instrument_for(order_hash.as_str()) {
                    Some(inst) => {
                        self.remove_from_active(order_hash.as_str());
                        let price = parse_opt_or_zero(&details.price);
                        let qty = parse_opt_or_zero(&details.quantity_filled);
                        let side = fill_side_of(&details.quote_type);
                        let fill = Fill {
                            order_id: copy_string(&order_hash),
                            instrument: inst.clone_id(),
                            side,
                            price: Price::new(price),
                            quantity: Quantity::new(qty),
                            fee: Price::zero(),
                            timestamp_ns: ts_ns,
                        };
                        let update = OrderUpdate {
                            instrument: inst,
                            order_id: order_hash,
                            status: OrderStatus::Filled,
                            filled_qty: Quantity::new(qty),
                            remaining_qty: Quantity::zero(),
                            avg_fill_price: Some(Price::new(price)),
                            timestamp_ns: ts_ns,
                        };
                        WalletOutcome { fill: Some(fill), update: Some(update) }
                    },
                    None => WalletOutcome { fill: None, update: None },
                }
            },
            PredictWalletEvent::OrderCancelled { order_hash } => {
                match self.instrument_for(order_hash.as_str()) {
                    Some(inst) => {
                        self.remove_from_active(order_hash.as_str());
                        WalletOutcome {
                            fill: None,
                            update: Some(plain_update_of(inst, order_hash, OrderStatus::Cancelled, ts_ns)),
                        }
                    },
                    None => WalletOutcome { fill: None, update: None },
                }
            },
            PredictWalletEvent::OrderExpired { order_hash } => {
                match self.instrument_for(order_hash.as_str()) {
                    Some(inst) => {
                        self.remove_from_active(order_hash.as_str());
                        WalletOutcome {
                            fill: None,
                            update: Some(plain_update_of(inst, order_hash, OrderStatus::Cancelled, ts_ns)),
                        }
                    },
                    None => WalletOutcome { fill: None, update: None },
                }
            },
            _ => WalletOutcome { fill: None, update: None },
        }
    }
}

/// What the feed does with a subscription reply.
#[derive(Clone, Copy, Debug, PartialEq, Eq, Structural)]
pub enum WsReplyAction {
    /// The subscription succeeded.
    Ignore,
    /// The subscription failed for another reason: log it and go on.
    Warn,
    /// The session token expired: authenticate again and reconnect.
    Reauthenticate,
}

/// A failed reply with code `invalid_credentials` asks for a new session
/// token; another failure is logged; a success needs nothing.
pub fn on_request_response(success: bool, error_code: Option<&str>) -> (r: WsReplyAction)
    ensures
        success ==> r == WsReplyAction::Ignore,
        !success ==> (r == WsReplyAction::Reauthenticate <==> (error_code matches Some(c) && c@
            == "invalid_credentials"@)),
        !success && r != WsReplyAction::Reauthenticate ==> r == WsReplyAction::Warn,
{
    if success {
        return WsReplyAction::Ignore;
    }
    match error_code {
        Some(c) => if str_eq(c, "invalid_credentials") {
            WsReplyAction::Reauthenticate
        } else {
            WsReplyAction::Warn
        },
        None => WsReplyAction::Warn,
    }
}

pub const MAINNET_REST: &'static str = "https://api.predict.fun";

pub const TESTNET_REST: &'static str = "https://api-testnet.predict.fun";

/// Chain id and REST base of the main network (BNB chain, 56) or the test
/// network (97).
pub fn api_endpoint(testnet: bool) -> (r: (u64, &'static str))
    ensures
        testnet ==> r.0 == 97 && r.1@ == TESTNET_REST@,
        !testnet ==> r.0 == 56 && r.1@ == MAINNET_REST@,
{
    if testnet {
        (97, TESTNET_REST)
    } else {
        (56, MAINNET_REST)
    }
}

// ── the market and its orders ──────────────────────────────────────────────

/// Parameters of one market, from the venue's `params` table.
#[derive(Clone, Debug)]
pub struct PredictFunParams {
    pub market_id: u64,
    /// Name of the YES outcome (`"YES"`, `"UP"`, ...), last part of its symbol.
    pub yes_outcome_name: String,
    /// On-chain token id of the YES outcome.
    pub yes_token_id: String,
    pub no_outcome_name: String,
    pub no_token_id: String,
    pub is_neg_risk: bool,
    pub is_yield_bearing: bool,
    /// Fee rate in basis points (0 when not given).
    pub fee_rate_bps: u64,
    /// Polymarket token of the YES outcome, for the fair-value signal.
    pub polymarket_yes_token_id: Option<String>,
    /// Polymarket token of the NO outcome; with the YES one it enables hedging.
    pub polymarket_no_token_id: Option<String>,
}

/// `"{market_id}-{outcome}"`.
pub open spec fn outcome_symbol_spec(market_id: u64, outcome: Seq<char>) -> Seq<char> {
    u64_digits(market_id as nat) + "-"@ + outcome
}

/// The symbol of an outcome of a market.
pub fn outcome_symbol(market_id: u64, outcome: &str) -> (r: String)
    ensures
        r@ == outcome_symbol_spec(market_id, outcome@),
{
    proof {
        reveal_strlit("-");
    }
    let mut s = u64_to_string(market_id);
    s.append("-");
    s.append(outcome);
    s
}

/// The instrument of an outcome: predict.fun, binary, `"{market_id}-{outcome}"`.
pub fn outcome_instrument(market_id: u64, outcome: &str) -> (r: InstrumentId)
    ensures
        r.exchange == Exchange::PredictFun,
        r.kind == InstrumentKind::Binary,
        r.symbol@ == outcome_symbol_spec(market_id, outcome@),
{
    InstrumentId::new(Exchange::PredictFun, InstrumentKind::Binary, outcome_symbol(market_id, outcome))
}

/// The fixed data of one market: both instruments, the token of each, the
/// order parameters and the price precision.
pub struct PredictMarket {
    pub market_id: u64,
    pub yes_instrument: InstrumentId,
    pub no_instrument: InstrumentId,
    /// Instrument symbol to on-chain token id.
    pub token_map: OrderTable<String>,
    /// On-chain token id of the YES outcome.
    pub yes_token_id: String,
    /// On-chain token id of the NO outcome.
    pub no_token_id: String,
    pub is_neg_risk: bool,
    pub is_yield_bearing: bool,
    pub fee_rate_bps: u64,
    /// 2 for ticks of 0.01, 3 for ticks of 0.001.
    pub decimal_precision: u32,
}

/// An open order as the venue lists it.
#[derive(Clone, Debug)]
pub struct PredictOpenOrderRaw {
    /// Numeric order id of the cancel endpoint.
    pub id: String,
    pub hash: String,
    pub token_id: String,
    /// 0 for a buy, anything else a sell.
    pub side: u64,
    pub maker_amount: String,
    pub taker_amount: String,
    pub amount_filled: String,
}

/// A position as the venue lists it; `amount` in wei.
#[derive(Clone, Debug)]
pub struct PredictPositionRaw {
    pub market_id: u64,
    pub outcome_name: String,
    pub amount: String,
}

/// What is sent to place an order: token, side, price and quantity in wei,
/// and the market's order parameters.
#[derive(Debug)]
pub struct PlaceParams {
    pub token_id: String,
    pub side: OrderSide,
    pub price_wei: Dec,
    pub qty_wei: Dec,
    pub is_neg_risk: bool,
    pub is_yield_bearing: bool,
    pub fee_rate_bps: u64,
}

pub open spec fn side_of_spec(side: u64) -> OrderSide {
    if side == 0 {
        OrderSide::Buy
    } else {
        OrderSide::Sell
    }
}

/// `price` lies outside the open interval `(0.001, 0.999)`.
pub open spec fn price_out_of_bounds(price: Price) -> bool {
    price.value() <= pow10(25) || price.value() >= 999 * pow10(25)
}

/// Text of the error for an unknown instrument: its symbol and the known ones.
pub open spec fn unknown_instrument_msg(symbol: Seq<char>, known: Seq<Seq<char>>) -> Seq<char> {
    "unknown instrument '"@ + symbol + "' — expected one of: ["@ + quoted_list(known) + "]"@
}

/// `"a", "b", ...`
pub open spec fn quoted_list(items: Seq<Seq<char>>) -> Seq<char>
    decreases items.len(),
{
    if items.len() == 0 {
        Seq::empty()
    } else if items.len() == 1 {
        "\""@ + items[0] + "\""@
    } else {
        quoted_list(items.drop_last()) + ", \""@ + items.last() + "\""@
    }
}

fn quoted_list_of(items: &Vec<String>) -> (r: String)
    ensures
        r@ == quoted_list(items@.map_values(|s: String| s@)),
{
    proof {
        reveal_strlit("\"");
        reveal_strlit(", \"");
    }
    let ghost v = items@.map_values(|s: String| s@);
    let mut out = String::new();
    let mut i: usize = 0;
    while i < items.len()
        invariant
            0 <= i <= items@.len(),
            v == items@.map_values(|s: String| s@),
            out@ == quoted_list(v.take(i as int)),
        decreases items@.len() - i,
    {
        assert(v.take(i + 1).drop_last() =~= v.take(i as int));
        assert(v.take(i + 1).last() == items@[i as int]@);
        if i == 0 {
            out.append("\"");
        } else {
            out.append(", \"");
        }
        out.append(items[i].as_str());
        out.append("\"");
        i = i + 1;
    }
    assert(v.take(v.len() as int) =~= v);
    out
}

/// The table's keys in table order, as texts.
pub open spec fn table_keys<V>(entries: Seq<(String, V)>) -> Seq<Seq<char>> {
    entries.map_values(|e: (String, V)| e.0@)
}

impl PredictMarket {
    pub open spec fn wf(self) -> bool {
        self.token_map.wf()
    }

    /// The market of `params`; `decimal_precision` from the market metadata
    /// (2 when the metadata gives none). The YES token is entered first, so a
    /// NO outcome of the same symbol replaces it.
    pub fn from_params(params: &PredictFunParams, decimal_precision: Option<u32>) -> (r: PredictMarket)
        ensures
            r.wf(),
            r.market_id == params.market_id,
            r.yes_instrument.exchange == Exchange::PredictFun,
            r.yes_instrument.kind == InstrumentKind::Binary,
            r.yes_instrument.symbol@ == outcome_symbol_spec(params.market_id, params.yes_outcome_name@),
            r.no_instrument.exchange == Exchange::PredictFun,
            r.no_instrument.kind == InstrumentKind::Binary,
            r.no_instrument.symbol@ == outcome_symbol_spec(params.market_id, params.no_outcome_name@),
            r.token_map.view() == Map::<Seq<char>, String>::empty().insert(
                r.yes_instrument.symbol@,
                params.yes_token_id,
            ).insert(r.no_instrument.symbol@, params.no_token_id),
            r.yes_token_id == params.yes_token_id,
            r.no_token_id == params.no_token_id,
            r.is_neg_risk == params.is_neg_risk,
            r.is_yield_bearing == params.is_yield_bearing,
            r.fee_rate_bps == params.fee_rate_bps,
            r.decimal_precision == (match decimal_precision {
                Some(p) => p,
                None => 2,
            }),
    {
        let yes = outcome_instrument(params.market_id, params.yes_outcome_name.as_str());
        let no = outcome_instrument(params.market_id, params.no_outcome_name.as_str());
        let mut token_map: OrderTable<String> = OrderTable::new();
        token_map.insert(copy_string(&yes.symbol), copy_string(&params.yes_token_id));
        token_map.insert(copy_string(&no.symbol), copy_string(&params.no_token_id));
        let prec = match decimal_precision {
            Some(p) => p,
            None => 2,
        };
        PredictMarket {
            market_id: params.market_id,
            yes_instrument: yes,
            no_instrument: no,
            token_map,
            yes_token_id: copy_string(&params.yes_token_id),
            no_token_id: copy_string(&params.no_token_id),
            is_neg_risk: params.is_neg_risk,
            is_yield_bearing: params.is_yield_bearing,
            fee_rate_bps: params.fee_rate_bps,
            decimal_precision: prec,
        }
    }

    /// Both instruments, YES first.
    pub fn instruments(&self) -> (r: (InstrumentId, InstrumentId))
        ensures
            r.0 == self.yes_instrument,
            r.1 == self.no_instrument,
    {
        (self.yes_instrument.clone_id(), self.no_instrument.clone_id())
    }

    /// Price precision of the market, whatever the instrument.
    pub fn decimal_precision(&self, instrument: &InstrumentId) -> (r: Option<u32>)
        ensures
            r == Some(self.decimal_precision),
    {
        Some(self.decimal_precision)
    }

    /// The token of an instrument of this market, by symbol.
    pub fn token_id_for(&self, instrument: &InstrumentId) -> (r: Result<String, ConnectorError>)
        requires
            self.wf(),
        ensures
            self.token_map.view().contains_key(instrument.symbol@) ==> r == Ok::<String, ConnectorError>(
                self.token_map.view()[instrument.symbol@],
            ),
            !self.token_map.view().contains_key(instrument.symbol@) ==> (r matches Err(
                ConnectorError::OrderRejected(m),
            ) && m@ == unknown_instrument_msg(instrument.symbol@, table_keys(self.token_map.entries@))),
    {
        match self.token_map.get(instrument.symbol.as_str()) {
            Some(t) => Ok(copy_string(t)),
            None => {
                proof {
                    reveal_strlit("unknown instrument '");
                    reveal_strlit("' — expected one of: [");
                    reveal_strlit("]");
                }
                let mut keys: Vec<String> = Vec::new();
                let mut i: usize = 0;
                while i < self.token_map.entries.len()
                    invariant
                        0 <= i <= self.token_map.entries@.len(),
                        keys@.map_values(|s: String| s@) == table_keys(self.token_map.entries@.take(i as int)),
                    decreases self.token_map.entries@.len() - i,
                {
                    keys.push(copy_string(&self.token_map.entries[i].0));
                    assert(table_keys(self.token_map.entries@.take(i + 1)) =~= table_keys(
                        self.token_map.entries@.take(i as int),
                    ).push(self.token_map.entries@[i as int].0@));
                    assert(keys@.map_values(|s: String| s@) =~= table_keys(self.token_map.entries@.take(i as int)).push(
                        self.token_map.entries@[i as int].0@,
                    ));
                    i = i + 1;
                }
                assert(self.token_map.entries@.take(self.token_map.entries@.len() as int)
                    == self.token_map.entries@);
                let mut m = owned("unknown instrument '");
                m.append(instrument.symbol.as_str());
                m.append("' — expected one of: [");
                let list = quoted_list_of(&keys);
                m.append(list.as_str());
                m.append("]");
                Err(ConnectorError::OrderRejected(m))
            },
        }
    }

    /// Checks made before an order is sent, in order: no order during
    /// shutdown, the price strictly inside `(0.001, 0.999)`, an instrument of
    /// this market. On success, what to send: the token, the side, and price
    /// and quantity multiplied by `10^18` (the quantity must then fit).
    /// When shutting down, nothing else is looked at.
    pub fn prepare_place(&self, shutting_down: bool, req: &OrderRequest) -> (r: Result<PlaceParams, ConnectorError>)
        requires
            self.wf(),
            !shutting_down && !price_out_of_bounds(req.price) && self.token_map.view().contains_key(
                req.instrument.symbol@,
            ) ==> to_wei_fits(req.quantity.dec()),
        ensures
            shutting_down ==> (r matches Err(ConnectorError::OrderRejected(m)) && m@ == "shutting down"@),
            !shutting_down && price_out_of_bounds(req.price) ==> (r matches Err(ConnectorError::OrderRejected(m))
                && m@ == "price "@ + decimal_display(req.price.dec()) + " out of bounds (0.001, 0.999)"@),
            !shutting_down && !price_out_of_bounds(req.price) && !self.token_map.view().contains_key(
                req.instrument.symbol@,
            ) ==> (r matches Err(ConnectorError::OrderRejected(m)) && m@ == unknown_instrument_msg(
                req.instrument.symbol@,
                table_keys(self.token_map.entries@),
            )),
            !shutting_down && !price_out_of_bounds(req.price) && self.token_map.view().contains_key(
                req.instrument.symbol@,
            ) ==> (r matches Ok(p) && p.token_id == self.token_map.view()[req.instrument.symbol@] && p.side
                == req.side && p.price_wei == decimal_checked_mul(req.price.dec(), wei_unit())->0 && p.qty_wei
                == decimal_checked_mul(req.quantity.dec(), wei_unit())->0 && p.is_neg_risk == self.is_neg_risk
                && p.is_yield_bearing == self.is_yield_bearing && p.fee_rate_bps == self.fee_rate_bps),
    {
        proof {
            reveal_strlit("shutting down");
            reveal_strlit("price ");
            reveal_strlit(" out of bounds (0.001, 0.999)");
        }
        if shutting_down {
            return Err(ConnectorError::OrderRejected(owned("shutting down")));
        }
        let p = req.price.inner();
        let lo = Dec::new(1, 3);
        let hi = Dec::new(999, 3);
        proof {
            crate::decimal::lemma_pow10_adds(3, 25);
            assert(pow10(3) == 1000) by {
                reveal_with_fuel(pow10, 4);
            }
            assert(lo.value() == pow10(25));
            assert(hi.value() == 999 * pow10(25));
        }
        if p.le(&lo) || p.ge(&hi) {
            let mut m = owned("price ");
            let t = p.to_string();
            m.append(t.as_str());
            m.append(" out of bounds (0.001, 0.999)");
            return Err(ConnectorError::OrderRejected(m));
        }
        let token_id = match self.token_id_for(&req.instrument) {
            Ok(t) => t,
            Err(e) => return Err(e),
        };
        let unit = Dec::from_u64(WEI_PER_UNIT);
        proof {
            Dec::lemma_whole(WEI_PER_UNIT);
            crate::decimal::lemma_pow10_28();
            crate::decimal::lemma_pow10_adds(25, 3);
            assert(pow10(3) == 1000) by {
                reveal_with_fuel(pow10, 4);
            }
            let pv = p.value();
            let uv = unit.value();
            assert(uv == 1_000_000_000_000_000_000 * pow10(28));
            assert(iabs(pv * uv) < MAX_MAGNITUDE * pow10(28) * pow10(28)) by (nonlinear_arith)
                requires
                    pow10(25) <= pv <= 999 * pow10(25),
                    uv == 1_000_000_000_000_000_000 * pow10(28),
                    pow10(28) == 10_000_000_000_000_000_000_000_000_000,
                    pow10(25) * 1000 == pow10(28),
                    MAX_MAGNITUDE == 0xFFFF_FFFF_FFFF_FFFF_FFFF_FFFF,
            ;
        }
        let price_wei = p.mul(unit);
        let qty_wei = req.quantity.inner().mul(unit);
        Ok(
            PlaceParams {
                token_id,
                side: req.side,
                price_wei,
                qty_wei,
                is_neg_risk: self.is_neg_risk,
                is_yield_bearing: self.is_yield_bearing,
                fee_rate_bps: self.fee_rate_bps,
            },
        )
    }

    /// The instrument of a listed order's token, compared with the market's
    /// two token ids: YES for the YES token, else NO for the NO token, none
    /// for a token of another market.
    pub open spec fn seed_instrument(self, o: PredictOpenOrderRaw) -> Option<InstrumentId> {
        if o.token_id@ == self.yes_token_id@ {
            Some(self.yes_instrument)
        } else if o.token_id@ == self.no_token_id@ {
            Some(self.no_instrument)
        } else {
            None
        }
    }

    /// Resting orders entered from a listing, in turn; a later order of the
    /// same hash replaces an earlier one.
    pub open spec fn seeded_active(self, os: Seq<PredictOpenOrderRaw>) -> Map<Seq<char>, OrderEntry>
        decreases os.len(),
    {
        if os.len() == 0 {
            Map::empty()
        } else {
            let prev = self.seeded_active(os.drop_last());
            let o = os.last();
            match self.seed_instrument(o) {
                Some(i) => prev.insert(
                    o.hash@,
                    OrderEntry { predict_id: o.id, side: side_of_spec(o.side), instrument: i },
                ),
                None => prev,
            }
        }
    }

    pub open spec fn seeded_placed(self, os: Seq<PredictOpenOrderRaw>) -> Map<Seq<char>, InstrumentId>
        decreases os.len(),
    {
        if os.len() == 0 {
            Map::empty()
        } else {
            let prev = self.seeded_placed(os.drop_last());
            let o = os.last();
            match self.seed_instrument(o) {
                Some(i) => prev.insert(o.hash@, i),
                None => prev,
            }
        }
    }

    fn seed_instrument_of(&self, o: &PredictOpenOrderRaw) -> (r: Option<InstrumentId>)
        requires
            self.wf(),
        ensures
            r == self.seed_instrument(*o),
    {
        if str_eq(o.token_id.as_str(), self.yes_token_id.as_str()) {
            Some(self.yes_instrument.clone_id())
        } else if str_eq(o.token_id.as_str(), self.no_token_id.as_str()) {
            Some(self.no_instrument.clone_id())
        } else {
            None
        }
    }

    /// Bookkeeping seeded from the open orders left by an earlier session, so
    /// that their fills resolve to the right outcome and cancel-all reaches
    /// them. Orders of other markets are skipped.
    pub fn seed_orders(&self, orders: &Vec<PredictOpenOrderRaw>) -> (r: PredictOrders)
        requires
            self.wf(),
        ensures
            r.wf(),
            r.active_orders.view() == self.seeded_active(orders@),
            r.placed_instruments.view() == self.seeded_placed(orders@),
    {
        let mut out = PredictOrders::new();
        let mut i: usize = 0;
        while i < orders.len()
            invariant
                0 <= i <= orders@.len(),
                self.wf(),
                out.wf(),
                out.active_orders.view() == self.seeded_active(orders@.take(i as int)),
                out.placed_instruments.view() == self.seeded_placed(orders@.take(i as int)),
            decreases orders@.len() - i,
        {
            let o = &orders[i];
            assert(orders@.take(i + 1).drop_last() == orders@.take(i as int));
            assert(orders@.take(i + 1).last() == orders@[i as int]);
            match self.seed_instrument_of(o) {
                Some(inst) => {
                    let side = if o.side == 0 {
                        OrderSide::Buy
                    } else {
                        OrderSide::Sell
                    };
                    out.record_placed(copy_string(&o.hash), copy_string(&o.id), side, inst);
                },
                None => {},
            }
            i = i + 1;
        }
        assert(orders@.take(orders@.len() as int) == orders@);
        out
    }
}

/// A listed position: instrument `"{market_id}-{outcome}"`, size from wei,
/// no entry price and no unrealised profit.
pub fn position_from_raw(p: &PredictPositionRaw) -> (r: Position)
    ensures
        r.instrument.exchange == Exchange::PredictFun,
        r.instrument.kind == InstrumentKind::Binary,
        r.instrument.symbol@ == outcome_symbol_spec(p.market_id, p.outcome_name@),
        r.size == Quantity(from_wei_spec(p.amount@)),
        r.avg_entry_price == Price(Dec::whole(0)),
        r.unrealized_pnl == Price(Dec::whole(0)),
{
    Position {
        instrument: outcome_instrument(p.market_id, p.outcome_name.as_str()),
        size: Quantity::new(from_wei(p.amount.as_str())),
        avg_entry_price: Price::zero(),
        unrealized_pnl: Price::zero(),
    }
}

// ── listed open orders ─────────────────────────────────────────────────────

/// Amount text parsed, zero when it does not parse.
pub open spec fn amount_or_zero(s: Seq<char>) -> Dec {
    match decimal_from_str(s) {
        Some(d) => d,
        None => Dec::whole(0),
    }
}

/// Symbol of the first token-map entry holding `token`.
pub open spec fn first_key_for(entries: Seq<(String, String)>, token: Seq<char>) -> Option<Seq<char>>
    decreases entries.len(),
{
    if entries.len() == 0 {
        None
    } else if entries[0].1@ == token {
        Some(entries[0].0@)
    } else {
        first_key_for(entries.drop_first(), token)
    }
}

/// Numerator and denominator of a listed order's price: maker over taker
/// amount for a buy, taker over maker for a sell.
pub open spec fn price_terms(o: PredictOpenOrderRaw) -> (Dec, Dec) {
    let maker = amount_or_zero(o.maker_amount@);
    let taker = amount_or_zero(o.taker_amount@);
    if o.side == 0 {
        (maker, taker)
    } else {
        (taker, maker)
    }
}

/// The price division does not overflow (a zero or negative denominator gives
/// price zero and no division).
pub open spec fn listed_price_defined(o: PredictOpenOrderRaw) -> bool {
    let (num, den) = price_terms(o);
    den.value() > 0 ==> decimal_checked_div(num, den) is Some
}

/// Price of a listed order; zero when the denominator is not positive.
pub open spec fn listed_price(o: PredictOpenOrderRaw) -> Dec {
    let (num, den) = price_terms(o);
    if den.value() > 0 {
        decimal_checked_div(num, den)->0
    } else {
        Dec::whole(0)
    }
}

/// Quantity of a listed order: the denominator amount, truncated, from wei.
pub open spec fn listed_qty(o: PredictOpenOrderRaw) -> Dec {
    from_wei_spec(decimal_display(price_terms(o).1.trunc_spec()))
}

impl PredictMarket {
    /// The instrument of a listed order: found by token in the token map,
    /// YES when its symbol is the YES symbol, NO otherwise; none for a token
    /// of another market.
    pub open spec fn listed_instrument(self, token: Seq<char>) -> Option<InstrumentId> {
        match first_key_for(self.token_map.entries@, token) {
            Some(k) => Some(
                if k == self.yes_instrument.symbol@ {
                    self.yes_instrument
                } else {
                    self.no_instrument
                },
            ),
            None => None,
        }
    }

    /// A listed order as an open order of this market, `None` for an order of
    /// another market.
    pub open spec fn listed_order(self, o: PredictOpenOrderRaw) -> Option<OpenOrder> {
        match self.listed_instrument(o.token_id@) {
            Some(i) => Some(
                OpenOrder {
                    order_id: o.hash,
                    instrument: i,
                    side: side_of_spec(o.side),
                    price: Price(listed_price(o)),
                    quantity: Quantity(listed_qty(o)),
                    filled_qty: Quantity(from_wei_spec(o.amount_filled@)),
                },
            ),
            None => None,
        }
    }

    /// The open orders of this market among a listing, in listing order.
    pub open spec fn listed_orders(self, os: Seq<PredictOpenOrderRaw>) -> Seq<OpenOrder>
        decreases os.len(),
    {
        if os.len() == 0 {
            Seq::empty()
        } else {
            let prev = self.listed_orders(os.drop_last());
            match self.listed_order(os.last()) {
                Some(o) => prev.push(o),
                None => prev,
            }
        }
    }

    fn listed_key(&self, token: &str) -> (r: Option<&String>)
        ensures
            r matches Some(k) ==> first_key_for(self.token_map.entries@, token@) == Some(k@),
            r is None ==> first_key_for(self.token_map.entries@, token@) is None,
    {
        let mut i: usize = 0;
        assert(self.token_map.entries@.skip(0) =~= self.token_map.entries@);
        while i < self.token_map.entries.len()
            invariant
                0 <= i <= self.token_map.entries@.len(),
                first_key_for(self.token_map.entries@, token@) == first_key_for(
                    self.token_map.entries@.skip(i as int),
                    token@,
                ),
            decreases self.token_map.entries@.len() - i,
        {
            let ghost rest = self.token_map.entries@.skip(i as int);
            assert(rest[0] == self.token_map.entries@[i as int]);
            assert(rest.drop_first() =~= self.token_map.entries@.skip(i + 1));
            if str_eq(self.token_map.entries[i].1.as_str(), token) {
                return Some(&self.token_map.entries[i].0);
            }
            i = i + 1;
        }
        None
    }

    /// One listed order as an open order of this market; `None` for an order
    /// of another market.
    pub fn listed_order_of(&self, o: &PredictOpenOrderRaw) -> (r: Option<OpenOrder>)
        requires
            listed_price_defined(*o),
        ensures
            r == self.listed_order(*o),
    {
        let key = match self.listed_key(o.token_id.as_str()) {
            Some(k) => k,
            None => return None,
        };
        let instrument = if str_eq(key.as_str(), self.yes_instrument.symbol.as_str()) {
            self.yes_instrument.clone_id()
        } else {
            self.no_instrument.clone_id()
        };
        let maker = match Dec::parse_str(o.maker_amount.as_str()) {
            Some(d) => d,
            None => Dec::zero(),
        };
        let taker = match Dec::parse_str(o.taker_amount.as_str()) {
            Some(d) => d,
            None => Dec::zero(),
        };
        let (side, num, den) = if o.side == 0 {
            (OrderSide::Buy, maker, taker)
        } else {
            (OrderSide::Sell, taker, maker)
        };
        let price = if den.gt(&Dec::zero()) {
            num.checked_div(den).unwrap()
        } else {
            Dec::zero()
        };
        let den_text = den.trunc().to_string();
        let qty = from_wei(den_text.as_str());
        Some(
            OpenOrder {
                order_id: copy_string(&o.hash),
                instrument,
                side,
                price: Price::new(price),
                quantity: Quantity::new(qty),
                filled_qty: Quantity::new(from_wei(o.amount_filled.as_str())),
            },
        )
    }

    /// The open orders of this market among a listing, in listing order;
    /// `None` when the price of one of them overflows.
    pub fn open_orders_from(&self, os: &Vec<PredictOpenOrderRaw>) -> (r: Option<Vec<OpenOrder>>)
        ensures
            (forall|k: int| 0 <= k < os@.len() ==> listed_price_defined(#[trigger] os@[k])) ==> (r matches Some(
                v,
            ) && v@ == self.listed_orders(os@)),
            !(forall|k: int| 0 <= k < os@.len() ==> listed_price_defined(#[trigger] os@[k])) ==> r is None,
    {
        let mut out: Vec<OpenOrder> = Vec::new();
        let mut i: usize = 0;
        while i < os.len()
            invariant
                0 <= i <= os@.len(),
                forall|k: int| 0 <= k < i ==> listed_price_defined(#[trigger] os@[k]),
                out@ == self.listed_orders(os@.take(i as int)),
            decreases os@.len() - i,
        {
            let o = &os[i];
            assert(os@.take(i + 1).drop_last() == os@.take(i as int));
            assert(os@.take(i + 1).last() == os@[i as int]);
            if !price_defined(o) {
                return None;
            }
            match self.listed_order_of(o) {
                Some(oo) => out.push(oo),
                None => {},
            }
            i = i + 1;
        }
        assert(os@.take(os@.len() as int) == os@);
        Some(out)
    }
}

fn price_defined(o: &PredictOpenOrderRaw) -> (r: bool)
    ensures
        r == listed_price_defined(*o),
{
    let maker = match Dec::parse_str(o.maker_amount.as_str()) {
        Some(d) => d,
        None => Dec::zero(),
    };
    let taker = match Dec::parse_str(o.taker_amount.as_str()) {
        Some(d) => d,
        None => Dec::zero(),
    };
    let (num, den) = if o.side == 0 {
        (maker, taker)
    } else {
        (taker, maker)
    };
    if den.gt(&Dec::zero()) {
        num.checked_div(den).is_some()
    } else {
        true
    }
}

/// The venue's reply to a place: the order hash and its numeric id, no data,
/// or the failure's text.
pub enum PlaceReply {
    Placed { order_hash: String, predict_id: String },
    NoData,
    Failed(String),
}

/// One market's connector state: the market, the orders known to it, and
/// whether shutdown has begun. Placing is two steps around the venue call:
/// `place_order` decides what to send, `on_place_reply` records the answer.
pub struct PredictFunClient {
    pub market: PredictMarket,
    pub orders: PredictOrders,
    pub shutting_down: bool,
}

impl PredictFunClient {
    pub open spec fn wf(self) -> bool {
        self.market.wf() && self.orders.wf()
    }

    /// A connector for `market` that knows `orders`, not shutting down.
    pub fn new(market: PredictMarket, orders: PredictOrders) -> (r: PredictFunClient)
        ensures
            r.market == market,
            r.orders == orders,
            !r.shutting_down,
    {
        PredictFunClient { market, orders, shutting_down: false }
    }

    /// Stop accepting places; the market and the orders stay as they are.
    pub fn set_shutting_down(&mut self)
        ensures
            final(self).shutting_down,
            final(self).market == old(self).market,
            final(self).orders == old(self).orders,
    {
        self.shutting_down = true;
    }

    /// What to send for `req`, or why it is refused. Once shutdown has begun
    /// every request is refused with "shutting down" and nothing is to be sent;
    /// the connector's state is never changed here.
    pub fn place_order(&self, req: &OrderRequest) -> (r: Result<PlaceParams, ConnectorError>)
        requires
            self.wf(),
            !self.shutting_down && !price_out_of_bounds(req.price) && self.market.token_map.view().contains_key(
                req.instrument.symbol@,
            ) ==> to_wei_fits(req.quantity.dec()),
        ensures
            self.shutting_down ==> (r matches Err(ConnectorError::OrderRejected(m)) && m@ == "shutting down"@),
            !self.shutting_down && price_out_of_bounds(req.price) ==> (r matches Err(
                ConnectorError::OrderRejected(m),
            ) && m@ == "price "@ + decimal_display(req.price.dec()) + " out of bounds (0.001, 0.999)"@),
            !self.shutting_down && !price_out_of_bounds(req.price) && !self.market.token_map.view().contains_key(
                req.instrument.symbol@,
            ) ==> (r matches Err(ConnectorError::OrderRejected(m)) && m@ == unknown_instrument_msg(
                req.instrument.symbol@,
                table_keys(self.market.token_map.entries@),
            )),
            !self.shutting_down && !price_out_of_bounds(req.price) && self.market.token_map.view().contains_key(
                req.instrument.symbol@,
            ) ==> (r matches Ok(p) && p.token_id == self.market.token_map.view()[req.instrument.symbol@]
                && p.side == req.side && p.price_wei == decimal_checked_mul(req.price.dec(), wei_unit())->0
                && p.qty_wei == decimal_checked_mul(req.quantity.dec(), wei_unit())->0 && p.is_neg_risk
                == self.market.is_neg_risk && p.is_yield_bearing == self.market.is_yield_bearing
                && p.fee_rate_bps == self.market.fee_rate_bps),
    {
        self.market.prepare_place(self.shutting_down, req)
    }

    /// Record the venue's reply to a place of `req`: an accepted order enters
    /// both tables under its hash, which is returned; a reply without data or
    /// a failure is a rejection and changes nothing.
    pub fn on_place_reply(&mut self, req: &OrderRequest, reply: PlaceReply) -> (r: Result<String, ConnectorError>)
        requires
            old(self).wf(),
        ensures
            final(self).wf(),
            final(self).market == old(self).market,
            final(self).shutting_down == old(self).shutting_down,
            match reply {
                PlaceReply::Placed { order_hash, predict_id } => {
                    &&& r matches Ok(h) && h@ == order_hash@
                    &&& final(self).orders.active_orders.view() == old(self).orders.active_orders.view().insert(
                        order_hash@,
                        (OrderEntry { predict_id, side: req.side, instrument: req.instrument }),
                    )
                    &&& final(self).orders.placed_instruments.view()
                        == old(self).orders.placed_instruments.view().insert(order_hash@, req.instrument)
                },
                PlaceReply::NoData => {
                    &&& r matches Err(ConnectorError::OrderRejected(m)) && m@ == "empty response data"@
                    &&& final(self).orders == old(self).orders
                },
                PlaceReply::Failed(e) => {
                    &&& r matches Err(ConnectorError::OrderRejected(m)) && m@ == e@
                    &&& final(self).orders == old(self).orders
                },
            },
    {
        proof {
            reveal_strlit("empty response data");
        }
        match reply {
            PlaceReply::Placed { order_hash, predict_id } => {
                let h = copy_string(&order_hash);
                self.orders.record_placed(order_hash, predict_id, req.side, req.instrument.clone_id());
                Ok(h)
            },
            PlaceReply::NoData => Err(ConnectorError::OrderRejected(owned("empty response data"))),
            PlaceReply::Failed(e) => Err(ConnectorError::OrderRejected(e)),
        }
    }
}

} // verus!
