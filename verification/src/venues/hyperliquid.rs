//! Hyperliquid perpetuals: message normalisation, what an order reply means,
//! and what the market data feed publishes for each message.

use vstd::prelude::*;
use crate::decimal::{Dec, Price, Quantity, decimal_checked_sub, decimal_parse};
use crate::text::{copy_string, owned, parse_u64_result, str_eq, u64_digits, u64_from_str, u64_parse, u64_to_string};
use crate::types::error::ConnectorError;
use crate::types::event::Event;
use crate::types::instrument::{Exchange, InstrumentId, InstrumentKind};
use crate::types::market_data::OrderbookSnapshot;
use crate::types::order::{OpenOrder, OrderRequest, OrderSide, OrderStatus, OrderUpdate, TimeInForce};
use crate::types::position::{Fill, Position};

pub use crate::clock::utc_now_ns as now_ns;

verus! {

// ── messages ───────────────────────────────────────────────────────────────

/// Order status as the venue reports it.
#[derive(Clone, Copy, Debug, PartialEq, Eq, Structural)]
pub enum HlOrderStatus {
    Open,
    Filled,
    Canceled,
    MarginCanceled,
    VaultWithdrawalCanceled,
    OpenInterestCapCanceled,
    SelfTradeCanceled,
    ReduceOnlyCanceled,
    SiblingFilledCanceled,
    DelistedCanceled,
    LiquidatedCanceled,
    ScheduledCancel,
    Rejected,
    TickRejected,
    MinTradeNtlRejected,
    PerpMarginRejected,
    Triggered,
    /// Any other status.
    Other,
}

#[derive(Clone, Copy, Debug)]
pub struct HlBookLevel {
    pub px: Dec,
    pub sz: Dec,
}

/// Level-2 book of a coin; `time` in milliseconds.
#[derive(Clone, Debug)]
pub struct HlL2Book {
    pub time: u64,
    pub bids: Vec<HlBookLevel>,
    pub asks: Vec<HlBookLevel>,
}

/// A fill of the account; `is_bid` for a buy.
#[derive(Clone, Copy, Debug)]
pub struct HlFill {
    pub oid: u64,
    pub is_bid: bool,
    pub px: Dec,
    pub sz: Dec,
    pub fee: Dec,
}

/// An order as order updates carry it: original and open size.
#[derive(Clone, Copy, Debug)]
pub struct HlBasicOrder {
    pub oid: u64,
    pub orig_sz: Dec,
    pub sz: Dec,
}

#[derive(Clone, Copy, Debug)]
pub struct HlOrderUpdate {
    pub order: HlBasicOrder,
    pub status: HlOrderStatus,
}

/// A message of the venue's websocket.
#[derive(Clone, Debug)]
pub enum HlIncoming {
    L2Book(HlL2Book),
    OrderUpdates(Vec<HlOrderUpdate>),
    UserFills { fills: Vec<HlFill>, is_snapshot: bool },
    /// A user event carrying fills.
    UserEventFills(Vec<HlFill>),
    /// Any other user event.
    UserEventOther,
    /// Any other message.
    Other,
}

// ── normalisation ──────────────────────────────────────────────────────────

pub open spec fn level_pairs(ls: Seq<HlBookLevel>) -> Seq<(Price, Quantity)> {
    ls.map_values(|l: HlBookLevel| (Price(l.px), Quantity(l.sz)))
}

fn pairs_of(ls: &Vec<HlBookLevel>) -> (r: Vec<(Price, Quantity)>)
    ensures
        r@ == level_pairs(ls@),
{
    let mut out: Vec<(Price, Quantity)> = Vec::new();
    let mut i: usize = 0;
    while i < ls.len()
        invariant
            0 <= i <= ls@.len(),
            out@ == level_pairs(ls@.take(i as int)),
        decreases ls@.len() - i,
    {
        out.push((Price::new(ls[i].px), Quantity::new(ls[i].sz)));
        assert(level_pairs(ls@.take(i + 1)) =~= level_pairs(ls@.take(i as int)).push(
            (Price(ls@[i as int].px), Quantity(ls@[i as int].sz)),
        ));
        i = i + 1;
    }
    assert(ls@.take(ls@.len() as int) =~= ls@);
    out
}

/// The book as a snapshot, levels in the venue's order, stamped `exchange_ts_ns`.
pub fn l2book_to_snapshot(book: &HlL2Book, exchange_ts_ns: u64) -> (r: OrderbookSnapshot)
    ensures
        r.bids@ == level_pairs(book.bids@),
        r.asks@ == level_pairs(book.asks@),
        r.timestamp_ns == exchange_ts_ns,
{
    OrderbookSnapshot { bids: pairs_of(&book.bids), asks: pairs_of(&book.asks), timestamp_ns: exchange_ts_ns }
}

/// `f` is the account fill `hl`, stamped `ts_ns`.
pub open spec fn is_fill(f: Fill, instrument: InstrumentId, hl: HlFill, ts_ns: u64) -> bool {
    &&& f.order_id@ == u64_digits(hl.oid as nat)
    &&& f.instrument == instrument
    &&& f.side == (if hl.is_bid {
        OrderSide::Buy
    } else {
        OrderSide::Sell
    })
    &&& f.price == Price(hl.px)
    &&& f.quantity == Quantity(hl.sz)
    &&& f.fee == Price(hl.fee)
    &&& f.timestamp_ns == ts_ns
}

pub fn fill_at(instrument: &InstrumentId, hl: &HlFill, ts_ns: u64) -> (r: Fill)
    ensures
        is_fill(r, *instrument, *hl, ts_ns),
{
    Fill {
        order_id: u64_to_string(hl.oid),
        instrument: instrument.clone_id(),
        side: if hl.is_bid {
            OrderSide::Buy
        } else {
            OrderSide::Sell
        },
        price: Price::new(hl.px),
        quantity: Quantity::new(hl.sz),
        fee: Price::new(hl.fee),
        timestamp_ns: ts_ns,
    }
}

/// The account fill, stamped now.
pub fn fill(instrument: &InstrumentId, hl: &HlFill) -> (r: Fill)
    ensures
        is_fill(r, *instrument, *hl, r.timestamp_ns),
{
    fill_at(instrument, hl, now_ns())
}

pub open spec fn status_spec(s: HlOrderStatus) -> OrderStatus {
    match s {
        HlOrderStatus::Open => OrderStatus::Acknowledged,
        HlOrderStatus::Filled => OrderStatus::Filled,
        HlOrderStatus::Canceled => OrderStatus::Cancelled,
        HlOrderStatus::MarginCanceled => OrderStatus::Cancelled,
        HlOrderStatus::VaultWithdrawalCanceled => OrderStatus::Cancelled,
        HlOrderStatus::OpenInterestCapCanceled => OrderStatus::Cancelled,
        HlOrderStatus::SelfTradeCanceled => OrderStatus::Cancelled,
        HlOrderStatus::ReduceOnlyCanceled => OrderStatus::Cancelled,
        HlOrderStatus::SiblingFilledCanceled => OrderStatus::Cancelled,
        HlOrderStatus::DelistedCanceled => OrderStatus::Cancelled,
        HlOrderStatus::LiquidatedCanceled => OrderStatus::Cancelled,
        HlOrderStatus::ScheduledCancel => OrderStatus::Cancelled,
        HlOrderStatus::Rejected => OrderStatus::Rejected,
        HlOrderStatus::TickRejected => OrderStatus::Rejected,
        HlOrderStatus::MinTradeNtlRejected => OrderStatus::Rejected,
        HlOrderStatus::PerpMarginRejected => OrderStatus::Rejected,
        HlOrderStatus::Triggered => OrderStatus::Rejected,
        HlOrderStatus::Other => OrderStatus::Acknowledged,
    }
}

/// The venue's statuses keep their meaning: filled is `Filled` and nothing
/// else is; open (and a status of no other kind) is `Acknowledged`; every kind
/// of cancel is `Cancelled` and nothing else is; every kind of rejection, and
/// a triggered order, is `Rejected` and nothing else is. No venue status is
/// reported as partly filled.
pub proof fn law_status_meanings(s: HlOrderStatus)
    ensures
        s is Filled <==> status_spec(s) == OrderStatus::Filled,
        s is Open || s is Other <==> status_spec(s) == OrderStatus::Acknowledged,
        (s is Canceled || s is MarginCanceled || s is VaultWithdrawalCanceled || s is OpenInterestCapCanceled
            || s is SelfTradeCanceled || s is ReduceOnlyCanceled || s is SiblingFilledCanceled || s is DelistedCanceled
            || s is LiquidatedCanceled || s is ScheduledCancel) <==> status_spec(s) == OrderStatus::Cancelled,
        (s is Rejected || s is TickRejected || s is MinTradeNtlRejected || s is PerpMarginRejected || s is Triggered)
            <==> status_spec(s) == OrderStatus::Rejected,
        status_spec(s) != OrderStatus::PartiallyFilled,
{
}

/// Our status for the venue's: open is acknowledged, every kind of cancel is
/// cancelled, every kind of rejection (and a triggered order) is rejected.
pub fn map_status(s: HlOrderStatus) -> (r: OrderStatus)
    ensures
        r == status_spec(s),
{
    match s {
        HlOrderStatus::Open => OrderStatus::Acknowledged,
        HlOrderStatus::Filled => OrderStatus::Filled,
        HlOrderStatus::Canceled => OrderStatus::Cancelled,
        HlOrderStatus::MarginCanceled => OrderStatus::Cancelled,
        HlOrderStatus::VaultWithdrawalCanceled => OrderStatus::Cancelled,
        HlOrderStatus::OpenInterestCapCanceled => OrderStatus::Cancelled,
        HlOrderStatus::SelfTradeCanceled => OrderStatus::Cancelled,
        HlOrderStatus::ReduceOnlyCanceled => OrderStatus::Cancelled,
        HlOrderStatus::SiblingFilledCanceled => OrderStatus::Cancelled,
        HlOrderStatus::DelistedCanceled => OrderStatus::Cancelled,
        HlOrderStatus::LiquidatedCanceled => OrderStatus::Cancelled,
        HlOrderStatus::ScheduledCancel => OrderStatus::Cancelled,
        HlOrderStatus::Rejected => OrderStatus::Rejected,
        HlOrderStatus::TickRejected => OrderStatus::Rejected,
        HlOrderStatus::MinTradeNtlRejected => OrderStatus::Rejected,
        HlOrderStatus::PerpMarginRejected => OrderStatus::Rejected,
        HlOrderStatus::Triggered => OrderStatus::Rejected,
        HlOrderStatus::Other => OrderStatus::Acknowledged,
    }
}

/// Filled quantity: original minus open size, zero when that overflows.
pub open spec fn filled_spec(o: HlBasicOrder) -> Dec {
    match decimal_checked_sub(o.orig_sz, o.sz) {
        Some(d) => d,
        None => Dec::whole(0),
    }
}

/// `u` is the update the venue's order update stands for, stamped `ts_ns`.
pub open spec fn is_order_update(u: OrderUpdate, instrument: InstrumentId, hl: HlOrderUpdate, ts_ns: u64) -> bool {
    &&& u.instrument == instrument
    &&& u.order_id@ == u64_digits(hl.order.oid as nat)
    &&& u.status == status_spec(hl.status)
    &&& u.filled_qty == Quantity(filled_spec(hl.order))
    &&& u.remaining_qty == Quantity(hl.order.sz)
    &&& u.avg_fill_price is None
    &&& u.timestamp_ns == ts_ns
}

pub fn order_update_at(instrument: &InstrumentId, hl: &HlOrderUpdate, ts_ns: u64) -> (r: OrderUpdate)
    ensures
        is_order_update(r, *instrument, *hl, ts_ns),
{
    let filled = match hl.order.orig_sz.checked_sub(hl.order.sz) {
        Some(d) => d,
        None => Dec::zero(),
    };
    OrderUpdate {
        instrument: instrument.clone_id(),
        order_id: u64_to_string(hl.order.oid),
        status: map_status(hl.status),
        filled_qty: Quantity::new(filled),
        remaining_qty: Quantity::new(hl.order.sz),
        avg_fill_price: None,
        timestamp_ns: ts_ns,
    }
}

/// The venue's order update, stamped now.
pub fn order_update(instrument: &InstrumentId, hl: &HlOrderUpdate) -> (r: OrderUpdate)
    ensures
        is_order_update(r, *instrument, *hl, r.timestamp_ns),
{
    order_update_at(instrument, hl, now_ns())
}

/// `true` (buy) for a buy.
pub fn to_hl_side(side: OrderSide) -> (r: bool)
    ensures
        r == (side == OrderSide::Buy),
{
    match side {
        OrderSide::Buy => true,
        OrderSide::Sell => false,
    }
}

/// Order id text of a venue order id.
pub fn order_id_from_oid(oid: u64) -> (r: String)
    ensures
        r@ == u64_digits(oid as nat),
{
    u64_to_string(oid)
}

/// The venue order id of an order id text; an error `"invalid oid '{id}': {e}"`
/// when it is not a number.
pub fn oid_from_order_id(id: &String) -> (r: Result<u64, String>)
    ensures
        u64_parse(id@) matches Ok(v) ==> r == Ok::<u64, String>(v),
        u64_parse(id@) matches Err(e) ==> (r matches Err(m) && m@ == "invalid oid '"@ + id@ + "': "@ + e),
        u64_from_str(id@) matches Some(v) ==> r == Ok::<u64, String>(v),
        u64_from_str(id@) is None ==> r is Err,
        forall|n: u64| id@ == #[trigger] u64_digits(n as nat) ==> (r matches Ok(v) && v == n),
{
    proof {
        assert forall|n: u64| id@ == #[trigger] u64_digits(n as nat) implies u64_from_str(id@) == Some(n) by {
            crate::text::lemma_u64_digits_value(n as nat);
        }
    }
    match parse_u64_result(id.as_str()) {
        Ok(v) => Ok(v),
        Err(e) => {
            let mut m = owned("invalid oid '");
            m.append(id.as_str());
            m.append("': ");
            m.append(e.as_str());
            Err(m)
        },
    }
}

// ── the feed ───────────────────────────────────────────────────────────────

/// What a feed is given: the coin's keys and its instrument.
#[derive(Clone, Debug)]
pub struct AssetInfo {
    pub mids_key: String,
    pub ws_coin: String,
    pub instrument: InstrumentId,
}

/// The book's time fits in nanoseconds.
pub open spec fn message_fits(msg: HlIncoming) -> bool {
    msg matches HlIncoming::L2Book(b) ==> b.time * 1_000_000 <= u64::MAX
}

/// `e` is the event published for the instrument at position `k` of a message.
pub open spec fn is_fill_event(e: Event, instrument: InstrumentId, hl: HlFill, ts_ns: u64) -> bool {
    e matches Event::Fill { instrument: i, fill: f } && i == instrument && is_fill(f, instrument, hl, ts_ns)
}

pub open spec fn is_update_event(e: Event, instrument: InstrumentId, hl: HlOrderUpdate, ts_ns: u64) -> bool {
    e matches Event::OrderUpdate { instrument: i, update: u } && i == instrument && is_order_update(
        u,
        instrument,
        hl,
        ts_ns,
    )
}

fn fill_events(instrument: &InstrumentId, fills: &Vec<HlFill>, ts_ns: u64) -> (r: Vec<Event>)
    ensures
        r@.len() == fills@.len(),
        forall|k: int| 0 <= k < fills@.len() ==> is_fill_event(#[trigger] r@[k], *instrument, fills@[k], ts_ns),
{
    let mut out: Vec<Event> = Vec::new();
    let mut i: usize = 0;
    while i < fills.len()
        invariant
            0 <= i <= fills@.len(),
            out@.len() == i,
            forall|k: int| 0 <= k < i ==> is_fill_event(#[trigger] out@[k], *instrument, fills@[k], ts_ns),
        decreases fills@.len() - i,
    {
        let f = fill_at(instrument, &fills[i], ts_ns);
        out.push(Event::Fill { instrument: instrument.clone_id(), fill: f });
        i = i + 1;
    }
    out
}

/// What the feed publishes for a message, all on the asset's instrument and
/// stamped `local_ts_ns`: a book update for a book (exchange time its
/// milliseconds in nanoseconds), an order update per order update, a fill per
/// fill (none for the snapshot of past fills sent on subscription), nothing
/// for anything else.
pub fn handle_message(asset: &AssetInfo, msg: &HlIncoming, local_ts_ns: u64) -> (r: Vec<Event>)
    requires
        message_fits(*msg),
    ensures
        match *msg {
            HlIncoming::L2Book(b) => r@.len() == 1 && (r@[0] matches Event::BookUpdate {
                instrument: i,
                book: snap,
                exchange_ts_ns,
                local_ts_ns: l,
            } && i == asset.instrument && exchange_ts_ns == b.time * 1_000_000 && l == local_ts_ns && snap.bids@
                == level_pairs(b.bids@) && snap.asks@ == level_pairs(b.asks@) && snap.timestamp_ns
                == exchange_ts_ns),
            HlIncoming::OrderUpdates(us) => r@.len() == us@.len() && forall|k: int|
                0 <= k < us@.len() ==> is_update_event(#[trigger] r@[k], asset.instrument, us@[k], local_ts_ns),
            HlIncoming::UserFills { fills, is_snapshot } => if is_snapshot {
                r@.len() == 0
            } else {
                r@.len() == fills@.len() && forall|k: int|
                    0 <= k < fills@.len() ==> is_fill_event(#[trigger] r@[k], asset.instrument, fills@[k], local_ts_ns)
            },
            HlIncoming::UserEventFills(fills) => r@.len() == fills@.len() && forall|k: int|
                0 <= k < fills@.len() ==> is_fill_event(#[trigger] r@[k], asset.instrument, fills@[k], local_ts_ns),
            _ => r@.len() == 0,
        },
{
    let instrument = &asset.instrument;
    match msg {
        HlIncoming::L2Book(book) => {
            let ex = book.time * 1_000_000;
            let snap = l2book_to_snapshot(book, ex);
            let mut out: Vec<Event> = Vec::new();
            out.push(
                Event::BookUpdate {
                    instrument: instrument.clone_id(),
                    book: snap,
                    exchange_ts_ns: ex,
                    local_ts_ns: local_ts_ns,
                },
            );
            out
        },
        HlIncoming::OrderUpdates(us) => {
            let mut out: Vec<Event> = Vec::new();
            let mut i: usize = 0;
            while i < us.len()
                invariant
                    0 <= i <= us@.len(),
                    out@.len() == i,
                    forall|k: int| 0 <= k < i ==> is_update_event(#[trigger] out@[k], *instrument, us@[k], local_ts_ns),
                decreases us@.len() - i,
            {
                let u = order_update_at(instrument, &us[i], local_ts_ns);
                out.push(Event::OrderUpdate { instrument: instrument.clone_id(), update: u });
                i = i + 1;
            }
            out
        },
        HlIncoming::UserFills { fills, is_snapshot } => {
            if *is_snapshot {
                Vec::new()
            } else {
                fill_events(instrument, fills, local_ts_ns)
            }
        },
        HlIncoming::UserEventFills(fills) => fill_events(instrument, fills, local_ts_ns),
        _ => Vec::new(),
    }
}

// ── the client ─────────────────────────────────────────────────────────────

/// First status of an order reply.
#[derive(Clone, Debug)]
pub enum HlDataStatus {
    Resting { oid: u64 },
    Filled { oid: u64, total_sz: String, avg_px: String },
    /// Any other status, with its debug text.
    Other { debug: String },
}

/// Reply to an order or modify request.
#[derive(Clone, Debug)]
pub enum HlResponse {
    /// Accepted, with the first status if any.
    Accepted(Option<HlDataStatus>),
    /// Refused, with the venue's message.
    Refused(String),
}

/// Time in force as the venue names it: post-only is `Alo`.
pub fn to_hl_tif(tif: TimeInForce) -> (r: &'static str)
    ensures
        r@ == (match tif {
            TimeInForce::Gtc => "Gtc"@,
            TimeInForce::Ioc => "Ioc"@,
            TimeInForce::PostOnly => "Alo"@,
        }),
{
    match tif {
        TimeInForce::Gtc => "Gtc",
        TimeInForce::Ioc => "Ioc",
        TimeInForce::PostOnly => "Alo",
    }
}

/// ASCII lower case of a character.
pub open spec fn ascii_lower(c: char) -> char {
    if 'A' <= c <= 'Z' {
        ((c as u32) + 32) as char
    } else {
        c
    }
}

/// Texts equal ignoring ASCII case.
pub open spec fn eq_ignore_ascii_case(a: Seq<char>, b: Seq<char>) -> bool {
    a.len() == b.len() && forall|i: int| 0 <= i < a.len() ==> ascii_lower(#[trigger] a[i]) == ascii_lower(b[i])
}

fn lower_char(c: char) -> (r: char)
    ensures
        r == ascii_lower(c),
{
    if 'A' <= c && c <= 'Z' {
        let b: u8 = (c as u32) as u8;
        (b + 32) as char
    } else {
        c
    }
}

/// `str::eq_ignore_ascii_case` over characters.
fn same_ignoring_case(a: &str, b: &str) -> (r: bool)
    ensures
        r == eq_ignore_ascii_case(a@, b@),
{
    let n = a.unicode_len();
    if n != b.unicode_len() {
        return false;
    }
    let mut i: usize = 0;
    while i < n
        invariant
            0 <= i <= n,
            n == a@.len(),
            a@.len() == b@.len(),
            forall|k: int| 0 <= k < i ==> ascii_lower(#[trigger] a@[k]) == ascii_lower(b@[k]),
        decreases n - i,
    {
        if lower_char(a.get_char(i)) != lower_char(b.get_char(i)) {
            return false;
        }
        i = i + 1;
    }
    true
}

/// `Buy` for `"b"` or `"buy"` in any case, else `Sell`.
pub fn to_core_side(side: &str) -> (r: OrderSide)
    ensures
        r == (if eq_ignore_ascii_case(side@, "b"@) || eq_ignore_ascii_case(side@, "buy"@) {
            OrderSide::Buy
        } else {
            OrderSide::Sell
        }),
{
    if same_ignoring_case(side, "b") || same_ignoring_case(side, "buy") {
        OrderSide::Buy
    } else {
        OrderSide::Sell
    }
}

/// Order id of a status that has one.
pub fn parse_oid(status: &HlDataStatus) -> (r: Option<u64>)
    ensures
        r == (match *status {
            HlDataStatus::Resting { oid } => Some(oid),
            HlDataStatus::Filled { oid, .. } => Some(oid),
            HlDataStatus::Other { .. } => None::<u64>,
        }),
{
    match status {
        HlDataStatus::Resting { oid } => Some(*oid),
        HlDataStatus::Filled { oid, .. } => Some(*oid),
        HlDataStatus::Other { .. } => None,
    }
}

/// A decimal text; an error `"decimal parse failed: {e}"` otherwise.
pub fn parse_decimal(value: &str) -> (r: Result<Dec, ConnectorError>)
    ensures
        decimal_parse(value@) matches Ok(d) ==> r == Ok::<Dec, ConnectorError>(d),
        decimal_parse(value@) matches Err(e) ==> (r matches Err(ConnectorError::Other(m)) && m@
            == "decimal parse failed: "@ + e),
{
    match Dec::parse_result(value) {
        Ok(d) => Ok(d),
        Err(e) => {
            let mut m = owned("decimal parse failed: ");
            m.append(e.as_str());
            Err(ConnectorError::Other(m))
        },
    }
}

/// The perpetual of a coin.
pub fn to_instrument(symbol: &str) -> (r: InstrumentId)
    ensures
        r.exchange == Exchange::Hyperliquid,
        r.kind == InstrumentKind::Perpetual,
        r.symbol@ == symbol@,
{
    InstrumentId::new(Exchange::Hyperliquid, InstrumentKind::Perpetual, owned(symbol))
}

/// What a placement reply means: the order id and the update to send, or why
/// it failed. A resting order is acknowledged with the requested quantity
/// open; a filled one reports its total size and average price.
pub fn place_outcome(req: &OrderRequest, resp: HlResponse, ts_ns: u64) -> (r: Result<(String, OrderUpdate), ConnectorError>)
    ensures
        resp matches HlResponse::Refused(err) ==> (r matches Err(ConnectorError::OrderRejected(m)) && m@ == err@),
        resp matches HlResponse::Accepted(None) ==> (r matches Err(ConnectorError::OrderRejected(m)) && m@
            == "empty order status"@),
        resp matches HlResponse::Accepted(Some(HlDataStatus::Other { debug })) ==> (r matches Err(
            ConnectorError::OrderRejected(m),
        ) && m@ == "unexpected status: "@ + debug@),
        resp matches HlResponse::Accepted(Some(HlDataStatus::Resting { oid })) ==> (r matches Ok((id, u)) && id@
            == u64_digits(oid as nat) && u.order_id@ == id@ && u.instrument == req.instrument && u.status
            == OrderStatus::Acknowledged && u.filled_qty == Quantity(Dec::whole(0)) && u.remaining_qty
            == req.quantity && u.avg_fill_price is None && u.timestamp_ns == ts_ns),
        resp matches HlResponse::Accepted(Some(HlDataStatus::Filled { oid, total_sz, avg_px })) ==> (match (
            decimal_parse(total_sz@),
            decimal_parse(avg_px@),
        ) {
            (Ok(filled), Ok(avg)) => r matches Ok((id, u)) && id@ == u64_digits(oid as nat) && u.order_id@ == id@
                && u.instrument == req.instrument && u.status == OrderStatus::Filled && u.filled_qty == Quantity(
                filled,
            ) && u.remaining_qty == Quantity(Dec::whole(0)) && u.avg_fill_price == Some(Price(avg))
                && u.timestamp_ns == ts_ns,
            (Err(e), _) => r matches Err(ConnectorError::Other(m)) && m@ == "decimal parse failed: "@ + e,
            (Ok(_), Err(e)) => r matches Err(ConnectorError::Other(m)) && m@ == "decimal parse failed: "@ + e,
        }),
{
    let status = match resp {
        HlResponse::Refused(err) => return Err(ConnectorError::OrderRejected(err)),
        HlResponse::Accepted(None) => return Err(ConnectorError::OrderRejected(owned("empty order status"))),
        HlResponse::Accepted(Some(s)) => s,
    };
    match status {
        HlDataStatus::Resting { oid } => {
            let id = u64_to_string(oid);
            let u = OrderUpdate {
                instrument: req.instrument.clone_id(),
                order_id: copy_string(&id),
                status: OrderStatus::Acknowledged,
                filled_qty: Quantity::zero(),
                remaining_qty: req.quantity,
                avg_fill_price: None,
                timestamp_ns: ts_ns,
            };
            Ok((id, u))
        },
        HlDataStatus::Filled { oid, total_sz, avg_px } => {
            let id = u64_to_string(oid);
            let filled = match parse_decimal(total_sz.as_str()) {
                Ok(d) => d,
                Err(e) => return Err(e),
            };
            let avg = match parse_decimal(avg_px.as_str()) {
                Ok(d) => d,
                Err(e) => return Err(e),
            };
            let u = OrderUpdate {
                instrument: req.instrument.clone_id(),
                order_id: copy_string(&id),
                status: OrderStatus::Filled,
                filled_qty: Quantity::new(filled),
                remaining_qty: Quantity::zero(),
                avg_fill_price: Some(Price::new(avg)),
                timestamp_ns: ts_ns,
            };
            Ok((id, u))
        },
        HlDataStatus::Other { debug } => {
            let mut m = owned("unexpected status: ");
            m.append(debug.as_str());
            Err(ConnectorError::OrderRejected(m))
        },
    }
}

/// What a modify reply means: the new order id, or why it failed.
pub fn modify_outcome(resp: HlResponse) -> (r: Result<String, ConnectorError>)
    ensures
        resp matches HlResponse::Refused(err) ==> (r matches Err(ConnectorError::OrderRejected(m)) && m@ == err@),
        resp matches HlResponse::Accepted(None) ==> (r matches Err(ConnectorError::OrderRejected(m)) && m@
            == "empty modify status"@),
        resp matches HlResponse::Accepted(Some(HlDataStatus::Other { debug })) ==> (r matches Err(
            ConnectorError::OrderRejected(m),
        ) && m@ == "unexpected status: "@ + debug@),
        resp matches HlResponse::Accepted(Some(HlDataStatus::Resting { oid })) ==> (r matches Ok(id) && id@
            == u64_digits(oid as nat)),
        resp matches HlResponse::Accepted(Some(HlDataStatus::Filled { oid, .. })) ==> (r matches Ok(id) && id@
            == u64_digits(oid as nat)),
{
    let status = match resp {
        HlResponse::Refused(err) => return Err(ConnectorError::OrderRejected(err)),
        HlResponse::Accepted(None) => return Err(ConnectorError::OrderRejected(owned("empty modify status"))),
        HlResponse::Accepted(Some(s)) => s,
    };
    match parse_oid(&status) {
        Some(oid) => Ok(u64_to_string(oid)),
        None => {
            let debug = match status {
                HlDataStatus::Other { debug } => debug,
                _ => String::new(),
            };
            let mut m = owned("unexpected status: ");
            m.append(debug.as_str());
            Err(ConnectorError::OrderRejected(m))
        },
    }
}

/// The venue order id of an order to cancel or modify; an error
/// `"invalid oid: {e}"` when it is not a number.
pub fn parse_order_oid(order_id: &str) -> (r: Result<u64, ConnectorError>)
    ensures
        u64_parse(order_id@) matches Ok(v) ==> r == Ok::<u64, ConnectorError>(v),
        u64_parse(order_id@) matches Err(e) ==> (r matches Err(ConnectorError::Other(m)) && m@ == "invalid oid: "@
            + e),
        u64_from_str(order_id@) matches Some(v) ==> r == Ok::<u64, ConnectorError>(v),
        u64_from_str(order_id@) is None ==> r is Err,
{
    match parse_u64_result(order_id) {
        Ok(v) => Ok(v),
        Err(e) => {
            let mut m = owned("invalid oid: ");
            m.append(e.as_str());
            Err(ConnectorError::Other(m))
        },
    }
}

/// The update sent after a cancel.
pub fn cancel_update(instrument: &InstrumentId, order_id: &String, ts_ns: u64) -> (r: OrderUpdate)
    ensures
        r == (OrderUpdate {
            instrument: *instrument,
            order_id: *order_id,
            status: OrderStatus::Cancelled,
            filled_qty: Quantity(Dec::whole(0)),
            remaining_qty: Quantity(Dec::whole(0)),
            avg_fill_price: None,
            timestamp_ns: ts_ns,
        }),
{
    OrderUpdate {
        instrument: instrument.clone_id(),
        order_id: copy_string(order_id),
        status: OrderStatus::Cancelled,
        filled_qty: Quantity::zero(),
        remaining_qty: Quantity::zero(),
        avg_fill_price: None,
        timestamp_ns: ts_ns,
    }
}

/// An open order as the venue lists it.
#[derive(Clone, Debug)]
pub struct HlOpenOrder {
    pub coin: String,
    pub oid: u64,
    pub side: String,
    pub limit_px: String,
    pub sz: String,
}

/// Ids (as text) of the listed orders on the instrument's coin, to cancel in turn.
pub fn cancel_all_ids(orders: &Vec<HlOpenOrder>, instrument: &InstrumentId) -> (r: Vec<String>)
    ensures
        r@.map_values(|s: String| s@) == coin_order_ids(orders@, instrument.symbol@),
{
    let mut out: Vec<String> = Vec::new();
    let mut i: usize = 0;
    while i < orders.len()
        invariant
            0 <= i <= orders@.len(),
            out@.map_values(|s: String| s@) == coin_order_ids(orders@.take(i as int), instrument.symbol@),
        decreases orders@.len() - i,
    {
        assert(orders@.take(i + 1).drop_last() =~= orders@.take(i as int));
        assert(orders@.take(i + 1).last() == orders@[i as int]);
        if str_eq(orders[i].coin.as_str(), instrument.symbol.as_str()) {
            out.push(u64_to_string(orders[i].oid));
            assert(out@.map_values(|s: String| s@) =~= coin_order_ids(orders@.take(i as int), instrument.symbol@).push(
                u64_digits(orders@[i as int].oid as nat),
            ));
        }
        i = i + 1;
    }
    assert(orders@.take(orders@.len() as int) =~= orders@);
    out
}

/// Id texts of the orders on `coin`, in order.
pub open spec fn coin_order_ids(os: Seq<HlOpenOrder>, coin: Seq<char>) -> Seq<Seq<char>>
    decreases os.len(),
{
    if os.len() == 0 {
        Seq::empty()
    } else {
        let prev = coin_order_ids(os.drop_last(), coin);
        if os.last().coin@ == coin {
            prev.push(u64_digits(os.last().oid as nat))
        } else {
            prev
        }
    }
}

/// A position as the account state lists it.
#[derive(Clone, Debug)]
pub struct HlAssetPosition {
    pub coin: String,
    pub szi: String,
    pub entry_px: Option<String>,
    pub unrealized_pnl: String,
}

/// First parse error of a position's numbers (size, entry price if given,
/// unrealised profit), if any.
pub open spec fn asset_error(a: HlAssetPosition) -> Option<Seq<char>> {
    match decimal_parse(a.szi@) {
        Err(e) => Some(e),
        Ok(_) => match a.entry_px {
            Some(p) => match decimal_parse(p@) {
                Err(e) => Some(e),
                Ok(_) => match decimal_parse(a.unrealized_pnl@) {
                    Err(e) => Some(e),
                    Ok(_) => None,
                },
            },
            None => match decimal_parse(a.unrealized_pnl@) {
                Err(e) => Some(e),
                Ok(_) => None,
            },
        },
    }
}

/// `p` is the listed position `a` (entry price zero when not given).
pub open spec fn is_asset_position(p: Position, a: HlAssetPosition) -> bool {
    &&& p.instrument.exchange == Exchange::Hyperliquid
    &&& p.instrument.kind == InstrumentKind::Perpetual
    &&& p.instrument.symbol@ == a.coin@
    &&& decimal_parse(a.szi@) matches Ok(sz) && p.size == Quantity(sz)
    &&& p.avg_entry_price == Price(
        match a.entry_px {
            Some(e) => decimal_parse(e@)->Ok_0,
            None => Dec::whole(0),
        },
    )
    &&& decimal_parse(a.unrealized_pnl@) matches Ok(u) && p.unrealized_pnl == Price(u)
}

fn asset_position(a: &HlAssetPosition) -> (r: Result<Position, ConnectorError>)
    ensures
        asset_error(*a) is None ==> (r matches Ok(p) && is_asset_position(p, *a)),
        asset_error(*a) matches Some(e) ==> (r matches Err(ConnectorError::Other(m)) && m@
            == "decimal parse failed: "@ + e),
{
    let sz = match parse_decimal(a.szi.as_str()) {
        Ok(d) => d,
        Err(e) => return Err(e),
    };
    let entry = match &a.entry_px {
        Some(p) => match parse_decimal(p.as_str()) {
            Ok(d) => d,
            Err(e) => return Err(e),
        },
        None => Dec::zero(),
    };
    let upl = match parse_decimal(a.unrealized_pnl.as_str()) {
        Ok(d) => d,
        Err(e) => return Err(e),
    };
    Ok(
        Position {
            instrument: to_instrument(a.coin.as_str()),
            size: Quantity::new(sz),
            avg_entry_price: Price::new(entry),
            unrealized_pnl: Price::new(upl),
        },
    )
}

/// The account's positions, in listing order; the error of the first entry
/// whose numbers do not parse.
pub fn positions_from(assets: &Vec<HlAssetPosition>) -> (r: Result<Vec<Position>, ConnectorError>)
    ensures
        (forall|k: int| 0 <= k < assets@.len() ==> asset_error(#[trigger] assets@[k]) is None) ==> (r matches Ok(v)
            && v@.len() == assets@.len() && forall|k: int|
            0 <= k < assets@.len() ==> is_asset_position(#[trigger] v@[k], assets@[k])),
        r is Err ==> exists|k: int|
            0 <= k < assets@.len() && (forall|j: int| 0 <= j < k ==> asset_error(#[trigger] assets@[j]) is None)
                && (#[trigger] asset_error(assets@[k]) matches Some(e) && r matches Err(ConnectorError::Other(m))
                && m@ == "decimal parse failed: "@ + e),
{
    let mut out: Vec<Position> = Vec::new();
    let mut i: usize = 0;
    while i < assets.len()
        invariant
            0 <= i <= assets@.len(),
            out@.len() == i,
            forall|j: int| 0 <= j < i ==> asset_error(#[trigger] assets@[j]) is None,
            forall|k: int| 0 <= k < i ==> is_asset_position(#[trigger] out@[k], assets@[k]),
        decreases assets@.len() - i,
    {
        match asset_position(&assets[i]) {
            Ok(p) => out.push(p),
            Err(e) => {
                assert(asset_error(assets@[i as int]) is Some);
                return Err(e);
            },
        }
        i = i + 1;
    }
    Ok(out)
}

/// First parse error of a listed order's price and size, if any.
pub open spec fn open_order_error(o: HlOpenOrder) -> Option<Seq<char>> {
    match decimal_parse(o.limit_px@) {
        Err(e) => Some(e),
        Ok(_) => match decimal_parse(o.sz@) {
            Err(e) => Some(e),
            Ok(_) => None,
        },
    }
}

/// The listed orders on `coin`, in order.
pub open spec fn coin_orders(os: Seq<HlOpenOrder>, coin: Seq<char>) -> Seq<HlOpenOrder>
    decreases os.len(),
{
    if os.len() == 0 {
        Seq::empty()
    } else {
        let prev = coin_orders(os.drop_last(), coin);
        if os.last().coin@ == coin {
            prev.push(os.last())
        } else {
            prev
        }
    }
}

/// `o` is the listed order `h` on `instrument`, nothing filled.
pub open spec fn is_listed_order(o: OpenOrder, h: HlOpenOrder, instrument: InstrumentId) -> bool {
    &&& o.order_id@ == u64_digits(h.oid as nat)
    &&& o.instrument == instrument
    &&& o.side == (if eq_ignore_ascii_case(h.side@, "b"@) || eq_ignore_ascii_case(h.side@, "buy"@) {
        OrderSide::Buy
    } else {
        OrderSide::Sell
    })
    &&& decimal_parse(h.limit_px@) matches Ok(px) && o.price == Price(px)
    &&& decimal_parse(h.sz@) matches Ok(sz) && o.quantity == Quantity(sz)
    &&& o.filled_qty == Quantity(Dec::whole(0))
}

/// The listed orders on the instrument's coin as open orders, in order; the
/// error of the first of them whose numbers do not parse.
pub fn open_orders_from(orders: &Vec<HlOpenOrder>, instrument: &InstrumentId) -> (r: Result<Vec<OpenOrder>, ConnectorError>)
    ensures
        r matches Ok(v) ==> v@.len() == coin_orders(orders@, instrument.symbol@).len() && forall|k: int|
            0 <= k < v@.len() ==> is_listed_order(#[trigger] v@[k], coin_orders(orders@, instrument.symbol@)[k], *instrument),
        r matches Ok(v) ==> forall|k: int| 0 <= k < v@.len() ==> (#[trigger] v@[k]).instrument == *instrument
            && v@[k].filled_qty == Quantity(Dec::whole(0)),
        r matches Ok(v) ==> v@.map_values(|o: OpenOrder| o.order_id@) == coin_order_ids(orders@, instrument.symbol@),
        (forall|k: int| 0 <= k < orders@.len() && #[trigger] orders@[k].coin@ == instrument.symbol@ ==> open_order_error(
            orders@[k],
        ) is None) ==> r is Ok,
        r matches Err(ConnectorError::Other(m)) ==> exists|k: int|
            0 <= k < orders@.len() && #[trigger] orders@[k].coin@ == instrument.symbol@ && (open_order_error(
                orders@[k],
            ) matches Some(e) && m@ == "decimal parse failed: "@ + e),
        r is Err ==> r matches Err(ConnectorError::Other(_)),
{
    let mut out: Vec<OpenOrder> = Vec::new();
    let mut i: usize = 0;
    while i < orders.len()
        invariant
            0 <= i <= orders@.len(),
            forall|k: int| 0 <= k < out@.len() ==> (#[trigger] out@[k]).instrument == *instrument && out@[k].filled_qty
                == Quantity(Dec::whole(0)),
            out@.map_values(|o: OpenOrder| o.order_id@) == coin_order_ids(orders@.take(i as int), instrument.symbol@),
            out@.len() == coin_orders(orders@.take(i as int), instrument.symbol@).len(),
            forall|k: int| 0 <= k < out@.len() ==> is_listed_order(
                #[trigger] out@[k],
                coin_orders(orders@.take(i as int), instrument.symbol@)[k],
                *instrument,
            ),
        decreases orders@.len() - i,
    {
        let o = &orders[i];
        assert(orders@.take(i + 1).drop_last() =~= orders@.take(i as int));
        assert(orders@.take(i + 1).last() == orders@[i as int]);
        let ghost prev = coin_orders(orders@.take(i as int), instrument.symbol@);
        if str_eq(o.coin.as_str(), instrument.symbol.as_str()) {
            let px = match parse_decimal(o.limit_px.as_str()) {
                Ok(d) => d,
                Err(e) => return Err(e),
            };
            let sz = match parse_decimal(o.sz.as_str()) {
                Ok(d) => d,
                Err(e) => return Err(e),
            };
            out.push(
                OpenOrder {
                    order_id: u64_to_string(o.oid),
                    instrument: instrument.clone_id(),
                    side: to_core_side(o.side.as_str()),
                    price: Price::new(px),
                    quantity: Quantity::new(sz),
                    filled_qty: Quantity::zero(),
                },
            );
            assert(out@.map_values(|o: OpenOrder| o.order_id@) =~= coin_order_ids(orders@.take(i as int), instrument.symbol@).push(
                u64_digits(orders@[i as int].oid as nat),
            ));
            assert(coin_orders(orders@.take(i + 1), instrument.symbol@) == prev.push(orders@[i as int]));
            assert forall|k: int| 0 <= k < out@.len() implies is_listed_order(
                #[trigger] out@[k],
                coin_orders(orders@.take(i + 1), instrument.symbol@)[k],
                *instrument,
            ) by {
                if k < out@.len() - 1 {
                    assert(coin_orders(orders@.take(i + 1), instrument.symbol@)[k] == prev[k]);
                }
            }
        } else {
            assert(coin_orders(orders@.take(i + 1), instrument.symbol@) == prev);
        }
        i = i + 1;
    }
    assert(orders@.take(orders@.len() as int) =~= orders@);
    Ok(out)
}

} // verus!
