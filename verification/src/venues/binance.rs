//! Binance USDⓈ-M futures: message normalisation, signed request building,
//! batch order framing and the user-data stream's decisions.

use vstd::prelude::*;
use crate::decimal::{Dec, Price, Quantity, decimal_checked_sub, decimal_display, in_range};
use crate::text::{copy_string, json_quote, json_str, owned, push_char, str_eq, str_trim, trim, u64_digits, u64_to_string};
use crate::types::error::ConnectorError;
use crate::types::event::Event;
use crate::types::instrument::{Exchange, InstrumentId, InstrumentKind};
use crate::types::market_data::OrderbookSnapshot;
use crate::types::order::{OpenOrder, OrderRequest, OrderSide, OrderStatus, OrderUpdate, TimeInForce};
use crate::types::position::{Fill, Position};

pub use crate::clock::utc_now_ns as now_ns;

verus! {

// ── messages ───────────────────────────────────────────────────────────────

/// Best bid and offer of the `bookTicker` stream; times in milliseconds.
#[derive(Clone, Copy, Debug)]
pub struct BookTickerMsg {
    pub best_bid: Dec,
    pub best_bid_qty: Dec,
    pub best_ask: Dec,
    pub best_ask_qty: Dec,
    pub trade_time: u64,
    pub event_time: u64,
}

/// Event type of a user-data stream message.
#[derive(Clone, Debug)]
pub struct UserDataEnvelope {
    pub event_type: String,
}

/// An `ORDER_TRADE_UPDATE` message.
#[derive(Clone, Debug)]
pub struct OrderTradeUpdate {
    pub transaction_time: u64,
    pub order: OrderUpdateInner,
}

#[derive(Clone, Debug)]
pub struct OrderUpdateInner {
    pub symbol: String,
    pub order_id: u64,
    pub side: String,
    pub order_status: String,
    pub last_qty: Dec,
    pub last_price: Dec,
    pub cum_qty: Dec,
    pub avg_price: Dec,
    pub orig_qty: Dec,
    pub commission: Dec,
}

/// Reply to an order placement.
#[derive(Clone, Debug)]
pub struct PlaceOrderResponse {
    pub order_id: u64,
    pub client_order_id: String,
    pub status: String,
    pub avg_price: Dec,
    pub executed_qty: Dec,
    pub orig_qty: Dec,
}

/// One entry of a batch placement reply.
#[derive(Clone, Debug)]
pub enum BatchOrderResult {
    /// The order was placed.
    Placed(PlaceOrderResponse),
    /// The order was refused, with the venue's code and message.
    Refused { code: i64, msg: String },
}

#[derive(Clone, Debug)]
pub struct OpenOrderResponse {
    pub order_id: u64,
    pub symbol: String,
    pub side: String,
    pub price: Dec,
    pub orig_qty: Dec,
    pub executed_qty: Dec,
}

#[derive(Clone, Debug)]
pub struct PositionRiskResponse {
    pub symbol: String,
    pub position_amt: Dec,
    pub entry_price: Dec,
    pub unrealized_profit: Dec,
}

#[derive(Clone, Debug)]
pub struct ListenKeyResponse {
    pub listen_key: String,
}

// ── normalisation ──────────────────────────────────────────────────────────

/// A one-level snapshot of the ticker, stamped with its trade time in
/// nanoseconds; returns the time too.
pub fn book_ticker_to_snapshot(msg: &BookTickerMsg) -> (r: (OrderbookSnapshot, u64))
    requires
        msg.trade_time * 1_000_000 <= u64::MAX,
    ensures
        r.1 == msg.trade_time * 1_000_000,
        r.0.bids@ == seq![(Price(msg.best_bid), Quantity(msg.best_bid_qty))],
        r.0.asks@ == seq![(Price(msg.best_ask), Quantity(msg.best_ask_qty))],
        r.0.timestamp_ns == r.1,
{
    let ts = msg.trade_time * 1_000_000;
    let mut bids: Vec<(Price, Quantity)> = Vec::new();
    bids.push((Price::new(msg.best_bid), Quantity::new(msg.best_bid_qty)));
    let mut asks: Vec<(Price, Quantity)> = Vec::new();
    asks.push((Price::new(msg.best_ask), Quantity::new(msg.best_ask_qty)));
    (OrderbookSnapshot { bids, asks, timestamp_ns: ts }, ts)
}

pub open spec fn order_status_spec(s: Seq<char>) -> OrderStatus {
    if s == "NEW"@ {
        OrderStatus::Acknowledged
    } else if s == "PARTIALLY_FILLED"@ {
        OrderStatus::PartiallyFilled
    } else if s == "FILLED"@ {
        OrderStatus::Filled
    } else if s == "CANCELED"@ || s == "EXPIRED"@ || s == "EXPIRED_IN_MATCH"@ {
        OrderStatus::Cancelled
    } else if s == "REJECTED"@ {
        OrderStatus::Rejected
    } else {
        OrderStatus::Acknowledged
    }
}

/// Status of a venue status text; an unknown one counts as acknowledged.
pub fn order_status(s: &str) -> (r: OrderStatus)
    ensures
        r == order_status_spec(s@),
{
    if str_eq(s, "NEW") {
        OrderStatus::Acknowledged
    } else if str_eq(s, "PARTIALLY_FILLED") {
        OrderStatus::PartiallyFilled
    } else if str_eq(s, "FILLED") {
        OrderStatus::Filled
    } else if str_eq(s, "CANCELED") || str_eq(s, "EXPIRED") || str_eq(s, "EXPIRED_IN_MATCH") {
        OrderStatus::Cancelled
    } else if str_eq(s, "REJECTED") {
        OrderStatus::Rejected
    } else {
        OrderStatus::Acknowledged
    }
}

pub open spec fn order_side_spec(s: Seq<char>) -> OrderSide {
    if s == "BUY"@ {
        OrderSide::Buy
    } else {
        OrderSide::Sell
    }
}

/// `Buy` for `"BUY"`, `Sell` for anything else.
pub fn order_side(s: &str) -> (r: OrderSide)
    ensures
        r == order_side_spec(s@),
{
    if str_eq(s, "BUY") {
        OrderSide::Buy
    } else {
        OrderSide::Sell
    }
}

/// Quantity left: original minus filled, not below zero (`Ord::max` with zero).
pub open spec fn remaining_spec(orig: Dec, done: Dec) -> Dec {
    Dec::ord_max(decimal_checked_sub(orig, done)->0, Dec::whole(0))
}

/// An average price when positive.
pub open spec fn avg_if_positive(avg: Dec) -> Option<Price> {
    if avg.value() > 0 {
        Some(Price(avg))
    } else {
        None
    }
}

/// The remaining quantity of an update is never negative.
pub proof fn law_remaining_never_negative(orig: Dec, done: Dec)
    ensures
        remaining_spec(orig, done).value() >= 0,
{
    Dec::lemma_whole(0);
}

fn remaining_of(orig: Dec, done: Dec) -> (r: Dec)
    requires
        in_range(orig.value() - done.value()),
    ensures
        r == remaining_spec(orig, done),
{
    orig.sub(done).max(Dec::zero())
}

fn avg_of(avg: Dec) -> (r: Option<Price>)
    ensures
        r == avg_if_positive(avg),
{
    if avg.gt(&Dec::zero()) {
        Some(Price::new(avg))
    } else {
        None
    }
}

/// `u` is the update a placement reply stands for, stamped `ts_ns`.
pub open spec fn is_place_update(u: OrderUpdate, instrument: InstrumentId, resp: PlaceOrderResponse, ts_ns: u64) -> bool {
    &&& u.instrument == instrument
    &&& u.order_id@ == u64_digits(resp.order_id as nat)
    &&& u.status == order_status_spec(resp.status@)
    &&& u.filled_qty == Quantity(resp.executed_qty)
    &&& u.remaining_qty == Quantity(remaining_spec(resp.orig_qty, resp.executed_qty))
    &&& u.avg_fill_price == avg_if_positive(resp.avg_price)
    &&& u.timestamp_ns == ts_ns
}

/// The placement reply as an order update stamped `ts_ns`.
pub fn place_to_update_at(instrument: &InstrumentId, resp: &PlaceOrderResponse, ts_ns: u64) -> (r: OrderUpdate)
    requires
        in_range(resp.orig_qty.value() - resp.executed_qty.value()),
    ensures
        is_place_update(r, *instrument, *resp, ts_ns),
{
    OrderUpdate {
        instrument: instrument.clone_id(),
        order_id: u64_to_string(resp.order_id),
        status: order_status(resp.status.as_str()),
        filled_qty: Quantity::new(resp.executed_qty),
        remaining_qty: Quantity::new(remaining_of(resp.orig_qty, resp.executed_qty)),
        avg_fill_price: avg_of(resp.avg_price),
        timestamp_ns: ts_ns,
    }
}

/// The placement reply as an order update stamped now.
pub fn place_to_update(instrument: &InstrumentId, resp: &PlaceOrderResponse) -> (r: OrderUpdate)
    requires
        in_range(resp.orig_qty.value() - resp.executed_qty.value()),
    ensures
        is_place_update(r, *instrument, *resp, r.timestamp_ns),
{
    place_to_update_at(instrument, resp, now_ns())
}

/// `u` is the update an order-trade message stands for, stamped `ts_ns`.
pub open spec fn is_ws_update(u: OrderUpdate, instrument: InstrumentId, inner: OrderUpdateInner, ts_ns: u64) -> bool {
    &&& u.instrument == instrument
    &&& u.order_id@ == u64_digits(inner.order_id as nat)
    &&& u.status == order_status_spec(inner.order_status@)
    &&& u.filled_qty == Quantity(inner.cum_qty)
    &&& u.remaining_qty == Quantity(remaining_spec(inner.orig_qty, inner.cum_qty))
    &&& u.avg_fill_price == avg_if_positive(inner.avg_price)
    &&& u.timestamp_ns == ts_ns
}

pub fn ws_order_update_at(instrument: &InstrumentId, inner: &OrderUpdateInner, ts_ns: u64) -> (r: OrderUpdate)
    requires
        in_range(inner.orig_qty.value() - inner.cum_qty.value()),
    ensures
        is_ws_update(r, *instrument, *inner, ts_ns),
{
    OrderUpdate {
        instrument: instrument.clone_id(),
        order_id: u64_to_string(inner.order_id),
        status: order_status(inner.order_status.as_str()),
        filled_qty: Quantity::new(inner.cum_qty),
        remaining_qty: Quantity::new(remaining_of(inner.orig_qty, inner.cum_qty)),
        avg_fill_price: avg_of(inner.avg_price),
        timestamp_ns: ts_ns,
    }
}

/// The order-trade message as an order update stamped now.
pub fn ws_order_update(instrument: &InstrumentId, inner: &OrderUpdateInner) -> (r: OrderUpdate)
    requires
        in_range(inner.orig_qty.value() - inner.cum_qty.value()),
    ensures
        is_ws_update(r, *instrument, *inner, r.timestamp_ns),
{
    ws_order_update_at(instrument, inner, now_ns())
}

/// `f` is the fill of the message's last trade, stamped `ts_ns`.
pub open spec fn is_ws_fill(f: Fill, instrument: InstrumentId, inner: OrderUpdateInner, ts_ns: u64) -> bool {
    &&& f.order_id@ == u64_digits(inner.order_id as nat)
    &&& f.instrument == instrument
    &&& f.side == order_side_spec(inner.side@)
    &&& f.price == Price(inner.last_price)
    &&& f.quantity == Quantity(inner.last_qty)
    &&& f.fee == Price(inner.commission)
    &&& f.timestamp_ns == ts_ns
}

pub fn ws_fill_at(instrument: &InstrumentId, inner: &OrderUpdateInner, ts_ns: u64) -> (r: Fill)
    ensures
        is_ws_fill(r, *instrument, *inner, ts_ns),
{
    Fill {
        order_id: u64_to_string(inner.order_id),
        instrument: instrument.clone_id(),
        side: order_side(inner.side.as_str()),
        price: Price::new(inner.last_price),
        quantity: Quantity::new(inner.last_qty),
        fee: Price::new(inner.commission),
        timestamp_ns: ts_ns,
    }
}

/// The fill of the message's last trade, stamped now.
pub fn ws_fill(instrument: &InstrumentId, inner: &OrderUpdateInner) -> (r: Fill)
    ensures
        is_ws_fill(r, *instrument, *inner, r.timestamp_ns),
{
    ws_fill_at(instrument, inner, now_ns())
}

/// A position report as a position; `None` for a zero amount.
pub fn position_from_risk(instrument: &InstrumentId, resp: &PositionRiskResponse) -> (r: Option<Position>)
    ensures
        resp.position_amt.value() == 0 ==> r is None,
        resp.position_amt.value() != 0 ==> r == Some(
            Position {
                instrument: *instrument,
                size: Quantity(resp.position_amt),
                avg_entry_price: Price(resp.entry_price),
                unrealized_pnl: Price(resp.unrealized_profit),
            },
        ),
{
    if resp.position_amt.is_zero() {
        return None;
    }
    Some(
        Position {
            instrument: instrument.clone_id(),
            size: Quantity::new(resp.position_amt),
            avg_entry_price: Price::new(resp.entry_price),
            unrealized_pnl: Price::new(resp.unrealized_profit),
        },
    )
}

/// A listed open order.
pub fn open_order_from_rest(instrument: &InstrumentId, resp: &OpenOrderResponse) -> (r: OpenOrder)
    ensures
        r.order_id@ == u64_digits(resp.order_id as nat),
        r.instrument == *instrument,
        r.side == order_side_spec(resp.side@),
        r.price == Price(resp.price),
        r.quantity == Quantity(resp.orig_qty),
        r.filled_qty == Quantity(resp.executed_qty),
{
    OpenOrder {
        order_id: u64_to_string(resp.order_id),
        instrument: instrument.clone_id(),
        side: order_side(resp.side.as_str()),
        price: Price::new(resp.price),
        quantity: Quantity::new(resp.orig_qty),
        filled_qty: Quantity::new(resp.executed_qty),
    }
}

/// What the user-data stream publishes for a message: for an
/// `ORDER_TRADE_UPDATE` that parsed, its order update, then its fill when the
/// last traded quantity is positive; nothing for any other message.
pub fn on_user_data(event_type: &str, update: Option<&OrderTradeUpdate>, instrument: &InstrumentId, ts_ns: u64) -> (r:
    Vec<Event>)
    requires
        update matches Some(u) ==> in_range(u.order.orig_qty.value() - u.order.cum_qty.value()),
    ensures
        (event_type@ != "ORDER_TRADE_UPDATE"@ || update is None) ==> r@.len() == 0,
        event_type@ == "ORDER_TRADE_UPDATE"@ && update is Some ==> ({
            let inner = update->0.order;
            &&& r@.len() == (if inner.last_qty.value() > 0 {
                2int
            } else {
                1int
            })
            &&& (r@[0] matches Event::OrderUpdate { instrument: i, update: u } && i == *instrument && is_ws_update(
                u,
                *instrument,
                inner,
                ts_ns,
            ))
            &&& inner.last_qty.value() > 0 ==> (r@[1] matches Event::Fill { instrument: i, fill: f } && i
                == *instrument && is_ws_fill(f, *instrument, inner, ts_ns))
        }),
{
    let mut out: Vec<Event> = Vec::new();
    if !str_eq(event_type, "ORDER_TRADE_UPDATE") {
        return out;
    }
    let u = match update {
        Some(u) => u,
        None => return out,
    };
    let inner = &u.order;
    let upd = ws_order_update_at(instrument, inner, ts_ns);
    out.push(Event::OrderUpdate { instrument: instrument.clone_id(), update: upd });
    if inner.last_qty.gt(&Dec::zero()) {
        let f = ws_fill_at(instrument, inner, ts_ns);
        out.push(Event::Fill { instrument: instrument.clone_id(), fill: f });
    }
    out
}

// ── signed requests ────────────────────────────────────────────────────────

pub const MAINNET_REST: &'static str = "https://fapi.binance.com";

pub const TESTNET_REST: &'static str = "https://testnet.binancefuture.com";

pub const MAINNET_WS: &'static str = "wss://fstream.binance.com/ws";

pub const TESTNET_WS: &'static str = "wss://stream.binancefuture.com/ws";

/// Milliseconds a signed request stays valid.
pub const RECV_WINDOW: u64 = 5000;

/// Seconds between renewals of the user-data listen key.
pub const LISTEN_KEY_RENEW_SECS: u64 = 1800;

/// HMAC-SHA256 of `msg` under `key` (the `hmac` crate over `sha2`).
pub uninterp spec fn hmac_sha256_spec(key: Seq<u8>, msg: Seq<u8>) -> Seq<u8>;

/// `Hmac::<Sha256>::new_from_slice(key)` (which takes a key of any length),
/// `update(msg)`, `finalize().into_bytes()`: the 32-byte HMAC-SHA256 tag.
#[verifier::external_body]
fn hmac_sha256(key: &[u8], msg: &[u8]) -> (r: Vec<u8>)
    ensures
        r@ == hmac_sha256_spec(key@, msg@),
        r@.len() == 32,
{
    let mut mac = <hmac::Hmac<sha2::Sha256> as hmac::Mac>::new_from_slice(key).expect("HMAC accepts any key length");
    hmac::Mac::update(&mut mac, msg);
    hmac::Mac::finalize(mac).into_bytes().to_vec()
}

/// Lowercase hex digit of `d < 16`.
pub open spec fn hex_lower_digit(d: u8) -> char {
    if d < 10 {
        (48 + d) as char
    } else {
        (87 + d) as char
    }
}

/// Each byte as two lowercase hex digits.
pub open spec fn hex_lower(bs: Seq<u8>) -> Seq<char>
    decreases bs.len(),
{
    if bs.len() == 0 {
        Seq::empty()
    } else {
        hex_lower(bs.drop_last()) + seq![hex_lower_digit(bs.last() / 16), hex_lower_digit(bs.last() % 16)]
    }
}

fn hex_lower_char(d: u8) -> (r: char)
    requires
        d < 16,
    ensures
        r == hex_lower_digit(d),
{
    if d < 10 {
        (48 + d) as char
    } else {
        (87 + d) as char
    }
}

/// Each byte as two lowercase hex digits, as `hex::encode` writes them.
fn hex_encode(bytes: &[u8]) -> (r: String)
    ensures
        r@ == hex_lower(bytes@),
{
    let mut out = String::new();
    let mut i: usize = 0;
    while i < bytes.len()
        invariant
            0 <= i <= bytes@.len(),
            out@ == hex_lower(bytes@.take(i as int)),
        decreases bytes@.len() - i,
    {
        let b = bytes[i];
        assert(bytes@.take(i + 1).drop_last() =~= bytes@.take(i as int));
        assert(bytes@.take(i + 1).last() == b);
        push_char(&mut out, hex_lower_char(b / 16));
        push_char(&mut out, hex_lower_char(b % 16));
        assert(out@ =~= hex_lower(bytes@.take(i + 1)));
        i = i + 1;
    }
    assert(bytes@.take(bytes@.len() as int) =~= bytes@);
    out
}

/// Signature of `data` under `secret`: HMAC-SHA256 of the UTF-8 bytes, in
/// lowercase hex.
pub fn sign(secret: &str, data: &str) -> (r: String)
    ensures
        r@ == hex_lower(hmac_sha256_spec(utf8_of(secret@), utf8_of(data@))),
{
    let tag = hmac_sha256(secret.as_bytes(), data.as_bytes());
    hex_encode(tag.as_slice())
}

/// `"{params}&timestamp={ts}&recvWindow=5000"`; without the leading part and
/// its `&` when `params` is empty and `keep_empty` is off.
pub open spec fn with_timestamp_spec(params: Seq<char>, ts: u64, keep_empty: bool) -> Seq<char> {
    let tail = "timestamp="@ + u64_digits(ts as nat) + "&recvWindow=5000"@;
    if params.len() == 0 && !keep_empty {
        tail
    } else {
        params + "&"@ + tail
    }
}

fn with_timestamp(params: &str, ts: u64, keep_empty: bool) -> (r: String)
    ensures
        r@ == with_timestamp_spec(params@, ts, keep_empty),
{
    let mut tail = owned("timestamp=");
    tail.append(u64_to_string(ts).as_str());
    tail.append("&recvWindow=5000");
    if params.is_empty() && !keep_empty {
        tail
    } else {
        let mut s = owned(params);
        s.append("&");
        s.append(tail.as_str());
        s
    }
}

/// UTF-8 bytes of a text.
pub open spec fn utf8_of(s: Seq<char>) -> Seq<u8> {
    vstd::utf8::encode_utf8(s)
}

/// URL of a signed GET (`keep_empty` off) or DELETE (`keep_empty` on):
/// `"{base}/{path}?{query}&signature={sig}"`, the query carrying the time.
pub fn signed_url(base: &str, path: &str, params: &str, secret: &str, ts: u64, keep_empty: bool) -> (r: String)
    ensures
        r@ == base@ + "/"@ + path@ + "?"@ + with_timestamp_spec(params@, ts, keep_empty) + "&signature="@
            + hex_lower(hmac_sha256_spec(utf8_of(secret@), utf8_of(with_timestamp_spec(params@, ts, keep_empty)))),
{
    let query = with_timestamp(params, ts, keep_empty);
    let sig = sign(secret, query.as_str());
    let mut url = owned(base);
    url.append("/");
    url.append(path);
    url.append("?");
    url.append(query.as_str());
    url.append("&signature=");
    url.append(sig.as_str());
    url
}

/// Body of a signed POST: `"{body}&timestamp={ts}&recvWindow=5000&signature={sig}"`.
pub fn signed_body(body: &str, secret: &str, ts: u64) -> (r: String)
    ensures
        r@ == with_timestamp_spec(body@, ts, true) + "&signature="@ + hex_lower(
            hmac_sha256_spec(utf8_of(secret@), utf8_of(with_timestamp_spec(body@, ts, true))),
        ),
{
    let body_ts = with_timestamp(body, ts, true);
    let sig = sign(secret, body_ts.as_str());
    let mut s = body_ts;
    s.append("&signature=");
    s.append(sig.as_str());
    s
}

// ── orders ─────────────────────────────────────────────────────────────────

pub open spec fn side_text(side: OrderSide) -> Seq<char> {
    match side {
        OrderSide::Buy => "BUY"@,
        OrderSide::Sell => "SELL"@,
    }
}

pub open spec fn tif_text(tif: TimeInForce) -> Seq<char> {
    match tif {
        TimeInForce::PostOnly => "GTX"@,
        TimeInForce::Gtc => "GTC"@,
        TimeInForce::Ioc => "IOC"@,
    }
}

pub fn side_str(side: OrderSide) -> (r: &'static str)
    ensures
        r@ == side_text(side),
{
    match side {
        OrderSide::Buy => "BUY",
        OrderSide::Sell => "SELL",
    }
}

/// Time in force as the venue names it: post-only is `GTX`.
pub fn tif_str(tif: TimeInForce) -> (r: &'static str)
    ensures
        r@ == tif_text(tif),
{
    match tif {
        TimeInForce::PostOnly => "GTX",
        TimeInForce::Gtc => "GTC",
        TimeInForce::Ioc => "IOC",
    }
}

/// Parameters of a limit order.
pub open spec fn order_params_spec(symbol: Seq<char>, req: OrderRequest) -> Seq<char> {
    "symbol="@ + symbol + "&side="@ + side_text(req.side) + "&type=LIMIT&timeInForce="@ + tif_text(req.tif)
        + "&quantity="@ + decimal_display(req.quantity.dec()) + "&price="@ + decimal_display(req.price.dec())
}

pub fn build_order_params(symbol: &str, req: &OrderRequest) -> (r: String)
    ensures
        r@ == order_params_spec(symbol@, *req),
{
    let mut s = owned("symbol=");
    s.append(symbol);
    s.append("&side=");
    s.append(side_str(req.side));
    s.append("&type=LIMIT&timeInForce=");
    s.append(tif_str(req.tif));
    s.append("&quantity=");
    s.append(req.quantity.to_string().as_str());
    s.append("&price=");
    s.append(req.price.to_string().as_str());
    s
}

/// Parameters of the replacement order of a modify: a post-only buy.
pub fn modify_params(symbol: &str, new_price: Price, new_qty: Quantity) -> (r: String)
    ensures
        r@ == "symbol="@ + symbol@ + "&side=BUY&type=LIMIT&timeInForce=GTX&quantity="@ + decimal_display(
            new_qty.dec(),
        ) + "&price="@ + decimal_display(new_price.dec()),
{
    let mut s = owned("symbol=");
    s.append(symbol);
    s.append("&side=BUY&type=LIMIT&timeInForce=GTX&quantity=");
    s.append(new_qty.to_string().as_str());
    s.append("&price=");
    s.append(new_price.to_string().as_str());
    s
}

/// Parameters naming an order of the symbol.
pub fn cancel_params(symbol: &str, order_id: &str) -> (r: String)
    ensures
        r@ == "symbol="@ + symbol@ + "&orderId="@ + order_id@,
{
    let mut s = owned("symbol=");
    s.append(symbol);
    s.append("&orderId=");
    s.append(order_id);
    s
}

/// Parameters naming the symbol.
pub fn symbol_params(symbol: &str) -> (r: String)
    ensures
        r@ == "symbol="@ + symbol@,
{
    let mut s = owned("symbol=");
    s.append(symbol);
    s
}

// ── batches ────────────────────────────────────────────────────────────────

/// Most orders in one batch request.
pub const BATCH_MAX: usize = 5;

/// Bytes left as they are in a form value: letters, digits and `-_.~,:"`.
pub open spec fn url_safe(b: u8) -> bool {
    (65 <= b <= 90) || (97 <= b <= 122) || (48 <= b <= 57) || b == 45 || b == 95 || b == 46 || b == 126 || b == 44
        || b == 58 || b == 34
}

/// Uppercase hex digit of `d < 16`.
pub open spec fn hex_upper_digit(d: u8) -> char {
    if d < 10 {
        (48 + d) as char
    } else {
        (55 + d) as char
    }
}

/// A byte as form text: itself when safe, else `%` and two uppercase hex digits.
pub open spec fn encode_byte(b: u8) -> Seq<char> {
    if url_safe(b) {
        seq![b as char]
    } else {
        seq!['%', hex_upper_digit(b / 16), hex_upper_digit(b % 16)]
    }
}

pub open spec fn url_encoded(bs: Seq<u8>) -> Seq<char>
    decreases bs.len(),
{
    if bs.len() == 0 {
        Seq::empty()
    } else {
        url_encoded(bs.drop_last()) + encode_byte(bs.last())
    }
}

fn hex_upper_char(d: u8) -> (r: char)
    requires
        d < 16,
    ensures
        r == hex_upper_digit(d),
{
    if d < 10 {
        (48 + d) as char
    } else {
        (55 + d) as char
    }
}

/// Percent-encoding of the UTF-8 bytes of `s`, keeping the safe bytes.
pub fn urlencoding_simple(s: &str) -> (r: String)
    ensures
        r@ == url_encoded(utf8_of(s@)),
{
    let bytes = s.as_bytes();
    let ghost bs = bytes@;
    assert(bs == utf8_of(s@));
    let mut out = String::new();
    let mut i: usize = 0;
    while i < bytes.len()
        invariant
            0 <= i <= bs.len(),
            bs == bytes@,
            out@ == url_encoded(bs.take(i as int)),
        decreases bs.len() - i,
    {
        let b = bytes[i];
        assert(bs.take(i + 1).drop_last() =~= bs.take(i as int));
        assert(bs.take(i + 1).last() == b);
        let safe = (65 <= b && b <= 90) || (97 <= b && b <= 122) || (48 <= b && b <= 57) || b == 45 || b == 95
            || b == 46 || b == 126 || b == 44 || b == 58 || b == 34;
        if safe {
            push_char(&mut out, b as char);
        } else {
            push_char(&mut out, '%');
            push_char(&mut out, hex_upper_char(b / 16));
            push_char(&mut out, hex_upper_char(b % 16));
        }
        assert(out@ =~= url_encoded(bs.take(i + 1)));
        i = i + 1;
    }
    assert(bs.take(bs.len() as int) =~= bs);
    out
}

/// One order of a batch as a JSON object, keys in sorted order.
pub open spec fn batch_order_json(symbol: Seq<char>, req: OrderRequest) -> Seq<char> {
    "{\"price\":"@ + json_str(decimal_display(req.price.dec())) + ",\"quantity\":"@ + json_str(
        decimal_display(req.quantity.dec()),
    ) + ",\"side\":"@ + json_str(side_text(req.side)) + ",\"symbol\":"@ + json_str(symbol)
        + ",\"timeInForce\":"@ + json_str(tif_text(req.tif)) + ",\"type\":"@ + json_str("LIMIT"@) + "}"@
}

/// The orders of a batch as a JSON array.
pub open spec fn batch_json(symbol: Seq<char>, reqs: Seq<OrderRequest>) -> Seq<char>
    decreases reqs.len(),
{
    if reqs.len() == 0 {
        "["@
    } else if reqs.len() == 1 {
        "["@ + batch_order_json(symbol, reqs[0])
    } else {
        batch_json(symbol, reqs.drop_last()) + ","@ + batch_order_json(symbol, reqs.last())
    }
}

fn batch_order_json_of(symbol: &str, req: &OrderRequest) -> (r: String)
    ensures
        r@ == batch_order_json(symbol@, *req),
{
    let mut s = owned("{\"price\":");
    s.append(json_quote(req.price.to_string().as_str()).as_str());
    s.append(",\"quantity\":");
    s.append(json_quote(req.quantity.to_string().as_str()).as_str());
    s.append(",\"side\":");
    s.append(json_quote(side_str(req.side)).as_str());
    s.append(",\"symbol\":");
    s.append(json_quote(symbol).as_str());
    s.append(",\"timeInForce\":");
    s.append(json_quote(tif_str(req.tif)).as_str());
    s.append(",\"type\":");
    s.append(json_quote("LIMIT").as_str());
    s.append("}");
    s
}

/// Body of a batch placement: `"batchOrders="` and the form-encoded JSON array
/// of the orders.
pub fn batch_body(symbol: &str, reqs: &Vec<OrderRequest>) -> (r: String)
    ensures
        r@ == "batchOrders="@ + url_encoded(utf8_of(batch_json(symbol@, reqs@) + "]"@)),
{
    let mut json = owned("[");
    let mut i: usize = 0;
    while i < reqs.len()
        invariant
            0 <= i <= reqs@.len(),
            json@ == batch_json(symbol@, reqs@.take(i as int)),
        decreases reqs@.len() - i,
    {
        assert(reqs@.take(i + 1).drop_last() =~= reqs@.take(i as int));
        assert(reqs@.take(i + 1).last() == reqs@[i as int]);
        if i > 0 {
            json.append(",");
        }
        json.append(batch_order_json_of(symbol, &reqs[i]).as_str());
        i = i + 1;
    }
    assert(reqs@.take(reqs@.len() as int) =~= reqs@);
    json.append("]");
    let mut body = owned("batchOrders=");
    body.append(urlencoding_simple(json.as_str()).as_str());
    body
}

/// How a batch of orders is sent: nothing for no order, one `batchOrders`
/// call for up to five, one placement after the other beyond five.
#[derive(Clone, Copy, Debug, PartialEq, Eq, Structural)]
pub enum BatchPlan {
    Nothing,
    OneBatch,
    Sequential,
}

/// The way `n` orders are placed.
pub fn batch_plan(n: usize) -> (r: BatchPlan)
    ensures
        n == 0 ==> r == BatchPlan::Nothing,
        0 < n <= BATCH_MAX ==> r == BatchPlan::OneBatch,
        n > BATCH_MAX ==> r == BatchPlan::Sequential,
{
    if n == 0 {
        BatchPlan::Nothing
    } else if n <= BATCH_MAX {
        BatchPlan::OneBatch
    } else {
        BatchPlan::Sequential
    }
}

pub open spec fn is_batch_outcome(r: Result<String, ConnectorError>, e: BatchOrderResult) -> bool {
    match e {
        BatchOrderResult::Placed(resp) => r matches Ok(id) && id@ == u64_digits(resp.order_id as nat),
        BatchOrderResult::Refused { code, msg } => r matches Err(ConnectorError::OrderRejected(m)) && m@
            == "code="@ + crate::text::i64_digits(code) + ": "@ + msg@,
    }
}

/// A placed entry's remaining quantity computes without overflow.
pub open spec fn batch_entry_fits(e: BatchOrderResult) -> bool {
    match e {
        BatchOrderResult::Placed(resp) => in_range(resp.orig_qty.value() - resp.executed_qty.value()),
        BatchOrderResult::Refused { .. } => true,
    }
}

/// Outcomes of a batch reply, entry by entry up to the number of orders sent,
/// and the order update of each placed one (stamped `ts_ns`), in order.
/// The placement replies among `rs`, in order.
pub open spec fn placed_replies(rs: Seq<BatchOrderResult>) -> Seq<PlaceOrderResponse>
    decreases rs.len(),
{
    if rs.len() == 0 {
        Seq::empty()
    } else {
        let prev = placed_replies(rs.drop_last());
        match rs.last() {
            BatchOrderResult::Placed(resp) => prev.push(resp),
            BatchOrderResult::Refused { .. } => prev,
        }
    }
}

/// Outcome of each request of a batch, zipped with the replies (the shorter
/// decides the count), and the order update of each placed order, in order.
pub fn batch_outcomes(instrument: &InstrumentId, results: &Vec<BatchOrderResult>, n_reqs: usize, ts_ns: u64) -> (r: (
    Vec<Result<String, ConnectorError>>,
    Vec<OrderUpdate>,
))
    requires
        forall|k: int| 0 <= k < results@.len() ==> batch_entry_fits(#[trigger] results@[k]),
    ensures
        r.0@.len() == (if results@.len() < n_reqs {
            results@.len() as int
        } else {
            n_reqs as int
        }),
        forall|k: int| 0 <= k < r.0@.len() ==> is_batch_outcome(#[trigger] r.0@[k], results@[k]),
        r.1@.len() == placed_replies(results@.take(r.0@.len() as int)).len(),
        forall|j: int| 0 <= j < r.1@.len() ==> is_place_update(
            #[trigger] r.1@[j],
            *instrument,
            placed_replies(results@.take(r.0@.len() as int))[j],
            ts_ns,
        ),
{
    let mut outs: Vec<Result<String, ConnectorError>> = Vec::new();
    let mut updates: Vec<OrderUpdate> = Vec::new();
    let mut i: usize = 0;
    while i < results.len() && i < n_reqs
        invariant
            0 <= i <= results@.len(),
            i <= n_reqs,
            outs@.len() == i,
            forall|k: int| 0 <= k < results@.len() ==> batch_entry_fits(#[trigger] results@[k]),
            forall|k: int| 0 <= k < i ==> is_batch_outcome(#[trigger] outs@[k], results@[k]),
            updates@.len() == placed_replies(results@.take(i as int)).len(),
            forall|j: int| 0 <= j < updates@.len() ==> is_place_update(
                #[trigger] updates@[j],
                *instrument,
                placed_replies(results@.take(i as int))[j],
                ts_ns,
            ),
        decreases results@.len() - i,
    {
        assert(results@.take(i + 1).drop_last() =~= results@.take(i as int));
        assert(results@.take(i + 1).last() == results@[i as int]);
        let ghost prev = placed_replies(results@.take(i as int));
        match &results[i] {
            BatchOrderResult::Placed(resp) => {
                assert(batch_entry_fits(results@[i as int]));
                updates.push(place_to_update_at(instrument, resp, ts_ns));
                outs.push(Ok(u64_to_string(resp.order_id)));
                assert(placed_replies(results@.take(i + 1)) == prev.push(*resp));
                assert forall|j: int| 0 <= j < updates@.len() implies is_place_update(
                    #[trigger] updates@[j],
                    *instrument,
                    placed_replies(results@.take(i + 1))[j],
                    ts_ns,
                ) by {
                    if j < updates@.len() - 1 {
                        assert(placed_replies(results@.take(i + 1))[j] == prev[j]);
                    }
                }
            },
            BatchOrderResult::Refused { code, msg } => {
                let mut m = owned("code=");
                m.append(crate::text::i64_to_string(*code).as_str());
                m.append(": ");
                m.append(msg.as_str());
                outs.push(Err(ConnectorError::OrderRejected(m)));
                assert(placed_replies(results@.take(i + 1)) == prev);
            },
        }
        i = i + 1;
    }
    (outs, updates)
}

/// Every order of a batch whose request failed: `"batch place: {error}"`.
pub fn batch_failed(n: usize, error: &str) -> (r: Vec<Result<String, ConnectorError>>)
    ensures
        r@.len() == n,
        forall|k: int| 0 <= k < n ==> (#[trigger] r@[k] matches Err(ConnectorError::Other(m)) && m@ == "batch place: "@
            + error@),
{
    let mut out: Vec<Result<String, ConnectorError>> = Vec::new();
    let mut i: usize = 0;
    while i < n
        invariant
            0 <= i <= n,
            out@.len() == i,
            forall|k: int| 0 <= k < i ==> (#[trigger] out@[k] matches Err(ConnectorError::Other(m)) && m@
                == "batch place: "@ + error@),
        decreases n - i,
    {
        let mut m = owned("batch place: ");
        m.append(error);
        out.push(Err(ConnectorError::Other(m)));
        i = i + 1;
    }
    out
}

// ── client and feed ────────────────────────────────────────────────────────

/// What the client keeps: venue, credentials (trimmed), symbol and instrument.
pub struct BinanceClient {
    pub base_url: &'static str,
    pub api_key: String,
    pub secret: String,
    pub symbol: String,
    pub instrument: InstrumentId,
}

impl BinanceClient {
    /// A client for a perpetual `symbol`, on the test network when `testnet`.
    pub fn new(api_key: &str, secret: &str, symbol: &str, testnet: bool) -> (r: BinanceClient)
        ensures
            r.base_url@ == (if testnet {
                TESTNET_REST@
            } else {
                MAINNET_REST@
            }),
            r.api_key@ == str_trim(api_key@),
            r.secret@ == str_trim(secret@),
            r.symbol@ == symbol@,
            r.instrument.exchange == Exchange::Binance,
            r.instrument.kind == InstrumentKind::Perpetual,
            r.instrument.symbol@ == symbol@,
    {
        BinanceClient {
            base_url: if testnet {
                TESTNET_REST
            } else {
                MAINNET_REST
            },
            api_key: owned(trim(api_key)),
            secret: owned(trim(secret)),
            symbol: owned(symbol),
            instrument: InstrumentId::new(Exchange::Binance, InstrumentKind::Perpetual, owned(symbol)),
        }
    }

    pub fn instrument(&self) -> (r: InstrumentId)
        ensures
            r == self.instrument,
    {
        self.instrument.clone_id()
    }

    pub fn api_key(&self) -> (r: &str)
        ensures
            r@ == self.api_key@,
    {
        self.api_key.as_str()
    }

    pub fn symbol(&self) -> (r: &str)
        ensures
            r@ == self.symbol@,
    {
        self.symbol.as_str()
    }

    /// Whether the client talks to the test network.
    pub fn testnet(&self) -> (r: bool)
        ensures
            r == (self.base_url@ == TESTNET_REST@),
    {
        str_eq(self.base_url, TESTNET_REST)
    }
}

/// Stream URL of the symbol's best bid and offer: `"{ws}/{symbol lowercase}@bookTicker"`.
pub fn book_ticker_url(testnet: bool, symbol: &str) -> (r: String)
    ensures
        r@ == (if testnet {
            TESTNET_WS@
        } else {
            MAINNET_WS@
        }) + "/"@ + crate::text::str_lowercase(symbol@) + "@bookTicker"@,
{
    let mut s = owned(if testnet {
        TESTNET_WS
    } else {
        MAINNET_WS
    });
    s.append("/");
    s.append(crate::text::lowercase(symbol).as_str());
    s.append("@bookTicker");
    s
}

/// Stream URL of the account's user data: `"{ws}/{listen_key}"`.
pub fn user_data_url(testnet: bool, listen_key: &str) -> (r: String)
    ensures
        r@ == (if testnet {
            TESTNET_WS@
        } else {
            MAINNET_WS@
        }) + "/"@ + listen_key@,
{
    let mut s = owned(if testnet {
        TESTNET_WS
    } else {
        MAINNET_WS
    });
    s.append("/");
    s.append(listen_key);
    s
}

/// URL of the listen-key endpoint.
pub fn listen_key_url(testnet: bool) -> (r: String)
    ensures
        r@ == (if testnet {
            TESTNET_REST@
        } else {
            MAINNET_REST@
        }) + "/fapi/v1/listenKey"@,
{
    let mut s = owned(if testnet {
        TESTNET_REST
    } else {
        MAINNET_REST
    });
    s.append("/fapi/v1/listenKey");
    s
}

/// What the market data feed of one symbol is given.
pub struct BinanceMarketDataFeed {
    pub symbol: String,
    pub instrument: InstrumentId,
    pub api_key: String,
    pub testnet: bool,
}

impl BinanceMarketDataFeed {
    pub fn new(symbol: String, instrument: InstrumentId, api_key: String, testnet: bool) -> (r: BinanceMarketDataFeed)
        ensures
            r.symbol == symbol,
            r.instrument == instrument,
            r.api_key == api_key,
            r.testnet == testnet,
    {
        BinanceMarketDataFeed { symbol, instrument, api_key, testnet }
    }
}

} // verus!
