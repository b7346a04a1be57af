//! Passive unwinding of predict.fun inventory: which orders to cancel first,
//! how much is held of each outcome, and the sell price of each outcome (at
//! the ask, or one tick above the bid when that is higher).

use vstd::prelude::*;
use crate::decimal::{Dec, decimal_checked_add, decimal_checked_sub};
use crate::text::{copy_string, str_eq};
use crate::venues::predict_fun::{PredictOpenOrderRaw, from_wei, from_wei_spec};

verus! {

/// Price tick of a market: 0.01 at precision 2, 0.001 otherwise.
pub open spec fn tick_spec(precision: u32) -> Dec {
    if precision == 2 {
        Dec::scaled(1, 2)
    } else {
        Dec::scaled(1, 3)
    }
}

pub fn tick_for(precision: u32) -> (r: Dec)
    ensures
        r == tick_spec(precision),
{
    if precision == 2 {
        Dec::from_scaled(1, 2)
    } else {
        Dec::from_scaled(1, 3)
    }
}

/// Sell price of one outcome: its ask, or one tick above its bid when that is
/// higher, rounded away from zero to the market's precision.
pub open spec fn sell_price_spec(bid: Dec, ask: Dec, precision: u32) -> Option<Dec> {
    match decimal_checked_add(bid, tick_spec(precision)) {
        Some(b) => Some(Dec::ord_max(ask, b).round_dp_away_spec(precision)),
        None => None,
    }
}

/// Sell prices of YES and NO from the YES book: NO's bid is `1 - ask` and its
/// ask `1 - bid`. `None` when an operation overflows.
pub open spec fn liquidation_prices_spec(yes_bid: Dec, yes_ask: Dec, precision: u32) -> Option<(Dec, Dec)> {
    match sell_price_spec(yes_bid, yes_ask, precision) {
        None => None,
        Some(yes) => match (decimal_checked_sub(Dec::whole(1), yes_ask), decimal_checked_sub(Dec::whole(1), yes_bid)) {
            (Some(no_bid), Some(no_ask)) => match sell_price_spec(no_bid, no_ask, precision) {
                Some(no) => Some((yes, no)),
                None => None,
            },
            _ => None,
        },
    }
}

fn sell_price(bid: Dec, ask: Dec, precision: u32) -> (r: Option<Dec>)
    ensures
        r == sell_price_spec(bid, ask, precision),
{
    match bid.checked_add(tick_for(precision)) {
        Some(b) => Some(ask.max(b).round_dp_away(precision)),
        None => None,
    }
}

pub fn liquidation_prices(yes_bid: Dec, yes_ask: Dec, precision: u32) -> (r: Option<(Dec, Dec)>)
    ensures
        r == liquidation_prices_spec(yes_bid, yes_ask, precision),
{
    let yes = match sell_price(yes_bid, yes_ask, precision) {
        Some(p) => p,
        None => return None,
    };
    let no_bid = match Dec::one().checked_sub(yes_ask) {
        Some(v) => v,
        None => return None,
    };
    let no_ask = match Dec::one().checked_sub(yes_bid) {
        Some(v) => v,
        None => return None,
    };
    match sell_price(no_bid, no_ask, precision) {
        Some(no) => Some((yes, no)),
        None => None,
    }
}

/// An order of the market's tokens.
pub open spec fn on_market(o: PredictOpenOrderRaw, yes_token: Seq<char>, no_token: Seq<char>) -> bool {
    o.token_id@ == yes_token || o.token_id@ == no_token
}

/// Ids of the listed orders on the market's two tokens, in order.
pub open spec fn cancel_ids_spec(os: Seq<PredictOpenOrderRaw>, yes_token: Seq<char>, no_token: Seq<char>) -> Seq<Seq<char>>
    decreases os.len(),
{
    if os.len() == 0 {
        Seq::empty()
    } else {
        let prev = cancel_ids_spec(os.drop_last(), yes_token, no_token);
        if on_market(os.last(), yes_token, no_token) {
            prev.push(os.last().id@)
        } else {
            prev
        }
    }
}

/// The open orders to cancel before unwinding: those on the market's tokens.
pub fn cancel_ids(orders: &Vec<PredictOpenOrderRaw>, yes_token: &str, no_token: &str) -> (r: Vec<String>)
    ensures
        r@.map_values(|s: String| s@) == cancel_ids_spec(orders@, yes_token@, no_token@),
{
    let mut out: Vec<String> = Vec::new();
    let mut i: usize = 0;
    while i < orders.len()
        invariant
            0 <= i <= orders@.len(),
            out@.map_values(|s: String| s@) == cancel_ids_spec(orders@.take(i as int), yes_token@, no_token@),
        decreases orders@.len() - i,
    {
        let o = &orders[i];
        assert(orders@.take(i + 1).drop_last() =~= orders@.take(i as int));
        assert(orders@.take(i + 1).last() == orders@[i as int]);
        if str_eq(o.token_id.as_str(), yes_token) || str_eq(o.token_id.as_str(), no_token) {
            out.push(copy_string(&o.id));
            assert(out@.map_values(|s: String| s@) =~= cancel_ids_spec(orders@.take(i as int), yes_token@, no_token@).push(o.id@));
        }
        i = i + 1;
    }
    assert(orders@.take(orders@.len() as int) =~= orders@);
    out
}

/// A held position: market, outcome token, amount in wei.
#[derive(Clone, Debug)]
pub struct PredictHolding {
    pub market_id: u64,
    pub on_chain_id: String,
    pub amount: String,
}

/// Held quantity of YES and NO on the market: the positive amounts of each
/// token, summed; `None` when a sum overflows.
pub open spec fn held_spec(hs: Seq<PredictHolding>, market_id: u64, yes_token: Seq<char>, no_token: Seq<char>) -> Option<
    (Dec, Dec),
>
    decreases hs.len(),
{
    if hs.len() == 0 {
        Some((Dec::whole(0), Dec::whole(0)))
    } else {
        match held_spec(hs.drop_last(), market_id, yes_token, no_token) {
            None => None,
            Some((y, n)) => {
                let h = hs.last();
                let q = from_wei_spec(h.amount@);
                if h.market_id != market_id || q.value() <= 0 {
                    Some((y, n))
                } else if h.on_chain_id@ == yes_token {
                    match decimal_checked_add(y, q) {
                        Some(y2) => Some((y2, n)),
                        None => None,
                    }
                } else if h.on_chain_id@ == no_token {
                    match decimal_checked_add(n, q) {
                        Some(n2) => Some((y, n2)),
                        None => None,
                    }
                } else {
                    Some((y, n))
                }
            },
        }
    }
}

proof fn lemma_held_none(hs: Seq<PredictHolding>, market_id: u64, yes_token: Seq<char>, no_token: Seq<char>, j: int)
    requires
        0 <= j <= hs.len(),
        held_spec(hs.take(j), market_id, yes_token, no_token) is None,
    ensures
        held_spec(hs, market_id, yes_token, no_token) is None,
    decreases hs.len(),
{
    if j == hs.len() {
        assert(hs.take(j) =~= hs);
    } else {
        assert(hs.drop_last().take(j) =~= hs.take(j));
        lemma_held_none(hs.drop_last(), market_id, yes_token, no_token, j);
    }
}

pub fn held_quantities(holdings: &Vec<PredictHolding>, market_id: u64, yes_token: &str, no_token: &str) -> (r: Option<
    (Dec, Dec),
>)
    ensures
        r == held_spec(holdings@, market_id, yes_token@, no_token@),
{
    let mut y = Dec::zero();
    let mut n = Dec::zero();
    let mut i: usize = 0;
    while i < holdings.len()
        invariant
            0 <= i <= holdings@.len(),
            held_spec(holdings@.take(i as int), market_id, yes_token@, no_token@) == Some((y, n)),
        decreases holdings@.len() - i,
    {
        let h = &holdings[i];
        assert(holdings@.take(i + 1).drop_last() =~= holdings@.take(i as int));
        assert(holdings@.take(i + 1).last() == holdings@[i as int]);
        let q = from_wei(h.amount.as_str());
        if h.market_id == market_id && q.gt(&Dec::zero()) {
            if str_eq(h.on_chain_id.as_str(), yes_token) {
                match y.checked_add(q) {
                    Some(v) => y = v,
                    None => {
                        proof {
                            lemma_held_none(holdings@, market_id, yes_token@, no_token@, i + 1);
                        }
                        return None;
                    },
                }
            } else if str_eq(h.on_chain_id.as_str(), no_token) {
                match n.checked_add(q) {
                    Some(v) => n = v,
                    None => {
                        proof {
                            lemma_held_none(holdings@, market_id, yes_token@, no_token@, i + 1);
                        }
                        return None;
                    },
                }
            }
        }
        i = i + 1;
    }
    assert(holdings@.take(holdings@.len() as int) =~= holdings@);
    Some((y, n))
}

/// Contract variants to approve: all four (standard, yield-bearing, neg-risk,
/// both) with `all`, else the market's own.
pub fn approval_variants(all: bool, is_neg_risk: bool, is_yield_bearing: bool) -> (r: Vec<(bool, bool)>)
    ensures
        all ==> r@ == seq![(false, false), (false, true), (true, false), (true, true)],
        !all ==> r@ == seq![(is_neg_risk, is_yield_bearing)],
{
    let mut v: Vec<(bool, bool)> = Vec::new();
    if all {
        v.push((false, false));
        v.push((false, true));
        v.push((true, false));
        v.push((true, true));
    } else {
        v.push((is_neg_risk, is_yield_bearing));
    }
    v
}

/// Nothing of either outcome is held: there is nothing to liquidate.
pub fn nothing_held(yes_qty: Dec, no_qty: Dec) -> (r: bool)
    ensures
        r == (yes_qty.value() <= 0 && no_qty.value() <= 0),
{
    yes_qty.le(&Dec::zero()) && no_qty.le(&Dec::zero())
}

/// A passive sell of one outcome: which outcome (YES when `yes`), at what
/// price, how much.
#[derive(Clone, Copy, Debug)]
pub struct LiquidationOrder {
    pub yes: bool,
    pub price: Dec,
    pub qty: Dec,
}

/// The sells to place: YES first, then NO, each only for a positive quantity.
pub open spec fn liquidation_orders_spec(yes_qty: Dec, no_qty: Dec, yes_price: Dec, no_price: Dec) -> Seq<
    LiquidationOrder,
> {
    let y = if yes_qty.value() > 0 {
        seq![LiquidationOrder { yes: true, price: yes_price, qty: yes_qty }]
    } else {
        Seq::empty()
    };
    if no_qty.value() > 0 {
        y.push(LiquidationOrder { yes: false, price: no_price, qty: no_qty })
    } else {
        y
    }
}

pub fn liquidation_orders(yes_qty: Dec, no_qty: Dec, yes_price: Dec, no_price: Dec) -> (r: Vec<LiquidationOrder>)
    ensures
        r@ == liquidation_orders_spec(yes_qty, no_qty, yes_price, no_price),
{
    let mut out: Vec<LiquidationOrder> = Vec::new();
    if yes_qty.gt(&Dec::zero()) {
        out.push(LiquidationOrder { yes: true, price: yes_price, qty: yes_qty });
    }
    if no_qty.gt(&Dec::zero()) {
        out.push(LiquidationOrder { yes: false, price: no_price, qty: no_qty });
    }
    assert(out@ =~= liquidation_orders_spec(yes_qty, no_qty, yes_price, no_price));
    out
}

} // verus!
