//! Discovery of predict.fun markets: which are boosted now, the order size
//! that covers a market's minimum, and the config file written for a market.

use vstd::prelude::*;
use crate::decimal::{
    Dec,
    decimal_checked_add,
    decimal_checked_div,
    decimal_checked_mul,
    decimal_checked_sub,
    decimal_display,
};
use crate::text::{
    bool_text,
    bool_text_spec,
    debug_quoted,
    join,
    joined,
    owned,
    str_debug,
    u64_digits,
    u64_to_string,
};

verus! {

/// Metrics port of a market's process: `10000 + market_id % 50000`, so in
/// `10000..60000`.
pub fn metrics_port_for_market(market_id: u64) -> (r: u16)
    ensures
        r == 10_000 + market_id % 50_000,
        10_000 <= r < 60_000,
{
    (10_000 + (market_id % 50_000)) as u16
}

/// An instant: seconds since the Unix epoch and nanoseconds within the second.
pub open spec fn instant_le(a: (i64, u32), b: (i64, u32)) -> bool {
    a.0 < b.0 || (a.0 == b.0 && a.1 <= b.1)
}

/// Instant of an RFC 3339 text (`chrono::DateTime::parse_from_rfc3339`), as
/// seconds and nanoseconds in UTC; `None` when it does not parse.
pub uninterp spec fn rfc3339_parse(s: Seq<char>) -> Option<(i64, u32)>;

/// `chrono::DateTime::parse_from_rfc3339`, read back as its UTC timestamp
/// (`timestamp`, `timestamp_subsec_nanos`); the error becomes `None`.
#[verifier::external_body]
fn rfc3339_instant(s: &str) -> (r: Option<(i64, u32)>)
    ensures
        r == rfc3339_parse(s@),
{
    chrono::DateTime::parse_from_rfc3339(s).ok().map(|t| (t.timestamp(), t.timestamp_subsec_nanos()))
}

/// A boost is running at `now`: the market is boosted, its start (if it
/// parses) is not after `now`, and its end parses and is after `now`.
pub open spec fn boost_active_spec(
    is_boosted: bool,
    starts_at: Option<String>,
    ends_at: Option<String>,
    now: (i64, u32),
) -> bool {
    let started = match starts_at {
        Some(s) => match rfc3339_parse(s@) {
            Some(t) => instant_le(t, now),
            None => true,
        },
        None => true,
    };
    let not_ended = match ends_at {
        Some(s) => match rfc3339_parse(s@) {
            Some(t) => !instant_le(t, now),
            None => false,
        },
        None => false,
    };
    is_boosted && started && not_ended
}

/// Whether the market's boost runs at `now`.
pub fn is_boost_active(is_boosted: bool, starts_at: &Option<String>, ends_at: &Option<String>, now: (i64, u32)) -> (r:
    bool)
    ensures
        r == boost_active_spec(is_boosted, *starts_at, *ends_at, now),
{
    if !is_boosted {
        return false;
    }
    let started = match starts_at {
        Some(s) => match rfc3339_instant(s.as_str()) {
            Some(t) => t.0 < now.0 || (t.0 == now.0 && t.1 <= now.1),
            None => true,
        },
        None => true,
    };
    let not_ended = match ends_at {
        Some(s) => match rfc3339_instant(s.as_str()) {
            Some(t) => !(t.0 < now.0 || (t.0 == now.0 && t.1 <= now.1)),
            None => false,
        },
        None => false,
    };
    started && not_ended
}

/// What market discovery reads of a listed market.
#[derive(Clone, Debug)]
pub struct MarketSummary {
    pub id: u64,
    pub title: String,
    pub outcome_count: usize,
    pub is_boosted: bool,
    pub boost_starts_at: Option<String>,
    pub boost_ends_at: Option<String>,
}

/// Some market before position `k` has id `id`.
pub open spec fn seen_before(ms: Seq<MarketSummary>, k: int, id: u64) -> bool {
    exists|j: int| 0 <= j < k && #[trigger] ms[j].id == id
}

/// Positions of the boosted markets and of the others, in listing order. A
/// market whose id came earlier is skipped, and so is one with fewer than two
/// outcomes (its id still counts as seen).
pub open spec fn classify(ms: Seq<MarketSummary>, now: (i64, u32)) -> (Seq<usize>, Seq<usize>)
    decreases ms.len(),
{
    if ms.len() == 0 {
        (Seq::empty(), Seq::empty())
    } else {
        let prev = classify(ms.drop_last(), now);
        let i = (ms.len() - 1) as int;
        let m = ms.last();
        if seen_before(ms, i, m.id) || m.outcome_count < 2 {
            prev
        } else if boost_active_spec(m.is_boosted, m.boost_starts_at, m.boost_ends_at, now) {
            (prev.0.push(i as usize), prev.1)
        } else {
            (prev.0, prev.1.push(i as usize))
        }
    }
}

proof fn lemma_classify_prefix(ms: Seq<MarketSummary>, k: int, now: (i64, u32))
    requires
        0 <= k < ms.len(),
    ensures
        classify(ms.take(k + 1), now) == ({
            let prev = classify(ms.take(k), now);
            let m = ms[k];
            if seen_before(ms, k, m.id) || m.outcome_count < 2 {
                prev
            } else if boost_active_spec(m.is_boosted, m.boost_starts_at, m.boost_ends_at, now) {
                (prev.0.push(k as usize), prev.1)
            } else {
                (prev.0, prev.1.push(k as usize))
            }
        }),
{
    let t = ms.take(k + 1);
    assert(t.drop_last() =~= ms.take(k));
    assert(t.last() == ms[k]);
    assert(seen_before(t, k, ms[k].id) == seen_before(ms, k, ms[k].id)) by {
        if seen_before(ms, k, ms[k].id) {
            let j = choose|j: int| 0 <= j < k && #[trigger] ms[j].id == ms[k].id;
            assert(t[j] == ms[j]);
        }
        if seen_before(t, k, ms[k].id) {
            let j = choose|j: int| 0 <= j < k && #[trigger] t[j].id == ms[k].id;
            assert(t[j] == ms[j]);
        }
    }
}

/// Split the listing into boosted markets and the others (positions, in order).
pub fn classify_markets(ms: &Vec<MarketSummary>, now: (i64, u32)) -> (r: (Vec<usize>, Vec<usize>))
    ensures
        (r.0@, r.1@) == classify(ms@, now),
{
    let mut boosted: Vec<usize> = Vec::new();
    let mut others: Vec<usize> = Vec::new();
    let mut seen: Vec<u64> = Vec::new();
    let mut i: usize = 0;
    while i < ms.len()
        invariant
            0 <= i <= ms@.len(),
            (boosted@, others@) == classify(ms@.take(i as int), now),
            forall|id: u64| seen@.contains(id) <==> seen_before(ms@, i as int, id),
        decreases ms@.len() - i,
    {
        proof {
            lemma_classify_prefix(ms@, i as int, now);
        }
        let m = &ms[i];
        let mut dup = false;
        let mut j: usize = 0;
        while j < seen.len()
            invariant
                0 <= j <= seen@.len(),
                dup == (exists|k: int| 0 <= k < j && seen@[k] == m.id),
            decreases seen@.len() - j,
        {
            if seen[j] == m.id {
                dup = true;
            }
            j = j + 1;
        }
        assert(dup == seen@.contains(m.id)) by {
            if dup {
                let k = choose|k: int| 0 <= k < j && seen@[k] == m.id;
                assert(seen@[k] == m.id);
            }
            if seen@.contains(m.id) {
                let k = choose|k: int| 0 <= k < seen@.len() && seen@[k] == m.id;
                assert(0 <= k < j && seen@[k] == m.id);
            }
        }
        let ghost old_seen = seen@;
        if !dup {
            seen.push(m.id);
        }
        assert forall|id: u64| seen@.contains(id) <==> seen_before(ms@, i + 1, id) by {
            if seen@.contains(id) {
                let k = choose|k: int| 0 <= k < seen@.len() && seen@[k] == id;
                if k < old_seen.len() {
                    assert(old_seen[k] == id);
                    assert(old_seen.contains(id));
                    let q = choose|q: int| 0 <= q < i && #[trigger] ms@[q].id == id;
                    assert(0 <= q < i + 1 && ms@[q].id == id);
                } else {
                    assert(ms@[i as int].id == id);
                }
            }
            if seen_before(ms@, i + 1, id) {
                let q = choose|q: int| 0 <= q < i + 1 && #[trigger] ms@[q].id == id;
                if q < i {
                    assert(seen_before(ms@, i as int, id));
                    assert(old_seen.contains(id));
                    let k = choose|k: int| 0 <= k < old_seen.len() && old_seen[k] == id;
                    assert(seen@[k] == id);
                } else if dup {
                    let k = choose|k: int| 0 <= k < old_seen.len() && old_seen[k] == id;
                    assert(seen@[k] == id);
                } else {
                    assert(seen@[seen@.len() - 1] == id);
                }
            }
        }
        if !dup && m.outcome_count >= 2 {
            if is_boost_active(m.is_boosted, &m.boost_starts_at, &m.boost_ends_at, now) {
                boosted.push(i);
            } else {
                others.push(i);
            }
        }
        i = i + 1;
    }
    assert(ms@.take(ms@.len() as int) =~= ms@);
    (boosted, others)
}

/// Label of a market in reports: `"{id}:{title}"`.
pub fn market_label(id: u64, title: &str) -> (r: String)
    ensures
        r@ == u64_digits(id as nat) + ":"@ + title@,
{
    let mut s = u64_to_string(id);
    s.append(":");
    s.append(title);
    s
}

/// Text of an outcome's instrument: `"PredictFun.Binary.{id}-{outcome}"`.
pub fn outcome_instrument_text(id: u64, outcome: &str) -> (r: String)
    ensures
        r@ == "PredictFun.Binary."@ + u64_digits(id as nat) + "-"@ + outcome@,
{
    let mut s = owned("PredictFun.Binary.");
    let d = u64_to_string(id);
    s.append(d.as_str());
    s.append("-");
    s.append(outcome);
    s
}

/// Order size that covers a market's minimum: at the mid of best bid and best
/// ask, the costlier side (`max(mid, 1 - mid)`) times the minimum shares,
/// rounded up to a multiple of 5; 70 without both sides. `None` when an
/// operation overflows.
pub open spec fn min_order_size_spec(bid: Option<Dec>, ask: Option<Dec>, min_shares: Dec) -> Option<Dec> {
    match (bid, ask) {
        (Some(b), Some(a)) => match decimal_checked_add(b, a) {
            None => None,
            Some(s) => match decimal_checked_div(s, Dec::whole(2)) {
                None => None,
                Some(mid) => match decimal_checked_sub(Dec::whole(1), mid) {
                    None => None,
                    Some(other) => match decimal_checked_mul(min_shares, Dec::ord_max(mid, other)) {
                        None => None,
                        Some(raw) => match decimal_checked_div(raw, Dec::whole(5)) {
                            None => None,
                            Some(q) => decimal_checked_mul(q.ceil_spec(), Dec::whole(5)),
                        },
                    },
                },
            },
        },
        _ => Some(Dec::whole(70)),
    }
}

pub fn min_order_size(bid: Option<Dec>, ask: Option<Dec>, min_shares: Dec) -> (r: Option<Dec>)
    ensures
        r == min_order_size_spec(bid, ask, min_shares),
{
    match (bid, ask) {
        (Some(b), Some(a)) => {
            let s = match b.checked_add(a) {
                Some(v) => v,
                None => return None,
            };
            let mid = match s.checked_div(Dec::two()) {
                Some(v) => v,
                None => return None,
            };
            let other = match Dec::one().checked_sub(mid) {
                Some(v) => v,
                None => return None,
            };
            let raw = match min_shares.checked_mul(mid.max(other)) {
                Some(v) => v,
                None => return None,
            };
            let q = match raw.checked_div(Dec::from_u64(5)) {
                Some(v) => v,
                None => return None,
            };
            q.ceil().checked_mul(Dec::from_u64(5))
        },
        _ => Some(Dec::from_u64(70)),
    }
}

/// Default spread threshold when the market gives none: 0.06.
pub fn default_spread_threshold() -> (r: Dec)
    ensures
        r.mantissa_spec() == 6,
        r.scale_spec() == 2,
{
    Dec::new(6, 2)
}

/// Default minimum shares per side when the market gives none: 100.
pub fn default_min_shares() -> (r: Dec)
    ensures
        r == Dec::whole(100),
{
    Dec::from_u64(100)
}

/// Whether to write a market's config (not when strict mode meets a missing
/// Polymarket token); a market missing its token is reported either way.
pub fn should_write_config(write_configs: bool, fail_on_missing_poly_token: bool, missing_poly: bool) -> (r: bool)
    ensures
        r == (write_configs && !(fail_on_missing_poly_token && missing_poly)),
{
    write_configs && !(fail_on_missing_poly_token && missing_poly)
}

/// The error of strict mode when some markets lack a Polymarket token.
pub fn missing_poly_error(fail_on_missing_poly_token: bool, labels: &Vec<String>) -> (r: Option<String>)
    ensures
        !(fail_on_missing_poly_token && labels@.len() > 0) ==> r is None,
        fail_on_missing_poly_token && labels@.len() > 0 ==> (r matches Some(m) && m@
            == "missing polymarket_yes_token_id for "@ + u64_digits(labels@.len() as nat) + " market(s): "@
            + joined(labels@.map_values(|s: String| s@), ", "@)),
{
    if !(fail_on_missing_poly_token && labels.len() > 0) {
        return None;
    }
    let mut m = owned("missing polymarket_yes_token_id for ");
    let n = u64_to_string(labels.len() as u64);
    m.append(n.as_str());
    m.append(" market(s): ");
    let j = join(labels, ", ");
    m.append(j.as_str());
    Some(m)
}

/// What goes into a market's config file.
#[derive(Clone, Debug)]
pub struct MarketToml {
    pub market_id: u64,
    pub is_neg_risk: bool,
    pub is_yield_bearing: bool,
    pub fee_rate_bps: u64,
    pub yes_name: String,
    pub yes_token_id: String,
    pub no_name: String,
    pub no_token_id: String,
    pub instr_yes: String,
    pub instr_no: String,
    pub order_size_usdt: Dec,
    pub spread_threshold_v: Dec,
    pub min_shares_per_side: Dec,
    pub polymarket_yes_token_id: Option<String>,
    pub metrics_port: u16,
}

/// The config file of a market, line by line.
pub open spec fn market_toml(t: MarketToml) -> Seq<char> {
    let head = "# Auto-generated by: trading-cli predict-markets --write-configs\n"@
        + "# Regenerate anytime; this file is intended to be machine-managed.\n\n"@
        + "[engine]\n"@
        + "tick_interval_ms = 200\n\n"@
        + "[[exchanges]]\n"@
        + "name           = \"predict_fun\"\n"@
        + "api_key_env    = \"PREDICT_API_KEY\"\n"@
        + "secret_key_env = \"PREDICT_PRIVATE_KEY\"\n"@
        + "testnet        = false\n\n"@
        + "[exchanges.params]\n"@
        + "market_id        = "@ + u64_digits(t.market_id as nat) + "\n"@
        + "yes_outcome_name = "@ + str_debug(t.yes_name@) + "\n"@
        + "yes_token_id     = "@ + str_debug(t.yes_token_id@) + "\n"@
        + "no_outcome_name  = "@ + str_debug(t.no_name@) + "\n"@
        + "no_token_id      = "@ + str_debug(t.no_token_id@) + "\n"@
        + "is_neg_risk      = "@ + bool_text_spec(t.is_neg_risk) + "\n"@
        + "is_yield_bearing = "@ + bool_text_spec(t.is_yield_bearing) + "\n"@
        + "fee_rate_bps     = "@ + u64_digits(t.fee_rate_bps as nat) + "\n"@;
    let with_poly = match t.polymarket_yes_token_id {
        Some(tok) => head + "polymarket_yes_token_id = "@ + str_debug(tok@) + "\n"@,
        None => head + "# polymarket_yes_token_id = \"\"  # unavailable from Gamma lookup for this market\n"@,
    };
    with_poly + "\n"@
        + "[[strategies]]\n"@
        + "name           = \"predict_points_v1\"\n"@
        + "strategy_type  = \"prediction_quoter\"\n"@
        + "instruments    = ["@ + str_debug(t.instr_yes@) + ", "@ + str_debug(t.instr_no@) + "]\n\n"@
        + "[strategies.params]\n"@
        + "spread_cents         = \"0.02\"  # distance from poly FV per side — see PREDICT_QUOTING_DESIGN.md\n"@
        + "order_size_usdt      = \""@ + decimal_display(t.order_size_usdt) + "\"\n"@
        + "max_position_tokens  = \"500.0\"\n"@
        + "drift_cents          = \"0.02\"\n"@
        + "touch_trigger_cents  = \"0.00\"  # defensive requote when quote reaches top-of-book (0 = at touch)\n"@
        + "touch_retreat_cents  = \"0.02\"  # after touch trigger, requote this far behind top-of-book\n"@
        + "min_quote_hold_secs  = 10\n"@
        + "fill_pause_secs      = 5\n"@
        + "fv_stale_secs        = 90       # must be > 60 (WS recv-timeout); see PREDICT_QUOTING_DESIGN.md\n"@
        + "spread_threshold_v   = \""@ + decimal_display(t.spread_threshold_v) + "\"\n"@
        + "min_shares_per_side  = \""@ + decimal_display(t.min_shares_per_side) + "\"\n\n"@
        + "[telemetry]\n"@
        + "log_level      = \"info\"\n"@
        + "metrics_port   = "@ + u64_digits(t.metrics_port as nat) + "\n"@
        + "enable_tracing = false\n"@
}

/// The config file of a market.
pub fn render_market_toml(t: &MarketToml) -> (r: String)
    ensures
        r@ == market_toml(*t),
{
    let mut out = owned("# Auto-generated by: trading-cli predict-markets --write-configs\n");
    out.append("# Regenerate anytime; this file is intended to be machine-managed.\n\n");
    out.append("[engine]\n");
    out.append("tick_interval_ms = 200\n\n");
    out.append("[[exchanges]]\n");
    out.append("name           = \"predict_fun\"\n");
    out.append("api_key_env    = \"PREDICT_API_KEY\"\n");
    out.append("secret_key_env = \"PREDICT_PRIVATE_KEY\"\n");
    out.append("testnet        = false\n\n");
    out.append("[exchanges.params]\n");
    out.append("market_id        = ");
    out.append(u64_to_string(t.market_id).as_str());
    out.append("\n");
    out.append("yes_outcome_name = ");
    out.append(debug_quoted(t.yes_name.as_str()).as_str());
    out.append("\n");
    out.append("yes_token_id     = ");
    out.append(debug_quoted(t.yes_token_id.as_str()).as_str());
    out.append("\n");
    out.append("no_outcome_name  = ");
    out.append(debug_quoted(t.no_name.as_str()).as_str());
    out.append("\n");
    out.append("no_token_id      = ");
    out.append(debug_quoted(t.no_token_id.as_str()).as_str());
    out.append("\n");
    out.append("is_neg_risk      = ");
    out.append(bool_text(t.is_neg_risk));
    out.append("\n");
    out.append("is_yield_bearing = ");
    out.append(bool_text(t.is_yield_bearing));
    out.append("\n");
    out.append("fee_rate_bps     = ");
    out.append(u64_to_string(t.fee_rate_bps).as_str());
    out.append("\n");
    match &t.polymarket_yes_token_id {
        Some(tok) => {
            out.append("polymarket_yes_token_id = ");
            out.append(debug_quoted(tok.as_str()).as_str());
            out.append("\n");
        },
        None => {
            out.append("# polymarket_yes_token_id = \"\"  # unavailable from Gamma lookup for this market\n");
        },
    }
    out.append("\n");
    out.append("[[strategies]]\n");
    out.append("name           = \"predict_points_v1\"\n");
    out.append("strategy_type  = \"prediction_quoter\"\n");
    out.append("instruments    = [");
    out.append(debug_quoted(t.instr_yes.as_str()).as_str());
    out.append(", ");
    out.append(debug_quoted(t.instr_no.as_str()).as_str());
    out.append("]\n\n");
    out.append("[strategies.params]\n");
    out.append("spread_cents         = \"0.02\"  # distance from poly FV per side — see PREDICT_QUOTING_DESIGN.md\n");
    out.append("order_size_usdt      = \"");
    out.append(t.order_size_usdt.to_string().as_str());
    out.append("\"\n");
    out.append("max_position_tokens  = \"500.0\"\n");
    out.append("drift_cents          = \"0.02\"\n");
    out.append("touch_trigger_cents  = \"0.00\"  # defensive requote when quote reaches top-of-book (0 = at touch)\n");
    out.append("touch_retreat_cents  = \"0.02\"  # after touch trigger, requote this far behind top-of-book\n");
    out.append("min_quote_hold_secs  = 10\n");
    out.append("fill_pause_secs      = 5\n");
    out.append("fv_stale_secs        = 90       # must be > 60 (WS recv-timeout); see PREDICT_QUOTING_DESIGN.md\n");
    out.append("spread_threshold_v   = \"");
    out.append(t.spread_threshold_v.to_string().as_str());
    out.append("\"\n");
    out.append("min_shares_per_side  = \"");
    out.append(t.min_shares_per_side.to_string().as_str());
    out.append("\"\n\n");
    out.append("[telemetry]\n");
    out.append("log_level      = \"info\"\n");
    out.append("metrics_port   = ");
    out.append(u64_to_string(t.metrics_port as u64).as_str());
    out.append("\n");
    out.append("enable_tracing = false\n");
    out
}

} // verus!
