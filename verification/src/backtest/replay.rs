//! Recording and replay of market data: where a recording goes, when it is
//! flushed, and the order in which recorded events are replayed.

use vstd::prelude::*;
use crate::decimal::{Dec, decimal_checked_add};
use crate::text::copy_string;
use crate::types::event::Event;
use crate::types::position::Position;

verus! {

/// Replays recorded market data from a directory of `.jsonl` files.
pub struct SimMarketDataFeed {
    pub data_dir: String,
}

impl SimMarketDataFeed {
    pub fn new(data_dir: String) -> (r: SimMarketDataFeed)
        ensures
            r.data_dir == data_dir,
    {
        SimMarketDataFeed { data_dir }
    }
}

/// Writes market data events, one JSON object per line, under a directory.
pub struct MarketDataRecorder {
    pub output_dir: String,
}

impl MarketDataRecorder {
    pub fn new(output_dir: String) -> (r: MarketDataRecorder)
        ensures
            r.output_dir == output_dir,
    {
        MarketDataRecorder { output_dir }
    }

    /// File name of a recording: `"{filename}.jsonl"`.
    pub fn file_name(filename: &str) -> (r: String)
        ensures
            r@ == filename@ + ".jsonl"@,
    {
        let mut s = crate::text::owned(filename);
        s.append(".jsonl");
        s
    }
}

/// Events written and events lost to lag during a recording.
#[derive(Clone, Copy, Debug, PartialEq, Eq, Structural)]
pub struct RecordStats {
    pub events: u64,
    pub lags: u64,
}

/// Events between two flushes of a recording.
pub const FLUSH_EVERY: u64 = 10_000;

impl RecordStats {
    pub fn new() -> (r: RecordStats)
        ensures
            r.events == 0,
            r.lags == 0,
    {
        RecordStats { events: 0, lags: 0 }
    }

    /// One more event written; returns whether to flush now (every
    /// `FLUSH_EVERY` events).
    pub fn on_written(&mut self) -> (r: bool)
        requires
            old(self).events < u64::MAX,
        ensures
            final(self).events == old(self).events + 1,
            final(self).lags == old(self).lags,
            r == (final(self).events % FLUSH_EVERY == 0),
    {
        self.events = self.events + 1;
        self.events % FLUSH_EVERY == 0
    }

    /// `n` events lost because the recorder fell behind.
    pub fn on_lagged(&mut self, n: u64)
        requires
            old(self).lags + n <= u64::MAX,
        ensures
            final(self).lags == old(self).lags + n,
            final(self).events == old(self).events,
    {
        self.lags = self.lags + n;
    }
}

/// Time by which a recorded event is replayed: the exchange time of a book
/// update, the time of a trade or tick, 0 for anything else.
pub open spec fn event_time(e: Event) -> u64 {
    match e {
        Event::BookUpdate { exchange_ts_ns, .. } => exchange_ts_ns,
        Event::MarketTrade { trade, .. } => trade.timestamp_ns,
        Event::Tick { timestamp_ns } => timestamp_ns,
        _ => 0,
    }
}

pub fn event_time_of(e: &Event) -> (r: u64)
    ensures
        r == event_time(*e),
{
    match e {
        Event::BookUpdate { exchange_ts_ns, .. } => *exchange_ts_ns,
        Event::MarketTrade { trade, .. } => trade.timestamp_ns,
        Event::Tick { timestamp_ns } => *timestamp_ns,
        _ => 0,
    }
}

/// `x` placed after every event of no later time.
pub open spec fn insert_by_time(s: Seq<Event>, x: Event) -> Seq<Event>
    decreases s.len(),
{
    if s.len() == 0 {
        seq![x]
    } else if event_time(x) < event_time(s[0]) {
        seq![x] + s
    } else {
        seq![s[0]] + insert_by_time(s.drop_first(), x)
    }
}

/// The events stably sorted by time.
pub open spec fn sort_by_time(s: Seq<Event>) -> Seq<Event>
    decreases s.len(),
{
    if s.len() == 0 {
        Seq::empty()
    } else {
        insert_by_time(sort_by_time(s.drop_last()), s.last())
    }
}

pub open spec fn time_ordered(s: Seq<Event>) -> bool {
    forall|i: int, j: int| 0 <= i < j < s.len() ==> event_time(#[trigger] s[i]) <= event_time(#[trigger] s[j])
}

proof fn lemma_insert_time_at(s: Seq<Event>, x: Event, i: int)
    requires
        0 <= i <= s.len(),
        forall|j: int| 0 <= j < i ==> event_time(#[trigger] s[j]) <= event_time(x),
        i < s.len() ==> event_time(x) < event_time(s[i]),
    ensures
        insert_by_time(s, x) == s.insert(i, x),
    decreases i,
{
    if i == 0 {
        if s.len() == 0 {
            assert(s.insert(0, x) =~= seq![x]);
        } else {
            assert(s.insert(0, x) =~= seq![x] + s);
        }
    } else {
        let t = s.drop_first();
        assert(event_time(s[0]) <= event_time(x));
        assert forall|j: int| 0 <= j < i - 1 implies event_time(#[trigger] t[j]) <= event_time(x) by {
            assert(t[j] == s[j + 1]);
        }
        if i - 1 < t.len() {
            assert(t[i - 1] == s[i]);
        }
        lemma_insert_time_at(t, x, i - 1);
        assert(seq![s[0]] + t.insert(i - 1, x) =~= s.insert(i, x));
    }
}

proof fn lemma_insert_time_multiset(s: Seq<Event>, x: Event)
    ensures
        insert_by_time(s, x).to_multiset() == s.to_multiset().insert(x),
    decreases s.len(),
{
    if s.len() == 0 {
        assert(seq![x] =~= s.push(x));
        vstd::seq_lib::to_multiset_build(s, x);
    } else if event_time(x) < event_time(s[0]) {
        assert(seq![x] + s =~= s.insert(0, x));
        vstd::seq_lib::to_multiset_insert(s, 0, x);
    } else {
        let rest = s.drop_first();
        let t = insert_by_time(rest, x);
        lemma_insert_time_multiset(rest, x);
        assert(seq![s[0]] + t =~= t.insert(0, s[0]));
        vstd::seq_lib::to_multiset_insert(t, 0, s[0]);
        assert(rest.insert(0, s[0]) =~= s);
        vstd::seq_lib::to_multiset_insert(rest, 0, s[0]);
        assert(t.to_multiset().insert(s[0]) =~= rest.to_multiset().insert(s[0]).insert(x));
    }
}

/// Replay order keeps every recorded event: the same events, each as often.
pub proof fn law_replay_keeps_events(events: Seq<Event>)
    ensures
        sort_by_time(events).to_multiset() == events.to_multiset(),
        sort_by_time(events).len() == events.len(),
    decreases events.len(),
{
    if events.len() == 0 {
        assert(sort_by_time(events) =~= events);
    } else {
        let prev = events.drop_last();
        law_replay_keeps_events(prev);
        lemma_insert_time_multiset(sort_by_time(prev), events.last());
        vstd::seq_lib::to_multiset_build(prev, events.last());
        assert(prev.push(events.last()) =~= events);
        vstd::seq_lib::to_multiset_len(sort_by_time(events));
        vstd::seq_lib::to_multiset_len(events);
    }
}

/// The recorded events in replay order: by time, events of equal time in the
/// order they were read.
pub fn sort_events(events: Vec<Event>) -> (r: Vec<Event>)
    ensures
        r@ == sort_by_time(events@),
        time_ordered(r@),
        r@.to_multiset() == events@.to_multiset(),
{
    proof {
        law_replay_keeps_events(events@);
    }
    let ghost all = events@;
    let total = events.len();
    let mut rest = events;
    let mut out: Vec<Event> = Vec::new();
    let mut k: usize = 0;
    while rest.len() > 0
        invariant
            0 <= k <= all.len(),
            all.len() == total,
            rest@ == all.skip(k as int),
            out@ == sort_by_time(all.take(k as int)),
            time_ordered(out@),
        decreases rest@.len(),
    {
        assert(k < all.len());
        let x = rest.remove(0);
        assert(all.take(k + 1).drop_last() =~= all.take(k as int));
        assert(all.take(k + 1).last() == all[k as int]);
        assert(rest@ =~= all.skip(k + 1));
        let t = event_time_of(&x);
        let mut i: usize = 0;
        while i < out.len()
            invariant
                0 <= i <= out@.len(),
                t == event_time(x),
                k < total,
                forall|j: int| 0 <= j < i ==> event_time(#[trigger] out@[j]) <= event_time(x),
            ensures
                0 <= i <= out@.len(),
                k < total,
                forall|j: int| 0 <= j < i ==> event_time(#[trigger] out@[j]) <= event_time(x),
                i < out@.len() ==> event_time(x) < event_time(out@[i as int]),
            decreases out@.len() - i,
        {
            if t < event_time_of(&out[i]) {
                break;
            }
            i = i + 1;
        }
        proof {
            lemma_insert_time_at(out@, x, i as int);
        }
        let ghost before = out@;
        out.insert(i, x);
        assert forall|a: int, b: int| 0 <= a < b < out@.len() implies event_time(#[trigger] out@[a]) <= event_time(
            #[trigger] out@[b],
        ) by {
            if b < i {
                assert(out@[a] == before[a] && out@[b] == before[b]);
            } else if b == i {
                assert(out@[a] == before[a]);
            } else if a < i {
                assert(out@[a] == before[a] && out@[b] == before[b - 1]);
            } else if a == i {
                assert(out@[b] == before[b - 1]);
                assert(event_time(before[i as int]) <= event_time(before[b - 1]));
            } else {
                assert(out@[a] == before[a - 1] && out@[b] == before[b - 1]);
            }
        }
        k = k + 1;
    }
    assert(all.take(all.len() as int) =~= all);
    out
}

/// Sum of the positions' unrealised profit, from zero; `None` when a step
/// overflows.
pub open spec fn pnl_sum(ps: Seq<Position>) -> Option<Dec>
    decreases ps.len(),
{
    if ps.len() == 0 {
        Some(Dec::whole(0))
    } else {
        match pnl_sum(ps.drop_last()) {
            Some(s) => decimal_checked_add(s, ps.last().unrealized_pnl.dec()),
            None => None,
        }
    }
}

/// Total profit of a backtest: the sum of the positions' unrealised profit;
/// `None` when the sum overflows.
pub fn total_pnl(positions: &Vec<Position>) -> (r: Option<Dec>)
    ensures
        r == pnl_sum(positions@),
{
    let mut sum = Dec::zero();
    let mut i: usize = 0;
    while i < positions.len()
        invariant
            0 <= i <= positions@.len(),
            pnl_sum(positions@.take(i as int)) == Some(sum),
        decreases positions@.len() - i,
    {
        assert(positions@.take(i + 1).drop_last() =~= positions@.take(i as int));
        assert(positions@.take(i + 1).last() == positions@[i as int]);
        match sum.checked_add(positions[i].unrealized_pnl.inner()) {
            Some(s) => sum = s,
            None => {
                proof {
                    lemma_pnl_none(positions@, i + 1);
                }
                return None;
            },
        }
        i = i + 1;
    }
    assert(positions@.take(positions@.len() as int) =~= positions@);
    Some(sum)
}

proof fn lemma_pnl_none(ps: Seq<Position>, j: int)
    requires
        0 <= j <= ps.len(),
        pnl_sum(ps.take(j)) is None,
    ensures
        pnl_sum(ps) is None,
    decreases ps.len(),
{
    if j == ps.len() {
        assert(ps.take(j) =~= ps);
    } else {
        assert(ps.drop_last().take(j) =~= ps.take(j));
        lemma_pnl_none(ps.drop_last(), j);
    }
}

} // verus!
