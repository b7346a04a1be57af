//! Stable ordering of book levels by price: bids best (highest) first, asks
//! best (lowest) first. Levels of equal price keep the order they came in.

use vstd::prelude::*;
use crate::decimal::{Price, Quantity};

verus! {

/// `x` belongs strictly ahead of `y`: a higher price among bids (`desc`), a
/// lower price among asks.
pub open spec fn goes_before(x: (Price, Quantity), y: (Price, Quantity), desc: bool) -> bool {
    if desc {
        x.0.value() > y.0.value()
    } else {
        x.0.value() < y.0.value()
    }
}

/// `x` placed after every level that it does not go before.
pub open spec fn insert_level(s: Seq<(Price, Quantity)>, x: (Price, Quantity), desc: bool) -> Seq<
    (Price, Quantity),
>
    decreases s.len(),
{
    if s.len() == 0 {
        seq![x]
    } else if goes_before(x, s[0], desc) {
        seq![x] + s
    } else {
        seq![s[0]] + insert_level(s.drop_first(), x, desc)
    }
}

/// The levels stably sorted: each inserted in turn, in input order.
pub open spec fn sort_levels(s: Seq<(Price, Quantity)>, desc: bool) -> Seq<(Price, Quantity)>
    decreases s.len(),
{
    if s.len() == 0 {
        Seq::empty()
    } else {
        insert_level(sort_levels(s.drop_last(), desc), s.last(), desc)
    }
}

/// No level goes before one ahead of it.
pub open spec fn ordered(s: Seq<(Price, Quantity)>, desc: bool) -> bool {
    forall|i: int, j: int| 0 <= i < j < s.len() ==> !goes_before(#[trigger] s[j], #[trigger] s[i], desc)
}

proof fn lemma_insert_at(s: Seq<(Price, Quantity)>, x: (Price, Quantity), desc: bool, i: int)
    requires
        0 <= i <= s.len(),
        forall|j: int| 0 <= j < i ==> !goes_before(x, #[trigger] s[j], desc),
        i < s.len() ==> goes_before(x, s[i], desc),
    ensures
        insert_level(s, x, desc) == s.insert(i, x),
    decreases i,
{
    if i == 0 {
        if s.len() == 0 {
            assert(s.insert(0, x) =~= seq![x]);
        } else {
            assert(s.insert(0, x) =~= seq![x] + s);
        }
    } else {
        let t = s.drop_first();
        assert(!goes_before(x, s[0], desc));
        assert forall|j: int| 0 <= j < i - 1 implies !goes_before(x, #[trigger] t[j], desc) by {
            assert(t[j] == s[j + 1]);
        }
        if i - 1 < t.len() {
            assert(t[i - 1] == s[i]);
        }
        lemma_insert_at(t, x, desc, i - 1);
        assert(seq![s[0]] + t.insert(i - 1, x) =~= s.insert(i, x));
    }
}

proof fn lemma_insert_ordered(s: Seq<(Price, Quantity)>, x: (Price, Quantity), desc: bool, i: int)
    requires
        ordered(s, desc),
        0 <= i <= s.len(),
        forall|j: int| 0 <= j < i ==> !goes_before(x, #[trigger] s[j], desc),
        i < s.len() ==> goes_before(x, s[i], desc),
    ensures
        ordered(s.insert(i, x), desc),
{
    let r = s.insert(i, x);
    assert forall|a: int, b: int| 0 <= a < b < r.len() implies !goes_before(#[trigger] r[b], #[trigger] r[a], desc) by {
        if b < i {
            assert(r[a] == s[a] && r[b] == s[b]);
        } else if b == i {
            assert(r[a] == s[a]);
        } else if a < i {
            assert(r[a] == s[a] && r[b] == s[b - 1]);
        } else if a == i {
            assert(r[b] == s[b - 1]);
            assert(!goes_before(s[b - 1], s[i], desc));
        } else {
            assert(r[a] == s[a - 1] && r[b] == s[b - 1]);
        }
    }
}

proof fn lemma_insert_level_multiset(s: Seq<(Price, Quantity)>, x: (Price, Quantity), desc: bool)
    ensures
        insert_level(s, x, desc).to_multiset() == s.to_multiset().insert(x),
    decreases s.len(),
{
    if s.len() == 0 {
        assert(seq![x] =~= s.push(x));
        vstd::seq_lib::to_multiset_build(s, x);
    } else if goes_before(x, s[0], desc) {
        assert(seq![x] + s =~= s.insert(0, x));
        vstd::seq_lib::to_multiset_insert(s, 0, x);
    } else {
        let rest = s.drop_first();
        let t = insert_level(rest, x, desc);
        lemma_insert_level_multiset(rest, x, desc);
        assert(seq![s[0]] + t =~= t.insert(0, s[0]));
        vstd::seq_lib::to_multiset_insert(t, 0, s[0]);
        assert(rest.insert(0, s[0]) =~= s);
        vstd::seq_lib::to_multiset_insert(rest, 0, s[0]);
        assert(t.to_multiset().insert(s[0]) =~= rest.to_multiset().insert(s[0]).insert(x));
    }
}

/// Sorting keeps the levels: the same levels, each as often, come out.
pub proof fn law_sort_keeps_levels(levels: Seq<(Price, Quantity)>, desc: bool)
    ensures
        sort_levels(levels, desc).to_multiset() == levels.to_multiset(),
        sort_levels(levels, desc).len() == levels.len(),
    decreases levels.len(),
{
    if levels.len() == 0 {
        assert(sort_levels(levels, desc) =~= levels);
    } else {
        let prev = levels.drop_last();
        law_sort_keeps_levels(prev, desc);
        lemma_insert_level_multiset(sort_levels(prev, desc), levels.last(), desc);
        vstd::seq_lib::to_multiset_build(prev, levels.last());
        assert(prev.push(levels.last()) =~= levels);
        vstd::seq_lib::to_multiset_len(sort_levels(levels, desc));
        vstd::seq_lib::to_multiset_len(levels);
    }
}

fn level_goes_before(x: &(Price, Quantity), y: &(Price, Quantity), desc: bool) -> (r: bool)
    ensures
        r == goes_before(*x, *y, desc),
{
    if desc {
        x.0.inner().gt(&y.0.inner())
    } else {
        x.0.inner().lt(&y.0.inner())
    }
}

/// Insert `x` into an ordered side after every level it does not go before.
fn insert_sorted(v: &mut Vec<(Price, Quantity)>, x: (Price, Quantity), desc: bool)
    requires
        ordered(old(v)@, desc),
    ensures
        final(v)@ == insert_level(old(v)@, x, desc),
        ordered(final(v)@, desc),
{
    let mut i: usize = 0;
    while i < v.len()
        invariant
            0 <= i <= v@.len(),
            forall|j: int| 0 <= j < i ==> !goes_before(x, #[trigger] v@[j], desc),
        ensures
            0 <= i <= v@.len(),
            forall|j: int| 0 <= j < i ==> !goes_before(x, #[trigger] v@[j], desc),
            i < v@.len() ==> goes_before(x, v@[i as int], desc),
        decreases v@.len() - i,
    {
        if level_goes_before(&x, &v[i], desc) {
            break;
        }
        i = i + 1;
    }
    proof {
        lemma_insert_at(v@, x, desc, i as int);
        lemma_insert_ordered(v@, x, desc, i as int);
    }
    v.insert(i, x);
}

/// The levels stably sorted by price: descending for bids, ascending for asks.
pub fn sort_by_price(levels: Vec<(Price, Quantity)>, desc: bool) -> (r: Vec<(Price, Quantity)>)
    ensures
        r@ == sort_levels(levels@, desc),
        ordered(r@, desc),
        r@.to_multiset() == levels@.to_multiset(),
{
    proof {
        law_sort_keeps_levels(levels@, desc);
    }
    let mut out: Vec<(Price, Quantity)> = Vec::new();
    let mut i: usize = 0;
    while i < levels.len()
        invariant
            0 <= i <= levels@.len(),
            out@ == sort_levels(levels@.take(i as int), desc),
            ordered(out@, desc),
        decreases levels@.len() - i,
    {
        assert(levels@.take(i + 1).drop_last() == levels@.take(i as int));
        assert(levels@.take(i + 1).last() == levels@[i as int]);
        insert_sorted(&mut out, levels[i], desc);
        i = i + 1;
    }
    assert(levels@.take(levels@.len() as int) == levels@);
    out
}

} // verus!
