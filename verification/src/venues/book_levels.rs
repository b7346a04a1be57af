//! One side of an incremental order book: price levels sorted by price, at most
//! one level per price value. A level first inserted at one price keeps that
//! price's representation when its size is later replaced.

use vstd::prelude::*;
use crate::decimal::Dec;

verus! {

/// Levels sorted strictly ascending by price value.
pub open spec fn sorted_levels(s: Seq<(Dec, Dec)>) -> bool {
    forall|i: int, j: int| 0 <= i < j < s.len() ==> #[trigger] s[i].0.value() < #[trigger] s[j].0.value()
}

/// Index of the first level whose price is not below `v`.
pub open spec fn lower_bound(s: Seq<(Dec, Dec)>, v: int) -> nat
    decreases s.len(),
{
    if s.len() == 0 {
        0
    } else if s[0].0.value() < v {
        1 + lower_bound(s.drop_first(), v)
    } else {
        0
    }
}

/// Set the size at price `p`: replace the size of an existing level of equal
/// value (keeping its price), or insert a new level in order.
pub open spec fn spec_insert(s: Seq<(Dec, Dec)>, p: Dec, size: Dec) -> Seq<(Dec, Dec)> {
    let i = lower_bound(s, p.value()) as int;
    if i < s.len() && s[i].0.value() == p.value() {
        s.update(i, (s[i].0, size))
    } else {
        s.insert(i, (p, size))
    }
}

/// Remove the level of equal price value, if any.
pub open spec fn spec_remove(s: Seq<(Dec, Dec)>, p: Dec) -> Seq<(Dec, Dec)> {
    let i = lower_bound(s, p.value()) as int;
    if i < s.len() && s[i].0.value() == p.value() {
        s.remove(i)
    } else {
        s
    }
}

/// Whether some level has a price of value `v`.
pub open spec fn has_price(s: Seq<(Dec, Dec)>, v: int) -> bool {
    exists|i: int| 0 <= i < s.len() && #[trigger] s[i].0.value() == v
}

proof fn lemma_lower_bound(s: Seq<(Dec, Dec)>, v: int, i: int)
    requires
        0 <= i <= s.len(),
        forall|k: int| 0 <= k < i ==> #[trigger] s[k].0.value() < v,
        i == s.len() || s[i].0.value() >= v,
    ensures
        lower_bound(s, v) == i,
    decreases s.len(),
{
    if s.len() > 0 && i > 0 {
        assert(s[0].0.value() < v);
        let t = s.drop_first();
        assert forall|k: int| 0 <= k < i - 1 implies #[trigger] t[k].0.value() < v by {
            assert(t[k] == s[k + 1]);
        }
        if i - 1 < t.len() {
            assert(t[i - 1] == s[i]);
        }
        lemma_lower_bound(t, v, i - 1);
    }
}

/// Position of the first level whose price is not below `p`.
fn find_index(levels: &Vec<(Dec, Dec)>, p: &Dec) -> (r: usize)
    requires
        sorted_levels(levels@),
    ensures
        r == lower_bound(levels@, p.value()),
        r <= levels@.len(),
        forall|k: int| 0 <= k < r ==> #[trigger] levels@[k].0.value() < p.value(),
        r < levels@.len() ==> levels@[r as int].0.value() >= p.value(),
{
    let mut i: usize = 0;
    while i < levels.len() && levels[i].0.lt(p)
        invariant
            i <= levels@.len(),
            forall|k: int| 0 <= k < i ==> #[trigger] levels@[k].0.value() < p.value(),
        decreases levels@.len() - i,
    {
        i = i + 1;
    }
    proof {
        lemma_lower_bound(levels@, p.value(), i as int);
    }
    i
}

/// `spec_insert` on a vector.
pub fn level_insert(levels: &mut Vec<(Dec, Dec)>, p: Dec, size: Dec)
    requires
        sorted_levels(old(levels)@),
    ensures
        final(levels)@ == spec_insert(old(levels)@, p, size),
        sorted_levels(final(levels)@),
{
    let i = find_index(levels, &p);
    if i < levels.len() && levels[i].0.eq_value(&p) {
        let key = levels[i].0;
        levels.set(i, (key, size));
        assert(sorted_levels(levels@)) by {
            assert forall|a: int, b: int| 0 <= a < b < levels@.len() implies #[trigger] levels@[a].0.value()
                < #[trigger] levels@[b].0.value() by {
                assert(old(levels)@[a].0.value() < old(levels)@[b].0.value());
            }
        }
    } else {
        levels.insert(i, (p, size));
        assert(sorted_levels(levels@)) by {
            assert forall|a: int, b: int| 0 <= a < b < levels@.len() implies #[trigger] levels@[a].0.value()
                < #[trigger] levels@[b].0.value() by {
                if b < i {
                    assert(old(levels)@[a].0.value() < old(levels)@[b].0.value());
                } else if b == i {
                } else if a < i {
                    assert(levels@[b] == old(levels)@[b - 1]);
                    if i < old(levels)@.len() {
                        assert(old(levels)@[i as int].0.value() <= old(levels)@[b - 1].0.value());
                    }
                } else if a == i {
                    assert(levels@[b] == old(levels)@[b - 1]);
                    assert(old(levels)@[i as int].0.value() <= old(levels)@[b - 1].0.value());
                } else {
                    assert(old(levels)@[a - 1].0.value() < old(levels)@[b - 1].0.value());
                }
            }
        }
    }
}

/// `spec_remove` on a vector.
pub fn level_remove(levels: &mut Vec<(Dec, Dec)>, p: Dec)
    requires
        sorted_levels(old(levels)@),
    ensures
        final(levels)@ == spec_remove(old(levels)@, p),
        sorted_levels(final(levels)@),
{
    let i = find_index(levels, &p);
    if i < levels.len() && levels[i].0.eq_value(&p) {
        levels.remove(i);
        assert(sorted_levels(levels@)) by {
            assert forall|a: int, b: int| 0 <= a < b < levels@.len() implies #[trigger] levels@[a].0.value()
                < #[trigger] levels@[b].0.value() by {
                if b < i {
                    assert(old(levels)@[a].0.value() < old(levels)@[b].0.value());
                } else if a < i {
                    assert(old(levels)@[a].0.value() < old(levels)@[b + 1].0.value());
                } else {
                    assert(old(levels)@[a + 1].0.value() < old(levels)@[b + 1].0.value());
                }
            }
        }
    }
}

proof fn lemma_lower_bound_props(s: Seq<(Dec, Dec)>, v: int)
    ensures
        lower_bound(s, v) <= s.len(),
        forall|k: int| 0 <= k < lower_bound(s, v) ==> #[trigger] s[k].0.value() < v,
        lower_bound(s, v) < s.len() ==> s[lower_bound(s, v) as int].0.value() >= v,
    decreases s.len(),
{
    if s.len() > 0 && s[0].0.value() < v {
        let t = s.drop_first();
        lemma_lower_bound_props(t, v);
        assert forall|k: int| 0 <= k < lower_bound(s, v) implies #[trigger] s[k].0.value() < v by {
            if k > 0 {
                assert(s[k] == t[k - 1]);
            }
        }
        if lower_bound(s, v) < s.len() {
            assert(s[lower_bound(s, v) as int] == t[lower_bound(t, v) as int]);
        }
    }
}

/// A change of size zero leaves no level at its price, and the side stays sorted.
pub proof fn law_zero_size_removes(s: Seq<(Dec, Dec)>, p: Dec)
    requires
        sorted_levels(s),
    ensures
        !has_price(spec_remove(s, p), p.value()),
        sorted_levels(spec_remove(s, p)),
        spec_remove(s, p).len() <= s.len(),
{
    lemma_lower_bound_props(s, p.value());
    let i = lower_bound(s, p.value()) as int;
    let r = spec_remove(s, p);
    if i < s.len() && s[i].0.value() == p.value() {
        assert forall|k: int| 0 <= k < r.len() implies #[trigger] r[k].0.value() != p.value() by {
            if k < i {
                assert(r[k] == s[k]);
            } else {
                assert(r[k] == s[k + 1]);
                assert(s[i].0.value() < s[k + 1].0.value());
            }
        }
        assert forall|a: int, b: int| 0 <= a < b < r.len() implies #[trigger] r[a].0.value() < #[trigger] r[b].0.value() by {
            if b < i {
                assert(r[a] == s[a] && r[b] == s[b]);
            } else if a < i {
                assert(r[a] == s[a] && r[b] == s[b + 1]);
            } else {
                assert(r[a] == s[a + 1] && r[b] == s[b + 1]);
            }
        }
    } else {
        assert forall|k: int| 0 <= k < s.len() implies #[trigger] s[k].0.value() != p.value() by {
            if k > i {
                assert(s[i].0.value() < s[k].0.value());
            }
        }
    }
}

/// A change of positive size leaves exactly one level at its price, with
/// that size, and the side stays sorted.
pub proof fn law_change_sets_level(s: Seq<(Dec, Dec)>, p: Dec, size: Dec)
    requires
        sorted_levels(s),
    ensures
        sorted_levels(spec_insert(s, p, size)),
        exists|k: int|
            0 <= k < spec_insert(s, p, size).len() && #[trigger] spec_insert(s, p, size)[k].0.value() == p.value()
                && spec_insert(s, p, size)[k].1 == size,
        forall|a: int, b: int|
            0 <= a < b < spec_insert(s, p, size).len() ==> #[trigger] spec_insert(s, p, size)[a].0.value()
                != #[trigger] spec_insert(s, p, size)[b].0.value(),
{
    lemma_lower_bound_props(s, p.value());
    let i = lower_bound(s, p.value()) as int;
    let r = spec_insert(s, p, size);
    if i < s.len() && s[i].0.value() == p.value() {
        assert(r[i].0.value() == p.value() && r[i].1 == size);
        assert forall|a: int, b: int| 0 <= a < b < r.len() implies #[trigger] r[a].0.value() < #[trigger] r[b].0.value() by {
            assert(s[a].0.value() < s[b].0.value());
        }
    } else {
        assert(r[i] == (p, size));
        assert(r[i].0.value() == p.value() && r[i].1 == size);
        assert forall|a: int, b: int| 0 <= a < b < r.len() implies #[trigger] r[a].0.value() < #[trigger] r[b].0.value() by {
            if b < i {
                assert(r[a] == s[a] && r[b] == s[b]);
            } else if b == i {
                assert(r[a] == s[a]);
            } else if a < i {
                assert(r[a] == s[a] && r[b] == s[b - 1]);
                assert(s[i].0.value() <= s[b - 1].0.value());
            } else if a == i {
                assert(r[b] == s[b - 1]);
                assert(s[i].0.value() <= s[b - 1].0.value());
            } else {
                assert(r[a] == s[a - 1] && r[b] == s[b - 1]);
            }
        }
    }
    assert forall|a: int, b: int| 0 <= a < b < r.len() implies #[trigger] r[a].0.value() != #[trigger] r[b].0.value() by {
        assert(r[a].0.value() < r[b].0.value());
    }
}

/// In a sorted side, the first level has the lowest price and the last the highest.
pub proof fn lemma_sorted_extremes(s: Seq<(Dec, Dec)>)
    requires
        sorted_levels(s),
        s.len() > 0,
    ensures
        forall|k: int| 0 <= k < s.len() ==> s[0].0.value() <= #[trigger] s[k].0.value(),
        forall|k: int| 0 <= k < s.len() ==> #[trigger] s[k].0.value() <= s[s.len() - 1].0.value(),
{
    assert forall|k: int| 0 <= k < s.len() implies s[0].0.value() <= #[trigger] s[k].0.value() by {
        if k > 0 {
            assert(s[0].0.value() < s[k].0.value());
        }
    }
    assert forall|k: int| 0 <= k < s.len() implies #[trigger] s[k].0.value() <= s[s.len() - 1].0.value() by {
        if k < s.len() - 1 {
            assert(s[k].0.value() < s[s.len() - 1].0.value());
        }
    }
}

} // verus!
