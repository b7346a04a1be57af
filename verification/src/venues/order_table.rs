//! A small table keyed by order identifier (text), at most one entry per key.
//! Its meaning is the map from key to value.

use vstd::prelude::*;
use crate::text::str_eq;

verus! {

/// Map of the entries; a later entry for the same key wins.
pub open spec fn table_map<V>(s: Seq<(String, V)>) -> Map<Seq<char>, V>
    decreases s.len(),
{
    if s.len() == 0 {
        Map::empty()
    } else {
        table_map(s.drop_last()).insert(s.last().0@, s.last().1)
    }
}

pub open spec fn unique_keys<V>(s: Seq<(String, V)>) -> bool {
    forall|i: int, j: int| 0 <= i < j < s.len() ==> #[trigger] s[i].0@ != #[trigger] s[j].0@
}

proof fn lemma_map_absent<V>(s: Seq<(String, V)>, k: Seq<char>)
    requires
        forall|i: int| 0 <= i < s.len() ==> #[trigger] s[i].0@ != k,
    ensures
        !table_map(s).contains_key(k),
    decreases s.len(),
{
    if s.len() > 0 {
        let t = s.drop_last();
        assert forall|i: int| 0 <= i < t.len() implies #[trigger] t[i].0@ != k by {
            assert(t[i] == s[i]);
        }
        lemma_map_absent(t, k);
    }
}

proof fn lemma_map_at<V>(s: Seq<(String, V)>, i: int)
    requires
        unique_keys(s),
        0 <= i < s.len(),
    ensures
        table_map(s).contains_key(s[i].0@),
        table_map(s)[s[i].0@] == s[i].1,
    decreases s.len(),
{
    let t = s.drop_last();
    if i < s.len() - 1 {
        assert(t[i] == s[i]);
        assert forall|a: int, b: int| 0 <= a < b < t.len() implies #[trigger] t[a].0@ != #[trigger] t[b].0@ by {
            assert(t[a] == s[a] && t[b] == s[b]);
        }
        lemma_map_at(t, i);
        assert(s[i].0@ != s.last().0@);
    }
}

proof fn lemma_map_keys<V>(s: Seq<(String, V)>, k: Seq<char>)
    ensures
        table_map(s).contains_key(k) <==> exists|i: int| 0 <= i < s.len() && #[trigger] s[i].0@ == k,
    decreases s.len(),
{
    if s.len() > 0 {
        let t = s.drop_last();
        lemma_map_keys(t, k);
        if table_map(t).contains_key(k) {
            let i = choose|i: int| 0 <= i < t.len() && #[trigger] t[i].0@ == k;
            assert(s[i] == t[i]);
        }
        if exists|i: int| 0 <= i < s.len() && #[trigger] s[i].0@ == k {
            let i = choose|i: int| 0 <= i < s.len() && #[trigger] s[i].0@ == k;
            if i < s.len() - 1 {
                assert(t[i] == s[i]);
            }
        }
    }
}

proof fn lemma_map_update<V>(s: Seq<(String, V)>, i: int, v: V)
    requires
        unique_keys(s),
        0 <= i < s.len(),
    ensures
        table_map(s.update(i, (s[i].0, v))) =~= table_map(s).insert(s[i].0@, v),
    decreases s.len(),
{
    let u = s.update(i, (s[i].0, v));
    let t = s.drop_last();
    if i == s.len() - 1 {
        assert(u.drop_last() =~= t);
    } else {
        assert(u.drop_last() =~= t.update(i, (t[i].0, v)));
        assert forall|a: int, b: int| 0 <= a < b < t.len() implies #[trigger] t[a].0@ != #[trigger] t[b].0@ by {
            assert(t[a] == s[a] && t[b] == s[b]);
        }
        lemma_map_update(t, i, v);
        assert(s[i].0@ != s.last().0@);
    }
}

proof fn lemma_map_remove<V>(s: Seq<(String, V)>, i: int)
    requires
        unique_keys(s),
        0 <= i < s.len(),
    ensures
        table_map(s.remove(i)) =~= table_map(s).remove(s[i].0@),
    decreases s.len(),
{
    let r = s.remove(i);
    let t = s.drop_last();
    assert forall|a: int, b: int| 0 <= a < b < t.len() implies #[trigger] t[a].0@ != #[trigger] t[b].0@ by {
        assert(t[a] == s[a] && t[b] == s[b]);
    }
    if i == s.len() - 1 {
        assert(r =~= t);
        assert forall|a: int| 0 <= a < t.len() implies #[trigger] t[a].0@ != s[i].0@ by {
            assert(t[a] == s[a]);
        }
        lemma_map_absent(t, s[i].0@);
    } else {
        assert(r.drop_last() =~= t.remove(i));
        assert(r.last() == s.last());
        lemma_map_remove(t, i);
        assert(s[i].0@ != s.last().0@);
    }
}

/// Entries keyed by order identifier.
pub struct OrderTable<V> {
    pub entries: Vec<(String, V)>,
}

impl<V> OrderTable<V> {
    pub open spec fn wf(self) -> bool {
        unique_keys(self.entries@)
    }

    /// The table as a map from key to value.
    pub open spec fn view(self) -> Map<Seq<char>, V> {
        table_map(self.entries@)
    }

    pub fn new() -> (r: OrderTable<V>)
        ensures
            r.wf(),
            r.view() == Map::<Seq<char>, V>::empty(),
    {
        OrderTable { entries: Vec::new() }
    }

    fn position(&self, key: &str) -> (r: Option<usize>)
        ensures
            r matches Some(i) ==> i < self.entries@.len() && self.entries@[i as int].0@ == key@,
            r is None ==> forall|i: int| 0 <= i < self.entries@.len() ==> (#[trigger] self.entries@[i]).0@ != key@,
    {
        let mut i: usize = 0;
        while i < self.entries.len()
            invariant
                0 <= i <= self.entries@.len(),
                forall|j: int| 0 <= j < i ==> (#[trigger] self.entries@[j]).0@ != key@,
            decreases self.entries@.len() - i,
        {
            if str_eq(self.entries[i].0.as_str(), key) {
                return Some(i);
            }
            i = i + 1;
        }
        None
    }

    /// The value stored under `key`.
    pub fn get(&self, key: &str) -> (r: Option<&V>)
        requires
            self.wf(),
        ensures
            r matches Some(v) ==> self.view().contains_key(key@) && self.view()[key@] == *v,
            r is None ==> !self.view().contains_key(key@),
    {
        match self.position(key) {
            Some(i) => {
                proof {
                    lemma_map_at(self.entries@, i as int);
                }
                Some(&self.entries[i].1)
            },
            None => {
                proof {
                    lemma_map_absent(self.entries@, key@);
                }
                None
            },
        }
    }

    /// Whether `key` is stored.
    pub fn contains(&self, key: &str) -> (r: bool)
        requires
            self.wf(),
        ensures
            r == self.view().contains_key(key@),
    {
        self.get(key).is_some()
    }

    /// Store `value` under `key`, replacing any earlier value.
    pub fn insert(&mut self, key: String, value: V)
        requires
            old(self).wf(),
        ensures
            final(self).wf(),
            final(self).view() == old(self).view().insert(key@, value),
    {
        match self.position(key.as_str()) {
            Some(i) => {
                let ghost s = self.entries@;
                let (k, _old) = self.entries.remove(i);
                self.entries.insert(i, (k, value));
                proof {
                    assert(self.entries@ =~= s.update(i as int, (s[i as int].0, value)));
                    lemma_map_update(s, i as int, value);
                    assert forall|a: int, b: int| 0 <= a < b < self.entries@.len() implies #[trigger] self.entries@[a].0@
                        != #[trigger] self.entries@[b].0@ by {
                        assert(s[a].0@ != s[b].0@);
                    }
                }
            },
            None => {
                let ghost s = self.entries@;
                self.entries.push((key, value));
                proof {
                    assert(self.entries@.drop_last() =~= s);
                }
            },
        }
    }

    /// Remove `key`; returns the value it had.
    pub fn remove(&mut self, key: &str) -> (r: Option<V>)
        requires
            old(self).wf(),
        ensures
            final(self).wf(),
            final(self).view() == old(self).view().remove(key@),
            r matches Some(v) ==> old(self).view().contains_key(key@) && old(self).view()[key@] == v,
            r is None ==> !old(self).view().contains_key(key@),
    {
        match self.position(key) {
            Some(i) => {
                let ghost s = self.entries@;
                proof {
                    lemma_map_at(s, i as int);
                    lemma_map_remove(s, i as int);
                }
                let (_k, v) = self.entries.remove(i);
                assert forall|a: int, b: int| 0 <= a < b < self.entries@.len() implies #[trigger] self.entries@[a].0@
                    != #[trigger] self.entries@[b].0@ by {
                    if b < i {
                        assert(s[a].0@ != s[b].0@);
                    } else if a < i {
                        assert(s[a].0@ != s[b + 1].0@);
                    } else {
                        assert(s[a + 1].0@ != s[b + 1].0@);
                    }
                }
                Some(v)
            },
            None => {
                proof {
                    lemma_map_absent(self.entries@, key@);
                    assert(self.view().remove(key@) =~= self.view());
                }
                None
            },
        }
    }

    /// Remove every entry.
    pub fn clear(&mut self)
        ensures
            final(self).wf(),
            final(self).view() == Map::<Seq<char>, V>::empty(),
    {
        self.entries = Vec::new();
    }

    /// The keys, in table order; exactly the keys of the map, each once.
    pub fn keys(&self) -> (r: Vec<String>)
        requires
            self.wf(),
        ensures
            r@.len() == self.view().len(),
            forall|k: Seq<char>| self.view().contains_key(k) <==> exists|i: int| 0 <= i < r@.len() && #[trigger] r@[i]@ == k,
            forall|i: int, j: int| 0 <= i < j < r@.len() ==> #[trigger] r@[i]@ != #[trigger] r@[j]@,
            r@.len() == self.entries@.len(),
            forall|j: int| 0 <= j < r@.len() ==> #[trigger] r@[j]@ == self.entries@[j].0@,
    {
        let mut out: Vec<String> = Vec::new();
        let mut i: usize = 0;
        while i < self.entries.len()
            invariant
                0 <= i <= self.entries@.len(),
                out@.len() == i,
                forall|j: int| 0 <= j < i ==> #[trigger] out@[j]@ == self.entries@[j].0@,
            decreases self.entries@.len() - i,
        {
            out.push(self.entries[i].0.clone());
            i = i + 1;
        }
        proof {
            lemma_table_len(self.entries@);
            assert forall|k: Seq<char>| self.view().contains_key(k) <==> exists|i: int| 0 <= i < out@.len() && #[trigger] out@[i]@ == k by {
                lemma_map_keys(self.entries@, k);
                if exists|i: int| 0 <= i < out@.len() && #[trigger] out@[i]@ == k {
                    let i = choose|i: int| 0 <= i < out@.len() && #[trigger] out@[i]@ == k;
                    assert(self.entries@[i].0@ == k);
                }
                if exists|i: int| 0 <= i < self.entries@.len() && #[trigger] self.entries@[i].0@ == k {
                    let i = choose|i: int| 0 <= i < self.entries@.len() && #[trigger] self.entries@[i].0@ == k;
                    assert(out@[i]@ == k);
                }
            }
            assert forall|a: int, b: int| 0 <= a < b < out@.len() implies #[trigger] out@[a]@ != #[trigger] out@[b]@ by {
                assert(out@[a]@ == self.entries@[a].0@);
                assert(out@[b]@ == self.entries@[b].0@);
            }
        }
        out
    }

    pub fn len(&self) -> (r: usize)
        requires
            self.wf(),
        ensures
            r == self.view().len(),
    {
        proof {
            lemma_table_len(self.entries@);
        }
        self.entries.len()
    }
}

proof fn lemma_table_len<V>(s: Seq<(String, V)>)
    requires
        unique_keys(s),
    ensures
        table_map(s).len() == s.len(),
        table_map(s).dom().finite(),
    decreases s.len(),
{
    if s.len() > 0 {
        let t = s.drop_last();
        assert forall|a: int, b: int| 0 <= a < b < t.len() implies #[trigger] t[a].0@ != #[trigger] t[b].0@ by {
            assert(t[a] == s[a] && t[b] == s[b]);
        }
        lemma_table_len(t);
        assert forall|a: int| 0 <= a < t.len() implies #[trigger] t[a].0@ != s.last().0@ by {
            assert(t[a] == s[a]);
        }
        lemma_map_absent(t, s.last().0@);
    }
}

} // verus!
