//! A small table keyed by instrument, at most one entry per instrument.
//! Its meaning is the map from instrument key to value.

use vstd::prelude::*;
use crate::types::instrument::{Exchange, InstrumentId, InstrumentKind};

verus! {

/// Map of the entries; a later entry for the same key wins.
pub open spec fn inst_map<V>(s: Seq<(InstrumentId, V)>) -> Map<(Exchange, InstrumentKind, Seq<char>), V>
    decreases s.len(),
{
    if s.len() == 0 {
        Map::empty()
    } else {
        inst_map(s.drop_last()).insert(s.last().0.key(), s.last().1)
    }
}

pub open spec fn unique_insts<V>(s: Seq<(InstrumentId, V)>) -> bool {
    forall|i: int, j: int| 0 <= i < j < s.len() ==> #[trigger] s[i].0.key() != #[trigger] s[j].0.key()
}

proof fn lemma_imap_absent<V>(s: Seq<(InstrumentId, V)>, k: (Exchange, InstrumentKind, Seq<char>))
    requires
        forall|i: int| 0 <= i < s.len() ==> #[trigger] s[i].0.key() != k,
    ensures
        !inst_map(s).contains_key(k),
    decreases s.len(),
{
    if s.len() > 0 {
        let t = s.drop_last();
        assert forall|i: int| 0 <= i < t.len() implies #[trigger] t[i].0.key() != k by {
            assert(t[i] == s[i]);
        }
        lemma_imap_absent(t, k);
    }
}

proof fn lemma_imap_at<V>(s: Seq<(InstrumentId, V)>, i: int)
    requires
        unique_insts(s),
        0 <= i < s.len(),
    ensures
        inst_map(s).contains_key(s[i].0.key()),
        inst_map(s)[s[i].0.key()] == s[i].1,
    decreases s.len(),
{
    let t = s.drop_last();
    if i < s.len() - 1 {
        assert(t[i] == s[i]);
        assert forall|a: int, b: int| 0 <= a < b < t.len() implies #[trigger] t[a].0.key() != #[trigger] t[b].0.key() by {
            assert(t[a] == s[a] && t[b] == s[b]);
        }
        lemma_imap_at(t, i);
        assert(s[i].0.key() != s.last().0.key());
    }
}

proof fn lemma_imap_keys<V>(s: Seq<(InstrumentId, V)>, k: (Exchange, InstrumentKind, Seq<char>))
    ensures
        inst_map(s).contains_key(k) <==> exists|i: int| 0 <= i < s.len() && #[trigger] s[i].0.key() == k,
    decreases s.len(),
{
    if s.len() > 0 {
        let t = s.drop_last();
        lemma_imap_keys(t, k);
        if inst_map(t).contains_key(k) {
            let i = choose|i: int| 0 <= i < t.len() && #[trigger] t[i].0.key() == k;
            assert(s[i] == t[i]);
        }
        if exists|i: int| 0 <= i < s.len() && #[trigger] s[i].0.key() == k {
            let i = choose|i: int| 0 <= i < s.len() && #[trigger] s[i].0.key() == k;
            if i < s.len() - 1 {
                assert(t[i] == s[i]);
            }
        }
    }
}

proof fn lemma_imap_update<V>(s: Seq<(InstrumentId, V)>, i: int, v: V)
    requires
        unique_insts(s),
        0 <= i < s.len(),
    ensures
        inst_map(s.update(i, (s[i].0, v))) =~= inst_map(s).insert(s[i].0.key(), v),
    decreases s.len(),
{
    let u = s.update(i, (s[i].0, v));
    let t = s.drop_last();
    if i == s.len() - 1 {
        assert(u.drop_last() =~= t);
    } else {
        assert(u.drop_last() =~= t.update(i, (t[i].0, v)));
        assert forall|a: int, b: int| 0 <= a < b < t.len() implies #[trigger] t[a].0.key() != #[trigger] t[b].0.key() by {
            assert(t[a] == s[a] && t[b] == s[b]);
        }
        lemma_imap_update(t, i, v);
        assert(s[i].0.key() != s.last().0.key());
    }
}

proof fn lemma_imap_remove<V>(s: Seq<(InstrumentId, V)>, i: int)
    requires
        unique_insts(s),
        0 <= i < s.len(),
    ensures
        inst_map(s.remove(i)) =~= inst_map(s).remove(s[i].0.key()),
    decreases s.len(),
{
    let r = s.remove(i);
    let t = s.drop_last();
    assert forall|a: int, b: int| 0 <= a < b < t.len() implies #[trigger] t[a].0.key() != #[trigger] t[b].0.key() by {
        assert(t[a] == s[a] && t[b] == s[b]);
    }
    if i == s.len() - 1 {
        assert(r =~= t);
        assert forall|a: int| 0 <= a < t.len() implies #[trigger] t[a].0.key() != s[i].0.key() by {
            assert(t[a] == s[a]);
        }
        lemma_imap_absent(t, s[i].0.key());
    } else {
        assert(r.drop_last() =~= t.remove(i));
        assert(r.last() == s.last());
        lemma_imap_remove(t, i);
        assert(s[i].0.key() != s.last().0.key());
    }
}

/// Entries keyed by instrument.
pub struct InstrumentTable<V> {
    pub entries: Vec<(InstrumentId, V)>,
}

impl<V> InstrumentTable<V> {
    pub open spec fn wf(self) -> bool {
        unique_insts(self.entries@)
    }

    /// The table as a map from key to value.
    pub open spec fn view(self) -> Map<(Exchange, InstrumentKind, Seq<char>), V> {
        inst_map(self.entries@)
    }

    pub fn new() -> (r: InstrumentTable<V>)
        ensures
            r.wf(),
            r.view() == Map::<(Exchange, InstrumentKind, Seq<char>), V>::empty(),
    {
        InstrumentTable { entries: Vec::new() }
    }

    fn position(&self, key: &InstrumentId) -> (r: Option<usize>)
        ensures
            r matches Some(i) ==> i < self.entries@.len() && self.entries@[i as int].0.key() == key.key(),
            r is None ==> forall|i: int| 0 <= i < self.entries@.len() ==> (#[trigger] self.entries@[i]).0.key() != key.key(),
    {
        let mut i: usize = 0;
        while i < self.entries.len()
            invariant
                0 <= i <= self.entries@.len(),
                forall|j: int| 0 <= j < i ==> (#[trigger] self.entries@[j]).0.key() != key.key(),
            decreases self.entries@.len() - i,
        {
            if self.entries[i].0.same_as(key) {
                return Some(i);
            }
            i = i + 1;
        }
        None
    }

    /// The value stored under `key`.
    pub fn get(&self, key: &InstrumentId) -> (r: Option<&V>)
        requires
            self.wf(),
        ensures
            r matches Some(v) ==> self.view().contains_key(key.key()) && self.view()[key.key()] == *v,
            r is None ==> !self.view().contains_key(key.key()),
    {
        match self.position(key) {
            Some(i) => {
                proof {
                    lemma_imap_at(self.entries@, i as int);
                }
                Some(&self.entries[i].1)
            },
            None => {
                proof {
                    lemma_imap_absent(self.entries@, key.key());
                }
                None
            },
        }
    }

    /// Whether `key` is stored.
    pub fn contains(&self, key: &InstrumentId) -> (r: bool)
        requires
            self.wf(),
        ensures
            r == self.view().contains_key(key.key()),
    {
        self.get(key).is_some()
    }

    /// Store `value` under `key`, replacing any earlier value.
    pub fn insert(&mut self, key: InstrumentId, value: V)
        requires
            old(self).wf(),
        ensures
            final(self).wf(),
            final(self).view() == old(self).view().insert(key.key(), value),
    {
        match self.position(&key) {
            Some(i) => {
                let ghost s = self.entries@;
                let (k, _old) = self.entries.remove(i);
                self.entries.insert(i, (k, value));
                proof {
                    assert(self.entries@ =~= s.update(i as int, (s[i as int].0, value)));
                    lemma_imap_update(s, i as int, value);
                    assert forall|a: int, b: int| 0 <= a < b < self.entries@.len() implies #[trigger] self.entries@[a].0.key()
                        != #[trigger] self.entries@[b].0.key() by {
                        assert(s[a].0.key() != s[b].0.key());
                    }
                }
            },
            None => {
                let ghost s = self.entries@;
                self.entries.push((key, value));
                proof {
                    assert(self.entries@.drop_last() =~= s);
                }
            },
        }
    }

    /// Remove `key`; returns the value it had.
    pub fn remove(&mut self, key: &InstrumentId) -> (r: Option<V>)
        requires
            old(self).wf(),
        ensures
            final(self).wf(),
            final(self).view() == old(self).view().remove(key.key()),
            r matches Some(v) ==> old(self).view().contains_key(key.key()) && old(self).view()[key.key()] == v,
            r is None ==> !old(self).view().contains_key(key.key()),
    {
        match self.position(key) {
            Some(i) => {
                let ghost s = self.entries@;
                proof {
                    lemma_imap_at(s, i as int);
                    lemma_imap_remove(s, i as int);
                }
                let (_k, v) = self.entries.remove(i);
                assert forall|a: int, b: int| 0 <= a < b < self.entries@.len() implies #[trigger] self.entries@[a].0.key()
                    != #[trigger] self.entries@[b].0.key() by {
                    if b < i {
                        assert(s[a].0.key() != s[b].0.key());
                    } else if a < i {
                        assert(s[a].0.key() != s[b + 1].0.key());
                    } else {
                        assert(s[a + 1].0.key() != s[b + 1].0.key());
                    }
                }
                Some(v)
            },
            None => {
                proof {
                    lemma_imap_absent(self.entries@, key.key());
                    assert(self.view().remove(key.key()) =~= self.view());
                }
                None
            },
        }
    }

    /// Remove every entry.
    pub fn clear(&mut self)
        ensures
            final(self).wf(),
            final(self).view() == Map::<(Exchange, InstrumentKind, Seq<char>), V>::empty(),
    {
        self.entries = Vec::new();
    }

    /// The keys, in table order; exactly the keys of the map, each once.
    pub fn keys(&self) -> (r: Vec<InstrumentId>)
        requires
            self.wf(),
        ensures
            r@.len() == self.view().len(),
            forall|k: (Exchange, InstrumentKind, Seq<char>)| self.view().contains_key(k) <==> exists|i: int| 0 <= i < r@.len() && #[trigger] r@[i].key() == k,
            forall|i: int, j: int| 0 <= i < j < r@.len() ==> #[trigger] r@[i].key() != #[trigger] r@[j].key(),
            r@.len() == self.entries@.len(),
            forall|j: int| 0 <= j < r@.len() ==> #[trigger] r@[j] == self.entries@[j].0,
    {
        let mut out: Vec<InstrumentId> = Vec::new();
        let mut i: usize = 0;
        while i < self.entries.len()
            invariant
                0 <= i <= self.entries@.len(),
                out@.len() == i,
                forall|j: int| 0 <= j < i ==> #[trigger] out@[j].key() == self.entries@[j].0.key(),
                forall|j: int| 0 <= j < i ==> #[trigger] out@[j] == self.entries@[j].0,
            decreases self.entries@.len() - i,
        {
            out.push(self.entries[i].0.clone_id());
            i = i + 1;
        }
        proof {
            lemma_itable_len(self.entries@);
            assert forall|k: (Exchange, InstrumentKind, Seq<char>)| self.view().contains_key(k) <==> exists|i: int| 0 <= i < out@.len() && #[trigger] out@[i].key() == k by {
                lemma_imap_keys(self.entries@, k);
                if exists|i: int| 0 <= i < out@.len() && #[trigger] out@[i].key() == k {
                    let i = choose|i: int| 0 <= i < out@.len() && #[trigger] out@[i].key() == k;
                    assert(self.entries@[i].0.key() == k);
                }
                if exists|i: int| 0 <= i < self.entries@.len() && #[trigger] self.entries@[i].0.key() == k {
                    let i = choose|i: int| 0 <= i < self.entries@.len() && #[trigger] self.entries@[i].0.key() == k;
                    assert(out@[i].key() == k);
                }
            }
            assert forall|a: int, b: int| 0 <= a < b < out@.len() implies #[trigger] out@[a].key() != #[trigger] out@[b].key() by {
                assert(out@[a].key() == self.entries@[a].0.key());
                assert(out@[b].key() == self.entries@[b].0.key());
            }
        }
        out
    }

    pub fn len(&self) -> (r: usize)
        requires
            self.wf(),
        ensures
            r == self.view().len(),
    {
        proof {
            lemma_itable_len(self.entries@);
        }
        self.entries.len()
    }
}

proof fn lemma_itable_len<V>(s: Seq<(InstrumentId, V)>)
    requires
        unique_insts(s),
    ensures
        inst_map(s).len() == s.len(),
        inst_map(s).dom().finite(),
    decreases s.len(),
{
    if s.len() > 0 {
        let t = s.drop_last();
        assert forall|a: int, b: int| 0 <= a < b < t.len() implies #[trigger] t[a].0.key() != #[trigger] t[b].0.key() by {
            assert(t[a] == s[a] && t[b] == s[b]);
        }
        lemma_itable_len(t);
        assert forall|a: int| 0 <= a < t.len() implies #[trigger] t[a].0.key() != s.last().0.key() by {
            assert(t[a] == s[a]);
        }
        lemma_imap_absent(t, s.last().0.key());
    }
}

} // verus!
