//! A small map from entry identifiers to values, kept as a list of pairs in
//! insertion order with no identifier occurring twice.

use vstd::prelude::*;

use crate::model::EntryId;

verus! {

/// The map that a list of pairs stands for (a later pair overrides an
/// earlier one with the same key).
pub open spec fn pairs_map<V>(s: Seq<(EntryId, V)>) -> Map<EntryId, V>
    decreases s.len(),
{
    if s.len() == 0 {
        Map::empty()
    } else {
        pairs_map(s.drop_last()).insert(s.last().0, s.last().1)
    }
}

/// No key occurs twice in the list.
pub open spec fn keys_distinct<V>(s: Seq<(EntryId, V)>) -> bool {
    forall|i: int, j: int| 0 <= i < s.len() && 0 <= j < s.len() && i != j ==> s[i].0 != s[j].0
}

/// A key is in the map exactly when some pair carries it, and then the map
/// holds that pair's value.
pub proof fn lemma_pairs_map_lookup<V>(s: Seq<(EntryId, V)>)
    requires
        keys_distinct(s),
    ensures
        forall|k: EntryId| #[trigger] pairs_map(s).contains_key(k) <==> exists|i: int| 0 <= i < s.len() && s[i].0 == k,
        forall|i: int| 0 <= i < s.len() ==> pairs_map(s).contains_key(#[trigger] s[i].0) && pairs_map(s)[s[i].0] == s[i].1,
    decreases s.len(),
{
    if s.len() > 0 {
        let t = s.drop_last();
        assert(keys_distinct(t));
        lemma_pairs_map_lookup(t);
        assert forall|k: EntryId| #[trigger] pairs_map(s).contains_key(k) <==> exists|i: int| 0 <= i < s.len() && s[i].0 == k by {
            if pairs_map(s).contains_key(k) {
                if k == s.last().0 {
                    assert(s[s.len() - 1].0 == k);
                } else {
                    assert(pairs_map(t).contains_key(k));
                    let i = choose|i: int| 0 <= i < t.len() && t[i].0 == k;
                    assert(s[i].0 == k);
                }
            }
            if exists|i: int| 0 <= i < s.len() && s[i].0 == k {
                let i = choose|i: int| 0 <= i < s.len() && s[i].0 == k;
                if i < s.len() - 1 {
                    assert(t[i].0 == k);
                }
            }
        }
        assert forall|i: int| 0 <= i < s.len() implies pairs_map(s).contains_key(#[trigger] s[i].0) && pairs_map(s)[s[i].0] == s[i].1 by {
            if i < s.len() - 1 {
                assert(t[i] == s[i]);
                assert(s[i].0 != s.last().0);
            }
        }
    }
}

/// Replacing the value of an existing key.
pub proof fn lemma_pairs_map_update<V>(s: Seq<(EntryId, V)>, i: int, v: V)
    requires
        keys_distinct(s),
        0 <= i < s.len(),
    ensures
        pairs_map(s.update(i, (s[i].0, v))) == pairs_map(s).insert(s[i].0, v),
        keys_distinct(s.update(i, (s[i].0, v))),
    decreases s.len(),
{
    let u = s.update(i, (s[i].0, v));
    assert(keys_distinct(u));
    if i == s.len() - 1 {
        assert(u.drop_last() =~= s.drop_last());
        assert(pairs_map(u) =~= pairs_map(s).insert(s[i].0, v));
    } else {
        let t = s.drop_last();
        assert(keys_distinct(t));
        lemma_pairs_map_update(t, i, v);
        assert(u.drop_last() =~= t.update(i, (t[i].0, v)));
        assert(s[i].0 != s.last().0);
        assert(pairs_map(u) =~= pairs_map(s).insert(s[i].0, v));
    }
}

/// Removing the pair of a key.
pub proof fn lemma_pairs_map_remove<V>(s: Seq<(EntryId, V)>, i: int)
    requires
        keys_distinct(s),
        0 <= i < s.len(),
    ensures
        pairs_map(s.remove(i)) == pairs_map(s).remove(s[i].0),
        keys_distinct(s.remove(i)),
    decreases s.len(),
{
    let r = s.remove(i);
    assert(keys_distinct(r)) by {
        assert forall|a: int, b: int| 0 <= a < r.len() && 0 <= b < r.len() && a != b implies r[a].0 != r[b].0 by {
            let a2 = if a < i { a } else { a + 1 };
            let b2 = if b < i { b } else { b + 1 };
            assert(r[a] == s[a2]);
            assert(r[b] == s[b2]);
        }
    }
    let t = s.drop_last();
    assert(keys_distinct(t));
    if i == s.len() - 1 {
        assert(r =~= t);
        lemma_pairs_map_lookup(t);
        assert forall|j: int| 0 <= j < t.len() implies t[j].0 != s[i].0 by {
            assert(s[j] == t[j]);
        }
        assert(!pairs_map(t).contains_key(s[i].0));
        assert(pairs_map(r) =~= pairs_map(s).remove(s[i].0));
    } else {
        lemma_pairs_map_remove(t, i);
        assert(r.drop_last() =~= t.remove(i));
        assert(r.last() == s.last());
        assert(s[i].0 != s.last().0);
        assert(pairs_map(r) =~= pairs_map(s).remove(s[i].0));
    }
}

/// A map from entry identifiers to values.
#[derive(Debug, Clone)]
pub struct IdMap<V> {
    pairs: Vec<(EntryId, V)>,
}

impl<V> View for IdMap<V> {
    type V = Map<EntryId, V>;

    closed spec fn view(&self) -> Map<EntryId, V> {
        pairs_map(self.pairs@)
    }
}

impl<V> IdMap<V> {
    /// The pairs in insertion order.
    pub closed spec fn entries(&self) -> Seq<(EntryId, V)> {
        self.pairs@
    }

    /// Well-formedness: no identifier occurs twice, and the map is the
    /// pairs read as a map.
    pub closed spec fn wf(&self) -> bool {
        keys_distinct(self.pairs@)
    }

    /// The pairs and the map agree: every pair is in the map and every key
    /// of the map has a pair.
    pub proof fn lemma_entries(&self)
        requires
            self.wf(),
        ensures
            forall|k: EntryId| #[trigger] self@.contains_key(k) <==> exists|i: int| 0 <= i < self.entries().len() && self.entries()[i].0 == k,
            forall|i: int| 0 <= i < self.entries().len() ==> self@.contains_key(#[trigger] self.entries()[i].0) && self@[self.entries()[i].0] == self.entries()[i].1,
            keys_distinct(self.entries()),
    {
        lemma_pairs_map_lookup(self.pairs@);
        assert forall|k: EntryId| #[trigger] self@.contains_key(k) <==> exists|i: int| 0 <= i < self.entries().len() && self.entries()[i].0 == k by {
            if self@.contains_key(k) {
                let i = choose|i: int| 0 <= i < self.pairs@.len() && self.pairs@[i].0 == k;
                assert(self.entries()[i].0 == k);
            }
            if exists|i: int| 0 <= i < self.entries().len() && self.entries()[i].0 == k {
                let i = choose|i: int| 0 <= i < self.entries().len() && self.entries()[i].0 == k;
                assert(self.pairs@[i].0 == k);
            }
        }
    }

    /// An empty map.
    pub fn new() -> (r: Self)
        ensures
            r.wf(),
            r@ == Map::<EntryId, V>::empty(),
            r.entries().len() == 0,
    {
        IdMap { pairs: Vec::new() }
    }

    /// The number of pairs.
    pub fn len(&self) -> (r: usize)
        ensures
            r == self.entries().len(),
    {
        self.pairs.len()
    }

    /// The pair at position `i`.
    pub fn entry_at(&self, i: usize) -> (r: (EntryId, &V))
        requires
            i < self.entries().len(),
        ensures
            r.0 == self.entries()[i as int].0,
            *r.1 == self.entries()[i as int].1,
    {
        let p = &self.pairs[i];
        (p.0, &p.1)
    }

    fn position(&self, id: EntryId) -> (r: Option<usize>)
        requires
            self.wf(),
        ensures
            match r {
                Some(i) => i < self.entries().len() && self.entries()[i as int].0 == id,
                None => !self@.contains_key(id),
            },
    {
        proof {
            lemma_pairs_map_lookup(self.pairs@);
        }
        let mut i: usize = 0;
        while i < self.pairs.len()
            invariant
                i <= self.pairs@.len(),
                forall|j: int| 0 <= j < i ==> self.pairs@[j].0 != id,
            decreases self.pairs@.len() - i,
        {
            if self.pairs[i].0 == id {
                return Some(i);
            }
            i = i + 1;
        }
        None
    }

    /// Whether `id` has a value.
    pub fn contains_key(&self, id: EntryId) -> (r: bool)
        requires
            self.wf(),
        ensures
            r == self@.contains_key(id),
    {
        proof {
            lemma_pairs_map_lookup(self.pairs@);
        }
        self.position(id).is_some()
    }

    /// The value of `id`, if any.
    pub fn get(&self, id: EntryId) -> (r: Option<&V>)
        requires
            self.wf(),
        ensures
            match r {
                Some(v) => self@.contains_key(id) && *v == self@[id],
                None => !self@.contains_key(id),
            },
    {
        proof {
            lemma_pairs_map_lookup(self.pairs@);
        }
        match self.position(id) {
            Some(i) => Some(&self.pairs[i].1),
            None => None,
        }
    }

    /// Sets the value of `id`, replacing any previous one.
    pub fn insert(&mut self, id: EntryId, v: V)
        requires
            old(self).wf(),
        ensures
            final(self).wf(),
            final(self)@ == old(self)@.insert(id, v),
    {
        match self.position(id) {
            Some(i) => {
                proof {
                    lemma_pairs_map_update(self.pairs@, i as int, v);
                }
                self.pairs.set(i, (id, v));
            },
            None => {
                proof {
                    lemma_pairs_map_lookup(self.pairs@);
                    assert forall|j: int| 0 <= j < self.pairs@.len() implies self.pairs@[j].0 != id by {
                        if self.pairs@[j].0 == id {
                            assert(self@.contains_key(self.pairs@[j].0));
                        }
                    }
                }
                self.pairs.push((id, v));
                assert(self.pairs@.drop_last() =~= old(self).pairs@);
            },
        }
    }

    /// Removes the value of `id`, returning it.
    pub fn remove(&mut self, id: EntryId) -> (r: Option<V>)
        requires
            old(self).wf(),
        ensures
            final(self).wf(),
            final(self)@ == old(self)@.remove(id),
            match r {
                Some(v) => old(self)@.contains_key(id) && v == old(self)@[id],
                None => !old(self)@.contains_key(id),
            },
    {
        proof {
            lemma_pairs_map_lookup(self.pairs@);
        }
        match self.position(id) {
            Some(i) => {
                proof {
                    lemma_pairs_map_remove(self.pairs@, i as int);
                }
                let (_, v) = self.pairs.remove(i);
                Some(v)
            },
            None => {
                assert(old(self)@.remove(id) =~= old(self)@);
                None
            },
        }
    }

    /// The identifiers, in insertion order.
    pub fn ids(&self) -> (r: Vec<EntryId>)
        requires
            self.wf(),
        ensures
            r@ == self.entries().map_values(|p: (EntryId, V)| p.0),
            forall|k: EntryId| self@.contains_key(k) <==> r@.contains(k),
    {
        proof {
            lemma_pairs_map_lookup(self.pairs@);
        }
        let mut r: Vec<EntryId> = Vec::new();
        let mut i: usize = 0;
        while i < self.pairs.len()
            invariant
                i <= self.pairs@.len(),
                r@.len() == i,
                forall|j: int| 0 <= j < i ==> r@[j] == #[trigger] self.pairs@[j].0,
            decreases self.pairs@.len() - i,
        {
            r.push(self.pairs[i].0);
            i = i + 1;
        }
        assert(r@ =~= self.entries().map_values(|p: (EntryId, V)| p.0));
        assert forall|k: EntryId| self@.contains_key(k) <==> r@.contains(k) by {
            if self@.contains_key(k) {
                let j = choose|j: int| 0 <= j < self.pairs@.len() && self.pairs@[j].0 == k;
                assert(r@[j] == k);
            }
            if r@.contains(k) {
                let j = choose|j: int| 0 <= j < r@.len() && r@[j] == k;
                assert(self.pairs@[j].0 == k);
            }
        }
        r
    }
}

} // verus!
