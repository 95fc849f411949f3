//! A small map from browser identifiers, kept as a list without repeated keys.
use vstd::prelude::*;

verus! {

/// A map from browser identifiers.
pub struct IdMap<V> {
    pub entries: Vec<(i32, V)>,
}

/// Whether no two entries have the same key.
pub open spec fn keys_differ<V>(s: Seq<(i32, V)>) -> bool {
    forall|i: int, j: int| 0 <= i < j < s.len() ==> (#[trigger] s[i]).0 != (#[trigger] s[j]).0
}

/// Whether some entry has this key.
pub open spec fn has_key<V>(s: Seq<(i32, V)>, id: i32) -> bool {
    exists|i: int| 0 <= i < s.len() && (#[trigger] s[i]).0 == id
}

/// The map that a list of entries stands for.
pub open spec fn as_map<V>(s: Seq<(i32, V)>) -> Map<i32, V> {
    Map::new(
        |id: i32| has_key(s, id),
        |id: i32| s[choose|i: int| 0 <= i < s.len() && (#[trigger] s[i]).0 == id].1,
    )
}

/// Each entry of a list without repeated keys is in its map.
pub proof fn lemma_entry<V>(s: Seq<(i32, V)>, i: int)
    requires
        keys_differ(s),
        0 <= i < s.len(),
    ensures
        as_map(s).dom().contains(s[i].0),
        as_map(s)[s[i].0] == s[i].1,
{
    let id = s[i].0;
    let k = choose|k: int| 0 <= k < s.len() && (#[trigger] s[k]).0 == id;
    assert(has_key(s, id));
    assert(k == i) by {
        if k < i {
            assert(s[k].0 != s[i].0);
        } else if i < k {
            assert(s[i].0 != s[k].0);
        }
    }
}

/// A key of the map belongs to an entry.
pub proof fn lemma_key<V>(s: Seq<(i32, V)>, id: i32) -> (i: int)
    requires
        as_map(s).dom().contains(id),
    ensures
        0 <= i < s.len(),
        s[i].0 == id,
{
    choose|i: int| 0 <= i < s.len() && (#[trigger] s[i]).0 == id
}

/// Adding an entry with a new key adds it to the map.
pub proof fn lemma_push<V>(s: Seq<(i32, V)>, e: (i32, V))
    requires
        keys_differ(s),
        !has_key(s, e.0),
    ensures
        keys_differ(s.push(e)),
        as_map(s.push(e)) == as_map(s).insert(e.0, e.1),
{
    let t = s.push(e);
    assert forall|i: int, j: int| 0 <= i < j < t.len() implies (#[trigger] t[i]).0 != (
    #[trigger] t[j]).0 by {
        if j == s.len() {
            assert(t[i] == s[i]);
        }
    }
    assert forall|id: i32| as_map(t).dom().contains(id) <==> as_map(s).insert(
        e.0,
        e.1,
    ).dom().contains(id) by {
        if as_map(t).dom().contains(id) {
            let i = lemma_key(t, id);
            if i < s.len() {
                assert(s[i].0 == id);
            }
        }
        if as_map(s).dom().contains(id) {
            let i = lemma_key(s, id);
            assert(t[i].0 == id);
        }
        if id == e.0 {
            assert(t[s.len() as int].0 == id);
        }
    }
    assert forall|id: i32| as_map(t).dom().contains(id) implies #[trigger] as_map(t)[id]
        == as_map(s).insert(e.0, e.1)[id] by {
        let i = lemma_key(t, id);
        lemma_entry(t, i);
        if i < s.len() {
            lemma_entry(s, i);
            assert(s[i].0 == id);
        }
    }
    assert(as_map(t) =~= as_map(s).insert(e.0, e.1));
}

/// Replacing the value of an entry replaces it in the map.
proof fn lemma_update<V>(s: Seq<(i32, V)>, i: int, v: V)
    requires
        keys_differ(s),
        0 <= i < s.len(),
    ensures
        keys_differ(s.update(i, (s[i].0, v))),
        as_map(s.update(i, (s[i].0, v))) == as_map(s).insert(s[i].0, v),
{
    let t = s.update(i, (s[i].0, v));
    assert forall|a: int, b: int| 0 <= a < b < t.len() implies (#[trigger] t[a]).0 != (
    #[trigger] t[b]).0 by {
        assert(t[a].0 == s[a].0);
        assert(t[b].0 == s[b].0);
    }
    assert forall|id: i32| as_map(t).dom().contains(id) <==> as_map(s).insert(
        s[i].0,
        v,
    ).dom().contains(id) by {
        if as_map(t).dom().contains(id) {
            let k = lemma_key(t, id);
            assert(s[k].0 == id);
        }
        if as_map(s).dom().contains(id) {
            let k = lemma_key(s, id);
            assert(t[k].0 == id);
        }
        assert(t[i].0 == s[i].0);
    }
    assert forall|id: i32| as_map(t).dom().contains(id) implies #[trigger] as_map(t)[id]
        == as_map(s).insert(s[i].0, v)[id] by {
        let k = lemma_key(t, id);
        lemma_entry(t, k);
        lemma_entry(s, k);
    }
    assert(as_map(t) =~= as_map(s).insert(s[i].0, v));
}

/// Taking an entry out takes it out of the map.
proof fn lemma_remove<V>(s: Seq<(i32, V)>, i: int)
    requires
        keys_differ(s),
        0 <= i < s.len(),
    ensures
        keys_differ(s.remove(i)),
        as_map(s.remove(i)) == as_map(s).remove(s[i].0),
{
    let t = s.remove(i);
    assert forall|a: int, b: int| 0 <= a < b < t.len() implies (#[trigger] t[a]).0 != (
    #[trigger] t[b]).0 by {
        let x = if a < i { a } else { a + 1 };
        let y = if b < i { b } else { b + 1 };
        assert(t[a] == s[x] && t[b] == s[y]);
    }
    assert forall|id: i32| as_map(t).dom().contains(id) <==> as_map(s).remove(
        s[i].0,
    ).dom().contains(id) by {
        if as_map(t).dom().contains(id) {
            let k = lemma_key(t, id);
            let x = if k < i { k } else { k + 1 };
            assert(t[k] == s[x]);
            assert(s[x].0 == id);
            assert(x != i);
            if x < i {
                assert(s[x].0 != s[i].0);
            } else {
                assert(s[i].0 != s[x].0);
            }
        }
        if as_map(s).remove(s[i].0).dom().contains(id) {
            let x = lemma_key(s, id);
            let k = if x < i { x } else { x - 1 };
            assert(t[k] == s[x]);
            assert(t[k].0 == id);
        }
    }
    assert forall|id: i32| as_map(t).dom().contains(id) implies #[trigger] as_map(t)[id]
        == as_map(s).remove(s[i].0)[id] by {
        let k = lemma_key(t, id);
        lemma_entry(t, k);
        let x = if k < i { k } else { k + 1 };
        assert(t[k] == s[x]);
        lemma_entry(s, x);
    }
    assert(as_map(t) =~= as_map(s).remove(s[i].0));
}

impl<V> View for IdMap<V> {
    type V = Map<i32, V>;

    open spec fn view(&self) -> Map<i32, V> {
        as_map(self.entries@)
    }
}

impl<V> IdMap<V> {
    /// No key is repeated.
    pub open spec fn wf(self) -> bool {
        keys_differ(self.entries@)
    }

    /// The empty map.
    pub fn new() -> (r: Self)
        ensures
            r.wf(),
            r@ == Map::<i32, V>::empty(),
    {
        let r = IdMap { entries: Vec::new() };
        proof {
            assert(r@ =~= Map::<i32, V>::empty());
        }
        r
    }

    /// Whether the map has no entries.
    pub fn is_empty(&self) -> (r: bool)
        ensures
            r == (self@.dom() == Set::<i32>::empty()),
    {
        let r = self.entries.len() == 0;
        proof {
            if r {
                assert(self@.dom() =~= Set::<i32>::empty());
            } else {
                assert(self.entries@[0].0 == self.entries@[0].0);
                assert(has_key(self.entries@, self.entries@[0].0));
                assert(self@.dom().contains(self.entries@[0].0));
            }
        }
        r
    }

    /// Where the entry with this key is.
    fn position(&self, id: i32) -> (r: Option<usize>)
        ensures
            r is Some <==> self@.dom().contains(id),
            r matches Some(i) ==> i < self.entries@.len() && self.entries@[i as int].0 == id,
    {
        let mut i: usize = 0;
        while i < self.entries.len()
            invariant
                i <= self.entries@.len(),
                forall|k: int| 0 <= k < i ==> (#[trigger] self.entries@[k]).0 != id,
            decreases self.entries.len() - i,
        {
            if self.entries[i].0 == id {
                proof {
                    assert(has_key(self.entries@, id));
                }
                return Some(i);
            }
            i = i + 1;
        }
        None
    }

    /// Whether a key has an entry.
    pub fn contains(&self, id: i32) -> (r: bool)
        ensures
            r == self@.dom().contains(id),
    {
        self.position(id).is_some()
    }

    /// The value of a key.
    pub fn get(&self, id: i32) -> (r: Option<&V>)
        requires
            self.wf(),
        ensures
            r == if self@.dom().contains(id) {
                Some(&self@[id])
            } else {
                None
            },
    {
        match self.position(id) {
            Some(i) => {
                proof {
                    lemma_entry(self.entries@, i as int);
                }
                Some(&self.entries[i].1)
            },
            None => None,
        }
    }

    /// Set the value of a key.
    pub fn insert(&mut self, id: i32, v: V)
        requires
            old(self).wf(),
        ensures
            final(self).wf(),
            final(self)@ == old(self)@.insert(id, v),
    {
        match self.position(id) {
            Some(i) => {
                proof {
                    lemma_update(self.entries@, i as int, v);
                }
                let ghost s = self.entries@;
                self.entries.set(i, (id, v));
                proof {
                    assert(self.entries@ =~= s.update(i as int, (s[i as int].0, v)));
                }
            },
            None => {
                proof {
                    lemma_push(self.entries@, (id, v));
                }
                self.entries.push((id, v));
            },
        }
    }

    /// Take a key out.
    pub fn remove(&mut self, id: i32)
        requires
            old(self).wf(),
        ensures
            final(self).wf(),
            final(self)@ == old(self)@.remove(id),
    {
        match self.position(id) {
            Some(i) => {
                proof {
                    lemma_remove(self.entries@, i as int);
                }
                let _ = self.entries.remove(i);
            },
            None => {
                proof {
                    assert(self@.remove(id) =~= self@);
                }
            },
        }
    }

    /// Take every key out.
    pub fn clear(&mut self)
        ensures
            final(self).wf(),
            final(self)@ == Map::<i32, V>::empty(),
    {
        self.entries.clear();
        proof {
            assert(self@ =~= Map::<i32, V>::empty());
        }
    }

    /// Keep only the keys of a list.
    pub fn retain(&mut self, ids: &Vec<i32>)
        requires
            old(self).wf(),
        ensures
            final(self).wf(),
            final(self)@ == old(self)@.restrict(ids@.to_set()),
    {
        let ghost before = self@;
        let mut i: usize = 0;
        while i < self.entries.len()
            invariant
                self.wf(),
                i <= self.entries@.len(),
                forall|k: int| 0 <= k < i ==> ids@.contains((#[trigger] self.entries@[k]).0),
                forall|id: i32| #[trigger]
                    self@.dom().contains(id) ==> before.dom().contains(id) && self@[id]
                        == before[id],
                forall|id: i32|
                    before.dom().contains(id) && ids@.contains(id) ==> #[trigger]
                        self@.dom().contains(id),
            decreases self.entries.len() - i,
        {
            let id: i32 = self.entries[i].0;
            if listed(ids, id) {
                i = i + 1;
            } else {
                proof {
                    lemma_remove(self.entries@, i as int);
                }
                let ghost s = self.entries@;
                let ghost m = self@;
                let _ = self.entries.remove(i);
                proof {
                    assert(self.entries@ =~= s.remove(i as int));
                    assert(self@ == m.remove(id));
                    assert forall|a: i32| #[trigger] self@.dom().contains(a) implies before.dom().contains(
                        a,
                    ) && self@[a] == before[a] by {
                        assert(m.dom().contains(a));
                    }
                    assert forall|a: i32|
                        before.dom().contains(a) && ids@.contains(a) implies #[trigger] self@.dom().contains(
                        a,
                    ) by {
                        assert(m.dom().contains(a));
                    }
                    assert forall|k: int| 0 <= k < i implies ids@.contains(
                        (#[trigger] self.entries@[k]).0,
                    ) by {
                        assert(self.entries@[k] == s[k]);
                    }
                }
            }
        }
        proof {
            assert forall|id: i32| #[trigger] self@.dom().contains(id) implies ids@.contains(id) by {
                let k = lemma_key(self.entries@, id);
                assert(ids@.contains(self.entries@[k].0));
            }
            assert(self@ =~= before.restrict(ids@.to_set()));
        }
    }
}

/// Whether a list holds an identifier.
pub fn listed(ids: &Vec<i32>, id: i32) -> (r: bool)
    ensures
        r == ids@.contains(id),
{
    let mut i: usize = 0;
    while i < ids.len()
        invariant
            i <= ids@.len(),
            forall|k: int| 0 <= k < i ==> ids@[k] != id,
        decreases ids.len() - i,
    {
        if ids[i] == id {
            return true;
        }
        i = i + 1;
    }
    false
}

/// Law: each entry is found under its key, and a key without an entry is not found.
pub proof fn law_entries_are_found_by_key<V>(s: Seq<(i32, V)>, i: int, id: i32)
    requires
        keys_differ(s),
        0 <= i < s.len(),
    ensures
        as_map(s).dom().contains(s[i].0),
        as_map(s)[s[i].0] == s[i].1,
        as_map(s).dom().contains(id) <==> (exists|k: int|
            0 <= k < s.len() && (#[trigger] s[k]).0 == id),
{
    lemma_entry(s, i);
}

} // verus!
