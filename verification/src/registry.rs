//! The correlation registry: a map from outbound call id to the completion
//! handle of the caller waiting for that response.
//!
//! The registry is the only structure shared between the caller side and the
//! reader loop. Its model is a finite map from id to handle; at most one
//! entry exists per id at any time.

use vstd::prelude::*;

verus! {

/// No id occurs twice in a pair list.
pub open spec fn distinct_ids<T>(s: Seq<(u64, T)>) -> bool {
    forall|i: int, j: int| 0 <= i < j < s.len() ==> (#[trigger] s[i]).0 != (#[trigger] s[j]).0
}

/// The map a pair list stands for.
pub closed spec fn map_of_pairs<T>(s: Seq<(u64, T)>) -> Map<u64, T>
    decreases s.len(),
{
    if s.len() == 0 {
        Map::empty()
    } else {
        map_of_pairs(s.drop_last()).insert(s.last().0, s.last().1)
    }
}

proof fn lemma_map_of_pairs_contains<T>(s: Seq<(u64, T)>, k: u64)
    ensures
        map_of_pairs(s).contains_key(k) <==> exists|i: int|
            0 <= i < s.len() && (#[trigger] s[i]).0 == k,
    decreases s.len(),
{
    if s.len() > 0 {
        lemma_map_of_pairs_contains(s.drop_last(), k);
        if s.last().0 == k {
            assert(s[s.len() - 1].0 == k);
        } else if map_of_pairs(s).contains_key(k) {
            let i = choose|i: int| 0 <= i < s.drop_last().len() && (#[trigger] s.drop_last()[i]).0 == k;
            assert(s[i].0 == k);
        } else {
            assert forall|i: int| 0 <= i < s.len() implies (#[trigger] s[i]).0 != k by {
                if i < s.len() - 1 {
                    assert(s.drop_last()[i] == s[i]);
                }
            }
        }
    }
}

proof fn lemma_map_of_pairs_get<T>(s: Seq<(u64, T)>, i: int)
    requires
        distinct_ids(s),
        0 <= i < s.len(),
    ensures
        map_of_pairs(s).contains_key(s[i].0),
        map_of_pairs(s)[s[i].0] == s[i].1,
    decreases s.len(),
{
    lemma_map_of_pairs_contains(s, s[i].0);
    if i < s.len() - 1 {
        assert(s.drop_last()[i] == s[i]);
        assert(distinct_ids(s.drop_last())) by {
            assert forall|x: int, y: int|
                0 <= x < y < s.drop_last().len() implies (#[trigger] s.drop_last()[x]).0 != (
            #[trigger] s.drop_last()[y]).0 by {
                assert(s.drop_last()[x] == s[x]);
                assert(s.drop_last()[y] == s[y]);
            }
        }
        lemma_map_of_pairs_get(s.drop_last(), i);
        assert(s.last().0 != s[i].0);
    }
}

proof fn lemma_map_of_pairs_push<T>(s: Seq<(u64, T)>, id: u64, v: T)
    ensures
        map_of_pairs(s.push((id, v))) == map_of_pairs(s).insert(id, v),
{
    assert(s.push((id, v)).drop_last() =~= s);
    assert(s.push((id, v)).last() == (id, v));
}

proof fn lemma_map_of_pairs_remove<T>(s: Seq<(u64, T)>, i: int)
    requires
        distinct_ids(s),
        0 <= i < s.len(),
    ensures
        map_of_pairs(s.remove(i)) =~= map_of_pairs(s).remove(s[i].0),
    decreases s.len(),
{
    if i == s.len() - 1 {
        assert(s.remove(i) =~= s.drop_last());
        lemma_map_of_pairs_contains(s.drop_last(), s[i].0);
        assert forall|x: int| 0 <= x < s.drop_last().len() implies (#[trigger] s.drop_last()[x]).0
            != s[i].0 by {
            assert(s.drop_last()[x] == s[x]);
        }
        assert(!map_of_pairs(s.drop_last()).contains_key(s[i].0));
        assert(map_of_pairs(s.drop_last()).insert(s.last().0, s.last().1).remove(s[i].0)
            =~= map_of_pairs(s.drop_last()));
    } else {
        assert(distinct_ids(s.drop_last())) by {
            assert forall|x: int, y: int|
                0 <= x < y < s.drop_last().len() implies (#[trigger] s.drop_last()[x]).0 != (
            #[trigger] s.drop_last()[y]).0 by {
                assert(s.drop_last()[x] == s[x]);
                assert(s.drop_last()[y] == s[y]);
            }
        }
        assert(s.drop_last()[i] == s[i]);
        lemma_map_of_pairs_remove(s.drop_last(), i);
        assert(s.remove(i).drop_last() =~= s.drop_last().remove(i));
        assert(s.remove(i).last() == s.last());
        assert(s.last().0 != s[i].0);
        assert(map_of_pairs(s.remove(i)) == map_of_pairs(s.drop_last().remove(i)).insert(
            s.last().0,
            s.last().1,
        ));
        assert(map_of_pairs(s.drop_last()).remove(s[i].0).insert(s.last().0, s.last().1)
            =~= map_of_pairs(s.drop_last()).insert(s.last().0, s.last().1).remove(s[i].0));
    }
}

/// A map from outbound call id to a caller's completion handle.
pub struct Registry<T> {
    entries: Vec<(u64, T)>,
}

impl<T> Registry<T> {
    /// The map this registry holds.
    pub closed spec fn view(&self) -> Map<u64, T> {
        map_of_pairs(self.entries@)
    }

    /// Well-formed: at most one entry per id.
    pub closed spec fn wf(&self) -> bool {
        distinct_ids(self.entries@)
    }

    /// An empty registry.
    pub fn new() -> (r: Self)
        ensures
            r.wf(),
            r@ == Map::<u64, T>::empty(),
    {
        let r = Registry { entries: Vec::new() };
        proof {
            assert(r@ =~= Map::<u64, T>::empty());
        }
        r
    }

    fn find_index(&self, id: u64) -> (r: Option<usize>)
        ensures
            match r {
                Some(i) => i < self.entries@.len() && self.entries@[i as int].0 == id,
                None => !self@.contains_key(id),
            },
    {
        proof {
            lemma_map_of_pairs_contains(self.entries@, id);
        }
        let n = self.entries.len();
        let mut i: usize = 0;
        while i < n
            invariant
                n == self.entries@.len(),
                0 <= i <= n,
                forall|j: int| 0 <= j < i ==> (#[trigger] self.entries@[j]).0 != id,
            decreases n - i,
        {
            if self.entries[i].0 == id {
                return Some(i);
            }
            i += 1;
        }
        proof {
            lemma_map_of_pairs_contains(self.entries@, id);
        }
        None
    }

    /// Whether a call with this id is pending.
    pub fn contains(&self, id: u64) -> (r: bool)
        ensures
            r == self@.contains_key(id),
    {
        proof {
            lemma_map_of_pairs_contains(self.entries@, id);
        }
        match self.find_index(id) {
            Some(i) => {
                proof {
                    lemma_map_of_pairs_contains(self.entries@, id);
                }
                true
            },
            None => false,
        }
    }

    /// Register a pending call. The id must not already be pending.
    pub fn register(&mut self, id: u64, handle: T)
        requires
            old(self).wf(),
            !old(self)@.contains_key(id),
        ensures
            final(self).wf(),
            final(self)@ == old(self)@.insert(id, handle),
    {
        proof {
            lemma_map_of_pairs_contains(self.entries@, id);
            lemma_map_of_pairs_push(self.entries@, id, handle);
        }
        self.entries.push((id, handle));
        proof {
            assert(self.entries@.drop_last() =~= old(self).entries@);
            assert forall|x: int, y: int|
                0 <= x < y < self.entries@.len() implies (#[trigger] self.entries@[x]).0 != (
            #[trigger] self.entries@[y]).0 by {
                if y < self.entries@.len() - 1 {
                    assert(old(self).entries@[x] == self.entries@[x]);
                    assert(old(self).entries@[y] == self.entries@[y]);
                } else {
                    assert(old(self).entries@[x] == self.entries@[x]);
                    assert(exists|i: int|
                        0 <= i < old(self).entries@.len() && (#[trigger] old(
                            self,
                        ).entries@[i]).0 == self.entries@[x].0) by {
                        assert(old(self).entries@[x].0 == self.entries@[x].0);
                    }
                }
            }
        }
    }

    /// Remove and return the handle registered for `id`, if one is pending.
    ///
    /// A response with an id nobody waits for returns `None` and changes
    /// nothing: stale or duplicate responses are discarded.
    pub fn complete(&mut self, id: u64) -> (r: Option<T>)
        requires
            old(self).wf(),
        ensures
            final(self).wf(),
            match r {
                Some(h) => {
                    &&& old(self)@.contains_key(id)
                    &&& h == old(self)@[id]
                    &&& final(self)@ == old(self)@.remove(id)
                },
                None => {
                    &&& !old(self)@.contains_key(id)
                    &&& *final(self) == *old(self)
                },
            },
    {
        match self.find_index(id) {
            Some(i) => {
                proof {
                    lemma_map_of_pairs_get(self.entries@, i as int);
                    lemma_map_of_pairs_remove(self.entries@, i as int);
                }
                let (_, handle) = self.entries.remove(i);
                proof {
                    assert(distinct_ids(self.entries@)) by {
                        assert forall|x: int, y: int|
                            0 <= x < y < self.entries@.len() implies (
                        #[trigger] self.entries@[x]).0 != (#[trigger] self.entries@[y]).0 by {
                            let ox: int = if x < i { x } else { x + 1 };
                            let oy: int = if y < i { y } else { y + 1 };
                            assert(self.entries@[x] == old(self).entries@[ox]);
                            assert(self.entries@[y] == old(self).entries@[oy]);
                        }
                    }
                }
                Some(handle)
            },
            None => None,
        }
    }

    /// Remove every pending entry, returning all (id, handle) pairs, so
    /// that each still-waiting caller can be resolved exactly once.
    pub fn take_all(&mut self) -> (r: Vec<(u64, T)>)
        requires
            old(self).wf(),
        ensures
            final(self).wf(),
            final(self)@ == Map::<u64, T>::empty(),
            distinct_ids(r@),
            forall|i: int|
                0 <= i < r@.len() ==> old(self)@.contains_key((#[trigger] r@[i]).0) && old(
                    self,
                )@[r@[i].0] == r@[i].1,
            forall|k: u64|
                old(self)@.contains_key(k) ==> exists|i: int|
                    0 <= i < r@.len() && (#[trigger] r@[i]).0 == k,
    {
        proof {
            assert forall|i: int| 0 <= i < self.entries@.len() implies self@.contains_key(
                (#[trigger] self.entries@[i]).0,
            ) && self@[self.entries@[i].0] == self.entries@[i].1 by {
                lemma_map_of_pairs_get(self.entries@, i);
            }
            assert forall|k: u64| self@.contains_key(k) implies exists|i: int|
                0 <= i < self.entries@.len() && (#[trigger] self.entries@[i]).0 == k by {
                lemma_map_of_pairs_contains(self.entries@, k);
            }
        }
        let mut out: Vec<(u64, T)> = Vec::new();
        std::mem::swap(&mut out, &mut self.entries);
        proof {
            assert(self.entries@ =~= Seq::<(u64, T)>::empty());
            assert(self@ =~= Map::<u64, T>::empty());
        }
        out
    }
}

} // verus!
