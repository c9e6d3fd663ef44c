//! An id-keyed collection of aggregates, viewed as a mathematical map.
//! Entries are held in storage order with pairwise-distinct keys —
//! replacing a stored value moves its entry to the end — and the
//! engine owns one for channels and one for users.
use vstd::prelude::*;

verus! {

/// Whether some entry of `s` carries the key `k`.
pub open spec fn has_key<V>(s: Seq<(u32, V)>, k: u32) -> bool {
    exists|i: int| 0 <= i < s.len() && (#[trigger] s[i]).0 == k
}

/// The position of the entry carrying `k` (meaningful when the keys of
/// `s` are distinct and `k` occurs).
pub open spec fn key_index<V>(s: Seq<(u32, V)>, k: u32) -> int {
    choose|i: int| 0 <= i < s.len() && (#[trigger] s[i]).0 == k
}

/// The value stored under `k`.
pub open spec fn val_at<V>(s: Seq<(u32, V)>, k: u32) -> V {
    s[key_index(s, k)].1
}

/// Pairwise-distinct keys.
pub open spec fn distinct_keys<V>(s: Seq<(u32, V)>) -> bool {
    forall|i: int, j: int|
        0 <= i < j < s.len() ==> (#[trigger] s[i]).0 != (#[trigger] s[j]).0
}

/// When keys are distinct, the entry at any position is the one its key
/// finds.
proof fn lemma_key_at<V>(s: Seq<(u32, V)>, i: int)
    requires
        distinct_keys(s),
        0 <= i < s.len(),
    ensures
        has_key(s, s[i].0),
        key_index(s, s[i].0) == i,
        val_at(s, s[i].0) == s[i].1,
{
    let k = s[i].0;
    assert(has_key(s, k));
    let j = key_index(s, k);
    assert(0 <= j < s.len() && s[j].0 == k);
    if i != j {
        if i < j {
            assert(s[i].0 != s[j].0);
        } else {
            assert(s[j].0 != s[i].0);
        }
    }
}

/// An id-keyed map of aggregates. Its view is the mathematical map
/// from ids to stored values.
pub struct IdMap<V> {
    entries: Vec<(u32, V)>,
}

impl<V> IdMap<V> {
    /// The entries in storage order.
    pub closed spec fn kseq(&self) -> Seq<(u32, V)> {
        self.entries@
    }

    /// Well-formedness: pairwise-distinct keys. Constructors establish
    /// it and every method preserves it.
    pub open spec fn wf(&self) -> bool {
        distinct_keys(self.kseq())
    }

    /// An empty map.
    pub fn new() -> (r: Self)
        ensures
            r@ == Map::<u32, V>::empty(),
            r.kseq() == Seq::<(u32, V)>::empty(),
            r.wf(),
    {
        let r = IdMap { entries: Vec::new() };
        proof {
            assert(r@ =~= Map::<u32, V>::empty());
        }
        r
    }

    /// How many ids are stored.
    pub fn len(&self) -> (n: usize)
        ensures
            n == self.kseq().len(),
    {
        self.entries.len()
    }

    /// The entry at one storage position.
    pub fn entry_at(&self, i: usize) -> (r: &(u32, V))
        requires
            self.wf(),
            i < self.kseq().len(),
        ensures
            *r == self.kseq()[i as int],
            self@.contains_key(self.kseq()[i as int].0),
            self@[self.kseq()[i as int].0] == self.kseq()[i as int].1,
    {
        proof {
            lemma_key_at(self.kseq(), i as int);
        }
        &self.entries[i]
    }

    fn index_of(&self, k: u32) -> (r: Option<usize>)
        ensures
            match r {
                Option::Some(i) => i < self.kseq().len() && self.kseq()[i as int].0 == k,
                Option::None => !has_key(self.kseq(), k),
            },
    {
        let n = self.entries.len();
        let mut i: usize = 0;
        while i < n
            invariant
                n == self.kseq().len(),
                i <= n,
                forall|j: int| 0 <= j < i ==> (#[trigger] self.kseq()[j]).0 != k,
            decreases n - i,
        {
            if self.entries[i].0 == k {
                return Option::Some(i);
            }
            i = i + 1;
        }
        Option::None
    }

    /// Whether an aggregate is stored under `k`.
    pub fn contains(&self, k: u32) -> (r: bool)
        requires
            self.wf(),
        ensures
            r == self@.contains_key(k),
    {
        let idx = self.index_of(k);
        proof {
            if let Option::Some(i) = idx {
                lemma_key_at(self.kseq(), i as int);
            }
        }
        idx.is_some()
    }

    /// The aggregate stored under `k`, if any.
    pub fn get(&self, k: u32) -> (r: Option<&V>)
        requires
            self.wf(),
        ensures
            match r {
                Option::Some(v) => self@.contains_key(k) && *v == self@[k],
                Option::None => !self@.contains_key(k),
            },
    {
        match self.index_of(k) {
            Option::Some(i) => {
                proof {
                    lemma_key_at(self.kseq(), i as int);
                }
                Option::Some(&self.entries[i].1)
            },
            Option::None => Option::None,
        }
    }

    /// Stores `v` under `k`, replacing any earlier value; the entry
    /// moves to the end of the storage order.
    pub fn set(&mut self, k: u32, v: V)
        requires
            old(self).wf(),
        ensures
            final(self).wf(),
            final(self)@ == old(self)@.insert(k, v),
            final(self).kseq().len() <= old(self).kseq().len() + 1,
    {
        let ghost s0 = self.entries@;
        match self.index_of(k) {
            Option::Some(i) => {
                let _ = self.entries.remove(i);
                self.entries.push((k, v));
                proof {
                    lemma_set_view(s0, i as int, k, v, self.entries@);
                }
            },
            Option::None => {
                self.entries.push((k, v));
                proof {
                    lemma_push_view(s0, k, v, self.entries@);
                }
            },
        }
    }

    /// The entry at one storage position is what the view stores under
    /// its key.
    pub proof fn lemma_kseq_view(&self, i: int)
        requires
            self.wf(),
            0 <= i < self.kseq().len(),
        ensures
            self@.contains_key(self.kseq()[i].0),
            self@[self.kseq()[i].0] == self.kseq()[i].1,
    {
        lemma_key_at(self.kseq(), i);
    }

    /// Takes the aggregate stored under `k` out, if any.
    pub fn remove(&mut self, k: u32) -> (r: Option<V>)
        requires
            old(self).wf(),
        ensures
            final(self).wf(),
            match r {
                Option::Some(v) => {
                    &&& old(self)@.contains_key(k)
                    &&& v == old(self)@[k]
                    &&& final(self)@ == old(self)@.remove(k)
                },
                Option::None => {
                    &&& !old(self)@.contains_key(k)
                    &&& *final(self) == *old(self)
                },
            },
    {
        let ghost s0 = self.entries@;
        match self.index_of(k) {
            Option::Some(i) => {
                proof {
                    lemma_key_at(s0, i as int);
                }
                let (_, v) = self.entries.remove(i);
                proof {
                    lemma_remove_view(s0, i as int, self.entries@);
                }
                Option::Some(v)
            },
            Option::None => Option::None,
        }
    }
}

/// The map an entry sequence denotes.
pub open spec fn seq_as_map<V>(s: Seq<(u32, V)>) -> Map<u32, V> {
    Map::new(|k: u32| has_key(s, k), |k: u32| val_at(s, k))
}

impl<V> View for IdMap<V> {
    type V = Map<u32, V>;

    closed spec fn view(&self) -> Map<u32, V> {
        seq_as_map(self.entries@)
    }
}

/// Replacing the entry at `i` (by taking it out and appending the new
/// pair) inserts into the denoted map.
proof fn lemma_set_view<V>(s0: Seq<(u32, V)>, i: int, k: u32, v: V, s1: Seq<(u32, V)>)
    requires
        distinct_keys(s0),
        0 <= i < s0.len(),
        s0[i].0 == k,
        s1 == s0.remove(i).push((k, v)),
    ensures
        distinct_keys(s1),
        seq_as_map(s1) == seq_as_map(s0).insert(k, v),
        s1.len() == s0.len(),
{
    let sr = s0.remove(i);
    assert forall|a: int, b: int| 0 <= a < b < s1.len() implies (#[trigger] s1[a]).0 != (
    #[trigger] s1[b]).0 by {
        if b < s1.len() - 1 {
            let a0 = if a < i {
                a
            } else {
                a + 1
            };
            let b0 = if b < i {
                b
            } else {
                b + 1
            };
            assert(s0[a0].0 != s0[b0].0);
        } else {
            let a0 = if a < i {
                a
            } else {
                a + 1
            };
            if s1[a].0 == k {
                assert(s0[a0].0 == s0[i].0);
            }
        }
    }
    assert forall|q: u32| true implies #[trigger] seq_as_map(s1).contains_key(q)
        == seq_as_map(s0).insert(k, v).contains_key(q) by {
        if q == k {
            assert(s1[s1.len() - 1].0 == k);
            assert(has_key(s1, k));
        } else {
            if has_key(s0, q) {
                let j = choose|j: int| 0 <= j < s0.len() && (#[trigger] s0[j]).0 == q;
                let j1 = if j < i {
                    j
                } else {
                    j - 1
                };
                assert(s1[j1].0 == q);
                assert(has_key(s1, q));
            }
            if has_key(s1, q) {
                let j = choose|j: int| 0 <= j < s1.len() && (#[trigger] s1[j]).0 == q;
                let j0 = if j < i {
                    j
                } else {
                    j + 1
                };
                assert(s0[j0].0 == q);
                assert(has_key(s0, q));
            }
        }
    }
    assert forall|q: u32| seq_as_map(s1).contains_key(q) implies #[trigger] seq_as_map(s1)[q]
        == seq_as_map(s0).insert(k, v)[q] by {
        if q == k {
            lemma_key_at(s1, s1.len() - 1);
        } else {
            let j = choose|j: int| 0 <= j < s1.len() && (#[trigger] s1[j]).0 == q;
            lemma_key_at(s1, j);
            let j0 = if j < i {
                j
            } else {
                j + 1
            };
            assert(s0[j0].0 == q);
            lemma_key_at(s0, j0);
        }
    }
    assert(seq_as_map(s1) =~= seq_as_map(s0).insert(k, v));
}

/// Appending a pair with a fresh key inserts into the denoted map.
proof fn lemma_push_view<V>(s0: Seq<(u32, V)>, k: u32, v: V, s1: Seq<(u32, V)>)
    requires
        distinct_keys(s0),
        !has_key(s0, k),
        s1 == s0.push((k, v)),
    ensures
        distinct_keys(s1),
        seq_as_map(s1) == seq_as_map(s0).insert(k, v),
        s1.len() == s0.len() + 1,
{
    assert forall|a: int, b: int| 0 <= a < b < s1.len() implies (#[trigger] s1[a]).0 != (
    #[trigger] s1[b]).0 by {
        if b < s1.len() - 1 {
            assert(s0[a].0 != s0[b].0);
        } else {
            if s1[a].0 == k {
                assert(has_key(s0, k));
            }
        }
    }
    assert forall|q: u32| true implies #[trigger] seq_as_map(s1).contains_key(q)
        == seq_as_map(s0).insert(k, v).contains_key(q) by {
        if q == k {
            assert(s1[s1.len() - 1].0 == k);
            assert(has_key(s1, k));
        } else {
            if has_key(s0, q) {
                let j = choose|j: int| 0 <= j < s0.len() && (#[trigger] s0[j]).0 == q;
                assert(s1[j].0 == q);
                assert(has_key(s1, q));
            }
            if has_key(s1, q) {
                let j = choose|j: int| 0 <= j < s1.len() && (#[trigger] s1[j]).0 == q;
                assert(s0[j].0 == q);
                assert(has_key(s0, q));
            }
        }
    }
    assert forall|q: u32| seq_as_map(s1).contains_key(q) implies #[trigger] seq_as_map(s1)[q]
        == seq_as_map(s0).insert(k, v)[q] by {
        if q == k {
            lemma_key_at(s1, s1.len() - 1);
        } else {
            let j = choose|j: int| 0 <= j < s1.len() && (#[trigger] s1[j]).0 == q;
            lemma_key_at(s1, j);
            assert(s0[j].0 == q);
            lemma_key_at(s0, j);
        }
    }
    assert(seq_as_map(s1) =~= seq_as_map(s0).insert(k, v));
}

/// Taking the entry at `i` out removes its key from the denoted map.
proof fn lemma_remove_view<V>(s0: Seq<(u32, V)>, i: int, s1: Seq<(u32, V)>)
    requires
        distinct_keys(s0),
        0 <= i < s0.len(),
        s1 == s0.remove(i),
    ensures
        distinct_keys(s1),
        seq_as_map(s1) == seq_as_map(s0).remove(s0[i].0),
{
    let k = s0[i].0;
    assert forall|a: int, b: int| 0 <= a < b < s1.len() implies (#[trigger] s1[a]).0 != (
    #[trigger] s1[b]).0 by {
        let a0 = if a < i {
            a
        } else {
            a + 1
        };
        let b0 = if b < i {
            b
        } else {
            b + 1
        };
        assert(s0[a0].0 != s0[b0].0);
    }
    assert forall|q: u32| true implies #[trigger] seq_as_map(s1).contains_key(q)
        == seq_as_map(s0).remove(k).contains_key(q) by {
        if q == k {
            if has_key(s1, k) {
                let j = choose|j: int| 0 <= j < s1.len() && (#[trigger] s1[j]).0 == k;
                let j0 = if j < i {
                    j
                } else {
                    j + 1
                };
                assert(s0[j0].0 == k && s0[i].0 == k && j0 != i);
                if j0 < i {
                    assert(s0[j0].0 != s0[i].0);
                } else {
                    assert(s0[i].0 != s0[j0].0);
                }
            }
        } else {
            if has_key(s0, q) {
                let j = choose|j: int| 0 <= j < s0.len() && (#[trigger] s0[j]).0 == q;
                let j1 = if j < i {
                    j
                } else {
                    j - 1
                };
                assert(s1[j1].0 == q);
                assert(has_key(s1, q));
            }
            if has_key(s1, q) {
                let j = choose|j: int| 0 <= j < s1.len() && (#[trigger] s1[j]).0 == q;
                let j0 = if j < i {
                    j
                } else {
                    j + 1
                };
                assert(s0[j0].0 == q);
                assert(has_key(s0, q));
            }
        }
    }
    assert forall|q: u32| seq_as_map(s1).contains_key(q) implies #[trigger] seq_as_map(s1)[q]
        == seq_as_map(s0).remove(k)[q] by {
        let j = choose|j: int| 0 <= j < s1.len() && (#[trigger] s1[j]).0 == q;
        lemma_key_at(s1, j);
        let j0 = if j < i {
            j
        } else {
            j + 1
        };
        assert(s0[j0].0 == q);
        lemma_key_at(s0, j0);
    }
    assert(seq_as_map(s1) =~= seq_as_map(s0).remove(k));
}

} // verus!
