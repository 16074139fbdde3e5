use crate::address::{same_address, Address};
use vstd::prelude::*;

verus! {

/// Records of one kind, each stored under its own address.
pub struct Registry<V> {
    pub entries: Vec<(Address, V)>,
}

impl<V: Copy> View for Registry<V> {
    type V = Map<Seq<u8>, V>;

    open spec fn view(&self) -> Map<Seq<u8>, V> {
        Map::new(
            |k: Seq<u8>| self.has(k),
            |k: Seq<u8>| self.entries@[self.index_of(k)].1,
        )
    }
}

impl<V: Copy> Registry<V> {
    /// No address holds two records.
    pub open spec fn wf(&self) -> bool {
        forall|i: int, j: int|
            0 <= i < self.entries@.len() && 0 <= j < self.entries@.len() && i != j
                ==> self.entries@[i].0@ != self.entries@[j].0@
    }

    pub open spec fn has(&self, k: Seq<u8>) -> bool {
        exists|i: int| 0 <= i < self.entries@.len() && self.entries@[i].0@ == k
    }

    pub open spec fn index_of(&self, k: Seq<u8>) -> int {
        choose|i: int| 0 <= i < self.entries@.len() && self.entries@[i].0@ == k
    }

    proof fn lemma_at(&self, i: int)
        requires
            self.wf(),
            0 <= i < self.entries@.len(),
        ensures
            self@.contains_key(self.entries@[i].0@),
            self@[self.entries@[i].0@] == self.entries@[i].1,
    {
        let k = self.entries@[i].0@;
        assert(self.has(k));
        let j = self.index_of(k);
        assert(j == i);
    }

    pub fn new() -> (r: Self)
        ensures
            r.wf(),
            r@ == Map::<Seq<u8>, V>::empty(),
    {
        let r = Registry { entries: Vec::new() };
        assert(r@ =~= Map::<Seq<u8>, V>::empty());
        r
    }

    /// An exact copy of the records.
    pub fn snapshot(&self) -> (r: Self)
        requires
            self.wf(),
        ensures
            r.wf(),
            r@ == self@,
    {
        let mut v: Vec<(Address, V)> = Vec::new();
        let mut i: usize = 0;
        while i < self.entries.len()
            invariant
                i <= self.entries@.len(),
                v@ == self.entries@.subrange(0, i as int),
            decreases self.entries@.len() - i,
        {
            v.push(self.entries[i]);
            i += 1;
            assert(v@ =~= self.entries@.subrange(0, i as int));
        }
        assert(v@ =~= self.entries@);
        let r = Registry { entries: v };
        assert(r@ =~= self@);
        r
    }

    /// The position of the record at `k`, if there is one.
    pub fn find(&self, k: &Address) -> (r: Option<usize>)
        requires
            self.wf(),
        ensures
            match r {
                Some(i) => i < self.entries@.len() && self.entries@[i as int].0@ == k@,
                None => !self@.contains_key(k@),
            },
    {
        let mut i: usize = 0;
        while i < self.entries.len()
            invariant
                i <= self.entries@.len(),
                forall|j: int| 0 <= j < i ==> self.entries@[j].0@ != k@,
            decreases self.entries@.len() - i,
        {
            if same_address(&self.entries[i].0, k) {
                return Some(i);
            }
            i += 1;
        }
        None
    }

    /// The record at `k`, if there is one.
    pub fn get(&self, k: &Address) -> (r: Option<V>)
        requires
            self.wf(),
        ensures
            r == (if self@.contains_key(k@) { Some(self@[k@]) } else { None::<V> }),
    {
        match self.find(k) {
            Some(i) => {
                proof {
                    self.lemma_at(i as int);
                }
                Some(self.entries[i].1)
            },
            None => None,
        }
    }

    /// Stores `v` at a free address `k`.
    pub fn insert(&mut self, k: Address, v: V)
        requires
            old(self).wf(),
            !old(self)@.contains_key(k@),
        ensures
            final(self).wf(),
            final(self)@ == old(self)@.insert(k@, v),
    {
        let ghost pre = *self;
        self.entries.push((k, v));
        proof {
            let n = pre.entries@.len() as int;
            assert forall|i: int| 0 <= i < n implies self.entries@[i].0@ != k@ by {
                pre.lemma_at(i);
            }
            assert forall|kk: Seq<u8>| #![auto] self@.contains_key(kk) == old(self)@.insert(k@, v).contains_key(kk) by {
                if pre.has(kk) {
                    let j = pre.index_of(kk);
                    assert(self.entries@[j].0@ == kk);
                }
                if self.has(kk) && kk != k@ {
                    let j = self.index_of(kk);
                    assert(j < n);
                    assert(pre.entries@[j].0@ == kk);
                }
                if kk == k@ {
                    assert(self.entries@[n].0@ == kk);
                }
            }
            assert forall|kk: Seq<u8>| #![auto] self@.contains_key(kk) implies self@[kk] == old(self)@.insert(k@, v)[kk] by {
                let j = self.index_of(kk);
                self.lemma_at(j);
                if j < n {
                    pre.lemma_at(j);
                }
            }
            assert(self@ =~= old(self)@.insert(k@, v));
        }
    }

    /// Replaces the record at `k`, which must exist.
    pub fn set(&mut self, k: Address, v: V)
        requires
            old(self).wf(),
            old(self)@.contains_key(k@),
        ensures
            final(self).wf(),
            final(self)@ == old(self)@.insert(k@, v),
    {
        let ghost pre = *self;
        let i = self.find(&k).unwrap();
        self.entries.set(i, (k, v));
        proof {
            assert forall|kk: Seq<u8>| #![auto] self@.contains_key(kk) == old(self)@.insert(k@, v).contains_key(kk) by {
                if pre.has(kk) {
                    let j = pre.index_of(kk);
                    assert(self.entries@[j].0@ == kk);
                }
                if self.has(kk) {
                    let j = self.index_of(kk);
                    if j != i {
                        assert(pre.entries@[j].0@ == kk);
                    }
                }
            }
            assert forall|kk: Seq<u8>| #![auto] self@.contains_key(kk) implies self@[kk] == old(self)@.insert(k@, v)[kk] by {
                let j = self.index_of(kk);
                self.lemma_at(j);
                if j != i {
                    pre.lemma_at(j);
                }
            }
            assert(self@ =~= old(self)@.insert(k@, v));
        }
    }

    /// Removes the record at `k`, which must exist.
    pub fn remove(&mut self, k: &Address)
        requires
            old(self).wf(),
            old(self)@.contains_key(k@),
        ensures
            final(self).wf(),
            final(self)@ == old(self)@.remove(k@),
    {
        let ghost pre = *self;
        let i = self.find(k).unwrap();
        self.entries.remove(i);
        proof {
            let ii = i as int;
            assert forall|j: int| 0 <= j < self.entries@.len() implies #[trigger] self.entries@[j]
                == pre.entries@[if j < ii { j } else { j + 1 }] by {}
            assert forall|kk: Seq<u8>| #![auto] self@.contains_key(kk) == old(self)@.remove(k@).contains_key(kk) by {
                if pre.has(kk) && kk != k@ {
                    let j = pre.index_of(kk);
                    assert(j != ii);
                    let jj = if j < ii { j } else { j - 1 };
                    assert(self.entries@[jj].0@ == kk);
                }
                if self.has(kk) {
                    let j = self.index_of(kk);
                    let jj = if j < ii { j } else { j + 1 };
                    assert(pre.entries@[jj].0@ == kk);
                    assert(jj != ii);
                }
            }
            assert forall|kk: Seq<u8>| #![auto] self@.contains_key(kk) implies self@[kk] == old(self)@.remove(k@)[kk] by {
                let j = self.index_of(kk);
                self.lemma_at(j);
                let jj = if j < ii { j } else { j + 1 };
                pre.lemma_at(jj);
            }
            assert(self@ =~= old(self)@.remove(k@));
        }
    }
}

} // verus!
