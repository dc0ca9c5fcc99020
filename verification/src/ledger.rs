//! The cashback ledger: a durable mapping from record identifier to record,
//! kept as an association vector whose keys are pairwise distinct and seen
//! in contracts as a `Map`.

use vstd::prelude::*;

use crate::types::{Cashback, CashbackId, CashbackView};

verus! {

pub(crate) struct CashbackLedger {
    entries: Vec<(CashbackId, Cashback)>,
}

impl CashbackLedger {
    /// Keys are pairwise distinct, so each lookup has one witness.
    pub(crate) closed spec fn wf(&self) -> bool {
        forall|i: int, j: int|
            0 <= i < j < self.entries@.len() ==> (#[trigger] self.entries@[i]).0 != (
            #[trigger] self.entries@[j]).0
    }

    spec fn has_key(&self, id: CashbackId) -> bool {
        exists|i: int| 0 <= i < self.entries@.len() && (#[trigger] self.entries@[i]).0 == id
    }

    spec fn key_index(&self, id: CashbackId) -> int {
        choose|i: int| 0 <= i < self.entries@.len() && (#[trigger] self.entries@[i]).0 == id
    }

    proof fn lemma_key_at(&self, i: int, id: CashbackId)
        requires
            self.wf(),
            0 <= i < self.entries@.len(),
            self.entries@[i].0 == id,
        ensures
            self.has_key(id),
            self.key_index(id) == i,
            self@.contains_key(id),
            self@[id] == self.entries@[i].1@,
    {
        assert(self.has_key(id));
        let j = self.key_index(id);
        assert(0 <= j < self.entries@.len() && self.entries@[j].0 == id);
        if i < j {
            assert(self.entries@[i].0 != self.entries@[j].0);
        } else if j < i {
            assert(self.entries@[j].0 != self.entries@[i].0);
        }
    }

    pub(crate) fn new() -> (r: Self)
        ensures
            r.wf(),
            r@ == Map::<CashbackId, CashbackView>::empty(),
    {
        let r = CashbackLedger { entries: Vec::new() };
        proof {
            assert(r@ =~= Map::<CashbackId, CashbackView>::empty());
        }
        r
    }

    pub(crate) fn get(&self, id: CashbackId) -> (r: Option<&Cashback>)
        requires
            self.wf(),
        ensures
            (match r {
                Some(c) => self@.contains_key(id) && c@ == self@[id],
                None => !self@.contains_key(id),
            }),
    {
        let n = self.entries.len();
        let mut k: usize = 0;
        while k < n
            invariant
                n == self.entries@.len(),
                k <= n,
                forall|i: int| 0 <= i < k ==> (#[trigger] self.entries@[i]).0 != id,
                self.wf(),
            decreases n - k,
        {
            let e = &self.entries[k];
            if e.0 == id {
                proof {
                    self.lemma_key_at(k as int, id);
                }
                return Some(&e.1);
            }
            k += 1;
        }
        proof {
            assert(!self.has_key(id));
        }
        None
    }

    /// Stores a record under a key not in use; creation never reuses one.
    pub(crate) fn insert_new(&mut self, id: CashbackId, cb: Cashback)
        requires
            old(self).wf(),
            !old(self)@.contains_key(id),
        ensures
            final(self).wf(),
            final(self)@ == old(self)@.insert(id, cb@),
    {
        proof {
            if old(self).has_key(id) {
                let i = old(self).key_index(id);
                old(self).lemma_key_at(i, id);
            }
        }
        let ghost old_entries = self.entries@;
        let ghost cbv = cb@;
        self.entries.push((id, cb));
        proof {
            let n = old_entries.len() as int;
            assert(self.entries@ == old_entries.push((id, cb)));
            assert forall|i: int, j: int| 0 <= i < j < self.entries@.len() implies (
            #[trigger] self.entries@[i]).0 != (#[trigger] self.entries@[j]).0 by {
                if j < n {
                    assert(old(self).entries@[i].0 != old(self).entries@[j].0);
                } else {
                    assert(self.entries@[j].0 == id);
                    assert(old(self).entries@[i].0 != id);
                }
            }
            assert forall|k: CashbackId| #[trigger] self@.contains_key(k) == (old(self)@.insert(
                id,
                cbv,
            )).contains_key(k) && (self@.contains_key(k) ==> self@[k] == (old(self)@.insert(
                id,
                cbv,
            ))[k]) by {
                if k == id {
                    self.lemma_key_at(n, id);
                } else {
                    if self.has_key(k) {
                        let i = self.key_index(k);
                        assert(0 <= i < self.entries@.len() && self.entries@[i].0 == k);
                        assert(i < n);
                        assert(old_entries[i].0 == k);
                        old(self).lemma_key_at(i, k);
                        self.lemma_key_at(i, k);
                    }
                    if old(self).has_key(k) {
                        let i = old(self).key_index(k);
                        old(self).lemma_key_at(i, k);
                        assert(self.entries@[i].0 == k);
                        self.lemma_key_at(i, k);
                    }
                }
            }
            assert(self@ =~= old(self)@.insert(id, cbv));
        }
    }

    /// Flips the redemption flag of the record under `id`, if present.
    pub(crate) fn set_sent(&mut self, id: CashbackId, flag: bool) -> (found: bool)
        requires
            old(self).wf(),
        ensures
            final(self).wf(),
            found == old(self)@.contains_key(id),
            found ==> final(self)@ == old(self)@.insert(
                id,
                (CashbackView { is_sent: flag, ..old(self)@[id] }),
            ),
            !found ==> *final(self) == *old(self),
    {
        let n = self.entries.len();
        let mut k: usize = 0;
        while k < n
            invariant
                n == self.entries@.len(),
                k <= n,
                forall|i: int| 0 <= i < k ==> (#[trigger] self.entries@[i]).0 != id,
                self.wf(),
                *self == *old(self),
            decreases n - k,
        {
            if self.entries[k].0 == id {
                proof {
                    old(self).lemma_key_at(k as int, id);
                }
                let ghost old_entries = self.entries@;
                let (eid, mut cb) = self.entries.remove(k);
                cb.is_sent = flag;
                let ghost cbv = cb@;
                self.entries.insert(k, (eid, cb));
                proof {
                    assert(self.entries@ =~= old_entries.update(k as int, (eid, cb)));
                    self.lemma_update_view(old(self), k as int, id, cbv);
                }
                return true;
            }
            k += 1;
        }
        proof {
            assert(!old(self).has_key(id));
        }
        false
    }

    /// After an in-place update at a known index, the map view is the old
    /// one with that key re-bound.
    proof fn lemma_update_view(&self, prev: &Self, k: int, id: CashbackId, cbv: CashbackView)
        requires
            prev.wf(),
            0 <= k < prev.entries@.len(),
            prev.entries@[k].0 == id,
            self.entries@ == prev.entries@.update(k, (id, self.entries@[k].1)),
            self.entries@[k].1@ == cbv,
        ensures
            self.wf(),
            self@ == prev@.insert(id, cbv),
    {
        assert forall|i: int, j: int| 0 <= i < j < self.entries@.len() implies (
        #[trigger] self.entries@[i]).0 != (#[trigger] self.entries@[j]).0 by {
            assert(prev.entries@[i].0 != prev.entries@[j].0);
            assert(self.entries@[i].0 == prev.entries@[i].0);
            assert(self.entries@[j].0 == prev.entries@[j].0);
        }
        prev.lemma_key_at(k, id);
        assert forall|key: CashbackId| #[trigger] self@.contains_key(key) == (prev@.insert(
            id,
            cbv,
        )).contains_key(key) && (self@.contains_key(key) ==> self@[key] == (prev@.insert(
            id,
            cbv,
        ))[key]) by {
            if key == id {
                self.lemma_key_at(k, id);
            } else {
                if self.has_key(key) {
                    let i = self.key_index(key);
                    assert(0 <= i < self.entries@.len() && self.entries@[i].0 == key);
                    assert(prev.entries@[i].0 == key);
                    prev.lemma_key_at(i, key);
                    self.lemma_key_at(i, key);
                }
                if prev.has_key(key) {
                    let i = prev.key_index(key);
                    prev.lemma_key_at(i, key);
                    assert(self.entries@[i].0 == key);
                    self.lemma_key_at(i, key);
                }
            }
        }
        assert(self@ =~= prev@.insert(id, cbv));
    }

    /// Removes and returns the record under `id`; terminal for the record.
    pub(crate) fn remove(&mut self, id: CashbackId) -> (r: Option<Cashback>)
        requires
            old(self).wf(),
        ensures
            final(self).wf(),
            (match r {
                Some(c) => old(self)@.contains_key(id) && c@ == old(self)@[id] && final(self)@
                    == old(self)@.remove(id),
                None => !old(self)@.contains_key(id) && *final(self) == *old(self),
            }),
    {
        let n = self.entries.len();
        let mut k: usize = 0;
        while k < n
            invariant
                n == self.entries@.len(),
                k <= n,
                forall|i: int| 0 <= i < k ==> (#[trigger] self.entries@[i]).0 != id,
                self.wf(),
                *self == *old(self),
            decreases n - k,
        {
            if self.entries[k].0 == id {
                proof {
                    old(self).lemma_key_at(k as int, id);
                }
                let ghost old_entries = self.entries@;
                let e = self.entries.remove(k);
                proof {
                    self.lemma_remove_view(old(self), k as int, id);
                }
                return Some(e.1);
            }
            k += 1;
        }
        proof {
            assert(!old(self).has_key(id));
        }
        None
    }

    /// After taking out the entry at a known index, the map view is the old
    /// one without that key.
    proof fn lemma_remove_view(&self, prev: &Self, k: int, id: CashbackId)
        requires
            prev.wf(),
            0 <= k < prev.entries@.len(),
            prev.entries@[k].0 == id,
            self.entries@ == prev.entries@.remove(k),
        ensures
            self.wf(),
            self@ == prev@.remove(id),
    {
        let pn = prev.entries@.len() as int;
        assert forall|i: int, j: int| 0 <= i < j < self.entries@.len() implies (
        #[trigger] self.entries@[i]).0 != (#[trigger] self.entries@[j]).0 by {
            let pi: int = if i < k {
                i
            } else {
                i + 1
            };
            let pj: int = if j < k {
                j
            } else {
                j + 1
            };
            assert(self.entries@[i] == prev.entries@[pi]);
            assert(self.entries@[j] == prev.entries@[pj]);
            assert(prev.entries@[pi].0 != prev.entries@[pj].0);
        }
        assert forall|key: CashbackId| #[trigger] self@.contains_key(key) == (prev@.remove(
            id,
        )).contains_key(key) && (self@.contains_key(key) ==> self@[key] == (prev@.remove(
            id,
        ))[key]) by {
            if self.has_key(key) {
                let i = self.key_index(key);
                assert(0 <= i < self.entries@.len() && self.entries@[i].0 == key);
                let pi: int = if i < k {
                    i
                } else {
                    i + 1
                };
                assert(self.entries@[i] == prev.entries@[pi]);
                prev.lemma_key_at(pi, key);
                self.lemma_key_at(i, key);
                if key == id {
                    assert(prev.entries@[pi].0 != prev.entries@[k].0 || pi == k);
                }
            }
            if prev.has_key(key) && key != id {
                let pi = prev.key_index(key);
                prev.lemma_key_at(pi, key);
                if pi < k {
                    assert(self.entries@[pi] == prev.entries@[pi]);
                    self.lemma_key_at(pi, key);
                } else {
                    assert(pi != k);
                    assert(self.entries@[pi - 1] == prev.entries@[pi]);
                    self.lemma_key_at(pi - 1, key);
                }
            }
        }
        assert(self@ =~= prev@.remove(id));
    }
}

impl View for CashbackLedger {
    type V = Map<CashbackId, CashbackView>;

    closed spec fn view(&self) -> Map<CashbackId, CashbackView> {
        Map::new(
            |id: CashbackId| self.has_key(id),
            |id: CashbackId| self.entries@[self.key_index(id)].1@,
        )
    }
}

} // verus!
