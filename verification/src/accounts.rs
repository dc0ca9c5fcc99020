//! The account activity tracker: a durable mapping from account identifier
//! to cumulative counters, kept as an association vector whose keys are
//! pairwise distinct and seen in contracts as a `Map` keyed by the
//! identifier's character sequence.

use vstd::prelude::*;

use crate::types::{AccountActivity, AccountActivityView};

verus! {

pub(crate) struct AccountsTable {
    entries: Vec<(String, AccountActivity)>,
}

impl AccountsTable {
    /// Keys are pairwise distinct, so each lookup has one witness.
    pub(crate) closed spec fn wf(&self) -> bool {
        forall|i: int, j: int|
            0 <= i < j < self.entries@.len() ==> (#[trigger] self.entries@[i]).0@ != (
            #[trigger] self.entries@[j]).0@
    }

    spec fn has_key(&self, account: Seq<char>) -> bool {
        exists|i: int| 0 <= i < self.entries@.len() && (#[trigger] self.entries@[i]).0@ == account
    }

    spec fn key_index(&self, account: Seq<char>) -> int {
        choose|i: int|
            0 <= i < self.entries@.len() && (#[trigger] self.entries@[i]).0@ == account
    }

    proof fn lemma_key_at(&self, i: int, account: Seq<char>)
        requires
            self.wf(),
            0 <= i < self.entries@.len(),
            self.entries@[i].0@ == account,
        ensures
            self.has_key(account),
            self.key_index(account) == i,
            self@.contains_key(account),
            self@[account] == self.entries@[i].1@,
    {
        assert(self.has_key(account));
        let j = self.key_index(account);
        assert(0 <= j < self.entries@.len() && self.entries@[j].0@ == account);
        if i < j {
            assert(self.entries@[i].0@ != self.entries@[j].0@);
        } else if j < i {
            assert(self.entries@[j].0@ != self.entries@[i].0@);
        }
    }

    pub(crate) fn new() -> (r: Self)
        ensures
            r.wf(),
            r@ == Map::<Seq<char>, AccountActivityView>::empty(),
    {
        let r = AccountsTable { entries: Vec::new() };
        proof {
            assert(r@ =~= Map::<Seq<char>, AccountActivityView>::empty());
        }
        r
    }

    pub(crate) fn get(&self, account: &String) -> (r: Option<&AccountActivity>)
        requires
            self.wf(),
        ensures
            (match r {
                Some(a) => self@.contains_key(account@) && a@ == self@[account@],
                None => !self@.contains_key(account@),
            }),
    {
        let n = self.entries.len();
        let mut k: usize = 0;
        while k < n
            invariant
                n == self.entries@.len(),
                k <= n,
                forall|i: int| 0 <= i < k ==> (#[trigger] self.entries@[i]).0@ != account@,
                self.wf(),
            decreases n - k,
        {
            let e = &self.entries[k];
            if e.0 == *account {
                proof {
                    self.lemma_key_at(k as int, account@);
                }
                return Some(&e.1);
            }
            k += 1;
        }
        proof {
            assert(!self.has_key(account@));
        }
        None
    }

    /// Binds `account` to `activity`, replacing any previous binding.
    pub(crate) fn upsert(&mut self, account: &String, activity: AccountActivity)
        requires
            old(self).wf(),
        ensures
            final(self).wf(),
            final(self)@ == old(self)@.insert(account@, activity@),
    {
        let ghost av = activity@;
        let n = self.entries.len();
        let mut k: usize = 0;
        while k < n
            invariant
                n == self.entries@.len(),
                k <= n,
                forall|i: int| 0 <= i < k ==> (#[trigger] self.entries@[i]).0@ != account@,
                self.wf(),
                *self == *old(self),
                activity@ == av,
            decreases n - k,
        {
            if self.entries[k].0 == *account {
                proof {
                    old(self).lemma_key_at(k as int, account@);
                }
                let ghost old_entries = self.entries@;
                let (eid, _prev) = self.entries.remove(k);
                let ghost gpair = (eid, activity);
                self.entries.insert(k, (eid, activity));
                proof {
                    assert(self.entries@ =~= old_entries.update(k as int, gpair));
                    assert(self.entries@[k as int] == gpair);
                    self.lemma_update_view(old(self), k as int, account@, av);
                }
                return ;
            }
            k += 1;
        }
        proof {
            if old(self).has_key(account@) {
                let i = old(self).key_index(account@);
                assert(0 <= i < self.entries@.len() && self.entries@[i].0@ == account@);
            }
        }
        let ghost old_entries = self.entries@;
        let cloned_key = account.clone();
        let ghost gpair = (cloned_key, activity);
        self.entries.push((cloned_key, activity));
        proof {
            let m = old_entries.len() as int;
            assert(self.entries@[m] == gpair);
            assert(self.entries@[m].0@ == account@);
            assert(self.entries@[m].1@ == av);
            assert forall|i: int, j: int| 0 <= i < j < self.entries@.len() implies (
            #[trigger] self.entries@[i]).0@ != (#[trigger] self.entries@[j]).0@ by {
                if j < m {
                    assert(old(self).entries@[i].0@ != old(self).entries@[j].0@);
                } else {
                    assert(old(self).entries@[i].0@ != account@);
                }
            }
            assert forall|key: Seq<char>| #[trigger] self@.contains_key(key) == (old(
                self,
            )@.insert(account@, av)).contains_key(key) && (self@.contains_key(key)
                ==> self@[key] == (old(self)@.insert(account@, av))[key]) by {
                if key == account@ {
                    self.lemma_key_at(m, key);
                } else {
                    if self.has_key(key) {
                        let i = self.key_index(key);
                        assert(0 <= i < self.entries@.len() && self.entries@[i].0@ == key);
                        assert(i < m);
                        old(self).lemma_key_at(i, key);
                        self.lemma_key_at(i, key);
                    }
                    if old(self).has_key(key) {
                        let i = old(self).key_index(key);
                        old(self).lemma_key_at(i, key);
                        assert(self.entries@[i].0@ == key);
                        self.lemma_key_at(i, key);
                    }
                }
            }
            assert(self@ =~= old(self)@.insert(account@, av));
        }
    }

    /// After an in-place update at a known index, the map view is the old
    /// one with that key re-bound.
    proof fn lemma_update_view(
        &self,
        prev: &Self,
        k: int,
        account: Seq<char>,
        av: AccountActivityView,
    )
        requires
            prev.wf(),
            0 <= k < prev.entries@.len(),
            prev.entries@[k].0@ == account,
            self.entries@ == prev.entries@.update(k, self.entries@[k]),
            self.entries@[k].0@ == account,
            self.entries@[k].1@ == av,
        ensures
            self.wf(),
            self@ == prev@.insert(account, av),
    {
        assert forall|i: int, j: int| 0 <= i < j < self.entries@.len() implies (
        #[trigger] self.entries@[i]).0@ != (#[trigger] self.entries@[j]).0@ by {
            assert(prev.entries@[i].0@ != prev.entries@[j].0@);
            if i != k {
                assert(self.entries@[i] == prev.entries@[i]);
            }
            if j != k {
                assert(self.entries@[j] == prev.entries@[j]);
            }
        }
        prev.lemma_key_at(k, account);
        assert forall|key: Seq<char>| #[trigger] self@.contains_key(key) == (prev@.insert(
            account,
            av,
        )).contains_key(key) && (self@.contains_key(key) ==> self@[key] == (prev@.insert(
            account,
            av,
        ))[key]) by {
            if key == account {
                self.lemma_key_at(k, account);
            } else {
                if self.has_key(key) {
                    let i = self.key_index(key);
                    assert(0 <= i < self.entries@.len() && self.entries@[i].0@ == key);
                    assert(i != k);
                    assert(prev.entries@[i].0@ == key);
                    prev.lemma_key_at(i, key);
                    self.lemma_key_at(i, key);
                }
                if prev.has_key(key) {
                    let i = prev.key_index(key);
                    prev.lemma_key_at(i, key);
                    assert(i != k);
                    assert(self.entries@[i].0@ == key);
                    self.lemma_key_at(i, key);
                }
            }
        }
        assert(self@ =~= prev@.insert(account, av));
    }
}

impl View for AccountsTable {
    type V = Map<Seq<char>, AccountActivityView>;

    closed spec fn view(&self) -> Map<Seq<char>, AccountActivityView> {
        Map::new(
            |account: Seq<char>| self.has_key(account),
            |account: Seq<char>| self.entries@[self.key_index(account)].1@,
        )
    }
}

} // verus!
