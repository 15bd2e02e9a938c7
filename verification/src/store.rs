//! A verified store of app entries keyed by their account addresses.
//!
//! On the hosting chain each app entry lives in its own account; this
//! store models that account table for hosts that keep the records in
//! memory: creating an app entry files it under its address, removing it
//! destroys the record, and a read of a destroyed record finds nothing.

use crate::addr::Address;
use crate::records::{CollectionApp, CollectionAppView};
use vstd::prelude::*;

verus! {

/// App entries filed under their account addresses, each address used at
/// most once.
pub struct AppStore {
    keys: Vec<Address>,
    apps: Vec<CollectionApp>,
}

impl AppStore {
    /// The stored addresses, as byte sequences.
    pub closed spec fn spec_keys(&self) -> Seq<Seq<u8>> {
        Seq::new(self.keys@.len(), |i: int| self.keys@[i]@)
    }

    /// The stored records, as mathematical values.
    pub closed spec fn spec_apps(&self) -> Seq<CollectionAppView> {
        Seq::new(self.apps@.len(), |i: int| self.apps@[i]@)
    }

    /// Every address is filed at most once, and each filed address has a
    /// record.
    pub open spec fn wf(&self) -> bool {
        &&& self.spec_keys().len() == self.spec_apps().len()
        &&& forall|i: int, j: int|
            0 <= i < j < self.spec_keys().len() ==> self.spec_keys()[i] != self.spec_keys()[j]
    }

    /// The number of records filed.
    pub open spec fn spec_len(&self) -> nat {
        self.spec_keys().len()
    }

    /// Whether a record is filed under `k`.
    pub open spec fn spec_contains(&self, k: Seq<u8>) -> bool {
        exists|i: int| 0 <= i < self.spec_keys().len() && self.spec_keys()[i] == k
    }

    /// The record filed under `k`, if one is.
    pub open spec fn spec_get(&self, k: Seq<u8>) -> Option<CollectionAppView> {
        if self.spec_contains(k) {
            let i = choose|i: int| 0 <= i < self.spec_keys().len() && self.spec_keys()[i] == k;
            Some(self.spec_apps()[i])
        } else {
            None
        }
    }

    /// An empty store.
    pub fn new() -> (r: AppStore)
        ensures
            r.wf(),
            r.spec_len() == 0,
            forall|k: Seq<u8>| !r.spec_contains(k),
    {
        AppStore { keys: Vec::new(), apps: Vec::new() }
    }

    /// How many records are filed.
    pub fn len(&self) -> (r: usize)
        ensures
            r == self.spec_len(),
    {
        self.keys.len()
    }

    /// Looks up the record filed under `k`.
    pub fn get(&self, k: &Address) -> (r: Option<&CollectionApp>)
        requires
            self.wf(),
        ensures
            r is Some <==> self.spec_contains(k@),
            r matches Some(a) ==> self.spec_get(k@) == Some(a@),
            r is None ==> self.spec_get(k@) is None,
    {
        let mut i: usize = 0;
        while i < self.keys.len()
            invariant
                self.wf(),
                0 <= i <= self.spec_keys().len(),
                forall|j: int| 0 <= j < i ==> self.spec_keys()[j] != k@,
            decreases self.spec_keys().len() - i,
        {
            if crate::addr::addr_eq(&self.keys[i], k) {
                proof {
                    assert(self.spec_keys()[i as int] == k@);
                    assert(self.spec_contains(k@));
                    let w = choose|w: int|
                        0 <= w < self.spec_keys().len() && self.spec_keys()[w] == k@;
                    assert(w == i as int);
                }
                return Some(&self.apps[i]);
            }
            i += 1;
        }
        proof {
            assert(!self.spec_contains(k@));
        }
        None
    }

    /// Files `app` under the fresh address `key`. Every other filing is
    /// untouched.
    pub fn insert(&mut self, key: Address, app: CollectionApp)
        requires
            old(self).wf(),
            !old(self).spec_contains(key@),
        ensures
            final(self).wf(),
            final(self).spec_len() == old(self).spec_len() + 1,
            final(self).spec_contains(key@),
            final(self).spec_get(key@) == Some(app@),
            forall|k2: Seq<u8>|
                k2 != key@ ==> final(self).spec_contains(k2) == old(self).spec_contains(k2),
            forall|k2: Seq<u8>| k2 != key@ ==> final(self).spec_get(k2) == old(self).spec_get(k2),
    {
        let ghost old_keys = self.spec_keys();
        let ghost old_apps = self.spec_apps();
        let ghost n = old_keys.len() as int;
        self.keys.push(key);
        self.apps.push(app);
        proof {
            assert(old(self).spec_keys() == old_keys);
            assert(old(self).spec_apps() == old_apps);
            assert forall|i: int| 0 <= i < n implies self.spec_keys()[i] == old_keys[i] by {}
            assert forall|i: int| 0 <= i < n implies self.spec_apps()[i] == old_apps[i] by {}
            assert(self.spec_keys()[n] == key@);
            assert(self.spec_apps()[n] == app@);
            assert forall|i: int| 0 <= i < n implies old_keys[i] != key@ by {
                assert(old(self).spec_keys()[i] == old_keys[i]);
            }
            assert forall|i: int, j: int|
                0 <= i < j < self.spec_keys().len() implies self.spec_keys()[i]
                != self.spec_keys()[j] by {
                if j < n {
                    assert(old(self).spec_keys()[i] == old_keys[i]);
                    assert(old(self).spec_keys()[j] == old_keys[j]);
                } else {
                    assert(old_keys[i] != key@);
                }
            }
            assert(self.wf());
            assert(self.spec_contains(key@));
            let w = choose|w: int| 0 <= w < self.spec_keys().len() && self.spec_keys()[w] == key@;
            assert(w == n);
            assert forall|k2: Seq<u8>| k2 != key@ implies self.spec_contains(k2) == old(
                self,
            ).spec_contains(k2) by {
                if old(self).spec_contains(k2) {
                    let i = choose|i: int| 0 <= i < n && old_keys[i] == k2;
                    assert(self.spec_keys()[i] == k2);
                }
                if self.spec_contains(k2) {
                    let i = choose|i: int|
                        0 <= i < self.spec_keys().len() && self.spec_keys()[i] == k2;
                    assert(i < n);
                    assert(old_keys[i] == k2);
                }
            }
            assert forall|k2: Seq<u8>| k2 != key@ implies self.spec_get(k2) == old(self).spec_get(
                k2,
            ) by {
                if self.spec_contains(k2) {
                    let i = choose|i: int|
                        0 <= i < self.spec_keys().len() && self.spec_keys()[i] == k2;
                    let j = choose|j: int| 0 <= j < n && old_keys[j] == k2;
                    assert(i < n);
                    assert(self.spec_keys()[j] == k2);
                    assert(i == j);
                }
            }
        }
    }

    /// Destroys the record filed under `key` and hands it back, so that
    /// the host can return its reserved storage funds. After the call no
    /// record is filed under `key`; every other filing is untouched.
    pub fn remove(&mut self, key: &Address) -> (r: Option<CollectionApp>)
        requires
            old(self).wf(),
        ensures
            final(self).wf(),
            !final(self).spec_contains(key@),
            final(self).spec_get(key@) is None,
            r is Some <==> old(self).spec_contains(key@),
            r matches Some(a) ==> old(self).spec_get(key@) == Some(a@) && final(self).spec_len()
                + 1 == old(self).spec_len(),
            r is None ==> final(self).spec_len() == old(self).spec_len(),
            forall|k2: Seq<u8>|
                k2 != key@ ==> final(self).spec_contains(k2) == old(self).spec_contains(k2),
            forall|k2: Seq<u8>| k2 != key@ ==> final(self).spec_get(k2) == old(self).spec_get(k2),
    {
        let ghost old_keys = self.spec_keys();
        let ghost old_apps = self.spec_apps();
        let mut i: usize = 0;
        while i < self.keys.len()
            invariant
                self.wf(),
                self.spec_keys() == old_keys,
                self.spec_apps() == old_apps,
                old(self).spec_keys() == old_keys,
                old(self).spec_apps() == old_apps,
                old(self).wf(),
                0 <= i <= old_keys.len(),
                forall|j: int| 0 <= j < i ==> old_keys[j] != key@,
            decreases old_keys.len() - i,
        {
            if crate::addr::addr_eq(&self.keys[i], key) {
                let ghost n = old_keys.len() as int;
                proof {
                    assert(old_keys[i as int] == key@);
                    let w = choose|w: int| 0 <= w < n && old_keys[w] == key@;
                    assert(w == i as int);
                }
                self.keys.remove(i);
                let removed = self.apps.remove(i);
                proof {
                    let ii = i as int;
                    assert(old(self).spec_keys()[ii] == key@);
                    assert forall|j: int| 0 <= j < n - 1 implies self.spec_keys()[j] == (if j < ii {
                        old_keys[j]
                    } else {
                        old_keys[j + 1]
                    }) by {}
                    assert forall|j: int| 0 <= j < n - 1 implies self.spec_apps()[j] == (if j < ii {
                        old_apps[j]
                    } else {
                        old_apps[j + 1]
                    }) by {}
                    assert(self.wf());
                    assert forall|j: int| 0 <= j < n - 1 implies self.spec_keys()[j] != key@ by {
                        if j < ii {
                            assert(old_keys[j] != key@);
                        } else {
                            assert(old_keys[j + 1] != old_keys[ii]);
                        }
                    }
                    assert(!self.spec_contains(key@));
                    assert(old(self).spec_contains(key@));
                    let w2 = choose|w2: int|
                        0 <= w2 < old(self).spec_keys().len() && old(self).spec_keys()[w2] == key@;
                    assert(w2 == ii);
                    assert(old(self).spec_get(key@) == Some(old_apps[ii]));
                    assert(removed@ == old_apps[ii]);
                    assert forall|k2: Seq<u8>| k2 != key@ implies self.spec_contains(k2) == old(
                        self,
                    ).spec_contains(k2) by {
                        if old(self).spec_contains(k2) {
                            let j = choose|j: int| 0 <= j < n && old_keys[j] == k2;
                            if j < ii {
                                assert(self.spec_keys()[j] == k2);
                            } else {
                                assert(j != ii);
                                assert(self.spec_keys()[j - 1] == k2);
                            }
                        }
                        if self.spec_contains(k2) {
                            let j = choose|j: int| 0 <= j < n - 1 && self.spec_keys()[j] == k2;
                            if j < ii {
                                assert(old_keys[j] == k2);
                            } else {
                                assert(old_keys[j + 1] == k2);
                            }
                        }
                    }
                    assert forall|k2: Seq<u8>| k2 != key@ implies self.spec_get(k2) == old(
                        self,
                    ).spec_get(k2) by {
                        if self.spec_contains(k2) {
                            let j = choose|j: int| 0 <= j < n - 1 && self.spec_keys()[j] == k2;
                            let j2 = choose|j2: int| 0 <= j2 < n && old_keys[j2] == k2;
                            if j < ii {
                                assert(old_keys[j] == k2);
                                assert(j2 == j);
                                assert(self.spec_apps()[j] == old_apps[j2]);
                            } else {
                                assert(old_keys[j + 1] == k2);
                                assert(j2 == j + 1);
                                assert(self.spec_apps()[j] == old_apps[j2]);
                            }
                        }
                    }
                }
                return Some(removed);
            }
            i += 1;
        }
        proof {
            assert(!self.spec_contains(key@));
        }
        None
    }
}

/// Law: filing a new app entry and then destroying it leaves no record
/// under its address — a read after the removal finds nothing — and every
/// other filing is exactly as it was.
pub proof fn lemma_store_round_trip(s0: AppStore, s1: AppStore, s2: AppStore, key: Seq<u8>, app: CollectionAppView)
    requires
        s0.wf(),
        !s0.spec_contains(key),
        // After the filing: the record reads back exactly as supplied.
        s1.wf(),
        s1.spec_get(key) == Some(app),
        forall|k2: Seq<u8>| k2 != key ==> s1.spec_get(k2) == s0.spec_get(k2),
        forall|k2: Seq<u8>| k2 != key ==> s1.spec_contains(k2) == s0.spec_contains(k2),
        // After the removal.
        s2.wf(),
        !s2.spec_contains(key),
        forall|k2: Seq<u8>| k2 != key ==> s2.spec_get(k2) == s1.spec_get(k2),
        forall|k2: Seq<u8>| k2 != key ==> s2.spec_contains(k2) == s1.spec_contains(k2),
    ensures
        s2.spec_get(key) is None,
        forall|k2: Seq<u8>| s2.spec_get(k2) == s0.spec_get(k2),
{
    assert forall|k2: Seq<u8>| s2.spec_get(k2) == s0.spec_get(k2) by {
        if k2 == key {
            assert(!s0.spec_contains(key));
            assert(!s2.spec_contains(key));
        }
    }
}

} // verus!
