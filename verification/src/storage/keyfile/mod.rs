//! The store of keyfiles: one record for each address, kept in ascending
//! order of address.

pub mod error;

pub use self::error::KeystoreError;

use crate::address::{rank_of, Address, Place};
use crate::keystore::{summarizes, KeyFile, KeyFileView, KeyfileSummary};
use vstd::prelude::*;

verus! {

/// Whether the records stand in strictly ascending order of address.
spec fn ascending(s: Seq<KeyFile>) -> bool {
    forall|i: int, j: int|
        #![trigger s[i], s[j]]
        0 <= i < j < s.len() ==> rank_of(s[i].address@) < rank_of(s[j].address@)
}

/// Whether one of the records is for `address`.
spec fn holds(s: Seq<KeyFile>, address: Seq<u8>) -> bool {
    exists|i: int| #![trigger s[i]] 0 <= i < s.len() && s[i].address@ == address
}

/// Where the record for `address` stands.
spec fn position(s: Seq<KeyFile>, address: Seq<u8>) -> int {
    choose|i: int| #![trigger s[i]] 0 <= i < s.len() && s[i].address@ == address
}

/// The records by address.
spec fn records(s: Seq<KeyFile>) -> Map<Seq<u8>, KeyFileView> {
    Map::new(|address: Seq<u8>| holds(s, address), |address: Seq<u8>| s[position(s, address)]@)
}

proof fn lemma_record_at(s: Seq<KeyFile>, i: int)
    requires
        ascending(s),
        0 <= i < s.len(),
    ensures
        holds(s, s[i].address@),
        position(s, s[i].address@) == i,
        records(s).contains_key(s[i].address@),
        records(s)[s[i].address@] == s[i]@,
{
    let address = s[i].address@;
    assert(holds(s, address));
    let j = position(s, address);
    assert(0 <= j < s.len() && s[j].address@ == address);
    if j < i {
        assert(rank_of(s[j].address@) < rank_of(s[i].address@));
    } else if i < j {
        assert(rank_of(s[i].address@) < rank_of(s[j].address@));
    }
}

proof fn lemma_insert_records(s: Seq<KeyFile>, idx: int, keyfile: KeyFile)
    requires
        ascending(s),
        0 <= idx <= s.len(),
        forall|j: int|
            #![trigger s[j]]
            0 <= j < idx ==> rank_of(s[j].address@) < rank_of(keyfile.address@),
        forall|j: int|
            #![trigger s[j]]
            idx <= j < s.len() ==> rank_of(keyfile.address@) < rank_of(s[j].address@),
    ensures
        ascending(s.insert(idx, keyfile)),
        records(s.insert(idx, keyfile)) == records(s).insert(keyfile.address@, keyfile@),
{
    let t = s.insert(idx, keyfile);
    assert forall|i: int, j: int| 0 <= i < j < t.len() implies rank_of(t[i].address@) < rank_of(
        t[j].address@,
    ) by {
        let oi = if i < idx {
            i
        } else {
            i - 1
        };
        let oj = if j < idx {
            j
        } else {
            j - 1
        };
        if i == idx {
            assert(t[j] == s[oj]);
        } else if j == idx {
            assert(t[i] == s[oi]);
        } else {
            assert(t[i] == s[oi]);
            assert(t[j] == s[oj]);
        }
    }
    let m1 = records(t);
    let m2 = records(s).insert(keyfile.address@, keyfile@);
    assert forall|k: Seq<u8>|
        #![trigger m1.dom().contains(k)]
        #![trigger m2.dom().contains(k)]
        m1.dom().contains(k) == m2.dom().contains(k) && (m1.dom().contains(k) ==> m1[k]
            == m2[k]) by {
        if k == keyfile.address@ {
            assert(t[idx] == keyfile);
            lemma_record_at(t, idx);
        } else {
            if holds(t, k) {
                let i = position(t, k);
                lemma_record_at(t, i);
                let oi = if i < idx {
                    i
                } else {
                    i - 1
                };
                assert(t[idx] == keyfile);
                assert(s[oi] == t[i]);
                lemma_record_at(s, oi);
            }
            if holds(s, k) {
                let oi = position(s, k);
                lemma_record_at(s, oi);
                let i = if oi < idx {
                    oi
                } else {
                    oi + 1
                };
                assert(t[i] == s[oi]);
                lemma_record_at(t, i);
            }
        }
    }
    assert(m1 =~= m2);
}

proof fn lemma_update_records(s: Seq<KeyFile>, idx: int, keyfile: KeyFile)
    requires
        ascending(s),
        0 <= idx < s.len(),
        s[idx].address@ == keyfile.address@,
    ensures
        ascending(s.update(idx, keyfile)),
        records(s.update(idx, keyfile)) == records(s).insert(keyfile.address@, keyfile@),
{
    let t = s.update(idx, keyfile);
    assert forall|i: int, j: int| 0 <= i < j < t.len() implies rank_of(t[i].address@) < rank_of(
        t[j].address@,
    ) by {
        assert(t[i].address@ == s[i].address@);
        assert(t[j].address@ == s[j].address@);
    }
    let m1 = records(t);
    let m2 = records(s).insert(keyfile.address@, keyfile@);
    assert forall|k: Seq<u8>|
        #![trigger m1.dom().contains(k)]
        #![trigger m2.dom().contains(k)]
        m1.dom().contains(k) == m2.dom().contains(k) && (m1.dom().contains(k) ==> m1[k]
            == m2[k]) by {
        if k == keyfile.address@ {
            lemma_record_at(t, idx);
        } else {
            if holds(t, k) {
                let i = position(t, k);
                lemma_record_at(t, i);
                assert(t[i] == s[i]);
                lemma_record_at(s, i);
            }
            if holds(s, k) {
                let i = position(s, k);
                lemma_record_at(s, i);
                assert(t[i] == s[i]);
                lemma_record_at(t, i);
            }
        }
    }
    assert(m1 =~= m2);
}

proof fn lemma_remove_records(s: Seq<KeyFile>, idx: int)
    requires
        ascending(s),
        0 <= idx < s.len(),
    ensures
        ascending(s.remove(idx)),
        records(s.remove(idx)) == records(s).remove(s[idx].address@),
{
    let t = s.remove(idx);
    assert forall|i: int, j: int| 0 <= i < j < t.len() implies rank_of(t[i].address@) < rank_of(
        t[j].address@,
    ) by {
        let oi = if i < idx {
            i
        } else {
            i + 1
        };
        let oj = if j < idx {
            j
        } else {
            j + 1
        };
        assert(t[i] == s[oi]);
        assert(t[j] == s[oj]);
    }
    let m1 = records(t);
    let m2 = records(s).remove(s[idx].address@);
    lemma_record_at(s, idx);
    assert forall|k: Seq<u8>|
        #![trigger m1.dom().contains(k)]
        #![trigger m2.dom().contains(k)]
        m1.dom().contains(k) == m2.dom().contains(k) && (m1.dom().contains(k) ==> m1[k]
            == m2[k]) by {
        if holds(t, k) {
            let i = position(t, k);
            lemma_record_at(t, i);
            let oi = if i < idx {
                i
            } else {
                i + 1
            };
            assert(t[i] == s[oi]);
            lemma_record_at(s, oi);
        }
        if holds(s, k) && k != s[idx].address@ {
            let oi = position(s, k);
            lemma_record_at(s, oi);
            let i = if oi < idx {
                oi
            } else {
                oi - 1
            };
            assert(t[i] == s[oi]);
            lemma_record_at(t, i);
        }
    }
    assert(m1 =~= m2);
}

/// Whether `listing` is the listing of `store`: every record of the store
/// that is to be shown, once, in ascending order of address.
pub open spec fn is_listing(
    listing: Seq<KeyfileSummary>,
    store: Map<Seq<u8>, KeyFileView>,
    show_hidden: bool,
) -> bool {
    &&& forall|i: int|
        #![trigger listing[i]]
        0 <= i < listing.len() ==> {
            &&& store.contains_key(listing[i].address@)
            &&& summarizes(listing[i], store[listing[i].address@])
            &&& (show_hidden || !listing[i].hidden)
        }
    &&& forall|address: Seq<u8>|
        #![trigger store.contains_key(address)]
        store.contains_key(address) && (show_hidden || !store[address].hidden) ==> exists|i: int|
            #![trigger listing[i]]
            0 <= i < listing.len() && listing[i].address@ == address
    &&& forall|i: int, j: int|
        #![trigger listing[i], listing[j]]
        0 <= i < j < listing.len() ==> rank_of(listing[i].address@) < rank_of(
            listing[j].address@,
        )
}

/// Putting back what a store held for an address undoes a change of the
/// keyfile of that address, whether the change put a keyfile or removed it.
pub proof fn lemma_restore_undoes(
    store: Map<Seq<u8>, KeyFileView>,
    address: Seq<u8>,
    changed: Option<KeyFileView>,
)
    ensures
        ({
            let after = match changed {
                Some(keyfile) => store.insert(address, keyfile),
                None => store.remove(address),
            };
            store == if store.contains_key(address) {
                after.insert(address, store[address])
            } else {
                after.remove(address)
            }
        }),
{
    let after = match changed {
        Some(keyfile) => store.insert(address, keyfile),
        None => store.remove(address),
    };
    if store.contains_key(address) {
        assert(store =~= after.insert(address, store[address]));
    } else {
        assert(store =~= after.remove(address));
    }
}

/// The keyfiles of one storage root, one for each address.
pub struct KeyfileStore {
    entries: Vec<KeyFile>,
}

impl View for KeyfileStore {
    type V = Map<Seq<u8>, KeyFileView>;

    closed spec fn view(&self) -> Map<Seq<u8>, KeyFileView> {
        records(self.entries@)
    }
}

impl KeyfileStore {
    #[verifier::type_invariant]
    spec fn well_formed(&self) -> bool {
        ascending(self.entries@)
    }

    /// A store without keyfiles.
    pub fn new() -> (r: KeyfileStore)
        ensures
            r@ == Map::<Seq<u8>, KeyFileView>::empty(),
    {
        let r = KeyfileStore { entries: Vec::new() };
        assert(r@ =~= Map::<Seq<u8>, KeyFileView>::empty());
        r
    }

    /// Where the record for `address` stands, or where it would be put.
    fn search(&self, address: &Address) -> (r: (usize, bool))
        ensures
            r.0 <= self.entries@.len(),
            r.1 ==> r.0 < self.entries@.len() && self.entries@[r.0 as int].address@ == address@,
            !r.1 ==> forall|j: int|
                #![trigger self.entries@[j]]
                0 <= j < r.0 ==> rank_of(self.entries@[j].address@) < rank_of(address@),
            !r.1 ==> forall|j: int|
                #![trigger self.entries@[j]]
                r.0 <= j < self.entries@.len() ==> rank_of(address@) < rank_of(
                    self.entries@[j].address@,
                ),
            r.1 == self@.contains_key(address@),
    {
        proof {
            use_type_invariant(self);
        }
        let mut lo: usize = 0;
        let mut hi: usize = self.entries.len();
        while lo < hi
            invariant
                lo <= hi <= self.entries@.len(),
                ascending(self.entries@),
                forall|j: int|
                    #![trigger self.entries@[j]]
                    0 <= j < lo ==> rank_of(self.entries@[j].address@) < rank_of(address@),
                forall|j: int|
                    #![trigger self.entries@[j]]
                    hi <= j < self.entries@.len() ==> rank_of(address@) < rank_of(
                        self.entries@[j].address@,
                    ),
            decreases hi - lo,
        {
            let mid: usize = lo + (hi - lo) / 2;
            match self.entries[mid].address.place(address) {
                Place::Before => {
                    lo = mid + 1;
                },
                Place::Same => {
                    proof {
                        lemma_record_at(self.entries@, mid as int);
                    }
                    return (mid, true);
                },
                Place::After => {
                    hi = mid;
                },
            }
        }
        proof {
            if holds(self.entries@, address@) {
                let i = position(self.entries@, address@);
                assert(self.entries@[i].address@ == address@);
            }
        }
        (lo, false)
    }

    /// Whether the store holds a keyfile for `address`.
    pub fn contains(&self, address: &Address) -> (r: bool)
        ensures
            r == self@.contains_key(address@),
    {
        self.search(address).1
    }

    /// Stores `keyfile` under its address, in place of the keyfile that was
    /// stored under that address, if there was one.
    pub fn put(&mut self, keyfile: KeyFile) -> (r: Result<(), KeystoreError>)
        ensures
            r is Ok,
            final(self)@ == old(self)@.insert(keyfile.address@, keyfile@),
    {
        proof {
            use_type_invariant(&*self);
        }
        let (idx, found) = self.search(&keyfile.address);
        proof {
            if found {
                lemma_update_records(self.entries@, idx as int, keyfile);
            } else {
                lemma_insert_records(self.entries@, idx as int, keyfile);
            }
        }
        let mut entries: Vec<KeyFile> = Vec::new();
        std::mem::swap(&mut self.entries, &mut entries);
        if found {
            entries.set(idx, keyfile);
        } else {
            entries.insert(idx, keyfile);
        }
        std::mem::swap(&mut self.entries, &mut entries);
        Ok(())
    }

    /// The keyfile stored under `address`.
    ///
    /// # Errors
    ///
    /// `NotFound` with the address in text if the store holds none for it.
    pub fn get(&self, address: &Address) -> (r: Result<KeyFile, KeystoreError>)
        ensures
            match r {
                Ok(keyfile) => {
                    &&& self@.contains_key(address@)
                    &&& keyfile@ == self@[address@]
                    &&& keyfile.address@ == address@
                },
                Err(e) => {
                    &&& !self@.contains_key(address@)
                    &&& e matches KeystoreError::NotFound(text)
                    &&& text@ == address.hex_spec()
                },
            },
    {
        proof {
            use_type_invariant(self);
        }
        let (idx, found) = self.search(address);
        if found {
            proof {
                lemma_record_at(self.entries@, idx as int);
            }
            Ok(self.entries[idx].clone())
        } else {
            Err(KeystoreError::NotFound(address.to_hex()))
        }
    }

    /// Sets the hidden flag of the keyfile stored under `address`, and
    /// changes nothing else.
    ///
    /// # Errors
    ///
    /// `NotFound` with the address in text if the store holds none for it;
    /// the store is then unchanged.
    pub fn set_hidden(&mut self, address: &Address, hidden: bool) -> (r: Result<
        (),
        KeystoreError,
    >)
        ensures
            match r {
                Ok(_) => old(self)@.contains_key(address@) && final(self)@ == old(self)@.insert(
                    address@,
                    (KeyFileView { hidden: hidden, ..old(self)@[address@] }),
                ),
                Err(e) => {
                    &&& !old(self)@.contains_key(address@)
                    &&& final(self)@ == old(self)@
                    &&& e matches KeystoreError::NotFound(text)
                    &&& text@ == address.hex_spec()
                },
            },
    {
        proof {
            use_type_invariant(&*self);
        }
        let (idx, found) = self.search(address);
        if found {
            let mut keyfile = self.entries[idx].clone();
            keyfile.hidden = hidden;
            proof {
                lemma_record_at(self.entries@, idx as int);
                lemma_update_records(self.entries@, idx as int, keyfile);
            }
            let mut entries: Vec<KeyFile> = Vec::new();
            std::mem::swap(&mut self.entries, &mut entries);
            entries.set(idx, keyfile);
            std::mem::swap(&mut self.entries, &mut entries);
            Ok(())
        } else {
            Err(KeystoreError::NotFound(address.to_hex()))
        }
    }

    /// Removes the keyfile stored under `address`.
    ///
    /// # Errors
    ///
    /// `NotFound` with the address in text if the store holds none for it;
    /// the store is then unchanged.
    pub fn delete(&mut self, address: &Address) -> (r: Result<(), KeystoreError>)
        ensures
            match r {
                Ok(_) => old(self)@.contains_key(address@) && final(self)@ == old(self)@.remove(
                    address@,
                ),
                Err(e) => {
                    &&& !old(self)@.contains_key(address@)
                    &&& final(self)@ == old(self)@
                    &&& e matches KeystoreError::NotFound(text)
                    &&& text@ == address.hex_spec()
                },
            },
    {
        proof {
            use_type_invariant(&*self);
        }
        let (idx, found) = self.search(address);
        if found {
            proof {
                lemma_remove_records(self.entries@, idx as int);
            }
            let mut entries: Vec<KeyFile> = Vec::new();
            std::mem::swap(&mut self.entries, &mut entries);
            entries.remove(idx);
            std::mem::swap(&mut self.entries, &mut entries);
            Ok(())
        } else {
            Err(KeystoreError::NotFound(address.to_hex()))
        }
    }

    /// Puts back what the store held for `address` before a change: the
    /// keyfile `before`, under its own address, or nothing.
    pub fn restore(&mut self, address: &Address, before: Option<KeyFile>)
        ensures
            final(self)@ == match before {
                Some(keyfile) => old(self)@.insert(keyfile.address@, keyfile@),
                None => old(self)@.remove(address@),
            },
    {
        match before {
            Some(keyfile) => {
                let _ = self.put(keyfile);
            },
            None => {
                let _ = self.delete(address);
                assert(self@ =~= old(self)@.remove(address@));
            },
        }
    }

    /// What the store shows of its keyfiles, in ascending order of address:
    /// of all of them if `show_hidden`, else of those that are not hidden.
    pub fn list(&self, show_hidden: bool) -> (r: Result<Vec<KeyfileSummary>, KeystoreError>)
        ensures
            r matches Ok(listing) && is_listing(listing@, self@, show_hidden),
    {
        proof {
            use_type_invariant(self);
        }
        let mut listing: Vec<KeyfileSummary> = Vec::new();
        let ghost mut picked: Seq<int> = Seq::empty();
        let mut i: usize = 0;
        while i < self.entries.len()
            invariant
                i <= self.entries@.len(),
                ascending(self.entries@),
                picked.len() == listing@.len(),
                forall|k: int|
                    #![trigger picked[k]]
                    0 <= k < picked.len() ==> {
                        &&& 0 <= picked[k] < i
                        &&& summarizes(listing@[k], self.entries@[picked[k]]@)
                        &&& (show_hidden || !self.entries@[picked[k]].hidden)
                    },
                forall|k: int, l: int|
                    #![trigger picked[k], picked[l]]
                    0 <= k < l < picked.len() ==> picked[k] < picked[l],
                forall|j: int|
                    #![trigger self.entries@[j]]
                    0 <= j < i && (show_hidden || !self.entries@[j].hidden) ==> exists|k: int|
                        #![trigger picked[k]]
                        0 <= k < picked.len() && picked[k] == j,
            decreases self.entries@.len() - i,
        {
            if show_hidden || !self.entries[i].hidden {
                let summary = self.entries[i].summary();
                let ghost before = picked;
                listing.push(summary);
                proof {
                    picked = picked.push(i as int);
                    assert forall|j: int|
                        #![trigger self.entries@[j]]
                        0 <= j < i + 1 && (show_hidden || !self.entries@[j].hidden) implies exists|
                            k: int,
                        |
                            #![trigger picked[k]]
                            0 <= k < picked.len() && picked[k] == j by {
                        if j < i {
                            let k = choose|k: int|
                                #![trigger before[k]]
                                0 <= k < before.len() && before[k] == j;
                            assert(picked[k] == j);
                        } else {
                            assert(picked[picked.len() - 1] == j);
                        }
                    }
                }
            }
            i += 1;
        }
        proof {
            let s = self.entries@;
            assert forall|k: int| #![trigger listing@[k]] 0 <= k < listing@.len() implies {
                &&& self@.contains_key(listing@[k].address@)
                &&& summarizes(listing@[k], self@[listing@[k].address@])
                &&& (show_hidden || !listing@[k].hidden)
            } by {
                let j = picked[k];
                lemma_record_at(s, j);
            }
            assert forall|address: Seq<u8>|
                #![trigger self@.contains_key(address)]
                self@.contains_key(address) && (show_hidden
                    || !self@[address].hidden) implies exists|k: int|
                #![trigger listing@[k]]
                0 <= k < listing@.len() && listing@[k].address@ == address by {
                let j = position(s, address);
                lemma_record_at(s, j);
                assert(s[j].address@ == address);
                let k = choose|k: int|
                    #![trigger picked[k]]
                    0 <= k < picked.len() && picked[k] == j;
                assert(listing@[k].address@ == address);
            }
            assert forall|k: int, l: int|
                #![trigger listing@[k], listing@[l]]
                0 <= k < l < listing@.len() implies rank_of(listing@[k].address@) < rank_of(
                listing@[l].address@,
            ) by {
                assert(picked[k] < picked[l]);
                assert(rank_of(s[picked[k]].address@) < rank_of(s[picked[l]].address@));
            }
        }
        Ok(listing)
    }
}

} // verus!
