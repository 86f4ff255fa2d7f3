//! The ledger state of the sandbox: ledger entries, each stored under its own
//! ledger key with an optional time to live (the last ledger it lives until).
//! Entries and keys are held as their XDR.

use vstd::prelude::*;

use crate::bytes::{bytes_equal, copy_bytes};
use crate::xdr::{ledger_entry_account, ledger_entry_key, xdr_ledger_entry, AccountInfo, EntryKind};

verus! {

/// What is stored under a key: the entry's XDR and its time to live.
pub type Stored = (Seq<u8>, Option<u32>);

/// The contents of a ledger state: key XDR to entry XDR and time to live.
pub type Contents = Map<Seq<u8>, Stored>;

/// What a lookup of `key` gives in `m`.
pub open spec fn lookup(m: Contents, key: Seq<u8>) -> Option<Stored> {
    if m.contains_key(key) {
        Some(m[key])
    } else {
        None
    }
}

/// The key under which an entry is stored: the XDR of its own ledger key.
pub open spec fn entry_key(entry: Seq<u8>) -> Seq<u8> {
    xdr_ledger_entry(entry).unwrap().key
}

/// Every entry of `m` decodes, and is stored under its own key.
pub open spec fn keyed_by_own_key(m: Contents) -> bool {
    forall|k: Seq<u8>| #[trigger] m.contains_key(k)
        ==> (xdr_ledger_entry(m[k].0) matches Some(v) && v.key == k)
}

/// One stored ledger entry.
pub struct StoredEntry {
    pub key: Vec<u8>,
    pub entry: Vec<u8>,
    pub ttl: Option<u32>,
}

/// Why reading an account failed.
#[derive(Debug)]
pub enum MemoryError {
    /// The entry under the account's key is not an account entry.
    NotAnAccount,
}

/// The ledger entries of the sandbox.
pub struct Memory {
    slots: Vec<StoredEntry>,
    contents: Ghost<Contents>,
}

impl View for Memory {
    type V = Contents;

    closed spec fn view(&self) -> Contents {
        self.contents@
    }
}

impl Memory {
    #[verifier::type_invariant]
    spec fn inv(self) -> bool {
        &&& forall|i: int| 0 <= i < self.slots@.len() ==> {
            &&& #[trigger] self.contents@.contains_key(self.slots@[i].key@)
            &&& self.contents@[self.slots@[i].key@] == (self.slots@[i].entry@, self.slots@[i].ttl)
        }
        &&& forall|k: Seq<u8>| #[trigger] self.contents@.contains_key(k)
            ==> exists|i: int| 0 <= i < self.slots@.len() && self.slots@[i].key@ == k
        &&& forall|i: int, j: int| 0 <= i < self.slots@.len() && 0 <= j < self.slots@.len() && i != j
            ==> self.slots@[i].key@ != self.slots@[j].key@
        &&& keyed_by_own_key(self.contents@)
    }

    /// An empty ledger state.
    pub fn new() -> (m: Memory)
        ensures
            m@ == Map::<Seq<u8>, Stored>::empty(),
    {
        Memory { slots: Vec::new(), contents: Ghost(Map::empty()) }
    }

    /// The position of the slot holding `key`, if any.
    fn find(&self, key: &[u8]) -> (r: Option<usize>)
        ensures
            match r {
                Some(i) => i < self.slots@.len() && self.slots@[i as int].key@ == key@,
                None => !self@.contains_key(key@),
            },
    {
        proof {
            use_type_invariant(self);
        }
        let mut i: usize = 0;
        while i < self.slots.len()
            invariant
                i <= self.slots@.len(),
                forall|j: int| 0 <= j < i ==> self.slots@[j].key@ != key@,
            decreases self.slots@.len() - i,
        {
            if bytes_equal(&self.slots[i].key, key) {
                return Some(i);
            }
            i = i + 1;
        }
        None
    }

    /// Stores an entry under its own key with no time to live.
    pub fn insert(&mut self, entry: Vec<u8>) -> (r: Result<(), soroban_env_common::xdr::Error>)
        ensures
            r is Ok <==> xdr_ledger_entry(entry@) is Some,
            r is Ok ==> final(self)@ == old(self)@.insert(entry_key(entry@), (entry@, None)),
            r is Err ==> final(self)@ == old(self)@,
    {
        self.insert_with_ttl(entry, None)
    }

    /// Stores an entry under its own key with the given time to live,
    /// replacing what was stored there. Fails, changing nothing, when the
    /// entry does not decode.
    pub fn insert_with_ttl(&mut self, entry: Vec<u8>, ttl: Option<u32>) -> (r: Result<(), soroban_env_common::xdr::Error>)
        ensures
            r is Ok <==> xdr_ledger_entry(entry@) is Some,
            r is Ok ==> final(self)@ == old(self)@.insert(entry_key(entry@), (entry@, ttl)),
            r is Err ==> final(self)@ == old(self)@,
    {
        let key = ledger_entry_key(&entry)?;
        let pos = self.find(&key);
        let mut taken = Memory::new();
        std::mem::swap(self, &mut taken);
        proof {
            use_type_invariant(&taken);
        }
        let Memory { slots: mut slots, contents: Ghost(contents) } = taken;
        let ghost new_contents = contents.insert(key@, (entry@, ttl));
        let ghost old_slots = slots@;
        match pos {
            Some(i) => {
                slots.set(i, StoredEntry { key, entry, ttl });
                assert forall|k: Seq<u8>| #[trigger] new_contents.contains_key(k)
                    implies exists|j: int| 0 <= j < slots@.len() && slots@[j].key@ == k by {
                    if k != slots@[i as int].key@ {
                        let j = choose|j: int| 0 <= j < old_slots.len() && old_slots[j].key@ == k;
                        assert(slots@[j].key@ == k);
                    }
                }
            },
            None => {
                slots.push(StoredEntry { key, entry, ttl });
                assert forall|k: Seq<u8>| #[trigger] new_contents.contains_key(k)
                    implies exists|j: int| 0 <= j < slots@.len() && slots@[j].key@ == k by {
                    if k != slots@[old_slots.len() as int].key@ {
                        let j = choose|j: int| 0 <= j < old_slots.len() && old_slots[j].key@ == k;
                        assert(slots@[j].key@ == k);
                    }
                }
            },
        }
        *self = Memory { slots, contents: Ghost(new_contents) };
        Ok(())
    }

    /// Sets the time to live of the entry under `key`; changes nothing when no
    /// entry is stored there.
    pub fn update_ttl(&mut self, key: &[u8], new_ttl: Option<u32>)
        ensures
            old(self)@.contains_key(key@) ==> final(self)@ == old(self)@.insert(key@, (old(self)@[key@].0, new_ttl)),
            !old(self)@.contains_key(key@) ==> final(self)@ == old(self)@,
    {
        let pos = self.find(key);
        if let Some(i) = pos {
            let mut taken = Memory::new();
            std::mem::swap(self, &mut taken);
            proof {
                use_type_invariant(&taken);
            }
            let Memory { slots: mut slots, contents: Ghost(contents) } = taken;
            let ghost new_contents = contents.insert(key@, (contents[key@].0, new_ttl));
            let ghost old_slots = slots@;
            assert(old_slots[i as int].key@ == key@);
            assert(contents.contains_key(old_slots[i as int].key@));
            assert(contents[key@] == (old_slots[i as int].entry@, old_slots[i as int].ttl));
            let k = copy_bytes(&slots[i].key);
            let e = copy_bytes(&slots[i].entry);
            slots.set(i, StoredEntry { key: k, entry: e, ttl: new_ttl });
            assert forall|j: int| 0 <= j < slots@.len() implies #[trigger] new_contents.contains_key(slots@[j].key@)
                && new_contents[slots@[j].key@] == (slots@[j].entry@, slots@[j].ttl) by {
                if j != i {
                    assert(slots@[j] == old_slots[j]);
                    assert(old_slots[j].key@ != old_slots[i as int].key@);
                }
            }
            assert forall|a: int, b: int| 0 <= a < slots@.len() && 0 <= b < slots@.len() && a != b
                implies slots@[a].key@ != slots@[b].key@ by {
                assert(slots@[a].key@ == old_slots[a].key@);
                assert(slots@[b].key@ == old_slots[b].key@);
            }
            assert forall|kk: Seq<u8>| #[trigger] new_contents.contains_key(kk)
                implies (xdr_ledger_entry(new_contents[kk].0) matches Some(v) && v.key == kk) by {
                assert(contents.contains_key(kk));
            }
            assert forall|k: Seq<u8>| #[trigger] new_contents.contains_key(k)
                implies exists|j: int| 0 <= j < slots@.len() && slots@[j].key@ == k by {
                let j = choose|j: int| 0 <= j < old_slots.len() && old_slots[j].key@ == k;
                assert(slots@[j].key@ == k);
            }
            *self = Memory { slots, contents: Ghost(new_contents) };
        }
    }

    /// Removes the entry under `key`, if any.
    pub fn remove(&mut self, key: &[u8])
        ensures
            final(self)@ == old(self)@.remove(key@),
    {
        let pos = self.find(key);
        match pos {
            None => {
                assert(self@.remove(key@) =~= self@);
            },
            Some(i) => {
                let mut taken = Memory::new();
                std::mem::swap(self, &mut taken);
                proof {
                    use_type_invariant(&taken);
                }
                let Memory { slots: mut slots, contents: Ghost(contents) } = taken;
                let ghost new_contents = contents.remove(key@);
                let ghost old_slots = slots@;
                slots.remove(i);
                assert forall|j: int| 0 <= j < slots@.len() implies #[trigger] new_contents.contains_key(slots@[j].key@)
                    && new_contents[slots@[j].key@] == (slots@[j].entry@, slots@[j].ttl) by {
                    if j < i {
                        assert(slots@[j] == old_slots[j]);
                    } else {
                        assert(slots@[j] == old_slots[j + 1]);
                    }
                }
                assert forall|k: Seq<u8>| #[trigger] new_contents.contains_key(k)
                    implies exists|j: int| 0 <= j < slots@.len() && slots@[j].key@ == k by {
                    let j = choose|j: int| 0 <= j < old_slots.len() && old_slots[j].key@ == k;
                    if j < i {
                        assert(slots@[j].key@ == k);
                    } else {
                        assert(slots@[j - 1].key@ == k);
                    }
                }
                assert forall|a: int, b: int| 0 <= a < slots@.len() && 0 <= b < slots@.len() && a != b
                    implies slots@[a].key@ != slots@[b].key@ by {
                    let oa = if a < i { a } else { a + 1 };
                    let ob = if b < i { b } else { b + 1 };
                    assert(slots@[a] == old_slots[oa]);
                    assert(slots@[b] == old_slots[ob]);
                }
                *self = Memory { slots, contents: Ghost(new_contents) };
            },
        }
    }

    /// The entry and time to live stored under `key`.
    pub fn get(&self, key: &[u8]) -> (r: Option<(Vec<u8>, Option<u32>)>)
        ensures
            match r {
                Some((e, t)) => lookup(self@, key@) == Some((e@, t)),
                None => lookup(self@, key@) is None,
            },
            r matches Some((e, _)) ==> (xdr_ledger_entry(e@) matches Some(v) && v.key == key@),
    {
        proof {
            use_type_invariant(self);
        }
        match self.find(key) {
            Some(i) => Some((copy_bytes(&self.slots[i].entry), self.slots[i].ttl)),
            None => None,
        }
    }

    /// Every stored entry, once, with its key and time to live.
    pub fn entries(&self) -> (r: Vec<StoredEntry>)
        ensures
            forall|i: int| 0 <= i < r@.len() ==> lookup(self@, (#[trigger] r@[i]).key@) == Some((r@[i].entry@, r@[i].ttl)),
            forall|k: Seq<u8>| #[trigger] self@.contains_key(k) ==> exists|i: int| 0 <= i < r@.len() && r@[i].key@ == k,
            forall|i: int, j: int| 0 <= i < r@.len() && 0 <= j < r@.len() && i != j ==> r@[i].key@ != r@[j].key@,
    {
        proof {
            use_type_invariant(self);
        }
        let mut r: Vec<StoredEntry> = Vec::new();
        let mut i: usize = 0;
        while i < self.slots.len()
            invariant
                i <= self.slots@.len(),
                r@.len() == i,
                forall|j: int| 0 <= j < i ==> {
                    &&& (#[trigger] r@[j]).key@ == self.slots@[j].key@
                    &&& r@[j].entry@ == self.slots@[j].entry@
                    &&& r@[j].ttl == self.slots@[j].ttl
                },
            decreases self.slots@.len() - i,
        {
            let slot = &self.slots[i];
            r.push(StoredEntry { key: copy_bytes(&slot.key), entry: copy_bytes(&slot.entry), ttl: slot.ttl });
            i = i + 1;
        }
        proof {
            assert forall|k: Seq<u8>| #[trigger] self@.contains_key(k) implies exists|i: int|
                0 <= i < r@.len() && r@[i].key@ == k by {
                let j = choose|j: int| 0 <= j < self.slots@.len() && self.slots@[j].key@ == k;
                assert(r@[j].key@ == k);
            }
            assert forall|a: int| 0 <= a < r@.len() implies lookup(self@, (#[trigger] r@[a]).key@)
                == Some((r@[a].entry@, r@[a].ttl)) by {
                assert(self@.contains_key(self.slots@[a].key@));
            }
        }
        r
    }

    /// The account stored under `key`: `None` when nothing is stored there, an
    /// error when the entry there is not an account entry.
    pub fn get_account(&self, key: &[u8]) -> (r: Result<Option<AccountInfo>, MemoryError>)
        ensures
            match r {
                Ok(None) => !self@.contains_key(key@),
                Ok(Some(a)) => self@.contains_key(key@)
                    && xdr_ledger_entry(self@[key@].0).unwrap().kind == EntryKind::Account
                    && xdr_ledger_entry(self@[key@].0).unwrap().account == Some(a@),
                Err(_) => self@.contains_key(key@)
                    && xdr_ledger_entry(self@[key@].0).unwrap().kind != EntryKind::Account
                    && xdr_ledger_entry(self@[key@].0).unwrap().account is None,
            },
    {
        proof {
            use_type_invariant(self);
        }
        let stored = self.get(key);
        match stored {
            None => Ok(None),
            Some((entry, _)) => match ledger_entry_account(&entry) {
                Ok(Some(a)) => Ok(Some(a)),
                _ => Err(MemoryError::NotAnAccount),
            },
        }
    }
}

} // verus!
