//! The transactions the sandbox has seen, by hash.

use vstd::prelude::*;

use crate::ledger_info::LedgerInfo;
use crate::model::DiagnosticEventRecord;
use crate::transaction::Envelope;

verus! {

/// What the sandbox records of a submitted transaction.
pub struct TransactionInfo {
    pub envelope: Envelope,
    /// XDR of the returned value, or why the transaction failed.
    pub result: Result<Vec<u8>, String>,
    /// The ledger the transaction ran on.
    pub ledger_info: LedgerInfo,
    pub events: Vec<DiagnosticEventRecord>,
}

/// One recorded transaction.
struct TxSlot {
    hash: String,
    info: TransactionInfo,
}

/// Submitted transactions by hash (lower-case hex).
pub struct TxStorage {
    slots: Vec<TxSlot>,
    contents: Ghost<Map<Seq<char>, TransactionInfo>>,
}

impl View for TxStorage {
    type V = Map<Seq<char>, TransactionInfo>;

    closed spec fn view(&self) -> Map<Seq<char>, TransactionInfo> {
        self.contents@
    }
}

impl TxStorage {
    #[verifier::type_invariant]
    spec fn inv(self) -> bool {
        &&& forall|i: int| 0 <= i < self.slots@.len() ==> {
            &&& #[trigger] self.contents@.contains_key(self.slots@[i].hash@)
            &&& self.contents@[self.slots@[i].hash@] == self.slots@[i].info
        }
        &&& forall|k: Seq<char>| #[trigger] self.contents@.contains_key(k)
            ==> exists|i: int| 0 <= i < self.slots@.len() && self.slots@[i].hash@ == k
        &&& forall|i: int, j: int| 0 <= i < self.slots@.len() && 0 <= j < self.slots@.len() && i != j
            ==> self.slots@[i].hash@ != self.slots@[j].hash@
    }

    /// An empty storage.
    pub fn new() -> (r: TxStorage)
        ensures
            r@ == Map::<Seq<char>, TransactionInfo>::empty(),
    {
        TxStorage { slots: Vec::new(), contents: Ghost(Map::empty()) }
    }

    fn find(&self, tx_hash: &String) -> (r: Option<usize>)
        ensures
            match r {
                Some(i) => i < self.slots@.len() && self.slots@[i as int].hash@ == tx_hash@,
                None => !self@.contains_key(tx_hash@),
            },
    {
        proof {
            use_type_invariant(self);
        }
        let mut i: usize = 0;
        while i < self.slots.len()
            invariant
                i <= self.slots@.len(),
                forall|j: int| 0 <= j < i ==> self.slots@[j].hash@ != tx_hash@,
            decreases self.slots@.len() - i,
        {
            if self.slots[i].hash == *tx_hash {
                return Some(i);
            }
            i = i + 1;
        }
        None
    }

    /// Records a transaction under its hash, replacing any earlier record.
    pub fn insert(&mut self, tx_hash: String, transaction_info: TransactionInfo)
        ensures
            final(self)@ == old(self)@.insert(tx_hash@, transaction_info),
    {
        let pos = self.find(&tx_hash);
        let mut taken = TxStorage::new();
        std::mem::swap(self, &mut taken);
        proof {
            use_type_invariant(&taken);
        }
        let TxStorage { slots: mut slots, contents: Ghost(contents) } = taken;
        let ghost new_contents = contents.insert(tx_hash@, transaction_info);
        let ghost old_slots = slots@;
        match pos {
            Some(i) => {
                slots.set(i, TxSlot { hash: tx_hash, info: transaction_info });
                assert forall|j: int| 0 <= j < slots@.len() implies #[trigger] new_contents.contains_key(slots@[j].hash@)
                    && new_contents[slots@[j].hash@] == slots@[j].info by {
                    if j != i {
                        assert(slots@[j] == old_slots[j]);
                        assert(old_slots[j].hash@ != old_slots[i as int].hash@);
                    }
                }
                assert forall|a: int, b: int| 0 <= a < slots@.len() && 0 <= b < slots@.len() && a != b
                    implies slots@[a].hash@ != slots@[b].hash@ by {
                    assert(slots@[a].hash@ == old_slots[a].hash@);
                    assert(slots@[b].hash@ == old_slots[b].hash@);
                }
                assert forall|k: Seq<char>| #[trigger] new_contents.contains_key(k)
                    implies exists|j: int| 0 <= j < slots@.len() && slots@[j].hash@ == k by {
                    if k != slots@[i as int].hash@ {
                        let j = choose|j: int| 0 <= j < old_slots.len() && old_slots[j].hash@ == k;
                        assert(slots@[j].hash@ == k);
                    }
                }
            },
            None => {
                assert forall|j: int| 0 <= j < old_slots.len() implies old_slots[j].hash@ != tx_hash@ by {
                    assert(contents.contains_key(old_slots[j].hash@));
                }
                slots.push(TxSlot { hash: tx_hash, info: transaction_info });
                assert forall|j: int| 0 <= j < slots@.len() implies #[trigger] new_contents.contains_key(slots@[j].hash@)
                    && new_contents[slots@[j].hash@] == slots@[j].info by {
                    if j < old_slots.len() {
                        assert(slots@[j] == old_slots[j]);
                    }
                }
                assert forall|a: int, b: int| 0 <= a < slots@.len() && 0 <= b < slots@.len() && a != b
                    implies slots@[a].hash@ != slots@[b].hash@ by {
                    if a < old_slots.len() {
                        assert(slots@[a] == old_slots[a]);
                    }
                    if b < old_slots.len() {
                        assert(slots@[b] == old_slots[b]);
                    }
                }
                assert forall|k: Seq<char>| #[trigger] new_contents.contains_key(k)
                    implies exists|j: int| 0 <= j < slots@.len() && slots@[j].hash@ == k by {
                    if k != slots@[old_slots.len() as int].hash@ {
                        let j = choose|j: int| 0 <= j < old_slots.len() && old_slots[j].hash@ == k;
                        assert(slots@[j].hash@ == k);
                    }
                }
            },
        }
        *self = TxStorage { slots, contents: Ghost(new_contents) };
    }

    /// The record of the transaction with the given hash.
    pub fn get(&self, tx_hash: &str) -> (r: Option<&TransactionInfo>)
        ensures
            r is Some <==> self@.contains_key(tx_hash@),
            r matches Some(t) ==> *t == self@[tx_hash@],
    {
        proof {
            use_type_invariant(self);
        }
        let key = tx_hash.to_owned();
        match self.find(&key) {
            Some(i) => Some(&self.slots[i].info),
            None => None,
        }
    }
}

} // verus!
