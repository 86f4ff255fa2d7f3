//! Properties of the sandbox that hold across its operations.

use vstd::prelude::*;

use crate::crypto::{lemma_hex_roundtrip, spec_hex_decode, spec_hex_encode};
use crate::executor::ttl_updated;
use crate::ledger_info::LedgerInfo;
use crate::memory::{entry_key, lookup, Contents};
use crate::transaction::EnvelopeView;
use crate::utils::spec_tx_hash;
use crate::validation::{key_for_hint, source_account, time_outcome, validation_outcome, ValidationError};
use crate::crypto::ed25519_accepts;
use crate::xdr::xdr_ledger_entry;
use crate::executor::HostOutcome;
use crate::sandbox::{account_at, after_execution, records_step, Sandbox};
use crate::tx_storage::TransactionInfo;
use crate::executor::{
    entries_view, footprint_keys, invocation_matches, simulation_answer, strings_view, HostInvocation, SimulationOutcome,
};
use crate::model::{events_view, SimulateTransactionResponse};
use crate::sandbox::{durability_of, funded_thresholds};
use crate::transaction::{Preconditions, SorobanDataView};
use crate::xdr::{xdr_new_account_entry, Durability, EntryKind};

verus! {

/// Reading an entry's key after storing the entry gives back the entry and
/// its time to live; every other key reads as before.
pub proof fn law_read_after_write(m: Contents, entry: Seq<u8>, ttl: Option<u32>, other: Seq<u8>)
    requires
        xdr_ledger_entry(entry) is Some,
    ensures
        lookup(m.insert(entry_key(entry), (entry, ttl)), entry_key(entry)) == Some((entry, ttl)),
        other != entry_key(entry) ==> lookup(m.insert(entry_key(entry), (entry, ttl)), other) == lookup(m, other),
{
}

/// A removed key reads as absent; every other key reads as before.
pub proof fn law_read_after_remove(m: Contents, key: Seq<u8>, other: Seq<u8>)
    ensures
        lookup(m.remove(key), key) is None,
        other != key ==> lookup(m.remove(key), other) == lookup(m, other),
{
}

/// Changing a time to live keeps the entry, and changes nothing where no
/// entry is stored.
pub proof fn law_ttl_update_keeps_entry(m: Contents, key: Seq<u8>, ttl: Option<u32>)
    ensures
        m.contains_key(key) ==> lookup(ttl_updated(m, key, ttl), key) == Some((m[key].0, ttl)),
        !m.contains_key(key) ==> ttl_updated(m, key, ttl) == m,
{
}

/// A transaction is valid only if its source account exists, its sequence
/// number is one above the account's, the account's balance covers the fee,
/// the ledger time is within its time bounds, and it carries exactly one
/// signature, made by the account key its hint selects.
pub proof fn law_valid_transaction(m: Contents, env: EnvelopeView, ledger: LedgerInfo)
    requires
        validation_outcome(m, env, ledger) is Ok,
    ensures
        source_account(m, env) matches Some(a) && {
            &&& a.seq_num + 1 == env.header.seq_num
            &&& a.balance >= env.header.fee
            &&& time_outcome(env.header.cond, ledger.timestamp) is Ok
            &&& env.signatures.len() == 1
            &&& key_for_hint(a, env.signatures[0].hint) matches Some(k)
                && env.signatures[0].signature.len() == 64
                && ed25519_accepts(k, spec_tx_hash(ledger.network_id@, env.transaction), env.signatures[0].signature)
        },
{
    let a = source_account(m, env).unwrap();
    let sigs = env.signatures;
    assert(sigs.drop_last() =~= seq![]);
}

/// The hash a transaction is recorded under decodes back to the transaction
/// hash, so a recorded transaction is always found by it.
pub proof fn law_recorded_hash_decodes(hash: Seq<u8>)
    ensures
        spec_hex_decode(spec_hex_encode(hash)) == Some(hash),
{
    lemma_hex_roundtrip(hash);
}

/// Two envelopes that carry the same transaction have the same hash, whatever
/// their signatures: the hash is taken over the transaction alone.
pub proof fn law_hash_ignores_signatures(network_id: Seq<u8>, e1: EnvelopeView, e2: EnvelopeView)
    requires
        e1.transaction == e2.transaction,
    ensures
        spec_tx_hash(network_id, e1.transaction) == spec_tx_hash(network_id, e2.transaction),
{
}

/// An accepted transaction is not accepted a second time. A submission whose
/// transaction passed validation on `m0` leaves the ledger state `m2`: the
/// host's changes (`after_execution(m0, host)`) with the source account's
/// sequence number one up (`Sandbox::send_transaction`). When the host's
/// changes leave the source account as it was, the same transaction is then
/// refused with a sequence mismatch, on any ledger.
pub proof fn law_replay_refused(
    m0: Contents,
    host: Option<Result<HostOutcome, String>>,
    m2: Contents,
    env: EnvelopeView,
    ledger0: LedgerInfo,
    ledger2: LedgerInfo,
)
    requires
        validation_outcome(m0, env, ledger0) is Ok,
        account_at(after_execution(m0, host), env.header.source_account@) == account_at(m0, env.header.source_account@),
        account_at(m2, env.header.source_account@) matches Some(b)
            && b.seq_num == account_at(after_execution(m0, host), env.header.source_account@).unwrap().seq_num + 1,
    ensures
        validation_outcome(m2, env, ledger2) == Err::<(), ValidationError>(
            ValidationError::SequenceMismatch { got: env.header.seq_num, current: env.header.seq_num },
        ),
{
}

/// The hashes recorded by a run of calls, where each call records one hash
/// (a submission) or none (every other call).
pub open spec fn recorded_hashes(steps: Seq<Option<Seq<char>>>) -> Set<Seq<char>>
    decreases steps.len(),
{
    if steps.len() == 0 {
        Set::empty()
    } else {
        match steps.last() {
            Some(h) => recorded_hashes(steps.drop_last()).insert(h),
            None => recorded_hashes(steps.drop_last()),
        }
    }
}

proof fn lemma_records_are_recorded_hashes(states: Seq<Sandbox>, steps: Seq<Option<Seq<char>>>, k: int)
    requires
        states.len() == steps.len() + 1,
        states[0].transactions().dom() == Set::<Seq<char>>::empty(),
        forall|i: int| 0 <= i < steps.len() ==> #[trigger] records_step(states[i], states[i + 1], steps[i]),
        0 <= k <= steps.len(),
    ensures
        states[k].transactions().dom() == recorded_hashes(steps.take(k)),
    decreases k,
{
    if k == 0 {
        assert(steps.take(0) =~= Seq::<Option<Seq<char>>>::empty());
    } else {
        lemma_records_are_recorded_hashes(states, steps, k - 1);
        assert(steps.take(k).drop_last() =~= steps.take(k - 1));
        assert(records_step(states[k - 1], states[(k - 1) + 1], steps[k - 1]));
    }
}

/// A sandbox has a record under a hash exactly when one of its submissions
/// recorded its transaction under that hash, so `get_transaction` answers
/// `NotFound` exactly for the hashes no submission recorded. `states[0]` is a
/// fresh sandbox (`Sandbox::new`, no records) and each later state is what a
/// call made of the one before: `send_transaction` records
/// `submission_record(..)`, every other call records nothing, as the
/// `records_step` clauses of their contracts state.
pub proof fn law_found_exactly_when_recorded(states: Seq<Sandbox>, steps: Seq<Option<Seq<char>>>, h: Seq<char>)
    requires
        states.len() == steps.len() + 1,
        states[0].transactions() == Map::<Seq<char>, TransactionInfo>::empty(),
        forall|i: int| 0 <= i < steps.len() ==> #[trigger] records_step(states[i], states[i + 1], steps[i]),
    ensures
        states.last().transactions().contains_key(h) <==> exists|i: int| 0 <= i < steps.len() && steps[i] == Some(h),
{
    assert(states[0].transactions().dom() =~= Set::<Seq<char>>::empty());
    lemma_records_are_recorded_hashes(states, steps, steps.len() as int);
    assert(steps.take(steps.len() as int) =~= steps);
    lemma_recorded_hashes_contain(steps, h);
}

proof fn lemma_recorded_hashes_contain(steps: Seq<Option<Seq<char>>>, h: Seq<char>)
    ensures
        recorded_hashes(steps).contains(h) <==> exists|i: int| 0 <= i < steps.len() && steps[i] == Some(h),
    decreases steps.len(),
{
    if steps.len() > 0 {
        let prev = steps.drop_last();
        lemma_recorded_hashes_contain(prev, h);
        if exists|i: int| 0 <= i < prev.len() && prev[i] == Some(h) {
            let i = choose|i: int| 0 <= i < prev.len() && prev[i] == Some(h);
            assert(steps[i] == Some(h));
        }
        if exists|i: int| 0 <= i < steps.len() && steps[i] == Some(h) {
            let i = choose|i: int| 0 <= i < steps.len() && steps[i] == Some(h);
            if i < prev.len() {
                assert(prev[i] == Some(h));
            }
        }
    }
}

/// The transaction records after a run of inserts (`TxStorage::insert`, which
/// is a map insert).
pub open spec fn after_inserts(
    m: Map<Seq<char>, TransactionInfo>,
    inserts: Seq<(Seq<char>, TransactionInfo)>,
) -> Map<Seq<char>, TransactionInfo>
    decreases inserts.len(),
{
    if inserts.len() == 0 {
        m
    } else {
        after_inserts(m, inserts.drop_last()).insert(inserts.last().0, inserts.last().1)
    }
}

/// The record read back under a hash (`TxStorage::get`, a map lookup) is the
/// one the last insert under that hash stored, whatever inserts under other
/// hashes follow it.
pub proof fn law_last_insert_wins(m: Map<Seq<char>, TransactionInfo>, inserts: Seq<(Seq<char>, TransactionInfo)>, k: int)
    requires
        0 <= k < inserts.len(),
        forall|j: int| k < j < inserts.len() ==> (#[trigger] inserts[j]).0 != inserts[k].0,
    ensures
        after_inserts(m, inserts).contains_key(inserts[k].0),
        after_inserts(m, inserts)[inserts[k].0] == inserts[k].1,
    decreases inserts.len(),
{
    if k < inserts.len() - 1 {
        let prev = inserts.drop_last();
        assert forall|j: int| k < j < prev.len() implies (#[trigger] prev[j]).0 != prev[k].0 by {
            assert(prev[j] == inserts[j]);
        }
        law_last_insert_wins(m, prev, k);
        assert(inserts[inserts.len() - 1].0 != inserts[k].0);
    }
}

/// A hash that no insert used has no record.
pub proof fn law_never_inserted_absent(inserts: Seq<(Seq<char>, TransactionInfo)>, h: Seq<char>)
    requires
        forall|j: int| 0 <= j < inserts.len() ==> (#[trigger] inserts[j]).0 != h,
    ensures
        !after_inserts(Map::empty(), inserts).contains_key(h),
    decreases inserts.len(),
{
    if inserts.len() > 0 {
        let prev = inserts.drop_last();
        assert forall|j: int| 0 <= j < prev.len() implies (#[trigger] prev[j]).0 != h by {
            assert(prev[j] == inserts[j]);
        }
        law_never_inserted_absent(prev, h);
        assert(inserts[inserts.len() - 1].0 != h);
    }
}

/// The durability text of `get_contract_data` names the durability of the
/// ledger key looked up: "temporary" names temporary data and "persistent"
/// persistent data; no other text names either.
pub proof fn law_durability_named_by_text(text: Seq<char>)
    ensures
        durability_of(text) == Some(Durability::Temporary) <==> text == "temporary"@,
        durability_of(text) == Some(Durability::Persistent) <==> text == "persistent"@,
        durability_of(text) is None <==> (text != "temporary"@ && text != "persistent"@),
{
    reveal_strlit("temporary");
    reveal_strlit("persistent");
    assert("temporary"@ != "persistent"@) by {
        assert("temporary"@[0] != "persistent"@[0]);
    }
}

/// A successful simulation answers with everything the simulation gave: its
/// value, its authorization entries, its diagnostic events, its resource fee
/// and transaction data, and one state change per changed entry; a failed
/// one answers with the error and the diagnostic events.
pub proof fn law_simulation_answer_carries_outcome(
    outcome: SimulationOutcome,
    ledger_info: LedgerInfo,
    r: Result<SimulateTransactionResponse, crate::executor::ExecutorError>,
)
    requires
        simulation_answer(outcome, ledger_info, r),
    ensures
        r matches Ok(SimulateTransactionResponse::Success(resp)) ==> {
            &&& outcome.invoke_result matches Ok(v) && resp.result matches Some(res) && res.retval@ == v@
                && strings_view(res.auth@) == strings_view(outcome.auth@)
            &&& events_view(resp.events@) == events_view(outcome.diagnostic_events@)
            &&& outcome.transaction_data matches Some(d) && resp.min_resource_fee == d.resource_fee
                && resp.transaction_data@ == d.xdr@
            &&& resp.state_changes matches Some(cs) && cs@.len() == outcome.modified_entries@.len()
            &&& resp.latest_ledger == ledger_info.sequence_number
        },
        r matches Ok(SimulateTransactionResponse::Error(resp)) ==> {
            &&& outcome.invoke_result matches Err(msg) && resp.error@ == msg@
            &&& events_view(resp.events@) == events_view(outcome.diagnostic_events@)
            &&& resp.latest_ledger == ledger_info.sequence_number
        },
        outcome.invoke_result is Err ==> r matches Ok(SimulateTransactionResponse::Error(_)),
{
}

/// The host is given, for every footprint key, the entry stored under it and,
/// for contract data and contract code, its stored time to live; other
/// entries, and absent ones, come with no time to live.
pub proof fn law_footprint_carries_ttl(
    inv: HostInvocation,
    m: Contents,
    host_function: Seq<u8>,
    auth: Seq<Seq<u8>>,
    d: SorobanDataView,
    source_account: Seq<u8>,
    restored: Seq<u32>,
    prng_seed: Seq<u8>,
    enable_diagnostics: bool,
    ledger: LedgerInfo,
    i: int,
)
    requires
        invocation_matches(inv, m, host_function, auth, d, source_account, restored, prng_seed, enable_diagnostics, ledger),
        0 <= i < footprint_keys(d).len(),
    ensures
        entries_view(inv.ledger_entries@).len() == footprint_keys(d).len(),
        match lookup(m, footprint_keys(d)[i]) {
            None => entries_view(inv.ledger_entries@)[i] == (None::<Seq<u8>>, None::<u32>),
            Some((e, ttl)) => {
                let kind = xdr_ledger_entry(e).unwrap().kind;
                &&& kind == EntryKind::ContractCode ==> entries_view(inv.ledger_entries@)[i] == (Some(e), ttl)
                &&& kind == EntryKind::ContractData ==> entries_view(inv.ledger_entries@)[i] == (Some(e), ttl)
                &&& kind != EntryKind::ContractCode && kind != EntryKind::ContractData
                    ==> entries_view(inv.ledger_entries@)[i] == (Some(e), None::<u32>)
            },
        },
{
}

/// A transaction with time bounds is valid only on a ledger whose time lies
/// within them, both bounds included; outside them it is refused with the
/// ledger time and the bounds.
pub proof fn law_time_bounds_enforced(m: Contents, env: EnvelopeView, ledger: LedgerInfo, min_time: u64, max_time: u64)
    requires
        env.header.cond == (Preconditions::TimeBounds { min_time, max_time }),
    ensures
        validation_outcome(m, env, ledger) is Ok ==> min_time <= ledger.timestamp <= max_time,
        time_outcome(env.header.cond, ledger.timestamp) is Ok <==> min_time <= ledger.timestamp <= max_time,
        !(min_time <= ledger.timestamp <= max_time) ==> time_outcome(env.header.cond, ledger.timestamp)
            == Err::<(), ValidationError>(ValidationError::TimeBounds { now: ledger.timestamp, min_time, max_time }),
{
}

/// A funded account has master weight 1 and low, medium and high thresholds
/// 0: the entry `fund_account` stores for any key and balance is the account
/// entry with these thresholds.
pub proof fn law_funded_account_thresholds(account_key: Seq<u8>, balance: i64)
    ensures
        funded_thresholds() == seq![1u8, 0u8, 0u8, 0u8],
        xdr_new_account_entry(account_key, balance, 0, funded_thresholds(), 0, 0, None, Seq::empty())
            == xdr_new_account_entry(account_key, balance, 0, seq![1u8, 0u8, 0u8, 0u8], 0, 0, None, Seq::empty()),
{
}

} // verus!
