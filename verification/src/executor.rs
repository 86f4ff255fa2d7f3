//! Execution of Soroban host-function transactions against the ledger state.
//!
//! The host runs outside the library: the executor prepares everything the
//! host needs from the ledger state (`HostInvocation`, `SimulationRequest`),
//! and applies what the host gives back (`HostOutcome`, `SimulationOutcome`).

use vstd::prelude::*;

use crate::crypto::{sha256_digest, spec_sha256};
use crate::ledger_info::LedgerInfo;
use crate::memory::{entry_key, lookup, Contents, Memory};
use crate::model::{
    events_view, DiagnosticEventRecord, EventView, LedgerEntryChange, LedgerEntryChangeType,
    SimulateHostFunctionResult, SimulateTransactionErrorResponse, SimulateTransactionResponse,
    SimulateTransactionSuccessResponse, TxResultCode,
};
use crate::network_config::{
    cpu_cost_params, default_network_config, is_sandbox_network_config, memory_cost_params, CostParam, NetworkConfig,
};
use crate::transaction::{
    operations_view, account_id_xdr, footprint_keys_decode, seqs_view, xdr_account_id, Envelope, EnvelopeView, Operation,
    OperationView, SorobanData, SorobanDataView,
};
use crate::xdr::{
    bytes_view, decode_ledger_key, ledger_entry_code, ledger_entry_key, ledger_entry_summary, xdr_ledger_entry,
    xdr_ledger_key, EntryKind,
};

verus! {

/// Why execution failed.
#[derive(Debug, PartialEq, Eq, Structural, Clone, Copy)]
pub enum ExecutorError {
    /// The transaction does not have exactly one operation.
    OnlySingleOperation,
    /// The operation is not `InvokeHostFunction`.
    ExpectedInvokeHostFunction,
    /// The transaction has no Soroban data (`TransactionExt::V1`).
    ExpectedSorobanData,
    /// A ledger key given back by the host does not decode.
    InvalidLedgerKey,
    /// A ledger entry given back by the host does not decode.
    InvalidLedgerEntry,
    /// The simulation gave no transaction data.
    TransactionDataMissing,
    /// The budget could not be charged for hashing contract code.
    BudgetChargeFailed,
}

// ----------------------------------------------------------------------------
// Applying ledger changes

/// A change of one ledger entry, as the host reports it.
pub struct LedgerChange {
    /// Whether the entry is in the read-only footprint.
    pub read_only: bool,
    /// XDR of the entry's key.
    pub encoded_key: Vec<u8>,
    /// XDR of the new entry; `None` for a removed or read-only entry.
    pub encoded_new_value: Option<Vec<u8>>,
    /// The new live-until ledger, for entries that have one.
    pub new_live_until: Option<u32>,
}

pub struct LedgerChangeView {
    pub read_only: bool,
    pub key: Seq<u8>,
    pub new_value: Option<Seq<u8>>,
    pub ttl: Option<u32>,
}

impl View for LedgerChange {
    type V = LedgerChangeView;

    open spec fn view(&self) -> LedgerChangeView {
        LedgerChangeView {
            read_only: self.read_only,
            key: self.encoded_key@,
            new_value: bytes_view(self.encoded_new_value),
            ttl: self.new_live_until,
        }
    }
}

pub open spec fn changes_view(cs: Seq<LedgerChange>) -> Seq<LedgerChangeView> {
    cs.map_values(|c: LedgerChange| c@)
}

/// The contents with the time to live under `key` replaced, if an entry is there.
pub open spec fn ttl_updated(m: Contents, key: Seq<u8>, ttl: Option<u32>) -> Contents {
    if m.contains_key(key) {
        m.insert(key, (m[key].0, ttl))
    } else {
        m
    }
}

/// The contents after one change, or `None` when the change does not decode.
pub open spec fn apply_change(m: Contents, c: LedgerChangeView) -> Option<Contents> {
    if xdr_ledger_key(c.key) is None {
        None
    } else {
        match c.new_value {
            Some(e) => if xdr_ledger_entry(e) is Some {
                Some(m.insert(entry_key(e), (e, c.ttl)))
            } else {
                None
            },
            None => if !c.read_only {
                Some(m.remove(c.key))
            } else {
                Some(ttl_updated(m, c.key, c.ttl))
            },
        }
    }
}

/// The contents after applying changes in order, and whether all of them
/// applied; application stops at the first change that does not decode.
pub open spec fn apply_changes(m: Contents, cs: Seq<LedgerChangeView>) -> (Contents, bool)
    decreases cs.len(),
{
    if cs.len() == 0 {
        (m, true)
    } else {
        let (prev, ok) = apply_changes(m, cs.drop_last());
        if !ok {
            (prev, false)
        } else {
            match apply_change(prev, cs.last()) {
                Some(next) => (next, true),
                None => (prev, false),
            }
        }
    }
}

/// Once a change fails to apply, later changes are not applied.
pub proof fn lemma_failure_stops(m: Contents, cs: Seq<LedgerChangeView>, n: int)
    requires
        0 <= n <= cs.len(),
        !apply_changes(m, cs.take(n)).1,
    ensures
        apply_changes(m, cs) == apply_changes(m, cs.take(n)),
    decreases cs.len(),
{
    if n < cs.len() {
        assert(cs.drop_last().take(n) =~= cs.take(n));
        lemma_failure_stops(m, cs.drop_last(), n);
    } else {
        assert(cs.take(n) =~= cs);
    }
}

// ----------------------------------------------------------------------------
// Preparing a host invocation

/// A footprint entry for the host: the stored entry, if any, and its
/// live-until ledger for entries that have one.
pub struct FootprintEntry {
    pub entry: Option<Vec<u8>>,
    pub live_until: Option<u32>,
}

impl View for FootprintEntry {
    type V = (Option<Seq<u8>>, Option<u32>);

    open spec fn view(&self) -> (Option<Seq<u8>>, Option<u32>) {
        (bytes_view(self.entry), self.live_until)
    }
}

/// Contract code to compile before the invocation.
pub struct ModuleToCache {
    /// SHA-256 of the code.
    pub contract_id: [u8; 32],
    pub code: Vec<u8>,
    /// XDR of the `ContractCodeCostInputs` of a V1 code entry; `None` for V0.
    pub cost_inputs: Option<Vec<u8>>,
}

pub struct ModuleView {
    pub contract_id: Seq<u8>,
    pub code: Seq<u8>,
    pub cost_inputs: Option<Seq<u8>>,
}

impl View for ModuleToCache {
    type V = ModuleView;

    open spec fn view(&self) -> ModuleView {
        ModuleView { contract_id: self.contract_id@, code: self.code@, cost_inputs: bytes_view(self.cost_inputs) }
    }
}

/// Everything the host needs to invoke a host function (`e2e_invoke`).
pub struct HostInvocation {
    /// XDR of the `HostFunction`.
    pub host_function: Vec<u8>,
    /// XDR of the `SorobanResources`.
    pub resources: Vec<u8>,
    pub restored_entry_indices: Vec<u32>,
    /// XDR of the source `AccountId`.
    pub source_account: Vec<u8>,
    /// XDR of each `SorobanAuthorizationEntry`.
    pub auth_entries: Vec<Vec<u8>>,
    pub ledger_info: LedgerInfo,
    /// One item per footprint key, read-only keys first.
    pub ledger_entries: Vec<FootprintEntry>,
    /// Contract code to compile ahead of the invocation.
    pub modules: Vec<ModuleToCache>,
    pub prng_seed: [u8; 32],
    pub enable_diagnostics: bool,
    pub cpu_cost_params: Vec<CostParam>,
    pub memory_cost_params: Vec<CostParam>,
}

/// The footprint keys: read-only keys, then read-write keys.
pub open spec fn footprint_keys(d: SorobanDataView) -> Seq<Seq<u8>> {
    d.read_only + d.read_write
}

/// What the host is given for one footprint key: the stored entry, and its
/// time to live when it is contract data or code.
pub open spec fn footprint_entry(m: Contents, key: Seq<u8>) -> (Option<Seq<u8>>, Option<u32>) {
    match lookup(m, key) {
        None => (None, None),
        Some((e, ttl)) => {
            let kind = xdr_ledger_entry(e).unwrap().kind;
            (Some(e), if kind == EntryKind::ContractData || kind == EntryKind::ContractCode { ttl } else { None })
        },
    }
}

/// The code hashes of the restored contract code keys: the read-write keys at
/// the given indices that are contract code keys (indices out of range are
/// skipped).
pub open spec fn restored_code_hashes(read_write: Seq<Seq<u8>>, indices: Seq<u32>) -> Seq<Seq<u8>>
    decreases indices.len(),
{
    if indices.len() == 0 {
        seq![]
    } else {
        let prev = restored_code_hashes(read_write, indices.drop_last());
        let i = indices.last() as int;
        if i < read_write.len() && xdr_ledger_key(read_write[i]).unwrap().code_hash is Some {
            prev.push(xdr_ledger_key(read_write[i]).unwrap().code_hash.unwrap())
        } else {
            prev
        }
    }
}

/// The contract code to compile: every code entry among `entries` whose hash
/// is not one of the restored code hashes.
pub open spec fn modules_for(entries: Seq<Seq<u8>>, restored: Seq<Seq<u8>>) -> Seq<ModuleView>
    decreases entries.len(),
{
    if entries.len() == 0 {
        seq![]
    } else {
        let prev = modules_for(entries.drop_last(), restored);
        match xdr_ledger_entry(entries.last()).unwrap().code {
            Some(c) => {
                let id = spec_sha256(c.code);
                if restored.contains(id) {
                    prev
                } else {
                    prev.push(ModuleView { contract_id: id, code: c.code, cost_inputs: c.cost_inputs })
                }
            },
            None => prev,
        }
    }
}

/// The stored entries of the footprint, in footprint order.
pub open spec fn present_entries(fes: Seq<(Option<Seq<u8>>, Option<u32>)>) -> Seq<Seq<u8>>
    decreases fes.len(),
{
    if fes.len() == 0 {
        seq![]
    } else {
        match fes.last().0 {
            Some(e) => present_entries(fes.drop_last()).push(e),
            None => present_entries(fes.drop_last()),
        }
    }
}

pub open spec fn entries_view(fes: Seq<FootprintEntry>) -> Seq<(Option<Seq<u8>>, Option<u32>)> {
    fes.map_values(|f: FootprintEntry| f@)
}

pub open spec fn modules_view(ms: Seq<ModuleToCache>) -> Seq<ModuleView> {
    ms.map_values(|m: ModuleToCache| m@)
}

/// What a transaction's single operation needs: its host function, its
/// authorization entries, its Soroban data and the restored entry indices.
pub open spec fn prepared_operation(env: EnvelopeView) -> Result<(Seq<u8>, Seq<Seq<u8>>, SorobanDataView, Seq<u32>), ExecutorError> {
    if env.operations.len() != 1 {
        Err(ExecutorError::OnlySingleOperation)
    } else {
        match env.operations[0] {
            OperationView::InvokeHostFunction { host_function, auth } => match env.soroban_data {
                Some(d) => Ok((host_function, auth, d, match d.archived_entries {
                    Some(idx) => idx,
                    None => seq![],
                })),
                None => Err(ExecutorError::ExpectedSorobanData),
            },
            OperationView::Other => Err(ExecutorError::ExpectedInvokeHostFunction),
        }
    }
}

// ----------------------------------------------------------------------------
// Applying a host invocation's outcome

/// What the host gives back from an invocation.
pub struct HostOutcome {
    /// XDR of the returned `ScVal`, or the host's error message.
    pub invoke_result: Result<Vec<u8>, String>,
    /// One change per footprint key.
    pub ledger_changes: Vec<LedgerChange>,
    /// XDR of each contract event.
    pub contract_events: Vec<Vec<u8>>,
}

/// The result of executing a transaction.
pub struct ExecutionResult {
    /// The failed result code, when the invocation failed.
    pub error: Option<TxResultCode>,
    pub fee_charges: i64,
    /// XDR of the returned value, or the host's error message.
    pub result: Result<Vec<u8>, String>,
    pub events: Vec<DiagnosticEventRecord>,
}

/// The diagnostic events made of contract events, all with the same flag.
pub open spec fn events_of(events: Seq<Seq<u8>>, successful: bool) -> Seq<EventView> {
    events.map_values(|e: Seq<u8>| EventView { in_successful_contract_call: successful, event: e })
}

/// The result code of a failed invocation: `TxFailed`.
pub fn failed_result() -> (r: TxResultCode)
    ensures
        r == TxResultCode::TxFailed,
{
    TxResultCode::TxFailed
}

// ----------------------------------------------------------------------------
// Simulation

/// Everything a simulation needs (`simulate_invoke_host_function_op`).
pub struct SimulationRequest {
    /// XDR of the `HostFunction`.
    pub host_function: Vec<u8>,
    /// Ed25519 key of the source account.
    pub source_account: [u8; 32],
    pub ledger_info: LedgerInfo,
    pub network_config: NetworkConfig,
    /// Whether authorization is recorded with non-root authorization disabled.
    pub disable_non_root_auth: bool,
    pub prng_seed: [u8; 32],
    pub enable_diagnostics: bool,
}

/// A ledger entry before and after a simulation (XDR).
pub struct LedgerEntryDiff {
    pub state_before: Option<Vec<u8>>,
    pub state_after: Option<Vec<u8>>,
}

/// The simulated transaction data: its base64 XDR and the resource fee.
pub struct SimulatedTransactionData {
    pub xdr: String,
    pub resource_fee: i64,
}

/// What a simulation gives back.
pub struct SimulationOutcome {
    /// Base64 XDR of the returned `ScVal`, or the host's error message.
    pub invoke_result: Result<String, String>,
    /// Base64 XDR of each authorization entry.
    pub auth: Vec<String>,
    pub diagnostic_events: Vec<DiagnosticEventRecord>,
    pub transaction_data: Option<SimulatedTransactionData>,
    pub modified_entries: Vec<LedgerEntryDiff>,
}

/// The kind of change a simulated entry went through.
pub open spec fn change_type_of(before: bool, after: bool) -> LedgerEntryChangeType {
    if before && !after {
        LedgerEntryChangeType::Removed
    } else {
        LedgerEntryChangeType::Updated
    }
}

/// Every diff has a state before or after.
pub open spec fn diffs_well_formed(diffs: Seq<LedgerEntryDiff>) -> bool {
    forall|i: int| 0 <= i < diffs.len() ==> (#[trigger] diffs[i]).state_before is Some || diffs[i].state_after is Some
}

/// Whether every diff has a state before or after.
pub fn all_diffs_have_state(diffs: &Vec<LedgerEntryDiff>) -> (r: bool)
    ensures
        r == diffs_well_formed(diffs@),
{
    let mut i: usize = 0;
    while i < diffs.len()
        invariant
            i <= diffs@.len(),
            forall|j: int| 0 <= j < i ==> (#[trigger] diffs@[j]).state_before is Some || diffs@[j].state_after is Some,
        decreases diffs@.len() - i,
    {
        if diffs[i].state_before.is_none() && diffs[i].state_after.is_none() {
            return false;
        }
        i = i + 1;
    }
    true
}

/// The ledger changes of a simulation: the kind of change, and the key of the
/// entry after the change (or before it, for a removed entry).
pub open spec fn change_matches(diff: LedgerEntryDiff, change: LedgerEntryChange) -> bool {
    let e = match diff.state_after {
        Some(a) => a@,
        None => diff.state_before.unwrap()@,
    };
    &&& change.change_type == change_type_of(diff.state_before is Some, diff.state_after is Some)
    &&& change.key@ == entry_key(e)
    &&& bytes_view(change.before) == bytes_view(diff.state_before)
    &&& bytes_view(change.after) == bytes_view(diff.state_after)
}

/// Executes host-function transactions.
pub struct Executor {}

impl Executor {
    pub fn new() -> (r: Executor) {
        Executor {}
    }

    /// Applies the host's ledger changes in order: a new value is stored under
    /// its own key with the new time to live, a removed read-write entry is
    /// removed, and a read-only entry gets its new time to live. Stops at the
    /// first change that does not decode.
    pub fn apply_ledger_changes(&self, memory: &mut Memory, changes: &Vec<LedgerChange>) -> (r: Result<(), ExecutorError>)
        ensures
            (final(memory)@, r is Ok) == apply_changes(old(memory)@, changes_view(changes@)),
            r matches Err(e) ==> e == ExecutorError::InvalidLedgerKey || e == ExecutorError::InvalidLedgerEntry,
    {
        let ghost cs = changes_view(changes@);
        let ghost start = memory@;
        let mut i: usize = 0;
        while i < changes.len()
            invariant
                cs == changes_view(changes@),
                start == old(memory)@,
                i <= changes@.len(),
                apply_changes(start, cs.take(i as int)) == (memory@, true),
            decreases changes@.len() - i,
        {
            let change = &changes[i];
            assert(cs.take(i + 1).drop_last() =~= cs.take(i as int));
            assert(cs.take(i + 1).last() == change@);
            assert(changes_view(changes@)[i as int] == change@);
            if decode_ledger_key(&change.encoded_key).is_err() {
                assert(apply_change(memory@, change@) is None);
                assert(apply_changes(start, cs.take(i + 1)) == (memory@, false));
                proof {
                    lemma_failure_stops(start, cs, i + 1);
                }
                return Err(ExecutorError::InvalidLedgerKey);
            }
            match &change.encoded_new_value {
                Some(encoded_entry) => {
                    let ghost before = memory@;
                    let stored = memory.insert_with_ttl(copy_entry(encoded_entry), change.new_live_until);
                    if stored.is_err() {
                        assert(apply_change(before, change@) is None);
                        assert(apply_changes(start, cs.take(i + 1)) == (memory@, false));
                        proof {
                            lemma_failure_stops(start, cs, i + 1);
                        }
                        return Err(ExecutorError::InvalidLedgerEntry);
                    }
                },
                None => {
                    if !change.read_only {
                        memory.remove(&change.encoded_key);
                    } else {
                        memory.update_ttl(&change.encoded_key, change.new_live_until);
                    }
                },
            }
            i = i + 1;
        }
        assert(cs.take(changes@.len() as int) =~= cs);
        Ok(())
    }

    /// Checks that the transaction is a single host-function invocation with
    /// Soroban data, and prepares its invocation against the ledger state.
    pub fn prepare_transaction(&self, memory: &Memory, envelope: &Envelope, ledger_info: &LedgerInfo) -> (r: Result<HostInvocation, ExecutorError>)
        ensures
            match prepared_operation(envelope@) {
                Err(e) => r == Err::<HostInvocation, ExecutorError>(e),
                Ok((host_function, auth, d, restored)) => r matches Ok(inv) && invocation_matches(inv, memory@,
                    host_function, auth, d, envelope@.header.source_account@, restored, filled_seed(0), true, *ledger_info),
            },
    {
        envelope.check_wf();
        let operations = envelope.operations();
        if operations.len() != 1 {
            return Err(ExecutorError::OnlySingleOperation);
        }
        let (host_function, auth) = match &operations[0] {
            Operation::InvokeHostFunction { host_function, auth } => (host_function, auth),
            Operation::Other => return Err(ExecutorError::ExpectedInvokeHostFunction),
        };
        let data = match envelope.soroban_data() {
            Some(d) => d,
            None => return Err(ExecutorError::ExpectedSorobanData),
        };
        let restored: Vec<u32> = match &data.archived_entries {
            Some(idx) => copy_indices(idx),
            None => Vec::new(),
        };
        let source = envelope.header().source_account;
        assert(operations_view(operations@)[0] == operations@[0]@);
        assert(seqs_view(auth@) == match envelope@.operations[0] {
            OperationView::InvokeHostFunction { auth, .. } => auth,
            _ => seq![],
        });
        assert(restored@ == match envelope@.soroban_data.unwrap().archived_entries {
            Some(idx) => idx,
            None => seq![],
        });
        let seed = [0u8; 32];
        assert(seed@ =~= filled_seed(0));
        Ok(self.invoke_host_function(memory, host_function, data, &source, auth, &restored, seed, true, ledger_info))
    }

    /// Prepares the invocation of a host function: the stored entry (and, for
    /// contract data and code, its time to live) of every footprint key, the
    /// contract code to compile ahead (all code entries but restored ones),
    /// and the budget's cost models.
    pub fn invoke_host_function(
        &self,
        memory: &Memory,
        host_fn: &Vec<u8>,
        resources: &SorobanData,
        source_account: &[u8; 32],
        auth_entries: &Vec<Vec<u8>>,
        restored_entry_indices: &Vec<u32>,
        prng_seed: [u8; 32],
        enable_diagnostics: bool,
        ledger_info: &LedgerInfo,
    ) -> (r: HostInvocation)
        requires
            footprint_keys_decode(resources@),
        ensures
            invocation_matches(r, memory@, host_fn@, seqs_view(auth_entries@), resources@, source_account@,
                restored_entry_indices@, prng_seed@, enable_diagnostics, *ledger_info),
    {
        let mut entries: Vec<FootprintEntry> = Vec::new();
        let mut present: Vec<Vec<u8>> = Vec::new();
        let ghost ro = resources@.read_only;
        let ghost rw = resources@.read_write;
        let mut i: usize = 0;
        while i < resources.read_only.len()
            invariant
                ro == seqs_view(resources.read_only@),
                i <= resources.read_only@.len(),
                entries_view(entries@) =~= footprint_entries(memory@, ro.take(i as int)),
                seqs_view(present@) =~= present_entries(entries_view(entries@)),
                forall|j: int| 0 <= j < present@.len() ==> #[trigger] xdr_ledger_entry(present@[j]@) is Some,
            decreases resources.read_only@.len() - i,
        {
            assert(ro.take(i + 1) =~= ro.take(i as int).push(resources.read_only@[i as int]@));
            lookup_footprint(memory, &resources.read_only[i], &mut entries, &mut present);
            i = i + 1;
        }
        assert(ro.take(ro.len() as int) =~= ro);
        let mut k: usize = 0;
        while k < resources.read_write.len()
            invariant
                ro == seqs_view(resources.read_only@),
                rw == seqs_view(resources.read_write@),
                k <= resources.read_write@.len(),
                entries_view(entries@) =~= footprint_entries(memory@, ro + rw.take(k as int)),
                seqs_view(present@) =~= present_entries(entries_view(entries@)),
                forall|j: int| 0 <= j < present@.len() ==> #[trigger] xdr_ledger_entry(present@[j]@) is Some,
            decreases resources.read_write@.len() - k,
        {
            assert(ro + rw.take(k + 1) =~= (ro + rw.take(k as int)).push(resources.read_write@[k as int]@));
            lookup_footprint(memory, &resources.read_write[k], &mut entries, &mut present);
            k = k + 1;
        }
        assert(ro + rw.take(rw.len() as int) =~= footprint_keys(resources@));
        assert forall|j: int| 0 <= j < resources.read_write@.len() implies #[trigger] xdr_ledger_key(resources.read_write@[j]@) is Some by {
            assert(rw[j] == resources.read_write@[j]@);
        }
        let restored = restored_contracts(&resources.read_write, restored_entry_indices);
        let modules = build_module_cache_for_entries(&present, &restored);
        HostInvocation {
            host_function: copy_entry(host_fn),
            resources: copy_entry(&resources.resources),
            restored_entry_indices: copy_indices(restored_entry_indices),
            source_account: account_id_xdr(source_account),
            auth_entries: copy_all(auth_entries),
            ledger_info: *ledger_info,
            ledger_entries: entries,
            modules,
            prng_seed,
            enable_diagnostics,
            cpu_cost_params: cpu_cost_params(),
            memory_cost_params: memory_cost_params(),
        }
    }

    /// Applies the host's outcome of an invocation: its ledger changes, then
    /// the result (a failed result code when the invocation failed), the fee
    /// charged (the transaction's fee) and the events, flagged as coming from
    /// a successful call when it succeeded.
    pub fn send_transaction(&self, memory: &mut Memory, envelope: &Envelope, outcome: HostOutcome) -> (r: Result<ExecutionResult, ExecutorError>)
        ensures
            (final(memory)@, r is Ok) == apply_changes(old(memory)@, changes_view(outcome.ledger_changes@)),
            r matches Ok(res) ==> {
                &&& res.error == (if outcome.invoke_result is Err { Some(TxResultCode::TxFailed) } else { None })
                &&& res.fee_charges == envelope@.header.fee as i64
                &&& res.result == outcome.invoke_result
                &&& events_view(res.events@) == events_of(seqs_view(outcome.contract_events@), outcome.invoke_result is Ok)
            },
            r matches Err(e) ==> e == ExecutorError::InvalidLedgerKey || e == ExecutorError::InvalidLedgerEntry,
    {
        self.apply_ledger_changes(memory, &outcome.ledger_changes)?;
        let error = if outcome.invoke_result.is_err() {
            Some(failed_result())
        } else {
            None
        };
        let successful = error.is_none();
        let mut events: Vec<DiagnosticEventRecord> = Vec::new();
        let mut i: usize = 0;
        while i < outcome.contract_events.len()
            invariant
                i <= outcome.contract_events@.len(),
                events_view(events@) =~= events_of(seqs_view(outcome.contract_events@), successful).take(i as int),
            decreases outcome.contract_events@.len() - i,
        {
            let ghost prev = events_view(events@);
            events.push(DiagnosticEventRecord {
                in_successful_contract_call: successful,
                event: copy_entry(&outcome.contract_events[i]),
            });
            assert(events_view(events@) =~= prev.push(events_view(events@).last()));
            assert(seqs_view(outcome.contract_events@)[i as int] == outcome.contract_events@[i as int]@);
            i = i + 1;
        }
        assert(events_of(seqs_view(outcome.contract_events@), successful).take(outcome.contract_events@.len() as int)
            =~= events_of(seqs_view(outcome.contract_events@), successful));
        Ok(ExecutionResult { error, fee_charges: envelope.header().fee as i64, result: outcome.invoke_result, events })
    }

    /// Prepares the simulation of a transaction's first operation, which must
    /// invoke a host function.
    pub fn simulation_request(&self, envelope: &Envelope, ledger_info: &LedgerInfo) -> (r: Result<SimulationRequest, ExecutorError>)
        requires
            envelope@.operations.len() >= 1,
        ensures
            match envelope@.operations[0] {
                OperationView::InvokeHostFunction { host_function, .. } => r matches Ok(req) && {
                    &&& req.host_function@ == host_function
                    &&& req.source_account == envelope@.header.source_account
                    &&& req.ledger_info == *ledger_info
                    &&& is_sandbox_network_config(req.network_config)
                    &&& req.disable_non_root_auth
                    &&& req.prng_seed@ == filled_seed(1)
                    &&& req.enable_diagnostics
                },
                OperationView::Other => r == Err::<SimulationRequest, ExecutorError>(ExecutorError::ExpectedInvokeHostFunction),
            },
    {
        let operations = envelope.operations();
        let seed = [1u8; 32];
        assert(seed@ =~= filled_seed(1));
        assert(operations_view(operations@)[0] == operations@[0]@);
        match &operations[0] {
            Operation::InvokeHostFunction { host_function, .. } => Ok(SimulationRequest {
                host_function: copy_entry(host_function),
                source_account: envelope.header().source_account,
                ledger_info: *ledger_info,
                network_config: default_network_config(),
                disable_non_root_auth: true,
                prng_seed: seed,
                enable_diagnostics: true,
            }),
            Operation::Other => Err(ExecutorError::ExpectedInvokeHostFunction),
        }
    }

    /// Turns a simulation's outcome into the RPC response: an error response
    /// when the invocation failed; otherwise a success response with the
    /// value, authorization entries, state changes, transaction data and fee.
    pub fn simulate_transaction(&self, outcome: SimulationOutcome, ledger_info: &LedgerInfo) -> (r: Result<SimulateTransactionResponse, ExecutorError>)
        requires
            outcome.invoke_result is Ok ==> diffs_well_formed(outcome.modified_entries@),
        ensures
            simulation_answer(outcome, *ledger_info, r),
    {
        proof {
            reveal_strlit("1");
            assert("1"@ =~= seq!['1']);
        }
        let SimulationOutcome { invoke_result, auth, diagnostic_events, transaction_data, modified_entries } = outcome;
        let retval = match invoke_result {
            Err(error) => {
                return Ok(SimulateTransactionResponse::Error(SimulateTransactionErrorResponse {
                    error,
                    id: "1".to_owned(),
                    parsed: true,
                    events: diagnostic_events,
                    latest_ledger: ledger_info.sequence_number,
                }));
            },
            Ok(v) => v,
        };
        let changes = match changes_from_simulation(&modified_entries) {
            Ok(c) => c,
            Err(_) => return Err(ExecutorError::InvalidLedgerEntry),
        };
        let data = match transaction_data {
            Some(d) => d,
            None => return Err(ExecutorError::TransactionDataMissing),
        };
        Ok(SimulateTransactionResponse::Success(SimulateTransactionSuccessResponse {
            id: "1".to_owned(),
            latest_ledger: ledger_info.sequence_number,
            events: diagnostic_events,
            min_resource_fee: data.resource_fee,
            parsed: true,
            result: Some(SimulateHostFunctionResult { retval, auth }),
            state_changes: Some(changes),
            transaction_data: data.xdr,
        }))
    }
}

/// The answer to a simulation's outcome: an error response when the
/// invocation failed; otherwise, when every changed entry decodes and the
/// simulation gave transaction data, a success response with the value,
/// authorization entries, state changes, transaction data and fee.
pub open spec fn simulation_answer(outcome: SimulationOutcome, ledger_info: LedgerInfo, r: Result<SimulateTransactionResponse, ExecutorError>) -> bool {
        match outcome.invoke_result {
            Err(msg) => r matches Ok(SimulateTransactionResponse::Error(resp)) && {
                &&& resp.error@ == msg@
                &&& resp.id@ == seq!['1']
                &&& resp.parsed
                &&& events_view(resp.events@) == events_view(outcome.diagnostic_events@)
                &&& resp.latest_ledger == ledger_info.sequence_number
            },
            Ok(retval) => if !diff_entries_decode(outcome.modified_entries@) {
                r == Err::<SimulateTransactionResponse, ExecutorError>(ExecutorError::InvalidLedgerEntry)
            } else {
                match outcome.transaction_data {
                    None => r == Err::<SimulateTransactionResponse, ExecutorError>(ExecutorError::TransactionDataMissing),
                    Some(data) => r matches Ok(SimulateTransactionResponse::Success(resp)) && {
                        &&& resp.id@ == seq!['1']
                        &&& resp.latest_ledger == ledger_info.sequence_number
                        &&& events_view(resp.events@) == events_view(outcome.diagnostic_events@)
                        &&& resp.min_resource_fee == data.resource_fee
                        &&& resp.parsed
                        &&& resp.result matches Some(res) && res.retval@ == retval@
                            && strings_view(res.auth@) == strings_view(outcome.auth@)
                        &&& resp.state_changes matches Some(changes) && changes@.len() == outcome.modified_entries@.len()
                            && forall|i: int| 0 <= i < changes@.len() ==> change_matches(outcome.modified_entries@[i], #[trigger] changes@[i])
                        &&& resp.transaction_data@ == data.xdr@
                    },
                }
            },
        }
}

/// Every diff's entry decodes.
pub open spec fn diff_entries_decode(diffs: Seq<LedgerEntryDiff>) -> bool {
    forall|i: int| 0 <= i < diffs.len() ==> xdr_ledger_entry(#[trigger] diff_entry(diffs[i])) is Some
}

pub open spec fn strings_view(v: Seq<String>) -> Seq<Seq<char>> {
    v.map_values(|s: String| s@)
}

/// A seed of 32 equal bytes.
pub open spec fn filled_seed(b: u8) -> Seq<u8> {
    Seq::new(32, |_i: int| b)
}

/// The entry a diff's key is taken from: the state after, else before.
pub open spec fn diff_entry(diff: LedgerEntryDiff) -> Seq<u8> {
    match diff.state_after {
        Some(a) => a@,
        None => diff.state_before.unwrap()@,
    }
}

/// What the host is given for each of the keys.
pub open spec fn footprint_entries(m: Contents, keys: Seq<Seq<u8>>) -> Seq<(Option<Seq<u8>>, Option<u32>)> {
    keys.map_values(|k: Seq<u8>| footprint_entry(m, k))
}

/// Adds what the host is given for one footprint key.
fn lookup_footprint(memory: &Memory, key: &Vec<u8>, entries: &mut Vec<FootprintEntry>, present: &mut Vec<Vec<u8>>)
    requires
        seqs_view(old(present)@) =~= present_entries(entries_view(old(entries)@)),
        forall|j: int| 0 <= j < old(present)@.len() ==> #[trigger] xdr_ledger_entry(old(present)@[j]@) is Some,
    ensures
        entries_view(final(entries)@) =~= entries_view(old(entries)@).push(footprint_entry(memory@, key@)),
        seqs_view(final(present)@) =~= present_entries(entries_view(final(entries)@)),
        forall|j: int| 0 <= j < final(present)@.len() ==> #[trigger] xdr_ledger_entry(final(present)@[j]@) is Some,
{
    let ghost prev = entries_view(entries@);
    let ghost prev_present = seqs_view(present@);
    let item = match memory.get(key) {
        None => FootprintEntry { entry: None, live_until: None },
        Some((e, ttl)) => {
            let kind = match ledger_entry_summary(&e) {
                Ok(s) => s.kind,
                Err(_) => EntryKind::Other,
            };
            let live_until = if kind == EntryKind::ContractData || kind == EntryKind::ContractCode {
                ttl
            } else {
                None
            };
            present.push(copy_entry(&e));
            assert(seqs_view(present@) =~= prev_present.push(e@));
            FootprintEntry { entry: Some(e), live_until }
        },
    };
    entries.push(item);
    assert(entries_view(entries@) =~= prev.push(item@));
    assert(entries_view(entries@).drop_last() =~= prev);
}

/// An invocation carries the given inputs and what the ledger state holds for
/// its footprint.
pub open spec fn invocation_matches(
    inv: HostInvocation,
    m: Contents,
    host_function: Seq<u8>,
    auth: Seq<Seq<u8>>,
    d: SorobanDataView,
    source_account: Seq<u8>,
    restored: Seq<u32>,
    prng_seed: Seq<u8>,
    enable_diagnostics: bool,
    ledger_info: LedgerInfo,
) -> bool {
    let entries = footprint_entries(m, footprint_keys(d));
    &&& inv.host_function@ == host_function
    &&& inv.resources@ == d.resources
    &&& inv.restored_entry_indices@ == restored
    &&& inv.source_account@ == xdr_account_id(source_account)
    &&& seqs_view(inv.auth_entries@) == auth
    &&& inv.ledger_info == ledger_info
    &&& entries_view(inv.ledger_entries@) == entries
    &&& modules_view(inv.modules@) == modules_for(present_entries(entries), restored_code_hashes(d.read_write, restored))
    &&& inv.prng_seed@ == prng_seed
    &&& inv.enable_diagnostics == enable_diagnostics
    &&& cost_terms_of(inv.cpu_cost_params@) == seq![(35i64, 36i64), (37i64, 38i64)]
    &&& cost_terms_of(inv.memory_cost_params@) == seq![(39i64, 40i64), (41i64, 42i64), (43i64, 44i64)]
}

pub open spec fn cost_terms_of(params: Seq<CostParam>) -> Seq<(i64, i64)> {
    crate::network_config::cost_terms(params)
}

/// The hashes of the restored contract code keys among the read-write keys.
pub fn restored_contracts(read_write: &Vec<Vec<u8>>, indices: &Vec<u32>) -> (r: Vec<[u8; 32]>)
    requires
        forall|i: int| 0 <= i < read_write@.len() ==> #[trigger] xdr_ledger_key(read_write@[i]@) is Some,
    ensures
        r@.map_values(|h: [u8; 32]| h@) == restored_code_hashes(seqs_view(read_write@), indices@),
{
    let ghost rw = seqs_view(read_write@);
    let mut r: Vec<[u8; 32]> = Vec::new();
    let mut i: usize = 0;
    while i < indices.len()
        invariant
            rw == seqs_view(read_write@),
            i <= indices@.len(),
            forall|j: int| 0 <= j < read_write@.len() ==> #[trigger] xdr_ledger_key(read_write@[j]@) is Some,
            r@.map_values(|h: [u8; 32]| h@) =~= restored_code_hashes(rw, indices@.take(i as int)),
        decreases indices@.len() - i,
    {
        let index = indices[i];
        assert(indices@.take(i + 1).drop_last() =~= indices@.take(i as int));
        if (index as usize) < read_write.len() {
            let idx = index as usize;
            assert(rw[idx as int] == read_write@[idx as int]@);
            if let Ok(Some(hash)) = decode_ledger_key(&read_write[idx]) {
                r.push(hash);
            }
        }
        i = i + 1;
    }
    assert(indices@.take(indices@.len() as int) =~= indices@);
    r
}

/// The SHA-256 digest of contract code (its contract id), given the outcome
/// of charging a budget for hashing the bytes: fails when the charge failed.
pub fn sha256_hash_from_bytes_raw(bytes: &[u8], charge: Result<(), String>) -> (r: Result<[u8; 32], ExecutorError>)
    ensures
        match charge {
            Err(_) => r == Err::<[u8; 32], ExecutorError>(ExecutorError::BudgetChargeFailed),
            Ok(_) => r matches Ok(h) && h@ == spec_sha256(bytes@),
        },
{
    match charge {
        Err(_) => Err(ExecutorError::BudgetChargeFailed),
        Ok(()) => Ok(sha256_digest(bytes)),
    }
}

/// Whether a hash is in a list of hashes.
fn contains_hash(hashes: &Vec<[u8; 32]>, hash: &[u8; 32]) -> (r: bool)
    ensures
        r == hashes@.map_values(|h: [u8; 32]| h@).contains(hash@),
{
    let mut i: usize = 0;
    while i < hashes.len()
        invariant
            i <= hashes@.len(),
            forall|j: int| 0 <= j < i ==> hashes@[j]@ != hash@,
        decreases hashes@.len() - i,
    {
        if crate::bytes::bytes_equal(&hashes[i], hash) {
            assert(hashes@.map_values(|h: [u8; 32]| h@)[i as int] == hash@);
            return true;
        }
        i = i + 1;
    }
    proof {
        let hs = hashes@.map_values(|h: [u8; 32]| h@);
        if hs.contains(hash@) {
            let j = choose|j: int| 0 <= j < hs.len() && hs[j] == hash@;
            assert(hashes@[j]@ == hash@);
        }
    }
    false
}

/// The contract code to compile ahead of an invocation: every contract code
/// entry among `entries`, in order, whose code hash is not restored.
pub fn build_module_cache_for_entries(entries: &Vec<Vec<u8>>, restored: &Vec<[u8; 32]>) -> (r: Vec<ModuleToCache>)
    requires
        forall|i: int| 0 <= i < entries@.len() ==> #[trigger] xdr_ledger_entry(entries@[i]@) is Some,
    ensures
        modules_view(r@) == modules_for(seqs_view(entries@), restored@.map_values(|h: [u8; 32]| h@)),
{
    let ghost es = seqs_view(entries@);
    let ghost rs = restored@.map_values(|h: [u8; 32]| h@);
    let mut r: Vec<ModuleToCache> = Vec::new();
    let mut i: usize = 0;
    while i < entries.len()
        invariant
            es == seqs_view(entries@),
            rs == restored@.map_values(|h: [u8; 32]| h@),
            i <= entries@.len(),
            forall|j: int| 0 <= j < entries@.len() ==> #[trigger] xdr_ledger_entry(entries@[j]@) is Some,
            modules_view(r@) =~= modules_for(es.take(i as int), rs),
        decreases entries@.len() - i,
    {
        assert(es.take(i + 1).drop_last() =~= es.take(i as int));
        assert(es.take(i + 1).last() == entries@[i as int]@);
        assert(xdr_ledger_entry(entries@[i as int]@) is Some);
        let ghost prev = modules_view(r@);
        if let Ok(Some(code)) = ledger_entry_code(&entries[i]) {
            let contract_id = sha256_digest(&code.code);
            if !contains_hash(restored, &contract_id) {
                r.push(ModuleToCache { contract_id, code: code.code, cost_inputs: code.cost_inputs });
                assert(modules_view(r@) =~= prev.push(modules_view(r@).last()));
            }
        }
        i = i + 1;
    }
    assert(es.take(entries@.len() as int) =~= es);
    r
}

/// The ledger changes of a simulation: for each diff, the kind of change and
/// the key of the entry (taken from the state after, else before).
pub fn changes_from_simulation(changes: &Vec<LedgerEntryDiff>) -> (r: Result<Vec<LedgerEntryChange>, soroban_env_common::xdr::Error>)
    requires
        diffs_well_formed(changes@),
    ensures
        r is Ok <==> diff_entries_decode(changes@),
        r matches Ok(cs) ==> cs@.len() == changes@.len()
            && forall|i: int| 0 <= i < cs@.len() ==> change_matches(changes@[i], #[trigger] cs@[i]),
{
    let mut out: Vec<LedgerEntryChange> = Vec::new();
    let mut i: usize = 0;
    while i < changes.len()
        invariant
            diffs_well_formed(changes@),
            i <= changes@.len(),
            out@.len() == i,
            forall|j: int| 0 <= j < i ==> xdr_ledger_entry(#[trigger] diff_entry(changes@[j])) is Some,
            forall|j: int| 0 <= j < i ==> change_matches(changes@[j], #[trigger] out@[j]),
        decreases changes@.len() - i,
    {
        let diff = &changes[i];
        assert(diffs_well_formed(changes@));
        assert(changes@[i as int].state_before is Some || changes@[i as int].state_after is Some);
        let change_type = if diff.state_before.is_some() && diff.state_after.is_none() {
            LedgerEntryChangeType::Removed
        } else {
            LedgerEntryChangeType::Updated
        };
        let source = match &diff.state_after {
            Some(a) => a,
            None => match &diff.state_before {
                Some(b) => b,
                None => {
                    assert(false);
                    return Ok(out);
                },
            },
        };
        assert(diff_entry(changes@[i as int]) == source@);
        let key = match ledger_entry_key(source) {
            Ok(k) => k,
            Err(e) => return Err(e),
        };
        out.push(LedgerEntryChange {
            change_type,
            key,
            before: copy_opt(&diff.state_before),
            after: copy_opt(&diff.state_after),
        });
        i = i + 1;
    }
    Ok(out)
}

fn copy_entry(b: &Vec<u8>) -> (r: Vec<u8>)
    ensures
        r@ == b@,
{
    crate::bytes::copy_bytes(b.as_slice())
}

fn copy_opt(b: &Option<Vec<u8>>) -> (r: Option<Vec<u8>>)
    ensures
        bytes_view(r) == bytes_view(*b),
{
    match b {
        Some(v) => Some(copy_entry(v)),
        None => None,
    }
}

fn copy_indices(v: &Vec<u32>) -> (r: Vec<u32>)
    ensures
        r@ == v@,
{
    let mut r: Vec<u32> = Vec::new();
    let mut i: usize = 0;
    while i < v.len()
        invariant
            i <= v@.len(),
            r@ =~= v@.take(i as int),
        decreases v@.len() - i,
    {
        r.push(v[i]);
        i = i + 1;
    }
    assert(v@.take(v@.len() as int) =~= v@);
    r
}

fn copy_all(v: &Vec<Vec<u8>>) -> (r: Vec<Vec<u8>>)
    ensures
        seqs_view(r@) == seqs_view(v@),
{
    let mut r: Vec<Vec<u8>> = Vec::new();
    let mut i: usize = 0;
    while i < v.len()
        invariant
            i <= v@.len(),
            seqs_view(r@) =~= seqs_view(v@).take(i as int),
        decreases v@.len() - i,
    {
        let ghost prev = seqs_view(r@);
        r.push(copy_entry(&v[i]));
        assert(seqs_view(r@) =~= prev.push(v@[i as int]@));
        i = i + 1;
    }
    assert(seqs_view(v@).take(v@.len() as int) =~= seqs_view(v@));
    r
}

} // verus!
