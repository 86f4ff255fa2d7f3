//! The sandbox: a ledger state, the ledger it runs on and the transactions it
//! has seen, with the operations of a Stellar RPC server over them.

use vstd::prelude::*;

use crate::crypto::{hex_decode, hex_encode, spec_hex_decode, spec_hex_encode};
use crate::executor::{
    apply_changes, changes_view, diffs_well_formed, simulation_answer, invocation_matches, prepared_operation, filled_seed,
    ExecutionResult, Executor, ExecutorError, HostInvocation, HostOutcome, SimulationOutcome, SimulationRequest,
};
use crate::ledger_info::{get_initial_ledger_info, has_default_values, sandbox_network_id, LedgerInfo, NETWORK_PASSPHRASE};
use crate::memory::{lookup, Contents, Memory};
use crate::model::{
    events_view, BaseSendTransactionResponse, DiagnosticEventRecord, GetFailedTransactionResponse,
    GetMissingTransactionResponse, GetSuccessfulTransactionResponse, GetTransactionResponse, LedgerEntryResult,
    SendTransactionResponse, SendTransactionStatus, SimulateTransactionResponse, TransactionEvents,
    TransactionResultModel, TxResultCode, transaction_result_base64, xdr_transaction_result_base64,
};
use crate::transaction::{decode_envelope_base64, envelope_base64, xdr_envelope_base64, xdr_transaction_envelope_base64, Envelope};
use crate::tx_storage::{TransactionInfo, TxStorage};
use crate::utils::{spec_tx_hash, tx_hash};
use crate::validation::{validation_outcome, TxValidation, ValidationError};
use crate::xdr::{
    account_entry_json, account_entry_update, account_ledger_key, contract_data_key, decode_account_id_base64,
    decode_sc_address_base64, decode_sc_val_base64, json_account_entry, ledger_entry_account, ledger_entry_data_base64,
    ledger_entry_summary, ledger_key_base64, new_account_entry, xdr_account_entry_update, xdr_account_id_base64,
    xdr_account_ledger_key, xdr_contract_data_key, xdr_entry_data_base64, xdr_ledger_entry, xdr_ledger_key_base64,
    xdr_new_account_entry, xdr_sc_address_base64, xdr_sc_val_base64, AccountInfo, Durability, EntryKind,
};

verus! {

/// Why a sandbox operation failed.
#[derive(Debug)]
pub enum SandboxError {
    /// The account is not a base64 `AccountId`.
    InvalidAccountId,
    /// The transaction is not a base64 `TransactionEnvelope`.
    InvalidTransactionEnvelope,
    /// The envelope is not a V1 (`Tx`) envelope.
    UnsupportedTransactionType,
    /// The transaction has no operation to simulate.
    MissingOperation,
    /// No account entry is stored under the account's key.
    AccountNotFound,
    /// No entry is stored under the source account's key.
    NoEntry,
    /// The source account's sequence number cannot grow.
    SequenceOverflow,
    /// The transaction was refused.
    Validation(ValidationError),
    /// The transaction could not be executed.
    Execution(ExecutorError),
    /// The host failed to run the invocation.
    HostFailure(String),
    /// The contract address is not a base64 `ScAddress`.
    InvalidContractAddress,
    /// The key is not a base64 `ScVal`.
    InvalidKey,
    /// The durability is neither "persistent" nor "temporary".
    InvalidDurability,
    /// No contract data is stored under the key.
    NoData,
    /// A value could not be encoded.
    Encoding,
    /// The stored transaction hash is not 32 bytes of hex.
    InvalidHash,
}

/// The short description of an error.
pub open spec fn error_text(e: SandboxError) -> Seq<char> {
    match e {
        SandboxError::InvalidAccountId => "invalid account id"@,
        SandboxError::InvalidTransactionEnvelope => "invalid transaction envelope"@,
        SandboxError::UnsupportedTransactionType => "Unsupported transaction type"@,
        SandboxError::MissingOperation => "transaction has no operation"@,
        SandboxError::AccountNotFound => "account not found"@,
        SandboxError::NoEntry => "No entry"@,
        SandboxError::SequenceOverflow => "sequence number overflow"@,
        SandboxError::Validation(_) => "transaction validation failed"@,
        SandboxError::Execution(_) => "transaction execution failed"@,
        SandboxError::HostFailure(_) => "transaction execution failed"@,
        SandboxError::InvalidContractAddress => "Invalid contract address XDR"@,
        SandboxError::InvalidKey => "Invalid key XDR"@,
        SandboxError::InvalidDurability => "Invalid durability"@,
        SandboxError::NoData => "No data for contract under key"@,
        SandboxError::Encoding => "XDR encoding failed"@,
        SandboxError::InvalidHash => "invalid transaction hash"@,
    }
}

impl SandboxError {
    /// A short description of the error.
    pub fn describe(&self) -> (r: String)
        ensures
            r@ == error_text(*self),
    {
        let text: &str = match self {
            SandboxError::InvalidAccountId => "invalid account id",
            SandboxError::InvalidTransactionEnvelope => "invalid transaction envelope",
            SandboxError::UnsupportedTransactionType => "Unsupported transaction type",
            SandboxError::MissingOperation => "transaction has no operation",
            SandboxError::AccountNotFound => "account not found",
            SandboxError::NoEntry => "No entry",
            SandboxError::SequenceOverflow => "sequence number overflow",
            SandboxError::Validation(_) => "transaction validation failed",
            SandboxError::Execution(_) => "transaction execution failed",
            SandboxError::HostFailure(_) => "transaction execution failed",
            SandboxError::InvalidContractAddress => "Invalid contract address XDR",
            SandboxError::InvalidKey => "Invalid key XDR",
            SandboxError::InvalidDurability => "Invalid durability",
            SandboxError::NoData => "No data for contract under key",
            SandboxError::Encoding => "XDR encoding failed",
            SandboxError::InvalidHash => "invalid transaction hash",
        };
        text.to_owned()
    }
}

/// The network the sandbox runs: its passphrase and protocol version.
pub struct NetworkInfo {
    pub passphrase: String,
    pub protocol_version: u32,
}

/// A transaction on its way: its envelope and, unless it was refused, the
/// host invocation it needs.
pub struct PendingTransaction {
    pub envelope: Envelope,
    pub invocation: Result<HostInvocation, SandboxError>,
}

/// The thresholds of a funded account: master weight 1, all thresholds 0.
pub open spec fn funded_thresholds() -> Seq<u8> {
    seq![1u8, 0u8, 0u8, 0u8]
}

/// A pending transaction is what the sandbox makes of its envelope against a
/// ledger state and ledger: refused when validation fails or the transaction
/// is not a single host-function invocation with Soroban data, and otherwise
/// carrying the invocation of its host function against that state.
pub open spec fn prepared_against(m: Contents, ledger: LedgerInfo, p: PendingTransaction) -> bool {
    match validation_outcome(m, p.envelope@, ledger) {
        Err(e) => p.invocation matches Err(SandboxError::Validation(v)) && v == e,
        Ok(_) => match prepared_operation(p.envelope@) {
            Err(e) => p.invocation matches Err(SandboxError::Execution(x)) && x == e,
            Ok((host_function, auth, d, restored)) => p.invocation matches Ok(inv) && invocation_matches(
                inv,
                m,
                host_function,
                auth,
                d,
                p.envelope@.header.source_account@,
                restored,
                filled_seed(0),
                true,
                ledger,
            ),
        },
    }
}

/// The fee a submission takes from its source account: the transaction's
/// fee, unless validation refused the transaction.
pub open spec fn fee_charged(pending: PendingTransaction) -> u32 {
    match pending.invocation {
        Err(SandboxError::Validation(_)) => 0,
        _ => pending.envelope@.header.fee,
    }
}

/// A balance less a fee, at least the smallest balance there is.
pub open spec fn balance_less_fee(balance: i64, fee: u32) -> i64 {
    if balance - fee >= i64::MIN {
        (balance - fee) as i64
    } else {
        i64::MIN
    }
}

/// The ledger state after the source account's sequence number is bumped and
/// `fee` is taken from its balance (and the entry marked modified on
/// `ledger_seq`), or why it cannot be.
pub open spec fn bump_outcome(m: Contents, source: Seq<u8>, ledger_seq: u32, fee: u32) -> Result<Contents, SandboxError> {
    let key = xdr_account_ledger_key(source);
    match lookup(m, key) {
        None => Err(SandboxError::NoEntry),
        Some((e, ttl)) => match xdr_ledger_entry(e).unwrap().account {
            None => Err(SandboxError::AccountNotFound),
            Some(a) => if a.seq_num == i64::MAX {
                Err(SandboxError::SequenceOverflow)
            } else {
                Ok(m.insert(key, (xdr_account_entry_update(e, (a.seq_num + 1) as i64, balance_less_fee(a.balance, fee), ledger_seq).unwrap(), ttl)))
            },
        },
    }
}

/// The ledger state after the host's changes, if the host ran.
pub open spec fn after_execution(m: Contents, host: Option<Result<HostOutcome, String>>) -> Contents {
    match host {
        Some(Ok(out)) => apply_changes(m, changes_view(out.ledger_changes@)).0,
        _ => m,
    }
}

/// Whether the transaction executed: it was not refused, the host ran it and
/// all its changes applied.
pub open spec fn executed(m: Contents, pending: PendingTransaction, host: Option<Result<HostOutcome, String>>) -> bool {
    &&& pending.invocation is Ok
    &&& host matches Some(Ok(out)) && apply_changes(m, changes_view(out.ledger_changes@)).1
}

/// The account stored under the ledger key of an Ed25519 account key.
pub open spec fn account_at(m: Contents, account_key: Seq<u8>) -> Option<crate::xdr::AccountView> {
    match lookup(m, xdr_account_ledger_key(account_key)) {
        None => None,
        Some((e, _)) => xdr_ledger_entry(e).unwrap().account,
    }
}

/// The account a text refers to, if it is a base64 `AccountId` and an
/// account entry is stored under its key.
pub open spec fn account_for_text(m: Contents, text: Seq<char>) -> Option<crate::xdr::AccountView> {
    match xdr_account_id_base64(text) {
        None => None,
        Some(key) => match lookup(m, xdr_account_ledger_key(key)) {
            None => None,
            Some((e, _)) => xdr_ledger_entry(e).unwrap().account,
        },
    }
}

/// The durability a text names: "persistent" or "temporary".
pub open spec fn durability_of(text: Seq<char>) -> Option<Durability> {
    if text == "persistent"@ {
        Some(Durability::Persistent)
    } else if text == "temporary"@ {
        Some(Durability::Temporary)
    } else {
        None
    }
}

/// The durability a text names.
pub fn parse_durability(text: &str) -> (r: Option<Durability>)
    ensures
        r == durability_of(text@),
{
    let t = text.to_owned();
    if t == "persistent".to_owned() {
        Some(Durability::Persistent)
    } else if t == "temporary".to_owned() {
        Some(Durability::Temporary)
    } else {
        None
    }
}

/// The events of a transaction as the RPC lists them: the contract events, as
/// one group.
pub open spec fn contract_events_match(events: TransactionEvents, recorded: Seq<DiagnosticEventRecord>) -> bool {
    &&& events.transaction_events_xdr@.len() == 0
    &&& events.contract_events_xdr@.len() == 1
    &&& events.contract_events_xdr@[0]@.len() == recorded.len()
    &&& forall|i: int| 0 <= i < recorded.len() ==> (#[trigger] events.contract_events_xdr@[0]@[i])@ == recorded[i].event@
}

/// The contract events of recorded diagnostic events.
fn contract_events(events: &Vec<DiagnosticEventRecord>) -> (r: Vec<Vec<u8>>)
    ensures
        r@.len() == events@.len(),
        forall|i: int| 0 <= i < events@.len() ==> (#[trigger] r@[i])@ == events@[i].event@,
{
    let mut r: Vec<Vec<u8>> = Vec::new();
    let mut i: usize = 0;
    while i < events.len()
        invariant
            i <= events@.len(),
            r@.len() == i,
            forall|j: int| 0 <= j < i ==> (#[trigger] r@[j])@ == events@[j].event@,
        decreases events@.len() - i,
    {
        r.push(crate::bytes::copy_bytes(&events[i].event));
        i = i + 1;
    }
    r
}

/// A 32-byte array of a 32-byte string.
fn bytes32(b: &Vec<u8>) -> (r: [u8; 32])
    requires
        b@.len() == 32,
    ensures
        r@ == b@,
{
    let mut r = [0u8; 32];
    let mut i: usize = 0;
    while i < 32
        invariant
            b@.len() == 32,
            i <= 32,
            forall|j: int| 0 <= j < i ==> r@[j] == b@[j],
        decreases 32 - i,
    {
        r.set(i, b[i]);
        i = i + 1;
    }
    assert(r@ =~= b@);
    r
}

/// A copy of a list of events.
fn copy_events(events: &Vec<DiagnosticEventRecord>) -> (r: Vec<DiagnosticEventRecord>)
    ensures
        events_view(r@) == events_view(events@),
{
    let mut r: Vec<DiagnosticEventRecord> = Vec::new();
    let mut i: usize = 0;
    while i < events.len()
        invariant
            i <= events@.len(),
            events_view(r@) =~= events_view(events@).take(i as int),
        decreases events@.len() - i,
    {
        let ghost prev = events_view(r@);
        r.push(DiagnosticEventRecord {
            in_successful_contract_call: events[i].in_successful_contract_call,
            event: crate::bytes::copy_bytes(&events[i].event),
        });
        assert(events_view(r@) =~= prev.push(events@[i as int]@));
        i = i + 1;
    }
    assert(events_view(events@).take(events@.len() as int) =~= events_view(events@));
    r
}

/// How a call changes which hashes a sandbox has records for: it adds the
/// recorded hash, if any, and keeps all others.
pub open spec fn records_step(before: Sandbox, after: Sandbox, recorded: Option<Seq<char>>) -> bool {
    after.transactions().dom() == match recorded {
        Some(h) => before.transactions().dom().insert(h),
        None => before.transactions().dom(),
    }
}

/// The hash a submission records its transaction under: the hex of its hash,
/// unless the source account's sequence number could not be bumped.
pub open spec fn submission_record(s: Sandbox, pending: PendingTransaction, host: Option<Result<HostOutcome, String>>) -> Option<Seq<char>> {
    match bump_outcome(
        after_execution(s.contents(), host),
        pending.envelope@.header.source_account@,
        s.ledger().sequence_number,
        fee_charged(pending),
    ) {
        Ok(_) => Some(spec_hex_encode(spec_tx_hash(s.ledger().network_id@, pending.envelope@.transaction))),
        Err(_) => None,
    }
}

/// A ledger state, the ledger it runs on and the transactions it has seen.
pub struct Sandbox {
    memory: Memory,
    ledger_info: LedgerInfo,
    executor: Executor,
    validator: TxValidation,
    tx_storage: TxStorage,
}

impl Sandbox {
    /// The ledger state.
    pub closed spec fn contents(&self) -> Contents {
        self.memory@
    }

    /// The ledger the sandbox runs on.
    pub closed spec fn ledger(&self) -> LedgerInfo {
        self.ledger_info
    }

    /// The transactions it has seen, by hash.
    pub closed spec fn transactions(&self) -> Map<Seq<char>, TransactionInfo> {
        self.tx_storage@
    }

    /// An empty ledger state on the initial ledger, with no transactions.
    pub fn new() -> (r: Sandbox)
        ensures
            r.contents() == Map::<Seq<u8>, (Seq<u8>, Option<u32>)>::empty(),
            has_default_values(r.ledger()),
            r.ledger().network_id@ == sandbox_network_id(),
            r.transactions() == Map::<Seq<char>, TransactionInfo>::empty(),
    {
        Sandbox {
            memory: Memory::new(),
            ledger_info: get_initial_ledger_info(),
            executor: Executor::new(),
            validator: TxValidation::new(),
            tx_storage: TxStorage::new(),
        }
    }

    /// The ledger state.
    pub fn memory(&self) -> (r: &Memory)
        ensures
            r@ == self.contents(),
    {
        &self.memory
    }

    /// The ledger the sandbox runs on.
    pub fn get_ledger_info(&self) -> (r: &LedgerInfo)
        ensures
            *r == self.ledger(),
    {
        &self.ledger_info
    }

    /// Sets the ledger's time (a negative time wraps around, as `as u64` does).
    pub fn set_time(&mut self, time: i64)
        ensures
            records_step(*old(self), *final(self), None),
            final(self).ledger() == (LedgerInfo { timestamp: time as u64, ..old(self).ledger() }),
            final(self).contents() == old(self).contents(),
            final(self).transactions() == old(self).transactions(),
    {
        self.ledger_info.timestamp = time as u64;
    }

    /// Sets the ledger's sequence number.
    pub fn set_sequence(&mut self, seq: u32)
        ensures
            records_step(*old(self), *final(self), None),
            final(self).ledger() == (LedgerInfo { sequence_number: seq, ..old(self).ledger() }),
            final(self).contents() == old(self).contents(),
            final(self).transactions() == old(self).transactions(),
    {
        self.ledger_info.sequence_number = seq;
    }

    /// Creates (or replaces) an account with the given balance, sequence
    /// number 0, no signers, master weight 1, no flags, no sub-entries, no
    /// inflation destination and no home domain.
    pub fn fund_account(&mut self, account: &str, balance: i64) -> (r: Result<(), SandboxError>)
        ensures
            records_step(*old(self), *final(self), None),
            final(self).ledger() == old(self).ledger(),
            final(self).transactions() == old(self).transactions(),
            match xdr_account_id_base64(account@) {
                None => r matches Err(SandboxError::InvalidAccountId) && final(self).contents() == old(self).contents(),
                Some(key) => {
                    &&& r is Ok
                    &&& final(self).contents() == old(self).contents().insert(
                        xdr_account_ledger_key(key),
                        (xdr_new_account_entry(key, balance, 0, funded_thresholds(), 0, 0, None, Seq::empty()), None),
                    )
                    &&& account_for_text(final(self).contents(), account@)
                        == Some(crate::xdr::AccountView { account_key: key, balance, seq_num: 0, signers: seq![] })
                },
            },
    {
        let account_key = match decode_account_id_base64(account) {
            Ok(k) => k,
            Err(_) => return Err(SandboxError::InvalidAccountId),
        };
        let thresholds: [u8; 4] = [1, 0, 0, 0];
        assert(thresholds@ =~= funded_thresholds());
        let no_home_domain: [u8; 0] = [];
        assert(no_home_domain@ =~= Seq::<u8>::empty());
        let entry = new_account_entry(&account_key, balance, 0, &thresholds, 0, 0, None, &no_home_domain);
        match self.memory.insert(entry) {
            Ok(()) => Ok(()),
            Err(_) => Err(SandboxError::Encoding),
        }
    }

    /// The account a text refers to.
    pub fn get_account_from_string(&self, account: &str) -> (r: Result<AccountInfo, SandboxError>)
        ensures
            match xdr_account_id_base64(account@) {
                None => r matches Err(SandboxError::InvalidAccountId),
                Some(_) => match account_for_text(self.contents(), account@) {
                    None => r matches Err(SandboxError::AccountNotFound),
                    Some(a) => r matches Ok(info) && info@ == a,
                },
            },
    {
        let account_key = match decode_account_id_base64(account) {
            Ok(k) => k,
            Err(_) => return Err(SandboxError::InvalidAccountId),
        };
        let key = account_ledger_key(&account_key);
        match self.memory.get_account(&key) {
            Ok(Some(a)) => Ok(a),
            _ => Err(SandboxError::AccountNotFound),
        }
    }

    /// The balance of an account.
    pub fn get_balance(&self, account: &str) -> (r: Result<i64, SandboxError>)
        ensures
            match xdr_account_id_base64(account@) {
                None => r matches Err(SandboxError::InvalidAccountId),
                Some(_) => match account_for_text(self.contents(), account@) {
                    None => r matches Err(SandboxError::AccountNotFound),
                    Some(a) => r == Ok::<i64, SandboxError>(a.balance),
                },
            },
    {
        let a = self.get_account_from_string(account)?;
        Ok(a.balance)
    }

    /// The account entry an account text refers to, as JSON.
    pub fn get_account(&self, account: &str) -> (r: Result<String, SandboxError>)
        ensures
            match xdr_account_id_base64(account@) {
                None => r matches Err(SandboxError::InvalidAccountId),
                Some(key) => match lookup(self.contents(), xdr_account_ledger_key(key)) {
                    None => r matches Err(SandboxError::AccountNotFound),
                    Some((e, _)) => if xdr_ledger_entry(e).unwrap().kind != EntryKind::Account {
                        r matches Err(SandboxError::AccountNotFound)
                    } else {
                        match json_account_entry(e) {
                            Some(j) => r matches Ok(s) && s@ == j,
                            None => r matches Err(SandboxError::Encoding),
                        }
                    },
                },
            },
    {
        let account_key = match decode_account_id_base64(account) {
            Ok(k) => k,
            Err(_) => return Err(SandboxError::InvalidAccountId),
        };
        let key = account_ledger_key(&account_key);
        let (entry, _) = match self.memory.get(&key) {
            Some(found) => found,
            None => return Err(SandboxError::AccountNotFound),
        };
        match account_entry_json(&entry) {
            Ok(Some(json)) => Ok(json),
            Ok(None) => Err(SandboxError::AccountNotFound),
            Err(_) => Err(SandboxError::Encoding),
        }
    }

    /// Bumps the sequence number of the source account by one, takes `fee`
    /// from its balance and marks its entry modified on the current ledger,
    /// keeping its time to live.
    pub fn apply_account_changes(&mut self, account_key: &[u8; 32], fee: u32) -> (r: Result<(), SandboxError>)
        ensures
            records_step(*old(self), *final(self), None),
            final(self).ledger() == old(self).ledger(),
            final(self).transactions() == old(self).transactions(),
            match bump_outcome(old(self).contents(), account_key@, old(self).ledger().sequence_number, fee) {
                Err(e) => r == Err::<(), SandboxError>(e) && final(self).contents() == old(self).contents(),
                Ok(m) => {
                    let a = account_at(old(self).contents(), account_key@).unwrap();
                    &&& r is Ok
                    &&& final(self).contents() == m
                    &&& account_at(m, account_key@) == Some(crate::xdr::AccountView {
                        seq_num: (a.seq_num + 1) as i64,
                        balance: balance_less_fee(a.balance, fee),
                        ..a
                    })
                },
            },
    {
        let key = account_ledger_key(account_key);
        let (entry, ttl) = match self.memory.get(&key) {
            Some(found) => found,
            None => return Err(SandboxError::NoEntry),
        };
        let account = match ledger_entry_account(&entry) {
            Ok(Some(a)) => a,
            _ => return Err(SandboxError::AccountNotFound),
        };
        if account.seq_num == i64::MAX {
            return Err(SandboxError::SequenceOverflow);
        }
        let balance = if account.balance >= i64::MIN + fee as i64 {
            account.balance - fee as i64
        } else {
            i64::MIN
        };
        let updated = match account_entry_update(&entry, account.seq_num + 1, balance, self.ledger_info.sequence_number) {
            Some(u) => u,
            None => return Err(SandboxError::AccountNotFound),
        };
        match self.memory.insert_with_ttl(updated, ttl) {
            Ok(()) => Ok(()),
            Err(_) => Err(SandboxError::Encoding),
        }
    }

    /// Validates a transaction and prepares its host invocation.
    pub fn send_transaction_inner(&self, envelope: &Envelope) -> (r: Result<HostInvocation, SandboxError>)
        ensures
            match validation_outcome(self.contents(), envelope@, self.ledger()) {
                Err(e) => r matches Err(SandboxError::Validation(v)) && v == e,
                Ok(_) => match prepared_operation(envelope@) {
                    Err(e) => r matches Err(SandboxError::Execution(x)) && x == e,
                    Ok((host_function, auth, d, restored)) => r matches Ok(inv) && invocation_matches(inv, self.contents(),
                        host_function, auth, d, envelope@.header.source_account@, restored, filled_seed(0), true, self.ledger()),
                },
            },
    {
        match self.validator.validate(&self.memory, envelope, &self.ledger_info) {
            Err(e) => return Err(SandboxError::Validation(e)),
            Ok(()) => {},
        }
        match self.executor.prepare_transaction(&self.memory, envelope, &self.ledger_info) {
            Err(e) => Err(SandboxError::Execution(e)),
            Ok(inv) => Ok(inv),
        }
    }

    /// Decodes a base64 transaction envelope, validates it and prepares its
    /// host invocation; the host then runs the invocation, and
    /// `send_transaction` completes the submission.
    pub fn prepare_transaction(&self, transaction_envelope: &str) -> (r: Result<PendingTransaction, SandboxError>)
        ensures
            match xdr_transaction_envelope_base64(transaction_envelope@) {
                None => r matches Err(SandboxError::InvalidTransactionEnvelope),
                Some(None) => r matches Err(SandboxError::UnsupportedTransactionType),
                Some(Some(xdr)) => r matches Ok(p) && {
                    &&& p.envelope.spec_xdr() == xdr
                    &&& prepared_against(self.contents(), self.ledger(), p)
                },
            },
    {
        let xdr = match decode_envelope_base64(transaction_envelope) {
            Err(_) => return Err(SandboxError::InvalidTransactionEnvelope),
            Ok(None) => return Err(SandboxError::UnsupportedTransactionType),
            Ok(Some(xdr)) => xdr,
        };
        let envelope = match Envelope::from_xdr(xdr) {
            Ok(e) => e,
            Err(_) => return Err(SandboxError::InvalidTransactionEnvelope),
        };
        let invocation = self.send_transaction_inner(&envelope);
        Ok(PendingTransaction { envelope, invocation })
    }

    /// Completes a submission, prepared (`prepare_transaction`) against the
    /// current ledger state and ledger, with what the host gave back (nothing when the
    /// transaction was refused): applies the host's ledger changes, bumps the
    /// source account's sequence number and takes the transaction's fee from
    /// its balance (no fee when validation refused the transaction), records
    /// the transaction under its
    /// hash and answers. A refused or failed transaction is recorded as
    /// failed, and its error returned; when the sequence number cannot be
    /// bumped nothing is recorded.
    pub fn send_transaction(&mut self, pending: PendingTransaction, host: Option<Result<HostOutcome, String>>) -> (r: Result<
        SendTransactionResponse,
        SandboxError,
    >)
        requires
            prepared_against(old(self).contents(), old(self).ledger(), pending),
            pending.invocation is Ok <==> host is Some,
        ensures
            records_step(*old(self), *final(self), submission_record(*old(self), pending, host)),
            final(self).ledger() == old(self).ledger(),
            ({
                let m1 = after_execution(old(self).contents(), host);
                let source = pending.envelope@.header.source_account@;
                let hash = spec_hex_encode(spec_tx_hash(old(self).ledger().network_id@, pending.envelope@.transaction));
                match bump_outcome(m1, source, old(self).ledger().sequence_number, fee_charged(pending)) {
                    Err(e) => r == Err::<SendTransactionResponse, SandboxError>(e) && final(self).contents() == m1
                        && final(self).transactions() == old(self).transactions(),
                    Ok(m2) => {
                        let a = account_at(m1, source).unwrap();
                        &&& final(self).contents() == m2
                        &&& account_at(m2, source) == Some(crate::xdr::AccountView {
                            seq_num: (a.seq_num + 1) as i64,
                            balance: balance_less_fee(a.balance, fee_charged(pending)),
                            ..a
                        })
                        &&& spec_tx_hash(old(self).ledger().network_id@, pending.envelope@.transaction).len() == 32
                        &&& final(self).transactions().dom() == old(self).transactions().dom().insert(hash)
                        &&& final(self).transactions().remove(hash) == old(self).transactions().remove(hash)
                        &&& final(self).transactions()[hash].envelope == pending.envelope
                        &&& final(self).transactions()[hash].ledger_info == old(self).ledger()
                        &&& if executed(old(self).contents(), pending, host) {
                            let out = host.unwrap().unwrap();
                            let failed = out.invoke_result is Err;
                            &&& r matches Ok(resp) && {
                                &&& resp.base.status == (if failed { SendTransactionStatus::Error } else { SendTransactionStatus::Pending })
                                &&& resp.base.hash@ == hash
                                &&& resp.base.latest_ledger == old(self).ledger().sequence_number
                                &&& resp.base.latest_ledger_close_time == old(self).ledger().timestamp
                                &&& (resp.error_result is Some <==> failed)
                                &&& (resp.error_result matches Some(er) ==> er.fee_charged == pending.envelope@.header.fee as i64
                                    && er.result == TxResultCode::TxFailed)
                                &&& (resp.diagnostic_events is Some <==> failed)
                                &&& (resp.diagnostic_events matches Some(evs) ==> events_view(evs@)
                                    == events_view(final(self).transactions()[hash].events@))
                            }
                            &&& final(self).transactions()[hash].result == out.invoke_result
                            &&& events_view(final(self).transactions()[hash].events@)
                                == crate::executor::events_of(crate::transaction::seqs_view(out.contract_events@), !failed)
                        } else {
                            &&& r is Err
                            &&& final(self).transactions()[hash].result is Err
                            &&& final(self).transactions()[hash].events@.len() == 0
                            &&& pending.invocation matches Err(e) ==> r == Err::<SendTransactionResponse, SandboxError>(e)
                            &&& host matches Some(Err(msg)) ==> r matches Err(SandboxError::HostFailure(m)) && m@ == msg@
                            &&& host matches Some(Ok(_)) ==> r matches Err(SandboxError::Execution(_))
                        }
                    },
                }
            }),
    {
        let fee = match &pending.invocation {
            Err(SandboxError::Validation(_)) => 0,
            _ => pending.envelope.header().fee,
        };
        let PendingTransaction { envelope, invocation } = pending;
        let ghost m0 = self.memory@;
        let result: Result<ExecutionResult, SandboxError> = match invocation {
            Err(e) => Err(e),
            Ok(_) => match host {
                None => Err(SandboxError::NoEntry),
                Some(Err(msg)) => Err(SandboxError::HostFailure(msg)),
                Some(Ok(out)) => match self.executor.send_transaction(&mut self.memory, &envelope, out) {
                    Ok(res) => Ok(res),
                    Err(e) => Err(SandboxError::Execution(e)),
                },
            },
        };
        let source = envelope.header().source_account;
        self.apply_account_changes(&source, fee)?;
        let hash = tx_hash(&envelope, &self.ledger_info).unwrap();
        let hash = hex_encode(&hash);
        let result = match result {
            Ok(res) => res,
            Err(e) => {
                let info = TransactionInfo { envelope, result: Err(e.describe()), events: Vec::new(), ledger_info: self.ledger_info };
                self.tx_storage.insert(hash, info);
                return Err(e);
            },
        };
        let failed = result.error.is_some();
        let status = if result.result.is_ok() {
            SendTransactionStatus::Pending
        } else {
            SendTransactionStatus::Error
        };
        let error_result = match result.error {
            Some(code) => Some(TransactionResultModel { fee_charged: result.fee_charges, result: code }),
            None => None,
        };
        let diagnostic_events = if failed {
            Some(copy_events(&result.events))
        } else {
            None
        };
        let response = SendTransactionResponse {
            base: BaseSendTransactionResponse {
                status,
                hash: hash.clone(),
                latest_ledger: self.ledger_info.sequence_number,
                latest_ledger_close_time: self.ledger_info.timestamp,
            },
            error_result,
            diagnostic_events,
        };
        let info = TransactionInfo { envelope, result: result.result, events: result.events, ledger_info: self.ledger_info };
        self.tx_storage.insert(hash, info);
        Ok(response)
    }

    /// Decodes a base64 transaction envelope and prepares the simulation of
    /// its first operation; the simulation then runs, and
    /// `simulate_tx_response` answers with its outcome.
    pub fn simulate_tx(&self, transaction_envelope: &str) -> (r: Result<SimulationRequest, SandboxError>)
        ensures
            match xdr_transaction_envelope_base64(transaction_envelope@) {
                None => r matches Err(SandboxError::InvalidTransactionEnvelope),
                Some(None) => r matches Err(SandboxError::UnsupportedTransactionType),
                Some(Some(xdr)) => {
                    let env = crate::transaction::xdr_tx_envelope(xdr).unwrap();
                    if env.operations.len() == 0 {
                        r matches Err(SandboxError::MissingOperation)
                    } else {
                        match env.operations[0] {
                            crate::transaction::OperationView::InvokeHostFunction { host_function, .. } => r matches Ok(req) && {
                                &&& req.host_function@ == host_function
                                &&& req.source_account == env.header.source_account
                                &&& req.ledger_info == self.ledger()
                                &&& crate::network_config::is_sandbox_network_config(req.network_config)
                                &&& req.disable_non_root_auth
                                &&& req.prng_seed@ == filled_seed(1)
                                &&& req.enable_diagnostics
                            },
                            crate::transaction::OperationView::Other => r matches Err(SandboxError::Execution(e))
                                && e == ExecutorError::ExpectedInvokeHostFunction,
                        }
                    }
                },
            },
    {
        let xdr = match decode_envelope_base64(transaction_envelope) {
            Err(_) => return Err(SandboxError::InvalidTransactionEnvelope),
            Ok(None) => return Err(SandboxError::UnsupportedTransactionType),
            Ok(Some(xdr)) => xdr,
        };
        let envelope = match Envelope::from_xdr(xdr) {
            Ok(e) => e,
            Err(_) => return Err(SandboxError::InvalidTransactionEnvelope),
        };
        envelope.check_wf();
        if envelope.operations().len() == 0 {
            return Err(SandboxError::MissingOperation);
        }
        match self.executor.simulation_request(&envelope, &self.ledger_info) {
            Ok(req) => Ok(req),
            Err(e) => Err(SandboxError::Execution(e)),
        }
    }

    /// Answers a simulation with its outcome (see `Executor::simulate_transaction`).
    pub fn simulate_tx_response(&self, outcome: SimulationOutcome) -> (r: Result<SimulateTransactionResponse, SandboxError>)
        requires
            outcome.invoke_result is Ok ==> diffs_well_formed(outcome.modified_entries@),
        ensures
            exists|x: Result<SimulateTransactionResponse, ExecutorError>| #[trigger] simulation_answer(outcome, self.ledger(), x) && match x {
                Ok(resp) => r == Ok::<SimulateTransactionResponse, SandboxError>(resp),
                Err(e) => r matches Err(SandboxError::Execution(y)) && y == e,
            },
    {
        let ghost o = outcome;
        let res = self.executor.simulate_transaction(outcome, &self.ledger_info);
        let ghost x = res;
        assert(simulation_answer(o, self.ledger(), x));
        match res {
            Ok(resp) => Ok(resp),
            Err(e) => Err(SandboxError::Execution(e)),
        }
    }

    /// The contract data stored under a contract's key with the given
    /// durability ("persistent" or "temporary").
    pub fn get_contract_data(&self, contract_address: &str, key: &str, durability: &str) -> (r: Result<
        LedgerEntryResult,
        SandboxError,
    >)
        ensures
            match xdr_sc_address_base64(contract_address@) {
                None => r matches Err(SandboxError::InvalidContractAddress),
                Some(address) => match xdr_sc_val_base64(key@) {
                    None => r matches Err(SandboxError::InvalidKey),
                    Some(k) => match durability_of(durability@) {
                        None => r matches Err(SandboxError::InvalidDurability),
                        Some(d) => xdr_contract_data_key(address, k, d) matches Some(ledger_key) && match lookup(
                            self.contents(),
                            ledger_key,
                        ) {
                            None => r matches Err(SandboxError::NoData),
                            Some((e, ttl)) => {
                                &&& xdr_ledger_key_base64(ledger_key) is Some
                                &&& xdr_entry_data_base64(e) is Some
                                &&& r matches Ok(res) && {
                                    &&& res.last_modified_ledger_seq == Some(xdr_ledger_entry(e).unwrap().last_modified)
                                    &&& res.key@ == xdr_ledger_key_base64(ledger_key).unwrap()
                                    &&& res.val@ == xdr_entry_data_base64(e).unwrap()
                                    &&& res.live_until_ledger_seq == ttl
                                }
                            },
                        },
                    },
                },
            },
    {
        let address = match decode_sc_address_base64(contract_address) {
            Ok(a) => a,
            Err(_) => return Err(SandboxError::InvalidContractAddress),
        };
        let key_val = match decode_sc_val_base64(key) {
            Ok(k) => k,
            Err(_) => return Err(SandboxError::InvalidKey),
        };
        let durability = match parse_durability(durability) {
            Some(d) => d,
            None => return Err(SandboxError::InvalidDurability),
        };
        let ledger_key = match contract_data_key(&address, &key_val, durability) {
            Ok(k) => k,
            Err(_) => return Err(SandboxError::Encoding),
        };
        let (entry, ttl) = match self.memory.get(&ledger_key) {
            Some(found) => found,
            None => return Err(SandboxError::NoData),
        };
        let summary = match ledger_entry_summary(&entry) {
            Ok(s) => s,
            Err(_) => return Err(SandboxError::Encoding),
        };
        let key64 = match ledger_key_base64(&ledger_key) {
            Ok(k) => k,
            Err(_) => return Err(SandboxError::Encoding),
        };
        let val64 = match ledger_entry_data_base64(&entry) {
            Ok(v) => v,
            Err(_) => return Err(SandboxError::Encoding),
        };
        Ok(LedgerEntryResult {
            last_modified_ledger_seq: Some(summary.last_modified),
            key: key64,
            val: val64,
            live_until_ledger_seq: ttl,
        })
    }

    /// The transaction recorded under a hash: not found, successful (with its
    /// returned value) or failed.
    pub fn get_transaction(&self, hash: &str) -> (r: Result<GetTransactionResponse, SandboxError>)
        ensures
            if !self.transactions().contains_key(hash@) {
                r matches Ok(GetTransactionResponse::NotFound(resp)) && {
                    &&& resp.tx_hash@ == hash@
                    &&& resp.latest_ledger == self.ledger().sequence_number
                    &&& resp.latest_ledger_close_time == self.ledger().timestamp
                    &&& resp.oldest_ledger == 0
                    &&& resp.oldest_ledger_close_time == 0
                }
            } else {
                let ti = self.transactions()[hash@];
                let fee = ti.envelope@.header.fee as i64;
                match xdr_envelope_base64(ti.envelope.spec_xdr()) {
                    None => r matches Err(SandboxError::Encoding),
                    Some(env64) => match ti.result {
                        Ok(value) => match spec_hex_decode(hash@) {
                            Some(h) if h.len() == 32 => r matches Ok(GetTransactionResponse::Success(resp)) && {
                                &&& resp.tx_hash@ == hash@
                                &&& resp.latest_ledger == self.ledger().sequence_number
                                &&& resp.latest_ledger_close_time == self.ledger().timestamp
                                &&& resp.ledger == ti.ledger_info.sequence_number
                                &&& resp.created_at == ti.ledger_info.timestamp
                                &&& resp.oldest_ledger == 0
                                &&& resp.oldest_ledger_close_time == 0
                                &&& resp.application_order == 0
                                &&& !resp.fee_bump
                                &&& resp.result_meta_xdr@.len() == 0
                                &&& resp.diagnostic_events_xdr is None
                                &&& resp.envelope_xdr@ == env64
                                &&& (exists|code: [u8; 32]| code@ == h
                                    && resp.result_xdr@ == xdr_transaction_result_base64(fee, TxResultCode::TxSuccess { hash: code }))
                                &&& resp.return_value matches Some(v) && v@ == value@
                                &&& contract_events_match(resp.events, ti.events@)
                            },
                            _ => r matches Err(SandboxError::InvalidHash),
                        },
                        Err(_) => r matches Ok(GetTransactionResponse::Failed(resp)) && {
                            &&& resp.tx_hash@ == hash@
                            &&& resp.latest_ledger == self.ledger().sequence_number
                            &&& resp.latest_ledger_close_time == self.ledger().timestamp
                            &&& resp.ledger == ti.ledger_info.sequence_number
                            &&& resp.created_at == ti.ledger_info.timestamp
                            &&& resp.oldest_ledger == 0
                            &&& resp.oldest_ledger_close_time == 0
                            &&& resp.application_order == 0
                            &&& !resp.fee_bump
                            &&& resp.result_meta_xdr@.len() == 0
                            &&& resp.diagnostic_events_xdr is None
                            &&& resp.envelope_xdr@ == env64
                            &&& resp.result_xdr@ == xdr_transaction_result_base64(fee, TxResultCode::TxFailed)
                            &&& contract_events_match(resp.events, ti.events@)
                        },
                    },
                }
            },
    {
        let ti = match self.tx_storage.get(hash) {
            Some(ti) => ti,
            None => {
                return Ok(GetTransactionResponse::NotFound(GetMissingTransactionResponse {
                    tx_hash: hash.to_owned(),
                    latest_ledger: self.ledger_info.sequence_number,
                    latest_ledger_close_time: self.ledger_info.timestamp,
                    oldest_ledger: 0,
                    oldest_ledger_close_time: 0,
                }));
            },
        };
        let envelope_xdr = match envelope_base64(ti.envelope.xdr()) {
            Ok(e) => e,
            Err(_) => return Err(SandboxError::Encoding),
        };
        let fee = ti.envelope.header().fee as i64;
        let events = TransactionEvents { transaction_events_xdr: Vec::new(), contract_events_xdr: vec![contract_events(&ti.events)] };
        match &ti.result {
            Ok(value) => {
                let bytes = match hex_decode(hash) {
                    Ok(b) => b,
                    Err(_) => return Err(SandboxError::InvalidHash),
                };
                if bytes.len() != 32 {
                    return Err(SandboxError::InvalidHash);
                }
                let code = bytes32(&bytes);
                Ok(GetTransactionResponse::Success(GetSuccessfulTransactionResponse {
                    tx_hash: hash.to_owned(),
                    latest_ledger: self.ledger_info.sequence_number,
                    latest_ledger_close_time: self.ledger_info.timestamp,
                    oldest_ledger: 0,
                    oldest_ledger_close_time: 0,
                    ledger: ti.ledger_info.sequence_number,
                    created_at: ti.ledger_info.timestamp,
                    application_order: 0,
                    fee_bump: false,
                    envelope_xdr,
                    result_xdr: transaction_result_base64(fee, TxResultCode::TxSuccess { hash: code }),
                    result_meta_xdr: String::new(),
                    diagnostic_events_xdr: None,
                    return_value: Some(crate::bytes::copy_bytes(value.as_slice())),
                    events,
                }))
            },
            Err(_) => Ok(GetTransactionResponse::Failed(GetFailedTransactionResponse {
                tx_hash: hash.to_owned(),
                latest_ledger: self.ledger_info.sequence_number,
                latest_ledger_close_time: self.ledger_info.timestamp,
                oldest_ledger: 0,
                oldest_ledger_close_time: 0,
                ledger: ti.ledger_info.sequence_number,
                created_at: ti.ledger_info.timestamp,
                application_order: 0,
                fee_bump: false,
                envelope_xdr,
                result_xdr: transaction_result_base64(fee, TxResultCode::TxFailed),
                result_meta_xdr: String::new(),
                diagnostic_events_xdr: None,
                events,
            })),
        }
    }

    /// The network the sandbox runs.
    pub fn get_network_info(&self) -> (r: NetworkInfo)
        ensures
            r.passphrase@ == NETWORK_PASSPHRASE@,
            r.protocol_version == self.ledger().protocol_version,
    {
        NetworkInfo { passphrase: NETWORK_PASSPHRASE.to_owned(), protocol_version: self.ledger_info.protocol_version }
    }
}

} // verus!
