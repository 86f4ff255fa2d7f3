//! The responses the sandbox gives, in the shape of the Stellar RPC responses.
//! Outside values are held as XDR bytes or their base64 text.

use soroban_env_common::xdr::{
    InvokeHostFunctionResult, Limits, OperationResult, OperationResultTr, TransactionResult,
    TransactionResultResult, WriteXdr,
};
use vstd::prelude::*;

verus! {

/// The result code of a transaction, as far as the sandbox produces one.
#[derive(Clone, Copy, Debug)]
pub enum TxResultCode {
    /// `TxSuccess` with one `InvokeHostFunctionResult::Success` of the given hash.
    TxSuccess { hash: [u8; 32] },
    /// `TxFailed` with one `InvokeHostFunctionResult::Trapped`.
    TxFailed,
}

/// `TransactionResult::to_xdr_base64` of a result with the given fee and code.
pub uninterp spec fn xdr_transaction_result_base64(fee_charged: i64, code: TxResultCode) -> Seq<char>;

/// Calls `TransactionResult::to_xdr_base64` on the result with the given fee
/// and code (an encoding into a growing buffer with no limits, which cannot fail).
#[verifier::external_body]
pub(crate) fn transaction_result_base64(fee_charged: i64, code: TxResultCode) -> (r: String)
    ensures
        r@ == xdr_transaction_result_base64(fee_charged, code),
{
    let result = match code {
        TxResultCode::TxSuccess { hash } => TransactionResultResult::TxSuccess(
            vec![OperationResult::OpInner(OperationResultTr::InvokeHostFunction(InvokeHostFunctionResult::Success(soroban_env_common::xdr::Hash(hash))))].try_into().unwrap(),
        ),
        TxResultCode::TxFailed => TransactionResultResult::TxFailed(
            vec![OperationResult::OpInner(OperationResultTr::InvokeHostFunction(InvokeHostFunctionResult::Trapped))].try_into().unwrap(),
        ),
    };
    TransactionResult { fee_charged, result, ext: Default::default() }.to_xdr_base64(Limits::none()).unwrap()
}

/// A transaction result: the fee charged and the result code.
#[derive(Clone, Copy, Debug)]
pub struct TransactionResultModel {
    pub fee_charged: i64,
    pub result: TxResultCode,
}

/// A diagnostic event: whether it was emitted by a successful contract call,
/// and the XDR of the contract event.
pub struct DiagnosticEventRecord {
    pub in_successful_contract_call: bool,
    pub event: Vec<u8>,
}

/// The view of a diagnostic event.
pub struct EventView {
    pub in_successful_contract_call: bool,
    pub event: Seq<u8>,
}

impl View for DiagnosticEventRecord {
    type V = EventView;

    open spec fn view(&self) -> EventView {
        EventView { in_successful_contract_call: self.in_successful_contract_call, event: self.event@ }
    }
}

pub open spec fn events_view(events: Seq<DiagnosticEventRecord>) -> Seq<EventView> {
    events.map_values(|e: DiagnosticEventRecord| e@)
}

/// Status of a submitted transaction.
#[derive(PartialEq, Eq, Structural, Clone, Copy, Debug)]
pub enum SendTransactionStatus {
    Pending,
    Duplicate,
    TryAgainLater,
    Error,
}

pub struct BaseSendTransactionResponse {
    pub status: SendTransactionStatus,
    pub hash: String,
    pub latest_ledger: u32,
    pub latest_ledger_close_time: u64,
}

/// The answer to a submitted transaction.
pub struct SendTransactionResponse {
    pub base: BaseSendTransactionResponse,
    /// The failed result, when the invocation failed.
    pub error_result: Option<TransactionResultModel>,
    /// The events, when the invocation failed.
    pub diagnostic_events: Option<Vec<DiagnosticEventRecord>>,
}

/// A ledger entry as the RPC returns it.
pub struct LedgerEntryResult {
    pub last_modified_ledger_seq: Option<u32>,
    /// Base64 XDR of the ledger key.
    pub key: String,
    /// Base64 XDR of the entry's data.
    pub val: String,
    pub live_until_ledger_seq: Option<u32>,
}

/// The events of a transaction.
pub struct TransactionEvents {
    pub transaction_events_xdr: Vec<String>,
    /// XDR of the contract events, grouped by operation.
    pub contract_events_xdr: Vec<Vec<Vec<u8>>>,
}

pub struct GetMissingTransactionResponse {
    pub tx_hash: String,
    pub latest_ledger: u32,
    pub latest_ledger_close_time: u64,
    pub oldest_ledger: u32,
    pub oldest_ledger_close_time: u64,
}

pub struct GetSuccessfulTransactionResponse {
    pub tx_hash: String,
    pub latest_ledger: u32,
    pub latest_ledger_close_time: u64,
    pub oldest_ledger: u32,
    pub oldest_ledger_close_time: u64,
    pub ledger: u32,
    pub created_at: u64,
    pub application_order: u32,
    pub fee_bump: bool,
    pub envelope_xdr: String,
    pub result_xdr: String,
    pub result_meta_xdr: String,
    pub diagnostic_events_xdr: Option<Vec<String>>,
    /// XDR of the returned value.
    pub return_value: Option<Vec<u8>>,
    pub events: TransactionEvents,
}

pub struct GetFailedTransactionResponse {
    pub tx_hash: String,
    pub latest_ledger: u32,
    pub latest_ledger_close_time: u64,
    pub oldest_ledger: u32,
    pub oldest_ledger_close_time: u64,
    pub ledger: u32,
    pub created_at: u64,
    pub application_order: u32,
    pub fee_bump: bool,
    pub envelope_xdr: String,
    pub result_xdr: String,
    pub result_meta_xdr: String,
    pub diagnostic_events_xdr: Option<Vec<String>>,
    pub events: TransactionEvents,
}

/// The answer to a transaction lookup.
pub enum GetTransactionResponse {
    Success(GetSuccessfulTransactionResponse),
    NotFound(GetMissingTransactionResponse),
    Failed(GetFailedTransactionResponse),
}

/// The kind of a ledger entry change (`LedgerEntryChangeType`).
#[derive(PartialEq, Eq, Structural, Clone, Copy, Debug)]
pub enum LedgerEntryChangeType {
    Created,
    Updated,
    Removed,
    State,
    Restored,
}

/// A change of a ledger entry in a simulation.
pub struct LedgerEntryChange {
    pub change_type: LedgerEntryChangeType,
    /// XDR of the ledger key.
    pub key: Vec<u8>,
    /// XDR of the entry before and after.
    pub before: Option<Vec<u8>>,
    pub after: Option<Vec<u8>>,
}

/// The value and authorization entries of a simulated invocation.
pub struct SimulateHostFunctionResult {
    /// Base64 XDR of the returned `ScVal`.
    pub retval: String,
    /// Base64 XDR of each authorization entry.
    pub auth: Vec<String>,
}

pub struct SimulateTransactionSuccessResponse {
    pub id: String,
    pub latest_ledger: u32,
    pub events: Vec<DiagnosticEventRecord>,
    pub min_resource_fee: i64,
    pub parsed: bool,
    pub result: Option<SimulateHostFunctionResult>,
    pub state_changes: Option<Vec<LedgerEntryChange>>,
    /// Base64 XDR of the `SorobanTransactionData`.
    pub transaction_data: String,
}

pub struct SimulateTransactionErrorResponse {
    pub error: String,
    pub id: String,
    pub parsed: bool,
    pub events: Vec<DiagnosticEventRecord>,
    pub latest_ledger: u32,
}

/// The answer to a simulation.
pub enum SimulateTransactionResponse {
    Success(SimulateTransactionSuccessResponse),
    Error(SimulateTransactionErrorResponse),
}

} // verus!
