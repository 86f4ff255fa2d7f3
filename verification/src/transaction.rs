//! The library's model of a Stellar V1 transaction envelope: the values that
//! validation and execution read, decoded from the envelope's XDR by trusted
//! calls into stellar-xdr, with the XDR kept beside them.

use soroban_env_common::xdr::{
    Limits, OperationBody, Preconditions as XdrPreconditions, PublicKey, ReadXdr,
    SorobanTransactionDataExt, TransactionEnvelope as XdrTransactionEnvelope, TransactionExt,
    Transaction, TransactionSignaturePayload, TransactionSignaturePayloadTaggedTransaction,
    TransactionV1Envelope, Uint256, WriteXdr,
};
use vstd::prelude::*;

use crate::xdr::xdr_ledger_key;

verus! {

/// The preconditions of a transaction, as far as the library reads them.
#[derive(PartialEq, Eq, Structural, Clone, Copy, Debug)]
pub enum Preconditions {
    /// `Preconditions::None`.
    Unconditional,
    /// `Preconditions::Time`.
    TimeBounds { min_time: u64, max_time: u64 },
    /// `Preconditions::V2`.
    V2,
}

/// The fixed-size fields of a transaction envelope.
#[derive(Clone, Copy, Debug)]
pub struct TxHeader {
    /// Ed25519 key of the source account (the account behind a muxed source).
    pub source_account: [u8; 32],
    pub fee: u32,
    pub seq_num: i64,
    pub cond: Preconditions,
    pub operation_count: usize,
    pub signature_count: usize,
}

/// A decorated signature: the last four bytes of the signer's key and the signature.
#[verifier::ext_equal]
pub struct SignatureView {
    pub hint: Seq<u8>,
    pub signature: Seq<u8>,
}

/// An operation of the transaction.
#[verifier::ext_equal]
pub enum OperationView {
    InvokeHostFunction { host_function: Seq<u8>, auth: Seq<Seq<u8>> },
    Other,
}

/// The Soroban data of a transaction (`TransactionExt::V1`).
#[verifier::ext_equal]
pub struct SorobanDataView {
    /// XDR of the `SorobanResources`.
    pub resources: Seq<u8>,
    /// XDR of each read-only footprint key.
    pub read_only: Seq<Seq<u8>>,
    /// XDR of each read-write footprint key.
    pub read_write: Seq<Seq<u8>>,
    /// The archived entry indices of a `SorobanTransactionDataExt::V1`; `None` for V0.
    pub archived_entries: Option<Seq<u32>>,
}

/// What the library reads of a `TransactionV1Envelope`.
#[verifier::ext_equal]
pub struct EnvelopeView {
    /// The XDR of the envelope's `Transaction` (`tx`), which its signatures sign.
    pub transaction: Seq<u8>,
    pub header: TxHeader,
    pub signatures: Seq<SignatureView>,
    pub operations: Seq<OperationView>,
    pub soroban_data: Option<SorobanDataView>,
}

/// `TransactionV1Envelope::from_xdr` on the given bytes, read as an `EnvelopeView`.
pub uninterp spec fn xdr_tx_envelope(envelope: Seq<u8>) -> Option<EnvelopeView>;

/// `TransactionEnvelope::from_xdr_base64`: `None` when it fails, `Some(None)`
/// for an envelope other than `Tx`, `Some(Some(xdr))` with the XDR of the
/// `TransactionV1Envelope` otherwise.
pub uninterp spec fn xdr_transaction_envelope_base64(text: Seq<char>) -> Option<Option<Seq<u8>>>;

/// Whether `Transaction::from_xdr` decodes the bytes.
pub uninterp spec fn xdr_transaction_decodes(transaction: Seq<u8>) -> bool;

/// The XDR of the `TransactionSignaturePayload` of a transaction (given as
/// XDR) on the given network.
pub uninterp spec fn xdr_signature_payload(network_id: Seq<u8>, transaction: Seq<u8>) -> Seq<u8>;

/// `TransactionEnvelope::Tx(envelope).to_xdr_base64`.
pub uninterp spec fn xdr_envelope_base64(envelope: Seq<u8>) -> Option<Seq<char>>;

/// The XDR of the `AccountId` of an Ed25519 key: the key type
/// (`PUBLIC_KEY_TYPE_ED25519`, 0) as a 4-byte big-endian integer, then the key.
pub open spec fn xdr_account_id(account_key: Seq<u8>) -> Seq<u8> {
    seq![0u8, 0u8, 0u8, 0u8] + account_key
}

/// Exec form of `SignatureView`.
pub struct DecoratedSignature {
    pub hint: [u8; 4],
    pub signature: Vec<u8>,
}

impl View for DecoratedSignature {
    type V = SignatureView;

    open spec fn view(&self) -> SignatureView {
        SignatureView { hint: self.hint@, signature: self.signature@ }
    }
}

pub open spec fn seqs_view(v: Seq<Vec<u8>>) -> Seq<Seq<u8>> {
    v.map_values(|b: Vec<u8>| b@)
}

/// Exec form of `OperationView`.
pub enum Operation {
    InvokeHostFunction { host_function: Vec<u8>, auth: Vec<Vec<u8>> },
    Other,
}

impl View for Operation {
    type V = OperationView;

    open spec fn view(&self) -> OperationView {
        match self {
            Operation::InvokeHostFunction { host_function, auth } => OperationView::InvokeHostFunction {
                host_function: host_function@,
                auth: seqs_view(auth@),
            },
            Operation::Other => OperationView::Other,
        }
    }
}

/// Exec form of `SorobanDataView`.
pub struct SorobanData {
    pub resources: Vec<u8>,
    pub read_only: Vec<Vec<u8>>,
    pub read_write: Vec<Vec<u8>>,
    pub archived_entries: Option<Vec<u32>>,
}

pub open spec fn indices_view(v: Option<Vec<u32>>) -> Option<Seq<u32>> {
    match v {
        Some(x) => Some(x@),
        None => None,
    }
}

impl View for SorobanData {
    type V = SorobanDataView;

    open spec fn view(&self) -> SorobanDataView {
        SorobanDataView {
            resources: self.resources@,
            read_only: seqs_view(self.read_only@),
            read_write: seqs_view(self.read_write@),
            archived_entries: indices_view(self.archived_entries),
        }
    }
}

/// Calls `TransactionV1Envelope::from_xdr` and reads the fixed-size fields.
#[verifier::external_body]
fn envelope_header(envelope: &[u8]) -> (r: Result<TxHeader, soroban_env_common::xdr::Error>)
    ensures
        r is Ok <==> xdr_tx_envelope(envelope@) is Some,
        r matches Ok(h) ==> {
            let v = xdr_tx_envelope(envelope@).unwrap();
            &&& h == v.header
            &&& h.operation_count == v.operations.len()
            &&& h.signature_count == v.signatures.len()
        },
{
    let e = TransactionV1Envelope::from_xdr(envelope, Limits::none())?;
    let PublicKey::PublicKeyTypeEd25519(Uint256(source_account)) = e.tx.source_account.account_id().0;
    let cond = match e.tx.cond {
        XdrPreconditions::None => Preconditions::Unconditional,
        XdrPreconditions::Time(t) => Preconditions::TimeBounds { min_time: t.min_time.0, max_time: t.max_time.0 },
        XdrPreconditions::V2(_) => Preconditions::V2,
    };
    let (operation_count, signature_count) = (e.tx.operations.len(), e.signatures.len());
    Ok(TxHeader { source_account, fee: e.tx.fee, seq_num: e.tx.seq_num.0, cond, operation_count, signature_count })
}

/// Calls `TransactionV1Envelope::from_xdr` and reads the signature at `index`
/// (the envelope decodes, so this cannot fail).
#[verifier::external_body]
fn envelope_signature(envelope: &[u8], index: usize) -> (r: Result<DecoratedSignature, soroban_env_common::xdr::Error>)
    requires
        xdr_tx_envelope(envelope@) matches Some(v) && index < v.signatures.len(),
    ensures
        r is Ok,
        r matches Ok(s) ==> s@ == xdr_tx_envelope(envelope@).unwrap().signatures[index as int],
{
    let e = TransactionV1Envelope::from_xdr(envelope, Limits::none())?;
    let s = &e.signatures[index];
    Ok(DecoratedSignature { hint: s.hint.0, signature: s.signature.0.to_vec() })
}

/// Calls `TransactionV1Envelope::from_xdr` and reads the operation at `index`,
/// encoding its host function and authorization entries as XDR (the envelope
/// decodes, and encoding with no limits cannot fail).
#[verifier::external_body]
fn envelope_operation(envelope: &[u8], index: usize) -> (r: Result<Operation, soroban_env_common::xdr::Error>)
    requires
        xdr_tx_envelope(envelope@) matches Some(v) && index < v.operations.len(),
    ensures
        r is Ok,
        r matches Ok(op) ==> op@ == xdr_tx_envelope(envelope@).unwrap().operations[index as int],
{
    let e = TransactionV1Envelope::from_xdr(envelope, Limits::none())?;
    let OperationBody::InvokeHostFunction(op) = &e.tx.operations[index].body else {
        return Ok(Operation::Other);
    };
    let auth = op.auth.iter().map(|a| a.to_xdr(Limits::none())).collect::<Result<Vec<_>, _>>()?;
    Ok(Operation::InvokeHostFunction { host_function: op.host_function.to_xdr(Limits::none())?, auth })
}

/// Calls `TransactionV1Envelope::from_xdr` and reads the Soroban data of a
/// `TransactionExt::V1`, encoding resources and footprint keys as XDR (the
/// envelope decodes, and encoding with no limits cannot fail).
#[verifier::external_body]
fn envelope_soroban_data(envelope: &[u8]) -> (r: Result<Option<SorobanData>, soroban_env_common::xdr::Error>)
    requires
        xdr_tx_envelope(envelope@) is Some,
    ensures
        r is Ok,
        r matches Ok(d) ==> bytes_data_view(d) == xdr_tx_envelope(envelope@).unwrap().soroban_data,
        r matches Ok(d) ==> d matches Some(x) ==> footprint_keys_decode(x@),
{
    let TransactionExt::V1(d) = TransactionV1Envelope::from_xdr(envelope, Limits::none())?.tx.ext else {
        return Ok(None);
    };
    let keys = |k: &[soroban_env_common::xdr::LedgerKey]| k.iter().map(|k| k.to_xdr(Limits::none())).collect::<Result<Vec<_>, _>>();
    let archived_entries = match d.ext {
        SorobanTransactionDataExt::V0 => None,
        SorobanTransactionDataExt::V1(x) => Some(x.archived_soroban_entries.to_vec()),
    };
    let (read_only, read_write) = (keys(&d.resources.footprint.read_only)?, keys(&d.resources.footprint.read_write)?);
    Ok(Some(SorobanData { resources: d.resources.to_xdr(Limits::none())?, read_only, read_write, archived_entries }))
}

/// Every footprint key decodes as a ledger key.
pub open spec fn footprint_keys_decode(d: SorobanDataView) -> bool {
    &&& forall|i: int| 0 <= i < d.read_only.len() ==> #[trigger] xdr_ledger_key(d.read_only[i]) is Some
    &&& forall|i: int| 0 <= i < d.read_write.len() ==> #[trigger] xdr_ledger_key(d.read_write[i]) is Some
}

pub open spec fn bytes_data_view(d: Option<SorobanData>) -> Option<SorobanDataView> {
    match d {
        Some(x) => Some(x@),
        None => None,
    }
}

/// Calls `TransactionEnvelope::from_xdr_base64`; for a `Tx` envelope gives the
/// XDR of its `TransactionV1Envelope` (which decodes again), for another
/// envelope `None`.
#[verifier::external_body]
pub(crate) fn decode_envelope_base64(text: &str) -> (r: Result<Option<Vec<u8>>, soroban_env_common::xdr::Error>)
    ensures
        r is Ok <==> xdr_transaction_envelope_base64(text@) is Some,
        r matches Ok(o) ==> match o {
            Some(b) => xdr_transaction_envelope_base64(text@) == Some(Some(b@)) && xdr_tx_envelope(b@) is Some,
            None => xdr_transaction_envelope_base64(text@) == Some(None::<Seq<u8>>),
        },
{
    match XdrTransactionEnvelope::from_xdr_base64(text, Limits::none())? {
        XdrTransactionEnvelope::Tx(e) => Ok(Some(e.to_xdr(Limits::none())?)),
        _ => Ok(None),
    }
}

/// Calls `Transaction::from_xdr`, then `TransactionSignaturePayload::to_xdr`
/// for the transaction (tagged `Tx`) on the given network: it succeeds for a
/// transaction that decodes (encoding with no limits cannot fail).
#[verifier::external_body]
pub(crate) fn signature_payload(network_id: &[u8; 32], transaction: &[u8]) -> (r: Result<Vec<u8>, soroban_env_common::xdr::Error>)
    ensures
        xdr_transaction_decodes(transaction@) ==> r is Ok,
        r matches Ok(p) ==> p@ == xdr_signature_payload(network_id@, transaction@),
{
    let tx = Transaction::from_xdr(transaction, Limits::none())?;
    let payload = TransactionSignaturePayload {
        network_id: soroban_env_common::xdr::Hash(*network_id),
        tagged_transaction: TransactionSignaturePayloadTaggedTransaction::Tx(tx),
    };
    payload.to_xdr(Limits::none())
}

/// Calls `TransactionV1Envelope::from_xdr` and `Transaction::to_xdr` on its
/// transaction (the envelope decodes, and encoding with no limits cannot
/// fail); the XDR it gives decodes again with `Transaction::from_xdr`.
#[verifier::external_body]
fn envelope_transaction(envelope: &[u8]) -> (r: Result<Vec<u8>, soroban_env_common::xdr::Error>)
    requires
        xdr_tx_envelope(envelope@) is Some,
    ensures
        r is Ok,
        r matches Ok(t) ==> t@ == xdr_tx_envelope(envelope@).unwrap().transaction && xdr_transaction_decodes(t@),
{
    TransactionV1Envelope::from_xdr(envelope, Limits::none())?.tx.to_xdr(Limits::none())
}

/// Calls `TransactionEnvelope::to_xdr_base64` on `TransactionEnvelope::Tx` of
/// the envelope (for an envelope that decodes, encoding with no limits cannot fail).
#[verifier::external_body]
pub(crate) fn envelope_base64(envelope: &[u8]) -> (r: Result<String, soroban_env_common::xdr::Error>)
    ensures
        r is Ok <==> xdr_envelope_base64(envelope@) is Some,
        xdr_tx_envelope(envelope@) is Some ==> r is Ok,
        r matches Ok(s) ==> s@ == xdr_envelope_base64(envelope@).unwrap(),
{
    let e = TransactionV1Envelope::from_xdr(envelope, Limits::none())?;
    XdrTransactionEnvelope::Tx(e).to_xdr_base64(Limits::none())
}

/// The XDR of the `AccountId` of an Ed25519 key (`xdr_account_id`).
pub(crate) fn account_id_xdr(account_key: &[u8; 32]) -> (r: Vec<u8>)
    ensures
        r@ == xdr_account_id(account_key@),
{
    let mut r: Vec<u8> = vec![0u8, 0u8, 0u8, 0u8];
    crate::bytes::append_bytes(&mut r, account_key);
    assert(r@ =~= xdr_account_id(account_key@));
    r
}

pub open spec fn signatures_view(s: Seq<DecoratedSignature>) -> Seq<SignatureView> {
    s.map_values(|x: DecoratedSignature| x@)
}

pub open spec fn operations_view(s: Seq<Operation>) -> Seq<OperationView> {
    s.map_values(|x: Operation| x@)
}

/// A decoded V1 transaction envelope: its XDR and what the library reads of
/// it, which is always what decoding the XDR gives.
pub struct Envelope {
    xdr: Vec<u8>,
    transaction: Vec<u8>,
    header: TxHeader,
    signatures: Vec<DecoratedSignature>,
    operations: Vec<Operation>,
    soroban_data: Option<SorobanData>,
}

impl View for Envelope {
    type V = EnvelopeView;

    closed spec fn view(&self) -> EnvelopeView {
        EnvelopeView {
            transaction: self.transaction@,
            header: self.header,
            signatures: signatures_view(self.signatures@),
            operations: operations_view(self.operations@),
            soroban_data: bytes_data_view(self.soroban_data),
        }
    }
}

impl Envelope {
    /// The XDR of the `TransactionV1Envelope`.
    pub closed spec fn spec_xdr(&self) -> Seq<u8> {
        self.xdr@
    }

    #[verifier::type_invariant]
    spec fn inv(self) -> bool {
        &&& xdr_tx_envelope(self.xdr@) == Some(self@)
        &&& xdr_transaction_decodes(self@.transaction)
        &&& self@.soroban_data matches Some(d) ==> footprint_keys_decode(d)
    }

    /// The envelope's parts are what decoding its XDR gives.
    pub fn check_wf(&self)
        ensures
            xdr_tx_envelope(self.spec_xdr()) == Some(self@),
            xdr_transaction_decodes(self@.transaction),
            self@.soroban_data matches Some(d) ==> footprint_keys_decode(d),
    {
        proof {
            use_type_invariant(self);
        }
    }

    /// The XDR of the envelope's `Transaction`.
    pub fn transaction(&self) -> (r: &Vec<u8>)
        ensures
            r@ == self@.transaction,
    {
        &self.transaction
    }

    /// The XDR of the `TransactionV1Envelope`.
    pub fn xdr(&self) -> (r: &Vec<u8>)
        ensures
            r@ == self.spec_xdr(),
    {
        &self.xdr
    }

    /// The fixed-size fields.
    pub fn header(&self) -> (r: TxHeader)
        ensures
            r == self@.header,
    {
        self.header
    }

    /// The signatures.
    pub fn signatures(&self) -> (r: &Vec<DecoratedSignature>)
        ensures
            signatures_view(r@) == self@.signatures,
    {
        &self.signatures
    }

    /// The operations.
    pub fn operations(&self) -> (r: &Vec<Operation>)
        ensures
            operations_view(r@) == self@.operations,
    {
        &self.operations
    }

    /// The Soroban data, if the transaction has any.
    pub fn soroban_data(&self) -> (r: &Option<SorobanData>)
        ensures
            bytes_data_view(*r) == self@.soroban_data,
    {
        &self.soroban_data
    }

    /// Decodes the parts of a `TransactionV1Envelope` given as XDR.
    pub fn from_xdr(xdr: Vec<u8>) -> (r: Result<Envelope, soroban_env_common::xdr::Error>)
        ensures
            r is Ok <==> xdr_tx_envelope(xdr@) is Some,
            r matches Ok(e) ==> e.spec_xdr() == xdr@ && xdr_tx_envelope(xdr@) == Some(e@)
                && xdr_transaction_decodes(e@.transaction)
                && (e@.soroban_data matches Some(d) ==> footprint_keys_decode(d)),
            xdr_tx_envelope(xdr@) is None ==> r is Err,
    {
        let header = envelope_header(&xdr)?;
        let ghost v = xdr_tx_envelope(xdr@).unwrap();
        let mut signatures: Vec<DecoratedSignature> = Vec::new();
        let mut i: usize = 0;
        while i < header.signature_count
            invariant
                xdr_tx_envelope(xdr@) == Some(v),
                header == v.header,
                header.signature_count == v.signatures.len(),
                i <= header.signature_count,
                signatures@.len() == i,
                signatures_view(signatures@) =~= v.signatures.take(i as int),
            decreases header.signature_count - i,
        {
            let s = envelope_signature(&xdr, i)?;
            let ghost prev = signatures@;
            signatures.push(s);
            assert forall|k: int| 0 <= k < i + 1 implies #[trigger] signatures_view(signatures@)[k]
                == v.signatures.take(i + 1)[k] by {
                if k < i {
                    assert(signatures_view(prev)[k] == v.signatures.take(i as int)[k]);
                }
            }
            i = i + 1;
            assert(signatures_view(signatures@) =~= v.signatures.take(i as int));
        }
        let mut operations: Vec<Operation> = Vec::new();
        let mut j: usize = 0;
        while j < header.operation_count
            invariant
                xdr_tx_envelope(xdr@) == Some(v),
                header.operation_count == v.operations.len(),
                j <= header.operation_count,
                operations@.len() == j,
                operations_view(operations@) =~= v.operations.take(j as int),
            decreases header.operation_count - j,
        {
            let op = envelope_operation(&xdr, j)?;
            let ghost prev = operations@;
            operations.push(op);
            assert forall|k: int| 0 <= k < j + 1 implies #[trigger] operations_view(operations@)[k]
                == v.operations.take(j + 1)[k] by {
                if k < j {
                    assert(operations_view(prev)[k] == v.operations.take(j as int)[k]);
                }
            }
            j = j + 1;
            assert(operations_view(operations@) =~= v.operations.take(j as int));
        }
        let soroban_data = envelope_soroban_data(&xdr)?;
        let transaction = envelope_transaction(&xdr)?;
        assert(v.signatures.take(v.signatures.len() as int) =~= v.signatures);
        assert(v.operations.take(v.operations.len() as int) =~= v.operations);
        assert(EnvelopeView {
            transaction: transaction@,
            header,
            signatures: signatures_view(signatures@),
            operations: operations_view(operations@),
            soroban_data: bytes_data_view(soroban_data),
        } =~= v);
        let e = Envelope { xdr, transaction, header, signatures, operations, soroban_data };
        Ok(e)
    }
}

} // verus!
