//! The Stellar XDR values the library reads or builds. Outside values are held
//! in the library as their canonical XDR encoding (`Vec<u8>`); the functions
//! here are trusted calls into `soroban_env_common::xdr` (stellar-xdr) that
//! decode such an encoding into plain values or encode plain values.

use soroban_env_common::xdr::{
    AccountEntry, AccountEntryExt, AccountId, ContractCodeEntryExt, ContractDataDurability, LedgerEntry,
    LedgerEntryData, LedgerKey, LedgerKeyContractData, Limits, PublicKey, ReadXdr, ScAddress,
    ScVal, SequenceNumber, SignerKey, String32, Thresholds, Uint256, WriteXdr,
};
use vstd::prelude::*;

verus! {

/// Error type of stellar-xdr (`soroban_env_common::xdr::Error`).
#[verifier::external_type_specification]
#[verifier::external_body]
pub struct ExXdrError(soroban_env_common::xdr::Error);

/// Error type of `serde_json`.
#[verifier::external_type_specification]
#[verifier::external_body]
pub struct ExJsonError(serde_json::Error);

// ----------------------------------------------------------------------------
// Ledger entries

/// What the library reads of an account ledger entry.
pub struct AccountView {
    pub account_key: Seq<u8>,
    pub balance: i64,
    pub seq_num: i64,
    /// One item per signer: the Ed25519 key of an Ed25519 signer, `None` for a
    /// signer of any other kind.
    pub signers: Seq<Option<Seq<u8>>>,
}

/// The kind of a ledger entry.
#[derive(PartialEq, Eq, Structural, Clone, Copy, Debug)]
pub enum EntryKind {
    Account,
    ContractData,
    ContractCode,
    Other,
}

/// What the library reads of a ledger entry.
pub struct LedgerEntryView {
    /// The XDR of the entry's own ledger key (`LedgerEntry::to_key`).
    pub key: Seq<u8>,
    pub last_modified: u32,
    pub kind: EntryKind,
    /// Present exactly for account entries.
    pub account: Option<AccountView>,
    /// Present exactly for contract code entries.
    pub code: Option<CodeView>,
}

/// What the library reads of a contract code entry.
pub struct CodeView {
    pub code: Seq<u8>,
    /// The XDR of the `ContractCodeCostInputs` of a V1 entry; `None` for V0.
    pub cost_inputs: Option<Seq<u8>>,
}

/// `LedgerEntry::from_xdr` on the given bytes, read as a `LedgerEntryView`.
pub uninterp spec fn xdr_ledger_entry(entry: Seq<u8>) -> Option<LedgerEntryView>;

/// The XDR of `LedgerKey::Account` for the given Ed25519 account key: the
/// entry type (`ACCOUNT`, 0) as a 4-byte big-endian integer, then the XDR of
/// the `AccountId`.
pub open spec fn xdr_account_ledger_key(account_key: Seq<u8>) -> Seq<u8> {
    seq![0u8, 0u8, 0u8, 0u8] + crate::transaction::xdr_account_id(account_key)
}

/// The XDR of a fresh account entry (`e2e_testutils::ledger_entry` of an
/// `AccountEntry` with the given fields, no signers and no extension).
pub uninterp spec fn xdr_new_account_entry(
    account_key: Seq<u8>,
    balance: i64,
    seq_num: i64,
    thresholds: Seq<u8>,
    flags: u32,
    num_sub_entries: u32,
    inflation_dest: Option<Seq<u8>>,
    home_domain: Seq<u8>,
) -> Seq<u8>;

/// The XDR of an account entry with its sequence number, balance and
/// last-modified ledger replaced.
pub uninterp spec fn xdr_account_entry_update(entry: Seq<u8>, seq_num: i64, balance: i64, last_modified: u32) -> Option<Seq<u8>>;

/// `LedgerEntryData::to_xdr_base64` of the entry's data.
pub uninterp spec fn xdr_entry_data_base64(entry: Seq<u8>) -> Option<Seq<char>>;

/// `serde_json::to_string` of the `AccountEntry` inside an account entry
/// (`None` when serialization fails).
pub uninterp spec fn json_account_entry(entry: Seq<u8>) -> Option<Seq<char>>;

/// Exec form of `AccountView`.
pub struct AccountInfo {
    pub account_key: [u8; 32],
    pub balance: i64,
    pub seq_num: i64,
    pub signers: Vec<Option<[u8; 32]>>,
}

pub open spec fn signer_view(s: Option<[u8; 32]>) -> Option<Seq<u8>> {
    match s {
        Some(k) => Some(k@),
        None => None,
    }
}

impl View for AccountInfo {
    type V = AccountView;

    open spec fn view(&self) -> AccountView {
        AccountView {
            account_key: self.account_key@,
            balance: self.balance,
            seq_num: self.seq_num,
            signers: self.signers@.map_values(|s: Option<[u8; 32]>| signer_view(s)),
        }
    }
}

/// Exec form of `CodeView`.
pub struct CodeInfo {
    pub code: Vec<u8>,
    pub cost_inputs: Option<Vec<u8>>,
}

pub open spec fn bytes_view(b: Option<Vec<u8>>) -> Option<Seq<u8>> {
    match b {
        Some(v) => Some(v@),
        None => None,
    }
}

impl View for CodeInfo {
    type V = CodeView;

    open spec fn view(&self) -> CodeView {
        CodeView { code: self.code@, cost_inputs: bytes_view(self.cost_inputs) }
    }
}

/// The kind and last-modified ledger of an entry.
#[derive(Clone, Copy, Debug)]
pub struct EntrySummary {
    pub kind: EntryKind,
    pub last_modified: u32,
}

/// Calls `LedgerEntry::from_xdr`, `LedgerEntry::to_key` and `LedgerKey::to_xdr`:
/// the XDR of the entry's own key.
#[verifier::external_body]
pub(crate) fn ledger_entry_key(entry: &[u8]) -> (r: Result<Vec<u8>, soroban_env_common::xdr::Error>)
    ensures
        r is Ok <==> xdr_ledger_entry(entry@) is Some,
        r matches Ok(k) ==> k@ == xdr_ledger_entry(entry@).unwrap().key,
{
    LedgerEntry::from_xdr(entry, Limits::none())?.to_key().to_xdr(Limits::none())
}

/// Calls `LedgerEntry::from_xdr` and reads the entry's kind and last-modified ledger.
#[verifier::external_body]
pub(crate) fn ledger_entry_summary(entry: &[u8]) -> (r: Result<EntrySummary, soroban_env_common::xdr::Error>)
    ensures
        r is Ok <==> xdr_ledger_entry(entry@) is Some,
        r matches Ok(s) ==> s.kind == xdr_ledger_entry(entry@).unwrap().kind
            && s.last_modified == xdr_ledger_entry(entry@).unwrap().last_modified,
{
    let e = LedgerEntry::from_xdr(entry, Limits::none())?;
    let kind = match e.data {
        LedgerEntryData::Account(_) => EntryKind::Account,
        LedgerEntryData::ContractData(_) => EntryKind::ContractData,
        LedgerEntryData::ContractCode(_) => EntryKind::ContractCode,
        _ => EntryKind::Other,
    };
    Ok(EntrySummary { kind, last_modified: e.last_modified_ledger_seq })
}

/// Calls `LedgerEntry::from_xdr` and reads the account of an account entry
/// (`None` for any other kind of entry).
#[verifier::external_body]
pub(crate) fn ledger_entry_account(entry: &[u8]) -> (r: Result<Option<AccountInfo>, soroban_env_common::xdr::Error>)
    ensures
        r is Ok <==> xdr_ledger_entry(entry@) is Some,
        r matches Ok(a) ==> (a is Some <==> xdr_ledger_entry(entry@).unwrap().kind == EntryKind::Account)
            && (a matches Some(acc) ==> xdr_ledger_entry(entry@).unwrap().account == Some(acc@))
            && (a is None ==> xdr_ledger_entry(entry@).unwrap().account is None),
{
    let LedgerEntryData::Account(a) = LedgerEntry::from_xdr(entry, Limits::none())?.data else {
        return Ok(None);
    };
    let PublicKey::PublicKeyTypeEd25519(Uint256(account_key)) = a.account_id.0;
    let signers = a.signers.iter().map(|s| match &s.key {
        SignerKey::Ed25519(Uint256(k)) => Some(*k),
        _ => None,
    }).collect();
    Ok(Some(AccountInfo { account_key, balance: a.balance, seq_num: a.seq_num.0, signers }))
}

/// Calls `LedgerEntry::from_xdr` and reads the code of a contract code entry
/// (`None` for any other kind of entry).
#[verifier::external_body]
pub(crate) fn ledger_entry_code(entry: &[u8]) -> (r: Result<Option<CodeInfo>, soroban_env_common::xdr::Error>)
    ensures
        r is Ok <==> xdr_ledger_entry(entry@) is Some,
        r matches Ok(c) ==> (c is Some <==> xdr_ledger_entry(entry@).unwrap().kind == EntryKind::ContractCode)
            && (c matches Some(ci) ==> xdr_ledger_entry(entry@).unwrap().code == Some(ci@))
            && (c is None ==> xdr_ledger_entry(entry@).unwrap().code is None),
{
    let LedgerEntryData::ContractCode(c) = LedgerEntry::from_xdr(entry, Limits::none())?.data else {
        return Ok(None);
    };
    let cost_inputs = match &c.ext {
        ContractCodeEntryExt::V0 => None,
        ContractCodeEntryExt::V1(v1) => Some(v1.cost_inputs.to_xdr(Limits::none())?),
    };
    Ok(Some(CodeInfo { code: c.code.to_vec(), cost_inputs }))
}

/// Calls `LedgerEntryData::to_xdr_base64` on the data of the decoded entry
/// (for an entry that decodes, encoding with no limits cannot fail).
#[verifier::external_body]
pub(crate) fn ledger_entry_data_base64(entry: &[u8]) -> (r: Result<String, soroban_env_common::xdr::Error>)
    ensures
        r is Ok <==> xdr_entry_data_base64(entry@) is Some,
        xdr_ledger_entry(entry@) is Some ==> r is Ok,
        r matches Ok(s) ==> s@ == xdr_entry_data_base64(entry@).unwrap(),
{
    LedgerEntry::from_xdr(entry, Limits::none())?.data.to_xdr_base64(Limits::none())
}

/// Calls `serde_json::to_string` on the `AccountEntry` of an account entry
/// (`None` for an entry of any other kind).
#[verifier::external_body]
pub(crate) fn account_entry_json(entry: &[u8]) -> (r: Result<Option<String>, serde_json::Error>)
    requires
        xdr_ledger_entry(entry@) is Some,
    ensures
        r matches Ok(j) ==> (j is Some <==> xdr_ledger_entry(entry@).unwrap().kind == EntryKind::Account),
        r matches Ok(j) ==> j matches Some(s) ==> Some(s@) == json_account_entry(entry@),
        r is Err ==> xdr_ledger_entry(entry@).unwrap().kind == EntryKind::Account && json_account_entry(entry@) is None,
{
    match LedgerEntry::from_xdr(entry, Limits::none()).unwrap().data {
        LedgerEntryData::Account(a) => Ok(Some(serde_json::to_string(&a)?)),
        _ => Ok(None),
    }
}

/// The XDR of `LedgerKey::Account` for an Ed25519 account key
/// (`xdr_account_ledger_key`).
pub(crate) fn account_ledger_key(account_key: &[u8; 32]) -> (r: Vec<u8>)
    ensures
        r@ == xdr_account_ledger_key(account_key@),
{
    let mut r: Vec<u8> = vec![0u8, 0u8, 0u8, 0u8];
    let id = crate::transaction::account_id_xdr(account_key);
    crate::bytes::append_bytes(&mut r, &id);
    assert(r@ =~= xdr_account_ledger_key(account_key@));
    r
}

/// `AccountId::from_xdr_base64`, as the account's Ed25519 key.
pub uninterp spec fn xdr_account_id_base64(text: Seq<char>) -> Option<Seq<u8>>;

/// Calls `AccountId::from_xdr_base64` and reads the account's Ed25519 key.
#[verifier::external_body]
pub(crate) fn decode_account_id_base64(text: &str) -> (r: Result<[u8; 32], soroban_env_common::xdr::Error>)
    ensures
        r is Ok <==> xdr_account_id_base64(text@) is Some,
        r matches Ok(k) ==> k@ == xdr_account_id_base64(text@).unwrap(),
{
    let PublicKey::PublicKeyTypeEd25519(Uint256(key)) = AccountId::from_xdr_base64(text, Limits::none())?.0;
    Ok(key)
}

/// Calls `e2e_testutils::ledger_entry` on a new `AccountEntry` with the given
/// key, balance, sequence number, thresholds, flags, number of sub-entries,
/// inflation destination (an Ed25519 account key) and home domain (at most 32
/// bytes), no signers and no extension (`AccountEntryExt::V0`), then
/// `LedgerEntry::to_xdr` (which cannot fail with no limits). Decoding the
/// result gives back the account, under its ledger key, last modified at
/// ledger 0.
#[verifier::external_body]
pub(crate) fn new_account_entry(
    account_key: &[u8; 32],
    balance: i64,
    seq_num: i64,
    thresholds: &[u8; 4],
    flags: u32,
    num_sub_entries: u32,
    inflation_dest: Option<[u8; 32]>,
    home_domain: &[u8],
) -> (r: Vec<u8>)
    requires
        home_domain@.len() <= 32,
    ensures
        r@ == xdr_new_account_entry(
            account_key@,
            balance,
            seq_num,
            thresholds@,
            flags,
            num_sub_entries,
            signer_view(inflation_dest),
            home_domain@,
        ),
        xdr_ledger_entry(r@) == Some(LedgerEntryView {
            key: xdr_account_ledger_key(account_key@),
            last_modified: 0,
            kind: EntryKind::Account,
            account: Some(AccountView { account_key: account_key@, balance, seq_num, signers: seq![] }),
            code: None,
        }),
{
    let id = |k: [u8; 32]| AccountId(PublicKey::PublicKeyTypeEd25519(Uint256(k)));
    let account_entry = AccountEntry {
        account_id: id(*account_key), balance, seq_num: SequenceNumber(seq_num), num_sub_entries,
        inflation_dest: inflation_dest.map(id), flags, home_domain: String32::try_from(home_domain.to_vec()).unwrap(),
        thresholds: Thresholds(*thresholds), signers: Default::default(), ext: AccountEntryExt::V0,
    };
    soroban_env_host::e2e_testutils::ledger_entry(LedgerEntryData::Account(account_entry)).to_xdr(Limits::none()).unwrap()
}

/// Calls `LedgerEntry::from_xdr`, replaces the sequence number and balance of
/// the account and the entry's last-modified ledger, keeping everything else,
/// then `LedgerEntry::to_xdr` (which cannot fail with no limits). `None` for an
/// entry of any other kind. Decoding the result gives back the same key and
/// account with the new sequence number and balance.
#[verifier::external_body]
pub(crate) fn account_entry_update(entry: &[u8], seq_num: i64, balance: i64, last_modified: u32) -> (r: Option<Vec<u8>>)
    requires
        xdr_ledger_entry(entry@) is Some,
    ensures
        r is Some <==> xdr_ledger_entry(entry@).unwrap().kind == EntryKind::Account,
        r matches Some(e) ==> {
            &&& Some(e@) == xdr_account_entry_update(entry@, seq_num, balance, last_modified)
            &&& xdr_ledger_entry(entry@).unwrap().account matches Some(a)
                && xdr_ledger_entry(e@) == Some(LedgerEntryView {
                    last_modified,
                    account: Some(AccountView { seq_num, balance, ..a }),
                    ..xdr_ledger_entry(entry@).unwrap()
                })
        },
{
    let e = LedgerEntry::from_xdr(entry, Limits::none()).unwrap();
    let LedgerEntryData::Account(mut account) = e.data else {
        return None;
    };
    account.seq_num = SequenceNumber(seq_num);
    account.balance = balance;
    let updated = LedgerEntry { data: LedgerEntryData::Account(account), last_modified_ledger_seq: last_modified, ext: e.ext };
    Some(updated.to_xdr(Limits::none()).unwrap())
}

/// What the library reads of a ledger key.
pub struct LedgerKeyView {
    /// The code hash of a `LedgerKey::ContractCode`; `None` for other keys.
    pub code_hash: Option<Seq<u8>>,
}

/// `LedgerKey::from_xdr` on the given bytes, read as a `LedgerKeyView`.
pub uninterp spec fn xdr_ledger_key(key: Seq<u8>) -> Option<LedgerKeyView>;

/// Calls `LedgerKey::from_xdr` and reads the code hash of a contract code key
/// (`None` for a key of any other kind).
#[verifier::external_body]
pub(crate) fn decode_ledger_key(key: &[u8]) -> (r: Result<Option<[u8; 32]>, soroban_env_common::xdr::Error>)
    ensures
        r is Ok <==> xdr_ledger_key(key@) is Some,
        r matches Ok(h) ==> xdr_ledger_key(key@).unwrap().code_hash == match h {
            Some(x) => Some(x@),
            None => None::<Seq<u8>>,
        },
{
    match LedgerKey::from_xdr(key, Limits::none())? {
        LedgerKey::ContractCode(c) => Ok(Some(c.hash.0)),
        _ => Ok(None),
    }
}

/// `LedgerKey::to_xdr_base64` of a ledger key.
pub uninterp spec fn xdr_ledger_key_base64(key: Seq<u8>) -> Option<Seq<char>>;

/// Calls `LedgerKey::from_xdr` and `LedgerKey::to_xdr_base64` (for a key that
/// decodes, encoding with no limits cannot fail).
#[verifier::external_body]
pub(crate) fn ledger_key_base64(key: &[u8]) -> (r: Result<String, soroban_env_common::xdr::Error>)
    ensures
        r is Ok <==> xdr_ledger_key_base64(key@) is Some,
        xdr_ledger_key(key@) is Some ==> r is Ok,
        r matches Ok(s) ==> s@ == xdr_ledger_key_base64(key@).unwrap(),
{
    LedgerKey::from_xdr(key, Limits::none())?.to_xdr_base64(Limits::none())
}

/// The durability of contract data.
#[derive(PartialEq, Eq, Structural, Clone, Copy, Debug)]
pub enum Durability {
    Temporary,
    Persistent,
}

/// `ScAddress::from_xdr_base64`, as the XDR of the address.
pub uninterp spec fn xdr_sc_address_base64(text: Seq<char>) -> Option<Seq<u8>>;

/// `ScVal::from_xdr_base64`, as the XDR of the value.
pub uninterp spec fn xdr_sc_val_base64(text: Seq<char>) -> Option<Seq<u8>>;

/// Whether `ScAddress::from_xdr` decodes the bytes.
pub uninterp spec fn xdr_sc_address_decodes(address: Seq<u8>) -> bool;

/// Whether `ScVal::from_xdr` decodes the bytes.
pub uninterp spec fn xdr_sc_val_decodes(value: Seq<u8>) -> bool;

/// The XDR of `LedgerKey::ContractData` for an address, a key and a durability.
pub uninterp spec fn xdr_contract_data_key(address: Seq<u8>, key: Seq<u8>, durability: Durability) -> Option<Seq<u8>>;

/// Calls `ScAddress::from_xdr_base64` and `ScAddress::to_xdr`; the XDR it
/// gives decodes again with `ScAddress::from_xdr`.
#[verifier::external_body]
pub(crate) fn decode_sc_address_base64(text: &str) -> (r: Result<Vec<u8>, soroban_env_common::xdr::Error>)
    ensures
        r is Ok <==> xdr_sc_address_base64(text@) is Some,
        r matches Ok(a) ==> a@ == xdr_sc_address_base64(text@).unwrap() && xdr_sc_address_decodes(a@),
{
    ScAddress::from_xdr_base64(text, Limits::none())?.to_xdr(Limits::none())
}

/// Calls `ScVal::from_xdr_base64` and `ScVal::to_xdr`; the XDR it gives
/// decodes again with `ScVal::from_xdr`.
#[verifier::external_body]
pub(crate) fn decode_sc_val_base64(text: &str) -> (r: Result<Vec<u8>, soroban_env_common::xdr::Error>)
    ensures
        r is Ok <==> xdr_sc_val_base64(text@) is Some,
        r matches Ok(v) ==> v@ == xdr_sc_val_base64(text@).unwrap() && xdr_sc_val_decodes(v@),
{
    ScVal::from_xdr_base64(text, Limits::none())?.to_xdr(Limits::none())
}

/// Decodes the address and key (`ScAddress::from_xdr`, `ScVal::from_xdr`),
/// and calls `LedgerKey::to_xdr` on the `LedgerKey::ContractData` made of them
/// and the durability: it succeeds when both decode (encoding with no limits
/// cannot fail), and the key it gives decodes as a ledger key.
#[verifier::external_body]
pub(crate) fn contract_data_key(address: &[u8], key: &[u8], durability: Durability) -> (r: Result<Vec<u8>, soroban_env_common::xdr::Error>)
    ensures
        r is Ok <==> xdr_contract_data_key(address@, key@, durability) is Some,
        xdr_sc_address_decodes(address@) && xdr_sc_val_decodes(key@) ==> r is Ok,
        r matches Ok(k) ==> k@ == xdr_contract_data_key(address@, key@, durability).unwrap(),
        r matches Ok(k) ==> xdr_ledger_key(k@) matches Some(v) && v.code_hash is None,
{
    let durability = match durability {
        Durability::Temporary => ContractDataDurability::Temporary,
        Durability::Persistent => ContractDataDurability::Persistent,
    };
    let contract = ScAddress::from_xdr(address, Limits::none())?;
    let key = ScVal::from_xdr(key, Limits::none())?;
    LedgerKey::ContractData(LedgerKeyContractData { contract, key, durability }).to_xdr(Limits::none())
}

/// A `u32` as 4 big-endian bytes, as XDR writes it.
pub open spec fn xdr_u32(v: u32) -> Seq<u8> {
    seq![(v / 0x100_0000) as u8, ((v / 0x1_0000) % 0x100) as u8, ((v / 0x100) % 0x100) as u8, (v % 0x100) as u8]
}

/// The XDR of a `TtlEntry` with the given key hash and live-until ledger: the
/// 32 bytes of the hash, then the ledger as a big-endian `u32`.
pub open spec fn xdr_ttl_entry(key_hash: Seq<u8>, live_until: u32) -> Seq<u8> {
    key_hash + xdr_u32(live_until)
}

/// The XDR of a `TtlEntry` (`xdr_ttl_entry`).
pub(crate) fn ttl_entry_xdr(key_hash: &[u8; 32], live_until: u32) -> (r: Vec<u8>)
    ensures
        r@ == xdr_ttl_entry(key_hash@, live_until),
{
    let mut r = crate::bytes::copy_bytes(key_hash);
    let be: [u8; 4] = [
        (live_until / 0x100_0000) as u8,
        ((live_until / 0x1_0000) % 0x100) as u8,
        ((live_until / 0x100) % 0x100) as u8,
        (live_until % 0x100) as u8,
    ];
    crate::bytes::append_bytes(&mut r, &be);
    assert(be@ =~= xdr_u32(live_until));
    r
}

} // verus!
