//! Hashes of transactions and ledger keys, TTL entries and result codes.

use vstd::prelude::*;

use crate::crypto::{sha256_digest, spec_sha256};
use crate::ledger_info::LedgerInfo;
use crate::xdr::{ttl_entry_xdr, xdr_ttl_entry};
use crate::transaction::{signature_payload, xdr_signature_payload, Envelope};

verus! {

/// The hash of a transaction (given as the XDR of its `Transaction`): the
/// SHA-256 digest of the XDR of its signature payload on the given network.
pub open spec fn spec_tx_hash(network_id: Seq<u8>, transaction: Seq<u8>) -> Seq<u8> {
    spec_sha256(xdr_signature_payload(network_id, transaction))
}

/// The hash of the envelope's transaction on the ledger's network.
pub fn tx_hash(envelope: &Envelope, ledger_info: &LedgerInfo) -> (r: Result<[u8; 32], soroban_env_common::xdr::Error>)
    ensures
        r matches Ok(h) && h@ == spec_tx_hash(ledger_info.network_id@, envelope@.transaction),
{
    envelope.check_wf();
    let payload = signature_payload(&ledger_info.network_id, envelope.transaction())?;
    Ok(sha256_digest(&payload))
}

/// The hash of a ledger key: the SHA-256 digest of its XDR.
pub fn compute_key_hash(key: &[u8]) -> (r: Vec<u8>)
    ensures
        r@ == spec_sha256(key@),
{
    let h = sha256_digest(key);
    let mut v: Vec<u8> = Vec::new();
    let mut i: usize = 0;
    while i < 32
        invariant
            i <= 32,
            h@.len() == 32,
            v@ =~= h@.take(i as int),
        decreases 32 - i,
    {
        v.push(h[i]);
        i = i + 1;
    }
    assert(h@.take(32) =~= h@);
    v
}

/// The TTL entry of a ledger key: the hash of the key and the live-until ledger.
pub fn ttl_entry(key: &[u8], ttl: u32) -> (r: Vec<u8>)
    ensures
        r@ == xdr_ttl_entry(spec_sha256(key@), ttl),
{
    let key_hash = sha256_digest(key);
    ttl_entry_xdr(&key_hash, ttl)
}

} // verus!
