//! The ledger the sandbox runs on: its protocol, sequence number, time and network.

use vstd::prelude::*;

use crate::crypto::{sha256_digest, spec_sha256};
use vstd::string::StringSliceAdditionalSpecFns;

verus! {

/// The network passphrase of the sandbox.
pub const NETWORK_PASSPHRASE: &'static str = "mars-rover; sandbox environment";

/// The ledger information a Soroban host runs with.
#[derive(Clone, Copy, Debug)]
pub struct LedgerInfo {
    pub protocol_version: u32,
    pub sequence_number: u32,
    pub timestamp: u64,
    pub network_id: [u8; 32],
    pub base_reserve: u32,
    pub min_temp_entry_ttl: u32,
    pub min_persistent_entry_ttl: u32,
    pub max_entry_ttl: u32,
}

/// The network id of `e2e_testutils::default_ledger_info`: 32 bytes of 5.
pub open spec fn default_network_id() -> Seq<u8> {
    Seq::new(32, |_i: int| 5u8)
}

/// The values of `e2e_testutils::default_ledger_info`, but for the network id.
pub open spec fn has_default_values(li: LedgerInfo) -> bool {
    &&& li.protocol_version == 30
    &&& li.sequence_number == 1_000_000
    &&& li.timestamp == 12345678
    &&& li.base_reserve == 5_000_000
    &&& li.min_temp_entry_ttl == 16
    &&& li.min_persistent_entry_ttl == 100_000
    &&& li.max_entry_ttl == 10_000_000
}

/// Calls `soroban_env_host::e2e_testutils::default_ledger_info`, whose source
/// gives fixed values: the current protocol (30), sequence 1_000_000,
/// timestamp 12345678, network id of 32 bytes of 5, base reserve 5_000_000 and
/// entry TTLs 16 (temporary), 100_000 (persistent) and 10_000_000 (maximum).
#[verifier::external_body]
fn default_ledger_info() -> (r: LedgerInfo)
    ensures
        has_default_values(r),
        r.network_id@ == default_network_id(),
{
    let li = soroban_env_host::e2e_testutils::default_ledger_info();
    LedgerInfo {
        protocol_version: li.protocol_version,
        sequence_number: li.sequence_number,
        timestamp: li.timestamp,
        network_id: li.network_id,
        base_reserve: li.base_reserve,
        min_temp_entry_ttl: li.min_temp_entry_ttl,
        min_persistent_entry_ttl: li.min_persistent_entry_ttl,
        max_entry_ttl: li.max_entry_ttl,
    }
}

/// The network id of the sandbox: the SHA-256 digest of its passphrase.
pub open spec fn sandbox_network_id() -> Seq<u8> {
    spec_sha256(NETWORK_PASSPHRASE.spec_bytes())
}

/// The ledger the sandbox starts on: the default test ledger with the
/// sandbox's own network id.
pub fn get_initial_ledger_info() -> (r: LedgerInfo)
    ensures
        has_default_values(r),
        r.network_id@ == sandbox_network_id(),
{
    let mut li = default_ledger_info();
    li.network_id = sha256_digest(NETWORK_PASSPHRASE.as_bytes());
    li
}

} // verus!
