use mars_rover::executor::{sha256_hash_from_bytes_raw, Executor, ExecutorError, LedgerChange};
use mars_rover::ledger_info::{get_initial_ledger_info, NETWORK_PASSPHRASE};
use mars_rover::memory::{Memory, MemoryError};
use mars_rover::network_config::default_network_config;
use mars_rover::utils::{compute_key_hash, ttl_entry};
use sha2::Digest;
use soroban_env_common::xdr::{
    AccountEntry, AccountEntryExt, AccountId, ContractCodeEntry, ContractCodeEntryExt, ContractDataDurability,
    ContractDataEntry, ContractId, ExtensionPoint, LedgerEntry, LedgerEntryData, LedgerEntryExt, LedgerKey,
    LedgerKeyContractCode, Limits, PublicKey, ReadXdr, ScAddress, ScVal, SequenceNumber, String32, Thresholds,
    TtlEntry, Uint256, WriteXdr,
};

fn account_entry(key: [u8; 32], balance: i64, seq: i64) -> LedgerEntry {
    LedgerEntry {
        last_modified_ledger_seq: 0,
        data: LedgerEntryData::Account(AccountEntry {
            account_id: AccountId(PublicKey::PublicKeyTypeEd25519(Uint256(key))),
            balance,
            seq_num: SequenceNumber(seq),
            num_sub_entries: 0,
            inflation_dest: None,
            flags: 0,
            home_domain: String32::default(),
            thresholds: Thresholds([1, 0, 0, 0]),
            signers: Default::default(),
            ext: AccountEntryExt::V0,
        }),
        ext: LedgerEntryExt::V0,
    }
}

fn data_entry(contract: u8, key: u32, val: u32) -> LedgerEntry {
    LedgerEntry {
        last_modified_ledger_seq: 7,
        data: LedgerEntryData::ContractData(ContractDataEntry {
            ext: ExtensionPoint::V0,
            contract: ScAddress::Contract(ContractId(soroban_env_common::xdr::Hash([contract; 32]))),
            key: ScVal::U32(key),
            durability: ContractDataDurability::Persistent,
            val: ScVal::U32(val),
        }),
        ext: LedgerEntryExt::V0,
    }
}

fn xdr(e: &LedgerEntry) -> Vec<u8> {
    e.to_xdr(Limits::none()).unwrap()
}

fn key_xdr(e: &LedgerEntry) -> Vec<u8> {
    e.to_key().to_xdr(Limits::none()).unwrap()
}

#[test]
fn initial_ledger_uses_default_values_and_sandbox_network() {
    let li = get_initial_ledger_info();
    assert_eq!(li.protocol_version, 30);
    assert_eq!(li.sequence_number, 1_000_000);
    assert_eq!(li.timestamp, 12345678);
    assert_eq!(li.base_reserve, 5_000_000);
    assert_eq!(li.min_temp_entry_ttl, 16);
    assert_eq!(li.min_persistent_entry_ttl, 100_000);
    assert_eq!(li.max_entry_ttl, 10_000_000);
    let expected: [u8; 32] = sha2::Sha256::digest(NETWORK_PASSPHRASE.as_bytes()).into();
    assert_eq!(li.network_id, expected);
    assert_ne!(li.network_id, [5u8; 32]);
}

#[test]
fn network_config_has_fixed_fees_and_cost_models() {
    let c = default_network_config();
    assert_eq!(c.fee_configuration.fee_per_instruction_increment, 10);
    assert_eq!(c.fee_configuration.fee_per_transaction_size_1kb, 80);
    assert_eq!(c.rent_fee_configuration.fee_per_rent_1kb, 100);
    assert_eq!(c.rent_fee_configuration.temporary_rent_rate_denominator, 1000);
    assert_eq!(c.tx_max_instructions, 100_000_000);
    assert_eq!(c.tx_memory_limit, 40_000_000);
    let cpu: Vec<(i64, i64)> = c.cpu_cost_params.iter().map(|p| (p.const_term, p.linear_term)).collect();
    assert_eq!(cpu, vec![(35, 36), (37, 38)]);
    let mem: Vec<(i64, i64)> = c.memory_cost_params.iter().map(|p| (p.const_term, p.linear_term)).collect();
    assert_eq!(mem, vec![(39, 40), (41, 42), (43, 44)]);
    assert_eq!((c.min_temp_entry_ttl, c.min_persistent_entry_ttl, c.max_entry_ttl), (16, 100_000, 10_000_000));
}

#[test]
fn sha256_and_key_hash() {
    let d = sha256_hash_from_bytes_raw(b"abc", Ok(())).unwrap();
    assert_eq!(sha256_hash_from_bytes_raw(b"abc", Err("out of budget".to_string())), Err(ExecutorError::BudgetChargeFailed));
    assert_eq!(
        hex::encode(sha256_hash_from_bytes_raw(b"", Ok(())).unwrap()),
        "e3b0c44298fc1c149afbf4c8996fb92427ae41e4649b934ca495991b7852b855"
    );
    assert_eq!(hex::encode(d), "ba7816bf8f01cfea414140de5dae2223b00361a396177a9cb410ff61f20015ad");
    let key = vec![1u8, 2, 3];
    let expected: [u8; 32] = sha2::Sha256::digest(&key).into();
    assert_eq!(compute_key_hash(&key), expected.to_vec());
}

#[test]
fn ttl_entry_encodes_key_hash_and_ttl() {
    let key = LedgerKey::ContractCode(LedgerKeyContractCode { hash: soroban_env_common::xdr::Hash([9; 32]) }).to_xdr(Limits::none()).unwrap();
    let encoded = ttl_entry(&key, 77);
    let decoded = TtlEntry::from_xdr(&encoded, Limits::none()).unwrap();
    assert_eq!(decoded.key_hash.0, sha256_hash_from_bytes_raw(&key, Ok(())).unwrap());
    assert_eq!(decoded.live_until_ledger_seq, 77);
    // The layout: the 32 bytes of the key hash, then the ledger big-endian.
    let mut expected = sha256_hash_from_bytes_raw(&key, Ok(())).unwrap().to_vec();
    expected.extend_from_slice(&[0, 0, 0, 77]);
    assert_eq!(encoded, expected);
    assert_eq!(&ttl_entry(&key, 0x0102_0304)[32..], &[1, 2, 3, 4]);
}

#[test]
fn memory_read_after_write() {
    let mut m = Memory::new();
    let e = data_entry(1, 2, 3);
    m.insert_with_ttl(xdr(&e), Some(100)).unwrap();
    let (got, ttl) = m.get(&key_xdr(&e)).unwrap();
    assert_eq!(got, xdr(&e));
    assert_eq!(ttl, Some(100));
    // Another key is not there.
    assert!(m.get(&key_xdr(&data_entry(1, 3, 3))).is_none());
    // Writing again under the same key replaces the entry.
    let e2 = data_entry(1, 2, 4);
    m.insert(xdr(&e2)).unwrap();
    let (got, ttl) = m.get(&key_xdr(&e)).unwrap();
    assert_eq!(got, xdr(&e2));
    assert_eq!(ttl, None);
}

#[test]
fn memory_lists_every_entry_once() {
    let mut m = Memory::new();
    assert!(m.entries().is_empty());
    let a = data_entry(1, 1, 1);
    let b = data_entry(1, 2, 2);
    m.insert_with_ttl(xdr(&a), Some(10)).unwrap();
    m.insert(xdr(&b)).unwrap();
    m.insert_with_ttl(xdr(&data_entry(1, 1, 5)), Some(20)).unwrap();
    let mut listed: Vec<(Vec<u8>, Vec<u8>, Option<u32>)> =
        m.entries().into_iter().map(|s| (s.key, s.entry, s.ttl)).collect();
    listed.sort();
    let mut expected = vec![
        (key_xdr(&a), xdr(&data_entry(1, 1, 5)), Some(20)),
        (key_xdr(&b), xdr(&b), None),
    ];
    expected.sort();
    assert_eq!(listed, expected);
}

#[test]
fn memory_rejects_undecodable_entry() {
    let mut m = Memory::new();
    assert!(m.insert(vec![1, 2, 3]).is_err());
    assert!(m.get(&[1, 2, 3]).is_none());
}

#[test]
fn memory_update_ttl_and_remove() {
    let mut m = Memory::new();
    let e = data_entry(4, 5, 6);
    let k = key_xdr(&e);
    m.update_ttl(&k, Some(5));
    assert!(m.get(&k).is_none());
    m.insert(xdr(&e)).unwrap();
    m.update_ttl(&k, Some(5));
    assert_eq!(m.get(&k).unwrap(), (xdr(&e), Some(5)));
    m.remove(&k);
    assert!(m.get(&k).is_none());
    m.remove(&k);
    assert!(m.get(&k).is_none());
}

#[test]
fn memory_get_account() {
    let mut m = Memory::new();
    let a = account_entry([3; 32], 500, 9);
    m.insert(xdr(&a)).unwrap();
    let acc = m.get_account(&key_xdr(&a)).unwrap().unwrap();
    assert_eq!(acc.account_key, [3; 32]);
    assert_eq!(acc.balance, 500);
    assert_eq!(acc.seq_num, 9);
    assert!(acc.signers.is_empty());
    assert!(m.get_account(&key_xdr(&account_entry([4; 32], 1, 1))).unwrap().is_none());
    let d = data_entry(1, 1, 1);
    m.insert(xdr(&d)).unwrap();
    assert!(matches!(m.get_account(&key_xdr(&d)), Err(MemoryError::NotAnAccount)));
}

#[test]
fn apply_ledger_changes_in_order() {
    let ex = Executor::new();
    let mut m = Memory::new();
    let a = data_entry(1, 1, 1);
    let b = data_entry(1, 2, 2);
    m.insert_with_ttl(xdr(&b), Some(10)).unwrap();
    let code = LedgerEntry {
        last_modified_ledger_seq: 0,
        data: LedgerEntryData::ContractCode(ContractCodeEntry {
            ext: ContractCodeEntryExt::V0,
            hash: soroban_env_common::xdr::Hash([8; 32]),
            code: vec![0u8, 97, 115, 109].try_into().unwrap(),
        }),
        ext: LedgerEntryExt::V0,
    };
    m.insert_with_ttl(xdr(&code), Some(20)).unwrap();
    let changes = vec![
        // a new entry with a TTL
        LedgerChange { read_only: false, encoded_key: key_xdr(&a), encoded_new_value: Some(xdr(&a)), new_live_until: Some(50) },
        // a removed read-write entry
        LedgerChange { read_only: false, encoded_key: key_xdr(&b), encoded_new_value: None, new_live_until: None },
        // a read-only entry whose TTL was extended
        LedgerChange { read_only: true, encoded_key: key_xdr(&code), encoded_new_value: None, new_live_until: Some(99) },
    ];
    assert_eq!(ex.apply_ledger_changes(&mut m, &changes), Ok(()));
    assert_eq!(m.get(&key_xdr(&a)).unwrap(), (xdr(&a), Some(50)));
    assert!(m.get(&key_xdr(&b)).is_none());
    assert_eq!(m.get(&key_xdr(&code)).unwrap(), (xdr(&code), Some(99)));
}

#[test]
fn apply_ledger_changes_stops_at_invalid_key() {
    let ex = Executor::new();
    let mut m = Memory::new();
    let a = data_entry(2, 1, 1);
    let c = data_entry(2, 2, 2);
    let changes = vec![
        LedgerChange { read_only: false, encoded_key: key_xdr(&a), encoded_new_value: Some(xdr(&a)), new_live_until: None },
        LedgerChange { read_only: false, encoded_key: vec![0xff, 0xff], encoded_new_value: None, new_live_until: None },
        LedgerChange { read_only: false, encoded_key: key_xdr(&c), encoded_new_value: Some(xdr(&c)), new_live_until: None },
    ];
    assert_eq!(ex.apply_ledger_changes(&mut m, &changes), Err(ExecutorError::InvalidLedgerKey));
    assert!(m.get(&key_xdr(&a)).is_some());
    assert!(m.get(&key_xdr(&c)).is_none());
}

#[test]
fn apply_ledger_changes_rejects_invalid_entry() {
    let ex = Executor::new();
    let mut m = Memory::new();
    let a = data_entry(3, 1, 1);
    let changes = vec![LedgerChange {
        read_only: false,
        encoded_key: key_xdr(&a),
        encoded_new_value: Some(vec![1, 2, 3]),
        new_live_until: None,
    }];
    assert_eq!(ex.apply_ledger_changes(&mut m, &changes), Err(ExecutorError::InvalidLedgerEntry));
    assert!(m.get(&key_xdr(&a)).is_none());
}

#[test]
fn stored_entry_keys_round_trip() {
    let e = data_entry(6, 6, 6);
    let mut m = Memory::new();
    m.insert(xdr(&e)).unwrap();
    let (got, _) = m.get(&key_xdr(&e)).unwrap();
    assert_eq!(LedgerEntry::from_xdr(&got, Limits::none()).unwrap(), e);
}
