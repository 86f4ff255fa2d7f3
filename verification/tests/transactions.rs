use ed25519_dalek::{Signer, SigningKey};
use mars_rover::executor::{
    all_diffs_have_state, changes_from_simulation, Executor, ExecutorError, HostOutcome, LedgerChange, LedgerEntryDiff,
    SimulatedTransactionData, SimulationOutcome,
};
use mars_rover::model::{
    DiagnosticEventRecord, GetTransactionResponse, LedgerEntryChangeType, SendTransactionStatus,
    SimulateTransactionResponse,
};
use mars_rover::sandbox::{Sandbox, SandboxError};
use mars_rover::transaction::{Envelope, Preconditions};
use mars_rover::utils::tx_hash;
use mars_rover::validation::{TxValidation, ValidationError};
use mars_rover::xdr::AccountInfo;
use soroban_env_common::xdr::{
    AccountId, ContractDataDurability, ContractDataEntry, ContractId, DecoratedSignature, ExtensionPoint,
    HostFunction, InvokeHostFunctionOp, LedgerEntry, LedgerEntryData, LedgerEntryExt, LedgerFootprint, LedgerKey,
    LedgerKeyContractData, Limits, Memo, MuxedAccount, Operation, OperationBody, PaymentOp, Preconditions as XdrPreconditions,
    PublicKey, ReadXdr, ScAddress, ScVal, SequenceNumber, SignatureHint, SorobanResources, SorobanTransactionData,
    SorobanTransactionDataExt, TimeBounds, TimePoint, Transaction, TransactionEnvelope, TransactionExt,
    TransactionResult, TransactionResultResult, TransactionSignaturePayload, TransactionSignaturePayloadTaggedTransaction,
    TransactionV1Envelope, Uint256, WriteXdr,
};

fn signer(seed: u8) -> SigningKey {
    SigningKey::from_bytes(&[seed; 32])
}

fn public_key(key: &SigningKey) -> [u8; 32] {
    key.verifying_key().to_bytes()
}

fn account_text(pk: [u8; 32]) -> String {
    AccountId(PublicKey::PublicKeyTypeEd25519(Uint256(pk))).to_xdr_base64(Limits::none()).unwrap()
}

fn data_key(contract: u8, key: u32) -> LedgerKey {
    LedgerKey::ContractData(LedgerKeyContractData {
        contract: ScAddress::Contract(ContractId(soroban_env_common::xdr::Hash([contract; 32]))),
        key: ScVal::U32(key),
        durability: ContractDataDurability::Persistent,
    })
}

fn data_entry(contract: u8, key: u32, val: u32) -> LedgerEntry {
    LedgerEntry {
        last_modified_ledger_seq: 3,
        data: LedgerEntryData::ContractData(ContractDataEntry {
            ext: ExtensionPoint::V0,
            contract: ScAddress::Contract(ContractId(soroban_env_common::xdr::Hash([contract; 32]))),
            key: ScVal::U32(key),
            durability: ContractDataDurability::Persistent,
            val: ScVal::U32(val),
        }),
        ext: LedgerEntryExt::V0,
    }
}

fn invoke_tx(pk: [u8; 32], seq: i64, fee: u32, cond: XdrPreconditions, read_write: Vec<LedgerKey>) -> Transaction {
    Transaction {
        source_account: MuxedAccount::Ed25519(Uint256(pk)),
        fee,
        seq_num: SequenceNumber(seq),
        cond,
        memo: Memo::None,
        operations: vec![Operation {
            source_account: None,
            body: OperationBody::InvokeHostFunction(InvokeHostFunctionOp {
                host_function: HostFunction::UploadContractWasm(vec![0u8, 97, 115, 109].try_into().unwrap()),
                auth: Default::default(),
            }),
        }]
        .try_into()
        .unwrap(),
        ext: TransactionExt::V1(SorobanTransactionData {
            ext: SorobanTransactionDataExt::V0,
            resources: SorobanResources {
                footprint: LedgerFootprint { read_only: Default::default(), read_write: read_write.try_into().unwrap() },
                instructions: 0,
                disk_read_bytes: 0,
                write_bytes: 0,
            },
            resource_fee: 0,
        }),
    }
}

fn signed(tx: Transaction, network_id: [u8; 32], keys: &[&SigningKey]) -> TransactionV1Envelope {
    let payload = TransactionSignaturePayload {
        network_id: soroban_env_common::xdr::Hash(network_id),
        tagged_transaction: TransactionSignaturePayloadTaggedTransaction::Tx(tx.clone()),
    };
    let hash: [u8; 32] = sha2::Digest::finalize(<sha2::Sha256 as sha2::Digest>::new_with_prefix(payload.to_xdr(Limits::none()).unwrap())).into();
    let signatures: Vec<DecoratedSignature> = keys
        .iter()
        .map(|k| {
            let pk = public_key(k);
            DecoratedSignature {
                hint: SignatureHint([pk[28], pk[29], pk[30], pk[31]]),
                signature: soroban_env_common::xdr::Signature(k.sign(&hash).to_bytes().to_vec().try_into().unwrap()),
            }
        })
        .collect();
    TransactionV1Envelope { tx, signatures: signatures.try_into().unwrap() }
}

fn b64(e: &TransactionV1Envelope) -> String {
    TransactionEnvelope::Tx(e.clone()).to_xdr_base64(Limits::none()).unwrap()
}

fn envelope(e: &TransactionV1Envelope) -> Envelope {
    Envelope::from_xdr(e.to_xdr(Limits::none()).unwrap()).unwrap()
}

fn funded_sandbox(key: &SigningKey, balance: i64) -> Sandbox {
    let mut s = Sandbox::new();
    s.fund_account(&account_text(public_key(key)), balance).unwrap();
    s
}

fn network(s: &Sandbox) -> [u8; 32] {
    s.get_ledger_info().network_id
}

#[test]
fn fund_account_then_balance() {
    let k = signer(1);
    let s = funded_sandbox(&k, 1_000_000_000);
    assert_eq!(s.get_balance(&account_text(public_key(&k))).unwrap(), 1_000_000_000);
    let acc = s.get_account_from_string(&account_text(public_key(&k))).unwrap();
    assert_eq!(acc.seq_num, 0);
    assert_eq!(acc.account_key, public_key(&k));
    let json = s.get_account(&account_text(public_key(&k))).unwrap();
    assert!(json.contains("1000000000"));
    // The account is stored under its ledger key: entry type 0, key type 0, the key.
    let entries = s.memory().entries();
    assert_eq!(entries.len(), 1);
    let mut key = vec![0u8; 8];
    key.extend_from_slice(&public_key(&k));
    assert_eq!(entries[0].key, key);
}

#[test]
fn account_lookup_errors() {
    let s = Sandbox::new();
    assert!(matches!(s.get_balance("not base64 at all"), Err(SandboxError::InvalidAccountId)));
    assert!(matches!(s.get_balance(&account_text([7; 32])), Err(SandboxError::AccountNotFound)));
    assert!(matches!(s.get_account(&account_text([7; 32])), Err(SandboxError::AccountNotFound)));
    let mut s = Sandbox::new();
    assert!(matches!(s.fund_account("AAAA", 5), Err(SandboxError::InvalidAccountId)));
}

#[test]
fn set_time_and_sequence() {
    let mut s = Sandbox::new();
    s.set_time(10);
    s.set_sequence(42);
    assert_eq!(s.get_ledger_info().timestamp, 10);
    assert_eq!(s.get_ledger_info().sequence_number, 42);
    s.set_time(-1);
    assert_eq!(s.get_ledger_info().timestamp, u64::MAX);
    let info = s.get_network_info();
    assert_eq!(info.passphrase, "mars-rover; sandbox environment");
    assert_eq!(info.protocol_version, 30);
}

#[test]
fn tx_hash_matches_stellar_xdr() {
    let k = signer(2);
    let s = funded_sandbox(&k, 100);
    let e = signed(invoke_tx(public_key(&k), 1, 100, XdrPreconditions::None, vec![]), network(&s), &[&k]);
    let h = tx_hash(&envelope(&e), s.get_ledger_info()).unwrap();
    assert_eq!(h, e.hash(network(&s)).unwrap());
}

#[test]
fn valid_transaction_passes_validation() {
    let k = signer(3);
    let s = funded_sandbox(&k, 1000);
    let e = signed(invoke_tx(public_key(&k), 1, 100, XdrPreconditions::None, vec![]), network(&s), &[&k]);
    assert_eq!(TxValidation::new().validate(s.memory(), &envelope(&e), s.get_ledger_info()), Ok(()));
}

#[test]
fn validation_errors() {
    let k = signer(4);
    let s = funded_sandbox(&k, 1000);
    let v = TxValidation::new();
    let li = *s.get_ledger_info();
    let pk = public_key(&k);
    let check = |e: &TransactionV1Envelope| v.validate(s.memory(), &envelope(e), &li);

    let unknown = signer(5);
    let e = signed(invoke_tx(public_key(&unknown), 1, 100, XdrPreconditions::None, vec![]), network(&s), &[&unknown]);
    assert_eq!(check(&e), Err(ValidationError::AccountNotFound));

    let e = signed(invoke_tx(pk, 2, 100, XdrPreconditions::None, vec![]), network(&s), &[&k]);
    assert_eq!(check(&e), Err(ValidationError::SequenceMismatch { got: 2, current: 0 }));

    let e = signed(invoke_tx(pk, 1, 1001, XdrPreconditions::None, vec![]), network(&s), &[&k]);
    assert_eq!(check(&e), Err(ValidationError::InsufficientBalance { has: 1000, needs: 1001 }));

    let bounds = XdrPreconditions::Time(TimeBounds { min_time: TimePoint(0), max_time: TimePoint(5) });
    let e = signed(invoke_tx(pk, 1, 100, bounds, vec![]), network(&s), &[&k]);
    assert_eq!(check(&e), Err(ValidationError::TimeBounds { now: 12345678, min_time: 0, max_time: 5 }));

    let e = signed(invoke_tx(pk, 1, 100, XdrPreconditions::None, vec![]), network(&s), &[]);
    assert_eq!(check(&e), Err(ValidationError::InvalidWeight { got: 0 }));

    let e = signed(invoke_tx(pk, 1, 100, XdrPreconditions::None, vec![]), network(&s), &[&k, &k]);
    assert_eq!(check(&e), Err(ValidationError::InvalidWeight { got: 2 }));

    let other = signer(6);
    let e = signed(invoke_tx(pk, 1, 100, XdrPreconditions::None, vec![]), network(&s), &[&other]);
    assert_eq!(check(&e), Err(ValidationError::NoMatchingSigner));

    // A signature over another network's payload does not verify.
    let e = signed(invoke_tx(pk, 1, 100, XdrPreconditions::None, vec![]), [5; 32], &[&k]);
    assert_eq!(check(&e), Err(ValidationError::InvalidSignature));
}

#[test]
fn time_bounds_are_inclusive() {
    let k = signer(7);
    let s = funded_sandbox(&k, 1000);
    let bounds = XdrPreconditions::Time(TimeBounds { min_time: TimePoint(12345678), max_time: TimePoint(12345678) });
    let e = signed(invoke_tx(public_key(&k), 1, 100, bounds, vec![]), network(&s), &[&k]);
    assert_eq!(TxValidation::new().validate(s.memory(), &envelope(&e), s.get_ledger_info()), Ok(()));
}

#[test]
fn hints_select_keys() {
    let v = TxValidation::new();
    let account = AccountInfo {
        account_key: [1; 32],
        balance: 0,
        seq_num: 0,
        signers: vec![Some([2; 32]), None, Some([3; 32])],
    };
    assert!(v.public_key_matches_hint(&[1; 32], &[1, 1, 1, 1]));
    assert!(!v.public_key_matches_hint(&[1; 32], &[1, 1, 1, 2]));
    assert_eq!(v.get_public_key(&account, &[1, 1, 1, 1]), Some([1; 32]));
    assert_eq!(v.get_public_key(&account, &[2, 2, 2, 2]), Some([2; 32]));
    // The search stops at the first signer that is not an Ed25519 key.
    assert_eq!(v.get_public_key(&account, &[3, 3, 3, 3]), None);
    assert_eq!(v.get_public_key(&account, &[9, 9, 9, 9]), None);
}

#[test]
fn envelope_decoding_errors() {
    let s = Sandbox::new();
    assert!(matches!(s.prepare_transaction("@@@"), Err(SandboxError::InvalidTransactionEnvelope)));
    assert!(matches!(s.simulate_tx("@@@"), Err(SandboxError::InvalidTransactionEnvelope)));
    let v0 = TransactionEnvelope::TxV0(Default::default()).to_xdr_base64(Limits::none()).unwrap();
    assert!(matches!(s.prepare_transaction(&v0), Err(SandboxError::UnsupportedTransactionType)));
}

fn host_outcome(result: Result<Vec<u8>, String>, changes: Vec<LedgerChange>) -> HostOutcome {
    HostOutcome { invoke_result: result, ledger_changes: changes, contract_events: vec![vec![1, 2, 3]] }
}

#[test]
fn successful_transaction_is_applied_and_recorded() {
    let k = signer(8);
    let mut s = funded_sandbox(&k, 1000);
    let key = data_key(1, 1);
    let entry = data_entry(1, 1, 9);
    let e = signed(invoke_tx(public_key(&k), 1, 100, XdrPreconditions::None, vec![key.clone()]), network(&s), &[&k]);
    let pending = s.prepare_transaction(&b64(&e)).unwrap();
    let invocation = pending.invocation.as_ref().unwrap();
    assert_eq!(invocation.ledger_entries.len(), 1);
    assert!(invocation.ledger_entries[0].entry.is_none());
    assert_eq!(invocation.prng_seed, [0; 32]);
    let mut account_xdr = vec![0u8, 0, 0, 0];
    account_xdr.extend_from_slice(&public_key(&k));
    assert_eq!(invocation.source_account, account_xdr);
    let change = LedgerChange {
        read_only: false,
        encoded_key: key.to_xdr(Limits::none()).unwrap(),
        encoded_new_value: Some(entry.to_xdr(Limits::none()).unwrap()),
        new_live_until: Some(2_000_000),
    };
    let ret = ScVal::U32(5).to_xdr(Limits::none()).unwrap();
    let resp = s.send_transaction(pending, Some(Ok(host_outcome(Ok(ret.clone()), vec![change])))).unwrap();
    assert_eq!(resp.base.status, SendTransactionStatus::Pending);
    assert_eq!(resp.base.hash, hex::encode(e.hash(network(&s)).unwrap()));
    assert_eq!(resp.base.latest_ledger, 1_000_000);
    assert!(resp.error_result.is_none());
    assert!(resp.diagnostic_events.is_none());
    // The source account's sequence number went up by one, and the fee was taken.
    assert_eq!(s.get_account_from_string(&account_text(public_key(&k))).unwrap().seq_num, 1);
    assert_eq!(s.get_balance(&account_text(public_key(&k))).unwrap(), 900);
    // The new entry is stored with its TTL.
    let addr = ScAddress::Contract(ContractId(soroban_env_common::xdr::Hash([1; 32]))).to_xdr_base64(Limits::none()).unwrap();
    let skey = ScVal::U32(1).to_xdr_base64(Limits::none()).unwrap();
    let data = s.get_contract_data(&addr, &skey, "persistent").unwrap();
    assert_eq!(data.live_until_ledger_seq, Some(2_000_000));
    assert_eq!(data.last_modified_ledger_seq, Some(3));
    assert_eq!(data.key, key.to_xdr_base64(Limits::none()).unwrap());
    assert_eq!(data.val, entry.data.to_xdr_base64(Limits::none()).unwrap());
    // The transaction is found by its hash.
    match s.get_transaction(&resp.base.hash).unwrap() {
        GetTransactionResponse::Success(t) => {
            assert_eq!(t.return_value, Some(ret));
            assert_eq!(t.ledger, 1_000_000);
            assert_eq!(t.envelope_xdr, b64(&e));
            let result = TransactionResult::from_xdr_base64(&t.result_xdr, Limits::none()).unwrap();
            assert_eq!(result.fee_charged, 100);
            assert!(matches!(result.result, TransactionResultResult::TxSuccess(_)));
            assert_eq!(t.events.contract_events_xdr, vec![vec![vec![1u8, 2, 3]]]);
        },
        _ => panic!("expected a successful transaction"),
    }
    // A second submission of the same transaction is refused for its sequence number.
    let pending = s.prepare_transaction(&b64(&e)).unwrap();
    assert!(matches!(pending.invocation, Err(SandboxError::Validation(ValidationError::SequenceMismatch { got: 1, current: 1 }))));
}

#[test]
fn failed_invocation_is_recorded_as_error() {
    let k = signer(9);
    let mut s = funded_sandbox(&k, 1000);
    let e = signed(invoke_tx(public_key(&k), 1, 100, XdrPreconditions::None, vec![]), network(&s), &[&k]);
    let pending = s.prepare_transaction(&b64(&e)).unwrap();
    let resp = s.send_transaction(pending, Some(Ok(host_outcome(Err("trapped".to_string()), vec![])))).unwrap();
    assert_eq!(resp.base.status, SendTransactionStatus::Error);
    let er = resp.error_result.unwrap();
    assert_eq!(er.fee_charged, 100);
    assert_eq!(s.get_balance(&account_text(public_key(&k))).unwrap(), 900);
    let events = resp.diagnostic_events.unwrap();
    assert_eq!(events.len(), 1);
    assert!(!events[0].in_successful_contract_call);
    match s.get_transaction(&resp.base.hash).unwrap() {
        GetTransactionResponse::Failed(t) => {
            let result = TransactionResult::from_xdr_base64(&t.result_xdr, Limits::none()).unwrap();
            assert!(matches!(result.result, TransactionResultResult::TxFailed(_)));
        },
        _ => panic!("expected a failed transaction"),
    }
}

#[test]
fn refused_transaction_still_bumps_sequence() {
    let k = signer(10);
    let mut s = funded_sandbox(&k, 50);
    let e = signed(invoke_tx(public_key(&k), 1, 100, XdrPreconditions::None, vec![]), network(&s), &[&k]);
    let pending = s.prepare_transaction(&b64(&e)).unwrap();
    assert!(pending.invocation.is_err());
    let r = s.send_transaction(pending, None);
    assert!(matches!(r, Err(SandboxError::Validation(ValidationError::InsufficientBalance { has: 50, needs: 100 }))));
    assert_eq!(s.get_account_from_string(&account_text(public_key(&k))).unwrap().seq_num, 1);
    // A refused transaction takes no fee.
    assert_eq!(s.get_balance(&account_text(public_key(&k))).unwrap(), 50);
    let hash = hex::encode(e.hash(network(&s)).unwrap());
    assert!(matches!(s.get_transaction(&hash).unwrap(), GetTransactionResponse::Failed(_)));
}

#[test]
fn host_failure_is_reported() {
    let k = signer(11);
    let mut s = funded_sandbox(&k, 1000);
    let e = signed(invoke_tx(public_key(&k), 1, 100, XdrPreconditions::None, vec![]), network(&s), &[&k]);
    let pending = s.prepare_transaction(&b64(&e)).unwrap();
    let r = s.send_transaction(pending, Some(Err("host error".to_string())));
    assert!(matches!(r, Err(SandboxError::HostFailure(m)) if m == "host error"));
    // The transaction passed validation, so its fee was taken.
    assert_eq!(s.get_balance(&account_text(public_key(&k))).unwrap(), 900);
}

#[test]
fn unknown_transaction_is_not_found() {
    let s = Sandbox::new();
    match s.get_transaction("00").unwrap() {
        GetTransactionResponse::NotFound(t) => {
            assert_eq!(t.tx_hash, "00");
            assert_eq!(t.latest_ledger, 1_000_000);
            assert_eq!(t.latest_ledger_close_time, 12345678);
        },
        _ => panic!("expected not found"),
    }
}

#[test]
fn non_invoke_operations_are_refused() {
    let k = signer(12);
    let s = funded_sandbox(&k, 1000);
    let mut tx = invoke_tx(public_key(&k), 1, 100, XdrPreconditions::None, vec![]);
    tx.operations = vec![Operation {
        source_account: None,
        body: OperationBody::Payment(PaymentOp {
            destination: MuxedAccount::Ed25519(Uint256([1; 32])),
            asset: soroban_env_common::xdr::Asset::Native,
            amount: 1,
        }),
    }]
    .try_into()
    .unwrap();
    let e = signed(tx.clone(), network(&s), &[&k]);
    let pending = s.prepare_transaction(&b64(&e)).unwrap();
    assert!(matches!(pending.invocation, Err(SandboxError::Execution(ExecutorError::ExpectedInvokeHostFunction))));
    assert!(matches!(s.simulate_tx(&b64(&e)), Err(SandboxError::Execution(ExecutorError::ExpectedInvokeHostFunction))));
    let mut two = tx.clone();
    two.operations = vec![tx.operations[0].clone(), tx.operations[0].clone()].try_into().unwrap();
    let e = signed(two, network(&s), &[&k]);
    let pending = s.prepare_transaction(&b64(&e)).unwrap();
    assert!(matches!(pending.invocation, Err(SandboxError::Execution(ExecutorError::OnlySingleOperation))));
    let mut empty = tx;
    empty.operations = Default::default();
    let e = signed(empty, network(&s), &[&k]);
    assert!(matches!(s.simulate_tx(&b64(&e)), Err(SandboxError::MissingOperation)));
}

#[test]
fn transactions_without_soroban_data_are_refused() {
    let k = signer(13);
    let s = funded_sandbox(&k, 1000);
    let mut tx = invoke_tx(public_key(&k), 1, 100, XdrPreconditions::None, vec![]);
    tx.ext = TransactionExt::V0;
    let e = signed(tx, network(&s), &[&k]);
    let pending = s.prepare_transaction(&b64(&e)).unwrap();
    assert!(matches!(pending.invocation, Err(SandboxError::Execution(ExecutorError::ExpectedSorobanData))));
}

#[test]
fn contract_data_errors() {
    let s = Sandbox::new();
    let addr = ScAddress::Contract(ContractId(soroban_env_common::xdr::Hash([1; 32]))).to_xdr_base64(Limits::none()).unwrap();
    let skey = ScVal::U32(1).to_xdr_base64(Limits::none()).unwrap();
    assert!(matches!(s.get_contract_data("@@", &skey, "persistent"), Err(SandboxError::InvalidContractAddress)));
    assert!(matches!(s.get_contract_data(&addr, "@@", "persistent"), Err(SandboxError::InvalidKey)));
    assert!(matches!(s.get_contract_data(&addr, &skey, "forever"), Err(SandboxError::InvalidDurability)));
    assert!(matches!(s.get_contract_data(&addr, &skey, "temporary"), Err(SandboxError::NoData)));
}

#[test]
fn simulation_request_and_responses() {
    let k = signer(14);
    let s = funded_sandbox(&k, 1000);
    let e = signed(invoke_tx(public_key(&k), 1, 100, XdrPreconditions::None, vec![]), network(&s), &[&k]);
    let req = s.simulate_tx(&b64(&e)).unwrap();
    // The simulation runs under the sandbox's network configuration.
    assert_eq!(req.network_config.fee_configuration.fee_per_instruction_increment, 10);
    assert_eq!(req.network_config.tx_max_instructions, 100_000_000);
    assert_eq!(req.network_config.tx_memory_limit, 40_000_000);
    assert_eq!(req.network_config.cpu_cost_params.len(), 2);
    assert_eq!(req.network_config.memory_cost_params.len(), 3);
    assert_eq!(req.network_config.max_entry_ttl, 10_000_000);
    assert_eq!(req.source_account, public_key(&k));
    assert_eq!(req.prng_seed, [1; 32]);
    assert!(req.disable_non_root_auth && req.enable_diagnostics);
    assert_eq!(
        HostFunction::from_xdr(&req.host_function, Limits::none()).unwrap(),
        HostFunction::UploadContractWasm(vec![0u8, 97, 115, 109].try_into().unwrap())
    );

    let failed = SimulationOutcome {
        invoke_result: Err("boom".to_string()),
        auth: vec![],
        diagnostic_events: vec![DiagnosticEventRecord { in_successful_contract_call: false, event: vec![4] }],
        transaction_data: None,
        modified_entries: vec![],
    };
    match s.simulate_tx_response(failed).unwrap() {
        SimulateTransactionResponse::Error(r) => {
            assert_eq!(r.error, "boom");
            assert_eq!(r.id, "1");
            assert!(r.parsed);
            assert_eq!(r.events.len(), 1);
            assert_eq!(r.latest_ledger, 1_000_000);
        },
        _ => panic!("expected an error response"),
    }

    let missing = SimulationOutcome {
        invoke_result: Ok("AAAAAQ==".to_string()),
        auth: vec![],
        diagnostic_events: vec![],
        transaction_data: None,
        modified_entries: vec![],
    };
    assert!(matches!(s.simulate_tx_response(missing), Err(SandboxError::Execution(ExecutorError::TransactionDataMissing))));

    let entry = data_entry(2, 2, 2).to_xdr(Limits::none()).unwrap();
    let ok = SimulationOutcome {
        invoke_result: Ok("AAAAAQ==".to_string()),
        auth: vec!["auth".to_string()],
        diagnostic_events: vec![],
        transaction_data: Some(SimulatedTransactionData { xdr: "data".to_string(), resource_fee: 321 }),
        modified_entries: vec![LedgerEntryDiff { state_before: None, state_after: Some(entry.clone()) }],
    };
    match s.simulate_tx_response(ok).unwrap() {
        SimulateTransactionResponse::Success(r) => {
            assert_eq!(r.min_resource_fee, 321);
            assert_eq!(r.transaction_data, "data");
            let result = r.result.unwrap();
            assert_eq!(result.retval, "AAAAAQ==");
            assert_eq!(result.auth, vec!["auth".to_string()]);
            let changes = r.state_changes.unwrap();
            assert_eq!(changes.len(), 1);
            assert_eq!(changes[0].change_type, LedgerEntryChangeType::Updated);
            assert_eq!(changes[0].key, data_key(2, 2).to_xdr(Limits::none()).unwrap());
        },
        _ => panic!("expected a success response"),
    }
}

#[test]
fn changes_from_simulation_kinds() {
    let before = data_entry(3, 3, 1).to_xdr(Limits::none()).unwrap();
    let after = data_entry(3, 3, 2).to_xdr(Limits::none()).unwrap();
    let diffs = vec![
        LedgerEntryDiff { state_before: Some(before.clone()), state_after: Some(after.clone()) },
        LedgerEntryDiff { state_before: Some(before.clone()), state_after: None },
        LedgerEntryDiff { state_before: None, state_after: Some(after.clone()) },
    ];
    let changes = changes_from_simulation(&diffs).unwrap();
    let kinds: Vec<LedgerEntryChangeType> = changes.iter().map(|c| c.change_type).collect();
    assert_eq!(kinds, vec![LedgerEntryChangeType::Updated, LedgerEntryChangeType::Removed, LedgerEntryChangeType::Updated]);
    for c in &changes {
        assert_eq!(c.key, data_key(3, 3).to_xdr(Limits::none()).unwrap());
    }
    let bad = vec![LedgerEntryDiff { state_before: None, state_after: Some(vec![1, 2]) }];
    assert!(changes_from_simulation(&bad).is_err());
    assert!(all_diffs_have_state(&diffs));
    let empty = vec![LedgerEntryDiff { state_before: Some(before.clone()), state_after: None }, LedgerEntryDiff { state_before: None, state_after: None }];
    assert!(!all_diffs_have_state(&empty));
}

#[test]
fn executor_builds_footprint_entries() {
    let k = signer(15);
    let mut s = funded_sandbox(&k, 1000);
    // Store a contract data entry via a host change, then look at the next invocation's inputs.
    let key = data_key(4, 4);
    let entry = data_entry(4, 4, 4);
    let e = signed(invoke_tx(public_key(&k), 1, 100, XdrPreconditions::None, vec![key.clone()]), network(&s), &[&k]);
    let pending = s.prepare_transaction(&b64(&e)).unwrap();
    let change = LedgerChange {
        read_only: false,
        encoded_key: key.to_xdr(Limits::none()).unwrap(),
        encoded_new_value: Some(entry.to_xdr(Limits::none()).unwrap()),
        new_live_until: Some(1_500_000),
    };
    s.send_transaction(pending, Some(Ok(host_outcome(Ok(vec![]), vec![change])))).unwrap();
    let e = signed(invoke_tx(public_key(&k), 2, 100, XdrPreconditions::None, vec![key.clone()]), network(&s), &[&k]);
    let pending = s.prepare_transaction(&b64(&e)).unwrap();
    let inv = pending.invocation.unwrap();
    assert_eq!(inv.ledger_entries.len(), 1);
    assert_eq!(inv.ledger_entries[0].entry, Some(entry.to_xdr(Limits::none()).unwrap()));
    assert_eq!(inv.ledger_entries[0].live_until, Some(1_500_000));
    assert!(inv.modules.is_empty());
    assert_eq!(AccountId::from_xdr(&inv.source_account, Limits::none()).unwrap(), AccountId(PublicKey::PublicKeyTypeEd25519(Uint256(public_key(&k)))));
    let ex = Executor::new();
    let _ = ex;
    let env = envelope(&e);
    assert_eq!(env.header().cond, Preconditions::Unconditional);
    assert_eq!(env.header().seq_num, 2);
}
