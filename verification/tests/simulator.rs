//! End-to-end tests of the simulation pipeline, driven through the real
//! codec, digest, JSON and flamegraph crates.

use simulator::codec::{InnerTx, TxEnvelope};
use simulator::network::network_passphrase;
use simulator::pipeline::{replay_simulation, run_simulation};
use simulator::request::{parse_request, SimulationRequest};
use simulator::response::error_response;

use soroban_env_host::xdr::{
    BumpSequenceOp, FeeBumpTransaction, FeeBumpTransactionEnvelope, FeeBumpTransactionExt,
    FeeBumpTransactionInnerTx, LedgerEntry, LedgerEntryData, LedgerEntryExt, LedgerKey,
    LedgerKeyTtl, Limits, Memo, MuxedAccount, Operation, OperationBody, Preconditions,
    SequenceNumber, Transaction, TransactionEnvelope, TransactionExt, TransactionV0,
    TransactionV0Envelope, TransactionV0Ext, TransactionV1Envelope, TtlEntry, Uint256, WriteXdr,
};

fn b64(bytes: &[u8]) -> String {
    base64::Engine::encode(&base64::engine::general_purpose::STANDARD, bytes)
}

fn sample_operation() -> Operation {
    Operation {
        source_account: None,
        body: OperationBody::BumpSequence(BumpSequenceOp { bump_to: SequenceNumber(5) }),
    }
}

fn v1_envelope_b64(ops: Vec<Operation>) -> String {
    let tx = Transaction {
        source_account: MuxedAccount::Ed25519(Uint256([0u8; 32])),
        fee: 100,
        seq_num: SequenceNumber(1),
        cond: Preconditions::None,
        memo: Memo::None,
        operations: ops.try_into().unwrap(),
        ext: TransactionExt::V0,
    };
    let env = TransactionEnvelope::Tx(TransactionV1Envelope {
        tx,
        signatures: Vec::new().try_into().unwrap(),
    });
    b64(&env.to_xdr(Limits::none()).unwrap())
}

fn v0_envelope_b64(ops: Vec<Operation>) -> String {
    let tx = TransactionV0 {
        source_account_ed25519: Uint256([0u8; 32]),
        fee: 100,
        seq_num: SequenceNumber(1),
        time_bounds: None,
        memo: Memo::None,
        operations: ops.try_into().unwrap(),
        ext: TransactionV0Ext::V0,
    };
    let env = TransactionEnvelope::TxV0(TransactionV0Envelope {
        tx,
        signatures: Vec::new().try_into().unwrap(),
    });
    b64(&env.to_xdr(Limits::none()).unwrap())
}

fn fee_bump_envelope_b64(ops: Vec<Operation>) -> String {
    let inner_tx = Transaction {
        source_account: MuxedAccount::Ed25519(Uint256([0u8; 32])),
        fee: 100,
        seq_num: SequenceNumber(1),
        cond: Preconditions::None,
        memo: Memo::None,
        operations: ops.try_into().unwrap(),
        ext: TransactionExt::V0,
    };
    let inner = TransactionV1Envelope { tx: inner_tx, signatures: Vec::new().try_into().unwrap() };
    let bump = FeeBumpTransaction {
        fee_source: MuxedAccount::Ed25519(Uint256([1u8; 32])),
        fee: 200,
        inner_tx: FeeBumpTransactionInnerTx::Tx(inner),
        ext: FeeBumpTransactionExt::V0,
    };
    let env = TransactionEnvelope::TxFeeBump(FeeBumpTransactionEnvelope {
        tx: bump,
        signatures: Vec::new().try_into().unwrap(),
    });
    b64(&env.to_xdr(Limits::none()).unwrap())
}

fn ledger_key_b64() -> String {
    let key = LedgerKey::Ttl(LedgerKeyTtl { key_hash: soroban_env_host::xdr::Hash([2u8; 32]) });
    b64(&key.to_xdr(Limits::none()).unwrap())
}

fn ledger_entry_b64() -> String {
    let entry = LedgerEntry {
        last_modified_ledger_seq: 0,
        data: LedgerEntryData::Ttl(TtlEntry { key_hash: soroban_env_host::xdr::Hash([2u8; 32]), live_until_ledger_seq: 9 }),
        ext: LedgerEntryExt::V0,
    };
    b64(&entry.to_xdr(Limits::none()).unwrap())
}

fn base_request(envelope_xdr: String) -> SimulationRequest {
    SimulationRequest {
        network: None,
        envelope_xdr,
        result_meta_xdr: "BBBB".to_string(),
        ledger_entries: None,
        timestamp: None,
        ledger_sequence: None,
        wasm_path: None,
        mock_args: None,
        profile: None,
        enable_optimization_advisor: false,
    }
}

#[test]
fn test_time_travel_deserialization() {
    let json = r#"{"envelope_xdr": "AAAA", "result_meta_xdr": "BBBB", "timestamp": 1738077842, "ledger_sequence": 1234}"#;
    let req = parse_request(json).unwrap();
    assert_eq!(req.timestamp, Some(1738077842));
    assert_eq!(req.ledger_sequence, Some(1234));
}

#[test]
fn malformed_json_yields_error_shape() {
    let msg = parse_request("{not json").unwrap_err();
    assert!(msg.starts_with("Invalid JSON: "));
    assert!(msg.len() > "Invalid JSON: ".len());
    let res = error_response(msg);
    assert_eq!(res.status, "error");
    assert!(res.error.is_some());
    assert!(res.events.is_empty());
    assert!(res.logs.is_empty());
    assert!(res.flamegraph.is_none());
    assert!(res.optimization_report.is_none());
    assert!(res.budget_usage.is_none());
}

#[test]
fn missing_required_field_is_rejected() {
    let msg = parse_request(r#"{"result_meta_xdr": "BBBB"}"#).unwrap_err();
    assert!(msg.starts_with("Invalid JSON: "));
    assert!(msg.contains("envelope_xdr"));
}

#[test]
fn invalid_envelope_base64_names_field() {
    let req = base_request("!!!not-base64!!!".to_string());
    let res = run_simulation(&req);
    assert_eq!(res.status, "error");
    assert!(res.error.unwrap().starts_with("Failed to decode Envelope Base64: "));
    assert!(res.events.is_empty());
    assert!(res.logs.is_empty());
}

#[test]
fn invalid_envelope_bytes_name_record_kind() {
    let req = base_request(b64(&[1, 2, 3, 4]));
    let res = run_simulation(&req);
    assert_eq!(res.status, "error");
    assert!(res.error.unwrap().starts_with("Failed to parse Envelope XDR: "));
}

#[test]
fn malformed_ledger_key_aborts_preload() {
    let mut req = base_request(v1_envelope_b64(vec![sample_operation()]));
    req.ledger_entries = Some(vec![("!!!".to_string(), ledger_entry_b64())]);
    let res = run_simulation(&req);
    assert_eq!(res.status, "error");
    assert!(res.error.unwrap().starts_with("Failed to decode LedgerKey Base64: "));
    // all-or-nothing: no operation was walked, no trace line exists
    assert!(res.logs.is_empty());
    assert!(res.budget_usage.is_none());
}

#[test]
fn malformed_ledger_entry_aborts_preload() {
    let mut req = base_request(v1_envelope_b64(vec![sample_operation()]));
    req.ledger_entries = Some(vec![(ledger_key_b64(), b64(&[9, 9, 9]))]);
    let res = run_simulation(&req);
    assert_eq!(res.status, "error");
    assert!(res.error.unwrap().starts_with("Failed to parse LedgerEntry XDR: "));
    assert!(res.logs.is_empty());
}

#[test]
fn valid_ledger_entries_are_counted() {
    let mut req = base_request(v1_envelope_b64(vec![sample_operation()]));
    req.ledger_entries = Some(vec![(ledger_key_b64(), ledger_entry_b64())]);
    let res = run_simulation(&req);
    assert_eq!(res.status, "success");
    assert_eq!(res.logs[1], "Loaded 1 Ledger Entries");
    let budget = res.budget_usage.unwrap();
    assert_eq!(budget.operations_count, 1);
}

#[test]
fn envelope_variants_extract_alike() {
    let ops = || vec![sample_operation()];
    let r1 = run_simulation(&base_request(v1_envelope_b64(ops())));
    let r0 = run_simulation(&base_request(v0_envelope_b64(ops())));
    let rb = run_simulation(&base_request(fee_bump_envelope_b64(ops())));
    assert_eq!(r1.status, "success");
    assert_eq!(r0.status, "success");
    assert_eq!(rb.status, "success");
    let c1 = r1.budget_usage.unwrap().operations_count;
    let c0 = r0.budget_usage.unwrap().operations_count;
    let cb = rb.budget_usage.unwrap().operations_count;
    assert_eq!(c1, 1);
    assert_eq!(c0, 1);
    assert_eq!(cb, 1);
    // the same operation yields the same trace line in all three variants
    assert_eq!(r1.logs[2], r0.logs[2]);
    assert_eq!(r1.logs[2], rb.logs[2]);
    assert!(r1.logs[2].starts_with("Processing operation 0: "));
}

#[test]
fn model_extraction_agrees_across_variants() {
    let descs = vec!["first".to_string(), "second".to_string()];
    let plain = TxEnvelope::Tx(descs.clone());
    let legacy = TxEnvelope::TxV0(descs.clone());
    let bump = TxEnvelope::FeeBump(InnerTx::Tx(descs.clone()));
    assert_eq!(plain.operations(), &descs);
    assert_eq!(legacy.operations(), &descs);
    assert_eq!(bump.operations(), &descs);
}

#[test]
fn identical_input_replays_identically() {
    let mut req = base_request(v1_envelope_b64(vec![sample_operation()]));
    req.ledger_entries = Some(vec![(ledger_key_b64(), ledger_entry_b64())]);
    req.enable_optimization_advisor = true;
    let r1 = run_simulation(&req);
    let r2 = run_simulation(&req);
    assert_eq!(r1.status, r2.status);
    assert_eq!(r1.error, r2.error);
    assert_eq!(r1.events, r2.events);
    assert_eq!(r1.logs, r2.logs);
    let b1 = r1.budget_usage.unwrap();
    let b2 = r2.budget_usage.unwrap();
    assert_eq!(b1.cpu_instructions, b2.cpu_instructions);
    assert_eq!(b1.memory_bytes, b2.memory_bytes);
    assert_eq!(b1.operations_count, b2.operations_count);
}

#[test]
fn advisor_flag_gates_report() {
    let mut req = base_request(v1_envelope_b64(vec![sample_operation()]));
    let without = run_simulation(&req);
    assert_eq!(without.status, "success");
    assert!(without.optimization_report.is_none());
    req.enable_optimization_advisor = true;
    let with = run_simulation(&req);
    assert_eq!(with.status, "success");
    let report = with.optimization_report.unwrap();
    let budget = with.budget_usage.unwrap();
    assert_eq!(report.cpu_instructions, budget.cpu_instructions);
    assert_eq!(report.memory_bytes, budget.memory_bytes);
    assert_eq!(report.total_operations, budget.operations_count);
}

#[test]
fn profile_flag_gates_flamegraph() {
    let mut req = base_request(v1_envelope_b64(vec![sample_operation()]));
    let without = run_simulation(&req);
    assert_eq!(without.status, "success");
    assert!(without.flamegraph.is_none());
    req.profile = Some(true);
    let with = run_simulation(&req);
    // zero budget counters give the renderer nothing to draw, and a renderer
    // failure is non-fatal: the response stays a success either way
    assert_eq!(with.status, "success");
    if let Some(svg) = with.flamegraph {
        assert!(!svg.is_empty());
    }
}

#[test]
fn renderer_yields_nonempty_document() {
    let svg = simulator::flame::render_profile(5, 7).expect("nonzero counters render");
    assert!(!svg.is_empty());
    assert!(svg.contains("svg"));
}

#[test]
fn replay_mode_omits_downstream_stages() {
    let mut req = base_request("AAAA".to_string());
    req.wasm_path = Some("contract.wasm".to_string());
    req.profile = Some(true);
    req.enable_optimization_advisor = true;
    let res = replay_simulation(&req, Ok(vec![0, 1, 2]));
    assert_eq!(res.status, "success");
    assert!(res.flamegraph.is_none());
    assert!(res.optimization_report.is_none());
    assert!(res.budget_usage.is_none());
    assert_eq!(res.logs.len(), 2);
    assert_eq!(res.logs[1], "Execution: Skipped (Build Issue)");
}

#[test]
fn replay_mode_reports_unreadable_file() {
    let mut req = base_request("AAAA".to_string());
    req.wasm_path = Some("missing.wasm".to_string());
    let res = replay_simulation(&req, Err("no such file".to_string()));
    assert_eq!(res.status, "error");
    assert_eq!(res.error.unwrap(), "Failed to read WASM file: no such file");
    assert!(res.logs.is_empty());
}

#[test]
fn network_matching_is_case_insensitive() {
    let mainnet = "Public Global Stellar Network ; September 2015";
    assert_eq!(network_passphrase("MAINNET"), Some(mainnet));
    assert_eq!(network_passphrase("mainnet"), Some(mainnet));
    assert_eq!(network_passphrase("Public"), Some(mainnet));
    assert_eq!(network_passphrase("TestNet"), Some("Test SDF Network ; September 2015"));
    assert_eq!(network_passphrase("FUTURENET"), Some("Test SDF Future Network ; October 2022"));
    assert_eq!(network_passphrase("devnet"), None);
    assert_eq!(network_passphrase(""), None);
}

#[test]
fn network_id_is_passphrase_digest() {
    let passphrase = "Test SDF Network ; September 2015";
    let id = simulator::network::network_id_from_passphrase(passphrase);
    let expected = <sha2::Sha256 as sha2::Digest>::digest(passphrase.as_bytes());
    assert_eq!(id.as_slice(), expected.as_slice());
}

#[test]
fn unknown_network_still_succeeds() {
    let mut req = base_request(v1_envelope_b64(vec![sample_operation()]));
    req.network = Some("devnet".to_string());
    req.timestamp = Some(1738077842);
    req.ledger_sequence = Some(1234);
    let res = run_simulation(&req);
    assert_eq!(res.status, "success");
}

#[test]
fn fault_is_converted_to_error_shape() {
    let res = simulator::response::fault_response("boom");
    assert_eq!(res.status, "error");
    assert_eq!(res.error.unwrap(), "Simulator panicked: boom");
    assert!(res.events.is_empty());
    assert!(res.logs.is_empty());
    assert!(res.flamegraph.is_none());
    assert!(res.optimization_report.is_none());
    assert!(res.budget_usage.is_none());
}

#[test]
fn wrongly_typed_field_is_rejected() {
    let json = r#"{"envelope_xdr": "AAAA", "result_meta_xdr": "BBBB", "timestamp": "later"}"#;
    let msg = parse_request(json).unwrap_err();
    assert!(msg.starts_with("Invalid JSON: "));
    assert!(msg.contains("timestamp"));
    let json = r#"{"envelope_xdr": "AAAA", "result_meta_xdr": "BBBB", "ledger_sequence": 4294967296}"#;
    let msg = parse_request(json).unwrap_err();
    assert!(msg.contains("ledger_sequence"));
}

#[test]
fn non_object_document_is_rejected() {
    let msg = parse_request("[1, 2, 3]").unwrap_err();
    assert_eq!(msg, "Invalid JSON: expected a JSON object");
}

#[test]
fn null_optional_fields_count_as_absent() {
    let json = r#"{"envelope_xdr": "AAAA", "result_meta_xdr": "BBBB", "network": null, "timestamp": null, "profile": null}"#;
    let req = parse_request(json).unwrap();
    assert_eq!(req.network, None);
    assert_eq!(req.timestamp, None);
    assert_eq!(req.profile, None);
    assert!(!req.enable_optimization_advisor);
}
