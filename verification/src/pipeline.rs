//! The simulation pipeline: decode, configure, execute, measure, report,
//! assemble. Every fallible step short-circuits into the single error shape;
//! the success shape is reachable only when the whole decode stage succeeded.

use vstd::prelude::*;
use vstd::string::StringExecFns;
use crate::advisor::{BudgetMetrics, GasOptimizationAdvisor};
use crate::codec::{
    b64_decode, b64_decoded, envelope_rec, ledger_entry_wf, ledger_key_wf, parse_envelope,
    parse_ledger_entry, parse_ledger_key,
};
use crate::flame::render_profile;
use crate::host::{
    budget_cpu_consumed, budget_debug_string, budget_mem_consumed, host_budget, host_events,
    host_set_diagnostic_debug, host_set_network_id, host_set_sequence, host_set_timestamp,
    new_host,
};
use crate::network::{network_id_from_passphrase, network_passphrase};
use crate::request::SimulationRequest;
use crate::response::{error_response, BudgetUsage, SimulationResponse};
use crate::strings::{concat3, concat4, dec_str, prefixed, starts_with, usize_to_string};

verus! {

/// Which decode step of one ledger record fails first.
pub enum RecordFault {
    KeyB64,
    KeyXdr,
    EntryB64,
    EntryXdr,
}

/// The message prefix naming the failing record kind and step.
pub open spec fn fault_prefix(f: RecordFault) -> Seq<char> {
    match f {
        RecordFault::KeyB64 => "Failed to decode LedgerKey Base64: "@,
        RecordFault::KeyXdr => "Failed to parse LedgerKey XDR: "@,
        RecordFault::EntryB64 => "Failed to decode LedgerEntry Base64: "@,
        RecordFault::EntryXdr => "Failed to parse LedgerEntry XDR: "@,
    }
}

/// The first decode fault of one encoded key/entry pair, if any: the key is
/// decoded before the entry, and base64 before the binary schema.
pub open spec fn entry_fault(key: Seq<char>, val: Seq<char>) -> Option<RecordFault> {
    if b64_decoded(key) is None {
        Some(RecordFault::KeyB64)
    } else if !ledger_key_wf(b64_decoded(key)->Some_0) {
        Some(RecordFault::KeyXdr)
    } else if b64_decoded(val) is None {
        Some(RecordFault::EntryB64)
    } else if !ledger_entry_wf(b64_decoded(val)->Some_0) {
        Some(RecordFault::EntryXdr)
    } else {
        None
    }
}

/// The supplied ledger records, in request order.
pub open spec fn req_entries(req: SimulationRequest) -> Seq<(String, String)> {
    match req.ledger_entries {
        Some(es) => es@,
        None => Seq::empty(),
    }
}

/// Every supplied ledger record decodes: the all-or-nothing preload condition.
pub open spec fn entries_ok(req: SimulationRequest) -> bool {
    forall|i: int|
        0 <= i < req_entries(req).len() ==> (#[trigger] entry_fault(
            req_entries(req)[i].0@,
            req_entries(req)[i].1@,
        )) is None
}

/// The envelope field is valid base64.
pub open spec fn envelope_b64_ok(req: SimulationRequest) -> bool {
    b64_decoded(req.envelope_xdr@) is Some
}

/// The bytes behind the envelope field.
pub open spec fn envelope_bytes(req: SimulationRequest) -> Seq<u8>
    recommends
        envelope_b64_ok(req),
{
    b64_decoded(req.envelope_xdr@)->Some_0
}

/// The envelope field decodes all the way to an envelope record.
pub open spec fn envelope_ok(req: SimulationRequest) -> bool {
    envelope_b64_ok(req) && envelope_rec(envelope_bytes(req)) is Some
}

/// The operations extracted from the request's envelope.
pub open spec fn req_operations(req: SimulationRequest) -> Seq<Seq<char>>
    recommends
        envelope_ok(req),
{
    envelope_rec(envelope_bytes(req))->Some_0.operations()
}

/// The whole decode stage succeeds: envelope and every ledger record.
pub open spec fn decode_ok(req: SimulationRequest) -> bool {
    envelope_ok(req) && entries_ok(req)
}

/// The trace line recorded for one operation.
pub open spec fn op_trace_line(i: nat, desc: Seq<char>) -> Seq<char> {
    "Processing operation "@ + dec_str(i) + ": "@ + desc
}

/// Deterministic replay at the decode boundary: any two well-formed responses
/// that classify a request as its decode outcome dictates — as every response
/// of the pipeline does — agree on success versus error, and successful ones
/// agree on the operation count they measured. The budget counters and events
/// come from the opaque engine and are covered only as far as it is itself
/// deterministic.
pub proof fn lemma_outcome_deterministic(
    req: SimulationRequest,
    r1: SimulationResponse,
    r2: SimulationResponse,
)
    requires
        r1.wf(),
        r2.wf(),
        r1.is_success() <==> decode_ok(req),
        r2.is_success() <==> decode_ok(req),
        r1.is_success() ==> r1.budget_usage is Some && r1.budget_usage->Some_0.operations_count
            == req_operations(req).len(),
        r2.is_success() ==> r2.budget_usage is Some && r2.budget_usage->Some_0.operations_count
            == req_operations(req).len(),
    ensures
        r1.is_success() == r2.is_success(),
        r1.is_success() ==> r1.budget_usage->Some_0.operations_count
            == r2.budget_usage->Some_0.operations_count,
{
}

/// Walk the operations in envelope order, recording one trace line each.
/// The engine offers no general per-operation entry point here, so the walk
/// records the trace only; the host is carried along for the invocation to be
/// wired in.
pub fn execute_operations(_host: &soroban_env_host::Host, operations: &Vec<String>) -> (logs: Vec<
    String,
>)
    ensures
        logs@.len() == operations@.len(),
        forall|i: int|
            0 <= i < operations@.len() ==> (#[trigger] logs@[i])@ == op_trace_line(
                i as nat,
                operations@[i]@,
            ),
{
    let mut logs: Vec<String> = Vec::new();
    let mut i: usize = 0;
    while i < operations.len()
        invariant
            i <= operations@.len(),
            logs@.len() == i,
            forall|j: int|
                0 <= j < i ==> (#[trigger] logs@[j])@ == op_trace_line(j as nat, operations@[j]@),
        decreases operations@.len() - i,
    {
        let digits = usize_to_string(i);
        let line = concat4("Processing operation ", digits.as_str(), ": ", operations[i].as_str());
        logs.push(line);
        i = i + 1;
    }
    logs
}

/// Simulate one network-sourced request: decode the envelope and every
/// supplied ledger record, configure a fresh host, walk the operations,
/// snapshot the budget, and assemble exactly one response.
///
/// The success shape is returned exactly when the whole decode stage
/// succeeds; each decode failure short-circuits to the error shape with a
/// message naming the failing field or record kind, and a failing ledger
/// record aborts the request before any operation is walked.
pub fn run_simulation(req: &SimulationRequest) -> (r: SimulationResponse)
    ensures
        r.wf(),
        r.is_success() <==> decode_ok(*req),
        !envelope_b64_ok(*req) ==> starts_with(
            r.error_message(),
            "Failed to decode Envelope Base64: "@,
        ),
        envelope_b64_ok(*req) && !envelope_ok(*req) ==> starts_with(
            r.error_message(),
            "Failed to parse Envelope XDR: "@,
        ),
        envelope_ok(*req) && !entries_ok(*req) ==> exists|i: int|
            {
                &&& 0 <= i < req_entries(*req).len()
                &&& (#[trigger] entry_fault(
                    req_entries(*req)[i].0@,
                    req_entries(*req)[i].1@,
                )) is Some
                &&& forall|j: int|
                    0 <= j < i ==> entry_fault(
                        req_entries(*req)[j].0@,
                        req_entries(*req)[j].1@,
                    ) is None
                &&& starts_with(
                    r.error_message(),
                    fault_prefix(
                        entry_fault(req_entries(*req)[i].0@, req_entries(*req)[i].1@)->Some_0,
                    ),
                )
            },
        !req.enable_optimization_advisor ==> r.optimization_report is None,
        req.profile != Some(true) ==> r.flamegraph is None,
        r.flamegraph is Some ==> r.flamegraph->Some_0@.len() > 0,
        r.is_success() ==> {
            &&& r.budget_usage is Some
            &&& r.budget_usage->Some_0.operations_count == req_operations(*req).len()
            &&& (r.optimization_report is Some <==> req.enable_optimization_advisor)
            &&& (r.optimization_report matches Some(rep) ==> {
                &&& rep.cpu_instructions == r.budget_usage->Some_0.cpu_instructions
                &&& rep.memory_bytes == r.budget_usage->Some_0.memory_bytes
                &&& rep.total_operations == r.budget_usage->Some_0.operations_count
            })
            &&& r.logs@.len() == 2 + req_operations(*req).len()
            &&& starts_with(r.logs@[0]@, "Host Initialized with Budget: "@)
            &&& r.logs@[1]@ == "Loaded "@ + dec_str(req_entries(*req).len()) + " Ledger Entries"@
            &&& forall|i: int|
                0 <= i < req_operations(*req).len() ==> (#[trigger] r.logs@[2 + i])@
                    == op_trace_line(i as nat, req_operations(*req)[i])
        },
{
    let env_bytes = match b64_decode(req.envelope_xdr.as_str()) {
        Ok(b) => b,
        Err(e) => {
            return error_response(prefixed("Failed to decode Envelope Base64: ", e.as_str()));
        },
    };
    let envelope = match parse_envelope(&env_bytes) {
        Ok(env) => env,
        Err(e) => {
            return error_response(prefixed("Failed to parse Envelope XDR: ", e.as_str()));
        },
    };
    let host = new_host();
    host_set_diagnostic_debug(&host);
    if let Some(network) = &req.network {
        match network_passphrase(network.as_str()) {
            Some(passphrase) => {
                let id = network_id_from_passphrase(passphrase);
                host_set_network_id(&host, id);
            },
            None => {},
        }
    }
    if let Some(ts) = req.timestamp {
        host_set_timestamp(&host, ts as u64);
    }
    if let Some(seq_num) = req.ledger_sequence {
        host_set_sequence(&host, seq_num);
    }
    let mut loaded: usize = 0;
    match &req.ledger_entries {
        None => {},
        Some(entries) => {
            let mut i: usize = 0;
            while i < entries.len()
                invariant
                    i <= entries@.len(),
                    entries@ == req_entries(*req),
                    envelope_ok(*req),
                    loaded == i,
                    forall|j: int|
                        0 <= j < i ==> entry_fault(
                            req_entries(*req)[j].0@,
                            req_entries(*req)[j].1@,
                        ) is None,
                decreases entries@.len() - i,
            {
                let key_bytes = match b64_decode(entries[i].0.as_str()) {
                    Ok(b) => b,
                    Err(e) => {
                        proof {
                            assert(entry_fault(entries@[i as int].0@, entries@[i as int].1@)
                                == Some(RecordFault::KeyB64));
                            assert(!entries_ok(*req));
                        }
                        return error_response(
                            prefixed("Failed to decode LedgerKey Base64: ", e.as_str()),
                        );
                    },
                };
                match parse_ledger_key(&key_bytes) {
                    Ok(()) => {},
                    Err(e) => {
                        proof {
                            assert(entry_fault(entries@[i as int].0@, entries@[i as int].1@)
                                == Some(RecordFault::KeyXdr));
                            assert(!entries_ok(*req));
                        }
                        return error_response(
                            prefixed("Failed to parse LedgerKey XDR: ", e.as_str()),
                        );
                    },
                }
                let entry_bytes = match b64_decode(entries[i].1.as_str()) {
                    Ok(b) => b,
                    Err(e) => {
                        proof {
                            assert(entry_fault(entries@[i as int].0@, entries@[i as int].1@)
                                == Some(RecordFault::EntryB64));
                            assert(!entries_ok(*req));
                        }
                        return error_response(
                            prefixed("Failed to decode LedgerEntry Base64: ", e.as_str()),
                        );
                    },
                };
                match parse_ledger_entry(&entry_bytes) {
                    Ok(()) => {},
                    Err(e) => {
                        proof {
                            assert(entry_fault(entries@[i as int].0@, entries@[i as int].1@)
                                == Some(RecordFault::EntryXdr));
                            assert(!entries_ok(*req));
                        }
                        return error_response(
                            prefixed("Failed to parse LedgerEntry XDR: ", e.as_str()),
                        );
                    },
                }
                loaded = loaded + 1;
                i = i + 1;
            }
        },
    }
    proof {
        assert(entries_ok(*req));
        assert(loaded == req_entries(*req).len());
    }
    let operations = envelope.operations();
    let exec_logs = execute_operations(&host, operations);
    let budget = host_budget(&host);
    let cpu = budget_cpu_consumed(&budget);
    let mem = budget_mem_consumed(&budget);
    let ops_count = operations.len();
    let budget_usage = BudgetUsage {
        cpu_instructions: cpu,
        memory_bytes: mem,
        operations_count: ops_count,
    };
    let optimization_report = if req.enable_optimization_advisor {
        let advisor = GasOptimizationAdvisor::new();
        let metrics = BudgetMetrics {
            cpu_instructions: cpu,
            memory_bytes: mem,
            total_operations: ops_count,
        };
        Some(advisor.analyze(&metrics))
    } else {
        None
    };
    let mut flamegraph: Option<String> = None;
    let profile = match req.profile {
        Some(b) => b,
        None => false,
    };
    if profile {
        flamegraph = render_profile(cpu, mem);
    }
    let events = match host_events(&host) {
        Ok(evs) => evs,
        Err(_) => {
            let mut placeholder: Vec<String> = Vec::new();
            placeholder.push(String::from_str("Failed to retrieve events"));
            placeholder
        },
    };
    let budget_str = budget_debug_string(&budget);
    let mut logs: Vec<String> = Vec::new();
    logs.push(prefixed("Host Initialized with Budget: ", budget_str.as_str()));
    let loaded_digits = usize_to_string(loaded);
    logs.push(concat3("Loaded ", loaded_digits.as_str(), " Ledger Entries"));
    let mut j: usize = 0;
    while j < exec_logs.len()
        invariant
            j <= exec_logs@.len(),
            logs@.len() == 2 + j,
            starts_with(logs@[0]@, "Host Initialized with Budget: "@),
            logs@[1]@ == "Loaded "@ + dec_str(req_entries(*req).len()) + " Ledger Entries"@,
            exec_logs@.len() == req_operations(*req).len(),
            forall|k: int|
                0 <= k < exec_logs@.len() ==> (#[trigger] exec_logs@[k])@ == op_trace_line(
                    k as nat,
                    req_operations(*req)[k],
                ),
            forall|k: int|
                0 <= k < j ==> (#[trigger] logs@[2 + k])@ == op_trace_line(
                    k as nat,
                    req_operations(*req)[k],
                ),
        decreases exec_logs@.len() - j,
    {
        logs.push(exec_logs[j].clone());
        j = j + 1;
    }
    proof {
        crate::response::lemma_status_words_differ();
    }
    SimulationResponse {
        status: String::from_str("success"),
        error: None,
        events,
        logs,
        flamegraph,
        optimization_report,
        budget_usage: Some(budget_usage),
    }
}

/// Assemble the response of one local-replay request from the pre-read replay
/// file. The mode is degraded by design: a fresh default host is built, no
/// operation is executed, and neither a budget snapshot, an advisor report
/// nor a flamegraph is ever attached, whatever the request's flags say.
pub fn replay_simulation(req: &SimulationRequest, wasm_bytes: Result<Vec<u8>, String>) -> (r:
    SimulationResponse)
    requires
        req.wasm_path is Some,
    ensures
        r.wf(),
        r.is_success() <==> wasm_bytes is Ok,
        wasm_bytes is Err ==> r.error_message() == "Failed to read WASM file: "@
            + wasm_bytes->Err_0@,
        r.flamegraph is None,
        r.optimization_report is None,
        r.budget_usage is None,
        r.is_success() ==> r.logs@.len() == 2 && starts_with(r.logs@[0]@, "Host Budget: "@)
            && r.logs@[1]@ == "Execution: Skipped (Build Issue)"@,
{
    let _wasm = match wasm_bytes {
        Ok(bytes) => bytes,
        Err(e) => {
            return error_response(prefixed("Failed to read WASM file: ", e.as_str()));
        },
    };
    let host = new_host();
    host_set_diagnostic_debug(&host);
    let events = match host_events(&host) {
        Ok(evs) => evs,
        Err(e) => {
            let mut placeholder: Vec<String> = Vec::new();
            placeholder.push(prefixed("Failed to retrieve events: ", e.as_str()));
            placeholder
        },
    };
    let budget = host_budget(&host);
    let budget_str = budget_debug_string(&budget);
    let mut logs: Vec<String> = Vec::new();
    logs.push(prefixed("Host Budget: ", budget_str.as_str()));
    logs.push(String::from_str("Execution: Skipped (Build Issue)"));
    proof {
        crate::response::lemma_status_words_differ();
    }
    SimulationResponse {
        status: String::from_str("success"),
        error: None,
        events,
        logs,
        flamegraph: None,
        optimization_report: None,
        budget_usage: None,
    }
}

} // verus!
