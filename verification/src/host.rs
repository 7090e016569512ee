//! Trusted adapter around the contract-execution host.
//!
//! The host is an opaque engine: one instance is owned per request, its
//! ledger context is configured before execution, and its budget counters and
//! event log are read afterwards. Nothing about its internal accounting is
//! assumed; every wrapper states only what holds of every outcome.

use vstd::prelude::*;

verus! {

#[verifier::external_type_specification]
#[verifier::external_body]
pub struct ExHost(soroban_env_host::Host);

#[verifier::external_type_specification]
#[verifier::external_body]
pub struct ExBudget(soroban_env_host::budget::Budget);

/// Relies on `Host::default`: a fresh host with an empty budget and no ledger
/// context yet, owned by this request alone.
#[verifier::external_body]
pub(crate) fn new_host() -> soroban_env_host::Host {
    soroban_env_host::Host::default()
}

/// Relies on `Host::set_diagnostic_level`: raises diagnostic verbosity to its
/// maximum. The call only fails under reentrant host access, which this
/// single-threaded pipeline never performs, so a failure is ignored.
#[verifier::external_body]
pub(crate) fn host_set_diagnostic_debug(host: &soroban_env_host::Host) {
    let _ = host.set_diagnostic_level(soroban_env_host::DiagnosticLevel::Debug);
}

/// Relies on `Host::with_mut_ledger_info` and `Host::set_ledger_info`: stores
/// the given network identifier in the host's ledger context, initializing
/// the context with defaults first when the host has none yet.
#[verifier::external_body]
pub(crate) fn host_set_network_id(host: &soroban_env_host::Host, id: [u8; 32]) {
    if host.with_mut_ledger_info(|li| li.network_id = id).is_err() {
        let mut info = soroban_env_host::LedgerInfo::default();
        info.network_id = id;
        let _ = host.set_ledger_info(info);
    }
}

/// Relies on `Host::with_mut_ledger_info` and `Host::set_ledger_info`: stores
/// the given timestamp in the host's ledger context, initializing the context
/// with defaults first when the host has none yet.
#[verifier::external_body]
pub(crate) fn host_set_timestamp(host: &soroban_env_host::Host, timestamp: u64) {
    if host.with_mut_ledger_info(|li| li.timestamp = timestamp).is_err() {
        let mut info = soroban_env_host::LedgerInfo::default();
        info.timestamp = timestamp;
        let _ = host.set_ledger_info(info);
    }
}

/// Relies on `Host::with_mut_ledger_info` and `Host::set_ledger_info`: stores
/// the given ledger sequence number in the host's ledger context,
/// initializing the context with defaults first when the host has none yet.
#[verifier::external_body]
pub(crate) fn host_set_sequence(host: &soroban_env_host::Host, sequence: u32) {
    if host.with_mut_ledger_info(|li| li.sequence_number = sequence).is_err() {
        let mut info = soroban_env_host::LedgerInfo::default();
        info.sequence_number = sequence;
        let _ = host.set_ledger_info(info);
    }
}

/// Relies on `Host::budget_cloned`: a snapshot of the host's budget.
#[verifier::external_body]
pub(crate) fn host_budget(host: &soroban_env_host::Host) -> soroban_env_host::budget::Budget {
    host.budget_cloned()
}

/// Relies on `Budget::get_cpu_insns_consumed`: the consumed CPU-instruction
/// count, or zero when the budget cannot report it.
#[verifier::external_body]
pub(crate) fn budget_cpu_consumed(budget: &soroban_env_host::budget::Budget) -> u64 {
    budget.get_cpu_insns_consumed().unwrap_or(0)
}

/// Relies on `Budget::get_mem_bytes_consumed`: the consumed memory-byte
/// count, or zero when the budget cannot report it.
#[verifier::external_body]
pub(crate) fn budget_mem_consumed(budget: &soroban_env_host::budget::Budget) -> u64 {
    budget.get_mem_bytes_consumed().unwrap_or(0)
}

/// Relies on `Budget`'s `Debug` implementation: a human-readable summary of
/// the budget counters, used only in log text.
#[verifier::external_body]
pub(crate) fn budget_debug_string(budget: &soroban_env_host::budget::Budget) -> String {
    format!("{:?}", budget)
}

/// Relies on `Host::get_events`: the events recorded by the host so far, each
/// rendered through its `Debug` implementation; an error is rendered the same
/// way.
#[verifier::external_body]
pub(crate) fn host_events(host: &soroban_env_host::Host) -> Result<Vec<String>, String> {
    match host.get_events() {
        Ok(evs) => Ok(evs.0.iter().map(|e| format!("{:?}", e)).collect()),
        Err(e) => Err(format!("{:?}", e)),
    }
}

} // verus!
