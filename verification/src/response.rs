//! The single discriminated response shape of a simulation, and the
//! constructors that keep every exit path inside it.

use vstd::prelude::*;
use vstd::string::StringExecFns;
use crate::advisor::OptimizationReport;
use crate::strings::{prefixed, starts_with};

verus! {

/// Resource-budget snapshot taken after execution.
pub struct BudgetUsage {
    pub cpu_instructions: u64,
    pub memory_bytes: u64,
    pub operations_count: usize,
}

/// Exactly one of two shapes: a success (error is absent) or an error
/// (message present, every other field empty or absent).
pub struct SimulationResponse {
    pub status: String,
    pub error: Option<String>,
    pub events: Vec<String>,
    pub logs: Vec<String>,
    pub flamegraph: Option<String>,
    pub optimization_report: Option<OptimizationReport>,
    pub budget_usage: Option<BudgetUsage>,
}

impl SimulationResponse {
    pub open spec fn is_success(self) -> bool {
        self.status@ == "success"@
    }

    pub open spec fn is_error(self) -> bool {
        self.status@ == "error"@
    }

    /// The error message of an error-shaped response.
    pub open spec fn error_message(self) -> Seq<char>
        recommends
            self.error is Some,
    {
        self.error->Some_0@
    }

    /// The response is one of the two legal shapes and nothing in between.
    pub open spec fn wf(self) -> bool {
        &&& self.is_success() || self.is_error()
        &&& (self.is_success() <==> self.error is None)
        &&& self.is_error() ==> {
            &&& self.error is Some
            &&& self.events@.len() == 0
            &&& self.logs@.len() == 0
            &&& self.flamegraph is None
            &&& self.optimization_report is None
            &&& self.budget_usage is None
        }
    }
}

/// The two status words differ.
pub proof fn lemma_status_words_differ()
    ensures
        "success"@ != "error"@,
{
    reveal_strlit("success");
    reveal_strlit("error");
    assert("success"@.len() == 7);
    assert("error"@.len() == 5);
}

/// The two status words never coincide: no response is both shapes at once.
pub proof fn lemma_shapes_disjoint(r: SimulationResponse)
    ensures
        !(r.is_success() && r.is_error()),
{
    lemma_status_words_differ();
}

/// The error shape: the given message, everything else empty or absent.
pub fn error_response(msg: String) -> (r: SimulationResponse)
    ensures
        r.wf(),
        r.is_error(),
        r.error == Some(msg),
{
    proof {
        lemma_status_words_differ();
    }
    SimulationResponse {
        status: String::from_str("error"),
        error: Some(msg),
        events: Vec::new(),
        logs: Vec::new(),
        flamegraph: None,
        optimization_report: None,
        budget_usage: None,
    }
}

/// An intercepted engine fault, converted to the error shape instead of
/// crossing the process boundary.
pub fn fault_response(panic_msg: &str) -> (r: SimulationResponse)
    ensures
        r.wf(),
        r.is_error(),
        r.error is Some,
        r.error_message() == "Simulator panicked: "@ + panic_msg@,
        starts_with(r.error_message(), "Simulator panicked: "@),
{
    error_response(prefixed("Simulator panicked: ", panic_msg))
}

} // verus!
