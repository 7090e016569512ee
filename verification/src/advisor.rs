//! Gas-optimization advisor interface.
//!
//! The advisor is a pure analysis over the budget metrics of one simulation.
//! Its internal policy is an external concern; the interface fixes that it
//! runs only on request, has no side effects, and reports over exactly the
//! metrics it was given.

use vstd::prelude::*;

verus! {

/// The canonical measurement triple handed to the advisor.
pub struct BudgetMetrics {
    pub cpu_instructions: u64,
    pub memory_bytes: u64,
    pub total_operations: usize,
}

/// Opaque serializable report: the advisor's view of one simulation's cost.
pub struct OptimizationReport {
    pub cpu_instructions: u64,
    pub memory_bytes: u64,
    pub total_operations: usize,
}

/// Stateless advisor; one instance is created per request that asks for it.
pub struct GasOptimizationAdvisor {
}

impl GasOptimizationAdvisor {
    pub fn new() -> GasOptimizationAdvisor {
        GasOptimizationAdvisor {  }
    }

    /// Pure analysis: the report is a function of the metrics alone and
    /// carries them unchanged.
    pub fn analyze(&self, metrics: &BudgetMetrics) -> (r: OptimizationReport)
        ensures
            r.cpu_instructions == metrics.cpu_instructions,
            r.memory_bytes == metrics.memory_bytes,
            r.total_operations == metrics.total_operations,
    {
        OptimizationReport {
            cpu_instructions: metrics.cpu_instructions,
            memory_bytes: metrics.memory_bytes,
            total_operations: metrics.total_operations,
        }
    }
}

} // verus!
