//! Verified core of a Soroban transaction simulator.
//!
//! The library decodes a base64-encoded transaction envelope together with
//! auxiliary ledger records, configures a contract-execution host, walks the
//! envelope's operations, extracts a resource-budget snapshot, optionally runs
//! a gas-optimization advisor and a flamegraph renderer, and assembles exactly
//! one discriminated response: a success shape or an error shape, never both.
//!
//! Calls into the execution host, the binary codec, the JSON facility, the
//! digest primitive and the flamegraph renderer go through small trusted
//! wrappers; everything around them is verified.

pub mod strings;
pub mod advisor;
pub mod network;
pub mod host;
pub mod codec;
pub mod json;
pub mod request;
pub mod response;
pub mod flame;
pub mod pipeline;
