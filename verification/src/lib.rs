//! Cost modelling for Groth16-shaped workloads over a pairing-friendly curve.
//!
//! The heart of the crate is the operation-count cost model: a pure function
//! from the circuit parameters (n, k, t, l) to a schedule of group-operation
//! invocations for the prover and the verifier. Around it sits a workload
//! harness that turns a schedule into batches of randomized curve operations
//! which a caller can time.

pub mod curve;
pub mod schedule;
pub mod workload;
