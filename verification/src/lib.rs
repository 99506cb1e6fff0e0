//! Claim/assign task dispatch over a publish/subscribe bus: topic scheme,
//! message model, arbitration, the worker's handshake and the task executor's
//! decision logic, each with a machine-checked contract.

pub mod assigner;
pub mod assigner_proofs;
pub mod bus;
pub mod demos;
pub mod executor;
pub mod executor_proofs;
pub mod factorial_module;
pub mod keyspace;
pub mod protocol_proofs;
pub mod schema;
pub mod signal;
pub mod submitter;
pub mod system;
pub mod tasks;
pub mod worker;
pub mod worker_proofs;
