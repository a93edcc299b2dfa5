//! Token claims gated by a single-signer attestation and guarded against
//! replay by a per-identity counter.

pub mod instruction;
pub mod processor;
pub mod state;
pub mod utils;
