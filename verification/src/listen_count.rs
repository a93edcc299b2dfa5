//! Listen counts of agreements, attested by a valid signer of the registry.

pub mod error;
pub mod instruction;
pub mod state;
