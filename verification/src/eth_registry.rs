//! The signer-group registry: groups of external addresses whose members
//! are added and removed by the group's owner or, once the owner has
//! disabled itself, only by three attesting members.

pub mod instruction;
pub mod processor;
pub mod state;
