//! Authorization programs that gate identity registration, token transfer
//! and reward distribution behind secp256k1 attestations.
//!
//! The shared core locates the signature-recovery instruction that was
//! submitted together with an authorization instruction, checks that its
//! offsets record refers to itself, binds the recovered address and message
//! to what the caller expects, and guards single-signer attestations against
//! replay with a per-identity counter.

pub mod account;
pub mod attestation;
pub mod claimable_tokens;
pub mod cli;
pub mod codec;
pub mod error;
pub mod eth_registry;
pub mod laws;
pub mod ledger;
pub mod listen_count;
pub mod locator;
pub mod pda;
pub mod reward_manager;
pub mod secp;
