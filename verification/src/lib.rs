//! Custody vaults that bind an owner to a post-quantum public key.
//!
//! - [`catalog`]: the algorithms and their fixed parameters.
//! - [`state`]: the persisted records: compliance status, registry, vault.
//! - [`instructions`] and [`program`]: the operations on those records:
//!   setting the registry up, creating a vault, rotating its key,
//!   authorizing a signature.
//! - [`laws`]: what holds of the catalog and the operations for all inputs.
//! - [`token`]: the rules in front of the token.
//! - [`sdk`]: the client side: key pairs, signing, reports.
//!
//! Time is an argument of every operation, and what an operation would
//! publish is its result: the host reads the clock and publishes. An
//! operation that fails leaves every record as it was.
//!
//! The public functions carry contracts that Verus proves. What is taken
//! on trust of the crates that generate keys and sign is stated where they
//! are called, in [`sdk::crypto`].

pub mod catalog;
pub mod error;
pub mod identity;
pub mod instructions;
pub mod laws;
pub mod program;
pub mod sdk;
pub mod state;
pub mod token;
