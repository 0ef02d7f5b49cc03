//! A verified workflow that generates a random secret seed, encrypts it
//! through a key-management gateway, stores the ciphertext in an object
//! store, and checks both round trips byte for byte.
//!
//! The remote services themselves are reached from unverified driver code;
//! this crate holds the decisions: argument validation, the seed invariant,
//! the sequential workflow state machine with its integrity gates, and
//! in-memory gateways against which the round-trip laws are proved.

pub mod args;
pub mod bytes;
pub mod errors;
pub mod fake_kms;
pub mod fake_store;
pub mod seed;
pub mod workflow;
