//! Deterministic state-transition engine for a proof-of-stake chain.
//!
//! Given a pre-state (a versioned key-value store addressed by root hash) and
//! an ordered batch of transactions, the engine produces a post-state and an
//! effect log, so that two independent runs on the same inputs reach identical
//! results.

pub mod amounts;
pub mod auction;
pub mod block;
pub mod builder;
pub mod clock;
pub mod codec;
pub mod config;
pub mod effects;
pub mod engine_state;
pub mod execution;
pub mod handle_payment;
pub mod keys;
pub mod mint;
pub mod rate_limited;
pub mod ratio;
pub mod result;
pub mod rng;
pub mod store;
pub mod tracking_copy;
pub mod transaction;
pub mod util;
pub mod values;
pub mod vec_util;

