//! Causality tracking for a replicated key-value store.
//!
//! Each replica stamps every local update with a vector clock, merges
//! clocks when it receives remote updates, and a four-outcome comparator
//! classifies two replicas' views of the same key as causally ordered or
//! concurrent (conflicting).

pub mod clock;
pub mod error;
pub mod relation;
pub mod replica;
pub mod scenario;
