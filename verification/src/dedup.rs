//! Deduplication of raw events against what earlier runs stored.
pub mod decision;
pub mod prefix;
pub mod store;

pub use self::decision::{DecisionView, DedupDecision};
pub use self::store::DedupStore;
