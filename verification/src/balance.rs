//! Flood controls: caps on derivatives snapshots and community reactions.
pub mod classification;
pub mod policy;
pub mod record;
pub mod stats;
pub mod tracker;

pub use policy::SourceBalancePolicy;
pub use record::SourceBalanceRecord;
pub use stats::SourceRunStats;
pub use tracker::{Admission, SourceBalanceTracker};
