//! Per-asset coverage of the source registry: which sources speak about each
//! asset of the universe, and what is missing.
pub mod report;
pub mod rules;
pub mod state;

pub use report::{build_source_coverage_report, AvailableDisabledSourceDetail, SourceCoverageRecord};
