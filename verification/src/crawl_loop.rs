//! One crawl run's bookkeeping.
pub mod buffers;
pub mod summary;

pub use buffers::CrawlBuffers;
pub use summary::{CrawlSummary, SourceFailure, SourceOutcome};
pub mod events;
pub mod source;
