//! What a run does with its outputs once they are stored: which objects it
//! lists in the manifest, how pointer publishing is tallied, and the run status.
pub mod diagnostics;
pub mod manifest;
pub mod publish;
