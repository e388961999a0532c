//! The run manifest's status and the error a failed publish leaves.
use crate::text::concat2;
use vstd::prelude::*;

verus! {

/// A run whose pointers all published succeeded; otherwise publishing failed.
pub open spec fn manifest_status_of(publish_error: Option<String>) -> Seq<char> {
    if publish_error is None {
        "success"@
    } else {
        "publish_failed"@
    }
}

pub fn manifest_status(publish_error: &Option<String>) -> (r: &'static str)
    ensures
        r@ == manifest_status_of(*publish_error),
{
    if publish_error.is_none() {
        "success"
    } else {
        "publish_failed"
    }
}

/// The error a run reports after writing its manifest when publishing failed.
pub fn publish_failure_message(error: &str) -> (r: String)
    ensures
        r@ == "NATS publish failed after S3 upload: "@ + error@,
{
    concat2("NATS publish failed after S3 upload: ", error)
}

} // verus!
