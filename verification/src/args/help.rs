//! The usage text, which lists every option and the defaults.
use super::defaults::{
    DEFAULT_COMMUNITY_MAX_EVENTS_PER_RUN, DEFAULT_COMMUNITY_MAX_EVENTS_PER_SOURCE,
    DEFAULT_DERIVATIVES_MAX_EVENTS_PER_RUN, DEFAULT_DERIVATIVES_MAX_EVENTS_PER_SOURCE,
    DEFAULT_NATS_STREAM, DEFAULT_NATS_SUBJECT, DEFAULT_OBJECT_STORE_BUCKET,
    DEFAULT_OBJECT_STORE_REGION, DEFAULT_SOURCE_REGISTRY_PATH,
};
use crate::numbers::{nat_to_dec, push_decimal};
use crate::text::push_str;
use vstd::prelude::*;

verus! {

pub const USAGE: &'static str = "Usage: intel-crawl-app [--source-registry ABS_PATH] [--max-items-per-source N] [--schedule-interval-ms N] [--source-id ID] [--nats-url nats://HOST:4222] [--nats-subject SUBJECT] [--nats-stream STREAM] [--object-store-bucket BUCKET] [--object-store-region REGION] [--dedup-lookback-days N] [--chunk-max-records N] [--derivatives-max-events-per-run N] [--derivatives-max-events-per-source N] [--community-max-events-per-run N] [--community-max-events-per-source N] [--backfill-start-ms TS] [--backfill-end-ms TS] [--replay-pending-outbox] [--dry-run]";

/// The usage line, then each default on a line of its own.
pub open spec fn help_text() -> Seq<char> {
    USAGE@ + "\n\nDefaults:\n  --source-registry "@ + DEFAULT_SOURCE_REGISTRY_PATH@
        + "\n  --nats-subject "@ + DEFAULT_NATS_SUBJECT@ + "\n  --nats-stream "@
        + DEFAULT_NATS_STREAM@ + "\n  --object-store-bucket "@ + DEFAULT_OBJECT_STORE_BUCKET@
        + "\n  --object-store-region "@ + DEFAULT_OBJECT_STORE_REGION@
        + "\n  --derivatives-max-events-per-run "@ + nat_to_dec(
        DEFAULT_DERIVATIVES_MAX_EVENTS_PER_RUN as nat,
    ) + "\n  --derivatives-max-events-per-source "@ + nat_to_dec(
        DEFAULT_DERIVATIVES_MAX_EVENTS_PER_SOURCE as nat,
    ) + "\n  --community-max-events-per-run "@ + nat_to_dec(
        DEFAULT_COMMUNITY_MAX_EVENTS_PER_RUN as nat,
    ) + "\n  --community-max-events-per-source "@ + nat_to_dec(
        DEFAULT_COMMUNITY_MAX_EVENTS_PER_SOURCE as nat,
    )
}

pub fn help() -> (h: String)
    ensures
        h@ == help_text(),
{
    let mut h = USAGE.to_owned();
    push_str(&mut h, "\n\nDefaults:\n  --source-registry ");
    push_str(&mut h, DEFAULT_SOURCE_REGISTRY_PATH);
    push_str(&mut h, "\n  --nats-subject ");
    push_str(&mut h, DEFAULT_NATS_SUBJECT);
    push_str(&mut h, "\n  --nats-stream ");
    push_str(&mut h, DEFAULT_NATS_STREAM);
    push_str(&mut h, "\n  --object-store-bucket ");
    push_str(&mut h, DEFAULT_OBJECT_STORE_BUCKET);
    push_str(&mut h, "\n  --object-store-region ");
    push_str(&mut h, DEFAULT_OBJECT_STORE_REGION);
    push_str(&mut h, "\n  --derivatives-max-events-per-run ");
    push_decimal(&mut h, DEFAULT_DERIVATIVES_MAX_EVENTS_PER_RUN as u64);
    push_str(&mut h, "\n  --derivatives-max-events-per-source ");
    push_decimal(&mut h, DEFAULT_DERIVATIVES_MAX_EVENTS_PER_SOURCE as u64);
    push_str(&mut h, "\n  --community-max-events-per-run ");
    push_decimal(&mut h, DEFAULT_COMMUNITY_MAX_EVENTS_PER_RUN as u64);
    push_str(&mut h, "\n  --community-max-events-per-source ");
    push_decimal(&mut h, DEFAULT_COMMUNITY_MAX_EVENTS_PER_SOURCE as u64);
    h
}

} // verus!
