//! Command-line arguments for a deployment that writes to an S3-compatible
//! object store at an explicit endpoint, with path-style addressing.
use crate::args::types::opt_string_view;
use crate::args::parse::{lemma_non_negative_i64_bounds, lemma_positive_arg_bounds};
use crate::args::validation::{
    absolute_path_spec, is_absolute_path, backfill_window_error, non_empty_value_spec, non_negative_i64_spec,
    positive_arg_spec,
};
pub use crate::args::validation::{absolute_path_arg, non_negative_i64_arg, positive_usize_arg};
use crate::normalization::{strip_trailing_slashes, trim_trailing_slashes};
use crate::numbers::{nat_to_dec, parse_unsigned, parse_unsigned_decimal, push_decimal};
use crate::str_map::string_views;
use crate::text::{
    chars_of, concat2, concat3, is_blank, push_str, split_words, starts_with, str_eq,
    str_is_blank, str_starts_with, words,
};
use vstd::prelude::*;

verus! {

pub const DEFAULT_SOURCE_REGISTRY_PATH: &'static str =
    "/opt/nangman-crypto/intel-crawl/config/source-registry.rss-seed.v1.json";

pub const DEFAULT_NATS_SUBJECT: &'static str = "raw_intel_event.created";

pub const DEFAULT_NATS_STREAM: &'static str = "RAW_INTEL";

pub const DEFAULT_OBJECT_STORE_ENDPOINT: &'static str = "https://s3.nangman.cloud";

pub const DEFAULT_OBJECT_STORE_BUCKET: &'static str = "intel-crawl-app-l0";

pub const DEFAULT_OBJECT_STORE_REGION: &'static str = "us-east-1";

pub const DEFAULT_DEDUP_LOOKBACK_DAYS: u16 = 14;

pub const DEFAULT_CHUNK_MAX_RECORDS: usize = 1000;

pub const DEFAULT_DERIVATIVES_MAX_EVENTS_PER_RUN: usize = 12;

pub const DEFAULT_DERIVATIVES_MAX_EVENTS_PER_SOURCE: usize = 6;

pub const DEFAULT_COMMUNITY_MAX_EVENTS_PER_RUN: usize = 30;

pub const DEFAULT_COMMUNITY_MAX_EVENTS_PER_SOURCE: usize = 5;

pub const DEFAULT_MAX_ITEMS_PER_SOURCE: usize = 50;

/// Where raw events are stored.
#[derive(Debug, Clone, PartialEq, Eq)]
pub struct ObjectStoreConfig {
    pub endpoint: String,
    pub bucket: String,
    pub region: String,
    pub force_path_style: bool,
}

/// The crawler's options. The registry path is kept as text; it always starts
/// with `/`.
#[derive(Debug, Clone, PartialEq, Eq)]
pub struct Args {
    pub source_registry: String,
    pub max_items_per_source: usize,
    pub schedule_interval_ms: Option<u64>,
    pub dry_run: bool,
    pub source_id: Option<String>,
    pub nats_url: Option<String>,
    pub nats_subject: String,
    pub nats_stream: String,
    pub object_store: ObjectStoreConfig,
    pub dedup_lookback_days: u16,
    pub chunk_max_records: usize,
    pub derivatives_max_events_per_run: usize,
    pub derivatives_max_events_per_source: usize,
    pub community_max_events_per_run: usize,
    pub community_max_events_per_source: usize,
    pub backfill_start_ms: Option<i64>,
    pub backfill_end_ms: Option<i64>,
}

/// The options with every text as its characters.
pub struct EndpointArgsView {
    pub source_registry: Seq<char>,
    pub max_items_per_source: usize,
    pub schedule_interval_ms: Option<u64>,
    pub dry_run: bool,
    pub source_id: Option<Seq<char>>,
    pub nats_url: Option<Seq<char>>,
    pub nats_subject: Seq<char>,
    pub nats_stream: Seq<char>,
    pub endpoint: Seq<char>,
    pub bucket: Seq<char>,
    pub region: Seq<char>,
    pub force_path_style: bool,
    pub dedup_lookback_days: u16,
    pub chunk_max_records: usize,
    pub derivatives_max_events_per_run: usize,
    pub derivatives_max_events_per_source: usize,
    pub community_max_events_per_run: usize,
    pub community_max_events_per_source: usize,
    pub backfill_start_ms: Option<i64>,
    pub backfill_end_ms: Option<i64>,
}

impl View for Args {
    type V = EndpointArgsView;

    open spec fn view(&self) -> EndpointArgsView {
        EndpointArgsView {
            source_registry: self.source_registry@,
            max_items_per_source: self.max_items_per_source,
            schedule_interval_ms: self.schedule_interval_ms,
            dry_run: self.dry_run,
            source_id: opt_string_view(self.source_id),
            nats_url: opt_string_view(self.nats_url),
            nats_subject: self.nats_subject@,
            nats_stream: self.nats_stream@,
            endpoint: self.object_store.endpoint@,
            bucket: self.object_store.bucket@,
            region: self.object_store.region@,
            force_path_style: self.object_store.force_path_style,
            dedup_lookback_days: self.dedup_lookback_days,
            chunk_max_records: self.chunk_max_records,
            derivatives_max_events_per_run: self.derivatives_max_events_per_run,
            derivatives_max_events_per_source: self.derivatives_max_events_per_source,
            community_max_events_per_run: self.community_max_events_per_run,
            community_max_events_per_source: self.community_max_events_per_source,
            backfill_start_ms: self.backfill_start_ms,
            backfill_end_ms: self.backfill_end_ms,
        }
    }
}

/// The options when none is given.
pub open spec fn default_args() -> EndpointArgsView {
    EndpointArgsView {
        source_registry: DEFAULT_SOURCE_REGISTRY_PATH@,
        max_items_per_source: DEFAULT_MAX_ITEMS_PER_SOURCE,
        schedule_interval_ms: None,
        dry_run: false,
        source_id: None,
        nats_url: None,
        nats_subject: DEFAULT_NATS_SUBJECT@,
        nats_stream: DEFAULT_NATS_STREAM@,
        endpoint: DEFAULT_OBJECT_STORE_ENDPOINT@,
        bucket: DEFAULT_OBJECT_STORE_BUCKET@,
        region: DEFAULT_OBJECT_STORE_REGION@,
        force_path_style: true,
        dedup_lookback_days: DEFAULT_DEDUP_LOOKBACK_DAYS,
        chunk_max_records: DEFAULT_CHUNK_MAX_RECORDS,
        derivatives_max_events_per_run: DEFAULT_DERIVATIVES_MAX_EVENTS_PER_RUN,
        derivatives_max_events_per_source: DEFAULT_DERIVATIVES_MAX_EVENTS_PER_SOURCE,
        community_max_events_per_run: DEFAULT_COMMUNITY_MAX_EVENTS_PER_RUN,
        community_max_events_per_source: DEFAULT_COMMUNITY_MAX_EVENTS_PER_SOURCE,
        backfill_start_ms: None,
        backfill_end_ms: None,
    }
}

pub const USAGE: &'static str = "Usage: intel-crawl-app [--source-registry ABS_PATH] [--max-items-per-source N] [--schedule-interval-ms N] [--source-id ID] [--nats-url nats://HOST:4222] [--nats-subject SUBJECT] [--nats-stream STREAM] [--object-store-endpoint URL] [--object-store-bucket BUCKET] [--object-store-region REGION] [--object-store-force-path-style true|false] [--dedup-lookback-days N] [--chunk-max-records N] [--derivatives-max-events-per-run N] [--derivatives-max-events-per-source N] [--community-max-events-per-run N] [--community-max-events-per-source N] [--backfill-start-ms TS] [--backfill-end-ms TS] [--dry-run]";

/// The usage line, then each default on a line of its own.
pub open spec fn help_text() -> Seq<char> {
    USAGE@ + "\n\nDefaults:\n  --source-registry "@ + DEFAULT_SOURCE_REGISTRY_PATH@
        + "\n  --nats-subject "@ + DEFAULT_NATS_SUBJECT@ + "\n  --nats-stream "@
        + DEFAULT_NATS_STREAM@ + "\n  --object-store-endpoint "@ + DEFAULT_OBJECT_STORE_ENDPOINT@
        + "\n  --object-store-bucket "@ + DEFAULT_OBJECT_STORE_BUCKET@
        + "\n  --object-store-region "@ + DEFAULT_OBJECT_STORE_REGION@
        + "\n  --derivatives-max-events-per-run "@ + nat_to_dec(
        DEFAULT_DERIVATIVES_MAX_EVENTS_PER_RUN as nat,
    ) + "\n  --derivatives-max-events-per-source "@ + nat_to_dec(
        DEFAULT_DERIVATIVES_MAX_EVENTS_PER_SOURCE as nat,
    ) + "\n  --community-max-events-per-run "@ + nat_to_dec(
        DEFAULT_COMMUNITY_MAX_EVENTS_PER_RUN as nat,
    ) + "\n  --community-max-events-per-source "@ + nat_to_dec(
        DEFAULT_COMMUNITY_MAX_EVENTS_PER_SOURCE as nat,
    )
}

pub fn help() -> (h: String)
    ensures
        h@ == help_text(),
{
    let mut h = USAGE.to_owned();
    push_str(&mut h, "\n\nDefaults:\n  --source-registry ");
    push_str(&mut h, DEFAULT_SOURCE_REGISTRY_PATH);
    push_str(&mut h, "\n  --nats-subject ");
    push_str(&mut h, DEFAULT_NATS_SUBJECT);
    push_str(&mut h, "\n  --nats-stream ");
    push_str(&mut h, DEFAULT_NATS_STREAM);
    push_str(&mut h, "\n  --object-store-endpoint ");
    push_str(&mut h, DEFAULT_OBJECT_STORE_ENDPOINT);
    push_str(&mut h, "\n  --object-store-bucket ");
    push_str(&mut h, DEFAULT_OBJECT_STORE_BUCKET);
    push_str(&mut h, "\n  --object-store-region ");
    push_str(&mut h, DEFAULT_OBJECT_STORE_REGION);
    push_str(&mut h, "\n  --derivatives-max-events-per-run ");
    push_decimal(&mut h, DEFAULT_DERIVATIVES_MAX_EVENTS_PER_RUN as u64);
    push_str(&mut h, "\n  --derivatives-max-events-per-source ");
    push_decimal(&mut h, DEFAULT_DERIVATIVES_MAX_EVENTS_PER_SOURCE as u64);
    push_str(&mut h, "\n  --community-max-events-per-run ");
    push_decimal(&mut h, DEFAULT_COMMUNITY_MAX_EVENTS_PER_RUN as u64);
    push_str(&mut h, "\n  --community-max-events-per-source ");
    push_decimal(&mut h, DEFAULT_COMMUNITY_MAX_EVENTS_PER_SOURCE as u64);
    h
}

/// `"true"` and `"false"`; anything else gives `message`.
pub open spec fn parse_bool_spec(value: Seq<char>, message: Seq<char>) -> Result<bool, Seq<char>> {
    if value == "true"@ {
        Ok(true)
    } else if value == "false"@ {
        Ok(false)
    } else {
        Err(message)
    }
}

pub fn parse_bool(value: &str, message: &str) -> (r: Result<bool, String>)
    ensures
        match parse_bool_spec(value@, message@) {
            Ok(b) => r == Ok::<bool, String>(b),
            Err(e) => r matches Err(m) && m@ == e,
        },
{
    if str_eq(value, "true") {
        Ok(true)
    } else if str_eq(value, "false") {
        Ok(false)
    } else {
        Err(message.to_owned())
    }
}

/// A non-blank value that is a single word; both failures share one message.
pub open spec fn single_word_spec(value: Option<Seq<char>>, flag: Seq<char>, label: Seq<char>) -> Result<
    Seq<char>,
    Seq<char>,
> {
    match value {
        None => Err(flag + " requires a "@ + label),
        Some(v) => if is_blank(v) || words(v).len() > 1 {
            Err(flag + " must not be empty or contain whitespace"@)
        } else {
            Ok(v)
        },
    }
}

/// An endpoint URL must use `http://` or `https://`; trailing slashes are dropped.
pub open spec fn endpoint_spec(value: Option<Seq<char>>) -> Result<Seq<char>, Seq<char>> {
    match value {
        None => Err("--object-store-endpoint requires an endpoint URL"@),
        Some(v) => if !starts_with(v, "http://"@) && !starts_with(v, "https://"@) {
            Err("--object-store-endpoint must start with http:// or https://"@)
        } else {
            Ok(strip_trailing_slashes(v))
        },
    }
}

/// A look-back in days: any `u16`, zero included.
pub open spec fn lookback_days_spec(value: Option<Seq<char>>) -> Result<int, Seq<char>> {
    match value {
        None => Err("--dedup-lookback-days requires a number"@),
        Some(v) => match parse_unsigned(v, u16::MAX as nat) {
            None => Err("--dedup-lookback-days must be a positive number"@),
            Some(n) => Ok(n as int),
        },
    }
}

/// A NATS server URL must use the `nats://` or `tls://` scheme.
pub open spec fn nats_url_spec(value: Option<Seq<char>>) -> Result<Seq<char>, Seq<char>> {
    match value {
        None => Err("--nats-url requires a NATS server URL"@),
        Some(v) => if !starts_with(v, "nats://"@) && !starts_with(v, "tls://"@) {
            Err("--nats-url must start with nats:// or tls://"@)
        } else {
            Ok(v)
        },
    }
}

/// The options that read the argument after them.
pub open spec fn takes_value(flag: Seq<char>) -> bool {
    ||| flag == "--source-registry"@
    ||| flag == "--max-items-per-source"@
    ||| flag == "--schedule-interval-ms"@
    ||| flag == "--source-id"@
    ||| flag == "--nats-url"@
    ||| flag == "--nats-subject"@
    ||| flag == "--nats-stream"@
    ||| flag == "--object-store-endpoint"@
    ||| flag == "--object-store-bucket"@
    ||| flag == "--object-store-region"@
    ||| flag == "--object-store-force-path-style"@
    ||| flag == "--dedup-lookback-days"@
    ||| flag == "--chunk-max-records"@
    ||| flag == "--derivatives-max-events-per-run"@
    ||| flag == "--derivatives-max-events-per-source"@
    ||| flag == "--community-max-events-per-run"@
    ||| flag == "--community-max-events-per-source"@
    ||| flag == "--backfill-start-ms"@
    ||| flag == "--backfill-end-ms"@
}

/// What one option does to the options read so far; `value` is the argument
/// after it, if there is one.
pub open spec fn apply_spec(
    a: EndpointArgsView,
    flag: Seq<char>,
    value: Option<Seq<char>>,
) -> Result<EndpointArgsView, Seq<char>> {
    if flag == "--source-registry"@ {
        match absolute_path_spec(value, "--source-registry requires an absolute path"@) {
            Ok(v) => Ok(EndpointArgsView { source_registry: v, ..a }),
            Err(e) => Err(e),
        }
    } else if flag == "--max-items-per-source"@ {
        match positive_arg_spec(value, flag, usize::MAX as nat) {
            Ok(n) => Ok(EndpointArgsView { max_items_per_source: n as usize, ..a }),
            Err(e) => Err(e),
        }
    } else if flag == "--schedule-interval-ms"@ {
        match positive_arg_spec(value, flag, u64::MAX as nat) {
            Ok(n) => Ok(EndpointArgsView { schedule_interval_ms: Some(n as u64), ..a }),
            Err(e) => Err(e),
        }
    } else if flag == "--dry-run"@ {
        Ok(EndpointArgsView { dry_run: true, ..a })
    } else if flag == "--source-id"@ {
        match non_empty_value_spec(value, flag, "source id"@) {
            Ok(v) => Ok(EndpointArgsView { source_id: Some(v), ..a }),
            Err(e) => Err(e),
        }
    } else if flag == "--nats-url"@ {
        match nats_url_spec(value) {
            Ok(v) => Ok(EndpointArgsView { nats_url: Some(v), ..a }),
            Err(e) => Err(e),
        }
    } else if flag == "--nats-subject"@ {
        match single_word_spec(value, flag, "subject"@) {
            Ok(v) => Ok(EndpointArgsView { nats_subject: v, ..a }),
            Err(e) => Err(e),
        }
    } else if flag == "--nats-stream"@ {
        match single_word_spec(value, flag, "stream name"@) {
            Ok(v) => Ok(EndpointArgsView { nats_stream: v, ..a }),
            Err(e) => Err(e),
        }
    } else if flag == "--object-store-endpoint"@ {
        match endpoint_spec(value) {
            Ok(v) => Ok(EndpointArgsView { endpoint: v, ..a }),
            Err(e) => Err(e),
        }
    } else if flag == "--object-store-bucket"@ {
        match non_empty_value_spec(value, flag, "bucket"@) {
            Ok(v) => Ok(EndpointArgsView { bucket: v, ..a }),
            Err(e) => Err(e),
        }
    } else if flag == "--object-store-region"@ {
        match non_empty_value_spec(value, flag, "region"@) {
            Ok(v) => Ok(EndpointArgsView { region: v, ..a }),
            Err(e) => Err(e),
        }
    } else if flag == "--object-store-force-path-style"@ {
        match value {
            None => Err("--object-store-force-path-style requires true or false"@),
            Some(v) => match parse_bool_spec(
                v,
                "--object-store-force-path-style requires true or false"@,
            ) {
                Ok(b) => Ok(EndpointArgsView { force_path_style: b, ..a }),
                Err(e) => Err(e),
            },
        }
    } else if flag == "--dedup-lookback-days"@ {
        match lookback_days_spec(value) {
            Ok(n) => Ok(EndpointArgsView { dedup_lookback_days: n as u16, ..a }),
            Err(e) => Err(e),
        }
    } else if flag == "--chunk-max-records"@ {
        match positive_arg_spec(value, flag, usize::MAX as nat) {
            Ok(n) => Ok(EndpointArgsView { chunk_max_records: n as usize, ..a }),
            Err(e) => Err(e),
        }
    } else if flag == "--derivatives-max-events-per-run"@ {
        match positive_arg_spec(value, flag, usize::MAX as nat) {
            Ok(n) => Ok(EndpointArgsView { derivatives_max_events_per_run: n as usize, ..a }),
            Err(e) => Err(e),
        }
    } else if flag == "--derivatives-max-events-per-source"@ {
        match positive_arg_spec(value, flag, usize::MAX as nat) {
            Ok(n) => Ok(EndpointArgsView { derivatives_max_events_per_source: n as usize, ..a }),
            Err(e) => Err(e),
        }
    } else if flag == "--community-max-events-per-run"@ {
        match positive_arg_spec(value, flag, usize::MAX as nat) {
            Ok(n) => Ok(EndpointArgsView { community_max_events_per_run: n as usize, ..a }),
            Err(e) => Err(e),
        }
    } else if flag == "--community-max-events-per-source"@ {
        match positive_arg_spec(value, flag, usize::MAX as nat) {
            Ok(n) => Ok(EndpointArgsView { community_max_events_per_source: n as usize, ..a }),
            Err(e) => Err(e),
        }
    } else if flag == "--backfill-start-ms"@ {
        match non_negative_i64_spec(value, flag) {
            Ok(n) => Ok(EndpointArgsView { backfill_start_ms: Some(n as i64), ..a }),
            Err(e) => Err(e),
        }
    } else if flag == "--backfill-end-ms"@ {
        match non_negative_i64_spec(value, flag) {
            Ok(n) => Ok(EndpointArgsView { backfill_end_ms: Some(n as i64), ..a }),
            Err(e) => Err(e),
        }
    } else if flag == "--help"@ || flag == "-h"@ {
        Err(help_text())
    } else {
        Err("unknown argument: "@ + flag + "\n\n"@ + help_text())
    }
}

/// Reads the options one after another, each with the argument after it when
/// it takes one; the first error stops the reading.
pub open spec fn parse_tokens(a: EndpointArgsView, toks: Seq<Seq<char>>) -> Result<
    EndpointArgsView,
    Seq<char>,
>
    decreases toks.len(),
{
    if toks.len() == 0 {
        Ok(a)
    } else {
        let flag = toks[0];
        let rest = toks.drop_first();
        let value = if rest.len() > 0 {
            Some(rest[0])
        } else {
            None
        };
        match apply_spec(a, flag, value) {
            Err(e) => Err(e),
            Ok(b) => if takes_value(flag) && rest.len() > 0 {
                parse_tokens(b, rest.drop_first())
            } else {
                parse_tokens(b, rest)
            },
        }
    }
}

/// What parsing a command line gives: the options after the program name read
/// over the defaults, then the backfill window checked.
pub open spec fn parse_spec(values: Seq<Seq<char>>) -> Result<EndpointArgsView, Seq<char>> {
    let toks = if values.len() > 0 {
        values.drop_first()
    } else {
        values
    };
    match parse_tokens(default_args(), toks) {
        Err(e) => Err(e),
        Ok(a) => match backfill_window_error(a.backfill_start_ms, a.backfill_end_ms) {
            Some(e) => Err(e),
            None => Ok(a),
        },
    }
}

/// Options that every successful parse gives: an absolute registry path,
/// positive counts and intervals, and non-negative backfill bounds.
pub open spec fn options_sound(a: EndpointArgsView) -> bool {
    &&& is_absolute_path(a.source_registry)
    &&& a.max_items_per_source > 0
    &&& a.chunk_max_records > 0
    &&& a.derivatives_max_events_per_run > 0
    &&& a.derivatives_max_events_per_source > 0
    &&& a.community_max_events_per_run > 0
    &&& a.community_max_events_per_source > 0
    &&& (a.schedule_interval_ms matches Some(n) ==> n > 0)
    &&& (a.backfill_start_ms matches Some(t) ==> t >= 0)
    &&& (a.backfill_end_ms matches Some(t) ==> t >= 0)
}

proof fn lemma_apply_keeps_sound(a: EndpointArgsView, flag: Seq<char>, value: Option<Seq<char>>)
    requires
        options_sound(a),
    ensures
        apply_spec(a, flag, value) matches Ok(b) ==> options_sound(b),
{
    lemma_positive_arg_bounds(value, flag, usize::MAX as nat);
    lemma_positive_arg_bounds(value, flag, u64::MAX as nat);
    lemma_non_negative_i64_bounds(value, flag);
    if flag == "--source-registry"@ {
    } else if flag == "--max-items-per-source"@ {
    } else if flag == "--schedule-interval-ms"@ {
    } else if flag == "--dry-run"@ {
    } else if flag == "--source-id"@ {
    } else if flag == "--nats-url"@ {
    } else if flag == "--nats-subject"@ {
    } else if flag == "--nats-stream"@ {
    } else if flag == "--object-store-endpoint"@ {
    } else if flag == "--object-store-bucket"@ {
    } else if flag == "--object-store-region"@ {
    } else if flag == "--object-store-force-path-style"@ {
    } else if flag == "--dedup-lookback-days"@ {
    } else if flag == "--chunk-max-records"@ {
    } else if flag == "--derivatives-max-events-per-run"@ {
    } else if flag == "--derivatives-max-events-per-source"@ {
    } else if flag == "--community-max-events-per-run"@ {
    } else if flag == "--community-max-events-per-source"@ {
    } else if flag == "--backfill-start-ms"@ {
    } else if flag == "--backfill-end-ms"@ {
    } else {
    }
}

proof fn lemma_parse_tokens_sound(a: EndpointArgsView, toks: Seq<Seq<char>>)
    requires
        options_sound(a),
    ensures
        parse_tokens(a, toks) matches Ok(b) ==> options_sound(b),
    decreases toks.len(),
{
    if toks.len() > 0 {
        let rest = toks.drop_first();
        let value = if rest.len() > 0 {
            Some(rest[0])
        } else {
            None
        };
        lemma_apply_keeps_sound(a, toks[0], value);
        match apply_spec(a, toks[0], value) {
            Ok(b) => {
                if takes_value(toks[0]) && rest.len() > 0 {
                    lemma_parse_tokens_sound(b, rest.drop_first());
                } else {
                    lemma_parse_tokens_sound(b, rest);
                }
            },
            Err(_) => {},
        }
    }
}

/// Law: whatever the command line, parsed options are sound, and a backfill
/// window is either absent or complete with its start before its end; with
/// nothing after the program name the options are the defaults.
pub proof fn lemma_parsed_options_sound(values: Seq<Seq<char>>)
    ensures
        parse_spec(values) matches Ok(a) ==> {
            &&& options_sound(a)
            &&& a.backfill_start_ms is Some <==> a.backfill_end_ms is Some
            &&& (a.backfill_start_ms matches Some(s) ==> s < a.backfill_end_ms.unwrap())
        },
        values.len() <= 1 ==> parse_spec(values) == Ok::<EndpointArgsView, Seq<char>>(
            default_args(),
        ),
{
    reveal_strlit("/opt/nangman-crypto/intel-crawl/config/source-registry.rss-seed.v1.json");
    lemma_parse_tokens_sound(default_args(), if values.len() > 0 {
        values.drop_first()
    } else {
        values
    });
    if values.len() == 1 {
        assert(values.drop_first() =~= Seq::<Seq<char>>::empty());
    }
}

pub open spec fn args_result(r: Result<Args, String>) -> Result<EndpointArgsView, Seq<char>> {
    match r {
        Ok(a) => Ok(a@),
        Err(e) => Err(e@),
    }
}

/// The options without a value are not among those that take one.
proof fn lemma_flags_without_value()
    ensures
        !takes_value("--dry-run"@),
        !takes_value("--help"@),
        !takes_value("-h"@),
{
    assert("--source-registry"@.len() == 17) by {
        reveal_strlit("--source-registry");
    }
    assert("--max-items-per-source"@.len() == 22) by {
        reveal_strlit("--max-items-per-source");
    }
    assert("--schedule-interval-ms"@.len() == 22) by {
        reveal_strlit("--schedule-interval-ms");
    }
    assert("--source-id"@.len() == 11) by {
        reveal_strlit("--source-id");
    }
    assert("--nats-url"@.len() == 10) by {
        reveal_strlit("--nats-url");
    }
    assert("--nats-subject"@.len() == 14) by {
        reveal_strlit("--nats-subject");
    }
    assert("--nats-stream"@.len() == 13) by {
        reveal_strlit("--nats-stream");
    }
    assert("--object-store-endpoint"@.len() == 23) by {
        reveal_strlit("--object-store-endpoint");
    }
    assert("--object-store-bucket"@.len() == 21) by {
        reveal_strlit("--object-store-bucket");
    }
    assert("--object-store-region"@.len() == 21) by {
        reveal_strlit("--object-store-region");
    }
    assert("--object-store-force-path-style"@.len() == 31) by {
        reveal_strlit("--object-store-force-path-style");
    }
    assert("--dedup-lookback-days"@.len() == 21) by {
        reveal_strlit("--dedup-lookback-days");
    }
    assert("--chunk-max-records"@.len() == 19) by {
        reveal_strlit("--chunk-max-records");
    }
    assert("--derivatives-max-events-per-run"@.len() == 32) by {
        reveal_strlit("--derivatives-max-events-per-run");
    }
    assert("--derivatives-max-events-per-source"@.len() == 35) by {
        reveal_strlit("--derivatives-max-events-per-source");
    }
    assert("--community-max-events-per-run"@.len() == 30) by {
        reveal_strlit("--community-max-events-per-run");
    }
    assert("--community-max-events-per-source"@.len() == 33) by {
        reveal_strlit("--community-max-events-per-source");
    }
    assert("--backfill-start-ms"@.len() == 19) by {
        reveal_strlit("--backfill-start-ms");
    }
    assert("--backfill-end-ms"@.len() == 17) by {
        reveal_strlit("--backfill-end-ms");
    }
    assert("--dry-run"@.len() == 9) by {
        reveal_strlit("--dry-run");
    }
    assert("--help"@.len() == 6) by {
        reveal_strlit("--help");
    }
    assert("-h"@.len() == 2) by {
        reveal_strlit("-h");
    }
}

/// Reads a value that must be a single non-blank word.
fn single_word(value: Option<String>, flag: &str, label: &str) -> (r: Result<String, String>)
    ensures
        match single_word_spec(opt_string_view(value), flag@, label@) {
            Ok(v) => r matches Ok(s) && s@ == v,
            Err(e) => r matches Err(m) && m@ == e,
        },
{
    match value {
        None => Err(concat3(flag, " requires a ", label)),
        Some(v) => {
            let cs = chars_of(v.as_str());
            let ws = split_words(cs.as_slice());
            if str_is_blank(v.as_str()) || ws.len() > 1 {
                Err(concat2(flag, " must not be empty or contain whitespace"))
            } else {
                Ok(v)
            }
        },
    }
}

/// Reads a value that must be present and not blank.
fn non_blank(value: Option<String>, flag: &str, label: &str) -> (r: Result<String, String>)
    ensures
        match non_empty_value_spec(opt_string_view(value), flag@, label@) {
            Ok(v) => r matches Ok(s) && s@ == v,
            Err(e) => r matches Err(m) && m@ == e,
        },
{
    match value {
        None => Err(concat3(flag, " requires a ", label)),
        Some(v) => {
            if str_is_blank(v.as_str()) {
                Err(concat2(flag, " must not be empty"))
            } else {
                Ok(v)
            }
        },
    }
}

/// Applies one option. `next` indexes the argument after it, which an option
/// that takes a value reads and steps over.
fn apply_option(args: &mut Args, arg: &str, values: &Vec<String>, next: &mut usize) -> (r: Result<
    (),
    String,
>)
    requires
        *old(next) <= values.len(),
    ensures
        match apply_spec(
            old(args)@,
            arg@,
            if *old(next) < values.len() {
                Some(values@[*old(next) as int]@)
            } else {
                None
            },
        ) {
            Ok(b) => r is Ok && final(args)@ == b,
            Err(e) => r matches Err(m) && m@ == e,
        },
        r is Err ==> *final(args) == *old(args),
        r is Ok ==> *final(next) == if takes_value(arg@) && *old(next) < values.len() {
            *old(next) + 1
        } else {
            *old(next) as int
        },
{
    let value: Option<String> = if *next < values.len() {
        Some(values[*next].clone())
    } else {
        None
    };
    let takes = *next < values.len();
    if str_eq(arg, "--dry-run") {
        proof {
            lemma_flags_without_value();
        }
        args.dry_run = true;
        return Ok(());
    } else if str_eq(arg, "--help") || str_eq(arg, "-h") {
        proof {
            lemma_flags_without_value();
        }
        return Err(help());
    }
    if str_eq(arg, "--source-registry") {
        match absolute_path_arg(value, "--source-registry requires an absolute path") {
            Ok(p) => args.source_registry = p,
            Err(e) => return Err(e),
        }
    } else if str_eq(arg, "--max-items-per-source") {
        match positive_usize_arg(value, "--max-items-per-source") {
            Ok(n) => args.max_items_per_source = n,
            Err(e) => return Err(e),
        }
    } else if str_eq(arg, "--schedule-interval-ms") {
        match crate::args::validation::positive_u64_arg(value, "--schedule-interval-ms") {
            Ok(n) => args.schedule_interval_ms = Some(n),
            Err(e) => return Err(e),
        }
    } else if str_eq(arg, "--source-id") {
        match non_blank(value, "--source-id", "source id") {
            Ok(v) => args.source_id = Some(v),
            Err(e) => return Err(e),
        }
    } else if str_eq(arg, "--nats-url") {
        match value {
            None => return Err("--nats-url requires a NATS server URL".to_owned()),
            Some(v) => {
                if !str_starts_with(v.as_str(), "nats://") && !str_starts_with(v.as_str(), "tls://") {
                    return Err("--nats-url must start with nats:// or tls://".to_owned());
                }
                args.nats_url = Some(v);
            },
        }
    } else if str_eq(arg, "--nats-subject") {
        match single_word(value, "--nats-subject", "subject") {
            Ok(v) => args.nats_subject = v,
            Err(e) => return Err(e),
        }
    } else if str_eq(arg, "--nats-stream") {
        match single_word(value, "--nats-stream", "stream name") {
            Ok(v) => args.nats_stream = v,
            Err(e) => return Err(e),
        }
    } else if str_eq(arg, "--object-store-endpoint") {
        match value {
            None => return Err("--object-store-endpoint requires an endpoint URL".to_owned()),
            Some(v) => {
                if !str_starts_with(v.as_str(), "http://") && !str_starts_with(v.as_str(), "https://") {
                    return Err("--object-store-endpoint must start with http:// or https://".to_owned());
                }
                args.object_store.endpoint = trim_trailing_slashes(v.as_str());
            },
        }
    } else if str_eq(arg, "--object-store-bucket") {
        match non_blank(value, "--object-store-bucket", "bucket") {
            Ok(v) => args.object_store.bucket = v,
            Err(e) => return Err(e),
        }
    } else if str_eq(arg, "--object-store-region") {
        match non_blank(value, "--object-store-region", "region") {
            Ok(v) => args.object_store.region = v,
            Err(e) => return Err(e),
        }
    } else if str_eq(arg, "--object-store-force-path-style") {
        match value {
            None => return Err("--object-store-force-path-style requires true or false".to_owned()),
            Some(v) => match parse_bool(v.as_str(), "--object-store-force-path-style requires true or false") {
                Ok(b) => args.object_store.force_path_style = b,
                Err(e) => return Err(e),
            },
        }
    } else if str_eq(arg, "--dedup-lookback-days") {
        match value {
            None => return Err("--dedup-lookback-days requires a number".to_owned()),
            Some(v) => {
                let cs = chars_of(v.as_str());
                match parse_unsigned_decimal(cs.as_slice(), u16::MAX as u64) {
                    None => return Err("--dedup-lookback-days must be a positive number".to_owned()),
                    Some(n) => args.dedup_lookback_days = n as u16,
                }
            },
        }
    } else if str_eq(arg, "--chunk-max-records") {
        match positive_usize_arg(value, "--chunk-max-records") {
            Ok(n) => args.chunk_max_records = n,
            Err(e) => return Err(e),
        }
    } else if str_eq(arg, "--derivatives-max-events-per-run") {
        match positive_usize_arg(value, "--derivatives-max-events-per-run") {
            Ok(n) => args.derivatives_max_events_per_run = n,
            Err(e) => return Err(e),
        }
    } else if str_eq(arg, "--derivatives-max-events-per-source") {
        match positive_usize_arg(value, "--derivatives-max-events-per-source") {
            Ok(n) => args.derivatives_max_events_per_source = n,
            Err(e) => return Err(e),
        }
    } else if str_eq(arg, "--community-max-events-per-run") {
        match positive_usize_arg(value, "--community-max-events-per-run") {
            Ok(n) => args.community_max_events_per_run = n,
            Err(e) => return Err(e),
        }
    } else if str_eq(arg, "--community-max-events-per-source") {
        match positive_usize_arg(value, "--community-max-events-per-source") {
            Ok(n) => args.community_max_events_per_source = n,
            Err(e) => return Err(e),
        }
    } else if str_eq(arg, "--backfill-start-ms") {
        match non_negative_i64_arg(value, "--backfill-start-ms") {
            Ok(n) => args.backfill_start_ms = Some(n),
            Err(e) => return Err(e),
        }
    } else if str_eq(arg, "--backfill-end-ms") {
        match non_negative_i64_arg(value, "--backfill-end-ms") {
            Ok(n) => args.backfill_end_ms = Some(n),
            Err(e) => return Err(e),
        }
    } else {
        let h = help();
        let mut message = concat3("unknown argument: ", arg, "\n\n");
        push_str(&mut message, h.as_str());
        return Err(message);
    }
    if takes {
        *next = *next + 1;
    }
    Ok(())
}

impl Args {
    /// Parses the command line; the first value is the program name.
    pub fn parse(values: Vec<String>) -> (r: Result<Self, String>)
        ensures
            args_result(r) == parse_spec(string_views(values@)),
    {
        let ghost views = string_views(values@);
        let mut args = Args {
            source_registry: DEFAULT_SOURCE_REGISTRY_PATH.to_owned(),
            max_items_per_source: DEFAULT_MAX_ITEMS_PER_SOURCE,
            schedule_interval_ms: None,
            dry_run: false,
            source_id: None,
            nats_url: None,
            nats_subject: DEFAULT_NATS_SUBJECT.to_owned(),
            nats_stream: DEFAULT_NATS_STREAM.to_owned(),
            object_store: ObjectStoreConfig {
                endpoint: DEFAULT_OBJECT_STORE_ENDPOINT.to_owned(),
                bucket: DEFAULT_OBJECT_STORE_BUCKET.to_owned(),
                region: DEFAULT_OBJECT_STORE_REGION.to_owned(),
                force_path_style: true,
            },
            dedup_lookback_days: DEFAULT_DEDUP_LOOKBACK_DAYS,
            chunk_max_records: DEFAULT_CHUNK_MAX_RECORDS,
            derivatives_max_events_per_run: DEFAULT_DERIVATIVES_MAX_EVENTS_PER_RUN,
            derivatives_max_events_per_source: DEFAULT_DERIVATIVES_MAX_EVENTS_PER_SOURCE,
            community_max_events_per_run: DEFAULT_COMMUNITY_MAX_EVENTS_PER_RUN,
            community_max_events_per_source: DEFAULT_COMMUNITY_MAX_EVENTS_PER_SOURCE,
            backfill_start_ms: None,
            backfill_end_ms: None,
        };
        let mut next: usize = if values.len() > 0 {
            1
        } else {
            0
        };
        proof {
            let toks = if views.len() > 0 {
                views.drop_first()
            } else {
                views
            };
            assert(toks =~= views.subrange(next as int, views.len() as int));
        }
        while next < values.len()
            invariant
                next <= values.len(),
                views == string_views(values@),
                parse_spec(views) == (match parse_tokens(
                    args@,
                    views.subrange(next as int, views.len() as int),
                ) {
                    Err(e) => Err(e),
                    Ok(a) => match backfill_window_error(a.backfill_start_ms, a.backfill_end_ms) {
                        Some(e) => Err(e),
                        None => Ok(a),
                    },
                }),
            decreases values.len() - next,
        {
            let idx = next;
            let ghost i = next as int;
            let ghost toks = views.subrange(i, views.len() as int);
            next = next + 1;
            let r = apply_option(&mut args, values[idx].as_str(), &values, &mut next);
            proof {
                assert(toks[0] == values@[i]@);
                assert(toks.drop_first() =~= views.subrange(i + 1, views.len() as int));
                if i + 1 < views.len() {
                    assert(toks.drop_first()[0] == values@[i + 1]@);
                    assert(toks.drop_first().drop_first() =~= views.subrange(
                        i + 2,
                        views.len() as int,
                    ));
                }
            }
            match r {
                Err(e) => {
                    return Err(e);
                },
                Ok(()) => {},
            }
        }
        assert(views.subrange(next as int, views.len() as int) =~= Seq::<Seq<char>>::empty());
        match (args.backfill_start_ms, args.backfill_end_ms) {
            (Some(start_ms), Some(end_ms)) => {
                if start_ms >= end_ms {
                    return Err("--backfill-start-ms must be less than --backfill-end-ms".to_owned());
                }
            },
            (Some(_), None) => {
                return Err("--backfill-end-ms is required with --backfill-start-ms".to_owned());
            },
            (None, Some(_)) => {
                return Err("--backfill-start-ms is required with --backfill-end-ms".to_owned());
            },
            (None, None) => {},
        }
        Ok(args)
    }
}

} // verus!
