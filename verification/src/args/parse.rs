//! Parsing the command line into `Args`.
use super::help::{help, help_text};
use super::types::{default_args, opt_string_view, Args, ArgsView};
use super::validation::{
    absolute_path_arg, absolute_path_spec, is_absolute_path, backfill_window_error, i64_result, non_empty_value,
    non_empty_value_spec, non_negative_i64_arg, non_negative_i64_spec, positive_arg_spec,
    positive_u16_arg, positive_u64_arg, positive_usize_arg, text_result, u16_result, u64_result,
    usize_result, validate_backfill_window,
};
use crate::str_map::string_views;
use crate::text::{chars_of, concat2, concat3, is_blank, push_str, split_words, starts_with, str_eq, str_starts_with, words};
use vstd::prelude::*;

verus! {

/// The options that read the argument after them.
pub open spec fn takes_value(flag: Seq<char>) -> bool {
    ||| flag == "--source-registry"@
    ||| flag == "--max-items-per-source"@
    ||| flag == "--schedule-interval-ms"@
    ||| flag == "--source-id"@
    ||| flag == "--nats-url"@
    ||| flag == "--nats-subject"@
    ||| flag == "--nats-stream"@
    ||| flag == "--object-store-bucket"@
    ||| flag == "--object-store-region"@
    ||| flag == "--dedup-lookback-days"@
    ||| flag == "--chunk-max-records"@
    ||| flag == "--derivatives-max-events-per-run"@
    ||| flag == "--derivatives-max-events-per-source"@
    ||| flag == "--community-max-events-per-run"@
    ||| flag == "--community-max-events-per-source"@
    ||| flag == "--backfill-start-ms"@
    ||| flag == "--backfill-end-ms"@
}

/// A NATS server URL must use the `nats://` or `tls://` scheme.
pub open spec fn nats_url_spec(value: Option<Seq<char>>) -> Result<Seq<char>, Seq<char>> {
    match value {
        None => Err("--nats-url requires a NATS server URL"@),
        Some(v) => if !starts_with(v, "nats://"@) && !starts_with(v, "tls://"@) {
            Err("--nats-url must start with nats:// or tls://"@)
        } else {
            Ok(v)
        },
    }
}

/// A non-blank value that is a single word.
pub open spec fn token_spec(value: Option<Seq<char>>, flag: Seq<char>, label: Seq<char>) -> Result<
    Seq<char>,
    Seq<char>,
> {
    match non_empty_value_spec(value, flag, label) {
        Err(e) => Err(e),
        Ok(v) => if words(v).len() > 1 {
            Err(flag + " must not be empty or contain whitespace"@)
        } else {
            Ok(v)
        },
    }
}

/// What one option does to the options read so far; `value` is the argument
/// after it, if there is one.
pub open spec fn apply_spec(a: ArgsView, flag: Seq<char>, value: Option<Seq<char>>) -> Result<
    ArgsView,
    Seq<char>,
> {
    if flag == "--source-registry"@ {
        match absolute_path_spec(value, "--source-registry requires an absolute path"@) {
            Ok(v) => Ok(ArgsView { source_registry: v, ..a }),
            Err(e) => Err(e),
        }
    } else if flag == "--max-items-per-source"@ {
        match positive_arg_spec(value, flag, usize::MAX as nat) {
            Ok(n) => Ok(ArgsView { max_items_per_source: n as usize, ..a }),
            Err(e) => Err(e),
        }
    } else if flag == "--schedule-interval-ms"@ {
        match positive_arg_spec(value, flag, u64::MAX as nat) {
            Ok(n) => Ok(ArgsView { schedule_interval_ms: Some(n as u64), ..a }),
            Err(e) => Err(e),
        }
    } else if flag == "--dry-run"@ {
        Ok(ArgsView { dry_run: true, ..a })
    } else if flag == "--source-id"@ {
        match non_empty_value_spec(value, flag, "source id"@) {
            Ok(v) => Ok(ArgsView { source_id: Some(v), ..a }),
            Err(e) => Err(e),
        }
    } else if flag == "--nats-url"@ {
        match nats_url_spec(value) {
            Ok(v) => Ok(ArgsView { nats_url: Some(v), ..a }),
            Err(e) => Err(e),
        }
    } else if flag == "--nats-subject"@ {
        match token_spec(value, flag, "subject"@) {
            Ok(v) => Ok(ArgsView { nats_subject: v, ..a }),
            Err(e) => Err(e),
        }
    } else if flag == "--nats-stream"@ {
        match token_spec(value, flag, "stream name"@) {
            Ok(v) => Ok(ArgsView { nats_stream: v, ..a }),
            Err(e) => Err(e),
        }
    } else if flag == "--object-store-bucket"@ {
        match token_spec(value, flag, "bucket"@) {
            Ok(v) => Ok(ArgsView { bucket: v, ..a }),
            Err(e) => Err(e),
        }
    } else if flag == "--object-store-region"@ {
        match token_spec(value, flag, "region"@) {
            Ok(v) => Ok(ArgsView { region: v, ..a }),
            Err(e) => Err(e),
        }
    } else if flag == "--dedup-lookback-days"@ {
        match positive_arg_spec(value, flag, u16::MAX as nat) {
            Ok(n) => Ok(ArgsView { dedup_lookback_days: n as u16, ..a }),
            Err(e) => Err(e),
        }
    } else if flag == "--chunk-max-records"@ {
        match positive_arg_spec(value, flag, usize::MAX as nat) {
            Ok(n) => Ok(ArgsView { chunk_max_records: n as usize, ..a }),
            Err(e) => Err(e),
        }
    } else if flag == "--derivatives-max-events-per-run"@ {
        match positive_arg_spec(value, flag, usize::MAX as nat) {
            Ok(n) => Ok(ArgsView { derivatives_max_events_per_run: n as usize, ..a }),
            Err(e) => Err(e),
        }
    } else if flag == "--derivatives-max-events-per-source"@ {
        match positive_arg_spec(value, flag, usize::MAX as nat) {
            Ok(n) => Ok(ArgsView { derivatives_max_events_per_source: n as usize, ..a }),
            Err(e) => Err(e),
        }
    } else if flag == "--community-max-events-per-run"@ {
        match positive_arg_spec(value, flag, usize::MAX as nat) {
            Ok(n) => Ok(ArgsView { community_max_events_per_run: n as usize, ..a }),
            Err(e) => Err(e),
        }
    } else if flag == "--community-max-events-per-source"@ {
        match positive_arg_spec(value, flag, usize::MAX as nat) {
            Ok(n) => Ok(ArgsView { community_max_events_per_source: n as usize, ..a }),
            Err(e) => Err(e),
        }
    } else if flag == "--backfill-start-ms"@ {
        match non_negative_i64_spec(value, flag) {
            Ok(n) => Ok(ArgsView { backfill_start_ms: Some(n as i64), ..a }),
            Err(e) => Err(e),
        }
    } else if flag == "--backfill-end-ms"@ {
        match non_negative_i64_spec(value, flag) {
            Ok(n) => Ok(ArgsView { backfill_end_ms: Some(n as i64), ..a }),
            Err(e) => Err(e),
        }
    } else if flag == "--replay-pending-outbox"@ {
        Ok(ArgsView { replay_pending_outbox: true, ..a })
    } else if flag == "--help"@ || flag == "-h"@ {
        Err(help_text())
    } else {
        Err("unknown argument: "@ + flag + "\n\n"@ + help_text())
    }
}

/// Reads the options one after another, each with the argument after it when
/// it takes one; the first error stops the reading.
pub open spec fn parse_tokens(a: ArgsView, toks: Seq<Seq<char>>) -> Result<ArgsView, Seq<char>>
    decreases toks.len(),
{
    if toks.len() == 0 {
        Ok(a)
    } else {
        let flag = toks[0];
        let rest = toks.drop_first();
        let value = if rest.len() > 0 {
            Some(rest[0])
        } else {
            None
        };
        match apply_spec(a, flag, value) {
            Err(e) => Err(e),
            Ok(b) => if takes_value(flag) && rest.len() > 0 {
                parse_tokens(b, rest.drop_first())
            } else {
                parse_tokens(b, rest)
            },
        }
    }
}

/// The arguments after the program name.
pub open spec fn option_tokens(values: Seq<Seq<char>>) -> Seq<Seq<char>> {
    if values.len() > 0 {
        values.drop_first()
    } else {
        values
    }
}

/// What parsing a command line gives: the options read over the defaults,
/// then the backfill window checked.
pub open spec fn parse_spec(values: Seq<Seq<char>>) -> Result<ArgsView, Seq<char>> {
    match parse_tokens(default_args(), option_tokens(values)) {
        Err(e) => Err(e),
        Ok(a) => match backfill_window_error(a.backfill_start_ms, a.backfill_end_ms) {
            Some(e) => Err(e),
            None => Ok(a),
        },
    }
}

/// Options that every successful parse gives: an absolute registry path,
/// positive counts and intervals, and non-negative backfill bounds.
pub open spec fn options_sound(a: ArgsView) -> bool {
    &&& is_absolute_path(a.source_registry)
    &&& a.max_items_per_source > 0
    &&& a.chunk_max_records > 0
    &&& a.derivatives_max_events_per_run > 0
    &&& a.derivatives_max_events_per_source > 0
    &&& a.community_max_events_per_run > 0
    &&& a.community_max_events_per_source > 0
    &&& a.dedup_lookback_days > 0
    &&& (a.schedule_interval_ms matches Some(n) ==> n > 0)
    &&& (a.backfill_start_ms matches Some(t) ==> t >= 0)
    &&& (a.backfill_end_ms matches Some(t) ==> t >= 0)
}

/// The defaults are sound.
pub proof fn lemma_defaults_sound()
    ensures
        options_sound(default_args()),
{
    reveal_strlit("/opt/nangman-crypto/intel-crawl/config/source-registry.rss-seed.v1.json");
}

/// One option keeps sound options sound.
proof fn lemma_apply_keeps_sound(a: ArgsView, flag: Seq<char>, value: Option<Seq<char>>)
    requires
        options_sound(a),
    ensures
        apply_spec(a, flag, value) matches Ok(b) ==> options_sound(b),
{
    lemma_positive_arg_bounds(value, flag, usize::MAX as nat);
    lemma_positive_arg_bounds(value, flag, u64::MAX as nat);
    lemma_positive_arg_bounds(value, flag, u16::MAX as nat);
    lemma_non_negative_i64_bounds(value, flag);
    if flag == "--source-registry"@ {
    } else if flag == "--max-items-per-source"@ {
    } else if flag == "--schedule-interval-ms"@ {
    } else if flag == "--dry-run"@ {
    } else if flag == "--source-id"@ {
    } else if flag == "--nats-url"@ {
    } else if flag == "--nats-subject"@ {
    } else if flag == "--nats-stream"@ {
    } else if flag == "--object-store-bucket"@ {
    } else if flag == "--object-store-region"@ {
    } else if flag == "--dedup-lookback-days"@ {
    } else if flag == "--chunk-max-records"@ {
    } else if flag == "--derivatives-max-events-per-run"@ {
    } else if flag == "--derivatives-max-events-per-source"@ {
    } else if flag == "--community-max-events-per-run"@ {
    } else if flag == "--community-max-events-per-source"@ {
    } else if flag == "--backfill-start-ms"@ {
    } else if flag == "--backfill-end-ms"@ {
    } else {
    }
}

/// A positive count read under `max` lies in `1..=max`.
pub proof fn lemma_positive_arg_bounds(value: Option<Seq<char>>, name: Seq<char>, max: nat)
    ensures
        positive_arg_spec(value, name, max) matches Ok(n) ==> 0 < n <= max,
{
}

/// A timestamp read as a non-negative `i64` lies in `0..=i64::MAX`.
pub proof fn lemma_non_negative_i64_bounds(value: Option<Seq<char>>, name: Seq<char>)
    ensures
        non_negative_i64_spec(value, name) matches Ok(n) ==> 0 <= n <= i64::MAX,
{
}

proof fn lemma_parse_tokens_sound(a: ArgsView, toks: Seq<Seq<char>>)
    requires
        options_sound(a),
    ensures
        parse_tokens(a, toks) matches Ok(b) ==> options_sound(b),
    decreases toks.len(),
{
    if toks.len() > 0 {
        let rest = toks.drop_first();
        let value = if rest.len() > 0 {
            Some(rest[0])
        } else {
            None
        };
        lemma_apply_keeps_sound(a, toks[0], value);
        match apply_spec(a, toks[0], value) {
            Ok(b) => {
                if takes_value(toks[0]) && rest.len() > 0 {
                    lemma_parse_tokens_sound(b, rest.drop_first());
                } else {
                    lemma_parse_tokens_sound(b, rest);
                }
            },
            Err(_) => {},
        }
    }
}

/// Law: whatever the command line, parsed options are sound, and a backfill
/// window is either absent or complete with its start before its end.
pub proof fn lemma_parsed_options_sound(values: Seq<Seq<char>>)
    ensures
        parse_spec(values) matches Ok(a) ==> {
            &&& options_sound(a)
            &&& a.backfill_start_ms is Some <==> a.backfill_end_ms is Some
            &&& (a.backfill_start_ms matches Some(s) ==> s < a.backfill_end_ms.unwrap())
        },
{
    lemma_defaults_sound();
    lemma_parse_tokens_sound(default_args(), option_tokens(values));
}

/// Law: a command line with nothing after the program name gives the defaults.
pub proof fn lemma_no_options_gives_defaults(program: Seq<char>)
    ensures
        parse_spec(seq![program]) == Ok::<ArgsView, Seq<char>>(default_args()),
        parse_spec(Seq::<Seq<char>>::empty()) == Ok::<ArgsView, Seq<char>>(default_args()),
{
    assert(option_tokens(seq![program]) =~= Seq::<Seq<char>>::empty());
}

pub open spec fn args_result(r: Result<Args, String>) -> Result<ArgsView, Seq<char>> {
    match r {
        Ok(a) => Ok(a@),
        Err(e) => Err(e@),
    }
}

/// The options as a refused option leaves them: unchanged, except that a
/// single-word option whose non-blank value holds whitespace has already
/// stored that value when it is refused.
pub open spec fn after_refusal(a: ArgsView, flag: Seq<char>, value: Option<Seq<char>>) -> ArgsView {
    match value {
        Some(v) => if is_blank(v) {
            a
        } else if flag == "--nats-subject"@ {
            ArgsView { nats_subject: v, ..a }
        } else if flag == "--nats-stream"@ {
            ArgsView { nats_stream: v, ..a }
        } else if flag == "--object-store-bucket"@ {
            ArgsView { bucket: v, ..a }
        } else if flag == "--object-store-region"@ {
            ArgsView { region: v, ..a }
        } else {
            a
        },
        None => a,
    }
}

pub open spec fn unit_result_matches(r: Result<(), String>, s: Result<ArgsView, Seq<char>>, after: ArgsView) -> bool {
    match s {
        Ok(b) => r is Ok && after == b,
        Err(e) => r matches Err(m) && m@ == e,
    }
}

impl Args {
    /// Parses the command line; the first value is the program name.
    pub fn parse(values: Vec<String>) -> (r: Result<Self, String>)
        ensures
            args_result(r) == parse_spec(string_views(values@)),
    {
        let ghost views = string_views(values@);
        let mut args = Args::with_defaults();
        let mut next: usize = if values.len() > 0 {
            1
        } else {
            0
        };
        assert(option_tokens(views) =~= views.subrange(next as int, views.len() as int));
        while next < values.len()
            invariant
                next <= values.len(),
                views == string_views(values@),
                parse_tokens(default_args(), option_tokens(views)) == parse_tokens(
                    args@,
                    views.subrange(next as int, views.len() as int),
                ),
            decreases values.len() - next,
        {
            let idx = next;
            let ghost i = next as int;
            let ghost before = args@;
            let ghost toks = views.subrange(i, views.len() as int);
            next = next + 1;
            let r = apply_arg(&mut args, values[idx].as_str(), &values, &mut next);
            proof {
                assert(toks[0] == values@[i]@);
                assert(toks.drop_first() =~= views.subrange(i + 1, views.len() as int));
                if i + 1 < views.len() {
                    assert(toks.drop_first()[0] == values@[i + 1]@);
                    assert(toks.drop_first().drop_first() =~= views.subrange(
                        i + 2,
                        views.len() as int,
                    ));
                }
            }
            match r {
                Err(e) => {
                    return Err(e);
                },
                Ok(()) => {},
            }
        }
        assert(views.subrange(next as int, views.len() as int) =~= Seq::<Seq<char>>::empty());
        match validate_backfill_window(&args) {
            Err(e) => Err(e),
            Ok(()) => Ok(args),
        }
    }
}

/// The options without a value are not among those that take one.
pub proof fn lemma_flags_without_value()
    ensures
        !takes_value("--dry-run"@),
        !takes_value("--replay-pending-outbox"@),
        !takes_value("--help"@),
        !takes_value("-h"@),
{
    assert("--source-registry"@.len() == 17) by {
        reveal_strlit("--source-registry");
    }
    assert("--max-items-per-source"@.len() == 22) by {
        reveal_strlit("--max-items-per-source");
    }
    assert("--schedule-interval-ms"@.len() == 22) by {
        reveal_strlit("--schedule-interval-ms");
    }
    assert("--source-id"@.len() == 11) by {
        reveal_strlit("--source-id");
    }
    assert("--nats-url"@.len() == 10) by {
        reveal_strlit("--nats-url");
    }
    assert("--nats-subject"@.len() == 14) by {
        reveal_strlit("--nats-subject");
    }
    assert("--nats-stream"@.len() == 13) by {
        reveal_strlit("--nats-stream");
    }
    assert("--object-store-bucket"@.len() == 21) by {
        reveal_strlit("--object-store-bucket");
    }
    assert("--object-store-region"@.len() == 21) by {
        reveal_strlit("--object-store-region");
    }
    assert("--dedup-lookback-days"@.len() == 21) by {
        reveal_strlit("--dedup-lookback-days");
    }
    assert("--chunk-max-records"@.len() == 19) by {
        reveal_strlit("--chunk-max-records");
    }
    assert("--derivatives-max-events-per-run"@.len() == 32) by {
        reveal_strlit("--derivatives-max-events-per-run");
    }
    assert("--derivatives-max-events-per-source"@.len() == 35) by {
        reveal_strlit("--derivatives-max-events-per-source");
    }
    assert("--community-max-events-per-run"@.len() == 30) by {
        reveal_strlit("--community-max-events-per-run");
    }
    assert("--community-max-events-per-source"@.len() == 33) by {
        reveal_strlit("--community-max-events-per-source");
    }
    assert("--backfill-start-ms"@.len() == 19) by {
        reveal_strlit("--backfill-start-ms");
    }
    assert("--backfill-end-ms"@.len() == 17) by {
        reveal_strlit("--backfill-end-ms");
    }
    assert("--dry-run"@.len() == 9) by {
        reveal_strlit("--dry-run");
    }
    assert("--replay-pending-outbox"@.len() == 23) by {
        reveal_strlit("--replay-pending-outbox");
    }
    assert("--help"@.len() == 6) by {
        reveal_strlit("--help");
    }
    assert("-h"@.len() == 2) by {
        reveal_strlit("-h");
    }
}

/// Option names differ: by length, and by one character where lengths agree.
proof fn lemma_option_names_distinct()
    ensures
        "--source-registry"@.len() == 17,
        "--max-items-per-source"@.len() == 22,
        "--schedule-interval-ms"@.len() == 22,
        "--source-id"@.len() == 11,
        "--nats-url"@.len() == 10,
        "--nats-subject"@.len() == 14,
        "--nats-stream"@.len() == 13,
        "--object-store-bucket"@.len() == 21,
        "--object-store-region"@.len() == 21,
        "--dedup-lookback-days"@.len() == 21,
        "--chunk-max-records"@.len() == 19,
        "--derivatives-max-events-per-run"@.len() == 32,
        "--derivatives-max-events-per-source"@.len() == 35,
        "--community-max-events-per-run"@.len() == 30,
        "--community-max-events-per-source"@.len() == 33,
        "--backfill-start-ms"@.len() == 19,
        "--backfill-end-ms"@.len() == 17,
        "--dry-run"@.len() == 9,
        "--replay-pending-outbox"@.len() == 23,
        "--help"@.len() == 6,
        "-h"@.len() == 2,
        "--dedup-lookback-days"@ != "--object-store-bucket"@,
        "--dedup-lookback-days"@ != "--object-store-region"@,
        "--object-store-region"@ != "--object-store-bucket"@,
{
    reveal_strlit("--dedup-lookback-days");
    reveal_strlit("--object-store-bucket");
    reveal_strlit("--object-store-region");
    assert("--dedup-lookback-days"@[2] != "--object-store-bucket"@[2]);
    assert("--dedup-lookback-days"@[2] != "--object-store-region"@[2]);
    assert("--object-store-region"@[15] != "--object-store-bucket"@[15]);
    assert("--source-registry"@.len() == 17) by {
        reveal_strlit("--source-registry");
    }
    assert("--max-items-per-source"@.len() == 22) by {
        reveal_strlit("--max-items-per-source");
    }
    assert("--schedule-interval-ms"@.len() == 22) by {
        reveal_strlit("--schedule-interval-ms");
    }
    assert("--source-id"@.len() == 11) by {
        reveal_strlit("--source-id");
    }
    assert("--nats-url"@.len() == 10) by {
        reveal_strlit("--nats-url");
    }
    assert("--nats-subject"@.len() == 14) by {
        reveal_strlit("--nats-subject");
    }
    assert("--nats-stream"@.len() == 13) by {
        reveal_strlit("--nats-stream");
    }
    assert("--object-store-bucket"@.len() == 21) by {
        reveal_strlit("--object-store-bucket");
    }
    assert("--object-store-region"@.len() == 21) by {
        reveal_strlit("--object-store-region");
    }
    assert("--dedup-lookback-days"@.len() == 21) by {
        reveal_strlit("--dedup-lookback-days");
    }
    assert("--chunk-max-records"@.len() == 19) by {
        reveal_strlit("--chunk-max-records");
    }
    assert("--derivatives-max-events-per-run"@.len() == 32) by {
        reveal_strlit("--derivatives-max-events-per-run");
    }
    assert("--derivatives-max-events-per-source"@.len() == 35) by {
        reveal_strlit("--derivatives-max-events-per-source");
    }
    assert("--community-max-events-per-run"@.len() == 30) by {
        reveal_strlit("--community-max-events-per-run");
    }
    assert("--community-max-events-per-source"@.len() == 33) by {
        reveal_strlit("--community-max-events-per-source");
    }
    assert("--backfill-start-ms"@.len() == 19) by {
        reveal_strlit("--backfill-start-ms");
    }
    assert("--backfill-end-ms"@.len() == 17) by {
        reveal_strlit("--backfill-end-ms");
    }
    assert("--dry-run"@.len() == 9) by {
        reveal_strlit("--dry-run");
    }
    assert("--replay-pending-outbox"@.len() == 23) by {
        reveal_strlit("--replay-pending-outbox");
    }
    assert("--help"@.len() == 6) by {
        reveal_strlit("--help");
    }
    assert("-h"@.len() == 2) by {
        reveal_strlit("-h");
    }
}

/// Applies one option. `next` indexes the argument after it, which an option
/// that takes a value reads and steps over.
pub fn apply_arg(args: &mut Args, arg: &str, values: &Vec<String>, next: &mut usize) -> (r: Result<
    (),
    String,
>)
    requires
        *old(next) <= values.len(),
    ensures
        unit_result_matches(
            r,
            apply_spec(
                old(args)@,
                arg@,
                if *old(next) < values.len() {
                    Some(values@[*old(next) as int]@)
                } else {
                    None
                },
            ),
            final(args)@,
        ),
        r is Err ==> final(args)@ == after_refusal(
            old(args)@,
            arg@,
            if *old(next) < values.len() {
                Some(values@[*old(next) as int]@)
            } else {
                None
            },
        ),
        *final(next) == if takes_value(arg@) && *old(next) < values.len() {
            *old(next) + 1
        } else {
            *old(next) as int
        },
{
    let value: Option<String> = if *next < values.len() {
        Some(values[*next].clone())
    } else {
        None
    };
    proof {
        lemma_option_names_distinct();
    }
    if str_eq(arg, "--source-registry") {
        step(next, values.len());
        parse_source_registry(args, value)
    } else if str_eq(arg, "--max-items-per-source") {
        step(next, values.len());
        match positive_usize_arg(value, "--max-items-per-source") {
            Ok(n) => {
                args.max_items_per_source = n;
                Ok(())
            },
            Err(e) => Err(e),
        }
    } else if str_eq(arg, "--schedule-interval-ms") {
        step(next, values.len());
        match positive_u64_arg(value, "--schedule-interval-ms") {
            Ok(n) => {
                args.schedule_interval_ms = Some(n);
                Ok(())
            },
            Err(e) => Err(e),
        }
    } else if str_eq(arg, "--dry-run") {
        proof {
            lemma_flags_without_value();
        }
        args.dry_run = true;
        Ok(())
    } else if str_eq(arg, "--source-id") {
        step(next, values.len());
        parse_source_id(args, value)
    } else if str_eq(arg, "--nats-url") {
        step(next, values.len());
        parse_nats_url(args, value)
    } else if str_eq(arg, "--nats-subject") {
        step(next, values.len());
        parse_non_empty_token(&mut args.nats_subject, value, "--nats-subject", "subject")
    } else if str_eq(arg, "--nats-stream") {
        step(next, values.len());
        parse_non_empty_token(&mut args.nats_stream, value, "--nats-stream", "stream name")
    } else if str_eq(arg, "--object-store-bucket") {
        step(next, values.len());
        parse_non_empty_token(&mut args.object_store.bucket, value, "--object-store-bucket", "bucket")
    } else if str_eq(arg, "--object-store-region") {
        step(next, values.len());
        parse_non_empty_token(&mut args.object_store.region, value, "--object-store-region", "region")
    } else if str_eq(arg, "--dedup-lookback-days") {
        step(next, values.len());
        match positive_u16_arg(value, "--dedup-lookback-days") {
            Ok(n) => {
                args.dedup_lookback_days = n;
                Ok(())
            },
            Err(e) => Err(e),
        }
    } else if str_eq(arg, "--chunk-max-records") {
        step(next, values.len());
        match positive_usize_arg(value, "--chunk-max-records") {
            Ok(n) => {
                args.chunk_max_records = n;
                Ok(())
            },
            Err(e) => Err(e),
        }
    } else if str_eq(arg, "--derivatives-max-events-per-run") {
        step(next, values.len());
        match positive_usize_arg(value, "--derivatives-max-events-per-run") {
            Ok(n) => {
                args.derivatives_max_events_per_run = n;
                Ok(())
            },
            Err(e) => Err(e),
        }
    } else if str_eq(arg, "--derivatives-max-events-per-source") {
        step(next, values.len());
        match positive_usize_arg(value, "--derivatives-max-events-per-source") {
            Ok(n) => {
                args.derivatives_max_events_per_source = n;
                Ok(())
            },
            Err(e) => Err(e),
        }
    } else if str_eq(arg, "--community-max-events-per-run") {
        step(next, values.len());
        match positive_usize_arg(value, "--community-max-events-per-run") {
            Ok(n) => {
                args.community_max_events_per_run = n;
                Ok(())
            },
            Err(e) => Err(e),
        }
    } else if str_eq(arg, "--community-max-events-per-source") {
        step(next, values.len());
        match positive_usize_arg(value, "--community-max-events-per-source") {
            Ok(n) => {
                args.community_max_events_per_source = n;
                Ok(())
            },
            Err(e) => Err(e),
        }
    } else if str_eq(arg, "--backfill-start-ms") {
        step(next, values.len());
        match non_negative_i64_arg(value, "--backfill-start-ms") {
            Ok(n) => {
                args.backfill_start_ms = Some(n);
                Ok(())
            },
            Err(e) => Err(e),
        }
    } else if str_eq(arg, "--backfill-end-ms") {
        step(next, values.len());
        match non_negative_i64_arg(value, "--backfill-end-ms") {
            Ok(n) => {
                args.backfill_end_ms = Some(n);
                Ok(())
            },
            Err(e) => Err(e),
        }
    } else if str_eq(arg, "--replay-pending-outbox") {
        proof {
            lemma_flags_without_value();
        }
        args.replay_pending_outbox = true;
        Ok(())
    } else if str_eq(arg, "--help") || str_eq(arg, "-h") {
        proof {
            lemma_flags_without_value();
        }
        Err(help())
    } else {
        let h = help();
        let mut message = concat3("unknown argument: ", arg, "\n\n");
        push_str(&mut message, h.as_str());
        Err(message)
    }
}

/// Steps over the value of an option, when there is one.
fn step(next: &mut usize, len: usize)
    requires
        *old(next) <= len,
    ensures
        *final(next) == if *old(next) < len {
            *old(next) + 1
        } else {
            *old(next) as int
        },
{
    if *next < len {
        *next = *next + 1;
    }
}

pub fn parse_source_registry(args: &mut Args, value: Option<String>) -> (r: Result<(), String>)
    ensures
        match absolute_path_spec(opt_string_view(value), "--source-registry requires an absolute path"@) {
            Ok(v) => r is Ok && final(args)@ == (ArgsView { source_registry: v, ..old(args)@ }),
            Err(e) => r matches Err(m) && m@ == e,
        },
        r is Err ==> *final(args) == *old(args),
{
    match absolute_path_arg(value, "--source-registry requires an absolute path") {
        Ok(p) => {
            args.source_registry = p;
            Ok(())
        },
        Err(e) => Err(e),
    }
}

pub fn parse_source_id(args: &mut Args, value: Option<String>) -> (r: Result<(), String>)
    ensures
        match non_empty_value_spec(opt_string_view(value), "--source-id"@, "source id"@) {
            Ok(v) => r is Ok && final(args)@ == (ArgsView { source_id: Some(v), ..old(args)@ }),
            Err(e) => r matches Err(m) && m@ == e,
        },
        r is Err ==> *final(args) == *old(args),
{
    match non_empty_value(value, "--source-id", "source id") {
        Ok(source_id) => {
            args.source_id = Some(source_id);
            Ok(())
        },
        Err(e) => Err(e),
    }
}

pub fn parse_nats_url(args: &mut Args, value: Option<String>) -> (r: Result<(), String>)
    ensures
        match nats_url_spec(opt_string_view(value)) {
            Ok(v) => r is Ok && final(args)@ == (ArgsView { nats_url: Some(v), ..old(args)@ }),
            Err(e) => r matches Err(m) && m@ == e,
        },
        r is Err ==> *final(args) == *old(args),
{
    match value {
        None => Err("--nats-url requires a NATS server URL".to_owned()),
        Some(nats_url) => {
            if !str_starts_with(nats_url.as_str(), "nats://") && !str_starts_with(
                nats_url.as_str(),
                "tls://",
            ) {
                Err("--nats-url must start with nats:// or tls://".to_owned())
            } else {
                args.nats_url = Some(nats_url);
                Ok(())
            }
        },
    }
}

/// Sets `target` to a non-blank single-word value.
pub fn parse_non_empty_token(
    target: &mut String,
    value: Option<String>,
    flag: &str,
    label: &str,
) -> (r: Result<(), String>)
    ensures
        match token_spec(opt_string_view(value), flag@, label@) {
            Ok(v) => r is Ok && final(target)@ == v,
            Err(e) => r matches Err(m) && m@ == e,
        },
        non_empty_value_spec(opt_string_view(value), flag@, label@) is Err ==> *final(target) == *old(target),
        non_empty_value_spec(opt_string_view(value), flag@, label@) matches Ok(v) ==> final(target)@ == v,
{
    match non_empty_value(value, flag, label) {
        Err(e) => Err(e),
        Ok(v) => {
            *target = v;
            let cs = chars_of(target.as_str());
            let ws = split_words(cs.as_slice());
            if ws.len() > 1 {
                Err(concat2(flag, " must not be empty or contain whitespace"))
            } else {
                Ok(())
            }
        },
    }
}

} // verus!
