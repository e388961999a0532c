//! Checks on the value that follows an option.
use super::types::{opt_string_view, Args};
use crate::numbers::{parse_i64, parse_i64_decimal, parse_unsigned, parse_unsigned_decimal};
use crate::text::{chars_of, concat2, concat3, is_blank, str_is_blank};
use vstd::prelude::*;

verus! {

/// A text result by its characters.
pub open spec fn text_result(r: Result<String, String>) -> Result<Seq<char>, Seq<char>> {
    match r {
        Ok(v) => Ok(v@),
        Err(e) => Err(e@),
    }
}

/// A numeric result as a mathematical integer.
pub open spec fn usize_result(r: Result<usize, String>) -> Result<int, Seq<char>> {
    match r {
        Ok(v) => Ok(v as int),
        Err(e) => Err(e@),
    }
}

pub open spec fn u64_result(r: Result<u64, String>) -> Result<int, Seq<char>> {
    match r {
        Ok(v) => Ok(v as int),
        Err(e) => Err(e@),
    }
}

pub open spec fn u16_result(r: Result<u16, String>) -> Result<int, Seq<char>> {
    match r {
        Ok(v) => Ok(v as int),
        Err(e) => Err(e@),
    }
}

pub open spec fn i64_result(r: Result<i64, String>) -> Result<int, Seq<char>> {
    match r {
        Ok(v) => Ok(v as int),
        Err(e) => Err(e@),
    }
}

/// A value that must be present and must not be blank.
pub open spec fn non_empty_value_spec(
    value: Option<Seq<char>>,
    flag: Seq<char>,
    label: Seq<char>,
) -> Result<Seq<char>, Seq<char>> {
    match value {
        None => Err(flag + " requires a "@ + label),
        Some(v) => if is_blank(v) {
            Err(flag + " must not be empty"@)
        } else {
            Ok(v)
        },
    }
}

/// A count that must be present, parse as an unsigned integer not above
/// `max`, and be greater than zero.
pub open spec fn positive_arg_spec(value: Option<Seq<char>>, name: Seq<char>, max: nat) -> Result<
    int,
    Seq<char>,
> {
    match value {
        None => Err(name + " requires a number"@),
        Some(v) => match parse_unsigned(v, max) {
            None => Err(name + " must be a positive number"@),
            Some(n) => if n == 0 {
                Err(name + " must be greater than zero"@)
            } else {
                Ok(n as int)
            },
        },
    }
}

/// A timestamp in milliseconds that must be present, parse as an `i64` and
/// not be negative.
pub open spec fn non_negative_i64_spec(value: Option<Seq<char>>, name: Seq<char>) -> Result<
    int,
    Seq<char>,
> {
    match value {
        None => Err(name + " requires a timestamp in ms"@),
        Some(v) => match parse_i64(v) {
            None => Err(name + " must be a non-negative integer"@),
            Some(n) => if n < 0 {
                Err(name + " must be non-negative"@)
            } else {
                Ok(n)
            },
        },
    }
}

/// A Unix path is absolute when it starts at the root.
pub open spec fn is_absolute_path(p: Seq<char>) -> bool {
    p.len() > 0 && p[0] == '/'
}

/// A path that must be present and absolute; both failures give `message`.
pub open spec fn absolute_path_spec(value: Option<Seq<char>>, message: Seq<char>) -> Result<
    Seq<char>,
    Seq<char>,
> {
    match value {
        None => Err(message),
        Some(v) => if is_absolute_path(v) {
            Ok(v)
        } else {
            Err(message)
        },
    }
}

/// The error of a backfill window, if it has one: both ends or neither must be
/// given, and the start must come before the end.
pub open spec fn backfill_window_error(start: Option<i64>, end: Option<i64>) -> Option<Seq<char>> {
    match (start, end) {
        (Some(s), Some(e)) => if s >= e {
            Some("--backfill-start-ms must be less than --backfill-end-ms"@)
        } else {
            None
        },
        (Some(_), None) => Some("--backfill-end-ms is required with --backfill-start-ms"@),
        (None, Some(_)) => Some("--backfill-start-ms is required with --backfill-end-ms"@),
        (None, None) => None,
    }
}

pub fn non_empty_value(value: Option<String>, flag: &str, label: &str) -> (r: Result<
    String,
    String,
>)
    ensures
        text_result(r) == non_empty_value_spec(opt_string_view(value), flag@, label@),
{
    match value {
        None => Err(concat3(flag, " requires a ", label)),
        Some(v) => {
            if str_is_blank(v.as_str()) {
                Err(concat2(flag, " must not be empty"))
            } else {
                Ok(v)
            }
        },
    }
}

pub fn validate_backfill_window(args: &Args) -> (r: Result<(), String>)
    ensures
        match backfill_window_error(args.backfill_start_ms, args.backfill_end_ms) {
            Some(e) => r matches Err(m) && m@ == e,
            None => r is Ok,
        },
{
    match (args.backfill_start_ms, args.backfill_end_ms) {
        (Some(start_ms), Some(end_ms)) => {
            if start_ms >= end_ms {
                Err("--backfill-start-ms must be less than --backfill-end-ms".to_owned())
            } else {
                Ok(())
            }
        },
        (Some(_), None) => Err("--backfill-end-ms is required with --backfill-start-ms".to_owned()),
        (None, Some(_)) => Err("--backfill-start-ms is required with --backfill-end-ms".to_owned()),
        (None, None) => Ok(()),
    }
}

pub fn absolute_path_arg(value: Option<String>, message: &str) -> (r: Result<String, String>)
    ensures
        text_result(r) == absolute_path_spec(opt_string_view(value), message@),
{
    match value {
        None => Err(message.to_owned()),
        Some(v) => {
            let cs = chars_of(v.as_str());
            if cs.len() > 0 && cs[0] == '/' {
                Ok(v)
            } else {
                Err(message.to_owned())
            }
        },
    }
}

/// Parses a positive count no larger than `max`.
fn positive_arg(value: Option<String>, name: &str, max: u64) -> (r: Result<u64, String>)
    ensures
        u64_result(r) == positive_arg_spec(opt_string_view(value), name@, max as nat),
        r matches Ok(n) ==> n <= max,
{
    match value {
        None => Err(concat2(name, " requires a number")),
        Some(v) => {
            let cs = chars_of(v.as_str());
            match parse_unsigned_decimal(cs.as_slice(), max) {
                None => Err(concat2(name, " must be a positive number")),
                Some(n) => {
                    if n == 0 {
                        Err(concat2(name, " must be greater than zero"))
                    } else {
                        Ok(n)
                    }
                },
            }
        },
    }
}

pub fn positive_usize_arg(value: Option<String>, name: &str) -> (r: Result<usize, String>)
    ensures
        usize_result(r) == positive_arg_spec(opt_string_view(value), name@, usize::MAX as nat),
{
    match positive_arg(value, name, usize::MAX as u64) {
        Ok(n) => Ok(n as usize),
        Err(e) => Err(e),
    }
}

pub fn positive_u64_arg(value: Option<String>, name: &str) -> (r: Result<u64, String>)
    ensures
        u64_result(r) == positive_arg_spec(opt_string_view(value), name@, u64::MAX as nat),
{
    positive_arg(value, name, u64::MAX)
}

pub fn positive_u16_arg(value: Option<String>, name: &str) -> (r: Result<u16, String>)
    ensures
        u16_result(r) == positive_arg_spec(opt_string_view(value), name@, u16::MAX as nat),
{
    match positive_arg(value, name, u16::MAX as u64) {
        Ok(n) => Ok(n as u16),
        Err(e) => Err(e),
    }
}

pub fn non_negative_i64_arg(value: Option<String>, name: &str) -> (r: Result<i64, String>)
    ensures
        i64_result(r) == non_negative_i64_spec(opt_string_view(value), name@),
{
    match value {
        None => Err(concat2(name, " requires a timestamp in ms")),
        Some(v) => {
            let cs = chars_of(v.as_str());
            match parse_i64_decimal(cs.as_slice()) {
                None => Err(concat2(name, " must be a non-negative integer")),
                Some(n) => {
                    if n < 0 {
                        Err(concat2(name, " must be non-negative"))
                    } else {
                        Ok(n)
                    }
                },
            }
        },
    }
}

} // verus!
