//! Calendar computations delegated to chrono.
use crate::numbers::nat_to_dec;
use chrono::Datelike;
use vstd::prelude::*;

verus! {

/// Milliseconds since the epoch of an RFC 2822 date-time, when it parses.
pub uninterp spec fn rfc2822_timestamp_ms(value: Seq<char>) -> Option<i64>;

/// Milliseconds since the epoch of an RFC 3339 date-time, when it parses.
pub uninterp spec fn rfc3339_timestamp_ms(value: Seq<char>) -> Option<i64>;

/// The day, counted from 1970-01-01, that holds an instant given in
/// milliseconds since the epoch.
pub open spec fn epoch_day(ms: int) -> int {
    ms / 86_400_000
}

/// Year, month and day of the proleptic Gregorian calendar for a day counted
/// from 1970-01-01 (days before it are negative).
pub open spec fn civil_from_days(d: int) -> (int, int, int) {
    let z = d + 719_468;
    let era = z / 146_097;
    let doe = z - era * 146_097;
    let yoe = (doe - doe / 1460 + doe / 36_524 - doe / 146_096) / 365;
    let doy = doe - (365 * yoe + yoe / 4 - yoe / 100);
    let mp = (5 * doy + 2) / 153;
    let day = doy - (153 * mp + 2) / 5 + 1;
    let month = if mp < 10 {
        mp + 3
    } else {
        mp - 9
    };
    let year = yoe + era * 400 + if month <= 2 {
        1int
    } else {
        0int
    };
    (year, month, day)
}

/// Decimal digits of `v` zero-padded to `width` characters, a minus sign
/// counting as one of them (as `{:0width$}` writes an integer).
pub open spec fn zero_padded(v: int, width: int) -> Seq<char> {
    let digits = nat_to_dec(if v < 0 {
        (-v) as nat
    } else {
        v as nat
    });
    let sign: Seq<char> = if v < 0 {
        seq!['-']
    } else {
        seq![]
    };
    let fill = width - sign.len() - digits.len();
    sign + Seq::new(if fill > 0 {
        fill as nat
    } else {
        0
    }, |i: int| '0') + digits
}

/// UTC calendar date, as `YYYY-MM-DD`, `days` days before the instant `now_ms`.
pub open spec fn utc_date_label(now_ms: i64, days: u16) -> Seq<char> {
    let date = civil_from_days(epoch_day(now_ms as int) - days);
    zero_padded(date.0, 4) + seq!['-'] + zero_padded(date.1, 2) + seq!['-'] + zero_padded(date.2, 2)
}

/// Calls `chrono::DateTime::parse_from_rfc2822` and reads the instant in
/// milliseconds. Trusted: the result is the value `rfc2822_timestamp_ms` names
/// for `value`; which strings parse, and to what, is left to chrono.
#[verifier::external_body]
pub fn parse_rfc2822_ms(value: &str) -> (r: Option<i64>)
    ensures
        r == rfc2822_timestamp_ms(value@),
{
    chrono::DateTime::parse_from_rfc2822(value).ok().map(|date| date.timestamp_millis())
}

/// Calls `chrono::DateTime::parse_from_rfc3339` and reads the instant in
/// milliseconds. Trusted: the result is the value `rfc3339_timestamp_ms` names
/// for `value`; which strings parse, and to what, is left to chrono.
#[verifier::external_body]
pub fn parse_rfc3339_ms(value: &str) -> (r: Option<i64>)
    ensures
        r == rfc3339_timestamp_ms(value@),
{
    chrono::DateTime::parse_from_rfc3339(value).ok().map(|date| date.timestamp_millis())
}

/// The UTC date `days` days before `now_ms`, as chrono's
/// `DateTime::from_timestamp_millis`, `date_naive` and
/// `NaiveDate::checked_sub_signed` compute it in the proleptic Gregorian
/// calendar, written as year, month and day zero-padded to four, two and two
/// characters. Trusted: the result is `utc_date_label`. The instant is limited
/// to about 259,800 years on either side of 1970 (chrono's dates end at years
/// -262,143 and 262,142), which leaves room for a look-back of up to 65,535
/// days.
#[verifier::external_body]
pub fn utc_date_before(now_ms: i64, days: u16) -> (r: String)
    requires
        -8_200_000_000_000_000 <= now_ms <= 8_200_000_000_000_000,
    ensures
        r@ == utc_date_label(now_ms, days),
{
    let today = chrono::DateTime::from_timestamp_millis(now_ms).unwrap().date_naive();
    let date = today.checked_sub_signed(chrono::TimeDelta::days(i64::from(days))).unwrap();
    format!("{:04}-{:02}-{:02}", date.year(), date.month(), date.day())
}

} // verus!
