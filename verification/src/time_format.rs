//! Timestamps and their wire format.
//!
//! A timestamp is a count of whole seconds since 1970-01-01T00:00:00 UTC.
//! The API renders every timestamp as `YYYY-MM-DDTHH:MM:SS` — no fractional
//! seconds and no timezone suffix; UTC is implicit.

use vstd::prelude::*;
use crate::text::{push_four_digits, push_two_digits, spec_four_digits, spec_two_digits, string_push};

verus! {

/// The largest timestamp the store accepts: 9999-12-31T23:59:59 UTC, the
/// last second whose year still has four decimal digits.
pub const MAX_TIMESTAMP_SECS: u64 = 253402300799;

pub open spec fn is_leap_year(y: int) -> bool {
    (y % 4 == 0 && y % 100 != 0) || y % 400 == 0
}

pub open spec fn days_in_year(y: int) -> int {
    if is_leap_year(y) {
        366
    } else {
        365
    }
}

/// Days in a month of the proleptic Gregorian calendar; `m` is 1-based.
pub open spec fn days_in_month(y: int, m: int) -> int {
    if m == 2 {
        if is_leap_year(y) {
            29
        } else {
            28
        }
    } else if m == 4 || m == 6 || m == 9 || m == 11 {
        30
    } else {
        31
    }
}

/// Walks whole years forward from year `y`: splits `d` remaining days into
/// the year they land in and the day index within that year.
pub open spec fn spec_year_split(y: int, d: int) -> (int, int)
    decreases d,
{
    if d < days_in_year(y) {
        (y, d)
    } else {
        spec_year_split(y + 1, d - days_in_year(y))
    }
}

/// Walks whole months forward from month `m` of year `y`: splits `d`
/// remaining days into a month and the day index within that month.
pub open spec fn spec_month_split(y: int, m: int, d: int) -> (int, int)
    decreases 12 - m,
{
    if m >= 12 || d < days_in_month(y, m) {
        (m, d)
    } else {
        spec_month_split(y, m + 1, d - days_in_month(y, m))
    }
}

/// The `YYYY-MM-DDTHH:MM:SS` rendering of a timestamp: the day count since
/// the epoch is decomposed year by year, then month by month, and the time
/// of day falls out of the remaining seconds.
pub open spec fn spec_format_timestamp(secs: int) -> Seq<char> {
    let days = secs / 86400;
    let tod = secs % 86400;
    let (y, day_of_year) = spec_year_split(1970, days);
    let (m, day_of_month) = spec_month_split(y, 1, day_of_year);
    spec_four_digits(y) + seq!['-'] + spec_two_digits(m) + seq!['-'] + spec_two_digits(
        day_of_month + 1,
    ) + seq!['T'] + spec_two_digits(tod / 3600) + seq![':'] + spec_two_digits((tod % 3600) / 60)
        + seq![':'] + spec_two_digits(tod % 60)
}

fn days_in_year_exec(y: u64) -> (d: u64)
    ensures
        d == days_in_year(y as int),
{
    if (y % 4 == 0 && y % 100 != 0) || y % 400 == 0 {
        366
    } else {
        365
    }
}

fn days_in_month_exec(y: u64, m: u64) -> (d: u64)
    ensures
        d == days_in_month(y as int, m as int),
{
    if m == 2 {
        if (y % 4 == 0 && y % 100 != 0) || y % 400 == 0 {
            29
        } else {
            28
        }
    } else if m == 4 || m == 6 || m == 9 || m == 11 {
        30
    } else {
        31
    }
}

pub fn format_timestamp(secs: u64) -> (r: String)
    requires
        secs <= MAX_TIMESTAMP_SECS,
    ensures
        r@ == spec_format_timestamp(secs as int),
{
    let days_total: u64 = secs / 86400;
    let tod: u64 = secs % 86400;

    let mut y: u64 = 1970;
    let mut rem: u64 = days_total;
    while rem >= days_in_year_exec(y)
        invariant
            1970 <= y,
            rem <= days_total,
            days_total <= MAX_TIMESTAMP_SECS / 86400,
            365 * (y - 1970) <= days_total - rem,
            spec_year_split(1970, days_total as int) == spec_year_split(y as int, rem as int),
        decreases rem,
    {
        let len = days_in_year_exec(y);
        rem = rem - len;
        y = y + 1;
    }

    let mut m: u64 = 1;
    let mut day: u64 = rem;
    while m < 12 && day >= days_in_month_exec(y, m)
        invariant
            1 <= m <= 12,
            day <= rem,
            spec_month_split(y as int, 1, rem as int) == spec_month_split(
                y as int,
                m as int,
                day as int,
            ),
        decreases 12 - m,
    {
        let len = days_in_month_exec(y, m);
        day = day - len;
        m = m + 1;
    }

    let mut out = String::new();
    push_four_digits(&mut out, y);
    string_push(&mut out, '-');
    push_two_digits(&mut out, m);
    string_push(&mut out, '-');
    push_two_digits(&mut out, day + 1);
    string_push(&mut out, 'T');
    push_two_digits(&mut out, tod / 3600);
    string_push(&mut out, ':');
    push_two_digits(&mut out, (tod % 3600) / 60);
    string_push(&mut out, ':');
    push_two_digits(&mut out, tod % 60);
    assert(out@ =~= spec_format_timestamp(secs as int));
    out
}

} // verus!
