//! Calendar text for Unix timestamps, as the status display shows them.

use vstd::prelude::*;
use crate::text::{chars_to_string, int_decimal, nat_decimal, push_decimal};

verus! {

/// Quotient of integer division rounding toward zero (Rust's `/`).
pub open spec fn tdiv(a: int, b: int) -> int {
    if a >= 0 { a / b } else { -((-a) / b) }
}

/// Remainder of integer division rounding toward zero (Rust's `%`).
pub open spec fn trem(a: int, b: int) -> int {
    if a >= 0 { a % b } else { -((-a) % b) }
}

/// Gregorian leap years.
pub open spec fn spec_leap(year: int) -> bool {
    (year % 4 == 0 && year % 100 != 0) || year % 400 == 0
}

/// Days of a year.
pub open spec fn days_in_year(year: int) -> int {
    if spec_leap(year) { 366 } else { 365 }
}

/// The year that day `days` (counted from the start of `year`) falls in,
/// and the day within that year.
pub open spec fn year_and_day(days: int, year: int) -> (int, int)
    decreases days,
{
    if days < days_in_year(year) {
        (year, days)
    } else {
        year_and_day(days - days_in_year(year), year + 1)
    }
}

/// Days of month `m` (counted from 0).
pub open spec fn month_len(m: int, leap: bool) -> int {
    if m == 1 {
        if leap { 29 } else { 28 }
    } else if m == 3 || m == 5 || m == 8 || m == 10 {
        30
    } else {
        31
    }
}

/// The month (from 1) and day (from 1) of day `rem` counted from the start
/// of month `m`; December 31 past the end of the year.
pub open spec fn month_and_day(rem: int, m: int, leap: bool) -> (int, int)
    decreases 12 - m,
{
    if m >= 12 {
        (12, 31)
    } else if rem < month_len(m, leap) {
        (m + 1, rem + 1)
    } else {
        month_and_day(rem - month_len(m, leap), m + 1, leap)
    }
}

/// A number as `{:02}` prints it: at least two characters, zero-padded
/// after the sign.
pub open spec fn pad2(n: int) -> Seq<char> {
    if n < 0 {
        seq!['-'] + nat_decimal((-n) as nat)
    } else if n < 10 {
        seq!['0'] + nat_decimal(n as nat)
    } else {
        nat_decimal(n as nat)
    }
}

/// The text of a timestamp: `Never` for 0, otherwise
/// `YYYY-MM-DD HH:MM:SS` (UTC) from the calendar walk of the days since 1970.
pub open spec fn spec_format_timestamp(t: i64) -> Seq<char> {
    if t == 0 {
        "Never"@
    } else {
        let days = tdiv(t as int, 86400);
        let (year, day) = year_and_day(days, 1970);
        let (month, mday) = month_and_day((day as i32) as int, 0, spec_leap(year));
        int_decimal(year) + seq!['-'] + pad2(month) + seq!['-'] + pad2(mday) + seq![' '] + pad2(
            trem(tdiv(t as int, 3600), 24),
        ) + seq![':'] + pad2(trem(tdiv(t as int, 60), 60)) + seq![':'] + pad2(trem(t as int, 60))
    }
}

/// Whether a year is a leap year.
pub fn is_leap_year(year: i32) -> (r: bool)
    ensures
        r == spec_leap(year as int),
{
    (year % 4 == 0 && year % 100 != 0) || year % 400 == 0
}

/// Days of month `m` (counted from 0).
fn days_of_month(m: usize, leap: bool) -> (r: i32)
    requires
        m < 12,
    ensures
        r == month_len(m as int, leap),
{
    if m == 1 {
        if leap { 29 } else { 28 }
    } else if m == 3 || m == 5 || m == 8 || m == 10 {
        30
    } else {
        31
    }
}

/// The month (from 1) and day (from 1) of day `day_of_year` (from 0) of `year`.
pub fn day_of_year_to_month_day(day_of_year: i32, year: i32) -> (r: (i32, i32))
    ensures
        (r.0 as int, r.1 as int) == month_and_day(day_of_year as int, 0, spec_leap(year as int)),
{
    let leap = is_leap_year(year);
    let mut remaining = day_of_year;
    let mut m: usize = 0;
    while m < 12
        invariant
            m <= 12,
            month_and_day(day_of_year as int, 0, spec_leap(year as int)) == month_and_day(
                remaining as int,
                m as int,
                leap,
            ),
            leap == spec_leap(year as int),
        decreases 12 - m,
    {
        let len = days_of_month(m, leap);
        if remaining < len {
            return ((m + 1) as i32, remaining + 1);
        }
        remaining = remaining - len;
        m += 1;
    }
    (12, 31)
}

/// The calendar walk ends in a year no earlier than it starts, and later
/// when at least a year's days remain.
proof fn lemma_year_and_day_grows(days: int, year: int)
    ensures
        year_and_day(days, year).0 >= year,
        days >= days_in_year(year) ==> year_and_day(days, year).0 > year,
    decreases days,
{
    if days >= days_in_year(year) {
        lemma_year_and_day_grows(days - days_in_year(year), year + 1);
    }
}

/// Appends `n` as `{:02}` prints it.
fn push_pad2(out: &mut Vec<char>, n: i64)
    ensures
        final(out)@ == old(out)@ + pad2(n as int),
{
    if n < 0 {
        out.push('-');
        let mag: u64 = if n == i64::MIN { 0x8000_0000_0000_0000u64 } else { (-n) as u64 };
        push_decimal(out, mag);
        proof {
            assert(final(out)@ =~= old(out)@ + pad2(n as int));
        }
    } else {
        if n < 10 {
            out.push('0');
        }
        push_decimal(out, n as u64);
        proof {
            assert(final(out)@ =~= old(out)@ + pad2(n as int));
        }
    }
}

/// The text of a timestamp (see [`spec_format_timestamp`]).
pub fn format_timestamp(timestamp: i64) -> (r: String)
    requires
        timestamp == 0 || year_and_day(tdiv(timestamp as int, 86400), 1970).0 <= i32::MAX,
    ensures
        r@ == spec_format_timestamp(timestamp),
{
    if timestamp == 0 {
        return String::from_str("Never");
    }
    let seconds = timestamp % 60;
    let minutes = (timestamp / 60) % 60;
    let hours = (timestamp / 3600) % 24;
    let mut days = timestamp / 86400;
    let mut year: i32 = 1970;
    let ghost target = year_and_day(tdiv(timestamp as int, 86400), 1970);
    loop
        invariant
            year >= 1970,
            year_and_day(days as int, year as int) == target,
            target.0 <= i32::MAX,
        ensures
            year_and_day(days as int, year as int) == target,
            days < days_in_year(year as int),
        decreases days,
    {
        let diy: i64 = if is_leap_year(year) { 366 } else { 365 };
        if days < diy {
            break;
        }
        proof {
            lemma_year_and_day_grows(days as int, year as int);
        }
        days = days - diy;
        year = year + 1;
    }
    proof {
        assert(target == (year as int, days as int));
        assert(seconds == trem(timestamp as int, 60));
        assert(minutes == trem(tdiv(timestamp as int, 60), 60));
        assert(hours == trem(tdiv(timestamp as int, 3600), 24));
    }
    let (month, day) = day_of_year_to_month_day(days as i32, year);
    let mut out: Vec<char> = Vec::new();
    let yv = crate::text::i64_to_decimal(year as i64);
    let ys = crate::text::str_chars(yv.as_str());
    crate::paths::push_chars(&mut out, &ys);
    out.push('-');
    push_pad2(&mut out, month as i64);
    out.push('-');
    push_pad2(&mut out, day as i64);
    out.push(' ');
    push_pad2(&mut out, hours);
    out.push(':');
    push_pad2(&mut out, minutes);
    out.push(':');
    push_pad2(&mut out, seconds);
    proof {
        assert(out@ =~= spec_format_timestamp(timestamp));
    }
    chars_to_string(&out)
}

} // verus!
