//! Timestamps for recorded traffic: seconds since the Unix epoch as a
//! calendar date and time of day in UTC.

use vstd::prelude::*;

use crate::clock::unix_now;
use crate::text::push_padded;
use crate::text::spec_padded;

verus! {

/// Whether `year` is a leap year of the Gregorian calendar.
pub open spec fn spec_is_leap_year(year: int) -> bool {
    (year % 4 == 0 && year % 100 != 0) || year % 400 == 0
}

/// The number of days in `year`.
pub open spec fn spec_days_in_year(year: int) -> int {
    if spec_is_leap_year(year) {
        366
    } else {
        365
    }
}

/// The number of days in month `month` (1 to 12) of `year`.
pub open spec fn spec_days_in_month(year: int, month: int) -> int {
    if month == 2 {
        if spec_is_leap_year(year) {
            29
        } else {
            28
        }
    } else if month == 4 || month == 6 || month == 9 || month == 11 {
        30
    } else {
        31
    }
}

/// The number of days from 1 January 1970 to 1 January of `year`.
pub open spec fn spec_days_before_year(year: int) -> int
    decreases year,
{
    if year <= 1970 {
        0
    } else {
        spec_days_before_year(year - 1) + spec_days_in_year(year - 1)
    }
}

/// The number of days from 1 January of `year` to the first of `month`.
pub open spec fn spec_days_before_month(year: int, month: int) -> int
    decreases month,
{
    if month <= 1 {
        0
    } else {
        spec_days_before_month(year, month - 1) + spec_days_in_month(year, month - 1)
    }
}

/// Whether year, month and day name a day of the calendar from 1970 on.
pub open spec fn spec_is_date(year: int, month: int, day: int) -> bool {
    &&& year >= 1970
    &&& 1 <= month <= 12
    &&& 1 <= day <= spec_days_in_month(year, month)
}

/// The number of days from 1 January 1970 to the given date.
pub open spec fn spec_day_number(year: int, month: int, day: int) -> int {
    spec_days_before_year(year) + spec_days_before_month(year, month) + day - 1
}

/// Decides whether `year` is a leap year.
pub fn is_leap_year(year: u64) -> (r: bool)
    ensures
        r == spec_is_leap_year(year as int),
{
    (year % 4 == 0 && year % 100 != 0) || (year % 400 == 0)
}

/// The number of days in a month of a year.
pub fn days_in_month(year: u64, month: u64) -> (r: u64)
    requires
        1 <= month <= 12,
    ensures
        r == spec_days_in_month(year as int, month as int),
{
    if month == 2 {
        if is_leap_year(year) {
            29
        } else {
            28
        }
    } else if month == 4 || month == 6 || month == 9 || month == 11 {
        30
    } else {
        31
    }
}

/// A year has as many days as its twelve months together.
pub proof fn lemma_months_fill_year(year: int)
    ensures
        spec_days_before_month(year, 13) == spec_days_in_year(year),
{
    reveal_with_fuel(spec_days_before_month, 14);
}

/// Converts days since the Unix epoch to year, month and day: the one date
/// from 1970 on that lies `days` days after 1 January 1970.
pub fn days_to_ymd(days: u64) -> (r: (u64, u64, u64))
    ensures
        spec_is_date(r.0 as int, r.1 as int, r.2 as int),
        spec_day_number(r.0 as int, r.1 as int, r.2 as int) == days,
{
    let mut remaining: u64 = days;
    let mut year: u64 = 1970;
    loop
        invariant
            year >= 1970,
            remaining <= days,
            (year - 1970) * 365 <= days - remaining,
            spec_days_before_year(year as int) + remaining == days,
        ensures
            remaining < spec_days_in_year(year as int),
        decreases remaining,
    {
        let days_in_year: u64 = if is_leap_year(year) {
            366
        } else {
            365
        };
        if remaining < days_in_year {
            break ;
        }
        remaining = remaining - days_in_year;
        year = year + 1;
    }

    let mut month: u64 = 1;
    while month < 12 && remaining >= days_in_month(year, month)
        invariant
            1 <= month <= 12,
            remaining <= days,
            spec_days_before_year(year as int) + spec_days_before_month(year as int, month as int)
                + remaining == days,
            spec_days_before_month(year as int, month as int) + remaining < spec_days_in_year(
                year as int,
            ),
        decreases 12 - month,
    {
        remaining = remaining - days_in_month(year, month);
        month = month + 1;
    }
    proof {
        lemma_months_fill_year(year as int);
    }
    (year, month, remaining + 1)
}

/// No two dates lie the same number of days after the epoch, so the date
/// that `days_to_ymd` returns is the only one its contract admits.
pub proof fn lemma_day_number_is_injective(y1: int, m1: int, d1: int, y2: int, m2: int, d2: int)
    requires
        spec_is_date(y1, m1, d1),
        spec_is_date(y2, m2, d2),
        spec_day_number(y1, m1, d1) == spec_day_number(y2, m2, d2),
    ensures
        y1 == y2,
        m1 == m2,
        d1 == d2,
{
    lemma_date_within_year(y1, m1, d1);
    lemma_date_within_year(y2, m2, d2);
    if y1 < y2 {
        lemma_years_grow(y1 + 1, y2);
    } else if y2 < y1 {
        lemma_years_grow(y2 + 1, y1);
    } else {
        if m1 < m2 {
            lemma_months_grow(y1, m1 + 1, m2);
        } else if m2 < m1 {
            lemma_months_grow(y1, m2 + 1, m1);
        }
    }
}

/// A date lies within its year.
pub proof fn lemma_date_within_year(year: int, month: int, day: int)
    requires
        spec_is_date(year, month, day),
    ensures
        0 <= spec_days_before_month(year, month),
        spec_days_before_month(year, month) + day <= spec_days_in_year(year),
{
    lemma_months_fill_year(year);
    lemma_months_grow(year, month + 1, 13);
    lemma_months_grow(year, 1, month);
}

/// Later years begin later.
pub proof fn lemma_years_grow(from: int, to: int)
    requires
        1970 <= from <= to,
    ensures
        spec_days_before_year(from) <= spec_days_before_year(to),
    decreases to - from,
{
    if from < to {
        lemma_years_grow(from, to - 1);
    }
}

/// Later months begin later.
pub proof fn lemma_months_grow(year: int, from: int, to: int)
    requires
        1 <= from <= to,
    ensures
        spec_days_before_month(year, from) <= spec_days_before_month(year, to),
    decreases to - from,
{
    if from < to {
        lemma_months_grow(year, from, to - 1);
    }
}

/// A date written `YYYY-MM-DD`, the year with at least four digits.
pub open spec fn spec_date_text(year: int, month: int, day: int) -> Seq<char> {
    spec_padded(year as nat, 4) + seq!['-'] + spec_padded(month as nat, 2) + seq!['-']
        + spec_padded(day as nat, 2)
}

/// The time of day at `secs` seconds since the epoch, written `HH:MM:SS`.
pub open spec fn spec_time_text(secs: u64) -> Seq<char> {
    spec_padded(((secs % 86400) / 3600) as nat, 2) + seq![':'] + spec_padded(
        ((secs % 3600) / 60) as nat,
        2,
    ) + seq![':'] + spec_padded((secs % 60) as nat, 2)
}

/// Whether `text` is the timestamp for `secs` seconds since the epoch: the
/// date that lies `secs / 86400` days after 1 January 1970, a `T`, the time
/// of day, and a `Z`.
pub open spec fn spec_is_timestamp(text: Seq<char>, secs: u64) -> bool {
    exists|year: int, month: int, day: int|
        {
            &&& spec_is_date(year, month, day)
            &&& spec_day_number(year, month, day) == secs / 86400
            &&& text == #[trigger] spec_date_text(year, month, day) + seq!['T'] + spec_time_text(
                secs,
            ) + seq!['Z']
        }
}

/// Appends a date to `out`.
fn push_date(out: &mut String, year: u64, month: u64, day: u64)
    ensures
        final(out)@ == old(out)@ + spec_date_text(year as int, month as int, day as int),
{
    push_padded(out, year, 4);
    out.push('-');
    push_padded(out, month, 2);
    out.push('-');
    push_padded(out, day, 2);
}

/// Appends the time of day at `secs` seconds since the epoch to `out`.
fn push_time(out: &mut String, secs: u64)
    ensures
        final(out)@ == old(out)@ + spec_time_text(secs),
{
    let remaining = secs % 86400;
    assert(remaining % 3600 == secs % 3600 && remaining % 60 == secs % 60) by {
        assert((3600 * (24 * (secs / 86400)) + remaining) % 3600 == remaining % 3600) by {
            vstd::arithmetic::div_mod::lemma_mod_multiples_vanish(
                24 * (secs / 86400) as int,
                remaining as int,
                3600,
            );
        }
        assert((60 * (1440 * (secs / 86400)) + remaining) % 60 == remaining % 60) by {
            vstd::arithmetic::div_mod::lemma_mod_multiples_vanish(
                1440 * (secs / 86400) as int,
                remaining as int,
                60,
            );
        }
    }
    push_padded(out, remaining / 3600, 2);
    out.push(':');
    push_padded(out, (remaining % 3600) / 60, 2);
    out.push(':');
    push_padded(out, remaining % 60, 2);
}

/// Writes `secs` seconds since the epoch as a timestamp.
pub fn format_timestamp(secs: u64) -> (r: String)
    ensures
        spec_is_timestamp(r@, secs),
{
    let (year, month, day) = days_to_ymd(secs / 86400);
    let mut out = String::new();
    push_date(&mut out, year, month, day);
    out.push('T');
    push_time(&mut out, secs);
    out.push('Z');
    assert(out@ =~= spec_date_text(year as int, month as int, day as int) + seq!['T']
        + spec_time_text(secs) + seq!['Z']);
    out
}

/// The current time as a timestamp.
pub fn now_timestamp() -> (r: String)
    ensures
        exists|secs: u64| spec_is_timestamp(r@, secs),
{
    let secs = unix_now();
    let out = format_timestamp(secs);
    out
}

} // verus!
