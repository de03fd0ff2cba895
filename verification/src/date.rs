//! Calendar dates for the weekly report window.
//!
//! A date is held as plain year/month/day fields so that the window
//! arithmetic (seven days back from today) and the wire formatting
//! (`YYYY-MM-DD`) are verified; only reading the clock is trusted.

use vstd::prelude::*;
use chrono::Datelike;

verus! {

/// A proleptic Gregorian calendar date.
#[derive(Clone, Copy, Debug, PartialEq, Eq, Structural)]
pub struct Date {
    pub year: i64,
    pub month: u8,
    pub day: u8,
}

pub open spec fn spec_is_leap_year(y: int) -> bool {
    (y % 4 == 0 && y % 100 != 0) || y % 400 == 0
}

pub open spec fn spec_days_in_month(y: int, m: int) -> int {
    if m == 2 {
        if spec_is_leap_year(y) {
            29
        } else {
            28
        }
    } else if m == 4 || m == 6 || m == 9 || m == 11 {
        30
    } else {
        31
    }
}

/// Well-formedness of a `Date`: a real day of the calendar, year 1 or later.
pub open spec fn valid_date(d: Date) -> bool {
    &&& 1 <= d.year
    &&& 1 <= d.month <= 12
    &&& 1 <= d.day <= spec_days_in_month(d.year as int, d.month as int)
}

/// The calendar day immediately before `d`.
pub open spec fn spec_prev_day(d: Date) -> Date {
    if d.day > 1 {
        Date { year: d.year, month: d.month, day: (d.day - 1) as u8 }
    } else if d.month > 1 {
        Date {
            year: d.year,
            month: (d.month - 1) as u8,
            day: spec_days_in_month(d.year as int, d.month as int - 1) as u8,
        }
    } else {
        Date { year: (d.year - 1) as i64, month: 12, day: 31 }
    }
}

/// `d` taken back by `n` calendar days.
pub open spec fn spec_minus_days(d: Date, n: nat) -> Date
    decreases n,
{
    if n == 0 {
        d
    } else {
        spec_prev_day(spec_minus_days(d, (n - 1) as nat))
    }
}

fn is_leap_year(y: i64) -> (r: bool)
    ensures
        r == spec_is_leap_year(y as int),
{
    (y % 4 == 0 && y % 100 != 0) || y % 400 == 0
}

pub fn days_in_month(y: i64, m: u8) -> (r: u8)
    ensures
        r as int == spec_days_in_month(y as int, m as int),
{
    if m == 2 {
        if is_leap_year(y) {
            29
        } else {
            28
        }
    } else if m == 4 || m == 6 || m == 9 || m == 11 {
        30
    } else {
        31
    }
}

fn prev_day(d: Date) -> (r: Date)
    requires
        valid_date(d),
        d.year >= 2 || d.month >= 2 || d.day >= 2,
    ensures
        r == spec_prev_day(d),
        valid_date(r),
        d.year - 1 <= r.year <= d.year,
        r.year < d.year ==> r.month == 12 && r.day == 31,
{
    if d.day > 1 {
        Date { year: d.year, month: d.month, day: d.day - 1 }
    } else if d.month > 1 {
        Date { year: d.year, month: d.month - 1, day: days_in_month(d.year, d.month - 1) }
    } else {
        Date { year: d.year - 1, month: 12, day: 31 }
    }
}

/// The date seven calendar days before `d`: the start of the trailing
/// one-week window that the weekly report covers.
pub fn week_ago(d: Date) -> (r: Date)
    requires
        valid_date(d),
        d.year >= 2,
    ensures
        r == spec_minus_days(d, 7),
        valid_date(r),
        d.year - 1 <= r.year <= d.year,
{
    let d1 = prev_day(d);
    let d2 = prev_day(d1);
    let d3 = prev_day(d2);
    let d4 = prev_day(d3);
    let d5 = prev_day(d4);
    let d6 = prev_day(d5);
    let d7 = prev_day(d6);
    proof {
        reveal_with_fuel(spec_minus_days, 8);
    }
    d7
}

pub open spec fn spec_digit(n: int) -> char {
    if n == 0 {
        '0'
    } else if n == 1 {
        '1'
    } else if n == 2 {
        '2'
    } else if n == 3 {
        '3'
    } else if n == 4 {
        '4'
    } else if n == 5 {
        '5'
    } else if n == 6 {
        '6'
    } else if n == 7 {
        '7'
    } else if n == 8 {
        '8'
    } else {
        '9'
    }
}

pub fn digit_char(n: u8) -> (r: char)
    requires
        n <= 9,
    ensures
        r == spec_digit(n as int),
{
    if n == 0 {
        '0'
    } else if n == 1 {
        '1'
    } else if n == 2 {
        '2'
    } else if n == 3 {
        '3'
    } else if n == 4 {
        '4'
    } else if n == 5 {
        '5'
    } else if n == 6 {
        '6'
    } else if n == 7 {
        '7'
    } else if n == 8 {
        '8'
    } else {
        '9'
    }
}

/// `YYYY-MM-DD`, the form the page store expects in date filters and
/// date properties.
pub open spec fn spec_format_date(d: Date) -> Seq<char> {
    seq![
        spec_digit(d.year as int / 1000),
        spec_digit((d.year as int / 100) % 10),
        spec_digit((d.year as int / 10) % 10),
        spec_digit(d.year as int % 10),
        '-',
        spec_digit(d.month as int / 10),
        spec_digit(d.month as int % 10),
        '-',
        spec_digit(d.day as int / 10),
        spec_digit(d.day as int % 10),
    ]
}

pub fn format_date(d: Date) -> (r: String)
    requires
        valid_date(d),
        d.year <= 9999,
    ensures
        r@ == spec_format_date(d),
{
    let mut out = String::new();
    out.push(digit_char((d.year / 1000) as u8));
    out.push(digit_char(((d.year / 100) % 10) as u8));
    out.push(digit_char(((d.year / 10) % 10) as u8));
    out.push(digit_char((d.year % 10) as u8));
    out.push('-');
    out.push(digit_char(d.month / 10));
    out.push(digit_char(d.month % 10));
    out.push('-');
    out.push(digit_char(d.day / 10));
    out.push(digit_char(d.day % 10));
    assert(out@ =~= spec_format_date(d));
    out
}

/// Relies on chrono: `Local::now().date_naive()` and the `Datelike`
/// accessors `year`, `month` and `day`. chrono documents that a
/// `NaiveDate` is always a valid proleptic Gregorian date and that its
/// year magnitude stays below about 262144.
#[verifier::external_body]
fn fetch_local_date() -> (r: (i64, u8, u8))
    ensures
        1 <= r.1 <= 12,
        1 <= r.2 as int <= spec_days_in_month(r.0 as int, r.1 as int),
        -300000 < r.0 < 300000,
{
    let now = chrono::Local::now().date_naive();
    (now.year() as i64, now.month() as u8, now.day() as u8)
}

/// Builds a date from already-valid calendar parts: exactly the given
/// date when its year fits the four-digit wire range, `None` otherwise.
pub fn date_from_parts(y: i64, m: u8, dd: u8) -> (r: Option<Date>)
    requires
        1 <= m <= 12,
        1 <= dd as int <= spec_days_in_month(y as int, m as int),
    ensures
        r is Some <==> 1 <= y <= 9999,
        r matches Some(d) ==> d == (Date { year: y, month: m, day: dd }),
{
    if 1 <= y && y <= 9999 {
        Some(Date { year: y, month: m, day: dd })
    } else {
        None
    }
}

/// Today's local date, when it lies in the four-digit-year range the
/// wire format can carry; `None` outside that range. What the clock
/// fetched is carried through unchanged by `date_from_parts`.
pub fn current_date() -> (r: Option<Date>)
    ensures
        r matches Some(d) ==> valid_date(d) && 1 <= d.year <= 9999,
{
    let ymd = fetch_local_date();
    let y: i64 = ymd.0;
    let m: u8 = ymd.1;
    let dd: u8 = ymd.2;
    date_from_parts(y, m, dd)
}

} // verus!
