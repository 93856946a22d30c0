//! Calendar dates and day arithmetic.
//!
//! Dates are plain calendar dates (no time zone, no time of day), ordered
//! lexicographically by year, month, day. Day addition steps one calendar day
//! at a time, carrying across month and year boundaries with the Gregorian
//! leap-year rule.

use vstd::prelude::*;
use vstd::utf8::encode_utf8;

verus! {

/// A calendar date: year, month (1..=12), day (1..=days in that month).
#[derive(Clone, Copy, PartialEq, Eq, Structural, Debug)]
pub struct Date {
    pub year: u32,
    pub month: u32,
    pub day: u32,
}

/// The Gregorian leap-year rule.
pub open spec fn spec_is_leap_year(y: int) -> bool {
    (y % 4 == 0 && y % 100 != 0) || y % 400 == 0
}

/// Number of days in a month of a given year.
pub open spec fn spec_days_in_month(y: int, m: int) -> int {
    if m == 2 {
        if spec_is_leap_year(y) {
            29
        } else {
            28
        }
    } else if m == 4 || m == 6 || m == 9 || m == 11 {
        30
    } else {
        31
    }
}

/// A well-formed calendar date.
pub open spec fn date_valid(d: Date) -> bool {
    &&& 1 <= d.year
    &&& 1 <= d.month <= 12
    &&& 1 <= d.day <= spec_days_in_month(d.year as int, d.month as int)
}

/// The day after `d`, carrying across month and year ends.
pub open spec fn spec_next_day(d: Date) -> Date {
    if d.day < spec_days_in_month(d.year as int, d.month as int) {
        Date { year: d.year, month: d.month, day: (d.day + 1) as u32 }
    } else if d.month < 12 {
        Date { year: d.year, month: (d.month + 1) as u32, day: 1 }
    } else {
        Date { year: (d.year + 1) as u32, month: 1, day: 1 }
    }
}

/// `d` advanced by `n` calendar days.
pub open spec fn spec_plus_days(d: Date, n: nat) -> Date
    decreases n,
{
    if n == 0 {
        d
    } else {
        spec_next_day(spec_plus_days(d, (n - 1) as nat))
    }
}

/// Chronological order on valid dates: lexicographic on (year, month, day).
pub open spec fn date_le(a: Date, b: Date) -> bool {
    ||| a.year < b.year
    ||| (a.year == b.year && a.month < b.month)
    ||| (a.year == b.year && a.month == b.month && a.day <= b.day)
}

/// Strict chronological order.
pub open spec fn date_lt(a: Date, b: Date) -> bool {
    date_le(a, b) && a != b
}

impl Date {
    /// Builds a date from its parts.
    pub fn new(year: u32, month: u32, day: u32) -> (r: Date)
        ensures
            r == (Date { year, month, day }),
    {
        Date { year, month, day }
    }

    /// Checks that the date is a real calendar date.
    pub fn is_valid(&self) -> (r: bool)
        ensures
            r == date_valid(*self),
    {
        1 <= self.year && 1 <= self.month && self.month <= 12 && 1 <= self.day
            && self.day <= days_in_month(self.year, self.month)
    }

    /// Chronological comparison, `self <= other`.
    pub fn le(&self, other: &Date) -> (r: bool)
        ensures
            r == date_le(*self, *other),
    {
        self.year < other.year || (self.year == other.year && self.month < other.month) || (
        self.year == other.year && self.month == other.month && self.day <= other.day)
    }

    /// Strict chronological comparison, `self < other`.
    pub fn lt(&self, other: &Date) -> (r: bool)
        ensures
            r == date_lt(*self, *other),
    {
        self.year < other.year || (self.year == other.year && self.month < other.month) || (
        self.year == other.year && self.month == other.month && self.day < other.day)
    }
}

/// Gregorian leap-year test.
pub fn is_leap_year(y: u32) -> (r: bool)
    ensures
        r == spec_is_leap_year(y as int),
{
    (y % 4 == 0 && y % 100 != 0) || y % 400 == 0
}

/// Days in a month of a given year.
pub fn days_in_month(y: u32, m: u32) -> (r: u32)
    ensures
        r == spec_days_in_month(y as int, m as int),
{
    if m == 2 {
        if is_leap_year(y) {
            29
        } else {
            28
        }
    } else if m == 4 || m == 6 || m == 9 || m == 11 {
        30
    } else {
        31
    }
}

/// The day after `d`. The year bound keeps the year-end carry in range.
pub fn next_day(d: Date) -> (r: Date)
    requires
        date_valid(d),
        d.year < u32::MAX,
    ensures
        r == spec_next_day(d),
        date_valid(r),
        d.year <= r.year <= d.year + 1,
{
    let dim = days_in_month(d.year, d.month);
    if d.day < dim {
        Date { year: d.year, month: d.month, day: d.day + 1 }
    } else if d.month < 12 {
        Date { year: d.year, month: d.month + 1, day: 1 }
    } else {
        Date { year: d.year + 1, month: 1, day: 1 }
    }
}

/// An ASCII decimal digit.
pub open spec fn is_digit(b: u8) -> bool {
    48 <= b <= 57
}

/// The value of an ASCII decimal digit.
pub open spec fn digit_val(b: u8) -> int {
    b - 48
}

/// Date text in the four-digit-year form `YYYY-MM-DD`.
pub open spec fn date_text_wf(s: Seq<u8>) -> bool {
    &&& s.len() == 10
    &&& is_digit(s[0])
    &&& is_digit(s[1])
    &&& is_digit(s[2])
    &&& is_digit(s[3])
    &&& s[4] == 45
    &&& is_digit(s[5])
    &&& is_digit(s[6])
    &&& s[7] == 45
    &&& is_digit(s[8])
    &&& is_digit(s[9])
}

/// The date that well-formed date text denotes.
pub open spec fn spec_date_of_text(s: Seq<u8>) -> Date {
    Date {
        year: (digit_val(s[0]) * 1000 + digit_val(s[1]) * 100 + digit_val(s[2]) * 10 + digit_val(
            s[3],
        )) as u32,
        month: (digit_val(s[5]) * 10 + digit_val(s[6])) as u32,
        day: (digit_val(s[8]) * 10 + digit_val(s[9])) as u32,
    }
}

/// Reads a calendar date from `YYYY-MM-DD` text. Returns the date exactly
/// when the text has that shape and denotes a real calendar date; refuses
/// everything else.
pub fn parse_date(s: &str) -> (r: Option<Date>)
    ensures
        r is Some <==> date_text_wf(encode_utf8(s@)) && date_valid(
            spec_date_of_text(encode_utf8(s@)),
        ),
        r is Some ==> r == Some(spec_date_of_text(encode_utf8(s@))),
{
    let b = s.as_bytes();
    if b.len() != 10 {
        return None;
    }
    let mut i: usize = 0;
    while i < 10
        invariant
            b@ == encode_utf8(s@),
            b@.len() == 10,
            i <= 10,
            forall|t: int|
                0 <= t < i ==> if t == 4 || t == 7 {
                    b@[t] == 45
                } else {
                    is_digit(#[trigger] b@[t])
                },
        decreases 10 - i,
    {
        if i == 4 || i == 7 {
            if b[i] != 45 {
                return None;
            }
        } else {
            if b[i] < 48 || b[i] > 57 {
                return None;
            }
        }
        i += 1;
    }
    let year = (b[0] - 48) as u32 * 1000 + (b[1] - 48) as u32 * 100 + (b[2] - 48) as u32 * 10 + (
    b[3] - 48) as u32;
    let month = (b[5] - 48) as u32 * 10 + (b[6] - 48) as u32;
    let day = (b[8] - 48) as u32 * 10 + (b[9] - 48) as u32;
    let d = Date { year, month, day };
    if d.is_valid() {
        Some(d)
    } else {
        None
    }
}

/// `d` advanced by `n` calendar days. The year bound is loose (a year gains
/// at most one per day added) but keeps every intermediate date in range.
pub fn plus_days(d: Date, n: u32) -> (r: Date)
    requires
        date_valid(d),
        d.year + n < u32::MAX,
    ensures
        r == spec_plus_days(d, n as nat),
        date_valid(r),
        d.year <= r.year <= d.year + n,
{
    let mut cur = d;
    for i in 0..n
        invariant
            date_valid(cur),
            cur == spec_plus_days(d, i as nat),
            d.year <= cur.year <= d.year + i,
            d.year + n < u32::MAX,
            date_valid(d),
    {
        cur = next_day(cur);
    }
    cur
}

} // verus!
