//! Calendar dates as the store writes them: `YYYY-MM-DD` strings.
//!
//! Date-carrying requests hand the library such a string; this module
//! checks it — four-digit year, two-digit month and day, and a day that
//! exists in that month, leap years included — and renders a checked date
//! back into the stored form.

use crate::text::spec_digit;
use vstd::prelude::*;
use vstd::string::*;

verus! {

/// A checked calendar date.
#[derive(Clone, Copy, Debug, PartialEq, Eq, Structural)]
pub struct DateYmd {
    pub year: u32,
    pub month: u32,
    pub day: u32,
}

/// The Gregorian leap-year rule.
pub open spec fn is_leap_year(y: int) -> bool {
    (y % 4 == 0 && y % 100 != 0) || y % 400 == 0
}

/// How many days the given month of the given year has.
pub open spec fn days_in_month(y: int, m: int) -> int {
    if m == 2 {
        if is_leap_year(y) {
            29
        } else {
            28
        }
    } else if m == 4 || m == 6 || m == 9 || m == 11 {
        30
    } else {
        31
    }
}

/// Whether year, month and day name an existing calendar date that the
/// four-digit stored form can carry.
pub open spec fn valid_date(y: int, m: int, d: int) -> bool {
    0 <= y <= 9999 && 1 <= m <= 12 && 1 <= d <= days_in_month(y, m)
}

/// Whether `c` is a decimal digit.
pub open spec fn is_digit(c: char) -> bool {
    48 <= c as int && c as int <= 57
}

/// The value of a digit character.
pub open spec fn digit_val(c: char) -> int {
    c as int - 48
}

/// Whether `s` has the shape `YYYY-MM-DD`: ten characters, digits in the
/// digit places, dashes in between.
pub open spec fn date_shaped(s: Seq<char>) -> bool {
    s.len() == 10 && is_digit(s[0]) && is_digit(s[1]) && is_digit(s[2]) && is_digit(s[3]) && s[4]
        == '-' && is_digit(s[5]) && is_digit(s[6]) && s[7] == '-' && is_digit(s[8]) && is_digit(
        s[9],
    )
}

/// The year a shaped date string spells.
pub open spec fn year_of(s: Seq<char>) -> int {
    digit_val(s[0]) * 1000 + digit_val(s[1]) * 100 + digit_val(s[2]) * 10 + digit_val(s[3])
}

/// The month a shaped date string spells.
pub open spec fn month_of(s: Seq<char>) -> int {
    digit_val(s[5]) * 10 + digit_val(s[6])
}

/// The day a shaped date string spells.
pub open spec fn day_of(s: Seq<char>) -> int {
    digit_val(s[8]) * 10 + digit_val(s[9])
}

/// What parsing a date string yields: the checked date for a shaped string
/// naming an existing day, nothing otherwise.
pub open spec fn spec_parse_date(s: Seq<char>) -> Option<DateYmd> {
    if date_shaped(s) && valid_date(year_of(s), month_of(s), day_of(s)) {
        Some(
            DateYmd {
                year: year_of(s) as u32,
                month: month_of(s) as u32,
                day: day_of(s) as u32,
            },
        )
    } else {
        None
    }
}

/// The stored `YYYY-MM-DD` form of a checked date.
pub open spec fn spec_date_text(d: DateYmd) -> Seq<char> {
    seq![
        spec_digit(d.year as int / 1000),
        spec_digit((d.year as int / 100) % 10),
        spec_digit((d.year as int / 10) % 10),
        spec_digit(d.year as int % 10),
        '-',
        spec_digit(d.month as int / 10),
        spec_digit(d.month as int % 10),
        '-',
        spec_digit(d.day as int / 10),
        spec_digit(d.day as int % 10),
    ]
}

/// The value of a digit character, or nothing for any other character.
fn digit_of(c: char) -> (r: Option<u32>)
    ensures
        match r {
            Some(v) => is_digit(c) && v == digit_val(c),
            None => !is_digit(c),
        },
{
    let v = c as u32;
    if 48 <= v && v <= 57 {
        Some(v - 48)
    } else {
        None
    }
}

/// How many days the given month has, leap years included.
pub fn month_length(y: u32, m: u32) -> (r: u32)
    requires
        1 <= m <= 12,
    ensures
        r == days_in_month(y as int, m as int),
{
    if m == 2 {
        if (y % 4 == 0 && y % 100 != 0) || y % 400 == 0 {
            29
        } else {
            28
        }
    } else if m == 4 || m == 6 || m == 9 || m == 11 {
        30
    } else {
        31
    }
}

/// Checks a `YYYY-MM-DD` string and returns the date it names; any other
/// shape, and any day that does not exist in its month, is rejected.
pub fn parse_date(s: &str) -> (r: Option<DateYmd>)
    ensures
        r == spec_parse_date(s@),
{
    if s.unicode_len() != 10 {
        return None;
    }
    let c4 = s.get_char(4);
    let c7 = s.get_char(7);
    if c4 != '-' || c7 != '-' {
        return None;
    }
    let d0 = match digit_of(s.get_char(0)) {
        Some(v) => v,
        None => {
            return None;
        },
    };
    let d1 = match digit_of(s.get_char(1)) {
        Some(v) => v,
        None => {
            return None;
        },
    };
    let d2 = match digit_of(s.get_char(2)) {
        Some(v) => v,
        None => {
            return None;
        },
    };
    let d3 = match digit_of(s.get_char(3)) {
        Some(v) => v,
        None => {
            return None;
        },
    };
    let d5 = match digit_of(s.get_char(5)) {
        Some(v) => v,
        None => {
            return None;
        },
    };
    let d6 = match digit_of(s.get_char(6)) {
        Some(v) => v,
        None => {
            return None;
        },
    };
    let d8 = match digit_of(s.get_char(8)) {
        Some(v) => v,
        None => {
            return None;
        },
    };
    let d9 = match digit_of(s.get_char(9)) {
        Some(v) => v,
        None => {
            return None;
        },
    };
    let year = d0 * 1000 + d1 * 100 + d2 * 10 + d3;
    let month = d5 * 10 + d6;
    let day = d8 * 10 + d9;
    if 1 <= month && month <= 12 && 1 <= day && day <= month_length(year, month) {
        Some(DateYmd { year, month, day })
    } else {
        None
    }
}

/// Renders a checked date back into its stored `YYYY-MM-DD` form.
pub fn format_date(d: DateYmd) -> (r: String)
    requires
        valid_date(d.year as int, d.month as int, d.day as int),
    ensures
        r@ == spec_date_text(d),
{
    let mut out = String::new();
    out.append(crate::text::digit_str((d.year / 1000) as u64));
    out.append(crate::text::digit_str(((d.year / 100) % 10) as u64));
    out.append(crate::text::digit_str(((d.year / 10) % 10) as u64));
    out.append(crate::text::digit_str((d.year % 10) as u64));
    out.append("-");
    out.append(crate::text::digit_str((d.month / 10) as u64));
    out.append(crate::text::digit_str((d.month % 10) as u64));
    out.append("-");
    out.append(crate::text::digit_str((d.day / 10) as u64));
    out.append(crate::text::digit_str((d.day % 10) as u64));
    proof {
        reveal_strlit("-");
        assert(out@ =~= spec_date_text(d));
    }
    out
}

/// Formatting a checked date and parsing the result gives the date back.
pub proof fn lemma_date_round_trip(d: DateYmd)
    requires
        valid_date(d.year as int, d.month as int, d.day as int),
    ensures
        spec_parse_date(spec_date_text(d)) == Some(d),
{
    let s = spec_date_text(d);
    let y = d.year as int;
    let m = d.month as int;
    let dd = d.day as int;
    lemma_digit_char_value(y / 1000);
    lemma_digit_char_value((y / 100) % 10);
    lemma_digit_char_value((y / 10) % 10);
    lemma_digit_char_value(y % 10);
    lemma_digit_char_value(m / 10);
    lemma_digit_char_value(m % 10);
    lemma_digit_char_value(dd / 10);
    lemma_digit_char_value(dd % 10);
    assert(('-') as int == 45);
    assert(!is_digit('-'));
    assert(year_of(s) == (y / 1000) * 1000 + ((y / 100) % 10) * 100 + ((y / 10) % 10) * 10 + y
        % 10);
    assert((y / 1000) * 1000 + ((y / 100) % 10) * 100 + ((y / 10) % 10) * 10 + y % 10 == y) by {
        lemma_four_digit_decomposition(y);
    }
    assert(month_of(s) == (m / 10) * 10 + m % 10);
    assert(day_of(s) == (dd / 10) * 10 + dd % 10);
}

proof fn lemma_digit_char_value(v: int)
    requires
        0 <= v <= 9,
    ensures
        is_digit(spec_digit(v)),
        digit_val(spec_digit(v)) == v,
{
    assert(('0') as int == 48);
    assert(('1') as int == 49);
    assert(('2') as int == 50);
    assert(('3') as int == 51);
    assert(('4') as int == 52);
    assert(('5') as int == 53);
    assert(('6') as int == 54);
    assert(('7') as int == 55);
    assert(('8') as int == 56);
    assert(('9') as int == 57);
}

proof fn lemma_four_digit_decomposition(y: int)
    requires
        0 <= y <= 9999,
    ensures
        (y / 1000) * 1000 + ((y / 100) % 10) * 100 + ((y / 10) % 10) * 10 + y % 10 == y,
{
    assert((y / 1000) * 1000 + ((y / 100) % 10) * 100 + ((y / 10) % 10) * 10 + y % 10 == y) by (
    nonlinear_arith)
        requires
            0 <= y <= 9999,
    ;
}

} // verus!
