//! Calendar dates as they occur in the source documents.
//!
//! The documents carry dates with four-digit years, so a date is a plain
//! year/month/day triple, valid exactly when it names a day of the proleptic
//! Gregorian calendar.

use vstd::prelude::*;
use vstd::string::StringExecFns;

verus! {

/// A Gregorian calendar date with a four-digit year.
#[derive(Debug, Clone, Copy, PartialEq, Eq, Structural)]
pub struct Date {
    pub year: u16,
    pub month: u8,
    pub day: u8,
}

/// Whether `y` is a leap year of the Gregorian calendar.
pub open spec fn is_leap_year(y: int) -> bool {
    (y % 4 == 0 && y % 100 != 0) || y % 400 == 0
}

/// Number of days of month `m` in year `y` (1 = January).
pub open spec fn days_in_month(y: int, m: int) -> int {
    if m == 2 {
        if is_leap_year(y) {
            29
        } else {
            28
        }
    } else if m == 4 || m == 6 || m == 9 || m == 11 {
        30
    } else {
        31
    }
}

/// Whether year `y`, month `m` and day `d` name a calendar day that the
/// source documents can carry (four-digit year).
pub open spec fn is_valid_ymd(y: int, m: int, d: int) -> bool {
    &&& 0 <= y <= 9999
    &&& 1 <= m <= 12
    &&& 1 <= d <= days_in_month(y, m)
}

impl Date {
    /// A date built by the extractors always satisfies this.
    pub open spec fn well_formed(self) -> bool {
        is_valid_ymd(self.year as int, self.month as int, self.day as int)
    }

    /// Build a date from its parts, `None` when they name no calendar day.
    pub fn from_ymd_opt(year: u16, month: u8, day: u8) -> (r: Option<Date>)
        ensures
            is_valid_ymd(year as int, month as int, day as int) <==> (r == Some(
                Date { year, month, day },
            )),
            !is_valid_ymd(year as int, month as int, day as int) <==> (r == None::<Date>),
            r matches Some(d) ==> d.well_formed(),
    {
        if year > 9999 || month < 1 || month > 12 {
            return None;
        }
        let leap: bool = (year % 4 == 0 && year % 100 != 0) || year % 400 == 0;
        let limit: u8 = if month == 2 {
            if leap {
                29
            } else {
                28
            }
        } else if month == 4 || month == 6 || month == 9 || month == 11 {
            30
        } else {
            31
        };
        if day < 1 || day > limit {
            return None;
        }
        Some(Date { year, month, day })
    }
}

/// The decimal digit character for a value `v` in `0..10`.
pub open spec fn digit_char(v: int) -> char {
    ((48 + v) as u8) as char
}

/// The eight characters `YYYYMMDD` of a date, zero padded.
pub open spec fn ymd_chars(d: Date) -> Seq<char> {
    seq![
        digit_char(d.year as int / 1000),
        digit_char((d.year as int / 100) % 10),
        digit_char((d.year as int / 10) % 10),
        digit_char(d.year as int % 10),
        digit_char(d.month as int / 10),
        digit_char(d.month as int % 10),
        digit_char(d.day as int / 10),
        digit_char(d.day as int % 10),
    ]
}

/// The decimal digit character for a value below ten.
fn digit_str(v: u8) -> (r: &'static str)
    requires
        v < 10,
    ensures
        r@ =~= seq![digit_char(v as int)],
{
    proof {
        reveal_strlit("0");
        reveal_strlit("1");
        reveal_strlit("2");
        reveal_strlit("3");
        reveal_strlit("4");
        reveal_strlit("5");
        reveal_strlit("6");
        reveal_strlit("7");
        reveal_strlit("8");
        reveal_strlit("9");
    }
    match v {
        0 => "0",
        1 => "1",
        2 => "2",
        3 => "3",
        4 => "4",
        5 => "5",
        6 => "6",
        7 => "7",
        8 => "8",
        _ => "9",
    }
}

/// Render a date as `YYYYMMDD`, zero padded.
pub fn format_ymd(d: &Date) -> (r: String)
    requires
        d.well_formed(),
    ensures
        r@ == ymd_chars(*d),
{
    let mut s = String::new();
    s.append(digit_str((d.year / 1000) as u8));
    s.append(digit_str(((d.year / 100) % 10) as u8));
    s.append(digit_str(((d.year / 10) % 10) as u8));
    s.append(digit_str((d.year % 10) as u8));
    s.append(digit_str(d.month / 10));
    s.append(digit_str(d.month % 10));
    s.append(digit_str(d.day / 10));
    s.append(digit_str(d.day % 10));
    proof {
        assert(s@ =~= ymd_chars(*d));
    }
    s
}

} // verus!
