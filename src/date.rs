//! Calendar dates of the build, held as year, month and day.

use chrono::Datelike;
use vstd::prelude::*;

verus! {

/// The earliest year a calendar date can carry.
pub const MIN_YEAR: i32 = -262143;

/// The latest year a calendar date can carry.
pub const MAX_YEAR: i32 = 262142;

/// The textual layout of the build date inside the metadata block.
pub const DATE_FORMAT: &'static str = "%m/%d/%Y";

/// Leap years of the proleptic Gregorian calendar.
pub open spec fn is_leap_year(y: int) -> bool {
    y % 4 == 0 && (y % 100 != 0 || y % 400 == 0)
}

/// Number of days of month `m` (1 to 12) in year `y`.
pub open spec fn days_in_month(y: int, m: int) -> int {
    if m == 2 {
        if is_leap_year(y) {
            29
        } else {
            28
        }
    } else if m == 4 || m == 6 || m == 9 || m == 11 {
        30
    } else {
        31
    }
}

/// A proleptic Gregorian calendar date.
#[derive(Clone, Copy, Debug, PartialEq, Eq, Structural)]
pub struct BuildDate {
    pub year: i32,
    pub month: u32,
    pub day: u32,
}

impl BuildDate {
    /// The date names a real day within the supported range of years.
    pub open spec fn wf(&self) -> bool {
        &&& MIN_YEAR <= self.year <= MAX_YEAR
        &&& 1 <= self.month <= 12
        &&& 1 <= self.day <= days_in_month(self.year as int, self.month as int)
    }

    /// 1970-01-01, the date that stands in for one that cannot be read.
    pub fn unix_epoch() -> (r: BuildDate)
        ensures
            r.year == 1970,
            r.month == 1,
            r.day == 1,
            r.wf(),
    {
        BuildDate { year: 1970, month: 1, day: 1 }
    }
}


/// The decimal digit character for `d` (0 to 9).
pub open spec fn digit_char(d: int) -> char {
    ((d + 48) as u8) as char
}

/// The decimal digits of `n`, without leading zeros.
pub open spec fn decimal(n: nat) -> Seq<char>
    decreases n,
{
    if n < 10 {
        seq![digit_char(n as int)]
    } else {
        decimal(n / 10).push(digit_char((n % 10) as int))
    }
}

/// `s` with zeros in front up to `width` characters.
pub open spec fn zero_pad(s: Seq<char>, width: nat) -> Seq<char> {
    if s.len() >= width {
        s
    } else {
        Seq::new((width - s.len()) as nat, |i: int| '0') + s
    }
}

/// The year as four digits from 0 to 9999, else with its sign and at least
/// four digits.
pub open spec fn year_text(y: int) -> Seq<char> {
    if 0 <= y <= 9999 {
        zero_pad(decimal(y as nat), 4)
    } else if y < 0 {
        seq!['-'] + zero_pad(decimal((-y) as nat), 4)
    } else {
        seq!['+'] + zero_pad(decimal(y as nat), 4)
    }
}

/// The ISO 8601 text of a date, `YYYY-MM-DD`.
pub open spec fn date_text(d: BuildDate) -> Seq<char> {
    year_text(d.year as int) + seq!['-'] + zero_pad(decimal(d.month as nat), 2) + seq!['-']
        + zero_pad(decimal(d.day as nat), 2)
}

/// The date that reading `text` with the strftime-style format `fmt` gives,
/// if the text matches it.
pub uninterp spec fn parsed_date(text: Seq<char>, fmt: Seq<char>) -> Option<BuildDate>;

/// Relies on `chrono::NaiveDate::parse_from_str`: the outcome depends on the
/// text and the format alone, and a date it gives is a real calendar day
/// within chrono's range of years.
#[verifier::external_body]
fn parse_date(text: &str, fmt: &str) -> (r: Option<BuildDate>)
    ensures
        r == parsed_date(text@, fmt@),
        r matches Some(d) ==> d.wf(),
{
    match chrono::NaiveDate::parse_from_str(text, fmt) {
        Ok(d) => Some(BuildDate { year: d.year(), month: d.month(), day: d.day() }),
        Err(_) => None,
    }
}

/// Relies on the `Display` impl of `chrono::NaiveDate`: `%Y-%m-%d`, with a
/// sign before a year outside 0 to 9999.
#[verifier::external_body]
fn display_date(d: &BuildDate) -> (r: String)
    requires
        d.wf(),
    ensures
        r@ == date_text(*d),
{
    match chrono::NaiveDate::from_ymd_opt(d.year, d.month, d.day) {
        Some(nd) => nd.to_string(),
        None => String::new(),
    }
}

/// What a parse outcome leaves as the build date: the parsed date, else
/// 1970-01-01.
pub open spec fn date_or_epoch(parsed: Option<BuildDate>) -> BuildDate {
    match parsed {
        Some(d) => d,
        None => BuildDate { year: 1970, month: 1, day: 1 },
    }
}

impl BuildDate {
    /// Returns the parsed date, or 1970-01-01 where parsing failed.
    pub fn date_or_default(parsed: Option<BuildDate>) -> (r: BuildDate)
        ensures
            r == date_or_epoch(parsed),
    {
        match parsed {
            Some(d) => d,
            None => BuildDate::unix_epoch(),
        }
    }

    /// Reads `text` as `MM/DD/YYYY`; text that is no such date gives
    /// 1970-01-01.
    pub fn parse_lenient(text: &str) -> (r: BuildDate)
        ensures
            r == date_or_epoch(parsed_date(text@, DATE_FORMAT@)),
            r.wf(),
    {
        let parsed = parse_date(text, DATE_FORMAT);
        BuildDate::date_or_default(parsed)
    }

    /// The date as `YYYY-MM-DD`.
    pub fn to_iso_string(&self) -> (r: String)
        requires
            self.wf(),
        ensures
            r@ == date_text(*self),
    {
        display_date(self)
    }
}

} // verus!
