//! Wall-clock time and the names of capture files.
use chrono::{Datelike, Local, NaiveDate, Timelike};
use vstd::prelude::*;

use crate::text::decimal;

verus! {

/// A date and time of day in the proleptic Gregorian calendar, to the second.
#[derive(Clone, Copy, Debug, PartialEq, Eq, Structural)]
pub struct CivilTime {
    pub year: i32,
    pub month: u32,
    pub day: u32,
    pub hour: u32,
    pub minute: u32,
    pub second: u32,
}

/// The year has a 29th of February.
pub open spec fn is_leap(year: int) -> bool {
    year % 4 == 0 && (year % 100 != 0 || year % 400 == 0)
}

/// The number of days of a month.
pub open spec fn days_in_month(year: int, month: int) -> int {
    if month == 2 {
        if is_leap(year) {
            29
        } else {
            28
        }
    } else if month == 4 || month == 6 || month == 9 || month == 11 {
        30
    } else {
        31
    }
}

impl CivilTime {
    /// The date exists, the time of day exists, and the year is one that chrono represents.
    pub open spec fn valid(self) -> bool {
        &&& -262143 <= self.year <= 262142
        &&& 1 <= self.month <= 12
        &&& 1 <= self.day <= days_in_month(self.year as int, self.month as int)
        &&& self.hour < 24
        &&& self.minute < 60
        &&& self.second < 60
    }
}

/// The decimal numeral of `n`, filled up with zeros on the left to `width` digits.
pub open spec fn padded(n: nat, width: nat) -> Seq<char> {
    let numeral = decimal(n);
    if numeral.len() < width {
        Seq::new((width - numeral.len()) as nat, |i: int| '0') + numeral
    } else {
        numeral
    }
}

/// A year: four digits or more, with a sign before it unless it lies in 0 to 9999.
pub open spec fn year_text(year: int) -> Seq<char> {
    if year < 0 {
        seq!['-'] + padded((-year) as nat, 4)
    } else if year > 9999 {
        seq!['+'] + padded(year as nat, 4)
    } else {
        padded(year as nat, 4)
    }
}

/// The time stamp in file names: year, month and day, an underscore, hour, minute and second.
pub open spec fn stamp_text(time: CivilTime) -> Seq<char> {
    year_text(time.year as int) + padded(time.month as nat, 2) + padded(time.day as nat, 2)
        + seq!['_'] + padded(time.hour as nat, 2) + padded(time.minute as nat, 2)
        + padded(time.second as nat, 2)
}

/// `chrono::Local::now`, read through `naive_local`.
///
/// Claimed: the fields are a date and a time of day that exist, in the range of years that
/// chrono represents. Which moment it is depends on the machine's clock and time zone, and
/// nothing is said of that. Chrono panics where the clock stands before 1970 or beyond the
/// years it represents, and where the machine's time zone gives no offset from UTC that it
/// accepts.
#[verifier::external_body]
pub(crate) fn local_now() -> (time: CivilTime)
    ensures
        time.valid(),
{
    let now = Local::now().naive_local();
    CivilTime {
        year: now.year(),
        month: now.month(),
        day: now.day(),
        hour: now.hour(),
        minute: now.minute(),
        second: now.second(),
    }
}

/// `chrono::NaiveDateTime::format`, on the date and time that the fields name.
///
/// Claimed, of this one pattern: `%Y` gives the year with four digits or more, signed
/// outside 0 to 9999; `%m`, `%d`, `%H`, `%M` and `%S` give two digits each; the underscore
/// stands as it is. The pattern is an argument so that the caller's is the one used.
#[verifier::external_body]
fn format_time(time: &CivilTime, pattern: &str) -> (stamp: String)
    requires
        time.valid(),
        pattern@ == "%Y%m%d_%H%M%S"@,
    ensures
        stamp@ == stamp_text(*time),
{
    NaiveDate::from_ymd_opt(time.year, time.month, time.day)
        .unwrap()
        .and_hms_opt(time.hour, time.minute, time.second)
        .unwrap()
        .format(pattern)
        .to_string()
}

/// The file name of a screenshot taken at `time`.
pub open spec fn screenshot_name_text(time: CivilTime) -> Seq<char> {
    "screenshot_"@ + stamp_text(time) + ".png"@
}

/// The file name of a clip exported at `time`.
pub open spec fn clip_name_text(time: CivilTime) -> Seq<char> {
    "clip_"@ + stamp_text(time) + ".mp4"@
}

/// The path of a screenshot taken at `time`.
pub open spec fn screenshot_path_text(time: CivilTime) -> Seq<char> {
    "captures/screenshot_"@ + stamp_text(time) + ".png"@
}

/// The path of a clip exported at `time`.
pub open spec fn clip_path_text(time: CivilTime) -> Seq<char> {
    "captures/clip_"@ + stamp_text(time) + ".mp4"@
}

/// Returns the path of a screenshot taken at `time`.
pub fn screenshot_path_at(time: &CivilTime) -> (path: String)
    requires
        time.valid(),
    ensures
        path@ == screenshot_path_text(*time),
{
    let stamp = format_time(time, "%Y%m%d_%H%M%S");
    "captures/screenshot_".to_owned().concat(stamp.as_str()).concat(".png")
}

/// Returns the path of a clip exported at `time`.
pub fn clip_path_at(time: &CivilTime) -> (path: String)
    requires
        time.valid(),
    ensures
        path@ == clip_path_text(*time),
{
    let stamp = format_time(time, "%Y%m%d_%H%M%S");
    "captures/clip_".to_owned().concat(stamp.as_str()).concat(".mp4")
}

/// Returns the path of a screenshot taken now, by the local clock.
pub fn screenshot_path() -> (path: String)
    ensures
        exists|time: CivilTime| time.valid() && path@ == #[trigger] screenshot_path_text(time),
{
    let now = local_now();
    screenshot_path_at(&now)
}

} // verus!
