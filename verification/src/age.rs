//! How old a recently opened file is said to be: the age label shown on a
//! recent-files row, chosen from the time difference in microseconds.

use vstd::prelude::*;

verus! {

pub const MICROS_PER_MINUTE: i64 = 60_000_000;

pub const MICROS_PER_DAY: i64 = 86_400_000_000;

/// The wording of a row's age. Labels that need the date itself (a weekday
/// or month name) only say which date format to use.
#[derive(Debug, Clone, Copy, PartialEq, Eq, Structural)]
pub enum AgeLabel {
    /// The file comes from the future; nothing is shown.
    Hidden,
    /// Less than 45 minutes ago.
    JustNow,
    /// Less than 90 minutes ago.
    AnHourAgo,
    /// Less than 2 days ago.
    Yesterday,
    /// Less than 7 days ago: the weekday's name.
    Weekday,
    /// Less than a year ago: month and day.
    MonthDay,
    /// Less than a year and a half ago.
    AboutAYear,
    /// This many years ago.
    Years(u32),
}

/// The label for a file added `d` microseconds ago.
pub open spec fn spec_age_label(d: int) -> AgeLabel {
    if d < 0 {
        AgeLabel::Hidden
    } else if d < 45 * MICROS_PER_MINUTE {
        AgeLabel::JustNow
    } else if d < 90 * MICROS_PER_MINUTE {
        AgeLabel::AnHourAgo
    } else if d < 2 * MICROS_PER_DAY {
        AgeLabel::Yesterday
    } else if d < 7 * MICROS_PER_DAY {
        AgeLabel::Weekday
    } else if d < 365 * MICROS_PER_DAY {
        AgeLabel::MonthDay
    } else if d < (365int + 365int / 2) * MICROS_PER_DAY {
        AgeLabel::AboutAYear
    } else {
        AgeLabel::Years(((d / MICROS_PER_DAY as int) / 365) as u32)
    }
}

/// The label for a file added `diff_micros` microseconds ago: fresh files
/// get a relative wording, older ones a date, and files years back a count
/// of years.
pub fn age_label(diff_micros: i64) -> (r: AgeLabel)
    ensures
        r == spec_age_label(diff_micros as int),
{
    if diff_micros < 0 {
        AgeLabel::Hidden
    } else if diff_micros < 45 * MICROS_PER_MINUTE {
        AgeLabel::JustNow
    } else if diff_micros < 90 * MICROS_PER_MINUTE {
        AgeLabel::AnHourAgo
    } else if diff_micros < 2 * MICROS_PER_DAY {
        AgeLabel::Yesterday
    } else if diff_micros < 7 * MICROS_PER_DAY {
        AgeLabel::Weekday
    } else if diff_micros < 365 * MICROS_PER_DAY {
        AgeLabel::MonthDay
    } else if diff_micros < (365 + 365 / 2) * MICROS_PER_DAY {
        AgeLabel::AboutAYear
    } else {
        let days = diff_micros / MICROS_PER_DAY;
        let years = days / 365;
        AgeLabel::Years(years as u32)
    }
}

} // verus!
