//! Calendar dates and the date format of the decoded certificate text.

use vstd::prelude::*;
use vstd::slice::slice_subrange;
use vstd::string::StringSliceAdditionalSpecFns;
use crate::error::ParseError;
use crate::number::{decimal_i32, decimal_u32, parse_i32, parse_u32};
use crate::text::bytes_equal;

verus! {

/// The space byte.
pub const SPACE: u8 = 0x20;

/// Where the month's abbreviation begins in a not-after value.
pub const MONTH_START: usize = 0;

/// Where the month's abbreviation ends in a not-after value.
pub const MONTH_END: usize = 3;

/// Where the day of the month begins in a not-after value.
pub const DAY_START: usize = 4;

/// Where the day of the month ends in a not-after value.
pub const DAY_END: usize = 6;

/// Where the year begins in a not-after value.
pub const YEAR_START: usize = 16;

/// Where the year ends in a not-after value.
pub const YEAR_END: usize = 20;

/// A calendar date. A month of 0 stands for a month that was not recognized.
#[derive(Clone, Copy, Debug, PartialEq, Eq, Structural)]
pub struct Date {
    pub year: i32,
    pub month: u32,
    pub day: u32,
}

impl Date {
    /// The month and the day are numbers that a calendar has.
    pub open spec fn on_calendar(self) -> bool {
        1 <= self.month <= 12 && 1 <= self.day <= 31
    }

    /// `self` comes after `other`: the year is greater, or the years agree
    /// and the month is greater, or years and months agree and the day is
    /// greater.
    pub open spec fn later_than(self, other: Date) -> bool {
        ||| self.year > other.year
        ||| (self.year == other.year && self.month > other.month)
        ||| (self.year == other.year && self.month == other.month && self.day > other.day)
    }

    /// Tells whether `self` comes after `other`.
    pub fn is_later_than(&self, other: &Date) -> (later: bool)
        ensures
            later == self.later_than(*other),
    {
        self.year > other.year
            || (self.year == other.year && self.month > other.month)
            || (self.year == other.year && self.month == other.month && self.day > other.day)
    }
}

/// The number of the month that `abbrev` abbreviates, 0 if it abbreviates
/// none.
pub open spec fn month_number(abbrev: Seq<u8>) -> u32 {
    if abbrev == "Jan".spec_bytes() {
        1
    } else if abbrev == "Feb".spec_bytes() {
        2
    } else if abbrev == "Mar".spec_bytes() {
        3
    } else if abbrev == "Apr".spec_bytes() {
        4
    } else if abbrev == "May".spec_bytes() {
        5
    } else if abbrev == "Jun".spec_bytes() {
        6
    } else if abbrev == "Jul".spec_bytes() {
        7
    } else if abbrev == "Aug".spec_bytes() {
        8
    } else if abbrev == "Sep".spec_bytes() {
        9
    } else if abbrev == "Oct".spec_bytes() {
        10
    } else if abbrev == "Nov".spec_bytes() {
        11
    } else if abbrev == "Dec".spec_bytes() {
        12
    } else {
        0
    }
}

/// The day of the month in the not-after value `value`: the number that its
/// two day bytes write or, where they write none, the number that the second
/// of them writes.
pub open spec fn day_of_month(value: Seq<u8>) -> Option<u32> {
    match decimal_u32(value.subrange(DAY_START as int, DAY_END as int)) {
        Some(day) => Some(day),
        None => decimal_u32(value.subrange(DAY_START + 1, DAY_END as int)),
    }
}

/// The date that the not-after value `value` gives, read at its fixed
/// offsets.
pub open spec fn not_after_date(value: Seq<u8>) -> Result<Date, ParseError> {
    if value.len() < YEAR_END {
        Err(ParseError::InvalidDate)
    } else {
        match (decimal_i32(value.subrange(YEAR_START as int, YEAR_END as int)), day_of_month(value)) {
            (Some(year), Some(day)) => Ok(
                Date {
                    year,
                    month: month_number(value.subrange(MONTH_START as int, MONTH_END as int)),
                    day,
                },
            ),
            _ => Err(ParseError::InvalidDate),
        }
    }
}

/// Gives the number of the month that `month_str` abbreviates, 0 if it
/// abbreviates none.
pub fn parse_month(month_str: &[u8]) -> (month: u32)
    ensures
        month == month_number(month_str@),
        month <= 12,
{
    if bytes_equal(month_str, "Jan".as_bytes()) {
        1
    } else if bytes_equal(month_str, "Feb".as_bytes()) {
        2
    } else if bytes_equal(month_str, "Mar".as_bytes()) {
        3
    } else if bytes_equal(month_str, "Apr".as_bytes()) {
        4
    } else if bytes_equal(month_str, "May".as_bytes()) {
        5
    } else if bytes_equal(month_str, "Jun".as_bytes()) {
        6
    } else if bytes_equal(month_str, "Jul".as_bytes()) {
        7
    } else if bytes_equal(month_str, "Aug".as_bytes()) {
        8
    } else if bytes_equal(month_str, "Sep".as_bytes()) {
        9
    } else if bytes_equal(month_str, "Oct".as_bytes()) {
        10
    } else if bytes_equal(month_str, "Nov".as_bytes()) {
        11
    } else if bytes_equal(month_str, "Dec".as_bytes()) {
        12
    } else {
        0
    }
}

/// Reads the date of the not-after value `value`.
pub fn parse_not_after(value: &[u8]) -> (date: Result<Date, ParseError>)
    ensures
        date == not_after_date(value@),
{
    if value.len() < YEAR_END {
        return Err(ParseError::InvalidDate);
    }
    let year: i32 = match parse_i32(slice_subrange(value, YEAR_START, YEAR_END)) {
        Some(year) => year,
        None => {
            return Err(ParseError::InvalidDate);
        },
    };
    let month: u32 = parse_month(slice_subrange(value, MONTH_START, MONTH_END));
    let day: u32 = match parse_u32(slice_subrange(value, DAY_START, DAY_END)) {
        Some(day) => day,
        None => match parse_u32(slice_subrange(value, DAY_START + 1, DAY_END)) {
            Some(day) => day,
            None => {
                return Err(ParseError::InvalidDate);
            },
        },
    };
    Ok(Date { year, month, day })
}

} // verus!
