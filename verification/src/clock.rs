//! The day on which an analysis runs.

use vstd::prelude::*;
use chrono::Datelike;
use crate::date::Date;

verus! {

/// Reads today's date in the local time zone.
///
/// The call goes to `chrono::Local::now`, and the date is taken from its
/// result with `year`, `month` and `day` of `chrono::Datelike`. Nothing is
/// proved of it. Assumed is what chrono documents of every date: the month
/// is a number from 1 to 12 and the day a number from 1 to 31. Which date
/// comes back depends on the clock and the time zone of the machine, so two
/// calls may differ. chrono panics where the clock stands before 1970.
#[verifier::external_body]
pub(crate) fn today() -> (date: Date)
    ensures
        date.on_calendar(),
{
    let now = chrono::Local::now();
    Date { year: now.year(), month: now.month(), day: now.day() }
}

} // verus!
