//! Calendar years, as the `time` crate bounds them.

use vstd::prelude::*;

verus! {

/// The first year that a `time::Date` can hold.
pub const MIN_YEAR: i32 = -9999;

/// The last year that a `time::Date` can hold.
pub const MAX_YEAR: i32 = 9999;

/// Whether `y` is a year that a calendar date can be built in.
pub open spec fn is_calendar_year(y: int) -> bool {
    MIN_YEAR <= y <= MAX_YEAR
}

/// Relies on `time::Date::from_ordinal_date(year, 1)`: without the
/// `large-dates` feature it succeeds exactly when the year lies in
/// `-9999..=9999`, since day 1 exists in every year.
#[verifier::external_body]
pub(crate) fn has_first_day(year: i32) -> (r: bool)
    ensures
        r == is_calendar_year(year as int),
{
    time::Date::from_ordinal_date(year, 1).is_ok()
}

} // verus!
