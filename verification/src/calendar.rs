//! The Gregorian calendar as arithmetic on mathematical integers.
//!
//! Days are counted from the last day of 1899, so that the first of January 1900
//! is day one.

use vstd::prelude::*;

verus! {

/// The year in which the day count starts.
pub const EPOCH_YEAR: u32 = 1900;

/// A year is a leap year when four divides it and a hundred does not, or when
/// four hundred divides it.
pub open spec fn is_leap(year: int) -> bool {
    (year % 4 == 0 && year % 100 != 0) || year % 400 == 0
}

/// The number of days in a year.
pub open spec fn year_length(year: int) -> int {
    if is_leap(year) {
        366
    } else {
        365
    }
}

/// The number of days in a month, and zero for a month that is none.
pub open spec fn month_length(year: int, month: int) -> int {
    if month == 1 || month == 3 || month == 5 || month == 7 || month == 8 || month == 10 || month
        == 12 {
        31
    } else if month == 4 || month == 6 || month == 9 || month == 11 {
        30
    } else if month == 2 {
        if is_leap(year) {
            29
        } else {
            28
        }
    } else {
        0
    }
}

/// The days of all the years from the epoch year up to, and without, `year`.
pub open spec fn days_before_year(year: int) -> int
    decreases year,
{
    if year <= EPOCH_YEAR {
        0
    } else {
        days_before_year(year - 1) + year_length(year - 1)
    }
}

/// The days of the months of `year` that come before `month`.
pub open spec fn days_before_month(year: int, month: int) -> int
    decreases month,
{
    if month <= 1 {
        0
    } else {
        days_before_month(year, month - 1) + month_length(year, month - 1)
    }
}

/// The months of a year add up to the year.
pub proof fn lemma_months_fill_year(year: int)
    ensures
        days_before_month(year, 13) == year_length(year),
{
    reveal_with_fuel(days_before_month, 14);
}

/// The days before a month grow with the month, by at least 28 a month.
pub proof fn lemma_days_before_month_grows(year: int, earlier: int, later: int)
    requires
        1 <= earlier <= later <= 13,
    ensures
        days_before_month(year, earlier) + 28 * (later - earlier) <= days_before_month(
            year,
            later,
        ),
    decreases later - earlier,
{
    if earlier < later {
        lemma_days_before_month_grows(year, earlier, later - 1);
    }
}

/// The days before a year grow with the year, by at least 365 a year.
pub proof fn lemma_days_before_year_grows(earlier: int, later: int)
    requires
        EPOCH_YEAR <= earlier <= later,
    ensures
        days_before_year(earlier) + 365 * (later - earlier) <= days_before_year(later),
    decreases later - earlier,
{
    if earlier < later {
        lemma_days_before_year_grows(earlier, later - 1);
    }
}

} // verus!
