//! What holds of dates and of the two ways of building them.

use vstd::prelude::*;
use crate::calendar::{
    days_before_month, days_before_year, lemma_days_before_month_grows,
    lemma_days_before_year_grows, lemma_months_fill_year, month_length, year_length, EPOCH_YEAR,
};
use crate::date::{arranged, corrected_serial, date_of_serial, decodes_to, validated, Date};
use crate::error::DateParseError;

verus! {

/// The three format tags have ten characters each, so a tag of any other length
/// arranges no numbers.
pub proof fn lemma_other_length_is_no_format(frag1: int, frag2: int, frag3: int, format: Seq<char>)
    requires
        format.len() != 10,
    ensures
        arranged(frag1, frag2, frag3, format) is None,
{
    reveal_strlit("YYYY/MM/DD");
    reveal_strlit("DD/MM/YYYY");
    reveal_strlit("MM/DD/YYYY");
}

/// In each of the twelve months a day past the end of the month is refused as a
/// day, whatever the year: the 31st in a month of thirty days, and the 29th of
/// February outside a leap year.
pub proof fn lemma_day_past_month_end_is_refused(year: int, month: int, day: int)
    requires
        1 <= month <= 12,
        day > month_length(year, month),
    ensures
        validated(year, month, day) == Err::<Date, DateParseError>(DateParseError::InvalidDay),
{
}

/// A year, a month and a day give a date exactly when the day does not exceed the
/// month, the month is one of the twelve, and the year is not zero. The date then
/// holds the three as they are.
pub proof fn lemma_validation_accepts(year: int, month: int, day: int)
    requires
        0 <= year <= u32::MAX,
        0 <= month,
        0 <= day,
    ensures
        validated(year, month, day) is Ok <==> year != 0 && 1 <= month <= 12 && day <= month_length(
            year,
            month,
        ),
        validated(year, month, day) matches Ok(date) ==> date.wf() && date.year == year && date.month
            == month && date.day == day,
{
}

/// A later serial day count stands for a later day. The fictitious leap day has
/// its place in that order, between the 28th of February and the 1st of March
/// 1900.
pub proof fn lemma_later_serial_later_date(earlier: int, later: int, first: Date, second: Date)
    requires
        1 <= earlier < later,
        decodes_to(earlier, first),
        decodes_to(later, second),
    ensures
        first.comes_before(second),
{
    reveal_with_fuel(days_before_month, 4);
    let last_of_february = Date { year: 1900, month: 2, day: 28 };
    let first_of_march = Date { year: 1900, month: 3, day: 1 };
    assert(last_of_february.day_number() == 59);
    assert(first_of_march.day_number() == 60);
    if earlier == 60 {
        // The later date has a day number of 60 or more: it is not before March.
        if second.comes_before(first_of_march) {
            lemma_day_number_orders_dates(second, first_of_march);
        }
    } else if later == 60 {
        // The earlier date has a day number of 59 or less: it is not after February.
        if last_of_february.comes_before(first) {
            lemma_day_number_orders_dates(last_of_february, first);
        }
    } else {
        if second.comes_before(first) {
            lemma_day_number_orders_dates(second, first);
        }
    }
}

/// Every day number in the range of serials belongs to a calendar date, not
/// before 1900: the date that the proof hands back.
pub proof fn lemma_every_day_has_a_date(number: int) -> (date: Date)
    requires
        1 <= number <= u32::MAX,
    ensures
        date.is_calendar_date(),
        date.year >= EPOCH_YEAR,
        date.day_number() == number,
    decreases number,
{
    if number == 1 {
        Date { year: EPOCH_YEAR, month: 1, day: 1 }
    } else {
        // The date of the day before, moved on by one day.
        let before = lemma_every_day_has_a_date(number - 1);
        let year = before.year as int;
        let month = before.month as int;
        lemma_days_before_year_grows(EPOCH_YEAR as int, year);
        lemma_days_before_month_grows(year, 1, month);
        assert(days_before_month(year, month + 1) == days_before_month(year, month) + month_length(
            year,
            month,
        ));
        if before.day < month_length(year, month) {
            Date { year: before.year, month: before.month, day: (before.day + 1) as u8 }
        } else if before.month < 12 {
            Date { year: before.year, month: (before.month + 1) as u8, day: 1 }
        } else {
            lemma_months_fill_year(year);
            assert(days_before_year(year + 1) == days_before_year(year) + year_length(year));
            Date { year: (before.year + 1) as u32, month: 1, day: 1 }
        }
    }
}

/// Every serial day count from 1 on stands for a date, and that date is well
/// formed.
pub proof fn lemma_every_serial_has_a_date(serial: int)
    requires
        1 <= serial <= u32::MAX,
    ensures
        decodes_to(serial, date_of_serial(serial)),
        date_of_serial(serial).wf(),
{
    if serial == 60 {
        assert(decodes_to(serial, Date::legacy_leap_day()));
    } else {
        let date = lemma_every_day_has_a_date(corrected_serial(serial));
        assert(decodes_to(serial, date));
    }
}

/// A date that a serial day count stands for is accepted when it is built again
/// from its own year, month and day. The one exception is the fictitious leap
/// day, which is refused as a day.
pub proof fn lemma_decoded_dates_are_valid(serial: int, date: Date)
    requires
        decodes_to(serial, date),
    ensures
        serial != 60 ==> validated(date.year as int, date.month as int, date.day as int) == Ok::<
            Date,
            DateParseError,
        >(date),
        serial == 60 ==> validated(date.year as int, date.month as int, date.day as int) == Err::<
            Date,
            DateParseError,
        >(DateParseError::InvalidDay),
{
}

/// A serial day count stands for one date only.
pub proof fn lemma_decoding_is_unique(serial: int, first: Date, second: Date)
    requires
        decodes_to(serial, first),
        decodes_to(serial, second),
    ensures
        first == second,
{
    if serial != 60 {
        if first.comes_before(second) {
            lemma_day_number_orders_dates(first, second);
        } else if second.comes_before(first) {
            lemma_day_number_orders_dates(second, first);
        }
    }
}

/// Of two calendar dates, not before 1900, the earlier has the smaller day
/// number.
pub proof fn lemma_day_number_orders_dates(earlier: Date, later: Date)
    requires
        earlier.is_calendar_date(),
        later.is_calendar_date(),
        EPOCH_YEAR <= earlier.year,
        earlier.comes_before(later),
    ensures
        earlier.day_number() < later.day_number(),
{
    let year = earlier.year as int;
    let month = earlier.month as int;
    assert(days_before_month(year, month + 1) == days_before_month(year, month) + month_length(
        year,
        month,
    ));
    if earlier.year < later.year {
        // The earlier date lies within its year, which ends before the later year starts.
        lemma_months_fill_year(year);
        lemma_days_before_month_grows(year, month + 1, 13);
        assert(days_before_year(year + 1) == days_before_year(year) + year_length(year));
        lemma_days_before_year_grows(year + 1, later.year as int);
        lemma_days_before_month_grows(later.year as int, 1, later.month as int);
    } else if earlier.month < later.month {
        lemma_days_before_month_grows(year, month + 1, later.month as int);
    }
}

} // verus!
