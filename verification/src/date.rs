//! Calendar dates, and the two ways of building one.

use vstd::prelude::*;
use crate::calendar::{
    days_before_month, days_before_year, is_leap, lemma_days_before_month_grows,
    lemma_months_fill_year, month_length, year_length, EPOCH_YEAR,
};
use crate::date_laws::lemma_decoding_is_unique;
use crate::error::DateParseError;
use crate::text::same_text;

verus! {

/// A day of the calendar.
#[derive(Debug, Clone, Copy, PartialEq, Eq, Structural)]
pub struct Date {
    pub year: u32,
    pub month: u8,
    pub day: u8,
}

/// The year, month and day that three numbers stand for under a format tag, or
/// nothing where the tag is none of the three supported ones.
pub open spec fn arranged(frag1: int, frag2: int, frag3: int, format: Seq<char>) -> Option<
    (int, int, int),
> {
    if format == "YYYY/MM/DD"@ {
        Some((frag1, frag2, frag3))
    } else if format == "DD/MM/YYYY"@ {
        Some((frag3, frag2, frag1))
    } else if format == "MM/DD/YYYY"@ {
        Some((frag3, frag1, frag2))
    } else {
        None
    }
}

/// The date that a year, a month and a day give, or the first complaint about
/// them: the day is judged first, then the month, then the year.
///
/// A day of zero draws no complaint.
pub open spec fn validated(year: int, month: int, day: int) -> Result<Date, DateParseError> {
    if day >= 32 {
        Err(DateParseError::InvalidDay)
    } else if 1 <= month <= 12 && day > month_length(year, month) {
        Err(DateParseError::InvalidDay)
    } else if !(1 <= month <= 12) {
        Err(DateParseError::InvalidMonth)
    } else if year == 0 {
        Err(DateParseError::InvalidYear)
    } else {
        Ok(Date { year: year as u32, month: month as u8, day: day as u8 })
    }
}

/// The day number that a serial day count stands for. The 1900 date system
/// counts a 29th of February 1900 that never was, so every serial after it is one
/// too large.
pub open spec fn corrected_serial(serial: int) -> int {
    if serial > 60 {
        serial - 1
    } else {
        serial
    }
}

/// Whether `date` is the date that the serial day count `serial` stands for: the
/// fictitious leap day for serial 60, and for every other serial the calendar
/// date, not before 1900, whose day number is the corrected serial.
pub open spec fn decodes_to(serial: int, date: Date) -> bool {
    if serial == 60 {
        date == Date::legacy_leap_day()
    } else {
        &&& date.is_calendar_date()
        &&& date.year >= EPOCH_YEAR
        &&& date.day_number() == corrected_serial(serial)
    }
}

/// The date that a serial day count stands for.
pub open spec fn date_of_serial(serial: int) -> Date {
    choose|date: Date| decodes_to(serial, date)
}

/// What decoding a serial day count gives: serial 0 is refused, and every other
/// serial gives the date that it stands for.
pub open spec fn decoded(serial: int) -> Result<Date, DateParseError> {
    if serial < 1 {
        Err(DateParseError::InvalidSerialNumber)
    } else {
        Ok(date_of_serial(serial))
    }
}

impl Date {
    /// The fictitious 29th of February 1900, which the 1900 date system counts
    /// as its sixtieth day.
    pub open spec fn legacy_leap_day() -> Date {
        Date { year: 1900, month: 2, day: 29 }
    }

    /// A day that the calendar has.
    pub open spec fn is_calendar_date(self) -> bool {
        &&& self.year >= 1
        &&& 1 <= self.month <= 12
        &&& 1 <= self.day <= month_length(self.year as int, self.month as int)
    }

    /// What holds of every date that this crate builds: the year is not zero, the
    /// month is one of the twelve, and the day does not exceed the month, but for
    /// the fictitious leap day of 1900.
    pub open spec fn wf(self) -> bool {
        &&& self.year >= 1
        &&& 1 <= self.month <= 12
        &&& (self.day <= month_length(self.year as int, self.month as int) || self
            == Self::legacy_leap_day())
    }

    /// Whether `self` is an earlier day than `other`.
    pub open spec fn comes_before(self, other: Date) -> bool {
        ||| self.year < other.year
        ||| self.year == other.year && self.month < other.month
        ||| self.year == other.year && self.month == other.month && self.day < other.day
    }

    /// The place of a date in the count of days that starts with the first of
    /// January 1900 as day one.
    pub open spec fn day_number(self) -> int {
        days_before_year(self.year as int) + days_before_month(
            self.year as int,
            self.month as int,
        ) + self.day
    }

    /// Builds a date from three numbers, in the order that the format tag names:
    /// `"YYYY/MM/DD"`, `"DD/MM/YYYY"` or `"MM/DD/YYYY"`.
    ///
    /// The numbers are taken as they are, so a day or a month past 255 is refused
    /// like any other that is too large.
    pub fn from_numbers(frag1: u32, frag2: u32, frag3: u32, format: &str) -> (result: Result<
        Date,
        DateParseError,
    >)
        ensures
            result == match arranged(frag1 as int, frag2 as int, frag3 as int, format@) {
                Some((year, month, day)) => validated(year, month, day),
                None => Err(DateParseError::UnsupportedFormat),
            },
            result is Ok ==> result->Ok_0.wf(),
            result is Err ==> result->Err_0 != DateParseError::InvalidSerialNumber
                && result->Err_0 != DateParseError::InvalidDate,
    {
        let (year, month, day) = if same_text(format, "YYYY/MM/DD") {
            (frag1, frag2, frag3)
        } else if same_text(format, "DD/MM/YYYY") {
            (frag3, frag2, frag1)
        } else if same_text(format, "MM/DD/YYYY") {
            (frag3, frag1, frag2)
        } else {
            return Err(DateParseError::UnsupportedFormat);
        };

        if day >= 32 {
            return Err(DateParseError::InvalidDay);
        }
        if month == 2 {
            if Self::is_leap_year(year) {
                if day > 29 {
                    return Err(DateParseError::InvalidDay);
                }
            } else {
                if day > 28 {
                    return Err(DateParseError::InvalidDay);
                }
            }
        }
        if (month == 4 || month == 6 || month == 9 || month == 11) && day > 30 {
            return Err(DateParseError::InvalidDay);
        }
        if !(1 <= month && month <= 12) {
            return Err(DateParseError::InvalidMonth);
        }
        if year == 0 {
            return Err(DateParseError::InvalidYear);
        }
        Ok(Date { year, month: month as u8, day: day as u8 })
    }

    /// Decodes a serial day count of the 1900 date system.
    ///
    /// Serial 1 is the first of January 1900. Serial 60 is the 29th of February
    /// 1900, a day that the date system counts and the calendar does not have; it
    /// is handed out as it is counted. Serial 0 is no day.
    pub fn from_excel_datetype(serial: u32) -> (result: Result<Date, DateParseError>)
        ensures
            result == decoded(serial as int),
            serial < 1 ==> result == Err::<Date, DateParseError>(
                DateParseError::InvalidSerialNumber,
            ),
            serial >= 1 ==> result is Ok && decodes_to(serial as int, result->Ok_0),
            result is Ok ==> result->Ok_0.wf(),
    {
        if serial < 1 {
            return Err(DateParseError::InvalidSerialNumber);
        }
        if serial == 60 {
            let date = Date { year: EPOCH_YEAR, month: 2, day: 29 };
            proof {
                lemma_decoding_is_unique(serial as int, date, date_of_serial(serial as int));
            }
            return Ok(date);
        }
        let corrected: u32 = if serial > 60 {
            serial - 1
        } else {
            serial
        };
        let days_since_base: u32 = corrected - 1;

        let mut year: u32 = EPOCH_YEAR;
        let mut days_remaining: u32 = days_since_base;
        while days_remaining >= Self::days_in_year(year)
            invariant
                EPOCH_YEAR <= year,
                days_remaining <= days_since_base,
                days_before_year(year as int) + days_remaining == days_since_base,
                365 * (year - EPOCH_YEAR) <= days_since_base - days_remaining,
            decreases days_remaining,
        {
            days_remaining -= Self::days_in_year(year);
            year += 1;
        }

        let ghost day_of_year: int = days_remaining as int;
        let mut month: u8 = 1;
        while days_remaining >= Self::days_in_month(year, month) as u32
            invariant
                1 <= month <= 12,
                day_of_year < year_length(year as int),
                days_before_month(year as int, month as int) + days_remaining == day_of_year,
            decreases 12 - month,
        {
            proof {
                // Past December the days of the year would be used up.
                lemma_months_fill_year(year as int);
                lemma_days_before_month_grows(year as int, month as int + 1, 13);
            }
            days_remaining -= Self::days_in_month(year, month) as u32;
            month += 1;
        }

        let day: u8 = (days_remaining as u8) + 1;
        if day > Self::days_in_month(year, month) {
            return Err(DateParseError::InvalidDate);
        }
        let date = Date { year, month, day };
        proof {
            assert(decodes_to(serial as int, date));
            lemma_decoding_is_unique(serial as int, date, date_of_serial(serial as int));
        }
        Ok(date)
    }

    /// Whether a year is a leap year.
    pub fn is_leap_year(year: u32) -> (leap: bool)
        ensures
            leap == is_leap(year as int),
    {
        (year % 4 == 0 && year % 100 != 0) || year % 400 == 0
    }

    /// The number of days in a year.
    pub fn days_in_year(year: u32) -> (days: u32)
        ensures
            days == year_length(year as int),
    {
        if Self::is_leap_year(year) {
            366
        } else {
            365
        }
    }

    /// The number of days in a month, and zero for a month that is none.
    pub fn days_in_month(year: u32, month: u8) -> (days: u8)
        ensures
            days == month_length(year as int, month as int),
    {
        match month {
            1 | 3 | 5 | 7 | 8 | 10 | 12 => 31,
            4 | 6 | 9 | 11 => 30,
            2 => if Self::is_leap_year(year) {
                29
            } else {
                28
            },
            _ => 0,
        }
    }
}

} // verus!
