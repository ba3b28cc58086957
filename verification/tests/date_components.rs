use sheet_frame::{Date, DateParseError};

fn date(year: u32, month: u8, day: u8) -> Date {
    Date { year, month, day }
}

#[test]
fn day_month_year_is_read_in_that_order() {
    assert_eq!(Date::from_numbers(4, 2, 2000, "DD/MM/YYYY"), Ok(date(2000, 2, 4)));
}

#[test]
fn year_month_day_is_read_in_that_order() {
    assert_eq!(Date::from_numbers(2000, 2, 4, "YYYY/MM/DD"), Ok(date(2000, 2, 4)));
}

#[test]
fn month_day_year_is_read_in_that_order() {
    assert_eq!(Date::from_numbers(2, 4, 2000, "MM/DD/YYYY"), Ok(date(2000, 2, 4)));
    assert_eq!(Date::from_numbers(12, 31, 1999, "MM/DD/YYYY"), Ok(date(1999, 12, 31)));
}

#[test]
fn an_unknown_format_is_refused() {
    assert_eq!(Date::from_numbers(4, 2, 2000, "unknown"), Err(DateParseError::UnsupportedFormat));
    assert_eq!(Date::from_numbers(0, 0, 0, "unknown"), Err(DateParseError::UnsupportedFormat));
    assert_eq!(Date::from_numbers(99, 99, 99, "unknown"), Err(DateParseError::UnsupportedFormat));
}

#[test]
fn a_format_must_match_to_the_letter() {
    for tag in ["", "yyyy/mm/dd", "YYYY/MM/DD ", " YYYY/MM/DD", "YYYY-MM-DD", "DD/MM/YYY", "DD/MM/YYYYY", "MM/DD/YY", "YYYY/DD/MM"] {
        assert_eq!(Date::from_numbers(4, 2, 2000, tag), Err(DateParseError::UnsupportedFormat));
    }
}

#[test]
fn the_thirty_first_of_april_is_refused() {
    assert_eq!(Date::from_numbers(31, 4, 2023, "DD/MM/YYYY"), Err(DateParseError::InvalidDay));
}

#[test]
fn the_thirty_first_of_every_short_month_is_refused() {
    for month in [4u32, 6, 9, 11] {
        assert_eq!(Date::from_numbers(31, month, 2023, "DD/MM/YYYY"), Err(DateParseError::InvalidDay));
        assert_eq!(Date::from_numbers(30, month, 2023, "DD/MM/YYYY"), Ok(date(2023, month as u8, 30)));
    }
}

#[test]
fn the_thirty_first_of_every_long_month_is_taken() {
    for month in [1u32, 3, 5, 7, 8, 10, 12] {
        assert_eq!(Date::from_numbers(31, month, 2023, "DD/MM/YYYY"), Ok(date(2023, month as u8, 31)));
    }
}

#[test]
fn the_twenty_ninth_of_february_needs_a_leap_year() {
    assert_eq!(Date::from_numbers(29, 2, 2023, "DD/MM/YYYY"), Err(DateParseError::InvalidDay));
    assert_eq!(Date::from_numbers(29, 2, 2024, "DD/MM/YYYY"), Ok(date(2024, 2, 29)));
}

#[test]
fn february_in_century_years() {
    assert_eq!(Date::from_numbers(29, 2, 1900, "DD/MM/YYYY"), Err(DateParseError::InvalidDay));
    assert_eq!(Date::from_numbers(29, 2, 2000, "DD/MM/YYYY"), Ok(date(2000, 2, 29)));
    assert_eq!(Date::from_numbers(28, 2, 1900, "DD/MM/YYYY"), Ok(date(1900, 2, 28)));
}

#[test]
fn the_thirtieth_of_february_is_always_refused() {
    assert_eq!(Date::from_numbers(30, 2, 2024, "DD/MM/YYYY"), Err(DateParseError::InvalidDay));
    assert_eq!(Date::from_numbers(30, 2, 2023, "DD/MM/YYYY"), Err(DateParseError::InvalidDay));
    assert_eq!(Date::from_numbers(31, 2, 2024, "DD/MM/YYYY"), Err(DateParseError::InvalidDay));
}

#[test]
fn a_day_past_thirty_one_is_refused() {
    assert_eq!(Date::from_numbers(32, 1, 2023, "DD/MM/YYYY"), Err(DateParseError::InvalidDay));
    assert_eq!(Date::from_numbers(2023, 1, 32, "YYYY/MM/DD"), Err(DateParseError::InvalidDay));
    assert_eq!(Date::from_numbers(1, 32, 2023, "MM/DD/YYYY"), Err(DateParseError::InvalidDay));
    assert_eq!(Date::from_numbers(u32::MAX, 1, 2023, "DD/MM/YYYY"), Err(DateParseError::InvalidDay));
}

#[test]
fn a_month_outside_the_twelve_is_refused() {
    assert_eq!(Date::from_numbers(15, 13, 2023, "DD/MM/YYYY"), Err(DateParseError::InvalidMonth));
    assert_eq!(Date::from_numbers(15, 0, 2023, "DD/MM/YYYY"), Err(DateParseError::InvalidMonth));
    assert_eq!(Date::from_numbers(31, 13, 2023, "DD/MM/YYYY"), Err(DateParseError::InvalidMonth));
    assert_eq!(Date::from_numbers(15, u32::MAX, 2023, "DD/MM/YYYY"), Err(DateParseError::InvalidMonth));
}

#[test]
fn the_year_zero_is_refused() {
    assert_eq!(Date::from_numbers(15, 6, 0, "DD/MM/YYYY"), Err(DateParseError::InvalidYear));
    assert_eq!(Date::from_numbers(0, 6, 15, "YYYY/MM/DD"), Err(DateParseError::InvalidYear));
    assert_eq!(Date::from_numbers(15, 6, 1, "DD/MM/YYYY"), Ok(date(1, 6, 15)));
}

#[test]
fn the_day_is_judged_before_the_month_and_the_month_before_the_year() {
    // A bad day and a bad month: the day is named.
    assert_eq!(Date::from_numbers(40, 13, 2023, "DD/MM/YYYY"), Err(DateParseError::InvalidDay));
    // A bad day and the year zero: the day is named.
    assert_eq!(Date::from_numbers(31, 4, 0, "DD/MM/YYYY"), Err(DateParseError::InvalidDay));
    // A bad month and the year zero: the month is named.
    assert_eq!(Date::from_numbers(15, 13, 0, "DD/MM/YYYY"), Err(DateParseError::InvalidMonth));
    // The year zero counts as a leap year when February is judged.
    assert_eq!(Date::from_numbers(29, 2, 0, "DD/MM/YYYY"), Err(DateParseError::InvalidYear));
    assert_eq!(Date::from_numbers(30, 2, 0, "DD/MM/YYYY"), Err(DateParseError::InvalidDay));
}

#[test]
fn numbers_past_one_byte_are_not_cut_down() {
    // 257 is not the day 1, and 258 is not the month 2.
    assert_eq!(Date::from_numbers(257, 1, 2000, "DD/MM/YYYY"), Err(DateParseError::InvalidDay));
    assert_eq!(Date::from_numbers(1, 258, 2000, "DD/MM/YYYY"), Err(DateParseError::InvalidMonth));
    assert_eq!(Date::from_numbers(256, 256, 2000, "DD/MM/YYYY"), Err(DateParseError::InvalidDay));
}

#[test]
fn a_day_of_zero_draws_no_complaint() {
    assert_eq!(Date::from_numbers(0, 1, 2000, "DD/MM/YYYY"), Ok(date(2000, 1, 0)));
}

#[test]
fn large_years_are_kept() {
    assert_eq!(Date::from_numbers(1, 1, u32::MAX, "DD/MM/YYYY"), Ok(date(u32::MAX, 1, 1)));
    assert_eq!(Date::from_numbers(29, 2, 4_294_967_292, "DD/MM/YYYY"), Ok(date(4_294_967_292, 2, 29)));
}

#[test]
fn serial_errors_never_come_from_components() {
    for (d, m, y) in [(0u32, 0u32, 0u32), (1, 1, 1), (31, 4, 2023), (40, 1, 2023), (1, 13, 2023), (29, 2, 1900)] {
        let result = Date::from_numbers(d, m, y, "DD/MM/YYYY");
        assert_ne!(result, Err(DateParseError::InvalidSerialNumber));
        assert_ne!(result, Err(DateParseError::InvalidDate));
        assert_ne!(result, Err(DateParseError::UnsupportedFormat));
    }
}
