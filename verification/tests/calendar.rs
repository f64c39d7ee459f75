use goodwe_web::calendar::{last_day, month_window, CalendarError, MAX_YEAR, MIN_YEAR};

fn window(year: i32, month: u32) -> (String, String) {
    let w = month_window(year, month).unwrap();
    (w.start_time, w.end_time)
}

#[test]
fn last_days_of_a_common_year() {
    let days: Vec<u32> = (1..=12).map(|m| last_day(2023, m).unwrap()).collect();
    assert_eq!(days, vec![31, 28, 31, 30, 31, 30, 31, 31, 30, 31, 30, 31]);
}

#[test]
fn leap_years_have_a_longer_february() {
    assert_eq!(last_day(2024, 2), Ok(29));
    assert_eq!(last_day(1900, 2), Ok(28));
    assert_eq!(last_day(2000, 2), Ok(29));
    assert_eq!(last_day(-4, 2), Ok(29));
    assert_eq!(last_day(-1, 2), Ok(28));
}

#[test]
fn months_past_twelve_end_like_december() {
    assert_eq!(last_day(2024, 13), Ok(31));
    assert_eq!(last_day(2024, u32::MAX - 1), Ok(31));
    assert_eq!(last_day(2024, 0), Ok(31));
}

#[test]
fn years_at_the_ends_of_the_range() {
    assert_eq!(last_day(MAX_YEAR, 11), Ok(30));
    assert_eq!(last_day(MAX_YEAR, 12), Err(CalendarError::InvalidYearMonth));
    assert_eq!(last_day(MAX_YEAR + 1, 1), Err(CalendarError::InvalidYearMonth));
    assert_eq!(last_day(i32::MAX - 1, 1), Err(CalendarError::InvalidYearMonth));
    assert_eq!(last_day(i32::MIN, 1), Err(CalendarError::InvalidYearMonth));
    assert_eq!(last_day(MIN_YEAR, 1), Ok(31));
    assert_eq!(last_day(MIN_YEAR, 0), Err(CalendarError::DateArithmetic));
    assert_eq!(last_day(MIN_YEAR - 1, 6), Err(CalendarError::DateArithmetic));
    assert_eq!(last_day(MIN_YEAR - 2, 6), Err(CalendarError::InvalidYearMonth));
}

#[test]
fn the_range_is_that_of_the_date_type() {
    assert_eq!(chrono::Datelike::year(&chrono::NaiveDate::MIN), MIN_YEAR);
    assert_eq!(chrono::Datelike::year(&chrono::NaiveDate::MAX), MAX_YEAR);
}

#[test]
fn windows_span_the_month() {
    assert_eq!(
        window(2024, 2),
        ("2024-02-01 00:00:00".to_owned(), "2024-02-29 23:59:59".to_owned())
    );
    assert_eq!(
        window(2025, 12),
        ("2025-12-01 00:00:00".to_owned(), "2025-12-31 23:59:59".to_owned())
    );
    assert_eq!(
        window(-5, 4),
        ("-5-04-01 00:00:00".to_owned(), "-5-04-30 23:59:59".to_owned())
    );
    assert_eq!(
        window(2025, 0),
        ("2025-00-01 00:00:00".to_owned(), "2025-00-31 23:59:59".to_owned())
    );
    assert_eq!(
        window(2025, 120),
        ("2025-120-01 00:00:00".to_owned(), "2025-120-31 23:59:59".to_owned())
    );
    assert!(month_window(300000, 1).is_err());
}
