use cerebro::dates::{
    civil_from_days, date_days_ago, date_days_ago_at, date_days_ahead, date_days_ahead_at,
    date_days_ahead_from,
    date_of_unix_secs, format_date, is_leap,
};

#[test]
fn leap_years() {
    assert!(is_leap(2024));
    assert!(is_leap(2000));
    assert!(!is_leap(1900));
    assert!(!is_leap(2023));
}

#[test]
fn civil_dates_of_day_numbers() {
    assert_eq!(civil_from_days(0), (1970, 1, 1));
    assert_eq!(civil_from_days(31), (1970, 2, 1));
    assert_eq!(civil_from_days(365), (1971, 1, 1));
    assert_eq!(civil_from_days(19723), (2024, 1, 1));
    assert_eq!(civil_from_days(19782), (2024, 2, 29));
    assert_eq!(civil_from_days(19783), (2024, 3, 1));
    assert_eq!(civil_from_days(20088), (2024, 12, 31));
    assert_eq!(civil_from_days(10957), (2000, 1, 1));
}

#[test]
fn date_formatting() {
    assert_eq!(format_date(2024, 1, 5), "2024-01-05");
    assert_eq!(format_date(12345, 11, 30), "12345-11-30");
    assert_eq!(date_of_unix_secs(0), "1970-01-01");
    assert_eq!(date_of_unix_secs(1_704_067_199), "2023-12-31");
    assert_eq!(date_of_unix_secs(1_704_067_200), "2024-01-01");
}

#[test]
fn days_ago_and_ahead_at_a_given_time() {
    let now = 1_709_208_000; // 2024-02-29T12:00:00Z
    assert_eq!(date_days_ago_at(now, 0), "2024-02-29");
    assert_eq!(date_days_ago_at(now, 1), "2024-02-28");
    assert_eq!(date_days_ahead_at(now, 1), "2024-03-01");
    assert_eq!(date_days_ahead_at(now, 7), "2024-03-07");
    assert_eq!(date_days_ahead_from(now, 7).as_deref(), Some("2024-03-07"));
    assert_eq!(date_days_ahead_from(now, 0).as_deref(), Some("2024-02-29"));
    assert_eq!(date_days_ahead_from(u64::MAX - 86_399, 1), None);
    assert_eq!(date_days_ahead_from(0, u64::MAX / 86400 + 1), None);
    assert_eq!(date_days_ago_at(now, 366), "2023-02-28");
    // Before the epoch the date stops at its first day.
    assert_eq!(date_days_ago_at(100, 5), "1970-01-01");
}

#[test]
fn today_from_the_clock() {
    let today = date_days_ago(0);
    assert_eq!(today.len(), 10);
    assert_ne!(today, "1970-01-01");
    assert!(today.as_str() > "2023-11-14");
    let ahead = date_days_ahead(7).expect("within the clock's range");
    assert!(ahead > today);
    assert_eq!(date_days_ahead(u64::MAX / 86400 + 1), None);
}
