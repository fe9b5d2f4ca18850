use tether::timestamp::{chrono_lite_now, civil_from_days, format_timestamp, leap_year, month_length, year_length};

#[test]
fn epoch_formats_as_midnight_first_of_january_1970() {
    assert_eq!(format_timestamp(0), "1970-01-01 00:00:00");
}

#[test]
fn last_second_of_first_day() {
    assert_eq!(format_timestamp(86399), "1970-01-01 23:59:59");
}

#[test]
fn leap_day_of_2000_is_kept() {
    assert_eq!(format_timestamp(951782400), "2000-02-29 00:00:00");
    assert_eq!(format_timestamp(951868800), "2000-03-01 00:00:00");
    assert_eq!(format_timestamp(978307199), "2000-12-31 23:59:59");
}

#[test]
fn leap_day_of_1972() {
    assert_eq!(format_timestamp(68169600), "1972-02-29 00:00:00");
}

#[test]
fn ordinary_instant() {
    assert_eq!(format_timestamp(1700000000), "2023-11-14 22:13:20");
}

#[test]
fn last_second_of_year_9999() {
    assert_eq!(format_timestamp(253402300799), "9999-12-31 23:59:59");
}

#[test]
fn year_past_9999_keeps_all_digits() {
    assert_eq!(format_timestamp(253402300800), "10000-01-01 00:00:00");
}

#[test]
fn leap_year_rules() {
    assert!(leap_year(2000));
    assert!(!leap_year(1900));
    assert!(!leap_year(2100));
    assert!(leap_year(2024));
    assert!(!leap_year(2023));
    assert_eq!(year_length(2000), 366);
    assert_eq!(year_length(1900), 365);
}

#[test]
fn month_lengths() {
    assert_eq!(month_length(2, true), 29);
    assert_eq!(month_length(2, false), 28);
    assert_eq!(month_length(4, false), 30);
    assert_eq!(month_length(12, true), 31);
}

#[test]
fn civil_dates_from_day_counts() {
    assert_eq!(civil_from_days(0), (1970, 1, 1));
    assert_eq!(civil_from_days(47541), (2100, 3, 1));
    assert_eq!(civil_from_days(2932896), (9999, 12, 31));
}

#[test]
fn current_time_has_timestamp_shape() {
    let now = chrono_lite_now();
    let b = now.as_bytes();
    assert_eq!(b.len(), 19);
    assert_eq!(b[4], b'-');
    assert_eq!(b[7], b'-');
    assert_eq!(b[10], b' ');
    assert_eq!(b[13], b':');
    assert_eq!(b[16], b':');
    assert!(now.as_str() > "2020");
}
