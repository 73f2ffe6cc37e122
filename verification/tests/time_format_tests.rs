use uptime_monitor::time_format::{format_timestamp, MAX_TIMESTAMP_SECS};

#[test]
fn epoch_renders_as_first_second() {
    assert_eq!(format_timestamp(0), "1970-01-01T00:00:00");
}

#[test]
fn last_second_of_first_day() {
    assert_eq!(format_timestamp(86399), "1970-01-01T23:59:59");
}

#[test]
fn first_second_of_second_day() {
    assert_eq!(format_timestamp(86400), "1970-01-02T00:00:00");
}

#[test]
fn leap_day_in_year_2000() {
    // 2000 is divisible by 400, so it is a leap year
    assert_eq!(format_timestamp(951867296), "2000-02-29T23:34:56");
}

#[test]
fn leap_day_2024_end_of_day() {
    assert_eq!(format_timestamp(1709251199), "2024-02-29T23:59:59");
}

#[test]
fn year_2100_is_not_a_leap_year() {
    // 2100 is divisible by 100 but not 400
    assert_eq!(format_timestamp(4102444800), "2100-01-01T00:00:00");
}

#[test]
fn largest_renderable_timestamp() {
    assert_eq!(format_timestamp(MAX_TIMESTAMP_SECS), "9999-12-31T23:59:59");
}

#[test]
fn ordinary_recent_timestamp() {
    assert_eq!(format_timestamp(1700000000), "2023-11-14T22:13:20");
}
