use aqi::datetime::{DateTimeValue, DateValue};

#[test]
fn date_time_without_fraction() {
    let t = DateTimeValue::new(2018, 6, 1, 14, 30, 0, 0).unwrap();
    assert_eq!(t.format(), "2018-06-01T14:30:00");
}

#[test]
fn date_time_fractions_use_three_six_or_nine_digits() {
    assert_eq!(DateTimeValue::new(2018, 6, 1, 14, 30, 5, 500_000_000).unwrap().format(), "2018-06-01T14:30:05.500");
    assert_eq!(DateTimeValue::new(2018, 6, 1, 14, 30, 5, 1_000).unwrap().format(), "2018-06-01T14:30:05.000001");
    assert_eq!(DateTimeValue::new(2018, 6, 1, 14, 30, 5, 123_456_789).unwrap().format(), "2018-06-01T14:30:05.123456789");
}

#[test]
fn dates_pad_every_field() {
    assert_eq!(DateValue::new(2018, 6, 1).unwrap().format(), "2018-06-01");
    assert_eq!(DateValue::new(987, 12, 31).unwrap().format(), "0987-12-31");
    assert_eq!(DateTimeValue::new(5, 1, 2, 3, 4, 5, 0).unwrap().format(), "0005-01-02T03:04:05");
}

#[test]
fn invalid_dates_and_times_are_refused() {
    assert!(DateValue::new(2019, 2, 29).is_none());
    assert!(DateValue::new(2020, 2, 29).is_some());
    assert!(DateValue::new(1900, 2, 29).is_none());
    assert!(DateValue::new(2000, 2, 29).is_some());
    assert!(DateValue::new(2018, 4, 31).is_none());
    assert!(DateValue::new(2018, 13, 1).is_none());
    assert!(DateValue::new(2018, 1, 0).is_none());
    assert!(DateValue::new(10000, 1, 1).is_none());
    assert!(DateValue::new(-1, 1, 1).is_none());
    assert!(DateTimeValue::new(2018, 6, 1, 24, 0, 0, 0).is_none());
    assert!(DateTimeValue::new(2018, 6, 1, 23, 60, 0, 0).is_none());
    assert!(DateTimeValue::new(2018, 6, 1, 23, 59, 60, 0).is_none());
    assert!(DateTimeValue::new(2018, 6, 1, 23, 59, 59, 1_000_000_000).is_none());
}
