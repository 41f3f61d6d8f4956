use task_tracker::clock::{default_due_at, shifted_reading, Timestamp, SECONDS_PER_DAY};

#[test]
fn a_day_has_86400_seconds() {
    assert_eq!(SECONDS_PER_DAY, 86_400);
}

#[test]
fn reading_zero_is_the_start_of_1970() {
    let epoch = Timestamp::at(0).unwrap();
    assert_eq!(epoch.seconds(), 0);
    assert_eq!(epoch.text(), "1970-01-01 00:00:00");
}

#[test]
fn text_has_date_and_time_of_day() {
    assert_eq!(Timestamp::at(1_700_000_000).unwrap().text(), "2023-11-14 22:13:20");
    assert_eq!(Timestamp::at(1_737_711_000).unwrap().text(), "2025-01-24 09:30:00");
    assert_eq!(Timestamp::at(-1).unwrap().text(), "1969-12-31 23:59:59");
    assert_eq!(Timestamp::at(253_402_300_799).unwrap().text(), "9999-12-31 23:59:59");
}

#[test]
fn years_beyond_four_digits_are_written_with_a_sign() {
    assert_eq!(Timestamp::at(253_402_300_800).unwrap().text(), "+10000-01-01 00:00:00");
    assert_eq!(Timestamp::at(-62_167_219_201).unwrap().text(), "-0001-12-31 23:59:59");
    assert_eq!(Timestamp::at(-62_167_219_200).unwrap().text(), "0000-01-01 00:00:00");
}

#[test]
fn readings_beyond_the_calendar_have_no_text() {
    assert!(Timestamp::at(i64::MAX).is_none());
    assert!(Timestamp::at(i64::MIN).is_none());
    assert!(Timestamp::at(8_210_266_876_799).is_some());
    assert!(Timestamp::at(8_210_266_876_800).is_none());
}

#[test]
fn shifted_reading_adds_whole_days() {
    assert_eq!(shifted_reading(0, 30), Some(2_592_000));
    assert_eq!(shifted_reading(1_737_711_000, 30), Some(1_740_303_000));
    assert_eq!(shifted_reading(100, 0), Some(100));
    assert_eq!(shifted_reading(100, -1), Some(100 - 86_400));
    assert_eq!(shifted_reading(i64::MAX, 0), Some(i64::MAX));
    assert_eq!(shifted_reading(i64::MAX, 1), None);
    assert_eq!(shifted_reading(i64::MIN, -1), None);
    assert_eq!(shifted_reading(0, i64::MAX), None);
    assert_eq!(shifted_reading(0, i64::MIN), None);
    assert_eq!(shifted_reading(-86_400, 106_751_991_167_300), Some(9_223_372_036_854_633_600));
    assert_eq!(shifted_reading(i64::MIN, 106_751_991_167_301), Some(30_592));
}

#[test]
fn after_days_moves_the_date_and_keeps_the_time_of_day() {
    let now = Timestamp::at(1_737_711_000).unwrap();
    let due = now.after_days(30).unwrap();
    assert_eq!(due.seconds(), 1_737_711_000 + 30 * 86_400);
    assert_eq!(due.text(), "2025-02-23 09:30:00");
    assert_eq!(now.after_days(0).unwrap().text(), "2025-01-24 09:30:00");
    assert_eq!(now.after_days(-24).unwrap().text(), "2024-12-31 09:30:00");
    assert_eq!(now.after_days(365).unwrap().text(), "2026-01-24 09:30:00");
}

#[test]
fn after_days_crosses_a_leap_day() {
    let now = Timestamp::at(1_709_078_400).unwrap();
    assert_eq!(now.text(), "2024-02-28 00:00:00");
    assert_eq!(now.after_days(1).unwrap().text(), "2024-02-29 00:00:00");
    assert_eq!(now.after_days(2).unwrap().text(), "2024-03-01 00:00:00");
}

#[test]
fn after_days_beyond_the_calendar_is_none() {
    let now = Timestamp::at(1_737_711_000).unwrap();
    assert!(now.after_days(i64::MAX).is_none());
    assert!(now.after_days(i64::MIN).is_none());
    assert!(now.after_days(100_000_000).is_none());
    let last = Timestamp::at(8_210_266_876_799).unwrap();
    assert!(last.after_days(1).is_none());
    assert!(last.after_days(0).is_some());
}

#[test]
fn default_due_date_is_the_text_of_the_later_reading() {
    let now = Timestamp::at(1_737_711_000).unwrap();
    assert_eq!(default_due_at(&now, 30).as_deref(), Some("2025-02-23 09:30:00"));
    assert_eq!(default_due_at(&now, 7).as_deref(), Some("2025-01-31 09:30:00"));
    assert_eq!(default_due_at(&now, -1).as_deref(), Some("2025-01-23 09:30:00"));
    assert_eq!(default_due_at(&now, i64::MAX), None);
}
