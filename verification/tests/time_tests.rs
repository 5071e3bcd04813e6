use sales_backup::time::{local_now, timestamp_from_clock_fields, Timestamp};

#[test]
fn timestamp_new_accepts_calendar_values() {
    let t = Timestamp::new(2024, 3, 5, 9, 2, 11).unwrap();
    assert_eq!(t.year, 2024);
    assert_eq!(t.month, 3);
    assert_eq!(t.day, 5);
    assert_eq!(t.hour, 9);
    assert_eq!(t.minute, 2);
    assert_eq!(t.second, 11);
    assert!(t.is_wf());
}

#[test]
fn timestamp_new_rejects_out_of_range_fields() {
    assert!(Timestamp::new(10000, 1, 1, 0, 0, 0).is_none());
    assert!(Timestamp::new(2024, 0, 1, 0, 0, 0).is_none());
    assert!(Timestamp::new(2024, 13, 1, 0, 0, 0).is_none());
    assert!(Timestamp::new(2024, 1, 0, 0, 0, 0).is_none());
    assert!(Timestamp::new(2024, 1, 32, 0, 0, 0).is_none());
    assert!(Timestamp::new(2024, 1, 1, 24, 0, 0).is_none());
    assert!(Timestamp::new(2024, 1, 1, 0, 60, 0).is_none());
    assert!(Timestamp::new(2024, 1, 1, 0, 0, 60).is_none());
}

#[test]
fn timestamp_token_is_zero_padded() {
    let t = Timestamp::new(987, 1, 2, 3, 4, 5).unwrap();
    assert_eq!(sales_backup::time::timestamp_token(&t), "09870102_030405");
}

#[test]
fn timestamp_token_renders_each_field() {
    let t = Timestamp::new(2024, 12, 31, 23, 59, 58).unwrap();
    assert_eq!(sales_backup::time::timestamp_token(&t), "20241231_235958");
}

#[test]
fn display_time_is_hours_and_minutes() {
    let t = Timestamp::new(2024, 3, 5, 14, 7, 33).unwrap();
    assert_eq!(sales_backup::time::display_time(&t), "14:07");
}

#[test]
fn display_time_is_zero_padded() {
    let t = Timestamp::new(2024, 3, 5, 9, 5, 0).unwrap();
    assert_eq!(sales_backup::time::display_time(&t), "09:05");
}

#[test]
fn local_now_reads_a_renderable_time() {
    // On a host whose clock the library can render, the reading is
    // well-formed; a host it cannot render yields no reading at all.
    match local_now() {
        Some(t) => {
            assert!(t.is_wf());
            assert!(t.year <= 9999);
            assert!((1..=12).contains(&t.month));
            assert!((1..=31).contains(&t.day));
            assert!(t.hour <= 23);
            assert!(t.minute <= 59);
            assert!(t.second <= 59);
        }
        None => {}
    }
}

#[test]
fn clock_fields_accept_exactly_renderable_values() {
    assert!(timestamp_from_clock_fields(-1, 1, 1, 0, 0, 0).is_none());
    assert!(timestamp_from_clock_fields(10000, 1, 1, 0, 0, 0).is_none());
    assert!(timestamp_from_clock_fields(2024, 13, 1, 0, 0, 0).is_none());
    let t = timestamp_from_clock_fields(2024, 3, 5, 9, 2, 11).unwrap();
    assert_eq!(t, Timestamp::new(2024, 3, 5, 9, 2, 11).unwrap());
}
