use z8_timer::idle::{
    idle_event, IdleMonitor, CHECK_INTERVAL_SECS, IDLE_THRESHOLD_MS, IDLE_THRESHOLD_SECS,
};
use z8_timer::instant::{normalize_rfc3339, written_or_out_of_range, UtcInstant};

const NOON: UtcInstant = UtcInstant { secs: 1_705_320_000, nanos: 0 };

#[test]
fn the_threshold_is_five_minutes() {
    assert_eq!(IDLE_THRESHOLD_SECS, 300);
    assert_eq!(IDLE_THRESHOLD_MS, 300_000);
    assert_eq!(CHECK_INTERVAL_SECS, 10);
}

#[test]
fn a_period_begins_at_the_last_input() {
    let mut monitor = IdleMonitor::new();
    assert_eq!(monitor.observe(299_999, 0, true), None);
    assert_eq!(monitor.idle_since, None);
    assert_eq!(monitor.observe(300_000, 0, true), None);
    assert_eq!(monitor.idle_since, Some(0));
    assert_eq!(monitor.observe(310_000, 0, true), None);
    assert_eq!(monitor.idle_since, Some(0));
}

#[test]
fn coming_back_ends_the_period_with_its_length() {
    let mut monitor = IdleMonitor::new();
    assert_eq!(monitor.observe(1_000_000, 600_000, true), None);
    assert_eq!(monitor.idle_since, Some(600_000));
    assert_eq!(monitor.observe(1_010_000, 1_005_000, true), Some(410_000));
    assert_eq!(monitor.idle_since, None);
    assert_eq!(monitor.observe(1_020_000, 1_005_000, true), None);
}

#[test]
fn clocking_out_ends_the_period_in_silence() {
    let mut monitor = IdleMonitor::new();
    monitor.observe(400_000, 0, true);
    assert_eq!(monitor.idle_since, Some(0));
    assert_eq!(monitor.observe(410_000, 0, false), None);
    assert_eq!(monitor.idle_since, None);
    assert_eq!(monitor.observe(420_000, 415_000, true), None);
}

#[test]
fn a_user_who_is_clocked_out_is_never_idle() {
    let mut monitor = IdleMonitor::new();
    assert_eq!(monitor.observe(900_000, 0, false), None);
    assert_eq!(monitor.idle_since, None);
    assert_eq!(monitor.observe(910_000, 905_000, false), None);
}

#[test]
fn an_input_read_as_later_than_now_is_no_idleness() {
    let mut monitor = IdleMonitor::new();
    assert_eq!(monitor.observe(10, 400_000, true), None);
    assert_eq!(monitor.idle_since, None);
    let mut running = IdleMonitor { idle_since: Some(500) };
    assert_eq!(running.observe(100, 90, true), Some(0));
}

#[test]
fn the_event_names_the_start_of_the_period() {
    let event = idle_event(NOON, 600_000).expect("the start can be written");
    assert_eq!(event.idle_start_time, "2024-01-15T11:50:00+00:00");
    assert_eq!(event.idle_duration_ms, 600_000);
    let event = idle_event(UtcInstant { secs: 1_705_320_000, nanos: 250_000_000 }, 1_500).unwrap();
    assert_eq!(event.idle_start_time, "2024-01-15T11:59:58.750+00:00");
    assert_eq!(event.idle_duration_ms, 1_500);
    let event = idle_event(NOON, 0).unwrap();
    assert_eq!(event.idle_start_time, "2024-01-15T12:00:00+00:00");
}

#[test]
fn a_start_that_no_date_stands_for_gives_no_event() {
    assert!(idle_event(UtcInstant { secs: i64::MIN, nanos: 0 }, 1).is_none());
    assert!(idle_event(NOON, u64::MAX).is_none());
}

#[test]
fn a_check_reports_the_return() {
    let mut monitor = IdleMonitor::new();
    assert!(monitor.check(1_000_000, 600_000, true, NOON).is_none());
    let later = UtcInstant { secs: NOON.secs + 10, nanos: 0 };
    let event = monitor.check(1_010_000, 1_005_000, true, later).expect("the user is back");
    assert_eq!(event.idle_duration_ms, 410_000);
    assert_eq!(event.idle_start_time, "2024-01-15T11:53:20+00:00");
    assert_eq!(monitor.idle_since, None);
    assert!(monitor.check(1_020_000, 1_015_000, true, later).is_none());
}

#[test]
fn minus_millis_borrows_from_the_seconds() {
    let at = UtcInstant { secs: 10, nanos: 5 };
    assert_eq!(at.minus_millis(0), Some(at));
    assert_eq!(at.minus_millis(1), Some(UtcInstant { secs: 9, nanos: 999_000_005 }));
    assert_eq!(at.minus_millis(1_000), Some(UtcInstant { secs: 9, nanos: 5 }));
    assert_eq!(at.minus_millis(10_001), Some(UtcInstant { secs: -1, nanos: 999_000_005 }));
    let leap = UtcInstant { secs: 59, nanos: 1_500_000_000 };
    assert_eq!(leap.minus_millis(250), Some(UtcInstant { secs: 60, nanos: 250_000_000 }));
}

#[test]
fn minus_millis_stays_in_range() {
    let first = UtcInstant { secs: i64::MIN, nanos: 0 };
    assert_eq!(first.minus_millis(1), None);
    assert_eq!(first.minus_millis(0), Some(first));
    let last = UtcInstant { secs: i64::MAX, nanos: 3_000_000_000 };
    assert_eq!(last.minus_millis(0), None);
    assert_eq!(last.minus_millis(3_000), Some(UtcInstant { secs: i64::MAX, nanos: 0 }));
    let wide = UtcInstant { secs: 0, nanos: 0 };
    assert_eq!(
        wide.minus_millis(u64::MAX),
        Some(UtcInstant { secs: -18_446_744_073_709_552, nanos: 385_000_000 })
    );
}

#[test]
fn dates_are_rewritten_in_utc() {
    assert_eq!(
        normalize_rfc3339("2024-01-15T10:30:00+02:00"),
        Ok("2024-01-15T08:30:00+00:00".to_string())
    );
    assert_eq!(
        normalize_rfc3339("1996-12-19T16:39:57-08:00"),
        Ok("1996-12-20T00:39:57+00:00".to_string())
    );
    assert_eq!(
        normalize_rfc3339("2024-01-15T10:30:00.5Z"),
        Ok("2024-01-15T10:30:00.500+00:00".to_string())
    );
}

#[test]
fn a_text_that_is_no_date_is_refused_with_the_reason() {
    assert_eq!(normalize_rfc3339("2024-01-15"), Err("premature end of input".to_string()));
    assert_eq!(normalize_rfc3339(""), Err("premature end of input".to_string()));
    assert_eq!(normalize_rfc3339("yesterday"), Err("premature end of input".to_string()));
    assert_eq!(
        normalize_rfc3339("2024-02-30T10:30:00Z"),
        Err("input is out of range".to_string())
    );
    assert_eq!(
        normalize_rfc3339("2024-01-15 at half past ten"),
        Err("input contains invalid characters".to_string())
    );
    assert_eq!(
        normalize_rfc3339("2024-01-15T10:30:00Z and more"),
        Err("trailing input".to_string())
    );
}

#[test]
fn a_point_without_a_text_is_out_of_range() {
    assert_eq!(
        written_or_out_of_range(Some("2024-01-15T08:30:00+00:00".to_string())),
        Ok("2024-01-15T08:30:00+00:00".to_string())
    );
    assert_eq!(written_or_out_of_range(None), Err("date is out of range".to_string()));
}
