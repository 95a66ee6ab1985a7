use focusbot::session::FocusSession;

fn ten_minutes_from_100() -> FocusSession {
    FocusSession { owner: 7, started_at: 100, duration_secs: 600 }
}

#[test]
fn active_two_minutes_in() {
    let s = ten_minutes_from_100();
    assert!(s.is_active_violation(100 + 120));
}

#[test]
fn active_just_before_expiry() {
    let s = ten_minutes_from_100();
    assert!(s.is_active_violation(699));
}

#[test]
fn inactive_exactly_at_expiry() {
    // The boundary is non-strict: at started_at + duration the session is
    // already over.
    let s = ten_minutes_from_100();
    assert!(!s.is_active_violation(700));
}

#[test]
fn inactive_after_expiry() {
    let s = ten_minutes_from_100();
    assert!(!s.is_active_violation(100 + 660));
}

#[test]
fn active_before_start() {
    let s = ten_minutes_from_100();
    assert!(s.is_active_violation(50));
}

#[test]
fn remaining_counts_down_to_zero() {
    let s = ten_minutes_from_100();
    assert_eq!(s.remaining_as_of(100), 600);
    assert_eq!(s.remaining_as_of(400), 300);
    assert_eq!(s.remaining_as_of(700), 0);
    assert_eq!(s.remaining_as_of(10_000), 0);
}

#[test]
fn finish_time_is_start_plus_duration() {
    let s = ten_minutes_from_100();
    assert_eq!(s.finish_time(), 700);
}
