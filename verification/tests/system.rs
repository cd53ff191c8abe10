use portonet::db_access::table_system::{
    check_master_password, get_system_counters, handle_master_password_ok, handle_attempt_failed, handle_attempt_ok,
    insert_default_row, is_system_locked, record_attempt, Attempt, SystemState,
    LOCK_AFTER_ATTEMPTS, LOCK_SECS,
};
use portonet::time::{shift, NANOS_PER_SEC};

const NOW: i128 = 1_725_000_000 * NANOS_PER_SEC;

#[test]
fn default_row_is_empty() {
    let s = insert_default_row();
    assert_eq!(s, SystemState { n_openings: 0, n_errors: 0, n_attempts: 0, last_attempt: None, locked_until: None });
    assert!(!is_system_locked(&s, NOW));
}

#[test]
fn success_counts_an_opening_and_unlocks() {
    let s = SystemState { n_openings: 4, n_errors: 9, n_attempts: 12, last_attempt: Some(5), locked_until: Some(NOW + 100) };
    assert!(is_system_locked(&s, NOW));
    let t = handle_attempt_ok(&s);
    assert_eq!(t, SystemState { n_openings: 5, n_errors: 9, n_attempts: 0, last_attempt: None, locked_until: None });
    assert!(!is_system_locked(&t, NOW));
}

#[test]
fn failure_counts_an_error() {
    let s = insert_default_row();
    let t = handle_attempt_failed(&s, NOW, true);
    assert_eq!(t, SystemState { n_openings: 0, n_errors: 1, n_attempts: 1, last_attempt: None, locked_until: None });
    let u = handle_attempt_failed(&t, NOW, false);
    assert_eq!(u, SystemState { n_openings: 0, n_errors: 2, n_attempts: 1, last_attempt: None, locked_until: None });
}

#[test]
fn failure_keeps_last_attempt() {
    let s = SystemState { n_openings: 0, n_errors: 0, n_attempts: 0, last_attempt: Some(77), locked_until: None };
    assert_eq!(handle_attempt_failed(&s, NOW, true).last_attempt, Some(77));
}

#[test]
fn lock_after_more_than_ten_counted_failures() {
    let mut s = insert_default_row();
    for k in 1..=LOCK_AFTER_ATTEMPTS {
        s = handle_attempt_failed(&s, NOW + k as i128, true);
        assert!(!is_system_locked(&s, NOW + k as i128), "after {k}");
        assert_eq!(s.locked_until, None);
    }
    let at = NOW + 1000;
    s = handle_attempt_failed(&s, at, true);
    assert_eq!(s.n_attempts, 11);
    assert_eq!(s.locked_until, Some(at + 900 * NANOS_PER_SEC));
    assert!(is_system_locked(&s, at));
    assert!(is_system_locked(&s, at + 900 * NANOS_PER_SEC - 1));
    assert!(!is_system_locked(&s, at + 900 * NANOS_PER_SEC));
    // Every further failure, counted or not, locks again from its own instant.
    let later = at + 2000 * NANOS_PER_SEC;
    let s2 = handle_attempt_failed(&s, later, false);
    assert_eq!(s2.locked_until, Some(later + LOCK_SECS as i128 * NANOS_PER_SEC));
}

#[test]
fn uncounted_failures_never_lock() {
    let mut s = insert_default_row();
    for k in 0..50 {
        s = handle_attempt_failed(&s, NOW + k, false);
    }
    assert_eq!(s.n_errors, 50);
    assert_eq!(s.n_attempts, 0);
    assert!(!is_system_locked(&s, NOW + 50));
}

#[test]
fn record_attempt_dispatches() {
    let s = insert_default_row();
    assert_eq!(record_attempt(&s, Attempt::Succeeded, NOW), handle_attempt_ok(&s));
    assert_eq!(record_attempt(&s, Attempt::Authorized, NOW), handle_master_password_ok(&s));
    assert_eq!(
        record_attempt(&s, Attempt::Failed { count_attempt: true }, NOW),
        handle_attempt_failed(&s, NOW, true)
    );
}

#[test]
fn counters_narrow_to_i32() {
    let s = SystemState { n_openings: 3, n_errors: (1i64 << 32) + 5, n_attempts: 0, last_attempt: None, locked_until: None };
    let c = get_system_counters(&s);
    assert_eq!(c.n_openings, 3);
    assert_eq!(c.n_errors, 5);
}

#[test]
fn master_password_compares_exactly() {
    let configured = String::from("s3cret");
    assert!(check_master_password(&configured, &String::from("s3cret")));
    assert!(!check_master_password(&configured, &String::from("s3cret ")));
    assert!(!check_master_password(&configured, &String::from("S3cret")));
    assert!(!check_master_password(&configured, &String::new()));
}

#[test]
fn shift_adds_seconds() {
    assert_eq!(shift(NOW, 900), NOW + 900 * NANOS_PER_SEC);
    assert_eq!(shift(NOW, -1), NOW - NANOS_PER_SEC);
}

#[test]
fn master_password_unlocks_without_counting_an_opening() {
    let s = SystemState { n_openings: 4, n_errors: 12, n_attempts: 11, last_attempt: Some(5), locked_until: Some(NOW + 100) };
    assert!(is_system_locked(&s, NOW));
    let t = handle_master_password_ok(&s);
    assert_eq!(t, SystemState { n_openings: 4, n_errors: 12, n_attempts: 0, last_attempt: None, locked_until: None });
    assert!(!is_system_locked(&t, NOW));
    assert_eq!(get_system_counters(&t).n_openings, 4);
}

#[test]
fn counters_never_decrease() {
    let mut s = insert_default_row();
    let attempts = [
        Attempt::Failed { count_attempt: true },
        Attempt::Authorized,
        Attempt::Succeeded,
        Attempt::Failed { count_attempt: false },
        Attempt::Authorized,
    ];
    for (i, a) in attempts.into_iter().enumerate() {
        let next = record_attempt(&s, a, NOW + i as i128);
        assert!(next.n_openings >= s.n_openings && next.n_errors >= s.n_errors);
        s = next;
    }
    assert_eq!((s.n_openings, s.n_errors), (1, 2));
}
