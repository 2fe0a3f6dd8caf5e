use terroir_api::errors::ApiError;
use terroir_api::ratelimit::{
    check_rate_limit, count_recent, EndpointKind, SubmissionAttempt, RATE_LIMIT_MAX_SUBMISSIONS,
    RATE_LIMIT_WINDOW_MINUTES,
};

const MINUTE: i64 = 60_000;

fn attempt(email: &str, kind: EndpointKind, at_ms: i64) -> SubmissionAttempt {
    SubmissionAttempt { email: email.to_string(), kind, at_ms }
}

#[test]
fn limit_is_three_per_hour() {
    assert_eq!(RATE_LIMIT_MAX_SUBMISSIONS, 3);
    assert_eq!(RATE_LIMIT_WINDOW_MINUTES, 60);
}

#[test]
fn fewer_than_three_are_accepted() {
    assert_eq!(check_rate_limit(0), Ok(()));
    assert_eq!(check_rate_limit(1), Ok(()));
    assert_eq!(check_rate_limit(2), Ok(()));
    assert_eq!(check_rate_limit(-1), Ok(()));
    assert_eq!(check_rate_limit(i64::MIN), Ok(()));
}

#[test]
fn three_or_more_are_refused() {
    assert_eq!(check_rate_limit(3), Err(ApiError::RateLimited));
    assert_eq!(check_rate_limit(4), Err(ApiError::RateLimited));
    assert_eq!(check_rate_limit(i64::MAX), Err(ApiError::RateLimited));
}

#[test]
fn count_takes_sender_endpoint_and_window_into_account() {
    let now = 100 * MINUTE;
    let log = vec![
        attempt("a@x.example", EndpointKind::Contact, now - 10 * MINUTE),
        attempt("b@x.example", EndpointKind::Contact, now - 10 * MINUTE),
        attempt("a@x.example", EndpointKind::Waitlist, now - 10 * MINUTE),
        attempt("a@x.example", EndpointKind::Contact, now - 61 * MINUTE),
        attempt("a@x.example", EndpointKind::Contact, now - 59 * MINUTE),
        attempt("A@x.example", EndpointKind::Contact, now - MINUTE),
    ];
    let a = "a@x.example".to_string();
    assert_eq!(count_recent(&log, &a, EndpointKind::Contact, now, 60), 2);
    assert_eq!(count_recent(&log, &a, EndpointKind::Waitlist, now, 60), 1);
    assert_eq!(count_recent(&log, &"b@x.example".to_string(), EndpointKind::Contact, now, 60), 1);
    assert_eq!(count_recent(&log, &"c@x.example".to_string(), EndpointKind::Contact, now, 60), 0);
    assert_eq!(count_recent(&log, &a, EndpointKind::Contact, now, 120), 3);
    assert_eq!(count_recent(&log, &a, EndpointKind::Contact, now, 5), 0);
    assert_eq!(count_recent(&Vec::new(), &a, EndpointKind::Contact, now, 60), 0);
}

#[test]
fn attempt_exactly_one_window_old_no_longer_counts() {
    let now = 1_000 * MINUTE;
    let a = "a@x.example".to_string();
    let edge = vec![attempt("a@x.example", EndpointKind::Contact, now - 60 * MINUTE)];
    assert_eq!(count_recent(&edge, &a, EndpointKind::Contact, now, 60), 0);
    let inside = vec![attempt("a@x.example", EndpointKind::Contact, now - 60 * MINUTE + 1)];
    assert_eq!(count_recent(&inside, &a, EndpointKind::Contact, now, 60), 1);
}

#[test]
fn count_does_not_overflow_at_the_ends_of_time() {
    let a = "a@x.example".to_string();
    let log = vec![
        attempt("a@x.example", EndpointKind::Contact, i64::MIN),
        attempt("a@x.example", EndpointKind::Contact, i64::MAX),
    ];
    // The first lies far in the past; the second in the future, which is
    // less than a window ago.
    assert_eq!(count_recent(&log, &a, EndpointKind::Contact, 0, 60), 1);
    assert_eq!(count_recent(&log, &a, EndpointKind::Contact, i64::MAX, i64::MAX), 2);
    assert_eq!(count_recent(&log, &a, EndpointKind::Contact, i64::MIN, i64::MIN), 0);
    assert_eq!(count_recent(&log, &a, EndpointKind::Contact, 0, 0), 1);
}

#[test]
fn fourth_contact_within_an_hour_is_refused_and_a_later_one_accepted() {
    let a = "a@x.example".to_string();
    let start = 500 * MINUTE;
    let mut log: Vec<SubmissionAttempt> = Vec::new();
    for k in 0..3 {
        let now = start + k * 10 * MINUTE;
        let recent = count_recent(&log, &a, EndpointKind::Contact, now, RATE_LIMIT_WINDOW_MINUTES);
        assert_eq!(check_rate_limit(recent as i64), Ok(()));
        log.push(attempt("a@x.example", EndpointKind::Contact, now));
    }
    // The fourth, still inside the hour of the first.
    let now = start + 45 * MINUTE;
    let recent = count_recent(&log, &a, EndpointKind::Contact, now, RATE_LIMIT_WINDOW_MINUTES);
    assert_eq!(recent, 3);
    assert_eq!(check_rate_limit(recent as i64), Err(ApiError::RateLimited));
    // Another sender is not held back.
    let other = count_recent(&log, &"b@x.example".to_string(), EndpointKind::Contact, now, 60);
    assert_eq!(check_rate_limit(other as i64), Ok(()));
    // An hour after the first, that one has left the window.
    let now = start + 60 * MINUTE;
    let recent = count_recent(&log, &a, EndpointKind::Contact, now, RATE_LIMIT_WINDOW_MINUTES);
    assert_eq!(recent, 2);
    assert_eq!(check_rate_limit(recent as i64), Ok(()));
    // Long after, none counts.
    let now = start + 600 * MINUTE;
    let recent = count_recent(&log, &a, EndpointKind::Contact, now, RATE_LIMIT_WINDOW_MINUTES);
    assert_eq!(recent, 0);
    assert_eq!(check_rate_limit(recent as i64), Ok(()));
}
