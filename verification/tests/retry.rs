use ferro_protect::retry::{
    is_transient, parse_u64, shift_factor, AttemptOutcome, RetryAfterAwareMiddleware, RetryLoop,
    RetryStep, TransportFailure,
};
use ferro_protect::time::Duration;

fn mw(max_retries: u32) -> RetryAfterAwareMiddleware {
    RetryAfterAwareMiddleware {
        max_retries,
        initial_backoff: Duration::from_millis(100),
        max_backoff: Duration::from_secs(2),
    }
}

fn response(status: u16, retry_after: Option<&str>) -> AttemptOutcome {
    AttemptOutcome::Response { status, retry_after: retry_after.map(|s| s.to_string()) }
}

fn failure(from_client: bool, timeout: bool, connect: bool, status: Option<u16>) -> TransportFailure {
    TransportFailure { from_client, timeout, connect, status }
}

#[test]
fn backoff_grows_exponentially_under_cap() {
    let m = mw(10);
    let d0 = m.backoff_for(0);
    let d1 = m.backoff_for(1);
    let d4 = m.backoff_for(4);
    let d6 = m.backoff_for(6);
    assert!(d0 >= Duration::from_millis(100) && d0 < Duration::from_millis(200));
    assert!(d1 >= Duration::from_millis(200) && d1 < Duration::from_millis(300));
    assert!(d4 >= Duration::from_millis(1600) && d4 < Duration::from_millis(1700));
    assert!(d6 >= Duration::from_secs(2) && d6 < Duration::from_millis(2100));
}

#[test]
fn backoff_with_fixed_jitter_is_exact() {
    let m = mw(10);
    assert_eq!(m.backoff_with_jitter(0, 0), Duration::from_millis(100));
    assert_eq!(m.backoff_with_jitter(3, 7), Duration::from_millis(807));
    assert_eq!(m.backoff_with_jitter(6, 99), Duration::from_millis(2099));
    assert_eq!(m.backoff_with_jitter(40, 0), Duration::from_secs(2));
}

#[test]
fn shift_factor_saturates() {
    assert_eq!(shift_factor(0), 1);
    assert_eq!(shift_factor(5), 32);
    assert_eq!(shift_factor(31), 1 << 31);
    assert_eq!(shift_factor(32), u32::MAX);
    assert_eq!(shift_factor(1000), u32::MAX);
}

#[test]
fn retry_after_is_honoured_and_capped() {
    let m = mw(3);
    assert_eq!(m.decide_retry(&response(429, Some("1")), 0), Some(Duration::from_secs(1)));
    assert_eq!(m.decide_retry(&response(429, Some(" 1 ")), 0), Some(Duration::from_secs(1)));
    assert_eq!(m.decide_retry(&response(429, Some("30")), 0), Some(Duration::from_secs(2)));
}

#[test]
fn unparseable_retry_after_falls_back_to_backoff() {
    let m = mw(3);
    let d = m.decide_retry(&response(429, Some("Wed, 21 Oct 2026 07:28:00 GMT")), 1).unwrap();
    assert!(d >= Duration::from_millis(200) && d < Duration::from_millis(300));
    assert_eq!(
        m.decide_retry_with_jitter(&response(429, None), 2, 5),
        Some(Duration::from_millis(405))
    );
}

#[test]
fn server_errors_and_408_back_off_other_statuses_stop() {
    let m = mw(3);
    assert_eq!(m.decide_retry_with_jitter(&response(503, None), 0, 0), Some(Duration::from_millis(100)));
    assert_eq!(m.decide_retry_with_jitter(&response(408, None), 1, 0), Some(Duration::from_millis(200)));
    assert_eq!(m.decide_retry(&response(200, None), 0), None);
    assert_eq!(m.decide_retry(&response(404, None), 0), None);
    assert_eq!(m.decide_retry(&response(400, Some("1")), 0), None);
}

#[test]
fn budget_exhaustion_stops() {
    let m = mw(2);
    assert_eq!(m.decide_retry(&response(429, Some("1")), 2), None);
    assert_eq!(m.decide_retry(&response(503, None), 5), None);
    assert_eq!(mw(0).decide_retry(&response(503, None), 0), None);
}

#[test]
fn transient_failures() {
    assert!(is_transient(&failure(true, true, false, None)));
    assert!(is_transient(&failure(true, false, true, None)));
    assert!(is_transient(&failure(true, false, false, Some(502))));
    assert!(is_transient(&failure(true, false, false, Some(429))));
    assert!(is_transient(&failure(true, false, false, Some(408))));
    assert!(!is_transient(&failure(true, false, false, Some(404))));
    assert!(!is_transient(&failure(true, false, false, None)));
    assert!(!is_transient(&failure(false, true, true, Some(500))));
    let m = mw(3);
    assert_eq!(
        m.decide_retry_with_jitter(&AttemptOutcome::Failure(failure(true, true, false, None)), 0, 1),
        Some(Duration::from_millis(101))
    );
    assert_eq!(m.decide_retry(&AttemptOutcome::Failure(failure(false, true, false, None)), 0), None);
}

#[test]
fn parse_u64_cases() {
    assert_eq!(parse_u64("0"), Some(0));
    assert_eq!(parse_u64("42"), Some(42));
    assert_eq!(parse_u64("+7"), Some(7));
    assert_eq!(parse_u64("18446744073709551615"), Some(u64::MAX));
    assert_eq!(parse_u64("18446744073709551616"), None);
    assert_eq!(parse_u64(""), None);
    assert_eq!(parse_u64("+"), None);
    assert_eq!(parse_u64("-1"), None);
    assert_eq!(parse_u64(" 1"), None);
    assert_eq!(parse_u64("1a"), None);
}

#[test]
fn retry_loop_retries_at_most_max_retries() {
    let m = mw(2);
    let mut l = RetryLoop::new();
    let busy = response(429, Some("1"));
    let mut sent = 1;
    loop {
        match l.step(&m, &busy) {
            RetryStep::Return => break,
            RetryStep::SleepThenRetry(d) => {
                assert_eq!(d, Duration::from_secs(1));
                sent += 1;
            }
        }
    }
    assert_eq!(l.attempt(), 2);
    assert_eq!(sent, 3);
}

#[test]
fn retry_loop_returns_success_at_once() {
    let m = mw(3);
    let mut l = RetryLoop::new();
    assert!(matches!(l.step(&m, &response(200, None)), RetryStep::Return));
    assert_eq!(l.attempt(), 0);
}

#[test]
fn jitter_fits_for_ordinary_policies() {
    let m = mw(3);
    assert!(m.jitter_fits_at(0));
    assert!(m.jitter_fits_at(64));
    let huge = RetryAfterAwareMiddleware {
        max_retries: 3,
        initial_backoff: Duration::max_value(),
        max_backoff: Duration::max_value(),
    };
    assert!(!huge.jitter_fits_at(0));
}
