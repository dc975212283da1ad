use brewdeck::error::{
    after_fallback, after_primary, retry_step, BrewDeckError, BrewDeckResult, ErrorKind,
    ErrorRecovery, FallbackDecision, IoFailureKind, RetryDecision, TransportFailure,
    MAX_BACKOFF_MS,
};

fn failing(message: &str) -> Result<u32, BrewDeckError> {
    Err(BrewDeckError::NetworkError(message.to_string()))
}

/// Runs an operation that always fails and returns the delays and the
/// number of attempts.
fn run_always_failing(mut policy: ErrorRecovery) -> (Vec<u64>, u32, BrewDeckError) {
    let mut delays = Vec::new();
    let mut attempts = 0;
    loop {
        attempts += 1;
        match retry_step(&mut policy, failing(&format!("attempt {attempts}"))) {
            RetryDecision::Finished(Err(e)) => return (delays, attempts, e),
            RetryDecision::Finished(Ok(_)) => unreachable!(),
            RetryDecision::RetryAfter { delay_ms, .. } => delays.push(delay_ms),
        }
    }
}

#[test]
fn new_policy_has_documented_defaults() {
    let p = ErrorRecovery::new();
    assert!(p.can_retry);
    assert_eq!(p.retry_count, 0);
    assert_eq!(p.max_retries, 3);
    assert_eq!(p.backoff_ms, 1000);
    assert!(!p.fallback_available);
}

#[test]
fn builders_change_one_field() {
    let p = ErrorRecovery::new().with_max_retries(7).with_backoff(250).with_fallback();
    assert_eq!(p.max_retries, 7);
    assert_eq!(p.backoff_ms, 250);
    assert!(p.fallback_available);
    assert!(p.can_retry);
    let q = p.no_retry();
    assert!(!q.can_retry);
    assert_eq!(q.max_retries, 0);
    assert!(!q.should_retry());
}

#[test]
fn should_retry_needs_both_conditions() {
    let mut p = ErrorRecovery::new().with_max_retries(1);
    assert!(p.should_retry());
    p.increment_retry();
    assert_eq!(p.retry_count, 1);
    assert!(!p.should_retry());
    let mut off = ErrorRecovery::new();
    off.can_retry = false;
    assert!(!off.should_retry());
}

#[test]
fn increment_retry_stops_at_the_largest_count() {
    let mut p = ErrorRecovery::new();
    p.retry_count = u32::MAX;
    p.increment_retry();
    assert_eq!(p.retry_count, u32::MAX);
}

#[test]
fn backoff_doubles_per_retry() {
    let mut p = ErrorRecovery::new().with_backoff(1000);
    assert_eq!(p.get_backoff_duration(), 1000);
    p.retry_count = 1;
    assert_eq!(p.get_backoff_duration(), 2000);
    p.retry_count = 2;
    assert_eq!(p.get_backoff_duration(), 4000);
    p.retry_count = 4;
    assert_eq!(p.get_backoff_duration(), 16000);
}

#[test]
fn backoff_is_capped_at_thirty_seconds() {
    let mut p = ErrorRecovery::new().with_backoff(1000);
    p.retry_count = 5;
    assert_eq!(p.get_backoff_duration(), 30000);
    p.retry_count = 64;
    assert_eq!(p.get_backoff_duration(), 30000);
    p.retry_count = u32::MAX;
    assert_eq!(p.get_backoff_duration(), MAX_BACKOFF_MS);
    let big = ErrorRecovery::new().with_backoff(u64::MAX);
    assert_eq!(big.get_backoff_duration(), 30000);
    let exact = ErrorRecovery::new().with_backoff(30000);
    assert_eq!(exact.get_backoff_duration(), 30000);
}

#[test]
fn backoff_of_zero_base_is_zero() {
    let mut p = ErrorRecovery::new().with_backoff(0);
    p.retry_count = 40;
    assert_eq!(p.get_backoff_duration(), 0);
}

#[test]
fn always_failing_operation_is_attempted_four_times() {
    let policy = ErrorRecovery::new().with_max_retries(3).with_backoff(1000);
    let (delays, attempts, last) = run_always_failing(policy);
    assert_eq!(attempts, 4);
    assert_eq!(delays, vec![1000, 2000, 4000]);
    assert_eq!(last.kind(), ErrorKind::NetworkError);
    assert_eq!(last.message(), "attempt 4");
}

#[test]
fn long_retry_runs_are_capped() {
    let policy = ErrorRecovery::new().with_max_retries(8).with_backoff(5000);
    let (delays, attempts, _) = run_always_failing(policy);
    assert_eq!(attempts, 9);
    assert_eq!(delays, vec![5000, 10000, 20000, 30000, 30000, 30000, 30000, 30000]);
}

#[test]
fn no_retry_policy_attempts_once() {
    let (delays, attempts, _) = run_always_failing(ErrorRecovery::new().no_retry());
    assert_eq!(attempts, 1);
    assert!(delays.is_empty());
}

#[test]
fn success_ends_the_retry_loop() {
    let mut policy = ErrorRecovery::new();
    match retry_step(&mut policy, Ok::<u32, BrewDeckError>(7)) {
        RetryDecision::Finished(Ok(v)) => assert_eq!(v, 7),
        _ => panic!("a success must finish"),
    }
    assert_eq!(policy.retry_count, 0);
}

#[test]
fn retry_counts_before_the_next_attempt() {
    let mut policy = ErrorRecovery::new();
    match retry_step(&mut policy, failing("x")) {
        RetryDecision::RetryAfter { delay_ms, error } => {
            assert_eq!(delay_ms, 1000);
            assert_eq!(error.message(), "x");
        }
        _ => panic!("a first failure must be retried"),
    }
    assert_eq!(policy.retry_count, 1);
}

#[test]
fn fallback_failure_returns_the_primary_error() {
    let a = BrewDeckError::NetworkError("A".to_string());
    let b = BrewDeckError::CommandExecutionFailed("B".to_string());
    let primary: Result<u32, BrewDeckError> = Err(a);
    let primary_error = match after_primary(primary) {
        FallbackDecision::TryFallback(e) => e,
        FallbackDecision::Finished(_) => panic!("a failure must ask for the fallback"),
    };
    let r: Result<u32, BrewDeckError> = after_fallback(primary_error, Err(b));
    let e = r.unwrap_err();
    assert_eq!(e.kind(), ErrorKind::NetworkError);
    assert_eq!(e.message(), "A");
}

#[test]
fn fallback_success_returns_the_fallback_value() {
    let a = BrewDeckError::TimeoutError("A".to_string());
    let r = after_fallback(a, Ok::<u32, BrewDeckError>(5));
    assert_eq!(r.unwrap(), 5);
}

#[test]
fn primary_success_needs_no_fallback() {
    match after_primary(Ok::<u32, BrewDeckError>(3)) {
        FallbackDecision::Finished(v) => assert_eq!(v, 3),
        FallbackDecision::TryFallback(_) => panic!("a success must finish"),
    }
}

#[test]
fn describe_puts_the_kind_before_the_message() {
    let cases = [
        (ErrorKind::HomebrewNotFound, "Homebrew not found: m"),
        (ErrorKind::PackageNotFound, "Package not found: m"),
        (ErrorKind::InstallationFailed, "Installation failed: m"),
        (ErrorKind::UninstallationFailed, "Uninstallation failed: m"),
        (ErrorKind::UpdateFailed, "Update failed: m"),
        (ErrorKind::NetworkError, "Network error: m"),
        (ErrorKind::CacheError, "Cache error: m"),
        (ErrorKind::PermissionDenied, "Permission denied: m"),
        (ErrorKind::CommandExecutionFailed, "Command execution failed: m"),
        (ErrorKind::ParsingError, "Parsing error: m"),
        (ErrorKind::IoError, "IO error: m"),
        (ErrorKind::SerializationError, "Serialization error: m"),
        (ErrorKind::TimeoutError, "Timeout error: m"),
        (ErrorKind::RateLimitExceeded, "Rate limit exceeded: m"),
        (ErrorKind::InvalidConfiguration, "Invalid configuration: m"),
        (ErrorKind::InternalError, "Internal error: m"),
    ];
    for (kind, text) in cases {
        let e = BrewDeckError::new(kind, "m".to_string());
        assert_eq!(e.kind(), kind);
        assert_eq!(e.message(), "m");
        assert_eq!(e.describe(), text);
    }
}

fn transport(timed_out: bool, connect: bool, status: Option<u16>) -> TransportFailure {
    TransportFailure {
        timed_out,
        connect_failed: connect,
        bad_status: status.is_some(),
        status_code: status,
        status_label: match status {
            Some(429) => "429 Too Many Requests".to_string(),
            Some(404) => "404 Not Found".to_string(),
            _ => String::new(),
        },
        text: "boom".to_string(),
    }
}

#[test]
fn transport_failures_are_told_apart() {
    let e = BrewDeckError::from_transport(&transport(true, true, Some(429)));
    assert_eq!(e.kind(), ErrorKind::TimeoutError);
    assert_eq!(e.message(), "boom");
    let e = BrewDeckError::from_transport(&transport(false, true, Some(429)));
    assert_eq!(e.kind(), ErrorKind::NetworkError);
    assert_eq!(e.message(), "Connection failed: boom");
    let e = BrewDeckError::from_transport(&transport(false, false, Some(429)));
    assert_eq!(e.kind(), ErrorKind::RateLimitExceeded);
    assert_eq!(e.message(), "boom");
    let e = BrewDeckError::from_transport(&transport(false, false, Some(404)));
    assert_eq!(e.kind(), ErrorKind::NetworkError);
    assert_eq!(e.message(), "HTTP 404 Not Found: boom");
    let e = BrewDeckError::from_transport(&transport(false, false, None));
    assert_eq!(e.kind(), ErrorKind::NetworkError);
    assert_eq!(e.message(), "boom");
    let mut odd = transport(false, false, None);
    odd.bad_status = true;
    let e = BrewDeckError::from_transport(&odd);
    assert_eq!(e.kind(), ErrorKind::NetworkError);
    assert_eq!(e.message(), "boom");
}

#[test]
fn io_failures_are_told_apart() {
    let e = BrewDeckError::from_io(IoFailureKind::NotFound, "x".to_string());
    assert_eq!(e.kind(), ErrorKind::HomebrewNotFound);
    let e = BrewDeckError::from_io(IoFailureKind::PermissionDenied, "x".to_string());
    assert_eq!(e.kind(), ErrorKind::PermissionDenied);
    let e = BrewDeckError::from_io(IoFailureKind::TimedOut, "x".to_string());
    assert_eq!(e.kind(), ErrorKind::TimeoutError);
    let e = BrewDeckError::from_io(IoFailureKind::Other, "x".to_string());
    assert_eq!(e.kind(), ErrorKind::IoError);
    assert_eq!(e.message(), "x");
    let e = BrewDeckError::from_encoding("bad".to_string());
    assert_eq!(e.kind(), ErrorKind::SerializationError);
    assert_eq!(e.describe(), "Serialization error: bad");
}

#[test]
fn results_carry_their_recovery() {
    let ok: BrewDeckResult<u8> = BrewDeckResult::ok(1);
    assert_eq!(ok.result.unwrap(), 1);
    assert!(ok.recovery.is_none());
    let err: BrewDeckResult<u8> = BrewDeckResult::error(BrewDeckError::CacheError("c".into()));
    assert_eq!(err.result.unwrap_err().kind(), ErrorKind::CacheError);
    assert_eq!(err.recovery, Some(ErrorRecovery::new()));
    let policy = ErrorRecovery::new().no_retry();
    let err: BrewDeckResult<u8> =
        BrewDeckResult::error_with_recovery(BrewDeckError::CacheError("c".into()), policy);
    assert_eq!(err.recovery, Some(policy));
}

#[test]
fn only_passing_failures_are_transient() {
    let transient = [ErrorKind::NetworkError, ErrorKind::TimeoutError, ErrorKind::RateLimitExceeded];
    let all = [
        ErrorKind::HomebrewNotFound,
        ErrorKind::PackageNotFound,
        ErrorKind::InstallationFailed,
        ErrorKind::UninstallationFailed,
        ErrorKind::UpdateFailed,
        ErrorKind::NetworkError,
        ErrorKind::CacheError,
        ErrorKind::PermissionDenied,
        ErrorKind::CommandExecutionFailed,
        ErrorKind::ParsingError,
        ErrorKind::IoError,
        ErrorKind::SerializationError,
        ErrorKind::TimeoutError,
        ErrorKind::RateLimitExceeded,
        ErrorKind::InvalidConfiguration,
        ErrorKind::InternalError,
    ];
    for kind in all {
        assert_eq!(kind.is_transient(), transient.contains(&kind), "{kind:?}");
    }
}

#[test]
fn permanent_failures_are_returned_as_they_came() {
    for kind in [
        ErrorKind::PackageNotFound,
        ErrorKind::HomebrewNotFound,
        ErrorKind::CommandExecutionFailed,
        ErrorKind::InstallationFailed,
        ErrorKind::ParsingError,
    ] {
        let mut policy = ErrorRecovery::new();
        let outcome: Result<u32, BrewDeckError> = Err(BrewDeckError::new(kind, "x".to_string()));
        match retry_step(&mut policy, outcome) {
            RetryDecision::Finished(Err(e)) => {
                assert_eq!(e.kind(), kind);
                assert_eq!(e.message(), "x");
            }
            _ => panic!("{kind:?} must not be retried"),
        }
        assert_eq!(policy, ErrorRecovery::new());
    }
}

#[test]
fn transient_failures_of_every_kind_are_retried() {
    for kind in [ErrorKind::NetworkError, ErrorKind::TimeoutError, ErrorKind::RateLimitExceeded] {
        let mut policy = ErrorRecovery::new();
        let outcome: Result<u32, BrewDeckError> = Err(BrewDeckError::new(kind, "x".to_string()));
        match retry_step(&mut policy, outcome) {
            RetryDecision::RetryAfter { delay_ms, error } => {
                assert_eq!(delay_ms, 1000);
                assert_eq!(error.kind(), kind);
            }
            _ => panic!("{kind:?} must be retried"),
        }
        assert_eq!(policy.retry_count, 1);
    }
}
