use veya_core::error::VeyaError;
use veya_core::retry::RetryPolicy;

fn failing_script(e: &VeyaError, n: usize) -> Vec<Result<u32, VeyaError>> {
    let mut v: Vec<Result<u32, VeyaError>> = Vec::new();
    for _ in 0..n {
        v.push(Err(e.clone()));
    }
    v
}

fn tag(e: &VeyaError) -> &'static str {
    match e {
        VeyaError::InvalidApiKey(_) => "InvalidApiKey",
        VeyaError::InsufficientBalance(_) => "InsufficientBalance",
        VeyaError::NetworkTimeout(_) => "NetworkTimeout",
        VeyaError::ModelUnavailable(_) => "ModelUnavailable",
        VeyaError::OcrFailed(_) => "OcrFailed",
        VeyaError::TtsFailed(_) => "TtsFailed",
        VeyaError::StorageError(_) => "StorageError",
        VeyaError::PermissionDenied(_) => "PermissionDenied",
        VeyaError::Generic(_) => "Generic",
    }
}

#[test]
fn persistent_retryable_failure_makes_n_plus_one_invocations() {
    for n in 1u32..6 {
        let policy = RetryPolicy::new(n, 100, 5000);
        let err = VeyaError::NetworkTimeout("down".to_string());
        let (result, invocations, delays) = policy.execute(failing_script(&err, n as usize + 1));
        assert!(result.is_err());
        assert_eq!(invocations, n as usize + 1);
        assert_eq!(delays.len(), n as usize);
        assert_eq!(tag(&result.unwrap_err()), "NetworkTimeout");
    }
}

#[test]
fn terminal_failure_makes_exactly_one_invocation() {
    for err in [
        VeyaError::InvalidApiKey("k".to_string()),
        VeyaError::InsufficientBalance("b".to_string()),
        VeyaError::OcrFailed("o".to_string()),
        VeyaError::StorageError("s".to_string()),
        VeyaError::PermissionDenied("p".to_string()),
        VeyaError::Generic("g".to_string()),
    ] {
        let policy = RetryPolicy::new(4, 100, 5000);
        let expected = tag(&err);
        let (result, invocations, delays) = policy.execute(failing_script(&err, 5));
        assert_eq!(invocations, 1);
        assert!(delays.is_empty());
        assert_eq!(tag(&result.unwrap_err()), expected);
    }
}

#[test]
fn error_kind_survives_retry_exhaustion_for_every_kind() {
    let kinds = [
        VeyaError::InvalidApiKey("d".to_string()),
        VeyaError::InsufficientBalance("d".to_string()),
        VeyaError::NetworkTimeout("d".to_string()),
        VeyaError::ModelUnavailable("d".to_string()),
        VeyaError::OcrFailed("d".to_string()),
        VeyaError::TtsFailed("d".to_string()),
        VeyaError::StorageError("d".to_string()),
        VeyaError::PermissionDenied("d".to_string()),
    ];
    for err in &kinds {
        let policy = RetryPolicy::new(3, 10, 500);
        let expected = tag(err);
        let (result, invocations, _) = policy.execute(failing_script(err, 4));
        let got = result.unwrap_err();
        assert_eq!(tag(&got), expected);
        if err.is_retryable() {
            assert_eq!(invocations, 4);
        } else {
            assert_eq!(invocations, 1);
        }
    }
}

#[test]
fn success_stops_retrying() {
    let policy = RetryPolicy::new(5, 100, 5000);
    let script: Vec<Result<u32, VeyaError>> = vec![
        Err(VeyaError::NetworkTimeout("once".to_string())),
        Ok(42),
        Err(VeyaError::NetworkTimeout("never seen".to_string())),
        Ok(0),
        Ok(0),
        Ok(0),
    ];
    let (result, invocations, delays) = policy.execute(script);
    assert_eq!(result.unwrap(), 42);
    assert_eq!(invocations, 2);
    assert_eq!(delays, vec![100]);
}

#[test]
fn backoff_is_exponential_and_capped() {
    let policy = RetryPolicy::new(10, 500, 30_000);
    assert_eq!(policy.delay_for_attempt(0), 500);
    assert_eq!(policy.delay_for_attempt(1), 1000);
    assert_eq!(policy.delay_for_attempt(2), 2000);
    assert_eq!(policy.delay_for_attempt(5), 16_000);
    assert_eq!(policy.delay_for_attempt(6), 30_000);
    assert_eq!(policy.delay_for_attempt(63), 30_000);
    let tiny = RetryPolicy::new(3, 0, 1000);
    assert_eq!(tiny.delay_for_attempt(7), 0);
}

#[test]
fn decide_retries_only_retryable_kinds_within_budget() {
    let policy = RetryPolicy::new(2, 100, 5000);
    let retryable = VeyaError::TtsFailed("t".to_string());
    let terminal = VeyaError::InvalidApiKey("k".to_string());
    assert_eq!(policy.decide(0, &retryable), Some(100));
    assert_eq!(policy.decide(1, &retryable), Some(200));
    assert_eq!(policy.decide(2, &retryable), None);
    assert_eq!(policy.decide(0, &terminal), None);
}
