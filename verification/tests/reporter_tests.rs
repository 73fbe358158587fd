use deploy_worker::api::ApiError;
use deploy_worker::reporter::{ReportError, ReporterConfig, ResultReporter, RetryDecision};

#[test]
fn reporter_test_default_config() {
    let config = ReporterConfig::default();
    assert_eq!(config.max_retries, 3);
    assert_eq!(config.initial_delay_seconds, 1);
    assert_eq!(config.backoff_factor, 2);
}

#[test]
fn reporter_test_backoff_calculation() {
    let config = ReporterConfig {
        max_retries: 3,
        initial_delay_seconds: 1,
        max_delay_seconds: 30,
        backoff_factor: 2,
    };
    let reporter = ResultReporter::with_config(config);

    // 1s -> 2s
    assert_eq!(reporter.calculate_next_delay(1), 2);

    // 2s -> 4s
    assert_eq!(reporter.calculate_next_delay(2), 4);

    // 20s -> 30s (capped at max)
    assert_eq!(reporter.calculate_next_delay(20), 30);
}

#[test]
fn test_should_retry() {
    let reporter = ResultReporter::new();

    // Network errors should be retried
    assert!(reporter.should_retry(&ApiError::RequestFailed("timeout".to_string())));

    // Auth errors should not be retried
    assert!(!reporter.should_retry(&ApiError::AuthenticationFailed("Invalid token".to_string())));

    // Rate limiting should be retried
    assert!(reporter.should_retry(&ApiError::RateLimited {
        retry_after_seconds: 60
    }));
}

#[test]
fn test_should_retry_server_errors() {
    let reporter = ResultReporter::new();
    assert!(reporter.should_retry(&ApiError::ServerError {
        status_code: 500,
        message: "oops".to_string()
    }));
    assert!(!reporter.should_retry(&ApiError::ServerError {
        status_code: 501,
        message: "not implemented".to_string()
    }));
    assert!(!reporter.should_retry(&ApiError::ServerError {
        status_code: 404,
        message: "gone".to_string()
    }));
    assert!(reporter.should_retry(&ApiError::InvalidResponse("garbled".to_string())));
    assert!(!reporter.should_retry(&ApiError::JobAlreadyClaimed));
}

#[test]
fn test_report_error_display() {
    let err = ReportError::MaxRetriesExceeded {
        attempts: 3,
        last_error: "Network error".to_string(),
    };
    assert!(err.message().contains("3 attempts"));
    assert!(err.message().contains("Network error"));
}

fn server_error() -> Result<(), ApiError> {
    Err(ApiError::ServerError {
        status_code: 500,
        message: "backend unavailable".to_string(),
    })
}

#[test]
fn test_session_two_failures_then_success() {
    // two failing retryable responses followed by one success:
    // exactly three calls, no error
    let reporter = ResultReporter::new();
    let outcomes = vec![server_error(), server_error(), Ok(())];
    let (attempts, ended) = reporter.report_session(&outcomes);
    assert_eq!(attempts, 3);
    assert!(ended.is_ok());
}

#[test]
fn test_session_single_terminal_error() {
    // a single non-retryable error: exactly one call, the error returned
    let reporter = ResultReporter::new();
    let outcomes = vec![
        Err(ApiError::AuthenticationFailed("Invalid token".to_string())),
        server_error(),
        server_error(),
    ];
    let (attempts, ended) = reporter.report_session(&outcomes);
    assert_eq!(attempts, 1);
    match ended {
        Err(ReportError::ApiError(ApiError::AuthenticationFailed(m))) => {
            assert_eq!(m, "Invalid token");
        }
        other => panic!("unexpected session end: {:?}", other),
    }
}

#[test]
fn test_session_exhausts_retries() {
    let reporter = ResultReporter::new();
    let outcomes = vec![server_error(), server_error(), server_error()];
    let (attempts, ended) = reporter.report_session(&outcomes);
    assert_eq!(attempts, 3);
    match ended {
        Err(ReportError::MaxRetriesExceeded {
            attempts,
            last_error,
        }) => {
            assert_eq!(attempts, 3);
            assert!(last_error.contains("500"));
        }
        other => panic!("unexpected session end: {:?}", other),
    }
}

#[test]
fn test_next_attempt_decision() {
    let reporter = ResultReporter::new();
    match reporter.next_attempt(1, 1, server_error()) {
        RetryDecision::RetryAfter {
            sleep_seconds,
            next_delay_seconds,
        } => {
            assert_eq!(sleep_seconds, 1);
            assert_eq!(next_delay_seconds, 2);
        }
        other => panic!("unexpected decision: {:?}", other),
    }
    assert!(matches!(
        reporter.next_attempt(3, 4, server_error()),
        RetryDecision::GiveUp(ReportError::MaxRetriesExceeded { attempts: 3, .. })
    ));
    assert!(matches!(
        reporter.next_attempt(1, 1, Ok(())),
        RetryDecision::Done
    ));
}
