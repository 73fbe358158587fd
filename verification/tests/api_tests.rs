use deploy_worker::api::{
    build_heartbeat_url, build_poll_url, build_report_url, classify_poll_response,
    classify_report_response, parse_retry_after, ApiError, PollClassification,
};

#[test]
fn test_api_error_display() {
    let err = ApiError::ServerError {
        status_code: 500,
        message: "Internal error".to_string(),
    };
    assert!(err.message().contains("500"));
    assert!(err.message().contains("Internal error"));
}

#[test]
fn test_rate_limited_error() {
    let err = ApiError::RateLimited {
        retry_after_seconds: 60,
    };
    assert!(err.message().contains("60"));
}

#[test]
fn test_build_urls() {
    assert_eq!(
        build_poll_url("http://api.example", "/internal/deployment-jobs/next"),
        "http://api.example/internal/deployment-jobs/next"
    );
    assert_eq!(
        build_report_url(
            "http://api.example",
            "/internal/deployment-jobs/{id}/result",
            "job-42"
        ),
        "http://api.example/internal/deployment-jobs/job-42/result"
    );
    assert_eq!(
        build_heartbeat_url("http://api.example", "worker-1"),
        "http://api.example/internal/workers/worker-1/heartbeat"
    );
}

#[test]
fn test_parse_retry_after() {
    assert_eq!(parse_retry_after(Some("45")), 45);
    assert_eq!(parse_retry_after(Some("0")), 0);
    assert_eq!(parse_retry_after(Some("abc")), 60);
    assert_eq!(parse_retry_after(Some("")), 60);
    assert_eq!(parse_retry_after(None), 60);
    // a value too large for the type falls back to the default too
    assert_eq!(parse_retry_after(Some("99999999999999999999999")), 60);
}

#[test]
fn test_classify_poll_response() {
    assert!(matches!(
        classify_poll_response(200, None, ""),
        PollClassification::ParseJob
    ));
    assert!(matches!(
        classify_poll_response(204, None, ""),
        PollClassification::NoJob
    ));
    assert!(matches!(
        classify_poll_response(401, None, ""),
        PollClassification::Fail(ApiError::AuthenticationFailed(_))
    ));
    match classify_poll_response(429, Some("45"), "") {
        PollClassification::Fail(ApiError::RateLimited {
            retry_after_seconds,
        }) => assert_eq!(retry_after_seconds, 45),
        other => panic!("unexpected classification: {:?}", other),
    }
    assert!(matches!(
        classify_poll_response(409, None, ""),
        PollClassification::Fail(ApiError::JobAlreadyClaimed)
    ));
    match classify_poll_response(503, None, "overloaded") {
        PollClassification::Fail(ApiError::ServerError {
            status_code,
            message,
        }) => {
            assert_eq!(status_code, 503);
            assert_eq!(message, "overloaded");
        }
        other => panic!("unexpected classification: {:?}", other),
    }
}

#[test]
fn test_classify_report_response() {
    assert!(classify_report_response(200, "").is_ok());
    assert!(classify_report_response(201, "").is_ok());
    assert!(classify_report_response(202, "").is_ok());
    assert!(matches!(
        classify_report_response(401, ""),
        Err(ApiError::AuthenticationFailed(_))
    ));
    match classify_report_response(500, "boom") {
        Err(ApiError::ServerError {
            status_code,
            message,
        }) => {
            assert_eq!(status_code, 500);
            assert_eq!(message, "boom");
        }
        other => panic!("unexpected classification: {:?}", other),
    }
}

#[test]
fn test_report_404_treated_as_success() {
    // the backend no longer tracks the job: no retry, no error
    assert!(classify_report_response(404, "").is_ok());
}
