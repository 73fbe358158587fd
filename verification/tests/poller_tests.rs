use deploy_worker::api::ApiError;
use deploy_worker::poller::{classify_poll_failure, PollResult, PollSchedule};

#[test]
fn poller_test_backoff_calculation() {
    let schedule = PollSchedule::new(30, 300);

    // 30s * 2 = 60s
    assert_eq!(schedule.calculate_backoff(30, 300), 60);

    // 150s * 2 = 300s (capped at max)
    assert_eq!(schedule.calculate_backoff(150, 300), 300);
}

#[test]
fn test_job_resets_interval() {
    let mut schedule = PollSchedule::new(30, 300);
    schedule.apply_poll_result(PollResult::Error);
    assert_eq!(schedule.current_interval_seconds, 60);
    schedule.apply_poll_result(PollResult::JobExecuted);
    assert_eq!(schedule.current_interval_seconds, 30);
    assert_eq!(schedule.consecutive_empty, 0);
}

#[test]
fn test_empty_streak_backoff() {
    let mut schedule = PollSchedule::new(30, 300);
    schedule.apply_poll_result(PollResult::NoJobs);
    assert_eq!(schedule.current_interval_seconds, 30);
    schedule.apply_poll_result(PollResult::NoJobs);
    assert_eq!(schedule.current_interval_seconds, 30);
    // third consecutive empty poll starts the backoff
    schedule.apply_poll_result(PollResult::NoJobs);
    assert_eq!(schedule.current_interval_seconds, 60);
    schedule.apply_poll_result(PollResult::NoJobs);
    assert_eq!(schedule.current_interval_seconds, 120);
}

#[test]
fn test_rate_limit_overrides_interval() {
    // poll returns a rate limit with a 45 second pause: the next poll
    // interval is exactly 45s, bypassing the doubling backoff
    let mut schedule = PollSchedule::new(30, 300);
    schedule.apply_poll_result(PollResult::Error);
    assert_eq!(schedule.current_interval_seconds, 60);
    schedule.apply_poll_result(PollResult::RateLimited(45));
    assert_eq!(schedule.current_interval_seconds, 45);
}

#[test]
fn test_error_backoff_capped() {
    let mut schedule = PollSchedule::new(30, 100);
    schedule.apply_poll_result(PollResult::Error);
    assert_eq!(schedule.current_interval_seconds, 60);
    schedule.apply_poll_result(PollResult::Error);
    assert_eq!(schedule.current_interval_seconds, 100);
    schedule.apply_poll_result(PollResult::Error);
    assert_eq!(schedule.current_interval_seconds, 100);
}

#[test]
fn test_classify_poll_failure() {
    let (r, refresh) = classify_poll_failure(&ApiError::RateLimited {
        retry_after_seconds: 45,
    });
    assert_eq!(r, PollResult::RateLimited(45));
    assert!(!refresh);

    let (r, refresh) =
        classify_poll_failure(&ApiError::AuthenticationFailed("expired".to_string()));
    assert_eq!(r, PollResult::Error);
    assert!(refresh);

    let (r, refresh) = classify_poll_failure(&ApiError::RequestFailed("reset".to_string()));
    assert_eq!(r, PollResult::Error);
    assert!(!refresh);
}
