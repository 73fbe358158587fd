use deploy_worker::audit::{AuditEvent, AuditEventType, LogError};
use deploy_worker::config::Config;

#[test]
fn config_test_default_config() {
    let config = Config::default();
    assert_eq!(config.api.poll_endpoint, "/internal/deployment-jobs/next");
    assert_eq!(config.worker.poll_interval_seconds, 30);
    assert!(!config.mock_mode);
}

#[test]
fn test_default_config_fails_validation_without_base_url() {
    let config = Config::default();
    let err = config.validate();
    assert_eq!(err, Err("api.base_url is required".to_string()));
}

#[test]
fn test_validation_rules() {
    let mut config = Config::load_mock();
    assert!(config.validate().is_ok());

    config.worker.poll_interval_seconds = 0;
    assert_eq!(
        config.validate(),
        Err("worker.poll_interval_seconds must be greater than 0".to_string())
    );

    config.worker.poll_interval_seconds = 10;
    config.worker.max_concurrent_jobs = 0;
    assert_eq!(
        config.validate(),
        Err("worker.max_concurrent_jobs must be greater than 0".to_string())
    );
}

#[test]
fn test_load_mock_config() {
    let config = Config::load_mock();
    assert!(config.mock_mode);
    assert_eq!(config.api.base_url, "http://localhost:8000");
    assert_eq!(config.api.credential_target, "DeploymentWorker:Mock");
    assert_eq!(config.worker.worker_id.as_deref(), Some("mock-worker-001"));
}

#[test]
fn test_audit_event_type_display() {
    assert_eq!(AuditEventType::JobReceived.name(), "JOB_RECEIVED");
    assert_eq!(AuditEventType::Error.name(), "ERROR");
}

#[test]
fn test_audit_event_builder() {
    let event = AuditEvent::new(AuditEventType::JobStarted, "started", "Test details")
        .with_job_id("550e8400-e29b-41d4-a716-446655440000")
        .with_target("target-01")
        .with_worker_id("worker-001");

    assert!(event.job_id.is_some());
    assert_eq!(event.target, Some("target-01".to_string()));
    assert_eq!(event.worker_id, Some("worker-001".to_string()));
}

#[test]
fn test_log_error_messages() {
    let e = LogError::DirectoryCreation("permission denied".to_string());
    assert_eq!(
        e.message(),
        "Failed to create log directory: permission denied"
    );
    let e = LogError::Initialization("already set".to_string());
    assert_eq!(e.message(), "Failed to initialize logging: already set");
}
