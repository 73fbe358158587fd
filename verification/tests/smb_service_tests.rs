use deploy_worker::credentials::Credential;
use deploy_worker::service::{
    generate_temp_service_name, run_service_session, wait_poll_decision, ServiceError,
    ServiceExecutionResult, ServiceSessionOutcomes, WaitDecision, SERVICE_RUNNING_STATE,
    SERVICE_STOPPED_STATE,
};
use deploy_worker::smb::{
    extract_filename, is_unc_path, plan_copy_destination, plan_delete_share, share_root_of_path,
    tolerate_missing_on_delete, SmbConnection, SmbError,
};

#[test]
fn test_extract_filename() {
    assert_eq!(
        extract_filename("\\\\server\\share\\file.msi"),
        Some("file.msi")
    );
    assert_eq!(
        extract_filename("\\\\server\\ADMIN$\\Temp\\installer.msi"),
        Some("installer.msi")
    );
    assert_eq!(extract_filename("file.msi"), Some("file.msi"));
}

#[test]
fn test_smb_error_display() {
    let err = SmbError::ConnectionFailed {
        path: "\\\\server\\share".to_string(),
        message: "Access denied".to_string(),
    };
    assert!(err.message().contains("server"));
    assert!(err.message().contains("Access denied"));
}

#[test]
fn test_is_unc_path() {
    assert!(is_unc_path("\\\\server\\share"));
    assert!(!is_unc_path("C:\\Windows"));
    assert!(!is_unc_path("\\single"));
    assert!(!is_unc_path(""));
}

#[test]
fn test_plan_copy_destination() {
    let dest = plan_copy_destination("\\\\src\\share\\app.msi", "\\\\target\\ADMIN$\\Temp");
    assert_eq!(dest.unwrap(), "\\\\target\\ADMIN$\\Temp\\app.msi");

    let err = plan_copy_destination("C:\\local\\app.msi", "\\\\target\\ADMIN$\\Temp");
    assert!(matches!(err, Err(SmbError::InvalidPath(_))));

    let err = plan_copy_destination("\\\\src\\share\\app.msi", "D:\\Temp");
    assert!(matches!(err, Err(SmbError::InvalidPath(_))));
}

#[test]
fn test_plan_delete_share() {
    assert_eq!(
        plan_delete_share("\\\\server\\share\\file.msi").unwrap(),
        "\\\\server\\share"
    );
    assert!(matches!(
        plan_delete_share("C:\\file.msi"),
        Err(SmbError::InvalidPath(_))
    ));
}

#[test]
fn test_share_root_of_path() {
    assert_eq!(
        share_root_of_path("\\\\server\\share\\a\\b.msi").unwrap(),
        "\\\\server\\share"
    );
    assert_eq!(
        share_root_of_path("\\\\server\\share").unwrap(),
        "\\\\server\\share"
    );
    assert!(matches!(
        share_root_of_path("relative\\path"),
        Err(SmbError::InvalidPath(_))
    ));
}

#[test]
fn test_tolerate_missing_on_delete() {
    assert!(tolerate_missing_on_delete(Ok(())).is_ok());
    assert!(tolerate_missing_on_delete(Err(SmbError::DeleteFailed {
        path: "\\\\t\\f".to_string(),
        message: "gone".to_string()
    }))
    .is_ok());
    assert!(tolerate_missing_on_delete(Err(SmbError::AccessDenied("\\\\t\\f".to_string())))
        .is_err());
}

#[test]
fn test_smb_connection_tracks_state() {
    let creds = Credential::new("user".to_string(), "pw".to_string());
    let mut conn = SmbConnection::connect("\\\\server\\ADMIN$", &creds, 30).unwrap();
    assert!(conn.connected);
    assert_eq!(conn.unc_path, "\\\\server\\ADMIN$");
    conn.disconnect();
    assert!(!conn.connected);

    assert!(SmbConnection::connect("C:\\local", &creds, 30).is_err());
}

#[test]
fn test_generate_temp_service_name() {
    let name = generate_temp_service_name();
    assert!(name.starts_with("DeployWorker_"));
    assert!(name.len() > 12);
}

#[test]
fn test_temp_service_names_vary() {
    // the eight-character suffix comes from a fresh unique token each time
    let a = generate_temp_service_name();
    let b = generate_temp_service_name();
    assert_eq!(a.len(), 21);
    assert_eq!(b.len(), 21);
    assert_ne!(a, b);
}

#[test]
fn test_service_error_display() {
    let err = ServiceError::Timeout { seconds: 300 };
    assert!(err.message().contains("300"));
}

#[test]
fn test_execution_failed_message() {
    let err = ServiceError::ExecutionFailed { code: 1603 };
    assert!(err.message().contains("1603"));
    let err = ServiceError::ExecutionFailed { code: -1 };
    assert!(err.message().contains("-1"));
}

#[test]
fn test_wait_poll_decision() {
    assert_eq!(
        wait_poll_decision(301, 300, SERVICE_RUNNING_STATE, 0),
        WaitDecision::TimedOut
    );
    assert_eq!(
        wait_poll_decision(10, 300, SERVICE_STOPPED_STATE, 3010),
        WaitDecision::Stopped(3010)
    );
    assert_eq!(
        wait_poll_decision(10, 300, SERVICE_RUNNING_STATE, 0),
        WaitDecision::KeepWaiting
    );
}

fn all_ok_outcomes(exit_code: i32) -> ServiceSessionOutcomes {
    ServiceSessionOutcomes {
        scm_connect: Ok(()),
        create: Ok(()),
        start: Ok(()),
        wait: Ok(exit_code),
        delete: Ok(()),
    }
}

#[test]
fn test_service_session_completed() {
    let result = run_service_session(all_ok_outcomes(0), 12).unwrap();
    assert_eq!(result.exit_code, 0);
    assert_eq!(result.duration_seconds, 12);
    assert!(result.cleanup_success);
}

#[test]
fn test_service_session_delete_failure_is_not_fatal() {
    let mut outcomes = all_ok_outcomes(3010);
    outcomes.delete = Err(ServiceError::ServiceDeleteFailed {
        name: "DeployWorker_1234abcd".to_string(),
        message: "busy".to_string(),
    });
    let result = run_service_session(outcomes, 5).unwrap();
    assert_eq!(result.exit_code, 3010);
    assert!(!result.cleanup_success);
}

#[test]
fn test_service_session_stops_at_first_failure() {
    let mut outcomes = all_ok_outcomes(0);
    outcomes.start = Err(ServiceError::ServiceStartFailed {
        name: "DeployWorker_1234abcd".to_string(),
        message: "refused".to_string(),
    });
    let result = run_service_session(outcomes, 5);
    assert!(matches!(
        result,
        Err(ServiceError::ServiceStartFailed { .. })
    ));

    let mut outcomes = all_ok_outcomes(0);
    outcomes.wait = Err(ServiceError::Timeout { seconds: 300 });
    let result = run_service_session(outcomes, 301);
    assert!(matches!(result, Err(ServiceError::Timeout { seconds: 300 })));
}

#[test]
fn test_service_execution_result_fields() {
    let r = ServiceExecutionResult {
        exit_code: 1618,
        duration_seconds: 4,
        cleanup_success: true,
    };
    assert_eq!(r.exit_code, 1618);
}
