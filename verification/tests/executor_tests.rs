use deploy_worker::config::WorkerConfig;
use deploy_worker::credentials::{CredentialVault, VaultError};
use deploy_worker::executor::{
    plan_install_command, plan_uninstall_command, JobExecutor, TargetPhaseOutcomes, TargetStep,
};
use deploy_worker::service::{ServiceError, ServiceExecutionResult};
use deploy_worker::smb::SmbError;
use deploy_worker::types::{
    DeploymentJob, DeploymentTarget, ExecutionPhase, InlineCredentials, JobPayload, JobStatus,
    JobType,
};

fn create_test_config() -> WorkerConfig {
    WorkerConfig {
        worker_id: Some("test-worker".to_string()),
        poll_interval_seconds: 10,
        max_backoff_seconds: 60,
        max_concurrent_jobs: 1,
        cleanup_timeout_seconds: 30,
        smb_copy_timeout_seconds: 60,
        service_execution_timeout_seconds: 300,
        reachability_timeout_seconds: 5,
    }
}

fn target(hostname: &str) -> DeploymentTarget {
    DeploymentTarget {
        hostname: hostname.to_string(),
        vault_ref: None,
        machine_id: None,
    }
}

fn install_job(vault_ref: &str, targets: Vec<DeploymentTarget>) -> DeploymentJob {
    DeploymentJob {
        id: "550e8400-e29b-41d4-a716-446655440000".to_string(),
        job_type: JobType::MsiInstall,
        created_at: 1_700_000_000,
        priority: 5,
        payload: JobPayload {
            installer_path: "\\\\server\\share\\installer.msi".to_string(),
            vault_ref: vault_ref.to_string(),
            inline_credentials: None,
            install_args: Some("/qn".to_string()),
            enroll_token: None,
            targets,
            product_code: None,
            force_restart: false,
        },
        claimed_by: None,
        claimed_at: None,
    }
}

fn ok_outcomes(exit_code: i32) -> TargetPhaseOutcomes {
    TargetPhaseOutcomes {
        reachability: Ok(()),
        smb_copy: Ok(()),
        execution: Ok(ServiceExecutionResult {
            exit_code,
            duration_seconds: 3,
            cleanup_success: true,
        }),
        cleanup: Ok(()),
    }
}

#[test]
fn test_executor_creation() {
    let config = create_test_config();
    let executor = JobExecutor::new(config, "test-worker".to_string());
    assert_eq!(executor.worker_id, "test-worker");
}

#[test]
fn test_job_all_targets_succeed() {
    // two targets, exit codes 0 and 3010: overall success, both marked so
    let executor = JobExecutor::new(create_test_config(), "test-worker".to_string());
    let vault = CredentialVault::with_default_entries();
    let job = install_job(
        "DeploymentWorker:SMB",
        vec![target("t1"), target("t2")],
    );
    let outcomes = vec![ok_outcomes(0), ok_outcomes(3010)];
    let elapsed = vec![4, 6];
    let result = executor.execute(&vault, &job, &outcomes, &elapsed, 100, 120);
    assert_eq!(result.status, JobStatus::Success);
    assert_eq!(result.target_results.len(), 2);
    assert!(result.target_results[0].success);
    assert!(result.target_results[1].success);
    assert_eq!(result.target_results[0].exit_code, Some(0));
    assert_eq!(result.target_results[1].exit_code, Some(3010));
    assert_eq!(result.duration_seconds, 20);
}

#[test]
fn test_job_partial_success_tags_failed_phase() {
    // first target fails during the transfer, second succeeds
    let executor = JobExecutor::new(create_test_config(), "test-worker".to_string());
    let vault = CredentialVault::with_default_entries();
    let job = install_job(
        "DeploymentWorker:SMB",
        vec![target("t1"), target("t2")],
    );
    let mut failing = ok_outcomes(0);
    failing.smb_copy = Err(SmbError::AccessDenied("\\\\t1\\ADMIN$\\Temp".to_string()));
    let outcomes = vec![failing, ok_outcomes(0)];
    let elapsed = vec![2, 5];
    let result = executor.execute(&vault, &job, &outcomes, &elapsed, 100, 110);
    assert_eq!(result.status, JobStatus::PartialSuccess);
    assert_eq!(
        result.target_results[0].failed_phase,
        Some(ExecutionPhase::SmbCopy)
    );
    assert!(!result.target_results[0].success);
    assert!(result.target_results[1].success);
    // results keep the order of the job's target list
    assert_eq!(result.target_results[0].hostname, "t1");
    assert_eq!(result.target_results[1].hostname, "t2");
}

#[test]
fn test_inline_sentinel_without_credentials_fails_resolution() {
    // the inline marker with no inline credentials fails credential
    // resolution for every target using that reference
    let executor = JobExecutor::new(create_test_config(), "test-worker".to_string());
    let vault = CredentialVault::with_default_entries();
    let job = install_job("__inline__", vec![target("t1"), target("t2")]);
    let outcomes = vec![ok_outcomes(0), ok_outcomes(0)];
    let elapsed = vec![1, 1];
    let result = executor.execute(&vault, &job, &outcomes, &elapsed, 100, 105);
    assert_eq!(result.status, JobStatus::Failed);
    for tr in &result.target_results {
        assert_eq!(tr.failed_phase, Some(ExecutionPhase::CredentialResolution));
        assert!(tr
            .error_message
            .as_deref()
            .unwrap()
            .contains("no credentials provided"));
    }
}

#[test]
fn test_resolve_credentials_inline_sentinel() {
    let executor = JobExecutor::new(create_test_config(), "w".to_string());
    let vault = CredentialVault::new();

    let inline = InlineCredentials {
        username: "DOMAIN\\admin".to_string(),
        password: "secret".to_string(),
        credential_type: "domain_admin".to_string(),
    };
    let cred = executor
        .resolve_credentials(&vault, "__inline__", Some(&inline))
        .unwrap();
    assert_eq!(cred.username, "DOMAIN\\admin");
    assert_eq!(cred.password, "secret");

    let err = executor.resolve_credentials(&vault, "__inline__", None);
    match err {
        Err(VaultError::NotFound(m)) => {
            assert_eq!(m, "Inline credentials marker set but no credentials provided")
        }
        other => panic!("unexpected resolution: {:?}", other),
    }
}

#[test]
fn test_unreachable_target_fails_fast() {
    let executor = JobExecutor::new(create_test_config(), "test-worker".to_string());
    let vault = CredentialVault::with_default_entries();
    let job = install_job("DeploymentWorker:SMB", vec![target("t1")]);
    let mut outcomes = ok_outcomes(0);
    outcomes.reachability = Err(ServiceError::NetworkError(
        "Cannot reach t1 on port 445".to_string(),
    ));
    let tr = executor.execute_on_target(&vault, &job, &job.payload.targets[0], &outcomes, 1);
    assert!(!tr.success);
    assert_eq!(tr.failed_phase, Some(ExecutionPhase::ReachabilityCheck));
    assert!(tr.error_message.as_deref().unwrap().contains("unreachable"));
}

#[test]
fn test_uninstall_requires_product_code() {
    let executor = JobExecutor::new(create_test_config(), "test-worker".to_string());
    let vault = CredentialVault::with_default_entries();
    let mut job = install_job("DeploymentWorker:SMB", vec![target("t1")]);
    job.job_type = JobType::MsiUninstall;
    job.payload.product_code = None;
    let tr = executor.execute_on_target(
        &vault,
        &job,
        &job.payload.targets[0],
        &ok_outcomes(0),
        1,
    );
    assert!(!tr.success);
    assert_eq!(tr.failed_phase, Some(ExecutionPhase::ServiceCreation));
    assert_eq!(
        tr.error_message.as_deref(),
        Some("Product code required for uninstall")
    );
}

#[test]
fn test_uninstall_rejects_malformed_product_code() {
    let executor = JobExecutor::new(create_test_config(), "test-worker".to_string());
    let vault = CredentialVault::with_default_entries();
    let mut job = install_job("DeploymentWorker:SMB", vec![target("t1")]);
    job.job_type = JobType::MsiUninstall;
    job.payload.product_code = Some("{invalid-guid}".to_string());
    let tr = executor.execute_on_target(
        &vault,
        &job,
        &job.payload.targets[0],
        &ok_outcomes(0),
        1,
    );
    assert!(!tr.success);
    assert_eq!(tr.failed_phase, Some(ExecutionPhase::ServiceCreation));
    assert!(tr
        .error_message
        .as_deref()
        .unwrap()
        .contains("Invalid product code format"));
}

#[test]
fn test_generic_execute_kind_is_rejected_at_job_level() {
    // the unsupported kind is rejected before any target is attempted:
    // job-level error, status failed, no target results
    let executor = JobExecutor::new(create_test_config(), "test-worker".to_string());
    let vault = CredentialVault::with_default_entries();
    let mut job = install_job("DeploymentWorker:SMB", vec![target("t1"), target("t2")]);
    job.job_type = JobType::Execute;
    let outcomes = vec![ok_outcomes(0), ok_outcomes(0)];
    let elapsed = vec![1, 1];
    let result = executor.execute(&vault, &job, &outcomes, &elapsed, 100, 101);
    assert_eq!(result.status, JobStatus::Failed);
    assert_eq!(result.target_results.len(), 0);
    assert_eq!(
        result.error_message.as_deref(),
        Some("Unsupported job type: Execute")
    );
}

#[test]
fn test_empty_target_list_is_failed() {
    let executor = JobExecutor::new(create_test_config(), "test-worker".to_string());
    let vault = CredentialVault::with_default_entries();
    let job = install_job("DeploymentWorker:SMB", vec![]);
    let result = executor.execute(&vault, &job, &vec![], &vec![], 100, 101);
    assert_eq!(result.status, JobStatus::Failed);
    assert_eq!(result.target_results.len(), 0);
}

#[test]
fn test_per_target_vault_ref_override() {
    let executor = JobExecutor::new(create_test_config(), "test-worker".to_string());
    let mut vault = CredentialVault::new();
    vault.add_mock_credential("Override:Ref", "override-user", "pw");
    let mut job = install_job("DeploymentWorker:SMB", vec![target("t1")]);
    job.payload.targets[0].vault_ref = Some("Override:Ref".to_string());
    // the job-level reference is absent from this store, so resolution
    // succeeding proves the per-target override took precedence
    let tr = executor.execute_on_target(
        &vault,
        &job,
        &job.payload.targets[0],
        &ok_outcomes(0),
        2,
    );
    assert!(tr.success);
}

#[test]
fn test_plan_install_command_converts_to_local_path() {
    let job = install_job("DeploymentWorker:SMB", vec![target("t1")]);
    let cmd = plan_install_command(&job.payload, "t1").unwrap();
    assert_eq!(
        cmd,
        "cmd.exe /c msiexec /i \"C:\\Windows\\Temp\\installer.msi\" /qn /norestart /qn"
    );
}

#[test]
fn test_plan_install_command_rejects_local_source() {
    let mut job = install_job("DeploymentWorker:SMB", vec![target("t1")]);
    job.payload.installer_path = "C:\\local\\installer.msi".to_string();
    let err = plan_install_command(&job.payload, "t1");
    assert!(matches!(err, Err(SmbError::InvalidPath(_))));
}

#[test]
fn test_plan_uninstall_command() {
    let cmd =
        plan_uninstall_command("{12345678-1234-1234-1234-123456789012}", None).unwrap();
    assert_eq!(
        cmd,
        "cmd.exe /c msiexec /x \"{12345678-1234-1234-1234-123456789012}\" /qn /norestart"
    );
}

#[test]
fn test_sequencer_skips_transfer_on_unreachable_host() {
    let executor = JobExecutor::new(create_test_config(), "test-worker".to_string());
    let vault = CredentialVault::with_default_entries();
    let job = install_job("DeploymentWorker:SMB", vec![target("t1")]);
    let probe: Result<(), ServiceError> =
        Err(ServiceError::NetworkError("down".to_string()));
    let step = executor.step_after_probe(&vault, &job, &job.payload.targets[0], &probe);
    assert_eq!(step, TargetStep::Finished);
}

#[test]
fn test_sequencer_install_phase_order() {
    let executor = JobExecutor::new(create_test_config(), "test-worker".to_string());
    let vault = CredentialVault::with_default_entries();
    let job = install_job("DeploymentWorker:SMB", vec![target("t1")]);
    let probe: Result<(), ServiceError> = Ok(());
    let step = executor.step_after_probe(&vault, &job, &job.payload.targets[0], &probe);
    assert_eq!(step, TargetStep::Copy);
    let step = executor.step_after_copy(&job, &Ok(()));
    assert_eq!(step, TargetStep::Run);
    // cleanup follows a run attempt unconditionally
    let step = executor.step_after_run(&job);
    assert_eq!(step, TargetStep::Cleanup);
    // a failed copy ends the target without a run
    let step = executor.step_after_copy(
        &job,
        &Err(SmbError::AccessDenied("\\\\t1\\ADMIN$\\Temp".to_string())),
    );
    assert_eq!(step, TargetStep::Finished);
}

#[test]
fn test_sequencer_uninstall_skips_transfer_and_cleanup() {
    let executor = JobExecutor::new(create_test_config(), "test-worker".to_string());
    let vault = CredentialVault::with_default_entries();
    let mut job = install_job("DeploymentWorker:SMB", vec![target("t1")]);
    job.job_type = JobType::MsiUninstall;
    job.payload.product_code = Some("{12345678-1234-1234-1234-123456789012}".to_string());
    let probe: Result<(), ServiceError> = Ok(());
    let step = executor.step_after_probe(&vault, &job, &job.payload.targets[0], &probe);
    assert_eq!(step, TargetStep::Run);
    let step = executor.step_after_run(&job);
    assert_eq!(step, TargetStep::Finished);
}

#[test]
fn test_sequencer_validation_failures_end_the_target() {
    let executor = JobExecutor::new(create_test_config(), "test-worker".to_string());
    let vault = CredentialVault::with_default_entries();
    let probe: Result<(), ServiceError> = Ok(());

    // a non-network source path never reaches the transfer
    let mut job = install_job("DeploymentWorker:SMB", vec![target("t1")]);
    job.payload.installer_path = "C:\\local\\app.msi".to_string();
    let step = executor.step_after_probe(&vault, &job, &job.payload.targets[0], &probe);
    assert_eq!(step, TargetStep::Finished);

    // a failed credential resolution never reaches the transfer
    let job = install_job("__inline__", vec![target("t1")]);
    let step = executor.step_after_probe(&vault, &job, &job.payload.targets[0], &probe);
    assert_eq!(step, TargetStep::Finished);

    // a malformed product code never reaches the run
    let mut job = install_job("DeploymentWorker:SMB", vec![target("t1")]);
    job.job_type = JobType::MsiUninstall;
    job.payload.product_code = Some("{invalid-guid}".to_string());
    let step = executor.step_after_probe(&vault, &job, &job.payload.targets[0], &probe);
    assert_eq!(step, TargetStep::Finished);
}
