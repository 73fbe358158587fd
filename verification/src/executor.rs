//! Job execution: the per-target multi-phase state machine and the
//! aggregation of target outcomes into a job result.
//!
//! A target runs through reachability, credential resolution, file
//! transfer, remote service execution, and cleanup, in that order; the
//! first failing phase ends that target with a result tagged by the phase,
//! and never aborts the job.  The remote work itself (probe, copy, run,
//! delete) is performed by the adapter; its outcomes are handed in as
//! plain values, and every decision over them is verified.

use vstd::prelude::*;

use crate::credentials::{Credential, CredentialVault, VaultError, spec_vault_find};
use crate::installer::{
    InstallerError, build_msi_install_command, build_msi_uninstall_command, spec_install_command,
    spec_uninstall_command, spec_valid_product_code,
};
use crate::service::{ServiceError, ServiceExecutionResult};
use crate::smb::{SmbError, plan_copy_destination, spec_copy_destination, spec_is_unc};
use crate::strutil::{clone_opt_string, replace_all, spec_replace_all, str_eq};
use crate::installer::spec_exit_code_is_success;
use crate::types::{
    DeploymentJob, DeploymentTarget, ExecutionPhase, InlineCredentials, JobPayload, JobResult,
    JobStatus, JobType, TargetResult, spec_derive_status, spec_duration_seconds,
};
use crate::config::WorkerConfig;

verus! {

/// Errors from job execution.
#[derive(Debug)]
pub enum ExecutionError {
    UnsupportedJobType(JobType),
    CredentialError(VaultError),
    TargetUnreachable(String),
    SmbError(String),
    ServiceError(String),
    InstallerError(String),
    Timeout { phase: String },
    AllTargetsFailed,
}

impl ExecutionError {
    /// The error's message text.
    pub open spec fn spec_message(self) -> Seq<char> {
        match self {
            ExecutionError::UnsupportedJobType(t) => "Unsupported job type: "@ + (match t {
                JobType::MsiInstall => "MsiInstall"@,
                JobType::MsiUninstall => "MsiUninstall"@,
                JobType::Execute => "Execute"@,
            }),
            ExecutionError::CredentialError(e) => "Credential error: "@ + e.spec_message(),
            ExecutionError::TargetUnreachable(m) => "Target unreachable: "@ + m@,
            ExecutionError::SmbError(m) => "SMB error: "@ + m@,
            ExecutionError::ServiceError(m) => "Service execution error: "@ + m@,
            ExecutionError::InstallerError(m) => "Installer error: "@ + m@,
            ExecutionError::Timeout { phase } => "Timeout during "@ + phase@,
            ExecutionError::AllTargetsFailed => "All targets failed"@,
        }
    }

    /// Render the error as text.
    pub fn message(&self) -> (r: String)
        ensures
            r@ == self.spec_message(),
    {
        match self {
            ExecutionError::UnsupportedJobType(t) => String::from_str(
                "Unsupported job type: ",
            ).concat(
                match t {
                    JobType::MsiInstall => "MsiInstall",
                    JobType::MsiUninstall => "MsiUninstall",
                    JobType::Execute => "Execute",
                },
            ),
            ExecutionError::CredentialError(e) => String::from_str("Credential error: ").concat(
                e.message().as_str(),
            ),
            ExecutionError::TargetUnreachable(m) => String::from_str(
                "Target unreachable: ",
            ).concat(m.as_str()),
            ExecutionError::SmbError(m) => String::from_str("SMB error: ").concat(m.as_str()),
            ExecutionError::ServiceError(m) => String::from_str(
                "Service execution error: ",
            ).concat(m.as_str()),
            ExecutionError::InstallerError(m) => String::from_str("Installer error: ").concat(
                m.as_str(),
            ),
            ExecutionError::Timeout { phase } => String::from_str("Timeout during ").concat(
                phase.as_str(),
            ),
            ExecutionError::AllTargetsFailed => String::from_str("All targets failed"),
        }
    }
}

impl From<VaultError> for ExecutionError {
    fn from(e: VaultError) -> (r: ExecutionError) {
        ExecutionError::CredentialError(e)
    }
}

impl vstd::std_specs::convert::FromSpecImpl<VaultError> for ExecutionError {
    open spec fn obeys_from_spec() -> bool {
        true
    }

    open spec fn from_spec(e: VaultError) -> ExecutionError {
        ExecutionError::CredentialError(e)
    }
}

/// What the adapter's remote work returned for one target, one entry per
/// phase that performs outside work.  A phase the state machine never
/// reached is simply not consulted.
#[derive(Debug)]
pub struct TargetPhaseOutcomes {
    /// The reachability probe of the target's file-sharing port
    pub reachability: Result<(), ServiceError>,
    /// Copying the installer onto the target's administrative share
    pub smb_copy: Result<(), SmbError>,
    /// The transient-service run: its exit code, or how it failed
    pub execution: Result<ServiceExecutionResult, ServiceError>,
    /// Deleting the copied installer afterwards (best-effort)
    pub cleanup: Result<(), SmbError>,
}

/// The credential reference a target resolves against: its own override
/// when present, else the job's.
pub open spec fn spec_effective_vault_ref(payload: JobPayload, target: DeploymentTarget) -> Seq<
    char,
> {
    match target.vault_ref {
        Some(v) => v@,
        None => payload.vault_ref@,
    }
}

/// The message credential resolution fails with, or `None` when it
/// succeeds: the inline sentinel demands inline credentials, and any other
/// reference must be present in the store.
pub open spec fn spec_resolution_failure(
    vault: CredentialVault,
    payload: JobPayload,
    target: DeploymentTarget,
) -> Option<Seq<char>> {
    let vr = spec_effective_vault_ref(payload, target);
    if vr == "__inline__"@ {
        if payload.inline_credentials is Some {
            None
        } else {
            Some(
                "Credential not found: "@
                    + "Inline credentials marker set but no credentials provided"@,
            )
        }
    } else {
        match spec_vault_find(vault.entries@, vr) {
            Some(i) => None,
            None => Some("Credential not found: "@ + vr),
        }
    }
}

/// `r` is the failure result a target ends with: tagged with the failing
/// phase, carrying the message, no exit code, and the target's identity.
pub open spec fn spec_is_failure(
    r: TargetResult,
    target: DeploymentTarget,
    msg: Seq<char>,
    phase: ExecutionPhase,
    elapsed: u64,
) -> bool {
    &&& r.hostname == target.hostname
    &&& r.machine_id == target.machine_id
    &&& !r.success
    &&& r.exit_code is None
    &&& match r.error_message {
        Some(m) => m@ == msg,
        None => false,
    }
    &&& r.duration_seconds == elapsed
    &&& r.failed_phase == Some(phase)
}

/// `r` is the result of a completed installer run: it carries the exit
/// code, and reports success exactly when the code does.
pub open spec fn spec_is_completed(
    r: TargetResult,
    target: DeploymentTarget,
    exit_code: i32,
    elapsed: u64,
) -> bool {
    &&& r.hostname == target.hostname
    &&& r.machine_id == target.machine_id
    &&& r.success == spec_exit_code_is_success(exit_code as int)
    &&& r.exit_code == Some(exit_code)
    &&& r.error_message is None
    &&& r.duration_seconds == elapsed
    &&& r.failed_phase is None
}

/// The target's administrative temp share.
pub open spec fn spec_admin_temp_share(hostname: Seq<char>) -> Seq<char> {
    "\\\\"@ + hostname + "\\ADMIN$\\Temp"@
}

/// A path under the target's administrative share, as the target itself
/// sees it: the share prefix (in either letter case) replaced by the local
/// system directory.
pub open spec fn spec_local_admin_path(path: Seq<char>, hostname: Seq<char>) -> Seq<char> {
    spec_replace_all(
        spec_replace_all(path, "\\\\"@ + hostname + "\\ADMIN$"@, "C:\\Windows"@),
        "\\\\"@ + hostname + "\\admin$"@,
        "C:\\Windows"@,
    )
}

/// The result an install target ends with, given its phase outcomes: a
/// non-network source path fails the transfer phase locally, a failed copy
/// or run fails its phase, and a completed run carries its exit code.
pub open spec fn spec_install_result(
    payload: JobPayload,
    target: DeploymentTarget,
    o: TargetPhaseOutcomes,
    elapsed: u64,
    r: TargetResult,
) -> bool {
    if !spec_is_unc(payload.installer_path@) {
        spec_is_failure(
            r,
            target,
            "SMB copy failed: "@ + ("Invalid path format: "@ + ("Source must be a UNC path: "@
                + payload.installer_path@)),
            ExecutionPhase::SmbCopy,
            elapsed,
        )
    } else {
        match o.smb_copy {
            Err(e) => spec_is_failure(
                r,
                target,
                "SMB copy failed: "@ + e.spec_message(),
                ExecutionPhase::SmbCopy,
                elapsed,
            ),
            Ok(_) => match o.execution {
                Err(e) => spec_is_failure(
                    r,
                    target,
                    "Service execution failed: "@ + e.spec_message(),
                    ExecutionPhase::ServiceExecution,
                    elapsed,
                ),
                Ok(res) => spec_is_completed(r, target, res.exit_code, elapsed),
            },
        }
    }
}

/// The result an uninstall target ends with: a missing product code or a
/// malformed curly-braced one fails before any remote call, a failed run
/// fails the execution phase, and a completed run carries its exit code.
pub open spec fn spec_uninstall_result(
    payload: JobPayload,
    target: DeploymentTarget,
    o: TargetPhaseOutcomes,
    elapsed: u64,
    r: TargetResult,
) -> bool {
    match payload.product_code {
        None => spec_is_failure(
            r,
            target,
            "Product code required for uninstall"@,
            ExecutionPhase::ServiceCreation,
            elapsed,
        ),
        Some(code) => {
            if code@.len() > 0 && code@[0] == '{' && !spec_valid_product_code(code@) {
                spec_is_failure(
                    r,
                    target,
                    "Failed to build uninstall command: "@ + ("Invalid product code format: "@
                        + code@),
                    ExecutionPhase::ServiceCreation,
                    elapsed,
                )
            } else {
                match o.execution {
                    Err(e) => spec_is_failure(
                        r,
                        target,
                        "Uninstall failed: "@ + e.spec_message(),
                        ExecutionPhase::ServiceExecution,
                        elapsed,
                    ),
                    Ok(res) => spec_is_completed(r, target, res.exit_code, elapsed),
                }
            }
        },
    }
}

/// The full per-target contract: phases run in order, the first failure
/// ends the target tagged with its phase, and a finished run reports its
/// exit code.  The generic execute kind never reaches the target state
/// machine — the job executor rejects it before any target is attempted —
/// so no result satisfies the contract for it.
pub open spec fn spec_target_result(
    vault: CredentialVault,
    job: DeploymentJob,
    target: DeploymentTarget,
    o: TargetPhaseOutcomes,
    elapsed: u64,
    r: TargetResult,
) -> bool {
    &&& (o.reachability matches Err(e) ==> spec_is_failure(
        r,
        target,
        "Target unreachable: "@ + e.spec_message(),
        ExecutionPhase::ReachabilityCheck,
        elapsed,
    ))
    &&& (o.reachability is Ok ==> match spec_resolution_failure(vault, job.payload, target) {
        Some(msg) => spec_is_failure(
            r,
            target,
            "Credential error: "@ + msg,
            ExecutionPhase::CredentialResolution,
            elapsed,
        ),
        None => match job.job_type {
            JobType::MsiInstall => spec_install_result(job.payload, target, o, elapsed, r),
            JobType::MsiUninstall => spec_uninstall_result(job.payload, target, o, elapsed, r),
            JobType::Execute => false,
        },
    })
}

/// The credential reference a target uses: its own override takes
/// precedence over the job's.
pub fn effective_vault_ref<'a>(payload: &'a JobPayload, target: &'a DeploymentTarget) -> (r:
    &'a String)
    ensures
        r@ == spec_effective_vault_ref(*payload, *target),
{
    match &target.vault_ref {
        Some(v) => v,
        None => &payload.vault_ref,
    }
}

/// The full install command for a target: the installer's destination
/// under the target's administrative share, converted to the target's
/// local view, built into an install command, and wrapped for service
/// execution.  A non-network source path is rejected here, before any
/// transfer.
pub fn plan_install_command(payload: &JobPayload, hostname: &str) -> (r: Result<String, SmbError>)
    ensures
        !spec_is_unc(payload.installer_path@) ==> (r matches Err(e)
            && e matches SmbError::InvalidPath(p) && p@ == "Source must be a UNC path: "@
            + payload.installer_path@),
        spec_is_unc(payload.installer_path@) ==> (r matches Ok(cmd) && cmd@ == "cmd.exe /c "@
            + spec_install_command(
            spec_local_admin_path(
                spec_copy_destination(payload.installer_path@, spec_admin_temp_share(hostname@)),
                hostname@,
            ),
            match payload.install_args {
                Some(a) => Some(a@),
                None => None,
            },
            match payload.enroll_token {
                Some(t) => Some(t@),
                None => None,
            },
        )),
{
    proof {
        reveal_strlit("\\\\");
    }
    let share = String::from_str("\\\\").concat(hostname).concat("\\ADMIN$\\Temp");
    proof {
        assert(share@[0] == '\\');
        assert(share@[1] == '\\');
    }
    let dest = match plan_copy_destination(payload.installer_path.as_str(), share.as_str()) {
        Ok(d) => d,
        Err(e) => {
            return Err(e);
        },
    };
    let upper_prefix = String::from_str("\\\\").concat(hostname).concat("\\ADMIN$");
    let lower_prefix = String::from_str("\\\\").concat(hostname).concat("\\admin$");
    let local_once = replace_all(dest.as_str(), upper_prefix.as_str(), "C:\\Windows");
    let local = replace_all(local_once.as_str(), lower_prefix.as_str(), "C:\\Windows");
    let install_args = match &payload.install_args {
        Some(a) => Some(a.as_str()),
        None => None,
    };
    let enroll_token = match &payload.enroll_token {
        Some(t) => Some(t.as_str()),
        None => None,
    };
    let cmd = match build_msi_install_command(local.as_str(), install_args, enroll_token) {
        Ok(c) => c,
        Err(e) => {
            return Err(SmbError::InvalidPath(e.message()));
        },
    };
    Ok(crate::installer::wrap_for_service_execution(cmd.as_str()))
}

/// The full uninstall command for a product code: validated, built, and
/// wrapped for service execution.
pub fn plan_uninstall_command(product_code: &str, install_args: Option<&str>) -> (r: Result<
    String,
    InstallerError,
>)
    ensures
        (product_code@.len() > 0 && product_code@[0] == '{' && !spec_valid_product_code(
            product_code@,
        )) ==> (r matches Err(e) && e matches InstallerError::InvalidProductCode(c) && c@
            == product_code@),
        !(product_code@.len() > 0 && product_code@[0] == '{' && !spec_valid_product_code(
            product_code@,
        )) ==> (r matches Ok(cmd) && cmd@ == "cmd.exe /c "@ + spec_uninstall_command(
            product_code@,
            match install_args {
                Some(a) => Some(a@),
                None => None,
            },
        )),
{
    let cmd = match build_msi_uninstall_command(product_code, install_args) {
        Ok(c) => c,
        Err(e) => {
            return Err(e);
        },
    };
    Ok(crate::installer::wrap_for_service_execution(cmd.as_str()))
}

/// The phase an adapter performs next for one target, as the sequencing
/// functions below hand it out.  The phase order of the target state
/// machine lives in their contracts: the transfer is reached only after a
/// successful probe and credential resolution on an install job with a
/// valid source path, the run only after the phases before it, and
/// cleanup exactly when a run was attempted on a copied installer.
#[derive(Debug, Clone, Copy, PartialEq, Eq, Structural)]
pub enum TargetStep {
    /// Copy the installer onto the target's administrative share next.
    Copy,
    /// Run the planned command through the transient service next.
    Run,
    /// Delete the copied installer next (best-effort cleanup).
    Cleanup,
    /// No further phase runs for this target.
    Finished,
}

/// Job executor responsible for running deployment jobs.
pub struct JobExecutor {
    pub config: WorkerConfig,
    pub worker_id: String,
}

impl JobExecutor {
    /// Create a new job executor.
    pub fn new(config: WorkerConfig, worker_id: String) -> (r: JobExecutor)
        ensures
            r.config == config,
            r.worker_id == worker_id,
    {
        JobExecutor { config, worker_id }
    }

    /// Resolve credentials from the store or from the payload's inline
    /// credentials.  The inline sentinel requires inline credentials to be
    /// present; any other reference is looked up in the store.
    pub fn resolve_credentials(
        &self,
        vault: &CredentialVault,
        vault_ref: &str,
        inline_credentials: Option<&InlineCredentials>,
    ) -> (r: Result<Credential, VaultError>)
        ensures
            vault_ref@ == "__inline__"@ ==> match inline_credentials {
                Some(ic) => r matches Ok(c) && c.username@ == ic.username@ && c.password@
                    == ic.password@,
                None => r matches Err(e) && e matches VaultError::NotFound(m) && m@
                    == "Inline credentials marker set but no credentials provided"@,
            },
            vault_ref@ != "__inline__"@ ==> match spec_vault_find(vault.entries@, vault_ref@) {
                Some(i) => r matches Ok(c) && c.username@ == vault.entries@[i].username@
                    && c.password@ == vault.entries@[i].password@,
                None => r matches Err(e) && e matches VaultError::NotFound(t) && t@ == vault_ref@,
            },
    {
        if str_eq(vault_ref, "__inline__") {
            match inline_credentials {
                Some(inline) => Ok(
                    Credential::new(inline.username.clone(), inline.password.clone()),
                ),
                None => Err(
                    VaultError::NotFound(
                        String::from_str(
                            "Inline credentials marker set but no credentials provided",
                        ),
                    ),
                ),
            }
        } else {
            vault.get_credential(vault_ref)
        }
    }

    /// What follows the reachability probe for one target: an unreachable
    /// host or a failed credential resolution ends the target's phases at
    /// once — no transfer or run is ever attempted on it — as does a
    /// validation failure (a non-network source path, a missing or
    /// malformed product code).  Otherwise an install target moves to the
    /// transfer and an uninstall target straight to the run.
    pub fn step_after_probe(
        &self,
        vault: &CredentialVault,
        job: &DeploymentJob,
        target: &DeploymentTarget,
        probe: &Result<(), ServiceError>,
    ) -> (r: TargetStep)
        requires
            job.job_type == JobType::MsiInstall || job.job_type == JobType::MsiUninstall,
        ensures
            probe is Err ==> r == TargetStep::Finished,
            probe is Ok ==> match spec_resolution_failure(*vault, job.payload, *target) {
                Some(msg) => r == TargetStep::Finished,
                None => match job.job_type {
                    JobType::MsiInstall => r == (if spec_is_unc(job.payload.installer_path@) {
                        TargetStep::Copy
                    } else {
                        TargetStep::Finished
                    }),
                    JobType::MsiUninstall => r == (match job.payload.product_code {
                        None => TargetStep::Finished,
                        Some(code) => {
                            if code@.len() > 0 && code@[0] == '{' && !spec_valid_product_code(
                                code@,
                            ) {
                                TargetStep::Finished
                            } else {
                                TargetStep::Run
                            }
                        },
                    }),
                    JobType::Execute => false,
                },
            },
    {
        if probe.is_err() {
            return TargetStep::Finished;
        }
        let vault_ref = effective_vault_ref(&job.payload, target);
        let mut credentials = match self.resolve_credentials(
            vault,
            vault_ref.as_str(),
            job.payload.inline_credentials.as_ref(),
        ) {
            Ok(cred) => cred,
            Err(_) => {
                return TargetStep::Finished;
            },
        };
        credentials.scrub();
        match job.job_type {
            JobType::MsiInstall => {
                if crate::smb::is_unc_path(job.payload.installer_path.as_str()) {
                    TargetStep::Copy
                } else {
                    TargetStep::Finished
                }
            },
            JobType::MsiUninstall => {
                match &job.payload.product_code {
                    None => TargetStep::Finished,
                    Some(code) => {
                        let starts_with_brace = if code.as_str().unicode_len() > 0 {
                            code.as_str().get_char(0) == '{'
                        } else {
                            false
                        };
                        if starts_with_brace && !crate::installer::is_valid_product_code(
                            code.as_str(),
                        ) {
                            TargetStep::Finished
                        } else {
                            TargetStep::Run
                        }
                    },
                }
            },
            JobType::Execute => TargetStep::Finished,
        }
    }

    /// What follows the transfer on an install target: a failed copy ends
    /// the target's phases — nothing runs on a host the installer never
    /// reached — and a successful copy moves to the run.
    pub fn step_after_copy(&self, job: &DeploymentJob, copy: &Result<(), SmbError>) -> (r:
        TargetStep)
        requires
            job.job_type == JobType::MsiInstall,
        ensures
            copy is Err ==> r == TargetStep::Finished,
            copy is Ok ==> r == TargetStep::Run,
    {
        match copy {
            Ok(_) => TargetStep::Run,
            Err(_) => TargetStep::Finished,
        }
    }

    /// What follows a run attempt: on an install target the copied
    /// installer is cleaned up unconditionally, whether the run succeeded
    /// or failed; an uninstall target copied nothing and is finished.
    pub fn step_after_run(&self, job: &DeploymentJob) -> (r: TargetStep)
        requires
            job.job_type == JobType::MsiInstall || job.job_type == JobType::MsiUninstall,
        ensures
            job.job_type == JobType::MsiInstall ==> r == TargetStep::Cleanup,
            job.job_type == JobType::MsiUninstall ==> r == TargetStep::Finished,
    {
        match job.job_type {
            JobType::MsiInstall => TargetStep::Cleanup,
            JobType::MsiUninstall => TargetStep::Finished,
            JobType::Execute => TargetStep::Finished,
        }
    }

    /// Execute one job on a single target, deciding over the adapter's
    /// phase outcomes.  Only the supported kinds reach the target state
    /// machine: the job executor rejects the generic execute kind at job
    /// level, before any target is attempted.
    pub fn execute_on_target(
        &self,
        vault: &CredentialVault,
        job: &DeploymentJob,
        target: &DeploymentTarget,
        outcomes: &TargetPhaseOutcomes,
        elapsed_seconds: u64,
    ) -> (r: TargetResult)
        requires
            job.job_type == JobType::MsiInstall || job.job_type == JobType::MsiUninstall,
        ensures
            spec_target_result(*vault, *job, *target, *outcomes, elapsed_seconds, r),
    {
        let hostname = target.hostname.clone();
        let machine_id = clone_opt_string(&target.machine_id);

        // Step 1: reachability probe (fail fast, no retry)
        match &outcomes.reachability {
            Ok(_) => (),
            Err(e) => {
                return TargetResult::failure(
                    hostname,
                    machine_id,
                    String::from_str("Target unreachable: ").concat(e.message().as_str()),
                    elapsed_seconds,
                    ExecutionPhase::ReachabilityCheck,
                );
            },
        }

        // Step 2: resolve credentials
        let vault_ref = effective_vault_ref(&job.payload, target);
        let mut credentials = match self.resolve_credentials(
            vault,
            vault_ref.as_str(),
            job.payload.inline_credentials.as_ref(),
        ) {
            Ok(cred) => cred,
            Err(e) => {
                return TargetResult::failure(
                    hostname,
                    machine_id,
                    String::from_str("Credential error: ").concat(e.message().as_str()),
                    elapsed_seconds,
                    ExecutionPhase::CredentialResolution,
                );
            },
        };

        // Step 3: execute based on job type
        let result = match job.job_type {
            JobType::MsiInstall => self.execute_msi_install(
                job,
                target,
                &credentials,
                outcomes,
                elapsed_seconds,
            ),
            JobType::MsiUninstall => self.execute_msi_uninstall(
                job,
                target,
                &credentials,
                outcomes,
                elapsed_seconds,
            ),
            JobType::Execute => {
                // excluded by the precondition: the generic kind is
                // rejected at job level before any target runs
                TargetResult::failure(
                    hostname,
                    machine_id,
                    ExecutionError::UnsupportedJobType(JobType::Execute).message(),
                    elapsed_seconds,
                    ExecutionPhase::ServiceCreation,
                )
            },
        };

        // the secret is wiped before its storage is released
        credentials.scrub();
        result
    }

    /// Execute an MSI installation on a target, deciding over the
    /// adapter's phase outcomes.  Cleanup of the copied installer is the
    /// final phase outcome and is best-effort: it never flips a completed
    /// run's result.
    pub fn execute_msi_install(
        &self,
        job: &DeploymentJob,
        target: &DeploymentTarget,
        credentials: &Credential,
        outcomes: &TargetPhaseOutcomes,
        elapsed_seconds: u64,
    ) -> (r: TargetResult)
        ensures
            spec_install_result(job.payload, *target, *outcomes, elapsed_seconds, r),
    {
        let hostname = target.hostname.clone();
        let machine_id = clone_opt_string(&target.machine_id);

        // Step 3a: plan the copy and the command; a malformed source path
        // is a local validation error in the transfer phase
        match plan_install_command(&job.payload, target.hostname.as_str()) {
            Ok(_) => (),
            Err(e) => {
                return TargetResult::failure(
                    hostname,
                    machine_id,
                    String::from_str("SMB copy failed: ").concat(e.message().as_str()),
                    elapsed_seconds,
                    ExecutionPhase::SmbCopy,
                );
            },
        }

        // Step 3b: the copy itself
        match &outcomes.smb_copy {
            Ok(_) => (),
            Err(e) => {
                return TargetResult::failure(
                    hostname,
                    machine_id,
                    String::from_str("SMB copy failed: ").concat(e.message().as_str()),
                    elapsed_seconds,
                    ExecutionPhase::SmbCopy,
                );
            },
        }

        // Step 3c: the service run; cleanup (outcomes.cleanup) follows it
        // unconditionally and its failure is not a target failure
        match &outcomes.execution {
            Ok(res) => TargetResult::success(
                hostname,
                machine_id,
                res.exit_code,
                elapsed_seconds,
            ),
            Err(e) => TargetResult::failure(
                hostname,
                machine_id,
                String::from_str("Service execution failed: ").concat(e.message().as_str()),
                elapsed_seconds,
                ExecutionPhase::ServiceExecution,
            ),
        }
    }

    /// Execute an MSI uninstall on a target, deciding over the adapter's
    /// phase outcomes.  A missing or malformed product code fails before
    /// any remote call.
    pub fn execute_msi_uninstall(
        &self,
        job: &DeploymentJob,
        target: &DeploymentTarget,
        credentials: &Credential,
        outcomes: &TargetPhaseOutcomes,
        elapsed_seconds: u64,
    ) -> (r: TargetResult)
        ensures
            spec_uninstall_result(job.payload, *target, *outcomes, elapsed_seconds, r),
    {
        let hostname = target.hostname.clone();
        let machine_id = clone_opt_string(&target.machine_id);

        let product_code = match &job.payload.product_code {
            Some(code) => code,
            None => {
                return TargetResult::failure(
                    hostname,
                    machine_id,
                    String::from_str("Product code required for uninstall"),
                    elapsed_seconds,
                    ExecutionPhase::ServiceCreation,
                );
            },
        };

        let install_args = match &job.payload.install_args {
            Some(a) => Some(a.as_str()),
            None => None,
        };
        match plan_uninstall_command(product_code.as_str(), install_args) {
            Ok(_) => (),
            Err(e) => {
                return TargetResult::failure(
                    hostname,
                    machine_id,
                    String::from_str("Failed to build uninstall command: ").concat(
                        e.message().as_str(),
                    ),
                    elapsed_seconds,
                    ExecutionPhase::ServiceCreation,
                );
            },
        }

        match &outcomes.execution {
            Ok(res) => TargetResult::success(
                hostname,
                machine_id,
                res.exit_code,
                elapsed_seconds,
            ),
            Err(e) => TargetResult::failure(
                hostname,
                machine_id,
                String::from_str("Uninstall failed: ").concat(e.message().as_str()),
                elapsed_seconds,
                ExecutionPhase::ServiceExecution,
            ),
        }
    }

    /// Execute a deployment job.  An unsupported kind is rejected at job
    /// level: the result carries the job-level error, status failed, and
    /// no target results — no target is attempted.  For a supported kind,
    /// every target is driven through the phase state machine in list
    /// order, each target's result is appended in that order, and the
    /// finished result carries the derived overall status.  No target's
    /// failure aborts the job.
    pub fn execute(
        &self,
        vault: &CredentialVault,
        job: &DeploymentJob,
        outcomes: &Vec<TargetPhaseOutcomes>,
        elapsed_per_target: &Vec<u64>,
        started_at: i64,
        completed_at: i64,
    ) -> (r: JobResult)
        requires
            outcomes@.len() == job.payload.targets@.len(),
            elapsed_per_target@.len() == job.payload.targets@.len(),
        ensures
            r.job_id == job.id,
            r.worker_id == self.worker_id,
            r.started_at == started_at,
            r.completed_at == completed_at,
            r.duration_seconds == spec_duration_seconds(started_at, completed_at),
            job.job_type == JobType::Execute ==> {
                &&& r.error_message matches Some(m) && m@ == "Unsupported job type: "@
                    + "Execute"@
                &&& r.status == JobStatus::Failed
                &&& r.target_results@.len() == 0
            },
            job.job_type != JobType::Execute ==> {
                &&& r.error_message is None
                &&& r.target_results@.len() == job.payload.targets@.len()
                &&& forall|i: int|
                    0 <= i < job.payload.targets@.len() ==> spec_target_result(
                        *vault,
                        *job,
                        job.payload.targets@[i],
                        outcomes@[i],
                        elapsed_per_target@[i],
                        #[trigger] r.target_results@[i],
                    )
                &&& r.status == spec_derive_status(r.target_results@)
            },
    {
        let mut result = JobResult::new(job.id.clone(), self.worker_id.clone(), started_at);

        // job-level validation: an unsupported kind is rejected before any
        // target is attempted
        if !job.job_type.is_supported() {
            result.error_message = Some(
                String::from_str("Unsupported job type: ").concat(
                    match job.job_type {
                        JobType::MsiInstall => "MsiInstall",
                        JobType::MsiUninstall => "MsiUninstall",
                        JobType::Execute => "Execute",
                    },
                ),
            );
            result.status = JobStatus::Failed;
            result.finalize(completed_at);
            return result;
        }

        let total = job.payload.targets.len();
        let mut i: usize = 0;
        while i < total
            invariant
                i <= total,
                job.job_type == JobType::MsiInstall || job.job_type == JobType::MsiUninstall,
                total == job.payload.targets@.len(),
                outcomes@.len() == total,
                elapsed_per_target@.len() == total,
                result.job_id == job.id,
                result.worker_id == self.worker_id,
                result.started_at == started_at,
                result.error_message is None,
                result.target_results@.len() == i,
                forall|j: int|
                    0 <= j < i ==> spec_target_result(
                        *vault,
                        *job,
                        job.payload.targets@[j],
                        outcomes@[j],
                        elapsed_per_target@[j],
                        #[trigger] result.target_results@[j],
                    ),
            decreases total - i,
        {
            let target_result = self.execute_on_target(
                vault,
                job,
                &job.payload.targets[i],
                &outcomes[i],
                elapsed_per_target[i],
            );
            result.target_results.push(target_result);
            i = i + 1;
        }

        result.finalize(completed_at);
        result
    }
}

} // verus!
