//! Job and result data model: jobs received from the backend, per-target
//! results produced by execution, and the rule deriving an overall job
//! status from its target results.
//!
//! Timestamps are carried as plain Unix seconds and identifiers as strings;
//! the adapter converts at the wire.

use vstd::prelude::*;

verus! {

/// Supported job types.
#[derive(Debug, Clone, Copy, PartialEq, Eq, Structural)]
pub enum JobType {
    /// Install MSI package
    MsiInstall,
    /// Uninstall MSI package
    MsiUninstall,
    /// Generic executable
    Execute,
}

impl JobType {
    /// Check if this job type is supported by this worker: the install and
    /// uninstall kinds are; the generic execute kind is accepted on the
    /// wire but is not supported and is rejected before execution.
    pub fn is_supported(&self) -> (r: bool)
        ensures
            r == (*self == JobType::MsiInstall || *self == JobType::MsiUninstall),
    {
        matches!(self, JobType::MsiInstall | JobType::MsiUninstall)
    }

    /// The job type's human-readable name.
    pub open spec fn spec_as_str(self) -> Seq<char> {
        match self {
            JobType::MsiInstall => "MSI Install"@,
            JobType::MsiUninstall => "MSI Uninstall"@,
            JobType::Execute => "Execute"@,
        }
    }

    /// Get human-readable name.
    pub fn as_str(&self) -> (r: &'static str)
        ensures
            r@ == self.spec_as_str(),
    {
        match self {
            JobType::MsiInstall => "MSI Install",
            JobType::MsiUninstall => "MSI Uninstall",
            JobType::Execute => "Execute",
        }
    }
}

/// Default job priority when the backend sends none (lower = more urgent).
pub fn default_priority() -> (r: u8)
    ensures
        r == 5,
{
    5
}

/// Default credential type for inline credentials.
pub fn default_credential_type() -> (r: String)
    ensures
        r@ == "domain_admin"@,
{
    String::from_str("domain_admin")
}

/// Inline credentials supplied with a single job (never stored).
#[derive(Debug)]
pub struct InlineCredentials {
    /// Username (e.g., a domain-qualified account name)
    pub username: String,
    /// Password
    pub password: String,
    /// Credential type: "local_admin" or "domain_admin"
    pub credential_type: String,
}

/// Target machine for deployment.
#[derive(Debug)]
pub struct DeploymentTarget {
    /// Hostname or IP address of the target machine
    pub hostname: String,
    /// Optional per-target credential override
    pub vault_ref: Option<String>,
    /// Optional machine identifier (for tracking)
    pub machine_id: Option<String>,
}

/// Job payload containing execution details.
#[derive(Debug)]
pub struct JobPayload {
    /// Source path to the installer, a UNC path
    pub installer_path: String,
    /// Credential store reference; the sentinel selects inline credentials
    pub vault_ref: String,
    /// Inline credentials (used when `vault_ref` is the inline sentinel)
    pub inline_credentials: Option<InlineCredentials>,
    /// Additional installer arguments
    pub install_args: Option<String>,
    /// Enrollment token handed to the installer
    pub enroll_token: Option<String>,
    /// List of target machines to deploy to
    pub targets: Vec<DeploymentTarget>,
    /// Product code for uninstall operations
    pub product_code: Option<String>,
    /// Whether to force restart after installation
    pub force_restart: bool,
}

/// Deployment job received from the backend.
#[derive(Debug)]
pub struct DeploymentJob {
    /// Unique job identifier
    pub id: String,
    /// Type of job to execute
    pub job_type: JobType,
    /// When the job was created, Unix seconds
    pub created_at: i64,
    /// Job priority (lower = higher priority)
    pub priority: u8,
    /// Job-specific payload
    pub payload: JobPayload,
    /// Worker ID that claimed this job (set by backend)
    pub claimed_by: Option<String>,
    /// When the job was claimed, Unix seconds
    pub claimed_at: Option<i64>,
}

/// Overall job status.
#[derive(Debug, Clone, Copy, PartialEq, Eq, Structural)]
pub enum JobStatus {
    /// All targets succeeded
    Success,
    /// Some targets succeeded, some failed
    PartialSuccess,
    /// All targets failed or job-level error
    Failed,
}

/// Execution phases, used to tag where a target-level failure occurred.
#[derive(Debug, Clone, Copy, PartialEq, Eq, Structural)]
pub enum ExecutionPhase {
    /// Checking if target is reachable
    ReachabilityCheck,
    /// Resolving credentials
    CredentialResolution,
    /// Copying installer to the target's share
    SmbCopy,
    /// Creating the transient service
    ServiceCreation,
    /// Starting and monitoring the service
    ServiceExecution,
    /// Cleanup operations
    Cleanup,
}

/// Result for a single target machine.
#[derive(Debug)]
pub struct TargetResult {
    /// Target hostname
    pub hostname: String,
    /// Machine ID (if provided)
    pub machine_id: Option<String>,
    /// Whether the operation succeeded
    pub success: bool,
    /// Exit code from the installer (0 = success, 3010 = reboot required)
    pub exit_code: Option<i32>,
    /// Error message if failed
    pub error_message: Option<String>,
    /// Duration for this target in seconds
    pub duration_seconds: u64,
    /// Execution phase where failure occurred (if any)
    pub failed_phase: Option<ExecutionPhase>,
}

impl TargetResult {
    /// Create a successful result; the success flag is set exactly when the
    /// exit code is 0 or 3010 (reboot required).
    pub fn success(
        hostname: String,
        machine_id: Option<String>,
        exit_code: i32,
        duration_seconds: u64,
    ) -> (r: TargetResult)
        ensures
            r.hostname == hostname,
            r.machine_id == machine_id,
            r.success == (exit_code == 0 || exit_code == 3010),
            r.exit_code == Some(exit_code),
            r.error_message is None,
            r.duration_seconds == duration_seconds,
            r.failed_phase is None,
    {
        TargetResult {
            hostname,
            machine_id,
            success: exit_code == 0 || exit_code == 3010,
            exit_code: Some(exit_code),
            error_message: None,
            duration_seconds,
            failed_phase: None,
        }
    }

    /// Create a failed result tagged with the phase where the failure
    /// occurred.
    pub fn failure(
        hostname: String,
        machine_id: Option<String>,
        error: String,
        duration_seconds: u64,
        phase: ExecutionPhase,
    ) -> (r: TargetResult)
        ensures
            r.hostname == hostname,
            r.machine_id == machine_id,
            !r.success,
            r.exit_code is None,
            r.error_message == Some(error),
            r.duration_seconds == duration_seconds,
            r.failed_phase == Some(phase),
    {
        TargetResult {
            hostname,
            machine_id,
            success: false,
            exit_code: None,
            error_message: Some(error),
            duration_seconds,
            failed_phase: Some(phase),
        }
    }
}

/// All results in the sequence report success.
pub open spec fn spec_all_succeeded(rs: Seq<TargetResult>) -> bool {
    forall|i: int| 0 <= i < rs.len() ==> (#[trigger] rs[i]).success
}

/// No result in the sequence reports success.
pub open spec fn spec_none_succeeded(rs: Seq<TargetResult>) -> bool {
    forall|i: int| 0 <= i < rs.len() ==> !(#[trigger] rs[i]).success
}

/// The overall status a list of target results derives to: all succeeded is
/// success, none succeeded (or no results at all) is failure, and anything
/// in between is partial success.
pub open spec fn spec_derive_status(rs: Seq<TargetResult>) -> JobStatus {
    if rs.len() == 0 {
        JobStatus::Failed
    } else if spec_all_succeeded(rs) {
        JobStatus::Success
    } else if spec_none_succeeded(rs) {
        JobStatus::Failed
    } else {
        JobStatus::PartialSuccess
    }
}

/// The derived status characterized by three mutually exclusive cases:
/// success exactly when there is at least one result and all succeeded,
/// failure exactly when there are no results or none succeeded, and partial
/// success exactly otherwise.
pub proof fn lemma_status_derivation(rs: Seq<TargetResult>)
    ensures
        (spec_derive_status(rs) == JobStatus::Success) <==> (rs.len() > 0 && spec_all_succeeded(
            rs,
        )),
        (spec_derive_status(rs) == JobStatus::Failed) <==> (rs.len() == 0 || spec_none_succeeded(
            rs,
        )),
        (spec_derive_status(rs) == JobStatus::PartialSuccess) <==> (rs.len() > 0
            && !spec_all_succeeded(rs) && !spec_none_succeeded(rs)),
{
    if rs.len() > 0 && spec_all_succeeded(rs) && spec_none_succeeded(rs) {
        assert(rs[0].success);
        assert(!rs[0].success);
    }
}

/// The duration between two Unix timestamps, clamped to `u64`.
pub open spec fn spec_duration_seconds(started_at: i64, completed_at: i64) -> u64 {
    if completed_at < started_at {
        0u64
    } else if completed_at - started_at > u64::MAX {
        u64::MAX
    } else {
        (completed_at - started_at) as u64
    }
}

/// Job result, one per executed job, reported back to the backend.
#[derive(Debug)]
pub struct JobResult {
    /// Job ID being reported
    pub job_id: String,
    /// Worker ID that executed the job
    pub worker_id: String,
    /// Overall job status
    pub status: JobStatus,
    /// When execution started, Unix seconds
    pub started_at: i64,
    /// When execution completed, Unix seconds
    pub completed_at: i64,
    /// Total duration in seconds
    pub duration_seconds: u64,
    /// Results for each target
    pub target_results: Vec<TargetResult>,
    /// Overall error message (if any)
    pub error_message: Option<String>,
}

impl JobResult {
    /// Create a new job result; the completion time mirrors the start time
    /// until `finalize` stamps the real one.
    pub fn new(job_id: String, worker_id: String, started_at: i64) -> (r: JobResult)
        ensures
            r.job_id == job_id,
            r.worker_id == worker_id,
            r.status == JobStatus::Success,
            r.started_at == started_at,
            r.completed_at == started_at,
            r.duration_seconds == 0,
            r.target_results@ == Seq::<TargetResult>::empty(),
            r.error_message is None,
    {
        let r = JobResult {
            job_id,
            worker_id,
            status: JobStatus::Success,
            started_at,
            completed_at: started_at,
            duration_seconds: 0,
            target_results: Vec::new(),
            error_message: None,
        };
        proof {
            assert(r.target_results@ =~= Seq::<TargetResult>::empty());
        }
        r
    }

    /// Calculate the overall status from the target results.
    pub fn calculate_status(&self) -> (r: JobStatus)
        ensures
            r == spec_derive_status(self.target_results@),
    {
        let total = self.target_results.len();
        if total == 0 {
            return JobStatus::Failed;
        }
        let mut success_count: usize = 0;
        let mut i: usize = 0;
        while i < total
            invariant
                i <= total,
                total == self.target_results@.len(),
                success_count <= i,
                (success_count == i) == spec_all_succeeded(self.target_results@.subrange(
                    0,
                    i as int,
                )),
                (success_count == 0) == spec_none_succeeded(self.target_results@.subrange(
                    0,
                    i as int,
                )),
            decreases total - i,
        {
            let ghost pre = self.target_results@.subrange(0, i as int);
            let ghost post = self.target_results@.subrange(0, i + 1);
            proof {
                assert(forall|j: int| 0 <= j < i ==> post[j] == pre[j]);
                assert(post[i as int] == self.target_results@[i as int]);
            }
            if self.target_results[i].success {
                success_count = success_count + 1;
            } else {
                proof {
                    assert(!post[i as int].success);
                }
            }
            i = i + 1;
        }
        proof {
            assert(self.target_results@.subrange(0, total as int) =~= self.target_results@);
        }
        if success_count == total {
            JobStatus::Success
        } else if success_count > 0 {
            JobStatus::PartialSuccess
        } else {
            JobStatus::Failed
        }
    }

    /// Finalize the result: stamp the completion time, compute the duration,
    /// and derive the overall status from the target results.
    pub fn finalize(&mut self, completed_at: i64)
        ensures
            final (self).completed_at == completed_at,
            final (self).duration_seconds == spec_duration_seconds(
                old(self).started_at,
                completed_at,
            ),
            final (self).status == spec_derive_status(old(self).target_results@),
            final (self).job_id == old(self).job_id,
            final (self).worker_id == old(self).worker_id,
            final (self).started_at == old(self).started_at,
            final (self).target_results == old(self).target_results,
            final (self).error_message == old(self).error_message,
    {
        self.completed_at = completed_at;
        if completed_at < self.started_at {
            self.duration_seconds = 0;
        } else {
            let d: i128 = completed_at as i128 - self.started_at as i128;
            if d > u64::MAX as i128 {
                self.duration_seconds = u64::MAX;
            } else {
                self.duration_seconds = d as u64;
            }
        }
        self.status = self.calculate_status();
    }
}

/// Error response body the backend sends with a failing status.
#[derive(Debug)]
pub struct ApiErrorResponse {
    pub detail: String,
    pub error_code: Option<String>,
}

} // verus!
