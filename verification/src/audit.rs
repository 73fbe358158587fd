//! Structured audit events: the event taxonomy and the builder that fills
//! one in.
//!
//! Emitting events to the logging sinks is the adapter's concern; the
//! event's shape and its construction are verified here.

use vstd::prelude::*;

verus! {

/// Errors from logging setup.
#[derive(Debug)]
pub enum LogError {
    DirectoryCreation(String),
    Initialization(String),
}

impl LogError {
    /// The error's message text.
    pub open spec fn spec_message(self) -> Seq<char> {
        match self {
            LogError::DirectoryCreation(m) => "Failed to create log directory: "@ + m@,
            LogError::Initialization(m) => "Failed to initialize logging: "@ + m@,
        }
    }

    /// Render the error as text.
    pub fn message(&self) -> (r: String)
        ensures
            r@ == self.spec_message(),
    {
        match self {
            LogError::DirectoryCreation(m) => String::from_str(
                "Failed to create log directory: ",
            ).concat(m.as_str()),
            LogError::Initialization(m) => String::from_str(
                "Failed to initialize logging: ",
            ).concat(m.as_str()),
        }
    }
}

/// Audit event types for structured logging.
#[derive(Debug, Clone, Copy, PartialEq, Eq, Structural)]
pub enum AuditEventType {
    /// Worker started
    WorkerStarted,
    /// Worker stopped
    WorkerStopped,
    /// Job received from backend
    JobReceived,
    /// Job execution started
    JobStarted,
    /// Successfully connected to target
    TargetConnected,
    /// File copied to the target
    FileCopied,
    /// Installation started on target
    InstallStarted,
    /// Installation completed on target
    InstallCompleted,
    /// Cleanup completed
    CleanupCompleted,
    /// Job completed (all targets)
    JobCompleted,
    /// Error occurred
    Error,
    /// Security event (credential access, etc.)
    Security,
}

impl AuditEventType {
    /// The event type's wire name.
    pub open spec fn spec_name(self) -> Seq<char> {
        match self {
            AuditEventType::WorkerStarted => "WORKER_STARTED"@,
            AuditEventType::WorkerStopped => "WORKER_STOPPED"@,
            AuditEventType::JobReceived => "JOB_RECEIVED"@,
            AuditEventType::JobStarted => "JOB_STARTED"@,
            AuditEventType::TargetConnected => "TARGET_CONNECTED"@,
            AuditEventType::FileCopied => "FILE_COPIED"@,
            AuditEventType::InstallStarted => "INSTALL_STARTED"@,
            AuditEventType::InstallCompleted => "INSTALL_COMPLETED"@,
            AuditEventType::CleanupCompleted => "CLEANUP_COMPLETED"@,
            AuditEventType::JobCompleted => "JOB_COMPLETED"@,
            AuditEventType::Error => "ERROR"@,
            AuditEventType::Security => "SECURITY"@,
        }
    }

    /// Render the event type's name.
    pub fn name(&self) -> (r: &'static str)
        ensures
            r@ == self.spec_name(),
    {
        match self {
            AuditEventType::WorkerStarted => "WORKER_STARTED",
            AuditEventType::WorkerStopped => "WORKER_STOPPED",
            AuditEventType::JobReceived => "JOB_RECEIVED",
            AuditEventType::JobStarted => "JOB_STARTED",
            AuditEventType::TargetConnected => "TARGET_CONNECTED",
            AuditEventType::FileCopied => "FILE_COPIED",
            AuditEventType::InstallStarted => "INSTALL_STARTED",
            AuditEventType::InstallCompleted => "INSTALL_COMPLETED",
            AuditEventType::CleanupCompleted => "CLEANUP_COMPLETED",
            AuditEventType::JobCompleted => "JOB_COMPLETED",
            AuditEventType::Error => "ERROR",
            AuditEventType::Security => "SECURITY",
        }
    }
}

/// Structured audit event.
#[derive(Debug)]
pub struct AuditEvent {
    /// Type of event
    pub event_type: AuditEventType,
    /// Related job ID (if any)
    pub job_id: Option<String>,
    /// Target hostname (if applicable)
    pub target: Option<String>,
    /// Status or result
    pub status: String,
    /// Additional details
    pub details: String,
    /// Worker ID
    pub worker_id: Option<String>,
}

impl AuditEvent {
    /// Create a new audit event.
    pub fn new(event_type: AuditEventType, status: &str, details: &str) -> (r: AuditEvent)
        ensures
            r.event_type == event_type,
            r.job_id is None,
            r.target is None,
            r.status@ == status@,
            r.details@ == details@,
            r.worker_id is None,
    {
        AuditEvent {
            event_type,
            job_id: None,
            target: None,
            status: String::from_str(status),
            details: String::from_str(details),
            worker_id: None,
        }
    }

    /// Set the job ID.
    pub fn with_job_id(self, job_id: &str) -> (r: AuditEvent)
        ensures
            r.job_id matches Some(j) && j@ == job_id@,
            r.event_type == self.event_type,
            r.target == self.target,
            r.status == self.status,
            r.details == self.details,
            r.worker_id == self.worker_id,
    {
        let mut this = self;
        this.job_id = Some(String::from_str(job_id));
        this
    }

    /// Set the target hostname.
    pub fn with_target(self, target: &str) -> (r: AuditEvent)
        ensures
            r.target matches Some(t) && t@ == target@,
            r.event_type == self.event_type,
            r.job_id == self.job_id,
            r.status == self.status,
            r.details == self.details,
            r.worker_id == self.worker_id,
    {
        let mut this = self;
        this.target = Some(String::from_str(target));
        this
    }

    /// Set the worker ID.
    pub fn with_worker_id(self, worker_id: &str) -> (r: AuditEvent)
        ensures
            r.worker_id matches Some(w) && w@ == worker_id@,
            r.event_type == self.event_type,
            r.job_id == self.job_id,
            r.target == self.target,
            r.status == self.status,
            r.details == self.details,
    {
        let mut this = self;
        this.worker_id = Some(String::from_str(worker_id));
        this
    }
}

} // verus!
