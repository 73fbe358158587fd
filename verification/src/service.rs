//! Remote execution client: the transient-service session that runs one
//! installer command on a target host.
//!
//! The session is a fixed sequence — connect to the service control manager,
//! create a uniquely named service, start it, poll until it stops, delete it
//! — and every decision along it is verified: which outcome ends the
//! session, when polling times out, and that a failed delete never turns a
//! completed run into a failure.

use vstd::prelude::*;

use crate::strutil::{spec_decimal, spec_decimal_signed, i64_to_decimal, u64_to_decimal};

verus! {

/// The run state a stopped service reports.
pub const SERVICE_STOPPED_STATE: u32 = 1;

/// The run state of a service that is still starting.
pub const SERVICE_START_PENDING_STATE: u32 = 2;

/// The run state of a running service.
pub const SERVICE_RUNNING_STATE: u32 = 4;

/// Errors from service operations.
#[derive(Debug)]
pub enum ServiceError {
    ScmConnectionFailed { host: String, message: String },
    ServiceCreationFailed { name: String, message: String },
    ServiceStartFailed { name: String, message: String },
    ServiceDeleteFailed { name: String, message: String },
    Timeout { seconds: u64 },
    ExecutionFailed { code: i32 },
    AccessDenied { resource: String },
    NetworkError(String),
}

impl ServiceError {
    /// The error's message text.
    pub open spec fn spec_message(self) -> Seq<char> {
        match self {
            ServiceError::ScmConnectionFailed { host, message } => "Failed to connect to SCM on "@
                + host@ + ": "@ + message@,
            ServiceError::ServiceCreationFailed { name, message } => "Failed to create service "@
                + name@ + ": "@ + message@,
            ServiceError::ServiceStartFailed { name, message } => "Failed to start service "@
                + name@ + ": "@ + message@,
            ServiceError::ServiceDeleteFailed { name, message } => "Failed to delete service "@
                + name@ + ": "@ + message@,
            ServiceError::Timeout { seconds } => "Service execution timed out after "@
                + spec_decimal(seconds as int) + "s"@,
            ServiceError::ExecutionFailed { code } => "Service exited with error code "@
                + spec_decimal_signed(code as int),
            ServiceError::AccessDenied { resource } => "Access denied to "@ + resource@,
            ServiceError::NetworkError(m) => "Network error: "@ + m@,
        }
    }

    /// Render the error as text.
    pub fn message(&self) -> (r: String)
        ensures
            r@ == self.spec_message(),
    {
        match self {
            ServiceError::ScmConnectionFailed { host, message } => String::from_str(
                "Failed to connect to SCM on ",
            ).concat(host.as_str()).concat(": ").concat(message.as_str()),
            ServiceError::ServiceCreationFailed { name, message } => String::from_str(
                "Failed to create service ",
            ).concat(name.as_str()).concat(": ").concat(message.as_str()),
            ServiceError::ServiceStartFailed { name, message } => String::from_str(
                "Failed to start service ",
            ).concat(name.as_str()).concat(": ").concat(message.as_str()),
            ServiceError::ServiceDeleteFailed { name, message } => String::from_str(
                "Failed to delete service ",
            ).concat(name.as_str()).concat(": ").concat(message.as_str()),
            ServiceError::Timeout { seconds } => String::from_str(
                "Service execution timed out after ",
            ).concat(u64_to_decimal(*seconds).as_str()).concat("s"),
            ServiceError::ExecutionFailed { code } => String::from_str(
                "Service exited with error code ",
            ).concat(i64_to_decimal(*code as i64).as_str()),
            ServiceError::AccessDenied { resource } => String::from_str(
                "Access denied to ",
            ).concat(resource.as_str()),
            ServiceError::NetworkError(m) => String::from_str("Network error: ").concat(
                m.as_str(),
            ),
        }
    }
}

/// Result of one service execution.
#[derive(Debug)]
pub struct ServiceExecutionResult {
    /// Exit code from the command (0 = success)
    pub exit_code: i32,
    /// Duration of execution in seconds
    pub duration_seconds: u64,
    /// Whether cleanup was successful
    pub cleanup_success: bool,
}

/// Relies on `uuid::Uuid::new_v4` and `uuid::fmt::Simple`: the simple
/// rendering of a (random) UUID is exactly 32 ASCII hexadecimal characters.
#[verifier::external_body]
fn fresh_uuid_simple() -> (r: String)
    ensures
        r@.len() == 32,
        r.is_ascii(),
{
    uuid::Uuid::new_v4().simple().to_string()
}

/// Generate a unique temporary service name: a fixed worker prefix followed
/// by eight characters of a fresh unique token.
pub fn generate_temp_service_name() -> (r: String)
    ensures
        r@.len() == 21,
        r@.subrange(0, 13) == "DeployWorker_"@,
{
    proof {
        reveal_strlit("DeployWorker_");
    }
    let uuid = fresh_uuid_simple();
    let short = uuid.as_str().substring_ascii(0, 8);
    let r = String::from_str("DeployWorker_").concat(short);
    proof {
        assert(r@.subrange(0, 13) =~= "DeployWorker_"@);
    }
    r
}

/// What the poll loop does next after one status query.
#[derive(Debug, Clone, Copy, PartialEq, Eq, Structural)]
pub enum WaitDecision {
    /// The service stopped; its exit code is final.
    Stopped(i32),
    /// The service is still running or starting; poll again.
    KeepWaiting,
    /// The configured execution timeout has passed.
    TimedOut,
}

/// Decide what one status poll means: past the timeout the wait ends in a
/// distinct "timed out" outcome, a stopped service yields its exit code,
/// and anything else keeps waiting.
pub fn wait_poll_decision(
    elapsed_seconds: u64,
    timeout_seconds: u64,
    state: u32,
    exit_code: i32,
) -> (r: WaitDecision)
    ensures
        elapsed_seconds > timeout_seconds ==> r == WaitDecision::TimedOut,
        elapsed_seconds <= timeout_seconds && state == SERVICE_STOPPED_STATE ==> r
            == WaitDecision::Stopped(exit_code),
        elapsed_seconds <= timeout_seconds && state != SERVICE_STOPPED_STATE ==> r
            == WaitDecision::KeepWaiting,
{
    if elapsed_seconds > timeout_seconds {
        WaitDecision::TimedOut
    } else if state == SERVICE_STOPPED_STATE {
        WaitDecision::Stopped(exit_code)
    } else {
        WaitDecision::KeepWaiting
    }
}

/// What each step of one transient-service session returned.
#[derive(Debug)]
pub struct ServiceSessionOutcomes {
    /// Connecting to the target's service control manager
    pub scm_connect: Result<(), ServiceError>,
    /// Creating the uniquely named transient service
    pub create: Result<(), ServiceError>,
    /// Starting the service
    pub start: Result<(), ServiceError>,
    /// Polling until the service stops: its exit code, or a timeout
    pub wait: Result<i32, ServiceError>,
    /// Deleting the service afterwards
    pub delete: Result<(), ServiceError>,
}

/// Drive one transient-service session from its step outcomes: the first
/// failing step ends the session with that step's error, the exit code is
/// whatever the wait observed, and a failed delete only clears the cleanup
/// flag — it never fails a completed run.
pub fn run_service_session(outcomes: ServiceSessionOutcomes, duration_seconds: u64) -> (r: Result<
    ServiceExecutionResult,
    ServiceError,
>)
    ensures
        outcomes.scm_connect matches Err(e) ==> r == Err::<ServiceExecutionResult, ServiceError>(
            e,
        ),
        outcomes.scm_connect is Ok ==> (outcomes.create matches Err(e) ==> r == Err::<
            ServiceExecutionResult,
            ServiceError,
        >(e)),
        outcomes.scm_connect is Ok && outcomes.create is Ok ==> (outcomes.start matches Err(e)
            ==> r == Err::<ServiceExecutionResult, ServiceError>(e)),
        outcomes.scm_connect is Ok && outcomes.create is Ok && outcomes.start is Ok ==> (
        outcomes.wait matches Err(e) ==> r == Err::<ServiceExecutionResult, ServiceError>(e)),
        outcomes.scm_connect is Ok && outcomes.create is Ok && outcomes.start is Ok ==> (
        outcomes.wait matches Ok(code) ==> (r matches Ok(res) && res.exit_code == code
            && res.duration_seconds == duration_seconds && res.cleanup_success == (
        outcomes.delete is Ok))),
{
    match outcomes.scm_connect {
        Ok(()) => (),
        Err(e) => {
            return Err(e);
        },
    }
    match outcomes.create {
        Ok(()) => (),
        Err(e) => {
            return Err(e);
        },
    }
    match outcomes.start {
        Ok(()) => (),
        Err(e) => {
            return Err(e);
        },
    }
    let exit_code = match outcomes.wait {
        Ok(code) => code,
        Err(e) => {
            return Err(e);
        },
    };
    let cleanup_success = match outcomes.delete {
        Ok(()) => true,
        Err(_) => false,
    };
    Ok(ServiceExecutionResult { exit_code, duration_seconds, cleanup_success })
}

} // verus!
