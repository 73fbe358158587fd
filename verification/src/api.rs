//! Backend API contract: error taxonomy, URL construction, and the
//! classification of poll and report responses.
//!
//! The HTTP transport lives in the adapter; it hands the status code, the
//! relevant header, and the error body here, and everything the worker
//! decides about a response is verified.

use vstd::prelude::*;

use crate::credentials::VaultError;
use crate::strutil::{
    parse_u64_decimal, replace_all, spec_all_dec_digits, spec_decimal, spec_digits_value,
    spec_replace_all, u64_to_decimal,
};

verus! {

/// Errors from API operations.
#[derive(Debug)]
pub enum ApiError {
    RequestFailed(String),
    AuthenticationFailed(String),
    ServerError { status_code: u16, message: String },
    CredentialError(VaultError),
    InvalidResponse(String),
    RateLimited { retry_after_seconds: u64 },
    JobAlreadyClaimed,
}

impl ApiError {
    /// The error's message text.
    pub open spec fn spec_message(self) -> Seq<char> {
        match self {
            ApiError::RequestFailed(m) => "HTTP request failed: "@ + m@,
            ApiError::AuthenticationFailed(m) => "Authentication failed: "@ + m@,
            ApiError::ServerError { status_code, message } => "Server error ("@ + spec_decimal(
                status_code as int,
            ) + "): "@ + message@,
            ApiError::CredentialError(e) => "Credential error: "@ + e.spec_message(),
            ApiError::InvalidResponse(m) => "Invalid response: "@ + m@,
            ApiError::RateLimited { retry_after_seconds } => "Rate limited, retry after "@
                + spec_decimal(retry_after_seconds as int) + "s"@,
            ApiError::JobAlreadyClaimed => "Job already claimed"@,
        }
    }

    /// Render the error as text.
    pub fn message(&self) -> (r: String)
        ensures
            r@ == self.spec_message(),
    {
        match self {
            ApiError::RequestFailed(m) => String::from_str("HTTP request failed: ").concat(
                m.as_str(),
            ),
            ApiError::AuthenticationFailed(m) => String::from_str(
                "Authentication failed: ",
            ).concat(m.as_str()),
            ApiError::ServerError { status_code, message } => String::from_str(
                "Server error (",
            ).concat(u64_to_decimal(*status_code as u64).as_str()).concat("): ").concat(
                message.as_str(),
            ),
            ApiError::CredentialError(e) => String::from_str("Credential error: ").concat(
                e.message().as_str(),
            ),
            ApiError::InvalidResponse(m) => String::from_str("Invalid response: ").concat(
                m.as_str(),
            ),
            ApiError::RateLimited { retry_after_seconds } => String::from_str(
                "Rate limited, retry after ",
            ).concat(u64_to_decimal(*retry_after_seconds).as_str()).concat("s"),
            ApiError::JobAlreadyClaimed => String::from_str("Job already claimed"),
        }
    }
}

/// Copy an API error, preserving its value.
pub fn duplicate_api_error(e: &ApiError) -> (r: ApiError)
    ensures
        r == *e,
{
    match e {
        ApiError::RequestFailed(m) => ApiError::RequestFailed(m.clone()),
        ApiError::AuthenticationFailed(m) => ApiError::AuthenticationFailed(m.clone()),
        ApiError::ServerError { status_code, message } => ApiError::ServerError {
            status_code: *status_code,
            message: message.clone(),
        },
        ApiError::CredentialError(v) => ApiError::CredentialError(
            crate::credentials::duplicate_vault_error(v),
        ),
        ApiError::InvalidResponse(m) => ApiError::InvalidResponse(m.clone()),
        ApiError::RateLimited { retry_after_seconds } => ApiError::RateLimited {
            retry_after_seconds: *retry_after_seconds,
        },
        ApiError::JobAlreadyClaimed => ApiError::JobAlreadyClaimed,
    }
}

/// The poll URL: the base joined with the poll endpoint.
pub fn build_poll_url(base_url: &str, poll_endpoint: &str) -> (r: String)
    ensures
        r@ == base_url@ + poll_endpoint@,
{
    String::from_str(base_url).concat(poll_endpoint)
}

/// The report endpoint with the job identifier substituted for every
/// occurrence of its placeholder.
pub open spec fn spec_report_path(template: Seq<char>, job_id: Seq<char>) -> Seq<char> {
    spec_replace_all(template, "{id}"@, job_id)
}

/// The report URL: the base joined with the endpoint template, with the job
/// identifier substituted for its placeholder.
pub fn build_report_url(base_url: &str, report_endpoint: &str, job_id: &str) -> (r: String)
    ensures
        r@ == base_url@ + spec_report_path(report_endpoint@, job_id@),
{
    proof {
        reveal_strlit("{id}");
    }
    let path = replace_all(report_endpoint, "{id}", job_id);
    String::from_str(base_url).concat(path.as_str())
}

/// The heartbeat URL for a worker.
pub fn build_heartbeat_url(base_url: &str, worker_id: &str) -> (r: String)
    ensures
        r@ == base_url@ + "/internal/workers/"@ + worker_id@ + "/heartbeat"@,
{
    String::from_str(base_url).concat("/internal/workers/").concat(worker_id).concat("/heartbeat")
}

/// The retry interval a rate-limited response carries: the header value
/// when it is a plain decimal number of seconds that fits, and 60 when the
/// header is absent or unparseable.
pub open spec fn spec_retry_after(header: Option<Seq<char>>) -> u64 {
    match header {
        Some(h) => {
            if h.len() > 0 && spec_all_dec_digits(h) && spec_digits_value(h) <= u64::MAX as int {
                spec_digits_value(h) as u64
            } else {
                60u64
            }
        },
        None => 60u64,
    }
}

/// Parse a rate-limit header value, defaulting to 60 seconds.
pub fn parse_retry_after(header: Option<&str>) -> (r: u64)
    ensures
        r == spec_retry_after(
            match header {
                Some(h) => Some(h@),
                None => None,
            },
        ),
{
    match header {
        Some(h) => match parse_u64_decimal(h) {
            Some(v) => v,
            None => 60,
        },
        None => 60,
    }
}

/// What a poll response means for the worker.
#[derive(Debug)]
pub enum PollClassification {
    /// A job is available: parse the body as a deployment job.
    ParseJob,
    /// No job is available.
    NoJob,
    /// The poll failed with a classified error.
    Fail(ApiError),
}

/// Classify a poll response by its status code: a job body arrived, no job
/// is available, authentication failed, the server asked for a pause of the
/// given (or default) length, the job went to another worker, or the server
/// failed with the detail it sent.
pub fn classify_poll_response(status: u16, retry_after_header: Option<&str>, error_detail: &str) -> (
    r: PollClassification)
    ensures
        status == 200 ==> r is ParseJob,
        status == 204 ==> r is NoJob,
        status == 401 ==> (r matches PollClassification::Fail(e) && e
            matches ApiError::AuthenticationFailed(m) && m@ == "Invalid or expired token"@),
        status == 429 ==> (r matches PollClassification::Fail(e) && e == (
        ApiError::RateLimited {
            retry_after_seconds: spec_retry_after(
                match retry_after_header {
                    Some(h) => Some(h@),
                    None => None,
                },
            ),
        })),
        status == 409 ==> (r matches PollClassification::Fail(e) && e
            is JobAlreadyClaimed),
        !(status == 200 || status == 204 || status == 401 || status == 429 || status == 409) ==> (
        r matches PollClassification::Fail(e) && e matches ApiError::ServerError {
            status_code: sc,
            message: m,
        } && sc == status && m@ == error_detail@),
{
    if status == 200 {
        PollClassification::ParseJob
    } else if status == 204 {
        PollClassification::NoJob
    } else if status == 401 {
        PollClassification::Fail(
            ApiError::AuthenticationFailed(String::from_str("Invalid or expired token")),
        )
    } else if status == 429 {
        PollClassification::Fail(
            ApiError::RateLimited { retry_after_seconds: parse_retry_after(retry_after_header) },
        )
    } else if status == 409 {
        PollClassification::Fail(ApiError::JobAlreadyClaimed)
    } else {
        PollClassification::Fail(
            ApiError::ServerError { status_code: status, message: String::from_str(error_detail) },
        )
    }
}

/// Classify a report response by its status code: acceptance (including a
/// backend that no longer tracks the job) is success; authentication
/// failure and server errors are classified errors.
pub fn classify_report_response(status: u16, error_detail: &str) -> (r: Result<(), ApiError>)
    ensures
        (status == 200 || status == 201 || status == 202 || status == 404) <==> r is Ok,
        status == 401 ==> (r matches Err(e) && e matches ApiError::AuthenticationFailed(m) && m@
            == "Invalid or expired token"@),
        !(status == 200 || status == 201 || status == 202 || status == 404 || status == 401) ==> (
        r matches Err(e) && e matches ApiError::ServerError { status_code: sc, message: m } && sc
            == status && m@ == error_detail@),
{
    if status == 200 || status == 201 || status == 202 {
        Ok(())
    } else if status == 401 {
        Err(ApiError::AuthenticationFailed(String::from_str("Invalid or expired token")))
    } else if status == 404 {
        // the backend no longer tracks the job; treat as reported
        Ok(())
    } else {
        Err(ApiError::ServerError { status_code: status, message: String::from_str(error_detail) })
    }
}

} // verus!
