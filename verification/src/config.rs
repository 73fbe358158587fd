//! Worker configuration: the API connection, worker behaviour, and logging
//! settings, their defaults, and their validation.
//!
//! Reading the configuration file and the environment overlay is the
//! adapter's concern; the defaults and the validation rules live here.

use vstd::prelude::*;

verus! {

/// Default endpoint for polling jobs.
pub fn default_poll_endpoint() -> (r: String)
    ensures
        r@ == "/internal/deployment-jobs/next"@,
{
    String::from_str("/internal/deployment-jobs/next")
}

/// Default endpoint pattern for reporting results.
pub fn default_report_endpoint() -> (r: String)
    ensures
        r@ == "/internal/deployment-jobs/{id}/result"@,
{
    String::from_str("/internal/deployment-jobs/{id}/result")
}

/// Default HTTP request timeout in seconds.
pub fn default_timeout() -> (r: u64)
    ensures
        r == 30,
{
    30
}

/// Default credential store target name for the API token.
pub fn default_credential_target() -> (r: String)
    ensures
        r@ == "DeploymentWorker:API"@,
{
    String::from_str("DeploymentWorker:API")
}

/// Default poll interval in seconds.
pub fn default_poll_interval() -> (r: u64)
    ensures
        r == 30,
{
    30
}

/// Default maximum backoff interval in seconds.
pub fn default_max_backoff() -> (r: u64)
    ensures
        r == 300,
{
    300
}

/// Default maximum concurrent jobs.
pub fn default_concurrent_jobs() -> (r: u64)
    ensures
        r == 1,
{
    1
}

/// Default cleanup timeout in seconds.
pub fn default_cleanup_timeout() -> (r: u64)
    ensures
        r == 60,
{
    60
}

/// Default file-transfer timeout in seconds.
pub fn default_smb_timeout() -> (r: u64)
    ensures
        r == 300,
{
    300
}

/// Default remote-execution timeout in seconds.
pub fn default_execution_timeout() -> (r: u64)
    ensures
        r == 600,
{
    600
}

/// Default reachability probe timeout in seconds.
pub fn default_reachability_timeout() -> (r: u64)
    ensures
        r == 5,
{
    5
}

/// Default log level.
pub fn default_log_level() -> (r: String)
    ensures
        r@ == "info"@,
{
    String::from_str("info")
}

/// Default log file directory.
pub fn default_log_path() -> (r: Option<String>)
    ensures
        r matches Some(p) && p@ == "/var/log/deployment-worker"@,
{
    Some(String::from_str("/var/log/deployment-worker"))
}

/// Default maximum log file size in megabytes.
pub fn default_log_size() -> (r: u64)
    ensures
        r == 10,
{
    10
}

/// Default number of rotated log files kept.
pub fn default_log_files() -> (r: u32)
    ensures
        r == 5,
{
    5
}

/// Whether file logs default to the structured format.
pub fn default_json_logs() -> (r: bool)
    ensures
        r,
{
    true
}

/// API connection configuration.
#[derive(Debug)]
pub struct ApiConfig {
    /// Backend base URL
    pub base_url: String,
    /// Endpoint for polling jobs
    pub poll_endpoint: String,
    /// Endpoint pattern for reporting results
    pub report_endpoint: String,
    /// HTTP request timeout in seconds
    pub timeout_seconds: u64,
    /// Credential store target name for the API token
    pub credential_target: String,
}

/// Worker behavior configuration.
#[derive(Debug)]
pub struct WorkerConfig {
    /// Unique worker identifier (generated by the adapter if not set)
    pub worker_id: Option<String>,
    /// Poll interval in seconds
    pub poll_interval_seconds: u64,
    /// Maximum backoff interval in seconds when no jobs
    pub max_backoff_seconds: u64,
    /// Maximum concurrent jobs (1 in this design)
    pub max_concurrent_jobs: u64,
    /// Cleanup timeout in seconds
    pub cleanup_timeout_seconds: u64,
    /// File-transfer timeout in seconds
    pub smb_copy_timeout_seconds: u64,
    /// Remote-execution timeout in seconds
    pub service_execution_timeout_seconds: u64,
    /// Reachability probe timeout in seconds
    pub reachability_timeout_seconds: u64,
}

/// Logging configuration.
#[derive(Debug)]
pub struct LoggingConfig {
    /// Log level: trace, debug, info, warn, error
    pub level: String,
    /// Log file directory
    pub file_path: Option<String>,
    /// Maximum log file size in MB
    pub max_size_mb: u64,
    /// Maximum number of rotated log files
    pub max_files: u32,
    /// Enable structured format for file logs
    pub json_format: bool,
}

/// Main configuration structure.
#[derive(Debug)]
pub struct Config {
    pub api: ApiConfig,
    pub worker: WorkerConfig,
    pub logging: LoggingConfig,
    pub mock_mode: bool,
}

/// A configuration the worker can run with: a base URL is present, and the
/// poll interval and job cap are positive.
pub open spec fn spec_config_valid(c: Config) -> bool {
    c.api.base_url@.len() > 0 && c.worker.poll_interval_seconds > 0
        && c.worker.max_concurrent_jobs > 0
}

impl Config {
    /// Validate configuration values: an empty base URL, a zero poll
    /// interval, or a zero job cap is rejected with the field's error
    /// message; everything else passes.
    pub fn validate(&self) -> (r: Result<(), String>)
        ensures
            spec_config_valid(*self) <==> r is Ok,
            self.api.base_url@.len() == 0 ==> (r matches Err(m) && m@
                == "api.base_url is required"@),
            self.api.base_url@.len() > 0 && self.worker.poll_interval_seconds == 0 ==> (
            r matches Err(m) && m@ == "worker.poll_interval_seconds must be greater than 0"@),
            self.api.base_url@.len() > 0 && self.worker.poll_interval_seconds > 0
                && self.worker.max_concurrent_jobs == 0 ==> (r matches Err(m) && m@
                == "worker.max_concurrent_jobs must be greater than 0"@),
    {
        if self.api.base_url.as_str().is_empty() {
            return Err(String::from_str("api.base_url is required"));
        }
        if self.worker.poll_interval_seconds == 0 {
            return Err(String::from_str("worker.poll_interval_seconds must be greater than 0"));
        }
        if self.worker.max_concurrent_jobs == 0 {
            return Err(String::from_str("worker.max_concurrent_jobs must be greater than 0"));
        }
        Ok(())
    }

    /// Configuration for development runs: a local backend, a fixed worker
    /// identity, short timeouts, and plain debug logging.
    pub fn load_mock() -> (r: Config)
        ensures
            r.api.base_url@ == "http://localhost:8000"@,
            r.api.credential_target@ == "DeploymentWorker:Mock"@,
            r.worker.worker_id matches Some(w) && w@ == "mock-worker-001"@,
            r.worker.poll_interval_seconds == 10,
            r.worker.max_backoff_seconds == 30,
            r.worker.max_concurrent_jobs == 1,
            r.worker.cleanup_timeout_seconds == 10,
            r.worker.smb_copy_timeout_seconds == 10,
            r.worker.service_execution_timeout_seconds == 30,
            r.worker.reachability_timeout_seconds == 2,
            r.logging.level@ == "debug"@,
            r.logging.file_path is None,
            r.logging.max_size_mb == 10,
            r.logging.max_files == 5,
            !r.logging.json_format,
            r.mock_mode,
            spec_config_valid(r),
    {
        let r = Config {
            api: ApiConfig {
                base_url: String::from_str("http://localhost:8000"),
                poll_endpoint: default_poll_endpoint(),
                report_endpoint: default_report_endpoint(),
                timeout_seconds: default_timeout(),
                credential_target: String::from_str("DeploymentWorker:Mock"),
            },
            worker: WorkerConfig {
                worker_id: Some(String::from_str("mock-worker-001")),
                poll_interval_seconds: 10,
                max_backoff_seconds: 30,
                max_concurrent_jobs: 1,
                cleanup_timeout_seconds: 10,
                smb_copy_timeout_seconds: 10,
                service_execution_timeout_seconds: 30,
                reachability_timeout_seconds: 2,
            },
            logging: LoggingConfig {
                level: String::from_str("debug"),
                file_path: None,
                max_size_mb: 10,
                max_files: 5,
                json_format: false,
            },
            mock_mode: true,
        };
        proof {
            reveal_strlit("http://localhost:8000");
        }
        r
    }
}

impl Default for Config {
    /// The built-in defaults; the base URL is left empty and must come from
    /// the configuration file or the environment.
    fn default() -> (r: Config)
        ensures
            r.api.base_url@.len() == 0,
            r.api.poll_endpoint@ == "/internal/deployment-jobs/next"@,
            r.api.report_endpoint@ == "/internal/deployment-jobs/{id}/result"@,
            r.api.timeout_seconds == 30,
            r.api.credential_target@ == "DeploymentWorker:API"@,
            r.worker.worker_id is None,
            r.worker.poll_interval_seconds == 30,
            r.worker.max_backoff_seconds == 300,
            r.worker.max_concurrent_jobs == 1,
            r.worker.cleanup_timeout_seconds == 60,
            r.worker.smb_copy_timeout_seconds == 300,
            r.worker.service_execution_timeout_seconds == 600,
            r.worker.reachability_timeout_seconds == 5,
            r.logging.level@ == "info"@,
            r.logging.max_size_mb == 10,
            r.logging.max_files == 5,
            r.logging.json_format,
            !r.mock_mode,
    {
        Config {
            api: ApiConfig {
                base_url: String::new(),
                poll_endpoint: default_poll_endpoint(),
                report_endpoint: default_report_endpoint(),
                timeout_seconds: default_timeout(),
                credential_target: default_credential_target(),
            },
            worker: WorkerConfig {
                worker_id: None,
                poll_interval_seconds: default_poll_interval(),
                max_backoff_seconds: default_max_backoff(),
                max_concurrent_jobs: default_concurrent_jobs(),
                cleanup_timeout_seconds: default_cleanup_timeout(),
                smb_copy_timeout_seconds: default_smb_timeout(),
                service_execution_timeout_seconds: default_execution_timeout(),
                reachability_timeout_seconds: default_reachability_timeout(),
            },
            logging: LoggingConfig {
                level: default_log_level(),
                file_path: default_log_path(),
                max_size_mb: default_log_size(),
                max_files: default_log_files(),
                json_format: default_json_logs(),
            },
            mock_mode: false,
        }
    }
}

} // verus!
