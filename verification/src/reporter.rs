//! Result reporting with retry logic.
//!
//! Retryability is a per-error-kind policy; the backoff between attempts is
//! exponential with a cap; and the whole retry loop is modelled as a
//! verified session over the sequence of outcomes the report calls return,
//! so the attempt count and the final answer are pinned down exactly.

use vstd::prelude::*;

use crate::api::{duplicate_api_error, ApiError};
use crate::strutil::{spec_decimal, u64_to_decimal};

verus! {

/// Errors from result reporting.
#[derive(Debug)]
pub enum ReportError {
    MaxRetriesExceeded { attempts: u32, last_error: String },
    ApiError(ApiError),
    Disabled,
}

impl ReportError {
    /// The error's message text.
    pub open spec fn spec_message(self) -> Seq<char> {
        match self {
            ReportError::MaxRetriesExceeded { attempts, last_error } => "Failed after "@
                + spec_decimal(attempts as int) + " attempts: "@ + last_error@,
            ReportError::ApiError(e) => "API error: "@ + e.spec_message(),
            ReportError::Disabled => "Reporting disabled"@,
        }
    }

    /// Render the error as text.
    pub fn message(&self) -> (r: String)
        ensures
            r@ == self.spec_message(),
    {
        match self {
            ReportError::MaxRetriesExceeded { attempts, last_error } => String::from_str(
                "Failed after ",
            ).concat(u64_to_decimal(*attempts as u64).as_str()).concat(" attempts: ").concat(
                last_error.as_str(),
            ),
            ReportError::ApiError(e) => String::from_str("API error: ").concat(
                e.message().as_str(),
            ),
            ReportError::Disabled => String::from_str("Reporting disabled"),
        }
    }
}

impl From<ApiError> for ReportError {
    fn from(e: ApiError) -> (r: ReportError) {
        ReportError::ApiError(e)
    }
}

impl vstd::std_specs::convert::FromSpecImpl<ApiError> for ReportError {
    open spec fn obeys_from_spec() -> bool {
        true
    }

    open spec fn from_spec(e: ApiError) -> ReportError {
        ReportError::ApiError(e)
    }
}

/// Configuration for result reporting.
#[derive(Debug, Clone, Copy)]
pub struct ReporterConfig {
    /// Maximum number of attempts
    pub max_retries: u32,
    /// Initial delay between retries, in seconds
    pub initial_delay_seconds: u64,
    /// Maximum delay between retries, in seconds
    pub max_delay_seconds: u64,
    /// Backoff multiplier
    pub backoff_factor: u64,
}

impl ReporterConfig {
    /// A usable configuration: at least one attempt, and a growing backoff.
    pub open spec fn well_formed(self) -> bool {
        self.max_retries >= 1 && self.backoff_factor >= 1
    }
}

impl Default for ReporterConfig {
    /// The default reporting policy: three attempts, starting at one second
    /// between them, doubling up to thirty seconds.
    fn default() -> (r: ReporterConfig)
        ensures
            r.max_retries == 3,
            r.initial_delay_seconds == 1,
            r.max_delay_seconds == 30,
            r.backoff_factor == 2,
            r.well_formed(),
    {
        ReporterConfig {
            max_retries: 3,
            initial_delay_seconds: 1,
            max_delay_seconds: 30,
            backoff_factor: 2,
        }
    }
}

/// Whether an error is worth retrying: transport failures, server errors
/// other than "not implemented", rate limiting, and malformed responses
/// are; authentication and credential failures and a job claimed by
/// another worker are terminal.
pub open spec fn spec_should_retry(e: ApiError) -> bool {
    match e {
        ApiError::RequestFailed(_) => true,
        ApiError::ServerError { status_code, .. } => status_code >= 500 && status_code != 501,
        ApiError::RateLimited { .. } => true,
        ApiError::AuthenticationFailed(_) => false,
        ApiError::CredentialError(_) => false,
        ApiError::InvalidResponse(_) => true,
        ApiError::JobAlreadyClaimed => false,
    }
}

/// The next backoff delay: the current delay scaled by the factor, capped
/// at the configured maximum.
pub open spec fn spec_next_delay(cfg: ReporterConfig, current_seconds: u64) -> u64 {
    if current_seconds * cfg.backoff_factor > cfg.max_delay_seconds {
        cfg.max_delay_seconds
    } else {
        (current_seconds * cfg.backoff_factor) as u64
    }
}

/// The backoff is monotonically non-decreasing below the cap and never
/// exceeds it: for a growing factor and a current delay within the cap,
/// the next delay is at least the current one and at most the maximum.
pub proof fn lemma_reporter_backoff_monotone_capped(cfg: ReporterConfig, current_seconds: u64)
    requires
        cfg.well_formed(),
        current_seconds <= cfg.max_delay_seconds,
    ensures
        spec_next_delay(cfg, current_seconds) >= current_seconds,
        spec_next_delay(cfg, current_seconds) <= cfg.max_delay_seconds,
{
    assert(current_seconds * cfg.backoff_factor >= current_seconds) by (nonlinear_arith)
        requires
            cfg.backoff_factor >= 1,
            current_seconds >= 0,
    ;
}

/// The decision after one report attempt.
#[derive(Debug)]
pub enum RetryDecision {
    /// The report was accepted; the session is over.
    Done,
    /// The session is over with an error: a terminal error, or retries
    /// exhausted.
    GiveUp(ReportError),
    /// Sleep for the first interval, then try again and use the second as
    /// the delay after the next failure.
    RetryAfter { sleep_seconds: u64, next_delay_seconds: u64 },
}

/// Result reporter with retry logic.
pub struct ResultReporter {
    pub config: ReporterConfig,
}

impl ResultReporter {
    /// Create a new result reporter with default configuration.
    pub fn new() -> (r: ResultReporter)
        ensures
            r.config.max_retries == 3,
            r.config.initial_delay_seconds == 1,
            r.config.max_delay_seconds == 30,
            r.config.backoff_factor == 2,
            r.config.well_formed(),
    {
        Self::with_config(ReporterConfig::default())
    }

    /// Create a new result reporter with custom configuration.
    pub fn with_config(config: ReporterConfig) -> (r: ResultReporter)
        ensures
            r.config == config,
    {
        ResultReporter { config }
    }

    /// Check if an error is retryable.
    pub fn should_retry(&self, error: &ApiError) -> (r: bool)
        ensures
            r == spec_should_retry(*error),
    {
        match error {
            ApiError::RequestFailed(_) => true,
            ApiError::ServerError { status_code, .. } => *status_code >= 500 && *status_code
                != 501,
            ApiError::RateLimited { .. } => true,
            ApiError::AuthenticationFailed(_) => false,
            ApiError::CredentialError(_) => false,
            ApiError::InvalidResponse(_) => true,
            ApiError::JobAlreadyClaimed => false,
        }
    }

    /// Calculate the next delay using exponential backoff.
    pub fn calculate_next_delay(&self, current_seconds: u64) -> (r: u64)
        ensures
            r == spec_next_delay(self.config, current_seconds),
    {
        match current_seconds.checked_mul(self.config.backoff_factor) {
            Some(v) => {
                if v > self.config.max_delay_seconds {
                    self.config.max_delay_seconds
                } else {
                    v
                }
            },
            None => self.config.max_delay_seconds,
        }
    }

    /// Decide what follows one report attempt: success ends the session; a
    /// terminal error is returned as it came; a retryable error gives up
    /// once the attempt budget is spent, and otherwise waits out the
    /// current delay before the next attempt.
    pub fn next_attempt(
        &self,
        attempts_made: u32,
        current_delay_seconds: u64,
        outcome: Result<(), ApiError>,
    ) -> (r: RetryDecision)
        ensures
            outcome is Ok ==> r is Done,
            outcome matches Err(e) ==> (!spec_should_retry(e) ==> r == RetryDecision::GiveUp(
                ReportError::ApiError(e),
            )),
            outcome matches Err(e) ==> (spec_should_retry(e) && attempts_made
                >= self.config.max_retries ==> (r matches RetryDecision::GiveUp(g)
                && g matches ReportError::MaxRetriesExceeded { attempts, last_error } && attempts
                == attempts_made && last_error@ == e.spec_message())),
            outcome matches Err(e) ==> (spec_should_retry(e) && attempts_made
                < self.config.max_retries ==> r == (RetryDecision::RetryAfter {
                sleep_seconds: current_delay_seconds,
                next_delay_seconds: spec_next_delay(self.config, current_delay_seconds),
            })),
    {
        match outcome {
            Ok(()) => RetryDecision::Done,
            Err(e) => {
                if !self.should_retry(&e) {
                    RetryDecision::GiveUp(ReportError::ApiError(e))
                } else if attempts_made >= self.config.max_retries {
                    let last_error = e.message();
                    RetryDecision::GiveUp(
                        ReportError::MaxRetriesExceeded { attempts: attempts_made, last_error },
                    )
                } else {
                    RetryDecision::RetryAfter {
                        sleep_seconds: current_delay_seconds,
                        next_delay_seconds: self.calculate_next_delay(current_delay_seconds),
                    }
                }
            },
        }
    }
}

/// The attempt count and the deciding outcome of a retry session that
/// starts its `k+1`-th attempt with the `k`-th scripted outcome: the
/// session ends at the first success, at the first terminal error, or when
/// a retryable error lands on the last budgeted attempt.
pub open spec fn spec_session(
    cfg: ReporterConfig,
    outcomes: Seq<Result<(), ApiError>>,
    k: int,
) -> (int, Result<(), ApiError>)
    decreases outcomes.len() - k
    when 0 <= k < outcomes.len() && cfg.max_retries <= outcomes.len()
{
    match outcomes[k] {
        Ok(_) => (k + 1, outcomes[k]),
        Err(e) => {
            if !spec_should_retry(e) || k + 1 >= cfg.max_retries {
                (k + 1, outcomes[k])
            } else {
                spec_session(cfg, outcomes, k + 1)
            }
        },
    }
}

impl ResultReporter {
    /// Run a whole retry session against a script of attempt outcomes, one
    /// per call the reporter would make; the script must cover the attempt
    /// budget.  Returns how many attempts were made and how the session
    /// ended: success, the terminal error as it came, or a
    /// retries-exhausted error carrying the attempt count and the last
    /// error's text.
    pub fn report_session(&self, outcomes: &Vec<Result<(), ApiError>>) -> (r: (
        u32,
        Result<(), ReportError>,
    ))
        requires
            self.config.well_formed(),
            outcomes@.len() >= self.config.max_retries,
        ensures
            r.0 as int == spec_session(self.config, outcomes@, 0).0,
            match spec_session(self.config, outcomes@, 0).1 {
                Ok(_) => r.1 is Ok,
                Err(e) => {
                    if !spec_should_retry(e) {
                        r.1 == Err::<(), ReportError>(ReportError::ApiError(e))
                    } else {
                        r.1 matches Err(g) && g matches ReportError::MaxRetriesExceeded {
                            attempts,
                            last_error,
                        } && attempts as int == spec_session(self.config, outcomes@, 0).0
                            && last_error@ == e.spec_message()
                    }
                },
            },
    {
        let mut attempts: u32 = 0;
        while attempts + 1 < self.config.max_retries
            invariant
                self.config.well_formed(),
                outcomes@.len() >= self.config.max_retries,
                attempts < self.config.max_retries,
                spec_session(self.config, outcomes@, 0) == spec_session(
                    self.config,
                    outcomes@,
                    attempts as int,
                ),
            decreases self.config.max_retries - attempts,
        {
            let ghost k = attempts as int;
            let idx = attempts as usize;
            let outcome = &outcomes[idx];
            attempts = attempts + 1;
            match outcome {
                Ok(()) => {
                    proof {
                        assert(spec_session(self.config, outcomes@, k) == (k + 1, outcomes@[k]));
                    }
                    return (attempts, Ok(()));
                },
                Err(e) => {
                    if !self.should_retry(e) {
                        proof {
                            assert(spec_session(self.config, outcomes@, k) == (
                                k + 1,
                                outcomes@[k],
                            ));
                        }
                        return (attempts, Err(ReportError::ApiError(duplicate_api_error(e))));
                    }
                    // the attempt budget still has room: the session goes on
                    proof {
                        assert(spec_session(self.config, outcomes@, k) == spec_session(
                            self.config,
                            outcomes@,
                            k + 1,
                        ));
                    }
                },
            }
        }
        let ghost k = attempts as int;
        let idx = attempts as usize;
        let outcome = &outcomes[idx];
        attempts = attempts + 1;
        proof {
            assert(spec_session(self.config, outcomes@, k) == (k + 1, outcomes@[k]));
        }
        match outcome {
            Ok(()) => (attempts, Ok(())),
            Err(e) => {
                if !self.should_retry(e) {
                    (attempts, Err(ReportError::ApiError(duplicate_api_error(e))))
                } else {
                    let last_error = e.message();
                    (attempts, Err(ReportError::MaxRetriesExceeded { attempts, last_error }))
                }
            },
        }
    }
}

/// A session whose script is some retryable failures followed by a success
/// makes exactly one call per scripted outcome and succeeds: with `n`
/// failing retryable outcomes before the success and `n` strictly inside
/// the attempt budget, the attempt count is `n + 1` and the session ends in
/// that success.
pub proof fn lemma_session_failures_then_success(
    cfg: ReporterConfig,
    outcomes: Seq<Result<(), ApiError>>,
    n: int,
)
    requires
        cfg.well_formed(),
        cfg.max_retries <= outcomes.len(),
        0 <= n < cfg.max_retries,
        forall|i: int|
            0 <= i < n ==> ((#[trigger] outcomes[i]) matches Err(e) && spec_should_retry(e)),
        outcomes[n] is Ok,
    ensures
        spec_session(cfg, outcomes, 0).0 == n + 1,
        spec_session(cfg, outcomes, 0).1 is Ok,
{
    lemma_session_from(cfg, outcomes, n, 0);
}

/// A session that reaches attempt `k + 1` with only retryable failures
/// scripted up to the success at position `n` ends after attempt `n + 1`.
proof fn lemma_session_from(
    cfg: ReporterConfig,
    outcomes: Seq<Result<(), ApiError>>,
    n: int,
    k: int,
)
    requires
        cfg.well_formed(),
        cfg.max_retries <= outcomes.len(),
        0 <= k <= n < cfg.max_retries,
        forall|i: int|
            0 <= i < n ==> ((#[trigger] outcomes[i]) matches Err(e) && spec_should_retry(e)),
        outcomes[n] is Ok,
    ensures
        spec_session(cfg, outcomes, k) == (n + 1, outcomes[n]),
    decreases n - k,
{
    if k < n {
        lemma_session_from(cfg, outcomes, n, k + 1);
    }
}

/// A session whose first outcome is a terminal error makes exactly one
/// call and ends with that error.
pub proof fn lemma_session_terminal_error(
    cfg: ReporterConfig,
    outcomes: Seq<Result<(), ApiError>>,
)
    requires
        cfg.well_formed(),
        cfg.max_retries <= outcomes.len(),
        outcomes[0] matches Err(e) && !spec_should_retry(e),
    ensures
        spec_session(cfg, outcomes, 0) == (1int, outcomes[0]),
{
}

} // verus!
