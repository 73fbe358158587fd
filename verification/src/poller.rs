//! The polling loop's cadence: how each poll outcome tunes the next poll
//! interval.
//!
//! The loop itself — timers, the shutdown signal, the HTTP call — runs in
//! the adapter; every decision it takes between ticks is a verified
//! function here: reset on work, back off after a streak of empty polls or
//! an error, and obey a server-specified pause exactly.

use vstd::prelude::*;

use crate::api::ApiError;

verus! {

/// How many consecutive empty polls are tolerated before the interval
/// starts backing off.
pub const EMPTY_POLLS_BEFORE_BACKOFF: u32 = 3;

/// Result of one poll attempt.
#[derive(Debug, Clone, Copy, PartialEq, Eq, Structural)]
pub enum PollResult {
    /// A job was received and executed
    JobExecuted,
    /// No jobs were available
    NoJobs,
    /// An error occurred
    Error,
    /// Rate limited by server, carrying the server's retry interval
    RateLimited(u64),
}

/// The doubled interval, capped at the configured maximum.
pub open spec fn spec_poll_backoff(current: u64, max: u64) -> u64 {
    if current * 2 > max {
        max
    } else {
        (current * 2) as u64
    }
}

/// The poller's backoff never shortens an interval within the cap and
/// never exceeds the cap.
pub proof fn lemma_poller_backoff_monotone_capped(current: u64, max: u64)
    requires
        current <= max,
    ensures
        spec_poll_backoff(current, max) >= current,
        spec_poll_backoff(current, max) <= max,
{
}

/// The polling cadence: the configured base and cap, the interval before
/// the next poll, and the current streak of empty polls.
#[derive(Debug, Clone, Copy)]
pub struct PollSchedule {
    /// Poll interval to return to when work arrives, in seconds
    pub base_interval_seconds: u64,
    /// Longest interval backoff may reach, in seconds
    pub max_backoff_seconds: u64,
    /// The interval before the next poll, in seconds
    pub current_interval_seconds: u64,
    /// Consecutive polls that returned no job
    pub consecutive_empty: u32,
}

impl PollSchedule {
    /// A fresh schedule polls at the base interval with no streak.
    pub fn new(base_interval_seconds: u64, max_backoff_seconds: u64) -> (r: PollSchedule)
        ensures
            r.base_interval_seconds == base_interval_seconds,
            r.max_backoff_seconds == max_backoff_seconds,
            r.current_interval_seconds == base_interval_seconds,
            r.consecutive_empty == 0,
    {
        PollSchedule {
            base_interval_seconds,
            max_backoff_seconds,
            current_interval_seconds: base_interval_seconds,
            consecutive_empty: 0,
        }
    }

    /// Calculate the next backoff interval.
    pub fn calculate_backoff(&self, current_seconds: u64, max_seconds: u64) -> (r: u64)
        ensures
            r == spec_poll_backoff(current_seconds, max_seconds),
    {
        match current_seconds.checked_mul(2) {
            Some(v) => {
                if v > max_seconds {
                    max_seconds
                } else {
                    v
                }
            },
            None => max_seconds,
        }
    }

    /// Tune the schedule after one poll: work resets the interval and the
    /// streak; an empty poll lengthens the streak and, once the streak
    /// reaches its threshold, backs the interval off; an error backs off
    /// immediately; and a server-specified pause overrides the interval
    /// exactly, bypassing the backoff calculation.
    pub fn apply_poll_result(&mut self, outcome: PollResult)
        ensures
            final (self).base_interval_seconds == old(self).base_interval_seconds,
            final (self).max_backoff_seconds == old(self).max_backoff_seconds,
            outcome == PollResult::JobExecuted ==> final (self).current_interval_seconds == old(
                self,
            ).base_interval_seconds && final (self).consecutive_empty == 0,
            outcome == PollResult::NoJobs ==> {
                &&& final (self).consecutive_empty == (if old(self).consecutive_empty
                    < u32::MAX {
                    old(self).consecutive_empty + 1
                } else {
                    u32::MAX as int
                })
                &&& (final (self).consecutive_empty >= EMPTY_POLLS_BEFORE_BACKOFF ==> final (
                self).current_interval_seconds == spec_poll_backoff(
                    old(self).current_interval_seconds,
                    old(self).max_backoff_seconds,
                ))
                &&& (final (self).consecutive_empty < EMPTY_POLLS_BEFORE_BACKOFF ==> final (
                self).current_interval_seconds == old(self).current_interval_seconds)
            },
            outcome == PollResult::Error ==> final (self).current_interval_seconds
                == spec_poll_backoff(
                old(self).current_interval_seconds,
                old(self).max_backoff_seconds,
            ) && final (self).consecutive_empty == old(self).consecutive_empty,
            outcome matches PollResult::RateLimited(retry_after) ==> final (
            self).current_interval_seconds == retry_after && final (self).consecutive_empty == old(
                self,
            ).consecutive_empty,
    {
        match outcome {
            PollResult::JobExecuted => {
                self.current_interval_seconds = self.base_interval_seconds;
                self.consecutive_empty = 0;
            },
            PollResult::NoJobs => {
                self.consecutive_empty = self.consecutive_empty.saturating_add(1);
                if self.consecutive_empty >= EMPTY_POLLS_BEFORE_BACKOFF {
                    self.current_interval_seconds = self.calculate_backoff(
                        self.current_interval_seconds,
                        self.max_backoff_seconds,
                    );
                }
            },
            PollResult::Error => {
                self.current_interval_seconds = self.calculate_backoff(
                    self.current_interval_seconds,
                    self.max_backoff_seconds,
                );
            },
            PollResult::RateLimited(retry_after) => {
                self.current_interval_seconds = retry_after;
            },
        }
    }
}

/// Classify a failed poll for the loop: a rate limit carries the server's
/// interval, an authentication failure additionally asks for a token
/// refresh, and everything else is a plain error.
pub fn classify_poll_failure(e: &ApiError) -> (r: (PollResult, bool))
    ensures
        *e matches ApiError::RateLimited { retry_after_seconds } ==> r == (
            PollResult::RateLimited(retry_after_seconds),
            false,
        ),
        *e matches ApiError::AuthenticationFailed(_) ==> r == (PollResult::Error, true),
        !(*e matches ApiError::RateLimited { .. } || *e matches ApiError::AuthenticationFailed(_))
            ==> r == (PollResult::Error, false),
{
    match e {
        ApiError::RateLimited { retry_after_seconds } => (
            PollResult::RateLimited(*retry_after_seconds),
            false,
        ),
        ApiError::AuthenticationFailed(_) => (PollResult::Error, true),
        _ => (PollResult::Error, false),
    }
}

} // verus!
