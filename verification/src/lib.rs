//! Deployment-worker job execution library.
//!
//! The worker polls a backend for MSI installation jobs, drives each job's
//! targets through a multi-phase remote-installation pipeline (reachability
//! probe, credential resolution, file transfer, remote service execution,
//! cleanup), aggregates per-target outcomes into a job result, and reports
//! that result back with bounded exponential-backoff retry.
//!
//! Everything that decides or computes lives here and is verified; transport
//! (HTTP, SMB, the service control manager) is the adapter's concern and is
//! handed to the library as plain values.

use vstd::prelude::*;

pub mod api;
pub mod audit;
pub mod config;
pub mod credentials;
pub mod executor;
pub mod poller;
pub mod reporter;
pub mod service;
pub mod smb;
pub mod installer;
pub mod strutil;
pub mod types;

verus! {

} // verus!
