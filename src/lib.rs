//! Submission client for a remote grading server: credential resolution,
//! one-time-password negotiation, payload assembly and the submission
//! state machine with its single retry.
//!
//! Everything that touches the network, the file system, processes or the
//! terminal is performed by the caller; this crate decides what to do next
//! and what to report.

pub mod props;
pub mod state;
pub mod text;
pub mod config;
pub mod cred;
pub mod error;
pub mod hook;
pub mod submit;
pub mod auth;
pub mod course;
pub mod record;
