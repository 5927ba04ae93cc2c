//! Diagnostic logging lifecycle of the Notes Desktop shell.
//!
//! The shell sets up one file-backed, non-blocking log pipeline per process and
//! records unhandled faults through it. This crate holds the decisions of that
//! lifecycle and proves them; the caller performs the file-system and logging
//! work that each decision asks for and reports back how it went.

pub mod decimal;
pub mod lifecycle;
pub mod record;
pub mod runs;
