//! Detection and reconciliation of the Multi-Instance-GPU (MIG) mode of the
//! NVIDIA accelerators attached to a host.
//!
//! The crate holds the decision logic only. It never starts a process itself:
//! the host program runs each hardware command and hands the outcome back.

pub mod analyzer;
pub mod args;
pub mod driver;
pub mod error;
pub mod executor;
pub mod format;
pub mod reader;
pub mod state;
