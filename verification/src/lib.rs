//! Decisions of a resilient client for a bundle gateway: endpoint registry,
//! request pacing, retry and fallback, dual-encoding submission and landing
//! confirmation, each as verified functions on plain values.
//!
//! Nothing here opens a connection, reads a clock or sleeps. Each operation is
//! a small state that says what to do next and is told what came of it, so
//! that every decision is the same whoever carries it out.

pub mod client;
pub mod dispatch;
pub mod encoding;
pub mod endpoints;
pub mod envelope;
pub mod error;
pub mod liquidation;
pub mod pacing;
pub mod poll;
pub mod status;
pub mod submit;
pub mod text;
pub mod tip_accounts;
pub mod tip_floor;

pub use client::JitoBundleClient;
pub use error::BundleError;
pub use status::{BundleStatus, BundleStatusesResult};
