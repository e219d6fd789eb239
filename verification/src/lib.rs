//! Supervision and routing logic for an RTSP-to-HLS bridge.
//!
//! The crate validates HLS fragment request paths against a fixed-width
//! naming grammar, decides how each HTTP request is routed, and drives the
//! stall-detection watchdog that supervises the external transcoder process.

pub mod config;
pub mod fatal;
pub mod router;
pub mod transcoder;
pub mod watchdog;
