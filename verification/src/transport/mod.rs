//! Failures of provider transports, and what may be retried.
pub mod api_error;
pub mod error;
pub mod host_error;
