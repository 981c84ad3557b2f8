//! A retry decision policy for an HTTP client pipeline.
//!
//! A [`RetryConfig`] value is consulted after every attempt of a request:
//! given the attempt's outcome (a response status or a transport error) it
//! decides whether another attempt may be made, and hands out the policy
//! state for that next attempt. A companion operation produces a fresh copy
//! of the original request for re-dispatch.

pub mod laws;
pub mod policy;
pub mod requests;

pub use policy::AttemptOutcome;
pub use policy::RetryConfig;
