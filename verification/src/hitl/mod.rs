//! Human approval of sensitive actions: requests, responses, strategies' decisions and the audit trail.

pub mod error;
pub mod request;
pub mod strategies;
pub mod audit;
