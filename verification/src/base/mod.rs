//! Shared configuration, logging settings, identity and errors.

pub mod error;
pub mod config;
pub mod logging;
pub mod context;
