//! Agent communication: addresses, roles and hierarchy, discovery, messages,
//! delegation records and the coordinator's rules.

pub mod address;
pub mod hierarchy;
pub mod registry;
pub mod error;
pub mod message;
pub mod delegation;

pub mod coordinator;
pub mod context;
pub mod http;
