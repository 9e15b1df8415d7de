//! A periodically refreshed, read-optimised snapshot cache: the decisions of
//! its refresh cycle, of its sources and of its line processor, with their
//! contracts.

pub mod error;
pub mod engine;
pub mod sources;
pub mod s3;
pub mod http;
pub mod collection;
pub mod processor;
pub mod key_value;
pub mod builder;
pub mod cycle;
