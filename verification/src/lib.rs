//! The core of a command-line client for an issue-tracking service: what is
//! sent, how answers are read, how names become identifiers, and how results
//! are laid out. Network and file access are left to the caller.

pub mod batch;
pub mod cache;
pub mod cli;
pub mod client;
pub mod clock;
pub mod commands;
pub mod config;
pub mod dates;
pub mod error;
pub mod find;
pub mod output;
pub mod pagination;
pub mod resolve;
pub mod responses;
pub mod text;
pub mod types;
