//! Planning and bookkeeping for creating one branch in many GitLab projects.
//!
//! The crate holds the rules of the tool: how settings are merged, which
//! requests are sent for which project, how a plan grows while answers come
//! in, and which entries of a plan lead to a branch being created. Sending
//! requests, reading files and talking to the terminal is left to the caller.

pub mod text;
pub mod config;
pub mod location;
pub mod api;
pub mod confirm;
pub mod plan;
pub mod execute;
