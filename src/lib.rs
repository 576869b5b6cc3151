//! A read-only view of a CI provider's successful builds: the build model,
//! deterministic version names, and the plan for relaying an artifact under a
//! versioned download name.

pub mod builds;
pub mod catalog;
pub mod config;
pub mod datetime;
pub mod download;
pub mod text;
