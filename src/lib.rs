//! Find filesystem entries by a glob pattern and decide, entry by entry, which
//! of them to delete.

pub mod answer;
pub mod config;
pub mod laws;
pub mod matcher;
pub mod session;
