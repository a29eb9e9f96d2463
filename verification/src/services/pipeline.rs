//! The background pipelines, seen from the thread that runs them.

pub mod download;
pub mod transpile;
