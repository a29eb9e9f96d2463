//! The streaming pipeline: a script is cleaned of its resources, translated
//! and written out action by action, while the resources are fetched.

pub mod constant;
pub mod definition;
pub mod downloader;
pub mod error;
pub mod models;
pub mod pipeline;
pub mod purifier;
pub mod resolver;
pub mod transpiler;
