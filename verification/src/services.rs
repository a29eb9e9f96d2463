//! The services: resolver, download planning and pipelines.

pub mod downloader;
pub mod pipeline;
pub mod resolver;
pub mod transpiler;
