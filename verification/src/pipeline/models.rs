//! The data of the streaming pipeline.

pub mod bestdori;
pub mod internal;
pub mod live2d;
pub mod webgal;
