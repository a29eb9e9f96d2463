//! Data models of the source platform and of the target engine.

pub mod bestdori;
pub mod webgal;
