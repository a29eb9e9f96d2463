//! The capabilities shared by the services of this crate.

pub mod asset;
pub mod handle;
pub mod pipeline;
pub mod resolve;
pub mod transpile;
