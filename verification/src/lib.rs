//! Converts visual-novel scripts between two engines and plans the download of
//! every asset the script refers to.

pub mod error;
pub mod models;
pub mod pipeline;
pub mod services;
pub mod template;
pub mod text;
pub mod traits;
pub mod utils;
