//! The downloader: a pool of workers below, and the routing of canonical
//! resources to plain and compound fetches above.

pub mod pool;
pub mod service;
