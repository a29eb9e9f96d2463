//! The fixed values of the streaming pipeline.

use vstd::prelude::*;

verus! {

/// Where the request headers are read from.
pub const DOWNLOAD_HEADER: &'static str = "./assets/header.json";

/// Where the configuration of the resolver is read from.
pub const RESOLVE_CONFIG: &'static str = "./assets/bestdoli.json";

/// The file of the scene a project starts with.
pub const WEBGAL_START_SCENE: &'static str = "start.txt";

/// The version that every model configuration declares.
pub const WEBGAL_LIVE2D_VERSION: &'static str = "Sample 1.0.0";

/// The number of downloads that may run at the same time.
pub const DOWNLOAD_TASK_LIMIT: usize = 32;

/// The seconds one attempt of a download may take.
pub const DOWNLOAD_TIMEOUT_SECS: u64 = 24;

/// The number of attempts of a download.
pub const DOWNLOAD_RETRY_TIMES: usize = 3;

/// The milliseconds between two attempts of a download.
pub const DOWNLOAD_RETRY_BACKOFF_MILLIS: u64 = 200;

} // verus!
