//! Progress snapshots and results of the two background pipelines.

use vstd::prelude::*;

use crate::error::ConvertError;

verus! {

/// Progress of a transpile run: scenes and actions produced.
#[derive(Debug, Clone, Copy, PartialEq, Eq, Structural)]
pub struct TranspileState {
    pub scene: usize,
    pub action: usize,
}

impl Default for TranspileState {
    fn default() -> (state: Self)
        ensures
            state.scene == 0,
            state.action == 0,
    {
        TranspileState { scene: 0, action: 0 }
    }
}

/// What a transpile run leaves behind.
#[derive(Debug)]
pub struct TranspileResult {
    pub state: TranspileState,
    pub errors: Vec<ConvertError>,
}

/// Progress of a download batch: `done` of `total` resources have been
/// fetched and written.
#[derive(Debug, Clone, Copy, PartialEq, Eq, Structural)]
pub struct DownloadState {
    pub done: usize,
    pub total: usize,
}

impl Default for DownloadState {
    fn default() -> (state: Self)
        ensures
            state.done == 0,
            state.total == 0,
    {
        DownloadState { done: 0, total: 0 }
    }
}

/// What a download batch leaves behind: the last snapshot, and every failure.
#[derive(Debug)]
pub struct DownloadResult {
    pub state: DownloadState,
    pub errors: Vec<ConvertError>,
}

} // verus!
