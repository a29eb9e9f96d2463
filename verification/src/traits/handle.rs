//! The contract of every asynchronous unit of work.

use vstd::prelude::*;

verus! {

/// A unit of work that runs elsewhere: a single fetch, a compound fetch, a
/// downloader, a pipeline.
///
/// Whoever owns a handle either joins it or cancels it. An owner that lets go
/// of a handle it has not joined cancels it first.
pub trait Handle {
    type Result;

    /// Waits for the work to end and returns what came of it. Not to be
    /// called on a handle that has been cancelled.
    fn join(self: Box<Self>) -> Self::Result;

    /// Asks the work to stop as soon as it can. Does not wait.
    fn cancel(&mut self);

    /// Tests, without waiting, whether a result is there or a cancellation has
    /// taken effect.
    fn is_finished(&self) -> bool;
}

} // verus!
