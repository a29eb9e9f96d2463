//! The download pipeline: the bookkeeping of a batch of running downloads.
//!
//! The thread that runs a batch calls [`DownloadPipeline::check`] once per
//! polling interval until it answers `false`, and publishes
//! [`DownloadPipeline::state`] after each call.

use vstd::prelude::*;

use crate::error::ConvertError;
use crate::traits::handle::Handle;
use crate::traits::pipeline::{DownloadResult, DownloadState};

verus! {

/// The milliseconds between two looks at the running downloads.
pub const DOWNLOAD_STATE_UPDATE_BACKOFF_MILLIS: u64 = 100;

/// What the download of one resource gives: nothing, or every failure on the
/// way.
pub type DownloadOutcome = Result<(), Vec<ConvertError>>;

/// The snapshot after one more download has ended with `outcome`: a download
/// that succeeded is counted as done, one that failed is not.
pub open spec fn counted(state: DownloadState, outcome: DownloadOutcome) -> DownloadState {
    match outcome {
        Ok(_) => DownloadState { done: (state.done + 1) as usize, total: state.total },
        Err(_) => state,
    }
}

/// The failures after one more download has ended with `outcome`: those of
/// the download are added at the end, all of them.
pub open spec fn collected(errors: Seq<ConvertError>, outcome: DownloadOutcome) -> Seq<
    ConvertError,
> {
    match outcome {
        Ok(_) => errors,
        Err(e) => errors + e@,
    }
}

/// Enters the outcome of one download into the snapshot and the failures.
pub fn record(state: &mut DownloadState, errors: &mut Vec<ConvertError>, outcome: DownloadOutcome)
    requires
        old(state).done < old(state).total,
    ensures
        *final(state) == counted(*old(state), outcome),
        final(errors)@ == collected(old(errors)@, outcome),
{
    match outcome {
        Ok(_) => {
            state.done = state.done + 1;
        },
        Err(mut e) => {
            errors.append(&mut e);
        },
    }
}

/// A batch of running downloads.
pub struct DownloadPipeline<H> {
    handles: Vec<H>,
    state: DownloadState,
    errors: Vec<ConvertError>,
    finished: bool,
}

impl<H> DownloadPipeline<H> {
    /// Every download of the batch is running, done or failed, so those done
    /// and those running are never more than the batch holds.
    #[verifier::type_invariant]
    spec fn wf(self) -> bool {
        self.state.done + self.handles@.len() <= self.state.total
    }

    /// The snapshot of the batch.
    pub closed spec fn progress(&self) -> DownloadState {
        self.state
    }

    /// The number of downloads that are still running.
    pub closed spec fn pending(&self) -> nat {
        self.handles@.len()
    }

    /// Every failure so far.
    pub closed spec fn failures(&self) -> Seq<ConvertError> {
        self.errors@
    }

    /// Whether the batch has run to its end or was cancelled.
    pub closed spec fn ended(&self) -> bool {
        self.finished
    }

}

impl<H: Handle<Result = DownloadOutcome>> DownloadPipeline<H> {
    /// A batch of the downloads behind `handles`, one per resource.
    pub fn new(handles: Vec<H>) -> (pipe: Self)
        ensures
            pipe.progress() == (DownloadState { done: 0, total: handles@.len() as usize }),
            pipe.pending() == handles@.len(),
            pipe.failures() == Seq::<ConvertError>::empty(),
            !pipe.ended(),
    {
        let total = handles.len();
        DownloadPipeline {
            handles,
            state: DownloadState { done: 0, total },
            errors: Vec::new(),
            finished: false,
        }
    }

    /// A copy of the snapshot. It never reports more done than the batch
    /// holds.
    pub fn state(&self) -> (state: DownloadState)
        ensures
            state == self.progress(),
            state.done <= state.total,
    {
        proof {
            use_type_invariant(self);
        }
        self.state
    }

    /// The number of downloads that are still running.
    pub fn pending_count(&self) -> (count: usize)
        ensures
            count == self.pending(),
    {
        self.handles.len()
    }

    /// The number of failures collected so far.
    pub fn failure_count(&self) -> (count: usize)
        ensures
            count == self.failures().len(),
    {
        self.errors.len()
    }

    /// Tests whether the batch has run to its end or was cancelled.
    pub fn is_finished(&self) -> (finished: bool)
        ensures
            finished == self.ended(),
    {
        self.finished
    }

    /// One look at the running downloads. Each one that has finished is
    /// joined, and its outcome entered with [`record`]; the others stay. The
    /// answer is whether there was anything to look at: once it is `false` the
    /// batch has ended.
    ///
    /// Which downloads have finished, and how, is theirs to say. Whatever they
    /// say, the number done does not go down and stays within the total, and
    /// no failure once collected is lost.
    pub fn check(&mut self) -> (more: bool)
        ensures
            more == (!old(self).ended() && old(self).pending() > 0),
            final(self).ended() == !more,
            final(self).progress().total == old(self).progress().total,
            old(self).progress().done <= final(self).progress().done <= final(self).progress().total,
            final(self).pending() <= old(self).pending(),
            final(self).progress().done - old(self).progress().done <= old(self).pending() - final(self).pending(),
            old(self).failures().is_prefix_of(final(self).failures()),
            !more ==> final(self).progress() == old(self).progress() && final(self).failures()
                == old(self).failures(),
    {
        let mut taken = DownloadPipeline::new(Vec::new());
        std::mem::swap(self, &mut taken);
        proof {
            use_type_invariant(&taken);
        }
        let DownloadPipeline { handles, state, errors, finished } = taken;
        if finished || handles.len() == 0 {
            *self = DownloadPipeline { handles, state, errors, finished: true };
            return false;
        }
        let mut handles = handles;
        let mut state = state;
        let mut errors = errors;
        let mut running: Vec<H> = Vec::new();
        let ghost before = state;
        let ghost failed = errors@;
        let ghost count = handles@.len();
        while handles.len() > 0
            invariant
                state.total == before.total,
                before.done <= state.done,
                state.done + handles@.len() + running@.len() <= state.total,
                handles@.len() + running@.len() <= count,
                state.done - before.done <= count - handles@.len() - running@.len(),
                failed.is_prefix_of(errors@),
            decreases handles@.len(),
        {
            let handle = handles.pop().unwrap();
            if handle.is_finished() {
                let ghost sofar = errors@;
                let outcome = Box::new(handle).join();
                record(&mut state, &mut errors, outcome);
                assert(sofar.is_prefix_of(errors@)) by {
                    assert(errors@.subrange(0, sofar.len() as int) =~= sofar);
                }
                assert(failed.is_prefix_of(errors@)) by {
                    assert(errors@.subrange(0, failed.len() as int) =~= sofar.subrange(
                        0,
                        failed.len() as int,
                    ));
                }
            } else {
                running.push(handle);
            }
        }
        *self = DownloadPipeline { handles: running, state, errors, finished: false };
        true
    }

    /// Cancels every download that is still running and ends the batch. What
    /// was counted and collected stays.
    pub fn cancel(&mut self)
        ensures
            final(self).ended(),
            final(self).pending() == 0,
            final(self).progress() == old(self).progress(),
            final(self).failures() == old(self).failures(),
    {
        let mut taken = DownloadPipeline::new(Vec::new());
        std::mem::swap(self, &mut taken);
        proof {
            use_type_invariant(&taken);
        }
        let DownloadPipeline { handles, state, errors, finished } = taken;
        let mut handles = handles;
        while handles.len() > 0
            invariant
                true,
            decreases handles@.len(),
        {
            let mut handle = handles.pop().unwrap();
            handle.cancel();
        }
        *self = DownloadPipeline { handles, state, errors, finished: true };
    }

    /// Ends the batch and hands out the last snapshot with every failure.
    pub fn into_result(self) -> (result: DownloadResult)
        ensures
            result.state == self.progress(),
            result.errors@ == self.failures(),
            result.state.done <= result.state.total,
    {
        proof {
            use_type_invariant(&self);
        }
        DownloadResult { state: self.state, errors: self.errors }
    }
}

} // verus!
