//! The streaming pipeline as a whole: the stage it is at, and what it has
//! counted.

use vstd::prelude::*;
use vstd::string::*;

use crate::pipeline::error::{Failure, PipelineError};
use crate::pipeline::purifier::PurifyResult;

verus! {

/// The stage a pipeline is at.
#[derive(Debug, Clone, Copy, PartialEq, Eq, Structural)]
pub enum Procedure {
    NotStarted,
    ParsingScript,
    Transpiling,
    WaitingForDownload,
    Extracting,
    Completed,
}

impl Procedure {
    /// The name of the stage.
    pub open spec fn name(self) -> Seq<char> {
        match self {
            Procedure::NotStarted => "NotStarted"@,
            Procedure::ParsingScript => "ParsingScript"@,
            Procedure::Transpiling => "Transpiling"@,
            Procedure::WaitingForDownload => "WaitingForDownload"@,
            Procedure::Extracting => "Extracting"@,
            Procedure::Completed => "Completed"@,
        }
    }

    /// The stage behind this one. The last stage has none.
    pub open spec fn following(self) -> Procedure {
        match self {
            Procedure::NotStarted => Procedure::ParsingScript,
            Procedure::ParsingScript => Procedure::Transpiling,
            Procedure::Transpiling => Procedure::WaitingForDownload,
            Procedure::WaitingForDownload => Procedure::Extracting,
            _ => Procedure::Completed,
        }
    }

    /// The name of the stage.
    pub fn as_str(&self) -> (name: &'static str)
        ensures
            name@ == self.name(),
    {
        match self {
            Procedure::NotStarted => "NotStarted",
            Procedure::ParsingScript => "ParsingScript",
            Procedure::Transpiling => "Transpiling",
            Procedure::WaitingForDownload => "WaitingForDownload",
            Procedure::Extracting => "Extracting",
            Procedure::Completed => "Completed",
        }
    }

    /// The name of the stage as an owned string.
    pub fn to_string(&self) -> (name: String)
        ensures
            name@ == self.name(),
    {
        String::from_str(self.as_str())
    }
}

/// A snapshot of a pipeline: the stage it is at, the failures since the last
/// snapshot, and what it has counted.
#[derive(Debug)]
pub struct State {
    pub procedure: Procedure,
    pub error: Vec<Failure>,
    pub scene_count: u16,
    pub download_task_count: usize,
    pub purified_action_count: usize,
    pub transpiled_action_count: usize,
}

/// A pipeline: it runs in the background and can be asked how far it is.
pub trait Pipeline {
    /// Starts the pipeline.
    fn process(&mut self) -> Result<(), Failure>;

    /// Waits for the pipeline to end.
    fn wait(&mut self) -> Result<(), Failure>;

    /// A snapshot. The failures it holds are forgotten by the pipeline.
    fn take_state(&mut self) -> Result<State, Failure>;
}

/// What the second stage hands on: a command to write, or the scene that is
/// written to from now on.
#[derive(Debug)]
pub enum Written {
    Action,
    Scene,
}

/// `n + 1`, or `0` where that does not fit.
pub open spec fn wrapped16(n: u16) -> u16 {
    if n < u16::MAX {
        (n + 1) as u16
    } else {
        0
    }
}

/// `n + 1`, or `0` where that does not fit.
pub open spec fn wrapped(n: usize) -> usize {
    if n < usize::MAX {
        (n + 1) as usize
    } else {
        0
    }
}

fn next(n: usize) -> (r: usize)
    ensures
        r == wrapped(n),
{
    if n < usize::MAX {
        n + 1
    } else {
        0
    }
}

/// What a running pipeline knows of itself.
#[derive(Debug)]
pub struct InnerState {
    pub procedure: Procedure,
    pub error: Vec<Failure>,
    pub scene_count: u16,
    pub download_task_count: usize,
    pub purified_action_count: usize,
    pub transpiled_action_count: usize,
    pub paniced: bool,
}

impl InnerState {
    /// The state of a pipeline that has not started.
    pub fn new() -> (state: Self)
        ensures
            state.procedure == Procedure::NotStarted,
            state.error@.len() == 0,
            state.scene_count == 0,
            state.download_task_count == 0,
            state.purified_action_count == 0,
            state.transpiled_action_count == 0,
            !state.paniced,
    {
        InnerState {
            procedure: Procedure::NotStarted,
            error: Vec::new(),
            scene_count: 0,
            download_task_count: 0,
            purified_action_count: 0,
            transpiled_action_count: 0,
            paniced: false,
        }
    }

    /// Tests whether the pipeline has broken down.
    pub fn is_paniced(&self) -> (b: bool)
        ensures
            b == self.paniced,
    {
        self.paniced
    }

    /// Tests whether the pipeline may be started: one that has broken down
    /// may not, and one that was started before may not.
    pub fn check_start(&self) -> (r: Result<(), PipelineError>)
        ensures
            r == if self.paniced {
                Err::<(), PipelineError>(PipelineError::Paniced)
            } else if self.procedure != Procedure::NotStarted {
                Err(PipelineError::BadStart)
            } else {
                Ok(())
            },
    {
        if self.paniced {
            Err(PipelineError::Paniced)
        } else {
            match self.procedure {
                Procedure::NotStarted => Ok(()),
                _ => Err(PipelineError::BadStart),
            }
        }
    }

    /// Goes on to the stage behind the one the pipeline is at.
    pub fn advance(&mut self)
        ensures
            *final(self) == (InnerState {
                procedure: old(self).procedure.following(),
                ..*old(self)
            }),
    {
        self.procedure = match self.procedure {
            Procedure::NotStarted => Procedure::ParsingScript,
            Procedure::ParsingScript => Procedure::Transpiling,
            Procedure::Transpiling => Procedure::WaitingForDownload,
            Procedure::WaitingForDownload => Procedure::Extracting,
            _ => Procedure::Completed,
        };
    }

    /// Notes a failure that the pipeline survives.
    pub fn note(&mut self, failure: Failure)
        ensures
            final(self).error@ == old(self).error@.push(failure),
            final(self).procedure == old(self).procedure,
            final(self).scene_count == old(self).scene_count,
            final(self).download_task_count == old(self).download_task_count,
            final(self).purified_action_count == old(self).purified_action_count,
            final(self).transpiled_action_count == old(self).transpiled_action_count,
            final(self).paniced == old(self).paniced,
    {
        self.error.push(failure);
    }

    /// Notes a failure that the pipeline does not survive.
    pub fn break_down(&mut self, failure: Failure)
        ensures
            final(self).error@ == old(self).error@.push(failure),
            final(self).paniced,
            final(self).procedure == old(self).procedure,
            final(self).scene_count == old(self).scene_count,
            final(self).download_task_count == old(self).download_task_count,
            final(self).purified_action_count == old(self).purified_action_count,
            final(self).transpiled_action_count == old(self).transpiled_action_count,
    {
        self.error.push(failure);
        self.paniced = true;
    }

    /// Takes in an item of the first stage: a failure is noted, a cleaned
    /// action and a task are counted and handed on.
    pub fn purified(&mut self, item: Result<PurifyResult, Failure>) -> (handed: Option<
        PurifyResult,
    >)
        ensures
            final(self).procedure == old(self).procedure,
            final(self).scene_count == old(self).scene_count,
            final(self).transpiled_action_count == old(self).transpiled_action_count,
            final(self).paniced == old(self).paniced,
            match item {
                Ok(PurifyResult::Action(a)) => {
                    &&& handed == Some(PurifyResult::Action(a))
                    &&& final(self).purified_action_count == wrapped(
                        old(self).purified_action_count,
                    )
                    &&& final(self).download_task_count == old(self).download_task_count
                    &&& final(self).error == old(self).error
                },
                Ok(PurifyResult::ResourceTask(t)) => {
                    &&& handed == Some(PurifyResult::ResourceTask(t))
                    &&& final(self).download_task_count == wrapped(old(self).download_task_count)
                    &&& final(self).purified_action_count == old(self).purified_action_count
                    &&& final(self).error == old(self).error
                },
                Err(e) => {
                    &&& handed is None
                    &&& final(self).error@ == old(self).error@.push(e)
                    &&& final(self).download_task_count == old(self).download_task_count
                    &&& final(self).purified_action_count == old(self).purified_action_count
                },
            },
    {
        match item {
            Ok(PurifyResult::Action(a)) => {
                self.purified_action_count = next(self.purified_action_count);
                Some(PurifyResult::Action(a))
            },
            Ok(PurifyResult::ResourceTask(t)) => {
                self.download_task_count = next(self.download_task_count);
                Some(PurifyResult::ResourceTask(t))
            },
            Err(e) => {
                self.error.push(e);
                None
            },
        }
    }

    /// Counts what the second stage has handed on.
    pub fn transpiled(&mut self, written: Written)
        ensures
            final(self).procedure == old(self).procedure,
            final(self).error == old(self).error,
            final(self).download_task_count == old(self).download_task_count,
            final(self).purified_action_count == old(self).purified_action_count,
            final(self).paniced == old(self).paniced,
            match written {
                Written::Scene => final(self).scene_count == wrapped16(old(self).scene_count)
                    && final(self).transpiled_action_count == old(self).transpiled_action_count,
                Written::Action => final(self).transpiled_action_count == wrapped(
                    old(self).transpiled_action_count,
                ) && final(self).scene_count == old(self).scene_count,
            },
    {
        match written {
            Written::Scene => {
                self.scene_count = if self.scene_count < u16::MAX {
                    self.scene_count + 1
                } else {
                    0
                };
            },
            Written::Action => {
                self.transpiled_action_count = next(self.transpiled_action_count);
            },
        }
    }

    /// A snapshot of the pipeline. The failures go with it. A pipeline that
    /// has broken down gives none.
    pub fn take_state(&mut self) -> (r: Result<State, Failure>)
        ensures
            final(self).procedure == old(self).procedure,
            final(self).scene_count == old(self).scene_count,
            final(self).download_task_count == old(self).download_task_count,
            final(self).purified_action_count == old(self).purified_action_count,
            final(self).transpiled_action_count == old(self).transpiled_action_count,
            final(self).paniced == old(self).paniced,
            if old(self).paniced {
                &&& r matches Err(Failure::Pipeline(PipelineError::Paniced))
                &&& final(self).error == old(self).error
            } else {
                &&& r matches Ok(state)
                &&& state.procedure == old(self).procedure
                &&& state.error == old(self).error
                &&& state.scene_count == old(self).scene_count
                &&& state.download_task_count == old(self).download_task_count
                &&& state.purified_action_count == old(self).purified_action_count
                &&& state.transpiled_action_count == old(self).transpiled_action_count
                &&& final(self).error@.len() == 0
            },
    {
        if self.paniced {
            return Err(Failure::Pipeline(PipelineError::Paniced));
        }
        let mut error: Vec<Failure> = Vec::new();
        std::mem::swap(&mut self.error, &mut error);
        Ok(
            State {
                procedure: self.procedure,
                error,
                scene_count: self.scene_count,
                download_task_count: self.download_task_count,
                purified_action_count: self.purified_action_count,
                transpiled_action_count: self.transpiled_action_count,
            },
        )
    }
}

} // verus!
