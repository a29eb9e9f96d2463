//! What the downloader of the streaming pipeline decides: which commands a
//! resource becomes, how often a download is tried, and how its tasks are
//! counted. The requests, the files and the threads are the caller's.

use std::collections::HashMap;
use vstd::prelude::*;
use vstd::string::*;

use crate::pipeline::constant::DOWNLOAD_RETRY_TIMES;
use crate::pipeline::definition::{full_path, BindTicket, Resource};
use crate::pipeline::error::{DownloadError, DownloadErrorKind, Failure};

verus! {

/// The request headers, by name.
#[derive(Debug, Clone, Default)]
pub struct Header(pub HashMap<String, String>);

/// What the worker of a downloader is asked to do.
#[derive(Debug)]
pub enum DownloadCommand {
    /// Fetch `url` and write it to `path`.
    Task { url: String, path: String },
    /// Fetch the manifest at `url`, and hand its bytes to the resolver with
    /// `task`.
    Callback { url: String, task: BindTicket },
    /// Let the running tasks end, and stop.
    Shutdown,
}

/// The command that fetches `resource` into the project at `root`: a resource
/// without an address cannot be fetched.
pub fn plan_download(root: &str, resource: &Resource) -> (r: Result<DownloadCommand, Failure>)
    ensures
        match resource.url {
            Some(u) => r matches Ok(DownloadCommand::Task { url, path }) && url@ == u@ && path@
                == root@ + full_path(resource.root, resource.path@),
            None => r matches Err(Failure::Download(e)) && e.kind is UrlMissing && e.url is None
                && e.path is None,
        },
{
    match &resource.url {
        Some(url) => {
            let mut path = String::from_str(root);
            path.append(resource.get_full_path().as_str());
            Ok(DownloadCommand::Task { url: url.clone(), path })
        },
        None => Err(Failure::Download(DownloadError::new(DownloadErrorKind::UrlMissing))),
    }
}

/// The command that fetches a resource which a manifest names. A resource
/// without an address is asked for at the empty address.
pub open spec fn bound_task(root: Seq<char>, resource: Resource) -> (Seq<char>, Seq<char>) {
    (
        match resource.url {
            Some(u) => u@,
            None => Seq::empty(),
        },
        root + full_path(resource.root, resource.path@),
    )
}

/// Whether `command` fetches a resource which a manifest names.
pub open spec fn fetches(command: DownloadCommand, root: Seq<char>, resource: Resource) -> bool {
    command matches DownloadCommand::Task { url, path } && (url@, path@) == bound_task(
        root,
        resource,
    )
}

/// The commands that fetch the resources which a manifest names, in their
/// order.
pub fn plan_bound(root: &str, resources: &Vec<Resource>) -> (commands: Vec<DownloadCommand>)
    ensures
        commands@.len() == resources@.len(),
        forall|i: int|
            0 <= i < commands@.len() ==> fetches(#[trigger] commands@[i], root@, resources@[i]),
{
    let mut commands: Vec<DownloadCommand> = Vec::new();
    let mut i: usize = 0;
    while i < resources.len()
        invariant
            i <= resources@.len(),
            commands@.len() == i,
            forall|j: int|
                0 <= j < i ==> fetches(#[trigger] commands@[j], root@, resources@[j]),
        decreases resources@.len() - i,
    {
        let url = match &resources[i].url {
            Some(u) => u.clone(),
            None => String::new(),
        };
        let mut path = String::from_str(root);
        path.append(resources[i].get_full_path().as_str());
        commands.push(DownloadCommand::Task { url, path });
        i += 1;
    }
    commands
}

/// What came of one attempt of a download.
#[derive(Debug)]
pub enum Attempt {
    /// The file is there.
    Done,
    /// The attempt failed.
    Failed(DownloadError),
    /// The attempt took too long.
    TimedOut,
}

/// What follows an attempt.
#[derive(Debug)]
pub enum Next {
    /// The download is over, with this outcome.
    Finish(Result<(), DownloadError>),
    /// Wait `DOWNLOAD_RETRY_BACKOFF_MILLIS` and try again.
    Retry,
}

/// The attempts of one download.
#[derive(Debug)]
pub struct Retry {
    attempts: usize,
}

impl Retry {
    /// The number of attempts that have failed.
    pub closed spec fn failed(&self) -> nat {
        self.attempts as nat
    }

    /// A download of which nothing has been tried.
    pub fn new() -> (retry: Self)
        ensures
            retry.failed() == 0,
    {
        Retry { attempts: 0 }
    }

    /// The failure that an attempt ends with, if it ends with one.
    pub open spec fn failure_of(outcome: Attempt) -> Option<DownloadError> {
        match outcome {
            Attempt::Done => None,
            Attempt::Failed(e) => Some(e),
            Attempt::TimedOut => Some(
                DownloadError { kind: DownloadErrorKind::Timeout, url: None, path: None },
            ),
        }
    }

    /// Takes in what came of an attempt. A download that is done is over. One
    /// that has failed is tried again, until it has failed
    /// `DOWNLOAD_RETRY_TIMES` times: then it is over, with the failure of its
    /// last attempt.
    pub fn next(&mut self, outcome: Attempt) -> (next: Next)
        requires
            old(self).failed() < DOWNLOAD_RETRY_TIMES,
        ensures
            match Self::failure_of(outcome) {
                None => next matches Next::Finish(Ok(_)) && final(self).failed() == old(self).failed(),
                Some(e) => final(self).failed() == old(self).failed() + 1 && if old(self).failed()
                    + 1 < DOWNLOAD_RETRY_TIMES {
                    next is Retry
                } else {
                    next == Next::Finish(Err(e))
                },
            },
    {
        let error = match outcome {
            Attempt::Done => {
                return Next::Finish(Ok(()));
            },
            Attempt::Failed(e) => e,
            Attempt::TimedOut => DownloadError::new(DownloadErrorKind::Timeout),
        };
        self.attempts = self.attempts + 1;
        if self.attempts < DOWNLOAD_RETRY_TIMES {
            Next::Retry
        } else {
            Next::Finish(Err(error))
        }
    }

    /// Tests whether another attempt may be made.
    pub fn may_try(&self) -> (b: bool)
        ensures
            b == (self.failed() < DOWNLOAD_RETRY_TIMES),
    {
        self.attempts < DOWNLOAD_RETRY_TIMES
    }
}

/// The number of attempts that a download whose attempts all fail makes from
/// now on, when `failed` of them have failed already.
pub open spec fn attempts_left(failed: nat) -> nat
    decreases DOWNLOAD_RETRY_TIMES - failed,
{
    if failed + 1 < DOWNLOAD_RETRY_TIMES {
        1 + attempts_left(failed + 1)
    } else {
        1
    }
}

/// The retry bound: a download whose attempts all fail is tried
/// `DOWNLOAD_RETRY_TIMES` times, and no more.
pub proof fn lemma_attempts_are_bounded()
    ensures
        attempts_left(0) == DOWNLOAD_RETRY_TIMES,
{
    reveal_with_fuel(attempts_left, 4);
}

/// What a downloader knows of its tasks.
#[derive(Debug)]
pub struct DownloaderState {
    pub task_count: usize,
    pub bind_active_count: usize,
    pub shutdown: bool,
    pub error: Vec<DownloadError>,
}

/// `n - 1`, or `0` where `n` is `0`.
pub open spec fn decremented(n: usize) -> usize {
    if n > 0 {
        (n - 1) as usize
    } else {
        0
    }
}

/// `n + 1`, or `n` where that does not fit.
pub open spec fn incremented(n: usize) -> usize {
    if n < usize::MAX {
        (n + 1) as usize
    } else {
        n
    }
}

impl DownloaderState {
    /// The state of a downloader that has done nothing.
    pub fn new() -> (state: Self)
        ensures
            state.task_count == 0,
            state.bind_active_count == 0,
            !state.shutdown,
            state.error@.len() == 0,
    {
        DownloaderState { task_count: 0, bind_active_count: 0, shutdown: false, error: Vec::new() }
    }

    /// A task has started.
    pub fn task_started(&mut self)
        ensures
            final(self).task_count == incremented(old(self).task_count),
            final(self).bind_active_count == old(self).bind_active_count,
            final(self).shutdown == old(self).shutdown,
            final(self).error == old(self).error,
    {
        if self.task_count < usize::MAX {
            self.task_count = self.task_count + 1;
        }
    }

    /// A task has ended. Its failure, if it has one, is kept, with the
    /// address and the path of the task where the failure names none.
    pub fn task_finished(&mut self, result: Result<(), DownloadError>, url: &str, path: &str)
        ensures
            final(self).task_count == decremented(old(self).task_count),
            final(self).bind_active_count == old(self).bind_active_count,
            final(self).shutdown == old(self).shutdown,
            match result {
                Ok(_) => final(self).error == old(self).error,
                Err(e) => final(self).error@.len() == old(self).error@.len() + 1 && final(self).error@.drop_last() == old(self).error@ && final(self).error@.last().kind
                    == e.kind && (final(self).error@.last().url matches Some(u) && match e.url {
                    Some(known) => u == known,
                    None => u@ == url@,
                }) && (final(self).error@.last().path matches Some(p) && match e.path {
                    Some(known) => p == known,
                    None => p@ == path@,
                }),
            },
    {
        if let Err(e) = result {
            let ghost before = self.error@;
            self.error.push(e.with_context(url, path));
            assert(self.error@.drop_last() =~= before);
        }
        if self.task_count > 0 {
            self.task_count = self.task_count - 1;
        }
    }

    /// The callback of a manifest has started.
    pub fn bind_started(&mut self)
        ensures
            final(self).bind_active_count == incremented(old(self).bind_active_count),
            final(self).task_count == old(self).task_count,
            final(self).shutdown == old(self).shutdown,
            final(self).error == old(self).error,
    {
        if self.bind_active_count < usize::MAX {
            self.bind_active_count = self.bind_active_count + 1;
        }
    }

    /// The callback of a manifest has ended.
    pub fn bind_finished(&mut self)
        ensures
            final(self).bind_active_count == decremented(old(self).bind_active_count),
            final(self).task_count == old(self).task_count,
            final(self).shutdown == old(self).shutdown,
            final(self).error == old(self).error,
    {
        if self.bind_active_count > 0 {
            self.bind_active_count = self.bind_active_count - 1;
        }
    }

    /// Tests whether a caller that waits for the downloads has to go on
    /// waiting: as long as tasks run and the downloader is not shut down.
    pub fn is_busy(&self) -> (busy: bool)
        ensures
            busy == (self.task_count > 0 && !self.shutdown),
    {
        self.task_count > 0 && !self.shutdown
    }

    /// Hands out the failures so far, and forgets them.
    pub fn take_error(&mut self) -> (errors: Vec<DownloadError>)
        ensures
            errors == old(self).error,
            final(self).error@.len() == 0,
            final(self).task_count == old(self).task_count,
            final(self).bind_active_count == old(self).bind_active_count,
            final(self).shutdown == old(self).shutdown,
    {
        let mut errors: Vec<DownloadError> = Vec::new();
        std::mem::swap(&mut self.error, &mut errors);
        errors
    }
}

} // verus!
