//! What a worker of the download pool decides.
//!
//! A worker owns a queue of tasks. It takes the oldest, has it fetched, and
//! then either delivers the outcome or puts the task back at the end of the
//! queue for another attempt. The fetch itself, the waiting and the channels
//! are the caller's: a task carries a ticket of the caller's choosing, which
//! the worker hands back with whatever is to be delivered.

use std::collections::VecDeque;
use vstd::prelude::*;

use crate::error::DownloadErrorKind;
use crate::utils::{declared_encoding, decoded, lowercase, maybe_decompress_bytes};

verus! {

/// What a fetch gives: the bytes, or why there are none.
pub type PoolResult<T> = Result<T, DownloadErrorKind>;

/// The number of workers of a pool.
pub const CLIENT_COUNT: usize = 4;

/// The seconds a single request may take.
pub const TASK_TIMEOUT_SECS: u64 = 16;

/// The number of failed attempts after which a task is given up.
pub const TASK_MAX_RETRIES: usize = 3;

/// The number of failures in a row after which a worker rebuilds its client.
pub const CLIENT_RESTART_FAILURE_THRESHOLD: usize = 5;

/// The seconds a worker waits before it rebuilds its client.
pub const CLIENT_RESTART_BACKOFF_SECS: u64 = 8;

/// A request to fetch `url`, as it is sent to the pool.
#[derive(Debug)]
pub struct DownloadCommand<T> {
    pub url: String,
    pub ticket: T,
}

/// A request in the hands of a worker, with the number of attempts that have
/// failed so far.
#[derive(Debug)]
pub struct DownloadTask<T> {
    pub count: usize,
    pub url: String,
    pub ticket: T,
}

impl<T> DownloadTask<T> {
    /// The task of a command: nothing has failed yet.
    pub fn new(command: DownloadCommand<T>) -> (task: Self)
        ensures
            task.count == 0,
            task.url == command.url,
            task.ticket == command.ticket,
    {
        DownloadTask { count: 0, url: command.url, ticket: command.ticket }
    }
}

/// What came of one request.
#[derive(Debug)]
pub enum Response {
    /// The request could not be sent, timed out, or was answered with a status
    /// outside 2xx.
    Failed(reqwest::Error),
    /// The request was answered with a status in 2xx. `encoding` is the
    /// content encoding the answer declares, empty where it declares none;
    /// `body` is the body as read, or why it could not be read.
    Answered { encoding: String, body: Result<Vec<u8>, reqwest::Error> },
}

/// What a worker did with a task after an attempt.
#[derive(Debug)]
pub enum Settlement<T> {
    /// The task is over: `result` goes to the holder of `ticket`.
    Delivered { ticket: T, result: PoolResult<Vec<u8>> },
    /// The task is back at the end of the queue.
    Requeued,
}

/// A settlement, and whether the worker has to rebuild its client before it
/// goes on.
#[derive(Debug)]
pub struct Verdict<T> {
    pub settlement: Settlement<T>,
    pub restart: bool,
}

/// `n + 1`, or `n` where that does not fit.
pub open spec fn bumped(n: usize) -> usize {
    if n < usize::MAX {
        (n + 1) as usize
    } else {
        n
    }
}

/// Whether a task that has failed `count` times before is given up when it
/// fails once more.
pub open spec fn gives_up(count: usize) -> bool {
    bumped(count) >= TASK_MAX_RETRIES
}

/// The number of failed attempts, from now on, after which a task that has
/// failed `count` times before is given up.
pub open spec fn failures_until_given_up(count: usize) -> nat
    decreases TASK_MAX_RETRIES - count,
{
    if gives_up(count) {
        1
    } else {
        1 + failures_until_given_up((count + 1) as usize)
    }
}

/// The retry bound. A task whose every attempt fails is put back after each of
/// its first failures and given up at the last: a task that has failed `count`
/// times is given up after `TASK_MAX_RETRIES - count` more failures, a fresh
/// one after exactly `TASK_MAX_RETRIES`.
pub proof fn lemma_retry_bound(count: usize)
    requires
        count < TASK_MAX_RETRIES,
    ensures
        failures_until_given_up(count) == TASK_MAX_RETRIES - count,
        failures_until_given_up(0) == TASK_MAX_RETRIES,
    decreases TASK_MAX_RETRIES - count,
{
    if !gives_up(count) {
        lemma_retry_bound((count + 1) as usize);
    }
    reveal_with_fuel(failures_until_given_up, 4);
}

/// What becomes of `task` when an attempt of it has failed with `err`: it is
/// given up, and `err` is delivered, where it has now failed
/// `TASK_MAX_RETRIES` times; else it goes to the end of the queue, with one
/// more failure on its count.
pub open spec fn retried_or_given_up<T>(
    before: Seq<DownloadTask<T>>,
    after: Seq<DownloadTask<T>>,
    task: DownloadTask<T>,
    err: reqwest::Error,
    settlement: Settlement<T>,
) -> bool {
    if gives_up(task.count) {
        &&& after == before
        &&& settlement == (Settlement::Delivered {
            ticket: task.ticket,
            result: Err(DownloadErrorKind::Reqwest(err)),
        })
    } else {
        &&& settlement is Requeued
        &&& after == before.push(
            DownloadTask { count: (task.count + 1) as usize, url: task.url, ticket: task.ticket },
        )
    }
}

/// What becomes of `task` when its request was answered with `bytes` under
/// `encoding`: the decoded content is delivered, or, where the bytes cannot be
/// decoded, a failure. The queue is left alone either way.
pub open spec fn content_delivered<T>(
    before: Seq<DownloadTask<T>>,
    after: Seq<DownloadTask<T>>,
    task: DownloadTask<T>,
    encoding: Seq<char>,
    bytes: Seq<u8>,
    settlement: Settlement<T>,
) -> bool {
    &&& after == before
    &&& match decoded(bytes, declared_encoding(lowercase(encoding))) {
        Some(content) => {
            &&& settlement matches Settlement::Delivered { ticket, result: Ok(out) }
            &&& ticket == task.ticket
            &&& out@ == content
        },
        None => {
            &&& settlement matches Settlement::Delivered {
                ticket,
                result: Err(DownloadErrorKind::Io(_)),
            }
            &&& ticket == task.ticket
        },
    }
}

/// The length of the run of failures after an attempt: a delivered content
/// ends the run, a content that cannot be decoded leaves it as it is, and
/// anything else makes it longer by one.
pub open spec fn failures_after(failures: usize, response: Response) -> usize {
    match response {
        Response::Answered { encoding, body: Ok(bytes) } => {
            if decoded(bytes@, declared_encoding(lowercase(encoding@))) is Some {
                0
            } else {
                failures
            }
        },
        _ => bumped(failures),
    }
}

/// Whether a run of failures is long enough for the client to count as
/// degraded.
pub open spec fn degraded(failures: usize) -> bool {
    failures >= CLIENT_RESTART_FAILURE_THRESHOLD
}

fn bump(n: usize) -> (r: usize)
    ensures
        r == bumped(n),
{
    if n < usize::MAX {
        n + 1
    } else {
        n
    }
}

/// The state of one worker: its queue, and how many attempts have failed in a
/// row.
pub struct DownloadPoolWorker<T> {
    count: usize,
    tasks: VecDeque<DownloadTask<T>>,
}

impl<T> DownloadPoolWorker<T> {
    /// The number of attempts that have failed in a row.
    pub closed spec fn failures(&self) -> usize {
        self.count
    }

    /// The tasks the worker owns, oldest first.
    pub closed spec fn queue(&self) -> Seq<DownloadTask<T>> {
        self.tasks@
    }

    /// A worker that owns no task.
    pub fn new() -> (worker: Self)
        ensures
            worker.failures() == 0,
            worker.queue() == Seq::<DownloadTask<T>>::empty(),
    {
        DownloadPoolWorker { count: 0, tasks: VecDeque::new() }
    }

    /// The number of attempts that have failed in a row.
    pub fn failure_count(&self) -> (count: usize)
        ensures
            count == self.failures(),
    {
        self.count
    }

    /// The number of tasks the worker owns.
    pub fn queue_len(&self) -> (len: usize)
        ensures
            len == self.queue().len(),
    {
        self.tasks.len()
    }

    /// Gives up every task the worker owns. The caller drops them, which ends
    /// each of them as cancelled.
    pub fn cancel(&mut self) -> (dropped: VecDeque<DownloadTask<T>>)
        ensures
            dropped@ == old(self).queue(),
            final(self).queue() == Seq::<DownloadTask<T>>::empty(),
            final(self).failures() == old(self).failures(),
    {
        let mut dropped: VecDeque<DownloadTask<T>> = VecDeque::new();
        std::mem::swap(&mut self.tasks, &mut dropped);
        dropped
    }

    /// Tests whether the worker owns no task, so that it has to wait for one.
    /// A worker that owns tasks only looks for a new one without waiting.
    pub fn is_idle(&self) -> (idle: bool)
        ensures
            idle == (self.queue().len() == 0),
    {
        self.tasks.len() == 0
    }

    /// Takes in what the job queue gave, if it gave anything.
    pub fn receive(&mut self, command: Option<DownloadCommand<T>>)
        ensures
            final(self).failures() == old(self).failures(),
            match command {
                Some(c) => final(self).queue() == old(self).queue().push(
                    DownloadTask { count: 0, url: c.url, ticket: c.ticket },
                ),
                None => final(self).queue() == old(self).queue(),
            },
    {
        match command {
            Some(c) => {
                self.tasks.push_back(DownloadTask::new(c));
            },
            None => {},
        }
    }

    /// Takes the oldest task out of the queue.
    pub fn next_task(&mut self) -> (task: Option<DownloadTask<T>>)
        ensures
            final(self).failures() == old(self).failures(),
            match task {
                Some(t) => old(self).queue().len() > 0 && t == old(self).queue()[0]
                    && final(self).queue() == old(self).queue().drop_first(),
                None => old(self).queue().len() == 0 && final(self).queue() == old(self).queue(),
            },
    {
        self.tasks.pop_front()
    }

    /// Decides whether a task that was taken out of the queue is attempted:
    /// one whose own cancel flag is set is discarded without a word, since
    /// nobody waits for it.
    pub fn handle_task(task: DownloadTask<T>, cancelled: bool) -> (attempt: Option<
        DownloadTask<T>,
    >)
        ensures
            attempt == if cancelled {
                None
            } else {
                Some(task)
            },
    {
        if cancelled {
            None
        } else {
            Some(task)
        }
    }

    /// Counts a failed attempt of `task` and decides whether it is tried again.
    pub fn increment_failure_and_maybe_retry(
        &mut self,
        task: DownloadTask<T>,
        err: reqwest::Error,
    ) -> (settlement: Settlement<T>)
        ensures
            final(self).failures() == bumped(old(self).failures()),
            retried_or_given_up(old(self).queue(), final(self).queue(), task, err, settlement),
    {
        let count = bump(task.count);
        self.count = bump(self.count);
        if count >= TASK_MAX_RETRIES {
            Settlement::Delivered {
                ticket: task.ticket,
                result: Err(DownloadErrorKind::Reqwest(err)),
            }
        } else {
            self.tasks.push_back(DownloadTask { count, url: task.url, ticket: task.ticket });
            Settlement::Requeued
        }
    }

    /// Settles a task whose request failed or timed out.
    pub fn handle_request_error(&mut self, task: DownloadTask<T>, err: reqwest::Error) -> (settlement:
        Settlement<T>)
        ensures
            final(self).failures() == bumped(old(self).failures()),
            retried_or_given_up(old(self).queue(), final(self).queue(), task, err, settlement),
    {
        self.increment_failure_and_maybe_retry(task, err)
    }

    /// Settles a task whose request was answered, but whose body could not be
    /// read.
    pub fn handle_body_error(&mut self, task: DownloadTask<T>, err: reqwest::Error) -> (settlement:
        Settlement<T>)
        ensures
            final(self).failures() == bumped(old(self).failures()),
            retried_or_given_up(old(self).queue(), final(self).queue(), task, err, settlement),
    {
        self.increment_failure_and_maybe_retry(task, err)
    }

    /// Settles a task whose bytes are there: they are delivered, and the run
    /// of failures is over.
    pub fn handle_success(&mut self, task: DownloadTask<T>, bytes: Vec<u8>) -> (settlement: Settlement<
        T,
    >)
        ensures
            final(self).failures() == 0,
            final(self).queue() == old(self).queue(),
            settlement == (Settlement::Delivered { ticket: task.ticket, result: Ok(bytes) }),
    {
        self.count = 0;
        Settlement::Delivered { ticket: task.ticket, result: Ok(bytes) }
    }

    /// Settles a task whose request was answered with a status in 2xx. A body
    /// that cannot be decoded is delivered as a failure at once: it is the
    /// resource that is broken, so the task is not tried again and the run of
    /// failures is left as it is.
    pub fn handle_response_ok(
        &mut self,
        task: DownloadTask<T>,
        encoding: String,
        body: Result<Vec<u8>, reqwest::Error>,
    ) -> (settlement: Settlement<T>)
        ensures
            final(self).failures() == failures_after(
                old(self).failures(),
                Response::Answered { encoding, body },
            ),
            match body {
                Ok(bytes) => content_delivered(
                    old(self).queue(),
                    final(self).queue(),
                    task,
                    encoding@,
                    bytes@,
                    settlement,
                ),
                Err(err) => retried_or_given_up(
                    old(self).queue(),
                    final(self).queue(),
                    task,
                    err,
                    settlement,
                ),
            },
    {
        match body {
            Ok(bytes) => match maybe_decompress_bytes(bytes.as_slice(), encoding.as_str()) {
                Ok(out) => self.handle_success(task, out),
                Err(e) => Settlement::Delivered {
                    ticket: task.ticket,
                    result: Err(DownloadErrorKind::Io(e)),
                },
            },
            Err(e) => self.handle_body_error(task, e),
        }
    }

    /// Settles a task after an attempt, whatever came of the request.
    pub fn handle_response(&mut self, task: DownloadTask<T>, response: Response) -> (settlement:
        Settlement<T>)
        ensures
            final(self).failures() == failures_after(old(self).failures(), response),
            match response {
                Response::Failed(err) => retried_or_given_up(
                    old(self).queue(),
                    final(self).queue(),
                    task,
                    err,
                    settlement,
                ),
                Response::Answered { encoding, body: Ok(bytes) } => content_delivered(
                    old(self).queue(),
                    final(self).queue(),
                    task,
                    encoding@,
                    bytes@,
                    settlement,
                ),
                Response::Answered { encoding, body: Err(err) } => retried_or_given_up(
                    old(self).queue(),
                    final(self).queue(),
                    task,
                    err,
                    settlement,
                ),
            },
    {
        match response {
            Response::Failed(err) => self.handle_request_error(task, err),
            Response::Answered { encoding, body } => self.handle_response_ok(task, encoding, body),
        }
    }

    /// Tests whether the client counts as degraded, and if so starts a new run
    /// of failures. The caller then waits `CLIENT_RESTART_BACKOFF_SECS` and
    /// rebuilds the client; where that fails it keeps the old one.
    pub fn take_restart(&mut self) -> (restart: bool)
        ensures
            restart == degraded(old(self).failures()),
            final(self).failures() == if restart {
                0
            } else {
                old(self).failures()
            },
            final(self).queue() == old(self).queue(),
    {
        if self.count >= CLIENT_RESTART_FAILURE_THRESHOLD {
            self.count = 0;
            true
        } else {
            false
        }
    }

    /// One attempt of `task`, from the answer to its request to the end: the
    /// task is settled, and the worker is told whether it has to rebuild its
    /// client before it takes the next task.
    pub fn settle(&mut self, task: DownloadTask<T>, response: Response) -> (verdict: Verdict<T>)
        ensures
            verdict.restart == degraded(failures_after(old(self).failures(), response)),
            final(self).failures() == if verdict.restart {
                0
            } else {
                failures_after(old(self).failures(), response)
            },
            match response {
                Response::Failed(err) => retried_or_given_up(
                    old(self).queue(),
                    final(self).queue(),
                    task,
                    err,
                    verdict.settlement,
                ),
                Response::Answered { encoding, body: Ok(bytes) } => content_delivered(
                    old(self).queue(),
                    final(self).queue(),
                    task,
                    encoding@,
                    bytes@,
                    verdict.settlement,
                ),
                Response::Answered { encoding, body: Err(err) } => retried_or_given_up(
                    old(self).queue(),
                    final(self).queue(),
                    task,
                    err,
                    verdict.settlement,
                ),
            },
    {
        let settlement = self.handle_response(task, response);
        let restart = self.take_restart();
        Verdict { settlement, restart }
    }
}

} // verus!
