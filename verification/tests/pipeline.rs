use bd2wg::error::{ConvertError, DownloadError, DownloadErrorKind};
use bd2wg::services::pipeline::download::{record, DownloadOutcome, DownloadPipeline};
use bd2wg::traits::handle::Handle;
use bd2wg::traits::pipeline::{DownloadState, TranspileState};
use std::cell::Cell;
use std::rc::Rc;

fn failure(url: &str) -> ConvertError {
    ConvertError::Download(DownloadError::with_context(
        url.to_string(),
        format!("background/{url}"),
        DownloadErrorKind::Io(std::io::Error::new(std::io::ErrorKind::Other, "disk")),
    ))
}

struct Fake {
    polls_until_finished: Cell<usize>,
    outcome: DownloadOutcome,
    cancelled: Rc<Cell<usize>>,
}

impl Fake {
    fn new(polls: usize, outcome: DownloadOutcome, cancelled: &Rc<Cell<usize>>) -> Self {
        Fake { polls_until_finished: Cell::new(polls), outcome, cancelled: cancelled.clone() }
    }
}

impl Handle for Fake {
    type Result = DownloadOutcome;

    fn join(self: Box<Self>) -> DownloadOutcome {
        self.outcome
    }

    fn cancel(&mut self) {
        self.cancelled.set(self.cancelled.get() + 1);
    }

    fn is_finished(&self) -> bool {
        let left = self.polls_until_finished.get();
        if left == 0 {
            true
        } else {
            self.polls_until_finished.set(left - 1);
            false
        }
    }
}

fn url_of(error: &ConvertError) -> String {
    match error {
        ConvertError::Download(e) => e.url.clone(),
        _ => panic!("a download failure"),
    }
}

#[test]
fn a_batch_without_failures_ends_done() {
    let cancelled = Rc::new(Cell::new(0));
    let n = 7;
    let handles: Vec<Fake> = (0..n).map(|i| Fake::new(i % 3, Ok(()), &cancelled)).collect();
    let mut pipe = DownloadPipeline::new(handles);
    assert_eq!(pipe.state(), DownloadState { done: 0, total: n });
    let mut last = 0;
    let mut looks = 0;
    while pipe.check() {
        let state = pipe.state();
        assert!(state.done >= last);
        assert!(state.done <= state.total);
        assert_eq!(state.total, n);
        last = state.done;
        looks += 1;
        assert!(looks < 10);
    }
    assert!(pipe.is_finished());
    let result = pipe.into_result();
    assert_eq!(result.state, DownloadState { done: n, total: n });
    assert!(result.errors.is_empty());
    assert_eq!(cancelled.get(), 0);
}

#[test]
fn a_failed_download_is_an_error_and_not_done() {
    let cancelled = Rc::new(Cell::new(0));
    let handles = vec![
        Fake::new(0, Ok(()), &cancelled),
        Fake::new(1, Err(vec![failure("https://example.com/500")]), &cancelled),
        Fake::new(0, Ok(()), &cancelled),
    ];
    let mut pipe = DownloadPipeline::new(handles);
    assert!(pipe.check());
    assert_eq!(pipe.state(), DownloadState { done: 2, total: 3 });
    assert_eq!(pipe.pending_count(), 1);
    assert_eq!(pipe.failure_count(), 0);
    assert!(pipe.check());
    assert_eq!(pipe.state(), DownloadState { done: 2, total: 3 });
    assert_eq!(pipe.pending_count(), 0);
    assert!(!pipe.is_finished());
    assert!(!pipe.check());
    assert!(pipe.is_finished());
    let result = pipe.into_result();
    assert_eq!(result.state, DownloadState { done: 2, total: 3 });
    assert_eq!(result.errors.len(), 1);
    assert_eq!(url_of(&result.errors[0]), "https://example.com/500");
}

#[test]
fn every_failure_of_a_compound_download_is_kept() {
    let cancelled = Rc::new(Cell::new(0));
    let handles = vec![
        Fake::new(0, Err(vec![failure("a"), failure("b")]), &cancelled),
        Fake::new(0, Err(vec![failure("c")]), &cancelled),
    ];
    let mut pipe = DownloadPipeline::new(handles);
    assert!(pipe.check());
    let result = pipe.into_result();
    assert_eq!(result.state, DownloadState { done: 0, total: 2 });
    let mut urls: Vec<String> = result.errors.iter().map(url_of).collect();
    urls.sort();
    assert_eq!(urls, vec!["a", "b", "c"]);
}

#[test]
fn an_empty_batch_ends_at_the_first_look() {
    let mut pipe: DownloadPipeline<Fake> = DownloadPipeline::new(Vec::new());
    assert!(!pipe.is_finished());
    assert!(!pipe.check());
    assert!(pipe.is_finished());
    let result = pipe.into_result();
    assert_eq!(result.state, DownloadState { done: 0, total: 0 });
    assert!(result.errors.is_empty());
}

#[test]
fn cancelling_a_batch_cancels_what_runs_and_ends_it() {
    let cancelled = Rc::new(Cell::new(0));
    let handles = vec![
        Fake::new(0, Ok(()), &cancelled),
        Fake::new(5, Ok(()), &cancelled),
        Fake::new(5, Err(vec![failure("x")]), &cancelled),
    ];
    let mut pipe = DownloadPipeline::new(handles);
    assert!(pipe.check());
    assert_eq!(pipe.state(), DownloadState { done: 1, total: 3 });
    pipe.cancel();
    assert!(pipe.is_finished());
    assert_eq!(cancelled.get(), 2);
    assert_eq!(pipe.pending_count(), 0);
    assert!(!pipe.check());
    assert_eq!(pipe.state(), DownloadState { done: 1, total: 3 });
    pipe.cancel();
    assert_eq!(cancelled.get(), 2);
    assert!(pipe.into_result().errors.is_empty());
}

#[test]
fn recording_one_outcome() {
    let mut state = DownloadState { done: 1, total: 4 };
    let mut errors = vec![failure("old")];
    record(&mut state, &mut errors, Ok(()));
    assert_eq!(state, DownloadState { done: 2, total: 4 });
    assert_eq!(errors.len(), 1);
    record(&mut state, &mut errors, Err(vec![failure("n1"), failure("n2")]));
    assert_eq!(state, DownloadState { done: 2, total: 4 });
    let urls: Vec<String> = errors.iter().map(url_of).collect();
    assert_eq!(urls, vec!["old", "n1", "n2"]);
    record(&mut state, &mut errors, Err(Vec::new()));
    assert_eq!(errors.len(), 3);
}

#[test]
fn snapshots_start_at_zero() {
    assert_eq!(DownloadState::default(), DownloadState { done: 0, total: 0 });
    assert_eq!(TranspileState::default(), TranspileState { scene: 0, action: 0 });
}
