use bd2wg::error::DownloadErrorKind;
use bd2wg::services::downloader::pool::{
    DownloadCommand, DownloadPoolWorker, DownloadTask, Response, Settlement,
    CLIENT_RESTART_FAILURE_THRESHOLD, TASK_MAX_RETRIES,
};

fn request_error() -> reqwest::Error {
    reqwest::blocking::Client::new().get("::").build().unwrap_err()
}

fn command(url: &str, ticket: u32) -> DownloadCommand<u32> {
    DownloadCommand { url: url.to_string(), ticket }
}

fn answered(bytes: &[u8]) -> Response {
    Response::Answered { encoding: String::new(), body: Ok(bytes.to_vec()) }
}

#[test]
fn a_new_task_has_not_failed() {
    let task = DownloadTask::new(command("https://example.com/a", 7));
    assert_eq!(task.count, 0);
    assert_eq!(task.url, "https://example.com/a");
    assert_eq!(task.ticket, 7);
}

#[test]
fn the_queue_is_first_in_first_out() {
    let mut worker = DownloadPoolWorker::new();
    assert!(worker.is_idle());
    assert!(worker.next_task().is_none());
    worker.receive(Some(command("a", 1)));
    worker.receive(None);
    worker.receive(Some(command("b", 2)));
    assert!(!worker.is_idle());
    assert_eq!(worker.queue_len(), 2);
    assert_eq!(worker.next_task().unwrap().ticket, 1);
    assert_eq!(worker.next_task().unwrap().ticket, 2);
    assert!(worker.next_task().is_none());
    assert!(worker.is_idle());
}

#[test]
fn a_cancelled_task_is_discarded() {
    let task = DownloadTask::new(command("a", 1));
    assert!(DownloadPoolWorker::handle_task(task, true).is_none());
    let task = DownloadTask::new(command("a", 1));
    assert_eq!(DownloadPoolWorker::handle_task(task, false).unwrap().ticket, 1);
}

#[test]
fn a_task_that_always_fails_is_tried_three_times() {
    assert_eq!(TASK_MAX_RETRIES, 3);
    let mut worker = DownloadPoolWorker::new();
    worker.receive(Some(command("https://example.com/500", 9)));
    let mut attempts = 0;
    let delivered = loop {
        let task = worker.next_task().expect("a failed task goes back to the queue");
        assert_eq!(task.count, attempts);
        attempts += 1;
        match worker.handle_response(task, Response::Failed(request_error())) {
            Settlement::Requeued => assert_eq!(worker.queue_len(), 1),
            Settlement::Delivered { ticket, result } => break (ticket, result),
        }
    };
    assert_eq!(attempts, 3);
    assert_eq!(delivered.0, 9);
    assert!(matches!(delivered.1, Err(DownloadErrorKind::Reqwest(_))));
    assert!(worker.is_idle());
    assert_eq!(worker.failure_count(), 3);
}

#[test]
fn a_retried_task_goes_behind_the_others() {
    let mut worker = DownloadPoolWorker::new();
    worker.receive(Some(command("bad", 1)));
    worker.receive(Some(command("good", 2)));
    let bad = worker.next_task().unwrap();
    assert!(matches!(
        worker.handle_request_error(bad, request_error()),
        Settlement::Requeued
    ));
    let next = worker.next_task().unwrap();
    assert_eq!(next.ticket, 2);
    let again = worker.next_task().unwrap();
    assert_eq!(again.ticket, 1);
    assert_eq!(again.count, 1);
    assert_eq!(again.url, "bad");
}

#[test]
fn a_body_that_cannot_be_read_counts_as_a_failure() {
    let mut worker = DownloadPoolWorker::new();
    let task = DownloadTask { count: 2, url: "u".to_string(), ticket: 5u32 };
    let response = Response::Answered { encoding: String::new(), body: Err(request_error()) };
    match worker.handle_response(task, response) {
        Settlement::Delivered { ticket, result } => {
            assert_eq!(ticket, 5);
            assert!(matches!(result, Err(DownloadErrorKind::Reqwest(_))));
        }
        Settlement::Requeued => panic!("the third failure is the last"),
    }
    assert_eq!(worker.failure_count(), 1);
    let task = DownloadTask { count: 0, url: "u".to_string(), ticket: 6u32 };
    assert!(matches!(
        worker.handle_body_error(task, request_error()),
        Settlement::Requeued
    ));
    assert_eq!(worker.failure_count(), 2);
}

#[test]
fn success_delivers_the_bytes_and_ends_the_run_of_failures() {
    let mut worker = DownloadPoolWorker::new();
    for ticket in 0..2u32 {
        let task = DownloadTask { count: 2, url: "u".to_string(), ticket };
        worker.handle_response(task, Response::Failed(request_error()));
    }
    assert_eq!(worker.failure_count(), 2);
    let task = DownloadTask::new(command("u", 3));
    match worker.handle_response(task, answered(b"bytes")) {
        Settlement::Delivered { ticket, result } => {
            assert_eq!(ticket, 3);
            assert_eq!(result.unwrap(), b"bytes".to_vec());
        }
        Settlement::Requeued => panic!("a success is delivered"),
    }
    assert_eq!(worker.failure_count(), 0);
    assert!(worker.is_idle());
}

#[test]
fn an_encoded_body_is_decoded_before_it_is_delivered() {
    let content = b"aaaaaaaaaaaaaaaaaaaaaaaaaaaaaaaaaaaaaaaaaaaaaaaaaaaaaaaaaaaaaaaa".to_vec();
    let packed = zstd::stream::encode_all(&content[..], 3).unwrap();
    let mut worker = DownloadPoolWorker::new();
    let task = DownloadTask::new(command("u", 1u32));
    let response = Response::Answered { encoding: "ZSTD".to_string(), body: Ok(packed) };
    match worker.handle_response(task, response) {
        Settlement::Delivered { result, .. } => assert_eq!(result.unwrap(), content),
        Settlement::Requeued => panic!("a success is delivered"),
    }
}

#[test]
fn a_body_that_cannot_be_decoded_fails_at_once() {
    let mut worker = DownloadPoolWorker::new();
    let task = DownloadTask::new(command("u", 1u32));
    worker.handle_response(task, Response::Failed(request_error()));
    let task = worker.next_task().unwrap();
    let response = Response::Answered { encoding: "zstd".to_string(), body: Ok(vec![1, 2, 3]) };
    match worker.handle_response(task, response) {
        Settlement::Delivered { ticket, result } => {
            assert_eq!(ticket, 1);
            assert!(matches!(result, Err(DownloadErrorKind::Io(_))));
        }
        Settlement::Requeued => panic!("a broken body is not tried again"),
    }
    assert_eq!(worker.failure_count(), 1);
    assert!(worker.is_idle());
}

#[test]
fn five_failures_in_a_row_ask_for_a_new_client() {
    assert_eq!(CLIENT_RESTART_FAILURE_THRESHOLD, 5);
    let mut worker = DownloadPoolWorker::new();
    for round in 1..=5u32 {
        let task = DownloadTask { count: 2, url: "u".to_string(), ticket: round };
        let verdict = worker.settle(task, Response::Failed(request_error()));
        assert!(matches!(verdict.settlement, Settlement::Delivered { .. }));
        assert_eq!(verdict.restart, round == 5);
    }
    assert_eq!(worker.failure_count(), 0);
    assert!(!worker.take_restart());
}

#[test]
fn a_success_in_between_puts_the_restart_off() {
    let mut worker = DownloadPoolWorker::new();
    for round in 0..4u32 {
        let task = DownloadTask { count: 2, url: "u".to_string(), ticket: round };
        assert!(!worker.settle(task, Response::Failed(request_error())).restart);
    }
    let task = DownloadTask::new(command("u", 10u32));
    assert!(!worker.settle(task, answered(b"ok")).restart);
    for round in 0..4u32 {
        let task = DownloadTask { count: 2, url: "u".to_string(), ticket: round };
        assert!(!worker.settle(task, Response::Failed(request_error())).restart);
    }
    let task = DownloadTask { count: 2, url: "u".to_string(), ticket: 99u32 };
    assert!(worker.settle(task, Response::Failed(request_error())).restart);
}

#[test]
fn cancelling_a_worker_hands_back_its_tasks() {
    let mut worker = DownloadPoolWorker::new();
    worker.receive(Some(command("a", 1)));
    worker.receive(Some(command("b", 2)));
    let dropped = worker.cancel();
    let tickets: Vec<u32> = dropped.iter().map(|task| task.ticket).collect();
    assert_eq!(tickets, vec![1, 2]);
    assert!(worker.is_idle());
    assert!(worker.cancel().is_empty());
}

#[test]
fn a_count_at_the_limit_of_the_machine_does_not_wrap() {
    let mut worker = DownloadPoolWorker::new();
    let task = DownloadTask { count: usize::MAX, url: "u".to_string(), ticket: 1u32 };
    assert!(matches!(
        worker.increment_failure_and_maybe_retry(task, request_error()),
        Settlement::Delivered { .. }
    ));
}
