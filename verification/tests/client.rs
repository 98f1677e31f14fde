use serde_json::Value;
use trackio::{Client, HttpOutcome, Progress, Route, Settings, Submission, TrackioError};

fn client_with_batch_size(max_batch: usize) -> Client {
    let mut settings = Settings::default();
    settings.max_batch = max_batch;
    Client::with_settings(settings).with_project("proj").with_run("run")
}

fn metrics(name: &str, value: f64) -> Value {
    let mut fields = serde_json::Map::new();
    fields.insert(String::from(name), Value::from(value));
    Value::Object(fields)
}

fn answered(status: u16, body: &str) -> HttpOutcome {
    HttpOutcome::Response { status, body: String::from(body) }
}

/// Sends `submission` to a server that answers each path with the status
/// that `status_of` gives, and returns the result of the flush together with
/// the addresses that were tried, in order.
fn deliver(
    client: &mut Client,
    submission: Submission,
    status_of: fn(&str) -> u16,
) -> (Result<(), TrackioError>, Vec<String>) {
    let mut tried = Vec::new();
    let mut current = submission;
    loop {
        tried.push(String::from(current.url()));
        let outcome = answered(status_of(current.url()), "body");
        match client.complete(current, outcome) {
            Progress::Done(result) => return (result, tried),
            Progress::Retry(next) => current = next,
        }
    }
}

fn always_ok(_url: &str) -> u16 {
    200
}

fn always_500(_url: &str) -> u16 {
    500
}

fn always_404(_url: &str) -> u16 {
    404
}

fn only_fallback(url: &str) -> u16 {
    if url.ends_with("/gradio_api/bulk_log") {
        200
    } else {
        404
    }
}

#[test]
fn two_records_at_batch_size_two_make_one_post_with_both_in_order() {
    let mut client = client_with_batch_size(2);
    let a = metrics("loss", 0.5);
    let b = metrics("loss", 0.4);
    assert!(client.log(a.clone(), Some(0), None).is_none());
    assert_eq!(client.pending(), 1);
    let submission = client.log(b.clone(), Some(1), None).expect("the second record fills the batch");
    assert_eq!(client.pending(), 0);
    assert_eq!(submission.url(), "http://127.0.0.1:7860/api/bulk_log");
    assert_eq!(submission.route(), Route::Primary);
    assert_eq!(submission.write_token(), None);
    assert_eq!(submission.payload().project(), "proj");
    assert_eq!(submission.payload().run(), "run");
    assert_eq!(submission.payload().metrics_list(), &vec![a, b]);
    assert_eq!(submission.payload().steps(), &vec![0, 1]);
    assert_eq!(submission.payload().timestamps(), &vec![String::new(), String::new()]);
    let (result, tried) = deliver(&mut client, submission, always_ok);
    assert!(result.is_ok());
    assert_eq!(tried, vec![String::from("http://127.0.0.1:7860/api/bulk_log")]);
    // Nothing is left to send.
    assert!(client.flush().is_none());
}

#[test]
fn a_fallback_that_answers_is_remembered_and_used_directly() {
    let mut client = client_with_batch_size(10).with_base_url("http://dash");
    client.log(metrics("x", 1.0), Some(0), None);
    let first = client.flush().expect("one record is pending");
    let (result, tried) = deliver(&mut client, first, only_fallback);
    assert!(result.is_ok());
    assert_eq!(
        tried,
        vec![String::from("http://dash/api/bulk_log"), String::from("http://dash/gradio_api/bulk_log")]
    );
    assert_eq!(client.bulk_path(), Some("/gradio_api/bulk_log"));

    client.log(metrics("x", 2.0), Some(1), None);
    let second = client.flush().expect("one record is pending");
    assert_eq!(second.route(), Route::Cached);
    assert_eq!(second.url(), "http://dash/gradio_api/bulk_log");
    let (result, tried) = deliver(&mut client, second, only_fallback);
    assert!(result.is_ok());
    assert_eq!(tried, vec![String::from("http://dash/gradio_api/bulk_log")]);
}

#[test]
fn a_server_error_on_the_found_endpoint_is_reported_and_the_batch_is_gone() {
    let mut client = client_with_batch_size(10);
    client.log(metrics("x", 1.0), Some(0), None);
    let first = client.flush().expect("one record is pending");
    assert!(deliver(&mut client, first, always_ok).0.is_ok());

    client.log(metrics("x", 2.0), Some(1), None);
    client.log(metrics("x", 3.0), Some(2), None);
    let second = client.flush().expect("two records are pending");
    assert_eq!(client.pending(), 0);
    let outcome = answered(500, "internal error");
    match client.complete(second, outcome) {
        Progress::Done(Err(TrackioError::Status(code, body))) => {
            assert_eq!(code, 500);
            assert_eq!(body, "internal error");
        },
        other => panic!("unexpected: {:?}", other),
    }
    // The failed batch was not put back.
    assert_eq!(client.pending(), 0);
    assert!(client.flush().is_none());
    assert_eq!(client.bulk_path(), Some("/api/bulk_log"));
}

#[test]
fn when_no_candidate_answers_the_flush_fails_and_the_batch_is_gone() {
    let mut client = client_with_batch_size(10);
    client.log(metrics("x", 1.0), Some(0), None);
    let submission = client.flush().expect("one record is pending");
    let (result, tried) = deliver(&mut client, submission, always_500);
    assert!(matches!(result, Err(TrackioError::NoBulkEndpoint)));
    assert_eq!(tried.len(), 2);
    assert_eq!(client.pending(), 0);
    assert_eq!(client.bulk_path(), None);

    // The next flush starts over with the first candidate.
    client.log(metrics("x", 2.0), Some(1), None);
    let next = client.flush().expect("one record is pending");
    assert_eq!(next.route(), Route::Primary);
    assert_eq!(next.payload().steps(), &vec![1]);
    let (result, tried) = deliver(&mut client, next, always_404);
    assert!(matches!(result, Err(TrackioError::NoBulkEndpoint)));
    assert_eq!(
        tried,
        vec![
            String::from("http://127.0.0.1:7860/api/bulk_log"),
            String::from("http://127.0.0.1:7860/gradio_api/bulk_log")
        ]
    );
}

#[test]
fn once_an_endpoint_is_found_no_other_candidate_is_tried() {
    let mut client = client_with_batch_size(1);
    let first = client.log(Value::Null, Some(0), None).expect("every record is a batch");
    assert!(deliver(&mut client, first, always_ok).0.is_ok());
    assert_eq!(client.bulk_path(), Some("/api/bulk_log"));
    for step in 1..5 {
        let submission = client.log(Value::Null, Some(step), None).expect("every record is a batch");
        assert_eq!(submission.route(), Route::Cached);
        let (result, tried) = deliver(&mut client, submission, always_404);
        assert!(matches!(result, Err(TrackioError::NotFound(_))));
        assert_eq!(tried, vec![String::from("http://127.0.0.1:7860/api/bulk_log")]);
        assert_eq!(client.bulk_path(), Some("/api/bulk_log"));
    }
}

#[test]
fn a_retry_carries_the_same_batch_and_token() {
    let mut settings = Settings::default();
    settings.write_token = Some(String::from("tok-1"));
    let mut client = Client::with_settings(settings);
    client.log(metrics("a", 1.0), Some(4), Some(String::from("t4")));
    client.log(metrics("b", 2.0), None, None);
    let first = client.close().expect("two records are pending");
    assert_eq!(first.write_token(), Some("tok-1"));
    match client.complete(first, answered(404, "")) {
        Progress::Retry(second) => {
            assert_eq!(second.route(), Route::Fallback);
            assert_eq!(second.url(), "http://127.0.0.1:7860/gradio_api/bulk_log");
            assert_eq!(second.write_token(), Some("tok-1"));
            assert_eq!(second.payload().metrics_list(), &vec![metrics("a", 1.0), metrics("b", 2.0)]);
            assert_eq!(second.payload().steps(), &vec![4, -1]);
            assert_eq!(second.payload().timestamps(), &vec![String::from("t4"), String::new()]);
        },
        other => panic!("unexpected: {:?}", other),
    }
}

#[test]
fn below_the_batch_size_nothing_is_sent_until_a_flush() {
    let mut client = client_with_batch_size(5);
    for step in 0..4 {
        assert!(client.log(Value::from(step), Some(step), None).is_none());
    }
    assert_eq!(client.pending(), 4);
    let submission = client.flush().expect("four records are pending");
    assert_eq!(submission.payload().steps(), &vec![0, 1, 2, 3]);
    assert_eq!(client.pending(), 0);
}

#[test]
fn the_buffer_holds_the_remainder_after_every_log_call() {
    let mut client = client_with_batch_size(4);
    let mut sent = 0;
    for n in 1..=11usize {
        let due = client.log(Value::from(n as u64), Some(n as i64), None);
        assert_eq!(due.is_some(), n % 4 == 0, "at call {}", n);
        if let Some(submission) = due {
            sent += 1;
            assert_eq!(submission.payload().len(), 4);
            assert_eq!(submission.payload().steps()[3], n as i64);
        }
        assert_eq!(client.pending(), n % 4, "after call {}", n);
    }
    assert_eq!(sent, 2);
}

#[test]
fn a_flush_of_an_empty_buffer_sends_nothing() {
    let mut client = client_with_batch_size(3);
    assert!(client.flush().is_none());
    assert!(client.close().is_none());
    assert_eq!(client.pending(), 0);
    assert_eq!(client.bulk_path(), None);
}

#[test]
fn records_logged_while_a_batch_is_under_way_wait_for_the_next_flush() {
    let mut client = client_with_batch_size(10);
    client.log(Value::Null, Some(1), None);
    client.log(Value::Null, Some(2), None);
    let under_way = client.flush().expect("two records are pending");
    client.log(Value::Null, Some(3), None);
    assert_eq!(client.pending(), 1);
    assert!(deliver(&mut client, under_way, always_ok).0.is_ok());
    assert_eq!(client.pending(), 1);
    let next = client.flush().expect("one record is pending");
    assert_eq!(next.payload().steps(), &vec![3]);
}

#[test]
fn a_batch_from_outside_the_buffer_is_submitted_as_it_is() {
    let mut client = client_with_batch_size(10);
    client.log(Value::Null, Some(9), None);
    let batch = vec![
        trackio::LogItem::new(metrics("a", 1.0), Some(1), None),
        trackio::LogItem::new(metrics("b", 2.0), Some(2), None),
    ];
    let submission = client.submit(batch).expect("the batch is not empty");
    assert_eq!(submission.route(), Route::Primary);
    assert_eq!(submission.url(), "http://127.0.0.1:7860/api/bulk_log");
    assert_eq!(submission.payload().steps(), &vec![1, 2]);
    assert_eq!(submission.payload().project(), "proj");
    assert_eq!(client.pending(), 1);
    assert!(client.submit(Vec::new()).is_none());
}

#[test]
fn a_request_that_never_got_an_answer_is_a_transport_error() {
    let mut client = client_with_batch_size(1);
    let first = client.log(Value::Null, None, None).expect("every record is a batch");
    assert!(deliver(&mut client, first, always_ok).0.is_ok());
    let second = client.log(Value::Null, None, None).expect("every record is a batch");
    let cause = reqwest::Client::new().get("not an address").build().unwrap_err();
    match client.complete(second, HttpOutcome::Failed(cause)) {
        Progress::Done(Err(TrackioError::Http(kept))) => assert!(kept.is_builder()),
        other => panic!("unexpected: {:?}", other),
    }
}
