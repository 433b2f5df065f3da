use slack_client::call::ApiCall;
use slack_client::config::Credentials;
use slack_client::error::{ConfigKey, Endpoint, SlackError};
use slack_client::http::{Body, HttpOutcome};
use slack_client::payload::FileEntry;
use slack_client::run::{replay, Run};
use slack_client::session::{Next, Receipt, Skipped, Step};
use slack_client::slack::send_multiple_images_to_slack;

fn credentials() -> Credentials {
    Credentials {
        token: Some("xoxb-test".to_string()),
        channel: None,
        channel_id: Some("C024BE91L".to_string()),
    }
}

fn drive_batch(
    start: Step,
    outcomes: Vec<HttpOutcome>,
) -> (Vec<ApiCall>, Vec<Skipped>, Option<Result<Receipt, SlackError>>) {
    let run = replay(start, outcomes);
    (run.calls, run.skipped, run.result)
}

/// Drives a session as a program would, one call at a time.
fn drive_by_hand(start: Step, outcomes: Vec<HttpOutcome>) -> Run {
    let mut run = Run { calls: Vec::new(), skipped: Vec::new(), result: None };
    let mut outcomes = outcomes.into_iter();
    let mut step = start;
    loop {
        run.skipped.extend(step.skipped);
        match step.next {
            Next::Done(result) => {
                run.result = Some(result);
                return run;
            }
            Next::Call { session, call } => {
                run.calls.push(call);
                match outcomes.next() {
                    Some(outcome) => step = session.resume(outcome),
                    None => return run,
                }
            }
        }
    }
}

fn grant(n: u32) -> HttpOutcome {
    HttpOutcome::answered(
        200,
        &format!("{{\"ok\":true,\"upload_url\":\"https://files.example/u/{}\",\"file_id\":\"F{}\"}}", n, n),
    )
}

fn refuse() -> HttpOutcome {
    HttpOutcome::answered(200, "{\"ok\":false,\"error\":\"file_too_large\"}")
}

fn stored() -> HttpOutcome {
    HttpOutcome::answered(200, "OK")
}

fn accept() -> HttpOutcome {
    HttpOutcome::answered(200, "{\"ok\":true}")
}

fn entry(id: &str, title: &str) -> FileEntry {
    FileEntry { id: id.to_string(), title: title.to_string() }
}

fn kinds(calls: &[ApiCall]) -> Vec<Endpoint> {
    calls.iter().map(|call| call.endpoint()).collect()
}

fn completing_calls(calls: &[ApiCall]) -> usize {
    calls.iter().filter(|call| call.endpoint() == Endpoint::CompleteUpload).count()
}

fn files_of(call: &ApiCall) -> Vec<FileEntry> {
    match call {
        ApiCall::CompleteUpload { files, .. } => files.clone(),
        other => panic!("not a completing call: {:?}", other),
    }
}

#[test]
fn batch_shares_the_image_that_got_through() {
    let images: [(&[u8], &str, &str); 2] = [(b"imgA", "a.png", "A"), (b"imgB", "b.png", "B")];
    let (calls, skipped, result) = drive_batch(
        send_multiple_images_to_slack(&credentials(), &images),
        vec![grant(1), stored(), refuse(), accept()],
    );
    assert_eq!(
        kinds(&calls),
        vec![
            Endpoint::RequestUploadUrl,
            Endpoint::PutBytes,
            Endpoint::RequestUploadUrl,
            Endpoint::CompleteUpload,
        ]
    );
    assert_eq!(
        calls[3],
        ApiCall::CompleteUpload {
            token: "xoxb-test".to_string(),
            files: vec![entry("F1", "A")],
            channel_id: "C024BE91L".to_string(),
        }
    );
    let body = match calls[3].clone().into_request().body {
        Body::Text(body) => body,
        other => panic!("not a text body: {:?}", other),
    };
    assert_eq!(body, "{\"channel_id\":\"C024BE91L\",\"files\":[{\"id\":\"F1\",\"title\":\"A\"}]}");
    let read: serde_json::Value = serde_json::from_str(&body).unwrap();
    let files = read.get("files").and_then(|files| files.as_array()).unwrap();
    assert_eq!(files.len(), 1);
    assert_eq!(files[0].get("id").and_then(|id| id.as_str()), Some("F1"));
    assert_eq!(files[0].get("title").and_then(|title| title.as_str()), Some("A"));
    assert_eq!(
        skipped,
        vec![Skipped {
            filename: "b.png".to_string(),
            error: SlackError::ApiRejected(Endpoint::RequestUploadUrl),
        }]
    );
    assert_eq!(result, Some(Ok(Receipt::ImagesShared)));
}

#[test]
fn batch_asks_for_each_image_in_order() {
    let images: [(&[u8], &str, &str); 3] =
        [(b"1", "one.png", "One"), (b"22", "two.png", "Two"), (b"333", "three.png", "Three")];
    let (calls, _, _) = drive_batch(
        send_multiple_images_to_slack(&credentials(), &images),
        vec![grant(1), stored(), grant(2), stored(), grant(3), stored(), accept()],
    );
    let asked: Vec<(String, usize)> = calls
        .iter()
        .filter_map(|call| match call {
            ApiCall::RequestUploadUrl { filename, length, .. } => Some((filename.clone(), *length)),
            _ => None,
        })
        .collect();
    assert_eq!(
        asked,
        vec![("one.png".to_string(), 1), ("two.png".to_string(), 2), ("three.png".to_string(), 3)]
    );
    let put: Vec<(String, Vec<u8>)> = calls
        .iter()
        .filter_map(|call| match call {
            ApiCall::PutBytes { upload_url, bytes } => Some((upload_url.clone(), bytes.clone())),
            _ => None,
        })
        .collect();
    assert_eq!(
        put,
        vec![
            ("https://files.example/u/1".to_string(), b"1".to_vec()),
            ("https://files.example/u/2".to_string(), b"22".to_vec()),
            ("https://files.example/u/3".to_string(), b"333".to_vec()),
        ]
    );
}

#[test]
fn batch_keeps_the_order_of_the_images_that_got_through() {
    let images: [(&[u8], &str, &str); 4] = [
        (b"1", "one.png", "One"),
        (b"2", "two.png", "Two"),
        (b"3", "three.png", "Three"),
        (b"4", "four.png", "Four"),
    ];
    let (calls, skipped, result) = drive_batch(
        send_multiple_images_to_slack(&credentials(), &images),
        vec![grant(1), stored(), refuse(), grant(3), stored(), grant(4), stored(), accept()],
    );
    assert_eq!(completing_calls(&calls), 1);
    assert_eq!(
        files_of(calls.last().unwrap()),
        vec![entry("F1", "One"), entry("F3", "Three"), entry("F4", "Four")]
    );
    assert_eq!(skipped.len(), 1);
    assert_eq!(skipped[0].filename, "two.png");
    assert_eq!(result, Some(Ok(Receipt::ImagesShared)));
}

#[test]
fn batch_has_as_many_files_as_tickets_were_granted() {
    let images: [(&[u8], &str, &str); 5] = [
        (b"1", "1.png", "1"),
        (b"2", "2.png", "2"),
        (b"3", "3.png", "3"),
        (b"4", "4.png", "4"),
        (b"5", "5.png", "5"),
    ];
    let (calls, skipped, _) = drive_batch(
        send_multiple_images_to_slack(&credentials(), &images),
        vec![
            refuse(),
            grant(2),
            stored(),
            HttpOutcome::Unreachable,
            HttpOutcome::answered(200, "garbage"),
            grant(5),
            stored(),
        ],
    );
    assert_eq!(files_of(calls.last().unwrap()), vec![entry("F2", "2"), entry("F5", "5")]);
    assert_eq!(
        skipped,
        vec![
            Skipped {
                filename: "1.png".to_string(),
                error: SlackError::ApiRejected(Endpoint::RequestUploadUrl),
            },
            Skipped {
                filename: "3.png".to_string(),
                error: SlackError::NetworkFailure(Endpoint::RequestUploadUrl),
            },
            Skipped {
                filename: "4.png".to_string(),
                error: SlackError::MalformedResponse(Endpoint::RequestUploadUrl),
            },
        ]
    );
}

#[test]
fn batch_with_no_image_through_makes_no_completing_call() {
    let images: [(&[u8], &str, &str); 2] = [(b"imgA", "a.png", "A"), (b"imgB", "b.png", "B")];
    let (calls, skipped, result) = drive_batch(
        send_multiple_images_to_slack(&credentials(), &images),
        vec![refuse(), HttpOutcome::Unreachable, accept()],
    );
    assert_eq!(kinds(&calls), vec![Endpoint::RequestUploadUrl, Endpoint::RequestUploadUrl]);
    assert_eq!(completing_calls(&calls), 0);
    assert_eq!(skipped.len(), 2);
    assert_eq!(result, Some(Err(SlackError::NoImagesPrepared)));
}

#[test]
fn batch_of_no_images_fails_without_a_call() {
    let images: [(&[u8], &str, &str); 0] = [];
    let (calls, skipped, result) =
        drive_batch(send_multiple_images_to_slack(&credentials(), &images), vec![accept()]);
    assert!(calls.is_empty());
    assert!(skipped.is_empty());
    assert_eq!(result, Some(Err(SlackError::NoImagesPrepared)));
}

#[test]
fn batch_leaves_out_an_image_whose_bytes_got_no_response() {
    let images: [(&[u8], &str, &str); 2] = [(b"imgA", "a.png", "A"), (b"imgB", "b.png", "B")];
    let (calls, skipped, result) = drive_batch(
        send_multiple_images_to_slack(&credentials(), &images),
        vec![grant(1), HttpOutcome::Unreachable, grant(2), stored(), accept()],
    );
    assert_eq!(
        kinds(&calls),
        vec![
            Endpoint::RequestUploadUrl,
            Endpoint::PutBytes,
            Endpoint::RequestUploadUrl,
            Endpoint::PutBytes,
            Endpoint::CompleteUpload,
        ]
    );
    assert_eq!(files_of(calls.last().unwrap()), vec![entry("F2", "B")]);
    assert_eq!(
        skipped,
        vec![Skipped {
            filename: "a.png".to_string(),
            error: SlackError::NetworkFailure(Endpoint::PutBytes),
        }]
    );
    assert_eq!(result, Some(Ok(Receipt::ImagesShared)));
}

#[test]
fn batch_fails_where_the_bytes_of_every_image_got_no_response() {
    let images: [(&[u8], &str, &str); 2] = [(b"imgA", "a.png", "A"), (b"imgB", "b.png", "B")];
    let (calls, skipped, result) = drive_batch(
        send_multiple_images_to_slack(&credentials(), &images),
        vec![grant(1), HttpOutcome::Unreachable, grant(2), HttpOutcome::Unreachable, accept()],
    );
    assert_eq!(
        kinds(&calls),
        vec![
            Endpoint::RequestUploadUrl,
            Endpoint::PutBytes,
            Endpoint::RequestUploadUrl,
            Endpoint::PutBytes,
        ]
    );
    assert_eq!(completing_calls(&calls), 0);
    assert_eq!(skipped.len(), 2);
    assert_eq!(result, Some(Err(SlackError::NoImagesPrepared)));
}

#[test]
fn batch_asks_for_every_image_once_whatever_comes_back() {
    let images: [(&[u8], &str, &str); 3] =
        [(b"1", "one.png", "One"), (b"22", "two.png", "Two"), (b"333", "three.png", "Three")];
    let asked = vec![
        ("one.png".to_string(), 1),
        ("two.png".to_string(), 2),
        ("three.png".to_string(), 3),
    ];
    // For each image: the ticket is refused, the bytes get no response, or
    // the image gets through.
    for pattern in 0..27 {
        let mut outcomes = Vec::new();
        let mut through = 0;
        let mut digits = pattern;
        for n in 1..=3 {
            match digits % 3 {
                0 => outcomes.push(refuse()),
                1 => {
                    outcomes.push(grant(n));
                    outcomes.push(HttpOutcome::Unreachable);
                }
                _ => {
                    outcomes.push(grant(n));
                    outcomes.push(stored());
                    through += 1;
                }
            }
            digits /= 3;
        }
        outcomes.push(accept());
        let (calls, skipped, result) =
            drive_batch(send_multiple_images_to_slack(&credentials(), &images), outcomes);
        let requests: Vec<(String, usize)> = calls
            .iter()
            .filter_map(|call| match call {
                ApiCall::RequestUploadUrl { filename, length, .. } => {
                    Some((filename.clone(), *length))
                }
                _ => None,
            })
            .collect();
        assert_eq!(requests, asked);
        assert_eq!(skipped.len(), 3 - through);
        if through == 0 {
            assert_eq!(completing_calls(&calls), 0);
            assert_eq!(result, Some(Err(SlackError::NoImagesPrepared)));
        } else {
            assert_eq!(completing_calls(&calls), 1);
            assert_eq!(files_of(calls.last().unwrap()).len(), through);
            assert_eq!(result, Some(Ok(Receipt::ImagesShared)));
        }
    }
}

#[test]
fn batch_goes_on_whatever_the_status_of_a_put() {
    let images: [(&[u8], &str, &str); 2] = [(b"imgA", "a.png", "A"), (b"imgB", "b.png", "B")];
    let (calls, skipped, result) = drive_batch(
        send_multiple_images_to_slack(&credentials(), &images),
        vec![
            grant(1),
            HttpOutcome::Answered { status: 500, body: None },
            grant(2),
            HttpOutcome::answered(403, "denied"),
            accept(),
        ],
    );
    assert_eq!(files_of(calls.last().unwrap()), vec![entry("F1", "A"), entry("F2", "B")]);
    assert!(skipped.is_empty());
    assert_eq!(result, Some(Ok(Receipt::ImagesShared)));
}

#[test]
fn batch_fails_where_completion_is_refused() {
    let images: [(&[u8], &str, &str); 1] = [(b"imgA", "a.png", "A")];
    let (calls, _, result) = drive_batch(
        send_multiple_images_to_slack(&credentials(), &images),
        vec![grant(1), stored(), refuse()],
    );
    assert_eq!(completing_calls(&calls), 1);
    assert_eq!(result, Some(Err(SlackError::ApiRejected(Endpoint::CompleteUpload))));
}

#[test]
fn batch_without_settings_ends_before_any_call() {
    let images: [(&[u8], &str, &str); 1] = [(b"imgA", "a.png", "A")];
    let mut missing_token = credentials();
    missing_token.token = None;
    let (calls, _, result) =
        drive_batch(send_multiple_images_to_slack(&missing_token, &images), vec![grant(1)]);
    assert!(calls.is_empty());
    assert_eq!(result, Some(Err(SlackError::ConfigurationMissing(ConfigKey::Token))));

    let mut missing_channel = credentials();
    missing_channel.channel_id = None;
    let (calls, _, result) =
        drive_batch(send_multiple_images_to_slack(&missing_channel, &images), vec![grant(1)]);
    assert!(calls.is_empty());
    assert_eq!(result, Some(Err(SlackError::ConfigurationMissing(ConfigKey::ChannelId))));
}

#[test]
fn batch_titles_with_quotes_read_back_verbatim() {
    let title = "say \"cheese\" \\ \u{1f4f7}";
    let images: [(&[u8], &str, &str); 1] = [(b"imgA", "a.png", title)];
    let (calls, _, _) = drive_batch(
        send_multiple_images_to_slack(&credentials(), &images),
        vec![grant(1), stored()],
    );
    let body = match calls.last().unwrap().clone().into_request().body {
        Body::Text(body) => body,
        other => panic!("not a text body: {:?}", other),
    };
    let read: serde_json::Value = serde_json::from_str(&body).unwrap();
    let files = read.get("files").and_then(|files| files.as_array()).unwrap();
    assert_eq!(files[0].get("title").and_then(|title| title.as_str()), Some(title));
    assert_eq!(read.get("channel_id").and_then(|id| id.as_str()), Some("C024BE91L"));
}

#[test]
fn replay_is_what_a_driver_brings_about() {
    let images: [(&[u8], &str, &str); 4] = [
        (b"1", "one.png", "One"),
        (b"22", "two.png", "Two"),
        (b"333", "three.png", "Three"),
        (b"4444", "four.png", "Four"),
    ];
    let outcomes =
        vec![grant(1), stored(), refuse(), HttpOutcome::Unreachable, grant(3), stored(), accept()];
    for given in 0..=outcomes.len() {
        let some: Vec<HttpOutcome> = outcomes[..given].to_vec();
        assert_eq!(
            replay(send_multiple_images_to_slack(&credentials(), &images), some.clone()),
            drive_by_hand(send_multiple_images_to_slack(&credentials(), &images), some)
        );
    }
    let whole = replay(send_multiple_images_to_slack(&credentials(), &images), outcomes);
    assert_eq!(whole.calls.len(), 7);
    assert_eq!(whole.skipped.len(), 2);
    assert_eq!(whole.result, Some(Ok(Receipt::ImagesShared)));
}

#[test]
fn replay_stops_where_the_outcomes_end() {
    let images: [(&[u8], &str, &str); 1] = [(b"imgA", "a.png", "A")];
    let run = replay(send_multiple_images_to_slack(&credentials(), &images), vec![grant(1)]);
    assert_eq!(kinds(&run.calls), vec![Endpoint::RequestUploadUrl, Endpoint::PutBytes]);
    assert!(run.skipped.is_empty());
    assert_eq!(run.result, None);
}
