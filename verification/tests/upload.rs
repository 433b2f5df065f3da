use slack_client::call::ApiCall;
use slack_client::config::Credentials;
use slack_client::error::{ConfigKey, Endpoint, SlackError};
use slack_client::http::{Body, Header, HttpOutcome, Method, QueryParam};
use slack_client::payload::FileEntry;
use slack_client::session::{Next, Operation, Receipt, Skipped, Step};
use slack_client::slack::{send_single_image_to_slack, upload_image_to_slack};

const GRANT: &str = "{\"ok\":true,\"upload_url\":\"https://files.example/upload/v1/abc\",\"file_id\":\"F0123\"}";

fn credentials() -> Credentials {
    Credentials {
        token: Some("xoxb-test".to_string()),
        channel: None,
        channel_id: Some("C024BE91L".to_string()),
    }
}

/// Makes the calls of a run on paper: each call that a step asks for gets the
/// next outcome of the list.
fn drive_upload(
    start: Step,
    outcomes: Vec<HttpOutcome>,
) -> (Vec<ApiCall>, Vec<Skipped>, Option<Result<Receipt, SlackError>>) {
    let mut calls = Vec::new();
    let mut skipped = Vec::new();
    let mut outcomes = outcomes.into_iter();
    let mut step = start;
    loop {
        skipped.extend(step.skipped);
        match step.next {
            Next::Done(result) => return (calls, skipped, Some(result)),
            Next::Call { session, call } => {
                calls.push(call);
                match outcomes.next() {
                    Some(outcome) => step = session.resume(outcome),
                    None => return (calls, skipped, None),
                }
            }
        }
    }
}

fn endpoints(calls: &[ApiCall]) -> Vec<Endpoint> {
    calls.iter().map(|call| call.endpoint()).collect()
}

fn start_single() -> Step {
    send_single_image_to_slack(&credentials(), b"\x89PNG\r\n", "cat.png", "My Amazing Image")
}

#[test]
fn upload_asks_for_a_ticket_first() {
    let (calls, _, result) =
        drive_upload(upload_image_to_slack("xoxb-test", b"12345", "cat.png"), vec![]);
    assert_eq!(
        calls,
        vec![ApiCall::RequestUploadUrl {
            token: "xoxb-test".to_string(),
            filename: "cat.png".to_string(),
            length: 5,
        }]
    );
    assert_eq!(result, None);
}

#[test]
fn ticket_request_is_an_authenticated_get_with_name_and_length() {
    let image = vec![0u8; 1234];
    let (calls, _, _) = drive_upload(upload_image_to_slack("xoxb-test", &image, "big cat.png"), vec![]);
    let request = calls[0].clone().into_request();
    assert_eq!(request.method, Method::Get);
    assert_eq!(request.url, "https://slack.com/api/files.getUploadURLExternal");
    assert_eq!(
        request.headers,
        vec![Header { name: "Authorization".to_string(), value: "Bearer xoxb-test".to_string() }]
    );
    assert_eq!(
        request.query,
        vec![
            QueryParam { name: "filename".to_string(), value: "big cat.png".to_string() },
            QueryParam { name: "length".to_string(), value: "1234".to_string() },
        ]
    );
    assert_eq!(request.body, Body::Empty);
}

#[test]
fn empty_image_has_length_zero() {
    let (calls, _, _) = drive_upload(upload_image_to_slack("t", b"", "empty.bin"), vec![]);
    let request = calls[0].clone().into_request();
    assert_eq!(request.query[1], QueryParam { name: "length".to_string(), value: "0".to_string() });
}

#[test]
fn upload_puts_the_bytes_where_the_ticket_says() {
    let (calls, _, result) = drive_upload(
        upload_image_to_slack("xoxb-test", b"12345", "cat.png"),
        vec![HttpOutcome::answered(200, GRANT)],
    );
    assert_eq!(endpoints(&calls), vec![Endpoint::RequestUploadUrl, Endpoint::PutBytes]);
    assert_eq!(
        calls[1],
        ApiCall::PutBytes {
            upload_url: "https://files.example/upload/v1/abc".to_string(),
            bytes: b"12345".to_vec(),
        }
    );
    assert_eq!(result, None);
    let request = calls[1].clone().into_request();
    assert_eq!(request.method, Method::Post);
    assert_eq!(request.url, "https://files.example/upload/v1/abc");
    assert_eq!(
        request.headers,
        vec![Header {
            name: "Content-Type".to_string(),
            value: "application/octet-stream".to_string(),
        }]
    );
    assert!(request.query.is_empty());
    assert_eq!(request.body, Body::Bytes(b"12345".to_vec()));
}

#[test]
fn upload_ends_with_the_file_identifier() {
    let (calls, skipped, result) = drive_upload(
        upload_image_to_slack("xoxb-test", b"12345", "cat.png"),
        vec![HttpOutcome::answered(200, GRANT), HttpOutcome::answered(200, "OK - 5")],
    );
    assert_eq!(calls.len(), 2);
    assert!(skipped.is_empty());
    assert_eq!(result, Some(Ok(Receipt::Uploaded { file_id: "F0123".to_string() })));
}

#[test]
fn upload_goes_on_whatever_the_status_of_the_put() {
    let (_, _, result) = drive_upload(
        upload_image_to_slack("xoxb-test", b"12345", "cat.png"),
        vec![HttpOutcome::answered(200, GRANT), HttpOutcome::Answered { status: 500, body: None }],
    );
    assert_eq!(result, Some(Ok(Receipt::Uploaded { file_id: "F0123".to_string() })));
}

#[test]
fn upload_stops_where_the_ticket_is_refused() {
    let (calls, _, result) = drive_upload(
        upload_image_to_slack("xoxb-test", b"12345", "cat.png"),
        vec![
            HttpOutcome::answered(200, "{\"ok\":false,\"error\":\"invalid_auth\"}"),
            HttpOutcome::answered(200, "never read"),
        ],
    );
    assert_eq!(endpoints(&calls), vec![Endpoint::RequestUploadUrl]);
    assert_eq!(result, Some(Err(SlackError::ApiRejected(Endpoint::RequestUploadUrl))));
}

#[test]
fn single_image_makes_its_three_calls_in_order() {
    let (calls, skipped, result) = drive_upload(
        start_single(),
        vec![
            HttpOutcome::answered(200, GRANT),
            HttpOutcome::answered(200, "OK - 6"),
            HttpOutcome::answered(200, "{\"ok\":true,\"files\":[{\"id\":\"F0123\"}]}"),
        ],
    );
    assert_eq!(
        endpoints(&calls),
        vec![Endpoint::RequestUploadUrl, Endpoint::PutBytes, Endpoint::CompleteUpload]
    );
    assert_eq!(
        calls[0],
        ApiCall::RequestUploadUrl {
            token: "xoxb-test".to_string(),
            filename: "cat.png".to_string(),
            length: 6,
        }
    );
    assert_eq!(
        calls[2],
        ApiCall::CompleteUpload {
            token: "xoxb-test".to_string(),
            files: vec![FileEntry { id: "F0123".to_string(), title: "My Amazing Image".to_string() }],
            channel_id: "C024BE91L".to_string(),
        }
    );
    assert!(skipped.is_empty());
    assert_eq!(result, Some(Ok(Receipt::ImageShared)));
}

#[test]
fn completing_request_is_an_authenticated_json_post() {
    let (calls, _, _) = drive_upload(
        start_single(),
        vec![HttpOutcome::answered(200, GRANT), HttpOutcome::answered(200, "OK - 6")],
    );
    let request = calls[2].clone().into_request();
    assert_eq!(request.method, Method::Post);
    assert_eq!(request.url, "https://slack.com/api/files.completeUploadExternal");
    assert_eq!(
        request.headers,
        vec![
            Header::bearer("xoxb-test"),
            Header::content_type("application/json"),
        ]
    );
    assert_eq!(
        Header::bearer("xoxb-test"),
        Header { name: "Authorization".to_string(), value: "Bearer xoxb-test".to_string() }
    );
    assert_eq!(
        Header::content_type("application/json"),
        Header { name: "Content-Type".to_string(), value: "application/json".to_string() }
    );
    assert!(request.query.is_empty());
    assert_eq!(
        request.body,
        Body::Text(
            "{\"channel_id\":\"C024BE91L\",\"files\":[{\"id\":\"F0123\",\"title\":\"My Amazing Image\"}]}"
                .to_string()
        )
    );
}

#[test]
fn single_image_never_goes_past_a_refused_ticket() {
    let (calls, skipped, result) = drive_upload(
        start_single(),
        vec![
            HttpOutcome::answered(200, "{\"ok\":false}"),
            HttpOutcome::answered(200, "OK"),
            HttpOutcome::answered(200, "{\"ok\":true}"),
        ],
    );
    assert_eq!(endpoints(&calls), vec![Endpoint::RequestUploadUrl]);
    assert!(skipped.is_empty());
    assert_eq!(result, Some(Err(SlackError::ApiRejected(Endpoint::RequestUploadUrl))));
}

#[test]
fn single_image_fails_on_a_malformed_ticket() {
    let (calls, _, result) =
        drive_upload(start_single(), vec![HttpOutcome::answered(200, "<html>")]);
    assert_eq!(calls.len(), 1);
    assert_eq!(result, Some(Err(SlackError::MalformedResponse(Endpoint::RequestUploadUrl))));
}

#[test]
fn single_image_fails_where_the_ticket_request_gets_no_response() {
    let (calls, _, result) = drive_upload(start_single(), vec![HttpOutcome::Unreachable]);
    assert_eq!(calls.len(), 1);
    assert_eq!(result, Some(Err(SlackError::NetworkFailure(Endpoint::RequestUploadUrl))));
    let (_, _, result) =
        drive_upload(start_single(), vec![HttpOutcome::Answered { status: 200, body: None }]);
    assert_eq!(result, Some(Err(SlackError::NetworkFailure(Endpoint::RequestUploadUrl))));
}

#[test]
fn single_image_fails_where_the_bytes_get_no_response() {
    let (calls, _, result) = drive_upload(
        start_single(),
        vec![HttpOutcome::answered(200, GRANT), HttpOutcome::Unreachable],
    );
    assert_eq!(endpoints(&calls), vec![Endpoint::RequestUploadUrl, Endpoint::PutBytes]);
    assert_eq!(result, Some(Err(SlackError::NetworkFailure(Endpoint::PutBytes))));
}

#[test]
fn single_image_fails_where_completion_is_refused() {
    let outcomes = |last: HttpOutcome| {
        vec![HttpOutcome::answered(200, GRANT), HttpOutcome::answered(200, "OK"), last]
    };
    let (_, _, result) = drive_upload(
        start_single(),
        outcomes(HttpOutcome::answered(200, "{\"ok\":false,\"error\":\"channel_not_found\"}")),
    );
    assert_eq!(result, Some(Err(SlackError::ApiRejected(Endpoint::CompleteUpload))));
    let (_, _, result) = drive_upload(start_single(), outcomes(HttpOutcome::answered(200, "oops")));
    assert_eq!(result, Some(Err(SlackError::MalformedResponse(Endpoint::CompleteUpload))));
    let (_, _, result) = drive_upload(start_single(), outcomes(HttpOutcome::Unreachable));
    assert_eq!(result, Some(Err(SlackError::NetworkFailure(Endpoint::CompleteUpload))));
}

#[test]
fn single_image_without_settings_ends_before_any_call() {
    let mut missing_token = credentials();
    missing_token.token = None;
    let (calls, _, result) = drive_upload(
        send_single_image_to_slack(&missing_token, b"x", "a.png", "A"),
        vec![HttpOutcome::answered(200, GRANT)],
    );
    assert!(calls.is_empty());
    assert_eq!(result, Some(Err(SlackError::ConfigurationMissing(ConfigKey::Token))));

    let mut missing_channel = credentials();
    missing_channel.channel_id = None;
    let (calls, _, result) =
        drive_upload(send_single_image_to_slack(&missing_channel, b"x", "a.png", "A"), vec![]);
    assert!(calls.is_empty());
    assert_eq!(result, Some(Err(SlackError::ConfigurationMissing(ConfigKey::ChannelId))));
}

#[test]
fn sessions_know_their_operation() {
    let operation = |step: Step| match step.next {
        Next::Call { session, .. } => session.operation(),
        Next::Done(result) => panic!("ended: {:?}", result),
    };
    assert_eq!(operation(upload_image_to_slack("t", b"x", "a.png")), Operation::Upload);
    assert_eq!(operation(start_single()), Operation::SingleImage);
}
