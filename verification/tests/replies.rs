use slack_client::decimal::decimal_text;
use slack_client::error::{Endpoint, SlackError};
use slack_client::http::HttpOutcome;
use slack_client::reply::{
    read_answer, read_completed, read_stored, read_ticket, ApiResult, UploadTicket,
};

fn answer(ok: bool, upload_url: &str, file_id: &str) -> ApiResult {
    ApiResult { ok, upload_url: upload_url.to_string(), file_id: file_id.to_string() }
}

#[test]
fn decode_reads_the_three_fields() {
    assert_eq!(
        ApiResult::decode(
            "{\"ok\":true,\"upload_url\":\"https://files.example/u/1\",\"file_id\":\"F1\"}"
        ),
        Some(answer(true, "https://files.example/u/1", "F1"))
    );
}

#[test]
fn decode_fills_absent_texts_with_the_empty_text() {
    assert_eq!(ApiResult::decode("{\"ok\":true}"), Some(answer(true, "", "")));
    assert_eq!(ApiResult::decode("{\"ok\":false}"), Some(answer(false, "", "")));
    assert_eq!(
        ApiResult::decode("{\"file_id\":\"F7\",\"ok\":true}"),
        Some(answer(true, "", "F7"))
    );
}

#[test]
fn decode_ignores_other_keys() {
    assert_eq!(
        ApiResult::decode(
            "{\"ok\":false,\"error\":\"invalid_auth\",\"warnings\":[1,2.5,null],\"n\":{\"a\":1}}"
        ),
        Some(answer(false, "", ""))
    );
}

#[test]
fn decode_wants_a_boolean_ok() {
    assert_eq!(ApiResult::decode("{}"), None);
    assert_eq!(ApiResult::decode("{\"upload_url\":\"u\",\"file_id\":\"f\"}"), None);
    assert_eq!(ApiResult::decode("{\"ok\":\"true\"}"), None);
    assert_eq!(ApiResult::decode("{\"ok\":1}"), None);
    assert_eq!(ApiResult::decode("{\"ok\":null}"), None);
}

#[test]
fn decode_wants_texts_where_the_keys_are_present() {
    assert_eq!(ApiResult::decode("{\"ok\":true,\"upload_url\":null}"), None);
    assert_eq!(ApiResult::decode("{\"ok\":true,\"upload_url\":17}"), None);
    assert_eq!(ApiResult::decode("{\"ok\":true,\"file_id\":[\"F1\"]}"), None);
    assert_eq!(ApiResult::decode("{\"ok\":true,\"file_id\":false}"), None);
}

#[test]
fn decode_wants_a_json_object() {
    assert_eq!(ApiResult::decode(""), None);
    assert_eq!(ApiResult::decode("<html>busy</html>"), None);
    assert_eq!(ApiResult::decode("{\"ok\":true"), None);
    assert_eq!(ApiResult::decode("{\"ok\":true} trailing"), None);
    assert_eq!(ApiResult::decode("true"), None);
    assert_eq!(ApiResult::decode("\"ok\""), None);
    assert_eq!(ApiResult::decode("[true,\"u\",\"f\"]"), None);
}

#[test]
fn decode_unescapes_texts() {
    assert_eq!(
        ApiResult::decode("{\"ok\":true,\"upload_url\":\"https:\\/\\/x\\u002fy\",\"file_id\":\"a\\\"b\"}"),
        Some(answer(true, "https://x/y", "a\"b"))
    );
}

#[test]
fn from_json_reads_a_value_built_by_hand() {
    let mut entries = serde_json::Map::new();
    entries.insert("ok".to_string(), serde_json::Value::Bool(true));
    entries.insert("file_id".to_string(), serde_json::Value::String("F9".to_string()));
    let value = serde_json::Value::Object(entries);
    assert_eq!(ApiResult::from_json(&value), Some(answer(true, "", "F9")));
    assert_eq!(ApiResult::from_json(&serde_json::Value::Bool(true)), None);
    assert_eq!(ApiResult::from_json(&serde_json::Value::Null), None);
}

#[test]
fn ticket_is_granted_by_an_ok_answer_only() {
    assert_eq!(
        answer(true, "https://u", "F1").into_ticket(),
        Some(UploadTicket { upload_url: "https://u".to_string(), file_id: "F1".to_string() })
    );
    assert_eq!(answer(false, "https://u", "F1").into_ticket(), None);
}

#[test]
fn answers_are_read_whatever_the_status() {
    let outcome = HttpOutcome::answered(500, "{\"ok\":true,\"file_id\":\"F1\"}");
    assert_eq!(read_answer(&outcome, Endpoint::CompleteUpload), Ok(answer(true, "", "F1")));
    assert_eq!(read_completed(&outcome), Ok(()));
}

#[test]
fn answers_fail_by_kind() {
    assert_eq!(
        read_answer(&HttpOutcome::Unreachable, Endpoint::RequestUploadUrl),
        Err(SlackError::NetworkFailure(Endpoint::RequestUploadUrl))
    );
    assert_eq!(
        read_answer(&HttpOutcome::Answered { status: 200, body: None }, Endpoint::CompleteUpload),
        Err(SlackError::NetworkFailure(Endpoint::CompleteUpload))
    );
    assert_eq!(
        read_answer(&HttpOutcome::answered(200, "not json"), Endpoint::CompleteUpload),
        Err(SlackError::MalformedResponse(Endpoint::CompleteUpload))
    );
    assert_eq!(
        read_ticket(&HttpOutcome::answered(200, "{\"ok\":false}")),
        Err(SlackError::ApiRejected(Endpoint::RequestUploadUrl))
    );
    assert_eq!(
        read_ticket(&HttpOutcome::answered(200, "[]")),
        Err(SlackError::MalformedResponse(Endpoint::RequestUploadUrl))
    );
    assert_eq!(
        read_completed(&HttpOutcome::answered(200, "{\"ok\":false}")),
        Err(SlackError::ApiRejected(Endpoint::CompleteUpload))
    );
}

#[test]
fn bytes_are_stored_by_any_response() {
    assert_eq!(read_stored(&HttpOutcome::answered(200, "OK - 5")), Ok(()));
    assert_eq!(read_stored(&HttpOutcome::Answered { status: 503, body: None }), Ok(()));
    assert_eq!(
        read_stored(&HttpOutcome::Unreachable),
        Err(SlackError::NetworkFailure(Endpoint::PutBytes))
    );
}

#[test]
fn decimal_text_writes_plain_digits() {
    assert_eq!(decimal_text(0), "0");
    assert_eq!(decimal_text(7), "7");
    assert_eq!(decimal_text(9), "9");
    assert_eq!(decimal_text(10), "10");
    assert_eq!(decimal_text(99), "99");
    assert_eq!(decimal_text(100), "100");
    assert_eq!(decimal_text(1234567890), "1234567890");
    assert_eq!(decimal_text(usize::MAX), usize::MAX.to_string());
}
