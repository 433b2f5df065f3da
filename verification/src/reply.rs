//! What the vendor answers: a JSON object with a boolean `ok` and, for an
//! upload, the address and the identifier of the file to be.

use vstd::prelude::*;
use crate::error::{Endpoint, SlackError};
use crate::http::{is_success, HttpOutcome, HttpOutcomeView};
use crate::json::{member, member_of, parse, parsed, text_of, value_model, JsonModel};

verus! {

/// The fields that the client reads of an answer.
#[derive(Clone, Debug, PartialEq, Eq)]
pub struct ApiResult {
    pub ok: bool,
    /// Empty where the answer has no `upload_url`.
    pub upload_url: String,
    /// Empty where the answer has no `file_id`.
    pub file_id: String,
}

/// Where the bytes of one image go, and the name under which the vendor will
/// know them. A ticket serves one upload.
#[derive(Clone, Debug, PartialEq, Eq)]
pub struct UploadTicket {
    pub upload_url: String,
    pub file_id: String,
}

pub struct ApiResultView {
    pub ok: bool,
    pub upload_url: Seq<char>,
    pub file_id: Seq<char>,
}

pub struct UploadTicketView {
    pub upload_url: Seq<char>,
    pub file_id: Seq<char>,
}

impl View for ApiResult {
    type V = ApiResultView;

    open spec fn view(&self) -> ApiResultView {
        ApiResultView { ok: self.ok, upload_url: self.upload_url@, file_id: self.file_id@ }
    }
}

impl View for UploadTicket {
    type V = UploadTicketView;

    open spec fn view(&self) -> UploadTicketView {
        UploadTicketView { upload_url: self.upload_url@, file_id: self.file_id@ }
    }
}

/// The text under `key`, which may be left out: the empty text for a document
/// without that key, and `None` where the key holds anything but a string.
pub open spec fn optional_text(doc: JsonModel, key: Seq<char>) -> Option<Seq<char>> {
    match member_of(doc, key) {
        Some(found) => text_of(found),
        None => Some(Seq::empty()),
    }
}

/// The answer that a JSON document stands for. It must be an object whose
/// `ok` is a boolean; `upload_url` and `file_id` are strings where they are
/// present; other keys are not looked at.
pub open spec fn api_result_of(doc: JsonModel) -> Option<ApiResultView> {
    match (member_of(doc, "ok"@), optional_text(doc, "upload_url"@), optional_text(doc, "file_id"@)) {
        (Some(JsonModel::Bool(ok)), Some(upload_url), Some(file_id)) => Some(
            ApiResultView { ok, upload_url, file_id },
        ),
        _ => None,
    }
}

/// The answer that a response body stands for; `None` for a body that is not
/// JSON, or not of the expected structure.
pub open spec fn decoded(body: Seq<char>) -> Option<ApiResultView> {
    match parsed(body) {
        Some(doc) => api_result_of(doc),
        None => None,
    }
}

/// The ticket that an answer grants: one for each answer that says `ok`.
pub open spec fn ticket_of(answer: ApiResultView) -> Option<UploadTicketView> {
    if answer.ok {
        Some(UploadTicketView { upload_url: answer.upload_url, file_id: answer.file_id })
    } else {
        None
    }
}

/// What a plain message has come to.
#[derive(Clone, Debug, PartialEq, Eq)]
pub enum Delivery {
    /// The response has a status in the success range.
    Delivered,
    /// The response has another status; `detail` is its body. This is a
    /// matter to report, not an error.
    Rejected { status: u16, detail: String },
}

pub enum DeliveryView {
    Delivered,
    Rejected { status: u16, detail: Seq<char> },
}

impl View for Delivery {
    type V = DeliveryView;

    open spec fn view(&self) -> DeliveryView {
        match self {
            Delivery::Delivered => DeliveryView::Delivered,
            Delivery::Rejected { status, detail } => DeliveryView::Rejected {
                status: *status,
                detail: detail@,
            },
        }
    }
}

/// What the outcome of the posting call says. Only the status decides: the
/// body of a response in the success range is not looked at, and that of any
/// other response is handed on as it is.
pub open spec fn delivery_of(outcome: HttpOutcomeView) -> Result<DeliveryView, SlackError> {
    match outcome {
        HttpOutcomeView::Unreachable => Err(SlackError::NetworkFailure(Endpoint::PostMessage)),
        HttpOutcomeView::Answered { status, body } => if is_success(status) {
            Ok(DeliveryView::Delivered)
        } else {
            match body {
                Some(detail) => Ok(DeliveryView::Rejected { status, detail }),
                None => Err(SlackError::NetworkFailure(Endpoint::PostMessage)),
            }
        },
    }
}

/// The answer in the outcome of a call to `endpoint`. The status is not
/// looked at: whatever body arrived is read as an answer.
pub open spec fn answer_of(outcome: HttpOutcomeView, endpoint: Endpoint) -> Result<
    ApiResultView,
    SlackError,
> {
    match outcome {
        HttpOutcomeView::Answered { status, body: Some(body) } => match decoded(body) {
            Some(answer) => Ok(answer),
            None => Err(SlackError::MalformedResponse(endpoint)),
        },
        _ => Err(SlackError::NetworkFailure(endpoint)),
    }
}

/// The ticket in the outcome of a request for an upload address.
pub open spec fn granted(outcome: HttpOutcomeView) -> Result<UploadTicketView, SlackError> {
    match answer_of(outcome, Endpoint::RequestUploadUrl) {
        Ok(answer) => match ticket_of(answer) {
            Some(ticket) => Ok(ticket),
            None => Err(SlackError::ApiRejected(Endpoint::RequestUploadUrl)),
        },
        Err(error) => Err(error),
    }
}

/// Whether the bytes of a file got through: any response counts, whatever
/// its status.
pub open spec fn stored(outcome: HttpOutcomeView) -> Result<(), SlackError> {
    match outcome {
        HttpOutcomeView::Unreachable => Err(SlackError::NetworkFailure(Endpoint::PutBytes)),
        HttpOutcomeView::Answered { .. } => Ok(()),
    }
}

/// Whether the completing call was accepted.
pub open spec fn completed(outcome: HttpOutcomeView) -> Result<(), SlackError> {
    match answer_of(outcome, Endpoint::CompleteUpload) {
        Ok(answer) => if answer.ok {
            Ok(())
        } else {
            Err(SlackError::ApiRejected(Endpoint::CompleteUpload))
        },
        Err(error) => Err(error),
    }
}

/// The view of a delivery, or the error in its place.
pub open spec fn delivery_view(result: Result<Delivery, SlackError>) -> Result<
    DeliveryView,
    SlackError,
> {
    match result {
        Ok(delivery) => Ok(delivery@),
        Err(error) => Err(error),
    }
}

/// The view of an answer, or the error in its place.
pub open spec fn answer_view(result: Result<ApiResult, SlackError>) -> Result<
    ApiResultView,
    SlackError,
> {
    match result {
        Ok(answer) => Ok(answer@),
        Err(error) => Err(error),
    }
}

/// The view of a ticket, or the error in its place.
pub open spec fn ticket_view(result: Result<UploadTicket, SlackError>) -> Result<
    UploadTicketView,
    SlackError,
> {
    match result {
        Ok(ticket) => Ok(ticket@),
        Err(error) => Err(error),
    }
}

/// Reads the outcome of the posting call.
pub fn read_delivery(outcome: HttpOutcome) -> (result: Result<Delivery, SlackError>)
    ensures
        delivery_view(result) == delivery_of(outcome@),
{
    match outcome {
        HttpOutcome::Unreachable => Err(SlackError::NetworkFailure(Endpoint::PostMessage)),
        HttpOutcome::Answered { status, body } => if 200 <= status && status <= 299 {
            Ok(Delivery::Delivered)
        } else {
            match body {
                Some(detail) => Ok(Delivery::Rejected { status, detail }),
                None => Err(SlackError::NetworkFailure(Endpoint::PostMessage)),
            }
        },
    }
}

/// Reads the answer in the outcome of a call to `endpoint`.
pub fn read_answer(outcome: &HttpOutcome, endpoint: Endpoint) -> (result: Result<
    ApiResult,
    SlackError,
>)
    ensures
        answer_view(result) == answer_of(outcome@, endpoint),
{
    match outcome {
        HttpOutcome::Answered { status, body: Some(body) } => match ApiResult::decode(
            body.as_str(),
        ) {
            Some(answer) => Ok(answer),
            None => Err(SlackError::MalformedResponse(endpoint)),
        },
        _ => Err(SlackError::NetworkFailure(endpoint)),
    }
}

/// Reads the ticket in the outcome of a request for an upload address.
pub fn read_ticket(outcome: &HttpOutcome) -> (result: Result<UploadTicket, SlackError>)
    ensures
        ticket_view(result) == granted(outcome@),
{
    match read_answer(outcome, Endpoint::RequestUploadUrl) {
        Ok(answer) => match answer.into_ticket() {
            Some(ticket) => Ok(ticket),
            None => Err(SlackError::ApiRejected(Endpoint::RequestUploadUrl)),
        },
        Err(error) => Err(error),
    }
}

/// Reads whether the bytes of a file got through.
pub fn read_stored(outcome: &HttpOutcome) -> (result: Result<(), SlackError>)
    ensures
        result == stored(outcome@),
{
    match outcome {
        HttpOutcome::Unreachable => Err(SlackError::NetworkFailure(Endpoint::PutBytes)),
        HttpOutcome::Answered { .. } => Ok(()),
    }
}

/// Reads whether the completing call was accepted.
pub fn read_completed(outcome: &HttpOutcome) -> (result: Result<(), SlackError>)
    ensures
        result == completed(outcome@),
{
    match read_answer(outcome, Endpoint::CompleteUpload) {
        Ok(answer) => if answer.ok {
            Ok(())
        } else {
            Err(SlackError::ApiRejected(Endpoint::CompleteUpload))
        },
        Err(error) => Err(error),
    }
}

fn read_optional_text(value: &serde_json::Value, key: &str) -> (text: Option<String>)
    ensures
        optional_text(value_model(*value), key@) == match text {
            Some(text) => Some(text@),
            None => None,
        },
{
    match member(value, key) {
        Some(found) => match found.as_str() {
            Some(text) => Some(text.to_owned()),
            None => None,
        },
        None => Some(String::new()),
    }
}

impl ApiResult {
    /// Reads an answer from a JSON value.
    pub fn from_json(value: &serde_json::Value) -> (answer: Option<ApiResult>)
        ensures
            api_result_of(value_model(*value)) == match answer {
                Some(answer) => Some(answer@),
                None => None,
            },
    {
        let ok = match member(value, "ok") {
            Some(found) => match found.as_bool() {
                Some(ok) => ok,
                None => {
                    return None;
                },
            },
            None => {
                return None;
            },
        };
        let upload_url = match read_optional_text(value, "upload_url") {
            Some(text) => text,
            None => {
                return None;
            },
        };
        let file_id = match read_optional_text(value, "file_id") {
            Some(text) => text,
            None => {
                return None;
            },
        };
        Some(ApiResult { ok, upload_url, file_id })
    }

    /// Reads an answer from the body of a response.
    pub fn decode(body: &str) -> (answer: Option<ApiResult>)
        ensures
            decoded(body@) == match answer {
                Some(answer) => Some(answer@),
                None => None,
            },
    {
        match parse(body) {
            Ok(value) => ApiResult::from_json(&value),
            Err(_) => None,
        }
    }

    /// The ticket that this answer grants, if it says `ok`.
    pub fn into_ticket(self) -> (ticket: Option<UploadTicket>)
        ensures
            ticket_of(self@) == match ticket {
                Some(ticket) => Some(ticket@),
                None => None,
            },
    {
        if self.ok {
            Some(UploadTicket { upload_url: self.upload_url, file_id: self.file_id })
        } else {
            None
        }
    }
}

} // verus!
