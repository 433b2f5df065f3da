//! The four calls of the vendor's API, and the HTTP request that each one is.

use vstd::prelude::*;
use crate::decimal::{decimal, decimal_text};
use crate::error::Endpoint;
use crate::http::{
    bearer, content_type, Body, BodyView, Header, HttpRequest, HttpRequestView, Method, QueryParam,
    QueryParamView,
};
use crate::json::rendered;
use crate::payload::{
    completion_document, completion_text, entry_views, message_document, FileEntry, FileEntryView,
    OutgoingMessage, OutgoingMessageView,
};

verus! {

/// A call that a session asks its driver to make.
#[derive(Clone, Debug, PartialEq, Eq)]
pub enum ApiCall {
    /// Post a plain message.
    PostMessage { token: String, message: OutgoingMessage },
    /// Ask where to put a file of `length` bytes.
    RequestUploadUrl { token: String, filename: String, length: usize },
    /// Put the bytes of a file where a ticket says.
    PutBytes { upload_url: String, bytes: Vec<u8> },
    /// Share the uploaded files in a channel.
    CompleteUpload { token: String, files: Vec<FileEntry>, channel_id: String },
}

pub enum ApiCallView {
    PostMessage { token: Seq<char>, message: OutgoingMessageView },
    RequestUploadUrl { token: Seq<char>, filename: Seq<char>, length: nat },
    PutBytes { upload_url: Seq<char>, bytes: Seq<u8> },
    CompleteUpload { token: Seq<char>, files: Seq<FileEntryView>, channel_id: Seq<char> },
}

impl View for ApiCall {
    type V = ApiCallView;

    open spec fn view(&self) -> ApiCallView {
        match self {
            ApiCall::PostMessage { token, message } => ApiCallView::PostMessage {
                token: token@,
                message: message@,
            },
            ApiCall::RequestUploadUrl { token, filename, length } => ApiCallView::RequestUploadUrl {
                token: token@,
                filename: filename@,
                length: *length as nat,
            },
            ApiCall::PutBytes { upload_url, bytes } => ApiCallView::PutBytes {
                upload_url: upload_url@,
                bytes: bytes@,
            },
            ApiCall::CompleteUpload { token, files, channel_id } => ApiCallView::CompleteUpload {
                token: token@,
                files: entry_views(files@),
                channel_id: channel_id@,
            },
        }
    }
}

impl ApiCallView {
    /// Which of the four calls this is.
    pub open spec fn endpoint(self) -> Endpoint {
        match self {
            ApiCallView::PostMessage { .. } => Endpoint::PostMessage,
            ApiCallView::RequestUploadUrl { .. } => Endpoint::RequestUploadUrl,
            ApiCallView::PutBytes { .. } => Endpoint::PutBytes,
            ApiCallView::CompleteUpload { .. } => Endpoint::CompleteUpload,
        }
    }

    /// The request that makes this call.
    ///
    /// The three calls to the vendor's own addresses carry the bearer token.
    /// The bytes of a file go, without one, to the address that the ticket
    /// names, by POST.
    pub open spec fn wire(self) -> HttpRequestView {
        match self {
            ApiCallView::PostMessage { token, message } => HttpRequestView {
                method: Method::Post,
                url: "https://slack.com/api/chat.postMessage"@,
                headers: seq![bearer(token), content_type("application/json"@)],
                query: Seq::empty(),
                body: BodyView::Text(rendered(message_document(message))),
            },
            ApiCallView::RequestUploadUrl { token, filename, length } => HttpRequestView {
                method: Method::Get,
                url: "https://slack.com/api/files.getUploadURLExternal"@,
                headers: seq![bearer(token)],
                query: seq![
                    QueryParamView { name: "filename"@, value: filename },
                    QueryParamView { name: "length"@, value: decimal(length) },
                ],
                body: BodyView::Empty,
            },
            ApiCallView::PutBytes { upload_url, bytes } => HttpRequestView {
                method: Method::Post,
                url: upload_url,
                headers: seq![content_type("application/octet-stream"@)],
                query: Seq::empty(),
                body: BodyView::Bytes(bytes),
            },
            ApiCallView::CompleteUpload { token, files, channel_id } => HttpRequestView {
                method: Method::Post,
                url: "https://slack.com/api/files.completeUploadExternal"@,
                headers: seq![bearer(token), content_type("application/json"@)],
                query: Seq::empty(),
                body: BodyView::Text(rendered(completion_document(files, channel_id))),
            },
        }
    }
}

impl ApiCall {
    /// Which of the four calls this is.
    pub fn endpoint(&self) -> (endpoint: Endpoint)
        ensures
            endpoint == self@.endpoint(),
    {
        match self {
            ApiCall::PostMessage { .. } => Endpoint::PostMessage,
            ApiCall::RequestUploadUrl { .. } => Endpoint::RequestUploadUrl,
            ApiCall::PutBytes { .. } => Endpoint::PutBytes,
            ApiCall::CompleteUpload { .. } => Endpoint::CompleteUpload,
        }
    }

    /// The request that makes this call.
    pub fn into_request(self) -> (request: HttpRequest)
        ensures
            request@ == self@.wire(),
    {
        match self {
            ApiCall::PostMessage { token, message } => {
                let mut headers: Vec<Header> = Vec::new();
                headers.push(Header::bearer(token.as_str()));
                headers.push(Header::content_type("application/json"));
                let request = HttpRequest {
                    method: Method::Post,
                    url: "https://slack.com/api/chat.postMessage".to_owned(),
                    headers,
                    query: Vec::new(),
                    body: Body::Text(message.to_json_text()),
                };
                assert(request@.headers =~= self@.wire().headers);
                assert(request@.query =~= Seq::empty());
                request
            },
            ApiCall::RequestUploadUrl { token, filename, length } => {
                let mut query: Vec<QueryParam> = Vec::new();
                query.push(QueryParam { name: "filename".to_owned(), value: filename });
                query.push(QueryParam { name: "length".to_owned(), value: decimal_text(length) });
                let mut headers: Vec<Header> = Vec::new();
                headers.push(Header::bearer(token.as_str()));
                let request = HttpRequest {
                    method: Method::Get,
                    url: "https://slack.com/api/files.getUploadURLExternal".to_owned(),
                    headers,
                    query,
                    body: Body::Empty,
                };
                assert(request@.headers =~= self@.wire().headers);
                assert(request@.query =~= self@.wire().query);
                request
            },
            ApiCall::PutBytes { upload_url, bytes } => {
                let mut headers: Vec<Header> = Vec::new();
                headers.push(Header::content_type("application/octet-stream"));
                let request = HttpRequest {
                    method: Method::Post,
                    url: upload_url,
                    headers,
                    query: Vec::new(),
                    body: Body::Bytes(bytes),
                };
                assert(request@.headers =~= self@.wire().headers);
                assert(request@.query =~= Seq::empty());
                request
            },
            ApiCall::CompleteUpload { token, files, channel_id } => {
                let mut headers: Vec<Header> = Vec::new();
                headers.push(Header::bearer(token.as_str()));
                headers.push(Header::content_type("application/json"));
                let request = HttpRequest {
                    method: Method::Post,
                    url: "https://slack.com/api/files.completeUploadExternal".to_owned(),
                    headers,
                    query: Vec::new(),
                    body: Body::Text(completion_text(&files, channel_id.as_str())),
                };
                assert(request@.headers =~= self@.wire().headers);
                assert(request@.query =~= Seq::empty());
                request
            },
        }
    }
}

} // verus!
