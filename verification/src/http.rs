//! HTTP requests and their outcomes as plain values.
//!
//! A request says everything that its sender needs; an outcome says
//! everything that the client reads of what came back.

use vstd::prelude::*;

verus! {

#[derive(Clone, Copy, Debug, PartialEq, Eq, Structural)]
pub enum Method {
    Get,
    Post,
}

/// One `name=value` pair of a query string, not yet percent-encoded.
#[derive(Clone, Debug, PartialEq, Eq)]
pub struct QueryParam {
    pub name: String,
    pub value: String,
}

/// One header of a request.
#[derive(Clone, Debug, PartialEq, Eq)]
pub struct Header {
    pub name: String,
    pub value: String,
}

#[derive(Clone, Debug, PartialEq, Eq)]
pub enum Body {
    Empty,
    Text(String),
    Bytes(Vec<u8>),
}

#[derive(Clone, Debug, PartialEq, Eq)]
pub struct HttpRequest {
    pub method: Method,
    pub url: String,
    pub headers: Vec<Header>,
    pub query: Vec<QueryParam>,
    pub body: Body,
}

/// What became of a request.
#[derive(Clone, Debug, PartialEq, Eq)]
pub enum HttpOutcome {
    /// The transport failed: there is no response.
    Unreachable,
    /// A response arrived. `body` is `None` where its text could not be read.
    Answered { status: u16, body: Option<String> },
}

pub struct QueryParamView {
    pub name: Seq<char>,
    pub value: Seq<char>,
}

pub struct HeaderView {
    pub name: Seq<char>,
    pub value: Seq<char>,
}

pub enum BodyView {
    Empty,
    Text(Seq<char>),
    Bytes(Seq<u8>),
}

pub struct HttpRequestView {
    pub method: Method,
    pub url: Seq<char>,
    pub headers: Seq<HeaderView>,
    pub query: Seq<QueryParamView>,
    pub body: BodyView,
}

pub enum HttpOutcomeView {
    Unreachable,
    Answered { status: u16, body: Option<Seq<char>> },
}

/// The view of a text that may be absent.
pub open spec fn text_view(text: Option<String>) -> Option<Seq<char>> {
    match text {
        Some(text) => Some(text@),
        None => None,
    }
}

impl View for QueryParam {
    type V = QueryParamView;

    open spec fn view(&self) -> QueryParamView {
        QueryParamView { name: self.name@, value: self.value@ }
    }
}

impl View for Header {
    type V = HeaderView;

    open spec fn view(&self) -> HeaderView {
        HeaderView { name: self.name@, value: self.value@ }
    }
}

impl View for Body {
    type V = BodyView;

    open spec fn view(&self) -> BodyView {
        match self {
            Body::Empty => BodyView::Empty,
            Body::Text(text) => BodyView::Text(text@),
            Body::Bytes(bytes) => BodyView::Bytes(bytes@),
        }
    }
}

impl View for HttpRequest {
    type V = HttpRequestView;

    open spec fn view(&self) -> HttpRequestView {
        HttpRequestView {
            method: self.method,
            url: self.url@,
            headers: self.headers@.map_values(|header: Header| header@),
            query: self.query@.map_values(|param: QueryParam| param@),
            body: self.body@,
        }
    }
}

impl View for HttpOutcome {
    type V = HttpOutcomeView;

    open spec fn view(&self) -> HttpOutcomeView {
        match self {
            HttpOutcome::Unreachable => HttpOutcomeView::Unreachable,
            HttpOutcome::Answered { status, body } => HttpOutcomeView::Answered {
                status: *status,
                body: text_view(*body),
            },
        }
    }
}

/// Whether a status code is in the success range, 200 to 299.
pub open spec fn is_success(status: u16) -> bool {
    200 <= status <= 299
}

/// The header that authenticates a call by a bearer token.
pub open spec fn bearer(token: Seq<char>) -> HeaderView {
    HeaderView { name: "Authorization"@, value: "Bearer "@ + token }
}

/// The header that says what kind of body a request has.
pub open spec fn content_type(kind: Seq<char>) -> HeaderView {
    HeaderView { name: "Content-Type"@, value: kind }
}

impl Header {
    /// The header that authenticates a call by a bearer token.
    pub fn bearer(token: &str) -> (header: Header)
        ensures
            header@ == bearer(token@),
    {
        Header { name: "Authorization".to_owned(), value: "Bearer ".to_owned().concat(token) }
    }

    /// The header that says what kind of body a request has.
    pub fn content_type(kind: &str) -> (header: Header)
        ensures
            header@ == content_type(kind@),
    {
        Header { name: "Content-Type".to_owned(), value: kind.to_owned() }
    }
}

impl HttpOutcome {
    /// An outcome for a response whose body was read.
    pub fn answered(status: u16, body: &str) -> (outcome: HttpOutcome)
        ensures
            outcome@ == (HttpOutcomeView::Answered { status, body: Some(body@) }),
    {
        HttpOutcome::Answered { status, body: Some(body.to_owned()) }
    }
}

} // verus!
