//! Requests and responses as the dispatcher sees them.

use vstd::prelude::*;

verus! {

/// Status of a successful response.
pub const STATUS_OK: u16 = 200;

/// Status of the response to a request that no route matches.
pub const STATUS_NOT_FOUND: u16 = 404;

/// Status of the response to a request whose handler failed.
pub const STATUS_SERVER_ERROR: u16 = 500;

/// The method of a request.
#[derive(Clone, Copy, Debug, PartialEq, Eq, Structural)]
pub enum Method {
    Get,
    Head,
    Post,
    Put,
    Delete,
    Connect,
    Options,
    Trace,
    Patch,
    /// Any method outside the standard set.
    Other,
}

/// How the body of a response is to be read.
#[derive(Clone, Copy, Debug, PartialEq, Eq, Structural)]
pub enum Content {
    /// Plain text.
    Text,
    /// A JSON document.
    Json,
}

/// What the dispatcher reads of a request. Query string, headers and body
/// play no part in routing or handling.
#[derive(Clone, Debug, PartialEq, Eq)]
pub struct Request {
    pub method: Method,
    pub path: String,
}

/// The mathematical value of a [`Request`].
pub struct RequestView {
    pub method: Method,
    pub path: Seq<char>,
}

impl View for Request {
    type V = RequestView;

    open spec fn view(&self) -> RequestView {
        RequestView { method: self.method, path: self.path@ }
    }
}

/// A complete response. It is emitted whole or not at all.
#[derive(Clone, Debug, PartialEq, Eq)]
pub struct Response {
    pub status: u16,
    pub content: Content,
    pub body: String,
}

/// The mathematical value of a [`Response`].
pub struct ResponseView {
    pub status: u16,
    pub content: Content,
    pub body: Seq<char>,
}

impl View for Response {
    type V = ResponseView;

    open spec fn view(&self) -> ResponseView {
        ResponseView { status: self.status, content: self.content, body: self.body@ }
    }
}

/// The body of the greeting route.
pub open spec fn greeting_text() -> Seq<char> {
    "Hello World!"@
}

/// The body that every failed request gets: it names no cause.
pub open spec fn server_error_text() -> Seq<char> {
    "Internal Server Error"@
}

/// The greeting: status 200 and the fixed text.
pub open spec fn greeting_response() -> ResponseView {
    ResponseView { status: STATUS_OK, content: Content::Text, body: greeting_text() }
}

/// The answer to a request that no route matches: status 404, empty body.
pub open spec fn not_found_response() -> ResponseView {
    ResponseView { status: STATUS_NOT_FOUND, content: Content::Text, body: Seq::empty() }
}

/// The answer to a request whose handler failed: status 500 and the generic text.
pub open spec fn server_error_response() -> ResponseView {
    ResponseView { status: STATUS_SERVER_ERROR, content: Content::Text, body: server_error_text() }
}

/// A successful answer that carries a JSON document.
pub open spec fn json_response(body: Seq<char>) -> ResponseView {
    ResponseView { status: STATUS_OK, content: Content::Json, body }
}

impl Request {
    /// A request for `path` with `method`.
    pub fn new(method: Method, path: &str) -> (out: Request)
        ensures
            out@ == (RequestView { method, path: path@ }),
    {
        Request { method, path: String::from_str(path) }
    }
}

impl Response {
    /// The greeting.
    pub fn greeting() -> (out: Response)
        ensures
            out@ == greeting_response(),
    {
        Response { status: STATUS_OK, content: Content::Text, body: String::from_str("Hello World!") }
    }

    /// The answer to a request that no route matches.
    pub fn not_found() -> (out: Response)
        ensures
            out@ == not_found_response(),
    {
        Response { status: STATUS_NOT_FOUND, content: Content::Text, body: String::new() }
    }

    /// The answer to a request whose handler failed.
    pub fn server_error() -> (out: Response)
        ensures
            out@ == server_error_response(),
    {
        Response {
            status: STATUS_SERVER_ERROR,
            content: Content::Text,
            body: String::from_str("Internal Server Error"),
        }
    }

    /// A successful answer that carries the JSON document `body`.
    pub fn json(body: String) -> (out: Response)
        ensures
            out@ == json_response(body@),
    {
        Response { status: STATUS_OK, content: Content::Json, body }
    }

    /// Whether the status reports success.
    pub fn is_success(&self) -> (out: bool)
        ensures
            out == (200 <= self.status < 300),
    {
        200 <= self.status && self.status < 300
    }
}

} // verus!
