//! Responses the edge hands back to a client.

use vstd::prelude::*;
use vstd::string::StringExecFns;

verus! {

/// The status lines the edge can answer with.
#[derive(Clone, Copy, Debug, PartialEq, Eq, Structural)]
pub enum Status {
    /// 200: the request reached a handler.
    Success,
    /// 404: no route is bound to the request's method and path.
    NotFound,
    /// 408: the request outlived its deadline.
    RequestTimeout,
    /// 500: the middleware chain failed in any other way.
    InternalServerError,
}

/// The media types a body can be labelled with.
#[derive(Clone, Copy, Debug, PartialEq, Eq, Structural)]
pub enum ContentType {
    /// `text/plain`
    TextPlain,
}

impl ContentType {
    /// The name of the media type.
    pub open spec fn spec_name(self) -> Seq<char> {
        match self {
            ContentType::TextPlain => "text/plain"@,
        }
    }

    /// Returns the name of the media type.
    pub fn name(self) -> (name: &'static str)
        ensures
            name@ == self.spec_name(),
    {
        match self {
            ContentType::TextPlain => "text/plain",
        }
    }
}

impl Status {
    /// The numeric status code.
    pub open spec fn spec_code(self) -> u16 {
        match self {
            Status::Success => 200,
            Status::NotFound => 404,
            Status::RequestTimeout => 408,
            Status::InternalServerError => 500,
        }
    }

    /// Returns the numeric status code.
    #[verifier::when_used_as_spec(spec_code)]
    pub fn code(self) -> (code: u16)
        ensures
            code == self.spec_code(),
    {
        match self {
            Status::Success => 200,
            Status::NotFound => 404,
            Status::RequestTimeout => 408,
            Status::InternalServerError => 500,
        }
    }
}

/// A response: a status, the media type of the body where it has one, and
/// the body.
#[derive(Debug, PartialEq, Eq)]
pub struct Response {
    pub status: Status,
    pub content_type: Option<ContentType>,
    pub body: String,
}

/// What a `Response` means in contracts.
pub struct ResponseView {
    pub status: Status,
    pub content_type: Option<ContentType>,
    pub body: Seq<char>,
}

impl View for Response {
    type V = ResponseView;

    open spec fn view(&self) -> ResponseView {
        ResponseView { status: self.status, content_type: self.content_type, body: self.body@ }
    }
}

/// The body every handler answers with.
pub open spec fn index_body() -> Seq<char> {
    "index"@
}

/// The body of the answer to a request that outlived its deadline.
pub open spec fn timeout_body() -> Seq<char> {
    "request took too long"@
}

/// What the body of the answer to any other failure starts with.
pub open spec fn internal_error_prefix() -> Seq<char> {
    "Unhandled internal error: "@
}

impl Response {
    /// The answer to a request that no route is bound to: 404, no body.
    pub open spec fn spec_not_found() -> ResponseView {
        ResponseView { status: Status::NotFound, content_type: None, body: Seq::empty() }
    }

    /// The answer of a handler: 200 with the plain-text body `index`.
    pub open spec fn spec_index() -> ResponseView {
        ResponseView {
            status: Status::Success,
            content_type: Some(ContentType::TextPlain),
            body: index_body(),
        }
    }

    /// The answer to a request that outlived its deadline: 408 with a fixed
    /// plain-text body.
    pub open spec fn spec_request_timeout() -> ResponseView {
        ResponseView {
            status: Status::RequestTimeout,
            content_type: Some(ContentType::TextPlain),
            body: timeout_body(),
        }
    }

    /// The answer to a failure described by `details`: 500, and a plain-text
    /// body made of a fixed prefix and the description.
    pub open spec fn spec_internal_error(details: Seq<char>) -> ResponseView {
        ResponseView {
            status: Status::InternalServerError,
            content_type: Some(ContentType::TextPlain),
            body: internal_error_prefix() + details,
        }
    }

    /// Builds the answer to a request that no route is bound to.
    pub fn not_found() -> (response: Response)
        ensures
            response@ == Response::spec_not_found(),
    {
        Response { status: Status::NotFound, content_type: None, body: String::new() }
    }

    /// Builds the answer of a handler.
    pub fn index() -> (response: Response)
        ensures
            response@ == Response::spec_index(),
    {
        Response {
            status: Status::Success,
            content_type: Some(ContentType::TextPlain),
            body: String::from_str("index"),
        }
    }

    /// Builds the answer to a request that outlived its deadline.
    pub fn request_timeout() -> (response: Response)
        ensures
            response@ == Response::spec_request_timeout(),
    {
        Response {
            status: Status::RequestTimeout,
            content_type: Some(ContentType::TextPlain),
            body: String::from_str("request took too long"),
        }
    }

    /// Builds the answer to a failure described by `details`.
    pub fn internal_error(details: &str) -> (response: Response)
        ensures
            response@ == Response::spec_internal_error(details@),
    {
        Response {
            status: Status::InternalServerError,
            content_type: Some(ContentType::TextPlain),
            body: String::from_str("Unhandled internal error: ").concat(details),
        }
    }
}

} // verus!
