//! What wraps every request: the deadline, and the rule that turns a failure
//! of the chain into a response.

use vstd::prelude::*;
use vstd::string::StringExecFns;
use crate::response::{internal_error_prefix, timeout_body, Response, ResponseView, Status};

verus! {

/// How long a request may take, in seconds.
pub const REQUEST_TIMEOUT_SECS: u64 = 10;

/// The failures the middleware chain can surface.
#[derive(Debug, PartialEq, Eq)]
pub enum MiddlewareError {
    /// The request outlived its deadline.
    RequestTimeout,
    /// Anything else, with a description of what went wrong.
    InternalError(String),
}

/// What a `MiddlewareError` means in contracts.
pub enum MiddlewareErrorView {
    RequestTimeout,
    InternalError(Seq<char>),
}

impl View for MiddlewareError {
    type V = MiddlewareErrorView;

    open spec fn view(&self) -> MiddlewareErrorView {
        match self {
            MiddlewareError::RequestTimeout => MiddlewareErrorView::RequestTimeout,
            MiddlewareError::InternalError(details) => MiddlewareErrorView::InternalError(details@),
        }
    }
}

/// The kind of a failure: an expired deadline is a timeout whatever its
/// description says; any other failure keeps its description.
pub open spec fn classified(timed_out: bool, details: Seq<char>) -> MiddlewareErrorView {
    if timed_out {
        MiddlewareErrorView::RequestTimeout
    } else {
        MiddlewareErrorView::InternalError(details)
    }
}

/// The response that stands for a failure.
pub open spec fn normalized(error: MiddlewareErrorView) -> ResponseView {
    match error {
        MiddlewareErrorView::RequestTimeout => Response::spec_request_timeout(),
        MiddlewareErrorView::InternalError(details) => Response::spec_internal_error(details),
    }
}

impl MiddlewareError {
    /// Tells the two kinds of failure apart.
    pub fn classify(timed_out: bool, details: &str) -> (error: MiddlewareError)
        ensures
            error@ == classified(timed_out, details@),
    {
        if timed_out {
            MiddlewareError::RequestTimeout
        } else {
            MiddlewareError::InternalError(String::from_str(details))
        }
    }

    /// Turns the failure into a response. Every failure has one.
    pub fn normalize(&self) -> (response: Response)
        ensures
            response@ == normalized(self@),
            self is RequestTimeout ==> response@.status.code() == 408 && response@.body
                == timeout_body(),
            self is InternalError ==> response@.status.code() == 500
                && internal_error_prefix().is_prefix_of(response@.body),
    {
        match self {
            MiddlewareError::RequestTimeout => Response::request_timeout(),
            MiddlewareError::InternalError(details) => Response::internal_error(details.as_str()),
        }
    }
}

/// Answers a failure of the middleware chain: `timed_out` says whether the
/// deadline expired, `details` describes any other failure.
pub fn handle_error(timed_out: bool, details: &str) -> (response: Response)
    ensures
        response@ == normalized(classified(timed_out, details@)),
        timed_out ==> response@ == Response::spec_request_timeout(),
        !timed_out ==> response@.status == Status::InternalServerError && response@.body
            == internal_error_prefix() + details@,
{
    MiddlewareError::classify(timed_out, details).normalize()
}

} // verus!
