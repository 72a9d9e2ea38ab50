//! What holds of the declared routes and of the answers to them.

use vstd::prelude::*;
use crate::method::Method;
use crate::middleware::{normalized, MiddlewareErrorView};
use crate::response::{index_body, internal_error_prefix, timeout_body, Response};
use crate::declared::{declared_routes, is_declared, lemma_declared_routes_bind};
use crate::routes::{resolve, RouteSpec};
use crate::service::{answer_of, answer_of_token, Handler};

verus! {

/// Every declared pair has exactly one handler, the index handler.
pub proof fn lemma_declared_pair_has_one_handler(method: Method, path: Seq<char>)
    requires
        is_declared(method, path),
    ensures
        resolve(declared_routes(), method, path) == Some(Handler::Index),
{
    lemma_declared_routes_bind(method, path);
}

/// A request for a declared pair is answered 200 with the body `index`.
pub proof fn lemma_declared_pair_answers_index(method: Method, path: Seq<char>)
    requires
        is_declared(method, path),
    ensures
        answer_of(declared_routes(), method, path) == Response::spec_index(),
        answer_of(declared_routes(), method, path).status.code() == 200,
        answer_of(declared_routes(), method, path).body == index_body(),
{
    lemma_declared_pair_has_one_handler(method, path);
}

/// A request for any other pair is answered 404.
pub proof fn lemma_undeclared_pair_not_found(method: Method, path: Seq<char>)
    requires
        !is_declared(method, path),
    ensures
        answer_of(declared_routes(), method, path) == Response::spec_not_found(),
        answer_of(declared_routes(), method, path).status.code() == 404,
{
    lemma_declared_routes_bind(method, path);
}

/// A request whose method is given by that method's token is answered as the
/// method itself is.
pub proof fn lemma_token_answers_as_method(
    routes: Seq<RouteSpec<Handler>>,
    method: Method,
    path: Seq<char>,
)
    ensures
        answer_of_token(routes, method.token(), path) == answer_of(routes, method, path),
{
    method.lemma_token_round_trip();
}

/// A request whose method token names no method is answered 404, whatever its path.
pub proof fn lemma_unknown_method_not_found(
    routes: Seq<RouteSpec<Handler>>,
    token: Seq<char>,
    path: Seq<char>,
)
    requires
        Method::parse(token) is None,
    ensures
        answer_of_token(routes, token, path) == Response::spec_not_found(),
{
}

/// An expired deadline is answered 408 with a fixed body.
pub proof fn lemma_timeout_answers_408()
    ensures
        normalized(MiddlewareErrorView::RequestTimeout).status.code() == 408,
        normalized(MiddlewareErrorView::RequestTimeout).body == timeout_body(),
{
}

/// Any other failure is answered 500, and the body is the fixed prefix
/// followed by the description of the failure.
pub proof fn lemma_failure_answers_500(details: Seq<char>)
    ensures
        normalized(MiddlewareErrorView::InternalError(details)).status.code() == 500,
        normalized(MiddlewareErrorView::InternalError(details)).body == internal_error_prefix()
            + details,
        internal_error_prefix().is_prefix_of(
            normalized(MiddlewareErrorView::InternalError(details)).body,
        ),
{
}

/// Every failure is answered, and only ever with one of the two error statuses.
pub proof fn lemma_every_failure_is_answered(error: MiddlewareErrorView)
    ensures
        normalized(error).status.code() == 408 || normalized(error).status.code() == 500,
{
}

} // verus!
