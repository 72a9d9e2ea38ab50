//! The routes this service declares, and what it answers to a request.

use vstd::prelude::*;
use crate::method::Method;
use crate::response::{Response, ResponseView};
use crate::declared::{
    declared_api_routes, declared_product_routes, declared_routes, declared_user_routes,
    lemma_api_path_lengths, lemma_api_paths, lemma_full_path_lengths, lemma_product_paths,
    lemma_resource_path_lengths, lemma_user_paths,
};
use crate::routes::{resolve, RouteSpec, RouteTable};

verus! {

/// The interface the service listens on: loopback.
pub const BIND_HOST: [u8; 4] = [127, 0, 0, 1];

/// The port the service listens on.
pub const BIND_PORT: u16 = 3000;

/// The handlers a route can be bound to.
#[derive(Clone, Copy, Debug, PartialEq, Eq, Structural)]
pub enum Handler {
    /// Answers 200 with the body `index`.
    Index,
}

impl Handler {
    /// What the handler answers.
    pub open spec fn spec_respond(self) -> ResponseView {
        match self {
            Handler::Index => Response::spec_index(),
        }
    }

    /// Runs the handler.
    pub fn respond(self) -> (response: Response)
        ensures
            response@ == self.spec_respond(),
    {
        match self {
            Handler::Index => Response::index(),
        }
    }
}

/// What a table answers to a request: the answer of the handler bound to its
/// method and path, or "not found" where none is.
pub open spec fn answer_of(routes: Seq<RouteSpec<Handler>>, method: Method, path: Seq<char>) -> ResponseView {
    match resolve(routes, method, path) {
        Some(handler) => handler.spec_respond(),
        None => Response::spec_not_found(),
    }
}

/// What a table answers to a request whose method is still a token: a token
/// that names no method reaches no route.
pub open spec fn answer_of_token(
    routes: Seq<RouteSpec<Handler>>,
    token: Seq<char>,
    path: Seq<char>,
) -> ResponseView {
    match Method::parse(token) {
        Some(method) => answer_of(routes, method, path),
        None => Response::spec_not_found(),
    }
}

impl RouteTable<Handler> {
    /// Answers a request.
    pub fn serve(&self, method: Method, path: &str) -> (response: Response)
        ensures
            response@ == answer_of(self@, method, path@),
    {
        match self.lookup(method, path) {
            Some(handler) => handler.respond(),
            None => Response::not_found(),
        }
    }

    /// Answers a request whose method is given by its token.
    pub fn answer(&self, token: &str, path: &str) -> (response: Response)
        ensures
            response@ == answer_of_token(self@, token@, path@),
    {
        match Method::from_token(token) {
            Some(method) => self.serve(method, path),
            None => Response::not_found(),
        }
    }
}

/// The routes of the user resource.
pub fn user_routes() -> (table: RouteTable<Handler>)
    ensures
        table@ == declared_user_routes(),
{
    let mut table = RouteTable::new();
    proof {
        lemma_resource_path_lengths();
    }
    table.route(Method::Post, "/create", Handler::Index).unwrap();
    table.route(Method::Post, "/login", Handler::Index).unwrap();
    table.route(Method::Get, "/info", Handler::Index).unwrap();
    table.route(Method::Get, "/update_password", Handler::Index).unwrap();
    table
}

/// The routes of the product resource.
pub fn product_routes() -> (table: RouteTable<Handler>)
    ensures
        table@ == declared_product_routes(),
{
    let mut table = RouteTable::new();
    proof {
        lemma_resource_path_lengths();
    }
    table.route(Method::Get, "/list", Handler::Index).unwrap();
    table.route(Method::Get, "/detail", Handler::Index).unwrap();
    table
}

/// The routes under the API prefix: the payment parameters, and the user
/// and product resources nested under their own prefixes.
pub fn api_routes() -> (table: RouteTable<Handler>)
    ensures
        table@ == declared_api_routes(),
{
    let mut table = RouteTable::new();
    proof {
        lemma_user_paths();
        lemma_product_paths();
        lemma_api_path_lengths();
    }
    table.route(Method::Post, "/pay/get_pay_params", Handler::Index).unwrap();
    table.nest("/user", user_routes()).unwrap();
    table.nest("/product", product_routes()).unwrap();
    table
}

/// The whole route tree: the index page, and the API nested under its prefix.
pub fn app_routes() -> (table: RouteTable<Handler>)
    ensures
        table@ == declared_routes(),
{
    let mut table = RouteTable::new();
    proof {
        lemma_api_paths();
        lemma_full_path_lengths();
    }
    table.route(Method::Get, "/", Handler::Index).unwrap();
    table.nest("/api", api_routes()).unwrap();
    table
}

} // verus!
