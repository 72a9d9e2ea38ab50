//! The routes the service declares: the index page, and under `/api` the
//! payment parameters and the user and product resources.

use vstd::prelude::*;
use crate::method::Method;
use crate::routes::{binds, distinct, nested, RouteSpec};
use crate::service::Handler;

verus! {

/// A route to the index handler.
pub open spec fn index_route(method: Method, path: Seq<char>) -> RouteSpec<Handler> {
    RouteSpec { method, path, handler: Handler::Index }
}

/// The routes of the user resource, before nesting.
pub open spec fn declared_user_routes() -> Seq<RouteSpec<Handler>> {
    seq![
        index_route(Method::Post, "/create"@),
        index_route(Method::Post, "/login"@),
        index_route(Method::Get, "/info"@),
        index_route(Method::Get, "/update_password"@),
    ]
}

/// The routes of the product resource, before nesting.
pub open spec fn declared_product_routes() -> Seq<RouteSpec<Handler>> {
    seq![index_route(Method::Get, "/list"@), index_route(Method::Get, "/detail"@)]
}

/// The routes under the API prefix, before nesting.
pub open spec fn declared_api_routes() -> Seq<RouteSpec<Handler>> {
    seq![
        index_route(Method::Post, "/pay/get_pay_params"@),
        index_route(Method::Post, "/user/create"@),
        index_route(Method::Post, "/user/login"@),
        index_route(Method::Get, "/user/info"@),
        index_route(Method::Get, "/user/update_password"@),
        index_route(Method::Get, "/product/list"@),
        index_route(Method::Get, "/product/detail"@),
    ]
}

/// Every route the service declares, with its full path.
pub open spec fn declared_routes() -> Seq<RouteSpec<Handler>> {
    seq![
        index_route(Method::Get, "/"@),
        index_route(Method::Post, "/api/pay/get_pay_params"@),
        index_route(Method::Post, "/api/user/create"@),
        index_route(Method::Post, "/api/user/login"@),
        index_route(Method::Get, "/api/user/info"@),
        index_route(Method::Get, "/api/user/update_password"@),
        index_route(Method::Get, "/api/product/list"@),
        index_route(Method::Get, "/api/product/detail"@),
    ]
}

/// The (method, path) pairs the service declares.
pub open spec fn is_declared(method: Method, path: Seq<char>) -> bool {
    ||| method == Method::Get && path == "/"@
    ||| method == Method::Post && path == "/api/pay/get_pay_params"@
    ||| method == Method::Post && path == "/api/user/create"@
    ||| method == Method::Post && path == "/api/user/login"@
    ||| method == Method::Get && path == "/api/user/info"@
    ||| method == Method::Get && path == "/api/user/update_password"@
    ||| method == Method::Get && path == "/api/product/list"@
    ||| method == Method::Get && path == "/api/product/detail"@
}

/// How long each path of the user and product resources is.
pub proof fn lemma_resource_path_lengths()
    ensures
        "/create"@.len() == 7,
        "/login"@.len() == 6,
        "/info"@.len() == 5,
        "/update_password"@.len() == 16,
        "/list"@.len() == 5,
        "/detail"@.len() == 7,
{
    reveal_strlit("/create");
    reveal_strlit("/login");
    reveal_strlit("/info");
    reveal_strlit("/update_password");
    reveal_strlit("/list");
    reveal_strlit("/detail");
}

/// How long each path under the API prefix is.
pub proof fn lemma_api_path_lengths()
    ensures
        "/pay/get_pay_params"@.len() == 19,
        "/user/create"@.len() == 12,
        "/user/login"@.len() == 11,
        "/user/info"@.len() == 10,
        "/user/update_password"@.len() == 21,
        "/product/list"@.len() == 13,
        "/product/detail"@.len() == 15,
{
    reveal_strlit("/pay/get_pay_params");
    reveal_strlit("/user/create");
    reveal_strlit("/user/login");
    reveal_strlit("/user/info");
    reveal_strlit("/user/update_password");
    reveal_strlit("/product/list");
    reveal_strlit("/product/detail");
}

/// How long each full path is.
pub proof fn lemma_full_path_lengths()
    ensures
        "/"@.len() == 1,
        "/api/pay/get_pay_params"@.len() == 23,
        "/api/user/create"@.len() == 16,
        "/api/user/login"@.len() == 15,
        "/api/user/info"@.len() == 14,
        "/api/user/update_password"@.len() == 25,
        "/api/product/list"@.len() == 17,
        "/api/product/detail"@.len() == 19,
{
    reveal_strlit("/");
    reveal_strlit("/api/pay/get_pay_params");
    reveal_strlit("/api/user/create");
    reveal_strlit("/api/user/login");
    reveal_strlit("/api/user/info");
    reveal_strlit("/api/user/update_password");
    reveal_strlit("/api/product/list");
    reveal_strlit("/api/product/detail");
}

/// The paths of the user resource under its prefix.
pub proof fn lemma_user_paths()
    ensures
        "/user"@ + "/create"@ == "/user/create"@,
        "/user"@ + "/login"@ == "/user/login"@,
        "/user"@ + "/info"@ == "/user/info"@,
        "/user"@ + "/update_password"@ == "/user/update_password"@,
{
    reveal_strlit("/user");
    reveal_strlit("/create");
    reveal_strlit("/login");
    reveal_strlit("/info");
    reveal_strlit("/update_password");
    reveal_strlit("/user/create");
    reveal_strlit("/user/login");
    reveal_strlit("/user/info");
    reveal_strlit("/user/update_password");
}

/// The paths of the product resource under its prefix.
pub proof fn lemma_product_paths()
    ensures
        "/product"@ + "/list"@ == "/product/list"@,
        "/product"@ + "/detail"@ == "/product/detail"@,
{
    reveal_strlit("/product");
    reveal_strlit("/list");
    reveal_strlit("/detail");
    reveal_strlit("/product/list");
    reveal_strlit("/product/detail");
}

/// The full paths of the routes under the API prefix.
pub proof fn lemma_api_paths()
    ensures
        "/api"@ + "/pay/get_pay_params"@ == "/api/pay/get_pay_params"@,
        "/api"@ + "/user/create"@ == "/api/user/create"@,
        "/api"@ + "/user/login"@ == "/api/user/login"@,
        "/api"@ + "/user/info"@ == "/api/user/info"@,
        "/api"@ + "/user/update_password"@ == "/api/user/update_password"@,
        "/api"@ + "/product/list"@ == "/api/product/list"@,
        "/api"@ + "/product/detail"@ == "/api/product/detail"@,
{
    reveal_strlit("/api");
    reveal_strlit("/pay/get_pay_params");
    reveal_strlit("/user/create");
    reveal_strlit("/user/login");
    reveal_strlit("/user/info");
    reveal_strlit("/user/update_password");
    reveal_strlit("/product/list");
    reveal_strlit("/product/detail");
    reveal_strlit("/api/pay/get_pay_params");
    reveal_strlit("/api/user/create");
    reveal_strlit("/api/user/login");
    reveal_strlit("/api/user/info");
    reveal_strlit("/api/user/update_password");
    reveal_strlit("/api/product/list");
    reveal_strlit("/api/product/detail");
}

/// The routes under the API prefix are the payment parameters, then the
/// user routes under `/user`, then the product routes under `/product`.
pub proof fn lemma_api_routes_nest()
    ensures
        declared_api_routes() == seq![index_route(Method::Post, "/pay/get_pay_params"@)] + nested(
            "/user"@,
            declared_user_routes(),
        ) + nested("/product"@, declared_product_routes()),
{
    lemma_user_paths();
    lemma_product_paths();
    assert(declared_api_routes() =~= seq![index_route(Method::Post, "/pay/get_pay_params"@)]
        + nested("/user"@, declared_user_routes()) + nested(
        "/product"@,
        declared_product_routes(),
    ));
}

/// The declared routes are the index page, then the API routes under `/api`.
pub proof fn lemma_declared_routes_nest()
    ensures
        declared_routes() == seq![index_route(Method::Get, "/"@)] + nested(
            "/api"@,
            declared_api_routes(),
        ),
{
    lemma_api_paths();
    assert(declared_routes() =~= seq![index_route(Method::Get, "/"@)] + nested(
        "/api"@,
        declared_api_routes(),
    ));
}

/// No two declared routes share a method and a path.
pub proof fn lemma_declared_routes_distinct()
    ensures
        distinct(declared_routes()),
{
    lemma_full_path_lengths();
}

/// The declared routes bind exactly the declared pairs.
pub proof fn lemma_declared_routes_bind(method: Method, path: Seq<char>)
    ensures
        binds(declared_routes(), method, path) <==> is_declared(method, path),
{
    let routes = declared_routes();
    if is_declared(method, path) {
        assert(routes[0].serves(method, path) || routes[1].serves(method, path)
            || routes[2].serves(method, path) || routes[3].serves(method, path)
            || routes[4].serves(method, path) || routes[5].serves(method, path)
            || routes[6].serves(method, path) || routes[7].serves(method, path));
    }
}

} // verus!
