use api_edge::method::Method;
use api_edge::response::{ContentType, Response, Status};
use api_edge::service::{
    api_routes, app_routes, product_routes, user_routes, Handler, BIND_HOST, BIND_PORT,
};

fn index() -> Response {
    Response {
        status: Status::Success,
        content_type: Some(ContentType::TextPlain),
        body: "index".to_string(),
    }
}

#[test]
fn get_root_answers_index() {
    let response = app_routes().serve(Method::Get, "/");
    assert_eq!(response.status.code(), 200);
    assert_eq!(response.body, "index");
}

#[test]
fn post_user_create_answers_index() {
    let response = app_routes().serve(Method::Post, "/api/user/create");
    assert_eq!(response.status.code(), 200);
    assert_eq!(response.body, "index");
}

#[test]
fn get_update_password_answers_index() {
    let response = app_routes().serve(Method::Get, "/api/user/update_password");
    assert_eq!(response.status.code(), 200);
    assert_eq!(response.body, "index");
    let response = app_routes().serve(Method::Post, "/api/user/update_password");
    assert_eq!(response.status.code(), 404);
}

#[test]
fn get_unknown_path_answers_not_found() {
    let response = app_routes().serve(Method::Get, "/api/unknown");
    assert_eq!(response.status.code(), 404);
    assert_eq!(response.status, Status::NotFound);
    assert_eq!(response.content_type, None);
    assert_eq!(response.body, "");
}

#[test]
fn handlers_answer_in_plain_text() {
    let response = app_routes().serve(Method::Get, "/api/user/info");
    assert_eq!(response.content_type, Some(ContentType::TextPlain));
    assert_eq!(ContentType::TextPlain.name(), "text/plain");
}

#[test]
fn all_declared_pairs_answer_index() {
    let table = app_routes();
    let declared = vec![
        (Method::Get, "/"),
        (Method::Post, "/api/pay/get_pay_params"),
        (Method::Post, "/api/user/create"),
        (Method::Post, "/api/user/login"),
        (Method::Get, "/api/user/info"),
        (Method::Get, "/api/user/update_password"),
        (Method::Get, "/api/product/list"),
        (Method::Get, "/api/product/detail"),
    ];
    assert_eq!(table.len(), declared.len());
    for (i, (method, path)) in declared.into_iter().enumerate() {
        assert_eq!(table.serve(method, path), index());
        assert_eq!(table.lookup(method, path), Some(&Handler::Index));
        let route = table.get(i).unwrap();
        assert_eq!(route.method, method);
        assert_eq!(route.path, path);
        assert_eq!(route.handler, Handler::Index);
    }
}

#[test]
fn declared_paths_under_another_method_are_not_found() {
    let table = app_routes();
    let undeclared = vec![
        (Method::Post, "/"),
        (Method::Get, "/api/pay/get_pay_params"),
        (Method::Get, "/api/user/create"),
        (Method::Get, "/api/user/login"),
        (Method::Post, "/api/user/info"),
        (Method::Post, "/api/user/update_password"),
        (Method::Post, "/api/product/list"),
        (Method::Post, "/api/product/detail"),
        (Method::Put, "/"),
        (Method::Delete, "/api/user/info"),
        (Method::Head, "/"),
        (Method::Options, "/"),
        (Method::Patch, "/api/user/update_password"),
        (Method::Trace, "/"),
        (Method::Connect, "/"),
    ];
    for (method, path) in undeclared {
        let response = table.serve(method, path);
        assert_eq!(response.status.code(), 404);
        assert_eq!(response.body, "");
    }
}

#[test]
fn undeclared_paths_are_not_found() {
    let table = app_routes();
    let paths = vec![
        "",
        "/api",
        "/api/",
        "/api/user",
        "/api/user/",
        "/api/user/create/",
        "/user/create",
        "/create",
        "/api/product",
        "/api/product/list/1",
        "/apiuser/create",
        "/api//user/create",
        "/API/USER/CREATE",
        "/index",
        "//",
    ];
    for path in paths {
        assert_eq!(table.serve(Method::Get, path).status.code(), 404);
        assert_eq!(table.serve(Method::Post, path).status.code(), 404);
    }
}

#[test]
fn answer_reads_the_method_token() {
    let table = app_routes();
    assert_eq!(table.answer("GET", "/"), index());
    assert_eq!(table.answer("POST", "/api/user/login"), index());
    assert_eq!(table.answer("GET", "/api/product/detail"), index());
    assert_eq!(table.answer("POST", "/").status.code(), 404);
    assert_eq!(table.answer("get", "/").status.code(), 404);
    assert_eq!(table.answer("", "/").status.code(), 404);
    assert_eq!(table.answer("PROPFIND", "/").status.code(), 404);
    assert_eq!(table.answer("GET", "/api/unknown").status.code(), 404);
}

#[test]
fn index_handler_answers_index() {
    assert_eq!(Handler::Index.respond(), index());
}

#[test]
fn user_routes_are_declared_without_prefix() {
    let table = user_routes();
    assert_eq!(table.len(), 4);
    assert_eq!(table.lookup(Method::Post, "/create"), Some(&Handler::Index));
    assert_eq!(table.lookup(Method::Post, "/login"), Some(&Handler::Index));
    assert_eq!(table.lookup(Method::Get, "/info"), Some(&Handler::Index));
    assert_eq!(table.lookup(Method::Get, "/update_password"), Some(&Handler::Index));
    assert_eq!(table.lookup(Method::Post, "/api/user/create"), None);
}

#[test]
fn product_routes_are_declared_without_prefix() {
    let table = product_routes();
    assert_eq!(table.len(), 2);
    assert_eq!(table.lookup(Method::Get, "/list"), Some(&Handler::Index));
    assert_eq!(table.lookup(Method::Get, "/detail"), Some(&Handler::Index));
    assert_eq!(table.lookup(Method::Post, "/list"), None);
}

#[test]
fn api_routes_nest_users_and_products() {
    let table = api_routes();
    assert_eq!(table.len(), 7);
    assert_eq!(table.get(0).unwrap().path, "/pay/get_pay_params");
    assert_eq!(table.get(1).unwrap().path, "/user/create");
    assert_eq!(table.get(4).unwrap().path, "/user/update_password");
    assert_eq!(table.get(5).unwrap().path, "/product/list");
    assert_eq!(table.get(6).unwrap().path, "/product/detail");
    assert_eq!(table.lookup(Method::Post, "/pay/get_pay_params"), Some(&Handler::Index));
    assert_eq!(table.lookup(Method::Get, "/"), None);
}

#[test]
fn no_two_declared_routes_collide() {
    let table = app_routes();
    for i in 0..table.len() {
        for j in (i + 1)..table.len() {
            let a = table.get(i).unwrap();
            let b = table.get(j).unwrap();
            assert!(a.method != b.method || a.path != b.path);
        }
    }
}

#[test]
fn service_listens_on_loopback() {
    assert_eq!(BIND_HOST, [127, 0, 0, 1]);
    assert_eq!(BIND_PORT, 3000);
}
