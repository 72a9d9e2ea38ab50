use api_edge::method::Method;
use api_edge::text::str_eq;

#[test]
fn every_method_has_its_token() {
    assert_eq!(Method::Get.as_str(), "GET");
    assert_eq!(Method::Post.as_str(), "POST");
    assert_eq!(Method::Put.as_str(), "PUT");
    assert_eq!(Method::Delete.as_str(), "DELETE");
    assert_eq!(Method::Head.as_str(), "HEAD");
    assert_eq!(Method::Options.as_str(), "OPTIONS");
    assert_eq!(Method::Patch.as_str(), "PATCH");
    assert_eq!(Method::Trace.as_str(), "TRACE");
    assert_eq!(Method::Connect.as_str(), "CONNECT");
}

#[test]
fn every_method_is_read_back_from_its_token() {
    let all = vec![
        Method::Get,
        Method::Post,
        Method::Put,
        Method::Delete,
        Method::Head,
        Method::Options,
        Method::Patch,
        Method::Trace,
        Method::Connect,
    ];
    for method in all {
        assert_eq!(Method::from_token(method.as_str()), Some(method));
    }
}

#[test]
fn other_tokens_name_no_method() {
    assert_eq!(Method::from_token(""), None);
    assert_eq!(Method::from_token("get"), None);
    assert_eq!(Method::from_token("Get"), None);
    assert_eq!(Method::from_token("GET "), None);
    assert_eq!(Method::from_token("GETS"), None);
    assert_eq!(Method::from_token("PROPFIND"), None);
}

#[test]
fn str_eq_compares_characters() {
    assert!(str_eq("", ""));
    assert!(str_eq("/api", "/api"));
    assert!(!str_eq("/api", "/apj"));
    assert!(!str_eq("/api", "/api/"));
    assert!(!str_eq("/api/", "/api"));
    assert!(!str_eq("", "/"));
    assert!(str_eq("/caf\u{e9}", "/caf\u{e9}"));
    assert!(!str_eq("/caf\u{e9}", "/cafe"));
}
