use rocket_newrelic::RouteInfo;
use rocket_newrelic::naming::strip_leading_slashes;
use rocket_newrelic::transaction_name;

fn route(base: &str, handler: Option<&str>) -> RouteInfo {
    RouteInfo { base: base.to_string(), handler: handler.map(|h| h.to_string()) }
}

#[test]
fn named_route_uses_base_and_handler() {
    let r = route("/users", Some("list"));
    assert_eq!(transaction_name(Some(&r)), "users/list");
}

#[test]
fn route_without_handler_uses_placeholder() {
    let r = route("/users", None);
    assert_eq!(transaction_name(Some(&r)), "users/unknown_handler");
}

#[test]
fn no_route_is_all_placeholder() {
    assert_eq!(transaction_name(None), "unknown_handler");
}

#[test]
fn nested_base_keeps_inner_slashes() {
    let r = route("/api/v1/users", Some("create"));
    assert_eq!(transaction_name(Some(&r)), "api/v1/users/create");
}

#[test]
fn base_without_leading_slash_is_kept() {
    let r = route("users", Some("list"));
    assert_eq!(transaction_name(Some(&r)), "users/list");
}

#[test]
fn repeated_leading_slashes_are_all_stripped() {
    let r = route("///users", Some("list"));
    assert_eq!(transaction_name(Some(&r)), "users/list");
}

#[test]
fn root_base_gives_bare_handler() {
    let r = route("/", Some("index"));
    assert_eq!(transaction_name(Some(&r)), "/index");
}

#[test]
fn empty_base_gives_bare_handler() {
    let r = route("", Some("index"));
    assert_eq!(transaction_name(Some(&r)), "/index");
}

#[test]
fn strip_leaves_plain_text_alone() {
    assert_eq!(strip_leading_slashes("users"), "users");
}

#[test]
fn strip_removes_every_leading_slash() {
    assert_eq!(strip_leading_slashes("//a/b/"), "a/b/");
}

#[test]
fn strip_of_only_slashes_is_empty() {
    assert_eq!(strip_leading_slashes("///"), "");
}

#[test]
fn strip_of_empty_is_empty() {
    assert_eq!(strip_leading_slashes(""), "");
}
