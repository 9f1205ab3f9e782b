use api::routes::{ping_body, respond, version, Method};

#[test]
fn test_version_returns_package_version() {
    let response = respond(Method::Get, "/version");
    assert_eq!(response.status, 200);
    assert_eq!(response.body, "0.1.0");
}

#[test]
fn test_get_ping_pongs() {
    let response = respond(Method::Get, "/ping");
    assert_eq!(response.status, 200);
    assert_eq!(response.body, "PONG");
}

#[test]
fn test_get_unknown_is_not_found() {
    let response = respond(Method::Get, "/unknown");
    assert_eq!(response.status, 404);
}

#[test]
fn test_post_ping_is_method_not_allowed() {
    let response = respond(Method::Post, "/ping");
    assert_eq!(response.status, 405);
}

#[test]
fn test_every_other_method_on_registered_paths_is_405() {
    let methods = [
        Method::Post,
        Method::Put,
        Method::Delete,
        Method::Head,
        Method::Options,
        Method::Patch,
        Method::Trace,
        Method::Connect,
    ];
    for path in ["/ping", "/version"] {
        for method in methods {
            let response = respond(method, path);
            assert_eq!(response.status, 405);
            assert_eq!(response.body, "");
        }
    }
}

#[test]
fn test_paths_outside_the_registered_ones_are_404() {
    for path in ["/", "", "/pin", "/pings", "/ping/", "/VERSION", "/health", "ping"] {
        for method in [Method::Get, Method::Post, Method::Delete] {
            let response = respond(method, path);
            assert_eq!(response.status, 404);
            assert_eq!(response.body, "");
        }
    }
}

#[test]
fn test_version_body_has_no_surrounding_whitespace() {
    let response = respond(Method::Get, "/version");
    assert_eq!(response.body, response.body.trim());
    assert_eq!(response.body.as_bytes(), b"0.1.0");
}

#[test]
fn test_handlers_return_their_constants() {
    assert_eq!(ping_body(), "PONG");
    assert_eq!(version(), "0.1.0");
}
