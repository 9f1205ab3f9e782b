//! Routing rules for the service: which (method, path) pairs are registered,
//! and what status and body each request receives.

use vstd::prelude::*;

verus! {

/// The HTTP request methods the router distinguishes. Dispatch only asks
/// whether the method is `GET`; every other method is grouped by name so a
/// caller can hand the request over without loss.
#[derive(Clone, Copy)]
pub enum Method {
    Get,
    Post,
    Put,
    Delete,
    Head,
    Options,
    Patch,
    Trace,
    Connect,
}

/// The build-embedded semantic version of the service, as a sequence of
/// characters. It is fixed at build time and equals the package version.
pub open spec fn spec_version() -> Seq<char> {
    "0.1.0"@
}

/// The version the running binary reports: a constant resolved at build time,
/// so the binary is self-describing without runtime configuration.
pub fn version() -> (r: &'static str)
    ensures
        r@ == spec_version(),
{
    "0.1.0"
}

/// The liveness probe's body.
pub fn ping_body() -> (r: &'static str)
    ensures
        r@ == "PONG"@,
{
    "PONG"
}

/// An HTTP response as the router produces it: a status code and a plain-text
/// body.
pub struct Response {
    pub status: u16,
    pub body: String,
}

/// A path is registered exactly if some method is routed on it.
pub open spec fn is_registered_path(path: Seq<char>) -> bool {
    path == "/ping"@ || path == "/version"@
}

/// The status the router answers with: 200 for `GET` on a registered path,
/// 405 for any other method on a registered path, 404 everywhere else.
pub open spec fn spec_status(method: Method, path: Seq<char>) -> int {
    if !is_registered_path(path) {
        404
    } else if method is Get {
        200
    } else {
        405
    }
}

/// The body the router answers with: `PONG` on `GET /ping`, the build version
/// on `GET /version`, and empty on every rejected request.
pub open spec fn spec_body(method: Method, path: Seq<char>) -> Seq<char> {
    if method is Get && path == "/ping"@ {
        "PONG"@
    } else if method is Get && path == "/version"@ {
        spec_version()
    } else {
        Seq::<char>::empty()
    }
}

/// Character-for-character equality of two string slices.
fn str_eq(a: &str, b: &str) -> (r: bool)
    ensures
        r == (a@ == b@),
{
    let sa: String = a.to_owned();
    let sb: String = b.to_owned();
    sa == sb
}

/// The router: maps a request's method and path to the full response. Every
/// request gets an answer; the contract pins its status and body exactly.
pub fn respond(method: Method, path: &str) -> (r: Response)
    ensures
        r.status == spec_status(method, path@),
        r.body@ == spec_body(method, path@),
{
    let is_get = matches!(method, Method::Get);
    if str_eq(path, "/ping") {
        if is_get {
            Response { status: 200, body: ping_body().to_owned() }
        } else {
            Response { status: 405, body: String::new() }
        }
    } else if str_eq(path, "/version") {
        if is_get {
            Response { status: 200, body: version().to_owned() }
        } else {
            Response { status: 405, body: String::new() }
        }
    } else {
        Response { status: 404, body: String::new() }
    }
}

/// Every `GET /ping` request is answered 200 with the body `PONG`.
pub proof fn lemma_get_ping(method: Method, path: Seq<char>)
    requires
        method is Get,
        path == "/ping"@,
    ensures
        spec_status(method, path) == 200,
        spec_body(method, path) == "PONG"@,
{
}

/// Every `GET /version` request is answered 200 with the build-embedded
/// version string as the body, byte for byte.
pub proof fn lemma_get_version(method: Method, path: Seq<char>)
    requires
        method is Get,
        path == "/version"@,
    ensures
        spec_status(method, path) == 200,
        spec_body(method, path) == spec_version(),
{
    reveal_strlit("/ping");
    reveal_strlit("/version");
    assert(path != "/ping"@) by {
        assert("/ping"@.len() == 5);
        assert("/version"@.len() == 8);
    }
}

/// Every request to a registered path with a method other than `GET` is
/// answered 405, consistently, with an empty body.
pub proof fn lemma_method_not_allowed(method: Method, path: Seq<char>)
    requires
        !(method is Get),
        is_registered_path(path),
    ensures
        spec_status(method, path) == 405,
        spec_body(method, path) == Seq::<char>::empty(),
{
}

/// Every request to a path outside the registered ones is answered 404,
/// whatever its method, with an empty body.
pub proof fn lemma_not_found(method: Method, path: Seq<char>)
    requires
        !is_registered_path(path),
    ensures
        spec_status(method, path) == 404,
        spec_body(method, path) == Seq::<char>::empty(),
{
}

} // verus!
