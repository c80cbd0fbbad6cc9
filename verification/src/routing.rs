//! Request dispatch: the routing table of the server.
//!
//! Exactly three (method, path) pairs are served; every other pair falls
//! through to the not-found route.

use vstd::prelude::*;
use vstd::string::*;

verus! {

/// The request methods the routing table distinguishes. Every method other
/// than `GET` and `POST` routes the same way, so one variant stands for all
/// of them.
pub enum Method {
    Get,
    Post,
    Other,
}

/// The route a request is dispatched to.
pub enum Route {
    /// Serve a local file under the given `Content-Type`.
    StaticAsset { file_path: String, content_type: String },
    /// Fetch the URL named in the request body and return its text.
    Article,
    /// No route matches: respond 404.
    NotFound,
}

/// The routing table: which route a (method, path) pair is dispatched to.
pub open spec fn route_spec(m: Method, p: Seq<char>, r: Route) -> bool {
    if m is Get && p == "/"@ {
        r matches Route::StaticAsset { file_path, content_type }
            && file_path@ == "index.html"@
            && content_type@ == "text/html; charset=utf-8"@
    } else if m is Get && p == "/main.css"@ {
        r matches Route::StaticAsset { file_path, content_type }
            && file_path@ == "main.css"@
            && content_type@ == "text/css; charset=utf-8"@
    } else if m is Post && p == "/a"@ {
        r is Article
    } else {
        r is NotFound
    }
}

/// Law: a request whose (method, path) pair matches none of the three rows
/// of the routing table is dispatched to the not-found route — the one the
/// `404`-bodied response of `crate::response::serve_404` answers.
pub proof fn law_unmatched_routes_to_not_found(m: Method, p: Seq<char>, r: Route)
    requires
        route_spec(m, p, r),
        !(m is Get && p == "/"@),
        !(m is Get && p == "/main.css"@),
        !(m is Post && p == "/a"@),
    ensures
        r is NotFound,
{
}

/// The fixed local address the listener binds: loopback, port 1337.
pub fn server_address() -> (s: &'static str)
    ensures
        s@ == "127.0.0.1:1337"@,
{
    "127.0.0.1:1337"
}

/// String equality by character sequence.
fn str_eq(a: &str, b: &str) -> (r: bool)
    ensures
        r == (a@ == b@),
{
    let sa: String = a.to_owned();
    let sb: String = b.to_owned();
    sa == sb
}

/// Dispatches one request: maps its method and path to the route the
/// routing table gives, and to the not-found route for every unmatched
/// pair.
pub fn route_of(method: &Method, path: &str) -> (r: Route)
    ensures
        route_spec(*method, path@, r),
{
    match method {
        Method::Get => {
            if str_eq(path, "/") {
                Route::StaticAsset {
                    file_path: String::from_str("index.html"),
                    content_type: String::from_str("text/html; charset=utf-8"),
                }
            } else if str_eq(path, "/main.css") {
                Route::StaticAsset {
                    file_path: String::from_str("main.css"),
                    content_type: String::from_str("text/css; charset=utf-8"),
                }
            } else {
                Route::NotFound
            }
        },
        Method::Post => {
            if str_eq(path, "/a") {
                Route::Article
            } else {
                Route::NotFound
            }
        },
        Method::Other => Route::NotFound,
    }
}

} // verus!
