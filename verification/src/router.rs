//! Route selection: an exact method-and-path match against the routing
//! table, with everything unmatched falling through to the default handler.

use vstd::prelude::*;
use crate::method::Method;

verus! {

/// The handler that answers a request: one of the three routed endpoints,
/// or the default handler for everything else.
#[derive(Clone, Copy, Debug, PartialEq, Eq, Structural)]
pub enum Route {
    Root,
    Ping,
    Health,
    NotFound,
}

/// The routing table: `GET /`, `GET /ping` and `GET /health` each have a
/// handler; any other method or path is answered by the default handler.
pub open spec fn route_spec(m: Method, path: Seq<char>) -> Route {
    if m == Method::Get && path == "/"@ {
        Route::Root
    } else if m == Method::Get && path == "/ping"@ {
        Route::Ping
    } else if m == Method::Get && path == "/health"@ {
        Route::Health
    } else {
        Route::NotFound
    }
}

/// The default handler answers exactly the requests that no route matches:
/// every method other than `GET`, and every path other than the three
/// routed ones.
pub proof fn lemma_not_found_characterization(m: Method, path: Seq<char>)
    ensures
        route_spec(m, path) == Route::NotFound <==> !(m == Method::Get && (path == "/"@
            || path == "/ping"@ || path == "/health"@)),
{
}

/// Equality of two string slices, decided by their character sequences.
fn str_eq(a: &str, b: &str) -> (r: bool)
    ensures
        r == (a@ == b@),
{
    let sa: String = a.to_owned();
    let sb: String = b.to_owned();
    sa == sb
}

/// Select the handler for a request, by exact method-and-path match.
pub fn route(m: Method, path: &str) -> (r: Route)
    ensures
        r == route_spec(m, path@),
{
    if m.is_get() {
        if str_eq(path, "/") {
            Route::Root
        } else if str_eq(path, "/ping") {
            Route::Ping
        } else if str_eq(path, "/health") {
            Route::Health
        } else {
            Route::NotFound
        }
    } else {
        Route::NotFound
    }
}

} // verus!
