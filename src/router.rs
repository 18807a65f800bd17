//! The dispatch rule that picks the handler for a request.
use vstd::prelude::*;
use crate::request::{Method, Request, Resource};
use crate::text::{chars_of, find_char, first_index, has_char, sub_chars};

verus! {

/// The kind of handler that serves a request.
#[derive(Debug, Clone, Copy, PartialEq, Eq, Structural)]
pub enum Route {
    /// The web-service handler.
    Api,
    /// The static-page handler.
    Static,
    /// The not-found handler.
    NotFound,
}

/// `s` up to its first `c`, or all of it where it has none.
pub open spec fn until(s: Seq<char>, c: char) -> Seq<char> {
    if has_char(s, c) {
        s.subrange(0, first_index(s, c))
    } else {
        s
    }
}

/// The second piece of a path split at `/`: what lies between its first slash and
/// the next one; empty where the path has no slash.
pub open spec fn second_segment(p: Seq<char>) -> Seq<char> {
    if has_char(p, '/') {
        until(p.subrange(first_index(p, '/') + 1, p.len() as int), '/')
    } else {
        Seq::empty()
    }
}

/// The handler for a request: a `GET` whose second path segment is `api` goes to
/// the web service, any other `GET` to the static pages, any other method to
/// not-found.
pub open spec fn route_of(method: Method, path: Seq<char>) -> Route {
    if method == Method::Get {
        if second_segment(path) == seq!['a', 'p', 'i'] {
            Route::Api
        } else {
            Route::Static
        }
    } else {
        Route::NotFound
    }
}

/// Whatever the path, a request whose method is not `GET` goes to the
/// not-found handler; a `GET` never does.
pub proof fn non_get_is_not_found(method: Method, path: Seq<char>)
    ensures
        (route_of(method, path) == Route::NotFound) <==> (method != Method::Get),
{
}

/// The second piece of a path split at `/`.
fn path_segment(p: &Vec<char>) -> (r: Vec<char>)
    ensures
        r@ == second_segment(p@),
{
    match find_char(p, '/') {
        Some(i) => {
            let n = p.len();
            let rest = sub_chars(p, i + 1, n);
            match find_char(&rest, '/') {
                Some(j) => sub_chars(&rest, 0, j),
                None => rest,
            }
        },
        None => Vec::new(),
    }
}

/// Picks handlers for requests.
pub struct Router;

impl Router {
    /// The handler that serves `req`.
    pub fn route(req: &Request) -> (r: Route)
        ensures
            r == route_of(req.method, req.resource.path()),
    {
        match req.method {
            Method::Get => {
                let path = match &req.resource {
                    Resource::Path(p) => chars_of(p.as_str()),
                };
                let seg = path_segment(&path);
                if seg.len() == 3 && seg[0] == 'a' && seg[1] == 'p' && seg[2] == 'i' {
                    assert(seg@ =~= seq!['a', 'p', 'i']);
                    Route::Api
                } else {
                    Route::Static
                }
            },
            _ => Route::NotFound,
        }
    }
}

} // verus!
