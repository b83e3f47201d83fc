//! The router: which handler answers a request, by its method and path.

use crate::text::text_eq;
use vstd::prelude::*;

verus! {

/// Where a request goes.
#[derive(Clone, Copy, Debug, PartialEq, Eq, Structural)]
pub enum Route {
    /// The health probe: any method, first path segment `health`.
    Health,
    /// The query: `GET`, first path segment `query`.
    Query,
    /// The greeting page: any other `GET`. The header log runs before it.
    Hello,
    /// No handler takes the request: it is answered with status 405.
    MethodNotAllowed,
}

impl Route {
    /// Whether the header log runs before the handler.
    pub open spec fn logs_headers_spec(self) -> bool {
        self == Route::Hello
    }

    /// Whether the header log runs before the handler: it does for the
    /// greeting page, and for no other route.
    #[verifier::when_used_as_spec(logs_headers_spec)]
    pub fn logs_headers(self) -> (logs: bool)
        ensures
            logs == self.logs_headers_spec(),
    {
        match self {
            Route::Hello => true,
            _ => false,
        }
    }
}

/// The path without the slash that it starts with.
pub open spec fn after_root(path: Seq<char>) -> Seq<char> {
    if path.len() > 0 && path[0] == '/' {
        path.skip(1)
    } else {
        path
    }
}

/// The position of the first slash in `text`, or its length if it has none.
pub open spec fn first_slash(text: Seq<char>) -> int
    decreases text.len(),
{
    if text.len() == 0 || text[0] == '/' {
        0
    } else {
        1 + first_slash(text.skip(1))
    }
}

/// The first segment of a path: what stands between the leading slash and
/// the next one.
pub open spec fn first_segment(path: Seq<char>) -> Seq<char> {
    after_root(path).take(first_slash(after_root(path)))
}

/// The route of a request, by method and path.
pub open spec fn route_of(method: Seq<char>, path: Seq<char>) -> Route {
    if first_segment(path) == "health"@ {
        Route::Health
    } else if method != "GET"@ {
        Route::MethodNotAllowed
    } else if first_segment(path) == "query"@ {
        Route::Query
    } else {
        Route::Hello
    }
}

/// `first_slash` is the one position that has a slash, or the end, behind
/// characters that are none.
pub proof fn lemma_first_slash(text: Seq<char>, at: int)
    requires
        0 <= at <= text.len(),
        forall|j: int| 0 <= j < at ==> text[j] != '/',
        at < text.len() ==> text[at] == '/',
    ensures
        first_slash(text) == at,
    decreases at,
{
    if at > 0 {
        lemma_first_slash(text.skip(1), at - 1);
    }
}

/// `first_slash` lies within the text, with no slash in front of it and one
/// at it, unless it is the end.
pub proof fn lemma_first_slash_bounds(text: Seq<char>)
    ensures
        0 <= first_slash(text) <= text.len(),
        forall|j: int| 0 <= j < first_slash(text) ==> text[j] != '/',
        first_slash(text) < text.len() ==> text[first_slash(text)] == '/',
    decreases text.len(),
{
    if text.len() > 0 && text[0] != '/' {
        let rest = text.skip(1);
        lemma_first_slash_bounds(rest);
        assert forall|j: int| 0 <= j < first_slash(text) implies text[j] != '/' by {
            if j > 0 {
                assert(rest[j - 1] != '/');
            }
        }
    }
}

/// The first segment of a path is `name`, a name without slash, exactly if
/// the path behind its leading slash starts with `name` and then ends or
/// goes on with a slash.
pub proof fn lemma_first_segment_is(path: Seq<char>, name: Seq<char>)
    requires
        forall|j: int| 0 <= j < name.len() ==> name[j] != '/',
    ensures
        first_segment(path) == name <==> {
            let rest = after_root(path);
            &&& name.len() <= rest.len()
            &&& rest.take(name.len() as int) == name
            &&& (rest.len() == name.len() || rest[name.len() as int] == '/')
        },
{
    let rest = after_root(path);
    let n = name.len() as int;
    lemma_first_slash_bounds(rest);
    if n <= rest.len() && rest.take(n) == name && (rest.len() == n || rest[n] == '/') {
        assert forall|j: int| 0 <= j < n implies rest[j] != '/' by {
            assert(rest.take(n)[j] == name[j]);
        }
        lemma_first_slash(rest, n);
    }
}

/// Whether the first segment of `path` is `name`.
fn first_segment_is(path: &str, name: &str) -> (is: bool)
    requires
        forall|j: int| 0 <= j < name@.len() ==> name@[j] != '/',
    ensures
        is == (first_segment(path@) == name@),
{
    proof {
        lemma_first_segment_is(path@, name@);
    }
    let len = path.unicode_len();
    let width = name.unicode_len();
    let start: usize = if len > 0 && path.get_char(0) == '/' {
        1
    } else {
        0
    };
    if len - start < width {
        return false;
    }
    let head = path.substring_char(start, start + width);
    proof {
        assert(path@.subrange(start as int, start + width) =~= after_root(path@).take(
            width as int,
        ));
    }
    if !text_eq(head, name) {
        return false;
    }
    len == start + width || path.get_char(start + width) == '/'
}

/// Finds the handler for a request. `method` is the request's method as it
/// was sent (`GET`, `POST`, ...), `path` the path of its target, without the
/// query. The health probe takes every method; the query and the greeting
/// page take `GET` alone, and the greeting page every path that no other
/// handler takes.
pub fn route(method: &str, path: &str) -> (found: Route)
    ensures
        found == route_of(method@, path@),
{
    proof {
        reveal_strlit("health");
        reveal_strlit("query");
    }
    if first_segment_is(path, "health") {
        Route::Health
    } else if !text_eq(method, "GET") {
        Route::MethodNotAllowed
    } else if first_segment_is(path, "query") {
        Route::Query
    } else {
        Route::Hello
    }
}

/// The health probe answers under every method: a path whose first segment
/// is `health` goes to it, whatever the method.
pub proof fn lemma_health_takes_every_method(method: Seq<char>, other: Seq<char>, path: Seq<char>)
    ensures
        route_of(method, path) == Route::Health <==> route_of(other, path) == Route::Health,
        first_segment(path) == "health"@ ==> route_of(method, path) == Route::Health,
{
}

/// A request finds a handler unless its method is not `GET` and its path is
/// not the health probe's; no request is left without an answer.
pub proof fn lemma_route_total(method: Seq<char>, path: Seq<char>)
    ensures
        route_of(method, path) == Route::MethodNotAllowed <==> method != "GET"@ && first_segment(
            path,
        ) != "health"@,
        method == "GET"@ ==> route_of(method, path) != Route::MethodNotAllowed,
{
    reveal_strlit("health");
    reveal_strlit("query");
}

} // verus!
