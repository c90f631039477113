//! Properties of compiling and routing that hold for every input.

use vstd::prelude::*;
use crate::pattern::{compiled_pattern_of, names_of};
use crate::routing::{
    after_dispatch, first_match, match_outcome, path_matches, route_wf, RouteView,
};

verus! {

/// The route that `first_match` picks from index `i` on matches, and no route
/// between `i` and it does; where it picks none, no route from `i` on matches.
pub proof fn lemma_first_match_is_first(
    routes: Seq<RouteView>,
    method: Seq<char>,
    path: Seq<char>,
    i: int,
)
    requires
        0 <= i,
    ensures
        match first_match(routes, method, path, i) {
            Some((k, p)) => {
                &&& i <= k < routes.len()
                &&& match_outcome(routes[k], method, path) == Some(p)
                &&& forall|j: int| i <= j < k ==> match_outcome(#[trigger] routes[j], method, path) is None
            },
            None => forall|j: int|
                i <= j < routes.len() ==> match_outcome(#[trigger] routes[j], method, path) is None,
        },
    decreases routes.len() - i,
{
    if i < routes.len() {
        lemma_first_match_is_first(routes, method, path, i + 1);
    }
}

/// Two route tables whose routes match alike, place by place, pick the same
/// route.
pub proof fn lemma_first_match_alike(
    a: Seq<RouteView>,
    b: Seq<RouteView>,
    method: Seq<char>,
    path: Seq<char>,
    i: int,
)
    requires
        a.len() == b.len(),
        forall|j: int|
            0 <= j < a.len() ==> match_outcome(#[trigger] a[j], method, path) == match_outcome(
                b[j],
                method,
                path,
            ),
    ensures
        first_match(a, method, path, i) == first_match(b, method, path, i),
    decreases a.len() - i,
{
    if 0 <= i < a.len() {
        lemma_first_match_alike(a, b, method, path, i + 1);
    }
}

/// Compiling one template twice gives the same matcher and the same names,
/// in the same order; routes built from it with the same verbs match every
/// request alike.
pub proof fn lemma_compile_deterministic(
    a: RouteView,
    b: RouteView,
    method: Seq<char>,
    path: Seq<char>,
)
    requires
        route_wf(a),
        route_wf(b),
        a.pattern == b.pattern,
        a.methods == b.methods,
    ensures
        a.compiled == b.compiled,
        a.names == b.names,
        a.compiled == compiled_pattern_of(a.pattern),
        a.names == names_of(a.pattern),
        match_outcome(a, method, path) == match_outcome(b, method, path),
{
}

/// A route for POST alone does not match a GET request even where its path
/// matches, while a route with the same template for GET does, provided its
/// placeholder names are distinct.
pub proof fn lemma_method_gating(post: RouteView, get: RouteView, path: Seq<char>)
    requires
        route_wf(post),
        route_wf(get),
        post.pattern == get.pattern,
        post.methods == seq!["POST"@],
        get.methods == seq!["GET"@],
        path_matches(post, path),
        post.names.no_duplicates(),
    ensures
        match_outcome(post, "GET"@, path) is None,
        match_outcome(get, "GET"@, path) is Some,
{
    reveal_strlit("GET");
    reveal_strlit("POST");
    assert("GET"@ != "POST"@) by {
        assert("GET"@[0] != "POST"@[0]);
    }
    assert(get.methods[0] == "GET"@);
    assert(!post.methods.contains("GET"@)) by {
        if post.methods.contains("GET"@) {
            let j = choose|j: int| 0 <= j < post.methods.len() && post.methods[j] == "GET"@;
            assert(j == 0);
        }
    }
}

/// Where two routes match a request, the router picks one declared no later
/// than the earlier of them.
pub proof fn lemma_first_declared_wins(
    routes: Seq<RouteView>,
    method: Seq<char>,
    path: Seq<char>,
    i: int,
    j: int,
)
    requires
        0 <= i < j < routes.len(),
        match_outcome(routes[i], method, path) is Some,
        match_outcome(routes[j], method, path) is Some,
    ensures
        first_match(routes, method, path, 0) matches Some((k, _)) && k <= i,
{
    lemma_first_match_is_first(routes, method, path, 0);
}

/// Where no route matches (an empty table included), nothing is picked and
/// dispatching leaves the table as it was.
pub proof fn lemma_default_fallthrough(routes: Seq<RouteView>, method: Seq<char>, path: Seq<char>)
    requires
        forall|j: int| 0 <= j < routes.len() ==> match_outcome(#[trigger] routes[j], method, path) is None,
    ensures
        first_match(routes, method, path, 0) is None,
        after_dispatch(routes, method, path) == routes,
{
    lemma_first_match_is_first(routes, method, path, 0);
    if first_match(routes, method, path, 0) is Some {
        let k = first_match(routes, method, path, 0)->Some_0.0;
        assert(match_outcome(routes[k], method, path) is None);
    }
}

/// Dispatching a request a second time picks the same route with the same
/// parameters and leaves the table as the first dispatch left it.
pub proof fn lemma_dispatch_idempotent(routes: Seq<RouteView>, method: Seq<char>, path: Seq<char>)
    ensures
        first_match(after_dispatch(routes, method, path), method, path, 0) == first_match(
            routes,
            method,
            path,
            0,
        ),
        after_dispatch(after_dispatch(routes, method, path), method, path) == after_dispatch(
            routes,
            method,
            path,
        ),
{
    let after = after_dispatch(routes, method, path);
    lemma_first_match_is_first(routes, method, path, 0);
    match first_match(routes, method, path, 0) {
        Some((k, p)) => {
            assert forall|j: int| 0 <= j < after.len() implies match_outcome(
                #[trigger] after[j],
                method,
                path,
            ) == match_outcome(routes[j], method, path) by {
                if j == k {
                    assert(after[j] == RouteView { params: p, ..routes[k] });
                }
            }
            lemma_first_match_alike(after, routes, method, path, 0);
            assert(after.update(k, RouteView { params: p, ..after[k] }) =~= after);
        },
        None => {},
    }
}

} // verus!
