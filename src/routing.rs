//! Requests, responses, routes and the router.

use std::collections::HashMap;
use vstd::prelude::*;
use crate::engine::{opt_view, regex_captures, run_matcher};
use crate::pattern::{compile_template, compiled_pattern_of, names_of, names_view};
use crate::views;

verus! {

/// One decoded HTTP request.
pub struct Request {
    /// The path alone, without scheme, host or query: "/api/v2/posts/12345".
    path: String,
    /// Header names in lower case, values as sent.
    headers: HashMap<String, String>,
    /// The body, if one was sent.
    body: Option<String>,
    /// The upper-case HTTP verb: GET, POST, DELETE, ...
    method: String,
}

pub struct RequestView {
    pub path: Seq<char>,
    pub method: Seq<char>,
    pub headers: Map<String, String>,
    pub body: Option<Seq<char>>,
}

impl vstd::view::View for Request {
    type V = RequestView;

    closed spec fn view(&self) -> RequestView {
        RequestView {
            path: self.path@,
            method: self.method@,
            headers: self.headers@,
            body: opt_view(self.body),
        }
    }
}

impl Request {
    /// A request for `path` with the verb `method`.
    pub fn new(
        method: &str,
        path: &str,
        headers: HashMap<String, String>,
        body: Option<String>,
    ) -> (r: Request)
        ensures
            r@.method == method@,
            r@.path == path@,
            r@.headers == headers@,
            r@.body == opt_view(body),
    {
        Request { path: String::from_str(path), headers, body, method: String::from_str(method) }
    }

    pub fn path(&self) -> (r: &String)
        ensures
            r@ == self@.path,
    {
        &self.path
    }

    pub fn method(&self) -> (r: &String)
        ensures
            r@ == self@.method,
    {
        &self.method
    }

    pub fn headers(&self) -> (r: &HashMap<String, String>)
        ensures
            r@ == self@.headers,
    {
        &self.headers
    }

    pub fn body(&self) -> (r: &Option<String>)
        ensures
            opt_view(*r) == self@.body,
    {
        &self.body
    }
}

/// The outcome handed back to the transport layer.
pub struct Response {
    /// The status code: 200, 401, ...
    status: usize,
    /// The status text sent with the code.
    status_code: String,
    /// The body, if any.
    body: Option<String>,
    /// The response headers.
    headers: HashMap<String, String>,
}

pub struct ResponseView {
    pub status: nat,
    pub status_text: Seq<char>,
    pub body: Option<Seq<char>>,
    pub headers: Map<String, String>,
}

impl vstd::view::View for Response {
    type V = ResponseView;

    closed spec fn view(&self) -> ResponseView {
        ResponseView {
            status: self.status as nat,
            status_text: self.status_code@,
            body: opt_view(self.body),
            headers: self.headers@,
        }
    }
}

/// The canonical "no route matched" response: 404, "Not found", no headers,
/// no body.
pub open spec fn not_found() -> ResponseView {
    ResponseView {
        status: 404,
        status_text: "Not found"@,
        body: None,
        headers: Map::empty(),
    }
}

impl Response {
    /// The default response, which is also the "not found" response.
    pub fn new() -> (r: Response)
        ensures
            r@ == not_found(),
    {
        let mut status_code = String::new();
        status_code.append("Not found");
        let r = Response { status: 404, status_code, body: None, headers: HashMap::new() };
        assert(r@.status_text =~= "Not found"@);
        r
    }

    pub fn status(&self) -> (r: usize)
        ensures
            r == self@.status,
    {
        self.status
    }

    pub fn status_code(&self) -> (r: &String)
        ensures
            r@ == self@.status_text,
    {
        &self.status_code
    }

    pub fn body(&self) -> (r: &Option<String>)
        ensures
            opt_view(*r) == self@.body,
    {
        &self.body
    }

    pub fn headers(&self) -> (r: &HashMap<String, String>)
        ensures
            r@ == self@.headers,
    {
        &self.headers
    }
}

/// The parameters a match extracted: each placeholder name with the text it
/// captured, if any.
pub open spec fn params_view(v: Seq<(String, Option<String>)>) -> Seq<(Seq<char>, Option<Seq<char>>)> {
    v.map_values(|p: (String, Option<String>)| (p.0@, opt_view(p.1)))
}

pub open spec fn params_opt_view(o: Option<Vec<(String, Option<String>)>>) -> Option<
    Seq<(Seq<char>, Option<Seq<char>>)>,
> {
    match o {
        Some(v) => Some(params_view(v@)),
        None => None,
    }
}

/// Each name paired with the value at the same place.
pub open spec fn pair_up(names: Seq<Seq<char>>, vals: Seq<Option<Seq<char>>>) -> Seq<
    (Seq<char>, Option<Seq<char>>),
> {
    Seq::new(names.len(), |i: int| (names[i], vals[i]))
}

/// A route, as the contracts see it.
pub struct RouteView {
    /// The template as written.
    pub pattern: Seq<char>,
    /// The anchored matcher text compiled from the template.
    pub compiled: Seq<char>,
    /// The placeholder names, in template order.
    pub names: Seq<Seq<char>>,
    /// The verbs the route accepts.
    pub methods: Seq<Seq<char>>,
    /// The name of the handler.
    pub handler: Seq<char>,
    /// The parameters of the last successful match.
    pub params: Seq<(Seq<char>, Option<Seq<char>>)>,
}

/// A route whose matcher and names are those of its template.
pub open spec fn route_wf(v: RouteView) -> bool {
    &&& v.compiled == compiled_pattern_of(v.pattern)
    &&& v.names == names_of(v.pattern)
}

/// Whether the matcher structurally matches `path` with one group per
/// placeholder besides the whole match.
pub open spec fn path_matches(v: RouteView, path: Seq<char>) -> bool {
    match regex_captures(v.compiled, v.names, path) {
        Some((n, _)) => n == v.names.len() + 1,
        None => false,
    }
}

/// The parameters that matching `method` and `path` against the route yields,
/// or `None` where it does not match. A route whose template repeats a
/// placeholder name matches nothing.
pub open spec fn match_outcome(v: RouteView, method: Seq<char>, path: Seq<char>) -> Option<
    Seq<(Seq<char>, Option<Seq<char>>)>,
> {
    match regex_captures(v.compiled, v.names, path) {
        Some((n, vals)) => if n == v.names.len() + 1 && v.methods.contains(method)
            && v.names.no_duplicates() {
            Some(pair_up(v.names, vals))
        } else {
            None
        },
        None => None,
    }
}

/// The verbs a route gets when none are given.
pub open spec fn default_methods() -> Seq<Seq<char>> {
    seq!["GET"@]
}

pub open spec fn methods_view(m: Option<Vec<&str>>) -> Seq<Seq<char>> {
    match m {
        Some(v) => v@.map_values(|s: &str| s@),
        None => default_methods(),
    }
}

/// One entry of the route table: a compiled template, the verbs it accepts
/// and the handler it names.
pub struct Route {
    /// The template as written, starting with a separator.
    pattern: String,
    /// How many groups besides the whole match the matcher must report.
    required_matches: usize,
    /// The placeholder names, in template order.
    match_names: Vec<String>,
    /// Whether no placeholder name is repeated.
    distinct_names: bool,
    /// The anchored matcher text.
    compiled_pattern: String,
    /// The verbs the route applies to; GET alone where none were given.
    methods: Vec<String>,
    /// The name of the handler.
    view: String,
    /// The parameters of the last successful match.
    parsed_path_parameters: Vec<(String, Option<String>)>,
}

impl vstd::view::View for Route {
    type V = RouteView;

    closed spec fn view(&self) -> RouteView {
        RouteView {
            pattern: self.pattern@,
            compiled: self.compiled_pattern@,
            names: names_view(self.match_names@),
            methods: names_view(self.methods@),
            handler: self.view@,
            params: params_view(self.parsed_path_parameters@),
        }
    }
}

/// Whether the names hold no repeated entry.
fn all_distinct(v: &Vec<String>) -> (r: bool)
    ensures
        r == names_view(v@).no_duplicates(),
{
    let ghost w = names_view(v@);
    let n = v.len();
    let mut i: usize = 0;
    while i < n
        invariant
            n == v@.len() == w.len(),
            w == names_view(v@),
            i <= n,
            forall|a: int, b: int| 0 <= a < i && a < b < n ==> w[a] != w[b],
        decreases n - i,
    {
        let mut j: usize = i + 1;
        while j < n
            invariant
                n == v@.len() == w.len(),
                w == names_view(v@),
                i < n,
                i + 1 <= j <= n,
                forall|a: int, b: int| 0 <= a < i && a < b < n ==> w[a] != w[b],
                forall|b: int| i < b < j ==> w[i as int] != w[b],
            decreases n - j,
        {
            if v[i] == v[j] {
                assert(w[i as int] == w[j as int]);
                return false;
            }
            j = j + 1;
        }
        i = i + 1;
    }
    assert(w.no_duplicates()) by {
        assert forall|a: int, b: int| 0 <= a < w.len() && 0 <= b < w.len() && a != b implies w[a]
            != w[b] by {
            if a > b {
                assert(w[b] != w[a]);
            }
        }
    }
    true
}

/// Copies each `&str` into a `String`.
fn to_strings(v: &Vec<&str>) -> (r: Vec<String>)
    ensures
        names_view(r@) == v@.map_values(|s: &str| s@),
{
    let mut r: Vec<String> = Vec::new();
    let mut i: usize = 0;
    while i < v.len()
        invariant
            i <= v@.len(),
            names_view(r@) == v@.subrange(0, i as int).map_values(|s: &str| s@),
        decreases v@.len() - i,
    {
        let ghost r0 = names_view(r@);
        let s = String::from_str(v[i]);
        r.push(s);
        proof {
            assert(names_view(r@) =~= r0.push(v@[i as int]@));
            assert(v@.subrange(0, i + 1) =~= v@.subrange(0, i as int).push(v@[i as int]));
            assert(names_view(r@) =~= v@.subrange(0, i + 1).map_values(|s: &str| s@));
        }
        i = i + 1;
    }
    assert(v@.subrange(0, v@.len() as int) =~= v@);
    r
}

impl Route {
    /// Whether the route is built from its template.
    pub closed spec fn wf(&self) -> bool {
        &&& route_wf(self@)
        &&& self.required_matches == self.match_names@.len()
        &&& self.distinct_names == self@.names.no_duplicates()
    }

    /// Builds a route from a template, a handler name and the verbs it
    /// accepts (GET alone where `methods` is `None`). Each `<name:type>` of
    /// the template becomes a named group: `int` matches `[0-9]+`, `slug`
    /// matches `[a-z0-9]+(?:-[a-z0-9]+)*`, `uuid` matches the 8-4-4-4-12 hex
    /// form, and any other type matches as `int`. The rest of the template
    /// matches literally, and the matcher covers the whole path with at most
    /// one trailing separator.
    pub fn new(pattern: &str, view: &str, methods: Option<Vec<&str>>) -> (r: Route)
        ensures
            r.wf(),
            r@.pattern == pattern@,
            r@.compiled == compiled_pattern_of(pattern@),
            r@.names == names_of(pattern@),
            r@.methods == methods_view(methods),
            r@.handler == view@,
            r@.params == Seq::<(Seq<char>, Option<Seq<char>>)>::empty(),
    {
        let (compiled_pattern, match_names) = compile_template(pattern);
        let required_matches = match_names.len();
        let distinct_names = all_distinct(&match_names);
        let methods = match methods {
            Some(m) => to_strings(&m),
            None => {
                let mut d: Vec<String> = Vec::new();
                d.push(String::from_str("GET"));
                proof {
                    assert(names_view(d@) =~= default_methods());
                }
                d
            },
        };
        let r = Route {
            pattern: String::from_str(pattern),
            required_matches,
            match_names,
            distinct_names,
            compiled_pattern,
            methods,
            view: String::from_str(view),
            parsed_path_parameters: Vec::new(),
        };
        assert(r@.params =~= Seq::<(Seq<char>, Option<Seq<char>>)>::empty());
        r
    }

    /// Whether no placeholder name of the template is repeated; a route whose
    /// template repeats one matches no request.
    pub fn has_distinct_names(&self) -> (r: bool)
        requires
            self.wf(),
        ensures
            r == self@.names.no_duplicates(),
    {
        self.distinct_names
    }

    /// Whether the route accepts the verb; the comparison is exact.
    fn accepts_method(&self, method: &String) -> (r: bool)
        ensures
            r == self@.methods.contains(method@),
    {
        let ghost w = self@.methods;
        let mut i: usize = 0;
        while i < self.methods.len()
            invariant
                w == names_view(self.methods@),
                i <= self.methods@.len(),
                forall|k: int| 0 <= k < i ==> w[k] != method@,
            decreases self.methods@.len() - i,
        {
            if self.methods[i] == *method {
                assert(w[i as int] == method@);
                return true;
            }
            i = i + 1;
        }
        false
    }

    /// Matches the request against the route and returns the extracted
    /// parameters, leaving the route as it is.
    pub fn match_request(&self, request: &Request) -> (r: Option<Vec<(String, Option<String>)>>)
        requires
            self.wf(),
        ensures
            params_opt_view(r) == match_outcome(self@, request@.method, request@.path),
    {
        let caps = run_matcher(self.compiled_pattern.as_str(), &self.match_names, request.path.as_str());
        match caps {
            None => None,
            Some((count, vals)) => {
                if count == 0 || count - 1 != self.required_matches || !self.distinct_names
                    || !self.accepts_method(&request.method) {
                    return None;
                }
                let ghost names = self@.names;
                let ghost vs = vals@.map_values(|o: Option<String>| opt_view(o));
                let mut out: Vec<(String, Option<String>)> = Vec::new();
                let mut i: usize = 0;
                while i < self.match_names.len()
                    invariant
                        names == names_view(self.match_names@),
                        vals@.len() == self.match_names@.len(),
                        vs == vals@.map_values(|o: Option<String>| opt_view(o)),
                        i <= self.match_names@.len(),
                        params_view(out@) == pair_up(names, vs).subrange(0, i as int),
                    decreases self.match_names@.len() - i,
                {
                    let v = match &vals[i] {
                        Some(s) => Some(s.clone()),
                        None => None,
                    };
                    let ghost out0 = params_view(out@);
                    assert(opt_view(v) == vs[i as int]);
                    let name = self.match_names[i].clone();
                    assert(name@ == names[i as int]);
                    out.push((name, v));
                    proof {
                        assert(params_view(out@) =~= out0.push((names[i as int], vs[i as int])));
                        assert(params_view(out@) =~= pair_up(names, vs).subrange(0, i + 1));
                    }
                    i = i + 1;
                }
                assert(pair_up(names, vs).subrange(0, i as int) =~= pair_up(names, vs));
                Some(out)
            },
        }
    }

    /// Checks whether the request is handled by this route. On success the
    /// extracted parameters replace those of the last match; otherwise the
    /// route is left as it was.
    pub fn applies_to_request(&mut self, request: &Request) -> (r: bool)
        requires
            old(self).wf(),
        ensures
            final(self).wf(),
            r == match_outcome(old(self)@, request@.method, request@.path) is Some,
            match match_outcome(old(self)@, request@.method, request@.path) {
                Some(p) => final(self)@ == (RouteView { params: p, ..old(self)@ }),
                None => final(self)@ == old(self)@,
            },
    {
        match self.match_request(request) {
            Some(p) => {
                self.parsed_path_parameters = p;
                true
            },
            None => false,
        }
    }

    /// The response of the route's handler for the request, given the
    /// parameters of the last match.
    pub fn to_response(&self, request: &Request) -> (r: Response)
        ensures
            r@ == not_found(),
    {
        let view = views::View::new(self.view.as_str());
        view.get_response(request, &self.parsed_path_parameters)
    }

    pub fn pattern(&self) -> (r: &String)
        ensures
            r@ == self@.pattern,
    {
        &self.pattern
    }

    pub fn compiled_pattern(&self) -> (r: &String)
        ensures
            r@ == self@.compiled,
    {
        &self.compiled_pattern
    }

    pub fn match_names(&self) -> (r: &Vec<String>)
        ensures
            names_view(r@) == self@.names,
    {
        &self.match_names
    }

    pub fn methods(&self) -> (r: &Vec<String>)
        ensures
            names_view(r@) == self@.methods,
    {
        &self.methods
    }

    /// The name of the handler.
    pub fn handler(&self) -> (r: &String)
        ensures
            r@ == self@.handler,
    {
        &self.view
    }

    pub fn parsed_path_parameters(&self) -> (r: &Vec<(String, Option<String>)>)
        ensures
            params_view(r@) == self@.params,
    {
        &self.parsed_path_parameters
    }
}

/// The first route, from index `i` on, that matches: its index and the
/// parameters it yields.
pub open spec fn first_match(routes: Seq<RouteView>, method: Seq<char>, path: Seq<char>, i: int) -> Option<
    (int, Seq<(Seq<char>, Option<Seq<char>>)>),
>
    decreases routes.len() - i,
{
    if i < 0 || i >= routes.len() {
        None
    } else {
        match match_outcome(routes[i], method, path) {
            Some(p) => Some((i, p)),
            None => first_match(routes, method, path, i + 1),
        }
    }
}

/// The route table after a dispatch: the first matching route holds the
/// parameters it yielded; nothing else changes.
pub open spec fn after_dispatch(routes: Seq<RouteView>, method: Seq<char>, path: Seq<char>) -> Seq<
    RouteView,
> {
    match first_match(routes, method, path, 0) {
        Some((k, p)) => routes.update(k, RouteView { params: p, ..routes[k] }),
        None => routes,
    }
}

/// The indices, from `i` on and in ascending order, of the templates that
/// repeat a placeholder name.
pub open spec fn defective_from(templates: Seq<Seq<char>>, i: int) -> Seq<int>
    decreases templates.len() - i,
{
    if i < 0 || i >= templates.len() {
        seq![]
    } else if names_of(templates[i]).no_duplicates() {
        defective_from(templates, i + 1)
    } else {
        seq![i] + defective_from(templates, i + 1)
    }
}

/// The templates of a list of route declarations.
pub open spec fn declared_templates(decls: Seq<(&str, &str, Option<Vec<&str>>)>) -> Seq<Seq<char>> {
    decls.map_values(|d: (&str, &str, Option<Vec<&str>>)| d.0@)
}

/// The route that a declaration gives, before any match.
pub open spec fn declared_route(d: (&str, &str, Option<Vec<&str>>)) -> RouteView {
    RouteView {
        pattern: d.0@,
        compiled: compiled_pattern_of(d.0@),
        names: names_of(d.0@),
        methods: methods_view(d.2),
        handler: d.1@,
        params: seq![],
    }
}

/// An ordered route table.
pub struct Router {
    routes: Vec<Route>,
}

impl vstd::view::View for Router {
    type V = Seq<RouteView>;

    closed spec fn view(&self) -> Seq<RouteView> {
        self.routes@.map_values(|r: Route| r@)
    }
}

impl Router {
    /// Whether every route is built from its template.
    pub closed spec fn wf(&self) -> bool {
        forall|i: int| 0 <= i < self.routes@.len() ==> #[trigger] self.routes@[i].wf()
    }

    /// An empty route table.
    pub fn new() -> (r: Router)
        ensures
            r.wf(),
            r@ == Seq::<RouteView>::empty(),
    {
        let r = Router { routes: Vec::new() };
        assert(r@ =~= Seq::<RouteView>::empty());
        r
    }

    /// Builds a route table from declarations `(template, handler, methods)`,
    /// in their order. Where a template repeats a placeholder name, no table
    /// is built and the indices of all such declarations come back.
    pub fn build(decls: Vec<(&str, &str, Option<Vec<&str>>)>) -> (r: Result<Router, Vec<usize>>)
        ensures
            match r {
                Ok(router) => {
                    &&& router.wf()
                    &&& defective_from(declared_templates(decls@), 0).len() == 0
                    &&& router@ == decls@.map_values(
                        |d: (&str, &str, Option<Vec<&str>>)| declared_route(d),
                    )
                },
                Err(bad) => {
                    &&& bad@.len() > 0
                    &&& bad@.map_values(|k: usize| k as int) == defective_from(
                        declared_templates(decls@),
                        0,
                    )
                },
            },
    {
        let ghost all = decls@;
        let ghost ts = declared_templates(all);
        let mut rest = decls;
        let mut router = Router::new();
        let mut bad: Vec<usize> = Vec::new();
        let n = rest.len();
        let mut i: usize = 0;
        while i < n
            invariant
                n == all.len(),
                i <= n,
                rest@ == all.subrange(i as int, n as int),
                ts == declared_templates(all),
                router.wf(),
                router@ == all.subrange(0, i as int).map_values(
                    |d: (&str, &str, Option<Vec<&str>>)| declared_route(d),
                ),
                bad@.map_values(|k: usize| k as int) + defective_from(ts, i as int)
                    == defective_from(ts, 0),
                forall|k: int| 0 <= k < bad@.len() ==> bad@[k] < i,
            decreases n - i,
        {
            let ghost b0 = bad@.map_values(|k: usize| k as int);
            let ghost d = all[i as int];
            let (pattern, view, methods) = rest.remove(0);
            let route = Route::new(pattern, view, methods);
            if !route.has_distinct_names() {
                bad.push(i);
                assert(bad@.map_values(|k: usize| k as int) =~= b0.push(i as int));
                assert(b0 + defective_from(ts, i as int) =~= b0.push(i as int) + defective_from(
                    ts,
                    i + 1,
                ));
            }
            assert(route@ == declared_route(d)) by {
                assert(route@.params =~= seq![]);
            }
            router.add_route(route);
            assert(all.subrange(0, i + 1) =~= all.subrange(0, i as int).push(d));
            assert(router@ =~= all.subrange(0, i + 1).map_values(
                |d: (&str, &str, Option<Vec<&str>>)| declared_route(d),
            ));
            assert(rest@ =~= all.subrange(i + 1, n as int));
            i = i + 1;
        }
        assert(all.subrange(0, n as int) =~= all);
        if bad.len() > 0 {
            Err(bad)
        } else {
            assert(bad@.map_values(|k: usize| k as int) =~= seq![]);
            assert(defective_from(ts, 0) =~= defective_from(ts, n as int));
            Ok(router)
        }
    }

    /// Appends a route; routes are tried in the order they were added.
    pub fn add_route(&mut self, route: Route)
        requires
            old(self).wf(),
            route.wf(),
        ensures
            final(self).wf(),
            final(self)@ == old(self)@.push(route@),
    {
        let ghost v0 = self@;
        let ghost r = route@;
        self.routes.push(route);
        assert(self@ =~= v0.push(r));
    }

    /// The number of routes.
    pub fn len(&self) -> (r: usize)
        ensures
            r == self@.len(),
    {
        self.routes.len()
    }

    /// The route at `i`.
    pub fn route(&self, i: usize) -> (r: &Route)
        requires
            i < self@.len(),
        ensures
            r@ == self@[i as int],
    {
        &self.routes[i]
    }

    /// The first route, in declaration order, whose path and method match the
    /// request, with the parameters it yields. The routes are left as they
    /// are.
    pub fn find_route(&self, request: &Request) -> (r: Option<(usize, Vec<(String, Option<String>)>)>)
        requires
            self.wf(),
        ensures
            match r {
                Some((k, p)) => first_match(self@, request@.method, request@.path, 0) == Some(
                    (k as int, params_view(p@)),
                ),
                None => first_match(self@, request@.method, request@.path, 0) is None,
            },
    {
        let ghost m = request@.method;
        let ghost p = request@.path;
        let mut i: usize = 0;
        while i < self.routes.len()
            invariant
                self.wf(),
                i <= self.routes@.len(),
                first_match(self@, m, p, 0) == first_match(self@, m, p, i as int),
                m == request@.method,
                p == request@.path,
            decreases self.routes@.len() - i,
        {
            assert(self.routes@[i as int].wf());
            match self.routes[i].match_request(request) {
                Some(params) => {
                    return Some((i, params));
                },
                None => {},
            }
            i = i + 1;
        }
        None
    }

    /// Dispatches the request: the first matching route, in declaration
    /// order, records its parameters and its handler answers; where no route
    /// matches, the answer is the "not found" response.
    pub fn dispatch(&mut self, request: &Request) -> (r: Response)
        requires
            old(self).wf(),
        ensures
            final(self).wf(),
            final(self)@ == after_dispatch(old(self)@, request@.method, request@.path),
            r@ == not_found(),
    {
        match self.find_route(request) {
            None => Response::new(),
            Some((k, params)) => {
                proof {
                    crate::laws::lemma_first_match_is_first(self@, request@.method, request@.path, 0);
                }
                let ghost v0 = self@;
                let ghost rv = self@[k as int];
                assert(self.routes@[k as int].wf());
                let mut route = self.routes.remove(k);
                route.parsed_path_parameters = params;
                let resp = route.to_response(request);
                assert(route@ == RouteView { params: params_view(params@), ..rv });
                self.routes.insert(k, route);
                assert(self@ =~= v0.update(k as int, route@));
                assert forall|i: int| 0 <= i < self.routes@.len() implies #[trigger] self.routes@[i].wf() by {
                    if i != k {
                        assert(self.routes@[i] == old(self).routes@[i]);
                    }
                }
                resp
            },
        }
    }
}

} // verus!
