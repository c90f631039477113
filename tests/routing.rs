use oxidize::{compile_template, Request, Response, Route, Router};
use std::collections::HashMap;

fn get(path: &str) -> Request {
    Request::new("GET", path, HashMap::new(), None)
}

fn params(route: &Route) -> Vec<(String, Option<String>)> {
    route.parsed_path_parameters().clone()
}

fn one(name: &str, value: &str) -> Vec<(String, Option<String>)> {
    vec![(name.to_string(), Some(value.to_string()))]
}

fn assert_not_found(r: &Response) {
    assert_eq!(r.status(), 404);
    assert_eq!(r.status_code(), "Not found");
    assert!(r.body().is_none());
    assert!(r.headers().is_empty());
}

#[test]
fn compiles_int_placeholder() {
    let (compiled, names) = compile_template("/api/v2/<id:int>");
    assert_eq!(compiled, r"^\/api\/v2\/(?<id>[0-9]+)\/?$");
    assert_eq!(names, vec!["id".to_string()]);
}

#[test]
fn compiles_slug_and_uuid_placeholders() {
    let (compiled, names) = compile_template("/<a:slug>/<b:uuid>");
    assert_eq!(
        compiled,
        r"^\/(?<a>[a-z0-9]+(?:-[a-z0-9]+)*)\/(?<b>[0-9a-fA-F]{8}\-[0-9a-fA-F]{4}\-[0-9a-fA-F]{4}\-[0-9a-fA-F]{4}\-[0-9a-fA-F]{12})\/?$"
    );
    assert_eq!(names, vec!["a".to_string(), "b".to_string()]);
}

#[test]
fn unknown_type_falls_back_to_int() {
    let (compiled, _) = compile_template("/x/<n:word>");
    assert_eq!(compiled, r"^\/x\/(?<n>[0-9]+)\/?$");
    let mut route = Route::new("/x/<n:word>", "v", None);
    assert!(route.applies_to_request(&get("/x/17")));
    assert!(!route.applies_to_request(&get("/x/abc")));
}

#[test]
fn malformed_placeholder_is_literal() {
    let (compiled, names) = compile_template("/a/<Id:Int>");
    assert_eq!(compiled, r"^\/a\/<Id:Int>\/?$");
    assert!(names.is_empty());
    let mut route = Route::new("/a/<Id:Int>", "v", None);
    assert!(route.applies_to_request(&get("/a/<Id:Int>")));
    assert!(!route.applies_to_request(&get("/a/5")));
}

#[test]
fn metacharacters_match_literally() {
    let (compiled, _) = compile_template("/a.b(c)");
    assert_eq!(compiled, r"^\/a\.b\(c\)\/?$");
    let mut route = Route::new("/a.b(c)", "v", None);
    assert!(route.applies_to_request(&get("/a.b(c)")));
    assert!(!route.applies_to_request(&get("/axbc")));
}

#[test]
fn compilation_is_deterministic() {
    let a = compile_template("/u/<name:slug>/<id:int>");
    let b = compile_template("/u/<name:slug>/<id:int>");
    assert_eq!(a, b);
    let mut route_first = Route::new("/u/<name:slug>/<id:int>", "v", None);
    let mut route_second = Route::new("/u/<name:slug>/<id:int>", "v", None);
    for path in ["/u/bob/3", "/u/bob/3/", "/u/Bob/3", "/u/bob"] {
        let req = get(path);
        assert_eq!(route_first.applies_to_request(&req), route_second.applies_to_request(&req));
        assert_eq!(params(&route_first), params(&route_second));
    }
}

#[test]
fn int_placeholder_round_trip() {
    let mut route = Route::new("/items/<id:int>", "items.show", None);
    assert!(route.applies_to_request(&get("/items/42")));
    assert_eq!(params(&route), one("id", "42"));
    assert!(!route.applies_to_request(&get("/items/abc")));
    assert_eq!(params(&route), one("id", "42"));
    let mut other = Route::new("/items/<id:int>", "items.show", None);
    assert!(other.applies_to_request(&get("/items/42/")));
    assert_eq!(params(&other), one("id", "42"));
}

#[test]
fn only_one_trailing_separator() {
    let mut route = Route::new("/items/<id:int>", "v", None);
    assert!(!route.applies_to_request(&get("/items/42//")));
    assert!(!route.applies_to_request(&get("/items/42/x")));
    assert!(!route.applies_to_request(&get("/prefix/items/42")));
}

#[test]
fn slug_placeholder() {
    let mut route = Route::new("/posts/<slug:slug>", "v", None);
    assert!(route.applies_to_request(&get("/posts/hello-world-2")));
    assert_eq!(params(&route), one("slug", "hello-world-2"));
    assert!(!route.applies_to_request(&get("/posts/Hello-World")));
    assert!(!route.applies_to_request(&get("/posts/hello--world")));
    assert!(!route.applies_to_request(&get("/posts/-hello")));
}

#[test]
fn uuid_placeholder() {
    let mut route = Route::new("/u/<id:uuid>", "v", None);
    assert!(route.applies_to_request(&get("/u/123e4567-e89b-12d3-a456-426614174000")));
    assert_eq!(params(&route), one("id", "123e4567-e89b-12d3-a456-426614174000"));
    assert!(!route.applies_to_request(&get("/u/123e4567e89b-12d3-a456-426614174000")));
    assert!(!route.applies_to_request(&get("/u/123e456-e89b-12d3-a456-4266141740000")));
}

#[test]
fn method_gating() {
    let mut post = Route::new("/form", "v", Some(vec!["POST"]));
    let mut get_route = Route::new("/form", "v", Some(vec!["GET"]));
    let req = get("/form");
    assert!(!post.applies_to_request(&req));
    assert!(get_route.applies_to_request(&req));
    let lower = Request::new("get", "/form", HashMap::new(), None);
    assert!(!get_route.applies_to_request(&lower));
}

#[test]
fn default_methods_are_get() {
    let route = Route::new("/", "v", None);
    assert_eq!(route.methods(), &vec!["GET".to_string()]);
    assert_eq!(route.pattern(), "/");
    assert_eq!(route.handler(), "v");
    assert_eq!(route.match_names().len(), 0);
    assert_eq!(route.compiled_pattern(), r"^\/\/?$");
}

#[test]
fn repeated_names_match_nothing() {
    let mut route = Route::new("/<a:int>/<a:int>", "v", None);
    assert!(!route.applies_to_request(&get("/1/2")));
}

#[test]
fn match_request_leaves_route_unchanged() {
    let route = Route::new("/items/<id:int>", "v", None);
    let found = route.match_request(&get("/items/7"));
    assert_eq!(found, Some(one("id", "7")));
    assert!(route.parsed_path_parameters().is_empty());
    assert_eq!(route.match_request(&get("/items/x")), None);
}

#[test]
fn first_declared_route_wins() {
    let mut router = Router::new();
    router.add_route(Route::new("/a/<id:int>", "first", None));
    router.add_route(Route::new("/a/<n:int>", "second", None));
    let req = get("/a/5");
    match router.find_route(&req) {
        Some((k, p)) => {
            assert_eq!(k, 0);
            assert_eq!(p, one("id", "5"));
        }
        None => panic!("no route found"),
    }
    let resp = router.dispatch(&req);
    assert_not_found(&resp);
    assert_eq!(params(router.route(0)), one("id", "5"));
    assert!(router.route(1).parsed_path_parameters().is_empty());
}

#[test]
fn later_route_when_earlier_does_not_match() {
    let mut router = Router::new();
    router.add_route(Route::new("/a/<id:int>", "first", Some(vec!["POST"])));
    router.add_route(Route::new("/a/<n:int>", "second", None));
    assert_eq!(router.len(), 2);
    let found = router.find_route(&get("/a/9"));
    assert_eq!(found, Some((1, one("n", "9"))));
}

#[test]
fn empty_table_falls_through() {
    let mut router = Router::new();
    let req = get("/anything");
    assert_eq!(router.find_route(&req), None);
    assert_not_found(&router.dispatch(&req));
}

#[test]
fn unmatched_request_falls_through() {
    let mut router = Router::new();
    router.add_route(Route::new("/a", "v", None));
    let req = Request::new("DELETE", "/b", HashMap::new(), Some("x".to_string()));
    assert_eq!(router.find_route(&req), None);
    assert_not_found(&router.dispatch(&req));
    assert!(router.route(0).parsed_path_parameters().is_empty());
}

#[test]
fn dispatch_is_idempotent() {
    let mut router = Router::new();
    router.add_route(Route::new("/p/<slug:slug>", "v", None));
    let req = get("/p/abc");
    let resp_first = router.dispatch(&req);
    let params_first = params(router.route(0));
    let resp_second = router.dispatch(&req);
    let params_second = params(router.route(0));
    assert_eq!(resp_first.status(), resp_second.status());
    assert_eq!(resp_first.status_code(), resp_second.status_code());
    assert_eq!(params_first, params_second);
    assert_eq!(params_first, one("slug", "abc"));
}

#[test]
fn default_response() {
    assert_not_found(&Response::new());
}

#[test]
fn route_response_is_default() {
    let route = Route::new("/", "pkg.views.index", None);
    assert_not_found(&route.to_response(&get("/")));
}

#[test]
fn request_accessors() {
    let mut headers = HashMap::new();
    headers.insert("accept".to_string(), "text/html".to_string());
    let req = Request::new("POST", "/x", headers.clone(), Some("body".to_string()));
    assert_eq!(req.method(), "POST");
    assert_eq!(req.path(), "/x");
    assert_eq!(req.headers(), &headers);
    assert_eq!(req.body(), &Some("body".to_string()));
}

#[test]
fn build_keeps_declaration_order() {
    let decls = vec![
        ("/a/<id:int>", "first", None),
        ("/a/<n:int>", "second", Some(vec!["GET", "POST"])),
    ];
    let router = match Router::build(decls) {
        Ok(r) => r,
        Err(_) => panic!("well-formed templates were refused"),
    };
    assert_eq!(router.len(), 2);
    assert_eq!(router.route(0).handler(), "first");
    assert_eq!(router.route(1).handler(), "second");
    assert_eq!(router.route(1).methods(), &vec!["GET".to_string(), "POST".to_string()]);
    let post = Request::new("POST", "/a/3", HashMap::new(), None);
    assert_eq!(router.find_route(&post), Some((1, one("n", "3"))));
}

#[test]
fn build_reports_repeated_names() {
    let decls = vec![
        ("/ok/<id:int>", "a", None),
        ("/<x:int>/<x:slug>", "b", None),
        ("/fine", "c", None),
        ("/<y:int>/<z:int>/<y:int>", "d", None),
    ];
    match Router::build(decls) {
        Ok(_) => panic!("repeated placeholder names were accepted"),
        Err(bad) => assert_eq!(bad, vec![1, 3]),
    }
}

#[test]
fn build_of_nothing_is_empty() {
    let router = match Router::build(Vec::new()) {
        Ok(r) => r,
        Err(_) => panic!("an empty table was refused"),
    };
    assert_eq!(router.len(), 0);
}

#[test]
fn distinct_names_flag() {
    assert!(Route::new("/<a:int>/<b:int>", "v", None).has_distinct_names());
    assert!(!Route::new("/<a:int>/<a:int>", "v", None).has_distinct_names());
}
