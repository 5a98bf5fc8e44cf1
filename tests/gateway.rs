use rest_gateway::query::{AllHeaders, QueryString};
use rest_gateway::request::{delete, get, index, normalize, patch, post, put, CanonicalRequest, Verb};
use rest_gateway::response::{
    assemble, media_type, respond, ApiResponse, ContentType, Failure, GatewayError, HttpResponse,
    Outcome, RocketError, Status,
};
use rest_gateway::startup::{plan_startup, rpc_mount, select_backend, url_prefix_or_default, BackendKind, StartupError};

fn s(x: &str) -> String {
    x.to_string()
}

fn pairs(v: &[(&str, &str)]) -> Vec<(String, String)> {
    v.iter().map(|(a, b)| (s(a), s(b))).collect()
}

fn query(v: &[(&str, &str)]) -> QueryString {
    let mut ctxt = QueryString::init();
    for (n, val) in v {
        QueryString::push_value(&mut ctxt, n, val);
    }
    QueryString::finalize(ctxt)
}

fn headers(v: &[(&str, &str)]) -> AllHeaders {
    AllHeaders::from_request(pairs(v))
}

fn same_but_method(a: &CanonicalRequest, b: &CanonicalRequest) -> bool {
    a.resource == b.resource
        && a.path == b.path
        && a.query == b.query
        && a.body == b.body
        && a.headers == b.headers
        && a.cookies == b.cookies
}

#[test]
fn repeated_query_keys_keep_order_and_duplicates() {
    let q = query(&[("a", "1"), ("a", "2"), ("b", "3")]);
    assert_eq!(q.as_pairs(), &pairs(&[("a", "1"), ("a", "2"), ("b", "3")]));
    assert_eq!(q.into_pairs(), pairs(&[("a", "1"), ("a", "2"), ("b", "3")]));
}

#[test]
fn empty_query_string() {
    let q = QueryString::finalize(QueryString::init());
    assert!(q.as_pairs().is_empty());
}

#[test]
fn headers_are_kept_as_received() {
    let h = headers(&[("Accept", "a"), ("accept", "b"), ("Accept", "a")]);
    assert_eq!(h.as_pairs(), &pairs(&[("Accept", "a"), ("accept", "b"), ("Accept", "a")]));
}

#[test]
fn verbs_build_the_same_request() {
    let table = s("items");
    let build = |verb: Verb| -> CanonicalRequest {
        let q = query(&[("id", "eq.5"), ("id", "eq.6")]);
        let h = headers(&[("Prefer", "return=representation")]);
        let c = pairs(&[("session", "xyz")]);
        match verb {
            Verb::Get => get(&table, "/items", q, c, h),
            Verb::Post => post(&table, "/items", q, s("{}"), c, h),
            Verb::Put => put(&table, "/items", q, s("{}"), c, h),
            Verb::Patch => patch(&table, "/items", q, s("{}"), c, h),
            Verb::Delete => delete(&table, "/items", q, s("{}"), c, h),
        }
    };
    let post_req = build(Verb::Post);
    assert_eq!(post_req.method, Verb::Post);
    assert_eq!(post_req.body, Some(s("{}")));
    for verb in [Verb::Put, Verb::Patch, Verb::Delete] {
        let r = build(verb);
        assert_eq!(r.method, verb);
        assert!(same_but_method(&r, &post_req));
    }
    let get_req = build(Verb::Get);
    assert_eq!(get_req.method, Verb::Get);
    assert_eq!(get_req.body, None);
    assert_eq!(get_req.query, post_req.query);
    assert_eq!(get_req.headers, post_req.headers);
    assert_eq!(get_req.cookies, post_req.cookies);
}

#[test]
fn get_drops_a_body() {
    let r = normalize(
        Verb::Get,
        &s("items"),
        "/items",
        query(&[]),
        Some(s("ignored")),
        Vec::new(),
        headers(&[]),
    );
    assert_eq!(r.body, None);
    assert_eq!(r.resource, s("items"));
    assert_eq!(r.path, s("/items"));
}

#[test]
fn index_greets() {
    assert_eq!(index(), "Hello, world!");
}

#[test]
fn media_types() {
    assert_eq!(media_type(ContentType::SingularJson), "application/vnd.pgrst.object+json");
    assert_eq!(media_type(ContentType::ApplicationJson), "application/json");
    assert_eq!(media_type(ContentType::TextCsv), "text/csv; charset=utf-8");
}

#[test]
fn status_range() {
    assert!(Status::from_code(99).is_none());
    assert_eq!(Status::from_code(100).map(|st| st.code()), Some(100));
    assert_eq!(Status::from_code(599).map(|st| st.code()), Some(599));
    assert!(Status::from_code(600).is_none());
    assert!(Status::from_code(0).is_none());
}

fn header_value<'a>(r: &'a HttpResponse, name: &str) -> Vec<&'a str> {
    r.headers.iter().filter(|(n, _)| n == name).map(|(_, v)| v.as_str()).collect()
}

#[test]
fn singular_object_keeps_body_and_gets_vendor_type() {
    let body = s("{\"id\":1,\"name\":\"x\"}");
    let r = respond(Ok(Outcome {
        status: 200,
        content_type: ContentType::SingularJson,
        body: body.clone(),
        headers: Vec::new(),
    }));
    assert_eq!(r.status, 200);
    assert_eq!(header_value(&r, "Content-Type"), vec!["application/vnd.pgrst.object+json"]);
    assert_eq!(r.body, body);
}

#[test]
fn get_items_scenario() {
    let req = get(&s("items"), "/items", query(&[("id", "5")]), Vec::new(), headers(&[]));
    assert_eq!(req.method, Verb::Get);
    assert_eq!(req.query, pairs(&[("id", "5")]));
    let r = respond(Ok(Outcome {
        status: 200,
        content_type: ContentType::ApplicationJson,
        body: s("[{\"id\":5}]"),
        headers: Vec::new(),
    }));
    assert_eq!(r.status, 200);
    assert_eq!(r.headers, pairs(&[("Content-Type", "application/json")]));
    assert_eq!(r.body, "[{\"id\":5}]");
}

#[test]
fn delete_items_not_found_scenario() {
    let req = delete(&s("items"), "/items", query(&[]), s(""), Vec::new(), headers(&[]));
    assert_eq!(req.method, Verb::Delete);
    let r = respond(Err(Failure {
        status: 404,
        body: s("{\"message\":\"not found\"}"),
        headers: pairs(&[("X-Reason", "missing")]),
    }));
    assert_eq!(r.status, 404);
    assert_eq!(r.body, "{\"message\":\"not found\"}");
    assert_eq!(header_value(&r, "X-Reason"), vec!["missing"]);
}

#[test]
fn extra_headers_follow_content_type_in_order() {
    let r = respond(Ok(Outcome {
        status: 201,
        content_type: ContentType::TextCsv,
        body: s("a,b\n1,2\n"),
        headers: pairs(&[("Location", "/items?id=eq.1"), ("Content-Type", "x"), ("A", "1")]),
    }));
    assert_eq!(r.status, 201);
    assert_eq!(
        r.headers,
        pairs(&[
            ("Content-Type", "text/csv; charset=utf-8"),
            ("Location", "/items?id=eq.1"),
            ("Content-Type", "x"),
            ("A", "1"),
        ])
    );
    assert_eq!(r.body, "a,b\n1,2\n");
}

#[test]
fn outcome_with_invalid_status_is_an_error() {
    let o = Outcome { status: 600, content_type: ContentType::ApplicationJson, body: s("[]"), headers: Vec::new() };
    assert!(matches!(assemble(o), Err(GatewayError::InvalidStatus { code: 600 })));
    let r = respond(Ok(Outcome {
        status: 42,
        content_type: ContentType::ApplicationJson,
        body: s("[]"),
        headers: pairs(&[("X", "y")]),
    }));
    assert_eq!(r.status, 500);
    assert!(r.headers.is_empty());
    assert_eq!(r.body, "{\"message\":\"response status code out of range\"}");
}

#[test]
fn failure_with_invalid_status_is_an_error() {
    let f = Failure { status: 1000, body: s("{}"), headers: Vec::new() };
    assert!(matches!(RocketError(f).respond_to(), Err(GatewayError::InvalidStatus { code: 1000 })));
    let r = respond(Err(Failure { status: 99, body: s("{}"), headers: pairs(&[("X", "y")]) }));
    assert_eq!(r.status, 500);
    assert!(r.headers.is_empty());
}

#[test]
fn assembled_response_fields() {
    let o = Outcome {
        status: 206,
        content_type: ContentType::ApplicationJson,
        body: s("[1]"),
        headers: pairs(&[("Content-Range", "0-0/*")]),
    };
    let a: ApiResponse = match assemble(o) {
        Ok(a) => a,
        Err(_) => panic!("valid status refused"),
    };
    assert_eq!(a.status.code(), 206);
    assert_eq!(a.content_type, "application/json");
    assert_eq!(a.body, "[1]");
    let r = a.respond_to();
    assert_eq!(r.headers, pairs(&[("Content-Type", "application/json"), ("Content-Range", "0-0/*")]));
}

#[test]
fn backend_selection() {
    assert_eq!(select_backend(&s("postgresql")).ok(), Some(BackendKind::PostgreSql));
    assert_eq!(select_backend(&s("sqlite")).ok(), Some(BackendKind::Sqlite));
    match select_backend(&s("mysql")) {
        Err(StartupError::UnsupportedDatabase { db_type }) => assert_eq!(db_type, "mysql"),
        Ok(_) => panic!("unsupported kind accepted"),
    }
    assert!(select_backend(&s("PostgreSQL")).is_err());
    assert!(select_backend(&s("")).is_err());
}

#[test]
fn unsupported_backend_yields_no_plan() {
    match plan_startup(&s("oracle"), Some(s("/api"))) {
        Err(StartupError::UnsupportedDatabase { db_type }) => assert_eq!(db_type, "oracle"),
        Ok(_) => panic!("a plan for an unsupported backend"),
    }
}

#[test]
fn startup_plan_mounts() {
    let p = plan_startup(&s("sqlite"), None).unwrap();
    assert_eq!(p.backend, BackendKind::Sqlite);
    assert_eq!(p.backend_name, "default");
    assert_eq!(p.api_mount, "/");
    assert_eq!(p.rpc_mount, "//rpc");
    let p = plan_startup(&s("postgresql"), Some(s("/api"))).unwrap();
    assert_eq!(p.backend, BackendKind::PostgreSql);
    assert_eq!(p.api_mount, "/api");
    assert_eq!(p.rpc_mount, "/api/rpc");
    assert_eq!(url_prefix_or_default(None), "/");
    assert_eq!(rpc_mount(&s("/v1")), "/v1/rpc");
}
