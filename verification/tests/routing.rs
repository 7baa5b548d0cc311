use product_service::error::RouteError;
use product_service::exchange::{dispatch, Action, Stage};
use product_service::http::{Content, Method, Request, Response};
use product_service::routes::{is_valid_path, service_routes, Handler, RouteTable};

const METHODS: [Method; 10] = [
    Method::Get,
    Method::Head,
    Method::Post,
    Method::Put,
    Method::Delete,
    Method::Connect,
    Method::Options,
    Method::Trace,
    Method::Patch,
    Method::Other,
];

#[test]
fn new_table_is_empty() {
    let table = RouteTable::new();
    assert_eq!(table.len(), 0);
    assert_eq!(table.resolve(Method::Get, &"/".to_string()), None);
}

#[test]
fn register_adds_a_route() {
    let mut table = RouteTable::new();
    assert_eq!(table.register(Method::Post, "/orders", Handler::Greeting), Ok(()));
    assert_eq!(table.len(), 1);
    assert_eq!(table.resolve(Method::Post, &"/orders".to_string()), Some(Handler::Greeting));
    assert_eq!(table.resolve(Method::Get, &"/orders".to_string()), None);
    assert_eq!(table.resolve(Method::Post, &"/orders/".to_string()), None);
}

#[test]
fn register_refuses_a_malformed_path() {
    let mut table = RouteTable::new();
    for path in ["", "products", "/pro ducts", "/caf\u{e9}", "/a?b", "/a#b", "/{id}", "/a%20b", "/a\\b"] {
        assert_eq!(
            table.register(Method::Get, path, Handler::Products),
            Err(RouteError::InvalidPath),
            "{path:?}"
        );
    }
    assert_eq!(table.len(), 0);
}

#[test]
fn register_refuses_a_duplicate() {
    let mut table = RouteTable::new();
    assert_eq!(table.register(Method::Get, "/products", Handler::Products), Ok(()));
    assert_eq!(
        table.register(Method::Get, "/products", Handler::Greeting),
        Err(RouteError::DuplicateRoute)
    );
    assert_eq!(table.len(), 1);
    assert_eq!(table.resolve(Method::Get, &"/products".to_string()), Some(Handler::Products));
}

#[test]
fn same_path_under_another_method_is_no_duplicate() {
    let mut table = RouteTable::new();
    assert_eq!(table.register(Method::Get, "/products", Handler::Products), Ok(()));
    assert_eq!(table.register(Method::Head, "/products", Handler::Greeting), Ok(()));
    assert_eq!(table.len(), 2);
    assert_eq!(table.resolve(Method::Head, &"/products".to_string()), Some(Handler::Greeting));
    assert_eq!(table.resolve(Method::Get, &"/products".to_string()), Some(Handler::Products));
}

#[test]
fn malformed_path_is_reported_before_duplicate() {
    let mut table = service_routes();
    assert_eq!(
        table.register(Method::Get, "/ products", Handler::Products),
        Err(RouteError::InvalidPath)
    );
    assert_eq!(table.len(), 2);
}

#[test]
fn valid_paths() {
    for path in ["/", "/products", "/a/b/c", "/A-z_0.9~", "/!$&'()*+,;=:@", "//"] {
        assert!(is_valid_path(path), "{path:?}");
    }
    for path in ["", "a", "a/", " /", "/ ", "/\t", "/\u{7f}", "/\u{0}", "/\u{2603}", "/\"", "/<", "/[", "/^", "/`", "/|"] {
        assert!(!is_valid_path(path), "{path:?}");
    }
}

#[test]
fn service_routes_are_the_two_routes() {
    let table = service_routes();
    assert_eq!(table.len(), 2);
    assert_eq!(table.resolve(Method::Get, &"/".to_string()), Some(Handler::Greeting));
    assert_eq!(table.resolve(Method::Get, &"/products".to_string()), Some(Handler::Products));
}

#[test]
fn unmatched_requests_invoke_no_handler() {
    let table = service_routes();
    let paths = ["", "/", "/products", "/products/", "/product", "/Products", "/x", "//", "/products/1", "/ "];
    let mut invoked = 0;
    let mut unmatched = 0;
    for method in METHODS {
        for path in paths {
            if method == Method::Get && (path == "/" || path == "/products") {
                continue;
            }
            unmatched += 1;
            let out = dispatch(&table, &Request::new(method, path));
            if out.handler.is_some() {
                invoked += 1;
            }
            assert_eq!(out.step.stage, Stage::Done);
            match out.step.action {
                Action::Reply(reply) => {
                    assert_eq!(reply.response, Response::not_found());
                    assert_eq!(reply.response.status, 404);
                    assert!(!reply.release);
                    assert_eq!(reply.error, None);
                }
                other => panic!("{other:?}"),
            }
        }
    }
    assert_eq!(unmatched, 98);
    assert_eq!(invoked, 0);
}

#[test]
fn empty_table_answers_not_found() {
    let table = RouteTable::new();
    let out = dispatch(&table, &Request::new(Method::Get, "/"));
    assert_eq!(out.handler, None);
    match out.step.action {
        Action::Reply(reply) => assert_eq!(reply.response.status, 404),
        other => panic!("{other:?}"),
    }
}

#[test]
fn greeting_is_fixed() {
    let table = service_routes();
    for _ in 0..3 {
        let out = dispatch(&table, &Request::new(Method::Get, "/"));
        assert_eq!(out.handler, Some(Handler::Greeting));
        assert_eq!(out.step.stage, Stage::Done);
        match out.step.action {
            Action::Reply(reply) => {
                assert_eq!(reply.response.status, 200);
                assert_eq!(reply.response.content, Content::Text);
                assert_eq!(reply.response.body, "Hello World!");
                assert!(reply.response.is_success());
                assert!(!reply.release);
                assert_eq!(reply.error, None);
            }
            other => panic!("{other:?}"),
        }
    }
}

#[test]
fn products_route_asks_for_a_connection() {
    let table = service_routes();
    let out = dispatch(&table, &Request::new(Method::Get, "/products"));
    assert_eq!(out.handler, Some(Handler::Products));
    assert_eq!(out.step.stage, Stage::Acquiring);
    assert_eq!(out.step.action, Action::Acquire);
}

#[test]
fn fixed_responses() {
    let not_found = Response::not_found();
    assert_eq!((not_found.status, not_found.content, not_found.body.as_str()), (404, Content::Text, ""));
    assert!(!not_found.is_success());
    let failure = Response::server_error();
    assert_eq!(
        (failure.status, failure.content, failure.body.as_str()),
        (500, Content::Text, "Internal Server Error")
    );
    assert!(!failure.is_success());
    let json = Response::json("[]".to_string());
    assert_eq!((json.status, json.content, json.body.as_str()), (200, Content::Json, "[]"));
    let request = Request::new(Method::Patch, "/x");
    assert_eq!((request.method, request.path.as_str()), (Method::Patch, "/x"));
}
