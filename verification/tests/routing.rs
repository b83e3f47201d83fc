use demo_service::response::{method_not_allowed, Body, ContentType, X_APP};
use demo_service::route::{route, Route};

#[test]
fn health_answers_under_every_method() {
    for method in ["GET", "POST", "PUT", "DELETE", "HEAD", "OPTIONS", "PATCH", "BREW"] {
        assert_eq!(route(method, "/health"), Route::Health);
    }
}

#[test]
fn health_is_matched_by_its_first_segment() {
    assert_eq!(route("POST", "/health/"), Route::Health);
    assert_eq!(route("POST", "/health/live"), Route::Health);
    assert_eq!(route("GET", "health"), Route::Health);
    assert_eq!(route("GET", "/healthz"), Route::Hello);
    assert_eq!(route("POST", "/healthz"), Route::MethodNotAllowed);
    assert_eq!(route("GET", "/healt"), Route::Hello);
    assert_eq!(route("GET", "//health"), Route::Hello);
    assert_eq!(route("GET", "/Health"), Route::Hello);
    assert_eq!(route("GET", "/x/health"), Route::Hello);
}

#[test]
fn query_takes_get_only() {
    assert_eq!(route("GET", "/query"), Route::Query);
    assert_eq!(route("GET", "/query/"), Route::Query);
    assert_eq!(route("GET", "/query/top"), Route::Query);
    assert_eq!(route("POST", "/query"), Route::MethodNotAllowed);
    assert_eq!(route("HEAD", "/query"), Route::MethodNotAllowed);
    assert_eq!(route("GET", "/queries"), Route::Hello);
}

#[test]
fn greeting_takes_every_other_get() {
    assert_eq!(route("GET", "/"), Route::Hello);
    assert_eq!(route("GET", ""), Route::Hello);
    assert_eq!(route("GET", "/index.html"), Route::Hello);
    assert_eq!(route("GET", "/a/b/c"), Route::Hello);
    assert_eq!(route("GET", "/caf\u{e9}/health"), Route::Hello);
}

#[test]
fn other_methods_are_not_allowed() {
    assert_eq!(route("POST", "/"), Route::MethodNotAllowed);
    assert_eq!(route("DELETE", "/anything"), Route::MethodNotAllowed);
    assert_eq!(route("get", "/"), Route::MethodNotAllowed);
    assert_eq!(route("", "/"), Route::MethodNotAllowed);
    assert_eq!(route("GETS", "/"), Route::MethodNotAllowed);
}

#[test]
fn header_log_runs_before_the_greeting_only() {
    assert!(Route::Hello.logs_headers());
    assert!(!Route::Health.logs_headers());
    assert!(!Route::Query.logs_headers());
    assert!(!Route::MethodNotAllowed.logs_headers());
}

#[test]
fn method_not_allowed_is_status_405() {
    let reply = method_not_allowed();
    assert_eq!(reply.status, 405);
    assert_eq!(reply.content_type, Some(ContentType::Plain));
    assert_eq!(reply.x_app, None);
    match reply.body {
        Body::Text(text) => assert_eq!(text, "HTTP method not allowed"),
        Body::Records(_) => panic!("a text body was expected"),
    }
}

#[test]
fn content_types_have_their_header_values() {
    assert_eq!(X_APP, "X-App");
    assert_eq!(ContentType::Html.header_value(), "text/html; charset=utf-8");
    assert_eq!(ContentType::Json.header_value(), "application/json");
    assert_eq!(ContentType::Plain.header_value(), "text/plain; charset=utf-8");
}
