use template_helpers::fetch::{prepare, HttpResult, Request, ERROR_STATUS, TRACE_FAILED_STATUS, TRACE_SENT_STATUS};

fn refused(r: Result<Request, HttpResult>) -> HttpResult {
    match r {
        Ok(q) => panic!("expected a refusal, got a request for {}", q.url),
        Err(e) => e,
    }
}

fn accepted(r: Result<Request, HttpResult>) -> Request {
    match r {
        Ok(q) => q,
        Err(e) => panic!("expected a request, got status {}", e.status),
    }
}

#[test]
fn empty_method_is_invalid() {
    let e = refused(prepare("", "http://example.com/", None));
    assert_eq!(e.status, 400);
    assert!(e.headers.is_empty());
    assert!(e.body.starts_with(b"Invalid method!"));
    assert_eq!(e.body, b"Invalid method!\nInvalidMethod".to_vec());
}

#[test]
fn method_with_space_is_invalid() {
    let e = refused(prepare("FOO BAR", "http://example.com/", None));
    assert_eq!(e.status, ERROR_STATUS);
    assert!(e.body.starts_with(b"Invalid method!"));
}

#[test]
fn method_checked_before_url() {
    let e = refused(prepare("", "not a url", None));
    assert!(e.body.starts_with(b"Invalid method!"));
}

#[test]
fn unparseable_url_is_invalid() {
    let e = refused(Request::get("not a url"));
    assert_eq!(e.status, 400);
    assert!(e.headers.is_empty());
    assert!(e.body.starts_with(b"Invalid URL!"));
    assert_eq!(e.body, b"Invalid URL!\nRelativeUrlWithoutBase".to_vec());
}

#[test]
fn extension_method_is_kept() {
    let q = accepted(prepare("get", "http://example.com/a", None));
    assert_eq!(q.method, "get");
    let q = accepted(prepare("PURGE", "http://example.com/a", None));
    assert_eq!(q.method, "PURGE");
}

#[test]
fn url_is_serialized() {
    let q = accepted(Request::get("HTTP://Example.COM"));
    assert_eq!(q.method, "GET");
    assert_eq!(q.url, "http://example.com/");
    assert!(q.body.is_none());
}

#[test]
fn verbs_without_body() {
    assert_eq!(accepted(Request::head("http://h/")).method, "HEAD");
    assert_eq!(accepted(Request::options("http://h/")).method, "OPTIONS");
    let q = accepted(Request::delete("http://h/"));
    assert_eq!(q.method, "DELETE");
    assert!(q.body.is_none());
}

#[test]
fn verbs_with_body() {
    let body = vec![1u8, 2, 3];
    let q = accepted(Request::post("http://h/echo", &body));
    assert_eq!(q.method, "POST");
    assert_eq!(q.body, Some(vec![1u8, 2, 3]));
    assert_eq!(accepted(Request::put("http://h/", &body)).method, "PUT");
    let q = accepted(Request::patch("http://h/", &Vec::new()));
    assert_eq!(q.method, "PATCH");
    assert_eq!(q.body, Some(Vec::new()));
}

#[test]
fn request_failure_message() {
    let r = HttpResult::request_failed("error sending request");
    assert_eq!(r.status, 400);
    assert!(r.headers.is_empty());
    assert_eq!(r.body, b"Request fail!\nerror sending request".to_vec());
}

#[test]
fn response_headers_first_value_wins() {
    let raw = vec![
        ("x-test".to_string(), b"1".to_vec()),
        ("x-test".to_string(), b"2".to_vec()),
        ("x-bin".to_string(), vec![0x80]),
        ("x-bin".to_string(), b"ok".to_vec()),
        ("x-tab".to_string(), b"a\tb".to_vec()),
        ("x-ctl".to_string(), vec![0x7f]),
    ];
    let r = HttpResult::from_response(201, &raw, Some(b"hello".to_vec()));
    assert_eq!(r.status, 201);
    assert_eq!(
        r.headers,
        vec![("x-test".to_string(), "1".to_string()), ("x-tab".to_string(), "a\tb".to_string())]
    );
    assert_eq!(r.body, b"hello".to_vec());
}

#[test]
fn unreadable_body_is_empty() {
    let raw = vec![("content-type".to_string(), b"text/plain".to_vec())];
    let r = HttpResult::from_response(200, &raw, None);
    assert_eq!(r.status, 200);
    assert_eq!(r.headers.len(), 1);
    assert!(r.body.is_empty());
}

#[test]
fn same_response_same_value() {
    let raw = vec![("x-test".to_string(), b"1".to_vec())];
    let a = HttpResult::from_response(200, &raw, Some(b"hello".to_vec()));
    let b = HttpResult::from_response(200, &raw, Some(b"hello".to_vec()));
    assert_eq!(a.status, b.status);
    assert_eq!(a.headers, b.headers);
    assert_eq!(a.body, b.body);
}

#[test]
fn trace_events() {
    let q = accepted(Request::get("http://example.com/x"));
    let start = q.trace_start();
    assert_eq!(start.method, "GET");
    assert_eq!(start.url, "http://example.com/x");
    assert_eq!(start.status, None);
    assert_eq!(start.detail, "");
    let sent = q.trace_sent();
    assert_eq!(sent.status, Some(200));
    assert_eq!(TRACE_SENT_STATUS, 200);
    let failed = q.trace_failed("refused");
    assert_eq!(failed.status, Some(TRACE_FAILED_STATUS));
    assert_eq!(failed.status, Some(500));
    assert_eq!(failed.detail, "refused");
}
