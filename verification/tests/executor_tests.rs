use postman_core::errors::BuildError;
use postman_core::executor::{
    finish_response, parse_failure_response, prepare_request, HttpResponse, Method,
};
use postman_core::models::request::{Auth, Header, Request, Url};
use postman_core::models::variable::Variable;

fn url(host: &[&str]) -> Url {
    Url {
        raw: None,
        protocol: None,
        host: Some(host.iter().map(|h| h.to_string()).collect()),
        path: None,
        query: None,
        variable: None,
    }
}

fn request(method: Option<&str>) -> Request {
    Request {
        method: method.map(|m| m.to_string()),
        header: None,
        body: None,
        url: Some(url(&["example", "com"])),
        description: None,
        auth: None,
    }
}

fn header(key: &str, value: &str, disabled: Option<bool>) -> Header {
    Header { key: key.to_string(), value: value.to_string(), disabled, description: None }
}

#[test]
fn method_defaults_to_get() {
    let plan = prepare_request(&request(None)).unwrap();
    assert_eq!(plan.method, Method::Get);
    assert_eq!(plan.url, "http://example.com");
}

#[test]
fn method_is_uppercased() {
    let plan = prepare_request(&request(Some("post"))).unwrap();
    assert_eq!(plan.method, Method::Post);
}

#[test]
fn every_supported_method_parses() {
    let cases = [
        ("get", Method::Get),
        ("POST", Method::Post),
        ("Put", Method::Put),
        ("patch", Method::Patch),
        ("delete", Method::Delete),
        ("head", Method::Head),
        ("options", Method::Options),
    ];
    for (name, want) in cases {
        let plan = prepare_request(&request(Some(name))).unwrap();
        assert_eq!(plan.method, want);
    }
}

#[test]
fn unsupported_method_fails_without_reaching_network() {
    let r = prepare_request(&request(Some("TRACE")));
    assert_eq!(r.unwrap_err(), BuildError::UnsupportedMethod);
}

#[test]
fn unsupported_method_yields_status_zero_response() {
    let err = prepare_request(&request(Some("TRACE"))).unwrap_err();
    let resp = finish_response(Err(err.message()), 7);
    assert_eq!(resp.status_code, 0);
    assert_eq!(resp.body, "Error: Unsupported HTTP method");
    assert_eq!(resp.duration_ms, 7);
    assert!(resp.headers.is_empty());
}

#[test]
fn trace_on_raw_url_never_becomes_a_plan() {
    let mut r = request(Some("TRACE"));
    r.url = Some(Url {
        raw: Some("http://x".to_string()),
        protocol: None,
        host: None,
        path: None,
        query: None,
        variable: None,
    });
    let err = prepare_request(&r).unwrap_err();
    assert_eq!(err, BuildError::UnsupportedMethod);
    let resp = finish_response(Err(err.message()), 5);
    assert_eq!(resp.status_code, 0);
    assert_eq!(resp.body, "Error: Unsupported HTTP method");
    assert!(resp.headers.is_empty());
    assert_eq!(resp.duration_ms, 5);
}

#[test]
fn missing_url_error_comes_before_method_error() {
    let mut r = request(Some("TRACE"));
    r.url = None;
    assert_eq!(prepare_request(&r).unwrap_err(), BuildError::MissingUrl);
}

#[test]
fn disabled_headers_are_filtered_and_auth_comes_last() {
    let mut r = request(Some("get"));
    r.header = Some(vec![
        header("Keep", "1", None),
        header("Drop", "2", Some(true)),
        header("Also-Keep", "3", Some(false)),
    ]);
    r.auth = Some(Auth {
        auth_type: Some("bearer".to_string()),
        bearer: Some(vec![Variable {
            key: "token".to_string(),
            value: "T".to_string(),
            var_type: None,
            disabled: None,
        }]),
        basic: None,
        digest: None,
        awsv4: None,
        hawk: None,
        noauth: None,
        oauth1: None,
        oauth2: None,
        ntlm: None,
    });
    let plan = prepare_request(&r).unwrap();
    let keys: Vec<&str> = plan.headers.iter().map(|(k, _)| k.as_str()).collect();
    assert_eq!(keys, vec!["Keep", "Also-Keep", "Authorization"]);
    assert_eq!(plan.headers[2].1, "Bearer T");
}

#[test]
fn plan_carries_the_body() {
    let mut r = request(Some("post"));
    r.body = Some(postman_core::models::request::Body {
        mode: Some("raw".to_string()),
        raw: Some("data".to_string()),
        urlencoded: None,
        formdata: None,
        file: None,
        graphql: None,
    });
    let plan = prepare_request(&r).unwrap();
    assert_eq!(plan.body.unwrap(), "data");
}

#[test]
fn finish_response_sets_duration_on_success() {
    let inner = HttpResponse {
        status_code: 200,
        headers: vec![("content-type".to_string(), "text/plain".to_string())],
        body: "ok".to_string(),
        duration_ms: 0,
    };
    let resp = finish_response(Ok(inner), 42);
    assert_eq!(resp.status_code, 200);
    assert_eq!(resp.duration_ms, 42);
    assert_eq!(resp.body, "ok");
    assert_eq!(resp.headers.len(), 1);
}

#[test]
fn finish_response_wraps_transport_failure() {
    let resp = finish_response(Err("connection refused".to_string()), 3);
    assert_eq!(resp.status_code, 0);
    assert_eq!(resp.body, "Error: connection refused");
    assert_eq!(resp.duration_ms, 3);
}

#[test]
fn parse_failure_has_zero_duration_and_status() {
    let resp = parse_failure_response("expected value at line 1");
    assert_eq!(resp.status_code, 0);
    assert_eq!(resp.body, "Error parsing request: expected value at line 1");
    assert_eq!(resp.duration_ms, 0);
    assert!(resp.headers.is_empty());
}

#[test]
fn build_error_messages() {
    assert_eq!(BuildError::MissingUrl.message(), "URL is required");
    assert_eq!(BuildError::MissingHost.message(), "Host is required");
    assert_eq!(BuildError::UnsupportedMethod.message(), "Unsupported HTTP method");
}
