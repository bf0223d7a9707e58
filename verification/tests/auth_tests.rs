use postman_core::models::request::Auth;
use postman_core::models::variable::Variable;
use postman_core::auth::apply_auth;

fn var(key: &str, value: &str) -> Variable {
    Variable { key: key.to_string(), value: value.to_string(), var_type: None, disabled: None }
}

fn auth(auth_type: Option<&str>) -> Auth {
    Auth {
        auth_type: auth_type.map(|t| t.to_string()),
        bearer: None,
        basic: None,
        digest: None,
        awsv4: None,
        hawk: None,
        noauth: None,
        oauth1: None,
        oauth2: None,
        ntlm: None,
    }
}

#[test]
fn bearer_token_appends_header() {
    let a = Auth { bearer: Some(vec![var("token", "XYZ")]), ..auth(Some("bearer")) };
    let mut headers: Vec<(String, String)> = Vec::new();
    apply_auth(&a, &mut headers).unwrap();
    assert_eq!(headers, vec![("Authorization".to_string(), "Bearer XYZ".to_string())]);
}

#[test]
fn bearer_renamed_key_appends_nothing() {
    let a = Auth { bearer: Some(vec![var("tok", "XYZ")]), ..auth(Some("bearer")) };
    let mut headers: Vec<(String, String)> = Vec::new();
    apply_auth(&a, &mut headers).unwrap();
    assert!(headers.is_empty());
}

#[test]
fn bearer_capitalized_key_also_matches() {
    let a = Auth { bearer: Some(vec![var("Token", "abc")]), ..auth(Some("bearer")) };
    let mut headers: Vec<(String, String)> = Vec::new();
    apply_auth(&a, &mut headers).unwrap();
    assert_eq!(headers, vec![("Authorization".to_string(), "Bearer abc".to_string())]);
}

#[test]
fn bearer_every_match_appends() {
    let a = Auth {
        bearer: Some(vec![var("token", "one"), var("token", "two")]),
        ..auth(Some("bearer"))
    };
    let mut headers: Vec<(String, String)> = Vec::new();
    apply_auth(&a, &mut headers).unwrap();
    assert_eq!(headers.len(), 2);
    assert_eq!(headers[0].1, "Bearer one");
    assert_eq!(headers[1].1, "Bearer two");
}

#[test]
fn basic_credentials_are_base64_encoded() {
    let a = Auth {
        basic: Some(vec![var("user", "bob"), var("pass", "secret")]),
        ..auth(Some("basic"))
    };
    let mut headers: Vec<(String, String)> = Vec::new();
    apply_auth(&a, &mut headers).unwrap();
    assert_eq!(
        headers,
        vec![("Authorization".to_string(), "Basic Ym9iOnNlY3JldA==".to_string())]
    );
}

#[test]
fn basic_last_matching_entry_wins() {
    let a = Auth {
        basic: Some(vec![var("username", "first"), var("User", "bob"), var("password", "secret")]),
        ..auth(Some("basic"))
    };
    let mut headers: Vec<(String, String)> = Vec::new();
    apply_auth(&a, &mut headers).unwrap();
    assert_eq!(headers[0].1, "Basic Ym9iOnNlY3JldA==");
}

#[test]
fn basic_both_empty_appends_nothing() {
    let a = Auth {
        basic: Some(vec![var("user", ""), var("pass", "")]),
        ..auth(Some("basic"))
    };
    let mut headers: Vec<(String, String)> = Vec::new();
    apply_auth(&a, &mut headers).unwrap();
    assert!(headers.is_empty());
}

#[test]
fn basic_one_empty_side_still_encodes() {
    let a = Auth { basic: Some(vec![var("user", "bob")]), ..auth(Some("basic")) };
    let mut headers: Vec<(String, String)> = Vec::new();
    apply_auth(&a, &mut headers).unwrap();
    // base64 of "bob:"
    assert_eq!(headers[0].1, "Basic Ym9iOg==");
}

#[test]
fn unsupported_auth_types_are_noops() {
    for t in ["digest", "awsv4", "hawk", "oauth1", "oauth2", "ntlm", "noauth"] {
        let a = auth(Some(t));
        let mut headers: Vec<(String, String)> = vec![("X".to_string(), "1".to_string())];
        apply_auth(&a, &mut headers).unwrap();
        assert_eq!(headers.len(), 1);
    }
}

#[test]
fn absent_auth_type_is_noauth() {
    let a = Auth { bearer: Some(vec![var("token", "XYZ")]), ..auth(None) };
    let mut headers: Vec<(String, String)> = Vec::new();
    apply_auth(&a, &mut headers).unwrap();
    assert!(headers.is_empty());
}

#[test]
fn existing_headers_are_kept_in_front() {
    let a = Auth { bearer: Some(vec![var("token", "XYZ")]), ..auth(Some("bearer")) };
    let mut headers: Vec<(String, String)> =
        vec![("Content-Type".to_string(), "text/plain".to_string())];
    apply_auth(&a, &mut headers).unwrap();
    assert_eq!(headers[0].0, "Content-Type");
    assert_eq!(headers[1].0, "Authorization");
}
