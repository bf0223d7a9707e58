use postman_core::models::request::{Body, FormData, GraphQLBody};
use postman_core::bodybuild::build_body_from_struct;

fn empty_body() -> Body {
    Body { mode: None, raw: None, urlencoded: None, formdata: None, file: None, graphql: None }
}

fn item(key: &str, value: Option<&str>, disabled: Option<bool>) -> FormData {
    FormData {
        key: key.to_string(),
        value: value.map(|v| v.to_string()),
        data_type: None,
        disabled,
        description: None,
    }
}

#[test]
fn absent_body_is_none() {
    assert_eq!(build_body_from_struct(None).unwrap(), None);
}

#[test]
fn raw_mode_passes_through() {
    let b = Body {
        mode: Some("raw".to_string()),
        raw: Some("hello world".to_string()),
        ..empty_body()
    };
    assert_eq!(build_body_from_struct(Some(&b)).unwrap().unwrap(), "hello world");
}

#[test]
fn absent_mode_defaults_to_raw() {
    let b = Body { raw: Some("payload".to_string()), ..empty_body() };
    assert_eq!(build_body_from_struct(Some(&b)).unwrap().unwrap(), "payload");
}

#[test]
fn raw_mode_without_raw_is_none() {
    let b = Body { mode: Some("raw".to_string()), ..empty_body() };
    assert_eq!(build_body_from_struct(Some(&b)).unwrap(), None);
}

#[test]
fn urlencoded_items_are_encoded() {
    let b = Body {
        mode: Some("urlencoded".to_string()),
        urlencoded: Some(vec![item("a b", Some("c&d"), None), item("x", Some("1"), None)]),
        ..empty_body()
    };
    assert_eq!(build_body_from_struct(Some(&b)).unwrap().unwrap(), "a+b=c%26d&x=1");
}

#[test]
fn urlencoded_skips_disabled_and_valueless() {
    let b = Body {
        mode: Some("urlencoded".to_string()),
        urlencoded: Some(vec![
            item("off", Some("1"), Some(true)),
            item("novalue", None, None),
            item("on", Some("2"), None),
        ]),
        ..empty_body()
    };
    assert_eq!(build_body_from_struct(Some(&b)).unwrap().unwrap(), "on=2");
}

#[test]
fn formdata_is_rendered_urlencoded() {
    let b = Body {
        mode: Some("formdata".to_string()),
        formdata: Some(vec![item("k", Some("v v"), None)]),
        ..empty_body()
    };
    assert_eq!(build_body_from_struct(Some(&b)).unwrap().unwrap(), "k=v+v");
}

#[test]
fn graphql_envelope_with_json_variables() {
    let b = Body {
        mode: Some("graphql".to_string()),
        graphql: Some(GraphQLBody {
            query: Some("{ping}".to_string()),
            variables: Some("{\"x\":1}".to_string()),
        }),
        ..empty_body()
    };
    assert_eq!(
        build_body_from_struct(Some(&b)).unwrap().unwrap(),
        "{\"query\":\"{ping}\",\"variables\":{\"x\":1}}"
    );
}

#[test]
fn graphql_envelope_with_non_json_variables() {
    let b = Body {
        mode: Some("graphql".to_string()),
        graphql: Some(GraphQLBody {
            query: Some("{ping}".to_string()),
            variables: Some("not json".to_string()),
        }),
        ..empty_body()
    };
    assert_eq!(
        build_body_from_struct(Some(&b)).unwrap().unwrap(),
        "{\"query\":\"{ping}\",\"variables\":\"not json\"}"
    );
}

#[test]
fn graphql_variables_are_reserialized_compactly() {
    let b = Body {
        mode: Some("graphql".to_string()),
        graphql: Some(GraphQLBody {
            query: None,
            variables: Some("{ \"x\" : 1 }".to_string()),
        }),
        ..empty_body()
    };
    assert_eq!(build_body_from_struct(Some(&b)).unwrap().unwrap(), "{\"variables\":{\"x\":1}}");
}

#[test]
fn graphql_empty_envelope() {
    let b = Body {
        mode: Some("graphql".to_string()),
        graphql: Some(GraphQLBody { query: None, variables: None }),
        ..empty_body()
    };
    assert_eq!(build_body_from_struct(Some(&b)).unwrap().unwrap(), "{}");
}

#[test]
fn graphql_query_is_escaped() {
    let b = Body {
        mode: Some("graphql".to_string()),
        graphql: Some(GraphQLBody { query: Some("say \"hi\"".to_string()), variables: None }),
        ..empty_body()
    };
    assert_eq!(
        build_body_from_struct(Some(&b)).unwrap().unwrap(),
        "{\"query\":\"say \\\"hi\\\"\"}"
    );
}

#[test]
fn file_mode_gives_no_body() {
    let b = Body {
        mode: Some("file".to_string()),
        raw: Some("ignored".to_string()),
        ..empty_body()
    };
    assert_eq!(build_body_from_struct(Some(&b)).unwrap(), None);
}

#[test]
fn unknown_mode_gives_no_body() {
    let b = Body {
        mode: Some("carrier-pigeon".to_string()),
        raw: Some("ignored".to_string()),
        ..empty_body()
    };
    assert_eq!(build_body_from_struct(Some(&b)).unwrap(), None);
}
