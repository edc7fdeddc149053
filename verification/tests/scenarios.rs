use bytes::Bytes;
use http::{Request, Response, StatusCode, Version};
use indexmap::IndexMap;
use oauth_protected_resource::{OAuthProtectedResource, PolicyOutcome};
use serde_json::{Number, Value};

fn request() -> Request<Bytes> {
    Request::builder()
        .uri("/.well-known/oauth-protected-resource")
        .body(Bytes::new())
        .unwrap()
}

fn text(s: &str) -> Value {
    Value::String(s.to_string())
}

fn served(config: &OAuthProtectedResource) -> Response<Bytes> {
    match config.apply(&request()) {
        Ok(PolicyOutcome::DirectResponse(response)) => response,
        other => panic!("expected a direct response, got {:?}", other),
    }
}

fn header<'a>(response: &'a Response<Bytes>, name: &str) -> &'a str {
    response.headers().get(name).unwrap().to_str().unwrap()
}

#[test]
fn single_member_is_served_pretty_printed() {
    let mut metadata = IndexMap::new();
    metadata.insert("resource".to_string(), text("https://api.example.com"));
    let response = served(&OAuthProtectedResource { metadata });

    assert_eq!(response.status(), StatusCode::OK);
    assert_eq!(response.status().as_u16(), 200);
    assert_eq!(header(&response, "content-type"), "application/json");
    assert_eq!(header(&response, "access-control-allow-origin"), "*");
    assert_eq!(
        response.body().as_ref(),
        "{\n  \"resource\": \"https://api.example.com\"\n}".as_bytes()
    );
}

#[test]
fn empty_metadata_is_served_as_empty_object() {
    let response = served(&OAuthProtectedResource { metadata: IndexMap::new() });

    assert_eq!(response.status().as_u16(), 200);
    assert_eq!(response.body().as_ref(), "{}".as_bytes());
    assert_eq!(response.headers().len(), 5);
    assert_eq!(header(&response, "content-type"), "application/json");
    assert_eq!(header(&response, "cache-control"), "public, max-age=3600");
    assert_eq!(header(&response, "access-control-allow-origin"), "*");
    assert_eq!(header(&response, "access-control-allow-methods"), "GET, OPTIONS");
    assert_eq!(header(&response, "access-control-allow-headers"), "content-type");
}

#[test]
fn members_are_served_in_insertion_order() {
    let mut metadata = IndexMap::new();
    metadata.insert("resource".to_string(), text("https://api.example.com"));
    metadata.insert(
        "authorization_servers".to_string(),
        Value::Array(vec![text("https://auth.example.com")]),
    );
    let response = served(&OAuthProtectedResource { metadata });

    let expected = "{\n  \"resource\": \"https://api.example.com\",\n  \"authorization_servers\": [\n    \"https://auth.example.com\"\n  ]\n}";
    assert_eq!(response.body().as_ref(), expected.as_bytes());
}

#[test]
fn a_key_inserted_again_keeps_its_place_and_takes_the_new_value() {
    let mut metadata = IndexMap::new();
    metadata.insert("resource".to_string(), text("https://old.example.com"));
    metadata.insert("scopes_supported".to_string(), Value::Array(vec![]));
    metadata.insert("resource".to_string(), text("https://new.example.com"));
    let response = served(&OAuthProtectedResource { metadata });

    let expected =
        "{\n  \"resource\": \"https://new.example.com\",\n  \"scopes_supported\": []\n}";
    assert_eq!(response.body().as_ref(), expected.as_bytes());
}

#[test]
fn nested_values_are_served_at_every_level() {
    let mut signing = serde_json::Map::new();
    signing.insert("alg".to_string(), text("ES256"));
    signing.insert("required".to_string(), Value::Bool(true));
    let mut limits = serde_json::Map::new();
    limits.insert("burst".to_string(), Value::Number(Number::from(20u64)));
    limits.insert("rate".to_string(), Value::Number(Number::from_f64(1.5).unwrap()));
    limits.insert("signing".to_string(), Value::Object(signing));

    let mut metadata = IndexMap::new();
    metadata.insert("resource".to_string(), text("https://api.example.com"));
    metadata.insert("limits".to_string(), Value::Object(limits));
    metadata.insert(
        "bearer_methods_supported".to_string(),
        Value::Array(vec![
            text("header"),
            Value::Null,
            Value::Array(vec![Value::Number(Number::from(-1i64)), Value::Object(serde_json::Map::new())]),
        ]),
    );
    let config = OAuthProtectedResource { metadata };
    let response = served(&config);

    let expected = "{
  \"resource\": \"https://api.example.com\",
  \"limits\": {
    \"burst\": 20,
    \"rate\": 1.5,
    \"signing\": {
      \"alg\": \"ES256\",
      \"required\": true
    }
  },
  \"bearer_methods_supported\": [
    \"header\",
    null,
    [
      -1,
      {}
    ]
  ]
}";
    assert_eq!(response.body().as_ref(), expected.as_bytes());

    let parsed: IndexMap<String, Value> = serde_json::from_slice(response.body()).unwrap();
    assert_eq!(parsed, config.metadata);
    let again = served(&config);
    assert_eq!(again.body(), response.body());
}

#[test]
fn text_outside_ascii_is_served_as_utf8() {
    let mut metadata = IndexMap::new();
    metadata.insert("resource_name".to_string(), text("Café API \u{2713}"));
    let response = served(&OAuthProtectedResource { metadata });

    let expected = "{\n  \"resource_name\": \"Café API \u{2713}\"\n}";
    assert_eq!(response.body().as_ref(), expected.as_bytes());
    assert_eq!(response.body().len(), expected.chars().count() + 3);
}

#[test]
fn response_is_plain_http_1_1() {
    let response = served(&OAuthProtectedResource { metadata: IndexMap::new() });
    assert_eq!(response.version(), Version::HTTP_11);
}
