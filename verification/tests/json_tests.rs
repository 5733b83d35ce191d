use gen_axum::extract::json::{
    is_json_media_type, json_content_type, json_rejection, json_response, parse_media_type,
    str_eq_ignore_ascii_case, Json, JsonDeserializeError, JsonErrorCategory, JsonRejection,
};
use http::{HeaderMap, HeaderValue};

fn valid_json_content_type(content_type: &str) -> bool {
    let mut headers = HeaderMap::new();
    headers.insert("content-type", HeaderValue::from_str(content_type).unwrap());
    json_content_type(&headers)
}

#[test]
fn json_content_types() {
    assert!(valid_json_content_type("application/json"));
    assert!(valid_json_content_type("application/json; charset=utf-8"));
    assert!(valid_json_content_type("application/json;charset=utf-8"));
    assert!(valid_json_content_type("application/cloudevents+json"));
    assert!(!valid_json_content_type("text/json"));
}

#[test]
fn json_content_type_requires_header() {
    assert!(!json_content_type(&HeaderMap::new()));
    assert!(!valid_json_content_type("application/text"));
    assert!(!valid_json_content_type("not a media type"));
    assert!(valid_json_content_type("Application/JSON"));
}

#[test]
fn consume_body_to_json_requires_json_content_type() {
    assert!(!valid_json_content_type("application/text"));
    let err = json_rejection(JsonRejection::MissingJsonContentType);
    assert_eq!(err.status(), 415);
    assert_eq!(
        err.detail().clone(),
        Some("Expected request with `Content-Type: application/json`".to_string())
    );
}

#[test]
fn invalid_json_syntax() {
    let parsed: Result<serde_json::Value, serde_json::Error> = serde_json::from_str("{");
    let e = parsed.unwrap_err();
    let category = match e.classify() {
        serde_json::error::Category::Io => JsonErrorCategory::Io,
        serde_json::error::Category::Syntax => JsonErrorCategory::Syntax,
        serde_json::error::Category::Data => JsonErrorCategory::Data,
        serde_json::error::Category::Eof => JsonErrorCategory::Eof,
    };
    let result: Result<Json<u32>, _> = Json::from_deserialized(Err(JsonDeserializeError {
        category,
        path: ".".to_string(),
        message: format!("{:#}", e),
    }));
    let err = result.unwrap_err();
    assert_eq!(err.status(), 400);
    assert_eq!(
        err.detail().clone().unwrap(),
        format!("failed to parse the request body as JSON; json error {:#}", e)
    );
}

#[test]
fn deserialize_body() {
    let mut headers = HeaderMap::new();
    headers.insert("content-type", HeaderValue::from_static("application/json"));
    assert!(json_content_type(&headers));

    let contents = r#"{ "foo": "bar" }"#;
    let jd = &mut serde_json::Deserializer::from_slice(contents.as_bytes());
    let parsed: Result<serde_json::Value, _> = serde_path_to_error::deserialize(jd);
    let result = parsed.map_err(|err| JsonDeserializeError {
        category: JsonErrorCategory::Syntax,
        path: err.path().to_string(),
        message: format!("{:#}", err.inner()),
    });
    let extracted = Json::from_deserialized(result).unwrap();
    assert_eq!(extracted.0["foo"], "bar");
    assert_eq!((*extracted)["foo"].as_str(), Some("bar"));
}

#[test]
fn data_errors_are_unprocessable() {
    let err = json_rejection(JsonRejection::Deserialize(JsonDeserializeError {
        category: JsonErrorCategory::Data,
        path: "foo".to_string(),
        message: "invalid type: integer `1`, expected a string".to_string(),
    }));
    assert_eq!(err.status(), 422);
    assert_eq!(
        err.detail().clone().unwrap(),
        "failed to deserialize the JSON body into the target type, json error path: foo; json error invalid type: integer `1`, expected a string"
    );
    assert_eq!(err.title().clone(), Some("Unprocessable Entity".to_string()));
}

#[test]
fn unreadable_body_is_bad_request() {
    let err = json_rejection(JsonRejection::BodyUnreadable);
    assert_eq!(err.status(), 400);
    assert_eq!(err.detail().clone(), Some("Unable to parse request body".to_string()));
}

#[test]
fn media_type_parts() {
    let m = parse_media_type("application/cloudevents+json; charset=utf-8").unwrap();
    assert_eq!(m.type_, "application");
    assert_eq!(m.subtype, "cloudevents");
    assert_eq!(m.suffix, Some("json".to_string()));
    assert!(is_json_media_type(&m));
    assert!(parse_media_type("nonsense").is_none());
}

#[test]
fn ascii_case_insensitive_comparison() {
    assert!(str_eq_ignore_ascii_case("JSON", "json"));
    assert!(!str_eq_ignore_ascii_case("jsonx", "json"));
    assert!(!str_eq_ignore_ascii_case("jsob", "json"));
}

#[test]
fn json_response_parts() {
    let ok = json_response(Ok(b"{\"a\":1}".to_vec()));
    assert_eq!(ok.status, 200);
    assert_eq!(ok.content_type, "application/json");
    assert_eq!(ok.body, b"{\"a\":1}".to_vec());

    let err = json_response(Err("key must be a string".to_string()));
    assert_eq!(err.status, 500);
    assert_eq!(err.content_type, "text/plain; charset=utf-8");
    assert_eq!(err.body, b"key must be a string".to_vec());
}

#[test]
fn json_response_content_type_is_accepted() {
    let parts = json_response(Ok(b"{}".to_vec()));
    let mut headers = HeaderMap::new();
    headers.insert("content-type", HeaderValue::from_str(&parts.content_type).unwrap());
    assert!(json_content_type(&headers));
}

#[test]
fn json_from_value() {
    let j: Json<u8> = Json::from(7);
    assert_eq!(*j.inner(), 7);
}
