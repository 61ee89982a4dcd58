use async_openai_wasm::config::{AzureConfig, Config, OpenAIConfig};
use async_openai_wasm::error::OpenAIError;
use async_openai_wasm::request::{
    check_stream_flag, json_request, json_text_request, multipart_request, Method, RequestBody,
};
use async_openai_wasm::response::decode_response;

fn azure(version: Option<&str>) -> Config {
    Config::Azure(AzureConfig {
        api_base: "https://res.openai.azure.com".to_string(),
        api_key: "k".to_string(),
        deployment_id: "dep".to_string(),
        api_version: version.map(|v| v.to_string()),
    })
}

#[test]
fn gateway_without_version_fails() {
    let c = azure(None);
    assert!(matches!(c.url("/chat/completions"), Err(OpenAIError::Configuration(_))));
    assert!(matches!(c.query(), Err(OpenAIError::Configuration(_))));
}

#[test]
fn gateway_url_and_query() {
    let c = azure(Some("2023-03-15-preview"));
    assert_eq!(
        c.url("/chat/completions").ok().unwrap(),
        "https://res.openai.azure.com/openai/deployments/dep/chat/completions"
    );
    let q = c.query().ok().unwrap();
    assert_eq!(q, vec![("api-version".to_string(), "2023-03-15-preview".to_string())]);
    assert_eq!(c.headers(), vec![("api-key".to_string(), "k".to_string())]);
}

#[test]
fn default_service_sends_no_version() {
    let c = Config::OpenAI(OpenAIConfig::new("sk".to_string()));
    assert_eq!(c.url("/models").ok().unwrap(), "https://api.openai.com/v1/models");
    assert!(c.query().ok().unwrap().is_empty());
    assert_eq!(c.headers(), vec![("Authorization".to_string(), "Bearer sk".to_string())]);
}

#[test]
fn organization_header() {
    let mut o = OpenAIConfig::new("sk".to_string());
    o.org_id = "the-continental".to_string();
    let h = Config::OpenAI(o).headers();
    assert_eq!(h.len(), 2);
    assert_eq!(h[1], ("OpenAI-Organization".to_string(), "the-continental".to_string()));
}

#[test]
fn json_body_round_trips() {
    let c = Config::OpenAI(OpenAIConfig::new("sk".to_string()));
    let mut m = serde_json::Map::new();
    m.insert("model".to_string(), serde_json::Value::String("gpt-3.5-turbo".to_string()));
    m.insert("max_tokens".to_string(), serde_json::Value::from(40));
    let v = serde_json::Value::Object(m);
    let req = json_request(&c, "/completions", &v).ok().unwrap();
    assert!(req.method == Method::Post);
    assert_eq!(req.url, "https://api.openai.com/v1/completions");
    assert_eq!(req.headers.last().unwrap(), &("Content-Type".to_string(), "application/json".to_string()));
    match req.body {
        RequestBody::Json(b) => {
            let back: serde_json::Value = serde_json::from_slice(&b).unwrap();
            assert_eq!(back, v);
        }
        _ => panic!("expected a JSON body"),
    }
}

#[test]
fn multipart_request_keeps_form() {
    let c = azure(None);
    let form = async_openai_wasm::multipart::MultipartForm::new();
    assert!(matches!(multipart_request(&c, "/files", form), Err(OpenAIError::Configuration(_))));
}

#[test]
fn api_error_body_gives_api_error() {
    let body = br#"{"error":{"message":"invalid key","type":"invalid_request_error"}}"#;
    match decode_response(401, body) {
        Err(OpenAIError::Api(e)) => {
            assert_eq!(e.message, "invalid key");
            assert_eq!(e.error_type.as_deref(), Some("invalid_request_error"));
            assert!(e.param.is_none());
            assert!(e.code.is_none());
        }
        _ => panic!("expected an Api error"),
    }
}

#[test]
fn non_json_error_body_keeps_status() {
    match decode_response(503, b"upstream down") {
        Err(OpenAIError::ApiStatus { status, body }) => {
            assert_eq!(status, 503);
            assert_eq!(body, "upstream down");
        }
        _ => panic!("expected a status error"),
    }
}

#[test]
fn success_body_decodes() {
    let v = decode_response(200, br#"{"id":"x"}"#).ok().unwrap();
    assert_eq!(v["id"], "x");
    assert!(matches!(decode_response(200, b"not json"), Err(OpenAIError::Deserialization(_))));
}

#[test]
fn stream_flag_must_match_call() {
    assert!(check_stream_flag(None, false).is_ok());
    assert!(check_stream_flag(Some(true), true).is_ok());
    assert!(matches!(check_stream_flag(Some(true), false), Err(OpenAIError::InvalidArgument(_))));
    assert!(matches!(check_stream_flag(Some(false), true), Err(OpenAIError::InvalidArgument(_))));
}

#[test]
fn json_text_request_keeps_body() {
    let c = azure(Some("v1"));
    let req = json_text_request(&c, "/embeddings", b"{}".to_vec()).ok().unwrap();
    assert_eq!(req.url, "https://res.openai.azure.com/openai/deployments/dep/embeddings");
    assert_eq!(req.query, vec![("api-version".to_string(), "v1".to_string())]);
    assert_eq!(
        req.headers,
        vec![
            ("api-key".to_string(), "k".to_string()),
            ("Content-Type".to_string(), "application/json".to_string())
        ]
    );
    assert!(matches!(req.body, RequestBody::Json(ref b) if b == b"{}"));
    assert!(matches!(json_text_request(&azure(None), "/x", vec![]), Err(OpenAIError::Configuration(_))));
}

#[test]
fn gateway_with_empty_version_fails() {
    let c = azure(Some(""));
    assert!(matches!(c.url("/chat/completions"), Err(OpenAIError::Configuration(_))));
    assert!(matches!(c.query(), Err(OpenAIError::Configuration(_))));
    let form = async_openai_wasm::multipart::MultipartForm::new();
    assert!(matches!(multipart_request(&c, "/files", form), Err(OpenAIError::Configuration(_))));
    assert!(matches!(
        json_request(&c, "/chat/completions", &serde_json::Value::Null),
        Err(OpenAIError::Configuration(_))
    ));
}

#[test]
fn json_request_succeeds_with_usable_config() {
    let c = azure(Some("2024-02-01"));
    let req = json_request(&c, "/chat/completions", &serde_json::Value::Bool(true)).ok().unwrap();
    assert!(matches!(req.body, RequestBody::Json(ref b) if b == b"true"));
}
