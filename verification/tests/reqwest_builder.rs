use reqwest_builder::construct_url;
use reqwest_builder::document::{Document, FieldValue};
use reqwest_builder::errors::ReqwestBuilderError;
use reqwest_builder::serialization::{serialize_to_form_params, serialize_to_header_map};
use reqwest_builder::trait_impl::IntoReqwestBuilder;
use reqwest_builder::types::{HttpMethod, RequestBody};
use url::Url;

struct TestRequest {
    field1: String,
    field2: i32,
    field3: Option<String>,
}

fn test_request_document(r: &TestRequest) -> Document {
    let field3 = match &r.field3 {
        Some(v) => FieldValue::Text(v.clone()),
        None => FieldValue::Null,
    };
    Document::Object(vec![
        ("field1".to_string(), FieldValue::Text(r.field1.clone())),
        ("field2".to_string(), FieldValue::Int(r.field2 as i64)),
        ("field3".to_string(), field3),
    ])
}

impl IntoReqwestBuilder for TestRequest {
    fn method(&self) -> HttpMethod {
        HttpMethod::Post
    }

    fn endpoint(&self) -> String {
        "/test/endpoint".to_string()
    }

    fn document(&self) -> Result<Document, ReqwestBuilderError> {
        Ok(test_request_document(self))
    }
}

#[test]
fn test_construct_url() {
    let base_url = Url::parse("https://api.example.com/").unwrap();
    let result = construct_url(base_url.as_str(), "/test/endpoint");
    assert_eq!(result, "https://api.example.com/test/endpoint");

    let base_url = Url::parse("https://api.example.com").unwrap();
    let result = construct_url(base_url.as_str(), "test/endpoint");
    assert_eq!(result, "https://api.example.com/test/endpoint");

    let base_url = Url::parse("https://api.example.com").unwrap();
    let result = construct_url(base_url.as_str(), "");
    assert_eq!(result, "https://api.example.com");
}

#[test]
fn reqwest_builder_test_request_body_none() {
    struct GetRequest {
        id: String,
    }

    impl IntoReqwestBuilder for GetRequest {
        fn method(&self) -> HttpMethod {
            HttpMethod::Get
        }

        fn endpoint(&self) -> String {
            format!("/users/{}", self.id)
        }

        fn body(&self) -> RequestBody {
            RequestBody::NoBody
        }
    }

    let request = GetRequest {
        id: "123".to_string(),
    };

    let base_url = Url::parse("https://api.example.com").unwrap();
    let _builder = request.into_reqwest_builder(base_url.as_str());
}

#[test]
fn reqwest_builder_test_serialize_to_header_map_with_error_handling() {
    let headers = Document::Object(vec![
        (
            "Content-Type".to_string(),
            FieldValue::Text("application/json".to_string()),
        ),
        (
            "Authorization".to_string(),
            FieldValue::Text("Bearer token123".to_string()),
        ),
    ]);

    let result = serialize_to_header_map(&headers);
    assert!(result.is_ok());
    let header_map = result.unwrap();
    assert_eq!(header_map.get("Content-Type").unwrap(), "application/json");
    assert_eq!(header_map.get("Authorization").unwrap(), "Bearer token123");
}

#[test]
fn reqwest_builder_test_serialize_to_header_map_invalid_header() {
    let headers = Document::Object(vec![(
        "Invalid\r\nHeader".to_string(),
        FieldValue::Text("value".to_string()),
    )]);

    let result = serialize_to_header_map(&headers);
    assert!(result.is_err());
    match result.unwrap_err() {
        ReqwestBuilderError::HeaderError { key, .. } => {
            assert_eq!(key, "Invalid\r\nHeader");
        }
        _ => panic!("Expected HeaderError"),
    }
}

#[test]
fn reqwest_builder_test_serialize_to_form_params_with_error_handling() {
    let test_data = TestRequest {
        field1: "value1".to_string(),
        field2: 42,
        field3: Some("value3".to_string()),
    };

    let result = serialize_to_form_params(&test_request_document(&test_data));
    assert!(result.is_ok());
    let params = result.unwrap();
    assert_eq!(params.get("field1"), Some(&"value1".to_string()));
    assert_eq!(params.get("field2"), Some(&"42".to_string()));
    assert_eq!(params.get("field3"), Some(&"value3".to_string()));
}

#[test]
fn reqwest_builder_test_into_reqwest_builder() {
    let request = TestRequest {
        field1: "value1".to_string(),
        field2: 42,
        field3: Some("value3".to_string()),
    };

    let base_url = Url::parse("https://api.example.com").unwrap();

    let result = request.into_reqwest_builder(base_url.as_str());
    assert!(result.is_ok());
}
