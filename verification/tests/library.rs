use reqwest_builder::document::{Document, FieldValue};
use reqwest_builder::errors::ReqwestBuilderError;
use reqwest_builder::file_upload::{FileUpload, MultipartForm, MultipartPart};
use reqwest_builder::headers::HeaderMap;
use reqwest_builder::resolver::{
    build_aux_headers, collect_query_params, parse_body_kind, parse_method, resolve_container,
    resolve_roles, substitute_path_params, FieldRole,
};
use reqwest_builder::serialization::{
    construct_url, serialize_to_form_params, serialize_to_header_map,
    serialize_to_header_map_safe,
};
use reqwest_builder::text::{bool_to_string, i64_to_string, u64_to_string};
use reqwest_builder::trait_impl::{
    assemble_request, assemble_request_safe, AssembledBody, IntoReqwestBuilder, RequestParts,
};
use reqwest_builder::types::{HttpMethod, QueryParams, RequestBody};

#[test]
fn url_join_edge_cases() {
    assert_eq!(
        construct_url("https://api.example.com/", ""),
        "https://api.example.com"
    );
    assert_eq!(
        construct_url("https://api.example.com///", "///x"),
        "https://api.example.com/x"
    );
    assert_eq!(construct_url("", "a/b"), "/a/b");
    assert_eq!(construct_url("https://h", "///"), "https://h");
}

#[test]
fn path_substitution_replaces_every_occurrence() {
    let values = vec![("id".to_string(), "123".to_string())];
    assert_eq!(
        substitute_path_params("/api/users/{id}/posts", &values),
        "/api/users/123/posts"
    );
    assert_eq!(
        substitute_path_params("/{id}/x/{id}", &values),
        "/123/x/123"
    );
    let none: Vec<(String, String)> = Vec::new();
    assert_eq!(
        substitute_path_params("/api/users/{id}/posts", &none),
        "/api/users/{id}/posts"
    );
    let unknown = vec![("other".to_string(), "9".to_string())];
    assert_eq!(substitute_path_params("/u/{id}", &unknown), "/u/{id}");
}

#[test]
fn query_collection_omits_absent_fields() {
    let values = vec![
        ("draft".to_string(), Some("true".to_string())),
        ("include_comments".to_string(), Some("false".to_string())),
        ("page".to_string(), None),
    ];
    let params = collect_query_params(&values).unwrap();
    assert_eq!(params.get("draft"), Some(&"true".to_string()));
    assert_eq!(params.get("include_comments"), Some(&"false".to_string()));
    assert_eq!(params.get("page"), None);
    assert_eq!(params.len(), 2);

    let all_absent = vec![("page".to_string(), None)];
    assert!(collect_query_params(&all_absent).is_none());

    let no_fields: Vec<(String, Option<String>)> = Vec::new();
    assert!(collect_query_params(&no_fields).is_none());
}

#[test]
fn form_flattening_renders_each_kind() {
    let doc = Document::Object(vec![
        ("text".to_string(), FieldValue::Text("plain".to_string())),
        ("yes".to_string(), FieldValue::Bool(true)),
        ("no".to_string(), FieldValue::Bool(false)),
        ("count".to_string(), FieldValue::Int(-7)),
        ("size".to_string(), FieldValue::UInt(42)),
        ("gone".to_string(), FieldValue::Null),
        (
            "nested".to_string(),
            FieldValue::Compound("[1,{\"a\":2}]".to_string()),
        ),
    ]);
    let params = serialize_to_form_params(&doc).unwrap();
    assert_eq!(params.get("text"), Some(&"plain".to_string()));
    assert_eq!(params.get("yes"), Some(&"true".to_string()));
    assert_eq!(params.get("no"), Some(&"false".to_string()));
    assert_eq!(params.get("count"), Some(&"-7".to_string()));
    assert_eq!(params.get("size"), Some(&"42".to_string()));
    assert_eq!(params.get("gone"), None);
    assert_eq!(params.get("nested"), Some(&"[1,{\"a\":2}]".to_string()));
    assert_eq!(params.len(), 6);
}

#[test]
fn form_flattening_rejects_non_objects() {
    let doc = Document::NonObject(FieldValue::Int(42));
    match serialize_to_form_params(&doc).unwrap_err() {
        ReqwestBuilderError::SerializationError(msg) => {
            assert_eq!(msg, "Data must serialize to a JSON object");
        }
        _ => panic!("Expected SerializationError"),
    }
}

#[test]
fn header_construction_is_idempotent() {
    let doc = Document::Object(vec![
        (
            "Content-Type".to_string(),
            FieldValue::Text("application/json".to_string()),
        ),
        ("X-Tag".to_string(), FieldValue::Text("one".to_string())),
    ]);
    let first = serialize_to_header_map(&doc).unwrap();
    let second = serialize_to_header_map(&doc).unwrap();
    assert_eq!(first.entries(), second.entries());
}

#[test]
fn header_paths_disagree_only_on_invalid_input() {
    let doc = Document::Object(vec![
        ("Good".to_string(), FieldValue::Text("ok".to_string())),
        (
            "Bad\rKey".to_string(),
            FieldValue::Text("dropped".to_string()),
        ),
    ]);
    match serialize_to_header_map(&doc).unwrap_err() {
        ReqwestBuilderError::HeaderError { key, value, source } => {
            assert_eq!(key, "Bad\rKey");
            assert_eq!(value, "dropped");
            assert_eq!(source, "Invalid header name: invalid HTTP header name");
        }
        _ => panic!("Expected HeaderError"),
    }
    let safe = serialize_to_header_map_safe(&doc);
    assert_eq!(safe.len(), 1);
    assert_eq!(safe.get("Good"), Some(&"ok".to_string()));
    assert_eq!(safe.get("Bad\rKey"), None);
}

#[test]
fn header_value_must_be_text() {
    let doc = Document::Object(vec![("X-Count".to_string(), FieldValue::Int(3))]);
    match serialize_to_header_map(&doc).unwrap_err() {
        ReqwestBuilderError::HeaderError { key, value, source } => {
            assert_eq!(key, "X-Count");
            assert_eq!(value, "3");
            assert_eq!(source, "Header value must be a string");
        }
        _ => panic!("Expected HeaderError"),
    }
}

#[test]
fn header_control_characters_in_value_fail() {
    let doc = Document::Object(vec![(
        "X-Note".to_string(),
        FieldValue::Text("line\nbreak".to_string()),
    )]);
    match serialize_to_header_map(&doc).unwrap_err() {
        ReqwestBuilderError::HeaderError { source, .. } => {
            assert_eq!(source, "Invalid header value: failed to parse header value");
        }
        _ => panic!("Expected HeaderError"),
    }
}

#[test]
fn header_map_ignores_ascii_case() {
    let mut map = HeaderMap::new();
    map.insert("Content-Type", "application/json".to_string());
    assert_eq!(map.get("content-type"), Some(&"application/json".to_string()));
    assert_eq!(map.get("CONTENT-TYPE"), Some(&"application/json".to_string()));
    map.insert("CONTENT-TYPE", "text/plain".to_string());
    assert_eq!(map.len(), 1);
    assert_eq!(map.get("Content-Type"), Some(&"text/plain".to_string()));
    assert_eq!(map.entries()[0].0, "content-type");
}

#[test]
fn query_params_insert_replaces_in_place() {
    let mut params = QueryParams::new();
    params.insert("a".to_string(), "1".to_string());
    params.insert("b".to_string(), "2".to_string());
    params.insert("a".to_string(), "3".to_string());
    assert_eq!(params.len(), 2);
    assert_eq!(params.get("a"), Some(&"3".to_string()));
    assert_eq!(params.entries()[0].0, "a");
    assert_eq!(params.entries()[1].0, "b");
    assert!(params.contains_key("b"));
    assert!(!params.contains_key("c"));
}

#[test]
fn decimal_rendering_is_canonical() {
    assert_eq!(u64_to_string(0), "0");
    assert_eq!(u64_to_string(42), "42");
    assert_eq!(u64_to_string(18446744073709551615), "18446744073709551615");
    assert_eq!(i64_to_string(-1), "-1");
    assert_eq!(i64_to_string(-9223372036854775808), "-9223372036854775808");
    assert_eq!(i64_to_string(7), "7");
    assert_eq!(bool_to_string(true), "true");
    assert_eq!(bool_to_string(false), "false");
}

#[test]
fn method_tokens_resolve_and_render() {
    assert_eq!(parse_method("GET").unwrap(), HttpMethod::Get);
    assert_eq!(parse_method("OPTIONS").unwrap(), HttpMethod::Options);
    assert_eq!(HttpMethod::Patch.as_str(), "PATCH");
    match parse_method("FETCH").unwrap_err() {
        ReqwestBuilderError::InvalidRequest(msg) => {
            assert_eq!(msg, "Unsupported HTTP method: FETCH");
        }
        _ => panic!("Expected InvalidRequest"),
    }
}

#[test]
fn body_kind_tokens_resolve() {
    assert_eq!(parse_body_kind("json").unwrap(), RequestBody::Json);
    assert_eq!(parse_body_kind("form").unwrap(), RequestBody::Form);
    assert_eq!(parse_body_kind("multipart").unwrap(), RequestBody::Multipart);
    assert_eq!(parse_body_kind("none").unwrap(), RequestBody::NoBody);
    match parse_body_kind("yaml").unwrap_err() {
        ReqwestBuilderError::InvalidRequest(msg) => {
            assert_eq!(msg, "Unsupported body type: yaml");
        }
        _ => panic!("Expected InvalidRequest"),
    }
}

#[test]
fn container_resolution_defaults_and_requirements() {
    let d = resolve_container(Some("POST"), Some("/x"), None).unwrap();
    assert_eq!(d.method, HttpMethod::Post);
    assert_eq!(d.path_template, "/x");
    assert_eq!(d.body_kind, RequestBody::Json);

    let d = resolve_container(Some("GET"), Some("/y"), Some("none")).unwrap();
    assert_eq!(d.body_kind, RequestBody::NoBody);

    match resolve_container(None, Some("/x"), None).unwrap_err() {
        ReqwestBuilderError::InvalidRequest(msg) => {
            assert_eq!(msg, "Missing required 'method' attribute");
        }
        _ => panic!("Expected InvalidRequest"),
    }
    match resolve_container(Some("GET"), None, None).unwrap_err() {
        ReqwestBuilderError::InvalidRequest(msg) => {
            assert_eq!(msg, "Missing required 'path' attribute");
        }
        _ => panic!("Expected InvalidRequest"),
    }
}

#[test]
fn field_roles_resolve_names() {
    let fields = vec![
        ("id".to_string(), FieldRole::PathParam),
        ("draft".to_string(), FieldRole::Query(None)),
        (
            "comments".to_string(),
            FieldRole::Query(Some("include_comments".to_string())),
        ),
        (
            "auth".to_string(),
            FieldRole::Header(Some("Authorization".to_string())),
        ),
        ("trace".to_string(), FieldRole::Header(None)),
        ("title".to_string(), FieldRole::Body),
    ];
    let roles = resolve_roles(&fields);
    assert_eq!(roles.path_params, vec!["id".to_string()]);
    assert_eq!(
        roles.query_params,
        vec![
            ("draft".to_string(), "draft".to_string()),
            ("comments".to_string(), "include_comments".to_string()),
        ]
    );
    assert_eq!(
        roles.header_params,
        vec![
            ("auth".to_string(), "Authorization".to_string()),
            ("trace".to_string(), "trace".to_string()),
        ]
    );
}

#[test]
fn empty_document_body_is_skipped() {
    struct Bare;

    impl IntoReqwestBuilder for Bare {
        fn method(&self) -> HttpMethod {
            HttpMethod::Post
        }

        fn endpoint(&self) -> String {
            "/bare".to_string()
        }
    }

    let assembled = Bare.into_reqwest_builder("https://h").unwrap();
    assert_eq!(assembled.body, AssembledBody::Empty);
    assert_eq!(assembled.url, "https://h/bare");
    assert!(assembled.query_params.is_none());
    assert!(assembled.headers.is_none());
    assert_eq!(assembled.method, HttpMethod::Post);
}

#[test]
fn non_empty_document_body_is_attached() {
    let parts = RequestParts {
        method: HttpMethod::Put,
        endpoint: "/doc".to_string(),
        headers: None,
        body: RequestBody::Json,
        query_params: None,
        multipart: None,
        document: Ok(Document::Object(vec![(
            "k".to_string(),
            FieldValue::Text("v".to_string()),
        )])),
    };
    let assembled = assemble_request(parts, "https://h/").unwrap();
    match assembled.body {
        AssembledBody::Json(Document::Object(entries)) => {
            assert_eq!(entries.len(), 1);
            assert_eq!(entries[0].0, "k");
        }
        _ => panic!("Expected a document body"),
    }
}

#[test]
fn validating_assembly_propagates_header_errors() {
    let parts = RequestParts {
        method: HttpMethod::Get,
        endpoint: "/h".to_string(),
        headers: Some(Document::Object(vec![(
            "Bad\nName".to_string(),
            FieldValue::Text("v".to_string()),
        )])),
        body: RequestBody::NoBody,
        query_params: None,
        multipart: None,
        document: Ok(Document::empty()),
    };
    match assemble_request(parts, "https://h").unwrap_err() {
        ReqwestBuilderError::HeaderError { key, .. } => assert_eq!(key, "Bad\nName"),
        _ => panic!("Expected HeaderError"),
    }
}

#[test]
fn best_effort_assembly_degrades_by_omission() {
    let parts = RequestParts {
        method: HttpMethod::Post,
        endpoint: "/mixed".to_string(),
        headers: Some(Document::Object(vec![
            ("Keep".to_string(), FieldValue::Text("yes".to_string())),
            ("Drop\r".to_string(), FieldValue::Text("no".to_string())),
        ])),
        body: RequestBody::Json,
        query_params: None,
        multipart: None,
        document: Err(ReqwestBuilderError::SerializationError(
            "unrepresentable".to_string(),
        )),
    };
    let assembled = assemble_request_safe(parts, "https://h");
    assert_eq!(assembled.body, AssembledBody::Empty);
    let headers = assembled.headers.unwrap();
    assert_eq!(headers.len(), 1);
    assert_eq!(headers.get("Keep"), Some(&"yes".to_string()));
}

#[test]
fn multipart_body_uses_the_payload() {
    let mut form = MultipartForm::new();
    form.add_text("note".to_string(), "hello".to_string());
    form.add_file(
        "data".to_string(),
        FileUpload::from_bytes("a.bin".to_string(), vec![1, 2, 3], None),
    );
    let parts = RequestParts {
        method: HttpMethod::Post,
        endpoint: "/up".to_string(),
        headers: None,
        body: RequestBody::Multipart,
        query_params: None,
        multipart: Some(form),
        document: Ok(Document::empty()),
    };
    let assembled = assemble_request(parts, "https://h").unwrap();
    match assembled.body {
        AssembledBody::Multipart(f) => {
            assert_eq!(f.parts.len(), 2);
            assert_eq!(f.parts[0].0, "note");
            assert_eq!(f.parts[0].1, MultipartPart::Text("hello".to_string()));
            match &f.parts[1].1 {
                MultipartPart::File(u) => {
                    assert_eq!(u.filename, "a.bin");
                    assert_eq!(u.content, vec![1, 2, 3]);
                }
                _ => panic!("Expected a file part"),
            }
        }
        _ => panic!("Expected a multipart body"),
    }
}

#[test]
fn upload_from_read_names_and_sniffs() {
    let upload = FileUpload::from_read("docs/readme.txt", vec![104, 105]);
    assert_eq!(upload.filename, "readme.txt");
    assert_eq!(upload.content, vec![104, 105]);
    assert_eq!(upload.mime_type, Some("text/plain".to_string()));

    let upload = FileUpload::from_read("archive.tar.gz/", Vec::new());
    assert_eq!(upload.filename, "archive.tar.gz");

    let upload = FileUpload::from_read("..", Vec::new());
    assert_eq!(upload.filename, "file");

    let upload = FileUpload::from_read("", Vec::new());
    assert_eq!(upload.filename, "file");
    assert_eq!(upload.mime_type, None);
}

#[test]
fn error_messages_render_each_kind() {
    assert_eq!(
        ReqwestBuilderError::SerializationError("bad".to_string()).message(),
        "Serialization error: bad"
    );
    assert_eq!(
        ReqwestBuilderError::HeaderError {
            key: "K".to_string(),
            value: "V".to_string(),
            source: "why".to_string(),
        }
        .message(),
        "Header error for 'K': 'V' - why"
    );
    assert_eq!(
        ReqwestBuilderError::UrlError("no host".to_string()).message(),
        "URL error: no host"
    );
    assert_eq!(
        ReqwestBuilderError::IoError("gone".to_string()).message(),
        "I/O error: gone"
    );
    assert_eq!(
        ReqwestBuilderError::InvalidRequest("odd".to_string()).message(),
        "Invalid request: odd"
    );
}

#[test]
fn absent_accessors_stay_absent() {
    let no_headers: Vec<(String, String)> = Vec::new();
    assert!(build_aux_headers(&no_headers).is_none());
    let one = vec![("A".to_string(), "b".to_string())];
    assert!(build_aux_headers(&one).is_some());

    struct Minimal;

    impl IntoReqwestBuilder for Minimal {
        fn method(&self) -> HttpMethod {
            HttpMethod::Head
        }

        fn endpoint(&self) -> String {
            "/m".to_string()
        }
    }

    let m = Minimal;
    assert!(m.headers().is_none());
    assert!(m.query_params().is_none());
    assert!(m.create_multipart_form().is_none());
    assert_eq!(m.body(), RequestBody::Json);
}

#[test]
fn form_body_is_the_flattened_document() {
    let parts = RequestParts {
        method: HttpMethod::Post,
        endpoint: "/login".to_string(),
        headers: None,
        body: RequestBody::Form,
        query_params: None,
        multipart: None,
        document: Ok(Document::Object(vec![
            ("username".to_string(), FieldValue::Text("testuser".to_string())),
            ("attempt".to_string(), FieldValue::UInt(1)),
            ("remember".to_string(), FieldValue::Null),
        ])),
    };
    let assembled = assemble_request(parts, "https://h").unwrap();
    match assembled.body {
        AssembledBody::Form(params) => {
            assert_eq!(params.get("username"), Some(&"testuser".to_string()));
            assert_eq!(params.get("attempt"), Some(&"1".to_string()));
            assert_eq!(params.get("remember"), None);
            assert_eq!(params.len(), 2);
        }
        _ => panic!("Expected a form body"),
    }
}

#[test]
fn form_body_requires_an_object_document() {
    let parts = RequestParts {
        method: HttpMethod::Post,
        endpoint: "/login".to_string(),
        headers: None,
        body: RequestBody::Form,
        query_params: None,
        multipart: None,
        document: Ok(Document::NonObject(FieldValue::Text("alone".to_string()))),
    };
    match assemble_request(parts, "https://h").unwrap_err() {
        ReqwestBuilderError::SerializationError(msg) => {
            assert_eq!(msg, "Data must serialize to a JSON object");
        }
        _ => panic!("Expected SerializationError"),
    }
}

#[test]
fn non_object_headers_are_rejected() {
    let doc = Document::NonObject(FieldValue::Bool(true));
    match serialize_to_header_map(&doc).unwrap_err() {
        ReqwestBuilderError::SerializationError(msg) => {
            assert_eq!(msg, "Headers must serialize to a JSON object");
        }
        _ => panic!("Expected SerializationError"),
    }
    assert_eq!(serialize_to_header_map_safe(&doc).len(), 0);
}

#[test]
fn best_effort_trait_path_never_fails() {
    struct Broken;

    impl IntoReqwestBuilder for Broken {
        fn method(&self) -> HttpMethod {
            HttpMethod::Post
        }

        fn endpoint(&self) -> String {
            "/broken".to_string()
        }

        fn document(&self) -> Result<Document, ReqwestBuilderError> {
            Err(ReqwestBuilderError::SerializationError("no".to_string()))
        }
    }

    let assembled = Broken.into_reqwest_builder_safe("https://h/");
    assert_eq!(assembled.url, "https://h/broken");
    assert_eq!(assembled.body, AssembledBody::Empty);

    struct BrokenStrict;

    impl IntoReqwestBuilder for BrokenStrict {
        fn method(&self) -> HttpMethod {
            HttpMethod::Post
        }

        fn endpoint(&self) -> String {
            "/broken".to_string()
        }

        fn document(&self) -> Result<Document, ReqwestBuilderError> {
            Err(ReqwestBuilderError::SerializationError("no".to_string()))
        }
    }

    assert!(BrokenStrict.into_reqwest_builder("https://h/").is_err());
}
