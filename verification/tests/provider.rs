use ears::provider::{
    extract_json_path, parse_json_path, JsonValue, PathSegment, ProviderConfig, ProviderError, RawBinaryConfig,
    RequestFormat,
};

#[test]
fn test_parse_json_path_simple() {
    let segments = parse_json_path("text");
    assert_eq!(segments.len(), 1);
    assert!(matches!(segments[0], PathSegment::Field(ref s) if s == "text"));
}

#[test]
fn test_parse_json_path_nested() {
    let segments = parse_json_path("results.channels");
    assert_eq!(segments.len(), 2);
}

#[test]
fn test_parse_json_path_with_array() {
    let segments = parse_json_path("results[0].alternatives[0].transcript");
    assert_eq!(segments.len(), 5);
}

#[test]
fn parse_json_path_segments_in_order() {
    assert_eq!(
        parse_json_path("results.channels[0].alternatives[0].transcript"),
        vec![
            PathSegment::Field("results".to_string()),
            PathSegment::Field("channels".to_string()),
            PathSegment::Index(0),
            PathSegment::Field("alternatives".to_string()),
            PathSegment::Index(0),
            PathSegment::Field("transcript".to_string()),
        ]
    );
    assert_eq!(parse_json_path("a[x].b"), vec![PathSegment::Field("a".to_string()), PathSegment::Field("b".to_string())]);
}

#[test]
fn test_extract_text_simple() {
    let json = JsonValue::Object(vec![("text".to_string(), JsonValue::Str("hello world".to_string()))]);
    let result = extract_json_path(&json, "text").unwrap();
    assert_eq!(result, "hello world");
}

#[test]
fn test_extract_text_nested() {
    let alternative = JsonValue::Object(vec![("transcript".to_string(), JsonValue::Str("nested text".to_string()))]);
    let channel = JsonValue::Object(vec![("alternatives".to_string(), JsonValue::Array(vec![alternative]))]);
    let results = JsonValue::Object(vec![("channels".to_string(), JsonValue::Array(vec![channel]))]);
    let json = JsonValue::Object(vec![("results".to_string(), results)]);
    let result = extract_json_path(&json, "results.channels[0].alternatives[0].transcript").unwrap();
    assert_eq!(result, "nested text");
}

#[test]
fn extract_text_errors() {
    let json = JsonValue::Object(vec![
        ("text".to_string(), JsonValue::Number("3".to_string())),
        ("list".to_string(), JsonValue::Array(vec![])),
    ]);
    assert_eq!(extract_json_path(&json, "missing"), Err(ProviderError::FieldNotFound("missing".to_string())));
    assert_eq!(extract_json_path(&json, "list[2]"), Err(ProviderError::IndexNotFound(2)));
    assert_eq!(extract_json_path(&json, "text"), Err(ProviderError::NotAString("text".to_string())));
    assert_eq!(extract_json_path(&JsonValue::Null, "text"), Err(ProviderError::FieldNotFound("text".to_string())));
}

#[test]
fn test_substitute_vars() {
    let config = ProviderConfig::default_openai_compatible();
    let vars = vec![
        ("SERVER".to_string(), "http://localhost:8178".to_string()),
        ("LANGUAGE".to_string(), "en".to_string()),
    ];
    let result = config.substitute_vars("${SERVER}/api?lang=${LANGUAGE}", &vars).unwrap();
    assert_eq!(result, "http://localhost:8178/api?lang=en");
}

#[test]
fn substitute_vars_undefined_and_repeated() {
    let config = ProviderConfig::default_openai_compatible();
    let vars = ProviderConfig::build_vars(Some("s"), None, Some("no"), None);
    assert_eq!(
        config.substitute_vars("${SERVER}/${MODEL}", &vars),
        Err(ProviderError::UndefinedVariable("MODEL".to_string()))
    );
    assert_eq!(config.substitute_vars("${SERVER}-${SERVER}", &vars).unwrap(), "s-s");
    assert_eq!(config.substitute_vars("$ {X} ${lower} ${}", &vars).unwrap(), "$ {X} ${lower} ${}");
    assert_eq!(config.substitute_vars("plain", &vec![]).unwrap(), "plain");
}

#[test]
fn build_vars_in_order() {
    let vars = ProviderConfig::build_vars(Some("srv"), Some("key"), None, Some("m"));
    assert_eq!(
        vars,
        vec![
            ("SERVER".to_string(), "srv".to_string()),
            ("API_KEY".to_string(), "key".to_string()),
            ("MODEL".to_string(), "m".to_string()),
        ]
    );
}

#[test]
fn test_validate_url_security_https() {
    assert!(ProviderConfig::validate_url_security("https://api.example.com").is_ok());
}

#[test]
fn test_validate_url_security_localhost_http() {
    assert!(ProviderConfig::validate_url_security("http://localhost:8178").is_ok());
    assert!(ProviderConfig::validate_url_security("http://127.0.0.1:8178").is_ok());
}

#[test]
fn test_validate_url_security_remote_http_rejected() {
    assert!(ProviderConfig::validate_url_security("http://api.example.com").is_err());
}

#[test]
fn validate_url_security_errors() {
    assert_eq!(
        ProviderConfig::validate_url_security("http://api.example.com"),
        Err(ProviderError::InsecureHttp("api.example.com".to_string()))
    );
    assert_eq!(
        ProviderConfig::validate_url_security("ftp://example.com"),
        Err(ProviderError::UnsupportedScheme("ftp".to_string()))
    );
    assert_eq!(
        ProviderConfig::validate_url_security("not a url"),
        Err(ProviderError::InvalidUrl("not a url".to_string()))
    );
    assert!(ProviderConfig::validate_url_security("http://[::1]:8080").is_ok());
}

#[test]
fn test_default_openai_compatible() {
    let config = ProviderConfig::default_openai_compatible();
    assert_eq!(config.response.text_path, "text");
    assert_eq!(config.request.format, RequestFormat::Multipart);
    assert!(config.validate().is_ok());
}

#[test]
fn validate_errors_in_order() {
    let mut config = ProviderConfig::default_openai_compatible();
    config.timeout_secs = 0;
    assert_eq!(config.validate(), Err(ProviderError::InvalidTimeout));
    config.timeout_secs = 121;
    assert_eq!(config.validate(), Err(ProviderError::InvalidTimeout));
    config.timeout_secs = 120;
    assert_eq!(config.validate(), Ok(()));
    config.response.text_path = String::new();
    assert_eq!(config.validate(), Err(ProviderError::EmptyTextPath));
    config.request.format = RequestFormat::RawBinary;
    assert_eq!(config.validate(), Err(ProviderError::MissingRawBinaryConfig));
    config.request.raw_binary_config = Some(RawBinaryConfig::default());
    config.request.multipart_config = None;
    config.request.format = RequestFormat::Multipart;
    assert_eq!(config.validate(), Err(ProviderError::MissingMultipartConfig));
    config.url = String::new();
    assert_eq!(config.validate(), Err(ProviderError::EmptyUrl));
}

#[test]
fn extract_text_from_response_uses_text_path() {
    let config = ProviderConfig::default_openai_compatible();
    let json = JsonValue::Object(vec![("text".to_string(), JsonValue::Str("hi".to_string()))]);
    assert_eq!(config.extract_text_from_response(&json).unwrap(), "hi");
}
