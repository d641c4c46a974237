use weavex::client::{check_status, validate_fetch_url, validate_search_query};
use weavex::config::{parse_u64, Config};
use weavex::error::OllamaError;

#[test]
fn test_empty_query_validation() {
    let result = validate_search_query("");
    assert!(result.is_err());
    assert!(result.unwrap_err().message().contains("empty"));
}

#[test]
fn test_whitespace_query_validation() {
    let result = validate_search_query("   ");
    assert!(result.is_err());
    assert!(result.unwrap_err().message().contains("empty"));
}

#[test]
fn test_invalid_url_validation() {
    let result = validate_fetch_url("not a url");
    assert!(result.is_err());
    assert!(result.unwrap_err().message().contains("Invalid URL"));
}

#[test]
fn test_invalid_scheme_validation() {
    let result = validate_fetch_url("ftp://example.com");
    assert!(result.is_err());
    assert!(result.unwrap_err().message().contains("scheme"));
}

#[test]
fn valid_http_and_https_urls_pass() {
    assert!(validate_fetch_url("https://example.com/page?q=1").is_ok());
    assert!(validate_fetch_url("http://example.com").is_ok());
}

#[test]
fn nonblank_query_passes() {
    assert!(validate_search_query("rust async").is_ok());
}

#[test]
fn status_check_bounds() {
    assert!(check_status(200, "ok".to_string()).is_ok());
    assert!(check_status(299, "ok".to_string()).is_ok());
    match check_status(404, "missing".to_string()) {
        Err(OllamaError::ApiError { status, message }) => {
            assert_eq!(status, 404);
            assert_eq!(message, "missing");
        }
        other => panic!("expected an API error, got {:?}", other),
    }
    assert!(check_status(199, String::new()).is_err());
    assert!(check_status(500, String::new()).is_err());
}

#[test]
fn error_messages_render_each_variant() {
    assert_eq!(
        OllamaError::MissingApiKey.message(),
        "API key not found. Set OLLAMA_API_KEY environment variable or use --api-key flag"
    );
    assert_eq!(
        OllamaError::RequestFailed("timed out".to_string()).message(),
        "HTTP request failed: timed out"
    );
    assert_eq!(
        OllamaError::InvalidResponse("bad json".to_string()).message(),
        "Invalid API response: bad json"
    );
    assert_eq!(
        OllamaError::ApiError { status: 404, message: "nope".to_string() }.message(),
        "API returned error: 404 - nope"
    );
    assert_eq!(
        OllamaError::InvalidUrl("no scheme".to_string()).message(),
        "Invalid URL: no scheme"
    );
    assert_eq!(
        OllamaError::SerializationError("oops".to_string()).message(),
        "Serialization error: oops"
    );
    assert_eq!(
        OllamaError::ConfigError("bad value".to_string()).message(),
        "Configuration error: bad value"
    );
}

#[test]
fn config_defaults_and_builders() {
    let c = Config::new("key".to_string());
    assert_eq!(c.api_key, "key");
    assert_eq!(c.base_url, "https://ollama.com/api");
    assert_eq!(c.timeout_secs, 30);
    assert_eq!(c.max_results, None);

    let c = Config::new("key".to_string())
        .with_base_url("http://localhost:9999".to_string())
        .with_timeout(90)
        .with_max_results(5);
    assert_eq!(c.base_url, "http://localhost:9999");
    assert_eq!(c.timeout_secs, 90);
    assert_eq!(c.max_results, Some(5));
}

#[test]
fn config_resolution_from_environment_values() {
    match Config::resolve(None, None, None) {
        Err(OllamaError::MissingApiKey) => {}
        other => panic!("expected the missing-key error, got {:?}", other),
    }
    let c = Config::resolve(Some("k".to_string()), None, Some("45".to_string())).unwrap();
    assert_eq!(c.timeout_secs, 45);
    // An unparsable timeout keeps the default.
    let c = Config::resolve(Some("k".to_string()), None, Some("soon".to_string())).unwrap();
    assert_eq!(c.timeout_secs, 30);
    let c = Config::resolve(
        Some("k".to_string()),
        Some("http://local".to_string()),
        None,
    )
    .unwrap();
    assert_eq!(c.base_url, "http://local");
    assert_eq!(c.timeout_secs, 30);
}

#[test]
fn parse_u64_accepts_what_std_accepts() {
    assert_eq!(parse_u64("0"), Some(0));
    assert_eq!(parse_u64("42"), Some(42));
    assert_eq!(parse_u64("+123"), Some(123));
    assert_eq!(parse_u64("18446744073709551615"), Some(u64::MAX));
    assert_eq!(parse_u64(""), None);
    assert_eq!(parse_u64("+"), None);
    assert_eq!(parse_u64("-1"), None);
    assert_eq!(parse_u64("1.5"), None);
    assert_eq!(parse_u64("18446744073709551616"), None);
    assert_eq!(parse_u64("99999999999999999999999"), None);
    // The same verdicts as the standard library's parser.
    for s in ["0", "42", "+123", "", "+", "-1", "1.5", "18446744073709551616"] {
        assert_eq!(parse_u64(s), s.parse::<u64>().ok());
    }
}
