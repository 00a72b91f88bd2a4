use earningsfeed::{ClientConfig, Error, DEFAULT_BASE_URL, DEFAULT_TIMEOUT};

#[test]
fn test_builder_with_api_key() {
    let config = ClientConfig::builder().api_key("test_key").build().unwrap();

    assert_eq!(config.api_key, "test_key");
    assert!(config.base_url.is_none());
    assert!(config.timeout.is_none());
}

#[test]
fn test_builder_with_all_options() {
    let config = ClientConfig::builder()
        .api_key("test_key")
        .base_url("https://custom.example.com")
        .timeout(60)
        .build()
        .unwrap();

    assert_eq!(config.api_key, "test_key");
    assert_eq!(config.base_url, Some("https://custom.example.com".to_string()));
    assert_eq!(config.timeout, Some(60));
}

#[test]
fn test_builder_without_api_key_fails() {
    let result = ClientConfig::builder().build();

    assert!(result.is_err());
    let err = result.unwrap_err();
    assert!(matches!(err, Error::Config(_)));
    assert_eq!(err.describe(), "configuration error: API key is required");
}

#[test]
fn test_builder_with_empty_api_key_fails() {
    let result = ClientConfig::builder().api_key("").build();

    assert!(result.is_err());
    let err = result.unwrap_err();
    assert!(matches!(err, Error::Config(_)));
    assert_eq!(err.describe(), "configuration error: API key cannot be empty");
}

#[test]
fn test_builder_accepts_string() {
    let config = ClientConfig::builder()
        .api_key(&String::from("test_key"))
        .build()
        .unwrap();

    assert_eq!(config.api_key, "test_key");
}

#[test]
fn test_builder_accepts_str() {
    let config = ClientConfig::builder().api_key("test_key").build().unwrap();

    assert_eq!(config.api_key, "test_key");
}

#[test]
fn test_default_constants() {
    assert_eq!(DEFAULT_BASE_URL, "https://earningsfeed.com");
    assert_eq!(DEFAULT_TIMEOUT, 30);
}

#[test]
fn test_config_is_clone() {
    let config = ClientConfig::builder().api_key("test_key").build().unwrap();

    let cloned = config.clone();
    assert_eq!(cloned.api_key, config.api_key);
}

#[test]
fn test_config_is_debug() {
    let config = ClientConfig::builder().api_key("test_key").build().unwrap();

    let debug_str = format!("{:?}", config);
    assert!(debug_str.contains("ClientConfig"));
    assert!(debug_str.contains("test_key"));
}

#[test]
fn test_resolve_defaults() {
    let config = ClientConfig::builder().api_key("test_key").build().unwrap();
    let resolved = config.resolve().unwrap();

    assert_eq!(resolved.auth_header, "Bearer test_key");
    assert_eq!(resolved.user_agent, "earningsfeed-rust/0.1.0");
    assert_eq!(resolved.base_url, "https://earningsfeed.com");
    assert_eq!(resolved.timeout, 30);
}

#[test]
fn test_resolve_custom_options() {
    let config = ClientConfig::builder()
        .api_key("test_key")
        .base_url("https://custom.example.com")
        .timeout(60)
        .build()
        .unwrap();
    let resolved = config.resolve().unwrap();

    assert_eq!(resolved.base_url, "https://custom.example.com");
    assert_eq!(resolved.timeout, 60);
}

#[test]
fn test_resolve_rejects_control_characters_in_api_key() {
    let config = ClientConfig::builder().api_key("bad\nkey").build().unwrap();
    let result = config.resolve();

    assert!(result.is_err());
    let err = result.unwrap_err();
    assert!(matches!(err, Error::Config(_)));
    assert_eq!(err.describe(), "configuration error: invalid API key format");
}
