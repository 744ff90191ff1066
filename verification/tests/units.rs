use cfsurge::access::{normalize_access, parse_access_input, Access};
use cfsurge::address::normalize_api_base;
use cfsurge::config::{parse_login_mode_input, AuthType};
use cfsurge::resolve::parse_user_role;
use cfsurge::site::parse_publish_dir_input;
use cfsurge::slug::{
    assert_valid_slug, build_reserved_labels, ApiMetadata, FALLBACK_API_RESERVED_LABEL,
};

#[test]
fn normalize_api_base_accepts_http_and_https_origins() {
    assert_eq!(
        normalize_api_base("https://api.example.com").expect("https normalize"),
        "https://api.example.com"
    );
    assert_eq!(
        normalize_api_base("http://127.0.0.1:8787").expect("http normalize"),
        "http://127.0.0.1:8787"
    );
}

#[test]
fn normalize_api_base_rejects_non_origin_values() {
    let with_path = normalize_api_base("https://api.example.com/v1");
    assert!(with_path.is_err());
    assert_eq!(
        with_path.expect_err("path must fail"),
        "invalid API base URL: do not include path, query, or fragment"
    );

    let with_query = normalize_api_base("https://api.example.com?foo=bar");
    assert!(with_query.is_err());
    assert_eq!(
        with_query.expect_err("query must fail"),
        "invalid API base URL: do not include path, query, or fragment"
    );
}

#[test]
fn reserved_labels_include_api_and_unlisted_labels() {
    let metadata = ApiMetadata {
        api_base: Some("https://manage.example.test".to_string()),
        public_suffix: Some("example.test".to_string()),
        token_creation_url: None,
    };
    let labels = build_reserved_labels(Some("https://api.example.test"), Some(&metadata));
    assert!(labels.iter().any(|value| value == "manage"));
    assert!(labels.iter().any(|value| value == "u"));
    assert!(!labels.iter().any(|value| value == FALLBACK_API_RESERVED_LABEL));
}

#[test]
fn assert_valid_slug_rejects_reserved_slug() {
    let reserved = vec!["api".to_string(), "www".to_string()];
    let error = assert_valid_slug("api", &reserved).expect_err("reserved slug must fail");
    assert_eq!(error, "invalid slug: api (reserved_slug)");
}

#[test]
fn parse_publish_dir_input_rejects_empty_string() {
    let error = parse_publish_dir_input("   ").expect_err("empty publish dir must fail");
    assert_eq!(error, "publish directory cannot be empty");
}

#[test]
fn parse_login_mode_input_accepts_aliases() {
    assert_eq!(
        parse_login_mode_input(Some("service".to_string())).expect("service alias"),
        Some(AuthType::ServiceSession)
    );
    assert_eq!(
        parse_login_mode_input(Some("password".to_string())).expect("password alias"),
        Some(AuthType::ServiceSession)
    );
    assert_eq!(
        parse_login_mode_input(Some("cloudflare".to_string())).expect("cloudflare alias"),
        Some(AuthType::CloudflareAdmin)
    );
}

#[test]
fn parse_user_role_rejects_unknown_role() {
    let error = parse_user_role("owner").expect_err("unknown role must fail");
    assert_eq!(error, "invalid role: expected user or admin");
}

#[test]
fn normalize_access_accepts_link() {
    assert_eq!(normalize_access(Some("link")), Some(Access::Link));
}

#[test]
fn parse_access_input_accepts_link() {
    assert_eq!(
        parse_access_input("link").expect("link access"),
        Access::Link
    );
}
