use crabrace::config::CorsConfig;
use crabrace::config::RateLimitConfig;
use crabrace::config::SecurityConfig;
use crabrace::config::SecurityHeadersConfig;
use crabrace::security::MiddlewareStage;
use crabrace::security::RateLimitError;
use crabrace::security::SecurityHeader;
use crabrace::security::apply_security_headers;
use crabrace::security::build_cors_layer;
use crabrace::security::build_middleware_plan;
use crabrace::security::build_rate_limit_layer;
use crabrace::security::build_security_headers_layers;

#[test]
fn test_cors_layer_disabled() {
    let mut config = CorsConfig::default();
    config.enabled = false;
    assert!(build_cors_layer(&config).is_none());
}

#[test]
fn test_cors_layer_enabled() {
    let config = CorsConfig::default();
    assert!(build_cors_layer(&config).is_some());
}

#[test]
fn test_cors_wildcard_allows_any_origin() {
    let config = CorsConfig::default(); // allowed_origins is ["*"]
    let policy = build_cors_layer(&config).unwrap();
    assert!(policy.allow_any_origin);
    assert!(policy.allows_origin("https://anything.example"));
    assert!(policy.allows_origin("null"));
}

#[test]
fn test_cors_explicit_list_reflects_only_listed() {
    let mut config = CorsConfig::default();
    config.allowed_origins = vec![
        "https://a.example".to_string(),
        "https://b.example".to_string(),
    ];
    let policy = build_cors_layer(&config).unwrap();
    assert!(!policy.allow_any_origin);
    assert!(policy.allows_origin("https://a.example"));
    assert!(policy.allows_origin("https://b.example"));
    assert!(!policy.allows_origin("https://c.example"));
}

#[test]
fn test_cors_drops_unparseable_entries() {
    let mut config = CorsConfig::default();
    config.allowed_origins = vec!["https://ok.example".to_string(), "bad\norigin".to_string()];
    config.allowed_methods = vec!["GET".to_string(), "NOT A METHOD".to_string()];
    config.allowed_headers = vec!["content-type".to_string(), "bad header".to_string()];
    let policy = build_cors_layer(&config).unwrap();
    assert_eq!(policy.allowed_origins, vec!["https://ok.example".to_string()]);
    assert_eq!(policy.allowed_methods, vec!["GET".to_string()]);
    assert_eq!(policy.allowed_headers, vec!["content-type".to_string()]);
    assert_eq!(policy.max_age_seconds, 3600);
}

#[test]
fn test_rate_limit_layer_disabled() {
    let mut config = RateLimitConfig::default();
    config.enabled = false;
    let result = build_rate_limit_layer(&config);
    assert!(result.is_none());
}

#[test]
fn test_rate_limit_layer_enabled() {
    let config = RateLimitConfig::default();
    let result = build_rate_limit_layer(&config);
    assert!(result.is_some());
}

#[test]
fn test_rate_limiter_admits_exactly_the_limit_per_window() {
    let config = RateLimitConfig { enabled: true, requests_per_period: 3, period_seconds: 60 };
    let mut limiter = build_rate_limit_layer(&config).unwrap();
    // Exactly requests_per_period requests go through within the window...
    assert!(limiter.check("client-a", 0).is_ok());
    assert!(limiter.check("client-a", 10).is_ok());
    assert!(limiter.check("client-a", 20).is_ok());
    // ...the next one, still before the window resets, is rejected...
    assert!(limiter.check("client-a", 59).is_err());
    // ...another key is counted on its own...
    assert!(limiter.check("client-b", 59).is_ok());
    // ...and once the window has passed, the key is admitted again.
    assert!(limiter.check("client-a", 60).is_ok());
}

#[test]
fn test_rate_limiter_zero_limit_rejects_everything() {
    let config = RateLimitConfig { enabled: true, requests_per_period: 0, period_seconds: 60 };
    let mut limiter = build_rate_limit_layer(&config).unwrap();
    assert!(limiter.check("client-a", 0).is_err());
    assert!(limiter.check("client-a", 120).is_err());
}

#[test]
fn test_rate_limit_error_shape() {
    let err = RateLimitError;
    assert_eq!(err.status_code(), 429);
    assert_eq!(err.message(), "Too many requests. Please try again later.");
}

#[test]
fn test_security_headers_disabled() {
    let mut config = SecurityHeadersConfig::default();
    config.enabled = false;
    let layers = build_security_headers_layers(&config);
    assert!(layers.is_empty());
}

#[test]
fn test_security_headers_enabled() {
    let config = SecurityHeadersConfig::default();
    let layers = build_security_headers_layers(&config);
    assert!(!layers.is_empty());
}

#[test]
fn test_security_headers_all_flags_off_add_nothing() {
    let config = SecurityHeadersConfig {
        enabled: true,
        hsts: false,
        content_type_options: false,
        frame_options: false,
        xss_protection: false,
    };
    assert!(build_security_headers_layers(&config).is_empty());
}

#[test]
fn test_security_headers_all_flags_on_add_exactly_four() {
    let config = SecurityHeadersConfig::default();
    let layers = build_security_headers_layers(&config);
    assert_eq!(layers.len(), 4);
    assert_eq!(layers[0].name, "strict-transport-security");
    assert_eq!(layers[0].value, "max-age=31536000; includeSubDomains");
    assert_eq!(layers[1].name, "x-content-type-options");
    assert_eq!(layers[1].value, "nosniff");
    assert_eq!(layers[2].name, "x-frame-options");
    assert_eq!(layers[2].value, "DENY");
    assert_eq!(layers[3].name, "x-xss-protection");
    assert_eq!(layers[3].value, "1; mode=block");
}

#[test]
fn test_security_headers_override_prior_values() {
    let existing = vec![
        SecurityHeader { name: "x-frame-options".to_string(), value: "SAMEORIGIN".to_string() },
        SecurityHeader { name: "content-type".to_string(), value: "text/plain".to_string() },
    ];
    let directives = build_security_headers_layers(&SecurityHeadersConfig::default());
    let result = apply_security_headers(existing, &directives);
    let frame: Vec<&SecurityHeader> =
        result.iter().filter(|h| h.name == "x-frame-options").collect();
    assert_eq!(frame.len(), 1);
    assert_eq!(frame[0].value, "DENY");
    // Headers under other names are untouched.
    assert!(result.iter().any(|h| h.name == "content-type" && h.value == "text/plain"));
}

#[test]
fn test_middleware_plan_full_order() {
    let security = SecurityConfig::default();
    let plan = build_middleware_plan(&security, true);
    assert_eq!(
        plan.stages(),
        vec![
            MiddlewareStage::RateLimit,
            MiddlewareStage::Cors,
            MiddlewareStage::SecurityHeaders,
            MiddlewareStage::Compression,
        ]
    );
}

#[test]
fn test_middleware_plan_stages_independent() {
    let mut security = SecurityConfig::default();
    security.cors.enabled = false;
    security.rate_limit.enabled = false;
    let plan = build_middleware_plan(&security, false);
    assert_eq!(plan.stages(), vec![MiddlewareStage::SecurityHeaders]);
    assert!(plan.cors.is_none());
    assert!(plan.rate_limit.is_none());
    assert!(!plan.compression);
}
