use crabrace::Model;
use crabrace::Provider;

#[test]
fn test_provider_creation() {
    let provider = Provider::new(
        "Anthropic".to_string(),
        "anthropic".to_string(),
        "anthropic".to_string(),
    );

    assert_eq!(provider.name, "Anthropic");
    assert_eq!(provider.id, "anthropic");
    assert_eq!(provider.models.len(), 0);
}

#[test]
fn test_model_cost_calculation() {
    let model = Model::new(
        "test-model".to_string(),
        "Test Model".to_string(),
        3_000_000,  // $3 per 1M input tokens, in micro-USD
        15_000_000, // $15 per 1M output tokens, in micro-USD
        200_000,
        5000,
    );

    // Test with 100k input and 50k output tokens (no caching)
    let cost = model.calculate_cost(100_000, 50_000, false);
    // (100k / 1M * $3) + (50k / 1M * $15) = $0.30 + $0.75 = $1.05
    assert_eq!(cost, 1_050_000_000_000);
    assert_eq!(cost as f64 / 1e12, 1.05);
}

#[test]
fn test_model_cost_calculation_with_cache() {
    let mut model = Model::new(
        "test-model".to_string(),
        "Test Model".to_string(),
        3_000_000,
        15_000_000,
        200_000,
        5000,
    );
    model.cost_per_1m_in_cached = Some(300_000); // $0.3 per 1M, in micro-USD
    model.cost_per_1m_out_cached = Some(300_000);

    // Test with caching
    let cost = model.calculate_cost(100_000, 50_000, true);
    // (100k / 1M * $0.3) + (50k / 1M * $0.3) = $0.03 + $0.015 = $0.045
    assert_eq!(cost, 45_000_000_000);
    assert_eq!(cost as f64 / 1e12, 0.045);
}

#[test]
fn test_model_cost_cache_fallback() {
    // use_cache with no cached price configured falls back to standard
    // pricing, silently.
    let model = Model::new(
        "test-model".to_string(),
        "Test Model".to_string(),
        3_000_000,
        15_000_000,
        200_000,
        5000,
    );
    let cached = model.calculate_cost(100_000, 50_000, true);
    let standard = model.calculate_cost(100_000, 50_000, false);
    assert_eq!(cached, standard);
}

#[test]
fn test_context_window() {
    let model = Model::new(
        "test-model".to_string(),
        "Test Model".to_string(),
        3_000_000,
        15_000_000,
        200_000,
        5000,
    );

    assert!(model.fits_in_context(100_000));
    assert!(model.fits_in_context(200_000));
    assert!(!model.fits_in_context(200_001));
}

#[test]
fn test_model_capabilities() {
    let mut model = Model::new(
        "test-model".to_string(),
        "Test Model".to_string(),
        3_000_000,
        15_000_000,
        200_000,
        5000,
    );

    model.supports_attachments = true;
    model.can_reason = true;

    assert!(model.supports_attachments);
    assert!(model.can_reason);
}

#[test]
fn test_provider_with_models() {
    let model = Model::new(
        "test-model".to_string(),
        "Test Model".to_string(),
        3_000_000,
        15_000_000,
        200_000,
        5000,
    );

    let provider = Provider::new(
        "Test Provider".to_string(),
        "test".to_string(),
        "test".to_string(),
    )
    .with_model(model);

    assert_eq!(provider.models.len(), 1);
    assert_eq!(provider.models[0].id, "test-model");
}

#[test]
fn test_default_models() {
    let large_model = Model::new(
        "large-model".to_string(),
        "Large Model".to_string(),
        3_000_000,
        15_000_000,
        200_000,
        50000,
    );

    let small_model = Model::new(
        "small-model".to_string(),
        "Small Model".to_string(),
        1_000_000,
        5_000_000,
        100_000,
        8000,
    );

    let mut provider = Provider::new(
        "Test Provider".to_string(),
        "test".to_string(),
        "test".to_string(),
    );

    provider.default_large_model_id = Some("large-model".to_string());
    provider.default_small_model_id = Some("small-model".to_string());
    provider = provider.with_model(large_model).with_model(small_model);

    assert!(provider.default_large_model().is_some());
    assert_eq!(provider.default_large_model().unwrap().id, "large-model");
    assert!(provider.default_small_model().is_some());
    assert_eq!(provider.default_small_model().unwrap().id, "small-model");
}

#[test]
fn test_default_model_miss_is_none() {
    // A configured default id that resolves to no model is a lookup miss,
    // not an error.
    let mut provider = Provider::new(
        "Test Provider".to_string(),
        "test".to_string(),
        "test".to_string(),
    );
    provider.default_large_model_id = Some("absent".to_string());
    assert!(provider.default_large_model().is_none());
    assert!(provider.default_small_model().is_none());
}

#[test]
fn test_provider_builders() {
    let a = Model::new(
        "a".to_string(),
        "A".to_string(),
        1_000_000,
        2_000_000,
        1000,
        100,
    );
    let b = Model::new(
        "b".to_string(),
        "B".to_string(),
        1_000_000,
        2_000_000,
        1000,
        100,
    );
    let provider = Provider::new("P".to_string(), "p".to_string(), "p".to_string())
        .with_models(vec![a, b])
        .with_api_endpoint("https://example.test/v1".to_string());
    assert_eq!(provider.models.len(), 2);
    assert_eq!(provider.models[1].id, "b");
    assert_eq!(provider.api_endpoint.as_deref(), Some("https://example.test/v1"));
    assert!(provider.get_model("a").is_some());
    assert!(provider.get_model("c").is_none());
}
