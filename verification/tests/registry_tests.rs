use crabrace::providers::catalog::embedded_definitions;
use crabrace::providers::definition::DefEntry;
use crabrace::providers::definition::DefValue;
use crabrace::providers::definition::ProviderDef;
use crabrace::providers::registry::ProviderRegistry;

#[test]
fn test_registry_creation() {
    let registry = ProviderRegistry::new();
    assert!(registry.is_ok());
}

#[test]
fn test_get_all_providers() {
    let registry = ProviderRegistry::new().unwrap();
    let providers = registry.get_all().unwrap();
    assert!(!providers.is_empty());
}

#[test]
fn test_provider_count() {
    let registry = ProviderRegistry::new().unwrap();
    // Should have 16 providers loaded
    assert_eq!(registry.count(), 16);
}

#[test]
fn test_all_providers_loaded() {
    let registry = ProviderRegistry::new().unwrap();
    let providers = registry.get_all().unwrap();

    // Check that all expected providers are present
    let expected_providers = vec![
        "anthropic",
        "openai",
        "gemini",
        "azure",
        "bedrock",
        "vertexai",
        "xai",
        "zai",
        "groq",
        "openrouter",
        "cerebras",
        "venice",
        "chutes",
        "deepseek",
        "huggingface",
        "aihubmix",
    ];

    assert_eq!(providers.len(), expected_providers.len());

    for expected_id in expected_providers {
        assert!(
            providers.iter().any(|p| p.id == expected_id),
            "Provider '{}' not found in registry",
            expected_id
        );
    }
}

#[test]
fn test_get_provider_by_id() {
    let registry = ProviderRegistry::new().unwrap();

    // Test getting specific providers
    let anthropic = registry.get_by_id("anthropic").unwrap();
    assert!(anthropic.is_some());
    assert_eq!(anthropic.unwrap().id, "anthropic");

    let openai = registry.get_by_id("openai").unwrap();
    assert!(openai.is_some());
    assert_eq!(openai.unwrap().id, "openai");

    // Test non-existent provider
    let nonexistent = registry.get_by_id("nonexistent").unwrap();
    assert!(nonexistent.is_none());
}

#[test]
fn test_get_by_id_exact_for_every_loaded_provider() {
    // Every loaded id resolves to the provider carrying exactly that id;
    // anything else resolves to nothing.
    let registry = ProviderRegistry::new().unwrap();
    let providers = registry.get_all().unwrap();
    for p in &providers {
        let found = registry.get_by_id(&p.id).unwrap();
        assert_eq!(found.as_ref().map(|f| f.id.as_str()), Some(p.id.as_str()));
    }
    assert!(registry.get_by_id("").unwrap().is_none());
    assert!(registry.get_by_id("Anthropic").unwrap().is_none()); // case-sensitive
}

#[test]
fn test_get_all_copy_independence() {
    // Mutating what get_all handed out never changes what a later call
    // returns.
    let registry = ProviderRegistry::new().unwrap();
    let mut first = registry.get_all().unwrap();
    first[0].name = "mangled".to_string();
    first[0].models.clear();
    first.truncate(1);
    let second = registry.get_all().unwrap();
    assert_eq!(second.len(), 16);
    assert_eq!(second[0].name, "Anthropic");
    assert!(!second[0].models.is_empty());
}

#[test]
fn test_get_model_chained_lookup() {
    let registry = ProviderRegistry::new().unwrap();
    let model = registry.get_model("anthropic", "anthropic-large-4").unwrap();
    assert!(model.is_some());
    let model = model.unwrap();
    assert_eq!(model.name, "Anthropic Large 4");
    assert_eq!(model.cost_per_1m_in, 3_000_000);
    assert!(registry.get_model("anthropic", "absent-model").unwrap().is_none());
    assert!(registry.get_model("absent-provider", "anthropic-large-4").unwrap().is_none());
}

#[test]
fn test_model_count_totals_all_providers() {
    let registry = ProviderRegistry::new().unwrap();
    // anthropic, openai, gemini and deepseek declare two models each; the
    // other twelve declare one.
    assert_eq!(registry.model_count(), 20);
}

fn valid_def(name: &str, id: &str) -> ProviderDef {
    let entries = vec![
        DefEntry { key: "name".to_string(), value: DefValue::Text(name.to_string()) },
        DefEntry { key: "id".to_string(), value: DefValue::Text(id.to_string()) },
        DefEntry { key: "type".to_string(), value: DefValue::Text(id.to_string()) },
    ];
    ProviderDef { name: name.to_string(), def: DefValue::Record(entries) }
}

#[test]
fn test_load_skips_malformed_definition() {
    // N valid definitions and one malformed yield exactly N providers and
    // one diagnostic naming the bad definition.
    let bad = ProviderDef {
        name: "Broken".to_string(),
        def: DefValue::Record(vec![DefEntry {
            key: "name".to_string(),
            value: DefValue::Text("Broken".to_string()),
        }]), // missing id and type
    };
    let defs = vec![valid_def("First", "first"), bad, valid_def("Second", "second")];
    let (registry, diagnostics) = ProviderRegistry::from_definitions(&defs);
    assert_eq!(registry.count(), 2);
    let all = registry.get_all().unwrap();
    assert_eq!(all[0].id, "first");
    assert_eq!(all[1].id, "second");
    assert_eq!(diagnostics, vec!["Broken".to_string()]);
}

#[test]
fn test_load_rejects_wrongly_typed_fields() {
    // A wrongly typed optional field is structural breakage: the whole
    // definition is dropped.
    let mut entries = vec![
        DefEntry { key: "name".to_string(), value: DefValue::Text("P".to_string()) },
        DefEntry { key: "id".to_string(), value: DefValue::Text("p".to_string()) },
        DefEntry { key: "type".to_string(), value: DefValue::Text("p".to_string()) },
    ];
    entries.push(DefEntry { key: "api_endpoint".to_string(), value: DefValue::Uint(3) });
    let def = ProviderDef { name: "P".to_string(), def: DefValue::Record(entries) };
    let (registry, diagnostics) = ProviderRegistry::from_definitions(&vec![def]);
    assert_eq!(registry.count(), 0);
    assert_eq!(diagnostics.len(), 1);
}

#[test]
fn test_load_rejects_malformed_model() {
    // One malformed model poisons its whole provider definition.
    let model = DefValue::Record(vec![
        DefEntry { key: "id".to_string(), value: DefValue::Text("m".to_string()) },
        DefEntry { key: "name".to_string(), value: DefValue::Text("M".to_string()) },
        // prices and limits missing
    ]);
    let entries = vec![
        DefEntry { key: "name".to_string(), value: DefValue::Text("P".to_string()) },
        DefEntry { key: "id".to_string(), value: DefValue::Text("p".to_string()) },
        DefEntry { key: "type".to_string(), value: DefValue::Text("p".to_string()) },
        DefEntry { key: "models".to_string(), value: DefValue::List(vec![model]) },
    ];
    let def = ProviderDef { name: "P".to_string(), def: DefValue::Record(entries) };
    let (registry, diagnostics) = ProviderRegistry::from_definitions(&vec![def]);
    assert_eq!(registry.count(), 0);
    assert_eq!(diagnostics, vec!["P".to_string()]);
}

#[test]
fn test_embedded_definitions_all_well_formed() {
    let defs = embedded_definitions();
    assert_eq!(defs.len(), 16);
    let (registry, diagnostics) = ProviderRegistry::from_definitions(&defs);
    assert_eq!(registry.count(), 16);
    assert!(diagnostics.is_empty());
}

#[test]
fn test_loaded_provider_metadata() {
    let registry = ProviderRegistry::new().unwrap();
    let anthropic = registry.get_by_id("anthropic").unwrap().unwrap();
    assert_eq!(anthropic.name, "Anthropic");
    assert_eq!(anthropic.provider_type, "anthropic");
    assert_eq!(anthropic.api_key.as_deref(), Some("$ANTHROPIC_API_KEY"));
    assert_eq!(anthropic.api_endpoint.as_deref(), Some("https://api.anthropic.com/v1"));
    assert_eq!(anthropic.default_large_model_id.as_deref(), Some("anthropic-large-4"));
    assert_eq!(anthropic.default_small_model_id.as_deref(), Some("anthropic-small-3-5"));
    let headers = anthropic.default_headers.as_ref().unwrap();
    assert_eq!(headers.len(), 1);
    assert_eq!(headers[0].0, "anthropic-version");
    assert_eq!(headers[0].1, "2023-06-01");
    let sonnet = anthropic.default_large_model().unwrap();
    assert!(sonnet.can_reason);
    assert_eq!(sonnet.cost_per_1m_in_cached, Some(300_000));
}

#[test]
fn test_load_rejects_duplicate_header_keys() {
    // default_headers stands for a mapping: a repeated key is structural
    // breakage and the definition is dropped.
    let headers = vec![
        DefEntry { key: "x-a".to_string(), value: DefValue::Text("1".to_string()) },
        DefEntry { key: "x-a".to_string(), value: DefValue::Text("2".to_string()) },
    ];
    let entries = vec![
        DefEntry { key: "name".to_string(), value: DefValue::Text("P".to_string()) },
        DefEntry { key: "id".to_string(), value: DefValue::Text("p".to_string()) },
        DefEntry { key: "type".to_string(), value: DefValue::Text("p".to_string()) },
        DefEntry { key: "default_headers".to_string(), value: DefValue::Record(headers) },
    ];
    let def = ProviderDef { name: "P".to_string(), def: DefValue::Record(entries) };
    let (registry, diagnostics) = ProviderRegistry::from_definitions(&vec![def]);
    assert_eq!(registry.count(), 0);
    assert_eq!(diagnostics, vec!["P".to_string()]);
}
