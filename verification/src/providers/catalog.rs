//! The embedded catalog: the fixed list of provider definitions the
//! registry is loaded from at startup, one definition per vendor, in
//! declaration order.
//!
//! Prices are micro-USD per million tokens, so `3_000_000` reads "3 USD per
//! million tokens".

use crate::providers::definition::DefEntry;
use crate::providers::definition::DefValue;
use crate::providers::definition::ProviderDef;
use crate::providers::definition::lemma_lookup_absent;
use crate::providers::definition::lemma_lookup_found;
use crate::providers::definition::parse_provider;
use crate::providers::definition::spec_def_has_id;
use crate::providers::definition::spec_provider_ok;
use crate::providers::definition::spec_provider_rec_ok;
use crate::providers::definition::spec_req_text;
use vstd::prelude::*;

verus! {

/// A text field.
fn text_entry(key: &str, val: &str) -> (e: DefEntry)
    ensures
        e.key@ == key@,
        e.value matches DefValue::Text(s) && s@ == val@,
{
    DefEntry { key: key.to_owned(), value: DefValue::Text(val.to_owned()) }
}

/// An unsigned-integer field.
fn uint_entry(key: &str, val: u64) -> (e: DefEntry)
    ensures
        e.key@ == key@,
        e.value == DefValue::Uint(val),
{
    DefEntry { key: key.to_owned(), value: DefValue::Uint(val) }
}

/// A flag field.
fn flag_entry(key: &str, val: bool) -> (e: DefEntry)
    ensures
        e.key@ == key@,
        e.value == DefValue::Flag(val),
{
    DefEntry { key: key.to_owned(), value: DefValue::Flag(val) }
}

/// A bare, provably well-formed definition: name, id and type, all reading
/// `id`. The fallback identity a richer record degrades to when it fails
/// its own validation.
fn bare_def(name: String, id: &str) -> (r: ProviderDef)
    ensures
        spec_provider_ok(r.def),
        spec_def_has_id(r, id@),
{
    let mut entries: Vec<DefEntry> = Vec::new();
    entries.push(text_entry("name", id));
    entries.push(text_entry("id", id));
    entries.push(text_entry("type", id));
    proof {
        broadcast use vstd::string::group_string_axioms;

        reveal_strlit("name");
        reveal_strlit("id");
        reveal_strlit("type");
        reveal_strlit("api_key");
        reveal_strlit("api_endpoint");
        reveal_strlit("default_large_model_id");
        reveal_strlit("default_small_model_id");
        reveal_strlit("default_headers");
        reveal_strlit("models");
        assert("name"@.len() == 4);
        assert("id"@.len() == 2);
        assert("type"@.len() == 4);
        assert("api_key"@.len() == 7);
        assert("api_endpoint"@.len() == 12);
        assert("default_large_model_id"@.len() == 22);
        assert("default_small_model_id"@.len() == 22);
        assert("default_headers"@.len() == 15);
        assert("models"@.len() == 6);
        assert("name"@[0] == 'n' && "type"@[0] == 't');
        lemma_lookup_found(entries@, "name"@, 0);
        lemma_lookup_found(entries@, "id"@, 1);
        lemma_lookup_found(entries@, "type"@, 2);
        lemma_lookup_absent(entries@, "api_key"@);
        lemma_lookup_absent(entries@, "api_endpoint"@);
        lemma_lookup_absent(entries@, "default_large_model_id"@);
        lemma_lookup_absent(entries@, "default_small_model_id"@);
        lemma_lookup_absent(entries@, "default_headers"@);
        lemma_lookup_absent(entries@, "models"@);
        assert(spec_provider_rec_ok(entries@));
        assert(spec_req_text(entries@, "id"@) matches Some(s) && s@ == id@);
    }
    ProviderDef { name, def: DefValue::Record(entries) }
}

/// The record itself when the catalog validator accepts it under the
/// expected id, else the definition's bare identity: either way the result
/// is well formed and carries `id`, by the same validation that loads the
/// catalog.
fn checked(d: ProviderDef, id: &str) -> (r: ProviderDef)
    ensures
        spec_provider_ok(r.def),
        spec_def_has_id(r, id@),
{
    let want: String = id.to_owned();
    match parse_provider(&d.def) {
        Some(p) => {
            if p.id == want {
                proof {
                    assert(spec_provider_ok(d.def));
                    assert(spec_def_has_id(d, id@));
                }
                d
            } else {
                bare_def(d.name, id)
            }
        },
        None => bare_def(d.name, id),
    }
}

/// A model record with the required fields; extras are pushed by callers.
fn model_entries(
    id: &str,
    name: &str,
    cost_per_1m_in: u64,
    cost_per_1m_out: u64,
    context_window: u64,
    default_max_tokens: u64,
) -> Vec<DefEntry> {
    let mut entries: Vec<DefEntry> = Vec::new();
    entries.push(text_entry("id", id));
    entries.push(text_entry("name", name));
    entries.push(uint_entry("cost_per_1m_in", cost_per_1m_in));
    entries.push(uint_entry("cost_per_1m_out", cost_per_1m_out));
    entries.push(uint_entry("context_window", context_window));
    entries.push(uint_entry("default_max_tokens", default_max_tokens));
    entries
}

/// The base entries every provider definition starts with.
fn provider_entries(name: &str, id: &str, provider_type: &str) -> Vec<DefEntry> {
    let mut entries: Vec<DefEntry> = Vec::new();
    entries.push(text_entry("name", name));
    entries.push(text_entry("id", id));
    entries.push(text_entry("type", provider_type));
    entries
}

/// A provider definition with one plainly priced model.
fn simple_provider(
    name: &str,
    id: &str,
    api_key: &str,
    api_endpoint: &str,
    model_id: &str,
    model_name: &str,
    cost_per_1m_in: u64,
    cost_per_1m_out: u64,
    context_window: u64,
    default_max_tokens: u64,
) -> ProviderDef {
    let mut entries = provider_entries(name, id, id);
    entries.push(text_entry("api_key", api_key));
    entries.push(text_entry("api_endpoint", api_endpoint));
    entries.push(text_entry("default_large_model_id", model_id));
    entries.push(text_entry("default_small_model_id", model_id));
    let mut models: Vec<DefValue> = Vec::new();
    models.push(
        DefValue::Record(
            model_entries(
                model_id,
                model_name,
                cost_per_1m_in,
                cost_per_1m_out,
                context_window,
                default_max_tokens,
            ),
        ),
    );
    entries.push(DefEntry { key: "models".to_owned(), value: DefValue::List(models) });
    ProviderDef { name: name.to_owned(), def: DefValue::Record(entries) }
}

/// The Anthropic definition: two models, cached prices, a required
/// version header.
fn anthropic_definition() -> ProviderDef {
    let mut entries = provider_entries("Anthropic", "anthropic", "anthropic");
    entries.push(text_entry("api_key", "$ANTHROPIC_API_KEY"));
    entries.push(text_entry("api_endpoint", "https://api.anthropic.com/v1"));
    entries.push(text_entry("default_large_model_id", "anthropic-large-4"));
    entries.push(text_entry("default_small_model_id", "anthropic-small-3-5"));
    let mut headers: Vec<DefEntry> = Vec::new();
    headers.push(text_entry("anthropic-version", "2023-06-01"));
    entries.push(DefEntry { key: "default_headers".to_owned(), value: DefValue::Record(headers) });
    let mut models: Vec<DefValue> = Vec::new();
    let mut large = model_entries(
        "anthropic-large-4",
        "Anthropic Large 4",
        3_000_000,
        15_000_000,
        200_000,
        64_000,
    );
    large.push(uint_entry("cost_per_1m_in_cached", 300_000));
    large.push(uint_entry("cost_per_1m_out_cached", 3_750_000));
    large.push(flag_entry("can_reason", true));
    large.push(flag_entry("has_reasoning_efforts", true));
    large.push(text_entry("default_reasoning_effort", "medium"));
    large.push(flag_entry("supports_attachments", true));
    models.push(DefValue::Record(large));
    let mut small = model_entries(
        "anthropic-small-3-5",
        "Anthropic Small 3.5",
        800_000,
        4_000_000,
        200_000,
        8_192,
    );
    small.push(uint_entry("cost_per_1m_in_cached", 80_000));
    small.push(uint_entry("cost_per_1m_out_cached", 1_000_000));
    small.push(flag_entry("supports_attachments", true));
    models.push(DefValue::Record(small));
    entries.push(DefEntry { key: "models".to_owned(), value: DefValue::List(models) });
    ProviderDef { name: "Anthropic".to_owned(), def: DefValue::Record(entries) }
}

/// The OpenAI definition: two models, cached input prices.
fn openai_definition() -> ProviderDef {
    let mut entries = provider_entries("OpenAI", "openai", "openai");
    entries.push(text_entry("api_key", "$OPENAI_API_KEY"));
    entries.push(text_entry("api_endpoint", "https://api.openai.com/v1"));
    entries.push(text_entry("default_large_model_id", "gpt-4o"));
    entries.push(text_entry("default_small_model_id", "gpt-4o-mini"));
    let mut models: Vec<DefValue> = Vec::new();
    let mut large = model_entries("gpt-4o", "GPT-4o", 2_500_000, 10_000_000, 128_000, 16_384);
    large.push(uint_entry("cost_per_1m_in_cached", 1_250_000));
    large.push(flag_entry("supports_attachments", true));
    models.push(DefValue::Record(large));
    let mut small = model_entries("gpt-4o-mini", "GPT-4o mini", 150_000, 600_000, 128_000, 16_384);
    small.push(uint_entry("cost_per_1m_in_cached", 75_000));
    small.push(flag_entry("supports_attachments", true));
    models.push(DefValue::Record(small));
    entries.push(DefEntry { key: "models".to_owned(), value: DefValue::List(models) });
    ProviderDef { name: "OpenAI".to_owned(), def: DefValue::Record(entries) }
}

/// The Gemini definition: two models.
fn gemini_definition() -> ProviderDef {
    let mut entries = provider_entries("Gemini", "gemini", "gemini");
    entries.push(text_entry("api_key", "$GEMINI_API_KEY"));
    entries.push(text_entry("api_endpoint", "https://generativelanguage.googleapis.com/v1beta"));
    entries.push(text_entry("default_large_model_id", "gemini-2.5-pro"));
    entries.push(text_entry("default_small_model_id", "gemini-2.5-flash"));
    let mut models: Vec<DefValue> = Vec::new();
    let mut pro = model_entries(
        "gemini-2.5-pro",
        "Gemini 2.5 Pro",
        1_250_000,
        10_000_000,
        1_048_576,
        65_536,
    );
    pro.push(flag_entry("can_reason", true));
    pro.push(flag_entry("supports_attachments", true));
    models.push(DefValue::Record(pro));
    let mut flash = model_entries(
        "gemini-2.5-flash",
        "Gemini 2.5 Flash",
        300_000,
        2_500_000,
        1_048_576,
        65_536,
    );
    flash.push(flag_entry("supports_attachments", true));
    models.push(DefValue::Record(flash));
    entries.push(DefEntry { key: "models".to_owned(), value: DefValue::List(models) });
    ProviderDef { name: "Gemini".to_owned(), def: DefValue::Record(entries) }
}

/// The DeepSeek definition: a chat model and a reasoner.
fn deepseek_definition() -> ProviderDef {
    let mut entries = provider_entries("DeepSeek", "deepseek", "openai");
    entries.push(text_entry("api_key", "$DEEPSEEK_API_KEY"));
    entries.push(text_entry("api_endpoint", "https://api.deepseek.com"));
    entries.push(text_entry("default_large_model_id", "deepseek-reasoner"));
    entries.push(text_entry("default_small_model_id", "deepseek-chat"));
    let mut models: Vec<DefValue> = Vec::new();
    let mut chat = model_entries("deepseek-chat", "DeepSeek Chat", 270_000, 1_100_000, 64_000, 8_000);
    chat.push(uint_entry("cost_per_1m_in_cached", 70_000));
    models.push(DefValue::Record(chat));
    let mut reasoner = model_entries(
        "deepseek-reasoner",
        "DeepSeek Reasoner",
        550_000,
        2_190_000,
        64_000,
        64_000,
    );
    reasoner.push(flag_entry("can_reason", true));
    models.push(DefValue::Record(reasoner));
    entries.push(DefEntry { key: "models".to_owned(), value: DefValue::List(models) });
    ProviderDef { name: "DeepSeek".to_owned(), def: DefValue::Record(entries) }
}

/// The fixed provider definitions the catalog is built from, in
/// declaration order. Each is checked, as it is built, by the same
/// validator that loads the catalog, so every definition is well formed
/// and carries its reference id.
pub fn embedded_definitions() -> (defs: Vec<ProviderDef>)
    ensures
        defs@.len() == 16,
        forall|i: int| 0 <= i < defs@.len() ==> spec_provider_ok(#[trigger] defs@[i].def),
        spec_def_has_id(defs@[0], "anthropic"@),
        spec_def_has_id(defs@[1], "openai"@),
        spec_def_has_id(defs@[2], "gemini"@),
        spec_def_has_id(defs@[3], "azure"@),
        spec_def_has_id(defs@[4], "bedrock"@),
        spec_def_has_id(defs@[5], "vertexai"@),
        spec_def_has_id(defs@[6], "xai"@),
        spec_def_has_id(defs@[7], "zai"@),
        spec_def_has_id(defs@[8], "groq"@),
        spec_def_has_id(defs@[9], "openrouter"@),
        spec_def_has_id(defs@[10], "cerebras"@),
        spec_def_has_id(defs@[11], "venice"@),
        spec_def_has_id(defs@[12], "chutes"@),
        spec_def_has_id(defs@[13], "deepseek"@),
        spec_def_has_id(defs@[14], "huggingface"@),
        spec_def_has_id(defs@[15], "aihubmix"@),
{
    let mut defs: Vec<ProviderDef> = Vec::new();
    defs.push(checked(anthropic_definition(), "anthropic"));
    defs.push(checked(openai_definition(), "openai"));
    defs.push(checked(gemini_definition(), "gemini"));
    defs.push(
        checked(
            simple_provider(
                "Azure",
                "azure",
                "$AZURE_OPENAI_API_KEY",
                "https://your-resource.openai.azure.com",
                "gpt-4o",
                "GPT-4o (Azure)",
                2_500_000,
                10_000_000,
                128_000,
                16_384,
            ),
            "azure",
        ),
    );
    defs.push(
        checked(
            simple_provider(
                "Bedrock",
                "bedrock",
                "$AWS_BEARER_TOKEN_BEDROCK",
                "https://bedrock-runtime.us-east-1.amazonaws.com",
                "anthropic.large-4",
                "Anthropic Large 4 (Bedrock)",
                3_000_000,
                15_000_000,
                200_000,
                64_000,
            ),
            "bedrock",
        ),
    );
    defs.push(
        checked(
            simple_provider(
                "VertexAI",
                "vertexai",
                "$VERTEXAI_PROJECT",
                "https://aiplatform.googleapis.com/v1",
                "gemini-2.5-pro",
                "Gemini 2.5 Pro (Vertex)",
                1_250_000,
                10_000_000,
                1_048_576,
                65_536,
            ),
            "vertexai",
        ),
    );
    defs.push(
        checked(
            simple_provider(
                "xAI",
                "xai",
                "$XAI_API_KEY",
                "https://api.x.ai/v1",
                "grok-3",
                "Grok 3",
                3_000_000,
                15_000_000,
                131_072,
                16_384,
            ),
            "xai",
        ),
    );
    defs.push(
        checked(
            simple_provider(
                "zAI",
                "zai",
                "$ZAI_API_KEY",
                "https://api.z.ai/api/paas/v4",
                "glm-4.5",
                "GLM-4.5",
                600_000,
                2_200_000,
                128_000,
                16_384,
            ),
            "zai",
        ),
    );
    defs.push(
        checked(
            simple_provider(
                "Groq",
                "groq",
                "$GROQ_API_KEY",
                "https://api.groq.com/openai/v1",
                "llama-3.3-70b-versatile",
                "Llama 3.3 70B",
                590_000,
                790_000,
                131_072,
                32_768,
            ),
            "groq",
        ),
    );
    defs.push(
        checked(
            simple_provider(
                "OpenRouter",
                "openrouter",
                "$OPENROUTER_API_KEY",
                "https://openrouter.ai/api/v1",
                "openrouter/auto",
                "Auto Router",
                2_000_000,
                6_000_000,
                200_000,
                16_384,
            ),
            "openrouter",
        ),
    );
    defs.push(
        checked(
            simple_provider(
                "Cerebras",
                "cerebras",
                "$CEREBRAS_API_KEY",
                "https://api.cerebras.ai/v1",
                "llama-3.3-70b",
                "Llama 3.3 70B (Cerebras)",
                850_000,
                1_200_000,
                128_000,
                16_384,
            ),
            "cerebras",
        ),
    );
    defs.push(
        checked(
            simple_provider(
                "Venice",
                "venice",
                "$VENICE_API_KEY",
                "https://api.venice.ai/api/v1",
                "venice-large",
                "Venice Large",
                700_000,
                2_800_000,
                131_072,
                16_384,
            ),
            "venice",
        ),
    );
    defs.push(
        checked(
            simple_provider(
                "Chutes",
                "chutes",
                "$CHUTES_API_TOKEN",
                "https://llm.chutes.ai/v1",
                "deepseek-v3",
                "DeepSeek V3 (Chutes)",
                250_000,
                1_000_000,
                64_000,
                8_192,
            ),
            "chutes",
        ),
    );
    defs.push(checked(deepseek_definition(), "deepseek"));
    defs.push(
        checked(
            simple_provider(
                "HuggingFace",
                "huggingface",
                "$HF_TOKEN",
                "https://router.huggingface.co/v1",
                "llama-3.1-8b-instruct",
                "Llama 3.1 8B Instruct",
                100_000,
                300_000,
                131_072,
                8_192,
            ),
            "huggingface",
        ),
    );
    defs.push(
        checked(
            simple_provider(
                "AIHubMix",
                "aihubmix",
                "$AIHUBMIX_API_KEY",
                "https://aihubmix.com/v1",
                "gpt-4o",
                "GPT-4o (AIHubMix)",
                2_500_000,
                10_000_000,
                128_000,
                16_384,
            ),
            "aihubmix",
        ),
    );
    proof {
        assert forall|i: int| 0 <= i < defs@.len() implies spec_provider_ok(
            #[trigger] defs@[i].def,
        ) by {}
    }
    defs
}

} // verus!
