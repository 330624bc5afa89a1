//! The catalog data model: providers and their priced, capability-tagged
//! models.
//!
//! Prices are fixed-point: a model's `cost_per_1m_in` / `cost_per_1m_out` is
//! the price of one million tokens in micro-USD (one millionth of a dollar),
//! so a cost computed by [`Model::calculate_cost`] comes out in pico-USD
//! (one trillionth of a dollar): `tokens * price_micro_usd_per_1m` pico-USD.

use vstd::prelude::*;

verus! {

/// One priced, capability-tagged inference target, owned by a provider.
pub struct Model {
    /// Identifier, unique within its provider.
    pub id: String,
    /// Human-readable name.
    pub name: String,
    /// Price of one million input tokens, in micro-USD.
    pub cost_per_1m_in: u64,
    /// Price of one million output tokens, in micro-USD.
    pub cost_per_1m_out: u64,
    /// Price of one million cached input tokens, in micro-USD, when prompt
    /// caching is priced separately.
    pub cost_per_1m_in_cached: Option<u64>,
    /// Price of one million cached output tokens, in micro-USD.
    pub cost_per_1m_out_cached: Option<u64>,
    /// Maximum context window size, in tokens.
    pub context_window: u64,
    /// Default maximum number of output tokens.
    pub default_max_tokens: u64,
    /// Whether the model supports extended reasoning.
    pub can_reason: bool,
    /// Whether the model takes a reasoning-effort parameter.
    pub has_reasoning_efforts: bool,
    /// Default reasoning effort level, when one applies.
    pub default_reasoning_effort: Option<String>,
    /// Whether the model accepts image or attachment inputs.
    pub supports_attachments: bool,
}

impl Model {
    /// Create a model with the given identity, standard prices and limits;
    /// cached prices are unset and every capability flag starts false.
    pub fn new(
        id: String,
        name: String,
        cost_per_1m_in: u64,
        cost_per_1m_out: u64,
        context_window: u64,
        default_max_tokens: u64,
    ) -> (m: Model)
        ensures
            m.id == id,
            m.name == name,
            m.cost_per_1m_in == cost_per_1m_in,
            m.cost_per_1m_out == cost_per_1m_out,
            m.cost_per_1m_in_cached is None,
            m.cost_per_1m_out_cached is None,
            m.context_window == context_window,
            m.default_max_tokens == default_max_tokens,
            m.can_reason == false,
            m.has_reasoning_efforts == false,
            m.default_reasoning_effort is None,
            m.supports_attachments == false,
    {
        Model {
            id,
            name,
            cost_per_1m_in,
            cost_per_1m_out,
            cost_per_1m_in_cached: None,
            cost_per_1m_out_cached: None,
            context_window,
            default_max_tokens,
            can_reason: false,
            has_reasoning_efforts: false,
            default_reasoning_effort: None,
            supports_attachments: false,
        }
    }

    /// The input price that applies: the cached price when caching is
    /// requested and a cached price is set, the standard price otherwise.
    pub open spec fn spec_input_price(self, use_cache: bool) -> u64 {
        if use_cache && self.cost_per_1m_in_cached is Some {
            self.cost_per_1m_in_cached.unwrap()
        } else {
            self.cost_per_1m_in
        }
    }

    /// The output price that applies, by the same rule as
    /// [`Model::spec_input_price`].
    pub open spec fn spec_output_price(self, use_cache: bool) -> u64 {
        if use_cache && self.cost_per_1m_out_cached is Some {
            self.cost_per_1m_out_cached.unwrap()
        } else {
            self.cost_per_1m_out
        }
    }

    /// Exact cost in pico-USD of a request: each token count times the
    /// applicable per-million price in micro-USD.
    pub open spec fn spec_cost(self, input_tokens: u64, output_tokens: u64, use_cache: bool) -> int {
        input_tokens * self.spec_input_price(use_cache)
            + output_tokens * self.spec_output_price(use_cache)
    }

    /// Cost in pico-USD for the given token counts. When `use_cache` is true
    /// and a cached price is set, that side of the sum uses the cached price;
    /// otherwise it falls back to the standard price. No rounding happens:
    /// the result is exact.
    pub fn calculate_cost(&self, input_tokens: u64, output_tokens: u64, use_cache: bool) -> (cost:
        u128)
        requires
            self.spec_cost(input_tokens, output_tokens, use_cache) <= u128::MAX,
        ensures
            cost == self.spec_cost(input_tokens, output_tokens, use_cache),
    {
        let input_price: u64 = if use_cache {
            match self.cost_per_1m_in_cached {
                Some(c) => c,
                None => self.cost_per_1m_in,
            }
        } else {
            self.cost_per_1m_in
        };
        let output_price: u64 = if use_cache {
            match self.cost_per_1m_out_cached {
                Some(c) => c,
                None => self.cost_per_1m_out,
            }
        } else {
            self.cost_per_1m_out
        };
        assert((input_tokens as u128) * (input_price as u128) <= (u64::MAX as u128) * (
        u64::MAX as u128)) by (nonlinear_arith);
        assert((output_tokens as u128) * (output_price as u128) <= (u64::MAX as u128) * (
        u64::MAX as u128)) by (nonlinear_arith);
        let input_cost: u128 = (input_tokens as u128) * (input_price as u128);
        let output_cost: u128 = (output_tokens as u128) * (output_price as u128);
        input_cost + output_cost
    }

    /// Whether `tokens` fits in this model's context window; the boundary is
    /// inclusive.
    pub open spec fn spec_fits_in_context(self, tokens: int) -> bool {
        tokens <= self.context_window
    }

    /// True exactly when the given token count is at most the context window.
    pub fn fits_in_context(&self, tokens: u64) -> (r: bool)
        ensures
            r == self.spec_fits_in_context(tokens as int),
    {
        tokens <= self.context_window
    }
}

/// A token count equal to the context window fits; one more does not.
pub proof fn lemma_context_window_boundary(m: Model)
    ensures
        m.spec_fits_in_context(m.context_window as int),
        !m.spec_fits_in_context(m.context_window as int + 1),
{
}

impl Clone for Model {
    /// A clone is equal, field for field, to the model it was made from.
    fn clone(&self) -> (r: Self)
        ensures
            r == *self,
    {
        Model {
            id: self.id.clone(),
            name: self.name.clone(),
            cost_per_1m_in: self.cost_per_1m_in,
            cost_per_1m_out: self.cost_per_1m_out,
            cost_per_1m_in_cached: self.cost_per_1m_in_cached,
            cost_per_1m_out_cached: self.cost_per_1m_out_cached,
            context_window: self.context_window,
            default_max_tokens: self.default_max_tokens,
            can_reason: self.can_reason,
            has_reasoning_efforts: self.has_reasoning_efforts,
            default_reasoning_effort: match &self.default_reasoning_effort {
                Some(s) => Some(s.clone()),
                None => None,
            },
            supports_attachments: self.supports_attachments,
        }
    }
}

/// The first model in `models` whose id is `id`, if any.
pub open spec fn spec_find_model(models: Seq<Model>, id: Seq<char>) -> Option<Model>
    decreases models.len(),
{
    if models.len() == 0 {
        None
    } else if models[0].id@ == id {
        Some(models[0])
    } else {
        spec_find_model(models.drop_first(), id)
    }
}

/// One inference vendor: identity, classification, optional connection
/// metadata, and the models it offers, in declaration order.
pub struct Provider {
    /// Display name.
    pub name: String,
    /// Stable unique identifier (a lowercase slug).
    pub id: String,
    /// Provider type or category.
    pub provider_type: String,
    /// API key placeholder, e.g. an environment-variable reference.
    pub api_key: Option<String>,
    /// API endpoint URL.
    pub api_endpoint: Option<String>,
    /// Identifier of the default model for large tasks; resolved against
    /// `models`, and a miss is simply "no default".
    pub default_large_model_id: Option<String>,
    /// Identifier of the default model for small tasks.
    pub default_small_model_id: Option<String>,
    /// Extra HTTP headers the vendor requires, as (name, value) pairs.
    pub default_headers: Option<Vec<(String, String)>>,
    /// The provider's models, in declaration order.
    pub models: Vec<Model>,
}

impl Provider {
    /// Create a provider with the given identity and no connection metadata,
    /// defaults, or models.
    pub fn new(name: String, id: String, provider_type: String) -> (p: Provider)
        ensures
            p.name == name,
            p.id == id,
            p.provider_type == provider_type,
            p.api_key is None,
            p.api_endpoint is None,
            p.default_large_model_id is None,
            p.default_small_model_id is None,
            p.default_headers is None,
            p.models@ == Seq::<Model>::empty(),
    {
        Provider {
            name,
            id,
            provider_type,
            api_key: None,
            api_endpoint: None,
            default_large_model_id: None,
            default_small_model_id: None,
            default_headers: None,
            models: Vec::new(),
        }
    }

    /// Append one model; everything else is unchanged.
    pub fn with_model(self, model: Model) -> (p: Provider)
        ensures
            p.models@ == self.models@.push(model),
            p.name == self.name,
            p.id == self.id,
            p.provider_type == self.provider_type,
            p.api_key == self.api_key,
            p.api_endpoint == self.api_endpoint,
            p.default_large_model_id == self.default_large_model_id,
            p.default_small_model_id == self.default_small_model_id,
            p.default_headers == self.default_headers,
    {
        let mut p = self;
        p.models.push(model);
        p
    }

    /// Append the given models in order; everything else is unchanged.
    pub fn with_models(self, models: Vec<Model>) -> (p: Provider)
        ensures
            p.models@ == self.models@ + models@,
            p.name == self.name,
            p.id == self.id,
            p.provider_type == self.provider_type,
            p.api_key == self.api_key,
            p.api_endpoint == self.api_endpoint,
            p.default_large_model_id == self.default_large_model_id,
            p.default_small_model_id == self.default_small_model_id,
            p.default_headers == self.default_headers,
    {
        let mut p = self;
        let mut rest = models;
        let ghost all: Seq<Model> = rest@;
        let mut i: usize = 0;
        while i < rest.len()
            invariant
                i <= rest.len(),
                rest@ == all,
                p.models@ == self.models@ + all.subrange(0, i as int),
                p.name == self.name,
                p.id == self.id,
                p.provider_type == self.provider_type,
                p.api_key == self.api_key,
                p.api_endpoint == self.api_endpoint,
                p.default_large_model_id == self.default_large_model_id,
                p.default_small_model_id == self.default_small_model_id,
                p.default_headers == self.default_headers,
            decreases rest.len() - i,
        {
            let m = rest[i].clone();
            p.models.push(m);
            i = i + 1;
            proof {
                assert(all.subrange(0, i as int) =~= all.subrange(0, i as int - 1).push(
                all[i as int - 1]));
            }
        }
        proof {
            assert(all.subrange(0, all.len() as int) =~= all);
        }
        p
    }

    /// Set the API endpoint; everything else is unchanged.
    pub fn with_api_endpoint(self, api_endpoint: String) -> (p: Provider)
        ensures
            p.api_endpoint == Some(api_endpoint),
            p.name == self.name,
            p.id == self.id,
            p.provider_type == self.provider_type,
            p.api_key == self.api_key,
            p.default_large_model_id == self.default_large_model_id,
            p.default_small_model_id == self.default_small_model_id,
            p.default_headers == self.default_headers,
            p.models == self.models,
    {
        let mut p = self;
        p.api_endpoint = Some(api_endpoint);
        p
    }

    /// The first of this provider's models with the given id, or `None`.
    pub fn get_model(&self, model_id: &str) -> (r: Option<&Model>)
        ensures
            match r {
                Some(m) => spec_find_model(self.models@, model_id@) == Some(*m),
                None => spec_find_model(self.models@, model_id@) is None,
            },
    {
        let key: String = model_id.to_owned();
        let mut i: usize = 0;
        proof {
            assert(self.models@.subrange(0, self.models@.len() as int) =~= self.models@);
        }
        while i < self.models.len()
            invariant
                i <= self.models.len(),
                key@ == model_id@,
                spec_find_model(self.models@.subrange(i as int, self.models@.len() as int), model_id@)
                    == spec_find_model(self.models@, model_id@),
                forall|j: int| 0 <= j < i ==> self.models@[j].id@ != model_id@,
            decreases self.models.len() - i,
        {
            let ghost tail = self.models@.subrange(i as int, self.models@.len() as int);
            if self.models[i].id == key {
                proof {
                    assert(tail[0] == self.models@[i as int]);
                }
                return Some(&self.models[i]);
            }
            proof {
                assert(tail.drop_first() =~= self.models@.subrange(
                    i as int + 1,
                    self.models@.len() as int,
                ));
            }
            i = i + 1;
        }
        proof {
            assert(self.models@.subrange(i as int, self.models@.len() as int).len() == 0);
        }
        None
    }

    /// What the configured default id resolves to: the first model carrying
    /// that id, or `None` when the default is unset or resolves to nothing.
    pub open spec fn spec_default_model(models: Seq<Model>, configured: Option<String>) -> Option<
        Model,
    > {
        match configured {
            Some(id) => spec_find_model(models, id@),
            None => None,
        }
    }

    /// The model the large-task default id points at, if set and present.
    pub fn default_large_model(&self) -> (r: Option<&Model>)
        ensures
            match r {
                Some(m) => Self::spec_default_model(self.models@, self.default_large_model_id)
                    == Some(*m),
                None => Self::spec_default_model(self.models@, self.default_large_model_id) is None,
            },
    {
        match &self.default_large_model_id {
            Some(id) => self.get_model(id.as_str()),
            None => None,
        }
    }

    /// The model the small-task default id points at, if set and present.
    pub fn default_small_model(&self) -> (r: Option<&Model>)
        ensures
            match r {
                Some(m) => Self::spec_default_model(self.models@, self.default_small_model_id)
                    == Some(*m),
                None => Self::spec_default_model(self.models@, self.default_small_model_id) is None,
            },
    {
        match &self.default_small_model_id {
            Some(id) => self.get_model(id.as_str()),
            None => None,
        }
    }
}

/// The ghost contents of an optional header list: the pair sequence, if set.
pub open spec fn spec_headers_view(h: Option<Vec<(String, String)>>) -> Option<
    Seq<(String, String)>,
> {
    match h {
        Some(v) => Some(v@),
        None => None,
    }
}

impl Clone for Provider {
    /// A clone keeps every field: scalar and string fields are equal, and the
    /// header and model lists hold the same elements in the same order.
    fn clone(&self) -> (r: Self)
        ensures
            r.name == self.name,
            r.id == self.id,
            r.provider_type == self.provider_type,
            r.api_key == self.api_key,
            r.api_endpoint == self.api_endpoint,
            r.default_large_model_id == self.default_large_model_id,
            r.default_small_model_id == self.default_small_model_id,
            spec_headers_view(r.default_headers) == spec_headers_view(self.default_headers),
            r.models@ == self.models@,
    {
        let mut models: Vec<Model> = Vec::new();
        let mut i: usize = 0;
        while i < self.models.len()
            invariant
                i <= self.models.len(),
                models@ == self.models@.subrange(0, i as int),
            decreases self.models.len() - i,
        {
            models.push(self.models[i].clone());
            i = i + 1;
            proof {
                assert(self.models@.subrange(0, i as int) =~= self.models@.subrange(
                    0,
                    i as int - 1,
                ).push(self.models@[i as int - 1]));
            }
        }
        proof {
            assert(self.models@.subrange(0, self.models@.len() as int) =~= self.models@);
        }
        Provider {
            name: self.name.clone(),
            id: self.id.clone(),
            provider_type: self.provider_type.clone(),
            api_key: clone_opt_string(&self.api_key),
            api_endpoint: clone_opt_string(&self.api_endpoint),
            default_large_model_id: clone_opt_string(&self.default_large_model_id),
            default_small_model_id: clone_opt_string(&self.default_small_model_id),
            default_headers: clone_opt_pairs(&self.default_headers),
            models,
        }
    }
}

/// An equal copy of an optional string.
fn clone_opt_string(s: &Option<String>) -> (r: Option<String>)
    ensures
        r == *s,
{
    match s {
        Some(v) => Some(v.clone()),
        None => None,
    }
}

/// A copy of an optional list of string pairs, holding the same pairs.
fn clone_opt_pairs(s: &Option<Vec<(String, String)>>) -> (r: Option<Vec<(String, String)>>)
    ensures
        spec_headers_view(r) == spec_headers_view(*s),
{
    match s {
        Some(v) => {
            let mut out: Vec<(String, String)> = Vec::new();
            let mut i: usize = 0;
            while i < v.len()
                invariant
                    i <= v.len(),
                    out@ == v@.subrange(0, i as int),
                decreases v.len() - i,
            {
                let pair = (v[i].0.clone(), v[i].1.clone());
                proof {
                    assert(pair == v@[i as int]);
                }
                out.push(pair);
                i = i + 1;
                proof {
                    assert(v@.subrange(0, i as int) =~= v@.subrange(0, i as int - 1).push(
                    v@[i as int - 1]));
                }
            }
            proof {
                assert(v@.subrange(0, v@.len() as int) =~= v@);
            }
            Some(out)
        },
        None => None,
    }
}

} // verus!
