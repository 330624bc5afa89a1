//! The registry: the concurrency-safe, read-only holder of the loaded
//! catalog.
//!
//! The catalog is built once from the embedded definitions and placed behind
//! a reader-writer lock that is only ever read afterwards; every query hands
//! out an independent copy of what it returns.

use crate::models::provider::Model;
use crate::models::provider::Provider;
use crate::models::provider::spec_find_model;
use crate::providers::catalog::embedded_definitions;
use crate::providers::definition::ProviderDef;
use crate::providers::definition::spec_def_has_id;
use crate::providers::definition::parse_provider;
use crate::providers::definition::spec_provider_matches;
use crate::providers::definition::spec_provider_ok;
use vstd::prelude::*;

verus! {

/// The shared container the catalog lives in after loading. Only this
/// module touches it, and only to read.
#[verifier::external_body]
pub struct ProviderStore {
    handle: std::sync::Arc<parking_lot::RwLock<Vec<Provider>>>,
}

/// The providers a store holds, in order.
pub uninterp spec fn store_contents(s: &ProviderStore) -> Seq<Provider>;

/// Relies on parking_lot::RwLock::new and std::sync::Arc::new: the lock is
/// created holding exactly the given vector, and nothing in this crate ever
/// takes the write half afterwards.
#[verifier::external_body]
fn store_new(providers: Vec<Provider>) -> (s: ProviderStore)
    ensures
        store_contents(&s) == providers@,
{
    ProviderStore { handle: std::sync::Arc::new(parking_lot::RwLock::new(providers)) }
}

/// Relies on parking_lot::RwLock::read: a shared read lock gives access to
/// the stored vector, unchanged since construction, which is handed back as
/// its own copy.
#[verifier::external_body]
fn store_read(s: &ProviderStore) -> (v: Vec<Provider>)
    ensures
        v@ == store_contents(s),
{
    s.handle.read().clone()
}

/// The first provider in `providers` whose id is `id`, if any.
pub open spec fn spec_find_provider(providers: Seq<Provider>, id: Seq<char>) -> Option<Provider>
    decreases providers.len(),
{
    if providers.len() == 0 {
        None
    } else if providers[0].id@ == id {
        Some(providers[0])
    } else {
        spec_find_provider(providers.drop_first(), id)
    }
}

/// The model `model_id` of provider `provider_id`, when both levels hit.
pub open spec fn spec_get_model(
    providers: Seq<Provider>,
    provider_id: Seq<char>,
    model_id: Seq<char>,
) -> Option<Model> {
    match spec_find_provider(providers, provider_id) {
        Some(p) => spec_find_model(p.models@, model_id),
        None => None,
    }
}

/// Total number of models over all providers.
pub open spec fn spec_model_count(providers: Seq<Provider>) -> int
    decreases providers.len(),
{
    if providers.len() == 0 {
        0
    } else {
        spec_model_count(providers.drop_last()) + providers.last().models@.len()
    }
}

/// A model count is never negative.
pub proof fn lemma_model_count_nonneg(providers: Seq<Provider>)
    ensures
        spec_model_count(providers) >= 0,
    decreases providers.len(),
{
    if providers.len() > 0 {
        lemma_model_count_nonneg(providers.drop_last());
    }
}

/// How a load relates definitions to what it keeps and what it reports:
/// each well-formed definition contributes its provider, in order, and each
/// malformed one contributes its name to the diagnostics, in order.
pub open spec fn spec_load_rel(
    defs: Seq<ProviderDef>,
    providers: Seq<Provider>,
    diagnostics: Seq<String>,
) -> bool
    decreases defs.len(),
{
    if defs.len() == 0 {
        providers.len() == 0 && diagnostics.len() == 0
    } else {
        let d = defs.last();
        if spec_provider_ok(d.def) {
            &&& providers.len() > 0
            &&& spec_provider_matches(providers.last(), d.def)
            &&& spec_load_rel(defs.drop_last(), providers.drop_last(), diagnostics)
        } else {
            &&& diagnostics.len() > 0
            &&& diagnostics.last() == d.name
            &&& spec_load_rel(defs.drop_last(), providers, diagnostics.drop_last())
        }
    }
}

/// How many definitions of a list are well formed.
pub open spec fn spec_ok_count(defs: Seq<ProviderDef>) -> int
    decreases defs.len(),
{
    if defs.len() == 0 {
        0
    } else {
        spec_ok_count(defs.drop_last()) + if spec_provider_ok(defs.last().def) {
            1int
        } else {
            0int
        }
    }
}

/// Loading keeps exactly one provider per well-formed definition and
/// records exactly one diagnostic per malformed one: no definition is lost,
/// and one bad definition costs nothing but itself.
pub proof fn lemma_load_counts(
    defs: Seq<ProviderDef>,
    providers: Seq<Provider>,
    diagnostics: Seq<String>,
)
    requires
        spec_load_rel(defs, providers, diagnostics),
    ensures
        providers.len() == spec_ok_count(defs),
        diagnostics.len() == defs.len() - spec_ok_count(defs),
    decreases defs.len(),
{
    if defs.len() > 0 {
        if spec_provider_ok(defs.last().def) {
            lemma_load_counts(defs.drop_last(), providers.drop_last(), diagnostics);
        } else {
            lemma_load_counts(defs.drop_last(), providers, diagnostics.drop_last());
        }
    }
}

/// With every definition well formed, nothing is dropped: the catalog
/// matches the definitions one for one, in order, and no diagnostic is
/// recorded.
pub proof fn lemma_load_rel_total(
    defs: Seq<ProviderDef>,
    providers: Seq<Provider>,
    diagnostics: Seq<String>,
)
    requires
        spec_load_rel(defs, providers, diagnostics),
        forall|i: int| 0 <= i < defs.len() ==> spec_provider_ok(#[trigger] defs[i].def),
    ensures
        providers.len() == defs.len(),
        diagnostics.len() == 0,
        forall|i: int|
            0 <= i < defs.len() ==> spec_provider_matches(#[trigger] providers[i], defs[i].def),
    decreases defs.len(),
{
    if defs.len() > 0 {
        assert(spec_provider_ok(defs[defs.len() - 1].def));
        assert forall|i: int| 0 <= i < defs.drop_last().len() implies spec_provider_ok(
            #[trigger] defs.drop_last()[i].def,
        ) by {
            assert(defs.drop_last()[i] == defs[i]);
        }
        lemma_load_rel_total(defs.drop_last(), providers.drop_last(), diagnostics);
        assert forall|i: int| 0 <= i < defs.len() implies spec_provider_matches(
            #[trigger] providers[i],
            defs[i].def,
        ) by {
            if i < defs.len() - 1 {
                assert(providers.drop_last()[i] == providers[i]);
                assert(defs.drop_last()[i] == defs[i]);
            } else {
                assert(providers[i] == providers.last());
                assert(defs[i] == defs.last());
            }
        }
    }
}

/// The registry of providers: loaded once, then queried read-only. Its
/// ghost contents are the provider sequence it holds.
pub struct ProviderRegistry {
    store: ProviderStore,
}

impl View for ProviderRegistry {
    type V = Seq<Provider>;

    closed spec fn view(&self) -> Seq<Provider> {
        store_contents(&self.store)
    }
}

impl ProviderRegistry {
    /// Build a registry from the given definitions: well-formed ones are
    /// kept in order, malformed ones are dropped, each leaving its name as a
    /// diagnostic. A load never fails as a whole.
    pub fn from_definitions(defs: &Vec<ProviderDef>) -> (r: (ProviderRegistry, Vec<String>))
        ensures
            spec_load_rel(defs@, r.0@, r.1@),
    {
        let mut providers: Vec<Provider> = Vec::new();
        let mut diagnostics: Vec<String> = Vec::new();
        let mut i: usize = 0;
        proof {
            assert(defs@.subrange(0, 0) =~= Seq::<ProviderDef>::empty());
        }
        while i < defs.len()
            invariant
                i <= defs.len(),
                spec_load_rel(defs@.subrange(0, i as int), providers@, diagnostics@),
            decreases defs.len() - i,
        {
            let ghost prefix = defs@.subrange(0, i as int);
            let ghost prev_providers = providers@;
            let ghost prev_diagnostics = diagnostics@;
            match parse_provider(&defs[i].def) {
                Some(p) => {
                    providers.push(p);
                },
                None => {
                    diagnostics.push(defs[i].name.clone());
                },
            }
            i = i + 1;
            proof {
                let next = defs@.subrange(0, i as int);
                assert(next.drop_last() =~= prefix);
                assert(next.last() == defs@[i as int - 1]);
                if spec_provider_ok(defs@[i as int - 1].def) {
                    assert(providers@.drop_last() =~= prev_providers);
                } else {
                    assert(diagnostics@.drop_last() =~= prev_diagnostics);
                }
            }
        }
        proof {
            assert(defs@.subrange(0, defs@.len() as int) =~= defs@);
        }
        (ProviderRegistry { store: store_new(providers) }, diagnostics)
    }

    /// Build the registry from the embedded catalog definitions. This never
    /// fails, and since every embedded definition is well formed, the
    /// catalog holds all sixteen providers, in declaration order, each
    /// under its reference id.
    pub fn new() -> (r: Result<ProviderRegistry, ()>)
        ensures
            r matches Ok(reg) && ({
                &&& reg@.len() == 16
                &&& reg@[0].id@ == "anthropic"@
                &&& reg@[1].id@ == "openai"@
                &&& reg@[2].id@ == "gemini"@
                &&& reg@[3].id@ == "azure"@
                &&& reg@[4].id@ == "bedrock"@
                &&& reg@[5].id@ == "vertexai"@
                &&& reg@[6].id@ == "xai"@
                &&& reg@[7].id@ == "zai"@
                &&& reg@[8].id@ == "groq"@
                &&& reg@[9].id@ == "openrouter"@
                &&& reg@[10].id@ == "cerebras"@
                &&& reg@[11].id@ == "venice"@
                &&& reg@[12].id@ == "chutes"@
                &&& reg@[13].id@ == "deepseek"@
                &&& reg@[14].id@ == "huggingface"@
                &&& reg@[15].id@ == "aihubmix"@
            }),
    {
        let defs = embedded_definitions();
        let (registry, diagnostics) = Self::from_definitions(&defs);
        proof {
            lemma_load_rel_total(defs@, registry@, diagnostics@);
        }
        Ok(registry)
    }

    /// An independent copy of the whole catalog, in load order.
    pub fn get_all(&self) -> (r: Result<Vec<Provider>, ()>)
        ensures
            r matches Ok(v) && v@ == self@,
    {
        Ok(store_read(&self.store))
    }

    /// The first provider with the given id, as its own copy; `None` when no
    /// provider carries the id. The match is exact and case-sensitive.
    pub fn get_by_id(&self, id: &str) -> (r: Result<Option<Provider>, ()>)
        ensures
            r matches Ok(o) && (match o {
                Some(p) => spec_find_provider(self@, id@) == Some(p),
                None => spec_find_provider(self@, id@) is None,
            }),
    {
        let mut all = store_read(&self.store);
        let key: String = id.to_owned();
        let mut i: usize = 0;
        proof {
            assert(all@.subrange(0, all@.len() as int) =~= all@);
        }
        while i < all.len()
            invariant
                i <= all.len(),
                all@ == self@,
                key@ == id@,
                spec_find_provider(all@.subrange(i as int, all@.len() as int), id@)
                    == spec_find_provider(all@, id@),
            decreases all.len() - i,
        {
            let ghost tail = all@.subrange(i as int, all@.len() as int);
            if all[i].id == key {
                proof {
                    assert(tail[0] == all@[i as int]);
                }
                let p = all.swap_remove(i);
                return Ok(Some(p));
            }
            proof {
                assert(tail.drop_first() =~= all@.subrange(i as int + 1, all@.len() as int));
            }
            i = i + 1;
        }
        Ok(None)
    }

    /// The model `model_id` of provider `provider_id`, as its own copy;
    /// `None` when either level misses.
    pub fn get_model(&self, provider_id: &str, model_id: &str) -> (r: Result<Option<Model>, ()>)
        ensures
            r matches Ok(o) && o == spec_get_model(self@, provider_id@, model_id@),
    {
        match self.get_by_id(provider_id) {
            Ok(Some(p)) => match p.get_model(model_id) {
                Some(m) => Ok(Some(m.clone())),
                None => Ok(None),
            },
            _ => Ok(None),
        }
    }

    /// How many providers the registry holds.
    pub fn count(&self) -> (n: usize)
        ensures
            n == self@.len(),
    {
        let all = store_read(&self.store);
        all.len()
    }

    /// Total number of models over all providers, saturating at the machine
    /// limit.
    pub fn model_count(&self) -> (n: usize)
        ensures
            n == if spec_model_count(self@) <= usize::MAX {
                spec_model_count(self@)
            } else {
                usize::MAX as int
            },
    {
        let all = store_read(&self.store);
        let mut total: usize = 0;
        let mut i: usize = 0;
        proof {
            assert(all@.subrange(0, 0) =~= Seq::<Provider>::empty());
        }
        while i < all.len()
            invariant
                i <= all.len(),
                all@ == self@,
                total == if spec_model_count(all@.subrange(0, i as int)) <= usize::MAX {
                    spec_model_count(all@.subrange(0, i as int))
                } else {
                    usize::MAX as int
                },
            decreases all.len() - i,
        {
            let ghost prefix = all@.subrange(0, i as int);
            proof {
                lemma_model_count_nonneg(prefix);
            }
            let len = all[i].models.len();
            if total > usize::MAX - len {
                total = usize::MAX;
            } else {
                total = total + len;
            }
            i = i + 1;
            proof {
                let next = all@.subrange(0, i as int);
                assert(next.drop_last() =~= prefix);
                assert(next.last() == all@[i as int - 1]);
            }
        }
        proof {
            assert(all@.subrange(0, all@.len() as int) =~= all@);
        }
        total
    }
}

} // verus!
