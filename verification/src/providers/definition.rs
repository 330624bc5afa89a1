//! Provider definitions: the structured records the catalog is declared in,
//! and their validation into [`Provider`] values.
//!
//! A definition is a record of keyed fields whose values are text, unsigned
//! integers, flags, lists or nested records. Validation is structural: a
//! required field that is missing, or any field of the wrong shape, makes the
//! whole definition malformed. A malformed definition is dropped with a
//! diagnostic at load time; it never aborts a load.

use crate::models::provider::Model;
use crate::models::provider::Provider;
use crate::models::provider::spec_headers_view;
use vstd::prelude::*;

verus! {

/// One field value of a definition record.
pub enum DefValue {
    /// A text value.
    Text(String),
    /// An unsigned integer value.
    Uint(u64),
    /// A boolean value.
    Flag(bool),
    /// A list of values.
    List(Vec<DefValue>),
    /// A nested record of keyed fields.
    Record(Vec<DefEntry>),
}

/// One keyed field of a definition record.
pub struct DefEntry {
    /// Field key.
    pub key: String,
    /// Field value.
    pub value: DefValue,
}

/// One named provider definition, as embedded in the catalog.
pub struct ProviderDef {
    /// Name used in diagnostics when the definition is malformed.
    pub name: String,
    /// The definition itself; a well-formed one is a record.
    pub def: DefValue,
}

/// The value of the first field named `key`, if any.
pub open spec fn spec_lookup(entries: Seq<DefEntry>, key: Seq<char>) -> Option<DefValue>
    decreases entries.len(),
{
    if entries.len() == 0 {
        None
    } else if entries[0].key@ == key {
        Some(entries[0].value)
    } else {
        spec_lookup(entries.drop_first(), key)
    }
}

/// A required text field: its value, or `None` when it is missing or not
/// text.
pub open spec fn spec_req_text(entries: Seq<DefEntry>, key: Seq<char>) -> Option<String> {
    match spec_lookup(entries, key) {
        Some(DefValue::Text(s)) => Some(s),
        _ => None,
    }
}

/// A required unsigned-integer field: its value, or `None` when it is
/// missing or not an unsigned integer.
pub open spec fn spec_req_uint(entries: Seq<DefEntry>, key: Seq<char>) -> Option<u64> {
    match spec_lookup(entries, key) {
        Some(DefValue::Uint(u)) => Some(u),
        _ => None,
    }
}

/// An optional text field: `None` when present with the wrong shape,
/// otherwise `Some` of its value or of its absence.
pub open spec fn spec_opt_text(entries: Seq<DefEntry>, key: Seq<char>) -> Option<Option<String>> {
    match spec_lookup(entries, key) {
        None => Some(None),
        Some(DefValue::Text(s)) => Some(Some(s)),
        Some(_) => None,
    }
}

/// An optional unsigned-integer field, shaped like [`spec_opt_text`].
pub open spec fn spec_opt_uint(entries: Seq<DefEntry>, key: Seq<char>) -> Option<Option<u64>> {
    match spec_lookup(entries, key) {
        None => Some(None),
        Some(DefValue::Uint(u)) => Some(Some(u)),
        Some(_) => None,
    }
}

/// An optional flag field, shaped like [`spec_opt_text`].
pub open spec fn spec_opt_flag(entries: Seq<DefEntry>, key: Seq<char>) -> Option<Option<bool>> {
    match spec_lookup(entries, key) {
        None => Some(None),
        Some(DefValue::Flag(b)) => Some(Some(b)),
        Some(_) => None,
    }
}

/// The value of an optional flag field, with absence meaning false.
pub open spec fn spec_flag_or_false(entries: Seq<DefEntry>, key: Seq<char>) -> bool {
    match spec_opt_flag(entries, key) {
        Some(Some(b)) => b,
        _ => false,
    }
}

/// The first field named `key`, if any.
fn lookup<'a>(entries: &'a Vec<DefEntry>, key: &str) -> (r: Option<&'a DefValue>)
    ensures
        match r {
            Some(v) => spec_lookup(entries@, key@) == Some(*v),
            None => spec_lookup(entries@, key@) is None,
        },
{
    let want: String = key.to_owned();
    let mut i: usize = 0;
    proof {
        assert(entries@.subrange(0, entries@.len() as int) =~= entries@);
    }
    while i < entries.len()
        invariant
            i <= entries.len(),
            want@ == key@,
            spec_lookup(entries@.subrange(i as int, entries@.len() as int), key@) == spec_lookup(
                entries@,
                key@,
            ),
        decreases entries.len() - i,
    {
        let ghost tail = entries@.subrange(i as int, entries@.len() as int);
        if entries[i].key == want {
            proof {
                assert(tail[0] == entries@[i as int]);
            }
            return Some(&entries[i].value);
        }
        proof {
            assert(tail.drop_first() =~= entries@.subrange(i as int + 1, entries@.len() as int));
        }
        i = i + 1;
    }
    None
}

/// A required text field, cloned out of the record.
fn get_req_text(entries: &Vec<DefEntry>, key: &str) -> (r: Option<String>)
    ensures
        r == spec_req_text(entries@, key@),
{
    match lookup(entries, key) {
        Some(DefValue::Text(s)) => Some(s.clone()),
        _ => None,
    }
}

/// A required unsigned-integer field.
fn get_req_uint(entries: &Vec<DefEntry>, key: &str) -> (r: Option<u64>)
    ensures
        r == spec_req_uint(entries@, key@),
{
    match lookup(entries, key) {
        Some(DefValue::Uint(u)) => Some(*u),
        _ => None,
    }
}

/// An optional text field, cloned out of the record.
fn get_opt_text(entries: &Vec<DefEntry>, key: &str) -> (r: Option<Option<String>>)
    ensures
        r == spec_opt_text(entries@, key@),
{
    match lookup(entries, key) {
        None => Some(None),
        Some(DefValue::Text(s)) => Some(Some(s.clone())),
        Some(_) => None,
    }
}

/// An optional unsigned-integer field.
fn get_opt_uint(entries: &Vec<DefEntry>, key: &str) -> (r: Option<Option<u64>>)
    ensures
        r == spec_opt_uint(entries@, key@),
{
    match lookup(entries, key) {
        None => Some(None),
        Some(DefValue::Uint(u)) => Some(Some(*u)),
        Some(_) => None,
    }
}

/// An optional flag field.
fn get_opt_flag(entries: &Vec<DefEntry>, key: &str) -> (r: Option<Option<bool>>)
    ensures
        r == spec_opt_flag(entries@, key@),
{
    match lookup(entries, key) {
        None => Some(None),
        Some(DefValue::Flag(b)) => Some(Some(*b)),
        Some(_) => None,
    }
}

/// The model a definition record denotes, or `None` when a required field
/// is missing or any field has the wrong shape.
pub open spec fn spec_parse_model_rec(e: Seq<DefEntry>) -> Option<Model> {
    if spec_req_text(e, "id"@) is Some && spec_req_text(e, "name"@) is Some && spec_req_uint(
        e,
        "cost_per_1m_in"@,
    ) is Some && spec_req_uint(e, "cost_per_1m_out"@) is Some && spec_req_uint(
        e,
        "context_window"@,
    ) is Some && spec_req_uint(e, "default_max_tokens"@) is Some && spec_opt_uint(
        e,
        "cost_per_1m_in_cached"@,
    ) is Some && spec_opt_uint(e, "cost_per_1m_out_cached"@) is Some && spec_opt_flag(
        e,
        "can_reason"@,
    ) is Some && spec_opt_flag(e, "has_reasoning_efforts"@) is Some && spec_opt_text(
        e,
        "default_reasoning_effort"@,
    ) is Some && spec_opt_flag(e, "supports_attachments"@) is Some {
        Some(
            Model {
                id: spec_req_text(e, "id"@).unwrap(),
                name: spec_req_text(e, "name"@).unwrap(),
                cost_per_1m_in: spec_req_uint(e, "cost_per_1m_in"@).unwrap(),
                cost_per_1m_out: spec_req_uint(e, "cost_per_1m_out"@).unwrap(),
                cost_per_1m_in_cached: spec_opt_uint(e, "cost_per_1m_in_cached"@).unwrap(),
                cost_per_1m_out_cached: spec_opt_uint(e, "cost_per_1m_out_cached"@).unwrap(),
                context_window: spec_req_uint(e, "context_window"@).unwrap(),
                default_max_tokens: spec_req_uint(e, "default_max_tokens"@).unwrap(),
                can_reason: spec_flag_or_false(e, "can_reason"@),
                has_reasoning_efforts: spec_flag_or_false(e, "has_reasoning_efforts"@),
                default_reasoning_effort: spec_opt_text(e, "default_reasoning_effort"@).unwrap(),
                supports_attachments: spec_flag_or_false(e, "supports_attachments"@),
            },
        )
    } else {
        None
    }
}

/// The model a definition value denotes: it must be a record, validated by
/// [`spec_parse_model_rec`].
pub open spec fn spec_parse_model(v: DefValue) -> Option<Model> {
    match v {
        DefValue::Record(entries) => spec_parse_model_rec(entries@),
        _ => None,
    }
}

/// Validate one model definition.
pub fn parse_model(v: &DefValue) -> (r: Option<Model>)
    ensures
        r == spec_parse_model(*v),
{
    let entries = match v {
        DefValue::Record(entries) => entries,
        _ => { return None },
    };
    let id = match get_req_text(entries, "id") {
        Some(s) => s,
        None => { return None },
    };
    let name = match get_req_text(entries, "name") {
        Some(s) => s,
        None => { return None },
    };
    let cost_per_1m_in = match get_req_uint(entries, "cost_per_1m_in") {
        Some(u) => u,
        None => { return None },
    };
    let cost_per_1m_out = match get_req_uint(entries, "cost_per_1m_out") {
        Some(u) => u,
        None => { return None },
    };
    let context_window = match get_req_uint(entries, "context_window") {
        Some(u) => u,
        None => { return None },
    };
    let default_max_tokens = match get_req_uint(entries, "default_max_tokens") {
        Some(u) => u,
        None => { return None },
    };
    let cost_per_1m_in_cached = match get_opt_uint(entries, "cost_per_1m_in_cached") {
        Some(o) => o,
        None => { return None },
    };
    let cost_per_1m_out_cached = match get_opt_uint(entries, "cost_per_1m_out_cached") {
        Some(o) => o,
        None => { return None },
    };
    let can_reason = match get_opt_flag(entries, "can_reason") {
        Some(o) => match o {
            Some(b) => b,
            None => false,
        },
        None => { return None },
    };
    let has_reasoning_efforts = match get_opt_flag(entries, "has_reasoning_efforts") {
        Some(o) => match o {
            Some(b) => b,
            None => false,
        },
        None => { return None },
    };
    let default_reasoning_effort = match get_opt_text(entries, "default_reasoning_effort") {
        Some(o) => o,
        None => { return None },
    };
    let supports_attachments = match get_opt_flag(entries, "supports_attachments") {
        Some(o) => match o {
            Some(b) => b,
            None => false,
        },
        None => { return None },
    };
    Some(
        Model {
            id,
            name,
            cost_per_1m_in,
            cost_per_1m_out,
            cost_per_1m_in_cached,
            cost_per_1m_out_cached,
            context_window,
            default_max_tokens,
            can_reason,
            has_reasoning_efforts,
            default_reasoning_effort,
            supports_attachments,
        },
    )
}

/// Whether every field of a record holds text.
pub open spec fn spec_all_text(entries: Seq<DefEntry>) -> bool {
    forall|i: int| 0 <= i < entries.len() ==> entries[i].value is Text
}

/// The text held by a definition value, when it is text.
pub open spec fn spec_text_value(v: DefValue) -> String {
    match v {
        DefValue::Text(s) => s,
        _ => arbitrary(),
    }
}

/// The (key, value) pairs of an all-text record, in order.
pub open spec fn spec_pairs_of(entries: Seq<DefEntry>) -> Seq<(String, String)> {
    Seq::new(entries.len(), |i: int| (entries[i].key, spec_text_value(entries[i].value)))
}

/// Whether every element of a list is a well-formed model definition.
pub open spec fn spec_all_models_ok(items: Seq<DefValue>) -> bool {
    forall|i: int| 0 <= i < items.len() ==> spec_parse_model(items[i]) is Some
}

/// The models a list of well-formed model definitions denotes, in order.
pub open spec fn spec_models_of(items: Seq<DefValue>) -> Seq<Model> {
    Seq::new(items.len(), |i: int| spec_parse_model(items[i]).unwrap())
}

/// No two fields of a header record carry the same key: the record is a
/// mapping.
pub open spec fn spec_header_keys_unique(entries: Seq<DefEntry>) -> bool {
    forall|i: int, j: int| 0 <= i < j < entries.len() ==> entries[i].key@ != entries[j].key@
}

/// Validate a header record: it stands for a mapping, so every field must
/// hold text and no key may repeat.
fn parse_header_pairs(entries: &Vec<DefEntry>) -> (r: Option<Vec<(String, String)>>)
    ensures
        match r {
            Some(v) => spec_all_text(entries@) && spec_header_keys_unique(entries@) && v@
                == spec_pairs_of(entries@),
            None => !(spec_all_text(entries@) && spec_header_keys_unique(entries@)),
        },
{
    let mut out: Vec<(String, String)> = Vec::new();
    let mut i: usize = 0;
    while i < entries.len()
        invariant
            i <= entries.len(),
            forall|j: int| 0 <= j < i ==> entries@[j].value is Text,
            forall|j1: int, j2: int| 0 <= j1 < j2 < i ==> entries@[j1].key@ != entries@[j2].key@,
            out@ == spec_pairs_of(entries@).subrange(0, i as int),
        decreases entries.len() - i,
    {
        let mut j: usize = 0;
        while j < i
            invariant
                j <= i,
                i < entries@.len(),
                forall|j2: int| 0 <= j2 < j ==> entries@[j2].key@ != entries@[i as int].key@,
            decreases i - j,
        {
            if entries[j].key == entries[i].key {
                proof {
                    assert(entries@[j as int].key@ == entries@[i as int].key@);
                    assert(!spec_header_keys_unique(entries@));
                }
                return None;
            }
            j = j + 1;
        }
        match &entries[i].value {
            DefValue::Text(s) => {
                let pair = (entries[i].key.clone(), s.clone());
                proof {
                    assert(pair == spec_pairs_of(entries@)[i as int]);
                }
                out.push(pair);
            },
            _ => { return None },
        }
        i = i + 1;
        proof {
            assert(spec_pairs_of(entries@).subrange(0, i as int) =~= spec_pairs_of(
                entries@,
            ).subrange(0, i as int - 1).push(spec_pairs_of(entries@)[i as int - 1]));
        }
    }
    proof {
        assert(spec_pairs_of(entries@).subrange(0, entries@.len() as int) =~= spec_pairs_of(
            entries@,
        ));
    }
    Some(out)
}

/// Validate a model list: every element must be a well-formed model
/// definition.
fn parse_models(items: &Vec<DefValue>) -> (r: Option<Vec<Model>>)
    ensures
        match r {
            Some(v) => spec_all_models_ok(items@) && v@ == spec_models_of(items@),
            None => !spec_all_models_ok(items@),
        },
{
    let mut out: Vec<Model> = Vec::new();
    let mut i: usize = 0;
    while i < items.len()
        invariant
            i <= items.len(),
            forall|j: int| 0 <= j < i ==> spec_parse_model(items@[j]) is Some,
            out@ == spec_models_of(items@).subrange(0, i as int),
        decreases items.len() - i,
    {
        match parse_model(&items[i]) {
            Some(m) => {
                proof {
                    assert(m == spec_models_of(items@)[i as int]);
                }
                out.push(m);
            },
            None => { return None },
        }
        i = i + 1;
        proof {
            assert(spec_models_of(items@).subrange(0, i as int) =~= spec_models_of(
                items@,
            ).subrange(0, i as int - 1).push(spec_models_of(items@)[i as int - 1]));
        }
    }
    proof {
        assert(spec_models_of(items@).subrange(0, items@.len() as int) =~= spec_models_of(items@));
    }
    Some(out)
}

/// Whether a provider record is well formed: name, id and type are text;
/// the optional text fields, the header record and the model list, where
/// present, have the right shape throughout.
pub open spec fn spec_provider_rec_ok(e: Seq<DefEntry>) -> bool {
    &&& spec_req_text(e, "name"@) is Some
    &&& spec_req_text(e, "id"@) is Some
    &&& spec_req_text(e, "type"@) is Some
    &&& spec_opt_text(e, "api_key"@) is Some
    &&& spec_opt_text(e, "api_endpoint"@) is Some
    &&& spec_opt_text(e, "default_large_model_id"@) is Some
    &&& spec_opt_text(e, "default_small_model_id"@) is Some
    &&& match spec_lookup(e, "default_headers"@) {
        None => true,
        Some(DefValue::Record(h)) => spec_all_text(h@) && spec_header_keys_unique(h@),
        Some(_) => false,
    }
    &&& match spec_lookup(e, "models"@) {
        None => true,
        Some(DefValue::List(items)) => spec_all_models_ok(items@),
        Some(_) => false,
    }
}

/// Whether a provider definition is well formed: a record accepted by
/// [`spec_provider_rec_ok`].
pub open spec fn spec_provider_ok(v: DefValue) -> bool {
    match v {
        DefValue::Record(entries) => spec_provider_rec_ok(entries@),
        _ => false,
    }
}

/// Whether `p` is the provider a well-formed definition `v` denotes, field
/// for field; the header and model lists are compared by their contents.
pub open spec fn spec_provider_matches(p: Provider, v: DefValue) -> bool {
    &&& spec_provider_ok(v)
    &&& match v {
        DefValue::Record(entries) => {
            let e = entries@;
            &&& p.name == spec_req_text(e, "name"@).unwrap()
            &&& p.id == spec_req_text(e, "id"@).unwrap()
            &&& p.provider_type == spec_req_text(e, "type"@).unwrap()
            &&& p.api_key == spec_opt_text(e, "api_key"@).unwrap()
            &&& p.api_endpoint == spec_opt_text(e, "api_endpoint"@).unwrap()
            &&& p.default_large_model_id == spec_opt_text(e, "default_large_model_id"@).unwrap()
            &&& p.default_small_model_id == spec_opt_text(e, "default_small_model_id"@).unwrap()
            &&& spec_headers_view(p.default_headers) == match spec_lookup(e, "default_headers"@) {
                Some(DefValue::Record(h)) => Some(spec_pairs_of(h@)),
                _ => None,
            }
            &&& p.models@ == match spec_lookup(e, "models"@) {
                Some(DefValue::List(items)) => spec_models_of(items@),
                _ => Seq::<Model>::empty(),
            }
        },
        _ => false,
    }
}

/// Validate one provider definition: `Some` of the denoted provider exactly
/// when the definition is well formed.
pub fn parse_provider(v: &DefValue) -> (r: Option<Provider>)
    ensures
        match r {
            Some(p) => spec_provider_matches(p, *v),
            None => !spec_provider_ok(*v),
        },
{
    let entries = match v {
        DefValue::Record(entries) => entries,
        _ => { return None },
    };
    let name = match get_req_text(entries, "name") {
        Some(s) => s,
        None => { return None },
    };
    let id = match get_req_text(entries, "id") {
        Some(s) => s,
        None => { return None },
    };
    let provider_type = match get_req_text(entries, "type") {
        Some(s) => s,
        None => { return None },
    };
    let api_key = match get_opt_text(entries, "api_key") {
        Some(o) => o,
        None => { return None },
    };
    let api_endpoint = match get_opt_text(entries, "api_endpoint") {
        Some(o) => o,
        None => { return None },
    };
    let default_large_model_id = match get_opt_text(entries, "default_large_model_id") {
        Some(o) => o,
        None => { return None },
    };
    let default_small_model_id = match get_opt_text(entries, "default_small_model_id") {
        Some(o) => o,
        None => { return None },
    };
    let default_headers: Option<Vec<(String, String)>> = match lookup(entries, "default_headers") {
        None => None,
        Some(DefValue::Record(h)) => match parse_header_pairs(h) {
            Some(pairs) => Some(pairs),
            None => { return None },
        },
        Some(_) => { return None },
    };
    let models: Vec<Model> = match lookup(entries, "models") {
        None => Vec::new(),
        Some(DefValue::List(items)) => match parse_models(items) {
            Some(ms) => ms,
            None => { return None },
        },
        Some(_) => { return None },
    };
    Some(
        Provider {
            name,
            id,
            provider_type,
            api_key,
            api_endpoint,
            default_large_model_id,
            default_small_model_id,
            default_headers,
            models,
        },
    )
}

/// A lookup answers from the first field carrying its key.
pub proof fn lemma_lookup_found(entries: Seq<DefEntry>, key: Seq<char>, i: int)
    requires
        0 <= i < entries.len(),
        entries[i].key@ == key,
        forall|j: int| 0 <= j < i ==> entries[j].key@ != key,
    ensures
        spec_lookup(entries, key) == Some(entries[i].value),
    decreases i,
{
    if i > 0 {
        assert(entries[0].key@ != key);
        assert(entries.drop_first()[i - 1] == entries[i]);
        assert forall|j: int| 0 <= j < i - 1 implies entries.drop_first()[j].key@ != key by {
            assert(entries.drop_first()[j] == entries[j + 1]);
        }
        lemma_lookup_found(entries.drop_first(), key, i - 1);
    }
}

/// A lookup on a record that nowhere carries the key finds nothing.
pub proof fn lemma_lookup_absent(entries: Seq<DefEntry>, key: Seq<char>)
    requires
        forall|j: int| 0 <= j < entries.len() ==> entries[j].key@ != key,
    ensures
        spec_lookup(entries, key) is None,
    decreases entries.len(),
{
    if entries.len() > 0 {
        assert(entries[0].key@ != key);
        assert forall|j: int| 0 <= j < entries.drop_first().len()
            implies entries.drop_first()[j].key@ != key by {
            assert(entries.drop_first()[j] == entries[j + 1]);
        }
        lemma_lookup_absent(entries.drop_first(), key);
    }
}

/// Whether a definition is a record whose id field holds exactly `id`.
pub open spec fn spec_def_has_id(d: ProviderDef, id: Seq<char>) -> bool {
    match d.def {
        DefValue::Record(entries) => spec_req_text(entries@, "id"@) matches Some(s) && s@ == id,
        _ => false,
    }
}

} // verus!
