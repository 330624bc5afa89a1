//! The middleware composer: from the security configuration it builds, per
//! concern, the exact cross-cutting behaviour to install around the HTTP
//! handlers — CORS, rate limiting, security headers — plus the compression
//! toggle, each independently omittable, in a fixed application order.
//!
//! The composer decides; the transport layer outside this crate turns each
//! decision into its stack-specific middleware.

use crate::config::CorsConfig;
use crate::config::RateLimitConfig;
use crate::config::SecurityHeadersConfig;
use crate::config::SecurityConfig;
use vstd::prelude::*;

verus! {

/// A token character (RFC 7230 `tchar`): what HTTP accepts in method and
/// header names.
pub open spec fn spec_is_tchar(c: char) -> bool {
    ||| c == '!'
    ||| c == '#'
    ||| c == '$'
    ||| c == '%'
    ||| c == '&'
    ||| c == '\''
    ||| c == '*'
    ||| c == '+'
    ||| c == '-'
    ||| c == '.'
    ||| c == '^'
    ||| c == '_'
    ||| c == '`'
    ||| c == '|'
    ||| c == '~'
    ||| ('0' <= c && c <= '9')
    ||| ('a' <= c && c <= 'z')
    ||| ('A' <= c && c <= 'Z')
}

/// A parseable HTTP method: non-empty, token characters throughout.
pub open spec fn spec_method_valid(s: Seq<char>) -> bool {
    s.len() >= 1 && (forall|i: int| 0 <= i < s.len() ==> spec_is_tchar(s[i]))
}

/// A parseable HTTP header name: 1 to 65535 token characters.
pub open spec fn spec_header_name_valid(s: Seq<char>) -> bool {
    1 <= s.len() <= 65535 && (forall|i: int| 0 <= i < s.len() ==> spec_is_tchar(s[i]))
}

/// A parseable HTTP header value, which is what an origin entry must be:
/// every character is tab, or is at least space and not delete; characters
/// beyond ASCII are opaque bytes to HTTP and pass.
pub open spec fn spec_header_value_valid(s: Seq<char>) -> bool {
    forall|i: int|
        0 <= i < s.len() ==> (s[i] == '\t' || (s[i] as u32 >= 32 && s[i] as u32 != 127))
}

/// Relies on http's `HeaderValue::from_str` (reached through axum): it
/// accepts exactly the strings every byte of which is tab, or at least 32
/// and not 127; for characters beyond ASCII every encoded byte is at least
/// 128, so they always pass.
#[verifier::external_body]
fn origin_parses(s: &str) -> (r: bool)
    ensures
        r == spec_header_value_valid(s@),
{
    s.parse::<axum::http::HeaderValue>().is_ok()
}

/// Relies on http's `Method::from_str` (reached through axum): it accepts
/// exactly the non-empty all-token-character strings — the standard method
/// names themselves are such strings.
#[verifier::external_body]
fn method_parses(s: &str) -> (r: bool)
    ensures
        r == spec_method_valid(s@),
{
    s.parse::<axum::http::Method>().is_ok()
}

/// Relies on http's `HeaderName::from_str` (reached through axum): it
/// accepts exactly the all-token-character strings of 1 to 65535 bytes,
/// normalizing letters to lowercase; the standard names are such strings.
#[verifier::external_body]
fn header_name_parses(s: &str) -> (r: bool)
    ensures
        r == spec_header_name_valid(s@),
{
    s.parse::<axum::http::header::HeaderName>().is_ok()
}

/// Whether some string of `xs` reads `s`.
pub open spec fn spec_has_string(xs: Seq<String>, s: Seq<char>) -> bool {
    exists|i: int| 0 <= i < xs.len() && xs[i]@ == s
}

/// The strings of `xs` whose text satisfies `pred`, in order.
pub open spec fn spec_filter_strings(xs: Seq<String>, pred: spec_fn(Seq<char>) -> bool) -> Seq<
    String,
>
    decreases xs.len(),
{
    if xs.len() == 0 {
        Seq::empty()
    } else {
        let rest = spec_filter_strings(xs.drop_last(), pred);
        if pred(xs.last()@) {
            rest.push(xs.last())
        } else {
            rest
        }
    }
}

/// A filtered list has a string exactly when the list had it and it
/// satisfies the predicate.
pub proof fn lemma_filter_strings_membership(
    xs: Seq<String>,
    pred: spec_fn(Seq<char>) -> bool,
    s: Seq<char>,
)
    ensures
        spec_has_string(spec_filter_strings(xs, pred), s) <==> (spec_has_string(xs, s) && pred(s)),
    decreases xs.len(),
{
    if xs.len() == 0 {
    } else {
        lemma_filter_strings_membership(xs.drop_last(), pred, s);
        let rest = spec_filter_strings(xs.drop_last(), pred);
        if spec_has_string(spec_filter_strings(xs, pred), s) {
            if pred(xs.last()@) {
                let i = choose|i: int|
                    0 <= i < rest.push(xs.last()).len() && rest.push(xs.last())[i]@ == s;
                if i < rest.len() {
                    assert(spec_has_string(rest, s));
                } else {
                    assert(xs.last()@ == s);
                    assert(xs[xs.len() - 1]@ == s);
                }
            }
            if spec_has_string(xs.drop_last(), s) {
                let i = choose|i: int| 0 <= i < xs.drop_last().len() && xs.drop_last()[i]@ == s;
                assert(xs[i]@ == s);
            }
        }
        if spec_has_string(xs, s) && pred(s) {
            let i = choose|i: int| 0 <= i < xs.len() && xs[i]@ == s;
            if i < xs.len() - 1 {
                assert(xs.drop_last()[i]@ == s);
                assert(spec_has_string(rest, s));
                let j = choose|j: int| 0 <= j < rest.len() && rest[j]@ == s;
                if pred(xs.last()@) {
                    assert(rest.push(xs.last())[j]@ == s);
                }
            } else {
                assert(xs.last()@ == s);
                assert(rest.push(xs.last())[rest.len() as int]@ == s);
            }
        }
    }
}

/// The CORS allow-policy the composer produces when CORS is enabled.
pub struct CorsPolicy {
    /// Whether every origin is allowed (the wildcard was configured).
    pub allow_any_origin: bool,
    /// The allowed origins, when not every origin is allowed; entries that
    /// do not parse as header values have been dropped.
    pub allowed_origins: Vec<String>,
    /// The allowed methods; entries that do not parse as methods have been
    /// dropped.
    pub allowed_methods: Vec<String>,
    /// The allowed request headers; entries that do not parse as header
    /// names have been dropped.
    pub allowed_headers: Vec<String>,
    /// How long, in seconds, a pre-flight answer may be cached.
    pub max_age_seconds: u64,
}

/// How a policy must relate to the configuration it was built from.
pub open spec fn spec_cors_policy_matches(config: CorsConfig, p: CorsPolicy) -> bool {
    &&& p.allow_any_origin == spec_has_string(config.allowed_origins@, "*"@)
    &&& (if p.allow_any_origin {
        p.allowed_origins@.len() == 0
    } else {
        p.allowed_origins@ == spec_filter_strings(
            config.allowed_origins@,
            |s: Seq<char>| spec_header_value_valid(s),
        )
    })
    &&& p.allowed_methods@ == spec_filter_strings(
        config.allowed_methods@,
        |s: Seq<char>| spec_method_valid(s),
    )
    &&& p.allowed_headers@ == spec_filter_strings(
        config.allowed_headers@,
        |s: Seq<char>| spec_header_name_valid(s),
    )
    &&& p.max_age_seconds == config.max_age_seconds
}

/// Whether a policy lets the given `Origin` header through.
pub open spec fn spec_allows_origin(p: CorsPolicy, origin: Seq<char>) -> bool {
    p.allow_any_origin || spec_has_string(p.allowed_origins@, origin)
}

impl CorsPolicy {
    /// True exactly when this policy lets the given `Origin` header value
    /// through: always under the wildcard, otherwise only for a listed
    /// origin.
    pub fn allows_origin(&self, origin: &str) -> (r: bool)
        ensures
            r == spec_allows_origin(*self, origin@),
    {
        if self.allow_any_origin {
            return true;
        }
        let want: String = origin.to_owned();
        let mut i: usize = 0;
        while i < self.allowed_origins.len()
            invariant
                i <= self.allowed_origins.len(),
                want@ == origin@,
                forall|j: int| 0 <= j < i ==> self.allowed_origins@[j]@ != origin@,
            decreases self.allowed_origins.len() - i,
        {
            if self.allowed_origins[i] == want {
                return true;
            }
            i = i + 1;
        }
        false
    }
}

/// Whether the wildcard entry `"*"` occurs in the list.
fn has_wildcard(xs: &Vec<String>) -> (r: bool)
    ensures
        r == spec_has_string(xs@, "*"@),
{
    let star: String = "*".to_owned();
    let mut i: usize = 0;
    while i < xs.len()
        invariant
            i <= xs.len(),
            star@ == "*"@,
            forall|j: int| 0 <= j < i ==> xs@[j]@ != "*"@,
        decreases xs.len() - i,
    {
        if xs[i] == star {
            return true;
        }
        i = i + 1;
    }
    false
}

/// The entries that parse as header values, in order.
fn filter_origins(xs: &Vec<String>) -> (r: Vec<String>)
    ensures
        r@ == spec_filter_strings(xs@, |s: Seq<char>| spec_header_value_valid(s)),
{
    let ghost pred = |s: Seq<char>| spec_header_value_valid(s);
    let mut r: Vec<String> = Vec::new();
    let mut i: usize = 0;
    proof {
        assert(xs@.subrange(0, 0) =~= Seq::<String>::empty());
    }
    while i < xs.len()
        invariant
            i <= xs.len(),
            r@ == spec_filter_strings(xs@.subrange(0, i as int), pred),
            pred == (|s: Seq<char>| spec_header_value_valid(s)),
        decreases xs.len() - i,
    {
        let ghost prefix = xs@.subrange(0, i as int);
        if origin_parses(xs[i].as_str()) {
            r.push(xs[i].clone());
        }
        i = i + 1;
        proof {
            let next = xs@.subrange(0, i as int);
            assert(next.drop_last() =~= prefix);
            assert(next.last() == xs@[i as int - 1]);
        }
    }
    proof {
        assert(xs@.subrange(0, xs@.len() as int) =~= xs@);
    }
    r
}

/// The entries that parse as methods, in order.
fn filter_methods(xs: &Vec<String>) -> (r: Vec<String>)
    ensures
        r@ == spec_filter_strings(xs@, |s: Seq<char>| spec_method_valid(s)),
{
    let ghost pred = |s: Seq<char>| spec_method_valid(s);
    let mut r: Vec<String> = Vec::new();
    let mut i: usize = 0;
    proof {
        assert(xs@.subrange(0, 0) =~= Seq::<String>::empty());
    }
    while i < xs.len()
        invariant
            i <= xs.len(),
            r@ == spec_filter_strings(xs@.subrange(0, i as int), pred),
            pred == (|s: Seq<char>| spec_method_valid(s)),
        decreases xs.len() - i,
    {
        let ghost prefix = xs@.subrange(0, i as int);
        if method_parses(xs[i].as_str()) {
            r.push(xs[i].clone());
        }
        i = i + 1;
        proof {
            let next = xs@.subrange(0, i as int);
            assert(next.drop_last() =~= prefix);
            assert(next.last() == xs@[i as int - 1]);
        }
    }
    proof {
        assert(xs@.subrange(0, xs@.len() as int) =~= xs@);
    }
    r
}

/// The entries that parse as header names, in order.
fn filter_header_names(xs: &Vec<String>) -> (r: Vec<String>)
    ensures
        r@ == spec_filter_strings(xs@, |s: Seq<char>| spec_header_name_valid(s)),
{
    let ghost pred = |s: Seq<char>| spec_header_name_valid(s);
    let mut r: Vec<String> = Vec::new();
    let mut i: usize = 0;
    proof {
        assert(xs@.subrange(0, 0) =~= Seq::<String>::empty());
    }
    while i < xs.len()
        invariant
            i <= xs.len(),
            r@ == spec_filter_strings(xs@.subrange(0, i as int), pred),
            pred == (|s: Seq<char>| spec_header_name_valid(s)),
        decreases xs.len() - i,
    {
        let ghost prefix = xs@.subrange(0, i as int);
        if header_name_parses(xs[i].as_str()) {
            r.push(xs[i].clone());
        }
        i = i + 1;
        proof {
            let next = xs@.subrange(0, i as int);
            assert(next.drop_last() =~= prefix);
            assert(next.last() == xs@[i as int - 1]);
        }
    }
    proof {
        assert(xs@.subrange(0, xs@.len() as int) =~= xs@);
    }
    r
}

/// Build the CORS allow-policy: nothing when the concern is disabled;
/// otherwise the wildcard rule when `"*"` is configured, else exactly the
/// configured origins, methods and headers with unparseable entries
/// silently dropped, plus the pre-flight max age.
pub fn build_cors_layer(config: &CorsConfig) -> (r: Option<CorsPolicy>)
    ensures
        !config.enabled ==> r is None,
        config.enabled ==> (r matches Some(p) && spec_cors_policy_matches(*config, p)),
{
    if !config.enabled {
        return None;
    }
    let allow_any_origin = has_wildcard(&config.allowed_origins);
    let allowed_origins: Vec<String> = if allow_any_origin {
        Vec::new()
    } else {
        filter_origins(&config.allowed_origins)
    };
    let allowed_methods = filter_methods(&config.allowed_methods);
    let allowed_headers = filter_header_names(&config.allowed_headers);
    Some(
        CorsPolicy {
            allow_any_origin,
            allowed_origins,
            allowed_methods,
            allowed_headers,
            max_age_seconds: config.max_age_seconds,
        },
    )
}

/// With the wildcard configured the policy allows every origin; with an
/// explicit list it allows exactly the configured origins that parse as
/// header values.
pub proof fn lemma_cors_origin_policy(config: CorsConfig, p: CorsPolicy, origin: Seq<char>)
    requires
        spec_cors_policy_matches(config, p),
    ensures
        spec_has_string(config.allowed_origins@, "*"@) ==> spec_allows_origin(p, origin),
        !spec_has_string(config.allowed_origins@, "*"@) ==> (spec_allows_origin(p, origin) <==> (
        spec_has_string(config.allowed_origins@, origin) && spec_header_value_valid(origin))),
{
    if !spec_has_string(config.allowed_origins@, "*"@) {
        lemma_filter_strings_membership(
            config.allowed_origins@,
            |s: Seq<char>| spec_header_value_valid(s),
            origin,
        );
    }
}

/// One response header the composer wants set: a name and the value that
/// must override any earlier value under that name.
pub struct SecurityHeader {
    /// Header name, lowercase.
    pub name: String,
    /// Header value.
    pub value: String,
}

/// The (name, value) texts of a header list, in order.
pub open spec fn spec_header_texts(hs: Seq<SecurityHeader>) -> Seq<(Seq<char>, Seq<char>)> {
    hs.map_values(|h: SecurityHeader| (h.name@, h.value@))
}

/// The headers the security-header composer must produce: nothing when the
/// concern is disabled, otherwise one fixed header per set flag, in this
/// order: strict-transport-security, x-content-type-options,
/// x-frame-options, x-xss-protection.
pub open spec fn spec_security_header_texts(c: SecurityHeadersConfig) -> Seq<
    (Seq<char>, Seq<char>),
> {
    if !c.enabled {
        Seq::empty()
    } else {
        (if c.hsts {
            seq![("strict-transport-security"@, "max-age=31536000; includeSubDomains"@)]
        } else {
            Seq::empty()
        }) + (if c.content_type_options {
            seq![("x-content-type-options"@, "nosniff"@)]
        } else {
            Seq::empty()
        }) + (if c.frame_options {
            seq![("x-frame-options"@, "DENY"@)]
        } else {
            Seq::empty()
        }) + (if c.xss_protection {
            seq![("x-xss-protection"@, "1; mode=block"@)]
        } else {
            Seq::empty()
        })
    }
}

/// Build the security headers to set: none when the concern is disabled,
/// else exactly one per set flag, each meant to override.
pub fn build_security_headers_layers(config: &SecurityHeadersConfig) -> (r: Vec<SecurityHeader>)
    ensures
        spec_header_texts(r@) == spec_security_header_texts(*config),
{
    let mut r: Vec<SecurityHeader> = Vec::new();
    if !config.enabled {
        proof {
            assert(spec_header_texts(r@) =~= spec_security_header_texts(*config));
        }
        return r;
    }
    if config.hsts {
        r.push(
            SecurityHeader {
                name: "strict-transport-security".to_owned(),
                value: "max-age=31536000; includeSubDomains".to_owned(),
            },
        );
    }
    if config.content_type_options {
        r.push(
            SecurityHeader { name: "x-content-type-options".to_owned(), value: "nosniff".to_owned() },
        );
    }
    if config.frame_options {
        r.push(SecurityHeader { name: "x-frame-options".to_owned(), value: "DENY".to_owned() });
    }
    if config.xss_protection {
        r.push(
            SecurityHeader { name: "x-xss-protection".to_owned(), value: "1; mode=block".to_owned() },
        );
    }
    proof {
        assert(spec_header_texts(r@) =~= spec_security_header_texts(*config));
    }
    r
}

/// A header list with every entry named `name` removed, order kept.
pub open spec fn spec_drop_name(hs: Seq<(Seq<char>, Seq<char>)>, name: Seq<char>) -> Seq<
    (Seq<char>, Seq<char>),
>
    decreases hs.len(),
{
    if hs.len() == 0 {
        Seq::empty()
    } else {
        let rest = spec_drop_name(hs.drop_last(), name);
        if hs.last().0 == name {
            rest
        } else {
            rest.push(hs.last())
        }
    }
}

/// Overriding application of one header: every earlier value under the name
/// is removed and the new value lands once, at the end.
pub open spec fn spec_set_header(
    hs: Seq<(Seq<char>, Seq<char>)>,
    name: Seq<char>,
    value: Seq<char>,
) -> Seq<(Seq<char>, Seq<char>)> {
    spec_drop_name(hs, name).push((name, value))
}

/// Overriding application of a directive list, first directive first.
pub open spec fn spec_apply_headers(
    hs: Seq<(Seq<char>, Seq<char>)>,
    ds: Seq<(Seq<char>, Seq<char>)>,
) -> Seq<(Seq<char>, Seq<char>)>
    decreases ds.len(),
{
    if ds.len() == 0 {
        hs
    } else {
        spec_apply_headers(spec_set_header(hs, ds[0].0, ds[0].1), ds.drop_first())
    }
}

/// Nothing but the new value survives under the written name, and it sits
/// once at the end; headers under other names keep their order and values.
pub proof fn lemma_set_header_overrides(
    hs: Seq<(Seq<char>, Seq<char>)>,
    name: Seq<char>,
    value: Seq<char>,
)
    ensures
        spec_set_header(hs, name, value).last() == (name, value),
        forall|i: int|
            0 <= i < spec_set_header(hs, name, value).len() - 1 ==> spec_set_header(
                hs,
                name,
                value,
            )[i].0 != name,
    decreases hs.len(),
{
    lemma_drop_name_drops(hs, name);
}

/// No entry under `name` survives [`spec_drop_name`].
pub proof fn lemma_drop_name_drops(hs: Seq<(Seq<char>, Seq<char>)>, name: Seq<char>)
    ensures
        forall|i: int|
            0 <= i < spec_drop_name(hs, name).len() ==> spec_drop_name(hs, name)[i].0 != name,
    decreases hs.len(),
{
    if hs.len() > 0 {
        lemma_drop_name_drops(hs.drop_last(), name);
        let rest = spec_drop_name(hs.drop_last(), name);
        if hs.last().0 != name {
            assert forall|i: int| 0 <= i < spec_drop_name(hs, name).len() implies spec_drop_name(
                hs,
                name,
            )[i].0 != name by {
                if i < rest.len() {
                    assert(spec_drop_name(hs, name)[i] == rest[i]);
                } else {
                    assert(spec_drop_name(hs, name)[i] == hs.last());
                }
            }
        }
    }
}

/// Set one header in a response-header list, overriding: entries under the
/// same name are removed and the directive's pair is appended.
pub fn set_header_overriding(headers: Vec<SecurityHeader>, directive: &SecurityHeader) -> (r: Vec<
    SecurityHeader,
>)
    ensures
        spec_header_texts(r@) == spec_set_header(
            spec_header_texts(headers@),
            directive.name@,
            directive.value@,
        ),
{
    let mut out: Vec<SecurityHeader> = Vec::new();
    let mut i: usize = 0;
    proof {
        assert(spec_header_texts(headers@.subrange(0, 0)) =~= Seq::<(Seq<char>, Seq<char>)>::empty());
        assert(spec_drop_name(spec_header_texts(headers@.subrange(0, 0)), directive.name@)
            =~= Seq::<(Seq<char>, Seq<char>)>::empty());
    }
    while i < headers.len()
        invariant
            i <= headers.len(),
            spec_header_texts(out@) == spec_drop_name(
                spec_header_texts(headers@.subrange(0, i as int)),
                directive.name@,
            ),
        decreases headers.len() - i,
    {
        let ghost prefix = headers@.subrange(0, i as int);
        if !(headers[i].name == directive.name) {
            let kept = SecurityHeader {
                name: headers[i].name.clone(),
                value: headers[i].value.clone(),
            };
            proof {
                assert((kept.name@, kept.value@) == spec_header_texts(headers@)[i as int]);
            }
            out.push(kept);
        }
        i = i + 1;
        proof {
            let next = headers@.subrange(0, i as int);
            assert(next.drop_last() =~= prefix);
            assert(next.last() == headers@[i as int - 1]);
            assert(spec_header_texts(next).drop_last() =~= spec_header_texts(prefix));
            assert(spec_header_texts(next).last() == (headers@[i as int - 1].name@, headers@[
            i as int - 1].value@));
        }
    }
    proof {
        assert(headers@.subrange(0, headers@.len() as int) =~= headers@);
    }
    let added = SecurityHeader { name: directive.name.clone(), value: directive.value.clone() };
    out.push(added);
    proof {
        assert(spec_header_texts(out@) =~= spec_set_header(
            spec_header_texts(headers@),
            directive.name@,
            directive.value@,
        ));
    }
    out
}

/// Apply a directive list to a response-header list, first directive
/// first, each overriding.
pub fn apply_security_headers(headers: Vec<SecurityHeader>, directives: &Vec<SecurityHeader>) -> (r:
    Vec<SecurityHeader>)
    ensures
        spec_header_texts(r@) == spec_apply_headers(
            spec_header_texts(headers@),
            spec_header_texts(directives@),
        ),
{
    let ghost all = spec_header_texts(directives@);
    let mut acc = headers;
    let mut i: usize = 0;
    proof {
        assert(all.subrange(0, all.len() as int) =~= all);
    }
    while i < directives.len()
        invariant
            i <= directives.len(),
            all == spec_header_texts(directives@),
            spec_apply_headers(
                spec_header_texts(acc@),
                all.subrange(i as int, all.len() as int),
            ) == spec_apply_headers(spec_header_texts(headers@), all),
        decreases directives.len() - i,
    {
        let ghost tail = all.subrange(i as int, all.len() as int);
        proof {
            assert(tail[0] == (directives@[i as int].name@, directives@[i as int].value@));
        }
        acc = set_header_overriding(acc, &directives[i]);
        proof {
            assert(tail.drop_first() =~= all.subrange(i as int + 1, all.len() as int));
        }
        i = i + 1;
    }
    proof {
        assert(all.subrange(0, all.len() as int) =~= all);
        assert(all.subrange(all.len() as int, all.len() as int).len() == 0);
    }
    acc
}

/// With the feature off, or every flag off, the composer adds nothing;
/// with all four flags on it adds exactly the four headers, in order.
pub proof fn lemma_security_headers_extent(c: SecurityHeadersConfig)
    ensures
        !c.enabled ==> spec_security_header_texts(c).len() == 0,
        c.enabled && !c.hsts && !c.content_type_options && !c.frame_options && !c.xss_protection
            ==> spec_security_header_texts(c).len() == 0,
        c.enabled && c.hsts && c.content_type_options && c.frame_options && c.xss_protection ==> {
            let texts = spec_security_header_texts(c);
            &&& texts.len() == 4
            &&& texts[0].0 == "strict-transport-security"@
            &&& texts[1].0 == "x-content-type-options"@
            &&& texts[2].0 == "x-frame-options"@
            &&& texts[3].0 == "x-xss-protection"@
        },
{
}

/// The "too many requests" outcome of the rate limiter.
#[derive(Debug)]
pub struct RateLimitError;

impl RateLimitError {
    /// The HTTP status this outcome maps to.
    pub fn status_code(&self) -> (c: u16)
        ensures
            c == 429,
    {
        429
    }

    /// The body text this outcome maps to.
    pub fn message(&self) -> (m: String)
        ensures
            m@ == "Too many requests. Please try again later."@,
    {
        "Too many requests. Please try again later.".to_owned()
    }
}

/// One key's window: when it began and how many requests it has admitted.
struct RateLimitEntry {
    /// The limiting key (a client identity).
    key: String,
    /// When the current window began, in seconds.
    window_start: u64,
    /// How many requests this window has admitted.
    count: u64,
}

/// No two entries carry the same key.
spec fn spec_entry_keys_unique(s: Seq<RateLimitEntry>) -> bool {
    forall|i: int, j: int| 0 <= i < j < s.len() ==> s[i].key@ != s[j].key@
}

/// The map an entry list denotes: key text to (window start, count).
spec fn spec_entries_map(s: Seq<RateLimitEntry>) -> Map<Seq<char>, (u64, u64)>
    decreases s.len(),
{
    if s.len() == 0 {
        Map::empty()
    } else {
        spec_entries_map(s.drop_last()).insert(
            s.last().key@,
            (s.last().window_start, s.last().count),
        )
    }
}

/// With unique keys, the denoted map has exactly the entries' keys, each
/// bound to its entry's window.
proof fn lemma_entries_map_props(s: Seq<RateLimitEntry>)
    requires
        spec_entry_keys_unique(s),
    ensures
        forall|k: Seq<char>|
            spec_entries_map(s).dom().contains(k) <==> exists|i: int|
                0 <= i < s.len() && s[i].key@ == k,
        forall|i: int|
            #![trigger s[i]]
            0 <= i < s.len() ==> spec_entries_map(s).dom().contains(s[i].key@)
                && spec_entries_map(s)[s[i].key@] == (s[i].window_start, s[i].count),
    decreases s.len(),
{
    if s.len() > 0 {
        assert(spec_entry_keys_unique(s.drop_last()));
        lemma_entries_map_props(s.drop_last());
        assert forall|k: Seq<char>| spec_entries_map(s).dom().contains(k) implies exists|i: int|
            0 <= i < s.len() && s[i].key@ == k by {
            if k == s.last().key@ {
                assert(s[s.len() - 1].key@ == k);
            } else {
                assert(spec_entries_map(s.drop_last()).dom().contains(k));
                assert(exists|i: int| 0 <= i < s.drop_last().len() && s.drop_last()[i].key@ == k);
                let i = choose|i: int| 0 <= i < s.drop_last().len() && s.drop_last()[i].key@ == k;
                assert(s.drop_last()[i] == s[i]);
                assert(s[i].key@ == k);
            }
        }
        assert forall|k: Seq<char>| (exists|i: int| 0 <= i < s.len() && s[i].key@ == k) implies
            spec_entries_map(s).dom().contains(k) by {
            let i = choose|i: int| 0 <= i < s.len() && s[i].key@ == k;
            if i < s.len() - 1 {
                assert(s.drop_last()[i].key@ == k);
            }
        }
        assert forall|i: int| 0 <= i < s.len() implies spec_entries_map(s).dom().contains(
            #[trigger] s[i].key@,
        ) && spec_entries_map(s)[s[i].key@] == (s[i].window_start, s[i].count) by {
            if i < s.len() - 1 {
                assert(s.drop_last()[i] == s[i]);
                assert(s[i].key@ != s.last().key@);
            }
        }
    }
}

/// Appending an entry with a fresh key denotes insertion into the map.
proof fn lemma_entries_map_push(s: Seq<RateLimitEntry>, e: RateLimitEntry)
    ensures
        spec_entries_map(s.push(e)) == spec_entries_map(s).insert(
            e.key@,
            (e.window_start, e.count),
        ),
{
    assert(s.push(e).drop_last() =~= s);
    assert(s.push(e).last() == e);
}

/// Replacing the entry at `i` by one with the same key denotes insertion
/// (an overwrite) into the map.
proof fn lemma_entries_map_update(s: Seq<RateLimitEntry>, i: int, e: RateLimitEntry)
    requires
        spec_entry_keys_unique(s),
        0 <= i < s.len(),
        e.key@ == s[i].key@,
    ensures
        spec_entries_map(s.update(i, e)) == spec_entries_map(s).insert(
            e.key@,
            (e.window_start, e.count),
        ),
    decreases s.len(),
{
    if i == s.len() - 1 {
        assert(s.update(i, e).drop_last() =~= s.drop_last());
        assert(s.update(i, e).last() == e);
        assert(spec_entries_map(s.update(i, e)) =~= spec_entries_map(s).insert(
            e.key@,
            (e.window_start, e.count),
        ));
    } else {
        assert(spec_entry_keys_unique(s.drop_last()));
        assert(s.drop_last()[i] == s[i]);
        lemma_entries_map_update(s.drop_last(), i, e);
        assert(s.update(i, e).drop_last() =~= s.drop_last().update(i, e));
        assert(s.update(i, e).last() == s.last());
        assert(s.last().key@ != e.key@);
        assert(spec_entries_map(s.update(i, e)) =~= spec_entries_map(s).insert(
            e.key@,
            (e.window_start, e.count),
        ));
    }
}

/// Whether a request under `key` at time `now` is admitted against state
/// `m`: the count of the key's live window (zero for a fresh or expired
/// window) is still below the limit.
pub open spec fn spec_admit(
    limit: u64,
    period: u64,
    m: Map<Seq<char>, (u64, u64)>,
    key: Seq<char>,
    now: u64,
) -> bool {
    (if m.dom().contains(key) && now < m[key].0 + period {
        m[key].1 as int
    } else {
        0
    }) < limit
}

/// The limiter state after one request: an admitted request bumps the
/// key's live window or opens a fresh one at `now`; a rejected request
/// changes nothing.
pub open spec fn spec_step_state(
    limit: u64,
    period: u64,
    m: Map<Seq<char>, (u64, u64)>,
    key: Seq<char>,
    now: u64,
) -> Map<Seq<char>, (u64, u64)> {
    if spec_admit(limit, period, m, key, now) {
        if m.dom().contains(key) && now < m[key].0 + period {
            m.insert(key, (m[key].0, (m[key].1 + 1) as u64))
        } else {
            m.insert(key, (now, 1u64))
        }
    } else {
        m
    }
}

/// A fixed-window rate limiter: per key, at most `requests_per_period`
/// requests are admitted within each `period_seconds` window.
pub struct RateLimiter {
    /// How many requests one key may make within one window.
    pub requests_per_period: u64,
    /// Window length in seconds.
    pub period_seconds: u64,
    entries: Vec<RateLimitEntry>,
}

/// The index of the entry carrying `key`, if any.
fn find_entry(entries: &Vec<RateLimitEntry>, key: &String) -> (r: Option<usize>)
    ensures
        match r {
            Some(i) => i < entries@.len() && entries@[i as int].key@ == key@,
            None => forall|j: int| 0 <= j < entries@.len() ==> entries@[j].key@ != key@,
        },
{
    let mut i: usize = 0;
    while i < entries.len()
        invariant
            i <= entries.len(),
            forall|j: int| 0 <= j < i ==> entries@[j].key@ != key@,
        decreases entries.len() - i,
    {
        if entries[i].key == *key {
            return Some(i);
        }
        i = i + 1;
    }
    None
}

impl View for RateLimiter {
    type V = Map<Seq<char>, (u64, u64)>;

    closed spec fn view(&self) -> Map<Seq<char>, (u64, u64)> {
        spec_entries_map(self.entries@)
    }
}

impl RateLimiter {
    /// The limiter's internal bookkeeping is sound: one entry per key.
    pub closed spec fn wf(self) -> bool {
        spec_entry_keys_unique(self.entries@)
    }

    /// How many requests one key may make within one window.
    pub closed spec fn spec_limit(self) -> u64 {
        self.requests_per_period
    }

    /// Window length in seconds.
    pub closed spec fn spec_period(self) -> u64 {
        self.period_seconds
    }

    /// A fresh limiter with the given limits and no windows yet.
    pub fn new(requests_per_period: u64, period_seconds: u64) -> (l: RateLimiter)
        ensures
            l.wf(),
            l@ == Map::<Seq<char>, (u64, u64)>::empty(),
            l.spec_limit() == requests_per_period,
            l.spec_period() == period_seconds,
    {
        RateLimiter { requests_per_period, period_seconds, entries: Vec::new() }
    }

    /// Account one request under `key` at time `now` (seconds): `Ok` and a
    /// bumped or fresh window while the window's count is below the limit,
    /// the "too many requests" outcome and no change otherwise.
    pub fn check(&mut self, key: &str, now: u64) -> (r: Result<(), RateLimitError>)
        requires
            old(self).wf(),
        ensures
            final(self).wf(),
            final(self).spec_limit() == old(self).spec_limit(),
            final(self).spec_period() == old(self).spec_period(),
            r is Ok == spec_admit(
                old(self).spec_limit(),
                old(self).spec_period(),
                old(self)@,
                key@,
                now,
            ),
            final(self)@ == spec_step_state(
                old(self).spec_limit(),
                old(self).spec_period(),
                old(self)@,
                key@,
                now,
            ),
    {
        proof {
            lemma_entries_map_props(self.entries@);
        }
        let want: String = key.to_owned();
        let found = find_entry(&self.entries, &want);
        match found {
            None => {
                assert(!self@.dom().contains(key@));
                if self.requests_per_period >= 1 {
                    let entry = RateLimitEntry { key: want, window_start: now, count: 1 };
                    proof {
                        lemma_entries_map_push(self.entries@, entry);
                        assert(spec_entry_keys_unique(self.entries@.push(entry)));
                    }
                    self.entries.push(entry);
                    Ok(())
                } else {
                    Err(RateLimitError)
                }
            },
            Some(idx) => {
                assert(self.entries@[idx as int].key@ == key@);
                assert(self@.dom().contains(key@) && self@[key@] == (
                    self.entries@[idx as int].window_start,
                    self.entries@[idx as int].count,
                ));
                let start = self.entries[idx].window_start;
                let count = self.entries[idx].count;
                let expired = (now as u128) >= (start as u128) + (self.period_seconds as u128);
                if expired {
                    if self.requests_per_period >= 1 {
                        let entry = RateLimitEntry { key: want, window_start: now, count: 1 };
                        proof {
                            lemma_entries_map_update(self.entries@, idx as int, entry);
                            assert(spec_entry_keys_unique(self.entries@.update(idx as int, entry)));
                        }
                        self.entries.set(idx, entry);
                        Ok(())
                    } else {
                        Err(RateLimitError)
                    }
                } else {
                    if count < self.requests_per_period {
                        let entry = RateLimitEntry {
                            key: want,
                            window_start: start,
                            count: count + 1,
                        };
                        proof {
                            lemma_entries_map_update(self.entries@, idx as int, entry);
                            assert(spec_entry_keys_unique(self.entries@.update(idx as int, entry)));
                        }
                        self.entries.set(idx, entry);
                        Ok(())
                    } else {
                        Err(RateLimitError)
                    }
                }
            },
        }
    }
}

/// How many requests of a run under one key are admitted, first time
/// first, starting from state `m`.
pub open spec fn spec_run_admitted(
    limit: u64,
    period: u64,
    m: Map<Seq<char>, (u64, u64)>,
    key: Seq<char>,
    times: Seq<u64>,
) -> int
    decreases times.len(),
{
    if times.len() == 0 {
        0
    } else {
        (if spec_admit(limit, period, m, key, times[0]) {
            1int
        } else {
            0int
        }) + spec_run_admitted(
            limit,
            period,
            spec_step_state(limit, period, m, key, times[0]),
            key,
            times.drop_first(),
        )
    }
}

/// With a limit of zero and the key unknown, nothing is ever admitted and
/// the key stays unknown.
proof fn lemma_run_zero_limit(
    period: u64,
    m: Map<Seq<char>, (u64, u64)>,
    key: Seq<char>,
    times: Seq<u64>,
)
    requires
        !m.dom().contains(key),
    ensures
        spec_run_admitted(0u64, period, m, key, times) == 0,
    decreases times.len(),
{
    if times.len() > 0 {
        lemma_run_zero_limit(period, m, key, times.drop_first());
    }
}

/// With the key's window at (t0, c) and every request inside that window,
/// the run admits exactly the remaining allowance, `limit - c`, or all of
/// the run if it is shorter.
proof fn lemma_run_in_window(
    limit: u64,
    period: u64,
    m: Map<Seq<char>, (u64, u64)>,
    key: Seq<char>,
    t0: u64,
    c: u64,
    times: Seq<u64>,
)
    requires
        m.dom().contains(key),
        m[key] == (t0, c),
        1 <= c <= limit,
        forall|i: int| 0 <= i < times.len() ==> times[i] < t0 + period,
    ensures
        spec_run_admitted(limit, period, m, key, times) == if times.len() <= limit - c {
            times.len() as int
        } else {
            limit - c
        },
    decreases times.len(),
{
    if times.len() > 0 {
        let rest = times.drop_first();
        assert(forall|i: int| 0 <= i < rest.len() ==> rest[i] == times[i + 1]);
        if c < limit {
            let m2 = spec_step_state(limit, period, m, key, times[0]);
            assert(m2 == m.insert(key, (t0, (c + 1) as u64)));
            lemma_run_in_window(limit, period, m2, key, t0, (c + 1) as u64, rest);
        } else {
            assert(!spec_admit(limit, period, m, key, times[0]));
            lemma_run_in_window(limit, period, m, key, t0, c, rest);
        }
    }
}

/// For a key with no window yet, a run of requests all inside one window
/// is admitted exactly `limit` times — every request if the run is
/// shorter, and any request past the limit, still inside the window, is
/// rejected.
pub proof fn lemma_rate_limit_window(
    limit: u64,
    period: u64,
    m: Map<Seq<char>, (u64, u64)>,
    key: Seq<char>,
    times: Seq<u64>,
)
    requires
        !m.dom().contains(key),
        times.len() > 0,
        forall|i: int| 0 <= i < times.len() ==> times[0] <= #[trigger] times[i] && times[i] < times[0] + period,
    ensures
        spec_run_admitted(limit, period, m, key, times) == if times.len() <= limit {
            times.len() as int
        } else {
            limit as int
        },
{
    if limit == 0 {
        lemma_run_zero_limit(period, m, key, times);
    } else {
        assert(spec_admit(limit, period, m, key, times[0]));
        let m2 = spec_step_state(limit, period, m, key, times[0]);
        assert(m2 == m.insert(key, (times[0], 1u64)));
        let rest = times.drop_first();
        assert(forall|i: int| 0 <= i < rest.len() ==> rest[i] == times[i + 1]);
        lemma_run_in_window(limit, period, m2, key, times[0], 1u64, rest);
    }
}

/// Build the rate-limiting stage: nothing when the concern is disabled,
/// else a fresh limiter with the configured limits.
pub fn build_rate_limit_layer(config: &RateLimitConfig) -> (r: Option<RateLimiter>)
    ensures
        !config.enabled ==> r is None,
        config.enabled ==> (r matches Some(l) && l.wf() && l@ == Map::<Seq<char>, (u64, u64)>::empty()
            && l.spec_limit() == config.requests_per_period && l.spec_period()
            == config.period_seconds),
{
    if !config.enabled {
        return None;
    }
    Some(RateLimiter::new(config.requests_per_period, config.period_seconds))
}

/// One cross-cutting stage of the request pipeline.
#[derive(Clone, Copy, PartialEq, Eq, Structural, Debug)]
pub enum MiddlewareStage {
    /// The rate-limiting gate, outermost: it short-circuits before anything
    /// else runs.
    RateLimit,
    /// The CORS allow-policy.
    Cors,
    /// The overriding security headers.
    SecurityHeaders,
    /// Body compression, applied to the outgoing body after the handler.
    Compression,
}

/// Everything the composer decided: one optional behaviour per concern,
/// applied in the fixed order [`spec_stage_order`] gives.
pub struct MiddlewarePlan {
    /// The rate-limiting gate, when enabled.
    pub rate_limit: Option<RateLimiter>,
    /// The CORS allow-policy, when enabled.
    pub cors: Option<CorsPolicy>,
    /// The security headers to set, possibly none.
    pub security_headers: Vec<SecurityHeader>,
    /// Whether responses are compressed.
    pub compression: bool,
}

/// The stages a plan installs, outermost first: the rate-limiting gate,
/// then CORS, then the security headers around the handler, then
/// compression on the outgoing body. Each stage appears exactly when its
/// concern contributes something.
pub open spec fn spec_stage_order(p: MiddlewarePlan) -> Seq<MiddlewareStage> {
    (if p.rate_limit is Some {
        seq![MiddlewareStage::RateLimit]
    } else {
        Seq::empty()
    }) + (if p.cors is Some {
        seq![MiddlewareStage::Cors]
    } else {
        Seq::empty()
    }) + (if p.security_headers@.len() > 0 {
        seq![MiddlewareStage::SecurityHeaders]
    } else {
        Seq::empty()
    }) + (if p.compression {
        seq![MiddlewareStage::Compression]
    } else {
        Seq::empty()
    })
}

impl MiddlewarePlan {
    /// The stages this plan installs, in application order.
    pub fn stages(&self) -> (v: Vec<MiddlewareStage>)
        ensures
            v@ == spec_stage_order(*self),
    {
        let mut v: Vec<MiddlewareStage> = Vec::new();
        if self.rate_limit.is_some() {
            v.push(MiddlewareStage::RateLimit);
        }
        if self.cors.is_some() {
            v.push(MiddlewareStage::Cors);
        }
        if self.security_headers.len() > 0 {
            v.push(MiddlewareStage::SecurityHeaders);
        }
        if self.compression {
            v.push(MiddlewareStage::Compression);
        }
        proof {
            assert(v@ =~= spec_stage_order(*self));
        }
        v
    }
}

/// Compose the whole pipeline from configuration: each concern is built
/// independently by its own builder, so toggling one never affects the
/// others.
pub fn build_middleware_plan(security: &SecurityConfig, compression: bool) -> (p: MiddlewarePlan)
    ensures
        security.rate_limit.enabled <==> p.rate_limit is Some,
        (p.rate_limit matches Some(l) ==> l.wf() && l@ == Map::<Seq<char>, (u64, u64)>::empty()
            && l.spec_limit() == security.rate_limit.requests_per_period && l.spec_period()
            == security.rate_limit.period_seconds),
        security.cors.enabled <==> p.cors is Some,
        (p.cors matches Some(c) ==> spec_cors_policy_matches(security.cors, c)),
        spec_header_texts(p.security_headers@) == spec_security_header_texts(security.headers),
        p.compression == compression,
{
    MiddlewarePlan {
        rate_limit: build_rate_limit_layer(&security.rate_limit),
        cors: build_cors_layer(&security.cors),
        security_headers: build_security_headers_layers(&security.headers),
        compression,
    }
}

} // verus!
