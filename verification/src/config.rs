//! Application configuration: server, logging, metrics and security settings,
//! their defaults, and structural validation.
//!
//! Reading configuration from the environment or from files happens outside
//! this crate; here the settings are plain values with exact validation
//! rules. The log level is matched ASCII-case-insensitively against the five
//! known level names.

use vstd::prelude::*;
use vstd::string::StrSliceExecFns;

verus! {

/// Server settings: bind address parts, compression toggle, request timeout.
pub struct ServerConfig {
    /// Host to bind to.
    pub host: String,
    /// Port to bind to.
    pub port: u16,
    /// Whether to compress response bodies.
    pub compression: bool,
    /// Request timeout in seconds.
    pub timeout_seconds: u64,
}

/// Logging settings.
pub struct LoggingConfig {
    /// Log level name: one of trace, debug, info, warn, error, in any ASCII
    /// case.
    pub level: String,
    /// Whether to emit logs as JSON.
    pub json_format: bool,
    /// Whether to include the log target.
    pub show_target: bool,
}

/// Metrics endpoint settings.
pub struct MetricsConfig {
    /// Whether the metrics endpoint is served at all.
    pub enabled: bool,
    /// Path of the metrics endpoint.
    pub path: String,
}

/// Cross-origin resource sharing settings.
pub struct CorsConfig {
    /// Whether a CORS stage is installed at all.
    pub enabled: bool,
    /// Allowed origins; the single entry `"*"` means any origin.
    pub allowed_origins: Vec<String>,
    /// Allowed request methods.
    pub allowed_methods: Vec<String>,
    /// Allowed request headers.
    pub allowed_headers: Vec<String>,
    /// How long, in seconds, a pre-flight answer may be cached.
    pub max_age_seconds: u64,
}

/// Rate-limiting settings: a fixed window per client key.
pub struct RateLimitConfig {
    /// Whether a rate-limiting stage is installed at all.
    pub enabled: bool,
    /// How many requests one key may make within one window.
    pub requests_per_period: u64,
    /// Window length in seconds.
    pub period_seconds: u64,
}

/// Security-header settings: four independently toggled response headers.
pub struct SecurityHeadersConfig {
    /// Whether a security-header stage is installed at all.
    pub enabled: bool,
    /// Strict-Transport-Security.
    pub hsts: bool,
    /// X-Content-Type-Options: nosniff.
    pub content_type_options: bool,
    /// X-Frame-Options: DENY.
    pub frame_options: bool,
    /// X-XSS-Protection.
    pub xss_protection: bool,
}

/// The security-related settings, one sub-config per concern.
pub struct SecurityConfig {
    /// CORS settings.
    pub cors: CorsConfig,
    /// Rate-limiting settings.
    pub rate_limit: RateLimitConfig,
    /// Security-header settings.
    pub headers: SecurityHeadersConfig,
}

/// The whole application configuration.
pub struct Config {
    /// Server settings.
    pub server: ServerConfig,
    /// Logging settings.
    pub logging: LoggingConfig,
    /// Metrics settings.
    pub metrics: MetricsConfig,
    /// Security settings.
    pub security: SecurityConfig,
}

impl Default for ServerConfig {
    /// Defaults: bind 0.0.0.0:8080, compression on, 30 s timeout.
    fn default() -> (c: Self)
        ensures
            c.host@ == "0.0.0.0"@,
            c.port == 8080,
            c.compression == true,
            c.timeout_seconds == 30,
    {
        ServerConfig { host: "0.0.0.0".to_owned(), port: 8080, compression: true, timeout_seconds: 30 }
    }
}

impl Default for LoggingConfig {
    /// Defaults: level info, plain format, no target.
    fn default() -> (c: Self)
        ensures
            c.level@ == "info"@,
            c.json_format == false,
            c.show_target == false,
    {
        LoggingConfig { level: "info".to_owned(), json_format: false, show_target: false }
    }
}

impl Default for MetricsConfig {
    /// Defaults: enabled, served at /metrics.
    fn default() -> (c: Self)
        ensures
            c.enabled == true,
            c.path@ == "/metrics"@,
    {
        MetricsConfig { enabled: true, path: "/metrics".to_owned() }
    }
}

impl Default for CorsConfig {
    /// Defaults: enabled, any origin, GET only, content-type header allowed,
    /// pre-flight answers cacheable for an hour.
    fn default() -> (c: Self)
        ensures
            c.enabled == true,
            c.allowed_origins@.len() == 1 && c.allowed_origins@[0]@ == "*"@,
            c.allowed_methods@.len() == 1 && c.allowed_methods@[0]@ == "GET"@,
            c.allowed_headers@.len() == 1 && c.allowed_headers@[0]@ == "content-type"@,
            c.max_age_seconds == 3600,
    {
        let mut allowed_origins: Vec<String> = Vec::new();
        allowed_origins.push("*".to_owned());
        let mut allowed_methods: Vec<String> = Vec::new();
        allowed_methods.push("GET".to_owned());
        let mut allowed_headers: Vec<String> = Vec::new();
        allowed_headers.push("content-type".to_owned());
        CorsConfig {
            enabled: true,
            allowed_origins,
            allowed_methods,
            allowed_headers,
            max_age_seconds: 3600,
        }
    }
}

impl Default for RateLimitConfig {
    /// Defaults: enabled, 100 requests per 60-second window.
    fn default() -> (c: Self)
        ensures
            c.enabled == true,
            c.requests_per_period == 100,
            c.period_seconds == 60,
    {
        RateLimitConfig { enabled: true, requests_per_period: 100, period_seconds: 60 }
    }
}

impl Default for SecurityHeadersConfig {
    /// Defaults: enabled with all four headers on.
    fn default() -> (c: Self)
        ensures
            c.enabled == true,
            c.hsts == true,
            c.content_type_options == true,
            c.frame_options == true,
            c.xss_protection == true,
    {
        SecurityHeadersConfig {
            enabled: true,
            hsts: true,
            content_type_options: true,
            frame_options: true,
            xss_protection: true,
        }
    }
}

impl Default for SecurityConfig {
    /// Defaults of each concern.
    fn default() -> (c: Self)
        ensures
            c.cors.enabled == true,
            c.rate_limit.enabled == true,
            c.headers.enabled == true,
    {
        SecurityConfig {
            cors: CorsConfig::default(),
            rate_limit: RateLimitConfig::default(),
            headers: SecurityHeadersConfig::default(),
        }
    }
}

impl Default for Config {
    /// The default of every section.
    fn default() -> (c: Self)
        ensures
            c.server.host@ == "0.0.0.0"@,
            c.server.port == 8080,
            c.server.compression == true,
            c.server.timeout_seconds == 30,
            c.logging.level@ == "info"@,
            c.logging.json_format == false,
            c.logging.show_target == false,
            c.metrics.enabled == true,
            c.metrics.path@ == "/metrics"@,
    {
        Config {
            server: ServerConfig::default(),
            logging: LoggingConfig::default(),
            metrics: MetricsConfig::default(),
            security: SecurityConfig::default(),
        }
    }
}

/// The five log levels, ordered from most to least verbose.
#[derive(Clone, Copy, PartialEq, Eq, Structural, Debug)]
pub enum LogLevel {
    Trace,
    Debug,
    Info,
    Warn,
    Error,
}

/// The ASCII-lowercased counterpart of a character: `A`..`Z` shifted down,
/// everything else unchanged.
pub open spec fn spec_ascii_lower_char(c: char) -> char {
    if 'A' <= c && c <= 'Z' {
        (((c as u8) + 32) as char)
    } else {
        c
    }
}

/// A character sequence with every character ASCII-lowercased.
pub open spec fn spec_ascii_lower(s: Seq<char>) -> Seq<char> {
    Seq::new(s.len(), |i: int| spec_ascii_lower_char(s[i]))
}

/// The level a name denotes, matched ASCII-case-insensitively against the
/// five known names; `None` for anything else.
pub open spec fn spec_parse_level(s: Seq<char>) -> Option<LogLevel> {
    let lower = spec_ascii_lower(s);
    if lower == "trace"@ {
        Some(LogLevel::Trace)
    } else if lower == "debug"@ {
        Some(LogLevel::Debug)
    } else if lower == "info"@ {
        Some(LogLevel::Info)
    } else if lower == "warn"@ {
        Some(LogLevel::Warn)
    } else if lower == "error"@ {
        Some(LogLevel::Error)
    } else {
        None
    }
}

/// Whether a log level name is one of the five known names.
pub open spec fn spec_level_valid(s: Seq<char>) -> bool {
    spec_parse_level(s) is Some
}

/// ASCII-lowercased counterpart of one character.
fn ascii_lower_char(c: char) -> (r: char)
    ensures
        r == spec_ascii_lower_char(c),
{
    let u: u32 = c as u32;
    if 65 <= u && u <= 90 {
        (((u as u8) + 32) as char)
    } else {
        c
    }
}

/// Whether two strings are equal once ASCII-lowercased.
fn eq_ignore_ascii_case(s: &str, t: &str) -> (b: bool)
    ensures
        b == (spec_ascii_lower(s@) == spec_ascii_lower(t@)),
{
    let n = s.unicode_len();
    if n != t.unicode_len() {
        proof {
            assert(spec_ascii_lower(s@).len() != spec_ascii_lower(t@).len());
        }
        return false;
    }
    let mut i: usize = 0;
    while i < n
        invariant
            n == s@.len(),
            n == t@.len(),
            i <= n,
            forall|j: int|
                0 <= j < i ==> spec_ascii_lower_char(s@[j]) == spec_ascii_lower_char(t@[j]),
        decreases n - i,
    {
        let cs = ascii_lower_char(s.get_char(i));
        let ct = ascii_lower_char(t.get_char(i));
        if cs != ct {
            proof {
                assert(spec_ascii_lower(s@)[i as int] != spec_ascii_lower(t@)[i as int]);
            }
            return false;
        }
        i = i + 1;
    }
    proof {
        assert(spec_ascii_lower(s@) =~= spec_ascii_lower(t@));
    }
    true
}

/// The level named by `s`, matched ASCII-case-insensitively; `None` for an
/// unknown name.
pub fn parse_log_level(s: &str) -> (r: Option<LogLevel>)
    ensures
        r == spec_parse_level(s@),
{
    proof {
        reveal_strlit("trace");
        reveal_strlit("debug");
        reveal_strlit("info");
        reveal_strlit("warn");
        reveal_strlit("error");
        assert(spec_ascii_lower("trace"@) =~= "trace"@);
        assert(spec_ascii_lower("debug"@) =~= "debug"@);
        assert(spec_ascii_lower("info"@) =~= "info"@);
        assert(spec_ascii_lower("warn"@) =~= "warn"@);
        assert(spec_ascii_lower("error"@) =~= "error"@);
    }
    if eq_ignore_ascii_case(s, "trace") {
        Some(LogLevel::Trace)
    } else if eq_ignore_ascii_case(s, "debug") {
        Some(LogLevel::Debug)
    } else if eq_ignore_ascii_case(s, "info") {
        Some(LogLevel::Info)
    } else if eq_ignore_ascii_case(s, "warn") {
        Some(LogLevel::Warn)
    } else if eq_ignore_ascii_case(s, "error") {
        Some(LogLevel::Error)
    } else {
        None
    }
}

/// Why a configuration was rejected.
#[derive(Clone, Copy, PartialEq, Eq, Structural, Debug)]
pub enum ConfigError {
    /// The server port is 0.
    ZeroPort,
    /// The request timeout is 0 seconds.
    ZeroTimeout,
    /// The log level is not one of the five known names.
    InvalidLogLevel,
}

impl ConfigError {
    /// A short description of the rejection.
    pub fn message(&self) -> (m: String)
        ensures
            *self is ZeroPort ==> m@ == "Server port cannot be 0"@,
            *self is ZeroTimeout ==> m@ == "Server timeout cannot be 0"@,
            *self is InvalidLogLevel ==> m@
                == "Invalid log level. Valid levels: trace, debug, info, warn, error"@,
    {
        match self {
            ConfigError::ZeroPort => "Server port cannot be 0".to_owned(),
            ConfigError::ZeroTimeout => "Server timeout cannot be 0".to_owned(),
            ConfigError::InvalidLogLevel => "Invalid log level. Valid levels: trace, debug, info, warn, error".to_owned(),
        }
    }
}

impl Config {
    /// Accept exactly the configurations with a nonzero port, a nonzero
    /// timeout, and a known log level; report the first rule broken, in that
    /// order.
    pub fn validate(&self) -> (r: Result<(), ConfigError>)
        ensures
            r is Ok <==> self.server.port != 0 && self.server.timeout_seconds != 0
                && spec_level_valid(self.logging.level@),
            self.server.port == 0 ==> r == Result::<(), ConfigError>::Err(ConfigError::ZeroPort),
            self.server.port != 0 && self.server.timeout_seconds == 0 ==> r == Result::<
                (),
                ConfigError,
            >::Err(ConfigError::ZeroTimeout),
            self.server.port != 0 && self.server.timeout_seconds != 0 && !spec_level_valid(
                self.logging.level@,
            ) ==> r == Result::<(), ConfigError>::Err(ConfigError::InvalidLogLevel),
    {
        if self.server.port == 0 {
            return Err(ConfigError::ZeroPort);
        }
        if self.server.timeout_seconds == 0 {
            return Err(ConfigError::ZeroTimeout);
        }
        if parse_log_level(self.logging.level.as_str()).is_none() {
            return Err(ConfigError::InvalidLogLevel);
        }
        Ok(())
    }

    /// The configured log level, or `Info` when the configured name is not a
    /// known level.
    pub fn tracing_level(&self) -> (l: LogLevel)
        ensures
            l == match spec_parse_level(self.logging.level@) {
                Some(level) => level,
                None => LogLevel::Info,
            },
    {
        match parse_log_level(self.logging.level.as_str()) {
            Some(level) => level,
            None => LogLevel::Info,
        }
    }
}

} // verus!
