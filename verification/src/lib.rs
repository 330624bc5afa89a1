//! An in-memory catalog of AI inference providers and their models.
//!
//! The catalog is a fixed set of provider definitions that is validated and
//! loaded once at startup into a read-only, concurrency-safe registry
//! ([`providers::registry::ProviderRegistry`]). Each provider carries pricing
//! and capability metadata for its models ([`Model`]), with exact fixed-point
//! cost arithmetic (prices are held in micro-USD per million tokens, costs are
//! returned in pico-USD). The [`security`] module builds the cross-cutting
//! request-processing plan (CORS, rate limiting, security headers,
//! compression) from configuration; the HTTP transport around it lives
//! outside this crate.

pub mod config;
pub mod metrics;
pub mod models;
pub mod providers;
pub mod security;

pub use config::Config;
pub use models::provider::Model;
pub use models::provider::Provider;

