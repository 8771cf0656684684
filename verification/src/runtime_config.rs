//! Process-wide runtime settings that the dataset lifecycle owner reads: the
//! result cache, TLS endpoints, tracing, and telemetry. The scheduler's
//! post-completion cache invalidation is governed by [`ResultsCache`].

use vstd::prelude::*;

verus! {

/// Runtime-wide configuration.
#[derive(Clone, Debug, PartialEq)]
pub struct Runtime {
    pub results_cache: ResultsCache,
    pub num_of_parallel_loading_at_start_up: Option<usize>,
    /// If set, the runtime will configure all endpoints to use TLS
    pub tls: Option<TlsConfig>,
    pub tracing: Option<TracingConfig>,
    pub telemetry: Option<TelemetryConfig>,
}

/// Result-cache settings; the cache is enabled unless switched off.
#[derive(Clone, Debug, PartialEq)]
pub struct ResultsCache {
    pub enabled: bool,
    pub cache_max_size: Option<String>,
    pub item_ttl: Option<String>,
    pub eviction_policy: Option<String>,
}

/// The default for settings that are on unless switched off.
pub fn default_true() -> (b: bool)
    ensures
        b,
{
    true
}

/// The results cache with everything unset: enabled, no bounds, no policy.
pub open spec fn spec_default_results_cache() -> ResultsCache {
    ResultsCache { enabled: true, cache_max_size: None, item_ttl: None, eviction_policy: None }
}

impl Default for ResultsCache {
    fn default() -> (r: Self)
        ensures
            r == spec_default_results_cache(),
    {
        ResultsCache {
            enabled: default_true(),
            cache_max_size: None,
            item_ttl: None,
            eviction_policy: None,
        }
    }
}

impl Default for Runtime {
    fn default() -> (r: Self)
        ensures
            r.results_cache == spec_default_results_cache(),
            r.num_of_parallel_loading_at_start_up is None,
            r.tls is None,
            r.tracing is None,
            r.telemetry is None,
    {
        Runtime {
            results_cache: Default::default(),
            num_of_parallel_loading_at_start_up: None,
            tls: None,
            tracing: None,
            telemetry: None,
        }
    }
}

/// TLS settings for the runtime's endpoints.
#[derive(Clone, Debug, PartialEq)]
pub struct TlsConfig {
    /// If set, the runtime will configure all endpoints to use TLS
    pub enabled: bool,
    /// A filesystem path to a file containing the PEM encoded certificate
    pub certificate_file: Option<String>,
    /// A PEM encoded certificate
    pub certificate: Option<String>,
    /// A filesystem path to a file containing the PEM encoded private key
    pub key_file: Option<String>,
    /// A PEM encoded private key
    pub key: Option<String>,
}

/// Tracing settings.
#[derive(Clone, Debug, PartialEq)]
pub struct TracingConfig {
    pub zipkin_enabled: bool,
    pub zipkin_endpoint: Option<String>,
}

/// Telemetry settings.
#[derive(Clone, Debug, PartialEq)]
pub struct TelemetryConfig {
    pub enabled: bool,
}

} // verus!
