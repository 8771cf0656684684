use refresh_sched::runtime_config::{default_true, ResultsCache, Runtime};

#[test]
fn results_cache_default_is_enabled_with_nothing_set() {
    let cache = ResultsCache::default();
    assert!(cache.enabled);
    assert_eq!(cache.cache_max_size, None);
    assert_eq!(cache.item_ttl, None);
    assert_eq!(cache.eviction_policy, None);
}

#[test]
fn runtime_default_has_no_optional_sections() {
    let runtime = Runtime::default();
    assert!(runtime.results_cache.enabled);
    assert_eq!(runtime.num_of_parallel_loading_at_start_up, None);
    assert!(runtime.tls.is_none());
    assert!(runtime.tracing.is_none());
    assert!(runtime.telemetry.is_none());
}

#[test]
fn default_true_is_true() {
    assert!(default_true());
}
