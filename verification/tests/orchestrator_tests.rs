use universal_connector::cache::SharedGetOutcome;
use universal_connector::config::{ApiKeys, CacheConfig, Config, PerformanceConfig};
use universal_connector::models::{AdapterError, Query, SourceResult};
use universal_connector::orchestrator::{reduce, settle_fetch, FetchOutcome, Orchestrator};

fn test_config() -> Config {
    Config {
        redis_url: "redis://localhost:6379".to_string(),
        database_url: "postgres://localhost/zero_world".to_string(),
        api_keys: ApiKeys {
            google_api_key: None,
            openweather_api_key: None,
            news_api_key: None,
            bing_api_key: None,
        },
        cache: CacheConfig { l1_size_mb: 256, l1_ttl_secs: 300, l2_ttl_secs: 3600 },
        performance: PerformanceConfig {
            max_parallel_requests: 50,
            global_timeout_ms: 1000,
            worker_threads: 4,
        },
    }
}

fn query(text: &str, intent: &str, sources: Vec<&str>) -> Query {
    Query {
        text: text.to_string(),
        intent: intent.to_string(),
        entities: Vec::new(),
        sources: sources.into_iter().map(|s| s.to_string()).collect(),
        context: None,
        timeout_ms: None,
    }
}

fn ok_result(source: &str, latency_ms: u64, confidence: u32) -> SourceResult {
    SourceResult {
        source: source.to_string(),
        success: true,
        latency_ms,
        data: Some("{\"answer\":\"Paris\"}".to_string()),
        error: None,
        confidence,
        relevance: 900,
    }
}

#[test]
fn knowledge_query_selects_only_wikipedia() {
    let orch = Orchestrator::new(test_config());
    let q = query("capital of France", "knowledge", vec![]);
    let sel = orch.select_sources(&q);
    assert_eq!(sel.len(), 1);
    let names: Vec<String> = orch.list_sources();
    assert_eq!(
        names,
        vec!["google_search", "wikipedia", "weather_api", "openweather", "news_api"]
    );
}

#[test]
fn scenario_one_applicable_source_succeeds() {
    // One source succeeds in 50 ms with confidence 0.85; every other
    // registered source is inapplicable for the "knowledge" intent.
    let mut orch = Orchestrator::new(test_config());
    let q = query("capital of France", "knowledge", vec![]);
    let events = vec![FetchOutcome::Completed(ok_result("wikipedia", 50, 850))];
    let (resp, write) = orch.fetch_from_sources(&q, &SharedGetOutcome::Miss, &events, 0, 50);
    assert_eq!(resp.sources_queried, 1);
    assert_eq!(resp.sources_succeeded, 1);
    assert_eq!(resp.results.len(), 1);
    assert_eq!(resp.results[0].source, "wikipedia");
    assert!(resp.results[0].success);
    assert_eq!(resp.results[0].latency_ms, 50);
    assert_eq!(resp.results[0].confidence, 850);
    assert!(!resp.cache_hit);
    assert_eq!(resp.query_id.len(), 36);
    assert!(write.is_some());
}

#[test]
fn scenario_two_applicable_sources_one_times_out() {
    // Two applicable weather sources: one succeeds in 10 ms, one exceeds
    // its 500 ms deadline. Total latency is bounded by the slowest
    // deadline, not by the sum of the two.
    let mut orch = Orchestrator::new(test_config());
    let q = query("weather in Paris", "weather", vec![]);
    let events = vec![
        FetchOutcome::Completed(ok_result("weather_api", 10, 700)),
        FetchOutcome::TimedOut,
    ];
    let (resp, _) = orch.fetch_from_sources(&q, &SharedGetOutcome::Miss, &events, 0, 500);
    assert_eq!(resp.sources_queried, 2);
    assert_eq!(resp.sources_succeeded, 1);
    assert_eq!(resp.latency_ms, 500);
    let timed_out = &resp.results[1];
    assert!(!timed_out.success);
    assert_eq!(timed_out.source, "openweather");
    assert_eq!(timed_out.latency_ms, 500);
    let err = timed_out.error.clone().unwrap();
    assert!(err.contains("500"));
    assert_eq!(err, "Timeout after 500ms");
    // parallel, not serialized: the span is at least the slowest source
    // and well under the sum of a success plus a full deadline window
    assert!(resp.latency_ms >= 500 && resp.latency_ms < 10 + 500 + 500);
}

#[test]
fn second_identical_query_is_a_cache_hit() {
    let mut orch = Orchestrator::new(test_config());
    let q = query("capital of France", "knowledge", vec![]);
    let events = vec![FetchOutcome::Completed(ok_result("wikipedia", 50, 850))];
    let (first, write) = orch.fetch_from_sources(&q, &SharedGetOutcome::Miss, &events, 0, 50);
    assert!(write.is_some());
    assert!(!first.cache_hit);
    // identical query, no intervening invalidation: served from the local
    // tier with identical result content and the hit flag raised
    let (second, write2) =
        orch.fetch_from_sources(&q, &SharedGetOutcome::Miss, &Vec::new(), 1000, 0);
    assert!(second.cache_hit);
    assert!(write2.is_none());
    assert_eq!(second.query_id, first.query_id);
    assert_eq!(second.results.len(), first.results.len());
    assert_eq!(second.results[0].source, first.results[0].source);
    assert_eq!(second.results[0].latency_ms, first.results[0].latency_ms);
    assert_eq!(second.sources_succeeded, first.sources_succeeded);
}

#[test]
fn all_failed_response_is_not_cached() {
    let mut orch = Orchestrator::new(test_config());
    let q = query("weather in Paris", "weather", vec![]);
    let events = vec![
        FetchOutcome::Failed(AdapterError::Network("connection refused".to_string())),
        FetchOutcome::TimedOut,
    ];
    let (first, write) = orch.fetch_from_sources(&q, &SharedGetOutcome::Miss, &events, 0, 500);
    assert_eq!(first.sources_succeeded, 0);
    assert!(write.is_none());
    // the repeat triggers a fresh fan-out, not a cached failure
    let events2 = vec![
        FetchOutcome::Completed(ok_result("weather_api", 20, 600)),
        FetchOutcome::TimedOut,
    ];
    let (second, write2) = orch.fetch_from_sources(&q, &SharedGetOutcome::Miss, &events2, 10, 500);
    assert!(!second.cache_hit);
    assert_eq!(second.sources_succeeded, 1);
    assert!(write2.is_some());
}

#[test]
fn explicit_source_list_restricts_selection() {
    let orch = Orchestrator::new(test_config());
    let q = query("weather in Paris", "weather", vec!["openweather"]);
    let sel = orch.select_sources(&q);
    assert_eq!(sel.len(), 1);
    let q_all = query("weather in Paris", "weather", vec![]);
    assert_eq!(orch.select_sources(&q_all).len(), 2);
    let q_none = query("weather in Paris", "weather", vec!["no_such_source"]);
    assert_eq!(orch.select_sources(&q_none).len(), 0);
}

#[test]
fn settle_fetch_synthesizes_timeout_and_failure() {
    let name = "wikipedia".to_string();
    let timed_out = settle_fetch(&name, 500, &FetchOutcome::TimedOut);
    assert!(!timed_out.success);
    assert_eq!(timed_out.source, "wikipedia");
    assert_eq!(timed_out.latency_ms, 500);
    assert_eq!(timed_out.error, Some("Timeout after 500ms".to_string()));
    assert_eq!(timed_out.confidence, 0);

    let failed = settle_fetch(
        &name,
        500,
        &FetchOutcome::Failed(AdapterError::Api("HTTP 503".to_string())),
    );
    assert!(!failed.success);
    assert_eq!(failed.error, Some("API error: HTTP 503".to_string()));
    assert_eq!(failed.latency_ms, 500);

    let done = settle_fetch(&name, 500, &FetchOutcome::Completed(ok_result("wikipedia", 33, 850)));
    assert!(done.success);
    assert_eq!(done.latency_ms, 33);
}

#[test]
fn reduce_counts_match_results() {
    let results = vec![
        ok_result("wikipedia", 50, 850),
        settle_fetch(&"weather_api".to_string(), 500, &FetchOutcome::TimedOut),
        ok_result("news_api", 70, 400),
    ];
    let resp = reduce("id-123".to_string(), results, 505);
    assert_eq!(resp.sources_queried, 3);
    assert_eq!(resp.sources_succeeded, 2);
    assert_eq!(resp.results.len(), 3);
    assert_eq!(resp.latency_ms, 505);
    assert_eq!(resp.query_id, "id-123");
    assert!(!resp.cache_hit);
}

#[test]
fn adapter_error_messages() {
    assert_eq!(
        AdapterError::Network("dns".to_string()).message(),
        "Network error: dns"
    );
    assert_eq!(AdapterError::Api("HTTP 500".to_string()).message(), "API error: HTTP 500");
    assert_eq!(AdapterError::Timeout(0).message(), "Timeout after 0ms");
    assert_eq!(AdapterError::Timeout(12345).message(), "Timeout after 12345ms");
    assert_eq!(AdapterError::RateLimit.message(), "Rate limit exceeded");
    assert_eq!(AdapterError::Auth.message(), "Authentication failed");
    assert_eq!(AdapterError::Parse("bad json".to_string()).message(), "Parse error: bad json");
    assert_eq!(AdapterError::Unknown("what".to_string()).message(), "Unknown error: what");
}

#[test]
fn source_result_from_error() {
    let r = SourceResult::from_error(&AdapterError::RateLimit);
    assert_eq!(r.source, "unknown");
    assert!(!r.success);
    assert_eq!(r.latency_ms, 0);
    assert_eq!(r.data, None);
    assert_eq!(r.error, Some("Rate limit exceeded".to_string()));
    assert_eq!(r.confidence, 0);
    assert_eq!(r.relevance, 0);
}
