use universal_connector::cache::{SharedGetOutcome, Cache};
use universal_connector::codec::{decode_response, encode_response};
use universal_connector::models::{QueryResponse, SourceResult};

fn sample_response(query_id: &str, cache_hit: bool) -> QueryResponse {
    QueryResponse {
        query_id: query_id.to_string(),
        results: vec![
            SourceResult {
                source: "wikipedia".to_string(),
                success: true,
                latency_ms: 42,
                data: Some("{\"title\":\"Paris\"}".to_string()),
                error: None,
                confidence: 850,
                relevance: 900,
            },
            SourceResult {
                source: "weather_api".to_string(),
                success: false,
                latency_ms: 500,
                data: None,
                error: Some("Timeout after 500ms".to_string()),
                confidence: 0,
                relevance: 0,
            },
        ],
        latency_ms: 500,
        sources_queried: 2,
        sources_succeeded: 1,
        cache_hit,
    }
}

fn assert_responses_equal(a: &QueryResponse, b: &QueryResponse) {
    assert_eq!(a.query_id, b.query_id);
    assert_eq!(a.latency_ms, b.latency_ms);
    assert_eq!(a.sources_queried, b.sources_queried);
    assert_eq!(a.sources_succeeded, b.sources_succeeded);
    assert_eq!(a.cache_hit, b.cache_hit);
    assert_eq!(a.results.len(), b.results.len());
    for (x, y) in a.results.iter().zip(b.results.iter()) {
        assert_eq!(x.source, y.source);
        assert_eq!(x.success, y.success);
        assert_eq!(x.latency_ms, y.latency_ms);
        assert_eq!(x.data, y.data);
        assert_eq!(x.error, y.error);
        assert_eq!(x.confidence, y.confidence);
        assert_eq!(x.relevance, y.relevance);
    }
}

#[test]
fn codec_round_trip() {
    let resp = sample_response("4a1e7cf2-0000-4000-8000-123456789abc", false);
    let encoded = encode_response(&resp);
    let decoded = decode_response(encoded.as_str()).expect("an encoded response decodes");
    assert_responses_equal(&resp, &decoded);
}

#[test]
fn codec_round_trip_empty_results() {
    let resp = QueryResponse {
        query_id: String::new(),
        results: Vec::new(),
        latency_ms: 0,
        sources_queried: 0,
        sources_succeeded: 0,
        cache_hit: true,
    };
    let encoded = encode_response(&resp);
    let decoded = decode_response(encoded.as_str()).expect("an encoded response decodes");
    assert_responses_equal(&resp, &decoded);
}

#[test]
fn codec_rejects_garbage() {
    assert!(decode_response("").is_none());
    assert!(decode_response("not a payload").is_none());
    let resp = sample_response("x", false);
    let mut truncated = encode_response(&resp);
    truncated.pop();
    assert!(decode_response(truncated.as_str()).is_none());
}

#[test]
fn shared_round_trip_across_instances() {
    // One instance writes through its cache; a second instance, with its
    // own empty local tier, reads the shared payload back.
    let mut first = Cache::new(16, 300, 3600);
    let key = "capital of France".to_string();
    let resp = sample_response("id-1", false);
    let write = first.set(&key, &resp, 300, 0);
    assert_eq!(write.key, "query:capital of France");
    assert_eq!(write.ttl_secs, 300);

    let mut second = Cache::new(16, 300, 3600);
    assert!(second.get_local(&key, 0).is_none());
    let got = second
        .absorb_shared(&key, &SharedGetOutcome::Hit(write.payload), 0)
        .expect("a stored payload decodes");
    assert_responses_equal(&resp, &got);
    // promotion: the second instance now answers locally
    let local = second.get_local(&key, 1).expect("promoted entry serves locally");
    assert_responses_equal(&resp, &local);
}

#[test]
fn shared_miss_and_error_behave_as_miss() {
    let mut cache = Cache::new(16, 300, 3600);
    let key = "k".to_string();
    assert!(cache.absorb_shared(&key, &SharedGetOutcome::Miss, 0).is_none());
    assert!(
        cache
            .absorb_shared(&key, &SharedGetOutcome::Error("connection reset".to_string()), 0)
            .is_none()
    );
    assert!(
        cache
            .absorb_shared(&key, &SharedGetOutcome::Hit("corrupt".to_string()), 0)
            .is_none()
    );
    assert!(cache.get_local(&key, 0).is_none());
}

#[test]
fn local_entry_expires_after_ttl() {
    let mut cache = Cache::new(16, 300, 3600);
    let key = "k".to_string();
    let resp = sample_response("id-2", false);
    cache.set(&key, &resp, 300, 0);
    assert!(cache.get_local(&key, 299_999).is_some());
    assert!(cache.get_local(&key, 300_000).is_none());
}

#[test]
fn invalidate_removes_from_local_tier() {
    let mut cache = Cache::new(16, 300, 3600);
    let key = "k".to_string();
    let resp = sample_response("id-3", false);
    cache.set(&key, &resp, 300, 0);
    assert!(cache.get_local(&key, 1).is_some());
    let shared = cache.invalidate(&key);
    assert_eq!(shared, "query:k");
    assert!(cache.get_local(&key, 1).is_none());
}

#[test]
fn local_tier_evicts_oldest_when_full() {
    let mut cache = Cache::new(2, 300, 3600);
    let a = "a".to_string();
    let b = "b".to_string();
    let c = "c".to_string();
    let resp = sample_response("id-4", false);
    cache.set(&a, &resp, 300, 0);
    cache.set(&b, &resp, 300, 0);
    cache.set(&c, &resp, 300, 0);
    assert!(cache.get_local(&a, 1).is_none());
    assert!(cache.get_local(&b, 1).is_some());
    assert!(cache.get_local(&c, 1).is_some());
}

#[test]
fn writing_a_key_again_overwrites_the_entry() {
    let mut cache = Cache::new(16, 300, 3600);
    let key = "k".to_string();
    let older = sample_response("id-old", false);
    let newer = sample_response("id-new", false);
    cache.set(&key, &older, 300, 0);
    cache.set(&key, &newer, 300, 50);
    let got = cache.get_local(&key, 100).expect("the key is cached");
    assert_eq!(got.query_id, "id-new");
}

#[test]
fn promotion_overwrites_an_expired_local_entry() {
    let mut cache = Cache::new(16, 300, 3600);
    let key = "k".to_string();
    let older = sample_response("id-old", false);
    cache.set(&key, &older, 300, 0);
    // the local entry has expired, but the shared tier still has a copy
    assert!(cache.get_local(&key, 400_000).is_none());
    let payload = encode_response(&sample_response("id-shared", false));
    let got = cache
        .absorb_shared(&key, &SharedGetOutcome::Hit(payload), 400_000)
        .expect("the shared copy decodes");
    assert_eq!(got.query_id, "id-shared");
    assert_eq!(
        cache.get_local(&key, 400_001).expect("rehydrated").query_id,
        "id-shared"
    );
}
