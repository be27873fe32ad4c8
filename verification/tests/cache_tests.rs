use launch_structure_verifier::analysis::{AnalysisStatus, AnalyzeResponse};
use launch_structure_verifier::cache::{ttl_for_response, SimpleCache};
use launch_structure_verifier::explain::{ExplainSection, InterpretationSection};
use launch_structure_verifier::scoring::ScoreResult;
use launch_structure_verifier::types::Grade;

fn make_test_response() -> AnalyzeResponse {
    AnalyzeResponse {
        schema_version: "1.0.0".to_string(),
        analysis_id: "test123".to_string(),
        requested_at: "2026-01-31T12:00:00Z".to_string(),
        chain: "solana".to_string(),
        address: "test_address".to_string(),
        status: AnalysisStatus::Complete,
        token: None,
        checks: vec![],
        score: ScoreResult {
            model: "weighted_sum_v1".to_string(),
            fairness_score: Some(100),
            grade: Grade::Strong,
            components: vec![],
            weights_total: 100,
            notes: vec![],
        },
        explain: ExplainSection {
            summary: "Test".to_string(),
            method: vec![],
            interpretation: InterpretationSection { what_to_do: vec![] },
        },
        errors: vec![],
    }
}

#[test]
fn test_cache_set_and_get() {
    let mut cache = SimpleCache::new();
    let response = make_test_response();
    let now = 1000u64;

    cache.set("test_key".to_string(), response.clone(), 3600, now);

    let cached = cache.get(&"test_key".to_string(), now);
    assert!(cached.is_some());

    let cached_response = cached.unwrap();
    assert_eq!(cached_response.analysis_id, "test123");
}

#[test]
fn test_cache_expiration() {
    let mut cache = SimpleCache::new();
    let response = make_test_response();
    let now = 1000u64;

    // Set with 0 second TTL (immediately expired)
    cache.set("test_key".to_string(), response, 0, now);

    // Should not retrieve expired entry
    let cached = cache.get(&"test_key".to_string(), now);
    assert!(cached.is_none());
}

#[test]
fn test_cache_remove() {
    let mut cache = SimpleCache::new();
    let response = make_test_response();
    let now = 1000u64;

    cache.set("test_key".to_string(), response, 3600, now);
    assert!(cache.get(&"test_key".to_string(), now).is_some());

    let removed = cache.remove(&"test_key".to_string());
    assert!(removed);
    assert!(cache.get(&"test_key".to_string(), now).is_none());
}

#[test]
fn test_cache_clear() {
    let mut cache = SimpleCache::new();
    let response = make_test_response();
    let now = 1000u64;

    cache.set("key1".to_string(), response.clone(), 3600, now);
    cache.set("key2".to_string(), response, 3600, now);

    assert_eq!(cache.size(), 2);

    cache.clear();
    assert_eq!(cache.size(), 0);
}

#[test]
fn test_cache_cleanup() {
    let mut cache = SimpleCache::new();
    let response = make_test_response();
    let now = 1000u64;

    // Add expired entry
    cache.set("expired".to_string(), response.clone(), 0, now);

    // Add valid entry
    cache.set("valid".to_string(), response, 3600, now);

    assert_eq!(cache.size(), 2);

    cache.cleanup(now);

    // Only valid entry should remain
    assert_eq!(cache.size(), 1);
    assert!(cache.get(&"valid".to_string(), now).is_some());
    assert!(cache.get(&"expired".to_string(), now).is_none());
}

#[test]
fn test_cache_overwrite_keeps_one_entry() {
    let mut cache = SimpleCache::new();
    let now = 1000u64;

    cache.set("key".to_string(), make_test_response(), 3600, now);
    cache.set("key".to_string(), make_test_response(), 3600, now + 5);

    assert_eq!(cache.size(), 1);
}

#[test]
fn test_cache_served_response_marker() {
    let mut cache = SimpleCache::new();
    let now = 1234u64;

    cache.set("key".to_string(), make_test_response(), 3600, now);
    let served = cache.get(&"key".to_string(), now + 10).unwrap();

    assert_eq!(served.requested_at, "cached_1234");
    assert_eq!(served.analysis_id, "test123");
}

#[test]
fn test_ttl_for_response_bands() {
    let mut response = make_test_response();
    assert_eq!(ttl_for_response(&response), 1800, "no token metadata");

    let mut token = launch_structure_verifier::analysis::TokenMetadata {
        name: None,
        symbol: None,
        decimals: None,
        total_supply: None,
        program_standard: "SplToken".to_string(),
        created_at: None,
        age_seconds: None,
        age_band: "LessThan24h".to_string(),
    };
    response.token = Some(token.clone());
    assert_eq!(ttl_for_response(&response), 600);

    token.age_band = "Day1To7".to_string();
    response.token = Some(token.clone());
    assert_eq!(ttl_for_response(&response), 3600);

    token.age_band = "GreaterThan7d".to_string();
    response.token = Some(token.clone());
    assert_eq!(ttl_for_response(&response), 3600);

    token.age_band = "Unknown".to_string();
    response.token = Some(token);
    assert_eq!(ttl_for_response(&response), 1800);
}
