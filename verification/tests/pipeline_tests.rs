use launch_structure_verifier::analysis::{
    analyze_gathered, gather_facts, AnalysisStatus, AnalyzeOptions, AnalyzeRequest, FetchOutcomes,
};
use launch_structure_verifier::cache::{make_cache_key, ttl_for_response, SimpleCache};
use launch_structure_verifier::providers::ProviderError;
use launch_structure_verifier::types::{
    AgeBand, AuthorityInfo, CheckStatus, CreationInfo, Grade, HolderInfo, Metadata, SupplyInfo,
    TokenStandard,
};
use launch_structure_verifier::textfmt::{format_analysis_id, format_timestamp, u64_to_string};

fn fair_outcomes() -> FetchOutcomes {
    FetchOutcomes {
        metadata: Ok(Metadata {
            name: Some("FairToken".to_string()),
            symbol: Some("FAIR".to_string()),
            decimals: Some(9),
            standard: TokenStandard::SplToken,
        }),
        supply: Ok(SupplyInfo {
            total_supply_raw: Some("1000000000000000".to_string()),
            total_supply: Some(1000000),
        }),
        authorities: Ok(AuthorityInfo {
            mint_authority: None,
            freeze_authority: None,
            owner: None,
            mint_mutable: Some(false),
        }),
        holders: Some(Ok(HolderInfo {
            top1_bp: Some(850),
            top5_bp: Some(2800),
            top_holders: vec![],
        })),
        creation: Ok(CreationInfo {
            created_at: Some("2026-01-20T00:00:00Z".to_string()),
            age_seconds: Some(864000),
            age_band: AgeBand::GreaterThan7d,
        }),
    }
}

fn solana_request(address: &str) -> AnalyzeRequest {
    AnalyzeRequest {
        chain: "solana".to_string(),
        address: address.to_string(),
        options: AnalyzeOptions::default(),
    }
}

#[test]
fn test_analyze_fair_launch_solana() {
    let request = solana_request("test_address");

    let response = analyze_gathered(&request, fair_outcomes(), 1000, 1);

    assert_eq!(response.status, AnalysisStatus::Complete);
    assert!(matches!(response.score.grade, Grade::Strong));
    assert!(response.score.fairness_score.unwrap() >= 95);
    assert_eq!(response.errors.len(), 0);
    assert_eq!(response.chain, "solana");
    assert_eq!(response.address, "test_address");
    assert_eq!(response.schema_version, "1.0.0");
}

#[test]
fn test_analyze_mint_authority_exists() {
    let mut outcomes = fair_outcomes();
    outcomes.authorities = Ok(AuthorityInfo {
        mint_authority: Some("BadAuthority".to_string()),
        freeze_authority: None,
        owner: None,
        mint_mutable: Some(true),
    });
    outcomes.holders = Some(Ok(HolderInfo {
        top1_bp: Some(500),
        top5_bp: Some(2000),
        top_holders: vec![],
    }));
    let request = solana_request("bad_token");

    let response = analyze_gathered(&request, outcomes, 1000, 1);

    // Grade must be Compromised due to critical failure
    assert!(matches!(response.score.grade, Grade::Compromised));
    assert!(response
        .explain
        .interpretation
        .what_to_do
        .iter()
        .any(|s| s.contains("Mint authority exists")));
}

#[test]
fn test_analyze_partial_data() {
    let mut outcomes = fair_outcomes();
    outcomes.supply = Err(ProviderError::NotFound);
    outcomes.holders = Some(Err(ProviderError::NotFound));
    outcomes.creation = Err(ProviderError::NotFound);
    let request = solana_request("partial_token");

    let response = analyze_gathered(&request, outcomes, 1000, 1);

    assert_eq!(response.status, AnalysisStatus::Partial);
    assert!(response.errors.len() > 0);

    // Some checks should be unknown
    let unknown_count = response
        .checks
        .iter()
        .filter(|c| matches!(c.status, CheckStatus::Unknown))
        .count();
    assert!(unknown_count > 0);
}

#[test]
fn test_partial_scenario_excludes_unknown_weights() {
    // supply, holders and creation absent; metadata and authorities present
    let mut outcomes = fair_outcomes();
    outcomes.supply = Err(ProviderError::Timeout);
    outcomes.holders = Some(Err(ProviderError::Timeout));
    outcomes.creation = Err(ProviderError::Timeout);
    let request = solana_request("partial_token");

    let response = analyze_gathered(&request, outcomes, 1000, 1);

    assert_eq!(response.status, AnalysisStatus::Partial);

    let holder_check = response.checks.iter().find(|c| c.id == "holder_concentration").unwrap();
    assert!(matches!(holder_check.status, CheckStatus::Unknown));
    let age_check = response.checks.iter().find(|c| c.id == "token_age").unwrap();
    assert!(matches!(age_check.status, CheckStatus::Unknown));

    // base 85 minus holder-concentration 20 minus token-age 10
    assert_eq!(response.score.weights_total, 55);
}

#[test]
fn test_cache_hit() {
    let request = solana_request("test_token");
    let mut cache = SimpleCache::new();
    let now = 100u64;

    // First call - cache miss
    let cache_key = make_cache_key(&request);
    assert!(cache.get(&cache_key, now).is_none());
    let response1 = analyze_gathered(&request, fair_outcomes(), 1000, 1);
    let analysis_id1 = response1.analysis_id.clone();
    let ttl = ttl_for_response(&response1);
    cache.set(cache_key.clone(), response1, ttl, now);

    // Second call - should hit cache
    let response2 = cache.get(&cache_key, now + 10).unwrap();
    let analysis_id2 = response2.analysis_id.clone();

    // Should return same analysis (from cache)
    assert_eq!(analysis_id1, analysis_id2);
    assert_eq!(cache.size(), 1);
}

#[test]
fn test_force_refresh_bypasses_cache() {
    let request = solana_request("test_token");
    let mut cache = SimpleCache::new();
    let now = 100u64;

    // First call
    let cache_key = make_cache_key(&request);
    let response1 = analyze_gathered(&request, fair_outcomes(), 1000, 1);
    let id1 = response1.analysis_id.clone();
    let ttl = ttl_for_response(&response1);
    cache.set(cache_key.clone(), response1, ttl, now);

    // Second call with force_refresh: the read path is skipped, a fresh
    // analysis happens, and the cache is rewritten
    let response2 = analyze_gathered(&request, fair_outcomes(), 2000, 2);
    let id2 = response2.analysis_id.clone();
    let ttl2 = ttl_for_response(&response2);
    cache.set(cache_key, response2, ttl2, now + 1);

    // Should have different analysis IDs (fresh analysis)
    assert_ne!(id1, id2);
}

#[test]
fn test_cache_expiry_forces_new_fetch() {
    let request = solana_request("test_token");
    let mut cache = SimpleCache::new();
    let now = 100u64;

    let cache_key = make_cache_key(&request);
    let response1 = analyze_gathered(&request, fair_outcomes(), 1000, 1);
    let id1 = response1.analysis_id.clone();
    let ttl = ttl_for_response(&response1);
    cache.set(cache_key.clone(), response1, ttl, now);

    // Before expiry: same analysis id comes back
    let before = cache.get(&cache_key, now + ttl - 1).unwrap();
    assert_eq!(before.analysis_id, id1);

    // After expiry: miss, so a fresh analysis with a new id is made
    assert!(cache.get(&cache_key, now + ttl).is_none());
    let response2 = analyze_gathered(&request, fair_outcomes(), 9999, 3);
    assert_ne!(response2.analysis_id, id1);
}

#[test]
fn test_gather_facts_error_messages() {
    let outcomes = FetchOutcomes {
        metadata: Err(ProviderError::Timeout),
        supply: Err(ProviderError::InvalidResponse),
        authorities: Err(ProviderError::NetworkError("boom".to_string())),
        holders: Some(Err(ProviderError::NotFound)),
        creation: Err(ProviderError::Timeout),
    };

    let (facts, errors) = gather_facts(outcomes);

    assert!(facts.metadata.is_none());
    assert!(facts.supply.is_none());
    assert!(facts.authorities.is_none());
    assert!(facts.holders.is_none());
    assert!(facts.creation.is_none());

    assert_eq!(
        errors,
        vec![
            "Failed to fetch metadata: Timeout".to_string(),
            "Failed to fetch supply: InvalidResponse".to_string(),
            "Failed to fetch authorities: NetworkError(\"boom\")".to_string(),
            "Failed to fetch holders: NotFound".to_string(),
            "Failed to fetch creation time: Timeout".to_string(),
        ]
    );
}

#[test]
fn test_analyze_all_failed_is_error_status() {
    let outcomes = FetchOutcomes {
        metadata: Err(ProviderError::Timeout),
        supply: Err(ProviderError::Timeout),
        authorities: Err(ProviderError::Timeout),
        holders: Some(Err(ProviderError::Timeout)),
        creation: Err(ProviderError::Timeout),
    };
    let request = solana_request("dead_token");

    let response = analyze_gathered(&request, outcomes, 1000, 1);

    assert_eq!(response.status, AnalysisStatus::Error);
    assert_eq!(response.score.fairness_score, None);
    assert!(matches!(response.score.grade, Grade::Compromised));
    assert!(response.token.is_none());
}

#[test]
fn test_skipped_holders_is_not_an_error() {
    let mut outcomes = fair_outcomes();
    outcomes.holders = None; // include_holders = false: fetch skipped entirely
    let request = solana_request("no_holders");

    let response = analyze_gathered(&request, outcomes, 1000, 1);

    assert_eq!(response.status, AnalysisStatus::Complete);
    let holder_check = response.checks.iter().find(|c| c.id == "holder_concentration").unwrap();
    assert!(matches!(holder_check.status, CheckStatus::Unknown));
}

#[test]
fn test_unrecognized_chain_minimal_checks() {
    let request = AnalyzeRequest {
        chain: "near".to_string(),
        address: "x".to_string(),
        options: AnalyzeOptions::default(),
    };

    let response = analyze_gathered(&request, fair_outcomes(), 1000, 1);

    assert_eq!(response.checks.len(), 2);
    assert_eq!(response.checks[0].id, "holder_concentration");
    assert_eq!(response.checks[1].id, "token_age");
}

#[test]
fn test_explanation_fairly_launched_message() {
    let request = solana_request("good");
    let response = analyze_gathered(&request, fair_outcomes(), 1000, 1);
    assert_eq!(
        response.explain.interpretation.what_to_do,
        vec!["All structural checks passed. Token appears fairly launched.".to_string()]
    );
    assert_eq!(response.explain.summary, "Structure looks sound. No major weaknesses detected.");
}

#[test]
fn test_explanation_generic_failure_message() {
    // A failure with no specific rule: standard sanity fails at Medium severity
    let mut outcomes = fair_outcomes();
    outcomes.metadata = Ok(Metadata {
        name: Some("Odd".to_string()),
        symbol: Some("ODD".to_string()),
        decimals: Some(9),
        standard: TokenStandard::Erc20,
    });
    let request = solana_request("odd_token");

    let response = analyze_gathered(&request, outcomes, 1000, 1);

    let std_check = response.checks.iter().find(|c| c.id == "standard_sanity").unwrap();
    assert!(matches!(std_check.status, CheckStatus::Fail));
    assert_eq!(
        response.explain.interpretation.what_to_do,
        vec!["Some structural checks failed. Review details above.".to_string()]
    );
}

#[test]
fn test_explanation_freeze_and_concentration_bullets() {
    let mut outcomes = fair_outcomes();
    outcomes.authorities = Ok(AuthorityInfo {
        mint_authority: None,
        freeze_authority: Some("Freezer".to_string()),
        owner: None,
        mint_mutable: Some(false),
    });
    outcomes.holders = Some(Ok(HolderInfo {
        top1_bp: Some(6200),
        top5_bp: Some(8800),
        top_holders: vec![],
    }));
    let request = solana_request("frozen");

    let response = analyze_gathered(&request, outcomes, 1000, 1);

    assert_eq!(
        response.explain.interpretation.what_to_do,
        vec![
            "Freeze authority exists: token balances can be frozen.".to_string(),
            "High holder concentration increases structural fragility.".to_string(),
        ]
    );
}

#[test]
fn test_id_and_timestamp_formatting() {
    assert_eq!(format_analysis_id(1706700000123), "analysis_1706700000123");
    assert_eq!(format_timestamp(0), "2026-01-31T00:00:00Z");
    assert_eq!(format_timestamp(3700), "2026-01-31T01:01:40Z");
    assert_eq!(u64_to_string(0), "0");
    assert_eq!(u64_to_string(10050), "10050");
}

#[test]
fn test_cache_key_format() {
    let request = solana_request("So1ana111");
    assert_eq!(make_cache_key(&request), "solana:So1ana111:true:10");

    let request2 = AnalyzeRequest {
        chain: "base".to_string(),
        address: "0xabc".to_string(),
        options: AnalyzeOptions { include_holders: false, max_holders: 25, force_refresh: true },
    };
    assert_eq!(make_cache_key(&request2), "base:0xabc:false:25");
}
