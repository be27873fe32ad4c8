use launch_structure_verifier::checks::{
    check_freeze_authority_disabled, check_holder_concentration, check_mint_authority_disabled,
    check_ownership_renounced, check_standard_sanity, check_token_age, concentration_score,
};
use launch_structure_verifier::types::{
    AgeBand, AuthorityInfo, CheckStatus, CreationInfo, HolderInfo, Metadata, Severity, TokenFacts,
    TokenStandard,
};

fn empty_facts() -> TokenFacts {
    TokenFacts { metadata: None, supply: None, authorities: None, holders: None, creation: None }
}

#[test]
fn test_mint_authority_disabled_pass() {
    let facts = TokenFacts {
        authorities: Some(AuthorityInfo {
            mint_authority: None,
            freeze_authority: None,
            owner: None,
            mint_mutable: Some(false),
        }),
        ..empty_facts()
    };

    let result = check_mint_authority_disabled(&facts);

    assert!(matches!(result.status, CheckStatus::Pass));
    assert_eq!(result.score_component, Some(100));
    assert!(matches!(result.severity, Severity::Critical));
}

#[test]
fn test_mint_authority_exists_fail() {
    let facts = TokenFacts {
        authorities: Some(AuthorityInfo {
            mint_authority: Some("SomeKey123".to_string()),
            freeze_authority: None,
            owner: None,
            mint_mutable: Some(true),
        }),
        ..empty_facts()
    };

    let result = check_mint_authority_disabled(&facts);

    assert!(matches!(result.status, CheckStatus::Fail));
    assert_eq!(result.score_component, Some(0));
    assert!(matches!(result.severity, Severity::Critical));
}

#[test]
fn test_mint_authority_unknown() {
    let facts = empty_facts();

    let result = check_mint_authority_disabled(&facts);

    assert!(matches!(result.status, CheckStatus::Unknown));
    assert_eq!(result.score_component, None);
}

#[test]
fn test_freeze_authority_disabled_pass() {
    let facts = TokenFacts {
        authorities: Some(AuthorityInfo {
            mint_authority: None,
            freeze_authority: None,
            owner: None,
            mint_mutable: Some(false),
        }),
        ..empty_facts()
    };

    let result = check_freeze_authority_disabled(&facts);

    assert!(matches!(result.status, CheckStatus::Pass));
    assert_eq!(result.score_component, Some(100));
    assert!(matches!(result.severity, Severity::High));
}

#[test]
fn test_freeze_authority_exists_fail() {
    let facts = TokenFacts {
        authorities: Some(AuthorityInfo {
            mint_authority: None,
            freeze_authority: Some("SomeKey123".to_string()),
            owner: None,
            mint_mutable: Some(false),
        }),
        ..empty_facts()
    };

    let result = check_freeze_authority_disabled(&facts);

    assert!(matches!(result.status, CheckStatus::Fail));
    assert_eq!(result.score_component, Some(0));
}

#[test]
fn test_excellent_distribution() {
    let facts = TokenFacts {
        holders: Some(HolderInfo {
            top1_bp: Some(850),
            top5_bp: Some(2800),
            top_holders: vec![],
        }),
        ..empty_facts()
    };

    let result = check_holder_concentration(&facts);

    assert!(matches!(result.status, CheckStatus::Pass));
    assert!(result.score_component.unwrap() >= 95);
}

#[test]
fn test_high_concentration_fragile() {
    let facts = TokenFacts {
        holders: Some(HolderInfo {
            top1_bp: Some(6200),
            top5_bp: Some(8800),
            top_holders: vec![],
        }),
        ..empty_facts()
    };

    let result = check_holder_concentration(&facts);

    assert!(matches!(result.status, CheckStatus::Fail));
    assert!(matches!(result.severity, Severity::High));
    assert!(result.score_component.unwrap() < 30);
}

#[test]
fn test_concentration_exact_value() {
    // 62.0% / 88.0%: sub-scores 6.67 and 2.5, mean 4.58, rounded to 5
    assert_eq!(concentration_score(6200, 8800), 5);
    // boundary values of the curves
    assert_eq!(concentration_score(1000, 3000), 100);
    assert_eq!(concentration_score(2000, 5000), 60);
    assert_eq!(concentration_score(7000, 9000), 0);
}

#[test]
fn test_concentration_monotone_and_clamped() {
    let mut last = concentration_score(0, 0);
    assert_eq!(last, 100);
    let mut bp = 0u32;
    while bp <= 10000 {
        let s = concentration_score(bp, bp);
        assert!(s <= last, "score must not increase with concentration");
        assert!(s <= 100);
        last = s;
        bp += 250;
    }
    assert_eq!(concentration_score(10000, 10000), 0);
}

#[test]
fn test_ownership_renounced_zero_address() {
    let facts = TokenFacts {
        authorities: Some(AuthorityInfo {
            mint_authority: None,
            freeze_authority: None,
            owner: None,
            mint_mutable: Some(false),
        }),
        ..empty_facts()
    };

    let result = check_ownership_renounced(&facts);
    assert_eq!(result.status, CheckStatus::Pass);
    assert_eq!(result.score_component, Some(100));
}

#[test]
fn test_ownership_renounced_burn_address() {
    let facts = TokenFacts {
        authorities: Some(AuthorityInfo {
            mint_authority: None,
            freeze_authority: None,
            owner: None,
            mint_mutable: Some(false),
        }),
        ..empty_facts()
    };

    let result = check_ownership_renounced(&facts);
    assert_eq!(result.status, CheckStatus::Pass);
}

#[test]
fn test_ownership_not_renounced() {
    let facts = TokenFacts {
        authorities: Some(AuthorityInfo {
            mint_authority: None,
            freeze_authority: None,
            owner: Some("0x1234567890123456789012345678901234567890".to_string()),
            mint_mutable: Some(true),
        }),
        ..empty_facts()
    };

    let result = check_ownership_renounced(&facts);
    assert_eq!(result.status, CheckStatus::Fail);
    assert_eq!(result.score_component, Some(0));
    assert_eq!(result.severity, Severity::Critical);
}

#[test]
fn test_solana_spl_token_pass() {
    let facts = TokenFacts {
        metadata: Some(Metadata {
            name: Some("Test".to_string()),
            symbol: Some("TEST".to_string()),
            decimals: Some(9),
            standard: TokenStandard::SplToken,
        }),
        ..empty_facts()
    };

    let result = check_standard_sanity(&facts, &"solana".to_string());

    assert!(matches!(result.status, CheckStatus::Pass));
    assert_eq!(result.score_component, Some(100));
}

#[test]
fn test_evm_erc20_pass() {
    let facts = TokenFacts {
        metadata: Some(Metadata {
            name: Some("Test".to_string()),
            symbol: Some("TEST".to_string()),
            decimals: Some(18),
            standard: TokenStandard::Erc20,
        }),
        ..empty_facts()
    };

    let result = check_standard_sanity(&facts, &"evm".to_string());

    assert!(matches!(result.status, CheckStatus::Pass));
    assert_eq!(result.score_component, Some(100));
}

#[test]
fn test_unknown_standard_fail() {
    let facts = TokenFacts {
        metadata: Some(Metadata {
            name: Some("Test".to_string()),
            symbol: Some("TEST".to_string()),
            decimals: None,
            standard: TokenStandard::Unknown,
        }),
        ..empty_facts()
    };

    let result = check_standard_sanity(&facts, &"solana".to_string());

    assert!(matches!(result.status, CheckStatus::Fail));
    assert_eq!(result.score_component, Some(0));
    assert!(matches!(result.severity, Severity::High));
}

#[test]
fn test_token_age_mature() {
    let facts = TokenFacts {
        creation: Some(CreationInfo {
            created_at: Some("2026-01-20T00:00:00Z".to_string()),
            age_seconds: Some(864000),
            age_band: AgeBand::GreaterThan7d,
        }),
        ..empty_facts()
    };

    let result = check_token_age(&facts);

    assert!(matches!(result.status, CheckStatus::Pass));
    assert_eq!(result.score_component, Some(100));
}

#[test]
fn test_token_age_early() {
    let facts = TokenFacts {
        creation: Some(CreationInfo {
            created_at: Some("2026-01-27T00:00:00Z".to_string()),
            age_seconds: Some(259200),
            age_band: AgeBand::Day1To7,
        }),
        ..empty_facts()
    };

    let result = check_token_age(&facts);

    assert!(matches!(result.status, CheckStatus::Pass));
    assert_eq!(result.score_component, Some(70));
}

#[test]
fn test_token_age_very_new() {
    let facts = TokenFacts {
        creation: Some(CreationInfo {
            created_at: Some("2026-01-31T10:00:00Z".to_string()),
            age_seconds: Some(3600),
            age_band: AgeBand::LessThan24h,
        }),
        ..empty_facts()
    };

    let result = check_token_age(&facts);

    assert!(matches!(result.status, CheckStatus::Pass));
    assert_eq!(result.score_component, Some(40));
}

#[test]
fn test_token_age_unknown_band() {
    let facts = TokenFacts {
        creation: Some(CreationInfo {
            created_at: None,
            age_seconds: None,
            age_band: AgeBand::Unknown,
        }),
        ..empty_facts()
    };

    let result = check_token_age(&facts);

    assert!(matches!(result.status, CheckStatus::Unknown));
    assert_eq!(result.score_component, None);
}
