use launch_structure_verifier::scoring::aggregate_score;
use launch_structure_verifier::types::{
    CheckResult, CheckStatus, DocValue, Grade, Severity,
};

fn make_check(
    id: &str,
    status: CheckStatus,
    severity: Severity,
    weight: u8,
    score_component: Option<u8>,
) -> CheckResult {
    CheckResult {
        id: id.to_string(),
        label: id.to_string(),
        category: "test".to_string(),
        status,
        severity,
        value: DocValue::Null,
        evidence: vec![],
        weight,
        score_component,
    }
}

#[test]
fn test_all_pass_strong_grade() {
    let checks = vec![
        make_check("check1", CheckStatus::Pass, Severity::Critical, 25, Some(100)),
        make_check("check2", CheckStatus::Pass, Severity::High, 20, Some(100)),
        make_check("check3", CheckStatus::Pass, Severity::Medium, 20, Some(100)),
    ];

    let result = aggregate_score(&checks);

    assert_eq!(result.fairness_score, Some(100));
    assert!(matches!(result.grade, Grade::Strong));
    assert_eq!(result.weights_total, 65);
}

#[test]
fn test_critical_override_forces_compromised() {
    let checks = vec![
        make_check("mint_authority", CheckStatus::Fail, Severity::Critical, 25, Some(0)),
        make_check("check2", CheckStatus::Pass, Severity::High, 20, Some(100)),
        make_check("check3", CheckStatus::Pass, Severity::Medium, 20, Some(100)),
        make_check("check4", CheckStatus::Pass, Severity::Low, 10, Some(100)),
    ];

    let result = aggregate_score(&checks);

    // (0*25 + 100*20 + 100*20 + 100*10) / 75 = 66.67, rounded to 67
    let expected_score: u8 = 67;
    assert_eq!(result.fairness_score, Some(expected_score));
    assert!(matches!(result.grade, Grade::Compromised));
}

#[test]
fn test_unknown_excludes_weight() {
    let checks = vec![
        make_check("check1", CheckStatus::Pass, Severity::Critical, 25, Some(100)),
        make_check("check2", CheckStatus::Unknown, Severity::High, 20, None),
        make_check("check3", CheckStatus::Pass, Severity::Medium, 20, Some(80)),
    ];

    let result = aggregate_score(&checks);

    assert_eq!(result.weights_total, 45);
    assert_eq!(result.fairness_score, Some(91));
    assert!(matches!(result.grade, Grade::Strong));

    let unknown_component = result.components.iter().find(|c| c.id == "check2").unwrap();
    assert_eq!(unknown_component.weighted_points, None);
}

#[test]
fn test_all_unknown_compromised() {
    let checks = vec![
        make_check("check1", CheckStatus::Unknown, Severity::Critical, 25, None),
        make_check("check2", CheckStatus::Unknown, Severity::High, 20, None),
    ];

    let result = aggregate_score(&checks);

    assert_eq!(result.fairness_score, None);
    assert_eq!(result.weights_total, 0);
    assert!(matches!(result.grade, Grade::Compromised));
}

#[test]
fn test_grade_thresholds() {
    let checks_strong = vec![
        make_check("check1", CheckStatus::Pass, Severity::Medium, 50, Some(80)),
    ];
    let result = aggregate_score(&checks_strong);
    assert!(matches!(result.grade, Grade::Strong));

    let checks_mixed = vec![
        make_check("check1", CheckStatus::Pass, Severity::Medium, 50, Some(70)),
    ];
    let result = aggregate_score(&checks_mixed);
    assert!(matches!(result.grade, Grade::Mixed));

    let checks_fragile = vec![
        make_check("check1", CheckStatus::Pass, Severity::Medium, 50, Some(50)),
    ];
    let result = aggregate_score(&checks_fragile);
    assert!(matches!(result.grade, Grade::Fragile));

    let checks_comp = vec![
        make_check("check1", CheckStatus::Pass, Severity::Medium, 50, Some(30)),
    ];
    let result = aggregate_score(&checks_comp);
    assert!(matches!(result.grade, Grade::Compromised));
}

#[test]
fn test_partial_data_honest_scoring() {
    let checks = vec![
        make_check("mint_authority", CheckStatus::Pass, Severity::Critical, 25, Some(100)),
        make_check("freeze_authority", CheckStatus::Pass, Severity::High, 20, Some(100)),
        make_check("holder_concentration", CheckStatus::Unknown, Severity::Medium, 20, None),
        make_check("token_age", CheckStatus::Pass, Severity::Low, 10, Some(70)),
    ];

    let result = aggregate_score(&checks);

    assert_eq!(result.weights_total, 55);
    assert_eq!(result.fairness_score, Some(95));
    assert!(matches!(result.grade, Grade::Strong));
}
