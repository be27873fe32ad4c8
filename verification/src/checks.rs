//! The check framework: a chain-dependent, fixed ordered set of pure
//! evaluators, each mapping the fact bundle to a [`CheckResult`].
//!
//! Every check is total: when its required fact sub-record is absent it
//! returns `Unknown` with no sub-score, keeping its declared weight and
//! severity, and is later excluded from aggregation.

use vstd::prelude::*;
use vstd::arithmetic::div_mod::lemma_div_is_ordered;

use crate::types::{
    AgeBand, CheckResult, CheckResultV, CheckStatus, DocField, DocValue, MetadataV, Severity,
    TokenFacts, TokenFactsV, TokenStandard, check_wf, standard_name,
};

verus! {

// ---------------------------------------------------------------------
// Holder-concentration curves
//
// Percentages are in basis points. Each curve is piecewise linear and
// computed exactly as a scaled integer: the top-1 curve in units of
// 1/6000 of a score point, the top-5 curve in units of 1/2000. The
// combined score is the rounded mean of the two sub-scores:
//   round((n1/6000 + n5/2000) / 2) = round((n1 + 3*n5) / 12000),
// with ties rounded up.
// ---------------------------------------------------------------------

/// Top-1% concentration sub-score, scaled by 6000: 100 points at or
/// below 10%, then linear to 60 at 20%, 25 at 40%, 0 at 70% and beyond.
pub open spec fn spec_top1_scaled(x: int) -> int {
    if x <= 1000 {
        600000
    } else if x <= 2000 {
        600000 - (x - 1000) * 240
    } else if x <= 4000 {
        360000 - (x - 2000) * 105
    } else if x <= 7000 {
        150000 - (x - 4000) * 50
    } else {
        0
    }
}

/// Top-5% concentration sub-score, scaled by 2000: 100 points at or
/// below 30%, then linear to 60 at 50%, 25 at 70%, 0 at 90% and beyond.
pub open spec fn spec_top5_scaled(x: int) -> int {
    if x <= 3000 {
        200000
    } else if x <= 5000 {
        200000 - (x - 3000) * 40
    } else if x <= 7000 {
        120000 - (x - 5000) * 35
    } else if x <= 9000 {
        50000 - (x - 7000) * 25
    } else {
        0
    }
}

/// Combined holder-concentration score: the mean of the two sub-scores,
/// rounded half up.
pub open spec fn spec_concentration_score(t1: int, t5: int) -> int {
    ((spec_top1_scaled(t1) + 3 * spec_top5_scaled(t5)) * 2 + 12000) / 24000
}

proof fn lemma_top1_scaled_range(x: int)
    ensures
        0 <= spec_top1_scaled(x) <= 600000,
{
}

proof fn lemma_top5_scaled_range(x: int)
    ensures
        0 <= spec_top5_scaled(x) <= 200000,
{
}

proof fn lemma_top1_scaled_mono(a: int, b: int)
    requires
        a <= b,
    ensures
        spec_top1_scaled(b) <= spec_top1_scaled(a),
{
}

proof fn lemma_top5_scaled_mono(a: int, b: int)
    requires
        a <= b,
    ensures
        spec_top5_scaled(b) <= spec_top5_scaled(a),
{
}

/// The combined holder-concentration score always lies in [0, 100].
pub proof fn lemma_concentration_score_bounds(t1: int, t5: int)
    ensures
        0 <= spec_concentration_score(t1, t5) <= 100,
{
    lemma_top1_scaled_range(t1);
    lemma_top5_scaled_range(t5);
    let n = (spec_top1_scaled(t1) + 3 * spec_top5_scaled(t5)) * 2 + 12000;
    assert(0 <= n <= 2412000);
    lemma_div_is_ordered(0, n, 24000);
    lemma_div_is_ordered(n, 2412000, 24000);
}

/// The combined holder-concentration score is monotonically
/// non-increasing as either concentration percentage increases.
pub proof fn lemma_concentration_score_monotone(t1a: int, t1b: int, t5a: int, t5b: int)
    requires
        t1a <= t1b,
        t5a <= t5b,
    ensures
        spec_concentration_score(t1b, t5b) <= spec_concentration_score(t1a, t5a),
{
    lemma_top1_scaled_mono(t1a, t1b);
    lemma_top5_scaled_mono(t5a, t5b);
    let na = (spec_top1_scaled(t1a) + 3 * spec_top5_scaled(t5a)) * 2 + 12000;
    let nb = (spec_top1_scaled(t1b) + 3 * spec_top5_scaled(t5b)) * 2 + 12000;
    lemma_div_is_ordered(nb, na, 24000);
}

fn top1_scaled(x: u32) -> (n: u64)
    ensures
        n as int == spec_top1_scaled(x as int),
{
    if x <= 1000 {
        600000
    } else if x <= 2000 {
        600000 - (x as u64 - 1000) * 240
    } else if x <= 4000 {
        360000 - (x as u64 - 2000) * 105
    } else if x <= 7000 {
        150000 - (x as u64 - 4000) * 50
    } else {
        0
    }
}

fn top5_scaled(x: u32) -> (n: u64)
    ensures
        n as int == spec_top5_scaled(x as int),
{
    if x <= 3000 {
        200000
    } else if x <= 5000 {
        200000 - (x as u64 - 3000) * 40
    } else if x <= 7000 {
        120000 - (x as u64 - 5000) * 35
    } else if x <= 9000 {
        50000 - (x as u64 - 7000) * 25
    } else {
        0
    }
}

/// Combined holder-concentration score for the two concentrations, in
/// basis points.
pub fn concentration_score(top1_bp: u32, top5_bp: u32) -> (s: u8)
    ensures
        s as int == spec_concentration_score(top1_bp as int, top5_bp as int),
{
    let n1 = top1_scaled(top1_bp);
    let n5 = top5_scaled(top5_bp);
    proof {
        lemma_top1_scaled_range(top1_bp as int);
        lemma_top5_scaled_range(top5_bp as int);
        lemma_concentration_score_bounds(top1_bp as int, top5_bp as int);
    }
    let combined = ((n1 + 3 * n5) * 2 + 12000) / 24000;
    combined as u8
}

// ---------------------------------------------------------------------
// Check contracts
// ---------------------------------------------------------------------

/// Contract of the mint-authority check: Pass exactly when no mint
/// authority address is present; Unknown when authority data is absent.
pub open spec fn spec_mint_check(facts: TokenFactsV, r: CheckResultV) -> bool {
    &&& r.id == "mint_authority_disabled"@
    &&& r.label == "Mint authority disabled"@
    &&& r.category == "supply_control"@
    &&& r.severity == Severity::Critical
    &&& r.weight == 25
    &&& match facts.authorities {
        Some(a) => {
            &&& r.status == (if a.mint_authority is None {
                CheckStatus::Pass
            } else {
                CheckStatus::Fail
            })
            &&& r.score_component == (if a.mint_authority is None {
                Some(100u8)
            } else {
                Some(0u8)
            })
        },
        None => {
            &&& r.status == CheckStatus::Unknown
            &&& r.score_component is None
        },
    }
}

/// Contract of the freeze-authority check: Pass exactly when no freeze
/// authority address is present; Unknown when authority data is absent.
pub open spec fn spec_freeze_check(facts: TokenFactsV, r: CheckResultV) -> bool {
    &&& r.id == "freeze_authority_disabled"@
    &&& r.label == "Freeze authority disabled"@
    &&& r.category == "supply_control"@
    &&& r.severity == Severity::High
    &&& r.weight == 20
    &&& match facts.authorities {
        Some(a) => {
            &&& r.status == (if a.freeze_authority is None {
                CheckStatus::Pass
            } else {
                CheckStatus::Fail
            })
            &&& r.score_component == (if a.freeze_authority is None {
                Some(100u8)
            } else {
                Some(0u8)
            })
        },
        None => {
            &&& r.status == CheckStatus::Unknown
            &&& r.score_component is None
        },
    }
}

/// Contract of the ownership check: Pass exactly when no owner address
/// is present; Unknown when authority data is absent. Ownership control
/// is fundamental, so the severity is always Critical.
pub open spec fn spec_ownership_check(facts: TokenFactsV, r: CheckResultV) -> bool {
    &&& r.id == "ownership_renounced"@
    &&& r.label == "Ownership renounced"@
    &&& r.category == "Authority"@
    &&& r.severity == Severity::Critical
    &&& r.weight == 20
    &&& match facts.authorities {
        Some(a) => {
            &&& r.status == (if a.owner is None {
                CheckStatus::Pass
            } else {
                CheckStatus::Fail
            })
            &&& r.score_component == (if a.owner is None {
                Some(100u8)
            } else {
                Some(0u8)
            })
        },
        None => {
            &&& r.status == CheckStatus::Unknown
            &&& r.score_component is None
        },
    }
}

/// Contract of the holder-concentration check: both concentrations are
/// required; the sub-score is the rounded mean of the two curve scores,
/// passing at 50 and ranked Low/Medium/High by the same score.
pub open spec fn spec_concentration_check(facts: TokenFactsV, r: CheckResultV) -> bool {
    &&& r.id == "holder_concentration"@
    &&& r.label == "Holder concentration"@
    &&& r.category == "distribution"@
    &&& r.weight == 20
    &&& match facts.holders {
        Some(h) => match (h.top1_bp, h.top5_bp) {
            (Some(t1), Some(t5)) => {
                let combined = spec_concentration_score(t1 as int, t5 as int);
                &&& r.status == (if combined >= 50 {
                    CheckStatus::Pass
                } else {
                    CheckStatus::Fail
                })
                &&& r.severity == (if combined >= 80 {
                    Severity::Low
                } else if combined >= 50 {
                    Severity::Medium
                } else {
                    Severity::High
                })
                &&& r.score_component == Some(combined as u8)
            },
            _ => {
                &&& r.status == CheckStatus::Unknown
                &&& r.severity == Severity::Medium
                &&& r.score_component is None
            },
        },
        None => {
            &&& r.status == CheckStatus::Unknown
            &&& r.severity == Severity::Medium
            &&& r.score_component is None
        },
    }
}

/// Contract of the token-age check: the age band maps to a fixed score;
/// a known band always passes, an unknown band yields Unknown.
pub open spec fn spec_age_check(facts: TokenFactsV, r: CheckResultV) -> bool {
    &&& r.id == "token_age"@
    &&& r.label == "Token age"@
    &&& r.category == "temporal"@
    &&& r.severity == Severity::Low
    &&& r.weight == 10
    &&& match facts.creation {
        Some(c) => match c.age_band {
            AgeBand::GreaterThan7d => r.status == CheckStatus::Pass && r.score_component == Some(
                100u8,
            ),
            AgeBand::Day1To7 => r.status == CheckStatus::Pass && r.score_component == Some(70u8),
            AgeBand::LessThan24h => r.status == CheckStatus::Pass && r.score_component == Some(
                40u8,
            ),
            AgeBand::Unknown => r.status == CheckStatus::Unknown && r.score_component is None,
        },
        None => {
            &&& r.status == CheckStatus::Unknown
            &&& r.score_component is None
        },
    }
}

/// Whether a chain identifier belongs to the solana family.
pub open spec fn spec_chain_solana(chain: Seq<char>) -> bool {
    chain == "solana"@
}

/// Whether a chain identifier belongs to the evm family.
pub open spec fn spec_chain_evm(chain: Seq<char>) -> bool {
    chain == "base"@ || chain == "evm"@ || chain == "ethereum"@
}

/// Whether the declared standard is valid for the chain family: the
/// solana family needs a recognized SPL variant, the evm family a
/// recognized ERC-20-class standard together with a known decimals
/// value, and an unrecognized chain accepts nothing.
pub open spec fn spec_standard_ok(m: MetadataV, chain: Seq<char>) -> bool {
    if spec_chain_solana(chain) {
        m.standard == TokenStandard::SplToken || m.standard == TokenStandard::SplToken2022
    } else if spec_chain_evm(chain) {
        m.standard == TokenStandard::Erc20 && m.decimals is Some
    } else {
        false
    }
}

/// Contract of the standard-sanity check: Pass exactly when the declared
/// interface is valid for the chain family; a declared Unknown standard
/// is ranked High severity on any chain, everything else Medium.
pub open spec fn spec_standard_check(facts: TokenFactsV, chain: Seq<char>, r: CheckResultV) -> bool {
    &&& r.id == "standard_sanity"@
    &&& r.label == "Standard sanity"@
    &&& r.category == "interface"@
    &&& r.weight == 10
    &&& match facts.metadata {
        Some(m) => {
            &&& r.status == (if spec_standard_ok(m, chain) {
                CheckStatus::Pass
            } else {
                CheckStatus::Fail
            })
            &&& r.score_component == (if spec_standard_ok(m, chain) {
                Some(100u8)
            } else {
                Some(0u8)
            })
            &&& r.severity == (if m.standard == TokenStandard::Unknown {
                Severity::High
            } else {
                Severity::Medium
            })
        },
        None => {
            &&& r.status == CheckStatus::Unknown
            &&& r.severity == Severity::Medium
            &&& r.score_component is None
        },
    }
}

// ---------------------------------------------------------------------
// Check implementations
// ---------------------------------------------------------------------

fn mint_unknown_result() -> (r: CheckResult)
    ensures
        spec_mint_check(
            (TokenFactsV {
                metadata: None,
                supply: None,
                authorities: None,
                holders: None,
                creation: None,
            }),
            r@,
        ),
        r.status == CheckStatus::Unknown,
        r.score_component is None,
        check_wf(r@),
{
    CheckResult {
        id: String::from_str("mint_authority_disabled"),
        label: String::from_str("Mint authority disabled"),
        category: String::from_str("supply_control"),
        status: CheckStatus::Unknown,
        severity: Severity::Critical,
        value: DocValue::Null,
        evidence: vec![
            DocField {
                key: String::from_str("source"),
                value: DocValue::Text(String::from_str("provider")),
            },
            DocField {
                key: String::from_str("error"),
                value: DocValue::Text(String::from_str("authority data unavailable")),
            },
        ],
        weight: 25,
        score_component: None,
    }
}

/// Mint-authority check: the supply is fixed only if no mint authority
/// remains.
pub fn check_mint_authority_disabled(facts: &TokenFacts) -> (r: CheckResult)
    ensures
        spec_mint_check(facts@, r@),
        check_wf(r@),
{
    let authorities = match &facts.authorities {
        Some(auth) => auth,
        None => {
            return mint_unknown_result();
        },
    };
    let is_disabled = authorities.mint_authority.is_none();
    let authority_doc = match &authorities.mint_authority {
        Some(a) => DocValue::Text(a.clone()),
        None => DocValue::Null,
    };
    CheckResult {
        id: String::from_str("mint_authority_disabled"),
        label: String::from_str("Mint authority disabled"),
        category: String::from_str("supply_control"),
        status: if is_disabled {
            CheckStatus::Pass
        } else {
            CheckStatus::Fail
        },
        severity: Severity::Critical,
        value: DocValue::Bool(is_disabled),
        evidence: vec![
            DocField {
                key: String::from_str("source"),
                value: DocValue::Text(String::from_str("provider")),
            },
            DocField { key: String::from_str("mint_authority"), value: authority_doc },
        ],
        weight: 25,
        score_component: if is_disabled {
            Some(100)
        } else {
            Some(0)
        },
    }
}

fn freeze_unknown_result() -> (r: CheckResult)
    ensures
        r.status == CheckStatus::Unknown,
        r.score_component is None,
        r@.id == "freeze_authority_disabled"@,
        r@.label == "Freeze authority disabled"@,
        r@.category == "supply_control"@,
        r.severity == Severity::High,
        r.weight == 20,
        check_wf(r@),
{
    CheckResult {
        id: String::from_str("freeze_authority_disabled"),
        label: String::from_str("Freeze authority disabled"),
        category: String::from_str("supply_control"),
        status: CheckStatus::Unknown,
        severity: Severity::High,
        value: DocValue::Null,
        evidence: vec![
            DocField {
                key: String::from_str("source"),
                value: DocValue::Text(String::from_str("provider")),
            },
            DocField {
                key: String::from_str("error"),
                value: DocValue::Text(String::from_str("authority data unavailable")),
            },
        ],
        weight: 20,
        score_component: None,
    }
}

/// Freeze-authority check: balances can be frozen while a freeze
/// authority remains.
pub fn check_freeze_authority_disabled(facts: &TokenFacts) -> (r: CheckResult)
    ensures
        spec_freeze_check(facts@, r@),
        check_wf(r@),
{
    let authorities = match &facts.authorities {
        Some(auth) => auth,
        None => {
            return freeze_unknown_result();
        },
    };
    let is_disabled = authorities.freeze_authority.is_none();
    let authority_doc = match &authorities.freeze_authority {
        Some(a) => DocValue::Text(a.clone()),
        None => DocValue::Null,
    };
    CheckResult {
        id: String::from_str("freeze_authority_disabled"),
        label: String::from_str("Freeze authority disabled"),
        category: String::from_str("supply_control"),
        status: if is_disabled {
            CheckStatus::Pass
        } else {
            CheckStatus::Fail
        },
        severity: Severity::High,
        value: DocValue::Bool(is_disabled),
        evidence: vec![
            DocField {
                key: String::from_str("source"),
                value: DocValue::Text(String::from_str("provider")),
            },
            DocField { key: String::from_str("freeze_authority"), value: authority_doc },
        ],
        weight: 20,
        score_component: if is_disabled {
            Some(100)
        } else {
            Some(0)
        },
    }
}

/// Ownership check: contract parameters stay mutable while an owner
/// address remains, so this is always Critical severity.
pub fn check_ownership_renounced(facts: &TokenFacts) -> (r: CheckResult)
    ensures
        spec_ownership_check(facts@, r@),
        check_wf(r@),
{
    let authorities = match &facts.authorities {
        Some(auth) => auth,
        None => {
            return CheckResult {
                id: String::from_str("ownership_renounced"),
                label: String::from_str("Ownership renounced"),
                category: String::from_str("Authority"),
                status: CheckStatus::Unknown,
                severity: Severity::Critical,
                value: DocValue::Null,
                evidence: vec![
                    DocField {
                        key: String::from_str("reason"),
                        value: DocValue::Text(String::from_str("No authority data available")),
                    },
                ],
                weight: 20,
                score_component: None,
            };
        },
    };
    let is_renounced = authorities.owner.is_none();
    let owner_doc = match &authorities.owner {
        Some(o) => DocValue::Text(o.clone()),
        None => DocValue::Null,
    };
    CheckResult {
        id: String::from_str("ownership_renounced"),
        label: String::from_str("Ownership renounced"),
        category: String::from_str("Authority"),
        status: if is_renounced {
            CheckStatus::Pass
        } else {
            CheckStatus::Fail
        },
        severity: Severity::Critical,
        value: owner_doc,
        evidence: vec![
            DocField {
                key: String::from_str("is_renounced"),
                value: DocValue::Bool(is_renounced),
            },
        ],
        weight: 20,
        score_component: if is_renounced {
            Some(100)
        } else {
            Some(0)
        },
    }
}

fn concentration_unknown_result() -> (r: CheckResult)
    ensures
        r.status == CheckStatus::Unknown,
        r.score_component is None,
        r@.id == "holder_concentration"@,
        r@.label == "Holder concentration"@,
        r@.category == "distribution"@,
        r.severity == Severity::Medium,
        r.weight == 20,
        check_wf(r@),
{
    CheckResult {
        id: String::from_str("holder_concentration"),
        label: String::from_str("Holder concentration"),
        category: String::from_str("distribution"),
        status: CheckStatus::Unknown,
        severity: Severity::Medium,
        value: DocValue::Null,
        evidence: vec![
            DocField {
                key: String::from_str("source"),
                value: DocValue::Text(String::from_str("provider")),
            },
            DocField {
                key: String::from_str("error"),
                value: DocValue::Text(String::from_str("holder data unavailable")),
            },
        ],
        weight: 20,
        score_component: None,
    }
}

/// Holder-concentration check: scores how widely the supply is spread
/// over the top holders.
pub fn check_holder_concentration(facts: &TokenFacts) -> (r: CheckResult)
    ensures
        spec_concentration_check(facts@, r@),
        check_wf(r@),
{
    let holders = match &facts.holders {
        Some(h) => h,
        None => {
            return concentration_unknown_result();
        },
    };
    let (top1_bp, top5_bp) = match (holders.top1_bp, holders.top5_bp) {
        (Some(t1), Some(t5)) => (t1, t5),
        _ => {
            return concentration_unknown_result();
        },
    };
    let combined = concentration_score(top1_bp, top5_bp);
    proof {
        lemma_concentration_score_bounds(top1_bp as int, top5_bp as int);
    }
    let status = if combined >= 50 {
        CheckStatus::Pass
    } else {
        CheckStatus::Fail
    };
    let severity = if combined >= 80 {
        Severity::Low
    } else if combined >= 50 {
        Severity::Medium
    } else {
        Severity::High
    };
    CheckResult {
        id: String::from_str("holder_concentration"),
        label: String::from_str("Holder concentration"),
        category: String::from_str("distribution"),
        status,
        severity,
        value: DocValue::UInt(combined as u64),
        evidence: vec![
            DocField {
                key: String::from_str("source"),
                value: DocValue::Text(String::from_str("provider")),
            },
            DocField { key: String::from_str("top1_bp"), value: DocValue::UInt(top1_bp as u64) },
            DocField { key: String::from_str("top5_bp"), value: DocValue::UInt(top5_bp as u64) },
            DocField {
                key: String::from_str("method"),
                value: DocValue::Text(
                    String::from_str("supply-weighted holder distribution"),
                ),
            },
        ],
        weight: 20,
        score_component: Some(combined),
    }
}

fn age_unknown_result() -> (r: CheckResult)
    ensures
        r.status == CheckStatus::Unknown,
        r.score_component is None,
        r@.id == "token_age"@,
        r@.label == "Token age"@,
        r@.category == "temporal"@,
        r.severity == Severity::Low,
        r.weight == 10,
        check_wf(r@),
{
    CheckResult {
        id: String::from_str("token_age"),
        label: String::from_str("Token age"),
        category: String::from_str("temporal"),
        status: CheckStatus::Unknown,
        severity: Severity::Low,
        value: DocValue::Null,
        evidence: vec![
            DocField {
                key: String::from_str("source"),
                value: DocValue::Text(String::from_str("provider")),
            },
            DocField {
                key: String::from_str("error"),
                value: DocValue::Text(String::from_str("creation time unavailable")),
            },
        ],
        weight: 10,
        score_component: None,
    }
}

/// Token-age check: age itself is informational, so a known band always
/// passes, just with a lower score for young tokens.
pub fn check_token_age(facts: &TokenFacts) -> (r: CheckResult)
    ensures
        spec_age_check(facts@, r@),
        check_wf(r@),
{
    let creation = match &facts.creation {
        Some(c) => c,
        None => {
            return age_unknown_result();
        },
    };
    let (score, interpretation): (u8, &str) = match creation.age_band {
        AgeBand::GreaterThan7d => (100, "stabilizing"),
        AgeBand::Day1To7 => (70, "early"),
        AgeBand::LessThan24h => (40, "extremely_fragile"),
        AgeBand::Unknown => {
            return age_unknown_result();
        },
    };
    let age_doc = match creation.age_seconds {
        Some(secs) => DocValue::UInt(secs),
        None => DocValue::Null,
    };
    let created_doc = match &creation.created_at {
        Some(ts) => DocValue::Text(ts.clone()),
        None => DocValue::Null,
    };
    CheckResult {
        id: String::from_str("token_age"),
        label: String::from_str("Token age"),
        category: String::from_str("temporal"),
        status: CheckStatus::Pass,
        severity: Severity::Low,
        value: DocValue::Text(String::from_str(interpretation)),
        evidence: vec![
            DocField {
                key: String::from_str("source"),
                value: DocValue::Text(String::from_str("provider")),
            },
            DocField { key: String::from_str("created_at"), value: created_doc },
            DocField { key: String::from_str("age_seconds"), value: age_doc },
        ],
        weight: 10,
        score_component: Some(score),
    }
}

fn standard_unknown_result() -> (r: CheckResult)
    ensures
        r.status == CheckStatus::Unknown,
        r.score_component is None,
        r@.id == "standard_sanity"@,
        r@.label == "Standard sanity"@,
        r@.category == "interface"@,
        r.severity == Severity::Medium,
        r.weight == 10,
        check_wf(r@),
{
    CheckResult {
        id: String::from_str("standard_sanity"),
        label: String::from_str("Standard sanity"),
        category: String::from_str("interface"),
        status: CheckStatus::Unknown,
        severity: Severity::Medium,
        value: DocValue::Null,
        evidence: vec![
            DocField {
                key: String::from_str("source"),
                value: DocValue::Text(String::from_str("provider")),
            },
            DocField {
                key: String::from_str("error"),
                value: DocValue::Text(String::from_str("metadata unavailable")),
            },
        ],
        weight: 10,
        score_component: None,
    }
}

/// Solana-family interface validity and the severity of a mismatch.
pub fn check_solana_standard(standard: &TokenStandard) -> (r: (bool, Severity))
    ensures
        r.0 == (*standard == TokenStandard::SplToken || *standard == TokenStandard::SplToken2022),
        r.1 == (if *standard == TokenStandard::Unknown {
            Severity::High
        } else {
            Severity::Medium
        }),
{
    match standard {
        TokenStandard::SplToken | TokenStandard::SplToken2022 => (true, Severity::Medium),
        TokenStandard::Unknown => (false, Severity::High),
        _ => (false, Severity::Medium),
    }
}

/// Evm-family interface validity and the severity of a mismatch.
pub fn check_evm_standard(standard: &TokenStandard, decimals: &Option<u8>) -> (r: (bool, Severity))
    ensures
        r.0 == (*standard == TokenStandard::Erc20 && decimals is Some),
        r.1 == (if *standard == TokenStandard::Unknown {
            Severity::High
        } else {
            Severity::Medium
        }),
{
    match standard {
        TokenStandard::Erc20 if decimals.is_some() => (true, Severity::Medium),
        TokenStandard::Unknown => (false, Severity::High),
        _ => (false, Severity::Medium),
    }
}

/// Standard-sanity check: per-chain validity of the declared token
/// interface.
pub fn check_standard_sanity(facts: &TokenFacts, chain: &String) -> (r: CheckResult)
    ensures
        spec_standard_check(facts@, chain@, r@),
        check_wf(r@),
{
    let metadata = match &facts.metadata {
        Some(m) => m,
        None => {
            return standard_unknown_result();
        },
    };
    let (is_standard, severity): (bool, Severity) = if *chain == String::from_str("solana") {
        check_solana_standard(&metadata.standard)
    } else if *chain == String::from_str("base") || *chain == String::from_str("evm") || *chain
        == String::from_str("ethereum") {
        check_evm_standard(&metadata.standard, &metadata.decimals)
    } else {
        (
            false,
            if matches!(metadata.standard, TokenStandard::Unknown) {
                Severity::High
            } else {
                Severity::Medium
            },
        )
    };
    let decimals_doc = match metadata.decimals {
        Some(d) => DocValue::UInt(d as u64),
        None => DocValue::Null,
    };
    CheckResult {
        id: String::from_str("standard_sanity"),
        label: String::from_str("Standard sanity"),
        category: String::from_str("interface"),
        status: if is_standard {
            CheckStatus::Pass
        } else {
            CheckStatus::Fail
        },
        severity,
        value: DocValue::Text(standard_name(metadata.standard)),
        evidence: vec![
            DocField {
                key: String::from_str("source"),
                value: DocValue::Text(String::from_str("provider")),
            },
            DocField {
                key: String::from_str("standard"),
                value: DocValue::Text(standard_name(metadata.standard)),
            },
            DocField { key: String::from_str("decimals"), value: decimals_doc },
        ],
        weight: 10,
        score_component: if is_standard {
            Some(100)
        } else {
            Some(0)
        },
    }
}

// ---------------------------------------------------------------------
// Chain-dependent check selection
// ---------------------------------------------------------------------

/// Contract of [`run_checks`]: the fixed ordered check set of the chain
/// family.
pub open spec fn spec_run_checks(facts: TokenFactsV, chain: Seq<char>, s: Seq<CheckResultV>) -> bool {
    if spec_chain_solana(chain) {
        &&& s.len() == 5
        &&& spec_mint_check(facts, s[0])
        &&& spec_freeze_check(facts, s[1])
        &&& spec_concentration_check(facts, s[2])
        &&& spec_age_check(facts, s[3])
        &&& spec_standard_check(facts, chain, s[4])
    } else if spec_chain_evm(chain) {
        &&& s.len() == 4
        &&& spec_ownership_check(facts, s[0])
        &&& spec_concentration_check(facts, s[1])
        &&& spec_age_check(facts, s[2])
        &&& spec_standard_check(facts, chain, s[3])
    } else {
        &&& s.len() == 2
        &&& spec_concentration_check(facts, s[0])
        &&& spec_age_check(facts, s[1])
    }
}

/// Sum of the declared weights of a check sequence.
pub open spec fn spec_weight_sum(s: Seq<CheckResultV>) -> int
    decreases s.len(),
{
    if s.len() == 0 {
        0
    } else {
        spec_weight_sum(s.drop_last()) + s.last().weight
    }
}

/// Run the fixed ordered check set for the chain family over the facts.
pub fn run_checks(facts: &TokenFacts, chain: &String) -> (checks: Vec<CheckResult>)
    ensures
        spec_run_checks(facts@, chain@, checks@.map_values(|c: CheckResult| c@)),
        forall|i: int| 0 <= i < checks@.len() ==> check_wf(#[trigger] checks@[i]@),
        spec_weight_sum(checks@.map_values(|c: CheckResult| c@)) <= 85,
{
    let mut checks: Vec<CheckResult> = Vec::new();
    if *chain == String::from_str("solana") {
        checks.push(check_mint_authority_disabled(facts));
        checks.push(check_freeze_authority_disabled(facts));
        checks.push(check_holder_concentration(facts));
        checks.push(check_token_age(facts));
        checks.push(check_standard_sanity(facts, chain));
    } else if *chain == String::from_str("base") || *chain == String::from_str("evm") || *chain
        == String::from_str("ethereum") {
        checks.push(check_ownership_renounced(facts));
        checks.push(check_holder_concentration(facts));
        checks.push(check_token_age(facts));
        checks.push(check_standard_sanity(facts, chain));
    } else {
        checks.push(check_holder_concentration(facts));
        checks.push(check_token_age(facts));
    }
    proof {
        assert(spec_weight_sum(checks@.map_values(|c: CheckResult| c@)) <= 85) by {
            reveal_with_fuel(spec_weight_sum, 6);
        }
    }
    checks
}

} // verus!
