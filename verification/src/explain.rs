//! Deterministic explanation generator: a fixed summary sentence per
//! grade, fixed method notes, and remediation bullets scanned from the
//! check outcomes in a fixed priority order.

use vstd::prelude::*;

use crate::types::{CheckResult, CheckResultV, CheckStatus, Grade, Severity};
use crate::scoring::ScoreResult;

verus! {

/// Actionable guidance derived from the failing checks.
pub struct InterpretationSection {
    pub what_to_do: Vec<String>,
}

/// Ghost view of [`InterpretationSection`].
pub struct InterpretationSectionV {
    pub what_to_do: Seq<Seq<char>>,
}

impl View for InterpretationSection {
    type V = InterpretationSectionV;

    open spec fn view(&self) -> InterpretationSectionV {
        (InterpretationSectionV { what_to_do: self.what_to_do@.map_values(|s: String| s@) })
    }
}

impl Clone for InterpretationSection {
    fn clone(&self) -> (r: Self)
        ensures
            r@ == self@,
    {
        let what_to_do = self.what_to_do.clone();
        proof {
            assert(what_to_do@ =~= self.what_to_do@);
        }
        InterpretationSection { what_to_do }
    }
}

/// The human-readable part of a response: summary, method notes and
/// remediation guidance.
pub struct ExplainSection {
    pub summary: String,
    pub method: Vec<String>,
    pub interpretation: InterpretationSection,
}

/// Ghost view of [`ExplainSection`].
pub struct ExplainSectionV {
    pub summary: Seq<char>,
    pub method: Seq<Seq<char>>,
    pub interpretation: InterpretationSectionV,
}

impl View for ExplainSection {
    type V = ExplainSectionV;

    open spec fn view(&self) -> ExplainSectionV {
        (ExplainSectionV {
            summary: self.summary@,
            method: self.method@.map_values(|s: String| s@),
            interpretation: self.interpretation@,
        })
    }
}

impl Clone for ExplainSection {
    fn clone(&self) -> (r: Self)
        ensures
            r@ == self@,
    {
        let method = self.method.clone();
        proof {
            assert(method@ =~= self.method@);
        }
        ExplainSection {
            summary: self.summary.clone(),
            method,
            interpretation: self.interpretation.clone(),
        }
    }
}

// ---------------------------------------------------------------------
// Explanation model
// ---------------------------------------------------------------------

/// The fixed summary sentence of each grade.
pub open spec fn spec_summary_for_grade(g: Grade) -> Seq<char> {
    match g {
        Grade::Strong => "Structure looks sound. No major weaknesses detected."@,
        Grade::Mixed => "Structure is mostly sound with some areas of concern."@,
        Grade::Fragile => "Structure shows significant fragility. Proceed with caution."@,
        Grade::Compromised => "Structure is fundamentally compromised. High risk."@,
    }
}

/// Bullet a Critical-severity failure contributes: specific wording for
/// the known check ids, nothing for others.
pub open spec fn spec_critical_bullet_of(c: CheckResultV) -> Seq<Seq<char>> {
    if c.severity == Severity::Critical && c.status == CheckStatus::Fail {
        if c.id == "mint_authority_disabled"@ {
            seq!["Mint authority exists: supply is mutable and can be inflated."@]
        } else if c.id == "ownership_renounced"@ {
            seq!["Ownership not renounced: contract parameters can still be changed."@]
        } else {
            Seq::empty()
        }
    } else {
        Seq::empty()
    }
}

/// All Critical-failure bullets, in check order.
pub open spec fn spec_critical_bullets(s: Seq<CheckResultV>) -> Seq<Seq<char>>
    decreases s.len(),
{
    if s.len() == 0 {
        Seq::empty()
    } else {
        spec_critical_bullets(s.drop_last()) + spec_critical_bullet_of(s.last())
    }
}

/// Bullet a High-severity failure contributes.
pub open spec fn spec_high_bullet_of(c: CheckResultV) -> Seq<Seq<char>> {
    if c.severity == Severity::High && c.status == CheckStatus::Fail && c.id
        == "freeze_authority_disabled"@ {
        seq!["Freeze authority exists: token balances can be frozen."@]
    } else {
        Seq::empty()
    }
}

/// All High-failure bullets, in check order.
pub open spec fn spec_high_bullets(s: Seq<CheckResultV>) -> Seq<Seq<char>>
    decreases s.len(),
{
    if s.len() == 0 {
        Seq::empty()
    } else {
        spec_high_bullets(s.drop_last()) + spec_high_bullet_of(s.last())
    }
}

/// Bullet a low holder-concentration sub-score contributes.
pub open spec fn spec_concentration_bullet_of(c: CheckResultV) -> Seq<Seq<char>> {
    if c.id == "holder_concentration"@ && (c.score_component matches Some(sc) && sc < 50) {
        seq!["High holder concentration increases structural fragility."@]
    } else {
        Seq::empty()
    }
}

/// All concentration bullets, in check order.
pub open spec fn spec_concentration_bullets(s: Seq<CheckResultV>) -> Seq<Seq<char>>
    decreases s.len(),
{
    if s.len() == 0 {
        Seq::empty()
    } else {
        spec_concentration_bullets(s.drop_last()) + spec_concentration_bullet_of(s.last())
    }
}

/// Whether any check failed.
pub open spec fn spec_has_failure(s: Seq<CheckResultV>) -> bool
    decreases s.len(),
{
    if s.len() == 0 {
        false
    } else {
        spec_has_failure(s.drop_last()) || s.last().status == CheckStatus::Fail
    }
}

/// The remediation list: Critical bullets first, then High, then
/// concentration; when no specific bullet applies, one affirmative
/// message if nothing failed, otherwise one generic review message.
/// A failure therefore never passes silently.
pub open spec fn spec_what_to_do(s: Seq<CheckResultV>) -> Seq<Seq<char>> {
    let bullets = spec_critical_bullets(s) + spec_high_bullets(s) + spec_concentration_bullets(s);
    if bullets.len() == 0 {
        if spec_has_failure(s) {
            seq!["Some structural checks failed. Review details above."@]
        } else {
            seq!["All structural checks passed. Token appears fairly launched."@]
        }
    } else {
        bullets
    }
}

/// The remediation list is never empty: when a check fails without a
/// matching specific rule, the generic review message still appears,
/// and an all-pass run gets the affirmative message.
pub proof fn lemma_what_to_do_never_empty(s: Seq<CheckResultV>)
    ensures
        spec_what_to_do(s).len() >= 1,
{
}

/// Contract of [`generate_explanation`].
pub open spec fn spec_explanation(s: Seq<CheckResultV>, grade: Grade, e: ExplainSectionV) -> bool {
    &&& e.summary == spec_summary_for_grade(grade)
    &&& e.method =~= seq![
        "This tool evaluates structural fairness, not price prediction."@,
        "Each check is verifiable on-chain and scored transparently."@,
    ]
    &&& e.interpretation.what_to_do == spec_what_to_do(s)
}

// ---------------------------------------------------------------------
// Explanation generator
// ---------------------------------------------------------------------

/// Derive the summary, method notes and remediation bullets from the
/// checks and the aggregated score.
pub fn generate_explanation(checks: &Vec<CheckResult>, score: &ScoreResult) -> (e: ExplainSection)
    ensures
        spec_explanation(checks@.map_values(|c: CheckResult| c@), score.grade, e@),
{
    let ghost model = checks@.map_values(|c: CheckResult| c@);

    let summary = match score.grade {
        Grade::Strong => String::from_str("Structure looks sound. No major weaknesses detected."),
        Grade::Mixed => String::from_str("Structure is mostly sound with some areas of concern."),
        Grade::Fragile => String::from_str(
            "Structure shows significant fragility. Proceed with caution.",
        ),
        Grade::Compromised => String::from_str(
            "Structure is fundamentally compromised. High risk.",
        ),
    };

    let method = vec![
        String::from_str("This tool evaluates structural fairness, not price prediction."),
        String::from_str("Each check is verifiable on-chain and scored transparently."),
    ];

    let mut what_to_do: Vec<String> = Vec::new();
    let mut has_failures = false;

    let mut idx: usize = 0;
    proof {
        assert(model.take(0) =~= Seq::<CheckResultV>::empty());
    }
    while idx < checks.len()
        invariant
            0 <= idx <= checks@.len(),
            model == checks@.map_values(|c: CheckResult| c@),
            has_failures == spec_has_failure(model.take(idx as int)),
            what_to_do@.map_values(|s: String| s@) == spec_critical_bullets(
                model.take(idx as int),
            ),
        decreases checks@.len() - idx,
    {
        let check = &checks[idx];
        proof {
            assert(model[idx as int] == checks@[idx as int]@);
            assert(model.take(idx as int + 1).drop_last() =~= model.take(idx as int));
            assert(model.take(idx as int + 1).last() == model[idx as int]);
        }
        if matches!(check.severity, Severity::Critical) && matches!(check.status, CheckStatus::Fail) {
            if check.id == String::from_str("mint_authority_disabled") {
                what_to_do.push(String::from_str(
                    "Mint authority exists: supply is mutable and can be inflated.",
                ));
            } else if check.id == String::from_str("ownership_renounced") {
                what_to_do.push(String::from_str(
                    "Ownership not renounced: contract parameters can still be changed.",
                ));
            }
        }
        if matches!(check.status, CheckStatus::Fail) {
            has_failures = true;
        }
        proof {
            assert(what_to_do@.map_values(|s: String| s@) =~= spec_critical_bullets(
                model.take(idx as int + 1),
            ));
        }
        idx = idx + 1;
    }
    proof {
        assert(model.take(checks@.len() as int) =~= model);
        assert(model.take(0) =~= Seq::<CheckResultV>::empty());
        assert(what_to_do@.map_values(|s: String| s@) =~= spec_critical_bullets(model)
            + spec_high_bullets(model.take(0)));
    }

    let mut idx: usize = 0;
    while idx < checks.len()
        invariant
            0 <= idx <= checks@.len(),
            model == checks@.map_values(|c: CheckResult| c@),
            what_to_do@.map_values(|s: String| s@) == spec_critical_bullets(model)
                + spec_high_bullets(model.take(idx as int)),
        decreases checks@.len() - idx,
    {
        let check = &checks[idx];
        let ghost prev_map = what_to_do@.map_values(|s: String| s@);
        proof {
            assert(model[idx as int] == checks@[idx as int]@);
            assert(model.take(idx as int + 1).drop_last() =~= model.take(idx as int));
            assert(model.take(idx as int + 1).last() == model[idx as int]);
        }
        if matches!(check.severity, Severity::High) && matches!(check.status, CheckStatus::Fail) {
            if check.id == String::from_str("freeze_authority_disabled") {
                what_to_do.push(String::from_str(
                    "Freeze authority exists: token balances can be frozen.",
                ));
            }
        }
        proof {
            assert(spec_high_bullets(model.take(idx as int + 1)) == spec_high_bullets(
                model.take(idx as int),
            ) + spec_high_bullet_of(model[idx as int]));
            assert(what_to_do@.map_values(|s: String| s@) =~= prev_map + spec_high_bullet_of(
                model[idx as int],
            ));
            assert(prev_map + spec_high_bullet_of(model[idx as int]) =~= spec_critical_bullets(
                model,
            ) + spec_high_bullets(model.take(idx as int + 1)));
        }
        idx = idx + 1;
    }

    proof {
        assert(model.take(0) =~= Seq::<CheckResultV>::empty());
        assert(what_to_do@.map_values(|s: String| s@) =~= spec_critical_bullets(model)
            + spec_high_bullets(model) + spec_concentration_bullets(model.take(0)));
    }
    let mut idx: usize = 0;
    while idx < checks.len()
        invariant
            0 <= idx <= checks@.len(),
            model == checks@.map_values(|c: CheckResult| c@),
            what_to_do@.map_values(|s: String| s@) == spec_critical_bullets(model)
                + spec_high_bullets(model) + spec_concentration_bullets(model.take(idx as int)),
        decreases checks@.len() - idx,
    {
        let check = &checks[idx];
        let ghost prev_map = what_to_do@.map_values(|s: String| s@);
        proof {
            assert(model[idx as int] == checks@[idx as int]@);
            assert(model.take(idx as int + 1).drop_last() =~= model.take(idx as int));
            assert(model.take(idx as int + 1).last() == model[idx as int]);
        }
        if check.id == String::from_str("holder_concentration") {
            match check.score_component {
                Some(score_comp) => {
                    if score_comp < 50 {
                        what_to_do.push(String::from_str(
                            "High holder concentration increases structural fragility.",
                        ));
                    }
                },
                None => {},
            }
        }
        proof {
            assert(spec_concentration_bullets(model.take(idx as int + 1))
                == spec_concentration_bullets(model.take(idx as int))
                + spec_concentration_bullet_of(model[idx as int]));
            assert(what_to_do@.map_values(|s: String| s@) =~= prev_map
                + spec_concentration_bullet_of(model[idx as int]));
            assert(prev_map + spec_concentration_bullet_of(model[idx as int])
                =~= spec_critical_bullets(model) + spec_high_bullets(model)
                + spec_concentration_bullets(model.take(idx as int + 1)));
        }
        idx = idx + 1;
    }

    if what_to_do.len() == 0 {
        if has_failures {
            what_to_do.push(String::from_str(
                "Some structural checks failed. Review details above.",
            ));
        } else {
            what_to_do.push(String::from_str(
                "All structural checks passed. Token appears fairly launched.",
            ));
        }
        proof {
            assert(what_to_do@.map_values(|s: String| s@) =~= spec_what_to_do(model));
        }
    }

    ExplainSection { summary, method, interpretation: InterpretationSection { what_to_do } }
}

} // verus!
