//! Score aggregation: reduce a list of check results to one 0-100
//! fairness score and a categorical grade.
//!
//! Checks whose sub-score is absent (status Unknown) contribute neither
//! weight nor points. A Critical-severity failure forces the grade to
//! Compromised irrespective of the numeric score, and so does missing
//! evidence (no usable checks): a fail-closed policy.

use vstd::prelude::*;

use crate::types::{check_wf, CheckResult, CheckResultV, CheckStatus, Grade, Severity,
    spec_grade_from_score};
use crate::checks::spec_weight_sum;

verus! {

/// Weight and contribution that one check carried into the score.
/// `weighted_points` is in hundredths of a score point: the check's
/// weight times its sub-score.
pub struct ScoreComponent {
    pub id: String,
    pub weight: u8,
    pub component_score: Option<u8>,
    pub weighted_points: Option<u32>,
}

/// Ghost view of [`ScoreComponent`].
pub struct ScoreComponentV {
    pub id: Seq<char>,
    pub weight: u8,
    pub component_score: Option<u8>,
    pub weighted_points: Option<u32>,
}

impl View for ScoreComponent {
    type V = ScoreComponentV;

    open spec fn view(&self) -> ScoreComponentV {
        (ScoreComponentV {
            id: self.id@,
            weight: self.weight,
            component_score: self.component_score,
            weighted_points: self.weighted_points,
        })
    }
}

impl Clone for ScoreComponent {
    fn clone(&self) -> (r: Self)
        ensures
            r == *self,
    {
        ScoreComponent {
            id: self.id.clone(),
            weight: self.weight,
            component_score: self.component_score,
            weighted_points: self.weighted_points,
        }
    }
}

/// The aggregated verdict over all checks.
pub struct ScoreResult {
    pub model: String,
    pub fairness_score: Option<u8>,
    pub grade: Grade,
    pub components: Vec<ScoreComponent>,
    pub weights_total: u8,
    pub notes: Vec<String>,
}

/// Ghost view of [`ScoreResult`].
pub struct ScoreResultV {
    pub model: Seq<char>,
    pub fairness_score: Option<u8>,
    pub grade: Grade,
    pub components: Seq<ScoreComponentV>,
    pub weights_total: u8,
    pub notes: Seq<Seq<char>>,
}

impl View for ScoreResult {
    type V = ScoreResultV;

    open spec fn view(&self) -> ScoreResultV {
        (ScoreResultV {
            model: self.model@,
            fairness_score: self.fairness_score,
            grade: self.grade,
            components: self.components@.map_values(|c: ScoreComponent| c@),
            weights_total: self.weights_total,
            notes: self.notes@.map_values(|s: String| s@),
        })
    }
}

impl Clone for ScoreResult {
    fn clone(&self) -> (r: Self)
        ensures
            r@ == self@,
    {
        let components = self.components.clone();
        let notes = self.notes.clone();
        proof {
            assert(components@ =~= self.components@);
            assert(notes@ =~= self.notes@);
        }
        ScoreResult {
            model: self.model.clone(),
            fairness_score: self.fairness_score,
            grade: self.grade,
            components,
            weights_total: self.weights_total,
            notes,
        }
    }
}

// ---------------------------------------------------------------------
// Aggregation model
// ---------------------------------------------------------------------

/// Sum of the weights of the checks that carry a sub-score.
pub open spec fn spec_counted_weight(s: Seq<CheckResultV>) -> int
    decreases s.len(),
{
    if s.len() == 0 {
        0
    } else {
        spec_counted_weight(s.drop_last()) + (match s.last().score_component {
            Some(_) => s.last().weight as int,
            None => 0,
        })
    }
}

/// Sum of weight times sub-score over the checks that carry one, in
/// hundredths of a score point.
pub open spec fn spec_counted_points(s: Seq<CheckResultV>) -> int
    decreases s.len(),
{
    if s.len() == 0 {
        0
    } else {
        spec_counted_points(s.drop_last()) + (match s.last().score_component {
            Some(sc) => s.last().weight as int * sc as int,
            None => 0,
        })
    }
}

/// Whether some check failed at Critical severity.
pub open spec fn spec_has_critical_failure(s: Seq<CheckResultV>) -> bool
    decreases s.len(),
{
    if s.len() == 0 {
        false
    } else {
        spec_has_critical_failure(s.drop_last()) || (s.last().severity == Severity::Critical
            && s.last().status == CheckStatus::Fail)
    }
}

/// The fairness score when `w > 0` points were counted: the weighted
/// mean of the sub-scores, rounded half up.
pub open spec fn spec_fairness_score(p: int, w: int) -> int {
    (2 * p + w) / (2 * w)
}

/// The grade: a Critical failure forces Compromised; otherwise the
/// numeric score decides; with no usable checks the verdict is
/// fail-closed Compromised.
pub open spec fn spec_aggregate_grade(s: Seq<CheckResultV>) -> Grade {
    if spec_has_critical_failure(s) {
        Grade::Compromised
    } else if spec_counted_weight(s) > 0 {
        spec_grade_from_score(spec_fairness_score(spec_counted_points(s), spec_counted_weight(s)))
    } else {
        Grade::Compromised
    }
}

/// There is a Critical-severity failure exactly when some position
/// holds one.
pub proof fn lemma_has_critical_failure_index(s: Seq<CheckResultV>)
    ensures
        spec_has_critical_failure(s) <==> exists|i: int|
            0 <= i < s.len() && s[i].severity == Severity::Critical && s[i].status
                == CheckStatus::Fail,
    decreases s.len(),
{
    if s.len() > 0 {
        lemma_has_critical_failure_index(s.drop_last());
        if spec_has_critical_failure(s.drop_last()) {
            let i = choose|i: int|
                0 <= i < s.drop_last().len() && s.drop_last()[i].severity == Severity::Critical
                    && s.drop_last()[i].status == CheckStatus::Fail;
            assert(s[i].severity == Severity::Critical && s[i].status == CheckStatus::Fail);
        } else if s.last().severity == Severity::Critical && s.last().status == CheckStatus::Fail {
            assert(s[s.len() - 1].severity == Severity::Critical);
        } else if exists|i: int|
            0 <= i < s.len() && s[i].severity == Severity::Critical && s[i].status
                == CheckStatus::Fail {
            let i = choose|i: int|
                0 <= i < s.len() && s[i].severity == Severity::Critical && s[i].status
                    == CheckStatus::Fail;
            if i < s.len() - 1 {
                assert(s.drop_last()[i].severity == Severity::Critical);
            }
        }
    }
}

/// Counted weight never exceeds the total declared weight.
pub proof fn lemma_counted_weight_le_total(s: Seq<CheckResultV>)
    ensures
        0 <= spec_counted_weight(s) <= spec_weight_sum(s),
    decreases s.len(),
{
    if s.len() > 0 {
        lemma_counted_weight_le_total(s.drop_last());
    }
}

/// On well-formed checks the counted points never exceed one hundred
/// times the counted weight.
pub proof fn lemma_counted_points_bound(s: Seq<CheckResultV>)
    requires
        forall|i: int| 0 <= i < s.len() ==> check_wf(#[trigger] s[i]),
    ensures
        0 <= spec_counted_points(s) <= 100 * spec_counted_weight(s),
    decreases s.len(),
{
    if s.len() > 0 {
        assert(forall|i: int| 0 <= i < s.drop_last().len() ==> check_wf(#[trigger] s.drop_last()[i]));
        lemma_counted_points_bound(s.drop_last());
        assert(check_wf(s[s.len() - 1]));
        match s.last().score_component {
            Some(sc) => {
                assert(s.last().weight as int * sc as int <= s.last().weight as int * 100) by (
                nonlinear_arith)
                    requires
                        sc as int <= 100,
                        s.last().weight as int >= 0,
                ;
            },
            None => {},
        }
    }
}

/// A check with Unknown status carries no sub-score, and dropping it
/// from the list leaves the counted weight unchanged: its weight is
/// excluded from `weights_total`.
pub proof fn lemma_unknown_weight_excluded(s: Seq<CheckResultV>, i: int)
    requires
        forall|j: int| 0 <= j < s.len() ==> check_wf(#[trigger] s[j]),
        0 <= i < s.len(),
        s[i].status == CheckStatus::Unknown,
    ensures
        s[i].score_component is None,
        spec_counted_weight(s) == spec_counted_weight(s.remove(i)),
    decreases s.len(),
{
    assert(check_wf(s[i]));
    if i == s.len() - 1 {
        assert(s.remove(i) =~= s.drop_last());
    } else {
        assert(forall|j: int| 0 <= j < s.drop_last().len() ==> check_wf(#[trigger] s.drop_last()[j]));
        lemma_unknown_weight_excluded(s.drop_last(), i);
        assert(s.remove(i).drop_last() =~= s.drop_last().remove(i));
        assert(s.remove(i).last() == s.last());
    }
}

// ---------------------------------------------------------------------
// Aggregation
// ---------------------------------------------------------------------

/// Grade derived from a numeric fairness score by fixed thresholds:
/// 80 and above is Strong, 60 and above Mixed, 40 and above Fragile,
/// anything lower Compromised.
pub fn grade_from_score(score: u8) -> (g: Grade)
    ensures
        g == spec_grade_from_score(score as int),
{
    if score >= 80 {
        Grade::Strong
    } else if score >= 60 {
        Grade::Mixed
    } else if score >= 40 {
        Grade::Fragile
    } else {
        Grade::Compromised
    }
}

/// Contract of [`aggregate_score`]: how a [`ScoreResult`] relates to
/// the checks it was reduced from.
pub open spec fn spec_score_result(model: Seq<CheckResultV>, s: ScoreResultV) -> bool {
    &&& s.weights_total as int == spec_counted_weight(model)
    &&& s.fairness_score == (if spec_counted_weight(model) > 0 {
        Some(spec_fairness_score(spec_counted_points(model), spec_counted_weight(model)) as u8)
    } else {
        Option::<u8>::None
    })
    &&& s.grade == spec_aggregate_grade(model)
    &&& (spec_has_critical_failure(model) ==> s.grade == Grade::Compromised)
    &&& (spec_counted_weight(model) == 0 ==> s.fairness_score is None && s.grade
        == Grade::Compromised)
    &&& s.model == "weighted_sum_v1"@
    &&& s.components.len() == model.len()
    &&& forall|i: int|
        0 <= i < model.len() ==> {
            let comp = #[trigger] s.components[i];
            &&& comp.id == model[i].id
            &&& comp.weight == model[i].weight
            &&& comp.component_score == model[i].score_component
            &&& comp.weighted_points == (match model[i].score_component {
                Some(sc) => Some((model[i].weight * sc) as u32),
                None => None,
            })
        }
}

/// Reduce the check results to one [`ScoreResult`].
///
/// Checks with a sub-score contribute `weight` to `weights_total` and
/// `weight * sub-score` to the points; the fairness score is the
/// rounded weighted mean, absent when nothing was counted. Any
/// Critical-severity failure forces the grade to Compromised.
pub fn aggregate_score(checks: &Vec<CheckResult>) -> (sr: ScoreResult)
    requires
        forall|i: int| 0 <= i < checks@.len() ==> check_wf(#[trigger] checks@[i]@),
        spec_weight_sum(checks@.map_values(|c: CheckResult| c@)) <= 255,
    ensures
        spec_score_result(checks@.map_values(|c: CheckResult| c@), sr@),
{
    let ghost model = checks@.map_values(|c: CheckResult| c@);
    let mut weights_total: u32 = 0;
    let mut points_total: u32 = 0;
    let mut components: Vec<ScoreComponent> = Vec::new();
    let mut has_critical_failure = false;
    let mut idx: usize = 0;

    proof {
        assert(model.take(0) =~= Seq::<CheckResultV>::empty());
    }
    while idx < checks.len()
        invariant
            0 <= idx <= checks@.len(),
            model == checks@.map_values(|c: CheckResult| c@),
            forall|i: int| 0 <= i < checks@.len() ==> check_wf(#[trigger] checks@[i]@),
            spec_weight_sum(model) <= 255,
            weights_total as int == spec_counted_weight(model.take(idx as int)),
            points_total as int == spec_counted_points(model.take(idx as int)),
            has_critical_failure == spec_has_critical_failure(model.take(idx as int)),
            components@.len() == idx as int,
            forall|i: int|
                0 <= i < idx as int ==> {
                    let comp = #[trigger] components@[i]@;
                    &&& comp.id == model[i].id
                    &&& comp.weight == model[i].weight
                    &&& comp.component_score == model[i].score_component
                    &&& comp.weighted_points == (match model[i].score_component {
                        Some(sc) => Some((model[i].weight * sc) as u32),
                        None => None,
                    })
                },
        decreases checks@.len() - idx,
    {
        let check = &checks[idx];
        proof {
            assert(model[idx as int] == checks@[idx as int]@);
            assert(check_wf(model[idx as int]));
            assert(model.take(idx as int + 1).drop_last() =~= model.take(idx as int));
            assert(model.take(idx as int + 1).last() == model[idx as int]);
            assert(forall|j: int|
                0 <= j < model.take(idx as int + 1).len() ==> check_wf(
                    #[trigger] model.take(idx as int + 1)[j],
                ));
            lemma_counted_points_bound(model.take(idx as int + 1));
            lemma_counted_weight_le_total(model.take(idx as int + 1));
            lemma_weight_sum_prefix_le(model, idx as int + 1);
        }
        let component = match check.score_component {
            Some(score) => {
                let weighted_points: u32 = (check.weight as u32) * (score as u32);
                weights_total = weights_total + check.weight as u32;
                points_total = points_total + weighted_points;
                ScoreComponent {
                    id: check.id.clone(),
                    weight: check.weight,
                    component_score: Some(score),
                    weighted_points: Some(weighted_points),
                }
            },
            None => {
                ScoreComponent {
                    id: check.id.clone(),
                    weight: check.weight,
                    component_score: None,
                    weighted_points: None,
                }
            },
        };
        components.push(component);
        if matches!(check.severity, Severity::Critical) && matches!(check.status, CheckStatus::Fail) {
            has_critical_failure = true;
        }
        idx = idx + 1;
    }
    proof {
        assert(model.take(checks@.len() as int) =~= model);
        assert(forall|j: int| 0 <= j < model.len() ==> check_wf(#[trigger] model[j]));
        lemma_counted_points_bound(model);
        lemma_counted_weight_le_total(model);
    }

    let fairness_score: Option<u8> = if weights_total == 0 {
        None
    } else {
        let raw = (2 * points_total + weights_total) / (2 * weights_total);
        proof {
            assert(raw as int == spec_fairness_score(
                spec_counted_points(model),
                spec_counted_weight(model),
            ));
            assert(raw <= 100) by (nonlinear_arith)
                requires
                    raw as int == (2 * points_total as int + weights_total as int) / (2
                        * weights_total as int),
                    weights_total as int >= 1,
                    points_total as int <= 100 * weights_total as int,
            ;
        }
        Some(raw as u8)
    };

    let grade = if has_critical_failure {
        Grade::Compromised
    } else {
        match fairness_score {
            Some(score) => grade_from_score(score),
            None => Grade::Compromised,
        }
    };

    ScoreResult {
        model: String::from_str("weighted_sum_v1"),
        fairness_score,
        grade,
        components,
        weights_total: weights_total as u8,
        notes: vec![
            String::from_str(
                "Composite score summarizes structure; individual checks are the source of truth.",
            ),
        ],
    }
}

/// The total declared weight of a prefix is bounded by that of the
/// whole sequence.
proof fn lemma_weight_sum_prefix_le(s: Seq<CheckResultV>, n: int)
    requires
        0 <= n <= s.len(),
    ensures
        spec_weight_sum(s.take(n)) <= spec_weight_sum(s),
    decreases s.len() - n,
{
    if n == s.len() {
        assert(s.take(n) =~= s);
    } else {
        lemma_weight_sum_prefix_le(s, n + 1);
        assert(s.take(n + 1).drop_last() =~= s.take(n));
    }
}

} // verus!
