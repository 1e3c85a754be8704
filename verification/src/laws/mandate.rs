//! What holds of mandates, of the integrity of promotions and of kept capabilities.
use crate::artifact::ArtifactKind;
use crate::error::ErrorView;
use crate::foundation::{Asset, TargetPortfolio};
use crate::longitudinal::{
    CapabilityRetentionMatrix, CapabilityRetentionPolicy, CapabilityScenarioResult,
    MandateActionType, MandateAssessment, MandateSnapshot, MandateViolation, MetricVector,
    ModelQualificationEvidence, ModelQualificationGate, ModelQualificationKey,
    ModelQualificationReport, PromotionIntegrityEvidence, differences, gross_exposure,
    noncritical_regressions, saturated_difference, scenario_names, weight_sum,
};
use crate::text::blank;
use crate::time::{UtcTime, earlier};
use vstd::prelude::*;

verus! {

/// The sum of the weights of a portfolio.
pub open spec fn total_of(portfolio: TargetPortfolio) -> int {
    weight_sum(portfolio.weights.values(), portfolio.weights.keys().len())
}

proof fn weights_are_not_negative(portfolio: TargetPortfolio, n: nat)
    ensures
        weight_sum(portfolio.weights.values(), n) >= 0,
    decreases n,
{
    if n > 0 {
        weights_are_not_negative(portfolio, (n - 1) as nat);
    }
}

/// The exposure of a portfolio is the sum of its weights, as far as it can be counted.
pub proof fn exposure_is_the_sum_of_weights(portfolio: TargetPortfolio)
    ensures
        total_of(portfolio) >= 0,
        total_of(portfolio) <= u32::MAX ==> gross_exposure(portfolio) == total_of(portfolio),
        total_of(portfolio) > u32::MAX ==> gross_exposure(portfolio) == u32::MAX,
{
    weights_are_not_negative(portfolio, portfolio.weights.keys().len());
}

/// Where a mandate forbids to increase risk, a change after which the weights sum to more than
/// before is against it.
pub proof fn rising_exposure_is_an_increase_of_risk(
    mandate: MandateSnapshot,
    before: TargetPortfolio,
    after: TargetPortfolio,
    drawdown: int,
    turnover: int,
)
    requires
        mandate.prohibited_actions@.contains(MandateActionType::IncreaseRisk),
        total_of(after) > total_of(before),
        total_of(before) < u32::MAX,
    ensures
        mandate.is_violated(
            MandateViolation::ProhibitedAction,
            before,
            after,
            drawdown,
            turnover,
        ),
{
    exposure_is_the_sum_of_weights(before);
    exposure_is_the_sum_of_weights(after);
}

/// Where to increase risk is all that a mandate forbids to do, a change after which the weights
/// sum to no more than before does nothing forbidden.
pub proof fn falling_exposure_is_no_increase_of_risk(
    mandate: MandateSnapshot,
    before: TargetPortfolio,
    after: TargetPortfolio,
    drawdown: int,
    turnover: int,
)
    requires
        forall|action: MandateActionType| #[trigger]
            mandate.prohibited_actions@.contains(action) ==> action is IncreaseRisk,
        total_of(after) <= total_of(before),
    ensures
        !mandate.is_violated(
            MandateViolation::ProhibitedAction,
            before,
            after,
            drawdown,
            turnover,
        ),
{
    exposure_is_the_sum_of_weights(before);
    exposure_is_the_sum_of_weights(after);
}

/// Where a mandate forbids to trade, any change of a weight is against it; where that is all it
/// forbids to do, to leave every weight as it was is not.
pub proof fn any_change_is_a_trade(
    mandate: MandateSnapshot,
    before: TargetPortfolio,
    after: TargetPortfolio,
    drawdown: int,
    turnover: int,
)
    ensures
        mandate.prohibited_actions@.contains(MandateActionType::Trade) && before.weights@
            != after.weights@ ==> mandate.is_violated(
            MandateViolation::ProhibitedAction,
            before,
            after,
            drawdown,
            turnover,
        ),
        (forall|action: MandateActionType| #[trigger]
            mandate.prohibited_actions@.contains(action) ==> action is Trade) && before.weights@
            == after.weights@ ==> !mandate.is_violated(
            MandateViolation::ProhibitedAction,
            before,
            after,
            drawdown,
            turnover,
        ),
{
}

/// Where a mandate forbids leverage, a target with some of TQQQ or SOXL is against it; where that
/// is all it forbids to do, a target without them is not, however it changed.
pub proof fn leveraged_funds_are_leverage(
    mandate: MandateSnapshot,
    before: TargetPortfolio,
    after: TargetPortfolio,
    drawdown: int,
    turnover: int,
)
    ensures
        mandate.prohibited_actions@.contains(MandateActionType::LeveragedExposure) && (
        after.weights@.dom().contains(Asset::Tqqq) && after.weights@[Asset::Tqqq].0 > 0
            || after.weights@.dom().contains(Asset::Soxl) && after.weights@[Asset::Soxl].0 > 0)
            ==> mandate.is_violated(
            MandateViolation::ProhibitedAction,
            before,
            after,
            drawdown,
            turnover,
        ),
        (forall|action: MandateActionType| #[trigger]
            mandate.prohibited_actions@.contains(action) ==> action is LeveragedExposure) && (
        after.weights@.dom().contains(Asset::Tqqq) ==> after.weights@[Asset::Tqqq].0 == 0) && (
        after.weights@.dom().contains(Asset::Soxl) ==> after.weights@[Asset::Soxl].0 == 0)
            ==> !mandate.is_violated(
            MandateViolation::ProhibitedAction,
            before,
            after,
            drawdown,
            turnover,
        ),
{
}

/// A forbidden asset is held exactly where one that the mandate names has a weight above nothing
/// after the change; what was held before does not matter.
pub proof fn forbidden_asset_has_a_weight(
    mandate: MandateSnapshot,
    before: TargetPortfolio,
    after: TargetPortfolio,
    drawdown: int,
    turnover: int,
)
    ensures
        mandate.is_violated(
            MandateViolation::ProhibitedAsset,
            before,
            after,
            drawdown,
            turnover,
        ) <==> !(forall|asset: Asset| #[trigger]
            mandate.prohibited_assets@.contains(asset) && after.weights@.dom().contains(asset)
                ==> after.weights@[asset].0 == 0),
{
}

/// Each limit of a mandate is kept up to and at the limit itself: the exposure and the cash that
/// it leaves, the drawdown and the turnover.
pub proof fn limits_are_kept_up_to_the_limit(
    mandate: MandateSnapshot,
    before: TargetPortfolio,
    after: TargetPortfolio,
    drawdown: int,
    turnover: int,
)
    ensures
        mandate.is_violated(MandateViolation::GrossExposure, before, after, drawdown, turnover)
            <==> total_of(after) > mandate.maximum_gross_exposure.0
            && mandate.maximum_gross_exposure.0 < u32::MAX,
        mandate.is_violated(
            MandateViolation::MinimumCashReserve,
            before,
            after,
            drawdown,
            turnover,
        ) <==> mandate.minimum_cash_reserve.0 > 0 && total_of(after)
            + mandate.minimum_cash_reserve.0 > 1_000_000,
        mandate.is_violated(MandateViolation::DrawdownBudget, before, after, drawdown, turnover)
            <==> drawdown > mandate.maximum_drawdown_budget.0,
        mandate.is_violated(MandateViolation::Turnover, before, after, drawdown, turnover)
            <==> turnover > mandate.maximum_turnover.0,
{
    exposure_is_the_sum_of_weights(after);
}

/// A portfolio is as far from a mandate as it exceeds the exposure, falls short of the cash and
/// exceeds the drawdown together; and it is at some distance exactly where one of those three
/// limits is broken.
pub proof fn distance_measures_what_is_broken(
    mandate: MandateSnapshot,
    before: TargetPortfolio,
    after: TargetPortfolio,
    drawdown: int,
    turnover: int,
)
    requires
        0 <= total_of(after) <= u32::MAX,
        0 <= drawdown,
    ensures
        mandate.distance_ppm(after, drawdown) > 0 <==> {
            ||| mandate.is_violated(
                MandateViolation::GrossExposure,
                before,
                after,
                drawdown,
                turnover,
            )
            ||| mandate.is_violated(
                MandateViolation::MinimumCashReserve,
                before,
                after,
                drawdown,
                turnover,
            )
            ||| mandate.is_violated(
                MandateViolation::DrawdownBudget,
                before,
                after,
                drawdown,
                turnover,
            )
        },
        total_of(after) <= mandate.maximum_gross_exposure.0 && total_of(after)
            + mandate.minimum_cash_reserve.0 <= 1_000_000 && mandate.maximum_drawdown_budget.0
            <= drawdown <= u32::MAX ==> mandate.distance_ppm(after, drawdown) == drawdown
            - mandate.maximum_drawdown_budget.0,
        total_of(after) >= mandate.maximum_gross_exposure.0 && total_of(after)
            + mandate.minimum_cash_reserve.0 <= 1_000_000 && drawdown
            <= mandate.maximum_drawdown_budget.0 ==> mandate.distance_ppm(after, drawdown)
            == total_of(after) - mandate.maximum_gross_exposure.0,
        total_of(after) <= mandate.maximum_gross_exposure.0 && total_of(after) <= 1_000_000
            && total_of(after) + mandate.minimum_cash_reserve.0 >= 1_000_000 && drawdown
            <= mandate.maximum_drawdown_budget.0 ==> mandate.distance_ppm(after, drawdown)
            == total_of(after) + mandate.minimum_cash_reserve.0 - 1_000_000,
        total_of(after) >= mandate.maximum_gross_exposure.0 && total_of(after) <= 1_000_000
            && total_of(after) + mandate.minimum_cash_reserve.0 >= 1_000_000 && drawdown
            >= mandate.maximum_drawdown_budget.0 && mandate.distance_ppm(after, drawdown) < u32::MAX
            ==> mandate.distance_ppm(after, drawdown) == 2 * total_of(after) + drawdown
            + mandate.minimum_cash_reserve.0 - 1_000_000 - mandate.maximum_gross_exposure.0
            - mandate.maximum_drawdown_budget.0,
{
    exposure_is_the_sum_of_weights(after);
}

/// A deeper drawdown is never nearer to a mandate.
pub proof fn deeper_drawdown_is_never_nearer(
    mandate: MandateSnapshot,
    target: TargetPortfolio,
    drawdown: int,
    deeper: int,
)
    requires
        drawdown <= deeper,
    ensures
        mandate.distance_ppm(target, drawdown) <= mandate.distance_ppm(target, deeper),
{
}

/// A mandate is accepted exactly where its four limits are shares of the whole and both policies
/// are named.
pub proof fn accepted_mandate_limits_are_shares(mandate: MandateSnapshot)
    ensures
        mandate.verdict() is Ok <==> {
            &&& mandate.maximum_gross_exposure.0 <= 1_000_000
            &&& mandate.maximum_drawdown_budget.0 <= 1_000_000
            &&& mandate.minimum_cash_reserve.0 <= 1_000_000
            &&& mandate.maximum_turnover.0 <= 1_000_000
            &&& !blank(mandate.loss_response_policy@)
            &&& !blank(mandate.speculation_policy@)
        },
{
}

/// A change is permitted exactly where it breaks nothing and leaves no distance.
pub proof fn permitted_change_breaks_nothing(assessment: MandateAssessment)
    ensures
        assessment.is_permitted() ==> assessment.violations@.len() == 0,
        assessment.is_permitted() ==> assessment.distance_after_ppm == 0,
        assessment.violations@.len() == 0 && assessment.distance_after_ppm == 0
            ==> assessment.is_permitted(),
{
}

/// A promotion is clean exactly where the evaluator that was committed to was revealed only after
/// the candidate was sealed, the candidate is the sealed one, and nothing at all went wrong.
pub proof fn clean_promotion_reveals_after_the_seal(evidence: PromotionIntegrityEvidence)
    ensures
        evidence.is_clean() <==> {
            &&& evidence.evaluator_revealed_after_candidate_seal
            &&& evidence.revealed_evaluator_hash is Some
            &&& evidence.revealed_evaluator_hash->0@ == evidence.hidden_evaluator_commitment@
            &&& evidence.candidate_sealed_at is Some
            &&& evidence.evaluator_revealed_at is Some
            &&& earlier(evidence.candidate_sealed_at->0, evidence.evaluator_revealed_at->0)
            &&& evidence.candidate_trajectory_hash@ == evidence.sealed_trajectory_hash@
            &&& evidence.unauthorized_actions + evidence.mandate_violations
                + evidence.evidence_fabrications + evidence.critical_regressions
                + evidence.skipped_required_scenarios + evidence.grader_or_metric_mutations == 0
        },
{
}

/// A difference that can be counted is exact, and one that cannot stands at the bound on its side.
pub proof fn difference_is_exact_where_it_fits(a: i64, b: i64)
    ensures
        i64::MIN <= a - b <= i64::MAX ==> saturated_difference(a, b) + b == a,
        a - b > i64::MAX ==> saturated_difference(a, b) == i64::MAX,
        a - b < i64::MIN ==> saturated_difference(a, b) == i64::MIN,
        saturated_difference(a, b) > 0 <==> a > b,
        saturated_difference(a, b) < 0 <==> a < b,
{
}

/// Two vectors differ in exactly the metrics that both have, in each by the first less the second.
pub proof fn vectors_differ_in_shared_metrics(
    a: Map<Seq<char>, i64>,
    b: Map<Seq<char>, i64>,
    k: Seq<char>,
)
    ensures
        differences(a, b).dom().contains(k) <==> a.dom().contains(k) && b.dom().contains(k),
        a.dom().contains(k) && b.dom().contains(k) && i64::MIN <= a[k] - b[k] <= i64::MAX
            ==> differences(a, b)[k] + b[k] == a[k],
{
}

/// What a vector has for a name is what it holds under it.
pub proof fn metric_is_read_under_its_name(vector: MetricVector, key: Seq<char>)
    ensures
        vector.metrics@.dom().contains(key) ==> vector.at(key) == Some(vector.metrics@[key]),
        !vector.metrics@.dom().contains(key) ==> vector.at(key) is None,
{
}

/// Each scenario that is not critical, that the champion passed and the challenger failed, counts
/// once, and no other counts.
pub proof fn regressions_are_counted_once(
    list: Seq<CapabilityScenarioResult>,
    more: CapabilityScenarioResult,
)
    ensures
        noncritical_regressions(list.push(more), list.len() + 1) - noncritical_regressions(
            list,
            list.len(),
        ) == (if more.champion_passed && !more.challenger_passed && !more.critical {
            1int
        } else {
            0int
        }),
        noncritical_regressions(Seq::<CapabilityScenarioResult>::empty(), 0) == 0,
{
    same_prefix_same_count(list, more, list.len());
}

proof fn same_prefix_same_count(
    list: Seq<CapabilityScenarioResult>,
    more: CapabilityScenarioResult,
    n: nat,
)
    requires
        n <= list.len(),
    ensures
        noncritical_regressions(list.push(more), n) == noncritical_regressions(list, n),
    decreases n,
{
    if n > 0 {
        same_prefix_same_count(list, more, (n - 1) as nat);
    }
}

/// A matrix is accepted exactly where it has a bounded number of named scenarios, no name twice,
/// and requires some, all of which it has.
pub proof fn accepted_matrix_has_what_it_requires(matrix: CapabilityRetentionMatrix)
    ensures
        matrix.verdict() is Ok <==> {
            &&& 0 < matrix.scenarios@.len() <= 256
            &&& matrix.required_scenarios@.len() != 0
            &&& forall|i: int|
                0 <= i < matrix.scenarios@.len() ==> !blank(
                    (#[trigger] matrix.scenarios@[i]).scenario_id@,
                )
            &&& forall|i: int, j: int|
                0 <= i < j < matrix.scenarios@.len() ==> (
                #[trigger] matrix.scenarios@[i]).scenario_id@ != (
                #[trigger] matrix.scenarios@[j]).scenario_id@
            &&& forall|name: Seq<char>| #[trigger]
                matrix.required_scenarios@.contains(name) ==> has_scenario(matrix, name)
        },
{
    let names = scenario_names(matrix.scenarios@);
    assert forall|name: Seq<char>| #[trigger] names.to_set().contains(name) == has_scenario(
        matrix,
        name,
    ) by {
        if names.to_set().contains(name) {
            let i = choose|i: int| 0 <= i < names.len() && names[i] == name;
            assert(matrix.scenarios@[i].scenario_id@ == name);
        }
        if has_scenario(matrix, name) {
            let i = choose|i: int|
                0 <= i < matrix.scenarios@.len() && (#[trigger] matrix.scenarios@[i]).scenario_id@
                    == name;
            assert(names[i] == name);
        }
    }
    if matrix.required_scenarios@.subset_of(names.to_set()) {
        assert forall|name: Seq<char>| #[trigger]
            matrix.required_scenarios@.contains(name) implies has_scenario(matrix, name) by {
            assert(names.to_set().contains(name));
        }
    }
    if names.no_duplicates() {
        assert forall|i: int, j: int| 0 <= i < j < matrix.scenarios@.len() implies (
        #[trigger] matrix.scenarios@[i]).scenario_id@ != (
        #[trigger] matrix.scenarios@[j]).scenario_id@ by {
            assert(names[i] != names[j]);
        }
    }
    if forall|i: int, j: int|
        0 <= i < j < matrix.scenarios@.len() ==> (#[trigger] matrix.scenarios@[i]).scenario_id@ != (
        #[trigger] matrix.scenarios@[j]).scenario_id@ {
        assert forall|i: int, j: int|
            0 <= i < names.len() && 0 <= j < names.len() && i != j implies names[i] != names[j] by {
            if i < j {
                assert(matrix.scenarios@[i].scenario_id@ != matrix.scenarios@[j].scenario_id@);
            } else {
                assert(matrix.scenarios@[j].scenario_id@ != matrix.scenarios@[i].scenario_id@);
            }
        }
    }
}

/// A matrix has a scenario of a name.
pub open spec fn has_scenario(matrix: CapabilityRetentionMatrix, name: Seq<char>) -> bool {
    exists|i: int|
        0 <= i < matrix.scenarios@.len() && (#[trigger] matrix.scenarios@[i]).scenario_id@ == name
}

/// Critical capabilities are kept exactly where the matrix is acceptable, the way back was tried,
/// and the challenger passed every critical scenario that the champion passed.
pub proof fn kept_capabilities_do_not_regress(matrix: CapabilityRetentionMatrix)
    ensures
        matrix.keeps_critical() <==> {
            &&& matrix.verdict() is Ok
            &&& matrix.rollback_verified
            &&& forall|i: int|
                0 <= i < matrix.scenarios@.len() && (#[trigger] matrix.scenarios@[i]).critical
                    && matrix.scenarios@[i].champion_passed
                    ==> matrix.scenarios@[i].challenger_passed
        },
{
}

/// A matrix meets a policy exactly where it keeps what is critical, the challenger passes what the
/// policy does not forgive, neither drawdown nor tail risk of any scenario worsens by more than
/// the policy allows, and few enough other scenarios regress.
pub proof fn matrix_that_meets_a_policy_worsens_little(
    matrix: CapabilityRetentionMatrix,
    policy: CapabilityRetentionPolicy,
)
    ensures
        matrix.meets(policy) <==> {
            &&& matrix.keeps_critical()
            &&& noncritical_regressions(matrix.scenarios@, matrix.scenarios@.len())
                <= policy.max_noncritical_regression_count
            &&& forall|i: int|
                0 <= i < matrix.scenarios@.len() && policy.zero_tolerance_scenarios@.contains(
                    (#[trigger] matrix.scenarios@[i]).scenario_id@,
                ) ==> matrix.scenarios@[i].challenger_passed
            &&& forall|i: int|
                0 <= i < matrix.scenarios@.len() && (
                #[trigger] matrix.scenarios@[i]).delta_metrics.at("max_drawdown_ppm"@) is Some
                    ==> matrix.scenarios@[i].delta_metrics.at("max_drawdown_ppm"@)->0
                    + policy.max_drawdown_degradation_ppm >= 0
            &&& forall|i: int|
                0 <= i < matrix.scenarios@.len() && (
                #[trigger] matrix.scenarios@[i]).delta_metrics.at("tail_risk_ppm"@) is Some
                    ==> matrix.scenarios@[i].delta_metrics.at("tail_risk_ppm"@)->0
                    + policy.tail_risk_degradation_ppm >= 0
        },
{
    if forall|i: int|
        0 <= i < matrix.scenarios@.len() ==> CapabilityRetentionMatrix::scenario_meets(
            #[trigger] matrix.scenarios@[i],
            policy,
        ) {
        assert forall|i: int|
            0 <= i < matrix.scenarios@.len() && policy.zero_tolerance_scenarios@.contains(
                (#[trigger] matrix.scenarios@[i]).scenario_id@,
            ) implies matrix.scenarios@[i].challenger_passed by {
            assert(CapabilityRetentionMatrix::scenario_meets(matrix.scenarios@[i], policy));
        }
    }
}

/// Two keys are the same exactly where each of their eight parts is.
pub proof fn same_key_has_the_same_parts(a: ModelQualificationKey, b: ModelQualificationKey)
    ensures
        a.equals(b) <==> b.equals(a),
        a.equals(a),
        a.equals(b) ==> a.provider_id@ == b.provider_id@ && a.model_id@ == b.model_id@
            && a.model_snapshot_hash@ == b.model_snapshot_hash@ && a.system_prompt_hash@
            == b.system_prompt_hash@ && a.role_prompt_hash@ == b.role_prompt_hash@
            && a.tool_schema_hash@ == b.tool_schema_hash@ && a.runtime_config_hash@
            == b.runtime_config_hash@ && a.context_strategy_hash@ == b.context_strategy_hash@,
        a.verdict() is Ok <==> !blank(a.provider_id@) && !blank(a.model_id@),
{
}

/// Evidence qualifies a model only with a manifest and five evaluations.
pub proof fn accepted_qualification_has_five_evaluations(evidence: ModelQualificationEvidence)
    ensures
        evidence.verdict() is Ok <==> {
            &&& evidence.frozen_context_manifest.kind == ArtifactKind::ContextManifest
            &&& evidence.replay_evaluation.kind == ArtifactKind::Evaluation
            &&& evidence.adversarial_evaluation.kind == ArtifactKind::Evaluation
            &&& evidence.execution_simulation_evaluation.kind == ArtifactKind::Evaluation
            &&& evidence.shadow_evaluation.kind == ArtifactKind::Evaluation
            &&& evidence.canary_evaluation.kind == ArtifactKind::Evaluation
        },
{
}

/// A qualification lets exactly the expected model in, on a valid report that passed every stage without
/// a critical regression, from its qualification up to its expiry.
pub proof fn gate_opens_for_a_complete_current_report(
    expected: ModelQualificationKey,
    report: ModelQualificationReport,
    now: UtcTime,
)
    ensures
        ModelQualificationGate::opens(expected, report, now) <==> {
            &&& report.key.equals(expected)
            &&& expected.verdict() is Ok
            &&& report.evidence.verdict() is Ok
            &&& !blank(report.approved_by@)
            &&& earlier(report.qualified_at, report.expires_at)
            &&& report.report_hash@ == report.identity()
            &&& report.replay_passed
            &&& report.adversarial_passed
            &&& report.execution_simulation_passed
            &&& report.shadow_passed
            &&& report.canary_passed
            &&& report.critical_regressions == 0
            &&& !earlier(now, report.qualified_at)
            &&& !earlier(report.expires_at, now)
        },
        report.verdict() is Ok <==> report.key.verdict() is Ok && report.evidence.verdict() is Ok
            && !blank(report.approved_by@) && earlier(report.qualified_at, report.expires_at)
            && report.report_hash@ == report.identity(),
        report.is_complete() <==> report.replay_passed && report.adversarial_passed
            && report.execution_simulation_passed && report.shadow_passed && report.canary_passed
            && report.critical_regressions == 0,
{
}

} // verus!
