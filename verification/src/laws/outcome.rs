//! What holds of outcomes: schedules, windows, benchmarks, costs, scores and retrospectives.
use crate::artifact::{ArtifactKind, RefView};
use crate::evaluation::outcome::{
    AttemptRelation, CalibrationReport, CountedRatio, ForecastCalibrationBin, ForecastScore, Outcome,
    OutcomeBenchmark, OutcomeBenchmarkAttribution, OutcomeBenchmarkNavPoint, OutcomeBenchmarkResult,
    OutcomeCostModel, OutcomeExecutionLineage, OutcomeHorizon, OutcomeNavPoint,
    OutcomeOrderCostAttribution, OutcomeSchedule, OutcomeWindow, Retrospective, RetrospectiveDraft,
    RetrospectiveFinding, RetrospectiveLessonProposal, benchmark_path_checks, binned_samples,
    compared_benchmarks, compares_each_benchmark_once, counts_verdict, due, ground_truths,
    horizon_is_taken, narrative_verdict, path_checks, window_checks,
};
use crate::evaluation::risk_ground_truth::{RiskAssessmentAuthority, RiskGroundTruthAssessment};
use crate::lists::{first_fault, list_is_accepted_by_member, list_verdict, no_fault_means_every_check_passes};
use crate::ordered::{ascending, views};
use crate::text::{alike, blank, byte_len};
use crate::time::{UtcTime, earlier};
use vstd::prelude::*;

verus! {

/// A schedule is accepted exactly where it is named, refers to the decision and its contexts, and
/// its execution left the traces that it should.
pub proof fn accepted_schedule_refers_to_its_decision(schedule: OutcomeSchedule)
    ensures
        schedule.verdict() is Ok <==> {
            &&& schedule.schema_version == 2
            &&& !blank(schedule.outcome_id@)
            &&& schedule.decision.kind == ArtifactKind::Decision
            &&& schedule.decision_context.kind == ArtifactKind::DecisionContext
            &&& schedule.execution_context.kind == ArtifactKind::ExecutionContext
            &&& schedule.execution.verdict() is Ok
        },
{
}

/// What was not executed leaves a verdict; what was leaves a commitment and its reconciliation too.
pub proof fn executed_decision_leaves_its_traces(lineage: OutcomeExecutionLineage)
    ensures
        lineage matches OutcomeExecutionLineage::NoOrder { execution_verdict } ==> (
        lineage.verdict() is Ok <==> execution_verdict.kind == ArtifactKind::ExecutionVerdict),
        lineage matches OutcomeExecutionLineage::ReconciledPaper {
            execution_verdict,
            commitment,
            reconciliation,
        } ==> (lineage.verdict() is Ok <==> execution_verdict.kind
            == ArtifactKind::ExecutionVerdict && commitment.kind
            == ArtifactKind::ExecutionCommitment && reconciliation.kind
            == ArtifactKind::Reconciliation),
{
}

/// A horizon is due exactly once as many sessions are over as it counts days, and what is due
/// stands from the nearest horizon to the farthest.
pub proof fn horizon_is_due_after_its_days(sessions: u8, horizon: OutcomeHorizon)
    ensures
        due(sessions).contains(horizon) <==> sessions >= (match horizon {
            OutcomeHorizon::T1 => 1u8,
            OutcomeHorizon::T3 => 3u8,
            OutcomeHorizon::T5 => 5u8,
        }),
        due(sessions).len() <= 3,
        forall|i: int, j: int|
            0 <= i < j < due(sessions).len() ==> (#[trigger] due(sessions)[i]).days() < (
            #[trigger] due(sessions)[j]).days(),
        OutcomeHorizon::T1.days() == 1 && OutcomeHorizon::T3.days() == 3 && OutcomeHorizon::T5.days()
            == 5,
{
    let list = due(sessions);
    if sessions >= 1 {
        assert(list[0] == OutcomeHorizon::T1);
    }
    if sessions >= 3 {
        assert(list[1] == OutcomeHorizon::T3);
    }
    if sessions >= 5 {
        assert(list[2] == OutcomeHorizon::T5);
    }
}

/// A bin counts no more positives than samples, and neither its probabilities nor its scores sum
/// to more than a whole for each sample.
pub proof fn bounded_bin_counts_within_its_samples(bin: ForecastCalibrationBin)
    ensures
        bin.is_bounded() <==> bin.positive_count <= bin.sample_count && bin.probability_sum_ppm
            <= 1_000_000 * bin.sample_count && bin.brier_sum_ppm <= 1_000_000 * bin.sample_count,
{
}

/// The samples of ten bins are those of each of them.
pub proof fn samples_are_those_of_the_ten_bins(bins: Seq<ForecastCalibrationBin>)
    requires
        bins.len() == 10,
    ensures
        binned_samples(bins, 10) == bins[0].sample_count + bins[1].sample_count
            + bins[2].sample_count + bins[3].sample_count + bins[4].sample_count
            + bins[5].sample_count + bins[6].sample_count + bins[7].sample_count
            + bins[8].sample_count + bins[9].sample_count,
{
    reveal_with_fuel(binned_samples, 11);
}

/// A score is accepted exactly where it is of some samples, each in one of its ten bounded bins,
/// and its mean is a share.
pub proof fn accepted_score_places_every_sample(score: ForecastScore)
    ensures
        score.verdict() is Ok <==> {
            &&& score.sample_count > 0
            &&& score.mean_brier_ppm <= 1_000_000
            &&& binned_samples(score.bins@, 10) == score.sample_count
            &&& forall|i: int| 0 <= i < 10 ==> (#[trigger] score.bins@[i]).is_bounded()
        },
{
}

/// A calibration is accepted exactly where it is of some samples and both its errors are shares.
pub proof fn accepted_calibration_is_in_shares(report: CalibrationReport)
    ensures
        report.verdict() is Ok <==> report.sample_count >= 1 && report.mean_brier_ppm <= 1_000_000
            && report.expected_calibration_error_ppm <= 1_000_000,
{
}

/// A ratio is accepted exactly where something was expected, no more was observed, the ratio is a
/// share and its lower confidence is not above it.
pub proof fn accepted_ratio_observes_what_was_expected(ratio: CountedRatio)
    ensures
        ratio.verdict() is Ok <==> {
            &&& ratio.expected_count >= 1
            &&& ratio.observed_count <= ratio.expected_count
            &&& ratio.ratio_ppm <= 1_000_000
            &&& ratio.lower_confidence_ppm is Some ==> ratio.lower_confidence_ppm->0
                <= ratio.ratio_ppm
        },
{
}

/// A point of a path has value left on both sides.
pub proof fn accepted_points_have_value(
    point: OutcomeNavPoint,
    benchmark: OutcomeBenchmarkNavPoint,
    costs: OutcomeCostModel,
)
    ensures
        point.verdict() is Ok <==> point.portfolio_nav_ppm > 0 && point.benchmark_nav_ppm > 0,
        benchmark.verdict() is Ok <==> benchmark.nav_ppm > 0,
        costs.verdict() is Ok <==> costs.transaction_cost_ppm <= 1_000_000 && costs.slippage_ppm
            <= 1_000_000,
{
}

/// Only the two benchmarks that are scaled to the portfolio have a scale, and they need five
/// samples at least where the others need one.
pub proof fn scaled_benchmarks_need_more_samples(benchmark: OutcomeBenchmark)
    ensures
        benchmark.is_scaled() <==> benchmark is BetaMatchedQqq || benchmark is VolatilityTargetedQqq,
        benchmark.is_scaled() ==> benchmark.least_samples() == 5,
        !benchmark.is_scaled() ==> benchmark.least_samples() == 1,
{
}

/// The value of a path on each day is above nothing, and the days follow each other.
pub open spec fn is_sound_path(path: Seq<OutcomeBenchmarkNavPoint>) -> bool {
    &&& forall|i: int| 0 <= i < path.len() ==> (#[trigger] path[i]).nav_ppm > 0
    &&& forall|i: int|
        0 < i < path.len() ==> path[i - 1].observed_trading_day.day() < (
        #[trigger] path[i]).observed_trading_day.day()
}

proof fn path_is_accepted_where_it_is_sound(path: Seq<OutcomeBenchmarkNavPoint>)
    ensures
        first_fault(path.len(), benchmark_path_checks(path)) is Ok <==> is_sound_path(path),
{
    let checks = benchmark_path_checks(path);
    no_fault_means_every_check_passes(path.len(), checks);
    if forall|i: int| 0 <= i < path.len() ==> (#[trigger] checks(i)) is Ok {
        assert forall|i: int| 0 <= i < path.len() implies (#[trigger] path[i]).nav_ppm > 0 by {
            assert(checks(i) is Ok);
        }
        assert forall|i: int| 0 < i < path.len() implies path[i - 1].observed_trading_day.day() < (
        #[trigger] path[i]).observed_trading_day.day() by {
            assert(checks(i) is Ok);
        }
    }
    if is_sound_path(path) {
        assert forall|i: int| 0 <= i < path.len() implies (#[trigger] checks(i)) is Ok by {
            assert(path[i].nav_ppm > 0);
        }
    }
}

/// A comparison that is available is accepted exactly where it is of the current definition, its
/// path has samples enough on ascending days, it has a scale above nothing where the benchmark is
/// scaled and none where not, the path ends at the benchmark's return, and what is active is
/// what the portfolio returned above it.
pub proof fn available_comparison_ends_at_its_return(
    attribution: OutcomeBenchmarkAttribution,
    net: int,
    required: u32,
)
    requires
        attribution.result is Available,
    ensures
        attribution.verdict(net, required) is Ok <==> {
            let path = attribution.result->nav_path@;
            &&& attribution.definition_version == 1
            &&& attribution.definition_hash@ == attribution.benchmark.definition_digest()
            &&& path.len() > 0
            &&& path.len() >= required
            &&& is_sound_path(path)
            &&& attribution.result->scale_ppm is Some <==> attribution.benchmark.is_scaled()
            &&& attribution.result->scale_ppm matches Some(scale) ==> scale > 0
            &&& attribution.result->benchmark_return_ppm + 1_000_000 == path[path.len()
                - 1].nav_ppm
            &&& attribution.result->active_return_ppm + attribution.result->benchmark_return_ppm
                == net
        },
{
    path_is_accepted_where_it_is_sound(attribution.result->nav_path@);
}

/// A comparison that is not available is accepted exactly where it is of the current definition,
/// says how many samples it needs, and has fewer where it says that there were too few.
pub proof fn missing_comparison_says_what_it_needs(
    attribution: OutcomeBenchmarkAttribution,
    net: int,
    required: u32,
)
    requires
        attribution.result is Unavailable,
    ensures
        attribution.verdict(net, required) is Ok <==> {
            let least = attribution.benchmark.least_samples();
            &&& attribution.definition_version == 1
            &&& attribution.definition_hash@ == attribution.benchmark.definition_digest()
            &&& attribution.result->required_samples >= least
            &&& attribution.result->required_samples >= required
            &&& attribution.result->required_samples == least
                || attribution.result->required_samples == required
            &&& attribution.result->reason is InsufficientGovernedSamples
                ==> attribution.result->observed_samples < attribution.result->required_samples
        },
{
}

/// A value that may be missing counts as nothing.
pub open spec fn amount(x: Option<i64>) -> int {
    if x is Some {
        x->0 as int
    } else {
        0
    }
}

/// In a valid window costs and slippage come off what the portfolio returned: what is active and
/// what the benchmark returned, with both costs, make up the portfolio's return with the effects
/// of implementation and of the first valuation.
pub proof fn active_return_bears_the_costs(window: OutcomeWindow, i: int)
    requires
        window.verdict() is Ok,
        0 <= i < window.benchmark_attributions@.len(),
        window.benchmark_attributions@[i].result is Available,
    ensures
        window.benchmark_attributions@[i].result->active_return_ppm
            + window.benchmark_attributions@[i].result->benchmark_return_ppm
            + window.transaction_cost_ppm + window.slippage_ppm == window.portfolio_return_ppm
            + amount(window.implementation_effect_ppm) + amount(
            window.initial_valuation_effect_ppm,
        ),
{
    let checks = window.attribution_checks();
    no_fault_means_every_check_passes(window.benchmark_attributions@.len(), checks);
    assert(checks(i) is Ok);
}

/// Of two valid windows that differ in their costs, the dearer one never shows the higher active
/// return against the same benchmark return.
pub proof fn dearer_window_is_never_more_active(a: OutcomeWindow, b: OutcomeWindow, i: int, j: int)
    requires
        a.verdict() is Ok,
        b.verdict() is Ok,
        0 <= i < a.benchmark_attributions@.len(),
        0 <= j < b.benchmark_attributions@.len(),
        a.benchmark_attributions@[i].result is Available,
        b.benchmark_attributions@[j].result is Available,
        a.benchmark_attributions@[i].result->benchmark_return_ppm
            == b.benchmark_attributions@[j].result->benchmark_return_ppm,
        a.portfolio_return_ppm == b.portfolio_return_ppm,
        a.implementation_effect_ppm == b.implementation_effect_ppm,
        a.initial_valuation_effect_ppm == b.initial_valuation_effect_ppm,
        a.transaction_cost_ppm >= b.transaction_cost_ppm,
        a.slippage_ppm >= b.slippage_ppm,
    ensures
        a.benchmark_attributions@[i].result->active_return_ppm
            <= b.benchmark_attributions@[j].result->active_return_ppm,
{
    active_return_bears_the_costs(a, i);
    active_return_bears_the_costs(b, j);
}

/// What the portfolio returned net of costs, where each step can be counted.
pub proof fn net_return_is_the_return_less_the_costs(window: OutcomeWindow)
    ensures
        window.net_return() matches Some(net) ==> net + window.slippage_ppm
            + window.transaction_cost_ppm == window.portfolio_return_ppm + amount(
            window.implementation_effect_ppm,
        ) + amount(window.initial_valuation_effect_ppm) && i64::MIN <= net <= i64::MAX,
        -1_000_000_000_000 <= window.portfolio_return_ppm <= 1_000_000_000_000
            && -1_000_000_000_000 <= amount(window.implementation_effect_ppm) <= 1_000_000_000_000
            && -1_000_000_000_000 <= amount(window.initial_valuation_effect_ppm)
            <= 1_000_000_000_000 ==> window.net_return() is Some,
{
}

/// A window needs as many samples of a benchmark as it has days, and of a scaled one five at least.
pub proof fn window_needs_a_sample_for_each_day(window: OutcomeWindow, benchmark: OutcomeBenchmark)
    ensures
        window.samples_needed(benchmark) >= window.horizon.days(),
        window.samples_needed(benchmark) >= benchmark.least_samples(),
        window.samples_needed(benchmark) == window.horizon.days() || window.samples_needed(
            benchmark,
        ) == benchmark.least_samples(),
{
}

/// A list compares each of the seven benchmarks once exactly where it has seven entries, no two of
/// one benchmark.
pub proof fn each_benchmark_is_compared_once(
    list: Seq<OutcomeBenchmarkAttribution>,
    b: OutcomeBenchmark,
)
    ensures
        compares_each_benchmark_once(list) ==> list.len() == 7,
        compares_each_benchmark_once(list) ==> exists|i: int|
            0 <= i < list.len() && (#[trigger] list[i]).benchmark == b,
        list.len() == 7 && list[0].benchmark is Cash && list[1].benchmark is Qqq
            && list[2].benchmark is Soxx && list[3].benchmark is FourAssetEqualWeight
            && list[4].benchmark is BetaMatchedQqq && list[5].benchmark is VolatilityTargetedQqq
            && list[6].benchmark is NoLlmDeterministic ==> compares_each_benchmark_once(list),
{
    let names = compared_benchmarks(list);
    if compares_each_benchmark_once(list) {
        assert(names.contains(b));
        let i = choose|i: int| 0 <= i < names.len() && names[i] == b;
        assert(list[i].benchmark == b);
    }
    if list.len() == 7 && list[0].benchmark is Cash && list[1].benchmark is Qqq
        && list[2].benchmark is Soxx && list[3].benchmark is FourAssetEqualWeight
        && list[4].benchmark is BetaMatchedQqq && list[5].benchmark is VolatilityTargetedQqq
        && list[6].benchmark is NoLlmDeterministic {
        assert forall|b: OutcomeBenchmark| #[trigger] names.contains(b) by {
            match b {
                OutcomeBenchmark::Cash => assert(names[0] == b),
                OutcomeBenchmark::Qqq => assert(names[1] == b),
                OutcomeBenchmark::Soxx => assert(names[2] == b),
                OutcomeBenchmark::FourAssetEqualWeight => assert(names[3] == b),
                OutcomeBenchmark::BetaMatchedQqq => assert(names[4] == b),
                OutcomeBenchmark::VolatilityTargetedQqq => assert(names[5] == b),
                OutcomeBenchmark::NoLlmDeterministic => assert(names[6] == b),
            }
        }
    }
}

/// What an order cost is accepted exactly where it was for something, every price is above nothing
/// and no cost below it, and there is a fill price and a shortfall exactly where something was
/// filled.
pub proof fn accepted_order_cost_prices_what_was_filled(cost: OutcomeOrderCostAttribution)
    ensures
        cost.verdict() is Ok <==> {
            &&& cost.filled_quantity_micros >= 0
            &&& cost.unfilled_quantity_micros >= 0
            &&& 0 < cost.filled_quantity_micros + cost.unfilled_quantity_micros <= i64::MAX
            &&& cost.limit_price.0 > 0
            &&& cost.decision_mid matches Some(p) ==> p.0 > 0
            &&& cost.arrival_mid matches Some(p) ==> p.0 > 0
            &&& cost.baseline_mid matches Some(p) ==> p.0 > 0
            &&& cost.fill_vwap matches Some(p) ==> p.0 > 0
            &&& cost.limit_shortfall matches Some(c) ==> c.0 >= 0
            &&& cost.spread_cost matches Some(c) ==> c.0 >= 0
            &&& cost.market_impact matches Some(c) ==> c.0 >= 0
            &&& cost.unfilled_opportunity_cost matches Some(c) ==> c.0 >= 0
            &&& cost.filled_quantity_micros > 0 <==> cost.fill_vwap is Some
            &&& cost.filled_quantity_micros > 0 <==> cost.limit_shortfall is Some
        },
{
}

/// A path of the window itself has value on both sides each day, and its days follow each other.
pub open spec fn is_sound_window_path(path: Seq<OutcomeNavPoint>) -> bool {
    &&& forall|i: int|
        0 <= i < path.len() ==> (#[trigger] path[i]).portfolio_nav_ppm > 0
            && path[i].benchmark_nav_ppm > 0
    &&& forall|i: int|
        0 < i < path.len() ==> path[i - 1].observed_trading_day.day() < (
        #[trigger] path[i]).observed_trading_day.day()
}

proof fn window_path_is_accepted_where_it_is_sound(path: Seq<OutcomeNavPoint>)
    ensures
        first_fault(path.len(), path_checks(path)) is Ok <==> is_sound_window_path(path),
{
    let checks = path_checks(path);
    no_fault_means_every_check_passes(path.len(), checks);
    if forall|i: int| 0 <= i < path.len() ==> (#[trigger] checks(i)) is Ok {
        assert forall|i: int| 0 <= i < path.len() implies (#[trigger] path[i]).portfolio_nav_ppm > 0
            && path[i].benchmark_nav_ppm > 0 by {
            assert(checks(i) is Ok);
        }
        assert forall|i: int| 0 < i < path.len() implies path[i - 1].observed_trading_day.day() < (
        #[trigger] path[i]).observed_trading_day.day() by {
            assert(checks(i) is Ok);
        }
    }
    if is_sound_window_path(path) {
        assert forall|i: int| 0 <= i < path.len() implies (#[trigger] checks(i)) is Ok by {
            assert(path[i].portfolio_nav_ppm > 0);
        }
    }
}

/// A share that may be missing.
pub open spec fn is_share(x: Option<u32>) -> bool {
    x is Some ==> x->0 <= 1_000_000
}

/// A window is accepted exactly where its shares and ratios are within bounds, what it counted
/// agrees with what it states, a ground truth stands where risks were counted, its path is sound,
/// it compares no benchmark or each of the seven once, each soundly, and its order costs are.
#[verifier::rlimit(60)]
pub proof fn accepted_window_states_what_it_counted(window: OutcomeWindow)
    ensures
        window.verdict() is Ok <==> {
            &&& is_share(window.calibration_ppm)
            &&& is_share(window.evidence_completeness_ppm)
            &&& is_share(window.risk_recall_ppm)
            &&& is_share(window.turnover_ppm)
            &&& is_share(window.maximum_drawdown_ppm)
            &&& is_share(window.tracking_error_ppm)
            &&& is_share(window.expected_shortfall_ppm)
            &&& window.transaction_cost_ppm <= 1_000_000
            &&& window.slippage_ppm <= 1_000_000
            &&& window.beta_ppm matches Some(beta) ==> -10_000_000 <= beta <= 10_000_000
            &&& window.sortino_ratio_ppm matches Some(ratio) ==> -100_000_000 <= ratio
                <= 100_000_000
            &&& window.forecast_score matches Some(score) ==> score.verdict() is Ok
            &&& window.evidence_counts matches Some(counts) ==> counts.verdict() is Ok
                && window.evidence_completeness_ppm == Some(counts.ratio_ppm)
            &&& window.risk_recall_counts matches Some(counts) ==> counts.verdict() is Ok
                && window.risk_recall_ppm == Some(counts.ratio_ppm)
            &&& window.risk_recall_counts is Some <==> window.risk_ground_truth is Some
            &&& window.risk_ground_truth matches Some(reference) ==> reference.kind
                == ArtifactKind::RiskGroundTruthAssessment
            &&& is_sound_window_path(window.nav_path@)
            &&& window.benchmark_attributions@.len() > 0 ==> {
                &&& compares_each_benchmark_once(window.benchmark_attributions@)
                &&& window.net_return() is Some
                &&& forall|i: int|
                    0 <= i < window.benchmark_attributions@.len() ==> (
                    #[trigger] window.benchmark_attributions@[i]).verdict(
                        window.net_return()->0,
                        window.samples_needed(window.benchmark_attributions@[i].benchmark),
                    ) is Ok
            }
            &&& forall|i: int|
                0 <= i < window.order_cost_attributions@.len() ==> (
                #[trigger] window.order_cost_attributions@[i]).verdict() is Ok
        },
{
    window_path_is_accepted_where_it_is_sound(window.nav_path@);
    list_is_accepted_by_member(window.order_cost_attributions@);
    assert forall|i: int| 0 <= i < window.order_cost_attributions@.len() implies (
    #[trigger] window.order_cost_attributions@[i]).verdict() == crate::lists::Checked::judged(
        &window.order_cost_attributions@[i],
    ) by {}
    let list = window.benchmark_attributions@;
    let checks = window.attribution_checks();
    no_fault_means_every_check_passes(list.len(), checks);
    assert forall|i: int| 0 <= i < list.len() implies (#[trigger] list[i]).verdict(
        window.net_return()->0,
        window.samples_needed(list[i].benchmark),
    ) == checks(i) by {}
    if forall|i: int|
        0 <= i < list.len() ==> (#[trigger] list[i]).verdict(
            window.net_return()->0,
            window.samples_needed(list[i].benchmark),
        ) is Ok {
        assert forall|i: int| 0 <= i < list.len() implies (#[trigger] checks(i)) is Ok by {
            assert(list[i].verdict(
                window.net_return()->0,
                window.samples_needed(list[i].benchmark),
            ) is Ok);
        }
    }
}

/// A finding is accepted exactly where it says something, not at too great length nor from too many
/// artifacts, and is confident within the whole.
pub proof fn accepted_finding_is_short(finding: RetrospectiveFinding)
    ensures
        finding.verdict() is Ok <==> !blank(finding.statement@) && finding.statement@.len() <= 4_000
            && finding.artifact_refs@.len() <= 8 && finding.confidence_ppm <= 1_000_000,
{
}

/// A proposed lesson is accepted exactly where it says what it learnt and what to do, for which
/// assets and horizons, on what evidence, and where it does not hold.
pub proof fn accepted_proposal_says_where_it_holds(proposal: RetrospectiveLessonProposal)
    ensures
        proposal.verdict() is Ok <==> {
            &&& !blank(proposal.statement@) && byte_len(proposal.statement@) <= 4_000
            &&& !blank(proposal.recommended_behavior@) && byte_len(proposal.recommended_behavior@)
                <= 4_000
            &&& 1 <= proposal.assets@.len() <= 4
            &&& 1 <= proposal.horizons@.len() <= 3
            &&& 1 <= proposal.exclusions@.len() <= 4
            &&& 1 <= proposal.evidence_refs@.len() <= 4
            &&& forall|i: int|
                0 <= i < proposal.exclusions@.len() ==> !blank((#[trigger] proposal.exclusions@[i])@)
                    && byte_len(proposal.exclusions@[i]@) <= 1_200
        },
{
    if proposal.is_scoped() {
        assert forall|i: int| 0 <= i < proposal.exclusions@.len() implies !blank(
            (#[trigger] proposal.exclusions@[i])@,
        ) && byte_len(proposal.exclusions@[i]@) <= 1_200 by {
            assert(!RetrospectiveLessonProposal::is_bad_exclusion(proposal.exclusions@[i]@));
        }
    }
}

/// No text of a list is longer than a limit.
pub open spec fn none_longer(list: Seq<String>, limit: nat) -> bool {
    forall|i: int| 0 <= i < list.len() ==> (#[trigger] list[i])@.len() <= limit
}

/// A draft of a retrospective is accepted exactly where it is named, keeps within its numbers and
/// lengths, and its findings and proposals are acceptable.
pub proof fn accepted_draft_keeps_within_its_numbers(draft: RetrospectiveDraft)
    ensures
        draft.verdict() is Ok <==> {
            &&& draft.schema_version == 2
            &&& !blank(draft.outcome_id@)
            &&& draft.summary@.len() <= 4_000
            &&& draft.findings@.len() <= 12
            &&& draft.source_refs@.len() <= 8
            &&& draft.counterfactuals@.len() <= 3 && none_longer(draft.counterfactuals@, 4_000)
            &&& draft.lesson_candidates@.len() <= 8 && none_longer(draft.lesson_candidates@, 4_000)
            &&& draft.diagnostic_gaps@.len() <= 8 && none_longer(draft.diagnostic_gaps@, 4_000)
            &&& draft.lesson_proposals@.len() <= 4
            &&& forall|i: int|
                0 <= i < draft.lesson_proposals@.len() ==> (
                #[trigger] draft.lesson_proposals@[i]).verdict() is Ok
            &&& forall|i: int|
                0 <= i < draft.findings@.len() ==> (#[trigger] draft.findings@[i]).verdict() is Ok
        },
{
    list_is_accepted_by_member(draft.lesson_proposals@);
    list_is_accepted_by_member(draft.findings@);
    assert forall|i: int| 0 <= i < draft.lesson_proposals@.len() implies (
    #[trigger] draft.lesson_proposals@[i]).verdict() == crate::lists::Checked::judged(
        &draft.lesson_proposals@[i],
    ) by {}
    assert forall|i: int| 0 <= i < draft.findings@.len() implies (
    #[trigger] draft.findings@[i]).verdict() == crate::lists::Checked::judged(
        &draft.findings@[i],
    ) by {}
}

/// A retrospective is accepted exactly where a draft with the same contents would be, it is of an
/// outcome, and that of the last horizon is sealed.
pub proof fn accepted_retrospective_is_an_accepted_draft(
    retrospective: Retrospective,
    draft: RetrospectiveDraft,
)
    requires
        draft.schema_version == retrospective.schema_version,
        draft.outcome_id@ == retrospective.outcome_id@,
        draft.summary@ == retrospective.summary@,
        draft.findings@ == retrospective.findings@,
        draft.counterfactuals@ == retrospective.counterfactuals@,
        draft.lesson_candidates@ == retrospective.lesson_candidates@,
        draft.lesson_proposals@ == retrospective.lesson_proposals@,
        draft.diagnostic_gaps@ == retrospective.diagnostic_gaps@,
        draft.source_refs@.len() == retrospective.source_refs@.len(),
    ensures
        retrospective.verdict() is Ok <==> draft.verdict() is Ok && retrospective.outcome.kind
            == ArtifactKind::Outcome && (retrospective.horizon is T5
            ==> retrospective.sealed_at is Some),
{
}

/// A relation is accepted exactly where it is between two different named attempts of a task.
pub proof fn accepted_relation_is_between_two_attempts(relation: AttemptRelation)
    ensures
        relation.verdict() is Ok <==> relation.schema_version == 2 && !blank(relation.run_id@)
            && !blank(relation.task_id@) && !blank(relation.parent_attempt_id@) && !blank(
            relation.child_attempt_id@,
        ) && relation.parent_attempt_id@ != relation.child_attempt_id@,
{
}

/// The ground truths of windows are those that some window refers to.
pub proof fn ground_truths_are_those_referred_to(windows: Seq<OutcomeWindow>, key: RefView)
    ensures
        ground_truths(windows).contains(key) <==> exists|i: int|
            0 <= i < windows.len() && (#[trigger] windows[i]).risk_ground_truth is Some
                && windows[i].risk_ground_truth->0@ == key,
    decreases windows.len(),
{
    if windows.len() > 0 {
        let rest = windows.drop_last();
        ground_truths_are_those_referred_to(rest, key);
        if ground_truths(rest).contains(key) {
            let i = choose|i: int|
                0 <= i < rest.len() && (#[trigger] rest[i]).risk_ground_truth is Some
                    && rest[i].risk_ground_truth->0@ == key;
            assert(windows[i] == rest[i]);
        }
        if exists|i: int|
            0 <= i < windows.len() && (#[trigger] windows[i]).risk_ground_truth is Some
                && windows[i].risk_ground_truth->0@ == key {
            let i = choose|i: int|
                0 <= i < windows.len() && (#[trigger] windows[i]).risk_ground_truth is Some
                    && windows[i].risk_ground_truth->0@ == key;
            if i < rest.len() {
                assert(rest[i] == windows[i]);
            }
        }
        if windows.last().risk_ground_truth is Some && windows.last().risk_ground_truth->0@ == key {
            assert(windows[windows.len() - 1].risk_ground_truth is Some);
        }
    }
}

/// An outcome is accepted exactly where it is of a schedule, rests on evidence of the market, and
/// has one to three acceptable windows, no two of one horizon, of which the longer one ends on
/// the later day.
#[verifier::rlimit(40)]
pub proof fn accepted_outcome_observes_longer_horizons_later(observed: Outcome)
    ensures
        observed.verdict() is Ok <==> {
            let windows = observed.windows@;
            &&& observed.schema_version == 2
            &&& !blank(observed.outcome_id@)
            &&& observed.schedule.kind == ArtifactKind::OutcomeSchedule
            &&& observed.market_evidence@.len() > 0
            &&& forall|i: int|
                0 <= i < observed.market_evidence@.len() ==> (
                #[trigger] observed.market_evidence@[i]).kind == ArtifactKind::NormalizedEvidence
                    || observed.market_evidence@[i].kind == ArtifactKind::SemanticDetail
            &&& 1 <= windows.len() <= 3
            &&& forall|i: int| 0 <= i < windows.len() ==> (#[trigger] windows[i]).verdict() is Ok
            &&& forall|i: int, j: int|
                0 <= i < j < windows.len() ==> (#[trigger] windows[i]).horizon != (
                #[trigger] windows[j]).horizon
            &&& forall|i: int, j: int|
                0 <= i < windows.len() && 0 <= j < windows.len() && (
                #[trigger] windows[i]).horizon.days() < (#[trigger] windows[j]).horizon.days()
                    ==> windows[i].observed_trading_day.day() < windows[j].observed_trading_day.day()
        },
        observed.sealed_verdict() is Ok <==> observed.verdict() is Ok && observed.windows@.len()
            == 3 && observed.sealed_at is Some,
{
    let windows = observed.windows@;
    let checks = window_checks(windows);
    no_fault_means_every_check_passes(windows.len(), checks);
    if forall|i: int| 0 <= i < windows.len() ==> (#[trigger] checks(i)) is Ok {
        assert forall|i: int| 0 <= i < windows.len() implies (
        #[trigger] windows[i]).verdict() is Ok by {
            assert(checks(i) is Ok);
        }
        assert forall|i: int, j: int| 0 <= i < j < windows.len() implies (
        #[trigger] windows[i]).horizon != (#[trigger] windows[j]).horizon by {
            assert(checks(j) is Ok);
        }
    }
    if (forall|i: int| 0 <= i < windows.len() ==> (#[trigger] windows[i]).verdict() is Ok) && (
    forall|i: int, j: int|
        0 <= i < j < windows.len() ==> (#[trigger] windows[i]).horizon != (
        #[trigger] windows[j]).horizon) {
        assert forall|j: int| 0 <= j < windows.len() implies (#[trigger] checks(j)) is Ok by {
            assert(windows[j].verdict() is Ok);
            assert(!horizon_is_taken(windows, j, windows[j].horizon));
        }
    }
}

/// An authority is accepted exactly where it is named with its version.
pub proof fn accepted_authority_is_named(authority: RiskAssessmentAuthority, field: Seq<char>)
    ensures
        authority.verdict(field) is Ok <==> !blank(authority.identity@) && !blank(authority.version@),
{
}

/// A ground truth is accepted exactly where it is of a schedule and a decision, its two authorities
/// and the producer of the decision are three different parties, it rests on distinct evidence
/// other than the decision itself, no risk was detected that was not expected, and it was sealed,
/// if at all, between its assessment and its expiry and not before the day that it observes.
#[verifier::rlimit(40)]
pub proof fn accepted_ground_truth_is_independent(truth: RiskGroundTruthAssessment)
    ensures
        truth.verdict() is Ok <==> {
            &&& truth.schema_version == 2
            &&& truth.schedule.kind == ArtifactKind::OutcomeSchedule
            &&& truth.decision.kind == ArtifactKind::Decision
            &&& !blank(truth.decision_producer_identity@)
            &&& !blank(truth.reviewer.identity@) && !blank(truth.reviewer.version@)
            &&& !blank(truth.verifier.identity@) && !blank(truth.verifier.version@)
            &&& !alike(truth.reviewer.identity@, truth.verifier.identity@)
            &&& !alike(truth.reviewer.identity@, truth.decision_producer_identity@)
            &&& !alike(truth.verifier.identity@, truth.decision_producer_identity@)
            &&& truth.basis_refs@.len() > 0
            &&& ascending::<crate::artifact::ArtifactRef>(views(truth.basis_refs@))
            &&& forall|i: int|
                0 <= i < truth.basis_refs@.len() ==> (#[trigger] truth.basis_refs@[i]).artifact_id@
                    != truth.decision.artifact_id@ && truth.basis_refs@[i].artifact_id@
                    != truth.schedule.artifact_id@ && (truth.basis_refs@[i].kind
                    == ArtifactKind::RawEvidence || truth.basis_refs@[i].kind
                    == ArtifactKind::NormalizedEvidence || truth.basis_refs@[i].kind
                    == ArtifactKind::SemanticDetail)
            &&& truth.expected_risk_ids@.len() != 0
            &&& forall|s: Seq<char>| #[trigger] truth.expected_risk_ids@.contains(s) ==> !blank(s)
            &&& forall|s: Seq<char>| #[trigger]
                truth.detected_risk_ids@.contains(s) ==> truth.expected_risk_ids@.contains(s)
            &&& !earlier(truth.valid_until, truth.assessed_at)
            &&& truth.sealed_at matches Some(sealed) ==> !earlier(sealed, truth.assessed_at)
                && !earlier(truth.valid_until, sealed) && truth.observed_trading_day.day()
                <= sealed.day()
        },
{
    assert forall|i: int| 0 <= i < truth.basis_refs@.len() implies (truth.is_basis(
        #[trigger] truth.basis_refs@[i],
    ) <==> truth.basis_refs@[i].artifact_id@ != truth.decision.artifact_id@
        && truth.basis_refs@[i].artifact_id@ != truth.schedule.artifact_id@ && (
    truth.basis_refs@[i].kind == ArtifactKind::RawEvidence || truth.basis_refs@[i].kind
        == ArtifactKind::NormalizedEvidence || truth.basis_refs@[i].kind
        == ArtifactKind::SemanticDetail)) by {}
}

/// A ground truth may be used exactly where it is acceptable and sealed, from its seal up to its
/// expiry.
pub proof fn ground_truth_is_used_between_seal_and_expiry(
    truth: RiskGroundTruthAssessment,
    used_at: UtcTime,
)
    ensures
        truth.use_verdict(used_at) is Ok <==> truth.verdict() is Ok && truth.sealed_at is Some
            && !earlier(used_at, truth.sealed_at->0) && !earlier(truth.valid_until, used_at),
{
}

} // verus!
