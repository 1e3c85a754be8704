//! What holds of the records that a decision is made of.
use crate::artifact::{ArtifactKind, ArtifactRef};
use crate::decision::{
    AssetEligibility, Decision, DecisionContext, DecisionDraft, DecisionEligibilityReason,
    DecisionHorizon, DecisionValidity, Forecast, ForecastThesis, InvestmentLogicTrace,
    MaterialConflict, PortfolioRiskAssessment, ProcessQualityAssessment, ResearchAllocationPlan,
    ResearchAssetAllocation, ResearchPlanAdjustment, ResearchPlanReview, allocated_assets,
    allocation_checks, conflict_checks, covers_grid, forecast_checks, forecast_slots,
    forecasts_verdict, millis_between, total_weight, weight_of,
};
use crate::foundation::Asset;
use crate::lists::{first_fault, list_is_accepted_by_member, no_fault_means_every_check_passes};
use crate::ordered::{ascending, views};
use crate::text::blank;
use crate::time::{UtcTime, earlier, elapsed_nanos};
use vstd::prelude::*;

verus! {

/// A decision holds from its making to its expiry, and it expires no later than its execution may be
/// put off; what it rests on was known when it was made.
pub proof fn decision_expires_before_its_delay_is_over(validity: DecisionValidity, now: UtcTime)
    ensures
        validity.verdict() is Ok <==> {
            &&& validity.maximum_execution_delay_ms <= 0x7fff_ffff_ffff_ffff
            &&& !earlier(validity.generated_at, validity.evidence_cutoff)
            &&& earlier(validity.generated_at, validity.valid_until)
            &&& millis_between(validity.generated_at, validity.valid_until)
                <= validity.maximum_execution_delay_ms
        },
        validity.holds_at(now) <==> {
            &&& !earlier(now, validity.generated_at)
            &&& !earlier(validity.valid_until, now)
            &&& millis_between(validity.generated_at, now) <= validity.maximum_execution_delay_ms
        },
{
}

/// The milliseconds from one instant to another are the whole ones that have passed, without the
/// begun one, forwards as well as backwards.
pub proof fn begun_milliseconds_do_not_count(from: UtcTime, to: UtcTime)
    ensures
        elapsed_nanos(from, to) >= 0 ==> millis_between(from, to) * 1_000_000 <= elapsed_nanos(
            from,
            to,
        ) < (millis_between(from, to) + 1) * 1_000_000,
        elapsed_nanos(from, to) < 0 ==> (millis_between(from, to) - 1) * 1_000_000 < elapsed_nanos(
            from,
            to,
        ) <= millis_between(from, to) * 1_000_000,
{
}

/// The horizons of a decision count one, three and five trading days.
pub proof fn horizons_count_their_days(thesis: ForecastThesis, horizon: DecisionHorizon)
    ensures
        DecisionHorizon::T1.days() == 1,
        DecisionHorizon::T3.days() == 3,
        DecisionHorizon::T5.days() == 5,
        thesis.verdict(horizon) is Ok <==> {
            &&& thesis.expected_holding_period_days == (match horizon {
                DecisionHorizon::T1 => 1u8,
                DecisionHorizon::T3 => 3u8,
                DecisionHorizon::T5 => 5u8,
            })
            &&& !blank(thesis.exit_condition@)
            &&& thesis.invalidation_conditions@.len() > 0
            &&& forall|i: int|
                0 <= i < thesis.invalidation_conditions@.len() ==> !blank(
                    (#[trigger] thesis.invalidation_conditions@[i])@,
                )
        },
{
}

/// A quality is accepted exactly where every part of it that was measured is a share.
pub proof fn accepted_quality_is_in_shares(quality: ProcessQualityAssessment)
    ensures
        quality.verdict() is Ok <==> {
            &&& quality.event_grounding_ppm matches Some(x) ==> x <= 1_000_000
            &&& quality.premise_support_ppm matches Some(x) ==> x <= 1_000_000
            &&& quality.temporal_validity_ppm matches Some(x) ==> x <= 1_000_000
            &&& quality.logic_validity_ppm matches Some(x) ==> x <= 1_000_000
            &&& quality.mandate_consistency_ppm matches Some(x) ==> x <= 1_000_000
            &&& quality.portfolio_consistency_ppm matches Some(x) ==> x <= 1_000_000
            &&& quality.action_feasibility_ppm matches Some(x) ==> x <= 1_000_000
        },
{
}

/// A process is as good as its worst part: the floor is one of the parts and none is below it, and
/// there is no floor while a part was not measured.
pub proof fn floor_is_the_worst_part(quality: ProcessQualityAssessment)
    ensures
        quality.research_floor() is Some <==> quality.event_grounding_ppm is Some
            && quality.premise_support_ppm is Some && quality.temporal_validity_ppm is Some
            && quality.logic_validity_ppm is Some,
        quality.research_floor() matches Some(floor) ==> {
            &&& floor <= quality.event_grounding_ppm->0
            &&& floor <= quality.premise_support_ppm->0
            &&& floor <= quality.temporal_validity_ppm->0
            &&& floor <= quality.logic_validity_ppm->0
            &&& {
                ||| floor == quality.event_grounding_ppm->0
                ||| floor == quality.premise_support_ppm->0
                ||| floor == quality.temporal_validity_ppm->0
                ||| floor == quality.logic_validity_ppm->0
            }
        },
        quality.floor() is Some <==> quality.research_floor() is Some
            && quality.mandate_consistency_ppm is Some && quality.portfolio_consistency_ppm is Some
            && quality.action_feasibility_ppm is Some,
        quality.floor() matches Some(floor) ==> {
            &&& floor <= quality.research_floor()->0
            &&& floor <= quality.mandate_consistency_ppm->0
            &&& floor <= quality.portfolio_consistency_ppm->0
            &&& floor <= quality.action_feasibility_ppm->0
            &&& {
                ||| floor == quality.research_floor()->0
                ||| floor == quality.mandate_consistency_ppm->0
                ||| floor == quality.portfolio_consistency_ppm->0
                ||| floor == quality.action_feasibility_ppm->0
            }
        },
{
}

/// To finalize a quality adds the three parts that were outstanding and leaves the research as it
/// was; it can be done exactly where the research was fully measured and all parts are shares.
pub proof fn finalizing_keeps_what_was_measured(
    quality: ProcessQualityAssessment,
    mandate: u32,
    portfolio: u32,
    action: u32,
)
    ensures
        quality.finalized(mandate, portfolio, action) is Some <==> quality.research_floor() is Some
            && quality.event_grounding_ppm->0 <= 1_000_000 && quality.premise_support_ppm->0
            <= 1_000_000 && quality.temporal_validity_ppm->0 <= 1_000_000
            && quality.logic_validity_ppm->0 <= 1_000_000 && mandate <= 1_000_000 && portfolio
            <= 1_000_000 && action <= 1_000_000,
        quality.finalized(mandate, portfolio, action) matches Some(complete) ==> {
            &&& complete.mandate_consistency_ppm == Some(mandate)
            &&& complete.portfolio_consistency_ppm == Some(portfolio)
            &&& complete.action_feasibility_ppm == Some(action)
            &&& complete.event_grounding_ppm == quality.event_grounding_ppm
            &&& complete.premise_support_ppm == quality.premise_support_ppm
            &&& complete.temporal_validity_ppm == quality.temporal_validity_ppm
            &&& complete.logic_validity_ppm == quality.logic_validity_ppm
        },
{
}

/// References that are all to derived evidence.
pub open spec fn are_all_evidence(list: Seq<ArtifactRef>) -> bool {
    forall|i: int|
        0 <= i < list.len() ==> (#[trigger] list[i]).kind == ArtifactKind::NormalizedEvidence
            || list[i].kind == ArtifactKind::SemanticDetail
}

/// References that are all of one kind.
pub open spec fn are_all(list: Seq<ArtifactRef>, kind: ArtifactKind) -> bool {
    forall|i: int| 0 <= i < list.len() ==> (#[trigger] list[i]).kind == kind
}

/// References that are all to what was learnt.
pub open spec fn are_all_learnt(list: Seq<ArtifactRef>) -> bool {
    forall|i: int|
        0 <= i < list.len() ==> (#[trigger] list[i]).kind == ArtifactKind::Lesson || list[i].kind
            == ArtifactKind::Experience || list[i].kind == ArtifactKind::CandidatePolicy
}

/// Two lists that share no reference.
pub open spec fn share_nothing(a: Seq<ArtifactRef>, b: Seq<ArtifactRef>) -> bool {
    forall|i: int, j: int|
        0 <= i < a.len() && 0 <= j < b.len() ==> (#[trigger] a[i])@ != (#[trigger] b[j])@
}

proof fn no_overlap_shares_nothing(a: Seq<ArtifactRef>, b: Seq<ArtifactRef>)
    ensures
        !crate::decision::refs_overlap(a, b) <==> share_nothing(a, b),
{
    if crate::decision::refs_overlap(a, b) {
        let i = choose|i: int|
            0 <= i < a.len() && crate::artifact::refs_list(b, (#[trigger] a[i])@);
        let j = choose|j: int| 0 <= j < b.len() && (#[trigger] b[j])@ == a[i]@;
        assert(a[i]@ == b[j]@);
    } else {
        assert forall|i: int, j: int| 0 <= i < a.len() && 0 <= j < b.len() implies (
        #[trigger] a[i])@ != (#[trigger] b[j])@ by {
            assert(!crate::artifact::refs_list(b, a[i]@));
        }
    }
}

/// A trace of the logic is accepted exactly where what it observed is evidence, its premises are
/// claims and its alternatives critiques, it says what would invalidate it, and its quality and
/// consensus are acceptable.
pub proof fn accepted_trace_is_grounded(trace: InvestmentLogicTrace)
    ensures
        trace.verdict() is Ok <==> {
            &&& are_all_evidence(trace.observed_events@)
            &&& are_all(trace.accepted_premises@, ArtifactKind::Claim)
            &&& are_all(trace.rejected_premises@, ArtifactKind::Claim)
            &&& are_all(trace.alternatives_considered@, ArtifactKind::Critique)
            &&& trace.invalidation_conditions@.len() > 0
            &&& forall|i: int|
                0 <= i < trace.invalidation_conditions@.len() ==> !blank(
                    (#[trigger] trace.invalidation_conditions@[i])@,
                )
            &&& trace.quality.verdict() is Ok
            &&& trace.consensus_diversity matches Some(consensus) ==> consensus.verdict() is Ok
        },
{
}

/// A conflict is accepted exactly where it is between a claim and a critique and is described.
pub proof fn accepted_conflict_is_between_claim_and_critique(conflict: MaterialConflict)
    ensures
        conflict.verdict() is Ok <==> conflict.claim.kind == ArtifactKind::Claim
            && conflict.critique.kind == ArtifactKind::Critique && !blank(conflict.topic@) && !blank(
            conflict.rationale@,
        ),
{
}

/// An asset is called eligible only without a reason against it and with evidence, verification,
/// calibration and risk all in place; reasons stand in order and none twice.
pub proof fn eligible_asset_lacks_nothing(eligibility: AssetEligibility)
    ensures
        eligibility.verdict() is Ok <==> {
            &&& forall|i: int, j: int|
                0 <= i < j < eligibility.reasons@.len() ==> (
                #[trigger] eligibility.reasons@[i]).place() < (
                #[trigger] eligibility.reasons@[j]).place()
            &&& eligibility.eligible ==> eligibility.reasons@.len() == 0
                && eligibility.directional_evidence && eligibility.claim_verified
                && eligibility.calibration && eligibility.risk
        },
{
    reasons_ascend_by_place(eligibility.reasons@);
}

proof fn reasons_ascend_by_place(list: Seq<DecisionEligibilityReason>)
    ensures
        ascending::<DecisionEligibilityReason>(views(list)) <==> forall|i: int, j: int|
            0 <= i < j < list.len() ==> (#[trigger] list[i]).place() < (#[trigger] list[j]).place(),
{
    let keys = views(list);
    assert forall|i: int, j: int| 0 <= i < j < list.len() implies (crate::ordered::precedes(
        <DecisionEligibilityReason as crate::ordered::Key>::code(#[trigger] keys[i]),
        <DecisionEligibilityReason as crate::ordered::Key>::code(#[trigger] keys[j]),
    ) <==> list[i].place() < list[j].place()) by {
        let a = <DecisionEligibilityReason as crate::ordered::Key>::code(keys[i]);
        let b = <DecisionEligibilityReason as crate::ordered::Key>::code(keys[j]);
        if list[i].place() < list[j].place() {
            assert(crate::ordered::diverges(a, b, 0));
        }
    }
    if ascending::<DecisionEligibilityReason>(keys) {
        assert forall|i: int, j: int| 0 <= i < j < list.len() implies (
        #[trigger] list[i]).place() < (#[trigger] list[j]).place() by {
            assert(keys[i] == list[i] && keys[j] == list[j]);
        }
    }
    if forall|i: int, j: int|
        0 <= i < j < list.len() ==> (#[trigger] list[i]).place() < (#[trigger] list[j]).place() {
        assert forall|i: int, j: int| 0 <= i < j < keys.len() implies crate::ordered::precedes(
            <DecisionEligibilityReason as crate::ordered::Key>::code(#[trigger] keys[i]),
            <DecisionEligibilityReason as crate::ordered::Key>::code(#[trigger] keys[j]),
        ) by {
            assert(list[i].place() < list[j].place());
        }
    }
}

/// A risk is accepted exactly where what was measured is at most three times the whole, it counts no
/// more assets than there are, and leveraged funds are held no longer than five days.
pub proof fn accepted_risk_is_bounded(risk: PortfolioRiskAssessment)
    ensures
        risk.verdict() is Ok <==> {
            &&& risk.ex_ante_volatility_ppm matches Some(x) ==> x <= 3_000_000
            &&& risk.beta_ppm matches Some(x) ==> x <= 3_000_000
            &&& risk.expected_shortfall_ppm matches Some(x) ==> x <= 3_000_000
            &&& risk.gap_loss_ppm matches Some(x) ==> x <= 3_000_000
            &&& risk.calibrated_assets <= 4
            &&& risk.leveraged_holding_limit_days <= 5
            &&& ascending::<Asset>(views(risk.liquidity_binding_assets@))
        },
        risk.is_measured() <==> risk.risk_model_hash is Some && risk.ex_ante_volatility_ppm is Some
            && risk.beta_ppm is Some && risk.expected_shortfall_ppm is Some
            && risk.gap_loss_ppm is Some,
{
}

/// A context of a decision is accepted exactly where it is named, refers to the right kinds, takes
/// no lesson both as applied and as rejected, has a claim or a blocker, its parts are acceptable,
/// its validity begins when it was made, and, where nothing stands against a target with some
/// weight, its risk is fully measured.
#[verifier::rlimit(60)]
pub proof fn accepted_context_measures_the_risk_it_takes(context: DecisionContext)
    ensures
        context.verdict() is Ok <==> {
            &&& context.schema_version == 2
            &&& !blank(context.decision_id@)
            &&& !blank(context.run_id@)
            &&& are_all(context.claims@, ArtifactKind::Claim)
            &&& are_all(context.critiques@, ArtifactKind::Critique)
            &&& are_all_evidence(context.evidence@)
            &&& forall|i: int|
                0 <= i < context.policy_influences@.len() ==> (
                #[trigger] context.policy_influences@[i]).kind == ArtifactKind::Experience
                    || context.policy_influences@[i].kind == ArtifactKind::CandidatePolicy
            &&& are_all_learnt(context.applied_learning_refs@)
            &&& are_all_learnt(context.rejected_learning_refs@)
            &&& share_nothing(context.applied_learning_refs@, context.rejected_learning_refs@)
            &&& context.claims@.len() > 0 || context.hard_blockers@.len() > 0
            &&& forall|i: int|
                0 <= i < context.material_conflicts@.len() ==> (
                #[trigger] context.material_conflicts@[i]).verdict() is Ok
            &&& context.target.universe_verdict() is Ok
            &&& context.portfolio_risk.verdict() is Ok
            &&& context.validity matches Some(validity) ==> validity.verdict() is Ok
                && validity.generated_at == context.created_at
            &&& context.investment_logic matches Some(trace) ==> trace.verdict() is Ok
            &&& context.research_plan matches Some(plan) ==> plan.verdict() is Ok
            &&& forall|i: int|
                0 <= i < context.asset_eligibility.keys().len() ==> (
                #[trigger] context.asset_eligibility.values()[i]).verdict() is Ok
            &&& context.hard_blockers@.len() == 0 && context.material_conflicts@.len() == 0
                && !context.portfolio_risk.is_measured() ==> forall|i: int|
                0 <= i < context.target.weights.keys().len() ==> (
                #[trigger] context.target.weights.values()[i]).0 == 0
        },
        context.is_accepted() <==> context.hard_blockers@.len() == 0
            && context.material_conflicts@.len() == 0,
{
    no_overlap_shares_nothing(context.applied_learning_refs@, context.rejected_learning_refs@);
    list_is_accepted_by_member(context.material_conflicts@);
    assert forall|i: int| 0 <= i < context.material_conflicts@.len() implies (
    #[trigger] context.material_conflicts@[i]).verdict() == crate::lists::Checked::judged(
        &context.material_conflicts@[i],
    ) by {}
}

/// A forecast is accepted exactly where its odds are a share and its thesis, if any, fits its
/// horizon.
pub proof fn accepted_forecast_gives_odds(forecast: Forecast)
    ensures
        forecast.verdict() is Ok <==> forecast.positive_return_probability_ppm <= 1_000_000 && (
        forecast.thesis matches Some(thesis) ==> thesis.verdict(forecast.horizon) is Ok),
        forecast.positive_return_probability_ppm > 1_000_000
            ==> forecast.verdict()->Err_0 is InvalidDecisionForecastProbability,
        forecast.neutral() <==> forecast.expected_return_ppm == 0
            && forecast.positive_return_probability_ppm == 500_000,
{
}

/// An allocation is accepted exactly where its weight is a share, it is explained, its horizons and
/// citations stand in order, it cites only claims, critiques and evidence, and a weight above
/// nothing has horizons and citations and no reason to abstain, one of nothing such a reason.
pub proof fn accepted_allocation_supports_its_weight(allocation: ResearchAssetAllocation)
    ensures
        allocation.verdict() is Ok <==> {
            &&& allocation.target_weight_ppm.0 <= 1_000_000
            &&& !blank(allocation.rationale@)
            &&& ascending::<DecisionHorizon>(views(allocation.supporting_horizons@))
            &&& ascending::<ArtifactRef>(views(allocation.evidence_refs@))
            &&& forall|i: int|
                0 <= i < allocation.evidence_refs@.len() ==> {
                    ||| (#[trigger] allocation.evidence_refs@[i]).kind == ArtifactKind::Claim
                    ||| allocation.evidence_refs@[i].kind == ArtifactKind::Critique
                    ||| allocation.evidence_refs@[i].kind == ArtifactKind::NormalizedEvidence
                    ||| allocation.evidence_refs@[i].kind == ArtifactKind::SemanticDetail
                }
            &&& allocation.target_weight_ppm.0 > 0 ==> allocation.supporting_horizons@.len() > 0
                && allocation.evidence_refs@.len() > 0 && allocation.abstention_reason is None
            &&& allocation.target_weight_ppm.0 == 0 ==> allocation.abstention_reason is Some
                && !blank(allocation.abstention_reason->0@)
        },
{
}

/// What is allocated in all is the sum over the allocations, and what an asset is given is what its
/// first allocation gives it, or nothing.
pub proof fn allocated_weights_add_up(
    list: Seq<ResearchAssetAllocation>,
    more: ResearchAssetAllocation,
    asset: Asset,
)
    ensures
        total_weight(Seq::<ResearchAssetAllocation>::empty()) == 0,
        total_weight(list.push(more)) == total_weight(list) + more.target_weight_ppm.0,
        weight_of(Seq::<ResearchAssetAllocation>::empty(), asset).0 == 0,
        weight_of(list.push(more), asset) == (if exists|i: int|
            0 <= i < list.len() && (#[trigger] list[i]).asset == asset {
            weight_of(list, asset)
        } else if more.asset == asset {
            more.target_weight_ppm
        } else {
            crate::foundation::WeightPpm(0)
        }),
    decreases list.len(),
{
    assert(list.push(more).drop_last() =~= list);
    let all = list.push(more);
    if list.len() == 0 {
        assert(all.drop_first() =~= Seq::empty());
        assert(weight_of(all.drop_first(), asset).0 == 0);
        assert(all[0] == more);
    } else {
        let rest = list.drop_first();
        assert(all.drop_first() =~= rest.push(more));
        assert(all[0] == list[0]);
        allocated_weights_add_up(rest, more, asset);
        assert(list[0].asset == asset ==> exists|i: int|
            0 <= i < list.len() && (#[trigger] list[i]).asset == asset);
        if list[0].asset != asset {
            if exists|i: int| 0 <= i < list.len() && (#[trigger] list[i]).asset == asset {
                let i = choose|i: int| 0 <= i < list.len() && (#[trigger] list[i]).asset == asset;
                assert(rest[i - 1].asset == asset);
            }
            if exists|i: int| 0 <= i < rest.len() && (#[trigger] rest[i]).asset == asset {
                let i = choose|i: int| 0 <= i < rest.len() && (#[trigger] rest[i]).asset == asset;
                assert(list[i + 1].asset == asset);
            }
        }
    }
}

/// A plan is accepted exactly where it allocates to each of the four assets once, soundly, and its
/// weights with its cash make the whole.
pub proof fn accepted_plan_allocates_the_whole(plan: ResearchAllocationPlan)
    ensures
        plan.verdict() is Ok <==> {
            let list = plan.allocations@;
            &&& plan.cash_weight_ppm.0 <= 1_000_000
            &&& list.len() == 4
            &&& forall|i: int| 0 <= i < 4 ==> (#[trigger] list[i]).verdict() is Ok
            &&& forall|i: int, j: int|
                0 <= i < j < 4 ==> (#[trigger] list[i]).asset != (#[trigger] list[j]).asset
            &&& list[0].target_weight_ppm.0 + list[1].target_weight_ppm.0
                + list[2].target_weight_ppm.0 + list[3].target_weight_ppm.0
                + plan.cash_weight_ppm.0 == 1_000_000
        },
        plan.targets_an_asset() <==> !(forall|i: int|
            0 <= i < plan.allocations@.len() ==> (
            #[trigger] plan.allocations@[i]).target_weight_ppm.0 == 0),
{
    let list = plan.allocations@;
    let assets = allocated_assets(list);
    if list.len() == 4 {
        let checks = allocation_checks(list);
        no_fault_means_every_check_passes(4, checks);
        reveal_with_fuel(total_weight, 5);
        assert(list.drop_last().drop_last().drop_last().drop_last() =~= Seq::empty());
        assert(list.drop_last().drop_last().drop_last().last() == list[0]);
        assert(list.drop_last().drop_last().last() == list[1]);
        assert(list.drop_last().last() == list[2]);
        assert(list.last() == list[3]);
        assert(total_weight(list) == list[0].target_weight_ppm.0 + list[1].target_weight_ppm.0
            + list[2].target_weight_ppm.0 + list[3].target_weight_ppm.0);
        if forall|i: int| 0 <= i < 4 ==> (#[trigger] checks(i)) is Ok {
            assert forall|i: int| 0 <= i < 4 implies (#[trigger] list[i]).verdict() is Ok by {
                assert(checks(i) is Ok);
            }
            assert forall|i: int, j: int| 0 <= i < j < 4 implies (#[trigger] list[i]).asset != (
            #[trigger] list[j]).asset by {
                assert(checks(j) is Ok);
                assert(assets.take(j)[i] == list[i].asset);
            }
        }
        if (forall|i: int| 0 <= i < 4 ==> (#[trigger] list[i]).verdict() is Ok) && (forall|
            i: int,
            j: int,
        |
            0 <= i < j < 4 ==> (#[trigger] list[i]).asset != (#[trigger] list[j]).asset) {
            assert forall|j: int| 0 <= j < 4 implies (#[trigger] checks(j)) is Ok by {
                assert(list[j].verdict() is Ok);
                if assets.take(j).contains(list[j].asset) {
                    let i = choose|i: int| 0 <= i < j && assets.take(j)[i] == list[j].asset;
                    assert(list[i].asset == list[j].asset);
                }
            }
            assert(list[0].asset != list[1].asset && list[0].asset != list[2].asset
                && list[0].asset != list[3].asset && list[1].asset != list[2].asset
                && list[1].asset != list[3].asset && list[2].asset != list[3].asset);
            assert forall|asset: Asset| #[trigger] assets.contains(asset) by {
                assert(assets[0] == list[0].asset && assets[1] == list[1].asset && assets[2]
                    == list[2].asset && assets[3] == list[3].asset);
                match asset {
                    Asset::Tqqq => {},
                    Asset::Qqq => {},
                    Asset::Soxx => {},
                    Asset::Soxl => {},
                }
                assert(list[0].asset == asset || list[1].asset == asset || list[2].asset == asset
                    || list[3].asset == asset);
            }
        }
    }
}

/// An adjustment is accepted exactly where it is between two shares and says why.
pub proof fn accepted_adjustment_says_why(adjustment: ResearchPlanAdjustment)
    ensures
        adjustment.verdict() is Ok <==> {
            &&& adjustment.from_weight_ppm.0 <= 1_000_000
            &&& adjustment.to_weight_ppm.0 <= 1_000_000
            &&& adjustment.reasons@.len() > 0
            &&& forall|i: int|
                0 <= i < adjustment.reasons@.len() ==> !blank((#[trigger] adjustment.reasons@[i])@)
        },
{
}

/// A review of a plan is accepted exactly where both plans and all adjustments are, its blockers say
/// something, and it recommends what has some weight, calls cash what has none, and anything
/// blocked where research blocked it.
pub proof fn accepted_review_names_what_it_validated(review: ResearchPlanReview)
    ensures
        review.verdict() is Ok <==> {
            &&& review.raw.verdict() is Ok
            &&& review.validated.verdict() is Ok
            &&& forall|i: int|
                0 <= i < review.adjustments@.len() ==> (
                #[trigger] review.adjustments@[i]).verdict() is Ok
            &&& forall|i: int|
                0 <= i < review.execution_blockers@.len() ==> !blank(
                    (#[trigger] review.execution_blockers@[i])@,
                )
            &&& review.status is QualifiedRecommendation ==> review.validated.targets_an_asset()
            &&& review.status is ExplicitCash ==> !review.validated.targets_an_asset()
        },
{
    list_is_accepted_by_member(review.adjustments@);
    assert forall|i: int| 0 <= i < review.adjustments@.len() implies (
    #[trigger] review.adjustments@[i]).verdict() == crate::lists::Checked::judged(
        &review.adjustments@[i],
    ) by {}
}

/// Forecasts are accepted exactly where each is, and every asset has one and only one for each
/// horizon.
pub proof fn accepted_forecasts_fill_the_grid_once(list: Seq<Forecast>)
    ensures
        forecasts_verdict(list) is Ok <==> {
            &&& forall|i: int| 0 <= i < list.len() ==> (#[trigger] list[i]).verdict() is Ok
            &&& forall|i: int, j: int|
                0 <= i < j < list.len() ==> (#[trigger] list[i]).asset != (#[trigger] list[j]).asset
                    || list[i].horizon != list[j].horizon
            &&& forall|asset: Asset, horizon: DecisionHorizon| #[trigger]
                has_forecast(list, asset, horizon)
        },
{
    let checks = forecast_checks(list);
    no_fault_means_every_check_passes(list.len(), checks);
    let slots = forecast_slots(list);
    assert forall|asset: Asset, horizon: DecisionHorizon| #[trigger]
        has_forecast(list, asset, horizon) == slots.contains((asset, horizon)) by {
        if has_forecast(list, asset, horizon) {
            let i = choose|i: int|
                0 <= i < list.len() && (#[trigger] list[i]).asset == asset && list[i].horizon
                    == horizon;
            assert(slots[i] == (asset, horizon));
        }
        if slots.contains((asset, horizon)) {
            let i = choose|i: int| 0 <= i < slots.len() && slots[i] == (asset, horizon);
            assert(list[i].asset == asset);
        }
    }
    if covers_grid(list) {
        assert forall|asset: Asset, horizon: DecisionHorizon| #[trigger]
            has_forecast(list, asset, horizon) by {
            assert(slots.contains((asset, horizon)));
        }
    }
    if forall|asset: Asset, horizon: DecisionHorizon| #[trigger] has_forecast(list, asset, horizon) {
        assert forall|asset: Asset, horizon: DecisionHorizon| #[trigger]
            slots.contains((asset, horizon)) by {
            assert(has_forecast(list, asset, horizon));
        }
    }
    if forall|i: int| 0 <= i < list.len() ==> (#[trigger] checks(i)) is Ok {
        assert forall|i: int| 0 <= i < list.len() implies (#[trigger] list[i]).verdict() is Ok by {
            assert(checks(i) is Ok);
        }
        assert forall|i: int, j: int| 0 <= i < j < list.len() implies (#[trigger] list[i]).asset != (
        #[trigger] list[j]).asset || list[i].horizon != list[j].horizon by {
            assert(checks(j) is Ok);
            assert(slots.take(j)[i] == (list[i].asset, list[i].horizon));
        }
    }
    if (forall|i: int| 0 <= i < list.len() ==> (#[trigger] list[i]).verdict() is Ok) && (forall|
        i: int,
        j: int,
    |
        0 <= i < j < list.len() ==> (#[trigger] list[i]).asset != (#[trigger] list[j]).asset
            || list[i].horizon != list[j].horizon) {
        assert forall|j: int| 0 <= j < list.len() implies (#[trigger] checks(j)) is Ok by {
            assert(list[j].verdict() is Ok);
            if slots.take(j).contains((list[j].asset, list[j].horizon)) {
                let i = choose|i: int|
                    0 <= i < j && slots.take(j)[i] == (list[j].asset, list[j].horizon);
                assert(list[i].asset == list[j].asset && list[i].horizon == list[j].horizon);
            }
        }
    }
}

/// Some forecast is of an asset and a horizon.
pub open spec fn has_forecast(list: Seq<Forecast>, asset: Asset, horizon: DecisionHorizon) -> bool {
    exists|i: int|
        0 <= i < list.len() && (#[trigger] list[i]).asset == asset && list[i].horizon == horizon
}

/// A draft is accepted exactly where it is summed up, confident within the whole, refers to the
/// right kinds, has a claim or a blocker, takes no lesson both ways, draws each conflict from its
/// own claims and critiques, and its forecasts and its allocation are acceptable.
#[verifier::rlimit(60)]
pub proof fn accepted_decision_draft_draws_on_its_own_claims(draft: DecisionDraft)
    ensures
        draft.verdict() is Ok <==> {
            let conflicts = draft.material_conflicts@;
            &&& !blank(draft.summary@)
            &&& draft.confidence_ppm <= 1_000_000
            &&& are_all(draft.claims@, ArtifactKind::Claim)
            &&& are_all(draft.critiques@, ArtifactKind::Critique)
            &&& are_all_evidence(draft.evidence@)
            &&& draft.claims@.len() > 0 || draft.hard_blockers@.len() > 0
            &&& are_all_learnt(draft.applied_learning_refs@)
            &&& are_all_learnt(draft.rejected_learning_refs@)
            &&& share_nothing(draft.applied_learning_refs@, draft.rejected_learning_refs@)
            &&& forall|i: int|
                0 <= i < conflicts.len() ==> (#[trigger] conflicts[i]).verdict() is Ok
                    && is_among(draft.claims@, conflicts[i].claim) && is_among(
                    draft.critiques@,
                    conflicts[i].critique,
                )
            &&& forecasts_verdict(draft.forecasts@) is Ok
            &&& draft.research_allocation matches Some(plan) ==> plan.verdict() is Ok
        },
        !blank(draft.summary@) && draft.confidence_ppm > 1_000_000
            ==> draft.verdict()->Err_0 is InvalidDecisionConfidence,
{
    no_overlap_shares_nothing(draft.applied_learning_refs@, draft.rejected_learning_refs@);
    let conflicts = draft.material_conflicts@;
    let checks = conflict_checks(draft);
    no_fault_means_every_check_passes(conflicts.len(), checks);
    assert forall|i: int| 0 <= i < conflicts.len() implies ((#[trigger] checks(i)) is Ok <==> (
    conflicts[i].verdict() is Ok && is_among(draft.claims@, conflicts[i].claim) && is_among(
        draft.critiques@,
        conflicts[i].critique,
    ))) by {}
    if forall|i: int| 0 <= i < conflicts.len() ==> (#[trigger] checks(i)) is Ok {
        assert forall|i: int| 0 <= i < conflicts.len() implies (
        #[trigger] conflicts[i]).verdict() is Ok && is_among(draft.claims@, conflicts[i].claim)
            && is_among(draft.critiques@, conflicts[i].critique) by {
            assert(checks(i) is Ok);
        }
    }
}

/// A reference is among others.
pub open spec fn is_among(list: Seq<ArtifactRef>, reference: ArtifactRef) -> bool {
    exists|i: int| 0 <= i < list.len() && (#[trigger] list[i])@ == reference@
}

/// A decision is accepted exactly where it refers to its context, is summed up, confident within the
/// whole, has a thesis for every forecast that had not expired when it was made, and its
/// forecasts, its target and its plan are acceptable.
pub proof fn accepted_decision_has_theses_that_last(decision: Decision)
    ensures
        decision.verdict() is Ok <==> {
            &&& decision.schema_version == 2
            &&& decision.decision_context.kind == ArtifactKind::DecisionContext
            &&& !blank(decision.summary@)
            &&& decision.confidence_ppm <= 1_000_000
            &&& forecasts_verdict(decision.forecasts@) is Ok
            &&& forall|i: int|
                0 <= i < decision.forecasts@.len() ==> (
                #[trigger] decision.forecasts@[i]).thesis is Some && !earlier(
                    decision.forecasts@[i].thesis->0.thesis_valid_until,
                    decision.created_at,
                )
            &&& decision.targets.universe_verdict() is Ok
            &&& decision.research_plan matches Some(plan) ==> plan.verdict() is Ok
        },
{
}

} // verus!
