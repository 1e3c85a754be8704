//! What holds of the short questions that the records answer.
use crate::artifact::{ArtifactKind, ArtifactRef, RefView};
use crate::canary::{CanaryCampaignSpec, CanaryPairedOutcomeMetrics, CanaryPairedSubjectMetrics};
use crate::context::ContextGrant;
use crate::context_scope::{ContextQueryScope, learns};
use crate::contract::{AgentContract, CandidateCapabilityCeiling, grants_are_alike};
use crate::debug::DebugSessionIdentity;
use crate::decision::{DecisionHorizon, covers_every_slot, slot_is_covered};
use crate::evaluation::outcome::{OutcomeHorizon, OutcomeWindow, due};
use crate::execution::session::{TradingSession, calendar_row, row_date, row_time};
use crate::execution::snapshots::{DecisionClock, FactorExposure, MarketClockSnapshot};
use crate::experiment::{ExperimentTrial, SearchBiasAcceptancePolicy, SearchBiasCertificate};
use crate::foundation::{
    Asset, MoneyMicros, RetryPolicy, RunPurpose, TargetPortfolio, TaskStatus, TerminationPolicy,
    ToolGrant,
};
use crate::json::{JsonTree, member_of};
use crate::lesson::LessonGovernance;
use crate::market_safety::ConsensusDiversityAssessment;
use crate::regime::{
    BreadthRegime, LiquidityRegime, RegimeSnapshot, RiskRegime, TrendRegime, VolatilityRegime,
    breadth_label, liquidity_label, risk_label, trend_label, volatility_label,
};
use crate::research::{
    ResearchClaim, ResearchCritique, ResearchResolution, ground_evidence, verified_evidence,
};
use crate::research_review::ProposalReview;
use crate::time::{CalendarDay, UtcTime, earlier};
use crate::workflow::WorkflowNode;
use vstd::prelude::*;

verus! {

/// A grant of context reads up to and at its expiry, raw artifacts from its raw closure and others
/// from what is readable.
pub proof fn context_grant_reads_up_to_its_expiry(
    grant: ContextGrant,
    artifact: Seq<char>,
    now: UtcTime,
)
    ensures
        earlier(grant.expires_at, now) ==> !grant.admits(artifact, true, now) && !grant.admits(
            artifact,
            false,
            now,
        ),
        grant.admits(artifact, true, grant.expires_at) <==> grant.raw_source_closure@.contains(
            artifact,
        ),
        grant.admits(artifact, false, grant.expires_at) <==> grant.readable@.contains(artifact),
        earlier(now, grant.expires_at) ==> grant.admits(artifact, true, now) == grant.admits(
            artifact,
            true,
            grant.expires_at,
        ) && grant.admits(artifact, false, now) == grant.admits(artifact, false, grant.expires_at),
{
}

/// A decision may know its own cutoff and what lies before it, never what lies after; the bar of a
/// day only once that day is over.
pub proof fn decision_knows_nothing_after_its_cutoff(
    clock: DecisionClock,
    at: UtcTime,
    day: CalendarDay,
)
    ensures
        clock.knows_instant(clock.decision_cutoff),
        earlier(clock.decision_cutoff, at) ==> !clock.knows_instant(at),
        earlier(at, clock.decision_cutoff) ==> clock.knows_instant(at),
        day.day() > clock.decision_cutoff.day() ==> !clock.knows_vintage(day),
        day.day() <= clock.decision_cutoff.day() ==> clock.knows_vintage(day),
        !clock.knows_bar(clock.decision_cutoff),
        clock.knows_bar(at) ==> clock.knows_instant(at),
        at.day() >= clock.decision_cutoff.day() ==> !clock.knows_bar(at),
        at.day() < clock.decision_cutoff.day() ==> clock.knows_bar(at),
{
}

/// The hours are extended in every session but the regular one, and there is trading in every
/// session but a closed market.
pub proof fn extended_hours_are_outside_the_regular_ones(
    session: TradingSession,
    clock: MarketClockSnapshot,
)
    ensures
        session.is_extended() <==> !(session is Regular) && !(session is Closed),
        clock.session matches Some(own) ==> (clock.is_tradable() <==> own.kind is Regular
            || own.kind.is_extended()),
        clock.session is None ==> clock.is_tradable() == clock.is_open,
{
}

/// What a target moves with in a day is what its capital is with the leveraged funds taken three
/// times.
pub proof fn daily_exposure_takes_leveraged_funds_three_times(target: TargetPortfolio)
    ensures
        FactorExposure::of_target(target) matches Ok(exposure) ==> {
            let tqqq = target.weights@[Asset::Tqqq].0;
            let qqq = target.weights@[Asset::Qqq].0;
            let soxx = target.weights@[Asset::Soxx].0;
            let soxl = target.weights@[Asset::Soxl].0;
            &&& exposure.nasdaq_ppm == qqq + tqqq + tqqq + tqqq
            &&& exposure.semiconductor_ppm == soxx + soxl + soxl + soxl
            &&& exposure.leveraged_equity_ppm == tqqq + tqqq + tqqq + soxl + soxl + soxl
            &&& exposure.tqqq_qqq_pair_ppm == exposure.nasdaq_ppm
            &&& exposure.soxl_soxx_pair_ppm == exposure.semiconductor_ppm
        },
{
}

/// A session without a policy is one that plans positions by a true model; to name a policy ends
/// that.
pub proof fn session_with_a_policy_does_not_lack_one(session: DebugSessionIdentity)
    ensures
        session.decision_policy_artifact is Some ==> !session.lacks_policy(),
        session.llm_mode is Fixture ==> !session.lacks_policy(),
        !(session.run_purpose is PositionPlan) ==> !session.lacks_policy(),
        session.run_purpose is PositionPlan && session.decision_policy_artifact is None && !(
        session.llm_mode is Fixture) ==> session.lacks_policy(),
{
}

/// A certificate that meets a policy is ready for a promotion, and one that is ready lacks no measure
/// and is not contaminated.
pub proof fn certificate_that_meets_a_policy_is_ready(
    certificate: SearchBiasCertificate,
    policy: SearchBiasAcceptancePolicy,
    trial: ExperimentTrial,
)
    ensures
        certificate.meets(policy) ==> certificate.is_ready(),
        certificate.is_ready() <==> {
            &&& !(certificate.deflated_sharpe_ratio_ppm is None)
            &&& !(certificate.probability_of_backtest_overfitting_ppm is None)
            &&& !(certificate.stationary_bootstrap_lower_bound_ppm is None)
            &&& !(certificate.family_wise_error_rate_ppm is None)
            &&& certificate.holdout_access_count == 1
            &&& certificate.contamination_risk is None || !certificate.contamination_risk->0
        },
        trial.is_controlled() <==> trial.condition is FullyMasked
            || trial.condition is PostCutoffForward,
        certificate.verdict() is Ok && certificate.selected_condition == trial.condition
            ==> trial.is_controlled(),
{
}

/// A cent is ten thousand millionths, as far as they can be counted.
pub proof fn cent_is_ten_thousand_millionths(cents: int)
    ensures
        MoneyMicros::of_cents(0) == 0,
        -900_000_000_000_000 <= cents <= 900_000_000_000_000 ==> MoneyMicros::of_cents(cents)
            == 10_000 * cents,
        MoneyMicros::of_cents(cents) <= MoneyMicros::of_cents(cents + 1),
        i64::MIN <= MoneyMicros::of_cents(cents) <= i64::MAX,
        cents > 0 ==> MoneyMicros::of_cents(cents) > 0,
        cents < 0 ==> MoneyMicros::of_cents(cents) < 0,
{
}

/// A task is over once it has succeeded, failed, been cancelled or been skipped; only a paper run
/// teaches.
pub proof fn task_is_over_once_it_has_ended(status: TaskStatus, purpose: RunPurpose)
    ensures
        status.is_over() <==> status is Succeeded || status is Failed || status is Cancelled
            || status is Skipped,
        purpose.teaches() <==> !(purpose is Debug || purpose is PositionPlan
            || purpose is PaperDryRun || purpose is Replay || purpose is Shadow),
{
}

/// A review lets the proposal pass that it reviewed, under the digest that it reviewed it, and only
/// where it accepts everything.
pub proof fn review_lets_its_own_proposal_pass(review: ProposalReview, other: RefView, hash: Seq<char>)
    ensures
        review.lets_pass(review.proposal@, review.proposal_hash@) == review.accepts_all(),
        other != review.proposal@ ==> !review.lets_pass(other, hash),
        hash != review.proposal_hash@ ==> !review.lets_pass(other, hash),
        !review.accepts_all() ==> !review.lets_pass(other, hash),
{
}

/// What a valid window shows of a side is acceptable and is what the window measured: its day, its
/// completeness, recall, utility, drawdown, shortfall and score, and its calibration as
/// confidence, none where there is none.
pub proof fn metrics_are_what_the_window_measured(window: OutcomeWindow)
    ensures
        ({
            let metrics = CanaryPairedOutcomeMetrics::shown_by(window);
            &&& window.verdict() is Ok ==> metrics.verdict() is Ok
            &&& metrics.observed_trading_day == window.observed_trading_day
            &&& metrics.evidence_completeness_ppm == window.evidence_completeness_ppm
            &&& metrics.risk_recall_ppm == window.risk_recall_ppm
            &&& metrics.cost_adjusted_utility_ppm == window.utility_ppm
            &&& metrics.drawdown_ppm == window.maximum_drawdown_ppm
            &&& metrics.tail_loss_ppm == window.expected_shortfall_ppm
            &&& metrics.forecast_score == window.forecast_score
            &&& metrics.process_quality_ppm is None
            &&& window.calibration_ppm is Some ==> Some(metrics.confidence_ppm)
                == window.calibration_ppm
            &&& window.calibration_ppm is None ==> metrics.confidence_ppm == 0
        }),
{
}

/// A campaign is paired exactly where it has a policy and cohorts, which in a valid one stand or fall
/// together; a pair recalls risk where both of its sides do.
pub proof fn valid_campaign_is_paired_where_it_promotes(
    campaign: CanaryCampaignSpec,
    pair: CanaryPairedSubjectMetrics,
)
    ensures
        campaign.verdict() is Ok ==> (campaign.is_paired() <==> campaign.promotion_policy is Some),
        campaign.is_paired() <==> campaign.promotion_policy is Some && campaign.cohorts@.len() >= 1,
        pair.parent.risk_recall_ppm is None || pair.candidate.risk_recall_ppm is None
            <==> !pair.recalls_risk(),
{
}

/// Evidence is raw, normalized or a detail; of these only the derived kinds may be cited as evidence
/// by research.
pub proof fn evidence_is_raw_or_derived(kind: ArtifactKind)
    ensures
        kind.is_any_evidence() <==> kind == ArtifactKind::RawEvidence || kind
            == ArtifactKind::NormalizedEvidence || kind == ArtifactKind::SemanticDetail,
        crate::research::is_evidence_kind(kind) <==> kind.is_any_evidence() && kind
            != ArtifactKind::RawEvidence,
{
}

/// A horizon is due exactly where it is among those that are due.
pub proof fn due_horizon_is_among_the_due(horizon: OutcomeHorizon, sessions: u8)
    ensures
        horizon.is_due(sessions) <==> due(sessions).contains(horizon),
        OutcomeHorizon::T1.is_due(sessions) <==> sessions >= 1,
        OutcomeHorizon::T3.is_due(sessions) <==> sessions >= 3,
        OutcomeHorizon::T5.is_due(sessions) <==> sessions >= 5,
{
    crate::laws::outcome::horizon_is_due_after_its_days(sessions, horizon);
}

/// Coverage is complete exactly where no slot is left.
pub proof fn complete_coverage_leaves_no_slot(
    claims: Seq<(ArtifactRef, ResearchClaim)>,
    critiques: Seq<ResearchCritique>,
    asset: Asset,
    horizon: DecisionHorizon,
)
    ensures
        !slot_is_covered(claims, critiques, asset, horizon) ==> !covers_every_slot(
            claims,
            critiques,
        ),
        (forall|a: Asset, h: DecisionHorizon| #[trigger] slot_is_covered(claims, critiques, a, h))
            ==> covers_every_slot(claims, critiques),
{
}

/// What research rests on is the evidence of its grounds, and with it what it is about and what
/// verifies it.
pub proof fn research_rests_on_what_it_cites(
    claim: ResearchClaim,
    critique: ResearchCritique,
    resolution: ResearchResolution,
    i: int,
)
    ensures
        0 <= i < claim.grounds@.len() ==> claim.sources().contains(claim.grounds@[i].evidence@),
        critique.sources().contains(critique.target@),
        0 <= i < critique.grounds@.len() ==> critique.sources().contains(
            critique.grounds@[i].evidence@,
        ),
        0 <= i < critique.supporting_refs@.len() ==> critique.sources().contains(
            critique.supporting_refs@[i].evidence@,
        ),
        0 <= i < critique.conflicting_refs@.len() ==> critique.sources().contains(
            critique.conflicting_refs@[i].evidence@,
        ),
        resolution.sources().contains(resolution.claim@),
        resolution.sources().contains(resolution.critique@),
        0 <= i < resolution.grounds@.len() ==> resolution.sources().contains(
            resolution.grounds@[i].evidence@,
        ),
        forall|key: RefView| #[trigger]
            claim.sources().contains(key) ==> exists|k: int|
                0 <= k < claim.grounds@.len() && (#[trigger] claim.grounds@[k]).evidence@ == key,
{
    if 0 <= i < claim.grounds@.len() {
        assert(ground_evidence(claim.grounds@)[i] == claim.grounds@[i].evidence@);
    }
    if 0 <= i < critique.grounds@.len() {
        assert(ground_evidence(critique.grounds@)[i] == critique.grounds@[i].evidence@);
    }
    if 0 <= i < resolution.grounds@.len() {
        assert(ground_evidence(resolution.grounds@)[i] == resolution.grounds@[i].evidence@);
    }
    let a = verified_evidence(critique.supporting_refs@);
    let b = verified_evidence(critique.conflicting_refs@);
    if 0 <= i < critique.supporting_refs@.len() {
        assert(critique.verification()[i] == critique.supporting_refs@[i].evidence@);
    }
    if 0 <= i < critique.conflicting_refs@.len() {
        assert(critique.verification()[a.len() + i] == critique.conflicting_refs@[i].evidence@);
    }
    assert forall|key: RefView| #[trigger] claim.sources().contains(key) implies exists|k: int|
        0 <= k < claim.grounds@.len() && (#[trigger] claim.grounds@[k]).evidence@ == key by {
        let all = ground_evidence(claim.grounds@);
        let k = choose|k: int| 0 <= k < all.len() && all[k] == key;
        assert(claim.grounds@[k].evidence@ == key);
    }
}

/// What an operator approved may be used a hundred times in ninety days; what only outcomes taught is
/// quarantined, wholly uncertain and to be used once; what was confirmed is verified and may be
/// used twenty times in thirty days. None is contradicted yet.
pub proof fn governance_starts_with_its_source(governance: LessonGovernance, now: UtcTime)
    ensures
        governance.is_operator_review(now) ==> {
            &&& governance.valid_from == now
            &&& governance.last_revalidated_at == now
            &&& governance.valid_until is Some
            &&& governance.valid_until->0.secs() - now.secs() == 7_776_000
            &&& governance.trust_class is OperatorReviewed
            &&& governance.uncertainty_ppm == 250_000
            &&& governance.max_usage_before_revalidation == 100
            &&& governance.quarantine_reason is None
        },
        governance.is_outcome_quarantine(now) ==> {
            &&& governance.valid_from == now
            &&& governance.last_revalidated_at == now
            &&& governance.valid_until is None
            &&& governance.trust_class is OutcomeDerived
            &&& governance.uncertainty_ppm == 1_000_000
            &&& governance.max_usage_before_revalidation == 1
            &&& governance.quarantine_reason is Some
        },
        governance.is_outcome_revalidation(now) ==> {
            &&& governance.valid_from == now
            &&& governance.last_revalidated_at == now
            &&& governance.valid_until is Some
            &&& governance.valid_until->0.secs() - now.secs() == 2_592_000
            &&& governance.trust_class is Verified
            &&& governance.uncertainty_ppm == 500_000
            &&& governance.max_usage_before_revalidation == 20
            &&& governance.quarantine_reason is None
        },
        governance.is_operator_review(now) || governance.is_outcome_quarantine(now)
            || governance.is_outcome_revalidation(now) ==> {
            &&& governance.contradiction_count == 0
            &&& governance.post_use_failure_count == 0
            &&& governance.regime_compatibility@ == Map::<Seq<char>, u32>::empty()
        },
{
}

/// What was learned from outcomes alone is never looked up, whatever is asked.
pub proof fn quarantined_governance_admits_nothing(
    governance: LessonGovernance,
    now: UtcTime,
    at: UtcTime,
    uses: u64,
    regimes: Set<Seq<char>>,
)
    requires
        governance.is_outcome_quarantine(now),
    ensures
        !governance.admits(at, uses, regimes),
{
}

/// A node whose recipe learns asks about every asset at its own stage; another asks about nothing.
pub proof fn node_asks_for_its_own_stage(
    scope: ContextQueryScope,
    node: WorkflowNode,
    asset: Asset,
    stage: Seq<char>,
    horizon: DecisionHorizon,
)
    requires
        scope.is_asked_by(node),
    ensures
        scope.assets@.contains(asset) <==> learns(node.recipe_id@),
        scope.decision_stages@.contains(stage) <==> learns(node.recipe_id@) && stage
            == node.recipe_id@,
        scope.horizons@.contains(horizon) ==> learns(node.recipe_id@),
        learns(node.recipe_id@) && node.horizon() == Some(horizon) ==> scope.horizons@.contains(
            horizon,
        ),
        !scope.regimes@.contains(stage),
{
}

/// To be tried once is to be retried for no reason and without a wait, and a leaf has no children.
pub proof fn one_attempt_is_never_repeated(retry: RetryPolicy, termination: TerminationPolicy)
    ensures
        retry == RetryPolicy::once() <==> {
            &&& retry.max_attempts == 1
            &&& retry.initial_backoff_ms == 0
            &&& !retry.retry_transport && !retry.retry_rate_limited && !retry.retry_invalid_output
        },
        termination == TerminationPolicy::childless() <==> {
            &&& termination.max_child_tasks == 0
            &&& termination.max_depth == 0
            &&& termination.require_evidence && termination.stop_when_evidence_complete
        },
{
}

/// Agreement lends confidence only where at least two agree, independently.
pub proof fn lone_or_dependent_agreement_lends_nothing(assessment: ConsensusDiversityAssessment)
    ensures
        assessment.lends_confidence() <==> assessment.independent && assessment.participant_count
            >= 2,
{
}

/// An instant is past so many days exactly where it is more than those away, never at their end.
pub proof fn days_are_past_after_their_end(from: UtcTime, to: UtcTime, days: int)
    requires
        0 <= from.nanos() < 1_000_000_000,
        0 <= to.nanos() < 1_000_000_000,
    ensures
        to.secs() == from.secs() + days * 86_400 && to.nanos() == from.nanos() ==> !to.is_days_past(
            from,
            days,
        ),
        to.secs() == from.secs() + days * 86_400 && to.nanos() > from.nanos() ==> to.is_days_past(
            from,
            days,
        ),
        to.secs() > from.secs() + days * 86_400 ==> to.is_days_past(from, days),
        to.secs() < from.secs() + days * 86_400 ==> !to.is_days_past(from, days),
        to.is_days_past(from, days + 1) ==> to.is_days_past(from, days),
{
}

/// A row of the calendar is read exactly where its date, its open and its close are, each from its
/// own member.
pub proof fn calendar_row_is_read_where_its_members_are(row: JsonTree)
    ensures
        calendar_row(row) is Some <==> row_date(row) is Some && row_time(row, "open"@) is Some
            && row_time(row, "close"@) is Some,
        calendar_row(row) matches Some(own) ==> {
            &&& Some(own.date) == row_date(row)
            &&& Some(own.open) == row_time(row, "open"@)
            &&& Some(own.close) == row_time(row, "close"@)
        },
        member_of(row, "date"@) is None ==> calendar_row(row) is None,
        member_of(row, "open"@) is None ==> calendar_row(row) is None,
        member_of(row, "close"@) is None ==> calendar_row(row) is None,
{
}

/// A snapshot is labelled with each of its dominant states, alone and behind its dimension.
pub proof fn snapshot_is_labelled_with_its_states(snapshot: RegimeSnapshot)
    ensures
        snapshot.labels().contains(trend_label(snapshot.trend.dominant)),
        snapshot.labels().contains("trend:"@ + trend_label(snapshot.trend.dominant)),
        snapshot.labels().contains(volatility_label(snapshot.volatility.dominant)),
        snapshot.labels().contains("volatility:"@ + volatility_label(snapshot.volatility.dominant)),
        snapshot.labels().contains(liquidity_label(snapshot.liquidity.dominant)),
        snapshot.labels().contains("liquidity:"@ + liquidity_label(snapshot.liquidity.dominant)),
        snapshot.labels().contains(breadth_label(snapshot.breadth.dominant)),
        snapshot.labels().contains("breadth:"@ + breadth_label(snapshot.breadth.dominant)),
        snapshot.labels().contains(risk_label(snapshot.risk_state.dominant)),
        snapshot.labels().contains("risk:"@ + risk_label(snapshot.risk_state.dominant)),
{
}

/// No two states of a dimension share a label.
pub proof fn states_have_their_own_labels(
    trend: (TrendRegime, TrendRegime),
    volatility: (VolatilityRegime, VolatilityRegime),
    liquidity: (LiquidityRegime, LiquidityRegime),
    breadth: (BreadthRegime, BreadthRegime),
    risk: (RiskRegime, RiskRegime),
)
    ensures
        trend_label(trend.0) == trend_label(trend.1) <==> trend.0 == trend.1,
        volatility_label(volatility.0) == volatility_label(volatility.1) <==> volatility.0
            == volatility.1,
        liquidity_label(liquidity.0) == liquidity_label(liquidity.1) <==> liquidity.0 == liquidity.1,
        breadth_label(breadth.0) == breadth_label(breadth.1) <==> breadth.0 == breadth.1,
        risk_label(risk.0) == risk_label(risk.1) <==> risk.0 == risk.1,
{
    reveal_strlit("bull_strong");
    reveal_strlit("bull_weak");
    reveal_strlit("trend_neutral");
    reveal_strlit("bear_weak");
    reveal_strlit("bear_strong");
    reveal_strlit("low_volatility");
    reveal_strlit("normal_volatility");
    reveal_strlit("high_volatility");
    reveal_strlit("extreme_volatility");
    reveal_strlit("abundant_liquidity");
    reveal_strlit("normal_liquidity");
    reveal_strlit("stressed_liquidity");
    reveal_strlit("illiquid");
    reveal_strlit("broad_breadth");
    reveal_strlit("selective_breadth");
    reveal_strlit("divergent_breadth");
    reveal_strlit("narrow_breadth");
    reveal_strlit("risk_on");
    reveal_strlit("risk_neutral");
    reveal_strlit("risk_off");
    reveal_strlit("crisis");
    assert("bull_strong"@.len() == 11 && "bull_strong"@[1] == 'u');
    assert("bull_weak"@.len() == 9 && "bull_weak"@[1] == 'u');
    assert("trend_neutral"@.len() == 13 && "trend_neutral"@[1] == 'r');
    assert("bear_weak"@.len() == 9 && "bear_weak"@[1] == 'e');
    assert("bear_strong"@.len() == 11 && "bear_strong"@[1] == 'e');
    assert("low_volatility"@.len() == 14);
    assert("normal_volatility"@.len() == 17);
    assert("high_volatility"@.len() == 15);
    assert("extreme_volatility"@.len() == 18);
    assert("abundant_liquidity"@.len() == 18 && "abundant_liquidity"@[0] == 'a');
    assert("normal_liquidity"@.len() == 16 && "normal_liquidity"@[0] == 'n');
    assert("stressed_liquidity"@.len() == 18 && "stressed_liquidity"@[0] == 's');
    assert("illiquid"@.len() == 8 && "illiquid"@[0] == 'i');
    assert("broad_breadth"@.len() == 13 && "broad_breadth"@[0] == 'b');
    assert("selective_breadth"@.len() == 17 && "selective_breadth"@[0] == 's');
    assert("divergent_breadth"@.len() == 17 && "divergent_breadth"@[0] == 'd');
    assert("narrow_breadth"@.len() == 14 && "narrow_breadth"@[0] == 'n');
    assert("risk_on"@.len() == 7);
    assert("risk_neutral"@.len() == 12);
    assert("risk_off"@.len() == 8);
    assert("crisis"@.len() == 6);
}

/// A contract under another ceiling has that ceiling and its own digest, and is otherwise unchanged.
pub proof fn another_ceiling_changes_nothing_else(
    contract: AgentContract,
    ceiling: CandidateCapabilityCeiling,
    made: AgentContract,
)
    requires
        contract.with_ceiling(ceiling, made),
    ensures
        made.candidate_capability_ceiling == ceiling,
        made.contract_hash@ == made.identity(),
        made.schema_version == contract.schema_version,
        made.contract_id == contract.contract_id,
        made.version == contract.version,
        made.purpose == contract.purpose,
        made.responsibility == contract.responsibility,
        made.prompt == contract.prompt,
        made.context == contract.context,
        made.tool_grants == contract.tool_grants,
        made.tool_specs == contract.tool_specs,
        made.output == contract.output,
        made.deliberation_policy == contract.deliberation_policy,
        made.budget == contract.budget,
        made.retry == contract.retry,
        made.termination == contract.termination,
        made.on_failure == contract.on_failure,
{
}

/// Grants that are alike are as many, each of the kind and with the sources of the other in its place.
pub proof fn alike_grants_agree_in_kind_and_sources(a: Seq<ToolGrant>, b: Seq<ToolGrant>, i: int, k: int)
    requires
        grants_are_alike(a, b),
        0 <= i < a.len(),
    ensures
        a.len() == b.len(),
        a[i].kind == b[i].kind,
        a[i].allowed_sources@.len() == b[i].allowed_sources@.len(),
        0 <= k < a[i].allowed_sources@.len() ==> a[i].allowed_sources@[k]@
            == b[i].allowed_sources@[k]@,
        grants_are_alike(b, a),
{
}

} // verus!
