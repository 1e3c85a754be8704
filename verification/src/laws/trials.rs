//! What holds of experiments, of policies and what is learnt of them, and of canary campaigns.
use crate::artifact::{ArtifactKind, ArtifactRef};
use crate::canary::{
    CanaryCalibrationReport, CanaryCampaignSpec, CanaryCampaignStatus, CanaryCohortEvaluation,
    CanaryCohortManifest, CanaryPairedObservation, CanaryPairedOutcomeMetrics,
    CanaryPairedSubjectMetrics, CanaryPromotionPolicy, CanarySessionReservation, advanced,
    cohort_ids, first_cohort,
};
use crate::evaluation::policy::{
    CandidatePolicy, CandidatePolicyState, Evaluation, Experience, ExperienceEvaluationContext,
    MemoryLifecycle, PolicyState, PolicySubject, PolicyTransition, SubjectView, subject_of,
    subject_read,
};
use crate::experiment::{
    ExperimentCondition, ExperimentTrial, ExperimentTrialMetrics, ExperimentTrialStatus,
    MetricIdentity, SearchBiasAcceptancePolicy, SearchBiasCertificate, metric_checks,
};
use crate::foundation::{is_digest, json_digest};
use crate::json::ToJson;
use crate::lists::{list_is_accepted_by_member, no_fault_means_every_check_passes};
use crate::ordered::{ascending, views};
use crate::text::blank;
use crate::time::{day_text, earlier};
use vstd::prelude::*;

verus! {

/// The metrics of a trial are accepted exactly where there are slices enough but not too many, and
/// every return and ratio is within its bounds.
pub proof fn accepted_trial_metrics_are_bounded(metrics: ExperimentTrialMetrics)
    ensures
        metrics.verdict() is Ok <==> {
            &&& 2 <= metrics.slice_returns_ppm@.len() <= 10_000
            &&& forall|i: int|
                0 <= i < metrics.slice_returns_ppm@.len() ==> -10_000_000
                    <= #[trigger] metrics.slice_returns_ppm@[i] <= 10_000_000
            &&& -10_000_000 <= metrics.mean_return_ppm <= 10_000_000
            &&& metrics.sharpe_ratio_ppm is Some ==> -100_000_000 <= metrics.sharpe_ratio_ppm->0
                <= 100_000_000
        },
{
}

/// A trial is accepted exactly where it is under its own digest, of a named subject and model that
/// was released by then, generated, validated and held out in that order on three data sets,
/// opened its holdout after its candidate was frozen or counts as invalidated, a forward trial
/// holds out only what the model cannot know, and its result is what its status says: a failure
/// with a reason and no metrics, an invalidation with a reason and more than one look, else
/// metrics after exactly one look.
#[verifier::rlimit(60)]
pub proof fn accepted_trial_looks_once_at_its_holdout(trial: ExperimentTrial)
    ensures
        trial.verdict() is Ok <==> {
            &&& trial.subject.verdict() is Ok
            &&& trial.schema_version == 2
            &&& trial.trial_id@ == trial.identity()
            &&& !blank(trial.provider_id@)
            &&& !blank(trial.model_id@)
            &&& trial.model_release_date.day() <= trial.created_at.day()
            &&& trial.model_knowledge_cutoff.day() <= trial.created_at.day()
            &&& trial.generation_start.day() <= trial.generation_end.day()
                < trial.validation_start.day() <= trial.validation_end.day()
                < trial.holdout_start.day() <= trial.holdout_end.day()
            &&& trial.generation_dataset_id@ != trial.validation_dataset_id@
            &&& trial.generation_dataset_id@ != trial.holdout_dataset_id@
            &&& trial.validation_dataset_id@ != trial.holdout_dataset_id@
            &&& !earlier(trial.created_at, trial.candidate_frozen_at)
            &&& trial.holdout_first_opened_at is Some <==> trial.holdout_access_count > 0
            &&& trial.holdout_first_opened_at matches Some(opened) ==> !earlier(
                trial.created_at,
                opened,
            ) && (!earlier(opened, trial.candidate_frozen_at) || trial.status is Invalidated)
            &&& ascending::<ArtifactRef>(views(trial.source_refs@))
            &&& trial.condition is PostCutoffForward ==> trial.model_knowledge_cutoff.day()
                < trial.holdout_start.day()
            &&& trial.status is Failed ==> trial.metrics is None && trial.failure_reason is Some
                && !blank(trial.failure_reason->0@)
            &&& trial.status is Invalidated ==> trial.holdout_access_count >= 2
                && trial.failure_reason is Some && !blank(trial.failure_reason->0@)
            &&& !(trial.status is Failed) && !(trial.status is Invalidated) ==> trial.metrics is Some
                && trial.failure_reason is None && trial.holdout_access_count == 1
            &&& trial.metrics matches Some(metrics) ==> metrics.verdict() is Ok
        },
{
}

/// A policy on search bias is accepted exactly where it asks for two trials at least and its two
/// error rates are shares.
pub proof fn accepted_bias_policy_compares_trials(policy: SearchBiasAcceptancePolicy)
    ensures
        policy.verdict() is Ok <==> policy.min_global_trial_count > 1
            && policy.max_probability_of_backtest_overfitting_ppm <= 1_000_000
            && policy.max_family_wise_error_rate_ppm <= 1_000_000,
{
}

/// A metric is identified by its name and its version.
pub proof fn accepted_metric_is_named(metric: MetricIdentity)
    ensures
        metric.verdict() is Ok <==> !blank(metric.metric_name@) && !blank(metric.metric_version@),
{
}

/// A certificate is accepted exactly where it stands under its own digest, lists and counts at least
/// two trials in order with the selected one among them, looked once at the holdout, its rates
/// are shares and its metrics identified, and a masked selection is compared with its bright
/// trial while one forward of the cutoff needs no such comparison; no other may be selected.
#[verifier::rlimit(60)]
pub proof fn accepted_certificate_lists_every_trial(certificate: SearchBiasCertificate)
    ensures
        certificate.verdict() is Ok <==> {
            let trials = certificate.trial_refs@;
            &&& certificate.schema_version == 2
            &&& certificate.certificate_id@ == certificate.identity()
            &&& certificate.selected_trial.kind == ArtifactKind::ExperimentTrial
            &&& trials.len() >= 2
            &&& certificate.global_trial_count == trials.len()
            &&& ascending::<ArtifactRef>(views(trials))
            &&& is_one_of(trials, certificate.selected_trial)
            &&& forall|i: int|
                0 <= i < trials.len() ==> (#[trigger] trials[i]).kind == ArtifactKind::ExperimentTrial
            &&& certificate.bright_trial matches Some(bright) ==> bright.kind
                == ArtifactKind::ExperimentTrial && is_one_of(trials, bright)
            &&& certificate.holdout_access_count == 1
            &&& certificate.probability_of_backtest_overfitting_ppm matches Some(v) ==> v
                <= 1_000_000
            &&& certificate.family_wise_error_rate_ppm matches Some(v) ==> v <= 1_000_000
            &&& forall|i: int|
                0 <= i < certificate.metric_identities.keys().len() ==> (
                #[trigger] certificate.metric_identities.values()[i]).verdict() is Ok
            &&& {
                ||| certificate.selected_condition is FullyMasked && certificate.bright_trial is Some
                    && certificate.bright_minus_masked_bootstrap_lower_bound_ppm is Some
                    && certificate.contamination_risk is Some
                ||| certificate.selected_condition is PostCutoffForward
                    && certificate.bright_trial is None
                    && certificate.bright_minus_masked_bootstrap_lower_bound_ppm is None
                    && certificate.contamination_risk is None
            }
        },
{
    let map = certificate.metric_identities;
    let checks = metric_checks(map);
    no_fault_means_every_check_passes(map.keys().len(), checks);
    assert forall|i: int| 0 <= i < map.keys().len() implies (#[trigger] map.values()[i]).verdict()
        == checks(i) by {}
    if forall|i: int| 0 <= i < map.keys().len() ==> (#[trigger] map.values()[i]).verdict() is Ok {
        assert forall|i: int| 0 <= i < map.keys().len() implies (#[trigger] checks(i)) is Ok by {
            assert(map.values()[i].verdict() is Ok);
        }
    }
}

/// A reference is one of others.
pub open spec fn is_one_of(list: Seq<ArtifactRef>, reference: ArtifactRef) -> bool {
    exists|i: int| 0 <= i < list.len() && (#[trigger] list[i])@ == reference@
}

/// A certificate meets a policy exactly where both are acceptable, contamination is not suspected,
/// there were trials enough, each of the four measures is there and on the right side of its
/// limit, and the policy is the one it was made under, if it says which.
pub proof fn certificate_that_meets_a_policy_is_on_its_side(
    certificate: SearchBiasCertificate,
    policy: SearchBiasAcceptancePolicy,
)
    ensures
        certificate.meets(policy) <==> {
            &&& certificate.verdict() is Ok
            &&& policy.verdict() is Ok
            &&& certificate.contamination_risk is None || !certificate.contamination_risk->0
            &&& certificate.global_trial_count >= policy.min_global_trial_count
            &&& certificate.deflated_sharpe_ratio_ppm is Some
            &&& certificate.deflated_sharpe_ratio_ppm->0 >= policy.min_deflated_sharpe_ratio_ppm
            &&& certificate.probability_of_backtest_overfitting_ppm is Some
            &&& certificate.probability_of_backtest_overfitting_ppm->0
                <= policy.max_probability_of_backtest_overfitting_ppm
            &&& certificate.stationary_bootstrap_lower_bound_ppm is Some
            &&& certificate.stationary_bootstrap_lower_bound_ppm->0
                >= policy.min_bootstrap_lower_bound_ppm
            &&& certificate.family_wise_error_rate_ppm is Some
            &&& certificate.family_wise_error_rate_ppm->0 <= policy.max_family_wise_error_rate_ppm
            &&& certificate.acceptance_policy_hash is Some
                ==> certificate.acceptance_policy_hash->0@ == json_digest(policy.json())
        },
{
}

/// A subject is read from a kind and a name: memories and topologies by any name, contracts by a
/// digest alone, and nothing else.
pub proof fn subject_is_read_by_its_kind(kind: Seq<char>, id: Seq<char>)
    ensures
        kind == "memory"@ && !blank(id) ==> subject_of(kind, id) == Ok::<
            SubjectView,
            crate::error::ErrorView,
        >(SubjectView::Memory(id)),
        kind == "contract"@ && is_digest(id) ==> subject_of(kind, id) == Ok::<
            SubjectView,
            crate::error::ErrorView,
        >(SubjectView::Contract(id)),
        kind == "topology"@ && !blank(id) ==> subject_of(kind, id) == Ok::<
            SubjectView,
            crate::error::ErrorView,
        >(SubjectView::Topology(id)),
        kind == "contract"@ && !is_digest(id) ==> subject_of(kind, id) is Err && subject_of(
            kind,
            id,
        )->Err_0 is InvalidContentHash,
        subject_of(kind, id) matches Ok(subject) ==> subject.id() == id && subject.kind() == kind,
        kind != "memory"@ && kind != "contract"@ && kind != "topology"@ ==> subject_of(
            kind,
            id,
        ) is Err,
        (kind == "memory"@ || kind == "topology"@) && blank(id) ==> subject_of(kind, id) is Err,
{
    reveal_strlit("memory");
    reveal_strlit("contract");
    reveal_strlit("topology");
    assert("memory"@.len() == 6);
    assert("contract"@[0] == 'c' && "topology"@[0] == 't');
}

/// A subject is in states of its own kind alone, beginning as a candidate, and is accepted exactly
/// where it is named.
pub proof fn subject_has_states_of_its_kind(subject: PolicySubject, state: PolicyState)
    ensures
        subject.has_state(subject.first_state()),
        subject.first_state() matches PolicyState::Memory(own) ==> own is Candidate,
        subject.first_state() matches PolicyState::Contract(own) ==> own is Candidate,
        subject.first_state() matches PolicyState::Topology(own) ==> own is Candidate,
        subject is Memory <==> subject.first_state() is Memory,
        subject is Contract <==> subject.first_state() is Contract,
        subject.has_state(state) <==> {
            ||| subject is Memory && state is Memory
            ||| subject is Contract && state is Contract
            ||| subject is Topology && state is Topology
        },
        subject.verdict() is Ok <==> !blank(subject@.id()),
{
}

/// A restriction stays within the kind and leads a memory to be contested or retired, a contract or
/// a topology back to a candidate.
pub proof fn restriction_leads_back(from: PolicyState, to: PolicyState)
    ensures
        from.restricts_to(to) <==> {
            ||| from is Memory && (to == PolicyState::Memory(MemoryLifecycle::Contested) || to
                == PolicyState::Memory(MemoryLifecycle::Retired))
            ||| from is Contract && to == PolicyState::Contract(CandidatePolicyState::Candidate)
            ||| from is Topology && to == PolicyState::Topology(CandidatePolicyState::Candidate)
        },
{
}

/// Influence is lent to experiences by memories that are active or proven, and to candidate policies
/// by contracts and topologies that are active; by nothing in any other state.
pub proof fn only_active_states_lend_influence(state: PolicyState, kind: ArtifactKind)
    ensures
        state.lends_influence_to(kind) <==> {
            ||| kind == ArtifactKind::Experience && (state == PolicyState::Memory(
                MemoryLifecycle::Active,
            ) || state == PolicyState::Memory(MemoryLifecycle::Proven))
            ||| kind == ArtifactKind::CandidatePolicy && (state == PolicyState::Contract(
                CandidatePolicyState::Active,
            ) || state == PolicyState::Topology(CandidatePolicyState::Active))
        },
{
}

/// A candidate policy is accepted exactly where it differs from its baseline, was evaluated, and is
/// a contract for a contract or a graph for a topology; a memory is no candidate policy.
pub proof fn accepted_candidate_differs_from_its_baseline(candidate: CandidatePolicy)
    ensures
        candidate.verdict() is Ok <==> {
            &&& candidate.schema_version == 2
            &&& !blank(candidate.subject@.id())
            &&& candidate.baseline@ != candidate.candidate@
            &&& candidate.source_evaluation.kind == ArtifactKind::Evaluation
            &&& {
                ||| candidate.subject is Contract && candidate.baseline.kind
                    == ArtifactKind::Contract && candidate.candidate.kind == ArtifactKind::Contract
                ||| candidate.subject is Topology && candidate.baseline.kind
                    == ArtifactKind::WorkflowGraph && candidate.candidate.kind
                    == ArtifactKind::WorkflowGraph
            }
        },
{
}

/// An experience is accepted exactly where it is named, its subject is in a state of its kind and,
/// without a context of evaluation, is its own contract or topology, that context, if any, is of
/// a producer that used the contract, and it refers to the whole course of its decision.
#[verifier::rlimit(40)]
pub proof fn accepted_experience_refers_to_its_course(experience: Experience)
    ensures
        experience.verdict() is Ok <==> {
            &&& experience.schema_version == 2
            &&& !blank(experience.experience_id@)
            &&& !blank(experience.hypothesis_id@)
            &&& !blank(experience.topology_id@)
            &&& !blank(experience.subject@.id())
            &&& experience.subject.has_state(experience.policy_state)
            &&& experience.evaluation_context is None ==> {
                &&& experience.subject matches PolicySubject::Contract(hash) ==> hash@
                    == experience.contract_hash@
                &&& experience.subject matches PolicySubject::Topology(id) ==> id@
                    == experience.topology_id@
            }
            &&& experience.evaluation_context matches Some(context) ==> {
                &&& context.version == 1
                &&& context.producer_run_id@.len() > 0
                &&& context.producer_workflow.kind == ArtifactKind::WorkflowGraph
                &&& context.producer_contract_hashes@.contains(experience.contract_hash@)
                &&& context.metric_basis is Some
                &&& context.learning_eligible ==> context.market_window_complete
                    && context.research_sufficient && context.retrospective_valid
                    && context.risk_ground_truth_measured
            }
            &&& experience.decision.kind == ArtifactKind::Decision
            &&& experience.decision_context.kind == ArtifactKind::DecisionContext
            &&& experience.execution_context.kind == ArtifactKind::ExecutionContext
            &&& experience.policy_verdict.kind == ArtifactKind::ExecutionVerdict
            &&& experience.outcome.kind == ArtifactKind::Outcome
        },
{
}

/// An evaluation is accepted exactly where it is of an outcome and an experience; a transition where
/// it is between two different states of its subject's kind after an evaluation.
pub proof fn accepted_transition_changes_the_state(
    evaluation: Evaluation,
    transition: PolicyTransition,
)
    ensures
        evaluation.verdict() is Ok <==> evaluation.schema_version == 2 && !blank(
            evaluation.evaluation_id@,
        ) && evaluation.outcome.kind == ArtifactKind::Outcome && evaluation.experience.kind
            == ArtifactKind::Experience,
        transition.verdict() is Ok <==> {
            &&& transition.schema_version == 2
            &&& !blank(transition.transition_id@)
            &&& transition.from != transition.to
            &&& transition.evaluation.kind == ArtifactKind::Evaluation
            &&& !blank(transition.subject@.id())
            &&& transition.subject.has_state(transition.from)
            &&& transition.subject.has_state(transition.to)
        },
{
}

/// A campaign runs through its four stages one by one, from staged to completed, and leaves neither
/// its end nor a freeze; what is rolled out grows from a tenth to all.
pub proof fn campaign_goes_one_stage_at_a_time(status: CanaryCampaignStatus)
    ensures
        CanaryCampaignStatus::Staged.following() == Some(CanaryCampaignStatus::ValidationStage1),
        CanaryCampaignStatus::ValidationStage1.following() == Some(
            CanaryCampaignStatus::ValidationStage2,
        ),
        CanaryCampaignStatus::ValidationStage2.following() == Some(
            CanaryCampaignStatus::ValidationStage3,
        ),
        CanaryCampaignStatus::ValidationStage3.following() == Some(
            CanaryCampaignStatus::ActiveValidation,
        ),
        CanaryCampaignStatus::ActiveValidation.following() == Some(CanaryCampaignStatus::Completed),
        status.following() is None <==> status is Completed || status is Frozen,
        status.following() != Some(CanaryCampaignStatus::Frozen),
        status.is_stage() <==> status.following() is Some && !(status is Staged),
        status.rollout() is Some <==> status.is_stage() || status is Completed,
        status.rollout() == Some(CandidatePolicyState::Canary10) <==> status is ValidationStage1,
        status.rollout() == Some(CandidatePolicyState::Canary25) <==> status is ValidationStage2,
        status.rollout() == Some(CandidatePolicyState::Canary50) <==> status is ValidationStage3,
        status.rollout() == Some(CandidatePolicyState::Active) <==> status is ActiveValidation
            || status is Completed,
        advanced(status, 0) == Some(status),
        advanced(status, 1) == status.following(),
{
    reveal_with_fuel(advanced, 2);
}

/// A policy on promotion is accepted exactly where its shares are shares, it demands no loss of
/// utility, sessions for each horizon, some days and some named regimes.
pub proof fn accepted_promotion_policy_demands_something(policy: CanaryPromotionPolicy)
    ensures
        policy.verdict() is Ok <==> {
            &&& policy.minimum_evidence_completeness_ppm <= 1_000_000
            &&& policy.minimum_risk_recall_ppm <= 1_000_000
            &&& policy.minimum_process_quality_ppm <= 1_000_000
            &&& policy.maximum_drawdown_delta_ppm <= 1_000_000
            &&& policy.maximum_tail_loss_delta_ppm <= 1_000_000
            &&& policy.minimum_confidence_ppm <= 1_000_000
            &&& policy.minimum_cost_adjusted_utility_delta_ppm >= 0
            &&& policy.required_paired_sessions_per_horizon@[0] >= 1
            &&& policy.required_paired_sessions_per_horizon@[1] >= 1
            &&& policy.required_paired_sessions_per_horizon@[2] >= 1
            &&& policy.minimum_distinct_market_days >= 1
            &&& policy.required_regimes@.len() != 0
            &&& forall|s: Seq<char>| #[trigger] policy.required_regimes@.contains(s) ==> !blank(s)
            &&& policy.search_bias_acceptance matches Some(acceptance) ==> acceptance.verdict() is Ok
        },
{
    let sessions = policy.required_paired_sessions_per_horizon@;
    if sessions[0] >= 1 && sessions[1] >= 1 && sessions[2] >= 1 {
        assert forall|i: int| 0 <= i < 3 implies #[trigger] sessions[i] > 0 by {
            assert(i == 0 || i == 1 || i == 2);
        }
    }
}

/// A cohort is accepted exactly where it stands under its own digest at a stage, between two named
/// topologies, over days within its window that each have a regime, on two different data sets,
/// and its costs and kept capabilities are acceptable.
#[verifier::rlimit(40)]
pub proof fn accepted_cohort_observes_days_of_its_window(cohort: CanaryCohortManifest)
    ensures
        cohort.verdict() is Ok <==> {
            let days = cohort.market_regimes.keys();
            let regimes = cohort.market_regimes.values();
            &&& cohort.schema_version == 2
            &&& cohort.cohort_id@ == cohort.identity()
            &&& {
                ||| cohort.validation_stage is ValidationStage1
                ||| cohort.validation_stage is ValidationStage2
                ||| cohort.validation_stage is ValidationStage3
                ||| cohort.validation_stage is ActiveValidation
            }
            &&& !blank(cohort.parent_topology_id@)
            &&& !blank(cohort.candidate_topology_id@)
            &&& cohort.observation_start.day() <= cohort.observation_end.day()
            &&& cohort.asset_universe@.len() != 0
            &&& days.len() > 0
            &&& forall|i: int|
                0 <= i < days.len() ==> cohort.observation_start.day() <= (
                #[trigger] days[i]).day() <= cohort.observation_end.day() && !blank(regimes[i]@)
            &&& cohort.generation_dataset_id@ != cohort.promotion_dataset_id@
            &&& cohort.search_bias_certificate matches Some(reference) ==> reference.kind
                == ArtifactKind::SearchBiasCertificate
            &&& cohort.cost_model.verdict() is Ok
            &&& cohort.capability_retention matches Some(retention) ==> retention.verdict() is Ok
        },
{
    let days = cohort.market_regimes.keys();
    if cohort.days_fit() {
        assert forall|i: int| 0 <= i < days.len() implies cohort.observation_start.day() <= (
        #[trigger] days[i]).day() <= cohort.observation_end.day() && !blank(
            cohort.market_regimes.values()[i]@,
        ) by {
            assert(cohort.day_fits(i));
        }
    }
    if forall|i: int|
        0 <= i < days.len() ==> cohort.observation_start.day() <= (#[trigger] days[i]).day()
            <= cohort.observation_end.day() && !blank(cohort.market_regimes.values()[i]@) {
        assert forall|i: int| 0 <= i < days.len() implies #[trigger] cohort.day_fits(i) by {
            assert(cohort.observation_start.day() <= days[i].day());
        }
    }
}

/// The metrics of one side are accepted exactly where what was measured is a share and its score
/// acceptable; those of a pair where both sides are and they were observed on one day.
pub proof fn accepted_pair_was_observed_on_one_day(
    metrics: CanaryPairedOutcomeMetrics,
    pair: CanaryPairedSubjectMetrics,
)
    ensures
        metrics.verdict() is Ok <==> {
            &&& metrics.evidence_completeness_ppm matches Some(x) ==> x <= 1_000_000
            &&& metrics.risk_recall_ppm matches Some(x) ==> x <= 1_000_000
            &&& metrics.process_quality_ppm matches Some(x) ==> x <= 1_000_000
            &&& metrics.drawdown_ppm matches Some(x) ==> x <= 1_000_000
            &&& metrics.tail_loss_ppm matches Some(x) ==> x <= 1_000_000
            &&& metrics.confidence_ppm <= 1_000_000
            &&& metrics.forecast_score matches Some(score) ==> score.verdict() is Ok
        },
        pair.verdict() is Ok <==> pair.parent.verdict() is Ok && pair.candidate.verdict() is Ok
            && pair.parent.observed_trading_day == pair.candidate.observed_trading_day,
{
}

/// An observation is accepted exactly where its session is its day, its regime and assets are known,
/// it was not promoted on what it was generated from, and its costs and three pairs are
/// acceptable.
pub proof fn accepted_observation_is_of_its_day(observation: CanaryPairedObservation)
    ensures
        observation.verdict() is Ok <==> {
            &&& observation.schema_version == 2
            &&& observation.session_key@ == day_text(observation.market_day.day())
            &&& !blank(observation.regime@)
            &&& observation.asset_universe@.len() != 0
            &&& observation.generation_dataset_id@ != observation.promotion_dataset_id@
            &&& observation.cost_model.verdict() is Ok
            &&& observation.contract.verdict() is Ok
            &&& observation.topology.verdict() is Ok
            &&& observation.bundle.verdict() is Ok
        },
{
}

/// A calibration of a pair is accepted exactly where each side that has one is; an evaluation where
/// it stands under its own digest and its calibrations and its certificate are acceptable.
pub proof fn accepted_cohort_evaluation_is_calibrated(
    report: CanaryCalibrationReport,
    evaluation: CanaryCohortEvaluation,
)
    ensures
        report.verdict() is Ok <==> {
            &&& report.parent matches Some(own) ==> own.verdict() is Ok
            &&& report.candidate matches Some(own) ==> own.verdict() is Ok
        },
        evaluation.judgement() is Ok <==> {
            &&& evaluation.schema_version == 2
            &&& evaluation.evaluation_id@ == evaluation.identity()
            &&& forall|i: int|
                0 <= i < evaluation.calibration_reports@.len() ==> (
                #[trigger] evaluation.calibration_reports@[i]).verdict() is Ok
            &&& evaluation.search_bias_certificate matches Some(reference) ==> reference.kind
                == ArtifactKind::SearchBiasCertificate
        },
{
    list_is_accepted_by_member(evaluation.calibration_reports@);
    assert forall|i: int| 0 <= i < evaluation.calibration_reports@.len() implies (
    #[trigger] evaluation.calibration_reports@[i]).verdict() == crate::lists::Checked::judged(
        &evaluation.calibration_reports@[i],
    ) by {}
}

/// The cohort of a stage is the first that is at it, and there is none only where none is.
pub proof fn cohort_of_a_stage_is_the_first_at_it(
    list: Seq<CanaryCohortManifest>,
    stage: CanaryCampaignStatus,
)
    ensures
        first_cohort(list, stage) is None <==> forall|i: int|
            0 <= i < list.len() ==> (#[trigger] list[i]).validation_stage != stage,
        first_cohort(list, stage) matches Some(cohort) ==> cohort.validation_stage == stage
            && exists|i: int|
            0 <= i < list.len() && #[trigger] list[i] == cohort && forall|j: int|
                0 <= j < i ==> (#[trigger] list[j]).validation_stage != stage,
    decreases list.len(),
{
    if list.len() > 0 {
        let rest = list.drop_first();
        cohort_of_a_stage_is_the_first_at_it(rest, stage);
        if list[0].validation_stage == stage {
            assert(list[0] == first_cohort(list, stage)->0);
        } else if first_cohort(list, stage) is None {
            assert forall|i: int| 0 <= i < list.len() implies (
            #[trigger] list[i]).validation_stage != stage by {
                if i > 0 {
                    assert(rest[i - 1] == list[i]);
                }
            }
        } else {
            let cohort = first_cohort(list, stage)->0;
            let i = choose|i: int|
                0 <= i < rest.len() && #[trigger] rest[i] == cohort && forall|j: int|
                    0 <= j < i ==> (#[trigger] rest[j]).validation_stage != stage;
            assert(list[i + 1] == cohort);
            assert forall|j: int| 0 <= j < i + 1 implies (#[trigger] list[j]).validation_stage
                != stage by {
                if j > 0 {
                    assert(rest[j - 1] == list[j]);
                }
            }
        }
    }
}

/// A cohort serves a campaign exactly where it is of that campaign, starts from what is active in
/// it, was made under its policy, meets every regime that the policy requires, and has days
/// enough for the policy and for each horizon.
pub proof fn serving_cohort_meets_the_policy(
    campaign: CanaryCampaignSpec,
    cohort: CanaryCohortManifest,
    policy: CanaryPromotionPolicy,
)
    ensures
        campaign.cohort_serves(cohort, policy) <==> {
            let days = cohort.market_regimes.keys().len();
            &&& cohort.campaign_id@ == campaign.campaign_id@
            &&& cohort.parent_contract_hash@ == campaign.active_contract_hash@
            &&& cohort.parent_topology_id@ == campaign.active_topology_id@
            &&& cohort.promotion_policy_hash@ == json_digest(policy.json())
            &&& days >= policy.minimum_distinct_market_days
            &&& days >= policy.required_paired_sessions_per_horizon@[0]
            &&& days >= policy.required_paired_sessions_per_horizon@[1]
            &&& days >= policy.required_paired_sessions_per_horizon@[2]
            &&& forall|regime: Seq<char>| #[trigger]
                policy.required_regimes@.contains(regime) ==> cohort.has_regime(regime)
        },
        forall|regime: Seq<char>| #[trigger]
            cohort.has_regime(regime) <==> exists|i: int|
                0 <= i < cohort.market_regimes.keys().len() && (
                #[trigger] cohort.market_regimes.values()[i])@ == regime,
{
    let sessions = policy.required_paired_sessions_per_horizon@;
    let days = cohort.market_regimes.keys().len();
    if sessions[0] <= days && sessions[1] <= days && sessions[2] <= days {
        assert forall|i: int| 0 <= i < 3 implies #[trigger] sessions[i] <= days by {
            assert(i == 0 || i == 1 || i == 2);
        }
    }
}

/// A campaign is accepted exactly where it is named and bounded, refers to the right kinds, and has
/// either neither policy nor cohorts, or an acceptable policy and four cohorts of different
/// digests, of which the first at each stage is acceptable and serves it.
#[verifier::rlimit(60)]
pub proof fn accepted_campaign_has_a_cohort_for_each_stage(campaign: CanaryCampaignSpec)
    ensures
        campaign.verdict() is Ok <==> {
            &&& campaign.schema_version == 2
            &&& !blank(campaign.source_revision@)
            &&& !blank(campaign.active_topology_id@)
            &&& 0 < campaign.maximum_total_notional.0 <= 1_000_000_000
            &&& campaign.candidate_contract.kind == ArtifactKind::Contract
            &&& campaign.candidate_topology.kind == ArtifactKind::WorkflowGraph
            &&& campaign.runtime_manifest.kind == ArtifactKind::RuntimeManifest
            &&& campaign.paper_approval.kind == ArtifactKind::PaperLaunchApproval
            &&& campaign.promotion_policy is None ==> campaign.cohorts@.len() == 0
            &&& campaign.promotion_policy matches Some(policy) ==> {
                &&& policy.verdict() is Ok
                &&& campaign.cohorts@.len() == 4
                &&& forall|i: int, j: int|
                    0 <= i < j < 4 ==> (#[trigger] campaign.cohorts@[i]).cohort_id@ != (
                    #[trigger] campaign.cohorts@[j]).cohort_id@
                &&& forall|stage: CanaryCampaignStatus|
                    stage.is_stage() ==> (#[trigger] first_cohort(campaign.cohorts@, stage)) is Some
                        && first_cohort(campaign.cohorts@, stage)->0.verdict() is Ok
                        && campaign.cohort_serves(first_cohort(campaign.cohorts@, stage)->0, policy)
            }
        },
{
    let ids = cohort_ids(campaign.cohorts@);
    if campaign.cohorts@.len() == 4 {
        if ids.no_duplicates() {
            assert forall|i: int, j: int| 0 <= i < j < 4 implies (
            #[trigger] campaign.cohorts@[i]).cohort_id@ != (
            #[trigger] campaign.cohorts@[j]).cohort_id@ by {
                assert(ids[i] != ids[j]);
            }
        }
        if forall|i: int, j: int|
            0 <= i < j < 4 ==> (#[trigger] campaign.cohorts@[i]).cohort_id@ != (
            #[trigger] campaign.cohorts@[j]).cohort_id@ {
            assert forall|i: int, j: int|
                0 <= i < ids.len() && 0 <= j < ids.len() && i != j implies ids[i] != ids[j] by {
                if i < j {
                    assert(campaign.cohorts@[i].cohort_id@ != campaign.cohorts@[j].cohort_id@);
                } else {
                    assert(campaign.cohorts@[j].cohort_id@ != campaign.cohorts@[i].cohort_id@);
                }
            }
        }
        if let Some(policy) = campaign.promotion_policy {
            let list = campaign.cohorts@;
            let a = first_cohort(list, CanaryCampaignStatus::ValidationStage1);
            let b = first_cohort(list, CanaryCampaignStatus::ValidationStage2);
            let c = first_cohort(list, CanaryCampaignStatus::ValidationStage3);
            let d = first_cohort(list, CanaryCampaignStatus::ActiveValidation);
            if campaign.verdict() is Ok {
                assert forall|stage: CanaryCampaignStatus| stage.is_stage() implies (
                #[trigger] first_cohort(list, stage)) is Some && first_cohort(
                    list,
                    stage,
                )->0.verdict() is Ok && campaign.cohort_serves(
                    first_cohort(list, stage)->0,
                    policy,
                ) by {
                    match stage {
                        CanaryCampaignStatus::ValidationStage1 => {},
                        CanaryCampaignStatus::ValidationStage2 => {},
                        CanaryCampaignStatus::ValidationStage3 => {},
                        CanaryCampaignStatus::ActiveValidation => {},
                        _ => {},
                    }
                }
            }
        }
    }
}

/// A reservation is accepted exactly where it is at a stage in a named session of a scheduler, its
/// four runs are named and different, and its cohort, day and regime are all given, the session
/// being that day, or none is.
pub proof fn accepted_reservation_has_four_runs(reservation: CanarySessionReservation)
    ensures
        reservation.verdict() is Ok <==> {
            let runs = seq![
                reservation.parent_run_id@,
                reservation.contract_shadow_run_id@,
                reservation.topology_shadow_run_id@,
                reservation.bundle_shadow_run_id@,
            ];
            &&& reservation.schema_version == 2
            &&& reservation.level.is_stage()
            &&& !blank(reservation.session_key@)
            &&& reservation.scheduler_epoch > 0
            &&& forall|i: int| 0 <= i < 4 ==> !blank(#[trigger] runs[i])
            &&& forall|i: int, j: int| 0 <= i < j < 4 ==> #[trigger] runs[i] != #[trigger] runs[j]
            &&& {
                ||| reservation.cohort_id is None && reservation.market_day is None
                    && reservation.regime is None
                ||| reservation.cohort_id is Some && reservation.market_day is Some
                    && reservation.regime is Some && !blank(reservation.regime->0@)
                    && reservation.session_key@ == day_text(reservation.market_day->0.day())
            }
        },
{
    let runs = seq![
        reservation.parent_run_id@,
        reservation.contract_shadow_run_id@,
        reservation.topology_shadow_run_id@,
        reservation.bundle_shadow_run_id@,
    ];
    assert(runs[0] == reservation.parent_run_id@ && runs[1] == reservation.contract_shadow_run_id@
        && runs[2] == reservation.topology_shadow_run_id@ && runs[3]
        == reservation.bundle_shadow_run_id@);
    if reservation.is_complete() {
        assert forall|i: int| 0 <= i < 4 implies !blank(#[trigger] runs[i]) by {
            assert(i == 0 || i == 1 || i == 2 || i == 3);
        }
    }
    if reservation.runs_differ() {
        assert forall|i: int, j: int| 0 <= i < j < 4 implies #[trigger] runs[i]
            != #[trigger] runs[j] by {
            assert(i == 0 || i == 1 || i == 2);
            assert(j == 1 || j == 2 || j == 3);
        }
    }
    if forall|i: int, j: int| 0 <= i < j < 4 ==> #[trigger] runs[i] != #[trigger] runs[j] {
        assert(runs[0] != runs[1] && runs[0] != runs[2] && runs[0] != runs[3] && runs[1] != runs[2]
            && runs[1] != runs[3] && runs[2] != runs[3]);
    }
    if forall|i: int| 0 <= i < 4 ==> !blank(#[trigger] runs[i]) {
        assert(!blank(runs[0]) && !blank(runs[1]) && !blank(runs[2]) && !blank(runs[3]));
    }
}

} // verus!
