//! Trials, certificates and regimes.
use akzio_domain::artifact::{ArtifactId, ArtifactKind, ArtifactRef};
use akzio_domain::error::DomainError;
use akzio_domain::evaluation::policy::PolicySubject;
use akzio_domain::experiment::{
    ExperimentCondition, ExperimentTrial, ExperimentTrialMetrics, ExperimentTrialStatus,
    SearchBiasAcceptancePolicy, SearchBiasCertificate,
};
use akzio_domain::foundation::{ContentHash, TopologyId};
use akzio_domain::ordered::OrderedMap;
use akzio_domain::regime::{
    BreadthRegime, LiquidityRegime, RegimeClassificationKind, RegimeDistribution, RegimeSnapshot,
    RiskRegime, TrendRegime, VolatilityRegime,
};
use akzio_domain::time::{CalendarDay, UtcTime};
use akzio_domain::DOMAIN_SCHEMA_VERSION;

fn at(secs: i64) -> UtcTime {
    UtcTime::from_timestamp(secs, 0).unwrap()
}

fn day(text: &str) -> CalendarDay {
    CalendarDay::parse(text).unwrap()
}

fn hash(name: &str) -> ContentHash {
    ContentHash::of_bytes(name.as_bytes())
}

fn reference(kind: ArtifactKind, name: &str) -> ArtifactRef {
    ArtifactRef {
        artifact_id: ArtifactId(hash(name)),
        kind,
    }
}

fn trial() -> ExperimentTrial {
    ExperimentTrial {
        schema_version: DOMAIN_SCHEMA_VERSION,
        trial_id: hash("pending"),
        subject: PolicySubject::Topology(TopologyId("topology".to_owned())),
        parent_trial_id: None,
        candidate_hash: hash("candidate"),
        parameters_hash: hash("parameters"),
        prompt_hash: hash("prompt"),
        model_snapshot_hash: hash("model"),
        provider_id: "provider".to_owned(),
        model_id: "model".to_owned(),
        model_release_date: day("2025-01-01"),
        model_knowledge_cutoff: day("2024-12-31"),
        condition: ExperimentCondition::PostCutoffForward,
        generation_dataset_id: hash("generation"),
        validation_dataset_id: hash("validation"),
        holdout_dataset_id: hash("holdout"),
        generation_start: day("2025-01-01"),
        generation_end: day("2025-01-31"),
        validation_start: day("2025-02-01"),
        validation_end: day("2025-02-28"),
        holdout_start: day("2025-03-01"),
        holdout_end: day("2025-03-31"),
        candidate_frozen_at: at(1_750_000_000),
        holdout_first_opened_at: Some(at(1_750_000_001)),
        holdout_access_count: 1,
        status: ExperimentTrialStatus::Evaluated,
        metrics: Some(ExperimentTrialMetrics {
            slice_returns_ppm: vec![1, 2],
            mean_return_ppm: 1,
            sharpe_ratio_ppm: None,
        }),
        failure_reason: None,
        behavior_bundle_hash: None,
        campaign_id: None,
        trial_index: None,
        source_refs: vec![],
        created_at: at(1_760_000_000),
    }
}

#[test]
fn sealed_trial_is_valid_and_bound_to_its_content() {
    let sealed = trial().seal().unwrap();
    assert_eq!(sealed.validate(), Ok(()));
    assert!(sealed.is_contamination_controlled());
    let mut changed = sealed;
    changed.model_id = "another".to_owned();
    assert_eq!(
        changed.validate(),
        Err(DomainError::InvalidBudget {
            field: "experiment_trial"
        })
    );
}

#[test]
fn holdout_is_opened_once_and_after_the_freeze() {
    let mut early = trial();
    early.holdout_first_opened_at = Some(at(1_749_999_999));
    assert!(early.clone().seal().is_err());
    early.status = ExperimentTrialStatus::Invalidated;
    early.holdout_access_count = 2;
    early.failure_reason = Some("opened twice".to_owned());
    assert!(early.seal().is_ok());
    let mut twice = trial();
    twice.holdout_access_count = 2;
    assert_eq!(
        twice.seal(),
        Err(DomainError::InvalidBudget {
            field: "experiment_trial.holdout_access"
        })
    );
}

#[test]
fn forward_trial_is_after_the_cutoff_of_the_model() {
    let mut known = trial();
    known.model_knowledge_cutoff = day("2025-03-01");
    assert_eq!(
        known.clone().seal(),
        Err(DomainError::InvalidBudget {
            field: "experiment_trial.post_cutoff"
        })
    );
    known.condition = ExperimentCondition::Bright;
    let bright = known.seal().unwrap();
    assert!(!bright.is_contamination_controlled());
}

#[test]
fn periods_do_not_overlap() {
    let mut overlapping = trial();
    overlapping.validation_start = day("2025-01-31");
    assert!(overlapping.seal().is_err());
    let mut shared = trial();
    shared.holdout_dataset_id = hash("validation");
    assert!(shared.seal().is_err());
}

fn certificate() -> SearchBiasCertificate {
    let mut trials = vec![
        reference(ArtifactKind::ExperimentTrial, "one"),
        reference(ArtifactKind::ExperimentTrial, "two"),
    ];
    trials.sort();
    SearchBiasCertificate {
        schema_version: DOMAIN_SCHEMA_VERSION,
        certificate_id: hash("pending"),
        selected_trial: reference(ArtifactKind::ExperimentTrial, "one"),
        trial_refs: trials,
        global_trial_count: 2,
        deflated_sharpe_ratio_ppm: Some(900_000),
        probability_of_backtest_overfitting_ppm: Some(100_000),
        stationary_bootstrap_lower_bound_ppm: Some(10),
        moving_block_bootstrap_lower_bound_ppm: None,
        family_wise_error_rate_ppm: Some(50_000),
        selected_condition: ExperimentCondition::PostCutoffForward,
        bright_trial: None,
        bright_minus_masked_bootstrap_lower_bound_ppm: None,
        contamination_risk: None,
        holdout_dataset_id: hash("holdout"),
        holdout_access_count: 1,
        behavior_bundle_hash: None,
        acceptance_policy_hash: None,
        metric_identities: OrderedMap::new(),
        created_at: at(0),
    }
}

fn acceptance() -> SearchBiasAcceptancePolicy {
    SearchBiasAcceptancePolicy {
        min_deflated_sharpe_ratio_ppm: 900_000,
        max_probability_of_backtest_overfitting_ppm: 100_000,
        min_bootstrap_lower_bound_ppm: 0,
        max_family_wise_error_rate_ppm: 50_000,
        min_global_trial_count: 2,
        min_comparable_trial_count: 0,
        selection_metric_hash: hash("metric"),
        search_space_hash: hash("space"),
        slice_schema_hash: hash("slices"),
        metric_implementation_hash: hash("implementation"),
    }
}

#[test]
fn promotion_needs_every_measure() {
    let sealed = certificate().seal().unwrap();
    assert!(sealed.permits_promotion(&acceptance()));
    assert!(sealed.is_promotion_ready());
    let mut unmeasured = certificate();
    unmeasured.deflated_sharpe_ratio_ppm = None;
    let unmeasured = unmeasured.seal().unwrap();
    assert!(!unmeasured.permits_promotion(&acceptance()));
    assert!(!unmeasured.is_promotion_ready());
    let mut stricter = acceptance();
    stricter.max_family_wise_error_rate_ppm = 49_999;
    assert!(!sealed.permits_promotion(&stricter));
}

#[test]
fn certificate_is_bound_to_its_policy() {
    let policy = acceptance();
    let mut bound = certificate();
    bound.acceptance_policy_hash = Some(policy.identity_hash().unwrap());
    let bound = bound.seal().unwrap();
    assert!(bound.permits_promotion(&policy));
    let mut other = acceptance();
    other.min_comparable_trial_count = 1;
    assert!(!bound.permits_promotion(&other));
}

#[test]
fn masked_certificate_says_what_the_open_trial_gave() {
    let mut masked = certificate();
    masked.selected_condition = ExperimentCondition::FullyMasked;
    assert_eq!(
        masked.clone().seal(),
        Err(DomainError::InvalidBudget {
            field: "search_bias_certificate.contamination"
        })
    );
    masked.bright_trial = Some(reference(ArtifactKind::ExperimentTrial, "two"));
    masked.bright_minus_masked_bootstrap_lower_bound_ppm = Some(0);
    masked.contamination_risk = Some(true);
    let masked = masked.seal().unwrap();
    assert!(!masked.permits_promotion(&acceptance()));
    let mut open = certificate();
    open.selected_condition = ExperimentCondition::Bright;
    assert_eq!(
        open.seal(),
        Err(DomainError::InvalidBudget {
            field: "search_bias_certificate.selected_condition"
        })
    );
}

fn regime(kind: RegimeClassificationKind, decision_at: i64, as_of: i64) -> RegimeSnapshot {
    RegimeSnapshot {
        schema_version: DOMAIN_SCHEMA_VERSION,
        snapshot_hash: hash("pending"),
        classification_kind: kind,
        decision_at: at(decision_at),
        as_of: at(as_of),
        taxonomy_id: hash("taxonomy"),
        detector_id: "detector".to_owned(),
        detector_version: "v1".to_owned(),
        detector_hash: hash("detector"),
        input_snapshot_refs: vec![],
        input_snapshot_hash: hash("inputs"),
        trend: RegimeDistribution::new(
            OrderedMap::from_entries(vec![(TrendRegime::BullStrong, 1_000_000)]),
            TrendRegime::BullStrong,
        ),
        volatility: RegimeDistribution::new(
            OrderedMap::from_entries(vec![(VolatilityRegime::Low, 600_000)]),
            VolatilityRegime::Low,
        ),
        liquidity: RegimeDistribution::new(
            OrderedMap::from_entries(vec![(LiquidityRegime::Normal, 600_000)]),
            LiquidityRegime::Normal,
        ),
        breadth: RegimeDistribution::new(
            OrderedMap::from_entries(vec![(BreadthRegime::Selective, 600_000)]),
            BreadthRegime::Selective,
        ),
        risk_state: RegimeDistribution::new(
            OrderedMap::from_entries(vec![(RiskRegime::RiskOn, 600_000)]),
            RiskRegime::RiskOn,
        ),
        confidence_ppm: 600_000,
        entropy_ppm: 100_000,
    }
}

#[test]
fn later_knowledge_serves_no_decision() {
    let sealed = regime(RegimeClassificationKind::DecisionTime, 100, 90)
        .seal()
        .unwrap();
    assert!(sealed.permits_decision_context(at(100)));
    assert!(!sealed.permits_decision_context(at(99)));
    assert_eq!(
        regime(RegimeClassificationKind::DecisionTime, 100, 101).seal(),
        Err(DomainError::DecisionTimeLookaheadViolation {
            decision_at: at(100),
            as_of: at(101),
        })
    );
    let after = regime(RegimeClassificationKind::ExPost, 100, 101)
        .seal()
        .unwrap();
    assert!(!after.permits_decision_context(at(200)));
}

#[test]
fn regime_is_labelled_by_what_dominates() {
    let labels = regime(RegimeClassificationKind::DecisionTime, 100, 90)
        .canonical_regime_labels();
    assert_eq!(labels.len(), 10);
    assert!(labels.clone().into_vec().iter().any(|l| l.starts_with("trend:")));
    assert!(labels.into_vec().iter().any(|l| l.starts_with("volatility:")));
}

#[test]
fn distribution_is_at_most_the_whole() {
    let mut excessive = regime(RegimeClassificationKind::DecisionTime, 100, 90);
    excessive
        .trend
        .probabilities_ppm
        .insert(TrendRegime::Neutral, 6);
    assert_eq!(excessive.seal(), Err(DomainError::InvalidDistribution));
    let mut foreign = regime(RegimeClassificationKind::DecisionTime, 100, 90);
    foreign.risk_state.dominant = RiskRegime::Crisis;
    assert_eq!(foreign.seal(), Err(DomainError::InvalidDistribution));
    let mut changed = regime(RegimeClassificationKind::DecisionTime, 100, 90)
        .seal()
        .unwrap();
    changed.confidence_ppm = 1;
    assert_eq!(changed.validate(), Err(DomainError::InvalidContentHash));
}
