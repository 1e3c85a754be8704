//! Mandates, retention of capabilities and the qualification of models.
use akzio_domain::artifact::{ArtifactId, ArtifactKind, ArtifactRef};
use akzio_domain::behavior::{BehaviorBundleManifest, BehaviorChangeReason};
use akzio_domain::error::DomainError;
use akzio_domain::foundation::{Asset, ContentHash, TargetPortfolio, WeightPpm};
use akzio_domain::longitudinal::{
    default_golden_scenario_bank, CapabilityRetentionMatrix, CapabilityRetentionPolicy,
    CapabilityScenarioResult, MandateActionType, MandateSnapshot, MandateViolation, MetricVector,
    PromotionIntegrityEvidence,
};
use akzio_domain::ordered::OrderedSet;
use akzio_domain::time::UtcTime;
use akzio_domain::DOMAIN_SCHEMA_VERSION;

fn at(secs: i64) -> UtcTime {
    UtcTime::from_timestamp(secs, 0).unwrap()
}

fn hash(name: &str) -> ContentHash {
    ContentHash::of_bytes(name.as_bytes())
}

fn target(asset: Asset, weight: u32) -> TargetPortfolio {
    let mut target = TargetPortfolio::zeroed();
    target.weights.insert(asset, WeightPpm(weight));
    target
}

fn mandate() -> MandateSnapshot {
    MandateSnapshot {
        maximum_gross_exposure: WeightPpm(600_000),
        maximum_drawdown_budget: WeightPpm(100_000),
        minimum_cash_reserve: WeightPpm(300_000),
        prohibited_assets: OrderedSet::from_vec(vec![Asset::Soxl]),
        prohibited_actions: OrderedSet::from_vec(vec![MandateActionType::LeveragedExposure]),
        maximum_turnover: WeightPpm(500_000),
        loss_response_policy: "reduce".to_owned(),
        speculation_policy: "none".to_owned(),
    }
}

#[test]
fn portfolio_within_its_limits_is_permitted() {
    let mandate = mandate();
    assert_eq!(mandate.validate(), Ok(()));
    let assessment = mandate.assess(
        &TargetPortfolio::zeroed(),
        &target(Asset::Qqq, 600_000),
        WeightPpm(100_000),
        WeightPpm(500_000),
    );
    assert!(assessment.permitted());
    assert_eq!(assessment.distance_after_ppm, 0);
    assert_eq!(assessment.mandate_hash, mandate.identity_hash());
}

#[test]
fn every_breach_is_named_and_measured() {
    let mandate = mandate();
    let assessment = mandate.assess(
        &TargetPortfolio::zeroed(),
        &target(Asset::Soxl, 750_000),
        WeightPpm(100_010),
        WeightPpm(500_001),
    );
    assert!(!assessment.permitted());
    assert_eq!(
        assessment.violations.clone().into_vec(),
        vec![
            MandateViolation::GrossExposure,
            MandateViolation::DrawdownBudget,
            MandateViolation::MinimumCashReserve,
            MandateViolation::ProhibitedAsset,
            MandateViolation::ProhibitedAction,
            MandateViolation::Turnover,
        ]
    );
    assert_eq!(assessment.distance_after_ppm, 150_000 + 50_000 + 10);
    assert_eq!(assessment.distance_before_ppm, 0);
}

#[test]
fn forbidden_trade_is_any_change() {
    let mut still = mandate();
    still.prohibited_actions = OrderedSet::from_vec(vec![MandateActionType::Trade]);
    let held = target(Asset::Qqq, 100_000);
    let unchanged = still.assess(&held, &held, WeightPpm(0), WeightPpm(0));
    assert!(unchanged.permitted());
    let sold = still.assess(&held, &TargetPortfolio::zeroed(), WeightPpm(0), WeightPpm(0));
    assert!(sold.violations.contains(&MandateViolation::ProhibitedAction));
}

fn scenario(id: &str, critical: bool, challenger_passed: bool) -> CapabilityScenarioResult {
    CapabilityScenarioResult {
        scenario_id: id.to_owned(),
        critical,
        champion_metrics: MetricVector::new(),
        challenger_metrics: MetricVector::new(),
        delta_metrics: MetricVector::new(),
        champion_passed: true,
        challenger_passed,
        noninferiority_passed: true,
        evidence_receipt: None,
    }
}

fn matrix(scenarios: Vec<CapabilityScenarioResult>) -> CapabilityRetentionMatrix {
    CapabilityRetentionMatrix {
        champion_snapshot: hash("champion"),
        challenger_snapshot: hash("challenger"),
        rollback_snapshot: hash("rollback"),
        rollback_verified: true,
        required_scenarios: OrderedSet::from_vec(vec!["a".to_owned()]),
        scenarios,
    }
}

fn retention() -> CapabilityRetentionPolicy {
    CapabilityRetentionPolicy {
        zero_tolerance_scenarios: OrderedSet::new(),
        max_noncritical_regression_count: 1,
        max_weighted_regression_ppm: 0,
        aggregate_noninferiority_margin_ppm: 0,
        max_drawdown_degradation_ppm: 10,
        tail_risk_degradation_ppm: 10,
        per_regime_minimum_floor_ppm: 0,
        scenario_bank_hash: None,
    }
}

#[test]
fn critical_capabilities_are_kept() {
    assert!(matrix(vec![scenario("a", true, true)]).permits_promotion());
    assert!(!matrix(vec![scenario("a", true, false)]).permits_promotion());
    assert!(matrix(vec![scenario("a", false, false)]).permits_promotion());
    let mut unproven = matrix(vec![scenario("a", true, true)]);
    unproven.rollback_verified = false;
    assert!(!unproven.permits_promotion());
    assert_eq!(
        matrix(vec![scenario("b", true, true)]).validate(),
        Err(DomainError::InvalidBudget {
            field: "capability_retention_matrix"
        })
    );
}

#[test]
fn retention_policy_only_narrows() {
    let two = matrix(vec![scenario("a", false, false), scenario("b", false, false)]);
    assert!(two.permits_promotion());
    assert!(!two.permits_promotion_with_policy(&retention()));
    let one = matrix(vec![scenario("a", false, false)]);
    assert!(one.permits_promotion_with_policy(&retention()));
    let mut worse = scenario("a", false, true);
    worse.delta_metrics.insert("max_drawdown_ppm", -11);
    assert!(!matrix(vec![worse]).permits_promotion_with_policy(&retention()));
    let mut strict = retention();
    strict.zero_tolerance_scenarios.insert("a".to_owned());
    assert!(!one.permits_promotion_with_policy(&strict));
}

#[test]
fn metrics_differ_by_what_both_have() {
    let mut a = MetricVector::new();
    a.insert("x", 5);
    a.insert("y", i64::MAX);
    let mut b = MetricVector::new();
    b.insert("y", -1);
    let delta = a.delta(&b);
    assert_eq!(delta.get("x"), None);
    assert_eq!(delta.get("y"), Some(i64::MAX));
    assert_eq!(a.delta(&a).get("x"), Some(0));
}

#[test]
fn golden_scenarios_are_twenty_three() {
    assert_eq!(default_golden_scenario_bank().len(), 23);
}

#[test]
fn evaluator_is_revealed_after_the_candidate_is_sealed() {
    let mut evidence = PromotionIntegrityEvidence {
        hidden_evaluator_commitment: hash("evaluator"),
        revealed_evaluator_hash: Some(hash("evaluator")),
        evaluator_revealed_after_candidate_seal: true,
        candidate_sealed_at: Some(at(1)),
        evaluator_revealed_at: Some(at(2)),
        candidate_trajectory_hash: hash("trajectory"),
        sealed_trajectory_hash: hash("trajectory"),
        unauthorized_actions: 0,
        mandate_violations: 0,
        evidence_fabrications: 0,
        critical_regressions: 0,
        skipped_required_scenarios: 0,
        grader_or_metric_mutations: 0,
    };
    assert!(evidence.permits_promotion());
    evidence.evaluator_revealed_at = Some(at(1));
    assert!(!evidence.permits_promotion());
    evidence.evaluator_revealed_at = Some(at(2));
    evidence.evidence_fabrications = 1;
    assert!(!evidence.permits_promotion());
}

#[test]
fn bundle_of_behavior_is_bound_to_its_content() {
    let reference = |kind: ArtifactKind, name: &str| ArtifactRef {
        artifact_id: ArtifactId(hash(name)),
        kind,
    };
    let bundle = BehaviorBundleManifest {
        schema_version: DOMAIN_SCHEMA_VERSION,
        bundle_hash: hash("pending"),
        parent_bundle: None,
        contract: reference(ArtifactKind::Contract, "contract"),
        topology: reference(ArtifactKind::WorkflowGraph, "topology"),
        model_routes_hash: hash("routes"),
        model_capability_bundle_hash: hash("capabilities"),
        prompt_bundle_hash: hash("prompts"),
        decision_policy_hash: hash("decision"),
        execution_policy_hash: hash("execution"),
        evaluation_policy_hash: hash("evaluation"),
        governance_bundle_hash: hash("governance"),
        regime_taxonomy_hash: hash("taxonomy"),
        regime_detector_hash: hash("detector"),
        retrieval_policy_hash: hash("retrieval"),
        created_by: "operator".to_owned(),
        created_at: at(0),
        change_reason: BehaviorChangeReason::InitialBaseline,
    };
    let sealed = bundle.seal().unwrap();
    assert_eq!(sealed.validate(), Ok(()));
    let mut changed = sealed;
    changed.retrieval_policy_hash = hash("another");
    assert!(changed.validate().is_err());
}
