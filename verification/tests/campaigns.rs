//! Campaigns that roll a candidate out.
use akzio_domain::artifact::{ArtifactId, ArtifactKind, ArtifactRef};
use akzio_domain::canary::{
    CanaryCampaignSpec, CanaryCampaignStatus, CanaryCohortEvaluation, CanaryCohortManifest,
    CanaryPromotionPolicy, CanaryVerdict,
};
use akzio_domain::error::DomainError;
use akzio_domain::evaluation::outcome::OutcomeCostModel;
use akzio_domain::evaluation::policy::CandidatePolicyState;
use akzio_domain::foundation::{Asset, ContentHash, MoneyMicros, TopologyId};
use akzio_domain::ordered::{OrderedMap, OrderedSet};
use akzio_domain::time::{CalendarDay, UtcTime};
use akzio_domain::DOMAIN_SCHEMA_VERSION;

fn at(secs: i64) -> UtcTime {
    UtcTime::from_timestamp(secs, 0).unwrap()
}

fn hash(name: &str) -> ContentHash {
    ContentHash::of_bytes(name.as_bytes())
}

fn reference(kind: ArtifactKind, name: &str) -> ArtifactRef {
    ArtifactRef {
        artifact_id: ArtifactId(hash(name)),
        kind,
    }
}

#[test]
fn campaign_passes_every_stage_in_turn() {
    let mut state = CanaryCampaignStatus::Staged;
    let mut names = vec![state.display_name()];
    while let Some(next) = state.next() {
        state = next;
        names.push(state.display_name());
    }
    assert_eq!(
        names,
        [
            "Staged",
            "ValidationStage1",
            "ValidationStage2",
            "ValidationStage3",
            "ActiveValidation",
            "Completed"
        ]
    );
    assert_eq!(CanaryCampaignStatus::Frozen.next(), None);
}

#[test]
fn stages_go_by_their_share_too() {
    assert_eq!(
        [
            CanaryCampaignStatus::Canary10,
            CanaryCampaignStatus::Canary25,
            CanaryCampaignStatus::Canary50,
        ],
        CanaryCampaignStatus::LEVELS[..3]
    );
}

#[test]
fn stages_roll_the_candidate_out() {
    assert_eq!(
        CanaryCampaignStatus::ValidationStage3.policy_state(),
        Some(CandidatePolicyState::Canary50)
    );
    assert_eq!(
        CanaryCampaignStatus::Completed.policy_state(),
        Some(CandidatePolicyState::Active)
    );
    assert_eq!(CanaryCampaignStatus::Staged.policy_state(), None);
    assert!(CanaryCampaignStatus::ActiveValidation.is_level());
    assert!(!CanaryCampaignStatus::Completed.is_level());
    assert_eq!(
        CanaryCampaignStatus::ValidationStage1.legacy_storage_name(),
        Some("canary10")
    );
}

fn policy() -> CanaryPromotionPolicy {
    CanaryPromotionPolicy {
        minimum_evidence_completeness_ppm: 900_000,
        minimum_risk_recall_ppm: 900_000,
        minimum_process_quality_ppm: 900_000,
        required_paired_sessions_per_horizon: [1, 1, 1],
        minimum_distinct_market_days: 2,
        required_regimes: OrderedSet::from_vec(vec!["calm".to_owned()]),
        minimum_cost_adjusted_utility_delta_ppm: 0,
        maximum_drawdown_delta_ppm: 0,
        maximum_tail_loss_delta_ppm: 0,
        minimum_confidence_ppm: 0,
        search_bias_acceptance: None,
    }
}

fn cohort(stage: CanaryCampaignStatus) -> CanaryCohortManifest {
    let day = |text: &str| CalendarDay::parse(text).unwrap();
    CanaryCohortManifest {
        schema_version: DOMAIN_SCHEMA_VERSION,
        cohort_id: hash("pending"),
        campaign_id: hash("campaign"),
        parent_contract_hash: hash("active"),
        candidate_contract_hash: hash("candidate"),
        parent_topology_id: TopologyId("active".to_owned()),
        candidate_topology_id: TopologyId("candidate".to_owned()),
        validation_stage: stage,
        observation_start: day("2026-09-01"),
        observation_end: day("2026-09-04"),
        asset_universe: OrderedSet::from_vec(vec![Asset::Qqq]),
        cost_model: OutcomeCostModel::default(),
        market_calendar_id: hash("calendar"),
        market_regimes: OrderedMap::from_entries(vec![
            (day("2026-09-01"), "calm".to_owned()),
            (day("2026-09-04"), "stress".to_owned()),
        ]),
        generation_dataset_id: hash("generation"),
        promotion_dataset_id: hash("promotion"),
        promotion_policy_hash: policy().identity_hash(),
        search_bias_certificate: None,
        promotion_integrity: None,
        capability_retention: None,
    }
    .seal()
}

fn campaign() -> CanaryCampaignSpec {
    CanaryCampaignSpec {
        schema_version: DOMAIN_SCHEMA_VERSION,
        campaign_id: hash("campaign"),
        active_contract_hash: hash("active"),
        candidate_contract: reference(ArtifactKind::Contract, "contract"),
        active_topology_id: TopologyId("active".to_owned()),
        candidate_topology: reference(ArtifactKind::WorkflowGraph, "topology"),
        runtime_manifest: reference(ArtifactKind::RuntimeManifest, "runtime"),
        paper_approval: reference(ArtifactKind::PaperLaunchApproval, "approval"),
        source_revision: "revision".to_owned(),
        maximum_total_notional: MoneyMicros(1_000_000_000),
        behavior_bundle_hash: None,
        promotion_policy: Some(policy()),
        cohorts: vec![
            cohort(CanaryCampaignStatus::ValidationStage1),
            cohort(CanaryCampaignStatus::ValidationStage2),
            cohort(CanaryCampaignStatus::ValidationStage3),
            cohort(CanaryCampaignStatus::ActiveValidation),
        ],
        created_at: at(0),
    }
}

#[test]
fn campaign_that_promotes_observes_every_stage() {
    let campaign = campaign();
    assert_eq!(campaign.validate(), Ok(()));
    assert!(campaign.has_paired_cohorts());
    assert_eq!(
        campaign
            .cohort(CanaryCampaignStatus::ValidationStage2)
            .unwrap()
            .validation_stage,
        CanaryCampaignStatus::ValidationStage2
    );
    assert!(campaign.cohort(CanaryCampaignStatus::Staged).is_none());
    let mut missing = campaign.clone();
    missing.cohorts[3] = missing.cohorts[0].clone();
    assert_eq!(
        missing.validate(),
        Err(DomainError::InvalidBudget {
            field: "canary_campaign.cohorts"
        })
    );
    let mut unobserved = campaign.clone();
    unobserved.promotion_policy = None;
    assert!(unobserved.validate().is_err());
    unobserved.cohorts.clear();
    assert_eq!(unobserved.validate(), Ok(()));
    let mut large = campaign;
    large.maximum_total_notional = MoneyMicros(1_000_000_001);
    assert_eq!(
        large.validate(),
        Err(DomainError::EmptyField {
            field: "canary_campaign.spec"
        })
    );
}

#[test]
fn cohort_covers_what_its_policy_requires() {
    let mut wanting = campaign();
    wanting
        .promotion_policy
        .as_mut()
        .unwrap()
        .minimum_distinct_market_days = 3;
    assert!(wanting.validate().is_err());
    let own = cohort(CanaryCampaignStatus::ValidationStage1);
    assert_eq!(own.validate(), Ok(()));
    let day = |text: &str| CalendarDay::parse(text).unwrap();
    assert_eq!(own.regime_for(day("2026-09-04")), Some("stress"));
    assert_eq!(own.regime_for(day("2026-09-02")), None);
    let mut changed = own;
    changed.observation_end = day("2026-09-05");
    assert_eq!(
        changed.validate(),
        Err(DomainError::InvalidBudget {
            field: "canary.cohort_manifest"
        })
    );
}

#[test]
fn evaluation_made_again_is_the_same() {
    let evaluation = |evaluated_at: i64| {
        CanaryCohortEvaluation {
            schema_version: DOMAIN_SCHEMA_VERSION,
            evaluation_id: hash("pending"),
            cohort_id: hash("cohort"),
            promotion_policy_hash: hash("policy"),
            observation_set_hash: hash("observations"),
            verdict: CanaryVerdict::Hold,
            paired_sessions_by_horizon: [1, 2, 3],
            distinct_market_days: 3,
            covered_regimes: OrderedSet::new(),
            calibration_reports: vec![],
            search_bias_certificate: None,
            evaluated_at: at(evaluated_at),
        }
        .seal()
    };
    assert_eq!(evaluation(0).evaluation_id, evaluation(99).evaluation_id);
    assert_eq!(evaluation(0).validate(), Ok(()));
}
