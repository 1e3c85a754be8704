//! Content, consensus, capacity, compliance and dependencies.
use akzio_domain::error::DomainError;
use akzio_domain::foundation::{Asset, ContentHash, MoneyMicros, TargetPortfolio, WeightPpm};
use akzio_domain::market_safety::{
    assess_capacity, AgentEvidenceContribution, CapacityPolicy, ComplianceActionPolicy,
    ComplianceActivitySnapshot, ComplianceViolation, ConsensusDiversityAssessment,
    DependencyClosure, DependencyHealthStatus, DependencyKind, DependencySnapshot, FallbackPolicy,
    FinancialContentAssessment, FinancialContentIndicator, FinancialContentPolicy,
    InformationClassification, PreTradeSafetySnapshot, SourceAuthorityClass,
    paper_required_compliance_controls,
};
use akzio_domain::ordered::{OrderedMap, OrderedSet};
use akzio_domain::time::UtcTime;

fn at(secs: i64) -> UtcTime {
    UtcTime::from_timestamp(secs, 0).unwrap()
}

fn hash(name: &str) -> ContentHash {
    ContentHash::of_bytes(name.as_bytes())
}

fn content() -> FinancialContentAssessment {
    FinancialContentAssessment {
        source_origin: "wire".to_owned(),
        syndication_parent: None,
        content_similarity_cluster: hash("cluster"),
        first_seen_at: at(0),
        canonical_entity_ids: OrderedSet::from_vec(vec!["QQQ".to_owned()]),
        indicators: OrderedSet::new(),
        authority: SourceAuthorityClass::EstablishedNews,
        information_classification: InformationClassification::Public,
        independent_confirmation_clusters: 2,
        high_impact: false,
    }
}

#[test]
fn manipulated_or_withheld_content_blocks_trading() {
    let policy = FinancialContentPolicy {
        minimum_high_impact_confirmation_clusters: 2,
        allow_licensed_information: false,
    };
    assert!(!content().blocks_trading(&policy));
    let mut hidden = content();
    hidden
        .indicators
        .insert(FinancialContentIndicator::HiddenContent);
    assert!(hidden.blocks_trading(&policy));
    let mut licensed = content();
    licensed.information_classification = InformationClassification::Licensed;
    assert!(licensed.blocks_trading(&policy));
    let mut claim = content();
    claim.high_impact = true;
    assert!(claim.blocks_trading(&policy));
    claim.authority = SourceAuthorityClass::Regulator;
    assert!(!claim.blocks_trading(&policy));
    claim.independent_confirmation_clusters = 1;
    assert!(claim.blocks_trading(&policy));
}

fn voice(agent: &str, snapshot: Option<&str>, clusters: &[&str]) -> AgentEvidenceContribution {
    AgentEvidenceContribution {
        agent_id: agent.to_owned(),
        capability_snapshot_hash: snapshot.map(hash),
        evidence_clusters: OrderedSet::from_vec(clusters.iter().map(|c| hash(c)).collect()),
    }
}

#[test]
fn shared_evidence_is_no_consensus() {
    let voices = vec![
        voice("one", Some("x"), &["a", "b"]),
        voice("two", Some("y"), &["b", "c"]),
    ];
    let mut assessment = ConsensusDiversityAssessment::from_contributions(&voices, 400_000).unwrap();
    assert_eq!(assessment.maximum_source_overlap_ppm, 333_333);
    assert_eq!(assessment.unique_evidence_clusters, 3);
    assert!(assessment.independent);
    assert!(assessment.permits_consensus_confidence_boost());
    assessment.record_confidence(800_000, 700_000).unwrap();
    assert!(assessment.confidence_capped);
    assert_eq!(assessment.validate(), Ok(()));
    assert_eq!(
        assessment.record_confidence(700_000, 700_001),
        Err(DomainError::InvalidBudget {
            field: "consensus_diversity.confidence"
        })
    );
    let dependent = ConsensusDiversityAssessment::from_contributions(&voices, 333_332).unwrap();
    assert!(!dependent.independent);
    let mut claimed = dependent;
    claimed.independent = true;
    assert_eq!(
        claimed.validate(),
        Err(DomainError::InvalidBudget {
            field: "consensus_diversity.assessment"
        })
    );
}

#[test]
fn voices_of_one_capability_are_not_independent() {
    let voices = vec![
        voice("one", Some("x"), &["a"]),
        voice("two", Some("x"), &["b"]),
    ];
    assert!(!ConsensusDiversityAssessment::from_contributions(&voices, 1_000_000)
        .unwrap()
        .independent);
    let alone = vec![voice("one", None, &["a"])];
    assert!(ConsensusDiversityAssessment::from_contributions(&alone, 0)
        .unwrap()
        .independent);
    assert_eq!(
        ConsensusDiversityAssessment::from_contributions(
            &vec![voice("one", None, &["a"]), voice("one", None, &["b"])],
            0
        ),
        Err(DomainError::EmptyField {
            field: "consensus_diversity.contribution"
        })
    );
}

#[test]
fn capacity_is_a_share_of_the_daily_volume() {
    let policy = CapacityPolicy {
        maximum_market_participation_ppm: 100,
        maximum_estimated_slippage_ppm: 200,
        impact_slope_ppm: 2_000_000,
    };
    let mut target = TargetPortfolio::zeroed();
    target.weights.insert(Asset::Qqq, WeightPpm(100_000));
    let volumes = OrderedMap::from_entries(vec![(Asset::Qqq, MoneyMicros(1_000_000_000_000))]);
    let scenario =
        assess_capacity(&policy, &target, MoneyMicros(1_000_000_000), 1, &volumes).unwrap();
    assert!(scenario.within_capacity);
    assert_eq!(scenario.assets.len(), 1);
    assert_eq!(
        scenario.assets[0].aggregate_order_notional,
        MoneyMicros(100_000_000)
    );
    assert_eq!(scenario.assets[0].expected_market_participation_ppm, 100);
    assert_eq!(scenario.assets[0].estimated_slippage_ppm, 200);
    assert_eq!(scenario.assets[0].estimated_fill_probability_ppm, 999_900);
    let crowded =
        assess_capacity(&policy, &target, MoneyMicros(1_000_000_000), 2, &volumes).unwrap();
    assert!(!crowded.within_capacity);
    assert!(assess_capacity(&policy, &target, MoneyMicros(0), 1, &volumes).is_err());
}

#[test]
fn compliance_names_what_speaks_against_a_trade() {
    let policy = ComplianceActionPolicy {
        restricted_assets: OrderedSet::from_vec(vec![Asset::Soxl]),
        watch_list_assets: OrderedSet::new(),
        maximum_cancel_ratio_ppm: 500_000,
        permit_licensed_information: false,
        required_controls: paper_required_compliance_controls(),
    };
    let mut activity = ComplianceActivitySnapshot::paper_baseline();
    let clean = policy
        .assess(Asset::Qqq, InformationClassification::Public, &activity)
        .unwrap();
    assert!(clean.is_empty());
    activity.recent_submissions = 3;
    activity.recent_cancellations = 2;
    activity.self_trade_detected = true;
    let found = policy
        .assess(
            Asset::Soxl,
            InformationClassification::SuspectedMnpi,
            &activity,
        )
        .unwrap();
    assert_eq!(
        found.into_vec(),
        vec![
            ComplianceViolation::RestrictedAsset,
            ComplianceViolation::SuspectedMnpi,
            ComplianceViolation::SelfTrade,
            ComplianceViolation::ExcessiveCancellation,
        ]
    );
    let mut uncovered = ComplianceActivitySnapshot::paper_baseline();
    uncovered.available_controls = OrderedSet::new();
    assert!(policy
        .assess(Asset::Qqq, InformationClassification::Public, &uncovered)
        .unwrap()
        .contains(&ComplianceViolation::SurveillanceCoverageIncomplete));
}

const KINDS: [DependencyKind; 10] = [
    DependencyKind::ModelProvider,
    DependencyKind::NewsProvider,
    DependencyKind::MarketData,
    DependencyKind::MacroData,
    DependencyKind::Broker,
    DependencyKind::Dns,
    DependencyKind::MarketClock,
    DependencyKind::Storage,
    DependencyKind::Identity,
    DependencyKind::ComplianceData,
];

fn dependency(kind: DependencyKind) -> DependencySnapshot {
    DependencySnapshot {
        kind,
        provider: "provider".to_owned(),
        service: "service".to_owned(),
        version: "v1".to_owned(),
        data_classification: "public".to_owned(),
        expected_freshness_secs: 60,
        observed_at: at(100),
        status: DependencyHealthStatus::Healthy,
        fallback_policy: FallbackPolicy::FailClosed,
        configured_service: "service".to_owned(),
        actual_service: "service".to_owned(),
        fourth_party_dependencies: OrderedSet::new(),
    }
}

fn closure() -> DependencyClosure {
    DependencyClosure {
        captured_at: at(100),
        dependencies: OrderedMap::from_entries(
            KINDS.iter().map(|kind| (*kind, dependency(*kind))).collect(),
        ),
    }
}

#[test]
fn risk_needs_every_dependency_healthy_and_fresh() {
    let healthy = closure();
    assert_eq!(healthy.validate(), Ok(()));
    assert!(healthy.permits_new_risk(at(160)));
    assert!(healthy.incidents(at(160)).is_empty());
    assert!(!healthy.permits_new_risk(at(161)));
    let mut switched = closure();
    let mut broker = dependency(DependencyKind::Broker);
    broker.actual_service = "fallback".to_owned();
    switched
        .dependencies
        .insert(DependencyKind::Broker, broker);
    assert!(!switched.permits_new_risk(at(100)));
    assert_eq!(switched.incidents(at(100)).len(), 1);
    assert_eq!(switched.incidents(at(100))[0].kind, DependencyKind::Broker);
}

#[test]
fn closure_lacks_no_dependency() {
    let partial = DependencyClosure {
        captured_at: at(0),
        dependencies: OrderedMap::from_entries(vec![(
            DependencyKind::Dns,
            dependency(DependencyKind::Dns),
        )]),
    };
    assert_eq!(
        partial.validate(),
        Err(DomainError::EmptyField {
            field: "dependency_closure.required"
        })
    );
}

#[test]
fn missing_evidence_permits_no_order() {
    let mut snapshot = PreTradeSafetySnapshot {
        ordered_assets: OrderedSet::from_vec(vec![Asset::Qqq]),
        information_classifications: OrderedMap::from_entries(vec![(
            Asset::Qqq,
            InformationClassification::Public,
        )]),
        recent_compliance_activity: ComplianceActivitySnapshot::paper_baseline(),
        dependency_closure: closure(),
        capacity_scenario: None,
        missing_average_daily_dollar_volume: OrderedSet::new(),
        compliance_violations_by_asset: OrderedMap::from_entries(vec![(
            Asset::Qqq,
            OrderedSet::new(),
        )]),
        missing_information_classifications: OrderedSet::new(),
        risk_increasing: false,
        dependency_permits_new_risk: true,
        dependency_permits_risk_reduction: true,
        permits_execution: true,
        permits_risk_increasing: false,
    };
    assert_eq!(snapshot.validate(), Ok(()));
    snapshot.risk_increasing = true;
    snapshot.permits_risk_increasing = true;
    assert_eq!(
        snapshot.validate(),
        Err(DomainError::InvalidBudget {
            field: "pretrade_safety.permission"
        })
    );
    snapshot.permits_execution = false;
    snapshot.permits_risk_increasing = false;
    assert_eq!(snapshot.validate(), Ok(()));
    snapshot
        .compliance_violations_by_asset
        .insert(Asset::Soxx, OrderedSet::new());
    assert_eq!(
        snapshot.validate(),
        Err(DomainError::InvalidBudget {
            field: "pretrade_safety.assets"
        })
    );
}
