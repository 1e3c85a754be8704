//! Intents, gaps and critiques.
use akzio_domain::artifact::{ArtifactId, ArtifactKind, ArtifactRef};
use akzio_domain::decision::DecisionHorizon;
use akzio_domain::error::DomainError;
use akzio_domain::foundation::{Asset, ContentHash};
use akzio_domain::ordered::OrderedSet;
use akzio_domain::research::{
    ClaimVerificationEvidence, ClaimVerificationStatus, CritiqueSeverity, EvidenceGap,
    EvidenceGapImpact, EvidenceGround, EvidenceGroundRole, ResearchCritique, ResearchIntent,
    ResearchShard, SourceAuthority, TemporalValidity,
};
use akzio_domain::time::UtcTime;
use akzio_domain::DOMAIN_SCHEMA_VERSION;

fn at(text: &str) -> UtcTime {
    let instant: chrono::DateTime<chrono::Utc> = text.parse().unwrap();
    UtcTime::from_timestamp(instant.timestamp(), instant.timestamp_subsec_nanos()).unwrap()
}

#[test]
fn news_cannot_be_acquired_as_price_bars_but_gap_may_remain_unfilled() {
    let intent = ResearchIntent {
        schema_version: DOMAIN_SCHEMA_VERSION,
        source_family: "alpaca".into(),
        resource: "bars".into(),
        query: "获取资产专属新闻".into(),
        assets: OrderedSet::new(),
        window_start: None,
        window_end: None,
        max_age_secs: 86400,
        max_results: 1,
    };
    assert!(intent.validate().is_err());

    let start = at("2025-09-21T00:00:00Z");
    let end = at("2026-09-22T07:02:34Z");
    let invalid_window = ResearchIntent {
        source_family: "fred".into(),
        resource: "series:VIXCLS".into(),
        query: "refresh VIX".into(),
        window_start: Some(start),
        window_end: Some(end),
        ..intent.clone()
    };
    assert!(matches!(
        invalid_window.validate(),
        Err(DomainError::InvalidEvidenceWindow {
            field: "research.intent.window",
            start: actual_start,
            end: actual_end,
        }) if actual_start == "2025-09-21 00:00:00 UTC" && actual_end == "2026-09-22 07:02:34 UTC"
    ));

    let gap = EvidenceGap {
        supplemental_requests: Vec::new(),
        topic: "news unavailable".into(),
        rationale: "No news adapter available; directional support remains insufficient".into(),
        impact: EvidenceGapImpact::BlocksDirectionalForecast,
        assets: OrderedSet::new(),
        horizons: OrderedSet::new(),
        supplemental_needs: vec![],
        retriable: false,
    };
    assert!(gap.validate().is_ok());
    let mut retriable = gap;
    retriable.retriable = true;
    assert!(retriable.validate().is_err());
    retriable.impact = EvidenceGapImpact::Warning;
    assert!(retriable.validate().is_ok());
}

fn reference(digit: &str, kind: ArtifactKind) -> ArtifactRef {
    ArtifactRef {
        artifact_id: ArtifactId(ContentHash::new(&digit.repeat(64)).unwrap()),
        kind,
    }
}

fn critique(supporting: &str, gaps: Vec<EvidenceGap>) -> ResearchCritique {
    ResearchCritique {
        schema_version: DOMAIN_SCHEMA_VERSION,
        target: reference("a", ArtifactKind::Claim),
        topic: "QQQ t1 price".into(),
        severity: CritiqueSeverity::Low,
        blocker: false,
        rationale: "Price supports the scoped claim; news remains missing".into(),
        grounds: vec![EvidenceGround {
            evidence: reference("b", ArtifactKind::NormalizedEvidence),
            support: "Price-only support".into(),
            role: EvidenceGroundRole::Directional,
            assets: OrderedSet::from_vec(vec![Asset::Qqq]),
            domain: Some(ResearchShard::PriceMarketStructure),
        }],
        evidence_gaps: gaps,
        verification_status: ClaimVerificationStatus::Supported,
        supporting_refs: vec![ClaimVerificationEvidence {
            evidence: reference(supporting, ArtifactKind::NormalizedEvidence),
            authority: SourceAuthority::Official,
            temporal_validity: TemporalValidity::ValidAtDecisionCutoff,
        }],
        conflicting_refs: vec![],
    }
}

#[test]
fn supported_price_does_not_clear_direction_blocking_gap() {
    let mut critique = critique(
        "b",
        vec![EvidenceGap {
            supplemental_requests: vec![],
            topic: "news".into(),
            rationale: "Unavailable news".into(),
            impact: EvidenceGapImpact::BlocksDirectionalForecast,
            assets: OrderedSet::from_vec(vec![Asset::Qqq]),
            horizons: OrderedSet::from_vec(vec![DecisionHorizon::T1]),
            supplemental_needs: vec![],
            retriable: false,
        }],
    );
    assert!(matches!(
        critique.validate(),
        Err(DomainError::EmptyField {
            field: "research.critique.blocking_gap_requires_blocker_true"
        })
    ));
    critique.blocker = true;
    assert!(critique.validate().is_ok());
}

#[test]
fn verification_ref_outside_grounds_names_the_offending_artifact() {
    let critique = critique("c", vec![]);
    assert!(matches!(
        critique.validate(),
        Err(DomainError::VerificationRefOutsideGrounds {
            field: "research.claim_verification.ground_closure",
            evidence,
        }) if evidence.contains(&"c".repeat(64)) && evidence.contains("NormalizedEvidence")
    ));
}

#[test]
fn critique_cites_each_ground_once_and_in_order() {
    let mut critique = critique("b", vec![]);
    let mut second = critique.grounds[0].clone();
    second.evidence = reference("1", ArtifactKind::NormalizedEvidence);
    critique.grounds.push(second.clone());
    critique.grounds.push(second);
    let sources = critique.source_refs();
    assert!(sources.contains(&critique.target));
    let ones = sources
        .iter()
        .filter(|r| **r == reference("1", ArtifactKind::NormalizedEvidence))
        .count();
    assert_eq!(ones, 1);
}
