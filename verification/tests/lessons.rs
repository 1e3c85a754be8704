//! Lessons, their governance and what was seen of them.
use akzio_domain::artifact::{ArtifactId, ArtifactKind, ArtifactRef};
use akzio_domain::error::DomainError;
use akzio_domain::foundation::ContentHash;
use akzio_domain::ids::LessonId;
use akzio_domain::lesson::{
    Lesson, LessonAttribution, LessonEvidence, LessonEvidenceSummary, LessonGovernance,
    LessonLifecycle, LessonOrigin, LessonScope,
};
use akzio_domain::ordered::{OrderedMap, OrderedSet};
use akzio_domain::time::UtcTime;
use akzio_domain::DOMAIN_SCHEMA_VERSION;

fn at(secs: i64) -> UtcTime {
    UtcTime::from_timestamp(secs, 0).unwrap()
}

fn reference(kind: ArtifactKind, name: &str) -> ArtifactRef {
    ArtifactRef {
        artifact_id: ArtifactId(ContentHash::of_bytes(name.as_bytes())),
        kind,
    }
}

fn lesson() -> Lesson {
    Lesson {
        schema_version: DOMAIN_SCHEMA_VERSION,
        lesson_id: LessonId("lesson".to_owned()),
        origin: LessonOrigin::Operator,
        lifecycle: LessonLifecycle::Active,
        title: "title".to_owned(),
        statement: "statement".to_owned(),
        rationale: "rationale".to_owned(),
        recommended_behavior: "behavior".to_owned(),
        exclusions: vec![],
        scope: LessonScope::default(),
        source_refs: vec![reference(ArtifactKind::Outcome, "outcome")],
        supersedes: vec![],
        conflicts_with: vec![],
        confidence_ppm: 500_000,
        authored_by: Some("author".to_owned()),
        approved_by: Some("approver".to_owned()),
        created_at: at(0),
        updated_at: at(0),
        governance: Some(LessonGovernance::operator_reviewed(at(0))),
    }
}

#[test]
fn lessons_in_use_are_approved() {
    let lesson = lesson();
    assert_eq!(lesson.validate(), Ok(()));
    assert!(lesson.is_retrievable(at(10), 99, &OrderedSet::new()));
    let mut unapproved = lesson.clone();
    unapproved.approved_by = None;
    assert_eq!(
        unapproved.validate(),
        Err(DomainError::EmptyField {
            field: "lesson.approved_by"
        })
    );
    let mut circular = lesson.clone();
    circular.source_refs = vec![reference(ArtifactKind::Lesson, "other")];
    assert_eq!(
        circular.validate(),
        Err(DomainError::EmptyField {
            field: "lesson.source_refs"
        })
    );
    let mut kept_out = lesson;
    kept_out.governance = Some(LessonGovernance::outcome_quarantined(at(0)));
    assert_eq!(
        kept_out.validate(),
        Err(DomainError::InvalidBudget {
            field: "lesson.governance.quarantine"
        })
    );
}

#[test]
fn lesson_is_used_up_and_expires() {
    let governance = LessonGovernance::outcome_revalidated(at(0));
    let none = OrderedSet::new();
    assert!(governance.permits_retrieval(at(0), 19, &none));
    assert!(!governance.permits_retrieval(at(0), 20, &none));
    assert!(governance.permits_retrieval(at(30 * 86_400), 0, &none));
    assert!(!governance.permits_retrieval(at(30 * 86_400 + 1), 0, &none));
    assert!(!governance.permits_retrieval(at(-1), 0, &none));
}

#[test]
fn what_was_found_against_a_lesson_keeps_it_out() {
    let mut governance = LessonGovernance::operator_reviewed(at(0));
    governance.contradiction_count = 1;
    assert!(!governance.permits_retrieval(at(1), 0, &OrderedSet::new()));
    governance.contradiction_count = 0;
    governance.post_use_failure_count = 1;
    assert!(!governance.permits_retrieval(at(1), 0, &OrderedSet::new()));
    assert!(!LessonGovernance::outcome_quarantined(at(0)).permits_retrieval(
        at(1),
        0,
        &OrderedSet::new()
    ));
}

#[test]
fn lesson_suits_its_regimes_only() {
    let mut governance = LessonGovernance::operator_reviewed(at(0));
    governance.regime_compatibility = OrderedMap::from_entries(vec![
        ("calm".to_owned(), 500_000),
        ("stress".to_owned(), 499_999),
    ]);
    let calm = OrderedSet::from_vec(vec!["calm".to_owned()]);
    let stress = OrderedSet::from_vec(vec!["stress".to_owned()]);
    assert!(governance.permits_retrieval(at(1), 0, &calm));
    assert!(!governance.permits_retrieval(at(1), 0, &stress));
    assert!(!governance.permits_retrieval(at(1), 0, &OrderedSet::new()));
    governance
        .regime_compatibility
        .insert("calm".to_owned(), 1_000_001);
    assert!(governance.validate().is_err());
}

fn evidence(attribution: LessonAttribution, utility: i64, calibration: Option<u32>) -> LessonEvidence {
    LessonEvidence {
        schema_version: DOMAIN_SCHEMA_VERSION,
        lesson_id: LessonId("lesson".to_owned()),
        lesson_artifact: reference(ArtifactKind::Lesson, "lesson"),
        decision_context: reference(ArtifactKind::DecisionContext, "decision"),
        outcome: reference(ArtifactKind::Outcome, "outcome"),
        attribution,
        utility_ppm_by_horizon: [utility, -1, 0],
        calibration_ppm_by_horizon: [calibration, None, None],
        recorded_at: at(0),
    }
}

#[test]
fn record_made_twice_is_one_observation() {
    let first = evidence(LessonAttribution::Applied, 5, Some(10));
    let mut again = first.clone();
    again.recorded_at = at(99);
    assert!(first.describes_same_observation(&again));
    assert_eq!(
        first.identity_hash().unwrap(),
        again.identity_hash().unwrap()
    );
    again.attribution = LessonAttribution::Rejected;
    assert!(!first.describes_same_observation(&again));
    assert_eq!(first.idempotency_key(), again.idempotency_key());
    again.outcome = reference(ArtifactKind::Outcome, "another");
    assert_ne!(
        first.identity_hash().unwrap(),
        again.identity_hash().unwrap()
    );
    again.calibration_ppm_by_horizon[2] = Some(1_000_001);
    assert_eq!(
        again.validate(),
        Err(DomainError::InvalidBudget {
            field: "lesson_evidence.calibration_ppm"
        })
    );
}

#[test]
fn evidence_is_counted_by_attribution() {
    let summary = LessonEvidenceSummary::from_records(&[
        evidence(LessonAttribution::Applied, 5, Some(10)),
        evidence(LessonAttribution::Applied, -5, Some(13)),
        evidence(LessonAttribution::Rejected, 1, None),
    ]);
    assert_eq!(summary.applied_count, 2);
    assert_eq!(summary.rejected_count, 1);
    assert_eq!(summary.applied_with_positive_utility, 1);
    assert_eq!(summary.rejected_with_positive_utility, 1);
    assert_eq!(summary.mean_calibration_ppm, Some(11));
    assert!(summary.observational);
    assert_eq!(
        LessonEvidenceSummary::from_records(&[]).mean_calibration_ppm,
        None
    );
}
