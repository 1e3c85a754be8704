//! What an attempt may read and write.
use akzio_domain::artifact::{ArtifactId, ArtifactKind, ArtifactRef};
use akzio_domain::context::{
    manifest_input_hash, ContextGrant, ContextManifestPayload, ContextProjection,
    ContextQuarantine, ContextQuarantineReason, ContextSelection, ContextTrust, ReadGrant,
    TaskWritePermit,
};
use akzio_domain::contract::ContextPolicy;
use akzio_domain::error::DomainError;
use akzio_domain::foundation::{AttemptId, ContentHash, LeaseId, RunId, TaskId};
use akzio_domain::ordered::OrderedSet;
use akzio_domain::time::UtcTime;
use akzio_domain::DOMAIN_SCHEMA_VERSION;

fn at(secs: i64) -> UtcTime {
    UtcTime::from_timestamp(secs, 0).unwrap()
}

fn reference(kind: ArtifactKind, name: &str) -> ArtifactRef {
    ArtifactRef {
        artifact_id: ArtifactId(ContentHash::of_bytes(name.as_bytes())),
        kind,
    }
}

fn policy() -> ContextPolicy {
    ContextPolicy {
        permitted_kinds: OrderedSet::from_vec(vec![
            ArtifactKind::NormalizedEvidence,
            ArtifactKind::Claim,
        ]),
        permitted_source_families: OrderedSet::new(),
        min_artifacts: 1,
        max_artifacts: 2,
        max_bytes: 100,
        max_source_bytes: Some(1_000),
        max_tokens: 50,
        allow_raw_reread: false,
    }
}

fn selection(name: &str, trust: ContextTrust) -> ContextSelection {
    ContextSelection {
        artifact: reference(ArtifactKind::NormalizedEvidence, name),
        reason: "cited".to_owned(),
        estimated_tokens: 10,
        projected_bytes: None,
        trust,
    }
}

fn payload(selections: Vec<ContextSelection>) -> ContextManifestPayload {
    ContextManifestPayload {
        schema_version: DOMAIN_SCHEMA_VERSION,
        contract_hash: ContentHash::of_bytes(b"contract"),
        input_hash: manifest_input_hash(&selections).unwrap(),
        selections,
        quarantined: vec![],
        total_bytes: 100,
        projected_bytes: None,
        estimated_tokens: 10,
    }
}

#[test]
fn input_hash_follows_what_is_selected() {
    let one = vec![selection("a", ContextTrust::UntrustedEvidence)];
    let mut reworded = one.clone();
    reworded[0].reason = "another".to_owned();
    reworded[0].estimated_tokens = 11;
    assert_eq!(
        manifest_input_hash(&one).unwrap(),
        manifest_input_hash(&reworded).unwrap()
    );
    let other = vec![selection("b", ContextTrust::UntrustedEvidence)];
    assert_ne!(
        manifest_input_hash(&one).unwrap(),
        manifest_input_hash(&other).unwrap()
    );
    let id = one[0].artifact.artifact_id.0.as_str().to_owned();
    assert_eq!(
        manifest_input_hash(&one).unwrap(),
        ContentHash::of_bytes(format!(r#"[["{id}","normalized_evidence"]]"#).as_bytes())
    );
}

#[test]
fn evidence_is_never_trusted() {
    let untrusted = payload(vec![selection("a", ContextTrust::UntrustedEvidence)]);
    assert_eq!(untrusted.validate(&policy()), Ok(()));
    let trusted = payload(vec![selection("a", ContextTrust::GovernedArtifact)]);
    assert_eq!(
        trusted.validate(&policy()),
        Err(DomainError::EmptyField {
            field: "context_manifest.selection"
        })
    );
}

#[test]
fn manifest_stays_within_its_policy() {
    let mut large = payload(vec![selection("a", ContextTrust::UntrustedEvidence)]);
    large.total_bytes = 101;
    assert_eq!(
        large.validate(&policy()),
        Err(DomainError::InvalidBudget {
            field: "context_manifest"
        })
    );
    large.projected_bytes = Some(100);
    assert_eq!(large.validate(&policy()), Ok(()));
    assert!(payload(vec![]).validate(&policy()).is_err());
}

#[test]
fn what_is_kept_out_is_not_selected() {
    let mut manifest = payload(vec![selection("a", ContextTrust::UntrustedEvidence)]);
    manifest.quarantined.push(ContextQuarantine {
        artifact: reference(ArtifactKind::NormalizedEvidence, "b"),
        reason: ContextQuarantineReason::InstructionLikeContent,
        indicators: vec!["ignore previous".to_owned()],
    });
    assert_eq!(manifest.validate(&policy()), Ok(()));
    manifest.quarantined[0].artifact = reference(ArtifactKind::NormalizedEvidence, "a");
    assert_eq!(
        manifest.validate(&policy()),
        Err(DomainError::EmptyField {
            field: "context_manifest.quarantine"
        })
    );
}

#[test]
fn projection_names_each_artifact_once() {
    let mut projection = ContextProjection {
        parent_manifest: reference(ArtifactKind::ContextManifest, "manifest"),
        allowed: vec![reference(ArtifactKind::Claim, "a")],
        reason: "narrowed".to_owned(),
    };
    assert_eq!(projection.validate(), Ok(()));
    projection.allowed.push(reference(ArtifactKind::Critique, "a"));
    assert_eq!(
        projection.validate(),
        Err(DomainError::EmptyField {
            field: "context_projection.allowed"
        })
    );
}

fn permit() -> TaskWritePermit {
    TaskWritePermit {
        run_id: RunId("run".to_owned()),
        task_id: TaskId("task".to_owned()),
        attempt_id: AttemptId("attempt".to_owned()),
        lease_id: LeaseId("lease".to_owned()),
        epoch: 3,
        contract_hash: Some(ContentHash::of_bytes(b"contract")),
    }
}

#[test]
fn grant_expires_and_belongs_to_one_attempt() {
    let permit = permit();
    let readable = reference(ArtifactKind::Claim, "a").artifact_id;
    let raw = reference(ArtifactKind::RawEvidence, "raw").artifact_id;
    let grant = ReadGrant {
        manifest_artifact_id: reference(ArtifactKind::ContextManifest, "m").artifact_id,
        run_id: permit.run_id.clone(),
        task_id: permit.task_id.clone(),
        attempt_id: permit.attempt_id.clone(),
        lease_id: permit.lease_id.clone(),
        epoch: 3,
        contract_hash: ContentHash::of_bytes(b"contract"),
        readable: OrderedSet::from_vec(vec![readable.clone()]),
        raw_source_closure: OrderedSet::from_vec(vec![raw.clone()]),
        expires_at: at(100),
    };
    assert!(grant.matches_permit(&permit));
    assert!(grant.permits(&readable, false, at(99)));
    assert!(!grant.permits(&readable, true, at(99)));
    assert!(grant.permits(&raw, true, at(99)));
    assert!(!grant.permits(&readable, false, at(100)));
    let mut other = permit.clone();
    other.attempt_id = AttemptId("second".to_owned());
    assert!(!grant.matches_permit(&other));
    let lasting = ContextGrant {
        manifest_artifact_id: grant.manifest_artifact_id.clone(),
        contract_hash: grant.contract_hash.clone(),
        readable: grant.readable.clone(),
        raw_source_closure: grant.raw_source_closure.clone(),
        expires_at: at(100),
    };
    assert!(lasting.permits(&readable, false, at(100)));
    assert!(!lasting.permits(&readable, false, at(101)));
}

#[test]
fn origin_of_what_an_attempt_writes_is_valid() {
    let origin = permit().artifact_origin();
    assert_eq!(origin.validate(), Ok(()));
    assert_eq!(origin.attempt_id, Some(AttemptId("attempt".to_owned())));
    let mut orphan = origin;
    orphan.task_id = None;
    assert_eq!(
        orphan.validate(),
        Err(DomainError::AttemptOriginWithoutTask)
    );
}
