//! Artifacts, contracts and permits.
use akzio_domain::artifact::{
    Artifact, ArtifactId, ArtifactKind, ArtifactLifecycle, ArtifactProvenance, ArtifactRef,
};
use akzio_domain::budget::ToolCallLimit;
use akzio_domain::context::TaskWritePermit;
use akzio_domain::contract::{ContextPolicy, ContractPurpose, ContractSpec, OutputContract};
use akzio_domain::error::DomainError;
use akzio_domain::foundation::{
    AttemptId, BlobRef, ContentHash, ContractId, FailureDisposition, LeaseId, RetryPolicy, RunId,
    TaskBudget, TaskId, TerminationPolicy, ToolGrant, ToolKind,
};
use akzio_domain::ordered::OrderedSet;
use akzio_domain::time::UtcTime;
use akzio_domain::workflow::{BlockerSeverity, DecisionBlocker};

fn now() -> UtcTime {
    let now = chrono::Utc::now();
    UtcTime::from_timestamp(now.timestamp(), now.timestamp_subsec_nanos()).unwrap()
}

fn blob(value: &[u8]) -> BlobRef {
    BlobRef {
        hash: ContentHash::of_bytes(value),
        media_type: "application/json".to_owned(),
        bytes: value.len() as u64,
    }
}

fn provenance() -> ArtifactProvenance {
    ArtifactProvenance {
        source_family: "fixture.market".to_owned(),
        observed_at: None,
        retrieved_at: now(),
        source_uri: None,
        confidence_ppm: 1_000_000,
        producer_contract_hash: None,
    }
}

#[test]
fn artifact_identity_commits_metadata_and_payload() {
    let artifact = Artifact::new(
        ArtifactKind::NormalizedEvidence,
        blob(b"payload"),
        "fixture",
        ArtifactLifecycle::RunScoped,
        provenance(),
        None,
        vec![],
        now(),
    )
    .unwrap();
    artifact.validate().unwrap();

    let mut substituted = artifact.clone();
    substituted.producer = "different".to_owned();
    assert_eq!(substituted.validate(), Err(DomainError::InvalidContentHash));
}

#[test]
fn order_of_given_sources_does_not_matter() {
    let reference = |kind: ArtifactKind, name: &str| ArtifactRef {
        artifact_id: ArtifactId(ContentHash::of_bytes(name.as_bytes())),
        kind,
    };
    let sources = vec![
        reference(ArtifactKind::RawEvidence, "one"),
        reference(ArtifactKind::RawEvidence, "two"),
        reference(ArtifactKind::EvidenceNeed, "three"),
    ];
    let origin = provenance();
    let created_at = now();
    let made = |sources: Vec<ArtifactRef>| {
        Artifact::new(
            ArtifactKind::NormalizedEvidence,
            blob(b"payload"),
            "fixture",
            ArtifactLifecycle::RunScoped,
            origin.clone(),
            None,
            sources,
            created_at,
        )
    };
    let artifact = made(sources.clone()).unwrap();
    let mut turned = sources.clone();
    turned.reverse();
    assert_eq!(made(turned), Ok(artifact.clone()));
    let mut sorted = sources.clone();
    sorted.sort();
    assert_eq!(artifact.source_refs, sorted);
    assert_eq!(artifact.artifact_id.0, artifact.expected_hash().unwrap());
    let mut twice = sources.clone();
    twice.push(sources[0].clone());
    let refused = made(twice.clone());
    assert_eq!(
        refused,
        Err(DomainError::EmptyField {
            field: "artifact.source_refs"
        })
    );
    twice.reverse();
    assert_eq!(made(twice), refused);
}

#[test]
fn contract_hash_rejects_prompt_or_grant_substitution() {
    let contract = ContractSpec::new(
        ContractId::new(),
        1,
        ContractPurpose::new("research.analyst").unwrap(),
        "derive claims",
        blob(b"prompt"),
        ContextPolicy {
            permitted_kinds: OrderedSet::from_vec(vec![ArtifactKind::NormalizedEvidence]),
            permitted_source_families: OrderedSet::from_vec(vec!["market".to_owned()]),
            min_artifacts: 0,
            max_artifacts: 4,
            max_bytes: 1024,
            max_source_bytes: None,
            max_tokens: 256,
            allow_raw_reread: true,
        },
        vec![ToolGrant {
            kind: ToolKind::ReadEvidence,
            allowed_sources: vec!["market".to_owned()],
        }],
        OutputContract {
            artifact_kind: ArtifactKind::Claim,
            schema: blob(b"schema"),
        },
        TaskBudget {
            max_input_tokens: 256,
            max_output_tokens: 128,
            max_wall_time_secs: 30,
            max_tool_calls: ToolCallLimit::Limited(2),
        },
        RetryPolicy {
            max_attempts: 1,
            initial_backoff_ms: 1,
            retry_transport: true,
            retry_rate_limited: true,
            retry_invalid_output: false,
        },
        TerminationPolicy::leaf(),
        FailureDisposition::FailTask,
    )
    .unwrap();
    contract.validate().unwrap();

    let mut substituted = contract.clone();
    substituted.prompt = blob(b"different prompt");
    assert_eq!(substituted.validate(), Err(DomainError::InvalidContentHash));
}

#[test]
fn hard_blocker_requires_evidence() {
    let blocker = DecisionBlocker {
        code: "stale_quote".to_owned(),
        severity: BlockerSeverity::Hard,
        scope: "TQQQ".to_owned(),
        explanation: "quote expired".to_owned(),
        source_refs: vec![],
    };
    assert!(blocker.validate().is_err());
}

#[test]
fn write_permit_is_attempt_specific() {
    let permit = TaskWritePermit {
        run_id: RunId::new(),
        task_id: TaskId::new(),
        attempt_id: AttemptId::new(),
        lease_id: LeaseId::new(),
        epoch: 1,
        contract_hash: None,
    };
    assert_ne!(permit.attempt_id.0, AttemptId::new().0);
}
