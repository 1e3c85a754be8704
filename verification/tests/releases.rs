//! Bundles of release evidence.
use akzio_domain::artifact::{ArtifactId, ArtifactKind, ArtifactRef};
use akzio_domain::budget::ToolCallLimit;
use akzio_domain::canary::CanaryCampaignStatus;
use akzio_domain::contract::TaskRecipeId;
use akzio_domain::error::DomainError;
use akzio_domain::evaluation::outcome::OutcomeHorizon;
use akzio_domain::evaluation::policy::{CandidatePolicyState, PolicyState};
use akzio_domain::foundation::{
    ContentHash, FailureDisposition, RetryPolicy, RunId, RunPurpose, TaskBudget, TaskId,
};
use akzio_domain::ordered::{OrderedMap, OrderedSet};
use akzio_domain::release::{
    ReleaseBrokerEvidence, ReleaseBrokerEvidenceTrust, ReleaseCanaryEvidence,
    ReleaseContractEvidence, ReleaseDaemonEvidence, ReleaseEvidenceBody, ReleaseEvidenceBundle,
    ReleaseEvidenceEnvironment, ReleaseEvidenceIssue, ReleaseEvidenceStatus, ReleaseEvidenceTier,
    ReleaseExecutionEvidence, ReleaseHumanApprovalEvidence, ReleaseHumanApprovalStatus,
    ReleaseIntegrityEvidence, ReleaseLearningEvidence, ReleaseOrderIdentity,
    ReleaseOutcomeEvidence, ReleasePostOutcomeApprovalEvidence, ReleaseProviderRouteEvidence,
    ReleaseRuntimeEvidence, ReleaseSessionEvidence, ReleaseSourceSnapshotEvidence,
    ReleaseWorkflowEvidence, ResearchApprovalDecision, ResearchApprovalReason,
};
use akzio_domain::time::UtcTime;
use akzio_domain::workflow::{WorkflowGraph, WorkflowNode};
use akzio_domain::DOMAIN_SCHEMA_VERSION;

fn now() -> UtcTime {
    let now = chrono::Utc::now();
    UtcTime::from_timestamp(now.timestamp(), now.timestamp_subsec_nanos()).unwrap()
}

fn hash(seed: &str) -> ContentHash {
    ContentHash::of_bytes(seed.as_bytes())
}

fn reference(kind: ArtifactKind, seed: &str) -> ArtifactRef {
    ArtifactRef {
        artifact_id: ArtifactId(hash(seed)),
        kind,
    }
}

fn workflow_plan() -> WorkflowGraph {
    WorkflowGraph {
        schema_version: DOMAIN_SCHEMA_VERSION,
        topology_id: "active".to_owned(),
        nodes: vec![WorkflowNode {
            spec: None,
            task_id: TaskId::new(),
            recipe_id: TaskRecipeId::new("research.analyst").unwrap(),
            contract_hash: Some(hash("contract")),
            objective: "fixture release evidence".to_owned(),
            dependencies: vec![],
            input_artifacts: vec![],
            priority: 50,
            budget: TaskBudget {
                max_input_tokens: 100,
                max_output_tokens: 100,
                max_wall_time_secs: 60,
                max_tool_calls: ToolCallLimit::Limited(1),
            },
            retry: RetryPolicy::none(),
            on_failure: FailureDisposition::FailRun,
            parent_task_id: None,
        }],
    }
}

fn outcomes(now: UtcTime, horizons: &[OutcomeHorizon]) -> OrderedMap<OutcomeHorizon, ReleaseOutcomeEvidence> {
    OrderedMap::from_entries(
        horizons
            .iter()
            .map(|horizon| {
                (
                    *horizon,
                    ReleaseOutcomeEvidence {
                        outcome: reference(ArtifactKind::Outcome, "outcome"),
                        sealed_at: now,
                        observed_on: now.date(),
                    },
                )
            })
            .collect(),
    )
}

fn complete_body(now: UtcTime, environment: ReleaseEvidenceEnvironment) -> ReleaseEvidenceBody {
    let trust = match environment {
        ReleaseEvidenceEnvironment::OfflineFixture => ReleaseBrokerEvidenceTrust::OfflineFixture,
        ReleaseEvidenceEnvironment::Real => ReleaseBrokerEvidenceTrust::RealBroker,
    };
    ReleaseEvidenceBody {
        run_id: RunId::new(),
        purpose: RunPurpose::Paper,
        environment,
        materialized_at: now,
        runtime: Some(ReleaseRuntimeEvidence {
            repository_commit: "0123456789abcdef0123456789abcdef01234567".to_owned(),
            dirty_worktree: false,
            cargo_lock_hash: hash("cargo-lock"),
            config_hash: hash("config"),
            prompt_hash: hash("prompt"),
            contract_hash: hash("contract"),
            topology_hash: hash("topology"),
            decision_policy_hash: hash("decision-policy"),
            execution_policy_hash: hash("execution-policy"),
            evaluation_policy_hash: hash("evaluation-policy"),
            behavior_bundle_hash: None,
            experiment_profile: "paper-research".to_owned(),
            rust_toolchain: "stable".to_owned(),
            model_knowledge_cutoff: None,
            market_data_feed: "sip".to_owned(),
        }),
        workflow: Some(ReleaseWorkflowEvidence {
            graph: reference(ArtifactKind::WorkflowGraph, "graph"),
            workflow_hash: hash("graph"),
            plan: workflow_plan(),
        }),
        contracts: ReleaseContractEvidence {
            contract_hashes: OrderedSet::from_vec(vec![hash("contract")]),
            tool_set_hashes: OrderedSet::from_vec(vec![hash("tools")]),
            context_manifest_hashes: OrderedSet::from_vec(vec![hash("context")]),
        },
        provider_routes: OrderedSet::from_vec(vec![ReleaseProviderRouteEvidence {
            provider_id: "openai_responses".to_owned(),
            model_id: "fixture-model".to_owned(),
            reasoning_effort: Some("high".to_owned()),
            capability_snapshot_hash: hash("capability"),
            supports_tool_calls: true,
            supports_stateless_continuation: true,
            native_web_tool: true,
            streaming: Some(true),
            declared_context_limit: None,
            declared_max_output_tokens: None,
            source: "fixture_static_declared_unverified".to_owned(),
        }]),
        source_snapshots: OrderedSet::from_vec(vec![ReleaseSourceSnapshotEvidence {
            artifact: reference(ArtifactKind::NormalizedEvidence, "evidence"),
            blob_hash: hash("evidence-blob"),
            source_family: "fixture.market".to_owned(),
            observed_at: Some(now),
            retrieved_at: now,
        }]),
        broker: Some(ReleaseBrokerEvidence {
            account_fingerprint: hash("account"),
            trust,
            orders: vec![ReleaseOrderIdentity {
                client_order_id: "client-order-1".to_owned(),
                broker_order_id: "broker-order-1".to_owned(),
            }],
        }),
        session: Some(ReleaseSessionEvidence {
            session_key: "2026-08-31".to_owned(),
            scheduler_epoch: 7,
            reserved_at: now,
            committed_at: Some(now),
        }),
        daemon: Some(ReleaseDaemonEvidence {
            lease_name: "akzio.local.scheduler".to_owned(),
            owner_id: "fixture-daemon".to_owned(),
            epoch: 7,
            expires_at: UtcTime::from_timestamp(now.timestamp() + 300, now.subsec_nanos()).unwrap(),
        }),
        execution: Some(ReleaseExecutionEvidence {
            execution_plan: reference(ArtifactKind::ExecutionPlan, "plan"),
            plan_hash: hash("plan-hash"),
            commitment: reference(ArtifactKind::ExecutionCommitment, "commitment"),
            commitment_id: "commitment-1".to_owned(),
            reconciliation: Some(reference(ArtifactKind::Reconciliation, "reconciliation")),
            reconciliation_receipts: vec![reference(ArtifactKind::OrderReceipt, "receipt")],
        }),
        outcomes: outcomes(now, &OutcomeHorizon::ALL),
        learning: Some(ReleaseLearningEvidence {
            transition_id: "transition-1".to_owned(),
            from: PolicyState::Topology(CandidatePolicyState::Canary10),
            to: PolicyState::Topology(CandidatePolicyState::Canary25),
            evaluation: reference(ArtifactKind::Evaluation, "evaluation"),
            transitioned_at: now,
        }),
        canary: Some(ReleaseCanaryEvidence {
            campaign_id: hash("campaign"),
            status: CanaryCampaignStatus::ValidationStage2,
            revision: 2,
        }),
        human_approval: Some(ReleaseHumanApprovalEvidence {
            status: ReleaseHumanApprovalStatus::Approved,
            operator_identity: "fixture-operator".to_owned(),
            approved_at: Some(now),
            approval_hash: hash("approval"),
            is_post_outcome_research_approval: false,
        }),
        post_outcome_approval: None,
        integrity: ReleaseIntegrityEvidence {
            config_hash_matches: true,
            workflow_hash_matches: true,
            broker_account_matches: true,
            daemon_epoch_current: true,
        },
    }
}

#[test]
fn complete_fixture_is_deterministic_but_never_approvable() {
    let body = complete_body(now(), ReleaseEvidenceEnvironment::OfflineFixture);
    let first = ReleaseEvidenceBundle::materialize(body.clone()).unwrap();
    let second = ReleaseEvidenceBundle::materialize(body).unwrap();
    assert_eq!(first.bundle_hash, second.bundle_hash);
    assert_eq!(first.status, ReleaseEvidenceStatus::NotApprovable);
    assert_eq!(
        first.issues,
        OrderedSet::from_vec(vec![
            ReleaseEvidenceIssue::OfflineFixture,
            ReleaseEvidenceIssue::FakeBrokerEvidence,
        ])
    );
}

#[test]
fn complete_real_bundle_is_approvable() {
    let bundle = ReleaseEvidenceBundle::materialize(complete_body(
        now(),
        ReleaseEvidenceEnvironment::Real,
    ))
    .unwrap();
    assert_eq!(bundle.status, ReleaseEvidenceStatus::Approvable);
    assert!(bundle.issues.is_empty());
}

#[test]
fn missing_reconciliation_or_horizon_is_incomplete() {
    let mut body = complete_body(now(), ReleaseEvidenceEnvironment::Real);
    body.execution
        .as_mut()
        .unwrap()
        .reconciliation_receipts
        .clear();
    body.outcomes = outcomes(now(), &[OutcomeHorizon::T1, OutcomeHorizon::T5]);
    let bundle = ReleaseEvidenceBundle::materialize(body).unwrap();
    assert_eq!(bundle.status, ReleaseEvidenceStatus::Incomplete);
    assert!(bundle
        .issues
        .contains(&ReleaseEvidenceIssue::MissingReconciliation));
    assert!(bundle
        .issues
        .contains(&ReleaseEvidenceIssue::MissingOutcome {
            horizon: OutcomeHorizon::T3,
        }));
}

#[test]
fn noncanonical_dirty_or_drifted_bundle_is_not_approvable() {
    for purpose in [
        RunPurpose::Debug,
        RunPurpose::Replay,
        RunPurpose::Shadow,
        RunPurpose::PaperDryRun,
    ] {
        let mut body = complete_body(now(), ReleaseEvidenceEnvironment::Real);
        body.purpose = purpose;
        assert_eq!(
            ReleaseEvidenceBundle::materialize(body).unwrap().status,
            ReleaseEvidenceStatus::NotApprovable
        );
    }

    let mut body = complete_body(now(), ReleaseEvidenceEnvironment::Real);
    body.runtime.as_mut().unwrap().dirty_worktree = true;
    body.integrity = ReleaseIntegrityEvidence {
        config_hash_matches: false,
        workflow_hash_matches: false,
        broker_account_matches: false,
        daemon_epoch_current: false,
    };
    let bundle = ReleaseEvidenceBundle::materialize(body).unwrap();
    assert_eq!(bundle.status, ReleaseEvidenceStatus::NotApprovable);
    for issue in [
        ReleaseEvidenceIssue::DirtyWorktree,
        ReleaseEvidenceIssue::ConfigHashDrift,
        ReleaseEvidenceIssue::WorkflowHashDrift,
        ReleaseEvidenceIssue::BrokerAccountMismatch,
        ReleaseEvidenceIssue::StaleDaemonEpoch,
    ] {
        assert!(bundle.issues.contains(&issue));
    }
}

#[test]
fn changed_evidence_raises_exactly_its_own_issues() {
    let whole = complete_body(now(), ReleaseEvidenceEnvironment::Real);
    let bundle = ReleaseEvidenceBundle::materialize(whole.clone()).unwrap();
    assert_eq!(bundle.status, ReleaseEvidenceStatus::Approvable);
    assert_eq!(
        ReleaseEvidenceBundle::materialize(whole.clone())
            .unwrap()
            .bundle_hash,
        bundle.bundle_hash
    );
    let mut less = whole.clone();
    less.execution
        .as_mut()
        .unwrap()
        .reconciliation_receipts
        .clear();
    less.outcomes = outcomes(now(), &[OutcomeHorizon::T1, OutcomeHorizon::T5]);
    assert_eq!(
        ReleaseEvidenceBundle::materialize(less)
            .unwrap()
            .issues
            .into_vec(),
        vec![
            ReleaseEvidenceIssue::MissingReconciliation,
            ReleaseEvidenceIssue::MissingOutcome {
                horizon: OutcomeHorizon::T3
            },
        ]
    );
    let mut dirty = whole;
    dirty.runtime.as_mut().unwrap().dirty_worktree = true;
    let dirty = ReleaseEvidenceBundle::materialize(dirty).unwrap();
    assert_eq!(dirty.status, ReleaseEvidenceStatus::NotApprovable);
    assert_eq!(
        dirty.issues.into_vec(),
        vec![ReleaseEvidenceIssue::DirtyWorktree]
    );
}

#[test]
fn issues_stand_in_the_order_of_their_codes() {
    let mut body = complete_body(now(), ReleaseEvidenceEnvironment::Real);
    body.purpose = RunPurpose::Replay;
    body.workflow = None;
    body.outcomes = outcomes(now(), &[]);
    let issues = ReleaseEvidenceBundle::materialize(body)
        .unwrap()
        .issues
        .into_vec();
    assert_eq!(
        issues,
        vec![
            ReleaseEvidenceIssue::NonCanonicalRun {
                purpose: "replay".to_owned()
            },
            ReleaseEvidenceIssue::MissingWorkflow,
            ReleaseEvidenceIssue::MissingOutcome {
                horizon: OutcomeHorizon::T1
            },
            ReleaseEvidenceIssue::MissingOutcome {
                horizon: OutcomeHorizon::T3
            },
            ReleaseEvidenceIssue::MissingOutcome {
                horizon: OutcomeHorizon::T5
            },
            ReleaseEvidenceIssue::MissingModelKnowledgeCutoff,
        ]
    );
}

#[test]
fn tiers_rise_with_the_evidence() {
    let tier = |body: ReleaseEvidenceBody| {
        ReleaseEvidenceBundle::materialize(body)
            .unwrap()
            .evidence_tier
    };
    let mut body = complete_body(now(), ReleaseEvidenceEnvironment::Real);
    assert_eq!(tier(body.clone()), ReleaseEvidenceTier::E3ForwardPaper);
    body.canary.as_mut().unwrap().status = CanaryCampaignStatus::Completed;
    assert_eq!(tier(body.clone()), ReleaseEvidenceTier::E3ForwardPaper);
    body.post_outcome_approval = Some(ReleasePostOutcomeApprovalEvidence {
        approval_id: hash("post-outcome"),
        decision: ResearchApprovalDecision::Approved,
        operator_identity: "operator".to_owned(),
        approved_at: now(),
        reason_codes: OrderedSet::from_vec(vec![ResearchApprovalReason("sufficient".to_owned())]),
    });
    assert_eq!(tier(body.clone()), ReleaseEvidenceTier::E4Robustness);
    body.broker = None;
    assert_eq!(tier(body.clone()), ReleaseEvidenceTier::E2PaperMechanics);
    body.purpose = RunPurpose::Shadow;
    assert_eq!(tier(body.clone()), ReleaseEvidenceTier::E1HistoricalReplay);
    body.environment = ReleaseEvidenceEnvironment::OfflineFixture;
    assert_eq!(tier(body), ReleaseEvidenceTier::E0Fixture);
}

#[test]
fn bundle_that_claims_more_than_its_evidence_is_refused() {
    let body = complete_body(now(), ReleaseEvidenceEnvironment::OfflineFixture);
    let bundle = ReleaseEvidenceBundle::materialize(body).unwrap();
    assert_eq!(bundle.validate(), Ok(()));
    let mut raised = bundle.clone();
    raised.status = ReleaseEvidenceStatus::Approvable;
    assert_eq!(raised.validate(), Err(DomainError::InvalidContentHash));
    let mut relabelled = bundle.clone();
    relabelled.body.run_id = RunId("another".to_owned());
    assert_eq!(relabelled.validate(), Err(DomainError::InvalidContentHash));
    let mut old = bundle;
    old.bundle_version = 1;
    assert_eq!(old.validate(), Err(DomainError::InvalidContentHash));
}

#[test]
fn every_part_of_the_evidence_is_checked() {
    let failing = |change: fn(&mut ReleaseEvidenceBody)| {
        let mut body = complete_body(now(), ReleaseEvidenceEnvironment::Real);
        change(&mut body);
        match ReleaseEvidenceBundle::materialize(body) {
            Err(DomainError::EmptyField { field }) => field,
            other => panic!("{other:?}"),
        }
    };
    assert_eq!(
        failing(|body| body.runtime.as_mut().unwrap().market_data_feed = "other".into()),
        "release.repository_commit"
    );
    assert_eq!(
        failing(|body| {
            body.source_snapshots = OrderedSet::from_vec(vec![ReleaseSourceSnapshotEvidence {
                artifact: reference(ArtifactKind::NormalizedEvidence, "evidence"),
                blob_hash: hash("blob"),
                source_family: " ".into(),
                observed_at: None,
                retrieved_at: now(),
            }])
        }),
        "release.provider_or_source"
    );
    assert_eq!(
        failing(|body| body.broker.as_mut().unwrap().orders[0].broker_order_id = "".into()),
        "release.order_identity"
    );
    assert_eq!(
        failing(|body| body.session.as_mut().unwrap().session_key = "".into()),
        "release.session"
    );
    assert_eq!(
        failing(|body| body.daemon.as_mut().unwrap().owner_id = "".into()),
        "release.daemon"
    );
    assert_eq!(
        failing(|body| body.execution.as_mut().unwrap().commitment.kind = ArtifactKind::Outcome),
        "release.execution"
    );
    assert_eq!(
        failing(|body| body.outcomes.insert(
            OutcomeHorizon::T1,
            ReleaseOutcomeEvidence {
                outcome: reference(ArtifactKind::Claim, "claim"),
                sealed_at: now(),
                observed_on: now().date(),
            }
        )),
        "release.outcome"
    );
    assert_eq!(
        failing(|body| body.learning.as_mut().unwrap().transition_id = "".into()),
        "release.learning"
    );
    assert_eq!(
        failing(|body| body.human_approval.as_mut().unwrap().approved_at = None),
        "release.human_approval"
    );
    let mut body = complete_body(now(), ReleaseEvidenceEnvironment::Real);
    body.workflow.as_mut().unwrap().workflow_hash = hash("another graph");
    assert_eq!(
        ReleaseEvidenceBundle::materialize(body),
        Err(DomainError::InvalidContentHash)
    );
}
