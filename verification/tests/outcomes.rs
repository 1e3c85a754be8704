//! Schedules, outcomes and candidate policies.
use akzio_domain::artifact::{ArtifactId, ArtifactKind, ArtifactRef};
use akzio_domain::error::DomainError;
use akzio_domain::evaluation::outcome::{
    Outcome, OutcomeCostModel, OutcomeExecutionLineage, OutcomeHorizon, OutcomeSchedule,
    OutcomeWindow, Retrospective, RetrospectiveStatus,
};
use akzio_domain::evaluation::policy::{
    CandidatePolicy, CandidatePolicyState, Experience, PolicyState, PolicySubject,
    PolicyTransition,
};
use akzio_domain::foundation::{ContentHash, MemoryId, TopologyId};
use akzio_domain::ids::{ExperienceId, OutcomeId, PolicyTransitionId};
use akzio_domain::time::{CalendarDay, UtcTime};
use akzio_domain::DOMAIN_SCHEMA_VERSION;

fn now() -> UtcTime {
    let now = chrono::Utc::now();
    UtcTime::from_timestamp(now.timestamp(), now.timestamp_subsec_nanos()).unwrap()
}

fn reference(kind: ArtifactKind, value: &[u8]) -> ArtifactRef {
    ArtifactRef {
        artifact_id: ArtifactId(ContentHash::of_bytes(value)),
        kind,
    }
}

fn candidate_policy(
    subject: PolicySubject,
    baseline: ArtifactRef,
    candidate: ArtifactRef,
) -> CandidatePolicy {
    CandidatePolicy {
        schema_version: DOMAIN_SCHEMA_VERSION,
        subject,
        baseline,
        candidate,
        source_evaluation: reference(ArtifactKind::Evaluation, b"source-evaluation"),
        created_at: now(),
    }
}

fn trading_day(day: u32) -> CalendarDay {
    CalendarDay::parse(&format!("2026-08-{day:02}")).unwrap()
}

fn window(horizon: OutcomeHorizon, day: u32) -> OutcomeWindow {
    OutcomeWindow {
        horizon,
        observed_trading_day: trading_day(day),
        portfolio_return_ppm: 1,
        implementation_effect_ppm: None,
        initial_valuation_effect_ppm: None,
        benchmark_return_ppm: 0,
        transaction_cost_ppm: 0,
        slippage_ppm: 0,
        utility_ppm: 1,
        calibration_ppm: Some(1),
        forecast_score: None,
        evidence_completeness_ppm: Some(1_000_000),
        risk_recall_ppm: Some(1_000_000),
        evidence_counts: None,
        risk_recall_counts: None,
        risk_ground_truth: None,
        turnover_ppm: None,
        maximum_drawdown_ppm: None,
        tracking_error_ppm: None,
        beta_ppm: None,
        expected_shortfall_ppm: None,
        sortino_ratio_ppm: None,
        nav_path: Vec::new(),
        benchmark_attributions: Vec::new(),
        order_cost_attributions: Vec::new(),
    }
}

#[test]
fn outcome_cost_model_rejects_values_above_one() {
    assert!(OutcomeCostModel {
        transaction_cost_ppm: 1_000_001,
        slippage_ppm: 0,
    }
    .validate()
    .is_err());
}

fn reconciled_schedule() -> OutcomeSchedule {
    OutcomeSchedule {
        schema_version: DOMAIN_SCHEMA_VERSION,
        outcome_id: OutcomeId::new(),
        decision: reference(ArtifactKind::Decision, b"decision"),
        decision_context: reference(ArtifactKind::DecisionContext, b"decision-context"),
        execution_context: reference(ArtifactKind::ExecutionContext, b"execution-context"),
        execution: OutcomeExecutionLineage::ReconciledPaper {
            execution_verdict: reference(ArtifactKind::ExecutionVerdict, b"execution-verdict"),
            commitment: reference(ArtifactKind::ExecutionCommitment, b"commitment"),
            reconciliation: reference(ArtifactKind::Reconciliation, b"reconciliation"),
        },
        baseline_trading_day: trading_day(10),
        created_at: now(),
    }
}

#[test]
fn outcome_schedule_uses_completed_trading_sessions() {
    let schedule = reconciled_schedule();
    schedule.validate().unwrap();
    assert!(schedule.due_horizons(0).is_empty());
    assert_eq!(schedule.due_horizons(1), vec![OutcomeHorizon::T1]);
    assert_eq!(
        schedule.due_horizons(3),
        vec![OutcomeHorizon::T1, OutcomeHorizon::T3]
    );
    assert_eq!(schedule.due_horizons(5), OutcomeHorizon::ALL);
    assert!(ArtifactKind::OutcomeSchedule.can_be_canonical());
}

#[test]
fn outcome_schedule_distinguishes_no_order_from_reconciliation() {
    let mut schedule = reconciled_schedule();
    schedule.execution = OutcomeExecutionLineage::NoOrder {
        execution_verdict: reference(ArtifactKind::ExecutionVerdict, b"no-order"),
    };
    schedule.validate().unwrap();

    schedule.execution = OutcomeExecutionLineage::ReconciledPaper {
        execution_verdict: reference(ArtifactKind::ExecutionVerdict, b"accepted"),
        commitment: reference(ArtifactKind::ExecutionPlan, b"wrong-kind"),
        reconciliation: reference(ArtifactKind::Reconciliation, b"reconciliation"),
    };
    assert!(schedule.validate().is_err());
}

#[test]
fn learning_requires_a_sealed_complete_outcome() {
    let outcome = Outcome {
        schema_version: DOMAIN_SCHEMA_VERSION,
        outcome_id: OutcomeId::new(),
        schedule: reference(ArtifactKind::OutcomeSchedule, b"schedule"),
        market_evidence: vec![reference(ArtifactKind::NormalizedEvidence, b"market")],
        metric_basis: None,
        windows: vec![
            window(OutcomeHorizon::T1, 11),
            window(OutcomeHorizon::T3, 13),
            window(OutcomeHorizon::T5, 17),
        ],
        sealed_at: None,
    };
    outcome.validate().unwrap();
    assert!(outcome.validate_sealed().is_err());

    let sealed = Outcome {
        sealed_at: Some(now()),
        ..outcome
    };
    sealed.validate_sealed().unwrap();
}

#[test]
fn unsealed_outcome_accepts_a_due_prefix_but_not_canonical_sealing() {
    let partial = Outcome {
        schema_version: DOMAIN_SCHEMA_VERSION,
        outcome_id: OutcomeId::new(),
        schedule: reference(ArtifactKind::OutcomeSchedule, b"partial-schedule"),
        market_evidence: vec![reference(
            ArtifactKind::NormalizedEvidence,
            b"partial-market",
        )],
        metric_basis: None,
        windows: vec![window(OutcomeHorizon::T1, 11)],
        sealed_at: None,
    };
    partial.validate().unwrap();
    assert!(partial.validate_sealed().is_err());
}

#[test]
fn model_unavailable_t5_retrospective_still_requires_sealing() {
    let outcome = reference(ArtifactKind::Outcome, b"sealed-outcome");
    let retrospective = Retrospective {
        schema_version: DOMAIN_SCHEMA_VERSION,
        outcome_id: OutcomeId::new(),
        horizon: OutcomeHorizon::T5,
        status: RetrospectiveStatus::ModelUnavailable,
        summary: "model unavailable".to_owned(),
        findings: Vec::new(),
        counterfactuals: Vec::new(),
        lesson_candidates: Vec::new(),
        lesson_proposals: Vec::new(),
        diagnostic_gaps: vec!["model unavailable".to_owned()],
        source_refs: vec![outcome.clone()],
        outcome,
        created_at: now(),
        sealed_at: None,
    };
    assert!(retrospective.validate().is_err());
    let sealed = Retrospective {
        sealed_at: Some(now()),
        ..retrospective
    };
    assert_eq!(sealed.validate(), Ok(()));
}

#[test]
fn outcome_rejects_non_monotonic_observation_days() {
    let outcome = Outcome {
        schema_version: DOMAIN_SCHEMA_VERSION,
        outcome_id: OutcomeId::new(),
        schedule: reference(ArtifactKind::OutcomeSchedule, b"schedule"),
        market_evidence: vec![reference(ArtifactKind::SemanticDetail, b"market")],
        metric_basis: None,
        windows: vec![
            window(OutcomeHorizon::T1, 11),
            window(OutcomeHorizon::T3, 17),
            window(OutcomeHorizon::T5, 13),
        ],
        sealed_at: Some(now()),
    };
    assert!(outcome.validate().is_err());
}

#[test]
fn candidate_policy_accepts_contract_and_topology_payloads() {
    let contract_candidate = reference(ArtifactKind::Contract, b"contract-candidate");
    candidate_policy(
        PolicySubject::Contract(contract_candidate.artifact_id.0.clone()),
        reference(ArtifactKind::Contract, b"contract-baseline"),
        contract_candidate,
    )
    .validate()
    .unwrap();

    candidate_policy(
        PolicySubject::Topology(TopologyId::new()),
        reference(ArtifactKind::WorkflowGraph, b"topology-baseline"),
        reference(ArtifactKind::WorkflowGraph, b"topology-candidate"),
    )
    .validate()
    .unwrap();
}

#[test]
fn candidate_policy_rejects_memory_subject() {
    let policy = candidate_policy(
        PolicySubject::Memory(MemoryId::new()),
        reference(ArtifactKind::Contract, b"baseline"),
        reference(ArtifactKind::Contract, b"candidate"),
    );

    assert_eq!(
        policy.validate(),
        Err(DomainError::EmptyField {
            field: "candidate_policy.memory_subject",
        })
    );
}

#[test]
fn candidate_policy_rejects_identical_baseline_and_candidate() {
    let candidate = reference(ArtifactKind::WorkflowGraph, b"same-topology");
    let policy = candidate_policy(
        PolicySubject::Topology(TopologyId::new()),
        candidate.clone(),
        candidate,
    );

    assert_eq!(
        policy.validate(),
        Err(DomainError::EmptyField {
            field: "candidate_policy.baseline_candidate",
        })
    );
}

#[test]
fn candidate_policy_rejects_wrong_artifact_kinds() {
    let contract_candidate = reference(ArtifactKind::WorkflowGraph, b"wrong-contract");
    let contract = candidate_policy(
        PolicySubject::Contract(contract_candidate.artifact_id.0.clone()),
        reference(ArtifactKind::Contract, b"contract-baseline"),
        contract_candidate,
    );
    assert_eq!(
        contract.validate(),
        Err(DomainError::EmptyField {
            field: "candidate_policy.contract_refs",
        })
    );

    let topology = candidate_policy(
        PolicySubject::Topology(TopologyId::new()),
        reference(ArtifactKind::WorkflowGraph, b"topology-baseline"),
        reference(ArtifactKind::Contract, b"wrong-topology"),
    );
    assert_eq!(
        topology.validate(),
        Err(DomainError::EmptyField {
            field: "candidate_policy.topology_refs",
        })
    );
}

#[test]
fn candidate_policy_requires_evaluation_source() {
    let mut policy = candidate_policy(
        PolicySubject::Topology(TopologyId::new()),
        reference(ArtifactKind::WorkflowGraph, b"baseline"),
        reference(ArtifactKind::WorkflowGraph, b"candidate"),
    );
    policy.source_evaluation = reference(ArtifactKind::Outcome, b"wrong-source");

    assert_eq!(
        policy.validate(),
        Err(DomainError::EmptyField {
            field: "candidate_policy.source_evaluation",
        })
    );
}

#[test]
fn candidate_policy_contract_binding_is_store_owned() {
    let policy = candidate_policy(
        PolicySubject::Contract(ContentHash::of_bytes(b"different-contract")),
        reference(ArtifactKind::Contract, b"baseline"),
        reference(ArtifactKind::Contract, b"candidate"),
    );

    policy.validate().unwrap();
}

#[test]
fn experience_and_transition_use_typed_policy_subjects() {
    let contract_hash = ContentHash::of_bytes(b"contract");
    let subject = PolicySubject::Contract(contract_hash.clone());
    let experience = Experience {
        schema_version: DOMAIN_SCHEMA_VERSION,
        experience_id: ExperienceId::new(),
        subject: subject.clone(),
        hypothesis_id: "stable hypothesis".to_owned(),
        decision: reference(ArtifactKind::Decision, b"decision"),
        decision_context: reference(ArtifactKind::DecisionContext, b"decision-context"),
        execution_context: reference(ArtifactKind::ExecutionContext, b"execution-context"),
        policy_verdict: reference(ArtifactKind::ExecutionVerdict, b"verdict"),
        outcome: reference(ArtifactKind::Outcome, b"outcome"),
        contract_hash,
        topology_id: TopologyId("topology".to_owned()),
        evaluation_context: None,
        policy_state: PolicyState::Contract(CandidatePolicyState::Canary10),
        created_at: now(),
    };
    experience.validate().unwrap();

    let transition = PolicyTransition {
        schema_version: DOMAIN_SCHEMA_VERSION,
        transition_id: PolicyTransitionId::new(),
        subject: subject.clone(),
        from: PolicyState::Contract(CandidatePolicyState::Candidate),
        to: PolicyState::Contract(CandidatePolicyState::Canary10),
        evaluation: reference(ArtifactKind::Evaluation, b"evaluation"),
        created_at: now(),
    };
    transition.validate().unwrap();
    assert_eq!(
        subject.subject_id(),
        format!("contract:{}", experience.contract_hash.as_str())
    );

    let mut mismatched = transition;
    mismatched.subject = PolicySubject::Memory(MemoryId::new());
    assert!(mismatched.validate().is_err());
}

#[test]
fn policy_subject_storage_identity_round_trips_with_namespace() {
    for subject in [
        PolicySubject::Memory(MemoryId::new()),
        PolicySubject::Contract(ContentHash::of_bytes(b"contract")),
        PolicySubject::Topology(TopologyId::new()),
    ] {
        assert_eq!(
            PolicySubject::from_subject_id(&subject.subject_id()).unwrap(),
            subject
        );
    }
    assert!(PolicySubject::from_subject_id("untyped").is_err());
    assert!(PolicySubject::from_subject_id("unknown:value").is_err());
}

#[test]
fn outcome_faults_have_their_own_errors() {
    let outcome = |windows: Vec<OutcomeWindow>| Outcome {
        schema_version: DOMAIN_SCHEMA_VERSION,
        outcome_id: OutcomeId::new(),
        schedule: reference(ArtifactKind::OutcomeSchedule, b"schedule"),
        market_evidence: vec![reference(ArtifactKind::NormalizedEvidence, b"market")],
        metric_basis: None,
        windows,
        sealed_at: None,
    };
    assert_eq!(
        outcome(vec![]).validate(),
        Err(DomainError::InvalidBudget {
            field: "outcome.windows"
        })
    );
    assert_eq!(
        outcome(vec![
            window(OutcomeHorizon::T1, 11),
            window(OutcomeHorizon::T1, 12)
        ])
        .validate(),
        Err(DomainError::InvalidBudget {
            field: "outcome.windows"
        })
    );
    let mut excessive = window(OutcomeHorizon::T1, 11);
    excessive.turnover_ppm = Some(1_000_001);
    assert_eq!(
        outcome(vec![excessive]).validate(),
        Err(DomainError::InvalidBudget {
            field: "outcome_window.ppm"
        })
    );
    let mut unbound = window(OutcomeHorizon::T1, 11);
    unbound.risk_ground_truth = Some(reference(
        ArtifactKind::RiskGroundTruthAssessment,
        b"assessment",
    ));
    assert_eq!(
        outcome(vec![unbound]).validate(),
        Err(DomainError::InvalidBudget {
            field: "outcome_window.risk_ground_truth"
        })
    );
    assert_eq!(
        outcome(vec![window(OutcomeHorizon::T1, 11)]).validate_sealed(),
        Err(DomainError::InvalidBudget {
            field: "outcome.windows"
        })
    );
}
