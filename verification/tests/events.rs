//! Events and the invariants that are kept on record.
use akzio_domain::artifact::{ArtifactId, ArtifactKind, ArtifactRef};
use akzio_domain::error::DomainError;
use akzio_domain::event::{DurableEvent, DurableEventKind, LifecycleEventType};
use akzio_domain::foundation::{AttemptId, ContentHash, RunId};
use akzio_domain::ids::EventId;
use akzio_domain::policy::V2Invariant;
use akzio_domain::time::UtcTime;
use akzio_domain::DOMAIN_SCHEMA_VERSION;
use std::collections::BTreeSet;

fn event() -> DurableEvent {
    DurableEvent {
        schema_version: DOMAIN_SCHEMA_VERSION,
        event_id: EventId::new(),
        kind: DurableEventKind::TaskCompleted,
        run_id: RunId::new(),
        task_id: None,
        attempt_id: Some(AttemptId::new()),
        payload: ArtifactRef {
            artifact_id: ArtifactId(ContentHash::of_bytes(b"payload")),
            kind: ArtifactKind::AgentTurn,
        },
        emitted_at: UtcTime::from_timestamp(1_790_000_000, 0).unwrap(),
    }
}

#[test]
fn event_with_attempt_requires_task() {
    assert_eq!(
        event().validate(),
        Err(DomainError::AttemptOriginWithoutTask)
    );
}

#[test]
fn event_without_identity_is_refused() {
    let mut event = event();
    event.attempt_id = None;
    assert_eq!(event.validate(), Ok(()));
    event.run_id = RunId(" ".to_owned());
    assert_eq!(
        event.validate(),
        Err(DomainError::EmptyField {
            field: "durable_event.identity"
        })
    );
    event.schema_version = 1;
    assert_eq!(
        event.validate(),
        Err(DomainError::EmptyField {
            field: "durable_event.schema_version"
        })
    );
}

#[test]
fn lifecycle_event_types_round_trip_all_allowlisted_values() {
    let values = [
        "agent.turn",
        "agent.turn_completed",
        "agent.turn_failed",
        "agent.turn_retryable_failed",
        "artifact.committed",
        "claim.created",
        "context.child_manifest_created",
        "context.manifest",
        "context.manifest_created",
        "context.repaired",
        "evidence",
        "evidence.normalized",
        "evidence.raw",
        "execution.allocation_created",
        "execution.committed",
        "execution.commitment.recovered",
        "execution.context.created",
        "execution.context_created",
        "execution.plan.created",
        "execution.reprice.committed",
        "execution.reprice.recovered",
        "execution.verdict.created",
        "execution.verdict.no_order",
        "execution.verdict_created",
        "fixture.execution_source_created",
        "fixture.generic_write",
        "fixture.source.created",
        "learning.overlay",
        "outcome.evidence",
        "outcome.need",
        "outcome.worker.enqueued",
        "paper.seed_artifact.created",
        "planner.evidence_need",
        "planner.evidence_need_created",
        "policy.evaluated",
        "policy.transitioned",
        "run.cancel_requested",
        "shadow.decision.created",
        "shadow.outcome_schedule.created",
        "shadow_pair.completed",
        "task.cancelled",
        "task.failed",
        "task.recovered",
        "task.recovery_exhausted",
        "task.retry_exhausted",
        "task.retry_scheduled",
        "task.skipped",
        "task.started",
        "task.succeeded",
        "tool.called",
        "tool.completed",
        "tool.failed",
        "workflow.created",
        "workflow.patched",
    ];

    for value in values {
        assert_eq!(LifecycleEventType::parse(value).unwrap().as_str(), value);
    }
    assert!(matches!(
        LifecycleEventType::parse("unknown.event"),
        Err(DomainError::UnknownLifecycleEventType(value))
            if value == "unknown.event"
    ));
}

#[test]
fn invariant_registry_has_unique_complete_metadata() {
    let mut unique = BTreeSet::new();

    for invariant in V2Invariant::ALL {
        assert!(unique.insert(invariant));
        assert!(!invariant.owner().is_empty());
        assert!(!invariant.test_category().is_empty());
        assert!(invariant.first_enforced_in().as_str().starts_with('R'));
    }

    assert_eq!(unique.len(), V2Invariant::ALL.len());
}
