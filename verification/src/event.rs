//! Events: the names under which they are stored, and the records of what happened.
use crate::artifact::ArtifactRef;
use crate::error::{demand, empty, empty_field, first, outcome, DomainError, ErrorView, Verdict};
use crate::foundation::{AttemptId, RunId, TaskId};
use crate::ids::EventId;
use crate::json::{json_text, JsonTree, ToJson};
use crate::text::{blank, is_blank, same_text};
use crate::time::UtcTime;
use crate::DOMAIN_SCHEMA_VERSION;
use vstd::prelude::*;

verus! {

/// The events that may be stored. Some have an older spelling beside the newer one.
#[derive(Clone, Copy, Debug, PartialEq, Eq, Structural)]
pub enum LifecycleEventType {
    AgentTurn,
    AgentTurnCompleted,
    AgentTurnFailed,
    AgentTurnRetryableFailed,
    ArtifactCommitted,
    ClaimCreated,
    ContextChildManifestCreated,
    ContextManifest,
    ContextManifestCreated,
    ContextRepaired,
    Evidence,
    EvidenceNormalized,
    EvidenceRaw,
    ExecutionAllocationCreated,
    ExecutionCommitted,
    ExecutionCommitmentRecovered,
    ExecutionContextCreated,
    ExecutionContextCreatedLegacy,
    ExecutionPlanCreated,
    ExecutionRepriceCommitted,
    ExecutionRepriceRecovered,
    ExecutionVerdictCreated,
    ExecutionVerdictNoOrder,
    ExecutionVerdictCreatedLegacy,
    FixtureExecutionSourceCreated,
    FixtureGenericWrite,
    FixtureSourceCreated,
    LearningOverlay,
    OutcomeEvidence,
    OutcomeNeed,
    OutcomeWorkerEnqueued,
    PaperSeedArtifactCreated,
    PlannerEvidenceNeed,
    PlannerEvidenceNeedCreated,
    PolicyEvaluated,
    PolicyTransitioned,
    RunCancelRequested,
    ShadowDecisionCreated,
    ShadowOutcomeScheduleCreated,
    ShadowPairCompleted,
    TaskCancelled,
    TaskFailed,
    TaskRecovered,
    TaskRecoveryExhausted,
    TaskRetryExhausted,
    TaskRetryScheduled,
    TaskSkipped,
    TaskStarted,
    TaskSucceeded,
    ToolCalled,
    ToolCompleted,
    ToolFailed,
    WorkflowCreated,
    WorkflowPatched,
}

impl LifecycleEventType {
    /// The name under which the event is stored.
    pub open spec fn name(self) -> Seq<char> {
        match self {
            LifecycleEventType::AgentTurn => "agent.turn"@,
            LifecycleEventType::AgentTurnCompleted => "agent.turn_completed"@,
            LifecycleEventType::AgentTurnFailed => "agent.turn_failed"@,
            LifecycleEventType::AgentTurnRetryableFailed => "agent.turn_retryable_failed"@,
            LifecycleEventType::ArtifactCommitted => "artifact.committed"@,
            LifecycleEventType::ClaimCreated => "claim.created"@,
            LifecycleEventType::ContextChildManifestCreated => "context.child_manifest_created"@,
            LifecycleEventType::ContextManifest => "context.manifest"@,
            LifecycleEventType::ContextManifestCreated => "context.manifest_created"@,
            LifecycleEventType::ContextRepaired => "context.repaired"@,
            LifecycleEventType::Evidence => "evidence"@,
            LifecycleEventType::EvidenceNormalized => "evidence.normalized"@,
            LifecycleEventType::EvidenceRaw => "evidence.raw"@,
            LifecycleEventType::ExecutionAllocationCreated => "execution.allocation_created"@,
            LifecycleEventType::ExecutionCommitted => "execution.committed"@,
            LifecycleEventType::ExecutionCommitmentRecovered => "execution.commitment.recovered"@,
            LifecycleEventType::ExecutionContextCreated => "execution.context.created"@,
            LifecycleEventType::ExecutionContextCreatedLegacy => "execution.context_created"@,
            LifecycleEventType::ExecutionPlanCreated => "execution.plan.created"@,
            LifecycleEventType::ExecutionRepriceCommitted => "execution.reprice.committed"@,
            LifecycleEventType::ExecutionRepriceRecovered => "execution.reprice.recovered"@,
            LifecycleEventType::ExecutionVerdictCreated => "execution.verdict.created"@,
            LifecycleEventType::ExecutionVerdictNoOrder => "execution.verdict.no_order"@,
            LifecycleEventType::ExecutionVerdictCreatedLegacy => "execution.verdict_created"@,
            LifecycleEventType::FixtureExecutionSourceCreated => "fixture.execution_source_created"@,
            LifecycleEventType::FixtureGenericWrite => "fixture.generic_write"@,
            LifecycleEventType::FixtureSourceCreated => "fixture.source.created"@,
            LifecycleEventType::LearningOverlay => "learning.overlay"@,
            LifecycleEventType::OutcomeEvidence => "outcome.evidence"@,
            LifecycleEventType::OutcomeNeed => "outcome.need"@,
            LifecycleEventType::OutcomeWorkerEnqueued => "outcome.worker.enqueued"@,
            LifecycleEventType::PaperSeedArtifactCreated => "paper.seed_artifact.created"@,
            LifecycleEventType::PlannerEvidenceNeed => "planner.evidence_need"@,
            LifecycleEventType::PlannerEvidenceNeedCreated => "planner.evidence_need_created"@,
            LifecycleEventType::PolicyEvaluated => "policy.evaluated"@,
            LifecycleEventType::PolicyTransitioned => "policy.transitioned"@,
            LifecycleEventType::RunCancelRequested => "run.cancel_requested"@,
            LifecycleEventType::ShadowDecisionCreated => "shadow.decision.created"@,
            LifecycleEventType::ShadowOutcomeScheduleCreated => "shadow.outcome_schedule.created"@,
            LifecycleEventType::ShadowPairCompleted => "shadow_pair.completed"@,
            LifecycleEventType::TaskCancelled => "task.cancelled"@,
            LifecycleEventType::TaskFailed => "task.failed"@,
            LifecycleEventType::TaskRecovered => "task.recovered"@,
            LifecycleEventType::TaskRecoveryExhausted => "task.recovery_exhausted"@,
            LifecycleEventType::TaskRetryExhausted => "task.retry_exhausted"@,
            LifecycleEventType::TaskRetryScheduled => "task.retry_scheduled"@,
            LifecycleEventType::TaskSkipped => "task.skipped"@,
            LifecycleEventType::TaskStarted => "task.started"@,
            LifecycleEventType::TaskSucceeded => "task.succeeded"@,
            LifecycleEventType::ToolCalled => "tool.called"@,
            LifecycleEventType::ToolCompleted => "tool.completed"@,
            LifecycleEventType::ToolFailed => "tool.failed"@,
            LifecycleEventType::WorkflowCreated => "workflow.created"@,
            LifecycleEventType::WorkflowPatched => "workflow.patched"@,
        }
    }

    pub fn as_str(self) -> (r: &'static str)
        ensures
            r@ == self.name(),
    {
        match self {
            LifecycleEventType::AgentTurn => "agent.turn",
            LifecycleEventType::AgentTurnCompleted => "agent.turn_completed",
            LifecycleEventType::AgentTurnFailed => "agent.turn_failed",
            LifecycleEventType::AgentTurnRetryableFailed => "agent.turn_retryable_failed",
            LifecycleEventType::ArtifactCommitted => "artifact.committed",
            LifecycleEventType::ClaimCreated => "claim.created",
            LifecycleEventType::ContextChildManifestCreated => "context.child_manifest_created",
            LifecycleEventType::ContextManifest => "context.manifest",
            LifecycleEventType::ContextManifestCreated => "context.manifest_created",
            LifecycleEventType::ContextRepaired => "context.repaired",
            LifecycleEventType::Evidence => "evidence",
            LifecycleEventType::EvidenceNormalized => "evidence.normalized",
            LifecycleEventType::EvidenceRaw => "evidence.raw",
            LifecycleEventType::ExecutionAllocationCreated => "execution.allocation_created",
            LifecycleEventType::ExecutionCommitted => "execution.committed",
            LifecycleEventType::ExecutionCommitmentRecovered => "execution.commitment.recovered",
            LifecycleEventType::ExecutionContextCreated => "execution.context.created",
            LifecycleEventType::ExecutionContextCreatedLegacy => "execution.context_created",
            LifecycleEventType::ExecutionPlanCreated => "execution.plan.created",
            LifecycleEventType::ExecutionRepriceCommitted => "execution.reprice.committed",
            LifecycleEventType::ExecutionRepriceRecovered => "execution.reprice.recovered",
            LifecycleEventType::ExecutionVerdictCreated => "execution.verdict.created",
            LifecycleEventType::ExecutionVerdictNoOrder => "execution.verdict.no_order",
            LifecycleEventType::ExecutionVerdictCreatedLegacy => "execution.verdict_created",
            LifecycleEventType::FixtureExecutionSourceCreated => "fixture.execution_source_created",
            LifecycleEventType::FixtureGenericWrite => "fixture.generic_write",
            LifecycleEventType::FixtureSourceCreated => "fixture.source.created",
            LifecycleEventType::LearningOverlay => "learning.overlay",
            LifecycleEventType::OutcomeEvidence => "outcome.evidence",
            LifecycleEventType::OutcomeNeed => "outcome.need",
            LifecycleEventType::OutcomeWorkerEnqueued => "outcome.worker.enqueued",
            LifecycleEventType::PaperSeedArtifactCreated => "paper.seed_artifact.created",
            LifecycleEventType::PlannerEvidenceNeed => "planner.evidence_need",
            LifecycleEventType::PlannerEvidenceNeedCreated => "planner.evidence_need_created",
            LifecycleEventType::PolicyEvaluated => "policy.evaluated",
            LifecycleEventType::PolicyTransitioned => "policy.transitioned",
            LifecycleEventType::RunCancelRequested => "run.cancel_requested",
            LifecycleEventType::ShadowDecisionCreated => "shadow.decision.created",
            LifecycleEventType::ShadowOutcomeScheduleCreated => "shadow.outcome_schedule.created",
            LifecycleEventType::ShadowPairCompleted => "shadow_pair.completed",
            LifecycleEventType::TaskCancelled => "task.cancelled",
            LifecycleEventType::TaskFailed => "task.failed",
            LifecycleEventType::TaskRecovered => "task.recovered",
            LifecycleEventType::TaskRecoveryExhausted => "task.recovery_exhausted",
            LifecycleEventType::TaskRetryExhausted => "task.retry_exhausted",
            LifecycleEventType::TaskRetryScheduled => "task.retry_scheduled",
            LifecycleEventType::TaskSkipped => "task.skipped",
            LifecycleEventType::TaskStarted => "task.started",
            LifecycleEventType::TaskSucceeded => "task.succeeded",
            LifecycleEventType::ToolCalled => "tool.called",
            LifecycleEventType::ToolCompleted => "tool.completed",
            LifecycleEventType::ToolFailed => "tool.failed",
            LifecycleEventType::WorkflowCreated => "workflow.created",
            LifecycleEventType::WorkflowPatched => "workflow.patched",
        }
    }

    /// The event of a name; no event has a name that is refused.
    pub fn parse(value: &str) -> (r: Result<LifecycleEventType, DomainError>)
        ensures
            match r {
                Ok(event) => event.name() == value@,
                Err(e) => e@ == ErrorView::UnknownLifecycleEventType(value@)
                    && forall|event: LifecycleEventType| #[trigger] event.name() != value@,
            },
    {
        if same_text(value, "agent.turn") {
            return Ok(LifecycleEventType::AgentTurn);
        }
        if same_text(value, "agent.turn_completed") {
            return Ok(LifecycleEventType::AgentTurnCompleted);
        }
        if same_text(value, "agent.turn_failed") {
            return Ok(LifecycleEventType::AgentTurnFailed);
        }
        if same_text(value, "agent.turn_retryable_failed") {
            return Ok(LifecycleEventType::AgentTurnRetryableFailed);
        }
        if same_text(value, "artifact.committed") {
            return Ok(LifecycleEventType::ArtifactCommitted);
        }
        if same_text(value, "claim.created") {
            return Ok(LifecycleEventType::ClaimCreated);
        }
        if same_text(value, "context.child_manifest_created") {
            return Ok(LifecycleEventType::ContextChildManifestCreated);
        }
        if same_text(value, "context.manifest") {
            return Ok(LifecycleEventType::ContextManifest);
        }
        if same_text(value, "context.manifest_created") {
            return Ok(LifecycleEventType::ContextManifestCreated);
        }
        if same_text(value, "context.repaired") {
            return Ok(LifecycleEventType::ContextRepaired);
        }
        if same_text(value, "evidence") {
            return Ok(LifecycleEventType::Evidence);
        }
        if same_text(value, "evidence.normalized") {
            return Ok(LifecycleEventType::EvidenceNormalized);
        }
        if same_text(value, "evidence.raw") {
            return Ok(LifecycleEventType::EvidenceRaw);
        }
        if same_text(value, "execution.allocation_created") {
            return Ok(LifecycleEventType::ExecutionAllocationCreated);
        }
        if same_text(value, "execution.committed") {
            return Ok(LifecycleEventType::ExecutionCommitted);
        }
        if same_text(value, "execution.commitment.recovered") {
            return Ok(LifecycleEventType::ExecutionCommitmentRecovered);
        }
        if same_text(value, "execution.context.created") {
            return Ok(LifecycleEventType::ExecutionContextCreated);
        }
        if same_text(value, "execution.context_created") {
            return Ok(LifecycleEventType::ExecutionContextCreatedLegacy);
        }
        if same_text(value, "execution.plan.created") {
            return Ok(LifecycleEventType::ExecutionPlanCreated);
        }
        if same_text(value, "execution.reprice.committed") {
            return Ok(LifecycleEventType::ExecutionRepriceCommitted);
        }
        if same_text(value, "execution.reprice.recovered") {
            return Ok(LifecycleEventType::ExecutionRepriceRecovered);
        }
        if same_text(value, "execution.verdict.created") {
            return Ok(LifecycleEventType::ExecutionVerdictCreated);
        }
        if same_text(value, "execution.verdict.no_order") {
            return Ok(LifecycleEventType::ExecutionVerdictNoOrder);
        }
        if same_text(value, "execution.verdict_created") {
            return Ok(LifecycleEventType::ExecutionVerdictCreatedLegacy);
        }
        if same_text(value, "fixture.execution_source_created") {
            return Ok(LifecycleEventType::FixtureExecutionSourceCreated);
        }
        if same_text(value, "fixture.generic_write") {
            return Ok(LifecycleEventType::FixtureGenericWrite);
        }
        if same_text(value, "fixture.source.created") {
            return Ok(LifecycleEventType::FixtureSourceCreated);
        }
        if same_text(value, "learning.overlay") {
            return Ok(LifecycleEventType::LearningOverlay);
        }
        if same_text(value, "outcome.evidence") {
            return Ok(LifecycleEventType::OutcomeEvidence);
        }
        if same_text(value, "outcome.need") {
            return Ok(LifecycleEventType::OutcomeNeed);
        }
        if same_text(value, "outcome.worker.enqueued") {
            return Ok(LifecycleEventType::OutcomeWorkerEnqueued);
        }
        if same_text(value, "paper.seed_artifact.created") {
            return Ok(LifecycleEventType::PaperSeedArtifactCreated);
        }
        if same_text(value, "planner.evidence_need") {
            return Ok(LifecycleEventType::PlannerEvidenceNeed);
        }
        if same_text(value, "planner.evidence_need_created") {
            return Ok(LifecycleEventType::PlannerEvidenceNeedCreated);
        }
        if same_text(value, "policy.evaluated") {
            return Ok(LifecycleEventType::PolicyEvaluated);
        }
        if same_text(value, "policy.transitioned") {
            return Ok(LifecycleEventType::PolicyTransitioned);
        }
        if same_text(value, "run.cancel_requested") {
            return Ok(LifecycleEventType::RunCancelRequested);
        }
        if same_text(value, "shadow.decision.created") {
            return Ok(LifecycleEventType::ShadowDecisionCreated);
        }
        if same_text(value, "shadow.outcome_schedule.created") {
            return Ok(LifecycleEventType::ShadowOutcomeScheduleCreated);
        }
        if same_text(value, "shadow_pair.completed") {
            return Ok(LifecycleEventType::ShadowPairCompleted);
        }
        if same_text(value, "task.cancelled") {
            return Ok(LifecycleEventType::TaskCancelled);
        }
        if same_text(value, "task.failed") {
            return Ok(LifecycleEventType::TaskFailed);
        }
        if same_text(value, "task.recovered") {
            return Ok(LifecycleEventType::TaskRecovered);
        }
        if same_text(value, "task.recovery_exhausted") {
            return Ok(LifecycleEventType::TaskRecoveryExhausted);
        }
        if same_text(value, "task.retry_exhausted") {
            return Ok(LifecycleEventType::TaskRetryExhausted);
        }
        if same_text(value, "task.retry_scheduled") {
            return Ok(LifecycleEventType::TaskRetryScheduled);
        }
        if same_text(value, "task.skipped") {
            return Ok(LifecycleEventType::TaskSkipped);
        }
        if same_text(value, "task.started") {
            return Ok(LifecycleEventType::TaskStarted);
        }
        if same_text(value, "task.succeeded") {
            return Ok(LifecycleEventType::TaskSucceeded);
        }
        if same_text(value, "tool.called") {
            return Ok(LifecycleEventType::ToolCalled);
        }
        if same_text(value, "tool.completed") {
            return Ok(LifecycleEventType::ToolCompleted);
        }
        if same_text(value, "tool.failed") {
            return Ok(LifecycleEventType::ToolFailed);
        }
        if same_text(value, "workflow.created") {
            return Ok(LifecycleEventType::WorkflowCreated);
        }
        if same_text(value, "workflow.patched") {
            return Ok(LifecycleEventType::WorkflowPatched);
        }
        Err(DomainError::UnknownLifecycleEventType(value.to_owned()))
    }
}

/// The place of an event in the list.
spec fn place(event: LifecycleEventType) -> int {
    match event {
        LifecycleEventType::AgentTurn => 0,
        LifecycleEventType::AgentTurnCompleted => 1,
        LifecycleEventType::AgentTurnFailed => 2,
        LifecycleEventType::AgentTurnRetryableFailed => 3,
        LifecycleEventType::ArtifactCommitted => 4,
        LifecycleEventType::ClaimCreated => 5,
        LifecycleEventType::ContextChildManifestCreated => 6,
        LifecycleEventType::ContextManifest => 7,
        LifecycleEventType::ContextManifestCreated => 8,
        LifecycleEventType::ContextRepaired => 9,
        LifecycleEventType::Evidence => 10,
        LifecycleEventType::EvidenceNormalized => 11,
        LifecycleEventType::EvidenceRaw => 12,
        LifecycleEventType::ExecutionAllocationCreated => 13,
        LifecycleEventType::ExecutionCommitted => 14,
        LifecycleEventType::ExecutionCommitmentRecovered => 15,
        LifecycleEventType::ExecutionContextCreated => 16,
        LifecycleEventType::ExecutionContextCreatedLegacy => 17,
        LifecycleEventType::ExecutionPlanCreated => 18,
        LifecycleEventType::ExecutionRepriceCommitted => 19,
        LifecycleEventType::ExecutionRepriceRecovered => 20,
        LifecycleEventType::ExecutionVerdictCreated => 21,
        LifecycleEventType::ExecutionVerdictNoOrder => 22,
        LifecycleEventType::ExecutionVerdictCreatedLegacy => 23,
        LifecycleEventType::FixtureExecutionSourceCreated => 24,
        LifecycleEventType::FixtureGenericWrite => 25,
        LifecycleEventType::FixtureSourceCreated => 26,
        LifecycleEventType::LearningOverlay => 27,
        LifecycleEventType::OutcomeEvidence => 28,
        LifecycleEventType::OutcomeNeed => 29,
        LifecycleEventType::OutcomeWorkerEnqueued => 30,
        LifecycleEventType::PaperSeedArtifactCreated => 31,
        LifecycleEventType::PlannerEvidenceNeed => 32,
        LifecycleEventType::PlannerEvidenceNeedCreated => 33,
        LifecycleEventType::PolicyEvaluated => 34,
        LifecycleEventType::PolicyTransitioned => 35,
        LifecycleEventType::RunCancelRequested => 36,
        LifecycleEventType::ShadowDecisionCreated => 37,
        LifecycleEventType::ShadowOutcomeScheduleCreated => 38,
        LifecycleEventType::ShadowPairCompleted => 39,
        LifecycleEventType::TaskCancelled => 40,
        LifecycleEventType::TaskFailed => 41,
        LifecycleEventType::TaskRecovered => 42,
        LifecycleEventType::TaskRecoveryExhausted => 43,
        LifecycleEventType::TaskRetryExhausted => 44,
        LifecycleEventType::TaskRetryScheduled => 45,
        LifecycleEventType::TaskSkipped => 46,
        LifecycleEventType::TaskStarted => 47,
        LifecycleEventType::TaskSucceeded => 48,
        LifecycleEventType::ToolCalled => 49,
        LifecycleEventType::ToolCompleted => 50,
        LifecycleEventType::ToolFailed => 51,
        LifecycleEventType::WorkflowCreated => 52,
        LifecycleEventType::WorkflowPatched => 53,
    }
}

/// The place of the event that has a name, told by its length and a character or two.
spec fn place_by_name(s: Seq<char>) -> int {
    let n = s.len();
    if n == 8 {
        10
    } else if n == 10 {
        0
    } else if n == 11 {
        if s[1] == 'a' && s[5] == 'f' {
            41
        } else if s[1] == 'o' && s[5] == 'c' {
            49
        } else {
            51
        }
    } else if n == 12 {
        if s[6] == 'c' {
            12
        } else if s[6] == 'e' {
            29
        } else if s[6] == 'k' {
            46
        } else {
            47
        }
    } else if n == 13 {
        5
    } else if n == 14 {
        if s[6] == 'a' {
            40
        } else if s[6] == 'e' {
            42
        } else if s[6] == 'u' {
            48
        } else {
            50
        }
    } else if n == 16 {
        if s[10] == 'n' {
            7
        } else if s[10] == 'p' {
            9
        } else if s[10] == 'v' {
            27
        } else if s[10] == 'i' {
            28
        } else if s[10] == 'l' {
            34
        } else if s[10] == 'r' {
            52
        } else {
            53
        }
    } else if n == 17 {
        2
    } else if n == 18 {
        4
    } else if n == 19 {
        if s[1] == 'v' {
            11
        } else if s[1] == 'x' {
            14
        } else {
            35
        }
    } else if n == 20 {
        if s[11] == 'c' {
            1
        } else if s[11] == 'r' {
            36
        } else if s[11] == 'e' {
            44
        } else {
            45
        }
    } else if n == 21 {
        if s[0] == 'f' {
            25
        } else if s[0] == 'p' {
            32
        } else {
            39
        }
    } else if n == 22 {
        if s[0] == 'e' {
            18
        } else {
            26
        }
    } else if n == 23 {
        if s[0] == 'o' {
            30
        } else if s[0] == 's' {
            37
        } else {
            43
        }
    } else if n == 24 {
        8
    } else if n == 25 {
        if s[10] == 'c' && s[17] == '.' {
            16
        } else if s[10] == 'c' && s[17] == '_' {
            17
        } else if s[10] == 'v' && s[17] == '.' {
            21
        } else {
            23
        }
    } else if n == 26 {
        22
    } else if n == 27 {
        if s[18] == 'l' {
            3
        } else if s[18] == 'c' {
            19
        } else if s[18] == 'r' {
            20
        } else {
            31
        }
    } else if n == 28 {
        13
    } else if n == 29 {
        33
    } else if n == 30 {
        if s[0] == 'c' {
            6
        } else {
            15
        }
    } else if n == 31 {
        38
    } else {
        24
    }
}

proof fn name_tells_the_place(event: LifecycleEventType)
    ensures
        place_by_name(event.name()) == place(event),
{
    match event {
        LifecycleEventType::AgentTurn => {
            reveal_strlit("agent.turn");
        },
        LifecycleEventType::AgentTurnCompleted => {
            reveal_strlit("agent.turn_completed");
        },
        LifecycleEventType::AgentTurnFailed => {
            reveal_strlit("agent.turn_failed");
        },
        LifecycleEventType::AgentTurnRetryableFailed => {
            reveal_strlit("agent.turn_retryable_failed");
        },
        LifecycleEventType::ArtifactCommitted => {
            reveal_strlit("artifact.committed");
        },
        LifecycleEventType::ClaimCreated => {
            reveal_strlit("claim.created");
        },
        LifecycleEventType::ContextChildManifestCreated => {
            reveal_strlit("context.child_manifest_created");
        },
        LifecycleEventType::ContextManifest => {
            reveal_strlit("context.manifest");
        },
        LifecycleEventType::ContextManifestCreated => {
            reveal_strlit("context.manifest_created");
        },
        LifecycleEventType::ContextRepaired => {
            reveal_strlit("context.repaired");
        },
        LifecycleEventType::Evidence => {
            reveal_strlit("evidence");
        },
        LifecycleEventType::EvidenceNormalized => {
            reveal_strlit("evidence.normalized");
        },
        LifecycleEventType::EvidenceRaw => {
            reveal_strlit("evidence.raw");
        },
        LifecycleEventType::ExecutionAllocationCreated => {
            reveal_strlit("execution.allocation_created");
        },
        LifecycleEventType::ExecutionCommitted => {
            reveal_strlit("execution.committed");
        },
        LifecycleEventType::ExecutionCommitmentRecovered => {
            reveal_strlit("execution.commitment.recovered");
        },
        LifecycleEventType::ExecutionContextCreated => {
            reveal_strlit("execution.context.created");
        },
        LifecycleEventType::ExecutionContextCreatedLegacy => {
            reveal_strlit("execution.context_created");
        },
        LifecycleEventType::ExecutionPlanCreated => {
            reveal_strlit("execution.plan.created");
        },
        LifecycleEventType::ExecutionRepriceCommitted => {
            reveal_strlit("execution.reprice.committed");
        },
        LifecycleEventType::ExecutionRepriceRecovered => {
            reveal_strlit("execution.reprice.recovered");
        },
        LifecycleEventType::ExecutionVerdictCreated => {
            reveal_strlit("execution.verdict.created");
        },
        LifecycleEventType::ExecutionVerdictNoOrder => {
            reveal_strlit("execution.verdict.no_order");
        },
        LifecycleEventType::ExecutionVerdictCreatedLegacy => {
            reveal_strlit("execution.verdict_created");
        },
        LifecycleEventType::FixtureExecutionSourceCreated => {
            reveal_strlit("fixture.execution_source_created");
        },
        LifecycleEventType::FixtureGenericWrite => {
            reveal_strlit("fixture.generic_write");
        },
        LifecycleEventType::FixtureSourceCreated => {
            reveal_strlit("fixture.source.created");
        },
        LifecycleEventType::LearningOverlay => {
            reveal_strlit("learning.overlay");
        },
        LifecycleEventType::OutcomeEvidence => {
            reveal_strlit("outcome.evidence");
        },
        LifecycleEventType::OutcomeNeed => {
            reveal_strlit("outcome.need");
        },
        LifecycleEventType::OutcomeWorkerEnqueued => {
            reveal_strlit("outcome.worker.enqueued");
        },
        LifecycleEventType::PaperSeedArtifactCreated => {
            reveal_strlit("paper.seed_artifact.created");
        },
        LifecycleEventType::PlannerEvidenceNeed => {
            reveal_strlit("planner.evidence_need");
        },
        LifecycleEventType::PlannerEvidenceNeedCreated => {
            reveal_strlit("planner.evidence_need_created");
        },
        LifecycleEventType::PolicyEvaluated => {
            reveal_strlit("policy.evaluated");
        },
        LifecycleEventType::PolicyTransitioned => {
            reveal_strlit("policy.transitioned");
        },
        LifecycleEventType::RunCancelRequested => {
            reveal_strlit("run.cancel_requested");
        },
        LifecycleEventType::ShadowDecisionCreated => {
            reveal_strlit("shadow.decision.created");
        },
        LifecycleEventType::ShadowOutcomeScheduleCreated => {
            reveal_strlit("shadow.outcome_schedule.created");
        },
        LifecycleEventType::ShadowPairCompleted => {
            reveal_strlit("shadow_pair.completed");
        },
        LifecycleEventType::TaskCancelled => {
            reveal_strlit("task.cancelled");
        },
        LifecycleEventType::TaskFailed => {
            reveal_strlit("task.failed");
        },
        LifecycleEventType::TaskRecovered => {
            reveal_strlit("task.recovered");
        },
        LifecycleEventType::TaskRecoveryExhausted => {
            reveal_strlit("task.recovery_exhausted");
        },
        LifecycleEventType::TaskRetryExhausted => {
            reveal_strlit("task.retry_exhausted");
        },
        LifecycleEventType::TaskRetryScheduled => {
            reveal_strlit("task.retry_scheduled");
        },
        LifecycleEventType::TaskSkipped => {
            reveal_strlit("task.skipped");
        },
        LifecycleEventType::TaskStarted => {
            reveal_strlit("task.started");
        },
        LifecycleEventType::TaskSucceeded => {
            reveal_strlit("task.succeeded");
        },
        LifecycleEventType::ToolCalled => {
            reveal_strlit("tool.called");
        },
        LifecycleEventType::ToolCompleted => {
            reveal_strlit("tool.completed");
        },
        LifecycleEventType::ToolFailed => {
            reveal_strlit("tool.failed");
        },
        LifecycleEventType::WorkflowCreated => {
            reveal_strlit("workflow.created");
        },
        LifecycleEventType::WorkflowPatched => {
            reveal_strlit("workflow.patched");
        },
    }
}

/// No two events have the same name: the event that is read from a stored name is the one that
/// was stored.
pub proof fn event_names_differ(a: LifecycleEventType, b: LifecycleEventType)
    requires
        a.name() == b.name(),
    ensures
        a == b,
{
    name_tells_the_place(a);
    name_tells_the_place(b);
}

/// What happened.
#[derive(Clone, Copy, Debug, PartialEq, Eq, PartialOrd, Ord, Hash, Structural)]
pub enum DurableEventKind {
    WorkflowCreated,
    TaskClaimed,
    TaskRetried,
    TaskCompleted,
    ArtifactCreated,
    ContextManifested,
    ContextRepaired,
    AgentTurnStarted,
    AgentTurnCompleted,
    ToolCalled,
    ToolReturned,
    DecisionGated,
    ExecutionGated,
    PaperCommitted,
    PaperReconciled,
    OutcomeSealed,
    PolicyTransitioned,
    FreezeChanged,
}

impl DurableEventKind {
    /// The name of the variant in JSON.
    pub open spec fn wire(self) -> Seq<char> {
        match self {
            DurableEventKind::WorkflowCreated => "workflow_created"@,
            DurableEventKind::TaskClaimed => "task_claimed"@,
            DurableEventKind::TaskRetried => "task_retried"@,
            DurableEventKind::TaskCompleted => "task_completed"@,
            DurableEventKind::ArtifactCreated => "artifact_created"@,
            DurableEventKind::ContextManifested => "context_manifested"@,
            DurableEventKind::ContextRepaired => "context_repaired"@,
            DurableEventKind::AgentTurnStarted => "agent_turn_started"@,
            DurableEventKind::AgentTurnCompleted => "agent_turn_completed"@,
            DurableEventKind::ToolCalled => "tool_called"@,
            DurableEventKind::ToolReturned => "tool_returned"@,
            DurableEventKind::DecisionGated => "decision_gated"@,
            DurableEventKind::ExecutionGated => "execution_gated"@,
            DurableEventKind::PaperCommitted => "paper_committed"@,
            DurableEventKind::PaperReconciled => "paper_reconciled"@,
            DurableEventKind::OutcomeSealed => "outcome_sealed"@,
            DurableEventKind::PolicyTransitioned => "policy_transitioned"@,
            DurableEventKind::FreezeChanged => "freeze_changed"@,
        }
    }

    /// The name of the variant in JSON.
    pub fn wire_name(self) -> (r: &'static str)
        ensures
            r@ == self.wire(),
    {
        match self {
            DurableEventKind::WorkflowCreated => "workflow_created",
            DurableEventKind::TaskClaimed => "task_claimed",
            DurableEventKind::TaskRetried => "task_retried",
            DurableEventKind::TaskCompleted => "task_completed",
            DurableEventKind::ArtifactCreated => "artifact_created",
            DurableEventKind::ContextManifested => "context_manifested",
            DurableEventKind::ContextRepaired => "context_repaired",
            DurableEventKind::AgentTurnStarted => "agent_turn_started",
            DurableEventKind::AgentTurnCompleted => "agent_turn_completed",
            DurableEventKind::ToolCalled => "tool_called",
            DurableEventKind::ToolReturned => "tool_returned",
            DurableEventKind::DecisionGated => "decision_gated",
            DurableEventKind::ExecutionGated => "execution_gated",
            DurableEventKind::PaperCommitted => "paper_committed",
            DurableEventKind::PaperReconciled => "paper_reconciled",
            DurableEventKind::OutcomeSealed => "outcome_sealed",
            DurableEventKind::PolicyTransitioned => "policy_transitioned",
            DurableEventKind::FreezeChanged => "freeze_changed",
        }
    }
}

impl ToJson for DurableEventKind {
    open spec fn json(&self) -> JsonTree {
        JsonTree::Text(self.wire())
    }

    fn to_json(&self) -> (r: serde_json::Value) {
        json_text(self.wire_name())
    }
}

/// The record of something that happened in a run.
#[derive(Debug, Clone, PartialEq, Eq)]
pub struct DurableEvent {
    pub schema_version: u32,
    pub event_id: EventId,
    pub kind: DurableEventKind,
    pub run_id: RunId,
    pub task_id: Option<TaskId>,
    pub attempt_id: Option<AttemptId>,
    pub payload: ArtifactRef,
    pub emitted_at: UtcTime,
}

impl DurableEvent {
    /// An attempt is named with its task.
    pub open spec fn verdict(&self) -> Verdict {
        first(
            demand(
                self.schema_version == DOMAIN_SCHEMA_VERSION,
                empty("durable_event.schema_version"@),
            ),
            first(
                demand(
                    !blank(self.event_id@) && !blank(self.run_id@),
                    empty("durable_event.identity"@),
                ),
                demand(
                    self.attempt_id is Some ==> self.task_id is Some,
                    ErrorView::AttemptOriginWithoutTask,
                ),
            ),
        )
    }

    pub fn validate(&self) -> (r: Result<(), DomainError>)
        ensures
            outcome(r) == self.verdict(),
    {
        if self.schema_version != DOMAIN_SCHEMA_VERSION {
            return Err(empty_field("durable_event.schema_version"));
        }
        if is_blank(&self.event_id.0) || is_blank(&self.run_id.0) {
            return Err(empty_field("durable_event.identity"));
        }
        if self.attempt_id.is_some() && self.task_id.is_none() {
            return Err(DomainError::AttemptOriginWithoutTask);
        }
        Ok(())
    }
}

/// What a durable event is refused with: the first fault that it has.
pub proof fn refusal_of_durable_event_names_its_fault(this: DurableEvent)
    ensures
        !(this.schema_version == DOMAIN_SCHEMA_VERSION)
            ==> this.verdict() == Verdict::Err(empty("durable_event.schema_version"@)),
        (this.schema_version == DOMAIN_SCHEMA_VERSION) && !(!blank(this.event_id@)
            && !blank(this.run_id@))
            ==> this.verdict() == Verdict::Err(empty("durable_event.identity"@)),
        (this.schema_version == DOMAIN_SCHEMA_VERSION) && (!blank(this.event_id@)
            && !blank(this.run_id@)) && !(this.attempt_id is Some ==> this.task_id is Some)
            ==> this.verdict() == Verdict::Err(ErrorView::AttemptOriginWithoutTask),
{
}

} // verus!
