//! What holds of the evidence for a release.
use crate::artifact::ArtifactKind;
use crate::evaluation::outcome::OutcomeHorizon;
use crate::foundation::RunPurpose;
use crate::release::{
    IssueView, ReleaseEvidenceBody, ReleaseEvidenceBundle, ReleaseEvidenceStatus,
    ReleaseEvidenceTier, ReleaseExecutionEvidence, ReleaseRuntimeEvidence, ReleaseWorkflowEvidence,
    is_hard, order_is_named, route_is_named,
};
use crate::text::blank;
use vstd::prelude::*;

verus! {

/// What ran is accepted exactly where its commit and toolchain are known, its profile is one of the
/// four and its feed one of the two.
pub proof fn accepted_runtime_has_a_known_profile(runtime: ReleaseRuntimeEvidence)
    ensures
        runtime.is_sound() <==> {
            &&& !blank(runtime.repository_commit@)
            &&& !blank(runtime.rust_toolchain@)
            &&& {
                ||| runtime.experiment_profile@ == "fixture"@
                ||| runtime.experiment_profile@ == "paper-engineering"@
                ||| runtime.experiment_profile@ == "paper-research"@
                ||| runtime.experiment_profile@ == "historical-eval"@
            }
            &&& runtime.market_data_feed@ == "iex"@ || runtime.market_data_feed@ == "sip"@
        },
{
}

/// A workflow is accepted exactly where its plan is and its digest is that of its own graph.
pub proof fn accepted_workflow_is_that_of_its_graph(workflow: ReleaseWorkflowEvidence)
    ensures
        workflow.verdict() is Ok <==> workflow.plan.verdict() is Ok && workflow.graph.kind
            == ArtifactKind::WorkflowGraph && workflow.workflow_hash@ == workflow.graph.artifact_id@,
{
}

/// An execution is sound exactly where it refers to a plan, a named commitment, receipts and, if at
/// all, a reconciliation; and it is reconciled where there is one with receipts.
pub proof fn reconciled_execution_has_receipts(execution: ReleaseExecutionEvidence)
    ensures
        execution.is_sound() <==> {
            &&& execution.execution_plan.kind == ArtifactKind::ExecutionPlan
            &&& execution.commitment.kind == ArtifactKind::ExecutionCommitment
            &&& !blank(execution.commitment_id@)
            &&& execution.reconciliation is Some ==> execution.reconciliation->0.kind
                == ArtifactKind::Reconciliation
            &&& forall|i: int|
                0 <= i < execution.reconciliation_receipts@.len() ==> (
                #[trigger] execution.reconciliation_receipts@[i]).kind == ArtifactKind::OrderReceipt
        },
        execution.is_reconciled() <==> execution.reconciliation is Some
            && execution.reconciliation_receipts@.len() >= 1,
{
}

/// The evidence is accepted exactly where each part of it that is there is: what ran, the workflow,
/// named routes and sources, named orders, session and lease, the execution, outcomes that are
/// outcomes, what was learnt from an evaluation, and an approval by someone, at some time where
/// it was given.
#[verifier::rlimit(60)]
pub proof fn accepted_evidence_has_sound_parts(body: ReleaseEvidenceBody)
    ensures
        body.verdict() is Ok <==> {
            &&& body.runtime matches Some(runtime) ==> runtime.is_sound()
            &&& body.workflow matches Some(workflow) ==> workflow.verdict() is Ok
            &&& forall|i: int|
                0 <= i < body.provider_routes.keys().len() ==> !blank(
                    (#[trigger] body.provider_routes.keys()[i]).provider_id,
                ) && !blank(body.provider_routes.keys()[i].model_id) && !blank(
                    body.provider_routes.keys()[i].source,
                )
            &&& forall|i: int|
                0 <= i < body.source_snapshots.keys().len() ==> !blank(
                    (#[trigger] body.source_snapshots.keys()[i]).source_family,
                )
            &&& body.broker is Some ==> forall|i: int|
                0 <= i < body.broker->0.orders@.len() ==> !blank(
                    (#[trigger] body.broker->0.orders@[i]).client_order_id@,
                ) && !blank(body.broker->0.orders@[i].broker_order_id@)
            &&& body.session matches Some(session) ==> !blank(session.session_key@)
            &&& body.daemon matches Some(daemon) ==> !blank(daemon.lease_name@) && !blank(
                daemon.owner_id@,
            )
            &&& body.execution matches Some(execution) ==> execution.is_sound()
            &&& forall|horizon: OutcomeHorizon| #[trigger]
                body.outcomes@.dom().contains(horizon) ==> body.outcomes@[horizon].outcome.kind
                    == ArtifactKind::Outcome
            &&& body.learning matches Some(learning) ==> !blank(learning.transition_id@)
                && learning.evaluation.kind == ArtifactKind::Evaluation
            &&& body.human_approval matches Some(approval) ==> !blank(approval.operator_identity@)
                && (approval.status is Approved ==> approval.approved_at is Some)
        },
{
    assert forall|i: int| 0 <= i < body.provider_routes.keys().len() implies route_is_named(
        #[trigger] body.provider_routes.keys()[i],
    ) == (!blank(body.provider_routes.keys()[i].provider_id) && !blank(
        body.provider_routes.keys()[i].model_id,
    ) && !blank(body.provider_routes.keys()[i].source)) by {}
    if body.broker is Some {
        assert forall|i: int| 0 <= i < body.broker->0.orders@.len() implies order_is_named(
            #[trigger] body.broker->0.orders@[i],
        ) == (!blank(body.broker->0.orders@[i].client_order_id@) && !blank(
            body.broker->0.orders@[i].broker_order_id@,
        )) by {}
    }
}

/// Evidence reaches a tier by what it shows: a fixture is never more than a fixture, a replay or a
/// shadow never more than history; of paper trading, forward outcomes need a true broker, a
/// reconciled execution and all three horizons, and robustness also what was learnt, a completed
/// canary, an approval after the outcome and every digest intact.
pub proof fn tier_is_what_the_evidence_shows(body: ReleaseEvidenceBody)
    ensures
        body.environment is OfflineFixture ==> body.tier() is E0Fixture,
        !(body.environment is OfflineFixture) && (body.purpose is Replay || body.purpose is Shadow)
            ==> body.tier() is E1HistoricalReplay,
        body.tier() is E2PaperMechanics || body.tier() is E3ForwardPaper
            || body.tier() is E4Robustness <==> !(body.environment is OfflineFixture)
            && body.purpose is Paper,
        body.tier() is E3ForwardPaper || body.tier() is E4Robustness <==> {
            &&& !(body.environment is OfflineFixture)
            &&& body.purpose is Paper
            &&& body.broker is Some && body.broker->0.trust is RealBroker
            &&& body.execution is Some && body.execution->0.is_reconciled()
            &&& body.outcomes@.dom().contains(OutcomeHorizon::T1)
            &&& body.outcomes@.dom().contains(OutcomeHorizon::T3)
            &&& body.outcomes@.dom().contains(OutcomeHorizon::T5)
        },
        body.tier() is E4Robustness ==> {
            &&& body.learning is Some
            &&& body.canary is Some && body.canary->0.status is Completed
            &&& {
                ||| body.post_outcome_approval is Some
                    && body.post_outcome_approval->0.decision is Approved
                ||| body.human_approval is Some
                    && body.human_approval->0.is_post_outcome_research_approval
                    && body.human_approval->0.status is Approved
                    && body.human_approval->0.approved_at is Some
            }
            &&& body.integrity.config_hash_matches
            &&& body.integrity.workflow_hash_matches
            &&& body.integrity.broker_account_matches
            &&& body.integrity.daemon_epoch_current
        },
        body.tier() is E3ForwardPaper ==> {
            ||| body.learning is None
            ||| body.canary is None
            ||| !(body.canary->0.status is Completed)
            ||| !body.is_approved_after_outcome()
            ||| !body.integrity.config_hash_matches
            ||| !body.integrity.workflow_hash_matches
            ||| !body.integrity.broker_account_matches
            ||| !body.integrity.daemon_epoch_current
        },
        body.is_approved_after_outcome() <==> {
            ||| body.post_outcome_approval is Some
                && body.post_outcome_approval->0.decision is Approved
            ||| body.human_approval is Some
                && body.human_approval->0.is_post_outcome_research_approval
                && body.human_approval->0.status is Approved
                && body.human_approval->0.approved_at is Some
        },
{
    if body.outcomes@.dom().contains(OutcomeHorizon::T1) && body.outcomes@.dom().contains(
        OutcomeHorizon::T3,
    ) && body.outcomes@.dom().contains(OutcomeHorizon::T5) {
        assert forall|horizon: OutcomeHorizon| #[trigger] body.outcomes@.dom().contains(horizon) by {
            match horizon {
                OutcomeHorizon::T1 => {},
                OutcomeHorizon::T3 => {},
                OutcomeHorizon::T5 => {},
            }
        }
    }
}

/// What is missing is raised exactly where it is missing.
pub proof fn missing_evidence_is_raised(body: ReleaseEvidenceBody, horizon: OutcomeHorizon)
    ensures
        body.raises(IssueView::MissingRuntimeManifest) <==> body.runtime is None,
        body.raises(IssueView::MissingWorkflow) <==> body.workflow is None,
        body.raises(IssueView::MissingContracts) <==> body.contracts.contract_hashes@.len() == 0
            || body.contracts.tool_set_hashes@.len() == 0
            || body.contracts.context_manifest_hashes@.len() == 0,
        body.raises(IssueView::MissingProviderCapability) <==> body.provider_routes@.len() == 0,
        body.raises(IssueView::MissingSourceSnapshots) <==> body.source_snapshots@.len() == 0,
        body.raises(IssueView::MissingBrokerEvidence) <==> body.broker is None
            || body.broker->0.orders@.len() == 0,
        body.raises(IssueView::MissingSessionSlot) <==> body.session is None,
        body.raises(IssueView::MissingDaemonLease) <==> body.daemon is None,
        body.raises(IssueView::MissingExecution) <==> body.execution is None,
        body.raises(IssueView::MissingReconciliation) <==> body.execution is Some
            && !body.execution->0.is_reconciled(),
        body.raises((IssueView::MissingOutcome { horizon })) <==> !body.outcomes@.dom().contains(
            horizon,
        ),
        body.raises(IssueView::MissingLearningTransition) <==> body.learning is None,
        body.raises(IssueView::MissingHumanApproval) <==> body.human_approval is None,
        body.raises(IssueView::MissingModelKnowledgeCutoff) <==> (body.purpose is Replay
            || body.purpose is Shadow) && body.runtime is Some
            && body.runtime->0.model_knowledge_cutoff is None,
{
}

/// What is wrong is raised exactly where it is wrong.
pub proof fn wrong_evidence_is_raised(body: ReleaseEvidenceBody, text: Seq<char>)
    ensures
        body.raises((IssueView::NonCanonicalRun { purpose: text })) <==> !(body.purpose is Paper)
            && text == body.purpose.wire(),
        body.raises(IssueView::DirtyWorktree) <==> body.runtime is Some
            && body.runtime->0.dirty_worktree,
        body.raises(IssueView::OfflineFixture) <==> body.environment is OfflineFixture,
        body.raises(IssueView::FakeBrokerEvidence) <==> body.broker is Some
            && body.broker->0.trust is OfflineFixture,
        body.raises(IssueView::HumanApprovalNotApproved) <==> body.human_approval is Some && !(
        body.human_approval->0.status is Approved),
        body.raises(IssueView::ConfigHashDrift) <==> !body.integrity.config_hash_matches,
        body.raises(IssueView::WorkflowHashDrift) <==> !body.integrity.workflow_hash_matches,
        body.raises(IssueView::BrokerAccountMismatch) <==> !body.integrity.broker_account_matches,
        body.raises(IssueView::StaleDaemonEpoch) <==> !body.integrity.daemon_epoch_current,
        body.raises((IssueView::EngineeringOnlyProfile { profile: text })) <==> {
            &&& body.environment is Real
            &&& body.purpose is Paper
            &&& body.runtime is Some
            &&& body.runtime->0.experiment_profile@ == text
            &&& text != "paper-research"@
        },
        body.raises((IssueView::UnsupportedResearchFeed { feed: text })) <==> {
            &&& body.runtime is Some
            &&& body.runtime->0.experiment_profile@ == "paper-research"@
            &&& body.runtime->0.market_data_feed@ == text
            &&& text != "sip"@
        },
{
}

/// What is merely missing can still be brought; what is wrong, and a cutoff that is not known,
/// cannot.
pub proof fn only_missing_evidence_can_be_brought(issue: IssueView)
    ensures
        !is_hard(issue) <==> {
            ||| issue is MissingRuntimeManifest
            ||| issue is MissingWorkflow
            ||| issue is MissingContracts
            ||| issue is MissingProviderCapability
            ||| issue is MissingSourceSnapshots
            ||| issue is MissingBrokerEvidence
            ||| issue is MissingSessionSlot
            ||| issue is MissingDaemonLease
            ||| issue is MissingExecution
            ||| issue is MissingReconciliation
            ||| issue is MissingOutcome
            ||| issue is MissingLearningTransition
            ||| issue is MissingHumanApproval
        },
{
}

/// A release can be approved exactly where nothing is raised, and can never be where something is
/// that cannot be mended; else it is incomplete.
pub proof fn approvable_release_raises_nothing(body: ReleaseEvidenceBody, issue: IssueView)
    ensures
        body.status() is Approvable ==> !body.raises(issue),
        body.raises(issue) && is_hard(issue) ==> body.status() is NotApprovable,
        body.raises(issue) && body.status() is Incomplete ==> !is_hard(issue),
        (forall|other: IssueView| !(#[trigger] body.raises(other))) ==> body.status() is Approvable,
        body.status() is NotApprovable ==> exists|other: IssueView| #[trigger]
            body.raises(other) && is_hard(other),
        body.issues().contains(issue) <==> body.raises(issue),
{
}

/// A bundle is accepted exactly where it is of the current versions and its tier, status, issues and
/// digest are those of its own acceptable body.
pub proof fn accepted_release_bundle_follows_from_its_body(bundle: ReleaseEvidenceBundle)
    ensures
        bundle.verdict() is Ok <==> {
            &&& bundle.schema_version == 2
            &&& bundle.bundle_version == 2
            &&& bundle.body.verdict() is Ok
            &&& bundle.evidence_tier == bundle.body.tier()
            &&& bundle.status == bundle.body.status()
            &&& bundle.issues@ == bundle.body.issues()
            &&& bundle.bundle_hash@ == crate::foundation::json_digest(
                crate::release::bundle_json(bundle.body),
            )
        },
{
}

} // verus!
