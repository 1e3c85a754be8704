//! What holds of workflows and of the artifacts that they leave.
use crate::artifact::{Artifact, ArtifactKind, ArtifactLifecycle, ArtifactOrigin, ArtifactProvenance, ArtifactRef};
use crate::contract::TaskRecipe;
use crate::decision::DecisionHorizon;
use crate::error::ErrorView;
use crate::foundation::TaskId;
use crate::lists::no_fault_means_every_check_passes;
use crate::ordered::{ascending, views};
use crate::text::{blank, starts_with};
use crate::workflow::{
    DecisionBlocker, FactorLimits, WorkflowGraph, WorkflowNode, WorkflowProposal,
    WorkflowProposalTask, depends, first_repeated, first_unknown, has_cycle, has_task,
    is_running_order, is_walk, marked_horizon, runs_all, stands_before, task_of,
};
use vstd::prelude::*;

verus! {

/// A task of a proposal is accepted exactly where it is named and says what it is for, follows a
/// known recipe with no more priority than that allows, and depends on proposed tasks alone.
pub proof fn accepted_task_keeps_to_its_recipe(
    proposal: WorkflowProposal,
    alias: Seq<char>,
    task: WorkflowProposalTask,
    recipes: Map<Seq<char>, TaskRecipe>,
)
    ensures
        proposal.task_verdict(alias, task, recipes) is Ok <==> {
            &&& !blank(alias)
            &&& !blank(task.objective@)
            &&& task.priority <= 100
            &&& recipes.dom().contains(task.recipe_id@)
            &&& task.priority <= recipes[task.recipe_id@].priority_ceiling
            &&& forall|i: int|
                0 <= i < task.depends_on@.len() ==> proposal.tasks@.dom().contains(
                    (#[trigger] task.depends_on@[i])@,
                )
        },
{
    first_unproposed_is_not_proposed(proposal, task.depends_on@);
}

proof fn first_unproposed_is_not_proposed(proposal: WorkflowProposal, aliases: Seq<String>)
    ensures
        proposal.first_unproposed(aliases) is None <==> forall|i: int|
            0 <= i < aliases.len() ==> proposal.tasks@.dom().contains((#[trigger] aliases[i])@),
    decreases aliases.len(),
{
    if aliases.len() > 0 {
        let rest = aliases.drop_first();
        first_unproposed_is_not_proposed(proposal, rest);
        assert forall|i: int| 0 < i < aliases.len() implies #[trigger] aliases[i] == rest[i - 1] by {}
        if proposal.first_unproposed(aliases) is Some && proposal.tasks@.dom().contains(
            aliases[0]@,
        ) {
            let i = choose|i: int|
                0 <= i < rest.len() && !proposal.tasks@.dom().contains((#[trigger] rest[i])@);
            assert(aliases[i + 1] == rest[i]);
        }
        if proposal.first_unproposed(aliases) is None {
            assert forall|i: int| 0 <= i < aliases.len() implies proposal.tasks@.dom().contains(
                (#[trigger] aliases[i])@,
            ) by {
                if i > 0 {
                    assert(aliases[i] == rest[i - 1]);
                }
            }
        }
    }
}

/// A proposal is accepted exactly where it is named, has some tasks, and each is accepted.
pub proof fn accepted_proposal_has_accepted_tasks(
    proposal: WorkflowProposal,
    recipes: Map<Seq<char>, TaskRecipe>,
)
    ensures
        proposal.verdict(recipes) is Ok <==> {
            let names = proposal.tasks.keys();
            &&& proposal.schema_version == 2
            &&& !blank(proposal.topology_id@)
            &&& names.len() > 0
            &&& forall|i: int|
                0 <= i < names.len() ==> proposal.task_verdict(
                    #[trigger] names[i],
                    proposal.tasks.values()[i],
                    recipes,
                ) is Ok
        },
{
    let names = proposal.tasks.keys();
    let checks = proposal.task_checks(recipes);
    no_fault_means_every_check_passes(names.len(), checks);
    assert forall|i: int| 0 <= i < names.len() implies checks(i) == proposal.task_verdict(
        #[trigger] names[i],
        proposal.tasks.values()[i],
        recipes,
    ) by {}
    if forall|i: int|
        0 <= i < names.len() ==> proposal.task_verdict(
            #[trigger] names[i],
            proposal.tasks.values()[i],
            recipes,
        ) is Ok {
        assert forall|i: int| 0 <= i < names.len() implies (#[trigger] checks(i)) is Ok by {
            assert(proposal.task_verdict(names[i], proposal.tasks.values()[i], recipes) is Ok);
        }
    }
}

/// A node is of the horizon that its specification says, and without one of that which its objective
/// is marked with, if any.
pub proof fn node_is_of_the_horizon_it_is_marked_with(node: WorkflowNode)
    ensures
        node.spec matches Some(own) ==> node.horizon() == own.horizon,
        node.spec is None && node.horizon() == Some(DecisionHorizon::T1) ==> starts_with(
            node.objective@,
            "[research_horizon=t1]"@,
        ),
        node.spec is None && node.horizon() == Some(DecisionHorizon::T3) ==> starts_with(
            node.objective@,
            "[research_horizon=t3]"@,
        ),
        node.spec is None && node.horizon() == Some(DecisionHorizon::T5) ==> starts_with(
            node.objective@,
            "[research_horizon=t5]"@,
        ),
        node.spec is None && starts_with(node.objective@, "[research_horizon=t1]"@)
            ==> node.horizon() == Some(DecisionHorizon::T1),
        node.spec is None && starts_with(node.objective@, "[research_horizon=t3]"@)
            ==> node.horizon() == Some(DecisionHorizon::T3),
        node.spec is None && starts_with(node.objective@, "[research_horizon=t5]"@)
            ==> node.horizon() == Some(DecisionHorizon::T5),
{
    reveal_strlit("[research_horizon=t1]");
    reveal_strlit("[research_horizon=t3]");
    reveal_strlit("[research_horizon=t5]");
    let a = "[research_horizon=t1]"@;
    let b = "[research_horizon=t3]"@;
    let c = "[research_horizon=t5]"@;
    assert(a.len() == 21 && b.len() == 21 && c.len() == 21);
    assert(a[19] == '1' && b[19] == '3' && c[19] == '5');
    let s = node.objective@;
    if s.len() >= 21 {
        assert(s.take(21)[19] == s[19]);
    }
}

/// The first task that is not known is one of the dependencies that no node has, and there is none
/// exactly where every dependency is a node's task.
pub proof fn unknown_task_is_no_nodes_task(nodes: Seq<WorkflowNode>, tasks: Seq<TaskId>)
    ensures
        first_unknown(nodes, tasks) is None <==> forall|i: int|
            0 <= i < tasks.len() ==> has_task(nodes, (#[trigger] tasks[i])@),
        first_unknown(nodes, tasks) matches Some(task) ==> !has_task(nodes, task) && exists|i: int|
            0 <= i < tasks.len() && (#[trigger] tasks[i])@ == task,
    decreases tasks.len(),
{
    if tasks.len() > 0 {
        let rest = tasks.drop_first();
        unknown_task_is_no_nodes_task(nodes, rest);
        assert forall|i: int| 0 < i < tasks.len() implies #[trigger] tasks[i] == rest[i - 1] by {}
        if first_unknown(nodes, tasks) is None {
            assert forall|i: int| 0 <= i < tasks.len() implies has_task(
                nodes,
                (#[trigger] tasks[i])@,
            ) by {
                if i > 0 {
                    assert(tasks[i] == rest[i - 1]);
                }
            }
        } else if has_task(nodes, tasks[0]@) {
            let task = first_unknown(nodes, tasks)->0;
            let i = choose|i: int| 0 <= i < rest.len() && (#[trigger] rest[i])@ == task;
            assert(tasks[i + 1]@ == task);
        } else {
            assert(tasks[0]@ == first_unknown(nodes, tasks)->0);
        }
    }
}

proof fn nothing_repeated_means_all_differ(nodes: Seq<WorkflowNode>, n: nat)
    requires
        n <= nodes.len(),
    ensures
        first_repeated(nodes, n) is None <==> forall|i: int, j: int|
            0 <= i < j < n ==> (#[trigger] nodes[i]).task_id@ != (#[trigger] nodes[j]).task_id@,
    decreases n,
{
    if n > 0 {
        nothing_repeated_means_all_differ(nodes, (n - 1) as nat);
        let last = n - 1;
        if crate::workflow::is_repeated(nodes, last) {
            let k = choose|k: int|
                0 <= k < last && #[trigger] task_of(nodes, k) == task_of(nodes, last);
            assert(nodes[k].task_id@ == nodes[last].task_id@);
        } else {
            assert forall|i: int| 0 <= i < last implies (#[trigger] nodes[i]).task_id@
                != nodes[last].task_id@ by {
                assert(task_of(nodes, i) != task_of(nodes, last));
            }
        }
    }
}

/// A graph is accepted exactly where it is named, has nodes of different tasks, each of which says
/// what it is for, keeps within its bounds and depends on tasks of the graph alone, and no node
/// waits for itself, however far round.
#[verifier::rlimit(40)]
pub proof fn accepted_graph_has_no_cycle(graph: WorkflowGraph)
    ensures
        graph.verdict() is Ok <==> {
            let nodes = graph.nodes@;
            &&& graph.schema_version == 2
            &&& !blank(graph.topology_id@)
            &&& nodes.len() > 0
            &&& forall|i: int, j: int|
                0 <= i < j < nodes.len() ==> (#[trigger] nodes[i]).task_id@ != (
                #[trigger] nodes[j]).task_id@
            &&& forall|i: int|
                0 <= i < nodes.len() ==> !blank((#[trigger] nodes[i]).objective@)
                    && nodes[i].priority <= 100 && nodes[i].budget.verdict() is Ok
                    && nodes[i].retry.max_attempts > 0
            &&& forall|i: int, k: int|
                0 <= i < nodes.len() && 0 <= k < nodes[i].dependencies@.len() ==> has_node(
                    nodes,
                    (#[trigger] nodes[i].dependencies@[k])@,
                )
            &&& forall|walk: Seq<int>| #[trigger]
                is_walk(nodes, walk) ==> walk[0] != walk[walk.len() - 1]
        },
{
    let nodes = graph.nodes@;
    nothing_repeated_means_all_differ(nodes, nodes.len());
    let checks = graph.node_checks();
    no_fault_means_every_check_passes(nodes.len(), checks);
    assert forall|task: Seq<char>| #[trigger] has_task(nodes, task) == has_node(nodes, task) by {
        if has_task(nodes, task) {
            let i = choose|i: int| 0 <= i < nodes.len() && #[trigger] task_of(nodes, i) == task;
            assert(nodes[i].task_id@ == task);
        }
        if has_node(nodes, task) {
            let i = choose|i: int| 0 <= i < nodes.len() && (#[trigger] nodes[i]).task_id@ == task;
            assert(task_of(nodes, i) == task);
        }
    }
    assert forall|i: int| 0 <= i < nodes.len() implies ((#[trigger] checks(i)) is Ok <==> !blank(
        nodes[i].objective@,
    ) && nodes[i].priority <= 100 && nodes[i].budget.verdict() is Ok && nodes[i].retry.max_attempts
        > 0 && forall|k: int|
        0 <= k < nodes[i].dependencies@.len() ==> has_node(
            nodes,
            (#[trigger] nodes[i].dependencies@[k])@,
        )) by {
        unknown_task_is_no_nodes_task(nodes, nodes[i].dependencies@);
        if forall|k: int|
            0 <= k < nodes[i].dependencies@.len() ==> has_node(
                nodes,
                (#[trigger] nodes[i].dependencies@[k])@,
            ) {
            assert forall|k: int| 0 <= k < nodes[i].dependencies@.len() implies has_task(
                nodes,
                (#[trigger] nodes[i].dependencies@[k])@,
            ) by {
                assert(has_node(nodes, nodes[i].dependencies@[k]@));
            }
        }
    }
    if forall|i: int| 0 <= i < nodes.len() ==> (#[trigger] checks(i)) is Ok {
        assert forall|i: int| 0 <= i < nodes.len() implies !blank((#[trigger] nodes[i]).objective@)
            && nodes[i].priority <= 100 && nodes[i].budget.verdict() is Ok
            && nodes[i].retry.max_attempts > 0 by {
            assert(checks(i) is Ok);
        }
        assert forall|i: int, k: int|
            0 <= i < nodes.len() && 0 <= k < nodes[i].dependencies@.len() implies has_node(
            nodes,
            (#[trigger] nodes[i].dependencies@[k])@,
        ) by {
            assert(checks(i) is Ok);
        }
    }
    if !has_cycle(nodes) {
        assert forall|walk: Seq<int>| #[trigger] is_walk(nodes, walk) implies walk[0]
            != walk[walk.len() - 1] by {
            assert(walk.first() == walk[0] && walk.last() == walk[walk.len() - 1]);
        }
    }
}

/// Some node is of a task.
pub open spec fn has_node(nodes: Seq<WorkflowNode>, task: Seq<char>) -> bool {
    exists|i: int| 0 <= i < nodes.len() && (#[trigger] nodes[i]).task_id@ == task
}

/// One node depends on another exactly where it names the other's task.
pub proof fn node_depends_on_the_tasks_it_names(nodes: Seq<WorkflowNode>, a: int, b: int)
    requires
        0 <= a < nodes.len(),
        0 <= b < nodes.len(),
    ensures
        depends(nodes, a, b) <==> exists|k: int|
            0 <= k < nodes[a].dependencies@.len() && (#[trigger] nodes[a].dependencies@[k])@
                == nodes[b].task_id@,
{
}

/// In an order in which all nodes run, each stands once, after everything that it depends on.
pub proof fn running_order_puts_dependencies_first(
    nodes: Seq<WorkflowNode>,
    order: Seq<int>,
    p: int,
    b: int,
)
    requires
        runs_all(nodes, order),
        0 <= p < order.len(),
        depends(nodes, order[p], b),
    ensures
        exists|q: int| 0 <= q < p && #[trigger] order[q] == b,
{
    assert(stands_before(order, b, p));
}

/// A blocker is accepted exactly where it is named and explained and, a hard one, has a source;
/// limits on factors where each is a share.
pub proof fn accepted_hard_blocker_has_a_source(blocker: DecisionBlocker, limits: FactorLimits)
    ensures
        blocker.verdict() is Ok <==> {
            &&& !blank(blocker.code@)
            &&& !blank(blocker.scope@)
            &&& !blank(blocker.explanation@)
            &&& blocker.severity is Hard ==> blocker.source_refs@.len() >= 1
        },
        limits.verdict() is Ok <==> {
            &&& limits.global_leveraged_equity_ppm <= 1_000_000
            &&& limits.nasdaq_ppm <= 1_000_000
            &&& limits.semiconductor_ppm <= 1_000_000
            &&& limits.paired_index_ppm <= 1_000_000
        },
{
}

/// The provenance of an artifact is accepted exactly where its source is named and it is confident
/// within the whole; its origin where an attempt names its task.
pub proof fn accepted_provenance_is_named(
    provenance: ArtifactProvenance,
    origin: ArtifactOrigin,
)
    ensures
        provenance.verdict() is Ok <==> !blank(provenance.source_family@)
            && provenance.confidence_ppm <= 1_000_000,
        origin.verdict() is Ok <==> origin.task_id is Some || origin.attempt_id is None,
        !(origin.verdict() is Ok) ==> origin.verdict()->Err_0 is AttemptOriginWithoutTask,
{
}

/// Some source of an artifact is of a kind.
pub open spec fn has_source(artifact: Artifact, kind: ArtifactKind) -> bool {
    exists|i: int|
        0 <= i < artifact.source_refs@.len() && (#[trigger] artifact.source_refs@[i]).kind == kind
}

/// What an artifact rests on follows from what it is: raw evidence rests on nothing, normalized
/// evidence, if on anything, on raw evidence, a claim on evidence, a critique on a claim, a
/// resolution on both, a certificate on a trial.
pub proof fn sources_follow_from_the_kind(artifact: Artifact)
    ensures
        artifact.kind_verdict() is Ok ==> {
            &&& artifact.kind is RawEvidence ==> artifact.source_refs@.len() == 0
            &&& artifact.kind is NormalizedEvidence && artifact.source_refs@.len() > 0
                ==> has_source(artifact, ArtifactKind::RawEvidence)
            &&& artifact.kind is Claim ==> has_source(artifact, ArtifactKind::NormalizedEvidence)
                || has_source(artifact, ArtifactKind::SemanticDetail)
            &&& artifact.kind is Critique ==> has_source(artifact, ArtifactKind::Claim)
            &&& artifact.kind is Resolution ==> has_source(artifact, ArtifactKind::Claim)
                && has_source(artifact, ArtifactKind::Critique)
            &&& artifact.kind is SearchBiasCertificate ==> has_source(
                artifact,
                ArtifactKind::ExperimentTrial,
            )
            &&& artifact.kind is DebugRecord ==> artifact.lifecycle is RunScoped && !has_source(
                artifact,
                ArtifactKind::RawEvidence,
            )
            &&& artifact.kind is RuntimeCheckpoint ==> artifact.lifecycle is RunScoped && has_source(
                artifact,
                ArtifactKind::WorkflowGraph,
            )
        },
        artifact.kind is RawEvidence && artifact.source_refs@.len() == 0
            ==> artifact.kind_verdict() is Ok,
        artifact.kind is NormalizedEvidence && (artifact.source_refs@.len() == 0 || has_source(
            artifact,
            ArtifactKind::RawEvidence,
        )) ==> artifact.kind_verdict() is Ok,
        artifact.kind is Claim && (has_source(artifact, ArtifactKind::NormalizedEvidence)
            || has_source(artifact, ArtifactKind::SemanticDetail)) ==> artifact.kind_verdict() is Ok,
        artifact.kind is Critique && has_source(artifact, ArtifactKind::Claim)
            ==> artifact.kind_verdict() is Ok,
        artifact.kind is Resolution && has_source(artifact, ArtifactKind::Claim) && has_source(
            artifact,
            ArtifactKind::Critique,
        ) ==> artifact.kind_verdict() is Ok,
        artifact.kind is SearchBiasCertificate && has_source(artifact, ArtifactKind::ExperimentTrial)
            ==> artifact.kind_verdict() is Ok,
        artifact.kind is SemanticDetail && (artifact.source_refs@.len() == 0 || has_source(
            artifact,
            ArtifactKind::RawEvidence,
        ) || has_source(artifact, ArtifactKind::NormalizedEvidence))
            ==> artifact.kind_verdict() is Ok,
        artifact.kind is Decision || artifact.kind is Outcome || artifact.kind is Lesson
            || artifact.kind is ExecutionPlan ==> artifact.kind_verdict() is Ok,
{
}

/// A checkpoint is of its run alone, made by the runtime from the graph; a record of debugging is
/// made by one of its four producers, never from raw evidence.
pub proof fn checkpoint_is_of_its_run(artifact: Artifact)
    ensures
        artifact.is_run_checkpoint() <==> {
            &&& artifact.lifecycle is RunScoped
            &&& artifact.producer@ == "runtime.checkpoint"@
            &&& artifact.provenance.source_family@ == "akzio.runtime"@
            &&& artifact.origin is Some
            &&& artifact.origin->0.run_id is Some
            &&& artifact.origin->0.task_id is None
            &&& artifact.origin->0.attempt_id is None
            &&& artifact.origin->0.contract_hash is None
            &&& has_source(artifact, ArtifactKind::WorkflowGraph)
        },
        artifact.is_debug_record() <==> {
            &&& artifact.lifecycle is RunScoped
            &&& artifact.producer@ == "debug.session_identity"@ || artifact.producer@
                == "debug.control"@ || artifact.producer@ == "debug.stage_acceptance"@
                || artifact.producer@ == "debug.budget_snapshot"@
            &&& !has_source(artifact, ArtifactKind::RawEvidence)
        },
        artifact.is_collection_status() <==> {
            &&& artifact.producer@ == "evidence.collection_status"@
            &&& artifact.provenance.source_family@ == "akzio.ingest"@
            &&& artifact.lifecycle is RunScoped
            &&& artifact.origin is Some
            &&& artifact.origin->0.task_id is Some
            &&& forall|i: int|
                0 <= i < artifact.source_refs@.len() ==> (
                #[trigger] artifact.source_refs@[i]).kind == ArtifactKind::EvidenceNeed
        },
{
}

/// A detail that audits research names its producer and rests on what that producer audits.
pub proof fn audit_rests_on_what_it_audits(artifact: Artifact)
    ensures
        artifact.is_research_audit() <==> {
            ||| artifact.producer@ == "research.revision.stop"@ && has_source(
                artifact,
                ArtifactKind::ProposalReview,
            )
            ||| artifact.producer@ == "learning.revalidation.suggestion"@ && has_source(
                artifact,
                ArtifactKind::Lesson,
            )
            ||| artifact.producer@ == "learning.retrieval.audit"@ && has_source(
                artifact,
                ArtifactKind::Lesson,
            )
            ||| artifact.producer@ == "context.coverage"@ && has_source(
                artifact,
                ArtifactKind::ContextManifest,
            )
            ||| artifact.producer@ == "research.supplement.started"@ && (has_source(
                artifact,
                ArtifactKind::Claim,
            ) || has_source(artifact, ArtifactKind::Critique))
            ||| artifact.producer@ == "research.supplement.disposition"@ && (has_source(
                artifact,
                ArtifactKind::Claim,
            ) || has_source(artifact, ArtifactKind::Critique))
            ||| artifact.producer@ == "research.supplement.result"@ && (has_source(
                artifact,
                ArtifactKind::Claim,
            ) || has_source(artifact, ArtifactKind::Critique))
        },
        artifact.kind is SemanticDetail ==> (artifact.kind_verdict() is Ok <==> {
            ||| artifact.source_refs@.len() == 0
            ||| has_source(artifact, ArtifactKind::RawEvidence)
            ||| has_source(artifact, ArtifactKind::NormalizedEvidence)
            ||| artifact.is_collection_status()
            ||| artifact.is_research_audit()
        }),
{
}

/// Which records belong to the work on a run and can never be canonical.
pub proof fn working_records_are_never_canonical(artifact: Artifact)
    requires
        artifact.verdict() is Ok,
        artifact.lifecycle is Canonical,
    ensures
        !(artifact.kind is RuntimeCheckpoint),
        !(artifact.kind is DebugRecord),
        !(artifact.kind is ContextManifest),
        !(artifact.kind is ContextRepair),
        !(artifact.kind is EvidenceNeed),
        !(artifact.kind is WorkflowProposalDraft),
        !(artifact.kind is WorkflowProposal),
        !(artifact.kind is WorkflowGraph),
        !(artifact.kind is AgentTurn),
        !(artifact.kind is DeliberationNote),
        !(artifact.kind is ToolCall),
        !(artifact.kind is ToolResult),
        !(artifact.kind is Resolution),
        !(artifact.kind is DecisionProposal),
        !(artifact.kind is ProposalReview),
        !(artifact.kind is RetrospectiveDraft),
        !(artifact.kind is AttemptRelation),
{
}

/// An artifact is accepted exactly where it is produced by someone as some type of content, its
/// provenance and origin are acceptable, its sources stand in order, each of another identity
/// than the others and itself, and follow from its kind, its lifecycle is one that its kind may
/// have, and it stands under its own digest.
#[verifier::rlimit(40)]
pub proof fn accepted_artifact_does_not_rest_on_itself(artifact: Artifact)
    ensures
        artifact.verdict() is Ok <==> {
            let sources = artifact.source_refs@;
            &&& artifact.schema_version == 2
            &&& !blank(artifact.producer@)
            &&& !blank(artifact.blob.media_type@)
            &&& artifact.provenance.verdict() is Ok
            &&& artifact.origin matches Some(origin) ==> origin.verdict() is Ok
            &&& ascending::<ArtifactRef>(views(sources))
            &&& forall|i: int|
                0 <= i < sources.len() ==> (#[trigger] sources[i]).artifact_id@
                    != artifact.artifact_id@
            &&& forall|i: int, j: int|
                0 <= i < j < sources.len() ==> (#[trigger] sources[i]).artifact_id@ != (
                #[trigger] sources[j]).artifact_id@
            &&& artifact.kind_verdict() is Ok
            &&& artifact.lifecycle is Canonical ==> !artifact.kind.is_working_record()
            &&& artifact.kind is DeliberationNote || artifact.kind is RetrospectiveDraft
                || artifact.kind is AttemptRelation ==> artifact.lifecycle is RunScoped
            &&& artifact.kind is Retrospective ==> artifact.lifecycle is RunScoped
                || artifact.lifecycle is Canonical
            &&& artifact.artifact_id@ == artifact.identity()
        },
{
}

/// Claims, critiques, evidence, decisions and what comes of them may be canonical.
pub proof fn lasting_records_may_be_canonical(kind: ArtifactKind)
    ensures
        kind.is_working_record() <==> {
            ||| kind is RuntimeCheckpoint
            ||| kind is DebugRecord
            ||| kind is ContextManifest
            ||| kind is ContextRepair
            ||| kind is EvidenceNeed
            ||| kind is WorkflowProposalDraft
            ||| kind is WorkflowProposal
            ||| kind is WorkflowGraph
            ||| kind is AgentTurn
            ||| kind is DeliberationNote
            ||| kind is ToolCall
            ||| kind is ToolResult
            ||| kind is Resolution
            ||| kind is DecisionProposal
            ||| kind is ProposalReview
            ||| kind is RetrospectiveDraft
            ||| kind is AttemptRelation
        },
{
}

} // verus!
