//! What is learned: memories, contracts and topologies, and how far each may have influence.
use crate::artifact::{ArtifactKind, ArtifactRef};
use crate::error::{
    demand, empty, empty_field, first, outcome, DomainError, ErrorView, Verdict,
};
use crate::evaluation::outcome::OutcomeMetricBasis;
use crate::foundation::{is_digest, ContentHash, MemoryId, RunId, TopologyId};
use crate::ids::{EvaluationId, ExperienceId, PolicyTransitionId};
use crate::json::{
    json_insert, json_new_object, json_object, json_text, no_members, JsonTree, ToJson,
};
use crate::ordered::OrderedSet;
use crate::text::{blank, cut, cut_of_joined, is_blank, joined, same_text, split_at_first};
use crate::time::UtcTime;
use crate::DOMAIN_SCHEMA_VERSION;
use vstd::prelude::*;

verus! {

/// How far a memory is trusted.
#[derive(Clone, Copy, Debug, PartialEq, Eq, PartialOrd, Ord, Hash, Structural)]
pub enum MemoryLifecycle {
    Candidate,
    Active,
    Proven,
    Contested,
    Retired,
}

impl MemoryLifecycle {
    /// The name of the variant in JSON.
    pub open spec fn wire(self) -> Seq<char> {
        match self {
            MemoryLifecycle::Candidate => "candidate"@,
            MemoryLifecycle::Active => "active"@,
            MemoryLifecycle::Proven => "proven"@,
            MemoryLifecycle::Contested => "contested"@,
            MemoryLifecycle::Retired => "retired"@,
        }
    }

    /// The name of the variant in JSON.
    pub fn wire_name(self) -> (r: &'static str)
        ensures
            r@ == self.wire(),
    {
        match self {
            MemoryLifecycle::Candidate => "candidate",
            MemoryLifecycle::Active => "active",
            MemoryLifecycle::Proven => "proven",
            MemoryLifecycle::Contested => "contested",
            MemoryLifecycle::Retired => "retired",
        }
    }
}

impl ToJson for MemoryLifecycle {
    open spec fn json(&self) -> JsonTree {
        JsonTree::Text(self.wire())
    }

    fn to_json(&self) -> (r: serde_json::Value) {
        json_text(self.wire_name())
    }
}

/// How far a candidate has been rolled out.
#[derive(Clone, Copy, Debug, PartialEq, Eq, PartialOrd, Ord, Hash, Structural)]
pub enum CandidatePolicyState {
    Candidate,
    Canary10,
    Canary25,
    Canary50,
    Active,
}

impl CandidatePolicyState {
    /// The name of the variant in JSON.
    pub open spec fn wire(self) -> Seq<char> {
        match self {
            CandidatePolicyState::Candidate => "candidate"@,
            CandidatePolicyState::Canary10 => "canary10"@,
            CandidatePolicyState::Canary25 => "canary25"@,
            CandidatePolicyState::Canary50 => "canary50"@,
            CandidatePolicyState::Active => "active"@,
        }
    }

    /// The name of the variant in JSON.
    pub fn wire_name(self) -> (r: &'static str)
        ensures
            r@ == self.wire(),
    {
        match self {
            CandidatePolicyState::Candidate => "candidate",
            CandidatePolicyState::Canary10 => "canary10",
            CandidatePolicyState::Canary25 => "canary25",
            CandidatePolicyState::Canary50 => "canary50",
            CandidatePolicyState::Active => "active",
        }
    }
}

impl ToJson for CandidatePolicyState {
    open spec fn json(&self) -> JsonTree {
        JsonTree::Text(self.wire())
    }

    fn to_json(&self) -> (r: serde_json::Value) {
        json_text(self.wire_name())
    }
}

/// What a policy is about.
#[derive(Debug, PartialEq, Eq, PartialOrd, Ord, Hash)]
pub enum PolicySubject {
    Memory(MemoryId),
    Contract(ContentHash),
    Topology(TopologyId),
}

pub ghost enum SubjectView {
    Memory(Seq<char>),
    Contract(Seq<char>),
    Topology(Seq<char>),
}

impl View for PolicySubject {
    type V = SubjectView;

    open spec fn view(&self) -> SubjectView {
        match self {
            PolicySubject::Memory(id) => SubjectView::Memory(id@),
            PolicySubject::Contract(hash) => SubjectView::Contract(hash@),
            PolicySubject::Topology(id) => SubjectView::Topology(id@),
        }
    }
}

impl Clone for PolicySubject {
    fn clone(&self) -> (r: Self)
        ensures
            r == *self,
    {
        match self {
            PolicySubject::Memory(id) => PolicySubject::Memory(id.clone()),
            PolicySubject::Contract(hash) => PolicySubject::Contract(hash.clone()),
            PolicySubject::Topology(id) => PolicySubject::Topology(id.clone()),
        }
    }
}

impl SubjectView {
    pub open spec fn id(self) -> Seq<char> {
        match self {
            SubjectView::Memory(id) => id,
            SubjectView::Contract(hash) => hash,
            SubjectView::Topology(id) => id,
        }
    }

    pub open spec fn kind(self) -> Seq<char> {
        match self {
            SubjectView::Memory(_) => "memory"@,
            SubjectView::Contract(_) => "contract"@,
            SubjectView::Topology(_) => "topology"@,
        }
    }

    /// The kind, a colon and the identifier.
    pub open spec fn text(self) -> Seq<char> {
        self.kind() + ":"@ + self.id()
    }

    pub open spec fn verdict(self) -> Verdict {
        demand(!blank(self.id()), empty("policy_subject.id"@))
    }
}

/// The subject that a kind and an identifier stand for.
pub open spec fn subject_of(kind: Seq<char>, id: Seq<char>) -> Result<SubjectView, ErrorView> {
    if kind == "memory"@ {
        if blank(id) {
            Err(empty("policy_subject.id"@))
        } else {
            Ok(SubjectView::Memory(id))
        }
    } else if kind == "contract"@ {
        if is_digest(id) {
            Ok(SubjectView::Contract(id))
        } else {
            Err(ErrorView::InvalidContentHash)
        }
    } else if kind == "topology"@ {
        if blank(id) {
            Err(empty("policy_subject.id"@))
        } else {
            Ok(SubjectView::Topology(id))
        }
    } else {
        Err(empty("policy_subject.kind"@))
    }
}

/// The subject that a text stands for.
pub open spec fn subject_read(text: Seq<char>) -> Result<SubjectView, ErrorView> {
    match cut(text, ':') {
        Some(parts) => subject_of(parts.0, parts.1),
        None => Err(empty("policy_subject.id"@)),
    }
}

impl ToJson for PolicySubject {
    open spec fn json(&self) -> JsonTree {
        JsonTree::Object(
            no_members().insert("kind"@, JsonTree::Text(self@.kind())).insert(
                "id"@,
                JsonTree::Text(self@.id()),
            ),
        )
    }

    fn to_json(&self) -> (r: serde_json::Value) {
        let mut members = json_new_object();
        json_insert(&mut members, "kind", json_text(self.kind_name()));
        json_insert(&mut members, "id", json_text(self.id_text()));
        json_object(members)
    }
}

impl PolicySubject {
    fn kind_name(&self) -> (r: &'static str)
        ensures
            r@ == self@.kind(),
    {
        match self {
            PolicySubject::Memory(_) => "memory",
            PolicySubject::Contract(_) => "contract",
            PolicySubject::Topology(_) => "topology",
        }
    }

    fn id_text(&self) -> (r: &str)
        ensures
            r@ == self@.id(),
    {
        match self {
            PolicySubject::Memory(id) => id.0.as_str(),
            PolicySubject::Contract(hash) => hash.as_str(),
            PolicySubject::Topology(id) => id.0.as_str(),
        }
    }

    pub open spec fn verdict(&self) -> Verdict {
        self@.verdict()
    }

    pub fn validate(&self) -> (r: Result<(), DomainError>)
        ensures
            outcome(r) == self.verdict(),
    {
        if is_blank(self.id_text()) {
            return Err(empty_field("policy_subject.id"));
        }
        Ok(())
    }

    pub fn subject_id(&self) -> (r: String)
        ensures
            r@ == self@.text(),
    {
        let kind = joined(self.kind_name(), ":");
        joined(&kind, self.id_text())
    }

    pub fn from_subject_id(value: &str) -> (r: Result<PolicySubject, DomainError>)
        ensures
            match r {
                Ok(subject) => subject_read(value@) == Ok::<SubjectView, ErrorView>(subject@),
                Err(e) => subject_read(value@) == Err::<SubjectView, ErrorView>(e@),
            },
    {
        let (kind, id) = match split_at_first(value, ':') {
            Some(parts) => parts,
            None => {
                return Err(empty_field("policy_subject.id"));
            },
        };
        let subject = if same_text(&kind, "memory") {
            PolicySubject::Memory(MemoryId(id))
        } else if same_text(&kind, "contract") {
            let hash = ContentHash::new(&id)?;
            proof {
                digest_is_not_blank(hash@);
            }
            PolicySubject::Contract(hash)
        } else if same_text(&kind, "topology") {
            PolicySubject::Topology(TopologyId(id))
        } else {
            return Err(empty_field("policy_subject.kind"));
        };
        subject.validate()?;
        Ok(subject)
    }

    /// The state that a subject starts in.
    pub fn initial_state(&self) -> (r: PolicyState)
        ensures
            r == self.first_state(),
    {
        match self {
            PolicySubject::Memory(_) => PolicyState::Memory(MemoryLifecycle::Candidate),
            PolicySubject::Contract(_) => PolicyState::Contract(CandidatePolicyState::Candidate),
            PolicySubject::Topology(_) => PolicyState::Topology(CandidatePolicyState::Candidate),
        }
    }

    pub open spec fn first_state(&self) -> PolicyState {
        match self {
            PolicySubject::Memory(_) => PolicyState::Memory(MemoryLifecycle::Candidate),
            PolicySubject::Contract(_) => PolicyState::Contract(CandidatePolicyState::Candidate),
            PolicySubject::Topology(_) => PolicyState::Topology(CandidatePolicyState::Candidate),
        }
    }

    /// The state is one of the subject's own kind.
    pub open spec fn has_state(&self, state: PolicyState) -> bool {
        match self {
            PolicySubject::Memory(_) => state is Memory,
            PolicySubject::Contract(_) => state is Contract,
            PolicySubject::Topology(_) => state is Topology,
        }
    }

    pub fn accepts_state(&self, state: PolicyState) -> (r: bool)
        ensures
            r == self.has_state(state),
    {
        match (self, state) {
            (PolicySubject::Memory(_), PolicyState::Memory(_)) => true,
            (PolicySubject::Contract(_), PolicyState::Contract(_)) => true,
            (PolicySubject::Topology(_), PolicyState::Topology(_)) => true,
            _ => false,
        }
    }
}

proof fn digest_is_not_blank(s: Seq<char>)
    requires
        is_digest(s),
    ensures
        !blank(s),
{
    assert(!crate::text::is_whitespace(s[0]));
}

/// A valid subject is read back from its own text. The hash of a contract is one that can be
/// a digest.
pub proof fn subject_text_round_trips(subject: SubjectView)
    requires
        subject.verdict() is Ok,
        subject is Contract ==> is_digest(subject.id()),
    ensures
        subject_read(subject.text()) == Ok::<SubjectView, ErrorView>(subject),
{
    reveal_strlit("memory");
    reveal_strlit("contract");
    reveal_strlit("topology");
    reveal_strlit(":");
    let kind = subject.kind();
    assert(!kind.contains(':')) by {
        assert forall|i: int| 0 <= i < kind.len() implies kind[i] != ':' by {}
    }
    assert(":"@ =~= seq![':']);
    assert(subject.text() =~= kind + seq![':'] + subject.id());
    cut_of_joined(kind, ':', subject.id());
    assert("memory"@.len() == 6 && "contract"@.len() == 8 && "topology"@.len() == 8);
    assert("contract"@[0] == 'c' && "topology"@[0] == 't');
}

/// Two valid subjects of different kinds never share a text.
pub proof fn subject_texts_differ(a: SubjectView, b: SubjectView)
    requires
        a.verdict() is Ok,
        b.verdict() is Ok,
        a is Contract ==> is_digest(a.id()),
        b is Contract ==> is_digest(b.id()),
        a.text() == b.text(),
    ensures
        a == b,
{
    subject_text_round_trips(a);
    subject_text_round_trips(b);
}

/// The state of a policy.
#[derive(Clone, Copy, Debug, PartialEq, Eq, Structural)]
pub enum PolicyState {
    Memory(MemoryLifecycle),
    Contract(CandidatePolicyState),
    Topology(CandidatePolicyState),
}

impl ToJson for PolicyState {
    open spec fn json(&self) -> JsonTree {
        let kind = match self {
            PolicyState::Memory(_) => "memory"@,
            PolicyState::Contract(_) => "contract"@,
            PolicyState::Topology(_) => "topology"@,
        };
        let state = match self {
            PolicyState::Memory(state) => state.json(),
            PolicyState::Contract(state) => state.json(),
            PolicyState::Topology(state) => state.json(),
        };
        JsonTree::Object(no_members().insert("kind"@, JsonTree::Text(kind)).insert("state"@, state))
    }

    fn to_json(&self) -> (r: serde_json::Value) {
        let kind = match self {
            PolicyState::Memory(_) => "memory",
            PolicyState::Contract(_) => "contract",
            PolicyState::Topology(_) => "topology",
        };
        let state = match self {
            PolicyState::Memory(state) => state.to_json(),
            PolicyState::Contract(state) => state.to_json(),
            PolicyState::Topology(state) => state.to_json(),
        };
        let mut members = json_new_object();
        json_insert(&mut members, "kind", json_text(kind));
        json_insert(&mut members, "state", state);
        json_object(members)
    }
}

impl PolicyState {
    /// The change takes influence away. That needs no evidence such as a grant of influence
    /// does.
    pub open spec fn restricts_to(self, to: PolicyState) -> bool {
        match to {
            PolicyState::Memory(state) => self is Memory && (state is Contested || state is Retired),
            PolicyState::Contract(state) => self is Contract && state is Candidate,
            PolicyState::Topology(state) => self is Topology && state is Candidate,
        }
    }

    pub fn is_restriction_to(self, to: PolicyState) -> (r: bool)
        ensures
            r == self.restricts_to(to),
    {
        match (self, to) {
            (PolicyState::Memory(_), PolicyState::Memory(MemoryLifecycle::Contested)) => true,
            (PolicyState::Memory(_), PolicyState::Memory(MemoryLifecycle::Retired)) => true,
            (PolicyState::Contract(_), PolicyState::Contract(CandidatePolicyState::Candidate)) => {
                true
            },
            (PolicyState::Topology(_), PolicyState::Topology(CandidatePolicyState::Candidate)) => {
                true
            },
            _ => false,
        }
    }

    /// A memory in force lends influence to its experience; a contract or a topology in force
    /// to its candidate.
    pub open spec fn lends_influence_to(self, kind: ArtifactKind) -> bool {
        match self {
            PolicyState::Memory(state) => (state is Active || state is Proven)
                && kind is Experience,
            PolicyState::Contract(state) => state is Active && kind is CandidatePolicy,
            PolicyState::Topology(state) => state is Active && kind is CandidatePolicy,
        }
    }

    pub fn permits_influence_kind(self, kind: ArtifactKind) -> (r: bool)
        ensures
            r == self.lends_influence_to(kind),
    {
        match self {
            PolicyState::Memory(MemoryLifecycle::Active) => kind == ArtifactKind::Experience,
            PolicyState::Memory(MemoryLifecycle::Proven) => kind == ArtifactKind::Experience,
            PolicyState::Contract(CandidatePolicyState::Active) => kind
                == ArtifactKind::CandidatePolicy,
            PolicyState::Topology(CandidatePolicyState::Active) => kind
                == ArtifactKind::CandidatePolicy,
            _ => false,
        }
    }
}

/// A state that was restricted to has no influence.
pub proof fn restriction_ends_influence(from: PolicyState, to: PolicyState, kind: ArtifactKind)
    requires
        from.restricts_to(to),
    ensures
        !to.lends_influence_to(kind),
{
}

/// A contract or a topology that is to be tried against the one in force.
#[derive(Debug, Clone, PartialEq, Eq)]
pub struct CandidatePolicy {
    pub schema_version: u32,
    pub subject: PolicySubject,
    pub baseline: ArtifactRef,
    pub candidate: ArtifactRef,
    pub source_evaluation: ArtifactRef,
    pub created_at: UtcTime,
}

impl CandidatePolicy {
    /// The two that are compared are what the subject is: never memories.
    pub open spec fn refs_verdict(&self) -> Verdict {
        match self.subject {
            PolicySubject::Memory(_) => Err(empty("candidate_policy.memory_subject"@)),
            PolicySubject::Contract(_) => demand(
                self.baseline.kind is Contract && self.candidate.kind is Contract,
                empty("candidate_policy.contract_refs"@),
            ),
            PolicySubject::Topology(_) => demand(
                self.baseline.kind is WorkflowGraph && self.candidate.kind is WorkflowGraph,
                empty("candidate_policy.topology_refs"@),
            ),
        }
    }

    pub open spec fn verdict(&self) -> Verdict {
        if self.schema_version != DOMAIN_SCHEMA_VERSION {
            Err(empty("candidate_policy.schema_version"@))
        } else if self.subject.verdict() is Err {
            self.subject.verdict()
        } else if self.baseline@ == self.candidate@ {
            Err(empty("candidate_policy.baseline_candidate"@))
        } else if !(self.source_evaluation.kind is Evaluation) {
            Err(empty("candidate_policy.source_evaluation"@))
        } else {
            self.refs_verdict()
        }
    }

    pub fn validate(&self) -> (r: Result<(), DomainError>)
        ensures
            outcome(r) == self.verdict(),
    {
        if self.schema_version != DOMAIN_SCHEMA_VERSION {
            return Err(empty_field("candidate_policy.schema_version"));
        }
        self.subject.validate()?;
        if self.baseline.same(&self.candidate) {
            return Err(empty_field("candidate_policy.baseline_candidate"));
        }
        if self.source_evaluation.kind != ArtifactKind::Evaluation {
            return Err(empty_field("candidate_policy.source_evaluation"));
        }
        match &self.subject {
            PolicySubject::Memory(_) => Err(empty_field("candidate_policy.memory_subject")),
            PolicySubject::Contract(_) => {
                if self.baseline.kind != ArtifactKind::Contract || self.candidate.kind
                    != ArtifactKind::Contract {
                    return Err(empty_field("candidate_policy.contract_refs"));
                }
                Ok(())
            },
            PolicySubject::Topology(_) => {
                if self.baseline.kind != ArtifactKind::WorkflowGraph || self.candidate.kind
                    != ArtifactKind::WorkflowGraph {
                    return Err(empty_field("candidate_policy.topology_refs"));
                }
                Ok(())
            },
        }
    }
}

/// Who made what an experience is about, and whether it may be learned from. Where there is
/// none, nothing is known and nothing may be learned.
#[derive(Debug, Clone, PartialEq, Eq)]
pub struct ExperienceEvaluationContext {
    pub version: u32,
    pub producer_run_id: RunId,
    pub producer_workflow: ArtifactRef,
    pub producer_workflow_revision: u64,
    pub producer_contract_hashes: OrderedSet<ContentHash>,
    pub evaluator_contract_hash: Option<ContentHash>,
    pub metric_basis: Option<OutcomeMetricBasis>,
    pub market_window_complete: bool,
    pub research_sufficient: bool,
    pub retrospective_valid: bool,
    pub risk_ground_truth_measured: bool,
    pub learning_eligible: bool,
}

impl ExperienceEvaluationContext {
    /// The contract is one of the producer's, and learning is allowed only where everything
    /// was complete.
    pub open spec fn is_sound(&self, contract_hash: Seq<char>) -> bool {
        &&& self.version == 1
        &&& self.producer_run_id@.len() > 0
        &&& self.producer_workflow.kind is WorkflowGraph
        &&& self.producer_contract_hashes@.contains(contract_hash)
        &&& self.metric_basis is Some
        &&& self.learning_eligible ==> self.market_window_complete && self.research_sufficient
            && self.retrospective_valid && self.risk_ground_truth_measured
    }

    fn fits(&self, contract_hash: &ContentHash) -> (r: bool)
        ensures
            r == self.is_sound(contract_hash@),
    {
        self.version == 1 && !self.producer_run_id.0.as_str().is_empty()
            && self.producer_workflow.kind == ArtifactKind::WorkflowGraph
            && self.producer_contract_hashes.contains(contract_hash) && self.metric_basis.is_some()
            && (!self.learning_eligible || (self.market_window_complete && self.research_sufficient
            && self.retrospective_valid && self.risk_ground_truth_measured))
    }
}

/// What a run showed of a policy.
#[derive(Debug, Clone, PartialEq, Eq)]
pub struct Experience {
    pub schema_version: u32,
    pub experience_id: ExperienceId,
    pub subject: PolicySubject,
    pub hypothesis_id: String,
    pub decision: ArtifactRef,
    pub decision_context: ArtifactRef,
    pub execution_context: ArtifactRef,
    pub policy_verdict: ArtifactRef,
    pub outcome: ArtifactRef,
    pub contract_hash: ContentHash,
    pub topology_id: TopologyId,
    pub evaluation_context: Option<ExperienceEvaluationContext>,
    pub policy_state: PolicyState,
    pub created_at: UtcTime,
}

impl Experience {
    /// Without a context of its own the subject is what the run used.
    pub open spec fn subject_verdict(&self) -> Verdict {
        if self.evaluation_context is Some {
            Ok(())
        } else {
            match self.subject {
                PolicySubject::Contract(hash) => demand(
                    hash@ == self.contract_hash@,
                    empty("experience.contract_subject"@),
                ),
                PolicySubject::Topology(id) => demand(
                    id@ == self.topology_id@,
                    empty("experience.topology_subject"@),
                ),
                PolicySubject::Memory(_) => Ok(()),
            }
        }
    }

    pub open spec fn references_are_sound(&self) -> bool {
        &&& self.decision.kind is Decision
        &&& self.decision_context.kind is DecisionContext
        &&& self.execution_context.kind is ExecutionContext
        &&& self.policy_verdict.kind is ExecutionVerdict
        &&& self.outcome.kind is Outcome
    }

    pub open spec fn verdict(&self) -> Verdict {
        if self.schema_version != DOMAIN_SCHEMA_VERSION || blank(self.experience_id@) || blank(
            self.hypothesis_id@,
        ) || blank(self.topology_id@) {
            Err(empty("experience.identity"@))
        } else if self.subject.verdict() is Err {
            self.subject.verdict()
        } else if !self.subject.has_state(self.policy_state) {
            Err(empty("experience.policy_state"@))
        } else if self.subject_verdict() is Err {
            self.subject_verdict()
        } else if self.evaluation_context matches Some(context) && !context.is_sound(
            self.contract_hash@,
        ) {
            Err(empty("experience.evaluation_context"@))
        } else {
            demand(self.references_are_sound(), empty("experience.references"@))
        }
    }

    pub fn validate(&self) -> (r: Result<(), DomainError>)
        ensures
            outcome(r) == self.verdict(),
    {
        if self.schema_version != DOMAIN_SCHEMA_VERSION || is_blank(&self.experience_id.0)
            || is_blank(&self.hypothesis_id) || is_blank(&self.topology_id.0) {
            return Err(empty_field("experience.identity"));
        }
        self.subject.validate()?;
        if !self.subject.accepts_state(self.policy_state) {
            return Err(empty_field("experience.policy_state"));
        }
        if self.evaluation_context.is_none() {
            match &self.subject {
                PolicySubject::Contract(hash) => {
                    if !hash.same(&self.contract_hash) {
                        return Err(empty_field("experience.contract_subject"));
                    }
                },
                PolicySubject::Topology(id) => {
                    if id.0 != self.topology_id.0 {
                        return Err(empty_field("experience.topology_subject"));
                    }
                },
                PolicySubject::Memory(_) => {},
            }
        }
        if let Some(context) = &self.evaluation_context {
            if !context.fits(&self.contract_hash) {
                return Err(empty_field("experience.evaluation_context"));
            }
        }
        if self.decision.kind != ArtifactKind::Decision || self.decision_context.kind
            != ArtifactKind::DecisionContext || self.execution_context.kind
            != ArtifactKind::ExecutionContext || self.policy_verdict.kind
            != ArtifactKind::ExecutionVerdict || self.outcome.kind != ArtifactKind::Outcome {
            return Err(empty_field("experience.references"));
        }
        Ok(())
    }
}

/// A valid experience is learned from only where the market window, the research, the
/// retrospective and the risks were all in order.
pub proof fn learning_needs_a_complete_outcome(experience: Experience)
    requires
        experience.verdict() is Ok,
        experience.evaluation_context is Some,
        experience.evaluation_context->0.learning_eligible,
    ensures
        experience.evaluation_context->0.market_window_complete,
        experience.evaluation_context->0.research_sufficient,
        experience.evaluation_context->0.retrospective_valid,
        experience.evaluation_context->0.risk_ground_truth_measured,
{
}

/// What an experience was worth.
#[derive(Debug, Clone, PartialEq, Eq)]
pub struct Evaluation {
    pub schema_version: u32,
    pub evaluation_id: EvaluationId,
    pub outcome: ArtifactRef,
    pub experience: ArtifactRef,
    pub marginal_utility_ppm: i64,
    pub token_cost: Option<u64>,
    pub latency_millis: Option<u64>,
    pub created_at: UtcTime,
}

impl Evaluation {
    pub open spec fn verdict(&self) -> Verdict {
        first(
            demand(
                self.schema_version == DOMAIN_SCHEMA_VERSION && !blank(self.evaluation_id@),
                empty("evaluation.identity"@),
            ),
            demand(
                self.outcome.kind is Outcome && self.experience.kind is Experience,
                empty("evaluation.references"@),
            ),
        )
    }

    pub fn validate(&self) -> (r: Result<(), DomainError>)
        ensures
            outcome(r) == self.verdict(),
    {
        if self.schema_version != DOMAIN_SCHEMA_VERSION || is_blank(&self.evaluation_id.0) {
            return Err(empty_field("evaluation.identity"));
        }
        if self.outcome.kind != ArtifactKind::Outcome || self.experience.kind
            != ArtifactKind::Experience {
            return Err(empty_field("evaluation.references"));
        }
        Ok(())
    }
}

/// A change of the state of a policy.
#[derive(Debug, Clone, PartialEq, Eq)]
pub struct PolicyTransition {
    pub schema_version: u32,
    pub transition_id: PolicyTransitionId,
    pub subject: PolicySubject,
    pub from: PolicyState,
    pub to: PolicyState,
    pub evaluation: ArtifactRef,
    pub created_at: UtcTime,
}

impl PolicyTransition {
    pub open spec fn verdict(&self) -> Verdict {
        if self.schema_version != DOMAIN_SCHEMA_VERSION || blank(self.transition_id@) || self.from
            == self.to || !(self.evaluation.kind is Evaluation) {
            Err(empty("policy_transition"@))
        } else if self.subject.verdict() is Err {
            self.subject.verdict()
        } else {
            demand(
                self.subject.has_state(self.from) && self.subject.has_state(self.to),
                empty("policy_transition.subject_state"@),
            )
        }
    }

    pub fn validate(&self) -> (r: Result<(), DomainError>)
        ensures
            outcome(r) == self.verdict(),
    {
        if self.schema_version != DOMAIN_SCHEMA_VERSION || is_blank(&self.transition_id.0)
            || self.from == self.to || self.evaluation.kind != ArtifactKind::Evaluation {
            return Err(empty_field("policy_transition"));
        }
        self.subject.validate()?;
        if !self.subject.accepts_state(self.from) || !self.subject.accepts_state(self.to) {
            return Err(empty_field("policy_transition.subject_state"));
        }
        Ok(())
    }
}

/// What a subject view is refused with: the first fault that it has.
pub proof fn refusal_of_subject_view_names_its_fault(this: SubjectView)
    ensures
        !(!blank(this.id())) ==> this.verdict() == Verdict::Err(empty("policy_subject.id"@)),
{
}

/// What a candidate policy is refused with: the first fault that it has.
pub proof fn refusal_of_candidate_policy_names_its_fault(this: CandidatePolicy)
    ensures
        (this.schema_version != DOMAIN_SCHEMA_VERSION)
            ==> this.verdict() == Verdict::Err(empty("candidate_policy.schema_version"@)),
        !(this.schema_version != DOMAIN_SCHEMA_VERSION) && this.subject.verdict() is Ok
            && (this.baseline@ == this.candidate@)
            ==> this.verdict() == Verdict::Err(empty("candidate_policy.baseline_candidate"@)),
        !(this.schema_version != DOMAIN_SCHEMA_VERSION) && this.subject.verdict() is Ok
            && !(this.baseline@ == this.candidate@)
            && (!(this.source_evaluation.kind is Evaluation))
            ==> this.verdict() == Verdict::Err(empty("candidate_policy.source_evaluation"@)),
{
}

/// What an experience is refused with: the first fault that it has.
pub proof fn refusal_of_experience_names_its_fault(this: Experience)
    ensures
        (this.schema_version != DOMAIN_SCHEMA_VERSION || blank(this.experience_id@)
            || blank(this.hypothesis_id@) || blank(this.topology_id@))
            ==> this.verdict() == Verdict::Err(empty("experience.identity"@)),
        !(this.schema_version != DOMAIN_SCHEMA_VERSION || blank(this.experience_id@)
            || blank(this.hypothesis_id@) || blank(this.topology_id@))
            && this.subject.verdict() is Ok && (!this.subject.has_state(this.policy_state))
            ==> this.verdict() == Verdict::Err(empty("experience.policy_state"@)),
        !(this.schema_version != DOMAIN_SCHEMA_VERSION || blank(this.experience_id@)
            || blank(this.hypothesis_id@) || blank(this.topology_id@))
            && this.subject.verdict() is Ok && !(!this.subject.has_state(this.policy_state))
            && this.subject_verdict() is Ok && (this.evaluation_context matches Some(context)
            && !context.is_sound(this.contract_hash@))
            ==> this.verdict() == Verdict::Err(empty("experience.evaluation_context"@)),
        !(this.schema_version != DOMAIN_SCHEMA_VERSION || blank(this.experience_id@)
            || blank(this.hypothesis_id@) || blank(this.topology_id@))
            && this.subject.verdict() is Ok && !(!this.subject.has_state(this.policy_state))
            && this.subject_verdict() is Ok && !(this.evaluation_context matches Some(context)
            && !context.is_sound(this.contract_hash@)) && !(this.references_are_sound())
            ==> this.verdict() == Verdict::Err(empty("experience.references"@)),
{
}

/// What an evaluation is refused with: the first fault that it has.
pub proof fn refusal_of_evaluation_names_its_fault(this: Evaluation)
    ensures
        !(this.schema_version == DOMAIN_SCHEMA_VERSION && !blank(this.evaluation_id@))
            ==> this.verdict() == Verdict::Err(empty("evaluation.identity"@)),
        (this.schema_version == DOMAIN_SCHEMA_VERSION && !blank(this.evaluation_id@))
            && !(this.outcome.kind is Outcome && this.experience.kind is Experience)
            ==> this.verdict() == Verdict::Err(empty("evaluation.references"@)),
{
}

/// What a policy transition is refused with: the first fault that it has.
pub proof fn refusal_of_policy_transition_names_its_fault(this: PolicyTransition)
    ensures
        (this.schema_version != DOMAIN_SCHEMA_VERSION || blank(this.transition_id@)
            || this.from == this.to || !(this.evaluation.kind is Evaluation))
            ==> this.verdict() == Verdict::Err(empty("policy_transition"@)),
        !(this.schema_version != DOMAIN_SCHEMA_VERSION || blank(this.transition_id@)
            || this.from == this.to || !(this.evaluation.kind is Evaluation))
            && this.subject.verdict() is Ok && !(this.subject.has_state(this.from)
            && this.subject.has_state(this.to))
            ==> this.verdict() == Verdict::Err(empty("policy_transition.subject_state"@)),
{
}

} // verus!
