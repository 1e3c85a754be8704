//! The evidence that a release rests on, how far it goes, and what keeps it from being approved.
use crate::artifact::{refs_all_cite, refs_all_have_kind, ArtifactKind, ArtifactRef, RefView};
use crate::canary::CanaryCampaignStatus;
use crate::compound::{
    joined_codes, number_part, numbers_settle, rank_counts, text_part, texts_settle, JsonPart, Part,
};
use crate::error::{
    demand, empty, empty_field, first, outcome, DomainError, ErrorView, Verdict,
};
use crate::evaluation::outcome::OutcomeHorizon;
use crate::evaluation::policy::PolicyState;
use crate::foundation::{digest_of, is_digest, json_digest, ContentHash, RunId, RunPurpose};
use crate::json::{
    json_insert, json_new_object, json_object, json_text, no_members, JsonItem, JsonTree, ToJson,
};
use crate::lists::all_of;
use crate::ordered::{listing, Key, OrderedMap, OrderedSet, Rank};
use crate::text::{
    blank, is_blank, rank_texts, same_text, text_code, text_code_is_injective,
};
use crate::time::{CalendarDay, UtcTime};
use crate::workflow::WorkflowGraph;
use crate::DOMAIN_SCHEMA_VERSION;
use vstd::prelude::*;

verus! {

pub const RELEASE_EVIDENCE_BUNDLE_VERSION: u32 = 2;

/// Where the evidence comes from.
#[derive(Clone, Copy, Debug, PartialEq, Eq, PartialOrd, Ord, Hash, Structural)]
pub enum ReleaseEvidenceEnvironment {
    OfflineFixture,
    Real,
}

impl ReleaseEvidenceEnvironment {
    /// The name of the variant in JSON.
    pub open spec fn wire(self) -> Seq<char> {
        match self {
            ReleaseEvidenceEnvironment::OfflineFixture => "offline_fixture"@,
            ReleaseEvidenceEnvironment::Real => "real"@,
        }
    }

    /// The name of the variant in JSON.
    pub fn wire_name(self) -> (r: &'static str)
        ensures
            r@ == self.wire(),
    {
        match self {
            ReleaseEvidenceEnvironment::OfflineFixture => "offline_fixture",
            ReleaseEvidenceEnvironment::Real => "real",
        }
    }
}

impl ToJson for ReleaseEvidenceEnvironment {
    open spec fn json(&self) -> JsonTree {
        JsonTree::Text(self.wire())
    }

    fn to_json(&self) -> (r: serde_json::Value) {
        json_text(self.wire_name())
    }
}

/// Whether a release can be approved.
#[derive(Clone, Copy, Debug, PartialEq, Eq, PartialOrd, Ord, Hash, Structural)]
pub enum ReleaseEvidenceStatus {
    Approvable,
    Incomplete,
    NotApprovable,
}

impl ReleaseEvidenceStatus {
    /// The name of the variant in JSON.
    pub open spec fn wire(self) -> Seq<char> {
        match self {
            ReleaseEvidenceStatus::Approvable => "approvable"@,
            ReleaseEvidenceStatus::Incomplete => "incomplete"@,
            ReleaseEvidenceStatus::NotApprovable => "not_approvable"@,
        }
    }

    /// The name of the variant in JSON.
    pub fn wire_name(self) -> (r: &'static str)
        ensures
            r@ == self.wire(),
    {
        match self {
            ReleaseEvidenceStatus::Approvable => "approvable",
            ReleaseEvidenceStatus::Incomplete => "incomplete",
            ReleaseEvidenceStatus::NotApprovable => "not_approvable",
        }
    }
}

impl ToJson for ReleaseEvidenceStatus {
    open spec fn json(&self) -> JsonTree {
        JsonTree::Text(self.wire())
    }

    fn to_json(&self) -> (r: serde_json::Value) {
        json_text(self.wire_name())
    }
}

/// How far the evidence goes.
#[derive(Clone, Copy, Debug, PartialEq, Eq, PartialOrd, Ord, Hash, Structural)]
pub enum ReleaseEvidenceTier {
    E0Fixture,
    E1HistoricalReplay,
    E2PaperMechanics,
    E3ForwardPaper,
    E4Robustness,
}

impl ReleaseEvidenceTier {
    /// The name of the variant in JSON.
    pub open spec fn wire(self) -> Seq<char> {
        match self {
            ReleaseEvidenceTier::E0Fixture => "e0_fixture"@,
            ReleaseEvidenceTier::E1HistoricalReplay => "e1_historical_replay"@,
            ReleaseEvidenceTier::E2PaperMechanics => "e2_paper_mechanics"@,
            ReleaseEvidenceTier::E3ForwardPaper => "e3_forward_paper"@,
            ReleaseEvidenceTier::E4Robustness => "e4_robustness"@,
        }
    }

    /// The name of the variant in JSON.
    pub fn wire_name(self) -> (r: &'static str)
        ensures
            r@ == self.wire(),
    {
        match self {
            ReleaseEvidenceTier::E0Fixture => "e0_fixture",
            ReleaseEvidenceTier::E1HistoricalReplay => "e1_historical_replay",
            ReleaseEvidenceTier::E2PaperMechanics => "e2_paper_mechanics",
            ReleaseEvidenceTier::E3ForwardPaper => "e3_forward_paper",
            ReleaseEvidenceTier::E4Robustness => "e4_robustness",
        }
    }
}

impl ToJson for ReleaseEvidenceTier {
    open spec fn json(&self) -> JsonTree {
        JsonTree::Text(self.wire())
    }

    fn to_json(&self) -> (r: serde_json::Value) {
        json_text(self.wire_name())
    }
}

/// Whether the broker was a real one.
#[derive(Clone, Copy, Debug, PartialEq, Eq, PartialOrd, Ord, Hash, Structural)]
pub enum ReleaseBrokerEvidenceTrust {
    OfflineFixture,
    RealBroker,
}

impl ReleaseBrokerEvidenceTrust {
    /// The name of the variant in JSON.
    pub open spec fn wire(self) -> Seq<char> {
        match self {
            ReleaseBrokerEvidenceTrust::OfflineFixture => "offline_fixture"@,
            ReleaseBrokerEvidenceTrust::RealBroker => "real_broker"@,
        }
    }

    /// The name of the variant in JSON.
    pub fn wire_name(self) -> (r: &'static str)
        ensures
            r@ == self.wire(),
    {
        match self {
            ReleaseBrokerEvidenceTrust::OfflineFixture => "offline_fixture",
            ReleaseBrokerEvidenceTrust::RealBroker => "real_broker",
        }
    }
}

impl ToJson for ReleaseBrokerEvidenceTrust {
    open spec fn json(&self) -> JsonTree {
        JsonTree::Text(self.wire())
    }

    fn to_json(&self) -> (r: serde_json::Value) {
        json_text(self.wire_name())
    }
}

/// What a person said of the release.
#[derive(Clone, Copy, Debug, PartialEq, Eq, PartialOrd, Ord, Hash, Structural)]
pub enum ReleaseHumanApprovalStatus {
    Approved,
    Pending,
    Rejected,
}

impl ReleaseHumanApprovalStatus {
    /// The name of the variant in JSON.
    pub open spec fn wire(self) -> Seq<char> {
        match self {
            ReleaseHumanApprovalStatus::Approved => "approved"@,
            ReleaseHumanApprovalStatus::Pending => "pending"@,
            ReleaseHumanApprovalStatus::Rejected => "rejected"@,
        }
    }

    /// The name of the variant in JSON.
    pub fn wire_name(self) -> (r: &'static str)
        ensures
            r@ == self.wire(),
    {
        match self {
            ReleaseHumanApprovalStatus::Approved => "approved",
            ReleaseHumanApprovalStatus::Pending => "pending",
            ReleaseHumanApprovalStatus::Rejected => "rejected",
        }
    }
}

impl ToJson for ReleaseHumanApprovalStatus {
    open spec fn json(&self) -> JsonTree {
        JsonTree::Text(self.wire())
    }

    fn to_json(&self) -> (r: serde_json::Value) {
        json_text(self.wire_name())
    }
}

/// What was decided on research after its outcome.
#[derive(Clone, Copy, Debug, PartialEq, Eq, PartialOrd, Ord, Hash, Structural)]
pub enum ResearchApprovalDecision {
    Approved,
    Rejected,
}

impl ResearchApprovalDecision {
    /// The name of the variant in JSON.
    pub open spec fn wire(self) -> Seq<char> {
        match self {
            ResearchApprovalDecision::Approved => "approved"@,
            ResearchApprovalDecision::Rejected => "rejected"@,
        }
    }

    /// The name of the variant in JSON.
    pub fn wire_name(self) -> (r: &'static str)
        ensures
            r@ == self.wire(),
    {
        match self {
            ResearchApprovalDecision::Approved => "approved",
            ResearchApprovalDecision::Rejected => "rejected",
        }
    }
}

impl ToJson for ResearchApprovalDecision {
    open spec fn json(&self) -> JsonTree {
        JsonTree::Text(self.wire())
    }

    fn to_json(&self) -> (r: serde_json::Value) {
        json_text(self.wire_name())
    }
}

/// The code of a reason for such a decision.
#[derive(Debug, PartialEq, Eq, PartialOrd, Ord, Hash)]
pub struct ResearchApprovalReason(pub String);

impl View for ResearchApprovalReason {
    type V = Seq<char>;

    open spec fn view(&self) -> Seq<char> {
        self.0@
    }
}

impl Clone for ResearchApprovalReason {
    fn clone(&self) -> (r: Self)
        ensures
            r == *self,
    {
        ResearchApprovalReason(self.0.clone())
    }
}

impl Key for ResearchApprovalReason {
    open spec fn code(key: Seq<char>) -> Seq<int> {
        text_code(key)
    }

    proof fn code_is_injective(a: Seq<char>, b: Seq<char>) {
        text_code_is_injective(a, b);
    }

    fn rank(&self, other: &Self) -> (r: Rank) {
        rank_texts(&self.0, &other.0)
    }

    fn duplicate(&self) -> (r: Self) {
        self.clone()
    }
}

impl JsonItem for ResearchApprovalReason {
    open spec fn item_json(key: Seq<char>) -> JsonTree {
        JsonTree::Text(key)
    }

    fn to_item_json(&self) -> (r: serde_json::Value) {
        json_text(&self.0)
    }
}

/// What keeps a release from being approved.
#[derive(Debug, PartialEq, Eq, PartialOrd, Ord)]
pub enum ReleaseEvidenceIssue {
    NonCanonicalRun { purpose: String },
    DirtyWorktree,
    OfflineFixture,
    FakeBrokerEvidence,
    MissingRuntimeManifest,
    MissingWorkflow,
    MissingContracts,
    MissingProviderCapability,
    MissingSourceSnapshots,
    MissingBrokerEvidence,
    MissingSessionSlot,
    MissingDaemonLease,
    MissingExecution,
    MissingReconciliation,
    MissingOutcome { horizon: OutcomeHorizon },
    MissingLearningTransition,
    MissingHumanApproval,
    HumanApprovalNotApproved,
    ConfigHashDrift,
    WorkflowHashDrift,
    BrokerAccountMismatch,
    StaleDaemonEpoch,
    EngineeringOnlyProfile { profile: String },
    UnsupportedResearchFeed { feed: String },
    MissingModelKnowledgeCutoff,
}

/// An issue with its texts as sequences of characters.
pub ghost enum IssueView {
    NonCanonicalRun { purpose: Seq<char> },
    DirtyWorktree,
    OfflineFixture,
    FakeBrokerEvidence,
    MissingRuntimeManifest,
    MissingWorkflow,
    MissingContracts,
    MissingProviderCapability,
    MissingSourceSnapshots,
    MissingBrokerEvidence,
    MissingSessionSlot,
    MissingDaemonLease,
    MissingExecution,
    MissingReconciliation,
    MissingOutcome { horizon: OutcomeHorizon },
    MissingLearningTransition,
    MissingHumanApproval,
    HumanApprovalNotApproved,
    ConfigHashDrift,
    WorkflowHashDrift,
    BrokerAccountMismatch,
    StaleDaemonEpoch,
    EngineeringOnlyProfile { profile: Seq<char> },
    UnsupportedResearchFeed { feed: Seq<char> },
    MissingModelKnowledgeCutoff,
}

impl View for ReleaseEvidenceIssue {
    type V = IssueView;

    open spec fn view(&self) -> IssueView {
        match self {
            ReleaseEvidenceIssue::NonCanonicalRun { purpose } => IssueView::NonCanonicalRun { purpose: purpose@ },
            ReleaseEvidenceIssue::DirtyWorktree => IssueView::DirtyWorktree,
            ReleaseEvidenceIssue::OfflineFixture => IssueView::OfflineFixture,
            ReleaseEvidenceIssue::FakeBrokerEvidence => IssueView::FakeBrokerEvidence,
            ReleaseEvidenceIssue::MissingRuntimeManifest => IssueView::MissingRuntimeManifest,
            ReleaseEvidenceIssue::MissingWorkflow => IssueView::MissingWorkflow,
            ReleaseEvidenceIssue::MissingContracts => IssueView::MissingContracts,
            ReleaseEvidenceIssue::MissingProviderCapability => IssueView::MissingProviderCapability,
            ReleaseEvidenceIssue::MissingSourceSnapshots => IssueView::MissingSourceSnapshots,
            ReleaseEvidenceIssue::MissingBrokerEvidence => IssueView::MissingBrokerEvidence,
            ReleaseEvidenceIssue::MissingSessionSlot => IssueView::MissingSessionSlot,
            ReleaseEvidenceIssue::MissingDaemonLease => IssueView::MissingDaemonLease,
            ReleaseEvidenceIssue::MissingExecution => IssueView::MissingExecution,
            ReleaseEvidenceIssue::MissingReconciliation => IssueView::MissingReconciliation,
            ReleaseEvidenceIssue::MissingOutcome { horizon } => IssueView::MissingOutcome { horizon: *horizon },
            ReleaseEvidenceIssue::MissingLearningTransition => IssueView::MissingLearningTransition,
            ReleaseEvidenceIssue::MissingHumanApproval => IssueView::MissingHumanApproval,
            ReleaseEvidenceIssue::HumanApprovalNotApproved => IssueView::HumanApprovalNotApproved,
            ReleaseEvidenceIssue::ConfigHashDrift => IssueView::ConfigHashDrift,
            ReleaseEvidenceIssue::WorkflowHashDrift => IssueView::WorkflowHashDrift,
            ReleaseEvidenceIssue::BrokerAccountMismatch => IssueView::BrokerAccountMismatch,
            ReleaseEvidenceIssue::StaleDaemonEpoch => IssueView::StaleDaemonEpoch,
            ReleaseEvidenceIssue::EngineeringOnlyProfile { profile } => IssueView::EngineeringOnlyProfile { profile: profile@ },
            ReleaseEvidenceIssue::UnsupportedResearchFeed { feed } => IssueView::UnsupportedResearchFeed { feed: feed@ },
            ReleaseEvidenceIssue::MissingModelKnowledgeCutoff => IssueView::MissingModelKnowledgeCutoff,
        }
    }
}

impl Clone for ReleaseEvidenceIssue {
    fn clone(&self) -> (r: Self)
        ensures
            r@ == self@,
    {
        match self {
            ReleaseEvidenceIssue::NonCanonicalRun { purpose } => ReleaseEvidenceIssue::NonCanonicalRun {
                purpose: purpose.clone(),
            },
            ReleaseEvidenceIssue::DirtyWorktree => ReleaseEvidenceIssue::DirtyWorktree,
            ReleaseEvidenceIssue::OfflineFixture => ReleaseEvidenceIssue::OfflineFixture,
            ReleaseEvidenceIssue::FakeBrokerEvidence => ReleaseEvidenceIssue::FakeBrokerEvidence,
            ReleaseEvidenceIssue::MissingRuntimeManifest => ReleaseEvidenceIssue::MissingRuntimeManifest,
            ReleaseEvidenceIssue::MissingWorkflow => ReleaseEvidenceIssue::MissingWorkflow,
            ReleaseEvidenceIssue::MissingContracts => ReleaseEvidenceIssue::MissingContracts,
            ReleaseEvidenceIssue::MissingProviderCapability => ReleaseEvidenceIssue::MissingProviderCapability,
            ReleaseEvidenceIssue::MissingSourceSnapshots => ReleaseEvidenceIssue::MissingSourceSnapshots,
            ReleaseEvidenceIssue::MissingBrokerEvidence => ReleaseEvidenceIssue::MissingBrokerEvidence,
            ReleaseEvidenceIssue::MissingSessionSlot => ReleaseEvidenceIssue::MissingSessionSlot,
            ReleaseEvidenceIssue::MissingDaemonLease => ReleaseEvidenceIssue::MissingDaemonLease,
            ReleaseEvidenceIssue::MissingExecution => ReleaseEvidenceIssue::MissingExecution,
            ReleaseEvidenceIssue::MissingReconciliation => ReleaseEvidenceIssue::MissingReconciliation,
            ReleaseEvidenceIssue::MissingOutcome { horizon } => ReleaseEvidenceIssue::MissingOutcome { horizon: *horizon },
            ReleaseEvidenceIssue::MissingLearningTransition => ReleaseEvidenceIssue::MissingLearningTransition,
            ReleaseEvidenceIssue::MissingHumanApproval => ReleaseEvidenceIssue::MissingHumanApproval,
            ReleaseEvidenceIssue::HumanApprovalNotApproved => ReleaseEvidenceIssue::HumanApprovalNotApproved,
            ReleaseEvidenceIssue::ConfigHashDrift => ReleaseEvidenceIssue::ConfigHashDrift,
            ReleaseEvidenceIssue::WorkflowHashDrift => ReleaseEvidenceIssue::WorkflowHashDrift,
            ReleaseEvidenceIssue::BrokerAccountMismatch => ReleaseEvidenceIssue::BrokerAccountMismatch,
            ReleaseEvidenceIssue::StaleDaemonEpoch => ReleaseEvidenceIssue::StaleDaemonEpoch,
            ReleaseEvidenceIssue::EngineeringOnlyProfile { profile } => ReleaseEvidenceIssue::EngineeringOnlyProfile {
                profile: profile.clone(),
            },
            ReleaseEvidenceIssue::UnsupportedResearchFeed { feed } => ReleaseEvidenceIssue::UnsupportedResearchFeed {
                feed: feed.clone(),
            },
            ReleaseEvidenceIssue::MissingModelKnowledgeCutoff => ReleaseEvidenceIssue::MissingModelKnowledgeCutoff,
        }
    }
}

impl IssueView {
    /// Where the variant stands in the order.
    pub open spec fn place(self) -> int {
        match self {
            IssueView::NonCanonicalRun { .. } => 0,
            IssueView::DirtyWorktree => 1,
            IssueView::OfflineFixture => 2,
            IssueView::FakeBrokerEvidence => 3,
            IssueView::MissingRuntimeManifest => 4,
            IssueView::MissingWorkflow => 5,
            IssueView::MissingContracts => 6,
            IssueView::MissingProviderCapability => 7,
            IssueView::MissingSourceSnapshots => 8,
            IssueView::MissingBrokerEvidence => 9,
            IssueView::MissingSessionSlot => 10,
            IssueView::MissingDaemonLease => 11,
            IssueView::MissingExecution => 12,
            IssueView::MissingReconciliation => 13,
            IssueView::MissingOutcome { .. } => 14,
            IssueView::MissingLearningTransition => 15,
            IssueView::MissingHumanApproval => 16,
            IssueView::HumanApprovalNotApproved => 17,
            IssueView::ConfigHashDrift => 18,
            IssueView::WorkflowHashDrift => 19,
            IssueView::BrokerAccountMismatch => 20,
            IssueView::StaleDaemonEpoch => 21,
            IssueView::EngineeringOnlyProfile { .. } => 22,
            IssueView::UnsupportedResearchFeed { .. } => 23,
            IssueView::MissingModelKnowledgeCutoff => 24,
        }
    }

    /// The name of the variant in JSON.
    pub open spec fn code_name(self) -> Seq<char> {
        match self {
            IssueView::NonCanonicalRun { .. } => "non_canonical_run"@,
            IssueView::DirtyWorktree => "dirty_worktree"@,
            IssueView::OfflineFixture => "offline_fixture"@,
            IssueView::FakeBrokerEvidence => "fake_broker_evidence"@,
            IssueView::MissingRuntimeManifest => "missing_runtime_manifest"@,
            IssueView::MissingWorkflow => "missing_workflow"@,
            IssueView::MissingContracts => "missing_contracts"@,
            IssueView::MissingProviderCapability => "missing_provider_capability"@,
            IssueView::MissingSourceSnapshots => "missing_source_snapshots"@,
            IssueView::MissingBrokerEvidence => "missing_broker_evidence"@,
            IssueView::MissingSessionSlot => "missing_session_slot"@,
            IssueView::MissingDaemonLease => "missing_daemon_lease"@,
            IssueView::MissingExecution => "missing_execution"@,
            IssueView::MissingReconciliation => "missing_reconciliation"@,
            IssueView::MissingOutcome { .. } => "missing_outcome"@,
            IssueView::MissingLearningTransition => "missing_learning_transition"@,
            IssueView::MissingHumanApproval => "missing_human_approval"@,
            IssueView::HumanApprovalNotApproved => "human_approval_not_approved"@,
            IssueView::ConfigHashDrift => "config_hash_drift"@,
            IssueView::WorkflowHashDrift => "workflow_hash_drift"@,
            IssueView::BrokerAccountMismatch => "broker_account_mismatch"@,
            IssueView::StaleDaemonEpoch => "stale_daemon_epoch"@,
            IssueView::EngineeringOnlyProfile { .. } => "engineering_only_profile"@,
            IssueView::UnsupportedResearchFeed { .. } => "unsupported_research_feed"@,
            IssueView::MissingModelKnowledgeCutoff => "missing_model_knowledge_cutoff"@,
        }
    }

    /// What the variant holds, as it enters the order.
    pub open spec fn payload(self) -> Seq<int> {
        match self {
            IssueView::NonCanonicalRun { purpose } => text_part(purpose),
            IssueView::MissingOutcome { horizon } => number_part(horizon.place() as int),
            IssueView::EngineeringOnlyProfile { profile } => text_part(profile),
            IssueView::UnsupportedResearchFeed { feed } => text_part(feed),
            _ => Seq::empty(),
        }
    }
}

impl ReleaseEvidenceIssue {
    fn place_number(&self) -> (r: u64)
        ensures
            r == self@.place(),
    {
        match self {
            ReleaseEvidenceIssue::NonCanonicalRun { .. } => 0,
            ReleaseEvidenceIssue::DirtyWorktree => 1,
            ReleaseEvidenceIssue::OfflineFixture => 2,
            ReleaseEvidenceIssue::FakeBrokerEvidence => 3,
            ReleaseEvidenceIssue::MissingRuntimeManifest => 4,
            ReleaseEvidenceIssue::MissingWorkflow => 5,
            ReleaseEvidenceIssue::MissingContracts => 6,
            ReleaseEvidenceIssue::MissingProviderCapability => 7,
            ReleaseEvidenceIssue::MissingSourceSnapshots => 8,
            ReleaseEvidenceIssue::MissingBrokerEvidence => 9,
            ReleaseEvidenceIssue::MissingSessionSlot => 10,
            ReleaseEvidenceIssue::MissingDaemonLease => 11,
            ReleaseEvidenceIssue::MissingExecution => 12,
            ReleaseEvidenceIssue::MissingReconciliation => 13,
            ReleaseEvidenceIssue::MissingOutcome { .. } => 14,
            ReleaseEvidenceIssue::MissingLearningTransition => 15,
            ReleaseEvidenceIssue::MissingHumanApproval => 16,
            ReleaseEvidenceIssue::HumanApprovalNotApproved => 17,
            ReleaseEvidenceIssue::ConfigHashDrift => 18,
            ReleaseEvidenceIssue::WorkflowHashDrift => 19,
            ReleaseEvidenceIssue::BrokerAccountMismatch => 20,
            ReleaseEvidenceIssue::StaleDaemonEpoch => 21,
            ReleaseEvidenceIssue::EngineeringOnlyProfile { .. } => 22,
            ReleaseEvidenceIssue::UnsupportedResearchFeed { .. } => 23,
            ReleaseEvidenceIssue::MissingModelKnowledgeCutoff => 24,
        }
    }

    fn code_text(&self) -> (r: &'static str)
        ensures
            r@ == self@.code_name(),
    {
        match self {
            ReleaseEvidenceIssue::NonCanonicalRun { .. } => "non_canonical_run",
            ReleaseEvidenceIssue::DirtyWorktree => "dirty_worktree",
            ReleaseEvidenceIssue::OfflineFixture => "offline_fixture",
            ReleaseEvidenceIssue::FakeBrokerEvidence => "fake_broker_evidence",
            ReleaseEvidenceIssue::MissingRuntimeManifest => "missing_runtime_manifest",
            ReleaseEvidenceIssue::MissingWorkflow => "missing_workflow",
            ReleaseEvidenceIssue::MissingContracts => "missing_contracts",
            ReleaseEvidenceIssue::MissingProviderCapability => "missing_provider_capability",
            ReleaseEvidenceIssue::MissingSourceSnapshots => "missing_source_snapshots",
            ReleaseEvidenceIssue::MissingBrokerEvidence => "missing_broker_evidence",
            ReleaseEvidenceIssue::MissingSessionSlot => "missing_session_slot",
            ReleaseEvidenceIssue::MissingDaemonLease => "missing_daemon_lease",
            ReleaseEvidenceIssue::MissingExecution => "missing_execution",
            ReleaseEvidenceIssue::MissingReconciliation => "missing_reconciliation",
            ReleaseEvidenceIssue::MissingOutcome { .. } => "missing_outcome",
            ReleaseEvidenceIssue::MissingLearningTransition => "missing_learning_transition",
            ReleaseEvidenceIssue::MissingHumanApproval => "missing_human_approval",
            ReleaseEvidenceIssue::HumanApprovalNotApproved => "human_approval_not_approved",
            ReleaseEvidenceIssue::ConfigHashDrift => "config_hash_drift",
            ReleaseEvidenceIssue::WorkflowHashDrift => "workflow_hash_drift",
            ReleaseEvidenceIssue::BrokerAccountMismatch => "broker_account_mismatch",
            ReleaseEvidenceIssue::StaleDaemonEpoch => "stale_daemon_epoch",
            ReleaseEvidenceIssue::EngineeringOnlyProfile { .. } => "engineering_only_profile",
            ReleaseEvidenceIssue::UnsupportedResearchFeed { .. } => "unsupported_research_feed",
            ReleaseEvidenceIssue::MissingModelKnowledgeCutoff => "missing_model_knowledge_cutoff",
        }
    }
}

impl Key for ReleaseEvidenceIssue {
    open spec fn code(key: IssueView) -> Seq<int> {
        number_part(key.place()) + key.payload()
    }

    proof fn code_is_injective(a: IssueView, b: IssueView) {
        numbers_settle(a.place(), b.place());
        joined_codes(number_part(a.place()), number_part(b.place()), a.payload(), b.payload());
        assert(a.place() == b.place() && a.payload() == b.payload());
        match a {
            IssueView::NonCanonicalRun { purpose } => {
                texts_settle(purpose, b->NonCanonicalRun_purpose);
            },
            IssueView::MissingOutcome { horizon } => {
                numbers_settle(
                    horizon.place() as int,
                    b->MissingOutcome_horizon.place() as int,
                );
            },
            IssueView::EngineeringOnlyProfile { profile } => {
                texts_settle(profile, b->EngineeringOnlyProfile_profile);
            },
            IssueView::UnsupportedResearchFeed { feed } => {
                texts_settle(feed, b->UnsupportedResearchFeed_feed);
            },
            _ => {},
        }
    }

    fn rank(&self, other: &Self) -> (r: Rank) {
        proof {
            let a = self@;
            let b = other@;
            numbers_settle(a.place(), b.place());
            joined_codes(number_part(a.place()), number_part(b.place()), a.payload(), b.payload());
        }
        let by_place = rank_counts(self.place_number(), other.place_number());
        match by_place {
            Rank::Same => match (self, other) {
                (
                    ReleaseEvidenceIssue::NonCanonicalRun { purpose: x },
                    ReleaseEvidenceIssue::NonCanonicalRun { purpose: y },
                ) => {
                    proof {
                        texts_settle(x@, y@);
                    }
                    rank_texts(x, y)
                },
                (
                    ReleaseEvidenceIssue::MissingOutcome { horizon: x },
                    ReleaseEvidenceIssue::MissingOutcome { horizon: y },
                ) => rank_counts(x.place_number() as u64, y.place_number() as u64),
                (
                    ReleaseEvidenceIssue::EngineeringOnlyProfile { profile: x },
                    ReleaseEvidenceIssue::EngineeringOnlyProfile { profile: y },
                ) => {
                    proof {
                        texts_settle(x@, y@);
                    }
                    rank_texts(x, y)
                },
                (
                    ReleaseEvidenceIssue::UnsupportedResearchFeed { feed: x },
                    ReleaseEvidenceIssue::UnsupportedResearchFeed { feed: y },
                ) => {
                    proof {
                        texts_settle(x@, y@);
                    }
                    rank_texts(x, y)
                },
                _ => Rank::Same,
            },
            _ => by_place,
        }
    }

    fn duplicate(&self) -> (r: Self) {
        self.clone()
    }
}

impl JsonItem for ReleaseEvidenceIssue {
    open spec fn item_json(key: IssueView) -> JsonTree {
        let m = no_members().insert("code"@, JsonTree::Text(key.code_name()));
        JsonTree::Object(
            match key {
                IssueView::NonCanonicalRun { purpose } => m.insert(
                    "purpose"@,
                    JsonTree::Text(purpose),
                ),
                IssueView::MissingOutcome { horizon } => m.insert(
                    "horizon"@,
                    JsonTree::Text(horizon.wire()),
                ),
                IssueView::EngineeringOnlyProfile { profile } => m.insert(
                    "profile"@,
                    JsonTree::Text(profile),
                ),
                IssueView::UnsupportedResearchFeed { feed } => m.insert(
                    "feed"@,
                    JsonTree::Text(feed),
                ),
                _ => m,
            },
        )
    }

    fn to_item_json(&self) -> (r: serde_json::Value) {
        let mut members = json_new_object();
        json_insert(&mut members, "code", json_text(self.code_text()));
        match self {
            ReleaseEvidenceIssue::NonCanonicalRun { purpose } => {
                json_insert(&mut members, "purpose", purpose.to_json());
            },
            ReleaseEvidenceIssue::MissingOutcome { horizon } => {
                json_insert(&mut members, "horizon", horizon.to_json());
            },
            ReleaseEvidenceIssue::EngineeringOnlyProfile { profile } => {
                json_insert(&mut members, "profile", profile.to_json());
            },
            ReleaseEvidenceIssue::UnsupportedResearchFeed { feed } => {
                json_insert(&mut members, "feed", feed.to_json());
            },
            _ => {},
        }
        json_object(members)
    }
}

/// What ran.
#[derive(Debug, Clone, PartialEq, Eq)]
pub struct ReleaseRuntimeEvidence {
    pub repository_commit: String,
    pub dirty_worktree: bool,
    pub cargo_lock_hash: ContentHash,
    pub config_hash: ContentHash,
    pub prompt_hash: ContentHash,
    pub contract_hash: ContentHash,
    pub topology_hash: ContentHash,
    pub decision_policy_hash: ContentHash,
    pub execution_policy_hash: ContentHash,
    pub evaluation_policy_hash: ContentHash,
    pub behavior_bundle_hash: Option<ContentHash>,
    pub experiment_profile: String,
    pub rust_toolchain: String,
    pub model_knowledge_cutoff: Option<CalendarDay>,
    pub market_data_feed: String,
}

impl ToJson for ReleaseRuntimeEvidence {
    open spec fn json(&self) -> JsonTree {
        let m = no_members();
        let m = m.insert("repository_commit"@, self.repository_commit.json());
        let m = m.insert("dirty_worktree"@, self.dirty_worktree.json());
        let m = m.insert("cargo_lock_hash"@, self.cargo_lock_hash.json());
        let m = m.insert("config_hash"@, self.config_hash.json());
        let m = m.insert("prompt_hash"@, self.prompt_hash.json());
        let m = m.insert("contract_hash"@, self.contract_hash.json());
        let m = m.insert("topology_hash"@, self.topology_hash.json());
        let m = m.insert("decision_policy_hash"@, self.decision_policy_hash.json());
        let m = m.insert("execution_policy_hash"@, self.execution_policy_hash.json());
        let m = m.insert("evaluation_policy_hash"@, self.evaluation_policy_hash.json());
        let m = if self.behavior_bundle_hash is Some {
            m.insert("behavior_bundle_hash"@, self.behavior_bundle_hash.json())
        } else {
            m
        };
        let m = m.insert("experiment_profile"@, self.experiment_profile.json());
        let m = m.insert("rust_toolchain"@, self.rust_toolchain.json());
        let m = m.insert("model_knowledge_cutoff"@, self.model_knowledge_cutoff.json());
        let m = m.insert("market_data_feed"@, self.market_data_feed.json());
        JsonTree::Object(m)
    }

    fn to_json(&self) -> (r: serde_json::Value) {
        let mut members = json_new_object();
        json_insert(&mut members, "repository_commit", self.repository_commit.to_json());
        json_insert(&mut members, "dirty_worktree", self.dirty_worktree.to_json());
        json_insert(&mut members, "cargo_lock_hash", self.cargo_lock_hash.to_json());
        json_insert(&mut members, "config_hash", self.config_hash.to_json());
        json_insert(&mut members, "prompt_hash", self.prompt_hash.to_json());
        json_insert(&mut members, "contract_hash", self.contract_hash.to_json());
        json_insert(&mut members, "topology_hash", self.topology_hash.to_json());
        json_insert(&mut members, "decision_policy_hash", self.decision_policy_hash.to_json());
        json_insert(&mut members, "execution_policy_hash", self.execution_policy_hash.to_json());
        json_insert(&mut members, "evaluation_policy_hash", self.evaluation_policy_hash.to_json());
        if self.behavior_bundle_hash.is_some() {
            json_insert(&mut members, "behavior_bundle_hash", self.behavior_bundle_hash.to_json());
        }
        json_insert(&mut members, "experiment_profile", self.experiment_profile.to_json());
        json_insert(&mut members, "rust_toolchain", self.rust_toolchain.to_json());
        json_insert(&mut members, "model_knowledge_cutoff", self.model_knowledge_cutoff.to_json());
        json_insert(&mut members, "market_data_feed", self.market_data_feed.to_json());
        json_object(members)
    }
}

/// The workflow that ran.
#[derive(Debug, Clone, PartialEq, Eq)]
pub struct ReleaseWorkflowEvidence {
    pub graph: ArtifactRef,
    pub workflow_hash: ContentHash,
    pub plan: WorkflowGraph,
}

impl ToJson for ReleaseWorkflowEvidence {
    open spec fn json(&self) -> JsonTree {
        let m = no_members();
        let m = m.insert("graph"@, self.graph.json());
        let m = m.insert("workflow_hash"@, self.workflow_hash.json());
        let m = m.insert("plan"@, self.plan.json());
        JsonTree::Object(m)
    }

    fn to_json(&self) -> (r: serde_json::Value) {
        let mut members = json_new_object();
        json_insert(&mut members, "graph", self.graph.to_json());
        json_insert(&mut members, "workflow_hash", self.workflow_hash.to_json());
        json_insert(&mut members, "plan", self.plan.to_json());
        json_object(members)
    }
}

/// The contracts, tools and contexts that were used.
#[derive(Debug, Clone, PartialEq, Eq)]
pub struct ReleaseContractEvidence {
    pub contract_hashes: OrderedSet<ContentHash>,
    pub tool_set_hashes: OrderedSet<ContentHash>,
    pub context_manifest_hashes: OrderedSet<ContentHash>,
}

impl Default for ReleaseContractEvidence {
    fn default() -> (r: Self)
        ensures
            r.contract_hashes@ == Set::<Seq<char>>::empty(),
            r.tool_set_hashes@ == Set::<Seq<char>>::empty(),
            r.context_manifest_hashes@ == Set::<Seq<char>>::empty(),
    {
        ReleaseContractEvidence {
            contract_hashes: OrderedSet::new(),
            tool_set_hashes: OrderedSet::new(),
            context_manifest_hashes: OrderedSet::new(),
        }
    }
}

impl ToJson for ReleaseContractEvidence {
    open spec fn json(&self) -> JsonTree {
        let m = no_members();
        let m = m.insert("contract_hashes"@, self.contract_hashes.json());
        let m = m.insert("tool_set_hashes"@, self.tool_set_hashes.json());
        let m = m.insert("context_manifest_hashes"@, self.context_manifest_hashes.json());
        JsonTree::Object(m)
    }

    fn to_json(&self) -> (r: serde_json::Value) {
        let mut members = json_new_object();
        json_insert(&mut members, "contract_hashes", self.contract_hashes.to_json());
        json_insert(&mut members, "tool_set_hashes", self.tool_set_hashes.to_json());
        json_insert(
            &mut members,
            "context_manifest_hashes",
            self.context_manifest_hashes.to_json(),
        );
        json_object(members)
    }
}

/// A model that was asked, and what its provider declares.
#[derive(Debug, PartialEq, Eq, PartialOrd, Ord)]
pub struct ReleaseProviderRouteEvidence {
    pub provider_id: String,
    pub model_id: String,
    pub reasoning_effort: Option<String>,
    pub capability_snapshot_hash: ContentHash,
    pub supports_tool_calls: bool,
    pub supports_stateless_continuation: bool,
    pub native_web_tool: bool,
    pub streaming: Option<bool>,
    pub declared_context_limit: Option<u32>,
    pub declared_max_output_tokens: Option<u32>,
    pub source: String,
}

/// What a `ReleaseProviderRouteEvidence` holds.
pub ghost struct ReleaseProviderRouteEvidenceView {
    pub provider_id: Seq<char>,
    pub model_id: Seq<char>,
    pub reasoning_effort: Option<Seq<char>>,
    pub capability_snapshot_hash: Seq<char>,
    pub supports_tool_calls: bool,
    pub supports_stateless_continuation: bool,
    pub native_web_tool: bool,
    pub streaming: Option<bool>,
    pub declared_context_limit: Option<u32>,
    pub declared_max_output_tokens: Option<u32>,
    pub source: Seq<char>,
}

impl View for ReleaseProviderRouteEvidence {
    type V = ReleaseProviderRouteEvidenceView;

    open spec fn view(&self) -> ReleaseProviderRouteEvidenceView {
        ReleaseProviderRouteEvidenceView {
            provider_id: self.provider_id.seen(),
            model_id: self.model_id.seen(),
            reasoning_effort: self.reasoning_effort.seen(),
            capability_snapshot_hash: self.capability_snapshot_hash.seen(),
            supports_tool_calls: self.supports_tool_calls.seen(),
            supports_stateless_continuation: self.supports_stateless_continuation.seen(),
            native_web_tool: self.native_web_tool.seen(),
            streaming: self.streaming.seen(),
            declared_context_limit: self.declared_context_limit.seen(),
            declared_max_output_tokens: self.declared_max_output_tokens.seen(),
            source: self.source.seen(),
        }
    }
}

impl Clone for ReleaseProviderRouteEvidence {
    fn clone(&self) -> (r: Self)
        ensures
            r@ == self@,
    {
        ReleaseProviderRouteEvidence {
            provider_id: self.provider_id.copy_part(),
            model_id: self.model_id.copy_part(),
            reasoning_effort: self.reasoning_effort.copy_part(),
            capability_snapshot_hash: self.capability_snapshot_hash.copy_part(),
            supports_tool_calls: self.supports_tool_calls.copy_part(),
            supports_stateless_continuation: self.supports_stateless_continuation.copy_part(),
            native_web_tool: self.native_web_tool.copy_part(),
            streaming: self.streaming.copy_part(),
            declared_context_limit: self.declared_context_limit.copy_part(),
            declared_max_output_tokens: self.declared_max_output_tokens.copy_part(),
            source: self.source.copy_part(),
        }
    }
}

/// The parts of a `ReleaseProviderRouteEvidence`, in the order in which they count.
pub type ReleaseProviderRouteEvidenceParts = (String, (String, (Option<String>, (ContentHash,
    (bool, (bool, (bool, (Option<bool>, (Option<u32>, (Option<u32>, String))))))))));

impl ReleaseProviderRouteEvidenceView {
    pub open spec fn parts(self) -> <ReleaseProviderRouteEvidenceParts as Part>::Seen {
        (self.provider_id, (self.model_id, (self.reasoning_effort,
            (self.capability_snapshot_hash, (self.supports_tool_calls,
            (self.supports_stateless_continuation, (self.native_web_tool, (self.streaming,
            (self.declared_context_limit, (self.declared_max_output_tokens,
            self.source))))))))))
    }
}

impl Key for ReleaseProviderRouteEvidence {
    open spec fn code(key: ReleaseProviderRouteEvidenceView) -> Seq<int> {
        <ReleaseProviderRouteEvidenceParts as Part>::part(key.parts())
    }

    proof fn code_is_injective(a: ReleaseProviderRouteEvidenceView, b: ReleaseProviderRouteEvidenceView) {
        <ReleaseProviderRouteEvidenceParts as Part>::parts_settle(a.parts(), b.parts());
    }

    fn rank(&self, other: &Self) -> (r: Rank) {
        let mine = (&self.provider_id, (&self.model_id, (&self.reasoning_effort,
            (&self.capability_snapshot_hash, (&self.supports_tool_calls,
            (&self.supports_stateless_continuation, (&self.native_web_tool, (&self.streaming,
            (&self.declared_context_limit, (&self.declared_max_output_tokens,
            &self.source))))))))));
        let theirs = (&other.provider_id, (&other.model_id, (&other.reasoning_effort,
            (&other.capability_snapshot_hash, (&other.supports_tool_calls,
            (&other.supports_stateless_continuation, (&other.native_web_tool, (&other.streaming,
            (&other.declared_context_limit, (&other.declared_max_output_tokens,
            &other.source))))))))));
        mine.rank_part(&theirs)
    }

    fn duplicate(&self) -> (r: Self) {
        self.clone()
    }
}

impl JsonItem for ReleaseProviderRouteEvidence {
    open spec fn item_json(key: ReleaseProviderRouteEvidenceView) -> JsonTree {
        let m = no_members();
        let m = m.insert("provider_id"@, <String as JsonPart>::part_json(key.provider_id));
        let m = m.insert("model_id"@, <String as JsonPart>::part_json(key.model_id));
        let m = m.insert(
            "reasoning_effort"@,
            <Option<String> as JsonPart>::part_json(key.reasoning_effort),
        );
        let m = m.insert(
            "capability_snapshot_hash"@,
            <ContentHash as JsonPart>::part_json(key.capability_snapshot_hash),
        );
        let m = m.insert(
            "supports_tool_calls"@,
            <bool as JsonPart>::part_json(key.supports_tool_calls),
        );
        let m = m.insert(
            "supports_stateless_continuation"@,
            <bool as JsonPart>::part_json(key.supports_stateless_continuation),
        );
        let m = m.insert("native_web_tool"@, <bool as JsonPart>::part_json(key.native_web_tool));
        let m = m.insert("streaming"@, <Option<bool> as JsonPart>::part_json(key.streaming));
        let m = m.insert(
            "declared_context_limit"@,
            <Option<u32> as JsonPart>::part_json(key.declared_context_limit),
        );
        let m = m.insert(
            "declared_max_output_tokens"@,
            <Option<u32> as JsonPart>::part_json(key.declared_max_output_tokens),
        );
        let m = m.insert("source"@, <String as JsonPart>::part_json(key.source));
        JsonTree::Object(m)
    }

    fn to_item_json(&self) -> (r: serde_json::Value) {
        let mut members = json_new_object();
        json_insert(&mut members, "provider_id", self.provider_id.part_to_json());
        json_insert(&mut members, "model_id", self.model_id.part_to_json());
        json_insert(&mut members, "reasoning_effort", self.reasoning_effort.part_to_json());
        json_insert(
            &mut members,
            "capability_snapshot_hash",
            self.capability_snapshot_hash.part_to_json(),
        );
        json_insert(&mut members, "supports_tool_calls", self.supports_tool_calls.part_to_json());
        json_insert(
            &mut members,
            "supports_stateless_continuation",
            self.supports_stateless_continuation.part_to_json(),
        );
        json_insert(&mut members, "native_web_tool", self.native_web_tool.part_to_json());
        json_insert(&mut members, "streaming", self.streaming.part_to_json());
        json_insert(
            &mut members,
            "declared_context_limit",
            self.declared_context_limit.part_to_json(),
        );
        json_insert(
            &mut members,
            "declared_max_output_tokens",
            self.declared_max_output_tokens.part_to_json(),
        );
        json_insert(&mut members, "source", self.source.part_to_json());
        json_object(members)
    }
}

/// A source that was read.
#[derive(Debug, PartialEq, Eq, PartialOrd, Ord)]
pub struct ReleaseSourceSnapshotEvidence {
    pub artifact: ArtifactRef,
    pub blob_hash: ContentHash,
    pub source_family: String,
    pub observed_at: Option<UtcTime>,
    pub retrieved_at: UtcTime,
}

/// What a `ReleaseSourceSnapshotEvidence` holds.
pub ghost struct ReleaseSourceSnapshotEvidenceView {
    pub artifact: RefView,
    pub blob_hash: Seq<char>,
    pub source_family: Seq<char>,
    pub observed_at: Option<UtcTime>,
    pub retrieved_at: UtcTime,
}

impl View for ReleaseSourceSnapshotEvidence {
    type V = ReleaseSourceSnapshotEvidenceView;

    open spec fn view(&self) -> ReleaseSourceSnapshotEvidenceView {
        ReleaseSourceSnapshotEvidenceView {
            artifact: self.artifact.seen(),
            blob_hash: self.blob_hash.seen(),
            source_family: self.source_family.seen(),
            observed_at: self.observed_at.seen(),
            retrieved_at: self.retrieved_at.seen(),
        }
    }
}

impl Clone for ReleaseSourceSnapshotEvidence {
    fn clone(&self) -> (r: Self)
        ensures
            r@ == self@,
    {
        ReleaseSourceSnapshotEvidence {
            artifact: self.artifact.copy_part(),
            blob_hash: self.blob_hash.copy_part(),
            source_family: self.source_family.copy_part(),
            observed_at: self.observed_at.copy_part(),
            retrieved_at: self.retrieved_at.copy_part(),
        }
    }
}

/// The parts of a `ReleaseSourceSnapshotEvidence`, in the order in which they count.
pub type ReleaseSourceSnapshotEvidenceParts = (ArtifactRef, (ContentHash, (String,
    (Option<UtcTime>, UtcTime))));

impl ReleaseSourceSnapshotEvidenceView {
    pub open spec fn parts(self) -> <ReleaseSourceSnapshotEvidenceParts as Part>::Seen {
        (self.artifact, (self.blob_hash, (self.source_family, (self.observed_at,
            self.retrieved_at))))
    }
}

impl Key for ReleaseSourceSnapshotEvidence {
    open spec fn code(key: ReleaseSourceSnapshotEvidenceView) -> Seq<int> {
        <ReleaseSourceSnapshotEvidenceParts as Part>::part(key.parts())
    }

    proof fn code_is_injective(a: ReleaseSourceSnapshotEvidenceView, b: ReleaseSourceSnapshotEvidenceView) {
        <ReleaseSourceSnapshotEvidenceParts as Part>::parts_settle(a.parts(), b.parts());
    }

    fn rank(&self, other: &Self) -> (r: Rank) {
        let mine = (&self.artifact, (&self.blob_hash, (&self.source_family, (&self.observed_at,
            &self.retrieved_at))));
        let theirs = (&other.artifact, (&other.blob_hash, (&other.source_family,
            (&other.observed_at, &other.retrieved_at))));
        mine.rank_part(&theirs)
    }

    fn duplicate(&self) -> (r: Self) {
        self.clone()
    }
}

impl JsonItem for ReleaseSourceSnapshotEvidence {
    open spec fn item_json(key: ReleaseSourceSnapshotEvidenceView) -> JsonTree {
        let m = no_members();
        let m = m.insert("artifact"@, <ArtifactRef as JsonPart>::part_json(key.artifact));
        let m = m.insert("blob_hash"@, <ContentHash as JsonPart>::part_json(key.blob_hash));
        let m = m.insert("source_family"@, <String as JsonPart>::part_json(key.source_family));
        let m = m.insert("observed_at"@, <Option<UtcTime> as JsonPart>::part_json(key.observed_at));
        let m = m.insert("retrieved_at"@, <UtcTime as JsonPart>::part_json(key.retrieved_at));
        JsonTree::Object(m)
    }

    fn to_item_json(&self) -> (r: serde_json::Value) {
        let mut members = json_new_object();
        json_insert(&mut members, "artifact", self.artifact.part_to_json());
        json_insert(&mut members, "blob_hash", self.blob_hash.part_to_json());
        json_insert(&mut members, "source_family", self.source_family.part_to_json());
        json_insert(&mut members, "observed_at", self.observed_at.part_to_json());
        json_insert(&mut members, "retrieved_at", self.retrieved_at.part_to_json());
        json_object(members)
    }
}

/// An order, as we and as the broker know it.
#[derive(Debug, Clone, PartialEq, Eq, PartialOrd, Ord)]
pub struct ReleaseOrderIdentity {
    pub client_order_id: String,
    pub broker_order_id: String,
}

impl ToJson for ReleaseOrderIdentity {
    open spec fn json(&self) -> JsonTree {
        let m = no_members();
        let m = m.insert("client_order_id"@, self.client_order_id.json());
        let m = m.insert("broker_order_id"@, self.broker_order_id.json());
        JsonTree::Object(m)
    }

    fn to_json(&self) -> (r: serde_json::Value) {
        let mut members = json_new_object();
        json_insert(&mut members, "client_order_id", self.client_order_id.to_json());
        json_insert(&mut members, "broker_order_id", self.broker_order_id.to_json());
        json_object(members)
    }
}

/// What was placed at the broker.
#[derive(Debug, Clone, PartialEq, Eq)]
pub struct ReleaseBrokerEvidence {
    pub account_fingerprint: ContentHash,
    pub trust: ReleaseBrokerEvidenceTrust,
    pub orders: Vec<ReleaseOrderIdentity>,
}

impl ToJson for ReleaseBrokerEvidence {
    open spec fn json(&self) -> JsonTree {
        let m = no_members();
        let m = m.insert("account_fingerprint"@, self.account_fingerprint.json());
        let m = m.insert("trust"@, self.trust.json());
        let m = m.insert("orders"@, self.orders.json());
        JsonTree::Object(m)
    }

    fn to_json(&self) -> (r: serde_json::Value) {
        let mut members = json_new_object();
        json_insert(&mut members, "account_fingerprint", self.account_fingerprint.to_json());
        json_insert(&mut members, "trust", self.trust.to_json());
        json_insert(&mut members, "orders", self.orders.to_json());
        json_object(members)
    }
}

/// The session that was run.
#[derive(Debug, Clone, PartialEq, Eq)]
pub struct ReleaseSessionEvidence {
    pub session_key: String,
    pub scheduler_epoch: u64,
    pub reserved_at: UtcTime,
    pub committed_at: Option<UtcTime>,
}

impl ToJson for ReleaseSessionEvidence {
    open spec fn json(&self) -> JsonTree {
        let m = no_members();
        let m = m.insert("session_key"@, self.session_key.json());
        let m = m.insert("scheduler_epoch"@, self.scheduler_epoch.json());
        let m = m.insert("reserved_at"@, self.reserved_at.json());
        let m = m.insert("committed_at"@, self.committed_at.json());
        JsonTree::Object(m)
    }

    fn to_json(&self) -> (r: serde_json::Value) {
        let mut members = json_new_object();
        json_insert(&mut members, "session_key", self.session_key.to_json());
        json_insert(&mut members, "scheduler_epoch", self.scheduler_epoch.to_json());
        json_insert(&mut members, "reserved_at", self.reserved_at.to_json());
        json_insert(&mut members, "committed_at", self.committed_at.to_json());
        json_object(members)
    }
}

/// Who held the lease.
#[derive(Debug, Clone, PartialEq, Eq)]
pub struct ReleaseDaemonEvidence {
    pub lease_name: String,
    pub owner_id: String,
    pub epoch: u64,
    pub expires_at: UtcTime,
}

impl ToJson for ReleaseDaemonEvidence {
    open spec fn json(&self) -> JsonTree {
        let m = no_members();
        let m = m.insert("lease_name"@, self.lease_name.json());
        let m = m.insert("owner_id"@, self.owner_id.json());
        let m = m.insert("epoch"@, self.epoch.json());
        let m = m.insert("expires_at"@, self.expires_at.json());
        JsonTree::Object(m)
    }

    fn to_json(&self) -> (r: serde_json::Value) {
        let mut members = json_new_object();
        json_insert(&mut members, "lease_name", self.lease_name.to_json());
        json_insert(&mut members, "owner_id", self.owner_id.to_json());
        json_insert(&mut members, "epoch", self.epoch.to_json());
        json_insert(&mut members, "expires_at", self.expires_at.to_json());
        json_object(members)
    }
}

/// What was executed, and how it was reconciled.
#[derive(Debug, Clone, PartialEq, Eq)]
pub struct ReleaseExecutionEvidence {
    pub execution_plan: ArtifactRef,
    pub plan_hash: ContentHash,
    pub commitment: ArtifactRef,
    pub commitment_id: String,
    pub reconciliation: Option<ArtifactRef>,
    pub reconciliation_receipts: Vec<ArtifactRef>,
}

impl ToJson for ReleaseExecutionEvidence {
    open spec fn json(&self) -> JsonTree {
        let m = no_members();
        let m = m.insert("execution_plan"@, self.execution_plan.json());
        let m = m.insert("plan_hash"@, self.plan_hash.json());
        let m = m.insert("commitment"@, self.commitment.json());
        let m = m.insert("commitment_id"@, self.commitment_id.json());
        let m = m.insert("reconciliation"@, self.reconciliation.json());
        let m = m.insert("reconciliation_receipts"@, self.reconciliation_receipts.json());
        JsonTree::Object(m)
    }

    fn to_json(&self) -> (r: serde_json::Value) {
        let mut members = json_new_object();
        json_insert(&mut members, "execution_plan", self.execution_plan.to_json());
        json_insert(&mut members, "plan_hash", self.plan_hash.to_json());
        json_insert(&mut members, "commitment", self.commitment.to_json());
        json_insert(&mut members, "commitment_id", self.commitment_id.to_json());
        json_insert(&mut members, "reconciliation", self.reconciliation.to_json());
        json_insert(
            &mut members,
            "reconciliation_receipts",
            self.reconciliation_receipts.to_json(),
        );
        json_object(members)
    }
}

/// An outcome that was sealed.
#[derive(Debug, Clone, PartialEq, Eq)]
pub struct ReleaseOutcomeEvidence {
    pub outcome: ArtifactRef,
    pub sealed_at: UtcTime,
    pub observed_on: CalendarDay,
}

impl ToJson for ReleaseOutcomeEvidence {
    open spec fn json(&self) -> JsonTree {
        let m = no_members();
        let m = m.insert("outcome"@, self.outcome.json());
        let m = m.insert("sealed_at"@, self.sealed_at.json());
        let m = m.insert("observed_on"@, self.observed_on.json());
        JsonTree::Object(m)
    }

    fn to_json(&self) -> (r: serde_json::Value) {
        let mut members = json_new_object();
        json_insert(&mut members, "outcome", self.outcome.to_json());
        json_insert(&mut members, "sealed_at", self.sealed_at.to_json());
        json_insert(&mut members, "observed_on", self.observed_on.to_json());
        json_object(members)
    }
}

/// What was learned.
#[derive(Debug, Clone, PartialEq, Eq)]
pub struct ReleaseLearningEvidence {
    pub transition_id: String,
    pub from: PolicyState,
    pub to: PolicyState,
    pub evaluation: ArtifactRef,
    pub transitioned_at: UtcTime,
}

impl ToJson for ReleaseLearningEvidence {
    open spec fn json(&self) -> JsonTree {
        let m = no_members();
        let m = m.insert("transition_id"@, self.transition_id.json());
        let m = m.insert("from"@, self.from.json());
        let m = m.insert("to"@, self.to.json());
        let m = m.insert("evaluation"@, self.evaluation.json());
        let m = m.insert("transitioned_at"@, self.transitioned_at.json());
        JsonTree::Object(m)
    }

    fn to_json(&self) -> (r: serde_json::Value) {
        let mut members = json_new_object();
        json_insert(&mut members, "transition_id", self.transition_id.to_json());
        json_insert(&mut members, "from", self.from.to_json());
        json_insert(&mut members, "to", self.to.to_json());
        json_insert(&mut members, "evaluation", self.evaluation.to_json());
        json_insert(&mut members, "transitioned_at", self.transitioned_at.to_json());
        json_object(members)
    }
}

/// The campaign that the release was part of.
#[derive(Debug, Clone, PartialEq, Eq)]
pub struct ReleaseCanaryEvidence {
    pub campaign_id: ContentHash,
    pub status: CanaryCampaignStatus,
    pub revision: u64,
}

impl ToJson for ReleaseCanaryEvidence {
    open spec fn json(&self) -> JsonTree {
        let m = no_members();
        let m = m.insert("campaign_id"@, self.campaign_id.json());
        let m = m.insert("status"@, self.status.json());
        let m = m.insert("revision"@, self.revision.json());
        JsonTree::Object(m)
    }

    fn to_json(&self) -> (r: serde_json::Value) {
        let mut members = json_new_object();
        json_insert(&mut members, "campaign_id", self.campaign_id.to_json());
        json_insert(&mut members, "status", self.status.to_json());
        json_insert(&mut members, "revision", self.revision.to_json());
        json_object(members)
    }
}

/// What was decided after the outcome was known.
#[derive(Debug, Clone, PartialEq, Eq)]
pub struct ReleasePostOutcomeApprovalEvidence {
    pub approval_id: ContentHash,
    pub decision: ResearchApprovalDecision,
    pub operator_identity: String,
    pub approved_at: UtcTime,
    pub reason_codes: OrderedSet<ResearchApprovalReason>,
}

impl ToJson for ReleasePostOutcomeApprovalEvidence {
    open spec fn json(&self) -> JsonTree {
        let m = no_members();
        let m = m.insert("approval_id"@, self.approval_id.json());
        let m = m.insert("decision"@, self.decision.json());
        let m = m.insert("operator_identity"@, self.operator_identity.json());
        let m = m.insert("approved_at"@, self.approved_at.json());
        let m = m.insert("reason_codes"@, self.reason_codes.json());
        JsonTree::Object(m)
    }

    fn to_json(&self) -> (r: serde_json::Value) {
        let mut members = json_new_object();
        json_insert(&mut members, "approval_id", self.approval_id.to_json());
        json_insert(&mut members, "decision", self.decision.to_json());
        json_insert(&mut members, "operator_identity", self.operator_identity.to_json());
        json_insert(&mut members, "approved_at", self.approved_at.to_json());
        json_insert(&mut members, "reason_codes", self.reason_codes.to_json());
        json_object(members)
    }
}

/// What a person decided.
#[derive(Debug, Clone, PartialEq, Eq)]
pub struct ReleaseHumanApprovalEvidence {
    pub status: ReleaseHumanApprovalStatus,
    pub operator_identity: String,
    pub approved_at: Option<UtcTime>,
    pub approval_hash: ContentHash,
    pub is_post_outcome_research_approval: bool,
}

impl ToJson for ReleaseHumanApprovalEvidence {
    open spec fn json(&self) -> JsonTree {
        let m = no_members();
        let m = m.insert("status"@, self.status.json());
        let m = m.insert("operator_identity"@, self.operator_identity.json());
        let m = m.insert("approved_at"@, self.approved_at.json());
        let m = m.insert("approval_hash"@, self.approval_hash.json());
        let m = m.insert(
            "is_post_outcome_research_approval"@,
            self.is_post_outcome_research_approval.json(),
        );
        JsonTree::Object(m)
    }

    fn to_json(&self) -> (r: serde_json::Value) {
        let mut members = json_new_object();
        json_insert(&mut members, "status", self.status.to_json());
        json_insert(&mut members, "operator_identity", self.operator_identity.to_json());
        json_insert(&mut members, "approved_at", self.approved_at.to_json());
        json_insert(&mut members, "approval_hash", self.approval_hash.to_json());
        json_insert(
            &mut members,
            "is_post_outcome_research_approval",
            self.is_post_outcome_research_approval.to_json(),
        );
        json_object(members)
    }
}

/// Whether what ran is what was meant to run.
#[derive(Clone, Copy, Debug, PartialEq, Eq, Structural)]
pub struct ReleaseIntegrityEvidence {
    pub config_hash_matches: bool,
    pub workflow_hash_matches: bool,
    pub broker_account_matches: bool,
    pub daemon_epoch_current: bool,
}

impl ToJson for ReleaseIntegrityEvidence {
    open spec fn json(&self) -> JsonTree {
        let m = no_members();
        let m = m.insert("config_hash_matches"@, self.config_hash_matches.json());
        let m = m.insert("workflow_hash_matches"@, self.workflow_hash_matches.json());
        let m = m.insert("broker_account_matches"@, self.broker_account_matches.json());
        let m = m.insert("daemon_epoch_current"@, self.daemon_epoch_current.json());
        JsonTree::Object(m)
    }

    fn to_json(&self) -> (r: serde_json::Value) {
        let mut members = json_new_object();
        json_insert(&mut members, "config_hash_matches", self.config_hash_matches.to_json());
        json_insert(&mut members, "workflow_hash_matches", self.workflow_hash_matches.to_json());
        json_insert(&mut members, "broker_account_matches", self.broker_account_matches.to_json());
        json_insert(&mut members, "daemon_epoch_current", self.daemon_epoch_current.to_json());
        json_object(members)
    }
}

/// All the evidence of a release.
#[derive(Debug, Clone, PartialEq, Eq)]
pub struct ReleaseEvidenceBody {
    pub run_id: RunId,
    pub purpose: RunPurpose,
    pub environment: ReleaseEvidenceEnvironment,
    pub materialized_at: UtcTime,
    pub runtime: Option<ReleaseRuntimeEvidence>,
    pub workflow: Option<ReleaseWorkflowEvidence>,
    pub contracts: ReleaseContractEvidence,
    pub provider_routes: OrderedSet<ReleaseProviderRouteEvidence>,
    pub source_snapshots: OrderedSet<ReleaseSourceSnapshotEvidence>,
    pub broker: Option<ReleaseBrokerEvidence>,
    pub session: Option<ReleaseSessionEvidence>,
    pub daemon: Option<ReleaseDaemonEvidence>,
    pub execution: Option<ReleaseExecutionEvidence>,
    pub outcomes: OrderedMap<OutcomeHorizon, ReleaseOutcomeEvidence>,
    pub learning: Option<ReleaseLearningEvidence>,
    pub canary: Option<ReleaseCanaryEvidence>,
    pub human_approval: Option<ReleaseHumanApprovalEvidence>,
    pub post_outcome_approval: Option<ReleasePostOutcomeApprovalEvidence>,
    pub integrity: ReleaseIntegrityEvidence,
}

impl ToJson for ReleaseEvidenceBody {
    open spec fn json(&self) -> JsonTree {
        let m = no_members();
        let m = m.insert("run_id"@, self.run_id.json());
        let m = m.insert("purpose"@, self.purpose.json());
        let m = m.insert("environment"@, self.environment.json());
        let m = m.insert("materialized_at"@, self.materialized_at.json());
        let m = m.insert("runtime"@, self.runtime.json());
        let m = m.insert("workflow"@, self.workflow.json());
        let m = m.insert("contracts"@, self.contracts.json());
        let m = m.insert("provider_routes"@, self.provider_routes.json());
        let m = m.insert("source_snapshots"@, self.source_snapshots.json());
        let m = m.insert("broker"@, self.broker.json());
        let m = m.insert("session"@, self.session.json());
        let m = m.insert("daemon"@, self.daemon.json());
        let m = m.insert("execution"@, self.execution.json());
        let m = m.insert("outcomes"@, self.outcomes.json());
        let m = m.insert("learning"@, self.learning.json());
        let m = m.insert("canary"@, self.canary.json());
        let m = m.insert("human_approval"@, self.human_approval.json());
        let m = if self.post_outcome_approval is Some {
            m.insert("post_outcome_approval"@, self.post_outcome_approval.json())
        } else {
            m
        };
        let m = m.insert("integrity"@, self.integrity.json());
        JsonTree::Object(m)
    }

    fn to_json(&self) -> (r: serde_json::Value) {
        let mut members = json_new_object();
        json_insert(&mut members, "run_id", self.run_id.to_json());
        json_insert(&mut members, "purpose", self.purpose.to_json());
        json_insert(&mut members, "environment", self.environment.to_json());
        json_insert(&mut members, "materialized_at", self.materialized_at.to_json());
        json_insert(&mut members, "runtime", self.runtime.to_json());
        json_insert(&mut members, "workflow", self.workflow.to_json());
        json_insert(&mut members, "contracts", self.contracts.to_json());
        json_insert(&mut members, "provider_routes", self.provider_routes.to_json());
        json_insert(&mut members, "source_snapshots", self.source_snapshots.to_json());
        json_insert(&mut members, "broker", self.broker.to_json());
        json_insert(&mut members, "session", self.session.to_json());
        json_insert(&mut members, "daemon", self.daemon.to_json());
        json_insert(&mut members, "execution", self.execution.to_json());
        json_insert(&mut members, "outcomes", self.outcomes.to_json());
        json_insert(&mut members, "learning", self.learning.to_json());
        json_insert(&mut members, "canary", self.canary.to_json());
        json_insert(&mut members, "human_approval", self.human_approval.to_json());
        if self.post_outcome_approval.is_some() {
            json_insert(&mut members, "post_outcome_approval", self.post_outcome_approval.to_json());
        }
        json_insert(&mut members, "integrity", self.integrity.to_json());
        json_object(members)
    }
}

/// The evidence of a release with what follows from it.
#[derive(Debug, Clone, PartialEq, Eq)]
pub struct ReleaseEvidenceBundle {
    pub schema_version: u32,
    pub bundle_version: u32,
    pub evidence_tier: ReleaseEvidenceTier,
    pub status: ReleaseEvidenceStatus,
    pub issues: OrderedSet<ReleaseEvidenceIssue>,
    pub body: ReleaseEvidenceBody,
    pub bundle_hash: ContentHash,
}

impl ReleaseRuntimeEvidence {
    pub open spec fn is_known_profile(profile: Seq<char>) -> bool {
        ||| profile == "fixture"@
        ||| profile == "paper-engineering"@
        ||| profile == "paper-research"@
        ||| profile == "historical-eval"@
    }

    pub open spec fn is_sound(&self) -> bool {
        &&& !blank(self.repository_commit@)
        &&& !blank(self.rust_toolchain@)
        &&& Self::is_known_profile(self.experiment_profile@)
        &&& self.market_data_feed@ == "iex"@ || self.market_data_feed@ == "sip"@
    }

    fn check(&self) -> (r: bool)
        ensures
            r == self.is_sound(),
    {
        let profile = &self.experiment_profile;
        let feed = &self.market_data_feed;
        !is_blank(&self.repository_commit) && !is_blank(&self.rust_toolchain) && (same_text(
            profile,
            "fixture",
        ) || same_text(profile, "paper-engineering") || same_text(profile, "paper-research")
            || same_text(profile, "historical-eval")) && (same_text(feed, "iex") || same_text(
            feed,
            "sip",
        ))
    }
}

impl ReleaseWorkflowEvidence {
    pub open spec fn verdict(&self) -> Verdict {
        first(
            self.plan.verdict(),
            demand(
                self.graph.kind is WorkflowGraph && self.workflow_hash@ == self.graph.artifact_id@,
                ErrorView::InvalidContentHash,
            ),
        )
    }

    fn validate(&self) -> (r: Result<(), DomainError>)
        ensures
            outcome(r) == self.verdict(),
    {
        self.plan.validate()?;
        if self.graph.kind != ArtifactKind::WorkflowGraph || !self.workflow_hash.same(
            &self.graph.artifact_id.0,
        ) {
            return Err(DomainError::InvalidContentHash);
        }
        Ok(())
    }
}

/// A route names its provider, its model and its source.
pub open spec fn route_is_named(route: ReleaseProviderRouteEvidenceView) -> bool {
    !blank(route.provider_id) && !blank(route.model_id) && !blank(route.source)
}

/// Both identities of an order are given.
pub open spec fn order_is_named(order: ReleaseOrderIdentity) -> bool {
    !blank(order.client_order_id@) && !blank(order.broker_order_id@)
}

impl ReleaseExecutionEvidence {
    pub open spec fn is_sound(&self) -> bool {
        &&& self.execution_plan.kind is ExecutionPlan
        &&& self.commitment.kind is ExecutionCommitment
        &&& self.reconciliation matches Some(reference) ==> reference.kind is Reconciliation
        &&& refs_all_cite(self.reconciliation_receipts@, ArtifactKind::OrderReceipt)
        &&& !blank(self.commitment_id@)
    }

    fn check(&self) -> (r: bool)
        ensures
            r == self.is_sound(),
    {
        let foreign = match &self.reconciliation {
            Some(reference) => reference.kind != ArtifactKind::Reconciliation,
            None => false,
        };
        self.execution_plan.kind == ArtifactKind::ExecutionPlan && self.commitment.kind
            == ArtifactKind::ExecutionCommitment && !foreign && refs_all_have_kind(
            &self.reconciliation_receipts,
            ArtifactKind::OrderReceipt,
        ) && !is_blank(&self.commitment_id)
    }

    /// Reconciled, with receipts.
    pub open spec fn is_reconciled(&self) -> bool {
        self.reconciliation is Some && self.reconciliation_receipts@.len() > 0
    }
}

impl ReleaseEvidenceBody {
    pub open spec fn sources_are_named(&self) -> bool {
        &&& forall|i: int|
            0 <= i < self.provider_routes.keys().len() ==> route_is_named(
                #[trigger] self.provider_routes.keys()[i],
            )
        &&& forall|i: int|
            0 <= i < self.source_snapshots.keys().len() ==> !blank(
                (#[trigger] self.source_snapshots.keys()[i]).source_family,
            )
    }

    pub open spec fn orders_are_named(&self) -> bool {
        self.broker matches Some(broker) ==> forall|i: int|
            0 <= i < broker.orders@.len() ==> order_is_named(#[trigger] broker.orders@[i])
    }

    pub open spec fn outcomes_are_outcomes(&self) -> bool {
        forall|horizon: OutcomeHorizon| #[trigger]
            self.outcomes@.dom().contains(horizon)
                ==> self.outcomes@[horizon].outcome.kind is Outcome
    }

    pub open spec fn origin_verdict(&self) -> Verdict {
        first(
            demand(
                self.runtime matches Some(runtime) ==> runtime.is_sound(),
                empty("release.repository_commit"@),
            ),
            first(
                match self.workflow {
                    Some(workflow) => workflow.verdict(),
                    None => Ok(()),
                },
                demand(self.sources_are_named(), empty("release.provider_or_source"@)),
            ),
        )
    }

    pub open spec fn run_verdict(&self) -> Verdict {
        first(
            demand(self.orders_are_named(), empty("release.order_identity"@)),
            first(
                demand(
                    self.session matches Some(session) ==> !blank(session.session_key@),
                    empty("release.session"@),
                ),
                demand(
                    self.daemon matches Some(daemon) ==> !blank(daemon.lease_name@) && !blank(
                        daemon.owner_id@,
                    ),
                    empty("release.daemon"@),
                ),
            ),
        )
    }

    pub open spec fn result_verdict(&self) -> Verdict {
        first(
            demand(
                self.execution matches Some(execution) ==> execution.is_sound(),
                empty("release.execution"@),
            ),
            first(
                demand(self.outcomes_are_outcomes(), empty("release.outcome"@)),
                first(
                    demand(
                        self.learning matches Some(learning) ==> !blank(learning.transition_id@)
                            && learning.evaluation.kind is Evaluation,
                        empty("release.learning"@),
                    ),
                    demand(
                        self.human_approval matches Some(approval) ==> !blank(
                            approval.operator_identity@,
                        ) && (approval.status is Approved ==> approval.approved_at is Some),
                        empty("release.human_approval"@),
                    ),
                ),
            ),
        )
    }

    pub open spec fn verdict(&self) -> Verdict {
        first(self.origin_verdict(), first(self.run_verdict(), self.result_verdict()))
    }

    fn has_named_routes(&self) -> (r: bool)
        ensures
            r == forall|i: int|
                0 <= i < self.provider_routes.keys().len() ==> route_is_named(
                    #[trigger] self.provider_routes.keys()[i],
                ),
    {
        let n: usize = self.provider_routes.len();
        let mut i: usize = 0;
        while i < n
            invariant
                i <= n,
                n == self.provider_routes.keys().len(),
                forall|j: int|
                    0 <= j < i ==> route_is_named(#[trigger] self.provider_routes.keys()[j]),
            decreases n - i,
        {
            let route = self.provider_routes.at(i);
            if is_blank(&route.provider_id) || is_blank(&route.model_id) || is_blank(
                &route.source,
            ) {
                proof {
                    assert(!route_is_named(self.provider_routes.keys()[i as int]));
                }
                return false;
            }
            i += 1;
        }
        true
    }

    fn has_named_snapshots(&self) -> (r: bool)
        ensures
            r == forall|i: int|
                0 <= i < self.source_snapshots.keys().len() ==> !blank(
                    (#[trigger] self.source_snapshots.keys()[i]).source_family,
                ),
    {
        let n: usize = self.source_snapshots.len();
        let mut i: usize = 0;
        while i < n
            invariant
                i <= n,
                n == self.source_snapshots.keys().len(),
                forall|j: int|
                    0 <= j < i ==> !blank(
                        (#[trigger] self.source_snapshots.keys()[j]).source_family,
                    ),
            decreases n - i,
        {
            if is_blank(&self.source_snapshots.at(i).source_family) {
                proof {
                    assert(blank(self.source_snapshots.keys()[i as int].source_family));
                }
                return false;
            }
            i += 1;
        }
        true
    }

    fn has_named_orders(&self) -> (r: bool)
        ensures
            r == self.orders_are_named(),
    {
        let named = |order: &ReleaseOrderIdentity| -> (b: bool)
            ensures
                b == order_is_named(*order),
            { !is_blank(&order.client_order_id) && !is_blank(&order.broker_order_id) };
        match &self.broker {
            Some(broker) => all_of(broker.orders.as_slice(), named),
            None => true,
        }
    }

    fn has_outcomes(&self) -> (r: bool)
        ensures
            r == self.outcomes_are_outcomes(),
    {
        let n: usize = self.outcomes.len();
        let mut i: usize = 0;
        while i < n
            invariant
                i <= n,
                n == self.outcomes.keys().len(),
                self.outcomes@.dom() == self.outcomes.keys().to_set(),
                forall|j: int|
                    0 <= j < i ==> self.outcomes@[
                        #[trigger] self.outcomes.keys()[j]
                    ].outcome.kind is Outcome,
            decreases n - i,
        {
            if self.outcomes.value_at(i).outcome.kind != ArtifactKind::Outcome {
                proof {
                    assert(self.outcomes@.dom().contains(self.outcomes.keys()[i as int]));
                }
                return false;
            }
            i += 1;
        }
        proof {
            assert forall|horizon: OutcomeHorizon| #[trigger]
                self.outcomes@.dom().contains(
                    horizon,
                ) implies self.outcomes@[horizon].outcome.kind is Outcome by {
                let j = choose|j: int| 0 <= j < n && self.outcomes.keys()[j] == horizon;
                assert(self.outcomes.keys()[j] == horizon);
            }
        }
        true
    }

    fn validate_origin(&self) -> (r: Result<(), DomainError>)
        ensures
            outcome(r) == self.origin_verdict(),
    {
        if let Some(runtime) = &self.runtime {
            if !runtime.check() {
                return Err(empty_field("release.repository_commit"));
            }
        }
        if let Some(workflow) = &self.workflow {
            workflow.validate()?;
        }
        if !self.has_named_routes() || !self.has_named_snapshots() {
            return Err(empty_field("release.provider_or_source"));
        }
        Ok(())
    }

    fn validate_run(&self) -> (r: Result<(), DomainError>)
        ensures
            outcome(r) == self.run_verdict(),
    {
        if !self.has_named_orders() {
            return Err(empty_field("release.order_identity"));
        }
        if let Some(session) = &self.session {
            if is_blank(&session.session_key) {
                return Err(empty_field("release.session"));
            }
        }
        if let Some(daemon) = &self.daemon {
            if is_blank(&daemon.lease_name) || is_blank(&daemon.owner_id) {
                return Err(empty_field("release.daemon"));
            }
        }
        Ok(())
    }

    fn validate_result(&self) -> (r: Result<(), DomainError>)
        ensures
            outcome(r) == self.result_verdict(),
    {
        if let Some(execution) = &self.execution {
            if !execution.check() {
                return Err(empty_field("release.execution"));
            }
        }
        if !self.has_outcomes() {
            return Err(empty_field("release.outcome"));
        }
        if let Some(learning) = &self.learning {
            if is_blank(&learning.transition_id) || learning.evaluation.kind
                != ArtifactKind::Evaluation {
                return Err(empty_field("release.learning"));
            }
        }
        if let Some(approval) = &self.human_approval {
            if is_blank(&approval.operator_identity) || (approval.status
                == ReleaseHumanApprovalStatus::Approved && approval.approved_at.is_none()) {
                return Err(empty_field("release.human_approval"));
            }
        }
        Ok(())
    }

    /// An outcome is there for every horizon.
    pub open spec fn covers_every_horizon(&self) -> bool {
        forall|horizon: OutcomeHorizon| #[trigger] self.outcomes@.dom().contains(horizon)
    }

    /// A real broker, a reconciled execution and an outcome for every horizon.
    pub open spec fn has_forward_outcomes(&self) -> bool {
        &&& self.broker matches Some(broker) && broker.trust is RealBroker
        &&& self.execution matches Some(execution) && execution.is_reconciled()
        &&& self.covers_every_horizon()
    }

    /// The research was approved after its outcome was known.
    pub open spec fn is_approved_after_outcome(&self) -> bool {
        ||| self.post_outcome_approval matches Some(approval) && approval.decision is Approved
        ||| self.human_approval matches Some(approval)
            && approval.is_post_outcome_research_approval && approval.status is Approved
            && approval.approved_at is Some
    }

    pub open spec fn is_intact(&self) -> bool {
        &&& self.integrity.config_hash_matches
        &&& self.integrity.workflow_hash_matches
        &&& self.integrity.broker_account_matches
        &&& self.integrity.daemon_epoch_current
    }

    /// On top of that something was learned, a campaign completed and the research approved.
    pub open spec fn has_robustness(&self) -> bool {
        &&& self.has_forward_outcomes()
        &&& self.learning is Some
        &&& self.canary matches Some(canary) && canary.status is Completed
        &&& self.is_approved_after_outcome()
        &&& self.is_intact()
    }

    /// How far the evidence goes.
    pub open spec fn tier(&self) -> ReleaseEvidenceTier {
        if self.environment is OfflineFixture {
            ReleaseEvidenceTier::E0Fixture
        } else if self.purpose is Replay || self.purpose is Shadow {
            ReleaseEvidenceTier::E1HistoricalReplay
        } else if self.purpose is Paper {
            if self.has_robustness() {
                ReleaseEvidenceTier::E4Robustness
            } else if self.has_forward_outcomes() {
                ReleaseEvidenceTier::E3ForwardPaper
            } else {
                ReleaseEvidenceTier::E2PaperMechanics
            }
        } else {
            ReleaseEvidenceTier::E0Fixture
        }
    }

    fn has_every_horizon(&self) -> (r: bool)
        ensures
            r == self.covers_every_horizon(),
    {
        let all = self.outcomes.contains_key(&OutcomeHorizon::T1) && self.outcomes.contains_key(
            &OutcomeHorizon::T3,
        ) && self.outcomes.contains_key(&OutcomeHorizon::T5);
        proof {
            if all {
                assert forall|horizon: OutcomeHorizon| #[trigger]
                    self.outcomes@.dom().contains(horizon) by {
                    assert(horizon is T1 || horizon is T3 || horizon is T5);
                }
            }
        }
        all
    }

    fn has_complete_forward_outcomes(&self) -> (r: bool)
        ensures
            r == self.has_forward_outcomes(),
    {
        let trusted = match &self.broker {
            Some(broker) => broker.trust == ReleaseBrokerEvidenceTrust::RealBroker,
            None => false,
        };
        let reconciled = match &self.execution {
            Some(execution) => execution.reconciliation.is_some()
                && execution.reconciliation_receipts.len() > 0,
            None => false,
        };
        trusted && reconciled && self.has_every_horizon()
    }

    fn has_completed_robustness_evidence(&self) -> (r: bool)
        ensures
            r == self.has_robustness(),
    {
        let completed = match &self.canary {
            Some(canary) => canary.status == CanaryCampaignStatus::Completed,
            None => false,
        };
        let decided = match &self.post_outcome_approval {
            Some(approval) => approval.decision == ResearchApprovalDecision::Approved,
            None => false,
        };
        let approved = match &self.human_approval {
            Some(approval) => approval.is_post_outcome_research_approval && approval.status
                == ReleaseHumanApprovalStatus::Approved && approval.approved_at.is_some(),
            None => false,
        };
        self.has_complete_forward_outcomes() && self.learning.is_some() && completed && (decided
            || approved) && self.integrity.config_hash_matches
            && self.integrity.workflow_hash_matches && self.integrity.broker_account_matches
            && self.integrity.daemon_epoch_current
    }

    /// What speaks against the run itself.
    pub open spec fn raises_of_run(&self, issue: IssueView) -> bool {
        match issue {
            IssueView::NonCanonicalRun { purpose } => !(self.purpose is Paper) && purpose
                == self.purpose.wire(),
            IssueView::DirtyWorktree => self.runtime matches Some(runtime)
                && runtime.dirty_worktree,
            IssueView::EngineeringOnlyProfile { profile } => self.environment is Real
                && self.purpose is Paper && (self.runtime matches Some(runtime)
                && runtime.experiment_profile@ == profile && profile != "paper-research"@),
            IssueView::UnsupportedResearchFeed { feed } => self.runtime matches Some(runtime)
                && runtime.experiment_profile@ == "paper-research"@ && runtime.market_data_feed@
                == feed && feed != "sip"@,
            IssueView::MissingModelKnowledgeCutoff => (self.purpose is Replay
                || self.purpose is Shadow) && (self.runtime matches Some(runtime)
                && runtime.model_knowledge_cutoff is None),
            IssueView::MissingRuntimeManifest => self.runtime is None,
            IssueView::OfflineFixture => self.environment is OfflineFixture,
            _ => false,
        }
    }

    /// What is missing of its origin and of the broker.
    pub open spec fn raises_of_origin(&self, issue: IssueView) -> bool {
        match issue {
            IssueView::MissingWorkflow => self.workflow is None,
            IssueView::MissingContracts => self.contracts.contract_hashes@.len() == 0
                || self.contracts.tool_set_hashes@.len() == 0
                || self.contracts.context_manifest_hashes@.len() == 0,
            IssueView::MissingProviderCapability => self.provider_routes@.len() == 0,
            IssueView::MissingSourceSnapshots => self.source_snapshots@.len() == 0,
            IssueView::FakeBrokerEvidence => self.broker matches Some(broker)
                && broker.trust is OfflineFixture,
            IssueView::MissingBrokerEvidence => self.broker is None || self.broker->0.orders@.len()
                == 0,
            IssueView::MissingSessionSlot => self.session is None,
            IssueView::MissingDaemonLease => self.daemon is None,
            _ => false,
        }
    }

    /// What is missing of its results, and what does not fit.
    pub open spec fn raises_of_result(&self, issue: IssueView) -> bool {
        match issue {
            IssueView::MissingExecution => self.execution is None,
            IssueView::MissingReconciliation => self.execution matches Some(execution)
                && !execution.is_reconciled(),
            IssueView::MissingOutcome { horizon } => !self.outcomes@.dom().contains(horizon),
            IssueView::MissingLearningTransition => self.learning is None,
            IssueView::MissingHumanApproval => self.human_approval is None,
            IssueView::HumanApprovalNotApproved => self.human_approval matches Some(approval)
                && !(approval.status is Approved),
            IssueView::ConfigHashDrift => !self.integrity.config_hash_matches,
            IssueView::WorkflowHashDrift => !self.integrity.workflow_hash_matches,
            IssueView::BrokerAccountMismatch => !self.integrity.broker_account_matches,
            IssueView::StaleDaemonEpoch => !self.integrity.daemon_epoch_current,
            _ => false,
        }
    }

    pub open spec fn raises(&self, issue: IssueView) -> bool {
        ||| self.raises_of_run(issue)
        ||| self.raises_of_origin(issue)
        ||| self.raises_of_result(issue)
    }

    fn add_run_issues(&self, issues: &mut OrderedSet<ReleaseEvidenceIssue>)
        ensures
            forall|issue: IssueView| #[trigger]
                final(issues)@.contains(issue) <==> old(issues)@.contains(issue)
                    || self.raises_of_run(issue),
    {
        issues.insert_if(
            self.purpose != RunPurpose::Paper,
            ReleaseEvidenceIssue::NonCanonicalRun { purpose: self.purpose.wire_name().to_owned() },
        );
        match &self.runtime {
            Some(runtime) => {
                let research = same_text(&runtime.experiment_profile, "paper-research");
                issues.insert_if(runtime.dirty_worktree, ReleaseEvidenceIssue::DirtyWorktree);
                issues.insert_if(
                    self.environment == ReleaseEvidenceEnvironment::Real && self.purpose
                        == RunPurpose::Paper && !research,
                    ReleaseEvidenceIssue::EngineeringOnlyProfile {
                        profile: runtime.experiment_profile.clone(),
                    },
                );
                issues.insert_if(
                    research && !same_text(&runtime.market_data_feed, "sip"),
                    ReleaseEvidenceIssue::UnsupportedResearchFeed {
                        feed: runtime.market_data_feed.clone(),
                    },
                );
                issues.insert_if(
                    (self.purpose == RunPurpose::Replay || self.purpose == RunPurpose::Shadow)
                        && runtime.model_knowledge_cutoff.is_none(),
                    ReleaseEvidenceIssue::MissingModelKnowledgeCutoff,
                );
            },
            None => {
                issues.insert(ReleaseEvidenceIssue::MissingRuntimeManifest);
            },
        }
        issues.insert_if(
            self.environment == ReleaseEvidenceEnvironment::OfflineFixture,
            ReleaseEvidenceIssue::OfflineFixture,
        );
    }

    fn add_origin_issues(&self, issues: &mut OrderedSet<ReleaseEvidenceIssue>)
        ensures
            forall|issue: IssueView| #[trigger]
                final(issues)@.contains(issue) <==> old(issues)@.contains(issue)
                    || self.raises_of_origin(issue),
    {
        issues.insert_if(self.workflow.is_none(), ReleaseEvidenceIssue::MissingWorkflow);
        issues.insert_if(
            self.contracts.contract_hashes.is_empty() || self.contracts.tool_set_hashes.is_empty()
                || self.contracts.context_manifest_hashes.is_empty(),
            ReleaseEvidenceIssue::MissingContracts,
        );
        issues.insert_if(
            self.provider_routes.is_empty(),
            ReleaseEvidenceIssue::MissingProviderCapability,
        );
        issues.insert_if(
            self.source_snapshots.is_empty(),
            ReleaseEvidenceIssue::MissingSourceSnapshots,
        );
        let fake = match &self.broker {
            Some(broker) => broker.trust == ReleaseBrokerEvidenceTrust::OfflineFixture,
            None => false,
        };
        let no_orders = match &self.broker {
            Some(broker) => broker.orders.len() == 0,
            None => true,
        };
        issues.insert_if(fake, ReleaseEvidenceIssue::FakeBrokerEvidence);
        issues.insert_if(no_orders, ReleaseEvidenceIssue::MissingBrokerEvidence);
        issues.insert_if(self.session.is_none(), ReleaseEvidenceIssue::MissingSessionSlot);
        issues.insert_if(self.daemon.is_none(), ReleaseEvidenceIssue::MissingDaemonLease);
    }

    fn add_result_issues(&self, issues: &mut OrderedSet<ReleaseEvidenceIssue>)
        ensures
            forall|issue: IssueView| #[trigger]
                final(issues)@.contains(issue) <==> old(issues)@.contains(issue)
                    || self.raises_of_result(issue),
    {
        let unreconciled = match &self.execution {
            Some(execution) => execution.reconciliation.is_none()
                || execution.reconciliation_receipts.len() == 0,
            None => false,
        };
        issues.insert_if(self.execution.is_none(), ReleaseEvidenceIssue::MissingExecution);
        issues.insert_if(unreconciled, ReleaseEvidenceIssue::MissingReconciliation);
        issues.insert_if(
            !self.outcomes.contains_key(&OutcomeHorizon::T1),
            ReleaseEvidenceIssue::MissingOutcome { horizon: OutcomeHorizon::T1 },
        );
        issues.insert_if(
            !self.outcomes.contains_key(&OutcomeHorizon::T3),
            ReleaseEvidenceIssue::MissingOutcome { horizon: OutcomeHorizon::T3 },
        );
        issues.insert_if(
            !self.outcomes.contains_key(&OutcomeHorizon::T5),
            ReleaseEvidenceIssue::MissingOutcome { horizon: OutcomeHorizon::T5 },
        );
        issues.insert_if(self.learning.is_none(), ReleaseEvidenceIssue::MissingLearningTransition);
        let refused = match &self.human_approval {
            Some(approval) => approval.status != ReleaseHumanApprovalStatus::Approved,
            None => false,
        };
        issues.insert_if(
            self.human_approval.is_none(),
            ReleaseEvidenceIssue::MissingHumanApproval,
        );
        issues.insert_if(refused, ReleaseEvidenceIssue::HumanApprovalNotApproved);
        issues.insert_if(
            !self.integrity.config_hash_matches,
            ReleaseEvidenceIssue::ConfigHashDrift,
        );
        issues.insert_if(
            !self.integrity.workflow_hash_matches,
            ReleaseEvidenceIssue::WorkflowHashDrift,
        );
        issues.insert_if(
            !self.integrity.broker_account_matches,
            ReleaseEvidenceIssue::BrokerAccountMismatch,
        );
        issues.insert_if(
            !self.integrity.daemon_epoch_current,
            ReleaseEvidenceIssue::StaleDaemonEpoch,
        );
    }

    fn derive_issues(&self) -> (r: OrderedSet<ReleaseEvidenceIssue>)
        ensures
            r@ == self.issues(),
            r.keys() == listing::<ReleaseEvidenceIssue>(self.issues()),
    {
        let mut issues: OrderedSet<ReleaseEvidenceIssue> = OrderedSet::new();
        self.add_run_issues(&mut issues);
        self.add_origin_issues(&mut issues);
        self.add_result_issues(&mut issues);
        let _count: usize = issues.len();
        proof {
            assert(issues@ =~= self.issues());
        }
        issues
    }

    /// All that keeps the release from being approved.
    pub open spec fn issues(&self) -> Set<IssueView> {
        Set::new(|issue: IssueView| self.raises(issue))
    }

    /// Not to be approved where an issue cannot be mended by more evidence, and approvable only
    /// without any.
    pub open spec fn status(&self) -> ReleaseEvidenceStatus {
        if exists|issue: IssueView| #[trigger] self.raises(issue) && is_hard(issue) {
            ReleaseEvidenceStatus::NotApprovable
        } else if forall|issue: IssueView| !(#[trigger] self.raises(issue)) {
            ReleaseEvidenceStatus::Approvable
        } else {
            ReleaseEvidenceStatus::Incomplete
        }
    }

    fn derive_status(&self, issues: &OrderedSet<ReleaseEvidenceIssue>) -> (r:
        ReleaseEvidenceStatus)
        requires
            issues@ == self.issues(),
        ensures
            r == self.status(),
    {
        let n: usize = issues.len();
        let mut i: usize = 0;
        while i < n
            invariant
                i <= n,
                n == issues.keys().len(),
                issues@ == issues.keys().to_set(),
                issues@ == self.issues(),
                forall|j: int| 0 <= j < i ==> !is_hard(#[trigger] issues.keys()[j]),
            decreases n - i,
        {
            let issue = issues.at(i);
            if issue.is_hard_failure() {
                proof {
                    assert(self.issues().contains(issue@));
                    assert(self.raises(issue@) && is_hard(issue@));
                }
                return ReleaseEvidenceStatus::NotApprovable;
            }
            i += 1;
        }
        proof {
            assert forall|issue: IssueView| #[trigger] self.raises(issue) implies !is_hard(
                issue,
            ) by {
                assert(issues@.contains(issue));
                let j = choose|j: int| 0 <= j < n && issues.keys()[j] == issue;
                assert(issues.keys()[j] == issue);
            }
            if n == 0 {
                assert forall|issue: IssueView| !(#[trigger] self.raises(issue)) by {
                    if self.raises(issue) {
                        assert(issues@.contains(issue));
                    }
                }
            } else {
                assert(issues@.contains(issues.keys()[0]));
                assert(self.raises(issues.keys()[0]));
            }
        }
        if n == 0 {
            ReleaseEvidenceStatus::Approvable
        } else {
            ReleaseEvidenceStatus::Incomplete
        }
    }
}

/// Issues that more evidence does not mend.
pub open spec fn is_hard(issue: IssueView) -> bool {
    match issue {
        IssueView::NonCanonicalRun { .. } => true,
        IssueView::DirtyWorktree => true,
        IssueView::OfflineFixture => true,
        IssueView::FakeBrokerEvidence => true,
        IssueView::HumanApprovalNotApproved => true,
        IssueView::ConfigHashDrift => true,
        IssueView::WorkflowHashDrift => true,
        IssueView::BrokerAccountMismatch => true,
        IssueView::StaleDaemonEpoch => true,
        IssueView::EngineeringOnlyProfile { .. } => true,
        IssueView::UnsupportedResearchFeed { .. } => true,
        IssueView::MissingModelKnowledgeCutoff => true,
        _ => false,
    }
}

impl ReleaseEvidenceIssue {
    fn is_hard_failure(&self) -> (r: bool)
        ensures
            r == is_hard(self@),
    {
        matches!(
            self,
            ReleaseEvidenceIssue::NonCanonicalRun { .. } | ReleaseEvidenceIssue::DirtyWorktree
                | ReleaseEvidenceIssue::OfflineFixture | ReleaseEvidenceIssue::FakeBrokerEvidence
                | ReleaseEvidenceIssue::HumanApprovalNotApproved
                | ReleaseEvidenceIssue::ConfigHashDrift | ReleaseEvidenceIssue::WorkflowHashDrift
                | ReleaseEvidenceIssue::BrokerAccountMismatch
                | ReleaseEvidenceIssue::StaleDaemonEpoch
                | ReleaseEvidenceIssue::EngineeringOnlyProfile { .. }
                | ReleaseEvidenceIssue::UnsupportedResearchFeed { .. }
                | ReleaseEvidenceIssue::MissingModelKnowledgeCutoff
        )
    }
}

fn validate_release_body(body: &ReleaseEvidenceBody) -> (r: Result<(), DomainError>)
    ensures
        outcome(r) == body.verdict(),
{
    body.validate_origin()?;
    body.validate_run()?;
    body.validate_result()
}

fn derive_evidence_tier(body: &ReleaseEvidenceBody) -> (r: ReleaseEvidenceTier)
    ensures
        r == body.tier(),
{
    if body.environment == ReleaseEvidenceEnvironment::OfflineFixture {
        return ReleaseEvidenceTier::E0Fixture;
    }
    match body.purpose {
        RunPurpose::Replay | RunPurpose::Shadow => ReleaseEvidenceTier::E1HistoricalReplay,
        RunPurpose::Paper => if body.has_completed_robustness_evidence() {
            ReleaseEvidenceTier::E4Robustness
        } else if body.has_complete_forward_outcomes() {
            ReleaseEvidenceTier::E3ForwardPaper
        } else {
            ReleaseEvidenceTier::E2PaperMechanics
        },
        _ => ReleaseEvidenceTier::E0Fixture,
    }
}

fn derive_release_state(body: &ReleaseEvidenceBody) -> (r: (
    ReleaseEvidenceStatus,
    OrderedSet<ReleaseEvidenceIssue>,
))
    ensures
        r.0 == body.status(),
        r.1@ == body.issues(),
        r.1.keys() == listing::<ReleaseEvidenceIssue>(body.issues()),
{
    let issues = body.derive_issues();
    let status = body.derive_status(&issues);
    (status, issues)
}

/// What the digest of a bundle is made of.
pub open spec fn bundle_json(body: ReleaseEvidenceBody) -> JsonTree {
    let issues = listing::<ReleaseEvidenceIssue>(body.issues());
    JsonTree::Object(
        no_members().insert("schema_version"@, DOMAIN_SCHEMA_VERSION.json()).insert(
            "bundle_version"@,
            RELEASE_EVIDENCE_BUNDLE_VERSION.json(),
        ).insert("evidence_tier"@, body.tier().json()).insert("status"@, body.status().json()).insert(
            "issues"@,
            JsonTree::List(
                issues.map_values(
                    |issue: IssueView| <ReleaseEvidenceIssue as JsonItem>::item_json(issue),
                ),
            ),
        ).insert("body"@, body.json()),
    )
}

fn release_bundle_hash(
    evidence_tier: ReleaseEvidenceTier,
    status: ReleaseEvidenceStatus,
    issues: &OrderedSet<ReleaseEvidenceIssue>,
    body: &ReleaseEvidenceBody,
) -> (r: ContentHash)
    requires
        evidence_tier == body.tier(),
        status == body.status(),
        issues.keys() == listing::<ReleaseEvidenceIssue>(body.issues()),
    ensures
        r@ == json_digest(bundle_json(*body)),
        is_digest(r@),
{
    let schema_version: u32 = DOMAIN_SCHEMA_VERSION;
    let bundle_version: u32 = RELEASE_EVIDENCE_BUNDLE_VERSION;
    let mut members = json_new_object();
    json_insert(&mut members, "schema_version", schema_version.to_json());
    json_insert(&mut members, "bundle_version", bundle_version.to_json());
    json_insert(&mut members, "evidence_tier", evidence_tier.to_json());
    json_insert(&mut members, "status", status.to_json());
    json_insert(&mut members, "issues", issues.to_json());
    json_insert(&mut members, "body", body.to_json());
    digest_of(&json_object(members))
}

impl ReleaseEvidenceBundle {
    /// The bundle says of its evidence what follows from it, under the digest of it all.
    pub open spec fn follows(&self) -> bool {
        &&& self.evidence_tier == self.body.tier()
        &&& self.status == self.body.status()
        &&& self.issues@ == self.body.issues()
        &&& self.bundle_hash@ == json_digest(bundle_json(self.body))
    }

    pub open spec fn has_current_versions(&self) -> bool {
        &&& self.schema_version == DOMAIN_SCHEMA_VERSION
        &&& self.bundle_version == RELEASE_EVIDENCE_BUNDLE_VERSION
    }

    pub open spec fn verdict(&self) -> Verdict {
        if !self.has_current_versions() {
            Err(ErrorView::InvalidContentHash)
        } else {
            first(self.body.verdict(), demand(self.follows(), ErrorView::InvalidContentHash))
        }
    }

    /// The bundle of valid evidence.
    pub fn materialize(body: ReleaseEvidenceBody) -> (r: Result<ReleaseEvidenceBundle, DomainError>)
        ensures
            match r {
                Ok(bundle) => {
                    &&& body.verdict() is Ok
                    &&& bundle.body == body
                    &&& bundle.has_current_versions()
                    &&& bundle.follows()
                    &&& bundle.verdict() is Ok
                },
                Err(e) => body.verdict() == Verdict::Err(e@),
            },
    {
        validate_release_body(&body)?;
        let evidence_tier = derive_evidence_tier(&body);
        let (status, issues) = derive_release_state(&body);
        let bundle_hash = release_bundle_hash(evidence_tier, status, &issues, &body);
        let bundle = ReleaseEvidenceBundle {
            schema_version: DOMAIN_SCHEMA_VERSION,
            bundle_version: RELEASE_EVIDENCE_BUNDLE_VERSION,
            evidence_tier,
            status,
            issues,
            body,
            bundle_hash,
        };
        bundle.validate()?;
        Ok(bundle)
    }

    pub fn validate(&self) -> (r: Result<(), DomainError>)
        ensures
            outcome(r) == self.verdict(),
    {
        if self.schema_version != DOMAIN_SCHEMA_VERSION || self.bundle_version
            != RELEASE_EVIDENCE_BUNDLE_VERSION {
            return Err(DomainError::InvalidContentHash);
        }
        validate_release_body(&self.body)?;
        let evidence_tier = derive_evidence_tier(&self.body);
        let (status, issues) = derive_release_state(&self.body);
        let expected = release_bundle_hash(evidence_tier, status, &issues, &self.body);
        if evidence_tier != self.evidence_tier || status != self.status || !issues.same(
            &self.issues,
        ) || !expected.same(&self.bundle_hash) {
            return Err(DomainError::InvalidContentHash);
        }
        Ok(())
    }
}

/// Evidence from a fixture is never enough for an approval, however complete it is.
pub proof fn fixture_is_never_approvable(body: ReleaseEvidenceBody)
    requires
        body.environment is OfflineFixture,
    ensures
        body.status() is NotApprovable,
        body.tier() is E0Fixture,
{
    assert(body.raises(IssueView::OfflineFixture) && is_hard(IssueView::OfflineFixture));
}

/// What can be approved is a real paper run with a clean tree and intact hashes, reconciled, with
/// an outcome for every horizon and a person's approval.
pub proof fn approvable_evidence_is_complete(body: ReleaseEvidenceBody)
    requires
        body.status() is Approvable,
    ensures
        body.environment is Real,
        body.purpose is Paper,
        body.runtime is Some,
        !body.runtime->0.dirty_worktree,
        body.runtime->0.experiment_profile@ == "paper-research"@,
        body.runtime->0.market_data_feed@ == "sip"@,
        body.execution is Some,
        body.execution->0.is_reconciled(),
        body.covers_every_horizon(),
        body.human_approval is Some,
        body.human_approval->0.status is Approved,
        body.is_intact(),
{
    assert(!body.raises(IssueView::OfflineFixture));
    assert(!body.raises(IssueView::NonCanonicalRun { purpose: body.purpose.wire() }));
    assert(!body.raises(IssueView::MissingRuntimeManifest));
    assert(!body.raises(IssueView::DirtyWorktree));
    let runtime = body.runtime->0;
    assert(!body.raises(
        IssueView::EngineeringOnlyProfile { profile: runtime.experiment_profile@ },
    ));
    assert(!body.raises(IssueView::UnsupportedResearchFeed { feed: runtime.market_data_feed@ }));
    assert(!body.raises(IssueView::MissingExecution));
    assert(!body.raises(IssueView::MissingReconciliation));
    assert forall|horizon: OutcomeHorizon| #[trigger] body.outcomes@.dom().contains(horizon) by {
        assert(!body.raises(IssueView::MissingOutcome { horizon }));
    }
    assert(!body.raises(IssueView::MissingHumanApproval));
    assert(!body.raises(IssueView::HumanApprovalNotApproved));
    assert(!body.raises(IssueView::ConfigHashDrift));
    assert(!body.raises(IssueView::WorkflowHashDrift));
    assert(!body.raises(IssueView::BrokerAccountMismatch));
    assert(!body.raises(IssueView::StaleDaemonEpoch));
}

/// Evidence of robustness is evidence of forward outcomes too: a real paper run, reconciled at a
/// real broker, with an outcome for every horizon.
pub proof fn robust_evidence_has_forward_outcomes(body: ReleaseEvidenceBody)
    requires
        body.tier() is E4Robustness,
    ensures
        body.environment is Real,
        body.purpose is Paper,
        body.has_forward_outcomes(),
        body.learning is Some,
        body.is_approved_after_outcome(),
        body.is_intact(),
{
}

/// A valid bundle claims of its evidence only what follows from it.
pub proof fn claims_of_a_valid_bundle_follow(bundle: ReleaseEvidenceBundle)
    requires
        bundle.verdict() is Ok,
    ensures
        bundle.evidence_tier == bundle.body.tier(),
        bundle.status == bundle.body.status(),
        forall|issue: IssueView| #[trigger]
            bundle.issues@.contains(issue) <==> bundle.body.raises(issue),
{
}

/// The bundle of the same evidence has the same digest.
pub proof fn one_body_has_one_digest(a: ReleaseEvidenceBundle, b: ReleaseEvidenceBundle)
    requires
        a.verdict() is Ok,
        b.verdict() is Ok,
        a.body == b.body,
    ensures
        a.bundle_hash@ == b.bundle_hash@,
        a.status == b.status,
        a.issues@ == b.issues@,
{
}

/// Evidence without any issue can be approved, and no other can.
pub proof fn approvable_evidence_has_no_issue(body: ReleaseEvidenceBody)
    ensures
        body.status() is Approvable <==> body.issues() == Set::<IssueView>::empty(),
{
    if body.status() is Approvable {
        assert(body.issues() =~= Set::<IssueView>::empty());
    }
    if body.issues() == Set::<IssueView>::empty() {
        assert forall|issue: IssueView| !(#[trigger] body.raises(issue)) by {
            assert(!body.issues().contains(issue));
        }
    }
}

/// Taking the receipts of the reconciliation and the outcome of one horizon away raises exactly
/// those two issues. Valid evidence stays valid, and evidence that could be approved is then
/// incomplete.
pub proof fn missing_receipts_and_outcome_are_reported(
    body: ReleaseEvidenceBody,
    less: ReleaseEvidenceBody,
    horizon: OutcomeHorizon,
)
    requires
        body.execution is Some,
        less.execution is Some,
        less.execution->0 == (ReleaseExecutionEvidence {
            reconciliation_receipts: less.execution->0.reconciliation_receipts,
            ..body.execution->0
        }),
        less.execution->0.reconciliation_receipts@.len() == 0,
        less.outcomes@ == body.outcomes@.remove(horizon),
        less == (ReleaseEvidenceBody {
            execution: less.execution,
            outcomes: less.outcomes,
            ..body
        }),
    ensures
        less.issues() == body.issues().insert(IssueView::MissingReconciliation).insert(
            IssueView::MissingOutcome { horizon },
        ),
        body.verdict() is Ok ==> less.verdict() is Ok,
        body.status() is Approvable ==> less.status() is Incomplete && less.issues() == set![
            IssueView::MissingReconciliation,
            IssueView::MissingOutcome { horizon },
        ],
{
    let first_issue = IssueView::MissingReconciliation;
    let second_issue = IssueView::MissingOutcome { horizon };
    assert forall|issue: IssueView| #[trigger] less.raises(issue) <==> body.raises(issue) || issue
        == first_issue || issue == second_issue by {
        assert(less.raises_of_run(issue) == body.raises_of_run(issue));
        assert(less.raises_of_origin(issue) == body.raises_of_origin(issue));
    }
    assert(less.issues() =~= body.issues().insert(first_issue).insert(second_issue));
    if body.status() is Approvable {
        approvable_evidence_has_no_issue(body);
        assert(less.raises(first_issue));
        assert(less.issues() =~= set![first_issue, second_issue]);
        assert forall|issue: IssueView| #[trigger] less.raises(issue) implies !is_hard(issue) by {
            assert(!body.raises(issue));
        }
    }
    if body.verdict() is Ok {
        assert forall|h: OutcomeHorizon| #[trigger] less.outcomes@.dom().contains(
            h,
        ) implies less.outcomes@[h].outcome.kind is Outcome by {
            assert(body.outcomes@.dom().contains(h));
        }
    }
}

/// A dirty tree raises exactly that issue and rules an approval out. Valid evidence stays valid.
pub proof fn dirty_tree_is_reported(body: ReleaseEvidenceBody, dirty: ReleaseEvidenceBody)
    requires
        body.runtime is Some,
        dirty.runtime == Some(
            (ReleaseRuntimeEvidence { dirty_worktree: true, ..body.runtime->0 }),
        ),
        dirty == (ReleaseEvidenceBody { runtime: dirty.runtime, ..body }),
    ensures
        dirty.issues() == body.issues().insert(IssueView::DirtyWorktree),
        dirty.status() is NotApprovable,
        dirty.verdict() == body.verdict(),
        body.status() is Approvable ==> dirty.issues() == set![IssueView::DirtyWorktree],
{
    assert forall|issue: IssueView| #[trigger] dirty.raises(issue) <==> body.raises(issue) || issue
        is DirtyWorktree by {
        assert(dirty.raises_of_origin(issue) == body.raises_of_origin(issue));
        assert(dirty.raises_of_result(issue) == body.raises_of_result(issue));
    }
    assert(dirty.issues() =~= body.issues().insert(IssueView::DirtyWorktree));
    assert(dirty.raises(IssueView::DirtyWorktree) && is_hard(IssueView::DirtyWorktree));
    if body.status() is Approvable {
        approvable_evidence_has_no_issue(body);
        assert(dirty.issues() =~= set![IssueView::DirtyWorktree]);
    }
    assert(dirty.runtime->0.is_sound() == body.runtime->0.is_sound());
    assert(dirty.provider_routes == body.provider_routes);
    assert(dirty.source_snapshots == body.source_snapshots);
    assert(dirty.sources_are_named() == body.sources_are_named());
    assert(dirty.origin_verdict() == body.origin_verdict());
    assert(dirty.run_verdict() == body.run_verdict());
    assert(dirty.result_verdict() == body.result_verdict());
}

/// Only a paper run whose digests, account and daemon are those that were recorded can be
/// approved: anything else is not mended by more evidence.
pub proof fn drifted_or_other_run_is_not_approvable(body: ReleaseEvidenceBody)
    requires
        !(body.purpose is Paper) || !body.is_intact(),
    ensures
        body.status() is NotApprovable,
{
    if !(body.purpose is Paper) {
        let issue = IssueView::NonCanonicalRun { purpose: body.purpose.wire() };
        assert(body.raises(issue) && is_hard(issue));
    } else if !body.integrity.config_hash_matches {
        assert(body.raises(IssueView::ConfigHashDrift) && is_hard(IssueView::ConfigHashDrift));
    } else if !body.integrity.workflow_hash_matches {
        assert(body.raises(IssueView::WorkflowHashDrift) && is_hard(IssueView::WorkflowHashDrift));
    } else if !body.integrity.broker_account_matches {
        let issue = IssueView::BrokerAccountMismatch;
        assert(body.raises(issue) && is_hard(issue));
    } else {
        assert(body.raises(IssueView::StaleDaemonEpoch) && is_hard(IssueView::StaleDaemonEpoch));
    }
}

/// What a release workflow evidence is refused with: the first fault that it has.
pub proof fn refusal_of_release_workflow_evidence_names_its_fault(this: ReleaseWorkflowEvidence)
    ensures
        this.plan.verdict() is Ok && !(this.graph.kind is WorkflowGraph
            && this.workflow_hash@ == this.graph.artifact_id@)
            ==> this.verdict() == Verdict::Err(ErrorView::InvalidContentHash),
{
}

/// What a release evidence body is refused with: the first fault that it has.
pub proof fn origin_verdict_of_release_evidence_body_names_its_fault(this: ReleaseEvidenceBody)
    ensures
        !(this.runtime matches Some(runtime) ==> runtime.is_sound())
            ==> this.origin_verdict() == Verdict::Err(empty("release.repository_commit"@)),
{
}

/// What a release evidence body is refused with: the first fault that it has.
pub proof fn run_verdict_of_release_evidence_body_names_its_fault(this: ReleaseEvidenceBody)
    ensures
        !(this.orders_are_named())
            ==> this.run_verdict() == Verdict::Err(empty("release.order_identity"@)),
        (this.orders_are_named()) && !(this.session matches Some(session)
            ==> !blank(session.session_key@))
            ==> this.run_verdict() == Verdict::Err(empty("release.session"@)),
        (this.orders_are_named()) && (this.session matches Some(session)
            ==> !blank(session.session_key@)) && !(this.daemon matches Some(daemon)
            ==> !blank(daemon.lease_name@) && !blank(daemon.owner_id@))
            ==> this.run_verdict() == Verdict::Err(empty("release.daemon"@)),
{
}

/// What a release evidence body is refused with: the first fault that it has.
pub proof fn result_verdict_of_release_evidence_body_names_its_fault(this: ReleaseEvidenceBody)
    ensures
        !(this.execution matches Some(execution) ==> execution.is_sound())
            ==> this.result_verdict() == Verdict::Err(empty("release.execution"@)),
        (this.execution matches Some(execution) ==> execution.is_sound())
            && !(this.outcomes_are_outcomes())
            ==> this.result_verdict() == Verdict::Err(empty("release.outcome"@)),
        (this.execution matches Some(execution) ==> execution.is_sound())
            && (this.outcomes_are_outcomes()) && !(this.learning matches Some(learning)
            ==> !blank(learning.transition_id@) && learning.evaluation.kind is Evaluation)
            ==> this.result_verdict() == Verdict::Err(empty("release.learning"@)),
        (this.execution matches Some(execution) ==> execution.is_sound())
            && (this.outcomes_are_outcomes()) && (this.learning matches Some(learning)
            ==> !blank(learning.transition_id@) && learning.evaluation.kind is Evaluation)
            && !(this.human_approval matches Some(approval) ==> !blank(approval.operator_identity@)
            && (approval.status is Approved ==> approval.approved_at is Some))
            ==> this.result_verdict() == Verdict::Err(empty("release.human_approval"@)),
{
}

/// What a release evidence bundle is refused with: the first fault that it has.
pub proof fn refusal_of_release_evidence_bundle_names_its_fault(this: ReleaseEvidenceBundle)
    ensures
        (!this.has_current_versions())
            ==> this.verdict() == Verdict::Err(ErrorView::InvalidContentHash),
        !(!this.has_current_versions()) && this.body.verdict() is Ok && !(this.follows())
            ==> this.verdict() == Verdict::Err(ErrorView::InvalidContentHash),
{
}

} // verus!
