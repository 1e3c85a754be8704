//! Artifacts: immutable records of content-addressed blobs, whose identity is the digest of
//! their own description.
use crate::error::{
    budget, demand, empty, empty_field, first, invalid_budget, outcome, DomainError, ErrorView,
    Verdict,
};
use crate::foundation::{
    digest_of, is_digest, json_digest, AttemptId, BlobRef, ContentHash, RunId, TaskId,
};
use crate::json::{
    json_content, json_insert, json_new_object, json_object, json_text, no_members, JsonItem,
    JsonKey, JsonTree, ToJson,
};
use crate::ordered::{
    ascending, diverges, duplicate_keys, is_ascending, precedes, precedes_is_asymmetric,
    rank_numbers, sort_keys, sorted, views, Key, Rank,
};
use crate::text::{
    blank, is_blank, rank_texts, same_text, text_code, text_code_is_injective,
};
use crate::time::UtcTime;
use crate::DOMAIN_SCHEMA_VERSION;
use vstd::prelude::*;

verus! {

/// The identity of an artifact: the digest of its description.
#[derive(Debug, PartialEq, Eq, PartialOrd, Ord, Hash)]
pub struct ArtifactId(pub ContentHash);

impl View for ArtifactId {
    type V = Seq<char>;

    open spec fn view(&self) -> Seq<char> {
        self.0@
    }
}

impl Clone for ArtifactId {
    fn clone(&self) -> (r: Self)
        ensures
            r == *self,
    {
        ArtifactId(self.0.clone())
    }
}

impl ArtifactId {
    pub fn as_hash(&self) -> (r: &ContentHash)
        ensures
            *r == self.0,
    {
        &self.0
    }

    pub fn same(&self, other: &ArtifactId) -> (r: bool)
        ensures
            r == (self@ == other@),
    {
        self.0.same(&other.0)
    }
}

impl Key for ArtifactId {
    open spec fn code(key: Seq<char>) -> Seq<int> {
        text_code(key)
    }

    proof fn code_is_injective(a: Seq<char>, b: Seq<char>) {
        text_code_is_injective(a, b);
    }

    fn rank(&self, other: &Self) -> (r: Rank) {
        proof {
            assert(Self::code(self@) == text_code(self.0@));
            assert(Self::code(other@) == text_code(other.0@));
        }
        rank_texts(self.0.as_str(), other.0.as_str())
    }

    fn duplicate(&self) -> (r: Self) {
        self.clone()
    }
}

impl JsonItem for ArtifactId {
    open spec fn item_json(key: Seq<char>) -> JsonTree {
        JsonTree::Text(key)
    }

    fn to_item_json(&self) -> (r: serde_json::Value) {
        self.to_json()
    }
}

impl JsonKey for ArtifactId {
    open spec fn key_text(key: Seq<char>) -> Seq<char> {
        key
    }

    fn to_key_text(&self) -> (r: String) {
        self.0.as_str().to_owned()
    }
}

impl ToJson for ArtifactId {
    open spec fn json(&self) -> JsonTree {
        JsonTree::Text(self@)
    }

    fn to_json(&self) -> (r: serde_json::Value) {
        self.0.to_json()
    }
}

/// What an artifact is. A runtime checkpoint is a boundary of the runtime and a debug record
/// an audit of one run: neither is evidence. A decision policy is a frozen calibration, apart
/// from candidate policies, which govern learned changes.
#[derive(Clone, Copy, Debug, PartialEq, Eq, PartialOrd, Ord, Hash, Structural)]
pub enum ArtifactKind {
    RuntimeCheckpoint,
    DebugRecord,
    RawEvidence,
    NormalizedEvidence,
    SemanticDetail,
    ContextManifest,
    ContextRepair,
    EvidenceNeed,
    Contract,
    WorkflowProposalDraft,
    WorkflowProposal,
    WorkflowGraph,
    RuntimeManifest,
    PaperLaunchApproval,
    AgentTurn,
    DeliberationNote,
    ToolCall,
    ToolResult,
    Claim,
    Critique,
    Resolution,
    DecisionProposal,
    ProposalReview,
    DecisionContext,
    Decision,
    ExecutionContext,
    ExecutionVerdict,
    ExecutionPlan,
    ExecutionCommitment,
    ExecutionCancel,
    ExecutionReprice,
    OrderReceipt,
    Reconciliation,
    OutcomeSchedule,
    RiskGroundTruthAssessment,
    RetrospectiveDraft,
    Retrospective,
    AttemptRelation,
    Experience,
    Outcome,
    Evaluation,
    ExperimentTrial,
    SearchBiasCertificate,
    CandidatePolicy,
    DecisionPolicy,
    CalibrationRiskLimits,
    CalibrationDataset,
    Lesson,
    FreezeState,
    QualificationStageReceipt,
    PostOutcomeResearchApproval,
    BehaviorBundleManifest,
    RegimeSnapshot,
    ReleaseEvidenceBundle,
}

impl ArtifactKind {
    /// The name of the variant in JSON.
    pub open spec fn wire(self) -> Seq<char> {
        match self {
            ArtifactKind::RuntimeCheckpoint => "runtime_checkpoint"@,
            ArtifactKind::DebugRecord => "debug_record"@,
            ArtifactKind::RawEvidence => "raw_evidence"@,
            ArtifactKind::NormalizedEvidence => "normalized_evidence"@,
            ArtifactKind::SemanticDetail => "semantic_detail"@,
            ArtifactKind::ContextManifest => "context_manifest"@,
            ArtifactKind::ContextRepair => "context_repair"@,
            ArtifactKind::EvidenceNeed => "evidence_need"@,
            ArtifactKind::Contract => "contract"@,
            ArtifactKind::WorkflowProposalDraft => "workflow_proposal_draft"@,
            ArtifactKind::WorkflowProposal => "workflow_proposal"@,
            ArtifactKind::WorkflowGraph => "workflow_graph"@,
            ArtifactKind::RuntimeManifest => "runtime_manifest"@,
            ArtifactKind::PaperLaunchApproval => "paper_launch_approval"@,
            ArtifactKind::AgentTurn => "agent_turn"@,
            ArtifactKind::DeliberationNote => "deliberation_note"@,
            ArtifactKind::ToolCall => "tool_call"@,
            ArtifactKind::ToolResult => "tool_result"@,
            ArtifactKind::Claim => "claim"@,
            ArtifactKind::Critique => "critique"@,
            ArtifactKind::Resolution => "resolution"@,
            ArtifactKind::DecisionProposal => "decision_proposal"@,
            ArtifactKind::ProposalReview => "proposal_review"@,
            ArtifactKind::DecisionContext => "decision_context"@,
            ArtifactKind::Decision => "decision"@,
            ArtifactKind::ExecutionContext => "execution_context"@,
            ArtifactKind::ExecutionVerdict => "execution_verdict"@,
            ArtifactKind::ExecutionPlan => "execution_plan"@,
            ArtifactKind::ExecutionCommitment => "execution_commitment"@,
            ArtifactKind::ExecutionCancel => "execution_cancel"@,
            ArtifactKind::ExecutionReprice => "execution_reprice"@,
            ArtifactKind::OrderReceipt => "order_receipt"@,
            ArtifactKind::Reconciliation => "reconciliation"@,
            ArtifactKind::OutcomeSchedule => "outcome_schedule"@,
            ArtifactKind::RiskGroundTruthAssessment => "risk_ground_truth_assessment"@,
            ArtifactKind::RetrospectiveDraft => "retrospective_draft"@,
            ArtifactKind::Retrospective => "retrospective"@,
            ArtifactKind::AttemptRelation => "attempt_relation"@,
            ArtifactKind::Experience => "experience"@,
            ArtifactKind::Outcome => "outcome"@,
            ArtifactKind::Evaluation => "evaluation"@,
            ArtifactKind::ExperimentTrial => "experiment_trial"@,
            ArtifactKind::SearchBiasCertificate => "search_bias_certificate"@,
            ArtifactKind::CandidatePolicy => "candidate_policy"@,
            ArtifactKind::DecisionPolicy => "decision_policy"@,
            ArtifactKind::CalibrationRiskLimits => "calibration_risk_limits"@,
            ArtifactKind::CalibrationDataset => "calibration_dataset"@,
            ArtifactKind::Lesson => "lesson"@,
            ArtifactKind::FreezeState => "freeze_state"@,
            ArtifactKind::QualificationStageReceipt => "qualification_stage_receipt"@,
            ArtifactKind::PostOutcomeResearchApproval => "post_outcome_research_approval"@,
            ArtifactKind::BehaviorBundleManifest => "behavior_bundle_manifest"@,
            ArtifactKind::RegimeSnapshot => "regime_snapshot"@,
            ArtifactKind::ReleaseEvidenceBundle => "release_evidence_bundle"@,
        }
    }

    /// The name of the variant in JSON.
    pub fn wire_name(self) -> (r: &'static str)
        ensures
            r@ == self.wire(),
    {
        match self {
            ArtifactKind::RuntimeCheckpoint => "runtime_checkpoint",
            ArtifactKind::DebugRecord => "debug_record",
            ArtifactKind::RawEvidence => "raw_evidence",
            ArtifactKind::NormalizedEvidence => "normalized_evidence",
            ArtifactKind::SemanticDetail => "semantic_detail",
            ArtifactKind::ContextManifest => "context_manifest",
            ArtifactKind::ContextRepair => "context_repair",
            ArtifactKind::EvidenceNeed => "evidence_need",
            ArtifactKind::Contract => "contract",
            ArtifactKind::WorkflowProposalDraft => "workflow_proposal_draft",
            ArtifactKind::WorkflowProposal => "workflow_proposal",
            ArtifactKind::WorkflowGraph => "workflow_graph",
            ArtifactKind::RuntimeManifest => "runtime_manifest",
            ArtifactKind::PaperLaunchApproval => "paper_launch_approval",
            ArtifactKind::AgentTurn => "agent_turn",
            ArtifactKind::DeliberationNote => "deliberation_note",
            ArtifactKind::ToolCall => "tool_call",
            ArtifactKind::ToolResult => "tool_result",
            ArtifactKind::Claim => "claim",
            ArtifactKind::Critique => "critique",
            ArtifactKind::Resolution => "resolution",
            ArtifactKind::DecisionProposal => "decision_proposal",
            ArtifactKind::ProposalReview => "proposal_review",
            ArtifactKind::DecisionContext => "decision_context",
            ArtifactKind::Decision => "decision",
            ArtifactKind::ExecutionContext => "execution_context",
            ArtifactKind::ExecutionVerdict => "execution_verdict",
            ArtifactKind::ExecutionPlan => "execution_plan",
            ArtifactKind::ExecutionCommitment => "execution_commitment",
            ArtifactKind::ExecutionCancel => "execution_cancel",
            ArtifactKind::ExecutionReprice => "execution_reprice",
            ArtifactKind::OrderReceipt => "order_receipt",
            ArtifactKind::Reconciliation => "reconciliation",
            ArtifactKind::OutcomeSchedule => "outcome_schedule",
            ArtifactKind::RiskGroundTruthAssessment => "risk_ground_truth_assessment",
            ArtifactKind::RetrospectiveDraft => "retrospective_draft",
            ArtifactKind::Retrospective => "retrospective",
            ArtifactKind::AttemptRelation => "attempt_relation",
            ArtifactKind::Experience => "experience",
            ArtifactKind::Outcome => "outcome",
            ArtifactKind::Evaluation => "evaluation",
            ArtifactKind::ExperimentTrial => "experiment_trial",
            ArtifactKind::SearchBiasCertificate => "search_bias_certificate",
            ArtifactKind::CandidatePolicy => "candidate_policy",
            ArtifactKind::DecisionPolicy => "decision_policy",
            ArtifactKind::CalibrationRiskLimits => "calibration_risk_limits",
            ArtifactKind::CalibrationDataset => "calibration_dataset",
            ArtifactKind::Lesson => "lesson",
            ArtifactKind::FreezeState => "freeze_state",
            ArtifactKind::QualificationStageReceipt => "qualification_stage_receipt",
            ArtifactKind::PostOutcomeResearchApproval => "post_outcome_research_approval",
            ArtifactKind::BehaviorBundleManifest => "behavior_bundle_manifest",
            ArtifactKind::RegimeSnapshot => "regime_snapshot",
            ArtifactKind::ReleaseEvidenceBundle => "release_evidence_bundle",
        }
    }
}

impl ToJson for ArtifactKind {
    open spec fn json(&self) -> JsonTree {
        JsonTree::Text(self.wire())
    }

    fn to_json(&self) -> (r: serde_json::Value) {
        json_text(self.wire_name())
    }
}

impl ArtifactKind {
    /// The name of the variant.
    pub open spec fn variant(self) -> Seq<char> {
        match self {
            ArtifactKind::RuntimeCheckpoint => "RuntimeCheckpoint"@,
            ArtifactKind::DebugRecord => "DebugRecord"@,
            ArtifactKind::RawEvidence => "RawEvidence"@,
            ArtifactKind::NormalizedEvidence => "NormalizedEvidence"@,
            ArtifactKind::SemanticDetail => "SemanticDetail"@,
            ArtifactKind::ContextManifest => "ContextManifest"@,
            ArtifactKind::ContextRepair => "ContextRepair"@,
            ArtifactKind::EvidenceNeed => "EvidenceNeed"@,
            ArtifactKind::Contract => "Contract"@,
            ArtifactKind::WorkflowProposalDraft => "WorkflowProposalDraft"@,
            ArtifactKind::WorkflowProposal => "WorkflowProposal"@,
            ArtifactKind::WorkflowGraph => "WorkflowGraph"@,
            ArtifactKind::RuntimeManifest => "RuntimeManifest"@,
            ArtifactKind::PaperLaunchApproval => "PaperLaunchApproval"@,
            ArtifactKind::AgentTurn => "AgentTurn"@,
            ArtifactKind::DeliberationNote => "DeliberationNote"@,
            ArtifactKind::ToolCall => "ToolCall"@,
            ArtifactKind::ToolResult => "ToolResult"@,
            ArtifactKind::Claim => "Claim"@,
            ArtifactKind::Critique => "Critique"@,
            ArtifactKind::Resolution => "Resolution"@,
            ArtifactKind::DecisionProposal => "DecisionProposal"@,
            ArtifactKind::ProposalReview => "ProposalReview"@,
            ArtifactKind::DecisionContext => "DecisionContext"@,
            ArtifactKind::Decision => "Decision"@,
            ArtifactKind::ExecutionContext => "ExecutionContext"@,
            ArtifactKind::ExecutionVerdict => "ExecutionVerdict"@,
            ArtifactKind::ExecutionPlan => "ExecutionPlan"@,
            ArtifactKind::ExecutionCommitment => "ExecutionCommitment"@,
            ArtifactKind::ExecutionCancel => "ExecutionCancel"@,
            ArtifactKind::ExecutionReprice => "ExecutionReprice"@,
            ArtifactKind::OrderReceipt => "OrderReceipt"@,
            ArtifactKind::Reconciliation => "Reconciliation"@,
            ArtifactKind::OutcomeSchedule => "OutcomeSchedule"@,
            ArtifactKind::RiskGroundTruthAssessment => "RiskGroundTruthAssessment"@,
            ArtifactKind::RetrospectiveDraft => "RetrospectiveDraft"@,
            ArtifactKind::Retrospective => "Retrospective"@,
            ArtifactKind::AttemptRelation => "AttemptRelation"@,
            ArtifactKind::Experience => "Experience"@,
            ArtifactKind::Outcome => "Outcome"@,
            ArtifactKind::Evaluation => "Evaluation"@,
            ArtifactKind::ExperimentTrial => "ExperimentTrial"@,
            ArtifactKind::SearchBiasCertificate => "SearchBiasCertificate"@,
            ArtifactKind::CandidatePolicy => "CandidatePolicy"@,
            ArtifactKind::DecisionPolicy => "DecisionPolicy"@,
            ArtifactKind::CalibrationRiskLimits => "CalibrationRiskLimits"@,
            ArtifactKind::CalibrationDataset => "CalibrationDataset"@,
            ArtifactKind::Lesson => "Lesson"@,
            ArtifactKind::FreezeState => "FreezeState"@,
            ArtifactKind::QualificationStageReceipt => "QualificationStageReceipt"@,
            ArtifactKind::PostOutcomeResearchApproval => "PostOutcomeResearchApproval"@,
            ArtifactKind::BehaviorBundleManifest => "BehaviorBundleManifest"@,
            ArtifactKind::RegimeSnapshot => "RegimeSnapshot"@,
            ArtifactKind::ReleaseEvidenceBundle => "ReleaseEvidenceBundle"@,
        }
    }

    /// The name of the variant.
    pub fn variant_name(self) -> (r: &'static str)
        ensures
            r@ == self.variant(),
    {
        match self {
            ArtifactKind::RuntimeCheckpoint => "RuntimeCheckpoint",
            ArtifactKind::DebugRecord => "DebugRecord",
            ArtifactKind::RawEvidence => "RawEvidence",
            ArtifactKind::NormalizedEvidence => "NormalizedEvidence",
            ArtifactKind::SemanticDetail => "SemanticDetail",
            ArtifactKind::ContextManifest => "ContextManifest",
            ArtifactKind::ContextRepair => "ContextRepair",
            ArtifactKind::EvidenceNeed => "EvidenceNeed",
            ArtifactKind::Contract => "Contract",
            ArtifactKind::WorkflowProposalDraft => "WorkflowProposalDraft",
            ArtifactKind::WorkflowProposal => "WorkflowProposal",
            ArtifactKind::WorkflowGraph => "WorkflowGraph",
            ArtifactKind::RuntimeManifest => "RuntimeManifest",
            ArtifactKind::PaperLaunchApproval => "PaperLaunchApproval",
            ArtifactKind::AgentTurn => "AgentTurn",
            ArtifactKind::DeliberationNote => "DeliberationNote",
            ArtifactKind::ToolCall => "ToolCall",
            ArtifactKind::ToolResult => "ToolResult",
            ArtifactKind::Claim => "Claim",
            ArtifactKind::Critique => "Critique",
            ArtifactKind::Resolution => "Resolution",
            ArtifactKind::DecisionProposal => "DecisionProposal",
            ArtifactKind::ProposalReview => "ProposalReview",
            ArtifactKind::DecisionContext => "DecisionContext",
            ArtifactKind::Decision => "Decision",
            ArtifactKind::ExecutionContext => "ExecutionContext",
            ArtifactKind::ExecutionVerdict => "ExecutionVerdict",
            ArtifactKind::ExecutionPlan => "ExecutionPlan",
            ArtifactKind::ExecutionCommitment => "ExecutionCommitment",
            ArtifactKind::ExecutionCancel => "ExecutionCancel",
            ArtifactKind::ExecutionReprice => "ExecutionReprice",
            ArtifactKind::OrderReceipt => "OrderReceipt",
            ArtifactKind::Reconciliation => "Reconciliation",
            ArtifactKind::OutcomeSchedule => "OutcomeSchedule",
            ArtifactKind::RiskGroundTruthAssessment => "RiskGroundTruthAssessment",
            ArtifactKind::RetrospectiveDraft => "RetrospectiveDraft",
            ArtifactKind::Retrospective => "Retrospective",
            ArtifactKind::AttemptRelation => "AttemptRelation",
            ArtifactKind::Experience => "Experience",
            ArtifactKind::Outcome => "Outcome",
            ArtifactKind::Evaluation => "Evaluation",
            ArtifactKind::ExperimentTrial => "ExperimentTrial",
            ArtifactKind::SearchBiasCertificate => "SearchBiasCertificate",
            ArtifactKind::CandidatePolicy => "CandidatePolicy",
            ArtifactKind::DecisionPolicy => "DecisionPolicy",
            ArtifactKind::CalibrationRiskLimits => "CalibrationRiskLimits",
            ArtifactKind::CalibrationDataset => "CalibrationDataset",
            ArtifactKind::Lesson => "Lesson",
            ArtifactKind::FreezeState => "FreezeState",
            ArtifactKind::QualificationStageReceipt => "QualificationStageReceipt",
            ArtifactKind::PostOutcomeResearchApproval => "PostOutcomeResearchApproval",
            ArtifactKind::BehaviorBundleManifest => "BehaviorBundleManifest",
            ArtifactKind::RegimeSnapshot => "RegimeSnapshot",
            ArtifactKind::ReleaseEvidenceBundle => "ReleaseEvidenceBundle",
        }
    }
}

impl View for ArtifactKind {
    type V = ArtifactKind;

    open spec fn view(&self) -> ArtifactKind {
        *self
    }
}

impl ArtifactKind {
    /// Where the variant stands in the order.
    pub open spec fn place(self) -> u32 {
        match self {
            ArtifactKind::RuntimeCheckpoint => 0,
            ArtifactKind::DebugRecord => 1,
            ArtifactKind::RawEvidence => 2,
            ArtifactKind::NormalizedEvidence => 3,
            ArtifactKind::SemanticDetail => 4,
            ArtifactKind::ContextManifest => 5,
            ArtifactKind::ContextRepair => 6,
            ArtifactKind::EvidenceNeed => 7,
            ArtifactKind::Contract => 8,
            ArtifactKind::WorkflowProposalDraft => 9,
            ArtifactKind::WorkflowProposal => 10,
            ArtifactKind::WorkflowGraph => 11,
            ArtifactKind::RuntimeManifest => 12,
            ArtifactKind::PaperLaunchApproval => 13,
            ArtifactKind::AgentTurn => 14,
            ArtifactKind::DeliberationNote => 15,
            ArtifactKind::ToolCall => 16,
            ArtifactKind::ToolResult => 17,
            ArtifactKind::Claim => 18,
            ArtifactKind::Critique => 19,
            ArtifactKind::Resolution => 20,
            ArtifactKind::DecisionProposal => 21,
            ArtifactKind::ProposalReview => 22,
            ArtifactKind::DecisionContext => 23,
            ArtifactKind::Decision => 24,
            ArtifactKind::ExecutionContext => 25,
            ArtifactKind::ExecutionVerdict => 26,
            ArtifactKind::ExecutionPlan => 27,
            ArtifactKind::ExecutionCommitment => 28,
            ArtifactKind::ExecutionCancel => 29,
            ArtifactKind::ExecutionReprice => 30,
            ArtifactKind::OrderReceipt => 31,
            ArtifactKind::Reconciliation => 32,
            ArtifactKind::OutcomeSchedule => 33,
            ArtifactKind::RiskGroundTruthAssessment => 34,
            ArtifactKind::RetrospectiveDraft => 35,
            ArtifactKind::Retrospective => 36,
            ArtifactKind::AttemptRelation => 37,
            ArtifactKind::Experience => 38,
            ArtifactKind::Outcome => 39,
            ArtifactKind::Evaluation => 40,
            ArtifactKind::ExperimentTrial => 41,
            ArtifactKind::SearchBiasCertificate => 42,
            ArtifactKind::CandidatePolicy => 43,
            ArtifactKind::DecisionPolicy => 44,
            ArtifactKind::CalibrationRiskLimits => 45,
            ArtifactKind::CalibrationDataset => 46,
            ArtifactKind::Lesson => 47,
            ArtifactKind::FreezeState => 48,
            ArtifactKind::QualificationStageReceipt => 49,
            ArtifactKind::PostOutcomeResearchApproval => 50,
            ArtifactKind::BehaviorBundleManifest => 51,
            ArtifactKind::RegimeSnapshot => 52,
            ArtifactKind::ReleaseEvidenceBundle => 53,
        }
    }

    pub(crate) fn place_number(self) -> (r: u32)
        ensures
            r == self.place(),
    {
        match self {
            ArtifactKind::RuntimeCheckpoint => 0,
            ArtifactKind::DebugRecord => 1,
            ArtifactKind::RawEvidence => 2,
            ArtifactKind::NormalizedEvidence => 3,
            ArtifactKind::SemanticDetail => 4,
            ArtifactKind::ContextManifest => 5,
            ArtifactKind::ContextRepair => 6,
            ArtifactKind::EvidenceNeed => 7,
            ArtifactKind::Contract => 8,
            ArtifactKind::WorkflowProposalDraft => 9,
            ArtifactKind::WorkflowProposal => 10,
            ArtifactKind::WorkflowGraph => 11,
            ArtifactKind::RuntimeManifest => 12,
            ArtifactKind::PaperLaunchApproval => 13,
            ArtifactKind::AgentTurn => 14,
            ArtifactKind::DeliberationNote => 15,
            ArtifactKind::ToolCall => 16,
            ArtifactKind::ToolResult => 17,
            ArtifactKind::Claim => 18,
            ArtifactKind::Critique => 19,
            ArtifactKind::Resolution => 20,
            ArtifactKind::DecisionProposal => 21,
            ArtifactKind::ProposalReview => 22,
            ArtifactKind::DecisionContext => 23,
            ArtifactKind::Decision => 24,
            ArtifactKind::ExecutionContext => 25,
            ArtifactKind::ExecutionVerdict => 26,
            ArtifactKind::ExecutionPlan => 27,
            ArtifactKind::ExecutionCommitment => 28,
            ArtifactKind::ExecutionCancel => 29,
            ArtifactKind::ExecutionReprice => 30,
            ArtifactKind::OrderReceipt => 31,
            ArtifactKind::Reconciliation => 32,
            ArtifactKind::OutcomeSchedule => 33,
            ArtifactKind::RiskGroundTruthAssessment => 34,
            ArtifactKind::RetrospectiveDraft => 35,
            ArtifactKind::Retrospective => 36,
            ArtifactKind::AttemptRelation => 37,
            ArtifactKind::Experience => 38,
            ArtifactKind::Outcome => 39,
            ArtifactKind::Evaluation => 40,
            ArtifactKind::ExperimentTrial => 41,
            ArtifactKind::SearchBiasCertificate => 42,
            ArtifactKind::CandidatePolicy => 43,
            ArtifactKind::DecisionPolicy => 44,
            ArtifactKind::CalibrationRiskLimits => 45,
            ArtifactKind::CalibrationDataset => 46,
            ArtifactKind::Lesson => 47,
            ArtifactKind::FreezeState => 48,
            ArtifactKind::QualificationStageReceipt => 49,
            ArtifactKind::PostOutcomeResearchApproval => 50,
            ArtifactKind::BehaviorBundleManifest => 51,
            ArtifactKind::RegimeSnapshot => 52,
            ArtifactKind::ReleaseEvidenceBundle => 53,
        }
    }
}

impl Key for ArtifactKind {
    open spec fn code(key: ArtifactKind) -> Seq<int> {
        seq![key.place() as int]
    }

    proof fn code_is_injective(a: ArtifactKind, b: ArtifactKind) {
        assert(Self::code(a)[0] == a.place() as int && Self::code(b)[0] == b.place() as int);
    }

    fn rank(&self, other: &Self) -> (r: Rank) {
        rank_numbers((*self).place_number(), (*other).place_number())
    }

    fn duplicate(&self) -> (r: Self) {
        *self
    }
}

impl JsonItem for ArtifactKind {
    open spec fn item_json(key: ArtifactKind) -> JsonTree {
        JsonTree::Text(key.wire())
    }

    fn to_item_json(&self) -> (r: serde_json::Value) {
        json_text((*self).wire_name())
    }
}

impl JsonKey for ArtifactKind {
    open spec fn key_text(key: ArtifactKind) -> Seq<char> {
        key.wire()
    }

    fn to_key_text(&self) -> (r: String) {
        (*self).wire_name().to_owned()
    }
}

impl ArtifactKind {
    /// The kinds that never become canonical: working records of a run.
    pub open spec fn is_working_record(self) -> bool {
        ||| self is RuntimeCheckpoint
        ||| self is DebugRecord
        ||| self is ContextManifest
        ||| self is ContextRepair
        ||| self is EvidenceNeed
        ||| self is WorkflowProposalDraft
        ||| self is WorkflowProposal
        ||| self is WorkflowGraph
        ||| self is AgentTurn
        ||| self is DeliberationNote
        ||| self is ToolCall
        ||| self is ToolResult
        ||| self is Resolution
        ||| self is DecisionProposal
        ||| self is ProposalReview
        ||| self is RetrospectiveDraft
        ||| self is AttemptRelation
    }

    /// An artifact of this kind is evidence, in whatever form.
    pub open spec fn is_any_evidence(self) -> bool {
        self is RawEvidence || self is NormalizedEvidence || self is SemanticDetail
    }

    /// Whether an artifact of this kind is evidence, in whatever form.
    pub fn is_evidence(self) -> (r: bool)
        ensures
            r == self.is_any_evidence(),
    {
        matches!(
            self,
            ArtifactKind::RawEvidence | ArtifactKind::NormalizedEvidence
                | ArtifactKind::SemanticDetail
        )
    }

    pub fn can_be_canonical(self) -> (r: bool)
        ensures
            r == !self.is_working_record(),
    {
        matches!(
            self,
            ArtifactKind::RawEvidence
                | ArtifactKind::NormalizedEvidence
                | ArtifactKind::SemanticDetail
                | ArtifactKind::Contract
                | ArtifactKind::Claim
                | ArtifactKind::Critique
                | ArtifactKind::DecisionContext
                | ArtifactKind::Decision
                | ArtifactKind::ExecutionContext
                | ArtifactKind::ExecutionVerdict
                | ArtifactKind::ExecutionPlan
                | ArtifactKind::ExecutionCommitment
                | ArtifactKind::ExecutionCancel
                | ArtifactKind::ExecutionReprice
                | ArtifactKind::OrderReceipt
                | ArtifactKind::Reconciliation
                | ArtifactKind::OutcomeSchedule
                | ArtifactKind::RiskGroundTruthAssessment
                | ArtifactKind::Retrospective
                | ArtifactKind::Experience
                | ArtifactKind::Outcome
                | ArtifactKind::Evaluation
                | ArtifactKind::ExperimentTrial
                | ArtifactKind::SearchBiasCertificate
                | ArtifactKind::CandidatePolicy
                | ArtifactKind::DecisionPolicy
                | ArtifactKind::CalibrationRiskLimits
                | ArtifactKind::CalibrationDataset
                | ArtifactKind::Lesson
                | ArtifactKind::FreezeState
                | ArtifactKind::RuntimeManifest
                | ArtifactKind::PaperLaunchApproval
                | ArtifactKind::QualificationStageReceipt
                | ArtifactKind::PostOutcomeResearchApproval
                | ArtifactKind::BehaviorBundleManifest
                | ArtifactKind::RegimeSnapshot
                | ArtifactKind::ReleaseEvidenceBundle
        )
    }
}

/// How long an artifact is kept and who may rely on it.
#[derive(Clone, Copy, Debug, PartialEq, Eq, PartialOrd, Ord, Hash, Structural)]
pub enum ArtifactLifecycle {
    Ephemeral,
    RunScoped,
    Canonical,
}

impl ArtifactLifecycle {
    /// The name of the variant in JSON.
    pub open spec fn wire(self) -> Seq<char> {
        match self {
            ArtifactLifecycle::Ephemeral => "ephemeral"@,
            ArtifactLifecycle::RunScoped => "run_scoped"@,
            ArtifactLifecycle::Canonical => "canonical"@,
        }
    }

    /// The name of the variant in JSON.
    pub fn wire_name(self) -> (r: &'static str)
        ensures
            r@ == self.wire(),
    {
        match self {
            ArtifactLifecycle::Ephemeral => "ephemeral",
            ArtifactLifecycle::RunScoped => "run_scoped",
            ArtifactLifecycle::Canonical => "canonical",
        }
    }
}

impl ToJson for ArtifactLifecycle {
    open spec fn json(&self) -> JsonTree {
        JsonTree::Text(self.wire())
    }

    fn to_json(&self) -> (r: serde_json::Value) {
        json_text(self.wire_name())
    }
}

/// How long a document is kept.
#[derive(Clone, Copy, Debug, PartialEq, Eq, PartialOrd, Ord, Hash, Structural)]
pub enum DocumentLifecycle {
    Ephemeral,
    RunScoped,
    Canonical,
}

impl ArtifactLifecycle {
    /// An artifact that is made of a document is kept as long as the document.
    pub fn from_document(lifecycle: DocumentLifecycle) -> (r: ArtifactLifecycle)
        ensures
            r is Ephemeral <==> lifecycle is Ephemeral,
            r is RunScoped <==> lifecycle is RunScoped,
            r is Canonical <==> lifecycle is Canonical,
    {
        match lifecycle {
            DocumentLifecycle::Ephemeral => ArtifactLifecycle::Ephemeral,
            DocumentLifecycle::RunScoped => ArtifactLifecycle::RunScoped,
            DocumentLifecycle::Canonical => ArtifactLifecycle::Canonical,
        }
    }
}

/// A reference to an artifact of a kind.
#[derive(Debug, PartialEq, Eq, PartialOrd, Ord)]
pub struct ArtifactRef {
    pub artifact_id: ArtifactId,
    pub kind: ArtifactKind,
}

pub ghost struct RefView {
    pub artifact_id: Seq<char>,
    pub kind: ArtifactKind,
}

impl View for ArtifactRef {
    type V = RefView;

    open spec fn view(&self) -> RefView {
        RefView { artifact_id: self.artifact_id@, kind: self.kind }
    }
}

impl Clone for ArtifactRef {
    fn clone(&self) -> (r: Self)
        ensures
            r == *self,
    {
        ArtifactRef { artifact_id: self.artifact_id.clone(), kind: self.kind }
    }
}

impl ArtifactRef {
    pub fn same(&self, other: &ArtifactRef) -> (r: bool)
        ensures
            r == (self@ == other@),
    {
        self.artifact_id.same(&other.artifact_id) && self.kind == other.kind
    }
}

/// References are ordered by the artifact, then by the kind.
pub open spec fn ref_code(key: RefView) -> Seq<int> {
    text_code(key.artifact_id) + seq![-1int, key.kind.place() as int]
}

impl Key for ArtifactRef {
    open spec fn code(key: RefView) -> Seq<int> {
        ref_code(key)
    }

    proof fn code_is_injective(a: RefView, b: RefView) {
        let p = ref_code(a);
        let q = ref_code(b);
        let x = text_code(a.artifact_id);
        let y = text_code(b.artifact_id);
        assert(p.len() == x.len() + 2 && q.len() == y.len() + 2);
        assert(p[p.len() - 1] == a.kind.place() as int && q[q.len() - 1] == b.kind.place() as int);
        assert forall|i: int| 0 <= i < x.len() implies x[i] == y[i] by {
            assert(p[i] == x[i] && q[i] == y[i]);
        }
        assert(x =~= y);
        text_code_is_injective(a.artifact_id, b.artifact_id);
    }

    fn rank(&self, other: &Self) -> (r: Rank) {
        let ghost x = text_code(self.artifact_id@);
        let ghost y = text_code(other.artifact_id@);
        let ghost p = ref_code(self@);
        let ghost q = ref_code(other@);
        let by_id = self.artifact_id.rank(&other.artifact_id);
        proof {
            if x == y {
                let k = x.len() + 1;
                assert(forall|i: int| 0 <= i < k ==> p[i] == q[i]);
                assert(p[k as int] == self.kind.place() as int && q[k as int]
                    == other.kind.place() as int);
                if self.kind.place() < other.kind.place() {
                    assert(diverges(p, q, k as int));
                } else if self.kind.place() > other.kind.place() {
                    assert(diverges(q, p, k as int));
                    precedes_is_asymmetric(q, p);
                } else {
                    assert(p =~= q);
                }
            } else if precedes(x, y) {
                ids_precede(self@, other@);
            } else {
                crate::ordered::precedes_is_total(x, y);
                ids_precede(other@, self@);
            }
        }
        match by_id {
            Rank::Same => {
                let a: u32 = self.kind.place_number();
                let b: u32 = other.kind.place_number();
                if a < b {
                    Rank::Before
                } else if a == b {
                    Rank::Same
                } else {
                    Rank::After
                }
            },
            _ => by_id,
        }
    }

    fn duplicate(&self) -> (r: Self) {
        self.clone()
    }
}

proof fn char_is_no_negative_number(c: char)
    ensures
        c as int >= 0,
{
}

proof fn ids_precede(a: RefView, b: RefView)
    requires
        precedes(text_code(a.artifact_id), text_code(b.artifact_id)),
    ensures
        precedes(ref_code(a), ref_code(b)),
        !precedes(ref_code(b), ref_code(a)),
        ref_code(a) != ref_code(b),
{
    let x = text_code(a.artifact_id);
    let y = text_code(b.artifact_id);
    let k = choose|k: int| #[trigger] diverges(x, y, k);
    let p = ref_code(a);
    let q = ref_code(b);
    assert forall|i: int| 0 <= i < k implies p[i] == q[i] by {
        assert(p[i] == x[i] && q[i] == y[i]);
    }
    assert(q[k] == y[k]);
    if k == x.len() {
        assert(p[k] == -1);
        let c = b.artifact_id[k];
        assert(y[k] == c as int);
        char_is_no_negative_number(c);
    } else {
        assert(p[k] == x[k]);
    }
    assert(p[k] < q[k]);
    assert(diverges(p, q, k));
    precedes_is_asymmetric(p, q);
}

impl ToJson for ArtifactRef {
    open spec fn json(&self) -> JsonTree {
        let m = no_members();
        let m = m.insert("artifact_id"@, self.artifact_id.json());
        let m = m.insert("kind"@, self.kind.json());
        JsonTree::Object(m)
    }

    fn to_json(&self) -> (r: serde_json::Value) {
        let mut members = json_new_object();
        json_insert(&mut members, "artifact_id", self.artifact_id.to_json());
        json_insert(&mut members, "kind", self.kind.to_json());
        json_object(members)
    }
}

/// The JSON form of a reference.
pub open spec fn ref_json(key: RefView) -> JsonTree {
    JsonTree::Object(
        no_members().insert("artifact_id"@, JsonTree::Text(key.artifact_id)).insert(
            "kind"@,
            JsonTree::Text(key.kind.wire()),
        ),
    )
}

/// The JSON form of listed references.
pub open spec fn refs_json(keys: Seq<RefView>) -> JsonTree {
    JsonTree::List(keys.map_values(|key: RefView| ref_json(key)))
}

pub fn refs_to_json(list: &Vec<ArtifactRef>) -> (r: serde_json::Value)
    ensures
        json_content(r) == refs_json(views(list@)),
{
    let r = list.to_json();
    proof {
        assert(list@.map_values(|value: ArtifactRef| value.json()) =~= views(list@).map_values(
            |key: RefView| ref_json(key),
        ));
    }
    r
}

/// Some listed reference is to the given kind.
pub open spec fn refs_cite(list: Seq<ArtifactRef>, kind: ArtifactKind) -> bool {
    exists|i: int| 0 <= i < list.len() && (#[trigger] list[i]).kind == kind
}

pub fn refs_have_kind(list: &Vec<ArtifactRef>, kind: ArtifactKind) -> (r: bool)
    ensures
        r == refs_cite(list@, kind),
{
    let mut i: usize = 0;
    while i < list.len()
        invariant
            i <= list.len(),
            forall|j: int| 0 <= j < i ==> (#[trigger] list@[j]).kind != kind,
        decreases list.len() - i,
    {
        if list[i].kind == kind {
            return true;
        }
        i += 1;
    }
    false
}

/// Every listed reference is to the given kind.
pub open spec fn refs_all_cite(list: Seq<ArtifactRef>, kind: ArtifactKind) -> bool {
    forall|i: int| 0 <= i < list.len() ==> (#[trigger] list[i]).kind == kind
}

pub fn refs_all_have_kind(list: &Vec<ArtifactRef>, kind: ArtifactKind) -> (r: bool)
    ensures
        r == refs_all_cite(list@, kind),
{
    let mut i: usize = 0;
    while i < list.len()
        invariant
            i <= list.len(),
            forall|j: int| 0 <= j < i ==> (#[trigger] list@[j]).kind == kind,
        decreases list.len() - i,
    {
        if list[i].kind != kind {
            return false;
        }
        i += 1;
    }
    true
}

/// A reference is among the listed ones.
pub open spec fn refs_list(list: Seq<ArtifactRef>, key: RefView) -> bool {
    exists|i: int| 0 <= i < list.len() && (#[trigger] list[i])@ == key
}

pub fn refs_contain(list: &Vec<ArtifactRef>, key: &ArtifactRef) -> (r: bool)
    ensures
        r == refs_list(list@, key@),
{
    let mut i: usize = 0;
    while i < list.len()
        invariant
            i <= list.len(),
            forall|j: int| 0 <= j < i ==> (#[trigger] list@[j])@ != key@,
        decreases list.len() - i,
    {
        if list[i].same(key) {
            return true;
        }
        i += 1;
    }
    false
}

/// Where the content of an artifact comes from. The source family is that of the adapter
/// that brought it.
#[derive(Debug, PartialEq, Eq)]
pub struct ArtifactProvenance {
    pub source_family: String,
    pub observed_at: Option<UtcTime>,
    pub retrieved_at: UtcTime,
    pub source_uri: Option<String>,
    pub confidence_ppm: u32,
    pub producer_contract_hash: Option<ContentHash>,
}

impl Clone for ArtifactProvenance {
    fn clone(&self) -> (r: Self)
        ensures
            r == *self,
    {
        ArtifactProvenance {
            source_family: self.source_family.clone(),
            observed_at: self.observed_at,
            retrieved_at: self.retrieved_at,
            source_uri: match &self.source_uri {
                Some(uri) => Some(uri.clone()),
                None => None,
            },
            confidence_ppm: self.confidence_ppm,
            producer_contract_hash: match &self.producer_contract_hash {
                Some(hash) => Some(hash.clone()),
                None => None,
            },
        }
    }
}

impl ToJson for ArtifactProvenance {
    open spec fn json(&self) -> JsonTree {
        let m = no_members();
        let m = m.insert("source_family"@, self.source_family.json());
        let m = m.insert("observed_at"@, self.observed_at.json());
        let m = m.insert("retrieved_at"@, self.retrieved_at.json());
        let m = m.insert("source_uri"@, self.source_uri.json());
        let m = m.insert("confidence_ppm"@, self.confidence_ppm.json());
        let m = m.insert("producer_contract_hash"@, self.producer_contract_hash.json());
        JsonTree::Object(m)
    }

    fn to_json(&self) -> (r: serde_json::Value) {
        let mut members = json_new_object();
        json_insert(&mut members, "source_family", self.source_family.to_json());
        json_insert(&mut members, "observed_at", self.observed_at.to_json());
        json_insert(&mut members, "retrieved_at", self.retrieved_at.to_json());
        json_insert(&mut members, "source_uri", self.source_uri.to_json());
        json_insert(&mut members, "confidence_ppm", self.confidence_ppm.to_json());
        json_insert(&mut members, "producer_contract_hash", self.producer_contract_hash.to_json());
        json_object(members)
    }
}

impl ArtifactProvenance {
    pub open spec fn verdict(&self) -> Verdict {
        first(
            demand(!blank(self.source_family@), empty("artifact.provenance.source_family"@)),
            demand(self.confidence_ppm <= 1_000_000, budget("artifact.provenance.confidence_ppm"@)),
        )
    }

    pub fn validate(&self) -> (r: Result<(), DomainError>)
        ensures
            outcome(r) == self.verdict(),
    {
        if is_blank(&self.source_family) {
            return Err(empty_field("artifact.provenance.source_family"));
        }
        if self.confidence_ppm > 1_000_000 {
            return Err(invalid_budget("artifact.provenance.confidence_ppm"));
        }
        Ok(())
    }
}

/// The run, task and attempt that an artifact comes from.
#[derive(Debug, PartialEq, Eq)]
pub struct ArtifactOrigin {
    pub run_id: Option<RunId>,
    pub task_id: Option<TaskId>,
    pub attempt_id: Option<AttemptId>,
    pub contract_hash: Option<ContentHash>,
}

impl Clone for ArtifactOrigin {
    fn clone(&self) -> (r: Self)
        ensures
            r == *self,
    {
        ArtifactOrigin {
            run_id: match &self.run_id {
                Some(id) => Some(id.clone()),
                None => None,
            },
            task_id: match &self.task_id {
                Some(id) => Some(id.clone()),
                None => None,
            },
            attempt_id: match &self.attempt_id {
                Some(id) => Some(id.clone()),
                None => None,
            },
            contract_hash: match &self.contract_hash {
                Some(hash) => Some(hash.clone()),
                None => None,
            },
        }
    }
}

impl ToJson for ArtifactOrigin {
    open spec fn json(&self) -> JsonTree {
        let m = no_members();
        let m = m.insert("run_id"@, self.run_id.json());
        let m = m.insert("task_id"@, self.task_id.json());
        let m = m.insert("attempt_id"@, self.attempt_id.json());
        let m = m.insert("contract_hash"@, self.contract_hash.json());
        JsonTree::Object(m)
    }

    fn to_json(&self) -> (r: serde_json::Value) {
        let mut members = json_new_object();
        json_insert(&mut members, "run_id", self.run_id.to_json());
        json_insert(&mut members, "task_id", self.task_id.to_json());
        json_insert(&mut members, "attempt_id", self.attempt_id.to_json());
        json_insert(&mut members, "contract_hash", self.contract_hash.to_json());
        json_object(members)
    }
}

impl ArtifactOrigin {
    pub open spec fn verdict(&self) -> Verdict {
        demand(
            self.attempt_id is Some ==> self.task_id is Some,
            ErrorView::AttemptOriginWithoutTask,
        )
    }

    pub fn validate(&self) -> (r: Result<(), DomainError>)
        ensures
            outcome(r) == self.verdict(),
    {
        if self.attempt_id.is_some() && self.task_id.is_none() {
            return Err(DomainError::AttemptOriginWithoutTask);
        }
        Ok(())
    }
}

/// The description of a blob. Its identity covers the description and the blob, so that
/// nothing of it can be replaced under the same identity.
#[derive(Debug, PartialEq, Eq)]
pub struct Artifact {
    pub schema_version: u32,
    pub artifact_id: ArtifactId,
    pub kind: ArtifactKind,
    pub blob: BlobRef,
    pub producer: String,
    pub lifecycle: ArtifactLifecycle,
    pub provenance: ArtifactProvenance,
    pub origin: Option<ArtifactOrigin>,
    pub source_refs: Vec<ArtifactRef>,
    pub created_at: UtcTime,
}

impl Clone for Artifact {
    fn clone(&self) -> (r: Self)
        ensures
            r.schema_version == self.schema_version,
            r.artifact_id == self.artifact_id,
            r.kind == self.kind,
            r.blob == self.blob,
            r.producer == self.producer,
            r.lifecycle == self.lifecycle,
            r.provenance == self.provenance,
            r.origin == self.origin,
            views(r.source_refs@) == views(self.source_refs@),
            r.created_at == self.created_at,
    {
        Artifact {
            schema_version: self.schema_version,
            artifact_id: self.artifact_id.clone(),
            kind: self.kind,
            blob: self.blob.clone(),
            producer: self.producer.clone(),
            lifecycle: self.lifecycle,
            provenance: self.provenance.clone(),
            origin: match &self.origin {
                Some(origin) => Some(origin.clone()),
                None => None,
            },
            source_refs: duplicate_keys(&self.source_refs),
            created_at: self.created_at,
        }
    }
}

impl Artifact {
    /// The description that the identity is the digest of: everything but the identity, with
    /// the references in order.
    pub open spec fn identity_json(&self) -> JsonTree {
        let m = no_members();
        let m = m.insert("schema_version"@, self.schema_version.json());
        let m = m.insert("kind"@, self.kind.json());
        let m = m.insert("blob"@, self.blob.json());
        let m = m.insert("producer"@, self.producer.json());
        let m = m.insert("lifecycle"@, self.lifecycle.json());
        let m = m.insert("provenance"@, self.provenance.json());
        let m = m.insert("origin"@, self.origin.json());
        let m = m.insert(
            "source_refs"@,
            refs_json(sorted::<ArtifactRef>(views(self.source_refs@))),
        );
        let m = m.insert("created_at"@, self.created_at.json());
        JsonTree::Object(m)
    }

    pub open spec fn identity(&self) -> Seq<char> {
        json_digest(self.identity_json())
    }

    /// The parts that an artifact is made of.
    pub open spec fn is_made_of(
        &self,
        kind: ArtifactKind,
        blob: BlobRef,
        producer: Seq<char>,
        lifecycle: ArtifactLifecycle,
        provenance: ArtifactProvenance,
        origin: Option<ArtifactOrigin>,
        source_refs: Seq<RefView>,
        created_at: UtcTime,
    ) -> bool {
        &&& self.schema_version == DOMAIN_SCHEMA_VERSION
        &&& self.kind == kind
        &&& self.blob == blob
        &&& self.producer@ == producer
        &&& self.lifecycle == lifecycle
        &&& self.provenance == provenance
        &&& self.origin == origin
        &&& views(self.source_refs@) == sorted::<ArtifactRef>(source_refs)
        &&& self.created_at == created_at
        &&& self.artifact_id@ == self.identity()
    }

    /// An artifact of the given parts, with its references in order and under its own
    /// identity, where it is valid.
    pub fn new(
        kind: ArtifactKind,
        blob: BlobRef,
        producer: &str,
        lifecycle: ArtifactLifecycle,
        provenance: ArtifactProvenance,
        origin: Option<ArtifactOrigin>,
        source_refs: Vec<ArtifactRef>,
        created_at: UtcTime,
    ) -> (r: Result<Artifact, DomainError>)
        ensures
            exists|a: Artifact| #[trigger]
                a.is_made_of(
                    kind,
                    blob,
                    producer@,
                    lifecycle,
                    provenance,
                    origin,
                    views(source_refs@),
                    created_at,
                ) && (match r {
                    Ok(made) => made == a && a.verdict() is Ok,
                    Err(e) => a.verdict() == Verdict::Err(e@),
                }),
    {
        let ghost given = views(source_refs@);
        let mut artifact = Artifact {
            schema_version: DOMAIN_SCHEMA_VERSION,
            artifact_id: ArtifactId(ContentHash::of_bytes("uninitialized artifact".as_bytes())),
            kind,
            blob,
            producer: producer.to_owned(),
            lifecycle,
            provenance,
            origin,
            source_refs: sort_keys(source_refs),
            created_at,
        };
        let id = artifact.expected_hash()?;
        artifact.artifact_id = ArtifactId(id);
        proof {
            assert(artifact.is_made_of(
                kind,
                blob,
                producer@,
                lifecycle,
                provenance,
                origin,
                given,
                created_at,
            ));
        }
        artifact.validate()?;
        Ok(artifact)
    }

    pub fn expected_hash(&self) -> (r: Result<ContentHash, DomainError>)
        ensures
            r is Ok,
            r->Ok_0@ == self.identity(),
            is_digest(r->Ok_0@),
    {
        let source_refs = sort_keys(duplicate_keys(&self.source_refs));
        let mut members = json_new_object();
        json_insert(&mut members, "schema_version", self.schema_version.to_json());
        json_insert(&mut members, "kind", self.kind.to_json());
        json_insert(&mut members, "blob", self.blob.to_json());
        json_insert(&mut members, "producer", self.producer.to_json());
        json_insert(&mut members, "lifecycle", self.lifecycle.to_json());
        json_insert(&mut members, "provenance", self.provenance.to_json());
        json_insert(&mut members, "origin", self.origin.to_json());
        json_insert(&mut members, "source_refs", refs_to_json(&source_refs));
        json_insert(&mut members, "created_at", self.created_at.to_json());
        Ok(digest_of(&json_object(members)))
    }

    /// Whether an artifact of the kind may live so long.
    pub open spec fn lifecycle_is_allowed(&self) -> bool {
        match self.kind {
            ArtifactKind::DeliberationNote
            | ArtifactKind::RetrospectiveDraft
            | ArtifactKind::AttemptRelation => self.lifecycle is RunScoped,
            ArtifactKind::Retrospective => self.lifecycle is RunScoped || self.lifecycle is Canonical,
            _ => true,
        }
    }

    /// The verdict on everything but the identity.
    pub open spec fn description_verdict(&self) -> Verdict {
        if self.schema_version != DOMAIN_SCHEMA_VERSION {
            Err(empty("artifact.schema_version"@))
        } else if blank(self.producer@) {
            Err(empty("artifact.producer"@))
        } else if self.blob.verdict() is Err {
            self.blob.verdict()
        } else if self.provenance.verdict() is Err {
            self.provenance.verdict()
        } else if self.origin matches Some(origin) && origin.verdict() is Err {
            self.origin->0.verdict()
        } else if self.source_verdict() is Err {
            self.source_verdict()
        } else if self.lifecycle is Canonical && self.kind.is_working_record() {
            Err(empty("artifact.canonical_kind"@))
        } else if !self.lifecycle_is_allowed() {
            Err(empty("artifact.lifecycle"@))
        } else {
            Ok(())
        }
    }

    pub open spec fn verdict(&self) -> Verdict {
        first(
            self.description_verdict(),
            demand(self.artifact_id@ == self.identity(), ErrorView::InvalidContentHash),
        )
    }

    pub fn validate(&self) -> (r: Result<(), DomainError>)
        ensures
            outcome(r) == self.verdict(),
    {
        if self.schema_version != DOMAIN_SCHEMA_VERSION {
            return Err(empty_field("artifact.schema_version"));
        }
        if is_blank(&self.producer) {
            return Err(empty_field("artifact.producer"));
        }
        self.blob.validate()?;
        self.provenance.validate()?;
        if let Some(origin) = &self.origin {
            origin.validate()?;
        }
        self.validate_source_refs()?;
        if self.lifecycle == ArtifactLifecycle::Canonical && !self.kind.can_be_canonical() {
            return Err(empty_field("artifact.canonical_kind"));
        }
        let lifecycle_allowed = match self.kind {
            ArtifactKind::DeliberationNote
            | ArtifactKind::RetrospectiveDraft
            | ArtifactKind::AttemptRelation => self.lifecycle == ArtifactLifecycle::RunScoped,
            ArtifactKind::Retrospective => self.lifecycle == ArtifactLifecycle::RunScoped
                || self.lifecycle == ArtifactLifecycle::Canonical,
            _ => true,
        };
        if !lifecycle_allowed {
            return Err(empty_field("artifact.lifecycle"));
        }
        let expected = self.expected_hash()?;
        if !self.artifact_id.0.same(&expected) {
            return Err(DomainError::InvalidContentHash);
        }
        Ok(())
    }

    /// Some reference is to the given kind.
    pub open spec fn cites(&self, kind: ArtifactKind) -> bool {
        refs_cite(self.source_refs@, kind)
    }

    fn has_source(&self, kind: ArtifactKind) -> (r: bool)
        ensures
            r == self.cites(kind),
    {
        refs_have_kind(&self.source_refs, kind)
    }

    /// The references ascend, name each artifact once and do not name the artifact itself.
    pub open spec fn sources_are_distinct(&self) -> bool {
        &&& ascending::<ArtifactRef>(views(self.source_refs@))
        &&& forall|i: int|
            0 <= i < self.source_refs@.len() ==> (#[trigger] self.source_refs@[i]).artifact_id@
                != self.artifact_id@
        &&& forall|i: int, j: int|
            0 <= i < j < self.source_refs@.len() ==> (#[trigger] self.source_refs@[i]).artifact_id@
                != (#[trigger] self.source_refs@[j]).artifact_id@
    }

    /// A checkpoint belongs to a run as a whole and rests on its workflow.
    pub open spec fn is_run_checkpoint(&self) -> bool {
        &&& self.lifecycle is RunScoped
        &&& self.producer@ == "runtime.checkpoint"@
        &&& self.provenance.source_family@ == "akzio.runtime"@
        &&& self.origin matches Some(o) && o.run_id is Some && o.task_id is None && o.attempt_id is None
            && o.contract_hash is None
        &&& self.cites(ArtifactKind::WorkflowGraph)
    }

    /// A debug record belongs to a run, comes from the debugger and rests on no raw evidence.
    pub open spec fn is_debug_record(&self) -> bool {
        &&& self.lifecycle is RunScoped
        &&& {
            ||| self.producer@ == "debug.session_identity"@
            ||| self.producer@ == "debug.control"@
            ||| self.producer@ == "debug.stage_acceptance"@
            ||| self.producer@ == "debug.budget_snapshot"@
        }
        &&& !self.cites(ArtifactKind::RawEvidence)
    }

    /// A report of what was tried to be collected. It may rest on nothing but the needs, as
    /// when every provider failed.
    pub open spec fn is_collection_status(&self) -> bool {
        &&& self.producer@ == "evidence.collection_status"@
        &&& self.provenance.source_family@ == "akzio.ingest"@
        &&& self.lifecycle is RunScoped
        &&& self.origin matches Some(o) && o.task_id is Some
        &&& refs_all_cite(self.source_refs@, ArtifactKind::EvidenceNeed)
    }

    /// An audit record that rests on what it audits.
    pub open spec fn is_research_audit(&self) -> bool {
        ||| self.producer@ == "research.revision.stop"@ && self.cites(ArtifactKind::ProposalReview)
        ||| (self.producer@ == "learning.revalidation.suggestion"@ || self.producer@
            == "learning.retrieval.audit"@) && self.cites(ArtifactKind::Lesson)
        ||| self.producer@ == "context.coverage"@ && self.cites(ArtifactKind::ContextManifest)
        ||| (self.producer@ == "research.supplement.started"@ || self.producer@
            == "research.supplement.disposition"@ || self.producer@
            == "research.supplement.result"@) && (self.cites(ArtifactKind::Claim) || self.cites(
            ArtifactKind::Critique,
        ))
    }

    /// What the references of an artifact of this kind must be.
    pub open spec fn kind_verdict(&self) -> Verdict {
        let any = self.source_refs@.len() > 0;
        match self.kind {
            ArtifactKind::RuntimeCheckpoint => demand(
                self.is_run_checkpoint(),
                empty("artifact.runtime_checkpoint_scope"@),
            ),
            ArtifactKind::RawEvidence => demand(!any, empty("artifact.raw_source_refs"@)),
            ArtifactKind::NormalizedEvidence => demand(
                any ==> self.cites(ArtifactKind::RawEvidence),
                empty("artifact.normalized_source_refs"@),
            ),
            ArtifactKind::DebugRecord => demand(
                self.is_debug_record(),
                empty("artifact.debug_record_scope"@),
            ),
            ArtifactKind::SemanticDetail => demand(
                !any || self.is_collection_status() || self.cites(ArtifactKind::RawEvidence)
                    || self.cites(ArtifactKind::NormalizedEvidence) || self.is_research_audit(),
                empty("artifact.detail_source_refs"@),
            ),
            ArtifactKind::Claim => demand(
                self.cites(ArtifactKind::NormalizedEvidence) || self.cites(
                    ArtifactKind::SemanticDetail,
                ),
                empty("artifact.claim_source_refs"@),
            ),
            ArtifactKind::Critique => demand(
                self.cites(ArtifactKind::Claim),
                empty("artifact.critique_source_refs"@),
            ),
            ArtifactKind::Resolution => demand(
                self.cites(ArtifactKind::Claim) && self.cites(ArtifactKind::Critique),
                empty("artifact.resolution_source_refs"@),
            ),
            ArtifactKind::SearchBiasCertificate => demand(
                self.cites(ArtifactKind::ExperimentTrial),
                empty("artifact.search_bias_source_refs"@),
            ),
            _ => Ok(()),
        }
    }

    pub open spec fn source_verdict(&self) -> Verdict {
        first(
            demand(self.sources_are_distinct(), empty("artifact.source_refs"@)),
            self.kind_verdict(),
        )
    }

    fn sources_repeat(&self) -> (r: bool)
        requires
            ascending::<ArtifactRef>(views(self.source_refs@)),
        ensures
            r == !self.sources_are_distinct(),
    {
        let list = &self.source_refs;
        let mut i: usize = 0;
        while i < list.len()
            invariant
                i <= list.len(),
                list == &self.source_refs,
                forall|k: int|
                    0 <= k < i ==> (#[trigger] list@[k]).artifact_id@ != self.artifact_id@,
                forall|k: int, l: int|
                    0 <= k < l < i ==> (#[trigger] list@[k]).artifact_id@ != (
                    #[trigger] list@[l]).artifact_id@,
            decreases list.len() - i,
        {
            if list[i].artifact_id.same(&self.artifact_id) {
                return true;
            }
            let mut j: usize = 0;
            while j < i
                invariant
                    j <= i < list.len(),
                    list == &self.source_refs,
                    forall|k: int|
                        0 <= k < j ==> (#[trigger] list@[k]).artifact_id@
                            != list@[i as int].artifact_id@,
                decreases i - j,
            {
                if list[j].artifact_id.same(&list[i].artifact_id) {
                    return true;
                }
                j += 1;
            }
            i += 1;
        }
        false
    }

    pub fn validate_source_refs(&self) -> (r: Result<(), DomainError>)
        ensures
            outcome(r) == self.source_verdict(),
    {
        if !is_ascending(&self.source_refs) {
            return Err(empty_field("artifact.source_refs"));
        }
        if self.sources_repeat() {
            return Err(empty_field("artifact.source_refs"));
        }
        let producer = self.producer.as_str();
        let any = self.source_refs.len() > 0;
        match self.kind {
            ArtifactKind::RuntimeCheckpoint => {
                let run_only = match &self.origin {
                    Some(o) => o.run_id.is_some() && o.task_id.is_none() && o.attempt_id.is_none()
                        && o.contract_hash.is_none(),
                    None => false,
                };
                if self.lifecycle != ArtifactLifecycle::RunScoped || !same_text(
                    producer,
                    "runtime.checkpoint",
                ) || !same_text(&self.provenance.source_family, "akzio.runtime") || !run_only
                    || !self.has_source(ArtifactKind::WorkflowGraph) {
                    return Err(empty_field("artifact.runtime_checkpoint_scope"));
                }
                Ok(())
            },
            ArtifactKind::RawEvidence => {
                if any {
                    return Err(empty_field("artifact.raw_source_refs"));
                }
                Ok(())
            },
            ArtifactKind::NormalizedEvidence => {
                if any && !self.has_source(ArtifactKind::RawEvidence) {
                    return Err(empty_field("artifact.normalized_source_refs"));
                }
                Ok(())
            },
            ArtifactKind::DebugRecord => {
                if self.lifecycle != ArtifactLifecycle::RunScoped || !(same_text(
                    producer,
                    "debug.session_identity",
                ) || same_text(producer, "debug.control") || same_text(
                    producer,
                    "debug.stage_acceptance",
                ) || same_text(producer, "debug.budget_snapshot")) || self.has_source(
                    ArtifactKind::RawEvidence,
                ) {
                    return Err(empty_field("artifact.debug_record_scope"));
                }
                Ok(())
            },
            ArtifactKind::SemanticDetail => {
                let of_task = match &self.origin {
                    Some(o) => o.task_id.is_some(),
                    None => false,
                };
                let collection_status = same_text(producer, "evidence.collection_status")
                    && same_text(&self.provenance.source_family, "akzio.ingest") && self.lifecycle
                    == ArtifactLifecycle::RunScoped && of_task && refs_all_have_kind(
                    &self.source_refs,
                    ArtifactKind::EvidenceNeed,
                );
                let has_evidence = self.has_source(ArtifactKind::RawEvidence) || self.has_source(
                    ArtifactKind::NormalizedEvidence,
                );
                let research_audit = (same_text(producer, "research.revision.stop")
                    && self.has_source(ArtifactKind::ProposalReview)) || ((same_text(
                    producer,
                    "learning.revalidation.suggestion",
                ) || same_text(producer, "learning.retrieval.audit")) && self.has_source(
                    ArtifactKind::Lesson,
                )) || (same_text(producer, "context.coverage") && self.has_source(
                    ArtifactKind::ContextManifest,
                )) || ((same_text(producer, "research.supplement.started") || same_text(
                    producer,
                    "research.supplement.disposition",
                ) || same_text(producer, "research.supplement.result")) && (self.has_source(
                    ArtifactKind::Claim,
                ) || self.has_source(ArtifactKind::Critique)));
                if !any || collection_status || has_evidence || research_audit {
                    Ok(())
                } else {
                    Err(empty_field("artifact.detail_source_refs"))
                }
            },
            ArtifactKind::Claim => {
                if !self.has_source(ArtifactKind::NormalizedEvidence) && !self.has_source(
                    ArtifactKind::SemanticDetail,
                ) {
                    return Err(empty_field("artifact.claim_source_refs"));
                }
                Ok(())
            },
            ArtifactKind::Critique => {
                if !self.has_source(ArtifactKind::Claim) {
                    return Err(empty_field("artifact.critique_source_refs"));
                }
                Ok(())
            },
            ArtifactKind::Resolution => {
                if !self.has_source(ArtifactKind::Claim) || !self.has_source(
                    ArtifactKind::Critique,
                ) {
                    return Err(empty_field("artifact.resolution_source_refs"));
                }
                Ok(())
            },
            ArtifactKind::SearchBiasCertificate => {
                if !self.has_source(ArtifactKind::ExperimentTrial) {
                    return Err(empty_field("artifact.search_bias_source_refs"));
                }
                Ok(())
            },
            _ => Ok(()),
        }
    }
}

/// An artifact with another description under the same identity is refused: of two valid
/// artifacts with one identity the descriptions have one digest.
pub proof fn valid_artifacts_with_one_identity_share_their_digest(a: Artifact, b: Artifact)
    requires
        a.verdict() is Ok,
        b.verdict() is Ok,
        a.artifact_id@ == b.artifact_id@,
    ensures
        json_digest(a.identity_json()) == json_digest(b.identity_json()),
{
}

/// The order in which references are listed does not enter the identity.
pub proof fn identity_ignores_order_of_sources(a: Artifact, b: Artifact)
    requires
        a.schema_version == b.schema_version,
        a.kind == b.kind,
        a.blob == b.blob,
        a.producer == b.producer,
        a.lifecycle == b.lifecycle,
        a.provenance == b.provenance,
        a.origin == b.origin,
        a.created_at == b.created_at,
        views(a.source_refs@).to_multiset() == views(b.source_refs@).to_multiset(),
    ensures
        a.identity() == b.identity(),
{
    crate::ordered::sorted_ignores_order::<ArtifactRef>(
        views(a.source_refs@),
        views(b.source_refs@),
    );
}

impl Artifact {
    /// Two artifacts that are the same, part by part.
    pub open spec fn is_same(&self, other: Artifact) -> bool {
        &&& self.schema_version == other.schema_version
        &&& self.artifact_id@ == other.artifact_id@
        &&& self.kind == other.kind
        &&& self.blob == other.blob
        &&& self.producer@ == other.producer@
        &&& self.lifecycle == other.lifecycle
        &&& self.provenance == other.provenance
        &&& self.origin == other.origin
        &&& views(self.source_refs@) == views(other.source_refs@)
        &&& self.created_at == other.created_at
    }
}

proof fn same_references_cite_the_same(a: Seq<ArtifactRef>, b: Seq<ArtifactRef>)
    requires
        views(a) == views(b),
    ensures
        a.len() == b.len(),
        forall|i: int|
            0 <= i < a.len() ==> (#[trigger] a[i]).artifact_id@ == b[i].artifact_id@ && a[i].kind
                == b[i].kind,
        forall|kind: ArtifactKind| #[trigger] refs_cite(a, kind) == refs_cite(b, kind),
        forall|kind: ArtifactKind| #[trigger] refs_all_cite(a, kind) == refs_all_cite(b, kind),
{
    assert(views(a).len() == a.len() && views(b).len() == b.len());
    assert forall|i: int| 0 <= i < a.len() implies (#[trigger] a[i]).artifact_id@
        == b[i].artifact_id@ && a[i].kind == b[i].kind by {
        assert(views(a)[i] == a[i]@ && views(b)[i] == b[i]@);
    }
    assert forall|kind: ArtifactKind| #[trigger] refs_cite(a, kind) == refs_cite(b, kind) by {
        if refs_cite(a, kind) {
            let i = choose|i: int| 0 <= i < a.len() && (#[trigger] a[i]).kind == kind;
            assert(b[i].kind == kind);
        }
        if refs_cite(b, kind) {
            let i = choose|i: int| 0 <= i < b.len() && (#[trigger] b[i]).kind == kind;
            assert(a[i].kind == kind);
        }
    }
    assert forall|kind: ArtifactKind| #[trigger] refs_all_cite(a, kind) == refs_all_cite(b, kind) by {
        if refs_all_cite(a, kind) {
            assert forall|i: int| 0 <= i < b.len() implies (#[trigger] b[i]).kind == kind by {
                assert(a[i].kind == kind);
            }
        }
        if refs_all_cite(b, kind) {
            assert forall|i: int| 0 <= i < a.len() implies (#[trigger] a[i]).kind == kind by {
                assert(b[i].kind == kind);
            }
        }
    }
}

/// Artifacts that are the same have one identity and one verdict.
pub proof fn same_artifacts_have_one_verdict(a: Artifact, b: Artifact)
    requires
        a.is_same(b),
    ensures
        a.identity() == b.identity(),
        a.verdict() == b.verdict(),
{
    same_references_cite_the_same(a.source_refs@, b.source_refs@);
    assert(a.sources_are_distinct() == b.sources_are_distinct()) by {
        if a.sources_are_distinct() {
            assert forall|i: int, j: int| 0 <= i < j < b.source_refs@.len() implies (
            #[trigger] b.source_refs@[i]).artifact_id@ != (
            #[trigger] b.source_refs@[j]).artifact_id@ by {
                assert(a.source_refs@[i].artifact_id@ != a.source_refs@[j].artifact_id@);
            }
            assert forall|i: int| 0 <= i < b.source_refs@.len() implies (
            #[trigger] b.source_refs@[i]).artifact_id@ != b.artifact_id@ by {
                assert(a.source_refs@[i].artifact_id@ != a.artifact_id@);
            }
        }
    }
}

/// The order in which references are given does not matter: what is made of the same parts and
/// of the same references in another order is the same artifact, and is accepted or refused
/// alike.
pub proof fn order_of_given_sources_does_not_matter(
    a: Artifact,
    b: Artifact,
    kind: ArtifactKind,
    blob: BlobRef,
    producer: Seq<char>,
    lifecycle: ArtifactLifecycle,
    provenance: ArtifactProvenance,
    origin: Option<ArtifactOrigin>,
    sources: Seq<RefView>,
    others: Seq<RefView>,
    created_at: UtcTime,
)
    requires
        a.is_made_of(kind, blob, producer, lifecycle, provenance, origin, sources, created_at),
        b.is_made_of(kind, blob, producer, lifecycle, provenance, origin, others, created_at),
        sources.to_multiset() == others.to_multiset(),
    ensures
        a.is_same(b),
        a.verdict() == b.verdict(),
{
    crate::ordered::sorted_ignores_order::<ArtifactRef>(sources, others);
    assert(a.identity_json() == b.identity_json());
    same_artifacts_have_one_verdict(a, b);
}

/// An artifact that is made has the references that were given, each as often, and an accepted
/// one has them in strictly ascending order and stands under its own identity.
pub proof fn made_artifact_keeps_its_sources(
    a: Artifact,
    kind: ArtifactKind,
    blob: BlobRef,
    producer: Seq<char>,
    lifecycle: ArtifactLifecycle,
    provenance: ArtifactProvenance,
    origin: Option<ArtifactOrigin>,
    sources: Seq<RefView>,
    created_at: UtcTime,
)
    requires
        a.is_made_of(kind, blob, producer, lifecycle, provenance, origin, sources, created_at),
    ensures
        views(a.source_refs@).to_multiset() == sources.to_multiset(),
        a.artifact_id@ == a.identity(),
        a.verdict() is Ok ==> ascending::<ArtifactRef>(views(a.source_refs@)),
{
    crate::ordered::not_after_is_total_ordering::<ArtifactRef>();
    sources.lemma_sort_by_ensures(crate::ordered::not_after::<ArtifactRef>());
}

/// What an artifact provenance is refused with: the first fault that it has.
pub proof fn refusal_of_artifact_provenance_names_its_fault(this: ArtifactProvenance)
    ensures
        !(!blank(this.source_family@))
            ==> this.verdict() == Verdict::Err(empty("artifact.provenance.source_family"@)),
        (!blank(this.source_family@)) && !(this.confidence_ppm <= 1_000_000)
            ==> this.verdict() == Verdict::Err(budget("artifact.provenance.confidence_ppm"@)),
{
}

/// What an artifact origin is refused with: the first fault that it has.
pub proof fn refusal_of_artifact_origin_names_its_fault(this: ArtifactOrigin)
    ensures
        !(this.attempt_id is Some ==> this.task_id is Some)
            ==> this.verdict() == Verdict::Err(ErrorView::AttemptOriginWithoutTask),
{
}

/// What an artifact is refused with: the first fault that it has.
pub proof fn description_verdict_of_artifact_names_its_fault(this: Artifact)
    ensures
        (this.schema_version != DOMAIN_SCHEMA_VERSION)
            ==> this.description_verdict() == Verdict::Err(empty("artifact.schema_version"@)),
        !(this.schema_version != DOMAIN_SCHEMA_VERSION) && (blank(this.producer@))
            ==> this.description_verdict() == Verdict::Err(empty("artifact.producer"@)),
        !(this.schema_version != DOMAIN_SCHEMA_VERSION) && !(blank(this.producer@))
            && this.blob.verdict() is Ok && this.provenance.verdict() is Ok
            && !(this.origin matches Some(origin) && origin.verdict() is Err)
            && this.source_verdict() is Ok && (this.lifecycle is Canonical
            && this.kind.is_working_record())
            ==> this.description_verdict() == Verdict::Err(empty("artifact.canonical_kind"@)),
        !(this.schema_version != DOMAIN_SCHEMA_VERSION) && !(blank(this.producer@))
            && this.blob.verdict() is Ok && this.provenance.verdict() is Ok
            && !(this.origin matches Some(origin) && origin.verdict() is Err)
            && this.source_verdict() is Ok && !(this.lifecycle is Canonical
            && this.kind.is_working_record()) && (!this.lifecycle_is_allowed())
            ==> this.description_verdict() == Verdict::Err(empty("artifact.lifecycle"@)),
{
}

/// What an artifact is refused with: the first fault that it has.
pub proof fn refusal_of_artifact_names_its_fault(this: Artifact)
    ensures
        this.description_verdict() is Ok && !(this.artifact_id@ == this.identity())
            ==> this.verdict() == Verdict::Err(ErrorView::InvalidContentHash),
{
}

/// What an artifact is refused with: the first fault that it has.
pub proof fn source_verdict_of_artifact_names_its_fault(this: Artifact)
    ensures
        !(this.sources_are_distinct())
            ==> this.source_verdict() == Verdict::Err(empty("artifact.source_refs"@)),
{
}

} // verus!
