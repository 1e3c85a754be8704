//! Domain rules of a research and paper-trading system.
use vstd::prelude::*;

pub mod artifact;
pub mod behavior;
pub mod budget;
pub mod canary;
pub mod compound;
pub mod context;
pub mod context_scope;
pub mod contract;
pub mod debug;
pub mod decision;
pub mod error;
pub mod evaluation;
pub mod event;
pub mod execution;
pub mod experiment;
pub mod foundation;
pub mod ids;
pub mod instrument_evidence;
pub mod json;
pub mod laws;
pub mod lesson;
pub mod lists;
pub mod longitudinal;
pub mod market_safety;
pub mod ordered;
pub mod policy;
pub mod qualification;
pub mod regime;
pub mod release;
pub mod research;
pub mod research_review;
pub mod text;
pub mod time;
pub mod workflow;

pub use artifact::{
    Artifact, ArtifactId, ArtifactKind, ArtifactLifecycle, ArtifactOrigin, ArtifactProvenance,
    ArtifactRef,
};
pub use behavior::{BehaviorBundleManifest, BehaviorChangeReason};
pub use budget::{
    AgentBudgetConfig, AgentSettings, BudgetOverride, ToolCallLimit, default_agent_budget,
    legacy_contract_budget, versioned_contract_budget,
};
pub use canary::{
    CanaryCalibrationReport, CanaryCampaignSpec, CanaryCampaignStatus, CanaryCohortEvaluation,
    CanaryCohortManifest, CanaryPairedObservation, CanaryPairedOutcomeMetrics,
    CanaryPairedSubjectMetrics, CanaryPromotionPolicy, CanarySessionReservation, CanarySubjectKind,
    CanaryVerdict,
};
pub use context::{
    ContextGrant, ContextManifestPayload, ContextProjection, ContextQuarantine,
    ContextQuarantineReason, ContextSelection, ContextTrust, ReadGrant, TaskWritePermit,
    manifest_input_hash,
};
pub use context_scope::ContextQueryScope;
pub use contract::{
    AgentContract, AgentOutputEnvelope, CandidateCapabilityCeiling, ContextPolicy, ContractPurpose,
    ContractSpec, DeliberationPolicy, DeliberationSummary, OutputContract, PromptBundle, TaskRecipe,
    TaskRecipeId, ToolSpec,
};
pub use debug::{
    AcceptanceCategory, AcceptanceCheck, AcceptanceResult, DebugAction, DebugBrokerPolicy,
    DebugControlRequest, DebugLearningScope, DebugLlmMode, DebugSession, DebugSessionIdentity,
    RunControlStatus, RunExecutionMode, StageAcceptance,
};
pub use decision::{
    AssetEligibility, Decision, DecisionContext, DecisionDraft, DecisionEligibilityReason,
    DecisionEvaluationTrace, DecisionHorizon, DecisionRuleEvaluation, DecisionStageLatencies,
    DecisionValidity, Forecast, ForecastThesis, HardBlocker, HorizonConflict, HorizonDecisionTrace,
    HorizonSignalDirection, HorizonSleeveAttribution, InvestmentLogicTrace, MaterialConflict,
    PortfolioRiskAssessment, ProcessQualityAssessment, ResearchAllocationPlan,
    ResearchAssetAllocation, ResearchExecutionStatus, ResearchPlanAdjustment, ResearchPlanReview,
    ResearchPlanStatus, SoftWarning, claim_slot_eligible, research_coverage_is_complete,
    validate_decision_evidence_sufficiency, validate_legacy_verified_forecast_slots,
    validate_structured_allocation_eligibility, validate_verified_forecast_slots,
};
pub use error::DomainError;
pub use evaluation::outcome::{
    AttemptRelation, AttemptRelationKind, CalibrationReport, CountedRatio, ForecastCalibrationBin,
    ForecastScore, Outcome, OutcomeBenchmark, OutcomeBenchmarkAttribution, OutcomeBenchmarkNavPoint,
    OutcomeBenchmarkResult, OutcomeBenchmarkUnavailableReason, OutcomeCostModel,
    OutcomeExecutionLineage, OutcomeHorizon, OutcomeMetricBasis, OutcomeNavPoint,
    OutcomeOrderCostAttribution, OutcomeSchedule, OutcomeWindow, Retrospective,
    RetrospectiveCategory, RetrospectiveConclusion, RetrospectiveDraft, RetrospectiveFinding,
    RetrospectiveLessonProposal, RetrospectiveStatus, outcome_benchmark_definition_bundle_hash,
};
pub use evaluation::policy::{
    CandidatePolicy, CandidatePolicyState, Evaluation, Experience, ExperienceEvaluationContext,
    MemoryLifecycle, PolicyState, PolicySubject, PolicyTransition,
};
pub use evaluation::risk_ground_truth::{RiskAssessmentAuthority, RiskGroundTruthAssessment};
pub use event::{DurableEvent, DurableEventKind, LifecycleEventType};
pub use execution::effects::{
    ExecutionVerdict, FreezeState, NoOrder, OrderReceipt, OrderReceiptState, PaperCommitment,
    PaperReprice, Reconciliation, ReconciliationState,
};
pub use execution::plan::{ExecutionContext, ExecutionPlan, OrderIntent, OrderSide};
pub use execution::session::{
    ExchangeSession, TradingSession, TradingSessionSnapshot, alpaca_overnight_asset_available,
};
pub use execution::snapshots::{
    AccountSnapshot, DecisionClock, FactorExposure, MarketClockSnapshot, Position, Quote,
    QuoteSnapshot,
};
pub use experiment::{
    ExperimentCondition, ExperimentTrial, ExperimentTrialMetrics, ExperimentTrialStatus,
    MetricIdentity, SearchBiasAcceptancePolicy, SearchBiasCertificate,
};
pub use foundation::{
    Asset, AttemptId, BlobRef, ContentHash, ContractId, DecisionId, FailureDisposition, LeaseId,
    MemoryId, MoneyMicros, RetryPolicy, RunId, RunPurpose, TargetPortfolio, TaskBudget, TaskId,
    TaskStatus, TerminationPolicy, ToolGrant, ToolKind, TopologyId, WeightPpm, WorkflowStatus,
    canonical_json_bytes, content_hash_json, estimate_json_tokens, estimate_tokens_from_bytes,
};
pub use ids::{
    EvaluationId, EventId, ExperienceId, LessonId, OutcomeId, PaperCancelId, PaperCommitmentId,
    PaperRepriceId, PolicyTransitionId, ReconciliationId,
};
pub use instrument_evidence::{
    InstrumentEvidenceBlocker, InstrumentEvidenceCategory, InstrumentEvidenceKey,
    InstrumentEvidenceProfile, InstrumentEvidenceRequirement, InstrumentKind,
    instrument_evidence_blockers_for_session, instrument_evidence_keys_for_resource,
    instrument_evidence_needs_for_session, instrument_evidence_registry, instrument_evidence_registry_hash,
    instrument_evidence_required_keys_for_asset, instrument_evidence_requirements_for_session,
};
pub use lesson::{
    Lesson, LessonAttribution, LessonEvidence, LessonEvidenceSummary, LessonGovernance,
    LessonGovernanceSignal, LessonGovernanceSignalKind, LessonLifecycle, LessonOrigin, LessonScope,
    LessonTrustClass,
};
pub use longitudinal::{
    CapabilityRetentionMatrix, CapabilityRetentionPolicy, CapabilityScenarioResult,
    MandateActionType, MandateAssessment, MandateSnapshot, MandateViolation, MetricVector,
    ModelQualificationEvidence, ModelQualificationGate, ModelQualificationKey,
    ModelQualificationReport, PromotionIntegrityEvidence, default_golden_scenario_bank,
};
pub use market_safety::{
    AgentEvidenceContribution, AssetCapacityAssessment, CapacityPolicy, CapacityScenario,
    ComplianceActionPolicy, ComplianceActivitySnapshot, ComplianceControl, ComplianceViolation,
    ConsensusDiversityAssessment, DependencyClosure, DependencyDegradationClass,
    DependencyHealthStatus, DependencyIncident, DependencyKind, DependencySnapshot, FallbackPolicy,
    FinancialContentAssessment, FinancialContentIndicator, FinancialContentPolicy,
    InformationClassification, PreTradeSafetySnapshot, SourceAuthorityClass, assess_capacity,
};
pub use policy::{RefactorPhase, V2Invariant};
pub use qualification::{QualificationStage, QualificationStageReceipt, QualificationVerdict};
pub use regime::{
    BreadthRegime, LiquidityRegime, RegimeClassificationKind, RegimeDistribution, RegimeSnapshot,
    RiskRegime, TrendRegime, VolatilityRegime,
};
pub use release::{
    ReleaseBrokerEvidence, ReleaseBrokerEvidenceTrust, ReleaseCanaryEvidence,
    ReleaseContractEvidence, ReleaseDaemonEvidence, ReleaseEvidenceBody, ReleaseEvidenceBundle,
    ReleaseEvidenceEnvironment, ReleaseEvidenceIssue, ReleaseEvidenceStatus, ReleaseEvidenceTier,
    ReleaseExecutionEvidence, ReleaseHumanApprovalEvidence, ReleaseHumanApprovalStatus,
    ReleaseIntegrityEvidence, ReleaseLearningEvidence, ReleaseOrderIdentity, ReleaseOutcomeEvidence,
    ReleasePostOutcomeApprovalEvidence, ReleaseProviderRouteEvidence, ReleaseRuntimeEvidence,
    ReleaseSessionEvidence, ReleaseSourceSnapshotEvidence, ReleaseWorkflowEvidence,
    ResearchApprovalDecision, ResearchApprovalReason,
};
pub use research::{
    ClaimStance, ClaimVerificationEvidence, ClaimVerificationStatus, CritiqueSeverity, EvidenceGap,
    EvidenceGapImpact, EvidenceGround, EvidenceGroundRole, EvidenceNeed, ResearchClaim,
    ResearchCritique, ResearchIntent, ResearchResolution, ResearchShard, ResolutionDisposition, SourceAuthority,
    TemporalValidity,
};
pub use research_review::{
    NumericEstimateBasis, ProposalAssessment, ProposalIssue, ProposalIssueCategory, ProposalReview,
    ResearchSettings, SupplementalDisposition, SupplementalIntent, SupplementalKind,
    SupplementalRound, proposal_review_keys, proposal_revision_stagnated, proposal_scope_value,
    validate_numeric_bases, validate_proposal_revision,
};
pub use workflow::{
    BlockerSeverity, DecisionBlocker, FactorLimits, NodeSpec, RuntimeTaskClass, WorkflowGraph,
    WorkflowNode, WorkflowProposal, WorkflowProposalTask,
};

verus! {

/// The version of the schema that every versioned record carries.
pub const DOMAIN_SCHEMA_VERSION: u32 = 2;

pub const RESEARCH_PLANNER_RECIPE_ID: &'static str = "research.planner";

pub const RESEARCH_ANALYST_RECIPE_ID: &'static str = "research.analyst";

pub const RESEARCH_CRITIC_RECIPE_ID: &'static str = "research.critic";

pub const RESEARCH_SYNTHESIZER_RECIPE_ID: &'static str = "research.synthesizer";

pub const LEARNING_OUTCOME_WORKER_RECIPE_ID: &'static str = "learning.outcome_worker";

/// The families of sources that evidence may come from.
pub const GOVERNED_EVIDENCE_SOURCE_FAMILIES: [&'static str; 4] = [
    "alpaca",
    "sec_edgar",
    "fred",
    "news_web",
];

} // verus!
