//! Control over the scheduling of a run, and what was checked of its stages.
use crate::artifact::ArtifactRef;
use crate::foundation::{AttemptId, ContentHash, RunId, RunPurpose, TaskId};
use crate::json::{json_text, JsonTree, ToJson};
use crate::time::UtcTime;
use vstd::prelude::*;

verus! {

/// The state of a run under control.
#[derive(Clone, Copy, Debug, PartialEq, Eq, PartialOrd, Ord, Hash, Structural)]
pub enum RunControlStatus {
    Running,
    PauseRequested,
    Paused,
    Stepping,
    Completed,
    Aborted,
}

impl RunControlStatus {
    /// The name of the variant in JSON.
    pub open spec fn wire(self) -> Seq<char> {
        match self {
            RunControlStatus::Running => "running"@,
            RunControlStatus::PauseRequested => "pause_requested"@,
            RunControlStatus::Paused => "paused"@,
            RunControlStatus::Stepping => "stepping"@,
            RunControlStatus::Completed => "completed"@,
            RunControlStatus::Aborted => "aborted"@,
        }
    }

    /// The name of the variant in JSON.
    pub fn wire_name(self) -> (r: &'static str)
        ensures
            r@ == self.wire(),
    {
        match self {
            RunControlStatus::Running => "running",
            RunControlStatus::PauseRequested => "pause_requested",
            RunControlStatus::Paused => "paused",
            RunControlStatus::Stepping => "stepping",
            RunControlStatus::Completed => "completed",
            RunControlStatus::Aborted => "aborted",
        }
    }
}

impl ToJson for RunControlStatus {
    open spec fn json(&self) -> JsonTree {
        JsonTree::Text(self.wire())
    }

    fn to_json(&self) -> (r: serde_json::Value) {
        json_text(self.wire_name())
    }
}

/// Whether a run goes on by itself.
#[derive(Clone, Copy, Debug, PartialEq, Eq, PartialOrd, Ord, Hash, Structural)]
pub enum RunExecutionMode {
    Manual,
    Continuous,
}

impl RunExecutionMode {
    /// The name of the variant in JSON.
    pub open spec fn wire(self) -> Seq<char> {
        match self {
            RunExecutionMode::Manual => "manual"@,
            RunExecutionMode::Continuous => "continuous"@,
        }
    }

    /// The name of the variant in JSON.
    pub fn wire_name(self) -> (r: &'static str)
        ensures
            r@ == self.wire(),
    {
        match self {
            RunExecutionMode::Manual => "manual",
            RunExecutionMode::Continuous => "continuous",
        }
    }
}

impl ToJson for RunExecutionMode {
    open spec fn json(&self) -> JsonTree {
        JsonTree::Text(self.wire())
    }

    fn to_json(&self) -> (r: serde_json::Value) {
        json_text(self.wire_name())
    }
}

pub type DebugStatus = RunControlStatus;

pub type DebugExecutionMode = RunExecutionMode;

/// Whether models are asked.
#[derive(Clone, Copy, Debug, PartialEq, Eq, PartialOrd, Ord, Hash, Structural)]
pub enum DebugLlmMode {
    Real,
    Fixture,
}

impl DebugLlmMode {
    /// The name of the variant in JSON.
    pub open spec fn wire(self) -> Seq<char> {
        match self {
            DebugLlmMode::Real => "real"@,
            DebugLlmMode::Fixture => "fixture"@,
        }
    }

    /// The name of the variant in JSON.
    pub fn wire_name(self) -> (r: &'static str)
        ensures
            r@ == self.wire(),
    {
        match self {
            DebugLlmMode::Real => "real",
            DebugLlmMode::Fixture => "fixture",
        }
    }
}

impl ToJson for DebugLlmMode {
    open spec fn json(&self) -> JsonTree {
        JsonTree::Text(self.wire())
    }

    fn to_json(&self) -> (r: serde_json::Value) {
        json_text(self.wire_name())
    }
}

/// Whether a broker may be written to. A simulated broker is known from older sessions alone.
#[derive(Clone, Copy, Debug, PartialEq, Eq, PartialOrd, Ord, Hash, Structural)]
pub enum DebugBrokerPolicy {
    Forbidden,
    PaperAllowed,
    SimulatedOnly,
}

impl DebugBrokerPolicy {
    /// The name of the variant in JSON.
    pub open spec fn wire(self) -> Seq<char> {
        match self {
            DebugBrokerPolicy::Forbidden => "forbidden"@,
            DebugBrokerPolicy::PaperAllowed => "paper_allowed"@,
            DebugBrokerPolicy::SimulatedOnly => "simulated_only"@,
        }
    }

    /// The name of the variant in JSON.
    pub fn wire_name(self) -> (r: &'static str)
        ensures
            r@ == self.wire(),
    {
        match self {
            DebugBrokerPolicy::Forbidden => "forbidden",
            DebugBrokerPolicy::PaperAllowed => "paper_allowed",
            DebugBrokerPolicy::SimulatedOnly => "simulated_only",
        }
    }
}

impl ToJson for DebugBrokerPolicy {
    open spec fn json(&self) -> JsonTree {
        JsonTree::Text(self.wire())
    }

    fn to_json(&self) -> (r: serde_json::Value) {
        json_text(self.wire_name())
    }
}

/// Whether a run may teach.
#[derive(Clone, Copy, Debug, PartialEq, Eq, PartialOrd, Ord, Hash, Structural)]
pub enum DebugLearningScope {
    Isolated,
    Canonical,
}

impl DebugLearningScope {
    /// The name of the variant in JSON.
    pub open spec fn wire(self) -> Seq<char> {
        match self {
            DebugLearningScope::Isolated => "isolated"@,
            DebugLearningScope::Canonical => "canonical"@,
        }
    }

    /// The name of the variant in JSON.
    pub fn wire_name(self) -> (r: &'static str)
        ensures
            r@ == self.wire(),
    {
        match self {
            DebugLearningScope::Isolated => "isolated",
            DebugLearningScope::Canonical => "canonical",
        }
    }
}

impl ToJson for DebugLearningScope {
    open spec fn json(&self) -> JsonTree {
        JsonTree::Text(self.wire())
    }

    fn to_json(&self) -> (r: serde_json::Value) {
        json_text(self.wire_name())
    }
}

/// What a session is, once and for all.
#[derive(Debug, Clone, PartialEq, Eq)]
pub struct DebugSessionIdentity {
    pub version: u32,
    pub debug_session_id: String,
    pub store_identity: String,
    pub run_id: RunId,
    pub run_purpose: RunPurpose,
    pub llm_mode: DebugLlmMode,
    pub broker_write_policy: DebugBrokerPolicy,
    pub learning_scope: DebugLearningScope,
    pub code_revision: String,
    pub runtime_identity: ContentHash,
    pub decision_policy_status: String,
    pub decision_policy_input_hash: Option<ContentHash>,
    pub decision_policy_artifact: Option<ArtifactRef>,
    pub contract_hashes: Vec<ContentHash>,
    pub dataset: Vec<ArtifactRef>,
    pub parent_run_id: Option<RunId>,
    pub parent_task_id: Option<TaskId>,
    pub parent_artifacts: Vec<ArtifactRef>,
    pub reason: Option<String>,
    pub created_at: UtcTime,
}

/// The status of the decision policy in sessions that do not say.
pub fn default_debug_policy_status() -> (r: String)
    ensures
        r@ == "legacy_unknown"@,
{
    "legacy_unknown".to_owned()
}

impl DebugSessionIdentity {
    /// A plan of positions by a true model for which no policy decides.
    pub open spec fn lacks_policy(&self) -> bool {
        &&& self.run_purpose is PositionPlan
        &&& !(self.llm_mode is Fixture)
        &&& self.decision_policy_artifact is None
    }

    /// Whether the session plans positions with real models and yet without a policy, so that
    /// it is good for research alone.
    pub fn research_only_without_policy(&self) -> (r: bool)
        ensures
            r == self.lacks_policy(),
    {
        self.run_purpose == RunPurpose::PositionPlan && self.llm_mode != DebugLlmMode::Fixture
            && self.decision_policy_artifact.is_none()
    }
}

/// A session with the state of its scheduling.
#[derive(Debug, Clone, PartialEq, Eq)]
pub struct DebugSession {
    pub identity: DebugSessionIdentity,
    pub revision: u64,
    pub status: DebugStatus,
    pub execution_mode: DebugExecutionMode,
    pub permitted_task_id: Option<TaskId>,
    pub active_attempt_id: Option<AttemptId>,
    pub paused_at_task_id: Option<TaskId>,
    pub updated_at: UtcTime,
}

/// What is asked of a session.
#[derive(Clone, Copy, Debug, PartialEq, Eq, PartialOrd, Ord, Hash, Structural)]
pub enum DebugAction {
    Pause,
    Resume,
    Step,
    RetryNode,
    Abort,
}

impl DebugAction {
    /// The name of the variant in JSON.
    pub open spec fn wire(self) -> Seq<char> {
        match self {
            DebugAction::Pause => "pause"@,
            DebugAction::Resume => "resume"@,
            DebugAction::Step => "step"@,
            DebugAction::RetryNode => "retry_node"@,
            DebugAction::Abort => "abort"@,
        }
    }

    /// The name of the variant in JSON.
    pub fn wire_name(self) -> (r: &'static str)
        ensures
            r@ == self.wire(),
    {
        match self {
            DebugAction::Pause => "pause",
            DebugAction::Resume => "resume",
            DebugAction::Step => "step",
            DebugAction::RetryNode => "retry_node",
            DebugAction::Abort => "abort",
        }
    }
}

impl ToJson for DebugAction {
    open spec fn json(&self) -> JsonTree {
        JsonTree::Text(self.wire())
    }

    fn to_json(&self) -> (r: serde_json::Value) {
        json_text(self.wire_name())
    }
}

/// A request to a session, bound to the revision that it was made for.
#[derive(Debug, Clone)]
pub struct DebugControlRequest {
    pub action: DebugAction,
    pub expected_revision: u64,
    pub task_id: Option<TaskId>,
}

/// How a check came out.
#[derive(Clone, Copy, Debug, PartialEq, Eq, PartialOrd, Ord, Hash, Structural)]
pub enum AcceptanceResult {
    Pass,
    Fail,
    Blocked,
    NotRun,
    NotApplicable,
}

impl AcceptanceResult {
    /// The name of the variant in JSON.
    pub open spec fn wire(self) -> Seq<char> {
        match self {
            AcceptanceResult::Pass => "PASS"@,
            AcceptanceResult::Fail => "FAIL"@,
            AcceptanceResult::Blocked => "BLOCKED"@,
            AcceptanceResult::NotRun => "NOT_RUN"@,
            AcceptanceResult::NotApplicable => "NOT_APPLICABLE"@,
        }
    }

    /// The name of the variant in JSON.
    pub fn wire_name(self) -> (r: &'static str)
        ensures
            r@ == self.wire(),
    {
        match self {
            AcceptanceResult::Pass => "PASS",
            AcceptanceResult::Fail => "FAIL",
            AcceptanceResult::Blocked => "BLOCKED",
            AcceptanceResult::NotRun => "NOT_RUN",
            AcceptanceResult::NotApplicable => "NOT_APPLICABLE",
        }
    }
}

impl ToJson for AcceptanceResult {
    open spec fn json(&self) -> JsonTree {
        JsonTree::Text(self.wire())
    }

    fn to_json(&self) -> (r: serde_json::Value) {
        json_text(self.wire_name())
    }
}

/// What a check is about.
#[derive(Clone, Copy, Debug, PartialEq, Eq, PartialOrd, Ord, Hash, Structural)]
pub enum AcceptanceCategory {
    Input,
    Time,
    Authorization,
    LlmCall,
    ToolUse,
    Schema,
    Semantic,
    Numeric,
    Unit,
    Provenance,
    Persistence,
    Idempotency,
    SideEffect,
    Recovery,
    Budget,
    UiConsistency,
    LearningEligibility,
}

impl AcceptanceCategory {
    /// The name of the variant in JSON.
    pub open spec fn wire(self) -> Seq<char> {
        match self {
            AcceptanceCategory::Input => "INPUT"@,
            AcceptanceCategory::Time => "TIME"@,
            AcceptanceCategory::Authorization => "AUTHORIZATION"@,
            AcceptanceCategory::LlmCall => "LLM_CALL"@,
            AcceptanceCategory::ToolUse => "TOOL_USE"@,
            AcceptanceCategory::Schema => "SCHEMA"@,
            AcceptanceCategory::Semantic => "SEMANTIC"@,
            AcceptanceCategory::Numeric => "NUMERIC"@,
            AcceptanceCategory::Unit => "UNIT"@,
            AcceptanceCategory::Provenance => "PROVENANCE"@,
            AcceptanceCategory::Persistence => "PERSISTENCE"@,
            AcceptanceCategory::Idempotency => "IDEMPOTENCY"@,
            AcceptanceCategory::SideEffect => "SIDE_EFFECT"@,
            AcceptanceCategory::Recovery => "RECOVERY"@,
            AcceptanceCategory::Budget => "BUDGET"@,
            AcceptanceCategory::UiConsistency => "UI_CONSISTENCY"@,
            AcceptanceCategory::LearningEligibility => "LEARNING_ELIGIBILITY"@,
        }
    }

    /// The name of the variant in JSON.
    pub fn wire_name(self) -> (r: &'static str)
        ensures
            r@ == self.wire(),
    {
        match self {
            AcceptanceCategory::Input => "INPUT",
            AcceptanceCategory::Time => "TIME",
            AcceptanceCategory::Authorization => "AUTHORIZATION",
            AcceptanceCategory::LlmCall => "LLM_CALL",
            AcceptanceCategory::ToolUse => "TOOL_USE",
            AcceptanceCategory::Schema => "SCHEMA",
            AcceptanceCategory::Semantic => "SEMANTIC",
            AcceptanceCategory::Numeric => "NUMERIC",
            AcceptanceCategory::Unit => "UNIT",
            AcceptanceCategory::Provenance => "PROVENANCE",
            AcceptanceCategory::Persistence => "PERSISTENCE",
            AcceptanceCategory::Idempotency => "IDEMPOTENCY",
            AcceptanceCategory::SideEffect => "SIDE_EFFECT",
            AcceptanceCategory::Recovery => "RECOVERY",
            AcceptanceCategory::Budget => "BUDGET",
            AcceptanceCategory::UiConsistency => "UI_CONSISTENCY",
            AcceptanceCategory::LearningEligibility => "LEARNING_ELIGIBILITY",
        }
    }
}

impl ToJson for AcceptanceCategory {
    open spec fn json(&self) -> JsonTree {
        JsonTree::Text(self.wire())
    }

    fn to_json(&self) -> (r: serde_json::Value) {
        json_text(self.wire_name())
    }
}

/// A check of a stage.
#[derive(Debug, Clone, PartialEq, Eq)]
pub struct AcceptanceCheck {
    pub check_id: String,
    pub category: AcceptanceCategory,
    pub expected: String,
    pub actual: String,
    pub result: AcceptanceResult,
    pub evidence_refs: Vec<ArtifactRef>,
    pub message: String,
}

/// What was checked of a stage. Its result in business and that of the checks are two things.
#[derive(Debug, Clone, PartialEq, Eq)]
pub struct StageAcceptance {
    pub version: u32,
    pub run_id: RunId,
    pub task_id: TaskId,
    pub attempt_id: AttemptId,
    pub stage: String,
    pub business_result: String,
    pub test_result: AcceptanceResult,
    pub checks: Vec<AcceptanceCheck>,
    pub created_at: UtcTime,
}

} // verus!
