//! Why a value of the domain is refused.
use crate::foundation::TaskId;
use crate::time::UtcTime;
use vstd::prelude::*;

verus! {

#[derive(Debug, PartialEq, Eq)]
pub enum DomainError {
    UnsupportedAsset(String),
    InvalidContentHash,
    EmptyField { field: &'static str },
    DuplicateTaskId(TaskId),
    UnknownDependency { task: TaskId, dependency: TaskId },
    UnknownLifecycleEventType(String),
    EvidenceSourceNotAllowed(String),
    CyclicPlan,
    InvalidBudget { field: &'static str },
    InvalidTargetUniverse,
    InvalidDecisionConfidence,
    InvalidDecisionForecastHorizons,
    InvalidDecisionForecastProbability,
    InvalidEvidenceGroundScope,
    VerificationRefOutsideGrounds { field: &'static str, evidence: String },
    InvalidEvidenceWindow { field: &'static str, start: String, end: String },
    InsufficientDecisionEvidence,
    AttemptOriginWithoutTask,
    RawEvidenceDirectContext,
    InvalidRepriceLineage,
    ExecutionPlanHashMismatch,
    InvalidDistribution,
    DecisionTimeLookaheadViolation { decision_at: UtcTime, as_of: UtcTime },
}

/// An error with its texts as sequences of characters.
pub ghost enum ErrorView {
    UnsupportedAsset(Seq<char>),
    InvalidContentHash,
    EmptyField { field: Seq<char> },
    DuplicateTaskId(Seq<char>),
    UnknownDependency { task: Seq<char>, dependency: Seq<char> },
    UnknownLifecycleEventType(Seq<char>),
    EvidenceSourceNotAllowed(Seq<char>),
    CyclicPlan,
    InvalidBudget { field: Seq<char> },
    InvalidTargetUniverse,
    InvalidDecisionConfidence,
    InvalidDecisionForecastHorizons,
    InvalidDecisionForecastProbability,
    InvalidEvidenceGroundScope,
    VerificationRefOutsideGrounds { field: Seq<char>, evidence: Seq<char> },
    InvalidEvidenceWindow { field: Seq<char>, start: Seq<char>, end: Seq<char> },
    InsufficientDecisionEvidence,
    AttemptOriginWithoutTask,
    RawEvidenceDirectContext,
    InvalidRepriceLineage,
    ExecutionPlanHashMismatch,
    InvalidDistribution,
    DecisionTimeLookaheadViolation { decision_at: UtcTime, as_of: UtcTime },
}

impl View for DomainError {
    type V = ErrorView;

    open spec fn view(&self) -> ErrorView {
        match self {
            DomainError::UnsupportedAsset(text) => ErrorView::UnsupportedAsset(text@),
            DomainError::InvalidContentHash => ErrorView::InvalidContentHash,
            DomainError::EmptyField { field } => ErrorView::EmptyField { field: field@ },
            DomainError::DuplicateTaskId(task) => ErrorView::DuplicateTaskId(task@),
            DomainError::UnknownDependency { task, dependency } => ErrorView::UnknownDependency {
                task: task@,
                dependency: dependency@,
            },
            DomainError::UnknownLifecycleEventType(text) => ErrorView::UnknownLifecycleEventType(
                text@,
            ),
            DomainError::EvidenceSourceNotAllowed(text) => ErrorView::EvidenceSourceNotAllowed(
                text@,
            ),
            DomainError::CyclicPlan => ErrorView::CyclicPlan,
            DomainError::InvalidBudget { field } => ErrorView::InvalidBudget { field: field@ },
            DomainError::InvalidTargetUniverse => ErrorView::InvalidTargetUniverse,
            DomainError::InvalidDecisionConfidence => ErrorView::InvalidDecisionConfidence,
            DomainError::InvalidDecisionForecastHorizons => {
                ErrorView::InvalidDecisionForecastHorizons
            },
            DomainError::InvalidDecisionForecastProbability => {
                ErrorView::InvalidDecisionForecastProbability
            },
            DomainError::InvalidEvidenceGroundScope => ErrorView::InvalidEvidenceGroundScope,
            DomainError::VerificationRefOutsideGrounds { field, evidence } => {
                ErrorView::VerificationRefOutsideGrounds { field: field@, evidence: evidence@ }
            },
            DomainError::InvalidEvidenceWindow { field, start, end } => {
                ErrorView::InvalidEvidenceWindow { field: field@, start: start@, end: end@ }
            },
            DomainError::InsufficientDecisionEvidence => ErrorView::InsufficientDecisionEvidence,
            DomainError::AttemptOriginWithoutTask => ErrorView::AttemptOriginWithoutTask,
            DomainError::RawEvidenceDirectContext => ErrorView::RawEvidenceDirectContext,
            DomainError::InvalidRepriceLineage => ErrorView::InvalidRepriceLineage,
            DomainError::ExecutionPlanHashMismatch => ErrorView::ExecutionPlanHashMismatch,
            DomainError::InvalidDistribution => ErrorView::InvalidDistribution,
            DomainError::DecisionTimeLookaheadViolation { decision_at, as_of } => {
                ErrorView::DecisionTimeLookaheadViolation { decision_at: *decision_at, as_of: *as_of }
            },
        }
    }
}

/// Whether a value is accepted, and if not, why.
pub type Verdict = Result<(), ErrorView>;

/// The verdict that a check returned.
pub open spec fn outcome(r: Result<(), DomainError>) -> Verdict {
    match r {
        Ok(()) => Ok(()),
        Err(e) => Err(e@),
    }
}

/// The first refusal of two checks that follow each other.
pub open spec fn first(a: Verdict, b: Verdict) -> Verdict {
    if a is Err {
        a
    } else {
        b
    }
}

/// A refusal unless a condition holds.
pub open spec fn demand(holds: bool, otherwise: ErrorView) -> Verdict {
    if holds {
        Ok(())
    } else {
        Err(otherwise)
    }
}

pub open spec fn empty(field: Seq<char>) -> ErrorView {
    ErrorView::EmptyField { field }
}

pub open spec fn budget(field: Seq<char>) -> ErrorView {
    ErrorView::InvalidBudget { field }
}

pub fn empty_field(field: &'static str) -> (r: DomainError)
    ensures
        r@ == empty(field@),
{
    DomainError::EmptyField { field }
}

pub fn invalid_budget(field: &'static str) -> (r: DomainError)
    ensures
        r@ == budget(field@),
{
    DomainError::InvalidBudget { field }
}

/// What is refused in this respect is refused with the first fault that it has.
pub proof fn demand_names_its_fault(holds: bool, otherwise: ErrorView)
    ensures
        !(holds) ==> demand(holds, otherwise) == Verdict::Err(otherwise),
{
}

} // verus!
