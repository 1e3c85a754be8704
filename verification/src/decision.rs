//! Forecasts, decisions and the evidence that they rest on.
use crate::artifact::{
    refs_all_cite, refs_all_have_kind, refs_contain, refs_list, ArtifactKind, ArtifactRef, RefView,
};
use crate::error::{
    budget, demand, empty, empty_field, first, invalid_budget, outcome, DomainError, ErrorView,
    Verdict,
};
use crate::foundation::{Asset, ContentHash, DecisionId, RunId, TargetPortfolio, WeightPpm};
use crate::json::{
    json_insert, json_new_object, json_object, json_text, no_members, JsonItem, JsonKey, JsonTree, ToJson,
};
use crate::lists::{
    all_of, any_of, check_all, first_fault, first_fault_stays, list_verdict, Checked,
};
use crate::market_safety::ConsensusDiversityAssessment;
use crate::ordered::{ascending, is_ascending, rank_numbers, views, Key, OrderedMap, Rank};
use crate::research::{
    any_gap_blocks, gaps_block, is_evidence_kind, ClaimStance, ClaimVerificationEvidence,
    ClaimVerificationStatus, EvidenceGround, ResearchClaim, ResearchCritique, ResearchShard,
};
use crate::research_review::NumericEstimateBasis;
use crate::text::{any_blank, blank, has_blank, is_blank};
use crate::time::{earlier, elapsed_nanos, truncated, UtcTime};
use crate::DOMAIN_SCHEMA_VERSION;
use vstd::prelude::*;

verus! {

/// What keeps a decision from being executed.
#[derive(Clone, Copy, Debug, PartialEq, Eq, PartialOrd, Ord, Hash, Structural)]
pub enum HardBlocker {
    UnsupportedUniverse,
    NoExecutableOrder,
    Frozen,
    MissingEvidence,
    UnverifiedClaim,
    InvalidProvenance,
    MaterialConflict,
    StaleQuote,
    MissingQuote,
    StaleAccount,
    MissingAccount,
    MarketClosed,
    FactorLimit,
    PairExposureLimit,
    TurnoverLimit,
    PlanHashMismatch,
    DuplicateCommitment,
    NonPaperEndpoint,
    NonCanonicalRun,
    RecoveryIncomplete,
    ExternalPosition,
    UnmanagedOpenOrder,
    StaleDecision,
    HorizonConflict,
    UnqualifiedRuntime,
    MandateViolation,
    CapacityLimit,
    ComplianceViolation,
    DependencyDegraded,
    InvalidQuote,
}

impl View for HardBlocker {
    type V = HardBlocker;

    open spec fn view(&self) -> HardBlocker {
        *self
    }
}

impl HardBlocker {
    /// Where the variant stands in the order.
    pub open spec fn place(self) -> u32 {
        match self {
            HardBlocker::UnsupportedUniverse => 0,
            HardBlocker::NoExecutableOrder => 1,
            HardBlocker::Frozen => 2,
            HardBlocker::MissingEvidence => 3,
            HardBlocker::UnverifiedClaim => 4,
            HardBlocker::InvalidProvenance => 5,
            HardBlocker::MaterialConflict => 6,
            HardBlocker::StaleQuote => 7,
            HardBlocker::MissingQuote => 8,
            HardBlocker::StaleAccount => 9,
            HardBlocker::MissingAccount => 10,
            HardBlocker::MarketClosed => 11,
            HardBlocker::FactorLimit => 12,
            HardBlocker::PairExposureLimit => 13,
            HardBlocker::TurnoverLimit => 14,
            HardBlocker::PlanHashMismatch => 15,
            HardBlocker::DuplicateCommitment => 16,
            HardBlocker::NonPaperEndpoint => 17,
            HardBlocker::NonCanonicalRun => 18,
            HardBlocker::RecoveryIncomplete => 19,
            HardBlocker::ExternalPosition => 20,
            HardBlocker::UnmanagedOpenOrder => 21,
            HardBlocker::StaleDecision => 22,
            HardBlocker::HorizonConflict => 23,
            HardBlocker::UnqualifiedRuntime => 24,
            HardBlocker::MandateViolation => 25,
            HardBlocker::CapacityLimit => 26,
            HardBlocker::ComplianceViolation => 27,
            HardBlocker::DependencyDegraded => 28,
            HardBlocker::InvalidQuote => 29,
        }
    }

    pub(crate) fn place_number(self) -> (r: u32)
        ensures
            r == self.place(),
    {
        match self {
            HardBlocker::UnsupportedUniverse => 0,
            HardBlocker::NoExecutableOrder => 1,
            HardBlocker::Frozen => 2,
            HardBlocker::MissingEvidence => 3,
            HardBlocker::UnverifiedClaim => 4,
            HardBlocker::InvalidProvenance => 5,
            HardBlocker::MaterialConflict => 6,
            HardBlocker::StaleQuote => 7,
            HardBlocker::MissingQuote => 8,
            HardBlocker::StaleAccount => 9,
            HardBlocker::MissingAccount => 10,
            HardBlocker::MarketClosed => 11,
            HardBlocker::FactorLimit => 12,
            HardBlocker::PairExposureLimit => 13,
            HardBlocker::TurnoverLimit => 14,
            HardBlocker::PlanHashMismatch => 15,
            HardBlocker::DuplicateCommitment => 16,
            HardBlocker::NonPaperEndpoint => 17,
            HardBlocker::NonCanonicalRun => 18,
            HardBlocker::RecoveryIncomplete => 19,
            HardBlocker::ExternalPosition => 20,
            HardBlocker::UnmanagedOpenOrder => 21,
            HardBlocker::StaleDecision => 22,
            HardBlocker::HorizonConflict => 23,
            HardBlocker::UnqualifiedRuntime => 24,
            HardBlocker::MandateViolation => 25,
            HardBlocker::CapacityLimit => 26,
            HardBlocker::ComplianceViolation => 27,
            HardBlocker::DependencyDegraded => 28,
            HardBlocker::InvalidQuote => 29,
        }
    }
}

impl Key for HardBlocker {
    open spec fn code(key: HardBlocker) -> Seq<int> {
        seq![key.place() as int]
    }

    proof fn code_is_injective(a: HardBlocker, b: HardBlocker) {
        assert(Self::code(a)[0] == a.place() as int && Self::code(b)[0] == b.place() as int);
    }

    fn rank(&self, other: &Self) -> (r: Rank) {
        rank_numbers((*self).place_number(), (*other).place_number())
    }

    fn duplicate(&self) -> (r: Self) {
        *self
    }
}

/// What speaks against a decision without stopping it.
#[derive(Clone, Copy, Debug, PartialEq, Eq, PartialOrd, Ord, Hash, Structural)]
pub enum SoftWarning {
    LowConfidence,
    IncompleteEvidence,
    ElevatedTurnover,
    SlowModelResponse,
    StaleNoncriticalEvidence,
    CorrelatedConsensus,
}

impl View for SoftWarning {
    type V = SoftWarning;

    open spec fn view(&self) -> SoftWarning {
        *self
    }
}

impl SoftWarning {
    /// Where the variant stands in the order.
    pub open spec fn place(self) -> u32 {
        match self {
            SoftWarning::LowConfidence => 0,
            SoftWarning::IncompleteEvidence => 1,
            SoftWarning::ElevatedTurnover => 2,
            SoftWarning::SlowModelResponse => 3,
            SoftWarning::StaleNoncriticalEvidence => 4,
            SoftWarning::CorrelatedConsensus => 5,
        }
    }

    pub(crate) fn place_number(self) -> (r: u32)
        ensures
            r == self.place(),
    {
        match self {
            SoftWarning::LowConfidence => 0,
            SoftWarning::IncompleteEvidence => 1,
            SoftWarning::ElevatedTurnover => 2,
            SoftWarning::SlowModelResponse => 3,
            SoftWarning::StaleNoncriticalEvidence => 4,
            SoftWarning::CorrelatedConsensus => 5,
        }
    }
}

impl Key for SoftWarning {
    open spec fn code(key: SoftWarning) -> Seq<int> {
        seq![key.place() as int]
    }

    proof fn code_is_injective(a: SoftWarning, b: SoftWarning) {
        assert(Self::code(a)[0] == a.place() as int && Self::code(b)[0] == b.place() as int);
    }

    fn rank(&self, other: &Self) -> (r: Rank) {
        rank_numbers((*self).place_number(), (*other).place_number())
    }

    fn duplicate(&self) -> (r: Self) {
        *self
    }
}

/// When a decision may be carried out.
#[derive(Debug, PartialEq, Eq)]
pub struct DecisionValidity {
    pub evidence_cutoff: UtcTime,
    pub generated_at: UtcTime,
    pub valid_until: UtcTime,
    pub maximum_execution_delay_ms: u64,
    pub market_state_hash: ContentHash,
}

impl Clone for DecisionValidity {
    fn clone(&self) -> (r: Self)
        ensures
            r == *self,
    {
        DecisionValidity {
            evidence_cutoff: self.evidence_cutoff,
            generated_at: self.generated_at,
            valid_until: self.valid_until,
            maximum_execution_delay_ms: self.maximum_execution_delay_ms,
            market_state_hash: self.market_state_hash.clone(),
        }
    }
}

/// The whole milliseconds from one instant to another.
pub open spec fn millis_between(from: UtcTime, to: UtcTime) -> int {
    truncated(elapsed_nanos(from, to), 1_000_000)
}

impl DecisionValidity {
    /// The evidence precedes the decision, which holds for a while, but for no longer than its
    /// execution may be put off.
    pub open spec fn window_is_valid(&self) -> bool {
        &&& !earlier(self.generated_at, self.evidence_cutoff)
        &&& earlier(self.generated_at, self.valid_until)
        &&& millis_between(self.generated_at, self.valid_until) <= self.maximum_execution_delay_ms
    }

    pub open spec fn verdict(&self) -> Verdict {
        first(
            demand(
                self.maximum_execution_delay_ms <= i64::MAX,
                budget("decision_validity.maximum_execution_delay_ms"@),
            ),
            demand(self.window_is_valid(), budget("decision_validity.window"@)),
        )
    }

    pub fn validate(&self) -> (r: Result<(), DomainError>)
        ensures
            outcome(r) == self.verdict(),
    {
        if self.maximum_execution_delay_ms > i64::MAX as u64 {
            return Err(invalid_budget("decision_validity.maximum_execution_delay_ms"));
        }
        let allowed: i64 = self.maximum_execution_delay_ms as i64;
        if self.generated_at.is_before(&self.evidence_cutoff) || !self.generated_at.is_before(
            &self.valid_until,
        ) || self.valid_until.millis_since(&self.generated_at) > allowed {
            return Err(invalid_budget("decision_validity.window"));
        }
        Ok(())
    }

    /// Whether the decision may be carried out at an instant.
    pub open spec fn holds_at(&self, now: UtcTime) -> bool {
        &&& !earlier(now, self.generated_at)
        &&& !earlier(self.valid_until, now)
        &&& millis_between(self.generated_at, now) <= self.maximum_execution_delay_ms
    }

    pub fn is_valid_at(&self, now: UtcTime) -> (r: bool)
        ensures
            r == self.holds_at(now),
    {
        let elapsed: i64 = now.millis_since(&self.generated_at);
        !now.is_before(&self.generated_at) && !self.valid_until.is_before(&now) && (elapsed < 0
            || elapsed as u64 <= self.maximum_execution_delay_ms)
    }
}

/// How long the stages of a decision took, where that was measured.
#[derive(Clone, Copy, Debug, PartialEq, Eq, Structural)]
pub struct DecisionStageLatencies {
    pub retrieval_latency_millis: Option<u64>,
    pub model_latency_millis: Option<u64>,
    pub critic_latency_millis: Option<u64>,
    pub decision_gate_latency_millis: Option<u64>,
}

impl Default for DecisionStageLatencies {
    fn default() -> (r: Self)
        ensures
            r == (DecisionStageLatencies {
                retrieval_latency_millis: None,
                model_latency_millis: None,
                critic_latency_millis: None,
                decision_gate_latency_millis: None,
            }),
    {
        DecisionStageLatencies {
            retrieval_latency_millis: None,
            model_latency_millis: None,
            critic_latency_millis: None,
            decision_gate_latency_millis: None,
        }
    }
}

/// How far a forecast looks ahead.
#[derive(Clone, Copy, Debug, PartialEq, Eq, PartialOrd, Ord, Hash, Structural)]
pub enum DecisionHorizon {
    T1,
    T3,
    T5,
}

impl DecisionHorizon {
    /// The name of the variant in JSON.
    pub open spec fn wire(self) -> Seq<char> {
        match self {
            DecisionHorizon::T1 => "t1"@,
            DecisionHorizon::T3 => "t3"@,
            DecisionHorizon::T5 => "t5"@,
        }
    }

    /// The name of the variant in JSON.
    pub fn wire_name(self) -> (r: &'static str)
        ensures
            r@ == self.wire(),
    {
        match self {
            DecisionHorizon::T1 => "t1",
            DecisionHorizon::T3 => "t3",
            DecisionHorizon::T5 => "t5",
        }
    }
}

impl ToJson for DecisionHorizon {
    open spec fn json(&self) -> JsonTree {
        JsonTree::Text(self.wire())
    }

    fn to_json(&self) -> (r: serde_json::Value) {
        json_text(self.wire_name())
    }
}

impl View for DecisionHorizon {
    type V = DecisionHorizon;

    open spec fn view(&self) -> DecisionHorizon {
        *self
    }
}

impl DecisionHorizon {
    /// Where the variant stands in the order.
    pub open spec fn place(self) -> u32 {
        match self {
            DecisionHorizon::T1 => 0,
            DecisionHorizon::T3 => 1,
            DecisionHorizon::T5 => 2,
        }
    }

    pub(crate) fn place_number(self) -> (r: u32)
        ensures
            r == self.place(),
    {
        match self {
            DecisionHorizon::T1 => 0,
            DecisionHorizon::T3 => 1,
            DecisionHorizon::T5 => 2,
        }
    }
}

impl Key for DecisionHorizon {
    open spec fn code(key: DecisionHorizon) -> Seq<int> {
        seq![key.place() as int]
    }

    proof fn code_is_injective(a: DecisionHorizon, b: DecisionHorizon) {
        assert(Self::code(a)[0] == a.place() as int && Self::code(b)[0] == b.place() as int);
    }

    fn rank(&self, other: &Self) -> (r: Rank) {
        rank_numbers((*self).place_number(), (*other).place_number())
    }

    fn duplicate(&self) -> (r: Self) {
        *self
    }
}

impl JsonItem for DecisionHorizon {
    open spec fn item_json(key: DecisionHorizon) -> JsonTree {
        JsonTree::Text(key.wire())
    }

    fn to_item_json(&self) -> (r: serde_json::Value) {
        json_text((*self).wire_name())
    }
}

impl JsonKey for DecisionHorizon {
    open spec fn key_text(key: DecisionHorizon) -> Seq<char> {
        key.wire()
    }

    fn to_key_text(&self) -> (r: String) {
        (*self).wire_name().to_owned()
    }
}

impl DecisionHorizon {
    pub const ALL: [DecisionHorizon; 3] = [DecisionHorizon::T1, DecisionHorizon::T3, DecisionHorizon::T5];

    pub open spec fn days(self) -> u8 {
        match self {
            DecisionHorizon::T1 => 1,
            DecisionHorizon::T3 => 3,
            DecisionHorizon::T5 => 5,
        }
    }

    /// The number of trading days.
    pub fn trading_days(self) -> (r: u8)
        ensures
            r == self.days(),
    {
        match self {
            DecisionHorizon::T1 => 1,
            DecisionHorizon::T3 => 3,
            DecisionHorizon::T5 => 5,
        }
    }
}

/// How a forecast is meant to play out.
#[derive(Debug, Clone, PartialEq, Eq)]
pub struct ForecastThesis {
    pub thesis_valid_until: UtcTime,
    pub expected_holding_period_days: u8,
    pub exit_condition: String,
    pub invalidation_conditions: Vec<String>,
}

impl ToJson for ForecastThesis {
    open spec fn json(&self) -> JsonTree {
        let m = no_members();
        let m = m.insert("thesis_valid_until"@, self.thesis_valid_until.json());
        let m = m.insert("expected_holding_period_days"@, self.expected_holding_period_days.json());
        let m = m.insert("exit_condition"@, self.exit_condition.json());
        let m = m.insert("invalidation_conditions"@, self.invalidation_conditions.json());
        JsonTree::Object(m)
    }

    fn to_json(&self) -> (r: serde_json::Value) {
        let mut members = json_new_object();
        json_insert(&mut members, "thesis_valid_until", self.thesis_valid_until.to_json());
        json_insert(
            &mut members,
            "expected_holding_period_days",
            self.expected_holding_period_days.to_json(),
        );
        json_insert(&mut members, "exit_condition", self.exit_condition.to_json());
        json_insert(
            &mut members,
            "invalidation_conditions",
            self.invalidation_conditions.to_json(),
        );
        json_object(members)
    }
}

impl ForecastThesis {
    pub open spec fn verdict(&self, horizon: DecisionHorizon) -> Verdict {
        demand(
            self.expected_holding_period_days == horizon.days() && !blank(self.exit_condition@)
                && self.invalidation_conditions@.len() > 0 && !any_blank(
                self.invalidation_conditions@,
            ),
            empty("forecast.thesis"@),
        )
    }

    pub fn validate(&self, horizon: DecisionHorizon) -> (r: Result<(), DomainError>)
        ensures
            outcome(r) == self.verdict(horizon),
    {
        if self.expected_holding_period_days != horizon.trading_days() || is_blank(
            &self.exit_condition,
        ) || self.invalidation_conditions.len() == 0 || has_blank(&self.invalidation_conditions) {
            return Err(empty_field("forecast.thesis"));
        }
        Ok(())
    }
}

/// Which way the signal of a horizon points.
#[derive(Clone, Copy, Debug, PartialEq, Eq, PartialOrd, Ord, Hash, Structural)]
pub enum HorizonSignalDirection {
    Bearish,
    Neutral,
    Bullish,
    Uncalibrated,
}

/// What the forecast of one horizon contributed to a target.
#[derive(Debug, Clone, PartialEq, Eq)]
pub struct HorizonSleeveAttribution {
    pub asset: Asset,
    pub horizon: DecisionHorizon,
    pub policy_weight_ppm: u32,
    pub direction: HorizonSignalDirection,
    pub calibrated_probability_ppm: Option<u32>,
    pub calibrated_expected_alpha_ppm: Option<i64>,
    pub thesis: ForecastThesis,
    pub included_in_target: bool,
}

/// Two horizons of an asset that point in different directions.
#[derive(Clone, Copy, Debug, PartialEq, Eq, Structural)]
pub struct HorizonConflict {
    pub asset: Asset,
    pub shorter_horizon: DecisionHorizon,
    pub longer_horizon: DecisionHorizon,
}

/// How the horizons entered a target.
#[derive(Debug, Clone, PartialEq, Eq)]
pub struct HorizonDecisionTrace {
    pub sleeves: Vec<HorizonSleeveAttribution>,
    pub conflicts: Vec<HorizonConflict>,
}

impl Default for HorizonDecisionTrace {
    fn default() -> (r: Self)
        ensures
            r.sleeves@.len() == 0,
            r.conflicts@.len() == 0,
    {
        HorizonDecisionTrace { sleeves: Vec::new(), conflicts: Vec::new() }
    }
}

/// How well a decision was made, as far as that was measured.
#[derive(Clone, Copy, Debug, PartialEq, Eq, Structural)]
pub struct ProcessQualityAssessment {
    pub event_grounding_ppm: Option<u32>,
    pub premise_support_ppm: Option<u32>,
    pub temporal_validity_ppm: Option<u32>,
    pub logic_validity_ppm: Option<u32>,
    pub mandate_consistency_ppm: Option<u32>,
    pub portfolio_consistency_ppm: Option<u32>,
    pub action_feasibility_ppm: Option<u32>,
}

impl Default for ProcessQualityAssessment {
    fn default() -> (r: Self)
        ensures
            r == (ProcessQualityAssessment {
                event_grounding_ppm: None,
                premise_support_ppm: None,
                temporal_validity_ppm: None,
                logic_validity_ppm: None,
                mandate_consistency_ppm: None,
                portfolio_consistency_ppm: None,
                action_feasibility_ppm: None,
            }),
    {
        ProcessQualityAssessment {
            event_grounding_ppm: None,
            premise_support_ppm: None,
            temporal_validity_ppm: None,
            logic_validity_ppm: None,
            mandate_consistency_ppm: None,
            portfolio_consistency_ppm: None,
            action_feasibility_ppm: None,
        }
    }
}

/// A measured share is at most a million parts.
pub open spec fn share_fits(value: Option<u32>) -> bool {
    value matches Some(ppm) ==> ppm <= 1_000_000
}

fn share_is_valid(value: Option<u32>) -> (r: bool)
    ensures
        r == share_fits(value),
{
    match value {
        Some(ppm) => ppm <= WeightPpm::SCALE,
        None => true,
    }
}

/// The lower of two measures, where both were taken.
pub open spec fn lower(a: Option<u32>, b: Option<u32>) -> Option<u32> {
    match (a, b) {
        (Some(x), Some(y)) => Some(if x <= y {
            x
        } else {
            y
        }),
        _ => None,
    }
}

fn lower_of(a: Option<u32>, b: Option<u32>) -> (r: Option<u32>)
    ensures
        r == lower(a, b),
{
    match (a, b) {
        (Some(x), Some(y)) => Some(
            if x <= y {
                x
            } else {
                y
            },
        ),
        _ => None,
    }
}

impl ProcessQualityAssessment {
    pub open spec fn shares_fit(&self) -> bool {
        &&& share_fits(self.event_grounding_ppm)
        &&& share_fits(self.premise_support_ppm)
        &&& share_fits(self.temporal_validity_ppm)
        &&& share_fits(self.logic_validity_ppm)
        &&& share_fits(self.mandate_consistency_ppm)
        &&& share_fits(self.portfolio_consistency_ppm)
        &&& share_fits(self.action_feasibility_ppm)
    }

    pub open spec fn verdict(&self) -> Verdict {
        demand(self.shares_fit(), budget("investment_logic.quality"@))
    }

    pub fn validate(&self) -> (r: Result<(), DomainError>)
        ensures
            outcome(r) == self.verdict(),
    {
        if !(share_is_valid(self.event_grounding_ppm) && share_is_valid(self.premise_support_ppm)
            && share_is_valid(self.temporal_validity_ppm) && share_is_valid(self.logic_validity_ppm)
            && share_is_valid(self.mandate_consistency_ppm) && share_is_valid(
            self.portfolio_consistency_ppm,
        ) && share_is_valid(self.action_feasibility_ppm)) {
            return Err(invalid_budget("investment_logic.quality"));
        }
        Ok(())
    }

    /// The lowest of the four measures of research, where all were taken.
    pub open spec fn research_floor(&self) -> Option<u32> {
        lower(
            lower(self.event_grounding_ppm, self.premise_support_ppm),
            lower(self.temporal_validity_ppm, self.logic_validity_ppm),
        )
    }

    /// The lowest of all measures, where all were taken.
    pub open spec fn floor(&self) -> Option<u32> {
        lower(
            self.research_floor(),
            lower(
                lower(self.mandate_consistency_ppm, self.portfolio_consistency_ppm),
                self.action_feasibility_ppm,
            ),
        )
    }

    pub fn measured_floor(&self) -> (r: Option<u32>)
        ensures
            r == self.floor(),
    {
        let execution = lower_of(
            lower_of(self.mandate_consistency_ppm, self.portfolio_consistency_ppm),
            self.action_feasibility_ppm,
        );
        lower_of(self.research_measured_floor(), execution)
    }

    pub fn research_measured_floor(&self) -> (r: Option<u32>)
        ensures
            r == self.research_floor(),
    {
        lower_of(
            lower_of(self.event_grounding_ppm, self.premise_support_ppm),
            lower_of(self.temporal_validity_ppm, self.logic_validity_ppm),
        )
    }

    /// The assessment with the measures of execution, where those of research were all taken.
    pub open spec fn finalized(
        &self,
        mandate_consistency_ppm: u32,
        portfolio_consistency_ppm: u32,
        action_feasibility_ppm: u32,
    ) -> Option<ProcessQualityAssessment> {
        let complete = ProcessQualityAssessment {
            mandate_consistency_ppm: Some(mandate_consistency_ppm),
            portfolio_consistency_ppm: Some(portfolio_consistency_ppm),
            action_feasibility_ppm: Some(action_feasibility_ppm),
            ..*self
        };
        if self.research_floor() is Some && complete.verdict() is Ok {
            Some(complete)
        } else {
            None
        }
    }

    pub fn execution_finalized(
        &self,
        mandate_consistency_ppm: u32,
        portfolio_consistency_ppm: u32,
        action_feasibility_ppm: u32,
    ) -> (r: Option<Self>)
        ensures
            r == self.finalized(
                mandate_consistency_ppm,
                portfolio_consistency_ppm,
                action_feasibility_ppm,
            ),
    {
        if self.research_measured_floor().is_none() {
            return None;
        }
        let finalized = ProcessQualityAssessment {
            event_grounding_ppm: self.event_grounding_ppm,
            premise_support_ppm: self.premise_support_ppm,
            temporal_validity_ppm: self.temporal_validity_ppm,
            logic_validity_ppm: self.logic_validity_ppm,
            mandate_consistency_ppm: Some(mandate_consistency_ppm),
            portfolio_consistency_ppm: Some(portfolio_consistency_ppm),
            action_feasibility_ppm: Some(action_feasibility_ppm),
        };
        if finalized.validate().is_err() {
            return None;
        }
        Some(finalized)
    }
}

/// A finalized assessment has every measure, and so a floor.
pub proof fn finalized_quality_is_fully_measured(
    quality: ProcessQualityAssessment,
    mandate: u32,
    portfolio: u32,
    action: u32,
)
    requires
        quality.finalized(mandate, portfolio, action) is Some,
    ensures
        quality.finalized(mandate, portfolio, action)->0.floor() is Some,
        quality.finalized(mandate, portfolio, action)->0.floor()->0 <= quality.research_floor()->0,
{
}

/// How a decision was reasoned.
#[derive(Debug, Clone, PartialEq, Eq)]
pub struct InvestmentLogicTrace {
    pub observed_events: Vec<ArtifactRef>,
    pub accepted_premises: Vec<ArtifactRef>,
    pub rejected_premises: Vec<ArtifactRef>,
    pub alternatives_considered: Vec<ArtifactRef>,
    pub selected_action_hash: ContentHash,
    pub invalidation_conditions: Vec<String>,
    pub quality: ProcessQualityAssessment,
    pub consensus_diversity: Option<ConsensusDiversityAssessment>,
    pub stage_latencies: DecisionStageLatencies,
}

/// Every listed reference is to evidence.
pub open spec fn refs_are_evidence(list: Seq<ArtifactRef>) -> bool {
    forall|i: int| 0 <= i < list.len() ==> is_evidence_kind((#[trigger] list[i]).kind)
}

pub fn all_refs_are_evidence(list: &Vec<ArtifactRef>) -> (r: bool)
    ensures
        r == refs_are_evidence(list@),
{
    let evidence = |reference: &ArtifactRef| -> (b: bool)
        ensures
            b == is_evidence_kind(reference.kind),
        {
            matches!(reference.kind, ArtifactKind::NormalizedEvidence | ArtifactKind::SemanticDetail)
        };
    all_of(list.as_slice(), evidence)
}

impl InvestmentLogicTrace {
    pub open spec fn is_grounded(&self) -> bool {
        &&& refs_are_evidence(self.observed_events@)
        &&& refs_all_cite(self.accepted_premises@, ArtifactKind::Claim)
        &&& refs_all_cite(self.rejected_premises@, ArtifactKind::Claim)
        &&& refs_all_cite(self.alternatives_considered@, ArtifactKind::Critique)
        &&& self.invalidation_conditions@.len() > 0
        &&& !any_blank(self.invalidation_conditions@)
    }

    pub open spec fn verdict(&self) -> Verdict {
        if !self.is_grounded() {
            Err(empty("investment_logic.trace"@))
        } else {
            first(
                self.quality.verdict(),
                match self.consensus_diversity {
                    Some(consensus) => consensus.verdict(),
                    None => Ok(()),
                },
            )
        }
    }

    pub fn validate(&self) -> (r: Result<(), DomainError>)
        ensures
            outcome(r) == self.verdict(),
    {
        if !all_refs_are_evidence(&self.observed_events) || !refs_all_have_kind(
            &self.accepted_premises,
            ArtifactKind::Claim,
        ) || !refs_all_have_kind(&self.rejected_premises, ArtifactKind::Claim)
            || !refs_all_have_kind(&self.alternatives_considered, ArtifactKind::Critique)
            || self.invalidation_conditions.len() == 0 || has_blank(&self.invalidation_conditions) {
            return Err(empty_field("investment_logic.trace"));
        }
        self.quality.validate()?;
        if let Some(consensus) = &self.consensus_diversity {
            consensus.validate()?;
        }
        Ok(())
    }
}

/// A claim and a critique that cannot both stand.
#[derive(Debug, Clone, PartialEq, Eq)]
pub struct MaterialConflict {
    pub claim: ArtifactRef,
    pub critique: ArtifactRef,
    pub topic: String,
    pub rationale: String,
}

impl MaterialConflict {
    pub open spec fn verdict(&self) -> Verdict {
        first(
            demand(
                self.claim.kind is Claim && self.critique.kind is Critique,
                empty("material_conflict.references"@),
            ),
            demand(
                !blank(self.topic@) && !blank(self.rationale@),
                empty("material_conflict.description"@),
            ),
        )
    }

    pub fn validate(&self) -> (r: Result<(), DomainError>)
        ensures
            outcome(r) == self.verdict(),
    {
        if self.claim.kind != ArtifactKind::Claim || self.critique.kind != ArtifactKind::Critique {
            return Err(empty_field("material_conflict.references"));
        }
        if is_blank(&self.topic) || is_blank(&self.rationale) {
            return Err(empty_field("material_conflict.description"));
        }
        Ok(())
    }
}

impl Checked for MaterialConflict {
    open spec fn judged(&self) -> Verdict {
        self.verdict()
    }

    fn check(&self) -> (r: Result<(), DomainError>) {
        self.validate()
    }
}

/// Why an asset is not eligible.
#[derive(Clone, Copy, Debug, PartialEq, Eq, PartialOrd, Ord, Hash, Structural)]
pub enum DecisionEligibilityReason {
    MissingEvidence,
    UnverifiedClaim,
    MissingCalibration,
    InsufficientCalibrationSamples,
    RiskUnknown,
    RiskRejected,
    ConfidenceTooLow,
    HorizonConflict,
    NoDirectionalSignal,
}

impl View for DecisionEligibilityReason {
    type V = DecisionEligibilityReason;

    open spec fn view(&self) -> DecisionEligibilityReason {
        *self
    }
}

impl DecisionEligibilityReason {
    /// Where the variant stands in the order.
    pub open spec fn place(self) -> u32 {
        match self {
            DecisionEligibilityReason::MissingEvidence => 0,
            DecisionEligibilityReason::UnverifiedClaim => 1,
            DecisionEligibilityReason::MissingCalibration => 2,
            DecisionEligibilityReason::InsufficientCalibrationSamples => 3,
            DecisionEligibilityReason::RiskUnknown => 4,
            DecisionEligibilityReason::RiskRejected => 5,
            DecisionEligibilityReason::ConfidenceTooLow => 6,
            DecisionEligibilityReason::HorizonConflict => 7,
            DecisionEligibilityReason::NoDirectionalSignal => 8,
        }
    }

    pub(crate) fn place_number(self) -> (r: u32)
        ensures
            r == self.place(),
    {
        match self {
            DecisionEligibilityReason::MissingEvidence => 0,
            DecisionEligibilityReason::UnverifiedClaim => 1,
            DecisionEligibilityReason::MissingCalibration => 2,
            DecisionEligibilityReason::InsufficientCalibrationSamples => 3,
            DecisionEligibilityReason::RiskUnknown => 4,
            DecisionEligibilityReason::RiskRejected => 5,
            DecisionEligibilityReason::ConfidenceTooLow => 6,
            DecisionEligibilityReason::HorizonConflict => 7,
            DecisionEligibilityReason::NoDirectionalSignal => 8,
        }
    }
}

impl Key for DecisionEligibilityReason {
    open spec fn code(key: DecisionEligibilityReason) -> Seq<int> {
        seq![key.place() as int]
    }

    proof fn code_is_injective(a: DecisionEligibilityReason, b: DecisionEligibilityReason) {
        assert(Self::code(a)[0] == a.place() as int && Self::code(b)[0] == b.place() as int);
    }

    fn rank(&self, other: &Self) -> (r: Rank) {
        rank_numbers((*self).place_number(), (*other).place_number())
    }

    fn duplicate(&self) -> (r: Self) {
        *self
    }
}

/// Whether an asset may be held, and what was checked for that.
#[derive(Debug, Clone, PartialEq, Eq)]
pub struct AssetEligibility {
    pub directional_evidence: bool,
    pub claim_verified: bool,
    pub calibration: bool,
    pub risk: bool,
    pub eligible: bool,
    pub reasons: Vec<DecisionEligibilityReason>,
}

impl AssetEligibility {
    /// The reasons ascend; an eligible asset has none and passed every check.
    pub open spec fn is_consistent(&self) -> bool {
        &&& ascending::<DecisionEligibilityReason>(views(self.reasons@))
        &&& self.eligible ==> self.reasons@.len() == 0 && self.directional_evidence
            && self.claim_verified && self.calibration && self.risk
    }

    pub open spec fn verdict(&self) -> Verdict {
        demand(self.is_consistent(), budget("decision_context.asset_eligibility"@))
    }

    pub fn validate(&self) -> (r: Result<(), DomainError>)
        ensures
            outcome(r) == self.verdict(),
    {
        if !is_ascending(&self.reasons) || (self.eligible && self.reasons.len() > 0) || (
        self.eligible && !(self.directional_evidence && self.claim_verified && self.calibration
            && self.risk)) {
            return Err(invalid_budget("decision_context.asset_eligibility"));
        }
        Ok(())
    }
}

/// One rule as it was applied: an audit record, with nothing of the model's own reasoning.
#[derive(Debug, Clone, PartialEq, Eq)]
pub struct DecisionRuleEvaluation {
    pub rule_id: String,
    pub rule_version: String,
    pub source_location: String,
    pub inputs: serde_json::Value,
    pub operator: Option<String>,
    pub threshold: Option<serde_json::Value>,
    pub evaluated: bool,
    pub result: String,
    pub reason_code: String,
    pub explanation: String,
    pub asset: Option<Asset>,
    pub horizon: Option<DecisionHorizon>,
    pub before: Option<serde_json::Value>,
    pub after: Option<serde_json::Value>,
    pub short_circuited: bool,
}

/// The rules that were applied to a decision.
#[derive(Debug, Clone, PartialEq, Eq)]
pub struct DecisionEvaluationTrace {
    pub version: u32,
    pub first_zeroing_branch: Option<String>,
    pub asset_first_exclusion: OrderedMap<Asset, String>,
    pub rules: Vec<DecisionRuleEvaluation>,
}

impl Default for DecisionEvaluationTrace {
    fn default() -> (r: Self)
        ensures
            r.version == 0,
            r.first_zeroing_branch is None,
            r.asset_first_exclusion@ == Map::<Asset, String>::empty(),
            r.rules@.len() == 0,
    {
        DecisionEvaluationTrace {
            version: 0,
            first_zeroing_branch: None,
            asset_first_exclusion: OrderedMap::new(),
            rules: Vec::new(),
        }
    }
}

/// The risk of a portfolio before it is taken on. What was not measured is absent, and no
/// target that is not zero can rest on it.
#[derive(Debug, PartialEq, Eq)]
pub struct PortfolioRiskAssessment {
    pub risk_model_hash: Option<ContentHash>,
    pub calibrated_assets: u8,
    pub covariance_sample_count: u32,
    pub ex_ante_volatility_ppm: Option<u32>,
    pub beta_ppm: Option<u32>,
    pub expected_shortfall_ppm: Option<u32>,
    pub gap_loss_ppm: Option<u32>,
    pub liquidity_binding_assets: Vec<Asset>,
    pub leveraged_holding_limit_days: u8,
}

impl Clone for PortfolioRiskAssessment {
    fn clone(&self) -> (r: Self)
        ensures
            r.risk_model_hash == self.risk_model_hash,
            r.calibrated_assets == self.calibrated_assets,
            r.covariance_sample_count == self.covariance_sample_count,
            r.ex_ante_volatility_ppm == self.ex_ante_volatility_ppm,
            r.beta_ppm == self.beta_ppm,
            r.expected_shortfall_ppm == self.expected_shortfall_ppm,
            r.gap_loss_ppm == self.gap_loss_ppm,
            views(r.liquidity_binding_assets@) == views(self.liquidity_binding_assets@),
            r.leveraged_holding_limit_days == self.leveraged_holding_limit_days,
    {
        PortfolioRiskAssessment {
            risk_model_hash: match &self.risk_model_hash {
                Some(hash) => Some(hash.clone()),
                None => None,
            },
            calibrated_assets: self.calibrated_assets,
            covariance_sample_count: self.covariance_sample_count,
            ex_ante_volatility_ppm: self.ex_ante_volatility_ppm,
            beta_ppm: self.beta_ppm,
            expected_shortfall_ppm: self.expected_shortfall_ppm,
            gap_loss_ppm: self.gap_loss_ppm,
            liquidity_binding_assets: crate::ordered::duplicate_keys(&self.liquidity_binding_assets),
            leveraged_holding_limit_days: self.leveraged_holding_limit_days,
        }
    }
}

impl Default for PortfolioRiskAssessment {
    fn default() -> (r: Self)
        ensures
            r.risk_model_hash is None,
            r.calibrated_assets == 0,
            r.covariance_sample_count == 0,
            r.ex_ante_volatility_ppm is None,
            r.beta_ppm is None,
            r.expected_shortfall_ppm is None,
            r.gap_loss_ppm is None,
            r.liquidity_binding_assets@.len() == 0,
            r.leveraged_holding_limit_days == 0,
    {
        PortfolioRiskAssessment {
            risk_model_hash: None,
            calibrated_assets: 0,
            covariance_sample_count: 0,
            ex_ante_volatility_ppm: None,
            beta_ppm: None,
            expected_shortfall_ppm: None,
            gap_loss_ppm: None,
            liquidity_binding_assets: Vec::new(),
            leveraged_holding_limit_days: 0,
        }
    }
}

/// A measured risk is at most three times the portfolio.
pub open spec fn risk_fits(value: Option<u32>) -> bool {
    value matches Some(ppm) ==> ppm <= 3_000_000
}

fn risk_is_valid(value: Option<u32>) -> (r: bool)
    ensures
        r == risk_fits(value),
{
    match value {
        Some(ppm) => ppm <= 3_000_000,
        None => true,
    }
}

impl PortfolioRiskAssessment {
    pub open spec fn is_bounded(&self) -> bool {
        &&& risk_fits(self.ex_ante_volatility_ppm)
        &&& risk_fits(self.beta_ppm)
        &&& risk_fits(self.expected_shortfall_ppm)
        &&& risk_fits(self.gap_loss_ppm)
        &&& self.calibrated_assets <= 4
        &&& self.leveraged_holding_limit_days <= 5
    }

    pub open spec fn verdict(&self) -> Verdict {
        first(
            demand(self.is_bounded(), budget("portfolio_risk_assessment"@)),
            demand(
                ascending::<Asset>(views(self.liquidity_binding_assets@)),
                budget("portfolio_risk_assessment.liquidity_binding_assets"@),
            ),
        )
    }

    pub fn validate(&self) -> (r: Result<(), DomainError>)
        ensures
            outcome(r) == self.verdict(),
    {
        if !(risk_is_valid(self.ex_ante_volatility_ppm) && risk_is_valid(self.beta_ppm)
            && risk_is_valid(self.expected_shortfall_ppm) && risk_is_valid(self.gap_loss_ppm))
            || self.calibrated_assets > 4 || self.leveraged_holding_limit_days > 5 {
            return Err(invalid_budget("portfolio_risk_assessment"));
        }
        if !is_ascending(&self.liquidity_binding_assets) {
            return Err(invalid_budget("portfolio_risk_assessment.liquidity_binding_assets"));
        }
        Ok(())
    }

    /// Every risk was measured with a model that is known.
    pub open spec fn is_measured(&self) -> bool {
        &&& self.risk_model_hash is Some
        &&& self.ex_ante_volatility_ppm is Some
        &&& self.beta_ppm is Some
        &&& self.expected_shortfall_ppm is Some
        &&& self.gap_loss_ppm is Some
    }
}

/// Everything that a decision rests on, and what stands against it. The target is that of
/// execution; the research plan is what research proposed.
#[derive(Debug, Clone, PartialEq, Eq)]
pub struct DecisionContext {
    pub schema_version: u32,
    pub decision_id: DecisionId,
    pub run_id: RunId,
    pub claims: Vec<ArtifactRef>,
    pub critiques: Vec<ArtifactRef>,
    pub evidence: Vec<ArtifactRef>,
    pub policy_influences: Vec<ArtifactRef>,
    pub applied_learning_refs: Vec<ArtifactRef>,
    pub rejected_learning_refs: Vec<ArtifactRef>,
    pub material_conflicts: Vec<MaterialConflict>,
    pub hard_blockers: Vec<HardBlocker>,
    pub soft_warnings: Vec<SoftWarning>,
    pub decision_policy_hash: ContentHash,
    pub behavior_bundle_hash: Option<ContentHash>,
    pub portfolio_risk: PortfolioRiskAssessment,
    pub target: TargetPortfolio,
    pub created_at: UtcTime,
    pub validity: Option<DecisionValidity>,
    pub horizon_trace: Option<HorizonDecisionTrace>,
    pub investment_logic: Option<InvestmentLogicTrace>,
    pub asset_eligibility: OrderedMap<Asset, AssetEligibility>,
    pub runtime_trace: Option<DecisionEvaluationTrace>,
    pub research_plan: Option<ResearchPlanReview>,
}

/// Every listed reference is to something learned.
pub open spec fn refs_are_learning(list: Seq<ArtifactRef>) -> bool {
    forall|i: int|
        0 <= i < list.len() ==> {
            ||| (#[trigger] list[i]).kind is Lesson
            ||| list[i].kind is Experience
            ||| list[i].kind is CandidatePolicy
        }
}

fn all_refs_are_learning(list: &Vec<ArtifactRef>) -> (r: bool)
    ensures
        r == refs_are_learning(list@),
{
    let learning = |reference: &ArtifactRef| -> (b: bool)
        ensures
            b == (reference.kind is Lesson || reference.kind is Experience
                || reference.kind is CandidatePolicy),
        {
            matches!(
                reference.kind,
                ArtifactKind::Lesson | ArtifactKind::Experience | ArtifactKind::CandidatePolicy
            )
        };
    all_of(list.as_slice(), learning)
}

/// Every listed reference is to something that may influence a policy.
pub open spec fn refs_are_influences(list: Seq<ArtifactRef>) -> bool {
    forall|i: int|
        0 <= i < list.len() ==> {
            ||| (#[trigger] list[i]).kind is Experience
            ||| list[i].kind is CandidatePolicy
        }
}

fn all_refs_are_influences(list: &Vec<ArtifactRef>) -> (r: bool)
    ensures
        r == refs_are_influences(list@),
{
    let influence = |reference: &ArtifactRef| -> (b: bool)
        ensures
            b == (reference.kind is Experience || reference.kind is CandidatePolicy),
        { matches!(reference.kind, ArtifactKind::Experience | ArtifactKind::CandidatePolicy) };
    all_of(list.as_slice(), influence)
}

/// Some reference is in both lists.
pub open spec fn refs_overlap(a: Seq<ArtifactRef>, b: Seq<ArtifactRef>) -> bool {
    exists|i: int| 0 <= i < a.len() && refs_list(b, (#[trigger] a[i])@)
}

fn lists_overlap(a: &Vec<ArtifactRef>, b: &Vec<ArtifactRef>) -> (r: bool)
    ensures
        r == refs_overlap(a@, b@),
{
    let shared = |reference: &ArtifactRef| -> (s: bool)
        ensures
            s == refs_list(b@, reference@),
        { refs_contain(b, reference) };
    any_of(a.as_slice(), shared)
}

impl DecisionContext {
    /// Nothing stands against the decision.
    pub open spec fn is_accepted(&self) -> bool {
        self.hard_blockers@.len() == 0 && self.material_conflicts@.len() == 0
    }

    pub fn accepted(&self) -> (r: bool)
        ensures
            r == self.is_accepted(),
    {
        self.hard_blockers.len() == 0 && self.material_conflicts.len() == 0
    }

    pub open spec fn references_are_sound(&self) -> bool {
        &&& refs_all_cite(self.claims@, ArtifactKind::Claim)
        &&& refs_all_cite(self.critiques@, ArtifactKind::Critique)
        &&& refs_are_evidence(self.evidence@)
        &&& refs_are_influences(self.policy_influences@)
    }

    pub open spec fn validity_verdict(&self) -> Verdict {
        match self.validity {
            Some(validity) => first(
                validity.verdict(),
                demand(
                    validity.generated_at == self.created_at,
                    budget("decision_context.validity"@),
                ),
            ),
            None => Ok(()),
        }
    }

    /// Some asset has a weight.
    pub open spec fn targets_an_asset(&self) -> bool {
        exists|i: int|
            0 <= i < self.target.weights.keys().len() && (
            #[trigger] self.target.weights.values()[i]).0 > 0
    }

    pub open spec fn eligibility_is_sound(&self) -> bool {
        forall|i: int|
            0 <= i < self.asset_eligibility.keys().len() ==> (
            #[trigger] self.asset_eligibility.values()[i]).verdict() is Ok
    }

    pub open spec fn verdict(&self) -> Verdict {
        if self.schema_version != DOMAIN_SCHEMA_VERSION {
            Err(empty("decision_context.schema_version"@))
        } else if blank(self.decision_id@) || blank(self.run_id@) {
            Err(empty("decision_context.identity"@))
        } else if !self.references_are_sound() {
            Err(empty("decision_context.references"@))
        } else if !refs_are_learning(self.applied_learning_refs@) || !refs_are_learning(
            self.rejected_learning_refs@,
        ) {
            Err(empty("decision_context.learning_refs"@))
        } else if refs_overlap(self.applied_learning_refs@, self.rejected_learning_refs@) {
            Err(empty("decision_context.learning_refs_overlap"@))
        } else if self.claims@.len() == 0 && self.hard_blockers@.len() == 0 {
            Err(empty("decision_context.claims_or_blockers"@))
        } else if list_verdict(self.material_conflicts@) is Err {
            list_verdict(self.material_conflicts@)
        } else if self.target.universe_verdict() is Err {
            self.target.universe_verdict()
        } else if self.portfolio_risk.verdict() is Err {
            self.portfolio_risk.verdict()
        } else if self.validity_verdict() is Err {
            self.validity_verdict()
        } else if self.investment_logic matches Some(trace) && trace.verdict() is Err {
            self.investment_logic->0.verdict()
        } else if self.research_plan matches Some(plan) && plan.verdict() is Err {
            self.research_plan->0.verdict()
        } else if !self.eligibility_is_sound() {
            Err(budget("decision_context.asset_eligibility"@))
        } else if self.is_accepted() && self.targets_an_asset()
            && !self.portfolio_risk.is_measured() {
            Err(budget("decision_context.portfolio_risk"@))
        } else {
            Ok(())
        }
    }

    fn has_target(&self) -> (r: bool)
        ensures
            r == self.targets_an_asset(),
    {
        let n: usize = self.target.weights.len();
        let mut i: usize = 0;
        while i < n
            invariant
                i <= n,
                n == self.target.weights.keys().len(),
                forall|j: int|
                    0 <= j < i ==> (#[trigger] self.target.weights.values()[j]).0 == 0,
            decreases n - i,
        {
            if self.target.weights.value_at(i).0 > 0 {
                return true;
            }
            i += 1;
        }
        false
    }

    fn has_sound_eligibility(&self) -> (r: bool)
        ensures
            r == self.eligibility_is_sound(),
    {
        let n: usize = self.asset_eligibility.len();
        let mut i: usize = 0;
        while i < n
            invariant
                i <= n,
                n == self.asset_eligibility.keys().len(),
                forall|j: int|
                    0 <= j < i ==> (
                    #[trigger] self.asset_eligibility.values()[j]).verdict() is Ok,
            decreases n - i,
        {
            if self.asset_eligibility.value_at(i).validate().is_err() {
                return false;
            }
            i += 1;
        }
        true
    }

    pub fn validate(&self) -> (r: Result<(), DomainError>)
        ensures
            outcome(r) == self.verdict(),
    {
        if self.schema_version != DOMAIN_SCHEMA_VERSION {
            return Err(empty_field("decision_context.schema_version"));
        }
        if is_blank(&self.decision_id.0) || is_blank(&self.run_id.0) {
            return Err(empty_field("decision_context.identity"));
        }
        if !refs_all_have_kind(&self.claims, ArtifactKind::Claim) || !refs_all_have_kind(
            &self.critiques,
            ArtifactKind::Critique,
        ) || !all_refs_are_evidence(&self.evidence) || !all_refs_are_influences(
            &self.policy_influences,
        ) {
            return Err(empty_field("decision_context.references"));
        }
        if !all_refs_are_learning(&self.applied_learning_refs) || !all_refs_are_learning(
            &self.rejected_learning_refs,
        ) {
            return Err(empty_field("decision_context.learning_refs"));
        }
        if lists_overlap(&self.applied_learning_refs, &self.rejected_learning_refs) {
            return Err(empty_field("decision_context.learning_refs_overlap"));
        }
        if self.claims.len() == 0 && self.hard_blockers.len() == 0 {
            return Err(empty_field("decision_context.claims_or_blockers"));
        }
        check_all(&self.material_conflicts)?;
        self.target.validate_universe()?;
        self.portfolio_risk.validate()?;
        if let Some(validity) = &self.validity {
            validity.validate()?;
            if validity.generated_at != self.created_at {
                return Err(invalid_budget("decision_context.validity"));
            }
        }
        if let Some(trace) = &self.investment_logic {
            trace.validate()?;
        }
        if let Some(plan) = &self.research_plan {
            plan.validate()?;
        }
        if !self.has_sound_eligibility() {
            return Err(invalid_budget("decision_context.asset_eligibility"));
        }
        if self.accepted() && self.has_target() && (self.portfolio_risk.risk_model_hash.is_none()
            || self.portfolio_risk.ex_ante_volatility_ppm.is_none()
            || self.portfolio_risk.beta_ppm.is_none()
            || self.portfolio_risk.expected_shortfall_ppm.is_none()
            || self.portfolio_risk.gap_loss_ppm.is_none()) {
            return Err(invalid_budget("decision_context.portfolio_risk"));
        }
        Ok(())
    }
}

/// A valid decision that nothing stands against and that targets an asset has all its risks
/// measured, and rests on a claim.
pub proof fn accepted_target_has_measured_risk(context: DecisionContext)
    requires
        context.verdict() is Ok,
        context.is_accepted(),
        context.targets_an_asset(),
    ensures
        context.portfolio_risk.is_measured(),
        context.claims@.len() > 0,
{
}

/// A forecast of the return of an asset over a horizon.
#[derive(Debug, Clone, PartialEq, Eq)]
pub struct Forecast {
    pub asset: Asset,
    pub horizon: DecisionHorizon,
    pub positive_return_probability_ppm: u32,
    pub expected_return_ppm: i64,
    pub thesis: Option<ForecastThesis>,
}

impl ToJson for Forecast {
    open spec fn json(&self) -> JsonTree {
        let m = no_members();
        let m = m.insert("asset"@, self.asset.json());
        let m = m.insert("horizon"@, self.horizon.json());
        let m = m.insert(
            "positive_return_probability_ppm"@,
            self.positive_return_probability_ppm.json(),
        );
        let m = m.insert("expected_return_ppm"@, self.expected_return_ppm.json());
        let m = m.insert("thesis"@, self.thesis.json());
        JsonTree::Object(m)
    }

    fn to_json(&self) -> (r: serde_json::Value) {
        let mut members = json_new_object();
        json_insert(&mut members, "asset", self.asset.to_json());
        json_insert(&mut members, "horizon", self.horizon.to_json());
        json_insert(
            &mut members,
            "positive_return_probability_ppm",
            self.positive_return_probability_ppm.to_json(),
        );
        json_insert(&mut members, "expected_return_ppm", self.expected_return_ppm.to_json());
        json_insert(&mut members, "thesis", self.thesis.to_json());
        json_object(members)
    }
}

impl Forecast {
    pub open spec fn verdict(&self) -> Verdict {
        first(
            demand(
                self.positive_return_probability_ppm <= 1_000_000,
                ErrorView::InvalidDecisionForecastProbability,
            ),
            match self.thesis {
                Some(thesis) => thesis.verdict(self.horizon),
                None => Ok(()),
            },
        )
    }

    pub fn validate(&self) -> (r: Result<(), DomainError>)
        ensures
            outcome(r) == self.verdict(),
    {
        if self.positive_return_probability_ppm > 1_000_000 {
            return Err(DomainError::InvalidDecisionForecastProbability);
        }
        if let Some(thesis) = &self.thesis {
            thesis.validate(self.horizon)?;
        }
        Ok(())
    }

    /// No return is expected and both directions are equally likely.
    pub open spec fn neutral(&self) -> bool {
        self.expected_return_ppm == 0 && self.positive_return_probability_ppm == 500_000
    }

    pub fn is_neutral(&self) -> (r: bool)
        ensures
            r == self.neutral(),
    {
        self.expected_return_ppm == 0 && self.positive_return_probability_ppm == 500_000
    }

    /// The forecast points the way a claim does. The expected return decides; where none is
    /// expected, the likelier direction does.
    pub open spec fn agrees_with(&self, stance: ClaimStance) -> bool {
        match stance {
            ClaimStance::Bullish => self.expected_return_ppm > 0 || (self.expected_return_ppm == 0
                && self.positive_return_probability_ppm > 500_000),
            ClaimStance::Bearish => self.expected_return_ppm < 0 || (self.expected_return_ppm == 0
                && self.positive_return_probability_ppm < 500_000),
            ClaimStance::Neutral => false,
        }
    }

    pub fn supported_by_stance(&self, stance: ClaimStance) -> (r: bool)
        ensures
            r == self.agrees_with(stance),
    {
        match stance {
            ClaimStance::Bullish => self.expected_return_ppm > 0 || (self.expected_return_ppm == 0
                && self.positive_return_probability_ppm > 500_000),
            ClaimStance::Bearish => self.expected_return_ppm < 0 || (self.expected_return_ppm == 0
                && self.positive_return_probability_ppm < 500_000),
            ClaimStance::Neutral => false,
        }
    }
}

/// A forecast agrees with exactly one directed stance unless it is neutral, and then with
/// none.
pub proof fn forecast_points_one_way(forecast: Forecast)
    ensures
        forecast.neutral() <==> !forecast.agrees_with(ClaimStance::Bullish)
            && !forecast.agrees_with(ClaimStance::Bearish),
        !(forecast.agrees_with(ClaimStance::Bullish) && forecast.agrees_with(ClaimStance::Bearish)),
        !forecast.agrees_with(ClaimStance::Neutral),
{
}

/// What research wants to hold of an asset: no order, and no permit for one.
#[derive(Debug, Clone, PartialEq, Eq)]
pub struct ResearchAssetAllocation {
    pub asset: Asset,
    pub target_weight_ppm: WeightPpm,
    pub supporting_horizons: Vec<DecisionHorizon>,
    pub evidence_refs: Vec<ArtifactRef>,
    pub rationale: String,
    pub abstention_reason: Option<String>,
}

impl ToJson for ResearchAssetAllocation {
    open spec fn json(&self) -> JsonTree {
        let m = no_members();
        let m = m.insert("asset"@, self.asset.json());
        let m = m.insert("target_weight_ppm"@, self.target_weight_ppm.json());
        let m = m.insert("supporting_horizons"@, self.supporting_horizons.json());
        let m = m.insert("evidence_refs"@, self.evidence_refs.json());
        let m = m.insert("rationale"@, self.rationale.json());
        let m = m.insert("abstention_reason"@, self.abstention_reason.json());
        JsonTree::Object(m)
    }

    fn to_json(&self) -> (r: serde_json::Value) {
        let mut members = json_new_object();
        json_insert(&mut members, "asset", self.asset.to_json());
        json_insert(&mut members, "target_weight_ppm", self.target_weight_ppm.to_json());
        json_insert(&mut members, "supporting_horizons", self.supporting_horizons.to_json());
        json_insert(&mut members, "evidence_refs", self.evidence_refs.to_json());
        json_insert(&mut members, "rationale", self.rationale.to_json());
        json_insert(&mut members, "abstention_reason", self.abstention_reason.to_json());
        json_object(members)
    }
}

/// The kinds that an allocation or an estimate may cite.
pub open spec fn is_citable_kind(kind: ArtifactKind) -> bool {
    kind is Claim || kind is Critique || is_evidence_kind(kind)
}

/// Every listed reference may be cited.
pub open spec fn refs_are_citable(list: Seq<ArtifactRef>) -> bool {
    forall|i: int| 0 <= i < list.len() ==> is_citable_kind((#[trigger] list[i]).kind)
}

pub fn all_refs_are_citable(list: &Vec<ArtifactRef>) -> (r: bool)
    ensures
        r == refs_are_citable(list@),
{
    let citable = |reference: &ArtifactRef| -> (b: bool)
        ensures
            b == is_citable_kind(reference.kind),
        {
            matches!(
                reference.kind,
                ArtifactKind::Claim | ArtifactKind::Critique | ArtifactKind::NormalizedEvidence
                    | ArtifactKind::SemanticDetail
            )
        };
    all_of(list.as_slice(), citable)
}

impl ResearchAssetAllocation {
    /// A weight has its support and no reason to abstain; no weight has such a reason.
    pub open spec fn support_verdict(&self) -> Verdict {
        if self.target_weight_ppm.0 > 0 {
            first(
                demand(
                    self.supporting_horizons@.len() > 0 && self.evidence_refs@.len() > 0,
                    empty("research_allocation.non_zero_support"@),
                ),
                demand(
                    self.abstention_reason is None,
                    empty("research_allocation.non_zero_abstention"@),
                ),
            )
        } else {
            demand(
                self.abstention_reason matches Some(reason) && !blank(reason@),
                empty("research_allocation.zero_reason"@),
            )
        }
    }

    pub open spec fn verdict(&self) -> Verdict {
        if self.target_weight_ppm.0 > 1_000_000 || blank(self.rationale@) {
            Err(empty("research_allocation.asset"@))
        } else if !ascending::<DecisionHorizon>(views(self.supporting_horizons@)) {
            Err(budget("research_allocation.supporting_horizons"@))
        } else if !ascending::<ArtifactRef>(views(self.evidence_refs@)) || !refs_are_citable(
            self.evidence_refs@,
        ) {
            Err(empty("research_allocation.evidence_refs"@))
        } else {
            self.support_verdict()
        }
    }

    pub fn validate(&self) -> (r: Result<(), DomainError>)
        ensures
            outcome(r) == self.verdict(),
    {
        if self.target_weight_ppm.0 > WeightPpm::SCALE || is_blank(&self.rationale) {
            return Err(empty_field("research_allocation.asset"));
        }
        if !is_ascending(&self.supporting_horizons) {
            return Err(invalid_budget("research_allocation.supporting_horizons"));
        }
        if !is_ascending(&self.evidence_refs) || !all_refs_are_citable(&self.evidence_refs) {
            return Err(empty_field("research_allocation.evidence_refs"));
        }
        if self.target_weight_ppm.0 > 0 {
            if self.supporting_horizons.len() == 0 || self.evidence_refs.len() == 0 {
                return Err(empty_field("research_allocation.non_zero_support"));
            }
            if self.abstention_reason.is_some() {
                return Err(empty_field("research_allocation.non_zero_abstention"));
            }
        } else {
            let silent = match &self.abstention_reason {
                Some(reason) => is_blank(reason),
                None => true,
            };
            if silent {
                return Err(empty_field("research_allocation.zero_reason"));
            }
        }
        Ok(())
    }
}

/// What research wants to hold altogether. Cash is listed, so that nothing is left over.
#[derive(Debug, Clone, PartialEq, Eq)]
pub struct ResearchAllocationPlan {
    pub cash_weight_ppm: WeightPpm,
    pub allocations: Vec<ResearchAssetAllocation>,
}

/// The assets of the allocations.
pub open spec fn allocated_assets(list: Seq<ResearchAssetAllocation>) -> Seq<Asset> {
    list.map_values(|a: ResearchAssetAllocation| a.asset)
}

/// The sum of the weights.
pub open spec fn total_weight(list: Seq<ResearchAssetAllocation>) -> int
    decreases list.len(),
{
    if list.len() == 0 {
        0
    } else {
        total_weight(list.drop_last()) + list.last().target_weight_ppm.0
    }
}

/// The weight of the first allocation of an asset, zero where there is none.
pub open spec fn weight_of(list: Seq<ResearchAssetAllocation>, asset: Asset) -> WeightPpm
    decreases list.len(),
{
    if list.len() == 0 {
        WeightPpm(0)
    } else if list[0].asset == asset {
        list[0].target_weight_ppm
    } else {
        weight_of(list.drop_first(), asset)
    }
}

/// The check of one allocation: valid, and of an asset that none before it is of.
pub open spec fn allocation_checks(list: Seq<ResearchAssetAllocation>) -> spec_fn(int) -> Verdict {
    |i: int|
        first(
            list[i].verdict(),
            demand(
                !allocated_assets(list).take(i).contains(list[i].asset),
                ErrorView::InvalidTargetUniverse,
            ),
        )
}

fn asset_repeats(list: &Vec<ResearchAssetAllocation>, n: usize) -> (r: bool)
    requires
        n < list@.len(),
    ensures
        r == allocated_assets(list@).take(n as int).contains(list@[n as int].asset),
{
    let ghost before = allocated_assets(list@).take(n as int);
    let mut i: usize = 0;
    while i < n
        invariant
            i <= n < list@.len(),
            before == allocated_assets(list@).take(n as int),
            forall|j: int| 0 <= j < i ==> before[j] != list@[n as int].asset,
        decreases n - i,
    {
        if list[i].asset == list[n].asset {
            proof {
                assert(before[i as int] == list@[n as int].asset);
            }
            return true;
        }
        i += 1;
    }
    false
}

impl ResearchAllocationPlan {
    /// Every asset has an allocation.
    pub open spec fn covers_universe(&self) -> bool {
        forall|asset: Asset| #[trigger] allocated_assets(self.allocations@).contains(asset)
    }

    pub open spec fn verdict(&self) -> Verdict {
        if self.cash_weight_ppm.0 > 1_000_000 || self.allocations@.len() != 4 {
            Err(ErrorView::InvalidTargetUniverse)
        } else {
            first(
                first_fault(4, allocation_checks(self.allocations@)),
                demand(
                    self.covers_universe() && total_weight(self.allocations@)
                        + self.cash_weight_ppm.0 == 1_000_000,
                    budget("research_allocation.weights"@),
                ),
            )
        }
    }

    fn has_allocation(&self, asset: Asset) -> (r: bool)
        ensures
            r == allocated_assets(self.allocations@).contains(asset),
    {
        let ghost assets = allocated_assets(self.allocations@);
        let mut i: usize = 0;
        while i < self.allocations.len()
            invariant
                i <= self.allocations.len(),
                assets == allocated_assets(self.allocations@),
                forall|j: int| 0 <= j < i ==> assets[j] != asset,
            decreases self.allocations.len() - i,
        {
            if self.allocations[i].asset == asset {
                proof {
                    assert(assets[i as int] == asset);
                }
                return true;
            }
            i += 1;
        }
        false
    }

    pub fn validate(&self) -> (r: Result<(), DomainError>)
        ensures
            outcome(r) == self.verdict(),
    {
        if self.cash_weight_ppm.0 > WeightPpm::SCALE || self.allocations.len() != 4 {
            return Err(DomainError::InvalidTargetUniverse);
        }
        let ghost checks = allocation_checks(self.allocations@);
        let mut gross: u32 = 0;
        let mut n: usize = 0;
        while n < self.allocations.len()
            invariant
                n <= self.allocations.len(),
                self.allocations@.len() == 4,
                self.cash_weight_ppm.0 <= 1_000_000,
                checks == allocation_checks(self.allocations@),
                first_fault(n as nat, checks) == Verdict::Ok(()),
                gross == total_weight(self.allocations@.take(n as int)),
                gross <= n * 1_000_000,
            decreases self.allocations.len() - n,
        {
            let allocation = &self.allocations[n];
            let valid = allocation.validate();
            let repeats = asset_repeats(&self.allocations, n);
            proof {
                assert(first_fault((n + 1) as nat, checks) == checks(n as int));
                if checks(n as int) is Err {
                    first_fault_stays((n + 1) as nat, 4, checks);
                }
                assert(self.allocations@.take(n + 1).drop_last() =~= self.allocations@.take(
                    n as int,
                ));
            }
            valid?;
            if repeats {
                return Err(DomainError::InvalidTargetUniverse);
            }
            gross = gross + allocation.target_weight_ppm.0;
            n += 1;
        }
        let covers = self.has_allocation(Asset::Tqqq) && self.has_allocation(Asset::Qqq)
            && self.has_allocation(Asset::Soxx) && self.has_allocation(Asset::Soxl);
        proof {
            assert(self.allocations@.take(4) =~= self.allocations@);
            if covers {
                assert forall|asset: Asset| #[trigger] allocated_assets(
                    self.allocations@,
                ).contains(asset) by {
                    assert(crate::foundation::executable(asset));
                }
            }
        }
        if !covers || gross + self.cash_weight_ppm.0 != WeightPpm::SCALE {
            return Err(invalid_budget("research_allocation.weights"));
        }
        Ok(())
    }

    pub fn weight(&self, asset: Asset) -> (r: WeightPpm)
        ensures
            r == weight_of(self.allocations@, asset),
    {
        let ghost list = self.allocations@;
        let mut i: usize = 0;
        proof {
            assert(list.skip(0) =~= list);
        }
        while i < self.allocations.len()
            invariant
                i <= self.allocations.len(),
                list == self.allocations@,
                weight_of(list, asset) == weight_of(list.skip(i as int), asset),
            decreases self.allocations.len() - i,
        {
            proof {
                assert(list.skip(i as int)[0] == list[i as int]);
                assert(list.skip(i as int).drop_first() =~= list.skip(i + 1));
            }
            if self.allocations[i].asset == asset {
                return self.allocations[i].target_weight_ppm;
            }
            i += 1;
        }
        WeightPpm(0)
    }

    /// Some asset has a weight.
    pub open spec fn targets_an_asset(&self) -> bool {
        exists|i: int|
            0 <= i < self.allocations@.len() && (
            #[trigger] self.allocations@[i]).target_weight_ppm.0 > 0
    }

    pub fn has_non_zero_target(&self) -> (r: bool)
        ensures
            r == self.targets_an_asset(),
    {
        let weighty = |allocation: &ResearchAssetAllocation| -> (b: bool)
            ensures
                b == (allocation.target_weight_ppm.0 > 0),
            { allocation.target_weight_ppm.0 > 0 };
        any_of(self.allocations.as_slice(), weighty)
    }
}

/// The weights of a valid plan and its cash make up the whole, each asset once.
pub proof fn valid_plan_allocates_the_whole(plan: ResearchAllocationPlan)
    requires
        plan.verdict() is Ok,
    ensures
        total_weight(plan.allocations@) + plan.cash_weight_ppm.0 == 1_000_000,
        plan.covers_universe(),
        allocated_assets(plan.allocations@).no_duplicates(),
{
    let list = plan.allocations@;
    let checks = allocation_checks(list);
    crate::lists::no_fault_means_every_check_passes(4, checks);
    let assets = allocated_assets(list);
    assert forall|i: int, j: int| 0 <= i < assets.len() && 0 <= j < assets.len() && i
        != j implies assets[i] != assets[j] by {
        let a = if i < j { i } else { j };
        let b = if i < j { j } else { i };
        assert(checks(b) is Ok);
        assert(assets.take(b)[a] == assets[a]);
    }
}

/// How research stands.
#[derive(Clone, Copy, Debug, PartialEq, Eq, PartialOrd, Ord, Hash, Structural)]
pub enum ResearchPlanStatus {
    QualifiedRecommendation,
    ExplicitCash,
    BlockedByResearch,
}

/// How execution stands.
#[derive(Clone, Copy, Debug, PartialEq, Eq, PartialOrd, Ord, Hash, Structural)]
pub enum ResearchExecutionStatus {
    NotApplicable,
    Blocked,
    PendingExecutionGate,
}

/// A weight that was changed, and why.
#[derive(Debug, Clone, PartialEq, Eq)]
pub struct ResearchPlanAdjustment {
    pub asset: Option<Asset>,
    pub from_weight_ppm: WeightPpm,
    pub to_weight_ppm: WeightPpm,
    pub reasons: Vec<String>,
}

impl ResearchPlanAdjustment {
    pub open spec fn verdict(&self) -> Verdict {
        demand(
            self.from_weight_ppm.0 <= 1_000_000 && self.to_weight_ppm.0 <= 1_000_000
                && self.reasons@.len() > 0 && !any_blank(self.reasons@),
            budget("research_allocation.adjustment"@),
        )
    }

    pub fn validate(&self) -> (r: Result<(), DomainError>)
        ensures
            outcome(r) == self.verdict(),
    {
        if self.from_weight_ppm.0 > WeightPpm::SCALE || self.to_weight_ppm.0 > WeightPpm::SCALE
            || self.reasons.len() == 0 || has_blank(&self.reasons) {
            return Err(invalid_budget("research_allocation.adjustment"));
        }
        Ok(())
    }
}

impl Checked for ResearchPlanAdjustment {
    open spec fn judged(&self) -> Verdict {
        self.verdict()
    }

    fn check(&self) -> (r: Result<(), DomainError>) {
        self.validate()
    }
}

/// The review of what research proposed: the proposal as it was, and what is left of it after
/// its evidence and weights were checked. Whether it can be executed is another matter.
#[derive(Debug, Clone, PartialEq, Eq)]
pub struct ResearchPlanReview {
    pub raw: ResearchAllocationPlan,
    pub validated: ResearchAllocationPlan,
    pub adjustments: Vec<ResearchPlanAdjustment>,
    pub status: ResearchPlanStatus,
    pub execution_status: ResearchExecutionStatus,
    pub execution_blockers: Vec<String>,
}

impl ResearchPlanReview {
    /// The status says whether an asset is targeted.
    pub open spec fn status_agrees(&self) -> bool {
        match self.status {
            ResearchPlanStatus::QualifiedRecommendation => self.validated.targets_an_asset(),
            ResearchPlanStatus::ExplicitCash => !self.validated.targets_an_asset(),
            ResearchPlanStatus::BlockedByResearch => true,
        }
    }

    pub open spec fn verdict(&self) -> Verdict {
        if self.raw.verdict() is Err {
            self.raw.verdict()
        } else if self.validated.verdict() is Err {
            self.validated.verdict()
        } else if list_verdict(self.adjustments@) is Err {
            list_verdict(self.adjustments@)
        } else if any_blank(self.execution_blockers@) {
            Err(empty("research_allocation.execution_blockers"@))
        } else {
            demand(self.status_agrees(), budget("research_allocation.status"@))
        }
    }

    pub fn validate(&self) -> (r: Result<(), DomainError>)
        ensures
            outcome(r) == self.verdict(),
    {
        self.raw.validate()?;
        self.validated.validate()?;
        check_all(&self.adjustments)?;
        if has_blank(&self.execution_blockers) {
            return Err(empty_field("research_allocation.execution_blockers"));
        }
        if matches!(self.status, ResearchPlanStatus::QualifiedRecommendation)
            && !self.validated.has_non_zero_target() {
            return Err(invalid_budget("research_allocation.status"));
        }
        if matches!(self.status, ResearchPlanStatus::ExplicitCash)
            && self.validated.has_non_zero_target() {
            return Err(invalid_budget("research_allocation.status"));
        }
        Ok(())
    }
}

/// What a model submits as a decision: no grant, no permit, no order.
#[derive(Debug, Clone, PartialEq, Eq)]
pub struct DecisionDraft {
    pub numeric_basis: Vec<NumericEstimateBasis>,
    pub summary: String,
    pub confidence_ppm: u32,
    pub forecasts: Vec<Forecast>,
    pub research_allocation: Option<ResearchAllocationPlan>,
    pub claims: Vec<ArtifactRef>,
    pub critiques: Vec<ArtifactRef>,
    pub evidence: Vec<ArtifactRef>,
    pub material_conflicts: Vec<MaterialConflict>,
    pub hard_blockers: Vec<HardBlocker>,
    pub soft_warnings: Vec<SoftWarning>,
    pub applied_learning_refs: Vec<ArtifactRef>,
    pub rejected_learning_refs: Vec<ArtifactRef>,
}

/// What the research synthesizer proposes.
pub type DecisionProposal = DecisionDraft;

/// The check of one conflict: valid, and between a claim and a critique of the draft.
pub open spec fn conflict_checks(draft: DecisionDraft) -> spec_fn(int) -> Verdict {
    |i: int|
        first(
            draft.material_conflicts@[i].verdict(),
            demand(
                refs_list(draft.claims@, draft.material_conflicts@[i].claim@) && refs_list(
                    draft.critiques@,
                    draft.material_conflicts@[i].critique@,
                ),
                empty("decision_draft.material_conflicts"@),
            ),
        )
}

impl DecisionDraft {
    pub open spec fn verdict(&self) -> Verdict {
        let conflicts = first_fault(self.material_conflicts@.len(), conflict_checks(*self));
        if blank(self.summary@) {
            Err(empty("decision_draft.summary"@))
        } else if self.confidence_ppm > 1_000_000 {
            Err(ErrorView::InvalidDecisionConfidence)
        } else if !refs_all_cite(self.claims@, ArtifactKind::Claim) || !refs_all_cite(
            self.critiques@,
            ArtifactKind::Critique,
        ) || !refs_are_evidence(self.evidence@) {
            Err(empty("decision_draft.references"@))
        } else if self.claims@.len() == 0 && self.hard_blockers@.len() == 0 {
            Err(empty("decision_draft.claims_or_blockers"@))
        } else if !refs_are_learning(self.applied_learning_refs@) || !refs_are_learning(
            self.rejected_learning_refs@,
        ) {
            Err(empty("decision_draft.learning_refs"@))
        } else if refs_overlap(self.applied_learning_refs@, self.rejected_learning_refs@) {
            Err(empty("decision_draft.learning_refs_overlap"@))
        } else if conflicts is Err {
            conflicts
        } else {
            first(
                forecasts_verdict(self.forecasts@),
                match self.research_allocation {
                    Some(plan) => plan.verdict(),
                    None => Ok(()),
                },
            )
        }
    }

    fn validate_conflicts(&self) -> (r: Result<(), DomainError>)
        ensures
            outcome(r) == first_fault(self.material_conflicts@.len(), conflict_checks(*self)),
    {
        let ghost checks = conflict_checks(*self);
        let mut n: usize = 0;
        while n < self.material_conflicts.len()
            invariant
                n <= self.material_conflicts.len(),
                checks == conflict_checks(*self),
                first_fault(n as nat, checks) == Verdict::Ok(()),
            decreases self.material_conflicts.len() - n,
        {
            let conflict = &self.material_conflicts[n];
            let valid = conflict.validate();
            proof {
                assert(first_fault((n + 1) as nat, checks) == checks(n as int));
                if checks(n as int) is Err {
                    first_fault_stays((n + 1) as nat, self.material_conflicts@.len(), checks);
                }
            }
            valid?;
            if !refs_contain(&self.claims, &conflict.claim) || !refs_contain(
                &self.critiques,
                &conflict.critique,
            ) {
                return Err(empty_field("decision_draft.material_conflicts"));
            }
            n += 1;
        }
        Ok(())
    }

    pub fn validate(&self) -> (r: Result<(), DomainError>)
        ensures
            outcome(r) == self.verdict(),
    {
        if is_blank(&self.summary) {
            return Err(empty_field("decision_draft.summary"));
        }
        if self.confidence_ppm > 1_000_000 {
            return Err(DomainError::InvalidDecisionConfidence);
        }
        if !refs_all_have_kind(&self.claims, ArtifactKind::Claim) || !refs_all_have_kind(
            &self.critiques,
            ArtifactKind::Critique,
        ) || !all_refs_are_evidence(&self.evidence) {
            return Err(empty_field("decision_draft.references"));
        }
        if self.claims.len() == 0 && self.hard_blockers.len() == 0 {
            return Err(empty_field("decision_draft.claims_or_blockers"));
        }
        if !all_refs_are_learning(&self.applied_learning_refs) || !all_refs_are_learning(
            &self.rejected_learning_refs,
        ) {
            return Err(empty_field("decision_draft.learning_refs"));
        }
        if lists_overlap(&self.applied_learning_refs, &self.rejected_learning_refs) {
            return Err(empty_field("decision_draft.learning_refs_overlap"));
        }
        self.validate_conflicts()?;
        validate_forecasts(&self.forecasts)?;
        match &self.research_allocation {
            Some(plan) => plan.validate(),
            None => Ok(()),
        }
    }
}

/// The first contract whose forecasts are bound to a direction.
pub const DIRECTION_BOUND_RESEARCH_CONTRACT_VERSION: u32 = 47;

/// Some ground of some claim of the horizon directs the asset in a lane.
pub open spec fn lane_is_covered(
    claims: Seq<ResearchClaim>,
    asset: Asset,
    horizon: DecisionHorizon,
    domain: ResearchShard,
) -> bool {
    exists|i: int| #[trigger]
        claim_covers(claims, i, asset, horizon, domain)
}

pub open spec fn claim_covers(
    claims: Seq<ResearchClaim>,
    i: int,
    asset: Asset,
    horizon: DecisionHorizon,
    domain: ResearchShard,
) -> bool {
    &&& 0 <= i < claims.len()
    &&& claims[i].horizon == horizon
    &&& grounds_direct(claims[i].grounds@, asset, domain)
}

/// Some ground directs the asset in a lane.
pub open spec fn grounds_direct(
    grounds: Seq<EvidenceGround>,
    asset: Asset,
    domain: ResearchShard,
) -> bool {
    exists|i: int| 0 <= i < grounds.len() && (#[trigger] grounds[i]).directs(asset, domain)
}

fn some_ground_directs(
    grounds: &Vec<EvidenceGround>,
    asset: Asset,
    domain: ResearchShard,
) -> (r: bool)
    ensures
        r == grounds_direct(grounds@, asset, domain),
{
    let directs = |ground: &EvidenceGround| -> (b: bool)
        ensures
            b == ground.directs(asset, domain),
        { ground.is_directional_for(asset, domain) };
    any_of(grounds.as_slice(), directs)
}

/// Some gap of some claim blocks a slot.
pub open spec fn slot_is_blocked(
    claims: Seq<ResearchClaim>,
    asset: Asset,
    horizon: DecisionHorizon,
) -> bool {
    exists|i: int|
        0 <= i < claims.len() && gaps_block(
            (#[trigger] claims[i]).evidence_gaps@,
            asset,
            horizon,
            claims[i].horizon,
        )
}

/// A direction may be forecast: prices and macroeconomics support one, and no gap forbids it.
pub open spec fn slot_has_evidence(
    claims: Seq<ResearchClaim>,
    asset: Asset,
    horizon: DecisionHorizon,
) -> bool {
    &&& lane_is_covered(claims, asset, horizon, ResearchShard::PriceMarketStructure)
    &&& lane_is_covered(claims, asset, horizon, ResearchShard::Macro)
    &&& !slot_is_blocked(claims, asset, horizon)
}

fn some_claim_covers(
    claims: &Vec<ResearchClaim>,
    asset: Asset,
    horizon: DecisionHorizon,
    domain: ResearchShard,
) -> (r: bool)
    ensures
        r == lane_is_covered(claims@, asset, horizon, domain),
{
    let mut i: usize = 0;
    while i < claims.len()
        invariant
            i <= claims.len(),
            forall|j: int|
                0 <= j < i ==> !#[trigger] claim_covers(claims@, j, asset, horizon, domain),
        decreases claims.len() - i,
    {
        let covers = claims[i].horizon == horizon && some_ground_directs(
            &claims[i].grounds,
            asset,
            domain,
        );
        proof {
            assert(covers == claim_covers(claims@, i as int, asset, horizon, domain));
        }
        if covers {
            return true;
        }
        i += 1;
    }
    false
}

fn slot_is_supported(
    claims: &Vec<ResearchClaim>,
    asset: Asset,
    horizon: DecisionHorizon,
) -> (r: bool)
    ensures
        r == slot_has_evidence(claims@, asset, horizon),
{
    let blocked = |claim: &ResearchClaim| -> (b: bool)
        ensures
            b == gaps_block(claim.evidence_gaps@, asset, horizon, claim.horizon),
        { any_gap_blocks(&claim.evidence_gaps, asset, horizon, claim.horizon) };
    some_claim_covers(claims, asset, horizon, ResearchShard::PriceMarketStructure)
        && some_claim_covers(claims, asset, horizon, ResearchShard::Macro) && !any_of(
        claims.as_slice(),
        blocked,
    )
}

/// Every forecast of a direction has the evidence for one.
pub open spec fn forecasts_have_evidence(
    forecasts: Seq<Forecast>,
    claims: Seq<ResearchClaim>,
) -> bool {
    forall|i: int|
        0 <= i < forecasts.len() && !(#[trigger] forecasts[i]).neutral() ==> slot_has_evidence(
            claims,
            forecasts[i].asset,
            forecasts[i].horizon,
        )
}

pub fn validate_decision_evidence_sufficiency(
    draft: &DecisionDraft,
    claims: &Vec<ResearchClaim>,
) -> (r: Result<(), DomainError>)
    ensures
        outcome(r) == demand(
            forecasts_have_evidence(draft.forecasts@, claims@),
            ErrorView::InsufficientDecisionEvidence,
        ),
{
    let supported = |forecast: &Forecast| -> (b: bool)
        ensures
            b == (!forecast.neutral() ==> slot_has_evidence(
                claims@,
                forecast.asset,
                forecast.horizon,
            )),
        { forecast.is_neutral() || slot_is_supported(claims, forecast.asset, forecast.horizon) };
    if !all_of(draft.forecasts.as_slice(), supported) {
        return Err(DomainError::InsufficientDecisionEvidence);
    }
    Ok(())
}

/// A decision. It carries no authority to execute.
#[derive(Debug, Clone, PartialEq, Eq)]
pub struct Decision {
    pub schema_version: u32,
    pub decision_context: ArtifactRef,
    pub summary: String,
    pub targets: TargetPortfolio,
    pub confidence_ppm: u32,
    pub forecasts: Vec<Forecast>,
    pub research_plan: Option<ResearchPlanReview>,
    pub created_at: UtcTime,
}

impl Decision {
    pub open spec fn verdict(&self) -> Verdict {
        if self.schema_version != DOMAIN_SCHEMA_VERSION {
            Err(empty("decision.schema_version"@))
        } else if !(self.decision_context.kind is DecisionContext) || blank(self.summary@) {
            Err(empty("decision.context_or_summary"@))
        } else if self.confidence_ppm > 1_000_000 {
            Err(ErrorView::InvalidDecisionConfidence)
        } else if forecasts_verdict(self.forecasts@) is Err {
            forecasts_verdict(self.forecasts@)
        } else if exists|i: int|
            0 <= i < self.forecasts@.len() && (#[trigger] self.forecasts@[i]).thesis is None {
            Err(empty("decision_draft.forecast_thesis"@))
        } else if exists|i: int|
            0 <= i < self.forecasts@.len() && ((#[trigger] self.forecasts@[i]).thesis matches Some(
                thesis,
            ) && earlier(thesis.thesis_valid_until, self.created_at)) {
            Err(budget("decision.forecast_validity"@))
        } else {
            first(
                self.targets.universe_verdict(),
                match self.research_plan {
                    Some(plan) => plan.verdict(),
                    None => Ok(()),
                },
            )
        }
    }

    pub fn validate(&self) -> (r: Result<(), DomainError>)
        ensures
            outcome(r) == self.verdict(),
    {
        if self.schema_version != DOMAIN_SCHEMA_VERSION {
            return Err(empty_field("decision.schema_version"));
        }
        if self.decision_context.kind != ArtifactKind::DecisionContext || is_blank(&self.summary) {
            return Err(empty_field("decision.context_or_summary"));
        }
        if self.confidence_ppm > 1_000_000 {
            return Err(DomainError::InvalidDecisionConfidence);
        }
        validate_forecasts(&self.forecasts)?;
        let bare = |forecast: &Forecast| -> (b: bool)
            ensures
                b == (forecast.thesis is None),
            { forecast.thesis.is_none() };
        if any_of(self.forecasts.as_slice(), bare) {
            return Err(empty_field("decision_draft.forecast_thesis"));
        }
        let created_at = self.created_at;
        let expired = |forecast: &Forecast| -> (b: bool)
            ensures
                b == (forecast.thesis matches Some(thesis) && earlier(
                    thesis.thesis_valid_until,
                    created_at,
                )),
            {
                match &forecast.thesis {
                    Some(thesis) => thesis.thesis_valid_until.is_before(&created_at),
                    None => false,
                }
            };
        if any_of(self.forecasts.as_slice(), expired) {
            return Err(invalid_budget("decision.forecast_validity"));
        }
        self.targets.validate_universe()?;
        match &self.research_plan {
            Some(plan) => plan.validate(),
            None => Ok(()),
        }
    }
}

/// The slots of the forecasts.
pub open spec fn forecast_slots(list: Seq<Forecast>) -> Seq<(Asset, DecisionHorizon)> {
    list.map_values(|f: Forecast| (f.asset, f.horizon))
}

/// The check of one forecast: valid, and for a slot that none before it is for.
pub open spec fn forecast_checks(list: Seq<Forecast>) -> spec_fn(int) -> Verdict {
    |i: int|
        first(
            list[i].verdict(),
            demand(
                !forecast_slots(list).take(i).contains((list[i].asset, list[i].horizon)),
                ErrorView::InvalidDecisionForecastHorizons,
            ),
        )
}

/// Every asset has a forecast for every horizon.
pub open spec fn covers_grid(list: Seq<Forecast>) -> bool {
    forall|asset: Asset, horizon: DecisionHorizon| #[trigger]
        forecast_slots(list).contains((asset, horizon))
}

pub open spec fn forecasts_verdict(list: Seq<Forecast>) -> Verdict {
    first(
        first_fault(list.len(), forecast_checks(list)),
        demand(covers_grid(list), ErrorView::InvalidDecisionForecastHorizons),
    )
}

fn slot_is_forecast(
    list: &Vec<Forecast>,
    n: usize,
    asset: Asset,
    horizon: DecisionHorizon,
) -> (r: bool)
    requires
        n <= list@.len(),
    ensures
        r == forecast_slots(list@).take(n as int).contains((asset, horizon)),
{
    let ghost slots = forecast_slots(list@).take(n as int);
    let mut i: usize = 0;
    while i < n
        invariant
            i <= n <= list@.len(),
            slots == forecast_slots(list@).take(n as int),
            forall|j: int| 0 <= j < i ==> slots[j] != (asset, horizon),
        decreases n - i,
    {
        if list[i].asset == asset && list[i].horizon == horizon {
            proof {
                assert(slots[i as int] == (asset, horizon));
            }
            return true;
        }
        i += 1;
    }
    false
}

fn asset_is_forecast(list: &Vec<Forecast>, asset: Asset) -> (r: bool)
    ensures
        r == forall|horizon: DecisionHorizon| #[trigger]
            forecast_slots(list@).contains((asset, horizon)),
{
    let n: usize = list.len();
    proof {
        assert(forecast_slots(list@).take(n as int) =~= forecast_slots(list@));
    }
    let all = slot_is_forecast(list, n, asset, DecisionHorizon::T1) && slot_is_forecast(
        list,
        n,
        asset,
        DecisionHorizon::T3,
    ) && slot_is_forecast(list, n, asset, DecisionHorizon::T5);
    proof {
        if all {
            assert forall|horizon: DecisionHorizon| #[trigger] forecast_slots(list@).contains(
                (asset, horizon),
            ) by {
                assert(horizon is T1 || horizon is T3 || horizon is T5);
            }
        }
    }
    all
}

pub fn validate_forecasts(forecasts: &Vec<Forecast>) -> (r: Result<(), DomainError>)
    ensures
        outcome(r) == forecasts_verdict(forecasts@),
{
    let ghost checks = forecast_checks(forecasts@);
    let mut n: usize = 0;
    while n < forecasts.len()
        invariant
            n <= forecasts.len(),
            checks == forecast_checks(forecasts@),
            first_fault(n as nat, checks) == Verdict::Ok(()),
        decreases forecasts.len() - n,
    {
        let forecast = &forecasts[n];
        let valid = forecast.validate();
        let repeats = slot_is_forecast(forecasts, n, forecast.asset, forecast.horizon);
        proof {
            assert(first_fault((n + 1) as nat, checks) == checks(n as int));
            if checks(n as int) is Err {
                first_fault_stays((n + 1) as nat, forecasts@.len(), checks);
            }
        }
        valid?;
        if repeats {
            return Err(DomainError::InvalidDecisionForecastHorizons);
        }
        n += 1;
    }
    let all = asset_is_forecast(forecasts, Asset::Tqqq) && asset_is_forecast(forecasts, Asset::Qqq)
        && asset_is_forecast(forecasts, Asset::Soxx) && asset_is_forecast(forecasts, Asset::Soxl);
    proof {
        if all {
            assert forall|asset: Asset, horizon: DecisionHorizon| #[trigger] forecast_slots(
                forecasts@,
            ).contains((asset, horizon)) by {
                assert(crate::foundation::executable(asset));
            }
        }
    }
    if !all {
        return Err(DomainError::InvalidDecisionForecastHorizons);
    }
    Ok(())
}

/// Some critique finds the claim supported and does not block the slot.
pub open spec fn claim_is_verified(
    reference: RefView,
    claim: ResearchClaim,
    critiques: Seq<ResearchCritique>,
    asset: Asset,
    horizon: DecisionHorizon,
) -> bool {
    exists|i: int|
        0 <= i < critiques.len() && (#[trigger] critiques[i]).target@ == reference
            && !critiques[i].blocks(asset, horizon, claim.horizon)
            && critiques[i].verification_status is Supported
}

fn some_critique_verifies(
    reference: &ArtifactRef,
    claim: &ResearchClaim,
    critiques: &Vec<ResearchCritique>,
    asset: Asset,
    horizon: DecisionHorizon,
) -> (r: bool)
    ensures
        r == claim_is_verified(reference@, *claim, critiques@, asset, horizon),
{
    let claim_horizon = claim.horizon;
    let verifies = |critique: &ResearchCritique| -> (b: bool)
        ensures
            b == (critique.target@ == reference@ && !critique.blocks(asset, horizon, claim_horizon)
                && critique.verification_status is Supported),
        {
            critique.target.same(reference) && !critique.blocks_slot(asset, horizon, claim_horizon)
                && critique.verification_status == ClaimVerificationStatus::Supported
        };
    any_of(critiques.as_slice(), verifies)
}

/// A claim of the horizon of a forecast that points its way and is verified.
pub open spec fn claim_backs_forecast(
    pair: (ArtifactRef, ResearchClaim),
    forecast: Forecast,
    critiques: Seq<ResearchCritique>,
) -> bool {
    &&& pair.1.horizon == forecast.horizon
    &&& forecast.agrees_with(pair.1.stance)
    &&& claim_is_verified(pair.0@, pair.1, critiques, forecast.asset, forecast.horizon)
}

fn backs_forecast(
    pair: &(ArtifactRef, ResearchClaim),
    forecast: &Forecast,
    critiques: &Vec<ResearchCritique>,
) -> (r: bool)
    ensures
        r == claim_backs_forecast(*pair, *forecast, critiques@),
{
    pair.1.horizon == forecast.horizon && forecast.supported_by_stance(pair.1.stance)
        && some_critique_verifies(
        &pair.0,
        &pair.1,
        critiques,
        forecast.asset,
        forecast.horizon,
    )
}

/// The claims that back a forecast leave its slot unblocked and support a direction by prices
/// and by macroeconomics.
pub open spec fn backed_slot_has_evidence(
    claims: Seq<(ArtifactRef, ResearchClaim)>,
    forecast: Forecast,
    critiques: Seq<ResearchCritique>,
) -> bool {
    &&& backed_lane(claims, forecast, critiques, ResearchShard::PriceMarketStructure)
    &&& backed_lane(claims, forecast, critiques, ResearchShard::Macro)
    &&& forall|i: int|
        0 <= i < claims.len() && claim_backs_forecast(#[trigger] claims[i], forecast, critiques)
            ==> !gaps_block(
            claims[i].1.evidence_gaps@,
            forecast.asset,
            forecast.horizon,
            claims[i].1.horizon,
        )
}

pub open spec fn backed_lane(
    claims: Seq<(ArtifactRef, ResearchClaim)>,
    forecast: Forecast,
    critiques: Seq<ResearchCritique>,
    domain: ResearchShard,
) -> bool {
    exists|i: int|
        0 <= i < claims.len() && claim_backs_forecast(#[trigger] claims[i], forecast, critiques)
            && grounds_direct(claims[i].1.grounds@, forecast.asset, domain)
}

fn has_backed_lane(
    claims: &Vec<(ArtifactRef, ResearchClaim)>,
    forecast: &Forecast,
    critiques: &Vec<ResearchCritique>,
    domain: ResearchShard,
) -> (r: bool)
    ensures
        r == backed_lane(claims@, *forecast, critiques@, domain),
{
    let asset = forecast.asset;
    let covers = |pair: &(ArtifactRef, ResearchClaim)| -> (b: bool)
        ensures
            b == (claim_backs_forecast(*pair, *forecast, critiques@) && grounds_direct(
                pair.1.grounds@,
                asset,
                domain,
            )),
        {
            backs_forecast(pair, forecast, critiques) && some_ground_directs(
                &pair.1.grounds,
                asset,
                domain,
            )
        };
    any_of(claims.as_slice(), covers)
}

fn backed_slot_is_supported(
    claims: &Vec<(ArtifactRef, ResearchClaim)>,
    forecast: &Forecast,
    critiques: &Vec<ResearchCritique>,
) -> (r: bool)
    ensures
        r == backed_slot_has_evidence(claims@, *forecast, critiques@),
{
    let open = |pair: &(ArtifactRef, ResearchClaim)| -> (b: bool)
        ensures
            b == (claim_backs_forecast(*pair, *forecast, critiques@) ==> !gaps_block(
                pair.1.evidence_gaps@,
                forecast.asset,
                forecast.horizon,
                pair.1.horizon,
            )),
        {
            !backs_forecast(pair, forecast, critiques) || !any_gap_blocks(
                &pair.1.evidence_gaps,
                forecast.asset,
                forecast.horizon,
                pair.1.horizon,
            )
        };
    has_backed_lane(claims, forecast, critiques, ResearchShard::PriceMarketStructure)
        && has_backed_lane(claims, forecast, critiques, ResearchShard::Macro) && all_of(
        claims.as_slice(),
        open,
    )
}

/// Every forecast of a direction rests on verified claims that point its way.
pub fn validate_legacy_verified_forecast_slots(
    draft: &DecisionDraft,
    claims: &Vec<(ArtifactRef, ResearchClaim)>,
    critiques: &Vec<ResearchCritique>,
) -> (r: Result<(), DomainError>)
    ensures
        outcome(r) == demand(
            forall|i: int|
                0 <= i < draft.forecasts@.len() && !(#[trigger] draft.forecasts@[i]).neutral()
                    ==> backed_slot_has_evidence(claims@, draft.forecasts@[i], critiques@),
            ErrorView::InsufficientDecisionEvidence,
        ),
{
    let supported = |forecast: &Forecast| -> (b: bool)
        ensures
            b == (!forecast.neutral() ==> backed_slot_has_evidence(
                claims@,
                *forecast,
                critiques@,
            )),
        { forecast.is_neutral() || backed_slot_is_supported(claims, forecast, critiques) };
    if !all_of(draft.forecasts.as_slice(), supported) {
        return Err(DomainError::InsufficientDecisionEvidence);
    }
    Ok(())
}

/// The first contract that binds each slot to one claim and its own critique.
pub const STRUCTURED_RESEARCH_CONTRACT_VERSION: u32 = 57;

/// A critique looked at a ground in its own role and lane for the asset.
pub open spec fn ground_is_reviewed(
    ground: EvidenceGround,
    critique: ResearchCritique,
    asset: Asset,
) -> bool {
    exists|i: int|
        0 <= i < critique.grounds@.len() && (#[trigger] critique.grounds@[i]).evidence@
            == ground.evidence@ && critique.grounds@[i].role == ground.role
            && critique.grounds@[i].domain == ground.domain
            && critique.grounds@[i].assets@.contains(asset)
}

/// A critique verified the evidence of a ground with a current authority.
pub open spec fn ground_is_confirmed(ground: EvidenceGround, critique: ResearchCritique) -> bool {
    exists|i: int|
        0 <= i < critique.supporting_refs@.len() && (
        #[trigger] critique.supporting_refs@[i]).evidence@ == ground.evidence@
            && critique.supporting_refs@[i].is_current()
}

/// A claim supports a direction of the asset in a lane, and a critique confirmed that.
pub open spec fn lane_is_confirmed(
    claim: ResearchClaim,
    critique: ResearchCritique,
    asset: Asset,
    domain: ResearchShard,
) -> bool {
    exists|i: int|
        0 <= i < claim.grounds@.len() && (#[trigger] claim.grounds@[i]).directs(asset, domain)
            && ground_is_reviewed(claim.grounds@[i], critique, asset) && ground_is_confirmed(
            claim.grounds@[i],
            critique,
        )
}

fn lane_was_confirmed(
    claim: &ResearchClaim,
    critique: &ResearchCritique,
    asset: Asset,
    domain: ResearchShard,
) -> (r: bool)
    ensures
        r == lane_is_confirmed(*claim, *critique, asset, domain),
{
    let confirmed = |ground: &EvidenceGround| -> (b: bool)
        ensures
            b == (ground.directs(asset, domain) && ground_is_reviewed(*ground, *critique, asset)
                && ground_is_confirmed(*ground, *critique)),
        {
            let reviewed = |own: &EvidenceGround| -> (c: bool)
                ensures
                    c == (own.evidence@ == ground.evidence@ && own.role == ground.role && own.domain
                        == ground.domain && own.assets@.contains(asset)),
                {
                    own.evidence.same(&ground.evidence) && own.role == ground.role
                        && same_domain(own.domain, ground.domain) && own.assets.contains(&asset)
                };
            let current = |verified: &ClaimVerificationEvidence| -> (c: bool)
                ensures
                    c == (verified.evidence@ == ground.evidence@ && verified.is_current()),
                {
                    verified.evidence.same(&ground.evidence)
                        && verified.is_current_authoritative()
                };
            ground.is_directional_for(asset, domain) && any_of(critique.grounds.as_slice(), reviewed)
                && any_of(critique.supporting_refs.as_slice(), current)
        };
    any_of(claim.grounds.as_slice(), confirmed)
}

fn same_domain(a: Option<ResearchShard>, b: Option<ResearchShard>) -> (r: bool)
    ensures
        r == (a == b),
{
    match (a, b) {
        (Some(x), Some(y)) => x == y,
        (None, None) => true,
        _ => false,
    }
}

/// A valid critique of the claim finds it supported, leaves the slot open and confirms both
/// lanes that a direction needs.
pub open spec fn critique_confirms(
    critique: ResearchCritique,
    reference: RefView,
    claim: ResearchClaim,
    asset: Asset,
    horizon: DecisionHorizon,
) -> bool {
    &&& critique.target@ == reference
    &&& critique.verdict() is Ok
    &&& critique.verification_status is Supported
    &&& !critique.blocks(asset, horizon, claim.horizon)
    &&& lane_is_confirmed(claim, critique, asset, ResearchShard::PriceMarketStructure)
    &&& lane_is_confirmed(claim, critique, asset, ResearchShard::Macro)
}

/// A claim may carry a direction of an asset over a horizon. Nothing but its own grounds,
/// confirmed by one critique of it, counts.
pub open spec fn slot_eligible(
    reference: RefView,
    claim: ResearchClaim,
    critiques: Seq<ResearchCritique>,
    asset: Asset,
    horizon: DecisionHorizon,
) -> bool {
    &&& claim.horizon == horizon
    &&& claim.verdict() is Ok
    &&& !(claim.stance is Neutral)
    &&& !gaps_block(claim.evidence_gaps@, asset, horizon, claim.horizon)
    &&& exists|i: int|
        0 <= i < critiques.len() && critique_confirms(
            #[trigger] critiques[i],
            reference,
            claim,
            asset,
            horizon,
        )
}

pub fn claim_slot_eligible(
    reference: &ArtifactRef,
    claim: &ResearchClaim,
    critiques: &Vec<ResearchCritique>,
    asset: Asset,
    horizon: DecisionHorizon,
) -> (r: bool)
    ensures
        r == slot_eligible(reference@, *claim, critiques@, asset, horizon),
{
    if claim.horizon != horizon || claim.validate().is_err() || claim.stance == ClaimStance::Neutral
        || any_gap_blocks(&claim.evidence_gaps, asset, horizon, claim.horizon) {
        return false;
    }
    let confirms = |critique: &ResearchCritique| -> (b: bool)
        ensures
            b == critique_confirms(*critique, reference@, *claim, asset, horizon),
        {
            critique.target.same(reference) && critique.validate().is_ok()
                && critique.verification_status == ClaimVerificationStatus::Supported
                && !critique.blocks_slot(asset, horizon, claim.horizon) && lane_was_confirmed(
                claim,
                critique,
                asset,
                ResearchShard::PriceMarketStructure,
            ) && lane_was_confirmed(claim, critique, asset, ResearchShard::Macro)
        };
    any_of(critiques.as_slice(), confirms)
}

/// Some claim that the draft cites points the way of a forecast and may carry it.
pub open spec fn forecast_is_carried(
    draft: DecisionDraft,
    forecast: Forecast,
    claims: Seq<(ArtifactRef, ResearchClaim)>,
    critiques: Seq<ResearchCritique>,
) -> bool {
    exists|i: int|
        0 <= i < claims.len() && refs_list(draft.claims@, (#[trigger] claims[i]).0@)
            && forecast.agrees_with(claims[i].1.stance) && slot_eligible(
            claims[i].0@,
            claims[i].1,
            critiques,
            forecast.asset,
            forecast.horizon,
        )
}

pub fn validate_verified_forecast_slots(
    draft: &DecisionDraft,
    claims: &Vec<(ArtifactRef, ResearchClaim)>,
    critiques: &Vec<ResearchCritique>,
) -> (r: Result<(), DomainError>)
    ensures
        outcome(r) == demand(
            forall|i: int|
                0 <= i < draft.forecasts@.len() && !(#[trigger] draft.forecasts@[i]).neutral()
                    ==> forecast_is_carried(*draft, draft.forecasts@[i], claims@, critiques@),
            ErrorView::InsufficientDecisionEvidence,
        ),
{
    let carried = |forecast: &Forecast| -> (b: bool)
        ensures
            b == (!forecast.neutral() ==> forecast_is_carried(
                *draft,
                *forecast,
                claims@,
                critiques@,
            )),
        {
            let carries = |pair: &(ArtifactRef, ResearchClaim)| -> (c: bool)
                ensures
                    c == (refs_list(draft.claims@, pair.0@) && forecast.agrees_with(pair.1.stance)
                        && slot_eligible(
                        pair.0@,
                        pair.1,
                        critiques@,
                        forecast.asset,
                        forecast.horizon,
                    )),
                {
                    refs_contain(&draft.claims, &pair.0) && forecast.supported_by_stance(
                        pair.1.stance,
                    ) && claim_slot_eligible(
                        &pair.0,
                        &pair.1,
                        critiques,
                        forecast.asset,
                        forecast.horizon,
                    )
                };
            forecast.is_neutral() || any_of(claims.as_slice(), carries)
        };
    if !all_of(draft.forecasts.as_slice(), carried) {
        return Err(DomainError::InsufficientDecisionEvidence);
    }
    Ok(())
}

/// A rise of the asset over the horizon is forecast.
pub open spec fn rise_is_forecast(
    forecasts: Seq<Forecast>,
    asset: Asset,
    horizon: DecisionHorizon,
) -> bool {
    exists|i: int|
        0 <= i < forecasts.len() && (#[trigger] forecasts[i]).asset == asset && forecasts[i].horizon
            == horizon && forecasts[i].expected_return_ppm > 0
}

/// A reference cites a claim: the claim itself, evidence of it for the asset, or a critique
/// of it.
pub open spec fn citation_fits(
    cited: RefView,
    pair: (ArtifactRef, ResearchClaim),
    critiques: Seq<ResearchCritique>,
    critique_refs: Seq<ArtifactRef>,
    asset: Asset,
) -> bool {
    ||| cited == pair.0@
    ||| exists|i: int|
        0 <= i < pair.1.grounds@.len() && (#[trigger] pair.1.grounds@[i]).assets@.contains(asset)
            && pair.1.grounds@[i].evidence@ == cited
    ||| exists|i: int|
        0 <= i < critiques.len() && i < critique_refs.len() && (#[trigger] critiques[i]).target@
            == pair.0@ && critique_refs[i]@ == cited
}

fn cites_claim(
    cited: &ArtifactRef,
    pair: &(ArtifactRef, ResearchClaim),
    critiques: &Vec<ResearchCritique>,
    critique_refs: &Vec<ArtifactRef>,
    asset: Asset,
) -> (r: bool)
    ensures
        r == citation_fits(cited@, *pair, critiques@, critique_refs@, asset),
{
    if cited.same(&pair.0) {
        return true;
    }
    let holds = |ground: &EvidenceGround| -> (b: bool)
        ensures
            b == (ground.assets@.contains(asset) && ground.evidence@ == cited@),
        { ground.assets.contains(&asset) && ground.evidence.same(cited) };
    if any_of(pair.1.grounds.as_slice(), holds) {
        return true;
    }
    let mut i: usize = 0;
    while i < critiques.len() && i < critique_refs.len()
        invariant
            i <= critiques.len(),
            i <= critique_refs.len(),
            forall|j: int|
                0 <= j < i ==> !((#[trigger] critiques@[j]).target@ == pair.0@
                    && critique_refs@[j]@ == cited@),
        decreases critiques.len() - i,
    {
        if critiques[i].target.same(&pair.0) && critique_refs[i].same(cited) {
            return true;
        }
        i += 1;
    }
    false
}

/// A bullish claim may carry the asset over the horizon, and the allocation cites it.
pub open spec fn claim_carries_allocation(
    proposal: DecisionDraft,
    allocation: ResearchAssetAllocation,
    horizon: DecisionHorizon,
    pair: (ArtifactRef, ResearchClaim),
    critiques: Seq<ResearchCritique>,
) -> bool {
    &&& pair.1.stance is Bullish
    &&& slot_eligible(pair.0@, pair.1, critiques, allocation.asset, horizon)
    &&& exists|i: int|
        0 <= i < allocation.evidence_refs@.len() && citation_fits(
            (#[trigger] allocation.evidence_refs@[i])@,
            pair,
            critiques,
            proposal.critiques@,
            allocation.asset,
        )
}

/// Over one of its horizons a rise is forecast and an eligible claim that is cited carries it.
pub open spec fn allocation_is_carried(
    proposal: DecisionDraft,
    allocation: ResearchAssetAllocation,
    claims: Seq<(ArtifactRef, ResearchClaim)>,
    critiques: Seq<ResearchCritique>,
) -> bool {
    exists|h: int|
        0 <= h < allocation.supporting_horizons@.len() && rise_is_forecast(
            proposal.forecasts@,
            allocation.asset,
            #[trigger] allocation.supporting_horizons@[h],
        ) && some_claim_carries(
            proposal,
            allocation,
            allocation.supporting_horizons@[h],
            claims,
            critiques,
        )
}

pub open spec fn some_claim_carries(
    proposal: DecisionDraft,
    allocation: ResearchAssetAllocation,
    horizon: DecisionHorizon,
    claims: Seq<(ArtifactRef, ResearchClaim)>,
    critiques: Seq<ResearchCritique>,
) -> bool {
    exists|i: int|
        0 <= i < claims.len() && claim_carries_allocation(
            proposal,
            allocation,
            horizon,
            #[trigger] claims[i],
            critiques,
        )
}

fn horizon_carries(
    proposal: &DecisionDraft,
    allocation: &ResearchAssetAllocation,
    horizon: DecisionHorizon,
    claims: &Vec<(ArtifactRef, ResearchClaim)>,
    critiques: &Vec<ResearchCritique>,
) -> (r: bool)
    ensures
        r == (rise_is_forecast(proposal.forecasts@, allocation.asset, horizon)
            && some_claim_carries(*proposal, *allocation, horizon, claims@, critiques@)),
{
    let asset = allocation.asset;
    let rises = |forecast: &Forecast| -> (b: bool)
        ensures
            b == (forecast.asset == asset && forecast.horizon == horizon
                && forecast.expected_return_ppm > 0),
        {
            forecast.asset == asset && forecast.horizon == horizon && forecast.expected_return_ppm
                > 0
        };
    let carries = |pair: &(ArtifactRef, ResearchClaim)| -> (b: bool)
        ensures
            b == claim_carries_allocation(*proposal, *allocation, horizon, *pair, critiques@),
        {
            let cited = |reference: &ArtifactRef| -> (c: bool)
                ensures
                    c == citation_fits(
                        reference@,
                        *pair,
                        critiques@,
                        proposal.critiques@,
                        asset,
                    ),
                { cites_claim(reference, pair, critiques, &proposal.critiques, asset) };
            pair.1.stance == ClaimStance::Bullish && claim_slot_eligible(
                &pair.0,
                &pair.1,
                critiques,
                asset,
                horizon,
            ) && any_of(allocation.evidence_refs.as_slice(), cited)
        };
    any_of(proposal.forecasts.as_slice(), rises) && any_of(claims.as_slice(), carries)
}

/// Every weight of the proposal is carried by claims that are eligible and cited.
pub open spec fn weights_are_carried(
    proposal: DecisionDraft,
    claims: Seq<(ArtifactRef, ResearchClaim)>,
    critiques: Seq<ResearchCritique>,
) -> bool {
    proposal.research_allocation matches Some(plan) ==> forall|i: int|
        0 <= i < plan.allocations@.len() && (#[trigger] plan.allocations@[i]).target_weight_ppm.0 > 0
            ==> allocation_is_carried(proposal, plan.allocations@[i], claims, critiques)
}

pub fn validate_structured_allocation_eligibility(
    proposal: &DecisionDraft,
    claims: &Vec<(ArtifactRef, ResearchClaim)>,
    critiques: &Vec<ResearchCritique>,
) -> (r: Result<(), DomainError>)
    ensures
        outcome(r) == demand(
            weights_are_carried(*proposal, claims@, critiques@),
            ErrorView::InsufficientDecisionEvidence,
        ),
{
    match &proposal.research_allocation {
        None => Ok(()),
        Some(plan) => {
            let carried = |allocation: &ResearchAssetAllocation| -> (b: bool)
                ensures
                    b == (allocation.target_weight_ppm.0 > 0 ==> allocation_is_carried(
                        *proposal,
                        *allocation,
                        claims@,
                        critiques@,
                    )),
                {
                    let fits = |horizon: &DecisionHorizon| -> (c: bool)
                        ensures
                            c == (rise_is_forecast(
                                proposal.forecasts@,
                                allocation.asset,
                                *horizon,
                            ) && some_claim_carries(
                                *proposal,
                                *allocation,
                                *horizon,
                                claims@,
                                critiques@,
                            )),
                        { horizon_carries(proposal, allocation, *horizon, claims, critiques) };
                    allocation.target_weight_ppm.0 == 0 || any_of(
                        allocation.supporting_horizons.as_slice(),
                        fits,
                    )
                };
            if !all_of(plan.allocations.as_slice(), carried) {
                return Err(DomainError::InsufficientDecisionEvidence);
            }
            Ok(())
        },
    }
}

/// A claim of the horizon with a valid critique that supports it and leaves the slot open.
pub open spec fn claim_is_soundly_verified(
    pair: (ArtifactRef, ResearchClaim),
    critiques: Seq<ResearchCritique>,
    asset: Asset,
    horizon: DecisionHorizon,
) -> bool {
    pair.1.horizon == horizon && exists|i: int|
        0 <= i < critiques.len() && (#[trigger] critiques[i]).target@ == pair.0@
            && critiques[i].verification_status is Supported && !critiques[i].blocks(
            asset,
            horizon,
            pair.1.horizon,
        ) && critiques[i].verdict() is Ok
}

fn is_soundly_verified(
    pair: &(ArtifactRef, ResearchClaim),
    critiques: &Vec<ResearchCritique>,
    asset: Asset,
    horizon: DecisionHorizon,
) -> (r: bool)
    ensures
        r == claim_is_soundly_verified(*pair, critiques@, asset, horizon),
{
    let verifies = |critique: &ResearchCritique| -> (b: bool)
        ensures
            b == (critique.target@ == pair.0@ && critique.verification_status is Supported
                && !critique.blocks(asset, horizon, pair.1.horizon) && critique.verdict() is Ok),
        {
            critique.target.same(&pair.0) && critique.verification_status
                == ClaimVerificationStatus::Supported && !critique.blocks_slot(
                asset,
                horizon,
                pair.1.horizon,
            ) && critique.validate().is_ok()
        };
    pair.1.horizon == horizon && any_of(critiques.as_slice(), verifies)
}

pub open spec fn verified_lane(
    claims: Seq<(ArtifactRef, ResearchClaim)>,
    critiques: Seq<ResearchCritique>,
    asset: Asset,
    horizon: DecisionHorizon,
    domain: ResearchShard,
) -> bool {
    exists|i: int|
        0 <= i < claims.len() && claim_is_soundly_verified(
            #[trigger] claims[i],
            critiques,
            asset,
            horizon,
        ) && grounds_direct(claims[i].1.grounds@, asset, domain)
}

fn has_verified_lane(
    claims: &Vec<(ArtifactRef, ResearchClaim)>,
    critiques: &Vec<ResearchCritique>,
    asset: Asset,
    horizon: DecisionHorizon,
    domain: ResearchShard,
) -> (r: bool)
    ensures
        r == verified_lane(claims@, critiques@, asset, horizon, domain),
{
    let covers = |pair: &(ArtifactRef, ResearchClaim)| -> (b: bool)
        ensures
            b == (claim_is_soundly_verified(*pair, critiques@, asset, horizon) && grounds_direct(
                pair.1.grounds@,
                asset,
                domain,
            )),
        {
            is_soundly_verified(pair, critiques, asset, horizon) && some_ground_directs(
                &pair.1.grounds,
                asset,
                domain,
            )
        };
    any_of(claims.as_slice(), covers)
}

/// No gap blocks the slot, and verified claims support a direction in three lanes.
pub open spec fn slot_is_covered(
    claims: Seq<(ArtifactRef, ResearchClaim)>,
    critiques: Seq<ResearchCritique>,
    asset: Asset,
    horizon: DecisionHorizon,
) -> bool {
    &&& forall|i: int|
        0 <= i < claims.len() ==> !gaps_block(
            (#[trigger] claims[i]).1.evidence_gaps@,
            asset,
            horizon,
            claims[i].1.horizon,
        )
    &&& verified_lane(claims, critiques, asset, horizon, ResearchShard::PriceMarketStructure)
    &&& verified_lane(claims, critiques, asset, horizon, ResearchShard::Macro)
    &&& verified_lane(claims, critiques, asset, horizon, ResearchShard::NewsEvent)
}

fn covers_slot(
    claims: &Vec<(ArtifactRef, ResearchClaim)>,
    critiques: &Vec<ResearchCritique>,
    asset: Asset,
    horizon: DecisionHorizon,
) -> (r: bool)
    ensures
        r == slot_is_covered(claims@, critiques@, asset, horizon),
{
    let open = |pair: &(ArtifactRef, ResearchClaim)| -> (b: bool)
        ensures
            b == !gaps_block(pair.1.evidence_gaps@, asset, horizon, pair.1.horizon),
        { !any_gap_blocks(&pair.1.evidence_gaps, asset, horizon, pair.1.horizon) };
    all_of(claims.as_slice(), open) && has_verified_lane(
        claims,
        critiques,
        asset,
        horizon,
        ResearchShard::PriceMarketStructure,
    ) && has_verified_lane(claims, critiques, asset, horizon, ResearchShard::Macro)
        && has_verified_lane(claims, critiques, asset, horizon, ResearchShard::NewsEvent)
}

fn covers_asset(
    claims: &Vec<(ArtifactRef, ResearchClaim)>,
    critiques: &Vec<ResearchCritique>,
    asset: Asset,
) -> (r: bool)
    ensures
        r == forall|horizon: DecisionHorizon| #[trigger]
            slot_is_covered(claims@, critiques@, asset, horizon),
{
    let all = covers_slot(claims, critiques, asset, DecisionHorizon::T1) && covers_slot(
        claims,
        critiques,
        asset,
        DecisionHorizon::T3,
    ) && covers_slot(claims, critiques, asset, DecisionHorizon::T5);
    proof {
        if all {
            assert forall|horizon: DecisionHorizon| #[trigger] slot_is_covered(
                claims@,
                critiques@,
                asset,
                horizon,
            ) by {
                assert(horizon is T1 || horizon is T3 || horizon is T5);
            }
        }
    }
    all
}

/// Every slot is covered.
pub open spec fn covers_every_slot(
    claims: Seq<(ArtifactRef, ResearchClaim)>,
    critiques: Seq<ResearchCritique>,
) -> bool {
    forall|asset: Asset, horizon: DecisionHorizon| #[trigger]
        slot_is_covered(claims, critiques, asset, horizon)
}

/// Whether every slot is covered, so that a run can support learning.
pub fn research_coverage_is_complete(
    claims: &Vec<(ArtifactRef, ResearchClaim)>,
    critiques: &Vec<ResearchCritique>,
) -> (r: bool)
    ensures
        r == covers_every_slot(claims@, critiques@),
{
    let all = covers_asset(claims, critiques, Asset::Tqqq) && covers_asset(
        claims,
        critiques,
        Asset::Qqq,
    ) && covers_asset(claims, critiques, Asset::Soxx) && covers_asset(
        claims,
        critiques,
        Asset::Soxl,
    );
    proof {
        if all {
            assert forall|asset: Asset, horizon: DecisionHorizon| #[trigger] slot_is_covered(
                claims@,
                critiques@,
                asset,
                horizon,
            ) by {
                assert(crate::foundation::executable(asset));
            }
        }
    }
    all
}

/// A slot that a claim is eligible for has a confirmed ground of the claim itself in both
/// lanes, whatever a critique adds on its own.
pub proof fn eligible_slot_rests_on_the_claims_own_grounds(
    reference: RefView,
    claim: ResearchClaim,
    critiques: Seq<ResearchCritique>,
    asset: Asset,
    horizon: DecisionHorizon,
)
    requires
        slot_eligible(reference, claim, critiques, asset, horizon),
    ensures
        grounds_direct(claim.grounds@, asset, ResearchShard::PriceMarketStructure),
        grounds_direct(claim.grounds@, asset, ResearchShard::Macro),
        !gaps_block(claim.evidence_gaps@, asset, horizon, claim.horizon),
{
}

/// A claim that is added, whatever it lacks, leaves every forecast carried that was.
pub proof fn added_claim_poisons_no_forecast(
    draft: DecisionDraft,
    forecast: Forecast,
    claims: Seq<(ArtifactRef, ResearchClaim)>,
    critiques: Seq<ResearchCritique>,
    added: (ArtifactRef, ResearchClaim),
)
    requires
        forecast_is_carried(draft, forecast, claims, critiques),
    ensures
        forecast_is_carried(draft, forecast, claims.push(added), critiques),
{
    let more = claims.push(added);
    let i = choose|i: int|
        0 <= i < claims.len() && refs_list(draft.claims@, (#[trigger] claims[i]).0@)
            && forecast.agrees_with(claims[i].1.stance) && slot_eligible(
            claims[i].0@,
            claims[i].1,
            critiques,
            forecast.asset,
            forecast.horizon,
        );
    assert(more[i] == claims[i]);
}

/// What carries a forecast is one claim that points its way, with both lanes among its own
/// grounds and one critique that confirms them.
pub proof fn carried_forecast_rests_on_one_claim(
    draft: DecisionDraft,
    forecast: Forecast,
    claims: Seq<(ArtifactRef, ResearchClaim)>,
    critiques: Seq<ResearchCritique>,
)
    requires
        forecast_is_carried(draft, forecast, claims, critiques),
    ensures
        exists|i: int, j: int|
            0 <= i < claims.len() && 0 <= j < critiques.len() && forecast.agrees_with(
                (#[trigger] claims[i]).1.stance,
            ) && lane_is_confirmed(
                claims[i].1,
                #[trigger] critiques[j],
                forecast.asset,
                ResearchShard::PriceMarketStructure,
            ) && lane_is_confirmed(
                claims[i].1,
                critiques[j],
                forecast.asset,
                ResearchShard::Macro,
            ),
{
    let i = choose|i: int|
        0 <= i < claims.len() && refs_list(draft.claims@, (#[trigger] claims[i]).0@)
            && forecast.agrees_with(claims[i].1.stance) && slot_eligible(
            claims[i].0@,
            claims[i].1,
            critiques,
            forecast.asset,
            forecast.horizon,
        );
    let j = choose|j: int|
        0 <= j < critiques.len() && critique_confirms(
            #[trigger] critiques[j],
            claims[i].0@,
            claims[i].1,
            forecast.asset,
            forecast.horizon,
        );
    assert(lane_is_confirmed(claims[i].1, critiques[j], forecast.asset, ResearchShard::Macro));
}

/// What a decision validity is refused with: the first fault that it has.
pub proof fn refusal_of_decision_validity_names_its_fault(this: DecisionValidity)
    ensures
        !(this.maximum_execution_delay_ms <= i64::MAX)
            ==> this.verdict() == Verdict::Err(
                budget("decision_validity.maximum_execution_delay_ms"@),
            ),
        (this.maximum_execution_delay_ms <= i64::MAX) && !(this.window_is_valid())
            ==> this.verdict() == Verdict::Err(budget("decision_validity.window"@)),
{
}

/// What a forecast thesis is refused with: the first fault that it has.
pub proof fn refusal_of_forecast_thesis_names_its_fault(
    this: ForecastThesis,
    horizon: DecisionHorizon,
)
    ensures
        !(this.expected_holding_period_days == horizon.days() && !blank(this.exit_condition@)
            && this.invalidation_conditions@.len() > 0 && !any_blank(this.invalidation_conditions@))
            ==> this.verdict(horizon) == Verdict::Err(empty("forecast.thesis"@)),
{
}

/// What a process quality assessment is refused with: the first fault that it has.
pub proof fn refusal_of_process_quality_assessment_names_its_fault(this: ProcessQualityAssessment)
    ensures
        !(this.shares_fit())
            ==> this.verdict() == Verdict::Err(budget("investment_logic.quality"@)),
{
}

/// What an investment logic trace is refused with: the first fault that it has.
pub proof fn refusal_of_investment_logic_trace_names_its_fault(this: InvestmentLogicTrace)
    ensures
        (!this.is_grounded()) ==> this.verdict() == Verdict::Err(empty("investment_logic.trace"@)),
{
}

/// What a material conflict is refused with: the first fault that it has.
pub proof fn refusal_of_material_conflict_names_its_fault(this: MaterialConflict)
    ensures
        !(this.claim.kind is Claim && this.critique.kind is Critique)
            ==> this.verdict() == Verdict::Err(empty("material_conflict.references"@)),
        (this.claim.kind is Claim && this.critique.kind is Critique) && !(!blank(this.topic@)
            && !blank(this.rationale@))
            ==> this.verdict() == Verdict::Err(empty("material_conflict.description"@)),
{
}

/// What an asset eligibility is refused with: the first fault that it has.
pub proof fn refusal_of_asset_eligibility_names_its_fault(this: AssetEligibility)
    ensures
        !(this.is_consistent())
            ==> this.verdict() == Verdict::Err(budget("decision_context.asset_eligibility"@)),
{
}

/// What a portfolio risk assessment is refused with: the first fault that it has.
pub proof fn refusal_of_portfolio_risk_assessment_names_its_fault(this: PortfolioRiskAssessment)
    ensures
        !(this.is_bounded())
            ==> this.verdict() == Verdict::Err(budget("portfolio_risk_assessment"@)),
        (this.is_bounded()) && !(ascending::<Asset>(views(this.liquidity_binding_assets@)))
            ==> this.verdict() == Verdict::Err(
                budget("portfolio_risk_assessment.liquidity_binding_assets"@),
            ),
{
}

/// What a decision context is refused with: the first fault that it has.
pub proof fn refusal_of_decision_context_names_its_fault(this: DecisionContext)
    ensures
        (this.schema_version != DOMAIN_SCHEMA_VERSION)
            ==> this.verdict() == Verdict::Err(empty("decision_context.schema_version"@)),
        !(this.schema_version != DOMAIN_SCHEMA_VERSION) && (blank(this.decision_id@)
            || blank(this.run_id@))
            ==> this.verdict() == Verdict::Err(empty("decision_context.identity"@)),
        !(this.schema_version != DOMAIN_SCHEMA_VERSION) && !(blank(this.decision_id@)
            || blank(this.run_id@)) && (!this.references_are_sound())
            ==> this.verdict() == Verdict::Err(empty("decision_context.references"@)),
        !(this.schema_version != DOMAIN_SCHEMA_VERSION) && !(blank(this.decision_id@)
            || blank(this.run_id@)) && !(!this.references_are_sound())
            && (!refs_are_learning(this.applied_learning_refs@)
            || !refs_are_learning(this.rejected_learning_refs@))
            ==> this.verdict() == Verdict::Err(empty("decision_context.learning_refs"@)),
        !(this.schema_version != DOMAIN_SCHEMA_VERSION) && !(blank(this.decision_id@)
            || blank(this.run_id@)) && !(!this.references_are_sound())
            && !(!refs_are_learning(this.applied_learning_refs@)
            || !refs_are_learning(this.rejected_learning_refs@))
            && (refs_overlap(this.applied_learning_refs@, this.rejected_learning_refs@))
            ==> this.verdict() == Verdict::Err(empty("decision_context.learning_refs_overlap"@)),
        !(this.schema_version != DOMAIN_SCHEMA_VERSION) && !(blank(this.decision_id@)
            || blank(this.run_id@)) && !(!this.references_are_sound())
            && !(!refs_are_learning(this.applied_learning_refs@)
            || !refs_are_learning(this.rejected_learning_refs@))
            && !(refs_overlap(this.applied_learning_refs@, this.rejected_learning_refs@))
            && (this.claims@.len() == 0 && this.hard_blockers@.len() == 0)
            ==> this.verdict() == Verdict::Err(empty("decision_context.claims_or_blockers"@)),
        !(this.schema_version != DOMAIN_SCHEMA_VERSION) && !(blank(this.decision_id@)
            || blank(this.run_id@)) && !(!this.references_are_sound())
            && !(!refs_are_learning(this.applied_learning_refs@)
            || !refs_are_learning(this.rejected_learning_refs@))
            && !(refs_overlap(this.applied_learning_refs@, this.rejected_learning_refs@))
            && !(this.claims@.len() == 0 && this.hard_blockers@.len() == 0)
            && list_verdict(this.material_conflicts@) is Ok && this.target.universe_verdict() is Ok
            && this.portfolio_risk.verdict() is Ok && this.validity_verdict() is Ok
            && !(this.investment_logic matches Some(trace) && trace.verdict() is Err)
            && !(this.research_plan matches Some(plan) && plan.verdict() is Err)
            && (!this.eligibility_is_sound())
            ==> this.verdict() == Verdict::Err(budget("decision_context.asset_eligibility"@)),
        !(this.schema_version != DOMAIN_SCHEMA_VERSION) && !(blank(this.decision_id@)
            || blank(this.run_id@)) && !(!this.references_are_sound())
            && !(!refs_are_learning(this.applied_learning_refs@)
            || !refs_are_learning(this.rejected_learning_refs@))
            && !(refs_overlap(this.applied_learning_refs@, this.rejected_learning_refs@))
            && !(this.claims@.len() == 0 && this.hard_blockers@.len() == 0)
            && list_verdict(this.material_conflicts@) is Ok && this.target.universe_verdict() is Ok
            && this.portfolio_risk.verdict() is Ok && this.validity_verdict() is Ok
            && !(this.investment_logic matches Some(trace) && trace.verdict() is Err)
            && !(this.research_plan matches Some(plan) && plan.verdict() is Err)
            && !(!this.eligibility_is_sound()) && (this.is_accepted() && this.targets_an_asset()
            && !this.portfolio_risk.is_measured())
            ==> this.verdict() == Verdict::Err(budget("decision_context.portfolio_risk"@)),
{
}

/// What a forecast is refused with: the first fault that it has.
pub proof fn refusal_of_forecast_names_its_fault(this: Forecast)
    ensures
        !(this.positive_return_probability_ppm <= 1_000_000)
            ==> this.verdict() == Verdict::Err(ErrorView::InvalidDecisionForecastProbability),
{
}

/// What a research asset allocation is refused with: the first fault that it has.
pub proof fn support_verdict_of_research_asset_allocation_names_its_fault(
    this: ResearchAssetAllocation,
)
    ensures
        (this.target_weight_ppm.0 > 0) && !(this.supporting_horizons@.len() > 0
            && this.evidence_refs@.len() > 0)
            ==> this.support_verdict() == Verdict::Err(
                empty("research_allocation.non_zero_support"@),
            ),
        (this.target_weight_ppm.0 > 0) && (this.supporting_horizons@.len() > 0
            && this.evidence_refs@.len() > 0) && !(this.abstention_reason is None)
            ==> this.support_verdict() == Verdict::Err(
                empty("research_allocation.non_zero_abstention"@),
            ),
        !(this.target_weight_ppm.0 > 0) && !(this.abstention_reason matches Some(reason)
            && !blank(reason@))
            ==> this.support_verdict() == Verdict::Err(empty("research_allocation.zero_reason"@)),
{
}

/// What a research asset allocation is refused with: the first fault that it has.
pub proof fn refusal_of_research_asset_allocation_names_its_fault(this: ResearchAssetAllocation)
    ensures
        (this.target_weight_ppm.0 > 1_000_000 || blank(this.rationale@))
            ==> this.verdict() == Verdict::Err(empty("research_allocation.asset"@)),
        !(this.target_weight_ppm.0 > 1_000_000 || blank(this.rationale@))
            && (!ascending::<DecisionHorizon>(views(this.supporting_horizons@)))
            ==> this.verdict() == Verdict::Err(budget("research_allocation.supporting_horizons"@)),
        !(this.target_weight_ppm.0 > 1_000_000 || blank(this.rationale@))
            && !(!ascending::<DecisionHorizon>(views(this.supporting_horizons@)))
            && (!ascending::<ArtifactRef>(views(this.evidence_refs@))
            || !refs_are_citable(this.evidence_refs@))
            ==> this.verdict() == Verdict::Err(empty("research_allocation.evidence_refs"@)),
{
}

/// What a research allocation plan is refused with: the first fault that it has.
pub proof fn refusal_of_research_allocation_plan_names_its_fault(this: ResearchAllocationPlan)
    ensures
        (this.cash_weight_ppm.0 > 1_000_000 || this.allocations@.len() != 4)
            ==> this.verdict() == Verdict::Err(ErrorView::InvalidTargetUniverse),
        !(this.cash_weight_ppm.0 > 1_000_000 || this.allocations@.len() != 4)
            && first_fault(4, allocation_checks(this.allocations@)) is Ok
            && !(this.covers_universe()
            && total_weight(this.allocations@) + this.cash_weight_ppm.0 == 1_000_000)
            ==> this.verdict() == Verdict::Err(budget("research_allocation.weights"@)),
{
}

/// What a research plan adjustment is refused with: the first fault that it has.
pub proof fn refusal_of_research_plan_adjustment_names_its_fault(this: ResearchPlanAdjustment)
    ensures
        !(this.from_weight_ppm.0 <= 1_000_000 && this.to_weight_ppm.0 <= 1_000_000
            && this.reasons@.len() > 0 && !any_blank(this.reasons@))
            ==> this.verdict() == Verdict::Err(budget("research_allocation.adjustment"@)),
{
}

/// What a research plan review is refused with: the first fault that it has.
pub proof fn refusal_of_research_plan_review_names_its_fault(this: ResearchPlanReview)
    ensures
        this.raw.verdict() is Ok && this.validated.verdict() is Ok
            && list_verdict(this.adjustments@) is Ok && (any_blank(this.execution_blockers@))
            ==> this.verdict() == Verdict::Err(empty("research_allocation.execution_blockers"@)),
        this.raw.verdict() is Ok && this.validated.verdict() is Ok
            && list_verdict(this.adjustments@) is Ok && !(any_blank(this.execution_blockers@))
            && !(this.status_agrees())
            ==> this.verdict() == Verdict::Err(budget("research_allocation.status"@)),
{
}

/// What a decision is refused with: the first fault that it has.
pub proof fn refusal_of_decision_names_its_fault(this: Decision)
    ensures
        (this.schema_version != DOMAIN_SCHEMA_VERSION)
            ==> this.verdict() == Verdict::Err(empty("decision.schema_version"@)),
        !(this.schema_version != DOMAIN_SCHEMA_VERSION)
            && (!(this.decision_context.kind is DecisionContext) || blank(this.summary@))
            ==> this.verdict() == Verdict::Err(empty("decision.context_or_summary"@)),
        !(this.schema_version != DOMAIN_SCHEMA_VERSION)
            && !(!(this.decision_context.kind is DecisionContext) || blank(this.summary@))
            && (this.confidence_ppm > 1_000_000)
            ==> this.verdict() == Verdict::Err(ErrorView::InvalidDecisionConfidence),
        !(this.schema_version != DOMAIN_SCHEMA_VERSION)
            && !(!(this.decision_context.kind is DecisionContext) || blank(this.summary@))
            && !(this.confidence_ppm > 1_000_000) && forecasts_verdict(this.forecasts@) is Ok
            && (exists|i: int| 0 <= i < this.forecasts@.len()
            && (#[trigger] this.forecasts@[i]).thesis is None)
            ==> this.verdict() == Verdict::Err(empty("decision_draft.forecast_thesis"@)),
        !(this.schema_version != DOMAIN_SCHEMA_VERSION)
            && !(!(this.decision_context.kind is DecisionContext) || blank(this.summary@))
            && !(this.confidence_ppm > 1_000_000) && forecasts_verdict(this.forecasts@) is Ok
            && !(exists|i: int| 0 <= i < this.forecasts@.len()
            && (#[trigger] this.forecasts@[i]).thesis is None)
            && (exists|i: int| 0 <= i < this.forecasts@.len()
            && ((#[trigger] this.forecasts@[i]).thesis matches Some(thesis)
            && earlier(thesis.thesis_valid_until, this.created_at)))
            ==> this.verdict() == Verdict::Err(budget("decision.forecast_validity"@)),
{
}

/// What is refused in this respect is refused with the first fault that it has.
pub proof fn forecasts_verdict_names_its_fault(list: Seq<Forecast>)
    ensures
        first_fault(list.len(), forecast_checks(list)) is Ok && !(covers_grid(list))
            ==> forecasts_verdict(list) == Verdict::Err(ErrorView::InvalidDecisionForecastHorizons),
{
}

} // verus!
