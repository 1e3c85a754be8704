//! What became of a decision, measured over fixed numbers of trading days.
use crate::artifact::{ArtifactKind, ArtifactRef, RefView};
use crate::decision::{
    all_refs_are_evidence, refs_are_evidence, share_fits, DecisionHorizon,
};
use crate::error::{
    budget, demand, empty, empty_field, first, invalid_budget, outcome, DomainError, ErrorView,
    Verdict,
};
use crate::execution::plan::OrderSide;
use crate::foundation::{
    digest_of, json_digest, Asset, AttemptId, ContentHash, MoneyMicros, RunId, TaskId,
};
use crate::ids::OutcomeId;
use crate::json::{
    json_content, json_contents, json_insert, json_list, json_new_object, json_object, json_text,
    json_unsigned, no_members, JsonItem, JsonKey, JsonTree, ToJson,
};
use crate::lists::{any_of, check_all, first_fault, first_fault_stays, list_verdict, Checked};
use crate::ordered::{listing, rank_numbers, views, Key, OrderedSet, Rank};
use crate::text::{any_longer, blank, byte_count, byte_len, has_longer, is_blank};
use crate::time::{CalendarDay, UtcTime};
use crate::DOMAIN_SCHEMA_VERSION;
use vstd::prelude::*;

verus! {

/// After how many trading days an outcome is observed.
#[derive(Clone, Copy, Debug, PartialEq, Eq, PartialOrd, Ord, Hash, Structural)]
pub enum OutcomeHorizon {
    T1,
    T3,
    T5,
}

impl OutcomeHorizon {
    /// The name of the variant in JSON.
    pub open spec fn wire(self) -> Seq<char> {
        match self {
            OutcomeHorizon::T1 => "t1"@,
            OutcomeHorizon::T3 => "t3"@,
            OutcomeHorizon::T5 => "t5"@,
        }
    }

    /// The name of the variant in JSON.
    pub fn wire_name(self) -> (r: &'static str)
        ensures
            r@ == self.wire(),
    {
        match self {
            OutcomeHorizon::T1 => "t1",
            OutcomeHorizon::T3 => "t3",
            OutcomeHorizon::T5 => "t5",
        }
    }
}

impl ToJson for OutcomeHorizon {
    open spec fn json(&self) -> JsonTree {
        JsonTree::Text(self.wire())
    }

    fn to_json(&self) -> (r: serde_json::Value) {
        json_text(self.wire_name())
    }
}

impl View for OutcomeHorizon {
    type V = OutcomeHorizon;

    open spec fn view(&self) -> OutcomeHorizon {
        *self
    }
}

impl OutcomeHorizon {
    /// Where the variant stands in the order.
    pub open spec fn place(self) -> u32 {
        match self {
            OutcomeHorizon::T1 => 0,
            OutcomeHorizon::T3 => 1,
            OutcomeHorizon::T5 => 2,
        }
    }

    pub(crate) fn place_number(self) -> (r: u32)
        ensures
            r == self.place(),
    {
        match self {
            OutcomeHorizon::T1 => 0,
            OutcomeHorizon::T3 => 1,
            OutcomeHorizon::T5 => 2,
        }
    }
}

impl Key for OutcomeHorizon {
    open spec fn code(key: OutcomeHorizon) -> Seq<int> {
        seq![key.place() as int]
    }

    proof fn code_is_injective(a: OutcomeHorizon, b: OutcomeHorizon) {
        assert(Self::code(a)[0] == a.place() as int && Self::code(b)[0] == b.place() as int);
    }

    fn rank(&self, other: &Self) -> (r: Rank) {
        rank_numbers((*self).place_number(), (*other).place_number())
    }

    fn duplicate(&self) -> (r: Self) {
        *self
    }
}

impl JsonItem for OutcomeHorizon {
    open spec fn item_json(key: OutcomeHorizon) -> JsonTree {
        JsonTree::Text(key.wire())
    }

    fn to_item_json(&self) -> (r: serde_json::Value) {
        json_text((*self).wire_name())
    }
}

impl JsonKey for OutcomeHorizon {
    open spec fn key_text(key: OutcomeHorizon) -> Seq<char> {
        key.wire()
    }

    fn to_key_text(&self) -> (r: String) {
        (*self).wire_name().to_owned()
    }
}

impl OutcomeHorizon {
    pub const ALL: [OutcomeHorizon; 3] = [OutcomeHorizon::T1, OutcomeHorizon::T3, OutcomeHorizon::T5];

    pub open spec fn days(self) -> u8 {
        match self {
            OutcomeHorizon::T1 => 1,
            OutcomeHorizon::T3 => 3,
            OutcomeHorizon::T5 => 5,
        }
    }

    /// The number of trading sessions after the one of the decision.
    pub fn trading_days(self) -> (r: u8)
        ensures
            r == self.days(),
    {
        match self {
            OutcomeHorizon::T1 => 1,
            OutcomeHorizon::T3 => 3,
            OutcomeHorizon::T5 => 5,
        }
    }

    /// So many sessions have been completed.
    pub open spec fn is_due(self, completed_trading_sessions: u8) -> bool {
        completed_trading_sessions >= self.days()
    }

    /// Whether so many sessions have been completed. Days without trading do not count.
    pub fn is_due_after(self, completed_trading_sessions: u8) -> (r: bool)
        ensures
            r == self.is_due(completed_trading_sessions),
    {
        completed_trading_sessions >= self.trading_days()
    }
}

/// How a decision was executed. One that was rejected has a verdict and nothing else; one
/// that was carried out has its commitment and the reconciliation of it.
#[derive(Debug, PartialEq, Eq)]
pub enum OutcomeExecutionLineage {
    NoOrder { execution_verdict: ArtifactRef },
    ReconciledPaper {
        execution_verdict: ArtifactRef,
        commitment: ArtifactRef,
        reconciliation: ArtifactRef,
    },
}

impl Clone for OutcomeExecutionLineage {
    fn clone(&self) -> (r: Self)
        ensures
            r == *self,
    {
        match self {
            OutcomeExecutionLineage::NoOrder { execution_verdict } => {
                OutcomeExecutionLineage::NoOrder { execution_verdict: execution_verdict.clone() }
            },
            OutcomeExecutionLineage::ReconciledPaper {
                execution_verdict,
                commitment,
                reconciliation,
            } => {
                OutcomeExecutionLineage::ReconciledPaper {
                    execution_verdict: execution_verdict.clone(),
                    commitment: commitment.clone(),
                    reconciliation: reconciliation.clone(),
                }
            },
        }
    }
}

impl OutcomeExecutionLineage {
    pub open spec fn verdict(&self) -> Verdict {
        match self {
            OutcomeExecutionLineage::NoOrder { execution_verdict } => demand(
                execution_verdict.kind is ExecutionVerdict,
                empty("outcome_schedule.execution_verdict"@),
            ),
            OutcomeExecutionLineage::ReconciledPaper {
                execution_verdict,
                commitment,
                reconciliation,
            } => demand(
                execution_verdict.kind is ExecutionVerdict && commitment.kind is ExecutionCommitment
                    && reconciliation.kind is Reconciliation,
                empty("outcome_schedule.reconciled_lineage"@),
            ),
        }
    }

    pub fn validate(&self) -> (r: Result<(), DomainError>)
        ensures
            outcome(r) == self.verdict(),
    {
        match self {
            OutcomeExecutionLineage::NoOrder { execution_verdict } => {
                if execution_verdict.kind != ArtifactKind::ExecutionVerdict {
                    return Err(empty_field("outcome_schedule.execution_verdict"));
                }
            },
            OutcomeExecutionLineage::ReconciledPaper {
                execution_verdict,
                commitment,
                reconciliation,
            } => {
                if execution_verdict.kind != ArtifactKind::ExecutionVerdict || commitment.kind
                    != ArtifactKind::ExecutionCommitment || reconciliation.kind
                    != ArtifactKind::Reconciliation {
                    return Err(empty_field("outcome_schedule.reconciled_lineage"));
                }
            },
        }
        Ok(())
    }
}

/// The intent to observe an outcome, with what it is the outcome of.
#[derive(Debug, Clone, PartialEq, Eq)]
pub struct OutcomeSchedule {
    pub schema_version: u32,
    pub outcome_id: OutcomeId,
    pub decision: ArtifactRef,
    pub decision_context: ArtifactRef,
    pub execution_context: ArtifactRef,
    pub execution: OutcomeExecutionLineage,
    pub baseline_trading_day: CalendarDay,
    pub created_at: UtcTime,
}

impl OutcomeSchedule {
    pub open spec fn verdict(&self) -> Verdict {
        if self.schema_version != DOMAIN_SCHEMA_VERSION || blank(self.outcome_id@) {
            Err(empty("outcome_schedule.identity"@))
        } else if !(self.decision.kind is Decision) || !(
        self.decision_context.kind is DecisionContext) || !(
        self.execution_context.kind is ExecutionContext) {
            Err(empty("outcome_schedule.references"@))
        } else {
            self.execution.verdict()
        }
    }

    pub fn validate(&self) -> (r: Result<(), DomainError>)
        ensures
            outcome(r) == self.verdict(),
    {
        if self.schema_version != DOMAIN_SCHEMA_VERSION || is_blank(&self.outcome_id.0) {
            return Err(empty_field("outcome_schedule.identity"));
        }
        if self.decision.kind != ArtifactKind::Decision || self.decision_context.kind
            != ArtifactKind::DecisionContext || self.execution_context.kind
            != ArtifactKind::ExecutionContext {
            return Err(empty_field("outcome_schedule.references"));
        }
        self.execution.validate()
    }

    /// The horizons that are due after a number of sessions, the nearest first.
    pub fn due_horizons(&self, completed_trading_sessions: u8) -> (r: Vec<OutcomeHorizon>)
        ensures
            r@ == due(completed_trading_sessions),
    {
        let mut due_now: Vec<OutcomeHorizon> = Vec::new();
        if OutcomeHorizon::T1.is_due_after(completed_trading_sessions) {
            due_now.push(OutcomeHorizon::T1);
        }
        if OutcomeHorizon::T3.is_due_after(completed_trading_sessions) {
            due_now.push(OutcomeHorizon::T3);
        }
        if OutcomeHorizon::T5.is_due_after(completed_trading_sessions) {
            due_now.push(OutcomeHorizon::T5);
        }
        proof {
            assert(due_now@ =~= due(completed_trading_sessions));
        }
        due_now
    }
}

/// The horizons that are due after a number of sessions.
pub open spec fn due(sessions: u8) -> Seq<OutcomeHorizon> {
    if sessions >= 5 {
        seq![OutcomeHorizon::T1, OutcomeHorizon::T3, OutcomeHorizon::T5]
    } else if sessions >= 3 {
        seq![OutcomeHorizon::T1, OutcomeHorizon::T3]
    } else if sessions >= 1 {
        seq![OutcomeHorizon::T1]
    } else {
        seq![]
    }
}

/// What is due stays due: after more sessions the same horizons are listed first.
pub proof fn due_horizons_stay_due(sessions: u8, later: u8)
    requires
        sessions <= later,
    ensures
        due(sessions) == due(later).take(due(sessions).len() as int),
        due(sessions).len() <= due(later).len(),
{
    assert(due(sessions) =~= due(later).take(due(sessions).len() as int));
}

pub const FORECAST_CALIBRATION_BIN_COUNT: usize = 10;

/// The forecasts of a range of probabilities and what became of them.
#[derive(Clone, Copy, Debug, PartialEq, Eq, Structural)]
pub struct ForecastCalibrationBin {
    pub sample_count: u32,
    pub probability_sum_ppm: u64,
    pub positive_count: u32,
    pub brier_sum_ppm: u64,
}

impl Default for ForecastCalibrationBin {
    fn default() -> (r: Self)
        ensures
            r == (ForecastCalibrationBin {
                sample_count: 0,
                probability_sum_ppm: 0,
                positive_count: 0,
                brier_sum_ppm: 0,
            }),
    {
        ForecastCalibrationBin {
            sample_count: 0,
            probability_sum_ppm: 0,
            positive_count: 0,
            brier_sum_ppm: 0,
        }
    }
}

impl ToJson for ForecastCalibrationBin {
    open spec fn json(&self) -> JsonTree {
        let m = no_members();
        let m = m.insert("sample_count"@, self.sample_count.json());
        let m = m.insert("probability_sum_ppm"@, self.probability_sum_ppm.json());
        let m = m.insert("positive_count"@, self.positive_count.json());
        let m = m.insert("brier_sum_ppm"@, self.brier_sum_ppm.json());
        JsonTree::Object(m)
    }

    fn to_json(&self) -> (r: serde_json::Value) {
        let mut members = json_new_object();
        json_insert(&mut members, "sample_count", self.sample_count.to_json());
        json_insert(&mut members, "probability_sum_ppm", self.probability_sum_ppm.to_json());
        json_insert(&mut members, "positive_count", self.positive_count.to_json());
        json_insert(&mut members, "brier_sum_ppm", self.brier_sum_ppm.to_json());
        json_object(members)
    }
}

impl ForecastCalibrationBin {
    /// The sums are sums of so many shares.
    pub open spec fn is_bounded(&self) -> bool {
        &&& self.positive_count <= self.sample_count
        &&& self.probability_sum_ppm <= self.sample_count * 1_000_000
        &&& self.brier_sum_ppm <= self.sample_count * 1_000_000
    }

    fn fits(&self) -> (r: bool)
        ensures
            r == self.is_bounded(),
    {
        let limit: u64 = self.sample_count as u64 * 1_000_000;
        self.positive_count <= self.sample_count && self.probability_sum_ppm <= limit
            && self.brier_sum_ppm <= limit
    }
}

/// How well forecasts did.
#[derive(Clone, Copy, Debug, PartialEq, Eq)]
pub struct ForecastScore {
    pub sample_count: u32,
    pub mean_brier_ppm: u32,
    pub bins: [ForecastCalibrationBin; FORECAST_CALIBRATION_BIN_COUNT],
}

impl ToJson for ForecastScore {
    open spec fn json(&self) -> JsonTree {
        let m = no_members();
        let m = m.insert("sample_count"@, self.sample_count.json());
        let m = m.insert("mean_brier_ppm"@, self.mean_brier_ppm.json());
        let m = m.insert("bins"@, self.bins.json());
        JsonTree::Object(m)
    }

    fn to_json(&self) -> (r: serde_json::Value) {
        let mut members = json_new_object();
        json_insert(&mut members, "sample_count", self.sample_count.to_json());
        json_insert(&mut members, "mean_brier_ppm", self.mean_brier_ppm.to_json());
        json_insert(&mut members, "bins", self.bins.to_json());
        json_object(members)
    }
}

/// The samples of the first `n` bins.
pub open spec fn binned_samples(bins: Seq<ForecastCalibrationBin>, n: nat) -> int
    decreases n,
{
    if n == 0 {
        0
    } else {
        binned_samples(bins, (n - 1) as nat) + bins[n - 1].sample_count
    }
}

impl ForecastScore {
    /// Every sample is in a bin, and every number is within its bounds.
    pub open spec fn is_consistent(&self) -> bool {
        &&& self.sample_count > 0
        &&& binned_samples(self.bins@, 10) == self.sample_count
        &&& self.mean_brier_ppm <= 1_000_000
        &&& forall|i: int| 0 <= i < 10 ==> (#[trigger] self.bins@[i]).is_bounded()
    }

    pub open spec fn verdict(&self) -> Verdict {
        demand(self.is_consistent(), budget("forecast_score"@))
    }

    pub fn validate(&self) -> (r: Result<(), DomainError>)
        ensures
            outcome(r) == self.verdict(),
    {
        let mut total: u64 = 0;
        let mut bounded = true;
        let mut i: usize = 0;
        while i < 10
            invariant
                i <= 10,
                self.bins@.len() == 10,
                total == binned_samples(self.bins@, i as nat),
                total <= i * 0xffff_ffff,
                bounded == forall|j: int| 0 <= j < i ==> (#[trigger] self.bins@[j]).is_bounded(),
            decreases 10 - i,
        {
            let bin = self.bins[i];
            if !bin.fits() {
                proof {
                    assert(!self.bins@[i as int].is_bounded());
                }
                bounded = false;
            }
            total = total + bin.sample_count as u64;
            i += 1;
        }
        if self.sample_count == 0 || total != self.sample_count as u64 || self.mean_brier_ppm
            > 1_000_000 || !bounded {
            return Err(invalid_budget("forecast_score"));
        }
        Ok(())
    }
}

/// How well probabilities were calibrated.
#[derive(Clone, Copy, Debug, PartialEq, Eq, Structural)]
pub struct CalibrationReport {
    pub sample_count: u64,
    pub mean_brier_ppm: u32,
    pub expected_calibration_error_ppm: u32,
}

impl ToJson for CalibrationReport {
    open spec fn json(&self) -> JsonTree {
        let m = no_members();
        let m = m.insert("sample_count"@, self.sample_count.json());
        let m = m.insert("mean_brier_ppm"@, self.mean_brier_ppm.json());
        let m = m.insert(
            "expected_calibration_error_ppm"@,
            self.expected_calibration_error_ppm.json(),
        );
        JsonTree::Object(m)
    }

    fn to_json(&self) -> (r: serde_json::Value) {
        let mut members = json_new_object();
        json_insert(&mut members, "sample_count", self.sample_count.to_json());
        json_insert(&mut members, "mean_brier_ppm", self.mean_brier_ppm.to_json());
        json_insert(
            &mut members,
            "expected_calibration_error_ppm",
            self.expected_calibration_error_ppm.to_json(),
        );
        json_object(members)
    }
}

impl CalibrationReport {
    pub open spec fn verdict(&self) -> Verdict {
        demand(
            self.sample_count > 0 && self.mean_brier_ppm <= 1_000_000
                && self.expected_calibration_error_ppm <= 1_000_000,
            budget("calibration_report"@),
        )
    }

    pub fn validate(&self) -> (r: Result<(), DomainError>)
        ensures
            outcome(r) == self.verdict(),
    {
        if self.sample_count == 0 || self.mean_brier_ppm > 1_000_000
            || self.expected_calibration_error_ppm > 1_000_000 {
            return Err(invalid_budget("calibration_report"));
        }
        Ok(())
    }
}

/// A share of things that were counted.
#[derive(Clone, Copy, Debug, PartialEq, Eq, Structural)]
pub struct CountedRatio {
    pub expected_count: u64,
    pub observed_count: u64,
    pub ratio_ppm: u32,
    pub lower_confidence_ppm: Option<u32>,
}

impl ToJson for CountedRatio {
    open spec fn json(&self) -> JsonTree {
        let m = no_members();
        let m = m.insert("expected_count"@, self.expected_count.json());
        let m = m.insert("observed_count"@, self.observed_count.json());
        let m = m.insert("ratio_ppm"@, self.ratio_ppm.json());
        let m = m.insert("lower_confidence_ppm"@, self.lower_confidence_ppm.json());
        JsonTree::Object(m)
    }

    fn to_json(&self) -> (r: serde_json::Value) {
        let mut members = json_new_object();
        json_insert(&mut members, "expected_count", self.expected_count.to_json());
        json_insert(&mut members, "observed_count", self.observed_count.to_json());
        json_insert(&mut members, "ratio_ppm", self.ratio_ppm.to_json());
        json_insert(&mut members, "lower_confidence_ppm", self.lower_confidence_ppm.to_json());
        json_object(members)
    }
}

impl CountedRatio {
    pub open spec fn verdict(&self) -> Verdict {
        demand(
            0 < self.expected_count && self.observed_count <= self.expected_count && self.ratio_ppm
                <= 1_000_000 && (self.lower_confidence_ppm matches Some(lower) ==> lower
                <= self.ratio_ppm),
            budget("counted_ratio"@),
        )
    }

    pub fn validate(&self) -> (r: Result<(), DomainError>)
        ensures
            outcome(r) == self.verdict(),
    {
        let above = match self.lower_confidence_ppm {
            Some(lower) => lower > self.ratio_ppm,
            None => false,
        };
        if self.expected_count == 0 || self.observed_count > self.expected_count || self.ratio_ppm
            > 1_000_000 || above {
            return Err(invalid_budget("counted_ratio"));
        }
        Ok(())
    }
}

/// The values of a portfolio and of its benchmark after a session.
#[derive(Clone, Copy, Debug, PartialEq, Eq, Structural)]
pub struct OutcomeNavPoint {
    pub observed_trading_day: CalendarDay,
    pub portfolio_nav_ppm: i64,
    pub benchmark_nav_ppm: i64,
    pub portfolio_daily_return_ppm: i64,
    pub benchmark_daily_return_ppm: i64,
}

impl OutcomeNavPoint {
    pub open spec fn verdict(&self) -> Verdict {
        demand(
            self.portfolio_nav_ppm > 0 && self.benchmark_nav_ppm > 0,
            budget("outcome_nav_point"@),
        )
    }

    pub fn validate(&self) -> (r: Result<(), DomainError>)
        ensures
            outcome(r) == self.verdict(),
    {
        if self.portfolio_nav_ppm <= 0 || self.benchmark_nav_ppm <= 0 {
            return Err(invalid_budget("outcome_nav_point"));
        }
        Ok(())
    }
}

/// The version of the benchmark definitions. A definition never changes under its version.
pub const OUTCOME_BENCHMARK_DEFINITION_VERSION: u32 = 1;

/// What an outcome is compared with.
#[derive(Clone, Copy, Debug, PartialEq, Eq, PartialOrd, Ord, Hash, Structural)]
pub enum OutcomeBenchmark {
    Cash,
    Qqq,
    Soxx,
    FourAssetEqualWeight,
    BetaMatchedQqq,
    VolatilityTargetedQqq,
    NoLlmDeterministic,
}

impl OutcomeBenchmark {
    /// The name of the variant in JSON.
    pub open spec fn wire(self) -> Seq<char> {
        match self {
            OutcomeBenchmark::Cash => "cash"@,
            OutcomeBenchmark::Qqq => "qqq"@,
            OutcomeBenchmark::Soxx => "soxx"@,
            OutcomeBenchmark::FourAssetEqualWeight => "four_asset_equal_weight"@,
            OutcomeBenchmark::BetaMatchedQqq => "beta_matched_qqq"@,
            OutcomeBenchmark::VolatilityTargetedQqq => "volatility_targeted_qqq"@,
            OutcomeBenchmark::NoLlmDeterministic => "no_llm_deterministic"@,
        }
    }

    /// The name of the variant in JSON.
    pub fn wire_name(self) -> (r: &'static str)
        ensures
            r@ == self.wire(),
    {
        match self {
            OutcomeBenchmark::Cash => "cash",
            OutcomeBenchmark::Qqq => "qqq",
            OutcomeBenchmark::Soxx => "soxx",
            OutcomeBenchmark::FourAssetEqualWeight => "four_asset_equal_weight",
            OutcomeBenchmark::BetaMatchedQqq => "beta_matched_qqq",
            OutcomeBenchmark::VolatilityTargetedQqq => "volatility_targeted_qqq",
            OutcomeBenchmark::NoLlmDeterministic => "no_llm_deterministic",
        }
    }
}

impl ToJson for OutcomeBenchmark {
    open spec fn json(&self) -> JsonTree {
        JsonTree::Text(self.wire())
    }

    fn to_json(&self) -> (r: serde_json::Value) {
        json_text(self.wire_name())
    }
}

impl View for OutcomeBenchmark {
    type V = OutcomeBenchmark;

    open spec fn view(&self) -> OutcomeBenchmark {
        *self
    }
}

impl OutcomeBenchmark {
    /// Where the variant stands in the order.
    pub open spec fn place(self) -> u32 {
        match self {
            OutcomeBenchmark::Cash => 0,
            OutcomeBenchmark::Qqq => 1,
            OutcomeBenchmark::Soxx => 2,
            OutcomeBenchmark::FourAssetEqualWeight => 3,
            OutcomeBenchmark::BetaMatchedQqq => 4,
            OutcomeBenchmark::VolatilityTargetedQqq => 5,
            OutcomeBenchmark::NoLlmDeterministic => 6,
        }
    }

    pub(crate) fn place_number(self) -> (r: u32)
        ensures
            r == self.place(),
    {
        match self {
            OutcomeBenchmark::Cash => 0,
            OutcomeBenchmark::Qqq => 1,
            OutcomeBenchmark::Soxx => 2,
            OutcomeBenchmark::FourAssetEqualWeight => 3,
            OutcomeBenchmark::BetaMatchedQqq => 4,
            OutcomeBenchmark::VolatilityTargetedQqq => 5,
            OutcomeBenchmark::NoLlmDeterministic => 6,
        }
    }
}

impl Key for OutcomeBenchmark {
    open spec fn code(key: OutcomeBenchmark) -> Seq<int> {
        seq![key.place() as int]
    }

    proof fn code_is_injective(a: OutcomeBenchmark, b: OutcomeBenchmark) {
        assert(Self::code(a)[0] == a.place() as int && Self::code(b)[0] == b.place() as int);
    }

    fn rank(&self, other: &Self) -> (r: Rank) {
        rank_numbers((*self).place_number(), (*other).place_number())
    }

    fn duplicate(&self) -> (r: Self) {
        *self
    }
}

impl JsonItem for OutcomeBenchmark {
    open spec fn item_json(key: OutcomeBenchmark) -> JsonTree {
        JsonTree::Text(key.wire())
    }

    fn to_item_json(&self) -> (r: serde_json::Value) {
        json_text((*self).wire_name())
    }
}

impl JsonKey for OutcomeBenchmark {
    open spec fn key_text(key: OutcomeBenchmark) -> Seq<char> {
        key.wire()
    }

    fn to_key_text(&self) -> (r: String) {
        (*self).wire_name().to_owned()
    }
}

/// The weights of a portfolio that is bought once and held.
pub open spec fn held_weights_json(tqqq: int, qqq: int, soxx: int, soxl: int) -> JsonTree {
    JsonTree::Object(
        no_members().insert("TQQQ"@, JsonTree::Number(tqqq)).insert(
            "QQQ"@,
            JsonTree::Number(qqq),
        ).insert("SOXX"@, JsonTree::Number(soxx)).insert("SOXL"@, JsonTree::Number(soxl)),
    )
}

/// The definition of a portfolio that is bought once and held.
pub open spec fn held_json(method: Seq<char>, weights: JsonTree) -> JsonTree {
    JsonTree::Object(
        no_members().insert("method"@, JsonTree::Text(method)).insert("weights_ppm"@, weights),
    )
}

/// The definition of a portfolio that follows QQQ at a scale.
pub open spec fn scaled_json(method: Seq<char>, minimum_samples: int) -> JsonTree {
    JsonTree::Object(
        no_members().insert("method"@, JsonTree::Text(method)).insert(
            "reference"@,
            JsonTree::Text("QQQ"@),
        ).insert("minimum_samples"@, JsonTree::Number(minimum_samples)).insert(
            "portfolio_path"@,
            JsonTree::Text("gross_governed_pit_nav"@),
        ),
    )
}

fn held_weights_value(tqqq: u64, qqq: u64, soxx: u64, soxl: u64) -> (r: serde_json::Value)
    ensures
        json_content(r) == held_weights_json(tqqq as int, qqq as int, soxx as int, soxl as int),
{
    let mut members = json_new_object();
    json_insert(&mut members, "TQQQ", json_unsigned(tqqq));
    json_insert(&mut members, "QQQ", json_unsigned(qqq));
    json_insert(&mut members, "SOXX", json_unsigned(soxx));
    json_insert(&mut members, "SOXL", json_unsigned(soxl));
    json_object(members)
}

fn held_value(method: &str, weights: serde_json::Value) -> (r: serde_json::Value)
    ensures
        json_content(r) == held_json(method@, json_content(weights)),
{
    let mut members = json_new_object();
    json_insert(&mut members, "method", json_text(method));
    json_insert(&mut members, "weights_ppm", weights);
    json_object(members)
}

fn scaled_value(method: &str, minimum_samples: u32) -> (r: serde_json::Value)
    ensures
        json_content(r) == scaled_json(method@, minimum_samples as int),
{
    let mut members = json_new_object();
    json_insert(&mut members, "method", json_text(method));
    json_insert(&mut members, "reference", json_text("QQQ"));
    json_insert(&mut members, "minimum_samples", json_unsigned(minimum_samples as u64));
    json_insert(&mut members, "portfolio_path", json_text("gross_governed_pit_nav"));
    json_object(members)
}

impl OutcomeBenchmark {
    pub const ALL: [OutcomeBenchmark; 7] = [
        OutcomeBenchmark::Cash,
        OutcomeBenchmark::Qqq,
        OutcomeBenchmark::Soxx,
        OutcomeBenchmark::FourAssetEqualWeight,
        OutcomeBenchmark::BetaMatchedQqq,
        OutcomeBenchmark::VolatilityTargetedQqq,
        OutcomeBenchmark::NoLlmDeterministic,
    ];

    pub fn name(self) -> (r: &'static str)
        ensures
            r@ == self.wire(),
    {
        self.wire_name()
    }

    /// Whether the benchmark is scaled to the portfolio.
    pub open spec fn is_scaled(self) -> bool {
        self is BetaMatchedQqq || self is VolatilityTargetedQqq
    }

    pub open spec fn least_samples(self) -> u32 {
        if self.is_scaled() {
            5
        } else {
            1
        }
    }

    /// The fewest samples that the benchmark can be derived from.
    pub fn minimum_samples(self) -> (r: u32)
        ensures
            r == self.least_samples(),
    {
        match self {
            OutcomeBenchmark::BetaMatchedQqq | OutcomeBenchmark::VolatilityTargetedQqq => 5,
            _ => 1,
        }
    }

    pub open spec fn definition_json(self) -> JsonTree {
        match self {
            OutcomeBenchmark::Cash => held_json(
                "constant_cash_nav"@,
                held_weights_json(0, 0, 0, 0),
            ),
            OutcomeBenchmark::Qqq => held_json(
                "static_buy_and_hold"@,
                held_weights_json(0, 1_000_000, 0, 0),
            ),
            OutcomeBenchmark::Soxx => held_json(
                "static_buy_and_hold"@,
                held_weights_json(0, 0, 1_000_000, 0),
            ),
            OutcomeBenchmark::FourAssetEqualWeight => held_json(
                "static_buy_and_hold"@,
                held_weights_json(250_000, 250_000, 250_000, 250_000),
            ),
            OutcomeBenchmark::BetaMatchedQqq => scaled_json("ols_beta_scaled_qqq_daily_path"@, 5),
            OutcomeBenchmark::VolatilityTargetedQqq => scaled_json(
                "sample_volatility_scaled_qqq_daily_path"@,
                5,
            ),
            OutcomeBenchmark::NoLlmDeterministic => held_json(
                "static_buy_and_hold_no_llm_v1"@,
                held_weights_json(0, 500_000, 500_000, 0),
            ),
        }
    }

    /// The digest of the definition.
    pub open spec fn definition_digest(self) -> Seq<char> {
        let m = no_members();
        let m = m.insert("schema"@, JsonTree::Text("akzio.outcome_benchmark_definition"@));
        let m = m.insert("version"@, OUTCOME_BENCHMARK_DEFINITION_VERSION.json());
        let m = m.insert("name"@, JsonTree::Text(self.wire()));
        let m = m.insert("cost_assumption_ppm"@, JsonTree::Number(0));
        let m = m.insert("definition"@, self.definition_json());
        json_digest(JsonTree::Object(m))
    }

    pub fn definition_hash(self) -> (r: Result<ContentHash, DomainError>)
        ensures
            r is Ok,
            r->Ok_0@ == self.definition_digest(),
    {
        let definition = match self {
            OutcomeBenchmark::Cash => held_value(
                "constant_cash_nav",
                held_weights_value(0, 0, 0, 0),
            ),
            OutcomeBenchmark::Qqq => held_value(
                "static_buy_and_hold",
                held_weights_value(0, 1_000_000, 0, 0),
            ),
            OutcomeBenchmark::Soxx => held_value(
                "static_buy_and_hold",
                held_weights_value(0, 0, 1_000_000, 0),
            ),
            OutcomeBenchmark::FourAssetEqualWeight => held_value(
                "static_buy_and_hold",
                held_weights_value(250_000, 250_000, 250_000, 250_000),
            ),
            OutcomeBenchmark::BetaMatchedQqq => scaled_value(
                "ols_beta_scaled_qqq_daily_path",
                self.minimum_samples(),
            ),
            OutcomeBenchmark::VolatilityTargetedQqq => scaled_value(
                "sample_volatility_scaled_qqq_daily_path",
                self.minimum_samples(),
            ),
            OutcomeBenchmark::NoLlmDeterministic => held_value(
                "static_buy_and_hold_no_llm_v1",
                held_weights_value(0, 500_000, 500_000, 0),
            ),
        };
        let version: u32 = OUTCOME_BENCHMARK_DEFINITION_VERSION;
        let mut members = json_new_object();
        json_insert(&mut members, "schema", json_text("akzio.outcome_benchmark_definition"));
        json_insert(&mut members, "version", version.to_json());
        json_insert(&mut members, "name", json_text(self.name()));
        json_insert(&mut members, "cost_assumption_ppm", json_unsigned(0));
        json_insert(&mut members, "definition", definition);
        Ok(digest_of(&json_object(members)))
    }
}

/// The entry of a benchmark in the bundle of definitions.
pub open spec fn bundle_entry(benchmark: OutcomeBenchmark) -> JsonTree {
    JsonTree::Object(
        no_members().insert("name"@, JsonTree::Text(benchmark.wire())).insert(
            "definition_hash"@,
            JsonTree::Text(benchmark.definition_digest()),
        ),
    )
}

/// The digest of all definitions.
pub open spec fn bundle_digest() -> Seq<char> {
    let entries = seq![
        bundle_entry(OutcomeBenchmark::Cash),
        bundle_entry(OutcomeBenchmark::Qqq),
        bundle_entry(OutcomeBenchmark::Soxx),
        bundle_entry(OutcomeBenchmark::FourAssetEqualWeight),
        bundle_entry(OutcomeBenchmark::BetaMatchedQqq),
        bundle_entry(OutcomeBenchmark::VolatilityTargetedQqq),
        bundle_entry(OutcomeBenchmark::NoLlmDeterministic),
    ];
    let m = no_members();
    let m = m.insert("schema"@, JsonTree::Text("akzio.outcome_benchmark_definition_bundle"@));
    let m = m.insert("version"@, OUTCOME_BENCHMARK_DEFINITION_VERSION.json());
    let m = m.insert("definitions"@, JsonTree::List(entries));
    json_digest(JsonTree::Object(m))
}

fn bundle_value(benchmark: OutcomeBenchmark) -> (r: Result<serde_json::Value, DomainError>)
    ensures
        r is Ok,
        json_content(r->Ok_0) == bundle_entry(benchmark),
{
    let hash = benchmark.definition_hash()?;
    let mut members = json_new_object();
    json_insert(&mut members, "name", json_text(benchmark.name()));
    json_insert(&mut members, "definition_hash", hash.to_json());
    Ok(json_object(members))
}

pub fn outcome_benchmark_definition_bundle_hash() -> (r: Result<ContentHash, DomainError>)
    ensures
        r is Ok,
        r->Ok_0@ == bundle_digest(),
{
    let mut entries: Vec<serde_json::Value> = Vec::new();
    entries.push(bundle_value(OutcomeBenchmark::Cash)?);
    entries.push(bundle_value(OutcomeBenchmark::Qqq)?);
    entries.push(bundle_value(OutcomeBenchmark::Soxx)?);
    entries.push(bundle_value(OutcomeBenchmark::FourAssetEqualWeight)?);
    entries.push(bundle_value(OutcomeBenchmark::BetaMatchedQqq)?);
    entries.push(bundle_value(OutcomeBenchmark::VolatilityTargetedQqq)?);
    entries.push(bundle_value(OutcomeBenchmark::NoLlmDeterministic)?);
    proof {
        assert(json_contents(entries@) =~= seq![
            bundle_entry(OutcomeBenchmark::Cash),
            bundle_entry(OutcomeBenchmark::Qqq),
            bundle_entry(OutcomeBenchmark::Soxx),
            bundle_entry(OutcomeBenchmark::FourAssetEqualWeight),
            bundle_entry(OutcomeBenchmark::BetaMatchedQqq),
            bundle_entry(OutcomeBenchmark::VolatilityTargetedQqq),
            bundle_entry(OutcomeBenchmark::NoLlmDeterministic),
        ]);
    }
    let version: u32 = OUTCOME_BENCHMARK_DEFINITION_VERSION;
    let mut members = json_new_object();
    json_insert(&mut members, "schema", json_text("akzio.outcome_benchmark_definition_bundle"));
    json_insert(&mut members, "version", version.to_json());
    json_insert(&mut members, "definitions", json_list(entries));
    Ok(digest_of(&json_object(members)))
}

/// Why there is no benchmark.
#[derive(Clone, Copy, Debug, PartialEq, Eq, PartialOrd, Ord, Hash, Structural)]
pub enum OutcomeBenchmarkUnavailableReason {
    InsufficientGovernedSamples,
    MissingObservedHorizonPath,
    DegenerateReferencePath,
    NonPositiveDerivedNav,
}

/// The value of a benchmark after a session.
#[derive(Clone, Copy, Debug, PartialEq, Eq, Structural)]
pub struct OutcomeBenchmarkNavPoint {
    pub observed_trading_day: CalendarDay,
    pub nav_ppm: i64,
    pub daily_return_ppm: i64,
}

impl OutcomeBenchmarkNavPoint {
    pub open spec fn verdict(&self) -> Verdict {
        demand(self.nav_ppm > 0, budget("outcome_benchmark_nav_point"@))
    }

    pub fn validate(&self) -> (r: Result<(), DomainError>)
        ensures
            outcome(r) == self.verdict(),
    {
        if self.nav_ppm <= 0 {
            return Err(invalid_budget("outcome_benchmark_nav_point"));
        }
        Ok(())
    }
}

/// How a benchmark did, or why that is not known.
#[derive(Debug, Clone, PartialEq, Eq)]
pub enum OutcomeBenchmarkResult {
    Available {
        benchmark_return_ppm: i64,
        active_return_ppm: i64,
        scale_ppm: Option<i64>,
        nav_path: Vec<OutcomeBenchmarkNavPoint>,
    },
    Unavailable {
        reason: OutcomeBenchmarkUnavailableReason,
        observed_samples: u32,
        required_samples: u32,
    },
}

/// An outcome compared with a benchmark.
#[derive(Debug, Clone, PartialEq, Eq)]
pub struct OutcomeBenchmarkAttribution {
    pub benchmark: OutcomeBenchmark,
    pub definition_version: u32,
    pub definition_hash: ContentHash,
    pub result: OutcomeBenchmarkResult,
}

/// The check of one value of a benchmark: valid, and after the one before it.
pub open spec fn benchmark_path_checks(path: Seq<OutcomeBenchmarkNavPoint>) -> spec_fn(
    int,
) -> Verdict {
    |i: int|
        first(
            path[i].verdict(),
            demand(
                i > 0 ==> path[i - 1].observed_trading_day.day()
                    < path[i].observed_trading_day.day(),
                budget("outcome_benchmark_attribution.nav_path"@),
            ),
        )
}

fn validate_benchmark_path(path: &Vec<OutcomeBenchmarkNavPoint>) -> (r: Result<(), DomainError>)
    ensures
        outcome(r) == first_fault(path@.len(), benchmark_path_checks(path@)),
{
    let ghost checks = benchmark_path_checks(path@);
    let mut n: usize = 0;
    while n < path.len()
        invariant
            n <= path.len(),
            checks == benchmark_path_checks(path@),
            first_fault(n as nat, checks) == Verdict::Ok(()),
        decreases path.len() - n,
    {
        let valid = path[n].validate();
        proof {
            assert(first_fault((n + 1) as nat, checks) == checks(n as int));
            if checks(n as int) is Err {
                first_fault_stays((n + 1) as nat, path@.len(), checks);
            }
        }
        valid?;
        if n > 0 && !path[n - 1].observed_trading_day.is_before(&path[n].observed_trading_day) {
            return Err(invalid_budget("outcome_benchmark_attribution.nav_path"));
        }
        n += 1;
    }
    Ok(())
}

pub open spec fn larger(a: u32, b: u32) -> u32 {
    if a >= b {
        a
    } else {
        b
    }
}

fn larger_of(a: u32, b: u32) -> (r: u32)
    ensures
        r == larger(a, b),
{
    if a >= b {
        a
    } else {
        b
    }
}

impl OutcomeBenchmarkAttribution {
    /// The result is a path that is long enough and ends at the stated return, or a reason
    /// why there is none.
    pub open spec fn result_verdict(&self, net_return_ppm: int, required: u32) -> Verdict {
        match self.result {
            OutcomeBenchmarkResult::Available {
                benchmark_return_ppm,
                active_return_ppm,
                scale_ppm,
                nav_path,
            } => {
                let path = first_fault(nav_path@.len(), benchmark_path_checks(nav_path@));
                if nav_path@.len() < required || nav_path@.len() == 0
                    || self.benchmark.is_scaled() != (scale_ppm is Some) || (
                scale_ppm matches Some(scale) && scale <= 0) {
                    Err(budget("outcome_benchmark_attribution"@))
                } else if path is Err {
                    path
                } else {
                    demand(
                        nav_path@.last().nav_ppm - 1_000_000 == benchmark_return_ppm
                            && net_return_ppm - benchmark_return_ppm == active_return_ppm,
                        budget("outcome_benchmark_attribution.return"@),
                    )
                }
            },
            OutcomeBenchmarkResult::Unavailable { reason, observed_samples, required_samples } => {
                demand(
                    required_samples == larger(self.benchmark.least_samples(), required) && (
                    reason is InsufficientGovernedSamples ==> observed_samples < required_samples),
                    budget("outcome_benchmark_attribution.unavailable"@),
                )
            },
        }
    }

    pub open spec fn verdict(&self, net_return_ppm: int, required: u32) -> Verdict {
        first(
            demand(
                self.definition_version == OUTCOME_BENCHMARK_DEFINITION_VERSION
                    && self.definition_hash@ == self.benchmark.definition_digest(),
                ErrorView::InvalidContentHash,
            ),
            self.result_verdict(net_return_ppm, required),
        )
    }

    pub fn validate(
        &self,
        portfolio_net_return_ppm: i64,
        window_required_samples: u32,
    ) -> (r: Result<(), DomainError>)
        ensures
            outcome(r) == self.verdict(portfolio_net_return_ppm as int, window_required_samples),
    {
        let definition = self.benchmark.definition_hash()?;
        if self.definition_version != OUTCOME_BENCHMARK_DEFINITION_VERSION
            || !self.definition_hash.same(&definition) {
            return Err(DomainError::InvalidContentHash);
        }
        match &self.result {
            OutcomeBenchmarkResult::Available {
                benchmark_return_ppm,
                active_return_ppm,
                scale_ppm,
                nav_path,
            } => {
                let scaled = matches!(
                    self.benchmark,
                    OutcomeBenchmark::BetaMatchedQqq | OutcomeBenchmark::VolatilityTargetedQqq
                );
                let bad_scale = match scale_ppm {
                    Some(scale) => *scale <= 0,
                    None => false,
                };
                if (nav_path.len() as u64) < window_required_samples as u64 || nav_path.len() == 0
                    || scaled != scale_ppm.is_some() || bad_scale {
                    return Err(invalid_budget("outcome_benchmark_attribution"));
                }
                validate_benchmark_path(nav_path)?;
                let final_nav: i128 = nav_path[nav_path.len() - 1].nav_ppm as i128;
                if final_nav - 1_000_000 != *benchmark_return_ppm as i128
                    || portfolio_net_return_ppm as i128 - *benchmark_return_ppm as i128
                    != *active_return_ppm as i128 {
                    return Err(invalid_budget("outcome_benchmark_attribution.return"));
                }
            },
            OutcomeBenchmarkResult::Unavailable { reason, observed_samples, required_samples } => {
                if *required_samples != larger_of(
                    self.benchmark.minimum_samples(),
                    window_required_samples,
                ) || (*reason == OutcomeBenchmarkUnavailableReason::InsufficientGovernedSamples
                    && *observed_samples >= *required_samples) {
                    return Err(invalid_budget("outcome_benchmark_attribution.unavailable"));
                }
            },
        }
        Ok(())
    }
}

/// What the execution of an order cost, as far as that could be observed.
#[derive(Clone, Copy, Debug, PartialEq, Eq, Structural)]
pub struct OutcomeOrderCostAttribution {
    pub asset: Asset,
    pub side: OrderSide,
    pub filled_quantity_micros: i64,
    pub unfilled_quantity_micros: i64,
    pub limit_price: MoneyMicros,
    pub decision_mid: Option<MoneyMicros>,
    pub arrival_mid: Option<MoneyMicros>,
    pub baseline_mid: Option<MoneyMicros>,
    pub baseline_to_fill_effect: Option<MoneyMicros>,
    pub fill_vwap: Option<MoneyMicros>,
    pub limit_shortfall: Option<MoneyMicros>,
    pub spread_cost: Option<MoneyMicros>,
    pub market_impact: Option<MoneyMicros>,
    pub unfilled_opportunity_cost: Option<MoneyMicros>,
}

pub open spec fn price_fits(price: Option<MoneyMicros>) -> bool {
    price matches Some(p) ==> p.0 > 0
}

pub open spec fn cost_fits(cost: Option<MoneyMicros>) -> bool {
    cost matches Some(c) ==> c.0 >= 0
}

fn price_is_valid(price: Option<MoneyMicros>) -> (r: bool)
    ensures
        r == price_fits(price),
{
    match price {
        Some(p) => p.0 > 0,
        None => true,
    }
}

fn cost_is_valid(cost: Option<MoneyMicros>) -> (r: bool)
    ensures
        r == cost_fits(cost),
{
    match cost {
        Some(c) => c.0 >= 0,
        None => true,
    }
}

impl OutcomeOrderCostAttribution {
    /// Some quantity was ordered; prices are positive, costs are not negative, and what was
    /// filled, and only that, has its price and its shortfall.
    pub open spec fn is_consistent(&self) -> bool {
        &&& self.filled_quantity_micros >= 0
        &&& self.unfilled_quantity_micros >= 0
        &&& 0 < self.filled_quantity_micros + self.unfilled_quantity_micros <= i64::MAX
        &&& self.limit_price.0 > 0
        &&& price_fits(self.decision_mid)
        &&& price_fits(self.arrival_mid)
        &&& price_fits(self.baseline_mid)
        &&& price_fits(self.fill_vwap)
        &&& cost_fits(self.limit_shortfall)
        &&& cost_fits(self.spread_cost)
        &&& cost_fits(self.market_impact)
        &&& cost_fits(self.unfilled_opportunity_cost)
        &&& (self.fill_vwap is Some) == (self.filled_quantity_micros > 0)
        &&& (self.limit_shortfall is Some) == (self.filled_quantity_micros > 0)
    }

    pub open spec fn verdict(&self) -> Verdict {
        demand(self.is_consistent(), budget("outcome_order_cost_attribution"@))
    }

    pub fn validate(&self) -> (r: Result<(), DomainError>)
        ensures
            outcome(r) == self.verdict(),
    {
        let ordered = match self.filled_quantity_micros.checked_add(self.unfilled_quantity_micros) {
            Some(quantity) => quantity > 0,
            None => false,
        };
        if self.filled_quantity_micros < 0 || self.unfilled_quantity_micros < 0 || !ordered
            || self.limit_price.0 <= 0 || !price_is_valid(self.decision_mid) || !price_is_valid(
            self.arrival_mid,
        ) || !price_is_valid(self.baseline_mid) || !price_is_valid(self.fill_vwap)
            || !cost_is_valid(self.limit_shortfall) || !cost_is_valid(self.spread_cost)
            || !cost_is_valid(self.market_impact) || !cost_is_valid(self.unfilled_opportunity_cost)
            || self.fill_vwap.is_some() != (self.filled_quantity_micros > 0)
            || self.limit_shortfall.is_some() != (self.filled_quantity_micros > 0) {
            return Err(invalid_budget("outcome_order_cost_attribution"));
        }
        Ok(())
    }
}

impl Checked for OutcomeOrderCostAttribution {
    open spec fn judged(&self) -> Verdict {
        self.verdict()
    }

    fn check(&self) -> (r: Result<(), DomainError>) {
        self.validate()
    }
}

/// An outcome over one horizon. The portfolio's return is that of prices alone, before its
/// implementation and its fees.
#[derive(Debug, Clone, PartialEq, Eq)]
pub struct OutcomeWindow {
    pub horizon: OutcomeHorizon,
    pub observed_trading_day: CalendarDay,
    pub portfolio_return_ppm: i64,
    pub implementation_effect_ppm: Option<i64>,
    pub initial_valuation_effect_ppm: Option<i64>,
    pub benchmark_return_ppm: i64,
    pub transaction_cost_ppm: u32,
    pub slippage_ppm: u32,
    pub utility_ppm: i64,
    pub calibration_ppm: Option<u32>,
    pub forecast_score: Option<ForecastScore>,
    pub evidence_completeness_ppm: Option<u32>,
    pub risk_recall_ppm: Option<u32>,
    pub evidence_counts: Option<CountedRatio>,
    pub risk_recall_counts: Option<CountedRatio>,
    pub risk_ground_truth: Option<ArtifactRef>,
    pub turnover_ppm: Option<u32>,
    pub maximum_drawdown_ppm: Option<u32>,
    pub tracking_error_ppm: Option<u32>,
    pub beta_ppm: Option<i64>,
    pub expected_shortfall_ppm: Option<u32>,
    pub sortino_ratio_ppm: Option<i64>,
    pub nav_path: Vec<OutcomeNavPoint>,
    pub benchmark_attributions: Vec<OutcomeBenchmarkAttribution>,
    pub order_cost_attributions: Vec<OutcomeOrderCostAttribution>,
}

fn share_is_valid(value: Option<u32>) -> (r: bool)
    ensures
        r == share_fits(value),
{
    match value {
        Some(ppm) => ppm <= 1_000_000,
        None => true,
    }
}

/// A ratio is at most a limit away from zero.
pub open spec fn ratio_fits(value: Option<i64>, limit: int) -> bool {
    value matches Some(ratio) ==> -limit <= ratio <= limit
}

fn ratio_is_valid(value: Option<i64>, limit: i64) -> (r: bool)
    requires
        0 <= limit,
    ensures
        r == ratio_fits(value, limit as int),
{
    match value {
        Some(ratio) => -limit <= ratio && ratio <= limit,
        None => true,
    }
}

/// Counts that are valid and agree with the share that is stated.
pub open spec fn counts_verdict(
    counts: Option<CountedRatio>,
    stated: Option<u32>,
    field: Seq<char>,
) -> Verdict {
    match counts {
        Some(counted) => first(
            counted.verdict(),
            demand(stated == Some(counted.ratio_ppm), budget(field)),
        ),
        None => Ok(()),
    }
}

fn validate_counts(
    counts: &Option<CountedRatio>,
    stated: Option<u32>,
    field: &'static str,
) -> (r: Result<(), DomainError>)
    ensures
        outcome(r) == counts_verdict(*counts, stated, field@),
{
    if let Some(counted) = counts {
        counted.validate()?;
        let agrees = match stated {
            Some(ppm) => ppm == counted.ratio_ppm,
            None => false,
        };
        if !agrees {
            return Err(invalid_budget(field));
        }
    }
    Ok(())
}

/// The check of one value of a portfolio: valid, and after the one before it.
pub open spec fn path_checks(path: Seq<OutcomeNavPoint>) -> spec_fn(int) -> Verdict {
    |i: int|
        first(
            path[i].verdict(),
            demand(
                i > 0 ==> path[i - 1].observed_trading_day.day()
                    < path[i].observed_trading_day.day(),
                budget("outcome_window.nav_path"@),
            ),
        )
}

fn validate_path(path: &Vec<OutcomeNavPoint>) -> (r: Result<(), DomainError>)
    ensures
        outcome(r) == first_fault(path@.len(), path_checks(path@)),
{
    let ghost checks = path_checks(path@);
    let mut n: usize = 0;
    while n < path.len()
        invariant
            n <= path.len(),
            checks == path_checks(path@),
            first_fault(n as nat, checks) == Verdict::Ok(()),
        decreases path.len() - n,
    {
        let valid = path[n].validate();
        proof {
            assert(first_fault((n + 1) as nat, checks) == checks(n as int));
            if checks(n as int) is Err {
                first_fault_stays((n + 1) as nat, path@.len(), checks);
            }
        }
        valid?;
        if n > 0 && !path[n - 1].observed_trading_day.is_before(&path[n].observed_trading_day) {
            return Err(invalid_budget("outcome_window.nav_path"));
        }
        n += 1;
    }
    Ok(())
}

/// What an `i64` can hold.
pub open spec fn fits_i64(x: int) -> bool {
    i64::MIN <= x <= i64::MAX
}

pub open spec fn or_zero(x: Option<i64>) -> int {
    match x {
        Some(value) => value as int,
        None => 0,
    }
}

/// The benchmarks of the attributions.
pub open spec fn compared_benchmarks(list: Seq<OutcomeBenchmarkAttribution>) -> Seq<
    OutcomeBenchmark,
> {
    list.map_values(|a: OutcomeBenchmarkAttribution| a.benchmark)
}

/// Every benchmark is compared with, and each once.
pub open spec fn compares_each_benchmark_once(list: Seq<OutcomeBenchmarkAttribution>) -> bool {
    &&& list.len() == 7
    &&& forall|b: OutcomeBenchmark| #[trigger] compared_benchmarks(list).contains(b)
}

fn benchmark_is_compared(
    list: &Vec<OutcomeBenchmarkAttribution>,
    benchmark: OutcomeBenchmark,
) -> (r: bool)
    ensures
        r == compared_benchmarks(list@).contains(benchmark),
{
    let ghost compared = compared_benchmarks(list@);
    let mut i: usize = 0;
    while i < list.len()
        invariant
            i <= list.len(),
            compared == compared_benchmarks(list@),
            forall|j: int| 0 <= j < i ==> compared[j] != benchmark,
        decreases list.len() - i,
    {
        if list[i].benchmark == benchmark {
            proof {
                assert(compared[i as int] == benchmark);
            }
            return true;
        }
        i += 1;
    }
    false
}

impl OutcomeWindow {
    pub open spec fn shares_fit(&self) -> bool {
        &&& share_fits(self.calibration_ppm)
        &&& share_fits(self.evidence_completeness_ppm)
        &&& share_fits(self.risk_recall_ppm)
        &&& self.transaction_cost_ppm <= 1_000_000
        &&& self.slippage_ppm <= 1_000_000
        &&& share_fits(self.turnover_ppm)
        &&& share_fits(self.maximum_drawdown_ppm)
        &&& share_fits(self.tracking_error_ppm)
        &&& share_fits(self.expected_shortfall_ppm)
    }

    /// Recall that was counted, and only that, names the assessment it was counted by.
    pub open spec fn ground_truth_is_bound(&self) -> bool {
        &&& (self.risk_recall_counts is Some) == (self.risk_ground_truth is Some)
        &&& self.risk_ground_truth matches Some(reference)
            ==> reference.kind is RiskGroundTruthAssessment
    }

    /// The return after all costs, where every step of its sum can be held.
    pub open spec fn net_return(&self) -> Option<int> {
        let a = self.portfolio_return_ppm + or_zero(self.implementation_effect_ppm);
        let b = a + or_zero(self.initial_valuation_effect_ppm);
        let c = b - self.transaction_cost_ppm;
        let d = c - self.slippage_ppm;
        if fits_i64(a) && fits_i64(b) && fits_i64(c) && fits_i64(d) {
            Some(d)
        } else {
            None
        }
    }

    /// The samples that a benchmark needs in this window.
    pub open spec fn samples_needed(&self, benchmark: OutcomeBenchmark) -> u32 {
        larger(benchmark.least_samples(), self.horizon.days() as u32)
    }

    pub open spec fn attribution_checks(&self) -> spec_fn(int) -> Verdict {
        |i: int|
            self.benchmark_attributions@[i].verdict(
                self.net_return()->0,
                self.samples_needed(self.benchmark_attributions@[i].benchmark),
            )
    }

    pub open spec fn benchmarks_verdict(&self) -> Verdict {
        if self.benchmark_attributions@.len() == 0 {
            Ok(())
        } else if !compares_each_benchmark_once(self.benchmark_attributions@)
            || self.net_return() is None {
            Err(budget("outcome_window.benchmark_attributions"@))
        } else {
            first_fault(self.benchmark_attributions@.len(), self.attribution_checks())
        }
    }

    pub open spec fn verdict(&self) -> Verdict {
        let evidence = counts_verdict(
            self.evidence_counts,
            self.evidence_completeness_ppm,
            "outcome_window.evidence_counts"@,
        );
        let recall = counts_verdict(
            self.risk_recall_counts,
            self.risk_recall_ppm,
            "outcome_window.risk_recall_counts"@,
        );
        let path = first_fault(self.nav_path@.len(), path_checks(self.nav_path@));
        if !self.shares_fit() {
            Err(budget("outcome_window.ppm"@))
        } else if !ratio_fits(self.beta_ppm, 10_000_000) || !ratio_fits(
            self.sortino_ratio_ppm,
            100_000_000,
        ) {
            Err(budget("outcome_window.ratio"@))
        } else if self.forecast_score matches Some(score) && score.verdict() is Err {
            self.forecast_score->0.verdict()
        } else if evidence is Err {
            evidence
        } else if recall is Err {
            recall
        } else if !self.ground_truth_is_bound() {
            Err(budget("outcome_window.risk_ground_truth"@))
        } else if path is Err {
            path
        } else if self.benchmarks_verdict() is Err {
            self.benchmarks_verdict()
        } else {
            list_verdict(self.order_cost_attributions@)
        }
    }

    fn has_each_benchmark_once(&self) -> (r: bool)
        ensures
            r == compares_each_benchmark_once(self.benchmark_attributions@),
    {
        let list = &self.benchmark_attributions;
        let all = list.len() == 7 && benchmark_is_compared(list, OutcomeBenchmark::Cash)
            && benchmark_is_compared(list, OutcomeBenchmark::Qqq) && benchmark_is_compared(
            list,
            OutcomeBenchmark::Soxx,
        ) && benchmark_is_compared(list, OutcomeBenchmark::FourAssetEqualWeight)
            && benchmark_is_compared(list, OutcomeBenchmark::BetaMatchedQqq)
            && benchmark_is_compared(list, OutcomeBenchmark::VolatilityTargetedQqq)
            && benchmark_is_compared(list, OutcomeBenchmark::NoLlmDeterministic);
        proof {
            if all {
                assert forall|b: OutcomeBenchmark| #[trigger] compared_benchmarks(list@).contains(
                    b,
                ) by {
                    assert(b is Cash || b is Qqq || b is Soxx || b is FourAssetEqualWeight
                        || b is BetaMatchedQqq || b is VolatilityTargetedQqq
                        || b is NoLlmDeterministic);
                }
            }
        }
        all
    }

    fn find_net_return(&self) -> (r: Option<i64>)
        ensures
            r is Some <==> self.net_return() is Some,
            r matches Some(net) ==> net == self.net_return()->0,
    {
        let implementation: i64 = match self.implementation_effect_ppm {
            Some(value) => value,
            None => 0,
        };
        let valuation: i64 = match self.initial_valuation_effect_ppm {
            Some(value) => value,
            None => 0,
        };
        let a: i64 = match self.portfolio_return_ppm.checked_add(implementation) {
            Some(value) => value,
            None => {
                return None;
            },
        };
        let b: i64 = match a.checked_add(valuation) {
            Some(value) => value,
            None => {
                return None;
            },
        };
        let c: i64 = match b.checked_sub(self.transaction_cost_ppm as i64) {
            Some(value) => value,
            None => {
                return None;
            },
        };
        c.checked_sub(self.slippage_ppm as i64)
    }

    fn validate_benchmarks(&self) -> (r: Result<(), DomainError>)
        ensures
            outcome(r) == self.benchmarks_verdict(),
    {
        if self.benchmark_attributions.len() == 0 {
            return Ok(());
        }
        if !self.has_each_benchmark_once() {
            return Err(invalid_budget("outcome_window.benchmark_attributions"));
        }
        let net: i64 = match self.find_net_return() {
            Some(net) => net,
            None => {
                return Err(invalid_budget("outcome_window.benchmark_attributions"));
            },
        };
        let ghost checks = self.attribution_checks();
        let mut n: usize = 0;
        while n < self.benchmark_attributions.len()
            invariant
                n <= self.benchmark_attributions.len(),
                self.benchmark_attributions@.len() > 0,
                compares_each_benchmark_once(self.benchmark_attributions@),
                self.net_return() == Some(net as int),
                checks == self.attribution_checks(),
                first_fault(n as nat, checks) == Verdict::Ok(()),
            decreases self.benchmark_attributions.len() - n,
        {
            let attribution = &self.benchmark_attributions[n];
            let needed: u32 = larger_of(
                attribution.benchmark.minimum_samples(),
                self.horizon.trading_days() as u32,
            );
            let valid = attribution.validate(net, needed);
            proof {
                assert(first_fault((n + 1) as nat, checks) == checks(n as int));
                if checks(n as int) is Err {
                    first_fault_stays((n + 1) as nat, self.benchmark_attributions@.len(), checks);
                }
            }
            valid?;
            n += 1;
        }
        Ok(())
    }

    pub fn validate(&self) -> (r: Result<(), DomainError>)
        ensures
            outcome(r) == self.verdict(),
    {
        if !share_is_valid(self.calibration_ppm) || !share_is_valid(self.evidence_completeness_ppm)
            || !share_is_valid(self.risk_recall_ppm) || self.transaction_cost_ppm > 1_000_000
            || self.slippage_ppm > 1_000_000 || !share_is_valid(self.turnover_ppm)
            || !share_is_valid(self.maximum_drawdown_ppm) || !share_is_valid(
            self.tracking_error_ppm,
        ) || !share_is_valid(self.expected_shortfall_ppm) {
            return Err(invalid_budget("outcome_window.ppm"));
        }
        if !ratio_is_valid(self.beta_ppm, 10_000_000) || !ratio_is_valid(
            self.sortino_ratio_ppm,
            100_000_000,
        ) {
            return Err(invalid_budget("outcome_window.ratio"));
        }
        if let Some(score) = &self.forecast_score {
            score.validate()?;
        }
        validate_counts(
            &self.evidence_counts,
            self.evidence_completeness_ppm,
            "outcome_window.evidence_counts",
        )?;
        validate_counts(
            &self.risk_recall_counts,
            self.risk_recall_ppm,
            "outcome_window.risk_recall_counts",
        )?;
        let misbound = match &self.risk_ground_truth {
            Some(reference) => reference.kind != ArtifactKind::RiskGroundTruthAssessment,
            None => false,
        };
        if self.risk_recall_counts.is_some() != self.risk_ground_truth.is_some() || misbound {
            return Err(invalid_budget("outcome_window.risk_ground_truth"));
        }
        validate_path(&self.nav_path)?;
        self.validate_benchmarks()?;
        check_all(&self.order_cost_attributions)
    }
}

/// In a valid window the active return over a benchmark that is available is the net return
/// less that of the benchmark.
pub proof fn active_return_is_net_of_benchmark(window: OutcomeWindow, i: int)
    requires
        window.verdict() is Ok,
        0 <= i < window.benchmark_attributions@.len(),
        window.benchmark_attributions@[i].result is Available,
    ensures
        window.net_return() is Some,
        window.benchmark_attributions@[i].result->active_return_ppm == window.net_return()->0
            - window.benchmark_attributions@[i].result->benchmark_return_ppm,
{
    let checks = window.attribution_checks();
    crate::lists::no_fault_means_every_check_passes(window.benchmark_attributions@.len(), checks);
    assert(checks(i) is Ok);
}

/// What trading is assumed to cost.
#[derive(Clone, Copy, Debug, PartialEq, Eq, Structural)]
pub struct OutcomeCostModel {
    pub transaction_cost_ppm: u32,
    pub slippage_ppm: u32,
}

impl ToJson for OutcomeCostModel {
    open spec fn json(&self) -> JsonTree {
        let m = no_members();
        let m = m.insert("transaction_cost_ppm"@, self.transaction_cost_ppm.json());
        let m = m.insert("slippage_ppm"@, self.slippage_ppm.json());
        JsonTree::Object(m)
    }

    fn to_json(&self) -> (r: serde_json::Value) {
        let mut members = json_new_object();
        json_insert(&mut members, "transaction_cost_ppm", self.transaction_cost_ppm.to_json());
        json_insert(&mut members, "slippage_ppm", self.slippage_ppm.to_json());
        json_object(members)
    }
}

impl Default for OutcomeCostModel {
    fn default() -> (r: Self)
        ensures
            r == (OutcomeCostModel { transaction_cost_ppm: 0, slippage_ppm: 0 }),
    {
        OutcomeCostModel { transaction_cost_ppm: 0, slippage_ppm: 0 }
    }
}

impl OutcomeCostModel {
    pub open spec fn verdict(self) -> Verdict {
        demand(
            self.transaction_cost_ppm <= 1_000_000 && self.slippage_ppm <= 1_000_000,
            budget("outcome.cost_model"@),
        )
    }

    pub fn validate(self) -> (r: Result<(), DomainError>)
        ensures
            outcome(r) == self.verdict(),
    {
        if self.transaction_cost_ppm > 1_000_000 || self.slippage_ppm > 1_000_000 {
            return Err(invalid_budget("outcome.cost_model"));
        }
        Ok(())
    }
}

/// What a finding is about.
#[derive(Clone, Copy, Debug, PartialEq, Eq, PartialOrd, Ord, Hash, Structural)]
pub enum RetrospectiveCategory {
    Research,
    Evidence,
    Risk,
    Decision,
    Execution,
    Topology,
    Contract,
}

/// What a finding concludes.
#[derive(Clone, Copy, Debug, PartialEq, Eq, PartialOrd, Ord, Hash, Structural)]
pub enum RetrospectiveConclusion {
    Worked,
    Failed,
    Mixed,
    Unresolved,
}

/// Whether a retrospective could be written.
#[derive(Clone, Copy, Debug, PartialEq, Eq, PartialOrd, Ord, Hash, Structural)]
pub enum RetrospectiveStatus {
    Complete,
    ModelUnavailable,
}

/// One thing that was found in hindsight.
#[derive(Debug, Clone, PartialEq, Eq)]
pub struct RetrospectiveFinding {
    pub category: RetrospectiveCategory,
    pub conclusion: RetrospectiveConclusion,
    pub statement: String,
    pub artifact_refs: Vec<ArtifactRef>,
    pub confidence_ppm: u32,
}

impl RetrospectiveFinding {
    pub open spec fn verdict(&self) -> Verdict {
        demand(
            !blank(self.statement@) && self.statement@.len() <= 4_000 && self.artifact_refs@.len()
                <= 8 && self.confidence_ppm <= 1_000_000,
            budget("retrospective.finding"@),
        )
    }

    pub fn validate(&self) -> (r: Result<(), DomainError>)
        ensures
            outcome(r) == self.verdict(),
    {
        if is_blank(&self.statement) || self.statement.as_str().unicode_len() > 4_000
            || self.artifact_refs.len() > 8 || self.confidence_ppm > 1_000_000 {
            return Err(invalid_budget("retrospective.finding"));
        }
        Ok(())
    }
}

impl Checked for RetrospectiveFinding {
    open spec fn judged(&self) -> Verdict {
        self.verdict()
    }

    fn check(&self) -> (r: Result<(), DomainError>) {
        self.validate()
    }
}

/// A lesson that is proposed, with the cases that it is meant for.
#[derive(Debug, Clone, PartialEq, Eq)]
pub struct RetrospectiveLessonProposal {
    pub statement: String,
    pub recommended_behavior: String,
    pub exclusions: Vec<String>,
    pub assets: OrderedSet<Asset>,
    pub horizons: OrderedSet<DecisionHorizon>,
    pub evidence_refs: Vec<ArtifactRef>,
}

impl RetrospectiveLessonProposal {
    /// An exclusion that says nothing or too much.
    pub open spec fn is_bad_exclusion(s: Seq<char>) -> bool {
        blank(s) || byte_len(s) > 1200
    }

    pub open spec fn is_scoped(&self) -> bool {
        &&& !blank(self.statement@)
        &&& byte_len(self.statement@) <= 4000
        &&& !blank(self.recommended_behavior@)
        &&& byte_len(self.recommended_behavior@) <= 4000
        &&& 1 <= self.assets@.len() <= 4
        &&& 1 <= self.horizons@.len() <= 3
        &&& 1 <= self.exclusions@.len() <= 4
        &&& forall|i: int|
            0 <= i < self.exclusions@.len() ==> !Self::is_bad_exclusion(
                (#[trigger] self.exclusions@[i])@,
            )
        &&& 1 <= self.evidence_refs@.len() <= 4
    }

    pub open spec fn verdict(&self) -> Verdict {
        demand(self.is_scoped(), empty("retrospective.lesson_proposal"@))
    }

    pub fn validate(&self) -> (r: Result<(), DomainError>)
        ensures
            outcome(r) == self.verdict(),
    {
        let bad = |s: &String| -> (b: bool)
            ensures
                b == Self::is_bad_exclusion(s@),
            { is_blank(s) || byte_count(s) > 1200 };
        if is_blank(&self.statement) || byte_count(&self.statement) > 4000 || is_blank(
            &self.recommended_behavior,
        ) || byte_count(&self.recommended_behavior) > 4000 || self.assets.is_empty()
            || self.assets.len() > 4 || self.horizons.is_empty() || self.horizons.len() > 3
            || self.exclusions.len() == 0 || self.exclusions.len() > 4 || any_of(
            self.exclusions.as_slice(),
            bad,
        ) || self.evidence_refs.len() == 0 || self.evidence_refs.len() > 4 {
            return Err(empty_field("retrospective.lesson_proposal"));
        }
        Ok(())
    }
}

impl Checked for RetrospectiveLessonProposal {
    open spec fn judged(&self) -> Verdict {
        self.verdict()
    }

    fn check(&self) -> (r: Result<(), DomainError>) {
        self.validate()
    }
}

/// A retrospective as a model wrote it.
#[derive(Debug, Clone, PartialEq, Eq)]
pub struct RetrospectiveDraft {
    pub schema_version: u32,
    pub outcome_id: OutcomeId,
    pub horizon: OutcomeHorizon,
    pub summary: String,
    pub findings: Vec<RetrospectiveFinding>,
    pub counterfactuals: Vec<String>,
    pub lesson_candidates: Vec<String>,
    pub lesson_proposals: Vec<RetrospectiveLessonProposal>,
    pub diagnostic_gaps: Vec<String>,
    pub source_refs: Vec<ArtifactRef>,
    pub created_at: UtcTime,
}

/// Whether the text of a retrospective is complete and within its limits.
pub open spec fn narrative_verdict(
    schema_version: u32,
    outcome_id: Seq<char>,
    summary: Seq<char>,
    findings: Seq<RetrospectiveFinding>,
    counterfactuals: Seq<String>,
    lesson_candidates: Seq<String>,
    lesson_proposals: Seq<RetrospectiveLessonProposal>,
    diagnostic_gaps: Seq<String>,
    sources: nat,
) -> Verdict {
    if schema_version != DOMAIN_SCHEMA_VERSION || blank(outcome_id) || summary.len() > 4_000
        || findings.len() > 12 || sources > 8 || counterfactuals.len() > 3 || lesson_candidates.len()
        > 8 || lesson_proposals.len() > 4 || diagnostic_gaps.len() > 8 || any_longer(
        counterfactuals,
        4_000,
    ) || any_longer(lesson_candidates, 4_000) || any_longer(diagnostic_gaps, 4_000) {
        Err(budget("retrospective.draft"@))
    } else {
        first(list_verdict(lesson_proposals), list_verdict(findings))
    }
}

fn validate_narrative(
    schema_version: u32,
    outcome_id: &str,
    summary: &str,
    findings: &Vec<RetrospectiveFinding>,
    counterfactuals: &Vec<String>,
    lesson_candidates: &Vec<String>,
    lesson_proposals: &Vec<RetrospectiveLessonProposal>,
    diagnostic_gaps: &Vec<String>,
    sources: usize,
) -> (r: Result<(), DomainError>)
    ensures
        outcome(r) == narrative_verdict(
            schema_version,
            outcome_id@,
            summary@,
            findings@,
            counterfactuals@,
            lesson_candidates@,
            lesson_proposals@,
            diagnostic_gaps@,
            sources as nat,
        ),
{
    if schema_version != DOMAIN_SCHEMA_VERSION || is_blank(outcome_id) || summary.unicode_len()
        > 4_000 || findings.len() > 12 || sources > 8 || counterfactuals.len() > 3
        || lesson_candidates.len() > 8 || lesson_proposals.len() > 4 || diagnostic_gaps.len() > 8
        || has_longer(counterfactuals, 4_000) || has_longer(lesson_candidates, 4_000) || has_longer(
        diagnostic_gaps,
        4_000,
    ) {
        return Err(invalid_budget("retrospective.draft"));
    }
    check_all(lesson_proposals)?;
    check_all(findings)
}

impl RetrospectiveDraft {
    pub open spec fn verdict(&self) -> Verdict {
        narrative_verdict(
            self.schema_version,
            self.outcome_id@,
            self.summary@,
            self.findings@,
            self.counterfactuals@,
            self.lesson_candidates@,
            self.lesson_proposals@,
            self.diagnostic_gaps@,
            self.source_refs@.len(),
        )
    }

    pub fn validate(&self) -> (r: Result<(), DomainError>)
        ensures
            outcome(r) == self.verdict(),
    {
        validate_narrative(
            self.schema_version,
            &self.outcome_id.0,
            &self.summary,
            &self.findings,
            &self.counterfactuals,
            &self.lesson_candidates,
            &self.lesson_proposals,
            &self.diagnostic_gaps,
            self.source_refs.len(),
        )
    }
}

/// A retrospective on an outcome.
#[derive(Debug, Clone, PartialEq, Eq)]
pub struct Retrospective {
    pub schema_version: u32,
    pub outcome_id: OutcomeId,
    pub horizon: OutcomeHorizon,
    pub status: RetrospectiveStatus,
    pub summary: String,
    pub findings: Vec<RetrospectiveFinding>,
    pub counterfactuals: Vec<String>,
    pub lesson_candidates: Vec<String>,
    pub lesson_proposals: Vec<RetrospectiveLessonProposal>,
    pub diagnostic_gaps: Vec<String>,
    pub source_refs: Vec<ArtifactRef>,
    pub outcome: ArtifactRef,
    pub created_at: UtcTime,
    pub sealed_at: Option<UtcTime>,
}

impl Retrospective {
    pub open spec fn narrative(&self) -> Verdict {
        narrative_verdict(
            self.schema_version,
            self.outcome_id@,
            self.summary@,
            self.findings@,
            self.counterfactuals@,
            self.lesson_candidates@,
            self.lesson_proposals@,
            self.diagnostic_gaps@,
            self.source_refs@.len(),
        )
    }

    pub open spec fn verdict(&self) -> Verdict {
        if self.narrative() is Err {
            self.narrative()
        } else {
            first(
                demand(self.outcome.kind is Outcome, empty("retrospective.outcome"@)),
                demand(
                    self.horizon is T5 ==> self.sealed_at is Some,
                    empty("retrospective.sealed_at"@),
                ),
            )
        }
    }

    pub fn validate(&self) -> (r: Result<(), DomainError>)
        ensures
            outcome(r) == self.verdict(),
    {
        validate_narrative(
            self.schema_version,
            &self.outcome_id.0,
            &self.summary,
            &self.findings,
            &self.counterfactuals,
            &self.lesson_candidates,
            &self.lesson_proposals,
            &self.diagnostic_gaps,
            self.source_refs.len(),
        )?;
        if self.outcome.kind != ArtifactKind::Outcome {
            return Err(empty_field("retrospective.outcome"));
        }
        if self.horizon == OutcomeHorizon::T5 && self.sealed_at.is_none() {
            return Err(empty_field("retrospective.sealed_at"));
        }
        Ok(())
    }
}

/// How an attempt follows another.
#[derive(Clone, Copy, Debug, PartialEq, Eq, PartialOrd, Ord, Hash, Structural)]
pub enum AttemptRelationKind {
    Retry,
    Recovery,
    Replay,
    Shadow,
}

/// An attempt that follows another.
#[derive(Debug, Clone, PartialEq, Eq)]
pub struct AttemptRelation {
    pub schema_version: u32,
    pub run_id: RunId,
    pub task_id: TaskId,
    pub parent_attempt_id: AttemptId,
    pub child_attempt_id: AttemptId,
    pub relation: AttemptRelationKind,
    pub created_at: UtcTime,
}

impl AttemptRelation {
    pub open spec fn verdict(&self) -> Verdict {
        demand(
            self.schema_version == DOMAIN_SCHEMA_VERSION && !blank(self.run_id@) && !blank(
                self.task_id@,
            ) && !blank(self.parent_attempt_id@) && !blank(self.child_attempt_id@)
                && self.parent_attempt_id@ != self.child_attempt_id@,
            empty("attempt_relation.identity"@),
        )
    }

    pub fn validate(&self) -> (r: Result<(), DomainError>)
        ensures
            outcome(r) == self.verdict(),
    {
        if self.schema_version != DOMAIN_SCHEMA_VERSION || is_blank(&self.run_id.0) || is_blank(
            &self.task_id.0,
        ) || is_blank(&self.parent_attempt_id.0) || is_blank(&self.child_attempt_id.0)
            || self.parent_attempt_id.0 == self.child_attempt_id.0 {
            return Err(empty_field("attempt_relation.identity"));
        }
        Ok(())
    }
}

/// What the numbers of an outcome are based on: the exposure right after execution, held
/// without later trades or flows, in the second version with the bridges from the first
/// quotes to the fills.
#[derive(Clone, Copy, Debug, PartialEq, Eq, PartialOrd, Ord, Hash, Structural)]
pub enum OutcomeMetricBasis {
    FrozenPostExecutionExposureV2,
    FrozenPostExecutionExposureV3,
}

impl OutcomeMetricBasis {
    /// The name of the variant in JSON.
    pub open spec fn wire(self) -> Seq<char> {
        match self {
            OutcomeMetricBasis::FrozenPostExecutionExposureV2 => "frozen_post_execution_exposure_v2"@,
            OutcomeMetricBasis::FrozenPostExecutionExposureV3 => "frozen_post_execution_exposure_v3"@,
        }
    }

    /// The name of the variant in JSON.
    pub fn wire_name(self) -> (r: &'static str)
        ensures
            r@ == self.wire(),
    {
        match self {
            OutcomeMetricBasis::FrozenPostExecutionExposureV2 => "frozen_post_execution_exposure_v2",
            OutcomeMetricBasis::FrozenPostExecutionExposureV3 => "frozen_post_execution_exposure_v3",
        }
    }
}

impl ToJson for OutcomeMetricBasis {
    open spec fn json(&self) -> JsonTree {
        JsonTree::Text(self.wire())
    }

    fn to_json(&self) -> (r: serde_json::Value) {
        json_text(self.wire_name())
    }
}

/// What became of a decision.
#[derive(Debug, Clone, PartialEq, Eq)]
pub struct Outcome {
    pub schema_version: u32,
    pub outcome_id: OutcomeId,
    pub schedule: ArtifactRef,
    pub market_evidence: Vec<ArtifactRef>,
    pub metric_basis: Option<OutcomeMetricBasis>,
    pub windows: Vec<OutcomeWindow>,
    pub sealed_at: Option<UtcTime>,
}

/// The assessments that the windows name.
pub open spec fn ground_truths(windows: Seq<OutcomeWindow>) -> Set<RefView>
    decreases windows.len(),
{
    if windows.len() == 0 {
        Set::empty()
    } else {
        match windows.last().risk_ground_truth {
            Some(reference) => ground_truths(windows.drop_last()).insert(reference@),
            None => ground_truths(windows.drop_last()),
        }
    }
}

/// Some window before `n` is of the horizon.
pub open spec fn horizon_is_taken(windows: Seq<OutcomeWindow>, n: int, horizon: OutcomeHorizon) -> bool {
    exists|j: int| 0 <= j < n && (#[trigger] windows[j]).horizon == horizon
}

/// The check of one window: valid, and of a horizon that none before it is of.
pub open spec fn window_checks(windows: Seq<OutcomeWindow>) -> spec_fn(int) -> Verdict {
    |i: int|
        first(
            windows[i].verdict(),
            demand(
                !horizon_is_taken(windows, i, windows[i].horizon),
                budget("outcome.windows"@),
            ),
        )
}

/// A farther horizon is observed on a later day.
pub open spec fn days_follow_horizons(windows: Seq<OutcomeWindow>) -> bool {
    forall|i: int, j: int|
        0 <= i < windows.len() && 0 <= j < windows.len() && (
        #[trigger] windows[i]).horizon.days() < (#[trigger] windows[j]).horizon.days()
            ==> windows[i].observed_trading_day.day() < windows[j].observed_trading_day.day()
}

fn days_are_in_order(windows: &Vec<OutcomeWindow>) -> (r: bool)
    ensures
        r == days_follow_horizons(windows@),
{
    let mut i: usize = 0;
    while i < windows.len()
        invariant
            i <= windows.len(),
            forall|k: int, l: int|
                0 <= k < i && 0 <= l < windows@.len() && (#[trigger] windows@[k]).horizon.days() < (
                #[trigger] windows@[l]).horizon.days() ==> windows@[k].observed_trading_day.day()
                    < windows@[l].observed_trading_day.day(),
        decreases windows.len() - i,
    {
        let mut j: usize = 0;
        while j < windows.len()
            invariant
                i < windows.len(),
                j <= windows.len(),
                forall|l: int|
                    0 <= l < j && windows@[i as int].horizon.days() < (
                    #[trigger] windows@[l]).horizon.days()
                        ==> windows@[i as int].observed_trading_day.day()
                        < windows@[l].observed_trading_day.day(),
            decreases windows.len() - j,
        {
            if windows[i].horizon.trading_days() < windows[j].horizon.trading_days()
                && !windows[i].observed_trading_day.is_before(&windows[j].observed_trading_day) {
                return false;
            }
            j += 1;
        }
        i += 1;
    }
    true
}

fn horizon_repeats(windows: &Vec<OutcomeWindow>, n: usize) -> (r: bool)
    requires
        n < windows@.len(),
    ensures
        r == horizon_is_taken(windows@, n as int, windows@[n as int].horizon),
{
    let mut j: usize = 0;
    while j < n
        invariant
            j <= n < windows@.len(),
            forall|k: int|
                0 <= k < j ==> (#[trigger] windows@[k]).horizon != windows@[n as int].horizon,
        decreases n - j,
    {
        if windows[j].horizon == windows[n].horizon {
            return true;
        }
        j += 1;
    }
    false
}

impl Outcome {
    pub fn is_sealed(&self) -> (r: bool)
        ensures
            r == (self.sealed_at is Some),
    {
        self.sealed_at.is_some()
    }

    /// The risk assessments that the windows name, each once and in order.
    pub fn risk_ground_truth_refs(&self) -> (r: Vec<ArtifactRef>)
        ensures
            views(r@) == listing::<ArtifactRef>(ground_truths(self.windows@)),
    {
        let mut refs: OrderedSet<ArtifactRef> = OrderedSet::new();
        let mut i: usize = 0;
        while i < self.windows.len()
            invariant
                i <= self.windows.len(),
                refs@ == ground_truths(self.windows@.take(i as int)),
            decreases self.windows.len() - i,
        {
            proof {
                assert(self.windows@.take(i + 1).drop_last() =~= self.windows@.take(i as int));
            }
            if let Some(reference) = &self.windows[i].risk_ground_truth {
                refs.insert(reference.clone());
            }
            i += 1;
        }
        proof {
            assert(self.windows@.take(self.windows@.len() as int) =~= self.windows@);
        }
        refs.into_vec()
    }

    pub open spec fn verdict(&self) -> Verdict {
        let windows = first_fault(self.windows@.len(), window_checks(self.windows@));
        if self.schema_version != DOMAIN_SCHEMA_VERSION || blank(self.outcome_id@) {
            Err(empty("outcome.identity"@))
        } else if !(self.schedule.kind is OutcomeSchedule) || self.market_evidence@.len() == 0
            || !refs_are_evidence(self.market_evidence@) {
            Err(empty("outcome.references"@))
        } else if self.windows@.len() == 0 || self.windows@.len() > 3 {
            Err(budget("outcome.windows"@))
        } else if windows is Err {
            windows
        } else {
            demand(days_follow_horizons(self.windows@), budget("outcome.window_trading_days"@))
        }
    }

    fn validate_windows(&self) -> (r: Result<(), DomainError>)
        ensures
            outcome(r) == first_fault(self.windows@.len(), window_checks(self.windows@)),
    {
        let ghost checks = window_checks(self.windows@);
        let mut n: usize = 0;
        while n < self.windows.len()
            invariant
                n <= self.windows.len(),
                checks == window_checks(self.windows@),
                first_fault(n as nat, checks) == Verdict::Ok(()),
            decreases self.windows.len() - n,
        {
            let valid = self.windows[n].validate();
            let repeats = horizon_repeats(&self.windows, n);
            proof {
                assert(first_fault((n + 1) as nat, checks) == checks(n as int));
                if checks(n as int) is Err {
                    first_fault_stays((n + 1) as nat, self.windows@.len(), checks);
                }
            }
            valid?;
            if repeats {
                return Err(invalid_budget("outcome.windows"));
            }
            n += 1;
        }
        Ok(())
    }

    pub fn validate(&self) -> (r: Result<(), DomainError>)
        ensures
            outcome(r) == self.verdict(),
    {
        if self.schema_version != DOMAIN_SCHEMA_VERSION || is_blank(&self.outcome_id.0) {
            return Err(empty_field("outcome.identity"));
        }
        if self.schedule.kind != ArtifactKind::OutcomeSchedule || self.market_evidence.len() == 0
            || !all_refs_are_evidence(&self.market_evidence) {
            return Err(empty_field("outcome.references"));
        }
        if self.windows.len() == 0 || self.windows.len() > 3 {
            return Err(invalid_budget("outcome.windows"));
        }
        self.validate_windows()?;
        if !days_are_in_order(&self.windows) {
            return Err(invalid_budget("outcome.window_trading_days"));
        }
        Ok(())
    }

    pub open spec fn sealed_verdict(&self) -> Verdict {
        first(
            self.verdict(),
            first(
                demand(self.windows@.len() == 3, budget("outcome.windows"@)),
                demand(self.sealed_at is Some, empty("outcome.sealed_at"@)),
            ),
        )
    }

    /// Checks that the outcome is complete and sealed.
    pub fn validate_sealed(&self) -> (r: Result<(), DomainError>)
        ensures
            outcome(r) == self.sealed_verdict(),
    {
        self.validate()?;
        if self.windows.len() != 3 {
            return Err(invalid_budget("outcome.windows"));
        }
        if self.sealed_at.is_none() {
            return Err(empty_field("outcome.sealed_at"));
        }
        Ok(())
    }
}

/// A sealed outcome has a window for every horizon.
pub proof fn sealed_outcome_covers_every_horizon(sealed: Outcome)
    requires
        sealed.sealed_verdict() is Ok,
    ensures
        forall|horizon: OutcomeHorizon| #[trigger]
            horizon_is_taken(sealed.windows@, sealed.windows@.len() as int, horizon),
{
    let w = sealed.windows@;
    let checks = window_checks(w);
    crate::lists::no_fault_means_every_check_passes(w.len(), checks);
    assert(checks(1) is Ok && checks(2) is Ok);
    assert(w[0].horizon != w[1].horizon);
    assert(w[0].horizon != w[2].horizon);
    assert(w[1].horizon != w[2].horizon);
    assert forall|horizon: OutcomeHorizon| #[trigger] horizon_is_taken(w, w.len() as int, horizon) by {
        let a = w[0].horizon;
        let b = w[1].horizon;
        let c = w[2].horizon;
        if horizon != a && horizon != b {
            assert(c == horizon);
        }
    }
}

/// What an outcome schedule is refused with: the first fault that it has.
pub proof fn refusal_of_outcome_schedule_names_its_fault(this: OutcomeSchedule)
    ensures
        (this.schema_version != DOMAIN_SCHEMA_VERSION || blank(this.outcome_id@))
            ==> this.verdict() == Verdict::Err(empty("outcome_schedule.identity"@)),
        !(this.schema_version != DOMAIN_SCHEMA_VERSION || blank(this.outcome_id@))
            && (!(this.decision.kind is Decision)
            || !(this.decision_context.kind is DecisionContext)
            || !(this.execution_context.kind is ExecutionContext))
            ==> this.verdict() == Verdict::Err(empty("outcome_schedule.references"@)),
{
}

/// What a forecast score is refused with: the first fault that it has.
pub proof fn refusal_of_forecast_score_names_its_fault(this: ForecastScore)
    ensures
        !(this.is_consistent()) ==> this.verdict() == Verdict::Err(budget("forecast_score"@)),
{
}

/// What a calibration report is refused with: the first fault that it has.
pub proof fn refusal_of_calibration_report_names_its_fault(this: CalibrationReport)
    ensures
        !(this.sample_count > 0 && this.mean_brier_ppm <= 1_000_000
            && this.expected_calibration_error_ppm <= 1_000_000)
            ==> this.verdict() == Verdict::Err(budget("calibration_report"@)),
{
}

/// What a counted ratio is refused with: the first fault that it has.
pub proof fn refusal_of_counted_ratio_names_its_fault(this: CountedRatio)
    ensures
        !(0 < this.expected_count && this.observed_count <= this.expected_count
            && this.ratio_ppm <= 1_000_000 && (this.lower_confidence_ppm matches Some(lower)
            ==> lower <= this.ratio_ppm))
            ==> this.verdict() == Verdict::Err(budget("counted_ratio"@)),
{
}

/// What an outcome nav point is refused with: the first fault that it has.
pub proof fn refusal_of_outcome_nav_point_names_its_fault(this: OutcomeNavPoint)
    ensures
        !(this.portfolio_nav_ppm > 0 && this.benchmark_nav_ppm > 0)
            ==> this.verdict() == Verdict::Err(budget("outcome_nav_point"@)),
{
}

/// What an outcome benchmark nav point is refused with: the first fault that it has.
pub proof fn refusal_of_outcome_benchmark_nav_point_names_its_fault(
    this: OutcomeBenchmarkNavPoint,
)
    ensures
        !(this.nav_ppm > 0)
            ==> this.verdict() == Verdict::Err(budget("outcome_benchmark_nav_point"@)),
{
}

/// What an outcome benchmark attribution is refused with: the first fault that it has.
pub proof fn refusal_of_outcome_benchmark_attribution_names_its_fault(
    this: OutcomeBenchmarkAttribution,
    net_return_ppm: int,
    required: u32,
)
    ensures
        !(this.definition_version == OUTCOME_BENCHMARK_DEFINITION_VERSION
            && this.definition_hash@ == this.benchmark.definition_digest())
            ==> this.verdict(net_return_ppm, required) == Verdict::Err(
                ErrorView::InvalidContentHash,
            ),
{
}

/// What an outcome order cost attribution is refused with: the first fault that it has.
pub proof fn refusal_of_outcome_order_cost_attribution_names_its_fault(
    this: OutcomeOrderCostAttribution,
)
    ensures
        !(this.is_consistent())
            ==> this.verdict() == Verdict::Err(budget("outcome_order_cost_attribution"@)),
{
}

/// What an outcome window is refused with: the first fault that it has.
pub proof fn benchmarks_verdict_of_outcome_window_names_its_fault(this: OutcomeWindow)
    ensures
        !(this.benchmark_attributions@.len() == 0)
            && (!compares_each_benchmark_once(this.benchmark_attributions@)
            || this.net_return() is None)
            ==> this.benchmarks_verdict() == Verdict::Err(
                budget("outcome_window.benchmark_attributions"@),
            ),
{
}

/// What an outcome cost model is refused with: the first fault that it has.
pub proof fn refusal_of_outcome_cost_model_names_its_fault(this: OutcomeCostModel)
    ensures
        !(this.transaction_cost_ppm <= 1_000_000 && this.slippage_ppm <= 1_000_000)
            ==> this.verdict() == Verdict::Err(budget("outcome.cost_model"@)),
{
}

/// What a retrospective finding is refused with: the first fault that it has.
pub proof fn refusal_of_retrospective_finding_names_its_fault(this: RetrospectiveFinding)
    ensures
        !(!blank(this.statement@) && this.statement@.len() <= 4_000
            && this.artifact_refs@.len() <= 8 && this.confidence_ppm <= 1_000_000)
            ==> this.verdict() == Verdict::Err(budget("retrospective.finding"@)),
{
}

/// What a retrospective lesson proposal is refused with: the first fault that it has.
pub proof fn refusal_of_retrospective_lesson_proposal_names_its_fault(
    this: RetrospectiveLessonProposal,
)
    ensures
        !(this.is_scoped())
            ==> this.verdict() == Verdict::Err(empty("retrospective.lesson_proposal"@)),
{
}

/// What is refused in this respect is refused with the first fault that it has.
pub proof fn narrative_verdict_names_its_fault(
    schema_version: u32,
    outcome_id: Seq<char>,
    summary: Seq<char>,
    findings: Seq<RetrospectiveFinding>,
    counterfactuals: Seq<String>,
    lesson_candidates: Seq<String>,
    lesson_proposals: Seq<RetrospectiveLessonProposal>,
    diagnostic_gaps: Seq<String>,
    sources: nat,
)
    ensures
        (schema_version != DOMAIN_SCHEMA_VERSION || blank(outcome_id) || summary.len() > 4_000
            || findings.len() > 12 || sources > 8 || counterfactuals.len() > 3
            || lesson_candidates.len() > 8 || lesson_proposals.len() > 4
            || diagnostic_gaps.len() > 8 || any_longer(counterfactuals, 4_000)
            || any_longer(lesson_candidates, 4_000) || any_longer(diagnostic_gaps, 4_000))
            ==> narrative_verdict(schema_version, outcome_id, summary, findings, counterfactuals, lesson_candidates, lesson_proposals, diagnostic_gaps, sources) == Verdict::Err(
                budget("retrospective.draft"@),
            ),
{
}

/// What a retrospective is refused with: the first fault that it has.
pub proof fn refusal_of_retrospective_names_its_fault(this: Retrospective)
    ensures
        this.narrative() is Ok && !(this.outcome.kind is Outcome)
            ==> this.verdict() == Verdict::Err(empty("retrospective.outcome"@)),
        this.narrative() is Ok && (this.outcome.kind is Outcome) && !(this.horizon is T5
            ==> this.sealed_at is Some)
            ==> this.verdict() == Verdict::Err(empty("retrospective.sealed_at"@)),
{
}

/// What an attempt relation is refused with: the first fault that it has.
pub proof fn refusal_of_attempt_relation_names_its_fault(this: AttemptRelation)
    ensures
        !(this.schema_version == DOMAIN_SCHEMA_VERSION && !blank(this.run_id@)
            && !blank(this.task_id@) && !blank(this.parent_attempt_id@)
            && !blank(this.child_attempt_id@) && this.parent_attempt_id@ != this.child_attempt_id@)
            ==> this.verdict() == Verdict::Err(empty("attempt_relation.identity"@)),
{
}

/// What an outcome is refused with: the first fault that it has.
pub proof fn sealed_verdict_of_outcome_names_its_fault(this: Outcome)
    ensures
        this.verdict() is Ok && !(this.windows@.len() == 3)
            ==> this.sealed_verdict() == Verdict::Err(budget("outcome.windows"@)),
        this.verdict() is Ok && (this.windows@.len() == 3) && !(this.sealed_at is Some)
            ==> this.sealed_verdict() == Verdict::Err(empty("outcome.sealed_at"@)),
{
}

} // verus!
