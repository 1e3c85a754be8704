//! Mandates, the promotion of candidates, what they must keep, and the qualification of models.
use crate::artifact::{ArtifactKind, ArtifactRef};
use crate::error::{
    budget, demand, empty, empty_field, first, invalid_budget, outcome, DomainError, ErrorView,
    Verdict,
};
use crate::foundation::{
    clamped, digest_of, is_digest, json_digest, Asset, ContentHash, TargetPortfolio, WeightPpm,
};
use crate::json::{
    json_content, json_insert, json_new_object, json_object, json_text, no_members, JsonItem, JsonKey,
    JsonTree, ToJson,
};
use crate::lists::{all_of, any_of};
use crate::ordered::{are_distinct, rank_numbers, views, Key, OrderedMap, OrderedSet, Rank};
use crate::text::{blank, is_blank};
use crate::time::{earlier, UtcTime};
use vstd::prelude::*;

verus! {

/// What a mandate can forbid.
#[derive(Clone, Copy, Debug, PartialEq, Eq, PartialOrd, Ord, Hash, Structural)]
pub enum MandateActionType {
    Trade,
    IncreaseRisk,
    LeveragedExposure,
}

impl MandateActionType {
    /// The name of the variant in JSON.
    pub open spec fn wire(self) -> Seq<char> {
        match self {
            MandateActionType::Trade => "trade"@,
            MandateActionType::IncreaseRisk => "increase_risk"@,
            MandateActionType::LeveragedExposure => "leveraged_exposure"@,
        }
    }

    /// The name of the variant in JSON.
    pub fn wire_name(self) -> (r: &'static str)
        ensures
            r@ == self.wire(),
    {
        match self {
            MandateActionType::Trade => "trade",
            MandateActionType::IncreaseRisk => "increase_risk",
            MandateActionType::LeveragedExposure => "leveraged_exposure",
        }
    }
}

impl ToJson for MandateActionType {
    open spec fn json(&self) -> JsonTree {
        JsonTree::Text(self.wire())
    }

    fn to_json(&self) -> (r: serde_json::Value) {
        json_text(self.wire_name())
    }
}

impl View for MandateActionType {
    type V = MandateActionType;

    open spec fn view(&self) -> MandateActionType {
        *self
    }
}

impl MandateActionType {
    /// Where the variant stands in the order.
    pub open spec fn place(self) -> u32 {
        match self {
            MandateActionType::Trade => 0,
            MandateActionType::IncreaseRisk => 1,
            MandateActionType::LeveragedExposure => 2,
        }
    }

    pub(crate) fn place_number(self) -> (r: u32)
        ensures
            r == self.place(),
    {
        match self {
            MandateActionType::Trade => 0,
            MandateActionType::IncreaseRisk => 1,
            MandateActionType::LeveragedExposure => 2,
        }
    }
}

impl Key for MandateActionType {
    open spec fn code(key: MandateActionType) -> Seq<int> {
        seq![key.place() as int]
    }

    proof fn code_is_injective(a: MandateActionType, b: MandateActionType) {
        assert(Self::code(a)[0] == a.place() as int && Self::code(b)[0] == b.place() as int);
    }

    fn rank(&self, other: &Self) -> (r: Rank) {
        rank_numbers((*self).place_number(), (*other).place_number())
    }

    fn duplicate(&self) -> (r: Self) {
        *self
    }
}

impl JsonItem for MandateActionType {
    open spec fn item_json(key: MandateActionType) -> JsonTree {
        JsonTree::Text(key.wire())
    }

    fn to_item_json(&self) -> (r: serde_json::Value) {
        json_text((*self).wire_name())
    }
}

impl JsonKey for MandateActionType {
    open spec fn key_text(key: MandateActionType) -> Seq<char> {
        key.wire()
    }

    fn to_key_text(&self) -> (r: String) {
        (*self).wire_name().to_owned()
    }
}

/// How a mandate can be violated.
#[derive(Clone, Copy, Debug, PartialEq, Eq, PartialOrd, Ord, Hash, Structural)]
pub enum MandateViolation {
    GrossExposure,
    DrawdownBudget,
    MinimumCashReserve,
    ProhibitedAsset,
    ProhibitedAction,
    Turnover,
}

impl View for MandateViolation {
    type V = MandateViolation;

    open spec fn view(&self) -> MandateViolation {
        *self
    }
}

impl MandateViolation {
    /// Where the variant stands in the order.
    pub open spec fn place(self) -> u32 {
        match self {
            MandateViolation::GrossExposure => 0,
            MandateViolation::DrawdownBudget => 1,
            MandateViolation::MinimumCashReserve => 2,
            MandateViolation::ProhibitedAsset => 3,
            MandateViolation::ProhibitedAction => 4,
            MandateViolation::Turnover => 5,
        }
    }

    pub(crate) fn place_number(self) -> (r: u32)
        ensures
            r == self.place(),
    {
        match self {
            MandateViolation::GrossExposure => 0,
            MandateViolation::DrawdownBudget => 1,
            MandateViolation::MinimumCashReserve => 2,
            MandateViolation::ProhibitedAsset => 3,
            MandateViolation::ProhibitedAction => 4,
            MandateViolation::Turnover => 5,
        }
    }
}

impl Key for MandateViolation {
    open spec fn code(key: MandateViolation) -> Seq<int> {
        seq![key.place() as int]
    }

    proof fn code_is_injective(a: MandateViolation, b: MandateViolation) {
        assert(Self::code(a)[0] == a.place() as int && Self::code(b)[0] == b.place() as int);
    }

    fn rank(&self, other: &Self) -> (r: Rank) {
        rank_numbers((*self).place_number(), (*other).place_number())
    }

    fn duplicate(&self) -> (r: Self) {
        *self
    }
}

/// The limits that a portfolio is bound to.
#[derive(Debug, Clone, PartialEq, Eq)]
pub struct MandateSnapshot {
    pub maximum_gross_exposure: WeightPpm,
    pub maximum_drawdown_budget: WeightPpm,
    pub minimum_cash_reserve: WeightPpm,
    pub prohibited_assets: OrderedSet<Asset>,
    pub prohibited_actions: OrderedSet<MandateActionType>,
    pub maximum_turnover: WeightPpm,
    pub loss_response_policy: String,
    pub speculation_policy: String,
}

impl ToJson for MandateSnapshot {
    open spec fn json(&self) -> JsonTree {
        let m = no_members();
        let m = m.insert("maximum_gross_exposure"@, self.maximum_gross_exposure.json());
        let m = m.insert("maximum_drawdown_budget"@, self.maximum_drawdown_budget.json());
        let m = m.insert("minimum_cash_reserve"@, self.minimum_cash_reserve.json());
        let m = m.insert("prohibited_assets"@, self.prohibited_assets.json());
        let m = m.insert("prohibited_actions"@, self.prohibited_actions.json());
        let m = m.insert("maximum_turnover"@, self.maximum_turnover.json());
        let m = m.insert("loss_response_policy"@, self.loss_response_policy.json());
        let m = m.insert("speculation_policy"@, self.speculation_policy.json());
        JsonTree::Object(m)
    }

    fn to_json(&self) -> (r: serde_json::Value) {
        let mut members = json_new_object();
        json_insert(&mut members, "maximum_gross_exposure", self.maximum_gross_exposure.to_json());
        json_insert(
            &mut members,
            "maximum_drawdown_budget",
            self.maximum_drawdown_budget.to_json(),
        );
        json_insert(&mut members, "minimum_cash_reserve", self.minimum_cash_reserve.to_json());
        json_insert(&mut members, "prohibited_assets", self.prohibited_assets.to_json());
        json_insert(&mut members, "prohibited_actions", self.prohibited_actions.to_json());
        json_insert(&mut members, "maximum_turnover", self.maximum_turnover.to_json());
        json_insert(&mut members, "loss_response_policy", self.loss_response_policy.to_json());
        json_insert(&mut members, "speculation_policy", self.speculation_policy.to_json());
        json_object(members)
    }
}

/// How a portfolio stands to a mandate.
#[derive(Debug, Clone, PartialEq, Eq)]
pub struct MandateAssessment {
    pub mandate_hash: ContentHash,
    pub violations: OrderedSet<MandateViolation>,
    pub distance_before_ppm: u32,
    pub distance_after_ppm: u32,
}

impl MandateAssessment {
    pub open spec fn is_permitted(&self) -> bool {
        self.violations@.len() == 0 && self.distance_after_ppm == 0
    }

    pub fn permitted(&self) -> (r: bool)
        ensures
            r == self.is_permitted(),
    {
        self.violations.is_empty() && self.distance_after_ppm == 0
    }
}

/// The sum of the first `n` weights.
pub open spec fn weight_sum(weights: Seq<WeightPpm>, n: nat) -> int
    decreases n,
{
    if n == 0 {
        0
    } else {
        weight_sum(weights, (n - 1) as nat) + weights[n - 1].0
    }
}

/// The gross exposure of a portfolio, or the most that can be held.
pub open spec fn gross_exposure(portfolio: TargetPortfolio) -> int {
    clamped(
        weight_sum(portfolio.weights.values(), portfolio.weights.keys().len()),
        0,
        u32::MAX as int,
    )
}

fn sum_exposure(portfolio: &TargetPortfolio) -> (r: u32)
    ensures
        r == gross_exposure(*portfolio),
{
    let n: usize = portfolio.weights.len();
    let mut sum: u32 = 0;
    let mut i: usize = 0;
    while i < n
        invariant
            i <= n,
            n == portfolio.weights.keys().len(),
            sum == clamped(
                weight_sum(portfolio.weights.values(), i as nat),
                0,
                u32::MAX as int,
            ),
            weight_sum(portfolio.weights.values(), i as nat) >= 0,
        decreases n - i,
    {
        sum = sum.saturating_add(portfolio.weights.value_at(i).0);
        i += 1;
    }
    sum
}

/// What a number is above a limit, zero where it is not.
pub open spec fn excess(x: int, limit: int) -> int {
    if x > limit {
        x - limit
    } else {
        0
    }
}

/// A weight of an asset is above zero.
pub open spec fn holds(portfolio: TargetPortfolio, asset: Asset) -> bool {
    portfolio.weights@.dom().contains(asset) && portfolio.weights@[asset].0 > 0
}

fn portfolio_holds(portfolio: &TargetPortfolio, asset: Asset) -> (r: bool)
    ensures
        r == holds(*portfolio, asset),
{
    match portfolio.weights.get(&asset) {
        Some(weight) => weight.0 > 0,
        None => false,
    }
}

fn same_weight(a: Option<&WeightPpm>, b: Option<&WeightPpm>) -> (r: bool)
    ensures
        r == (a == b),
{
    match (a, b) {
        (Some(x), Some(y)) => x.0 == y.0,
        (None, None) => true,
        _ => false,
    }
}

fn same_weights(a: &TargetPortfolio, b: &TargetPortfolio) -> (r: bool)
    ensures
        r == (a.weights@ == b.weights@),
{
    let all = same_weight(a.weights.get(&Asset::Tqqq), b.weights.get(&Asset::Tqqq))
        && same_weight(a.weights.get(&Asset::Qqq), b.weights.get(&Asset::Qqq)) && same_weight(
        a.weights.get(&Asset::Soxx),
        b.weights.get(&Asset::Soxx),
    ) && same_weight(a.weights.get(&Asset::Soxl), b.weights.get(&Asset::Soxl));
    proof {
        if all {
            assert forall|asset: Asset|
                a.weights@.dom().contains(asset) == b.weights@.dom().contains(asset) && (
                a.weights@.dom().contains(asset) ==> a.weights@[asset] == b.weights@[asset]) by {
                assert(crate::foundation::executable(asset));
            }
            assert(a.weights@ =~= b.weights@);
        }
    }
    all
}

impl MandateSnapshot {
    pub open spec fn verdict(&self) -> Verdict {
        demand(
            self.maximum_gross_exposure.0 <= 1_000_000 && self.maximum_drawdown_budget.0
                <= 1_000_000 && self.minimum_cash_reserve.0 <= 1_000_000 && self.maximum_turnover.0
                <= 1_000_000 && !blank(self.loss_response_policy@) && !blank(
                self.speculation_policy@,
            ),
            budget("mandate_snapshot"@),
        )
    }

    pub fn validate(&self) -> (r: Result<(), DomainError>)
        ensures
            outcome(r) == self.verdict(),
    {
        if self.maximum_gross_exposure.0 > WeightPpm::SCALE || self.maximum_drawdown_budget.0
            > WeightPpm::SCALE || self.minimum_cash_reserve.0 > WeightPpm::SCALE
            || self.maximum_turnover.0 > WeightPpm::SCALE || is_blank(&self.loss_response_policy)
            || is_blank(&self.speculation_policy) {
            return Err(invalid_budget("mandate_snapshot"));
        }
        Ok(())
    }

    pub fn identity_hash(&self) -> (r: ContentHash)
        ensures
            r@ == json_digest(self.json()),
    {
        digest_of(&self.to_json())
    }

    /// How far a portfolio is outside the limits on exposure, cash and drawdown.
    pub open spec fn distance_ppm(&self, target: TargetPortfolio, drawdown: int) -> int {
        let gross = gross_exposure(target);
        let exposure = excess(gross, self.maximum_gross_exposure.0 as int);
        let cash = excess(self.minimum_cash_reserve.0 as int, excess(1_000_000, gross));
        let loss = excess(drawdown, self.maximum_drawdown_budget.0 as int);
        clamped(exposure + cash + loss, 0, u32::MAX as int)
    }

    /// A trade that a forbidden action amounts to.
    pub open spec fn acts_against(&self, before: TargetPortfolio, after: TargetPortfolio) -> bool {
        ||| before.weights@ != after.weights@ && self.prohibited_actions@.contains(
            MandateActionType::Trade,
        )
        ||| gross_exposure(after) > gross_exposure(before) && self.prohibited_actions@.contains(
            MandateActionType::IncreaseRisk,
        )
        ||| (holds(after, Asset::Tqqq) || holds(after, Asset::Soxl))
            && self.prohibited_actions@.contains(MandateActionType::LeveragedExposure)
    }

    pub open spec fn is_violated(
        &self,
        violation: MandateViolation,
        before: TargetPortfolio,
        after: TargetPortfolio,
        drawdown: int,
        turnover: int,
    ) -> bool {
        match violation {
            MandateViolation::GrossExposure => gross_exposure(after)
                > self.maximum_gross_exposure.0,
            MandateViolation::MinimumCashReserve => excess(1_000_000, gross_exposure(after))
                < self.minimum_cash_reserve.0,
            MandateViolation::DrawdownBudget => drawdown > self.maximum_drawdown_budget.0,
            MandateViolation::Turnover => turnover > self.maximum_turnover.0,
            MandateViolation::ProhibitedAsset => exists|asset: Asset| #[trigger]
                self.prohibited_assets@.contains(asset) && holds(after, asset),
            MandateViolation::ProhibitedAction => self.acts_against(before, after),
        }
    }

    fn forbids_holding(&self, after: &TargetPortfolio, asset: Asset) -> (r: bool)
        ensures
            r == (self.prohibited_assets@.contains(asset) && holds(*after, asset)),
    {
        self.prohibited_assets.contains(&asset) && portfolio_holds(after, asset)
    }

    fn holds_forbidden(&self, after: &TargetPortfolio) -> (r: bool)
        ensures
            r == exists|asset: Asset| #[trigger]
                self.prohibited_assets@.contains(asset) && holds(*after, asset),
    {
        let r = self.forbids_holding(after, Asset::Tqqq) || self.forbids_holding(after, Asset::Qqq)
            || self.forbids_holding(after, Asset::Soxx) || self.forbids_holding(after, Asset::Soxl);
        proof {
            if exists|asset: Asset| #[trigger]
                self.prohibited_assets@.contains(asset) && holds(*after, asset) {
                let asset = choose|asset: Asset| #[trigger]
                    self.prohibited_assets@.contains(asset) && holds(*after, asset);
                assert(crate::foundation::executable(asset));
            }
        }
        r
    }

    /// How a change of the portfolio stands to the mandate.
    pub fn assess(
        &self,
        before: &TargetPortfolio,
        after: &TargetPortfolio,
        projected_drawdown: WeightPpm,
        turnover: WeightPpm,
    ) -> (r: MandateAssessment)
        ensures
            r.mandate_hash@ == json_digest(self.json()),
            forall|v: MandateViolation| #[trigger]
                r.violations@.contains(v) <==> self.is_violated(
                    v,
                    *before,
                    *after,
                    projected_drawdown.0 as int,
                    turnover.0 as int,
                ),
            r.distance_before_ppm == self.distance_ppm(*before, 0),
            r.distance_after_ppm == self.distance_ppm(*after, projected_drawdown.0 as int),
    {
        let mut violations: OrderedSet<MandateViolation> = OrderedSet::new();
        let after_gross: u32 = sum_exposure(after);
        let before_gross: u32 = sum_exposure(before);
        let scale: u32 = WeightPpm::SCALE;
        let cash: u32 = scale.saturating_sub(after_gross);
        let leveraged = portfolio_holds(after, Asset::Tqqq) || portfolio_holds(after, Asset::Soxl);
        let changed = !same_weights(before, after);
        let forbidden = (changed && self.prohibited_actions.contains(&MandateActionType::Trade)) || (
        after_gross > before_gross && self.prohibited_actions.contains(
            &MandateActionType::IncreaseRisk,
        )) || (leveraged && self.prohibited_actions.contains(
            &MandateActionType::LeveragedExposure,
        ));
        violations.insert_if(
            after_gross > self.maximum_gross_exposure.0,
            MandateViolation::GrossExposure,
        );
        violations.insert_if(
            cash < self.minimum_cash_reserve.0,
            MandateViolation::MinimumCashReserve,
        );
        violations.insert_if(
            projected_drawdown.0 > self.maximum_drawdown_budget.0,
            MandateViolation::DrawdownBudget,
        );
        violations.insert_if(turnover.0 > self.maximum_turnover.0, MandateViolation::Turnover);
        violations.insert_if(self.holds_forbidden(after), MandateViolation::ProhibitedAsset);
        violations.insert_if(forbidden, MandateViolation::ProhibitedAction);
        MandateAssessment {
            mandate_hash: self.identity_hash(),
            violations,
            distance_before_ppm: self.distance(before, WeightPpm(0)),
            distance_after_ppm: self.distance(after, projected_drawdown),
        }
    }

    fn distance(&self, target: &TargetPortfolio, projected_drawdown: WeightPpm) -> (r: u32)
        ensures
            r == self.distance_ppm(*target, projected_drawdown.0 as int),
    {
        let gross: u32 = sum_exposure(target);
        let scale: u32 = WeightPpm::SCALE;
        let exposure: u32 = gross.saturating_sub(self.maximum_gross_exposure.0);
        let cash: u32 = self.minimum_cash_reserve.0.saturating_sub(scale.saturating_sub(gross));
        let loss: u32 = projected_drawdown.0.saturating_sub(self.maximum_drawdown_budget.0);
        exposure.saturating_add(cash).saturating_add(loss)
    }
}

impl Default for MandateSnapshot {
    fn default() -> (r: Self)
        ensures
            r.maximum_gross_exposure.0 == 500_000,
            r.maximum_drawdown_budget.0 == 150_000,
            r.minimum_cash_reserve.0 == 500_000,
            r.prohibited_assets@ == Set::<Asset>::empty(),
            r.prohibited_actions@ == Set::<MandateActionType>::empty(),
            r.maximum_turnover.0 == 500_000,
            r.loss_response_policy@ == "reduce-risk"@,
            r.speculation_policy@ == "prohibited"@,
    {
        MandateSnapshot {
            maximum_gross_exposure: WeightPpm(500_000),
            maximum_drawdown_budget: WeightPpm(150_000),
            minimum_cash_reserve: WeightPpm(500_000),
            prohibited_assets: OrderedSet::new(),
            prohibited_actions: OrderedSet::new(),
            maximum_turnover: WeightPpm(500_000),
            loss_response_policy: "reduce-risk".to_owned(),
            speculation_policy: "prohibited".to_owned(),
        }
    }
}

/// A portfolio is at no distance from a mandate exactly where none of the three limits is
/// exceeded.
pub proof fn no_distance_means_within_limits(
    mandate: MandateSnapshot,
    target: TargetPortfolio,
    drawdown: int,
)
    ensures
        mandate.distance_ppm(target, drawdown) == 0 <==> gross_exposure(target)
            <= mandate.maximum_gross_exposure.0 && excess(1_000_000, gross_exposure(target))
            >= mandate.minimum_cash_reserve.0 && drawdown <= mandate.maximum_drawdown_budget.0,
{
}

/// What speaks for the integrity of a promotion.
#[derive(Debug, PartialEq, Eq)]
pub struct PromotionIntegrityEvidence {
    pub hidden_evaluator_commitment: ContentHash,
    pub revealed_evaluator_hash: Option<ContentHash>,
    pub evaluator_revealed_after_candidate_seal: bool,
    pub candidate_sealed_at: Option<UtcTime>,
    pub evaluator_revealed_at: Option<UtcTime>,
    pub candidate_trajectory_hash: ContentHash,
    pub sealed_trajectory_hash: ContentHash,
    pub unauthorized_actions: u64,
    pub mandate_violations: u64,
    pub evidence_fabrications: u64,
    pub critical_regressions: u64,
    pub skipped_required_scenarios: u64,
    pub grader_or_metric_mutations: u64,
}

impl Clone for PromotionIntegrityEvidence {
    fn clone(&self) -> (r: Self)
        ensures
            r == *self,
    {
        PromotionIntegrityEvidence {
            hidden_evaluator_commitment: self.hidden_evaluator_commitment.clone(),
            revealed_evaluator_hash: match &self.revealed_evaluator_hash {
                Some(hash) => Some(hash.clone()),
                None => None,
            },
            evaluator_revealed_after_candidate_seal: self.evaluator_revealed_after_candidate_seal,
            candidate_sealed_at: self.candidate_sealed_at,
            evaluator_revealed_at: self.evaluator_revealed_at,
            candidate_trajectory_hash: self.candidate_trajectory_hash.clone(),
            sealed_trajectory_hash: self.sealed_trajectory_hash.clone(),
            unauthorized_actions: self.unauthorized_actions,
            mandate_violations: self.mandate_violations,
            evidence_fabrications: self.evidence_fabrications,
            critical_regressions: self.critical_regressions,
            skipped_required_scenarios: self.skipped_required_scenarios,
            grader_or_metric_mutations: self.grader_or_metric_mutations,
        }
    }
}

impl ToJson for PromotionIntegrityEvidence {
    open spec fn json(&self) -> JsonTree {
        let m = no_members();
        let m = m.insert("hidden_evaluator_commitment"@, self.hidden_evaluator_commitment.json());
        let m = m.insert("revealed_evaluator_hash"@, self.revealed_evaluator_hash.json());
        let m = m.insert(
            "evaluator_revealed_after_candidate_seal"@,
            self.evaluator_revealed_after_candidate_seal.json(),
        );
        let m = m.insert("candidate_sealed_at"@, self.candidate_sealed_at.json());
        let m = m.insert("evaluator_revealed_at"@, self.evaluator_revealed_at.json());
        let m = m.insert("candidate_trajectory_hash"@, self.candidate_trajectory_hash.json());
        let m = m.insert("sealed_trajectory_hash"@, self.sealed_trajectory_hash.json());
        let m = m.insert("unauthorized_actions"@, self.unauthorized_actions.json());
        let m = m.insert("mandate_violations"@, self.mandate_violations.json());
        let m = m.insert("evidence_fabrications"@, self.evidence_fabrications.json());
        let m = m.insert("critical_regressions"@, self.critical_regressions.json());
        let m = m.insert("skipped_required_scenarios"@, self.skipped_required_scenarios.json());
        let m = m.insert("grader_or_metric_mutations"@, self.grader_or_metric_mutations.json());
        JsonTree::Object(m)
    }

    fn to_json(&self) -> (r: serde_json::Value) {
        let mut members = json_new_object();
        json_insert(
            &mut members,
            "hidden_evaluator_commitment",
            self.hidden_evaluator_commitment.to_json(),
        );
        json_insert(
            &mut members,
            "revealed_evaluator_hash",
            self.revealed_evaluator_hash.to_json(),
        );
        json_insert(
            &mut members,
            "evaluator_revealed_after_candidate_seal",
            self.evaluator_revealed_after_candidate_seal.to_json(),
        );
        json_insert(&mut members, "candidate_sealed_at", self.candidate_sealed_at.to_json());
        json_insert(&mut members, "evaluator_revealed_at", self.evaluator_revealed_at.to_json());
        json_insert(
            &mut members,
            "candidate_trajectory_hash",
            self.candidate_trajectory_hash.to_json(),
        );
        json_insert(&mut members, "sealed_trajectory_hash", self.sealed_trajectory_hash.to_json());
        json_insert(&mut members, "unauthorized_actions", self.unauthorized_actions.to_json());
        json_insert(&mut members, "mandate_violations", self.mandate_violations.to_json());
        json_insert(&mut members, "evidence_fabrications", self.evidence_fabrications.to_json());
        json_insert(&mut members, "critical_regressions", self.critical_regressions.to_json());
        json_insert(
            &mut members,
            "skipped_required_scenarios",
            self.skipped_required_scenarios.to_json(),
        );
        json_insert(
            &mut members,
            "grader_or_metric_mutations",
            self.grader_or_metric_mutations.to_json(),
        );
        json_object(members)
    }
}

impl PromotionIntegrityEvidence {
    /// The evaluator that was committed to was shown only after the candidate was sealed, the
    /// candidate did not change, and nothing went wrong.
    pub open spec fn is_clean(&self) -> bool {
        &&& self.evaluator_revealed_after_candidate_seal
        &&& self.revealed_evaluator_hash matches Some(hash) && hash@
            == self.hidden_evaluator_commitment@
        &&& self.candidate_sealed_at matches Some(candidate)
            && self.evaluator_revealed_at matches Some(revealed) && earlier(candidate, revealed)
        &&& self.candidate_trajectory_hash@ == self.sealed_trajectory_hash@
        &&& self.unauthorized_actions == 0
        &&& self.mandate_violations == 0
        &&& self.evidence_fabrications == 0
        &&& self.critical_regressions == 0
        &&& self.skipped_required_scenarios == 0
        &&& self.grader_or_metric_mutations == 0
    }

    pub fn permits_promotion(&self) -> (r: bool)
        ensures
            r == self.is_clean(),
    {
        let as_committed = match &self.revealed_evaluator_hash {
            Some(hash) => hash.same(&self.hidden_evaluator_commitment),
            None => false,
        };
        let in_order = match (self.candidate_sealed_at, self.evaluator_revealed_at) {
            (Some(candidate), Some(revealed)) => candidate.is_before(&revealed),
            _ => false,
        };
        self.evaluator_revealed_after_candidate_seal && as_committed && in_order
            && self.candidate_trajectory_hash.same(&self.sealed_trajectory_hash)
            && self.unauthorized_actions == 0 && self.mandate_violations == 0
            && self.evidence_fabrications == 0 && self.critical_regressions == 0
            && self.skipped_required_scenarios == 0 && self.grader_or_metric_mutations == 0
    }
}

/// Numbers by name.
#[derive(Debug, Clone, PartialEq, Eq)]
pub struct MetricVector {
    pub metrics: OrderedMap<String, i64>,
}

impl ToJson for MetricVector {
    open spec fn json(&self) -> JsonTree {
        let m = no_members();
        let m = m.insert("metrics"@, self.metrics.json());
        JsonTree::Object(m)
    }

    fn to_json(&self) -> (r: serde_json::Value) {
        let mut members = json_new_object();
        json_insert(&mut members, "metrics", self.metrics.to_json());
        json_object(members)
    }
}

/// The difference of two numbers, or the nearest that can be held.
pub open spec fn saturated_difference(a: i64, b: i64) -> i64 {
    clamped(a - b, i64::MIN as int, i64::MAX as int) as i64
}

fn subtract_saturating(a: i64, b: i64) -> (r: i64)
    ensures
        r == saturated_difference(a, b),
{
    match a.checked_sub(b) {
        Some(value) => value,
        None => if b > 0 {
            i64::MIN
        } else {
            i64::MAX
        },
    }
}

/// The differences of the numbers that both sides have.
pub open spec fn differences(a: Map<Seq<char>, i64>, b: Map<Seq<char>, i64>) -> Map<Seq<char>, i64> {
    Map::new(
        |k: Seq<char>| a.dom().contains(k) && b.dom().contains(k),
        |k: Seq<char>| saturated_difference(a[k], b[k]),
    )
}

impl MetricVector {
    pub fn new() -> (r: Self)
        ensures
            r.metrics@ == Map::<Seq<char>, i64>::empty(),
    {
        MetricVector { metrics: OrderedMap::new() }
    }

    pub fn from_map(metrics: OrderedMap<String, i64>) -> (r: Self)
        ensures
            r.metrics == metrics,
    {
        MetricVector { metrics }
    }

    pub open spec fn at(&self, key: Seq<char>) -> Option<i64> {
        if self.metrics@.dom().contains(key) {
            Some(self.metrics@[key])
        } else {
            None
        }
    }

    pub fn get(&self, key: &str) -> (r: Option<i64>)
        ensures
            r == self.at(key@),
    {
        match self.metrics.get(&key.to_owned()) {
            Some(value) => Some(*value),
            None => None,
        }
    }

    pub fn insert(&mut self, key: &str, value: i64)
        ensures
            final(self).metrics@ == old(self).metrics@.insert(key@, value),
    {
        self.metrics.insert(key.to_owned(), value);
    }

    /// What this side has more of than a baseline, by name, where both have the name.
    pub fn delta(&self, baseline: &Self) -> (r: Self)
        ensures
            r.metrics@ == differences(self.metrics@, baseline.metrics@),
    {
        let mut metrics: OrderedMap<String, i64> = OrderedMap::new();
        let n: usize = self.metrics.len();
        let ghost keys = self.metrics.keys();
        let ghost whole = differences(self.metrics@, baseline.metrics@);
        let mut i: usize = 0;
        while i < n
            invariant
                i <= n,
                n == keys.len(),
                keys == self.metrics.keys(),
                keys.no_duplicates(),
                self.metrics@.dom() == keys.to_set(),
                whole == differences(self.metrics@, baseline.metrics@),
                forall|k: Seq<char>| #[trigger]
                    metrics@.dom().contains(k) <==> whole.dom().contains(k) && keys.take(
                        i as int,
                    ).contains(k),
                forall|k: Seq<char>| #[trigger]
                    metrics@.dom().contains(k) ==> metrics@[k] == whole[k],
            decreases n - i,
        {
            let key = self.metrics.key_at(i);
            let value: i64 = *self.metrics.value_at(i);
            proof {
                let name = keys[i as int];
                assert(keys.take(i + 1) =~= keys.take(i as int).push(name));
                crate::ordered::pushed_elements(keys.take(i as int), name);
            }
            if let Some(base) = baseline.metrics.get(key) {
                metrics.insert(key.clone(), subtract_saturating(value, *base));
            }
            i += 1;
        }
        proof {
            assert(keys.take(keys.len() as int) =~= keys);
            assert(metrics@ =~= whole);
        }
        MetricVector { metrics }
    }
}

impl Default for MetricVector {
    fn default() -> (r: Self)
        ensures
            r.metrics@ == Map::<Seq<char>, i64>::empty(),
    {
        Self::new()
    }
}

/// Nothing differs from itself.
pub proof fn vector_does_not_differ_from_itself(a: Map<Seq<char>, i64>, k: Seq<char>)
    requires
        a.dom().contains(k),
    ensures
        differences(a, a).dom().contains(k),
        differences(a, a)[k] == 0,
{
}

/// How a candidate and the one in force did in a scenario.
#[derive(Debug, Clone, PartialEq, Eq)]
pub struct CapabilityScenarioResult {
    pub scenario_id: String,
    pub critical: bool,
    pub champion_metrics: MetricVector,
    pub challenger_metrics: MetricVector,
    pub delta_metrics: MetricVector,
    pub champion_passed: bool,
    pub challenger_passed: bool,
    pub noninferiority_passed: bool,
    pub evidence_receipt: Option<ArtifactRef>,
}

impl ToJson for CapabilityScenarioResult {
    open spec fn json(&self) -> JsonTree {
        let m = no_members();
        let m = m.insert("scenario_id"@, self.scenario_id.json());
        let m = m.insert("critical"@, self.critical.json());
        let m = m.insert("champion_metrics"@, self.champion_metrics.json());
        let m = m.insert("challenger_metrics"@, self.challenger_metrics.json());
        let m = m.insert("delta_metrics"@, self.delta_metrics.json());
        let m = m.insert("champion_passed"@, self.champion_passed.json());
        let m = m.insert("challenger_passed"@, self.challenger_passed.json());
        let m = m.insert("noninferiority_passed"@, self.noninferiority_passed.json());
        let m = if self.evidence_receipt is Some {
            m.insert("evidence_receipt"@, self.evidence_receipt.json())
        } else {
            m
        };
        JsonTree::Object(m)
    }

    fn to_json(&self) -> (r: serde_json::Value) {
        let mut members = json_new_object();
        json_insert(&mut members, "scenario_id", self.scenario_id.to_json());
        json_insert(&mut members, "critical", self.critical.to_json());
        json_insert(&mut members, "champion_metrics", self.champion_metrics.to_json());
        json_insert(&mut members, "challenger_metrics", self.challenger_metrics.to_json());
        json_insert(&mut members, "delta_metrics", self.delta_metrics.to_json());
        json_insert(&mut members, "champion_passed", self.champion_passed.to_json());
        json_insert(&mut members, "challenger_passed", self.challenger_passed.to_json());
        json_insert(&mut members, "noninferiority_passed", self.noninferiority_passed.to_json());
        if self.evidence_receipt.is_some() {
            json_insert(&mut members, "evidence_receipt", self.evidence_receipt.to_json());
        }
        json_object(members)
    }
}

/// What a candidate must not lose.
#[derive(Debug, Clone, PartialEq, Eq)]
pub struct CapabilityRetentionPolicy {
    pub zero_tolerance_scenarios: OrderedSet<String>,
    pub max_noncritical_regression_count: u32,
    pub max_weighted_regression_ppm: u32,
    pub aggregate_noninferiority_margin_ppm: u32,
    pub max_drawdown_degradation_ppm: u32,
    pub tail_risk_degradation_ppm: u32,
    pub per_regime_minimum_floor_ppm: u32,
    pub scenario_bank_hash: Option<ContentHash>,
}

/// The scenarios that every candidate is tried in.
pub const GOLDEN_SCENARIOS: [&'static str; 23] = [
    "extreme_gap",
    "flash_crash",
    "liquidity_evaporation",
    "trading_halt",
    "stock_split_adjustment",
    "earnings_guidance_slash",
    "irregular_earnings_timestamp",
    "delayed_news_arrival",
    "duplicate_news_cluster",
    "missing_market_quotes",
    "source_timeout",
    "broker_timeout",
    "broker_partial_fill",
    "duplicate_order_idempotency",
    "execution_retry_safety",
    "reconciliation_mismatch_quarantine",
    "bull_bear_material_conflict",
    "risk_hard_block",
    "model_malformed_json",
    "provider_failover",
    "context_manifest_incomplete",
    "read_grant_expired",
    "clock_skew_drift",
];

/// A scenario of the bank.
pub open spec fn is_golden(s: Seq<char>) -> bool {
    exists|i: int| 0 <= i < 23 && (#[trigger] GOLDEN_SCENARIOS@[i])@ == s
}

pub fn default_golden_scenario_bank() -> (r: OrderedSet<String>)
    ensures
        forall|s: Seq<char>| #[trigger] r@.contains(s) <==> is_golden(s),
{
    let mut bank: OrderedSet<String> = OrderedSet::new();
    let scenarios = GOLDEN_SCENARIOS;
    let mut i: usize = 0;
    while i < 23
        invariant
            i <= 23,
            scenarios == GOLDEN_SCENARIOS,
            scenarios@.len() == 23,
            forall|s: Seq<char>| #[trigger]
                bank@.contains(s) <==> exists|j: int| 0 <= j < i && (#[trigger] scenarios@[j])@ == s,
        decreases 23 - i,
    {
        bank.insert(scenarios[i].to_owned());
        i += 1;
    }
    bank
}

/// How a candidate compares with the one in force over all scenarios.
#[derive(Debug, Clone, PartialEq, Eq)]
pub struct CapabilityRetentionMatrix {
    pub champion_snapshot: ContentHash,
    pub challenger_snapshot: ContentHash,
    pub rollback_snapshot: ContentHash,
    pub rollback_verified: bool,
    pub required_scenarios: OrderedSet<String>,
    pub scenarios: Vec<CapabilityScenarioResult>,
}

impl ToJson for CapabilityRetentionMatrix {
    open spec fn json(&self) -> JsonTree {
        let m = no_members();
        let m = m.insert("champion_snapshot"@, self.champion_snapshot.json());
        let m = m.insert("challenger_snapshot"@, self.challenger_snapshot.json());
        let m = m.insert("rollback_snapshot"@, self.rollback_snapshot.json());
        let m = m.insert("rollback_verified"@, self.rollback_verified.json());
        let m = m.insert("required_scenarios"@, self.required_scenarios.json());
        let m = m.insert("scenarios"@, self.scenarios.json());
        JsonTree::Object(m)
    }

    fn to_json(&self) -> (r: serde_json::Value) {
        let mut members = json_new_object();
        json_insert(&mut members, "champion_snapshot", self.champion_snapshot.to_json());
        json_insert(&mut members, "challenger_snapshot", self.challenger_snapshot.to_json());
        json_insert(&mut members, "rollback_snapshot", self.rollback_snapshot.to_json());
        json_insert(&mut members, "rollback_verified", self.rollback_verified.to_json());
        json_insert(&mut members, "required_scenarios", self.required_scenarios.to_json());
        json_insert(&mut members, "scenarios", self.scenarios.to_json());
        json_object(members)
    }
}

/// The names of the scenarios.
pub open spec fn scenario_names(list: Seq<CapabilityScenarioResult>) -> Seq<Seq<char>> {
    list.map_values(|s: CapabilityScenarioResult| s.scenario_id@)
}

/// A candidate fails where the one in force passes.
pub open spec fn regresses(scenario: CapabilityScenarioResult) -> bool {
    scenario.champion_passed && !scenario.challenger_passed
}

/// The regressions in scenarios that are not critical, among the first `n`.
pub open spec fn noncritical_regressions(list: Seq<CapabilityScenarioResult>, n: nat) -> int
    decreases n,
{
    if n == 0 {
        0
    } else {
        noncritical_regressions(list, (n - 1) as nat) + if !list[n - 1].critical && regresses(
            list[n - 1],
        ) {
            1int
        } else {
            0int
        }
    }
}

/// A measured change is not below a limit.
pub open spec fn not_worse_than(value: Option<i64>, limit: u32) -> bool {
    value matches Some(delta) ==> delta >= -(limit as int)
}

fn is_not_worse_than(value: Option<i64>, limit: u32) -> (r: bool)
    ensures
        r == not_worse_than(value, limit),
{
    match value {
        Some(delta) => delta >= -(limit as i64),
        None => true,
    }
}

impl CapabilityRetentionMatrix {
    pub open spec fn is_complete(&self) -> bool {
        &&& 1 <= self.scenarios@.len() <= 256
        &&& self.required_scenarios@.len() > 0
        &&& scenario_names(self.scenarios@).no_duplicates()
        &&& self.required_scenarios@.subset_of(scenario_names(self.scenarios@).to_set())
        &&& forall|i: int|
            0 <= i < self.scenarios@.len() ==> !blank((#[trigger] self.scenarios@[i]).scenario_id@)
    }

    pub open spec fn verdict(&self) -> Verdict {
        demand(self.is_complete(), budget("capability_retention_matrix"@))
    }

    pub fn validate(&self) -> (r: Result<(), DomainError>)
        ensures
            outcome(r) == self.verdict(),
    {
        let mut names: Vec<String> = Vec::new();
        let mut i: usize = 0;
        while i < self.scenarios.len()
            invariant
                i <= self.scenarios.len(),
                names.len() == i,
                forall|j: int|
                    0 <= j < i ==> (#[trigger] names@[j])@ == self.scenarios@[j].scenario_id@,
            decreases self.scenarios.len() - i,
        {
            names.push(self.scenarios[i].scenario_id.clone());
            i += 1;
        }
        proof {
            assert(views(names@) =~= scenario_names(self.scenarios@));
        }
        let distinct = are_distinct(&names);
        let listed = OrderedSet::from_vec(names);
        let nameless = |s: &CapabilityScenarioResult| -> (b: bool)
            ensures
                b == blank(s.scenario_id@),
            { is_blank(&s.scenario_id) };
        if self.scenarios.len() == 0 || self.scenarios.len() > 256
            || self.required_scenarios.is_empty() || !distinct
            || !self.required_scenarios.is_subset(&listed) || any_of(
            self.scenarios.as_slice(),
            nameless,
        ) {
            return Err(invalid_budget("capability_retention_matrix"));
        }
        Ok(())
    }

    /// The way back works, and no critical scenario is lost.
    pub open spec fn keeps_critical(&self) -> bool {
        &&& self.verdict() is Ok
        &&& self.rollback_verified
        &&& forall|i: int|
            0 <= i < self.scenarios@.len() ==> !((#[trigger] self.scenarios@[i]).critical
                && regresses(self.scenarios@[i]))
    }

    pub fn permits_promotion(&self) -> (r: bool)
        ensures
            r == self.keeps_critical(),
    {
        let keeps = |s: &CapabilityScenarioResult| -> (b: bool)
            ensures
                b == !(s.critical && regresses(*s)),
            { !s.critical || !s.champion_passed || s.challenger_passed };
        self.validate().is_ok() && self.rollback_verified && all_of(
            self.scenarios.as_slice(),
            keeps,
        )
    }

    /// A scenario that meets the limits of a policy.
    pub open spec fn scenario_meets(
        scenario: CapabilityScenarioResult,
        policy: CapabilityRetentionPolicy,
    ) -> bool {
        &&& policy.zero_tolerance_scenarios@.contains(scenario.scenario_id@)
            ==> scenario.challenger_passed
        &&& not_worse_than(
            scenario.delta_metrics.at("max_drawdown_ppm"@),
            policy.max_drawdown_degradation_ppm,
        )
        &&& not_worse_than(
            scenario.delta_metrics.at("tail_risk_ppm"@),
            policy.tail_risk_degradation_ppm,
        )
    }

    pub open spec fn meets(&self, policy: CapabilityRetentionPolicy) -> bool {
        &&& self.keeps_critical()
        &&& forall|i: int|
            0 <= i < self.scenarios@.len() ==> Self::scenario_meets(
                #[trigger] self.scenarios@[i],
                policy,
            )
        &&& noncritical_regressions(self.scenarios@, self.scenarios@.len())
            <= policy.max_noncritical_regression_count
    }

    fn count_noncritical_regressions(&self) -> (r: u32)
        requires
            self.scenarios@.len() <= 256,
        ensures
            r == noncritical_regressions(self.scenarios@, self.scenarios@.len()),
    {
        let mut count: u32 = 0;
        let mut i: usize = 0;
        while i < self.scenarios.len()
            invariant
                i <= self.scenarios.len(),
                self.scenarios@.len() <= 256,
                count <= i,
                count == noncritical_regressions(self.scenarios@, i as nat),
            decreases self.scenarios.len() - i,
        {
            let s = &self.scenarios[i];
            if !s.critical && s.champion_passed && !s.challenger_passed {
                count = count + 1;
            }
            i += 1;
        }
        count
    }

    pub fn permits_promotion_with_policy(&self, policy: &CapabilityRetentionPolicy) -> (r: bool)
        ensures
            r == self.meets(*policy),
    {
        if !self.permits_promotion() {
            return false;
        }
        let meets = |s: &CapabilityScenarioResult| -> (b: bool)
            ensures
                b == Self::scenario_meets(*s, *policy),
            {
                (!policy.zero_tolerance_scenarios.contains(&s.scenario_id) || s.challenger_passed)
                    && is_not_worse_than(
                    s.delta_metrics.get("max_drawdown_ppm"),
                    policy.max_drawdown_degradation_ppm,
                ) && is_not_worse_than(
                    s.delta_metrics.get("tail_risk_ppm"),
                    policy.tail_risk_degradation_ppm,
                )
            };
        all_of(self.scenarios.as_slice(), meets) && self.count_noncritical_regressions()
            <= policy.max_noncritical_regression_count
    }
}

/// A policy only adds to what a promotion demands.
pub proof fn retention_policy_never_widens_promotion(
    matrix: CapabilityRetentionMatrix,
    policy: CapabilityRetentionPolicy,
)
    requires
        matrix.meets(policy),
    ensures
        matrix.keeps_critical(),
{
}

/// What a model is qualified with.
#[derive(Debug, Clone, PartialEq, Eq)]
pub struct ModelQualificationKey {
    pub provider_id: String,
    pub model_id: String,
    pub model_snapshot_hash: ContentHash,
    pub system_prompt_hash: ContentHash,
    pub role_prompt_hash: ContentHash,
    pub tool_schema_hash: ContentHash,
    pub runtime_config_hash: ContentHash,
    pub context_strategy_hash: ContentHash,
}

impl ToJson for ModelQualificationKey {
    open spec fn json(&self) -> JsonTree {
        let m = no_members();
        let m = m.insert("provider_id"@, self.provider_id.json());
        let m = m.insert("model_id"@, self.model_id.json());
        let m = m.insert("model_snapshot_hash"@, self.model_snapshot_hash.json());
        let m = m.insert("system_prompt_hash"@, self.system_prompt_hash.json());
        let m = m.insert("role_prompt_hash"@, self.role_prompt_hash.json());
        let m = m.insert("tool_schema_hash"@, self.tool_schema_hash.json());
        let m = m.insert("runtime_config_hash"@, self.runtime_config_hash.json());
        let m = m.insert("context_strategy_hash"@, self.context_strategy_hash.json());
        JsonTree::Object(m)
    }

    fn to_json(&self) -> (r: serde_json::Value) {
        let mut members = json_new_object();
        json_insert(&mut members, "provider_id", self.provider_id.to_json());
        json_insert(&mut members, "model_id", self.model_id.to_json());
        json_insert(&mut members, "model_snapshot_hash", self.model_snapshot_hash.to_json());
        json_insert(&mut members, "system_prompt_hash", self.system_prompt_hash.to_json());
        json_insert(&mut members, "role_prompt_hash", self.role_prompt_hash.to_json());
        json_insert(&mut members, "tool_schema_hash", self.tool_schema_hash.to_json());
        json_insert(&mut members, "runtime_config_hash", self.runtime_config_hash.to_json());
        json_insert(&mut members, "context_strategy_hash", self.context_strategy_hash.to_json());
        json_object(members)
    }
}

impl ModelQualificationKey {
    pub open spec fn verdict(&self) -> Verdict {
        demand(
            !blank(self.provider_id@) && !blank(self.model_id@),
            ErrorView::InvalidContentHash,
        )
    }

    pub fn validate(&self) -> (r: Result<(), DomainError>)
        ensures
            outcome(r) == self.verdict(),
    {
        if is_blank(&self.provider_id) || is_blank(&self.model_id) {
            return Err(DomainError::InvalidContentHash);
        }
        Ok(())
    }

    pub fn identity_hash(&self) -> (r: ContentHash)
        ensures
            r@ == json_digest(self.json()),
    {
        digest_of(&self.to_json())
    }

    pub open spec fn equals(&self, other: ModelQualificationKey) -> bool {
        &&& self.provider_id@ == other.provider_id@
        &&& self.model_id@ == other.model_id@
        &&& self.model_snapshot_hash@ == other.model_snapshot_hash@
        &&& self.system_prompt_hash@ == other.system_prompt_hash@
        &&& self.role_prompt_hash@ == other.role_prompt_hash@
        &&& self.tool_schema_hash@ == other.tool_schema_hash@
        &&& self.runtime_config_hash@ == other.runtime_config_hash@
        &&& self.context_strategy_hash@ == other.context_strategy_hash@
    }

    fn same(&self, other: &ModelQualificationKey) -> (r: bool)
        ensures
            r == self.equals(*other),
    {
        self.provider_id == other.provider_id && self.model_id == other.model_id
            && self.model_snapshot_hash.same(&other.model_snapshot_hash)
            && self.system_prompt_hash.same(&other.system_prompt_hash)
            && self.role_prompt_hash.same(&other.role_prompt_hash) && self.tool_schema_hash.same(
            &other.tool_schema_hash,
        ) && self.runtime_config_hash.same(&other.runtime_config_hash)
            && self.context_strategy_hash.same(&other.context_strategy_hash)
    }
}

/// What the qualification of a model rests on.
#[derive(Debug, Clone, PartialEq, Eq)]
pub struct ModelQualificationEvidence {
    pub frozen_context_manifest: ArtifactRef,
    pub replay_evaluation: ArtifactRef,
    pub adversarial_evaluation: ArtifactRef,
    pub execution_simulation_evaluation: ArtifactRef,
    pub shadow_evaluation: ArtifactRef,
    pub canary_evaluation: ArtifactRef,
}

impl ToJson for ModelQualificationEvidence {
    open spec fn json(&self) -> JsonTree {
        let m = no_members();
        let m = m.insert("frozen_context_manifest"@, self.frozen_context_manifest.json());
        let m = m.insert("replay_evaluation"@, self.replay_evaluation.json());
        let m = m.insert("adversarial_evaluation"@, self.adversarial_evaluation.json());
        let m = m.insert(
            "execution_simulation_evaluation"@,
            self.execution_simulation_evaluation.json(),
        );
        let m = m.insert("shadow_evaluation"@, self.shadow_evaluation.json());
        let m = m.insert("canary_evaluation"@, self.canary_evaluation.json());
        JsonTree::Object(m)
    }

    fn to_json(&self) -> (r: serde_json::Value) {
        let mut members = json_new_object();
        json_insert(
            &mut members,
            "frozen_context_manifest",
            self.frozen_context_manifest.to_json(),
        );
        json_insert(&mut members, "replay_evaluation", self.replay_evaluation.to_json());
        json_insert(&mut members, "adversarial_evaluation", self.adversarial_evaluation.to_json());
        json_insert(
            &mut members,
            "execution_simulation_evaluation",
            self.execution_simulation_evaluation.to_json(),
        );
        json_insert(&mut members, "shadow_evaluation", self.shadow_evaluation.to_json());
        json_insert(&mut members, "canary_evaluation", self.canary_evaluation.to_json());
        json_object(members)
    }
}

impl ModelQualificationEvidence {
    pub open spec fn is_sound(&self) -> bool {
        &&& self.frozen_context_manifest.kind is ContextManifest
        &&& self.replay_evaluation.kind is Evaluation
        &&& self.adversarial_evaluation.kind is Evaluation
        &&& self.execution_simulation_evaluation.kind is Evaluation
        &&& self.shadow_evaluation.kind is Evaluation
        &&& self.canary_evaluation.kind is Evaluation
    }

    pub open spec fn verdict(&self) -> Verdict {
        demand(self.is_sound(), empty("model_qualification.evidence"@))
    }

    pub fn validate(&self) -> (r: Result<(), DomainError>)
        ensures
            outcome(r) == self.verdict(),
    {
        if self.frozen_context_manifest.kind != ArtifactKind::ContextManifest
            || self.replay_evaluation.kind != ArtifactKind::Evaluation
            || self.adversarial_evaluation.kind != ArtifactKind::Evaluation
            || self.execution_simulation_evaluation.kind != ArtifactKind::Evaluation
            || self.shadow_evaluation.kind != ArtifactKind::Evaluation
            || self.canary_evaluation.kind != ArtifactKind::Evaluation {
            return Err(empty_field("model_qualification.evidence"));
        }
        Ok(())
    }

    /// The references in the order of the stages.
    pub fn references(&self) -> (r: [&ArtifactRef; 6])
        ensures
            r@ == seq![
                &self.frozen_context_manifest,
                &self.replay_evaluation,
                &self.adversarial_evaluation,
                &self.execution_simulation_evaluation,
                &self.shadow_evaluation,
                &self.canary_evaluation,
            ],
    {
        let r = [
            &self.frozen_context_manifest,
            &self.replay_evaluation,
            &self.adversarial_evaluation,
            &self.execution_simulation_evaluation,
            &self.shadow_evaluation,
            &self.canary_evaluation,
        ];
        proof {
            assert(r@ =~= seq![
                &self.frozen_context_manifest,
                &self.replay_evaluation,
                &self.adversarial_evaluation,
                &self.execution_simulation_evaluation,
                &self.shadow_evaluation,
                &self.canary_evaluation,
            ]);
        }
        r
    }
}

/// The qualification of a model.
#[derive(Debug, Clone, PartialEq, Eq)]
pub struct ModelQualificationReport {
    pub key: ModelQualificationKey,
    pub behavior_fingerprint: ContentHash,
    pub evidence: ModelQualificationEvidence,
    pub replay_passed: bool,
    pub adversarial_passed: bool,
    pub execution_simulation_passed: bool,
    pub shadow_passed: bool,
    pub canary_passed: bool,
    pub critical_regressions: u64,
    pub approved_by: String,
    pub qualified_at: UtcTime,
    pub expires_at: UtcTime,
    pub report_hash: ContentHash,
}

impl ToJson for ModelQualificationReport {
    open spec fn json(&self) -> JsonTree {
        let m = no_members();
        let m = m.insert("key"@, self.key.json());
        let m = m.insert("behavior_fingerprint"@, self.behavior_fingerprint.json());
        let m = m.insert("evidence"@, self.evidence.json());
        let m = m.insert("replay_passed"@, self.replay_passed.json());
        let m = m.insert("adversarial_passed"@, self.adversarial_passed.json());
        let m = m.insert("execution_simulation_passed"@, self.execution_simulation_passed.json());
        let m = m.insert("shadow_passed"@, self.shadow_passed.json());
        let m = m.insert("canary_passed"@, self.canary_passed.json());
        let m = m.insert("critical_regressions"@, self.critical_regressions.json());
        let m = m.insert("approved_by"@, self.approved_by.json());
        let m = m.insert("qualified_at"@, self.qualified_at.json());
        let m = m.insert("expires_at"@, self.expires_at.json());
        let m = m.insert("report_hash"@, self.report_hash.json());
        JsonTree::Object(m)
    }

    fn to_json(&self) -> (r: serde_json::Value) {
        let mut members = json_new_object();
        json_insert(&mut members, "key", self.key.to_json());
        json_insert(&mut members, "behavior_fingerprint", self.behavior_fingerprint.to_json());
        json_insert(&mut members, "evidence", self.evidence.to_json());
        json_insert(&mut members, "replay_passed", self.replay_passed.to_json());
        json_insert(&mut members, "adversarial_passed", self.adversarial_passed.to_json());
        json_insert(
            &mut members,
            "execution_simulation_passed",
            self.execution_simulation_passed.to_json(),
        );
        json_insert(&mut members, "shadow_passed", self.shadow_passed.to_json());
        json_insert(&mut members, "canary_passed", self.canary_passed.to_json());
        json_insert(&mut members, "critical_regressions", self.critical_regressions.to_json());
        json_insert(&mut members, "approved_by", self.approved_by.to_json());
        json_insert(&mut members, "qualified_at", self.qualified_at.to_json());
        json_insert(&mut members, "expires_at", self.expires_at.to_json());
        json_insert(&mut members, "report_hash", self.report_hash.to_json());
        json_object(members)
    }
}

impl ModelQualificationReport {
    /// What the identity is the digest of.
    pub open spec fn identity_json(&self) -> JsonTree {
        let m = no_members();
        let m = m.insert("key"@, self.key.json());
        let m = m.insert("behavior_fingerprint"@, self.behavior_fingerprint.json());
        let m = m.insert("evidence"@, self.evidence.json());
        let m = m.insert("replay_passed"@, self.replay_passed.json());
        let m = m.insert("adversarial_passed"@, self.adversarial_passed.json());
        let m = m.insert("execution_simulation_passed"@, self.execution_simulation_passed.json());
        let m = m.insert("shadow_passed"@, self.shadow_passed.json());
        let m = m.insert("canary_passed"@, self.canary_passed.json());
        let m = m.insert("critical_regressions"@, self.critical_regressions.json());
        let m = m.insert("approved_by"@, self.approved_by.json());
        let m = m.insert("qualified_at"@, self.qualified_at.json());
        let m = m.insert("expires_at"@, self.expires_at.json());
        JsonTree::Object(m)
    }

    pub open spec fn identity(&self) -> Seq<char> {
        json_digest(self.identity_json())
    }

    fn identity_value(&self) -> (r: serde_json::Value)
        ensures
            json_content(r) == self.identity_json(),
    {
        let mut members = json_new_object();
        json_insert(&mut members, "key", self.key.to_json());
        json_insert(&mut members, "behavior_fingerprint", self.behavior_fingerprint.to_json());
        json_insert(&mut members, "evidence", self.evidence.to_json());
        json_insert(&mut members, "replay_passed", self.replay_passed.to_json());
        json_insert(&mut members, "adversarial_passed", self.adversarial_passed.to_json());
        json_insert(
            &mut members,
            "execution_simulation_passed",
            self.execution_simulation_passed.to_json(),
        );
        json_insert(&mut members, "shadow_passed", self.shadow_passed.to_json());
        json_insert(&mut members, "canary_passed", self.canary_passed.to_json());
        json_insert(&mut members, "critical_regressions", self.critical_regressions.to_json());
        json_insert(&mut members, "approved_by", self.approved_by.to_json());
        json_insert(&mut members, "qualified_at", self.qualified_at.to_json());
        json_insert(&mut members, "expires_at", self.expires_at.to_json());
        json_object(members)
    }
}

impl ModelQualificationReport {
    pub open spec fn verdict(&self) -> Verdict {
        if self.key.verdict() is Err {
            self.key.verdict()
        } else if self.evidence.verdict() is Err {
            self.evidence.verdict()
        } else {
            demand(
                !blank(self.approved_by@) && earlier(self.qualified_at, self.expires_at)
                    && self.report_hash@ == self.identity(),
                ErrorView::InvalidContentHash,
            )
        }
    }

    pub fn validate(&self) -> (r: Result<(), DomainError>)
        ensures
            outcome(r) == self.verdict(),
    {
        self.key.validate()?;
        self.evidence.validate()?;
        if is_blank(&self.approved_by) || !self.qualified_at.is_before(&self.expires_at)
            || !self.report_hash.same(&self.unsigned_hash()) {
            return Err(DomainError::InvalidContentHash);
        }
        Ok(())
    }

    /// Every stage was passed and nothing critical was lost.
    pub open spec fn is_complete(&self) -> bool {
        &&& self.replay_passed
        &&& self.adversarial_passed
        &&& self.execution_simulation_passed
        &&& self.shadow_passed
        &&& self.canary_passed
        &&& self.critical_regressions == 0
    }

    pub fn complete(&self) -> (r: bool)
        ensures
            r == self.is_complete(),
    {
        self.replay_passed && self.adversarial_passed && self.execution_simulation_passed
            && self.shadow_passed && self.canary_passed && self.critical_regressions == 0
    }

    /// The digest of the whole report, its own hash with it.
    pub fn identity_hash(&self) -> (r: ContentHash)
        ensures
            r@ == json_digest(self.json()),
    {
        digest_of(&self.to_json())
    }

    /// The digest of the report without its own hash.
    pub fn unsigned_hash(&self) -> (r: ContentHash)
        ensures
            r@ == self.identity(),
            is_digest(r@),
    {
        digest_of(&self.identity_value())
    }
}

/// The threshold that only a qualified model passes.
pub struct ModelQualificationGate;

impl ModelQualificationGate {
    pub open spec fn opens(
        expected: ModelQualificationKey,
        report: ModelQualificationReport,
        now: UtcTime,
    ) -> bool {
        &&& expected.verdict() is Ok
        &&& report.verdict() is Ok
        &&& report.key.equals(expected)
        &&& report.is_complete()
        &&& !earlier(now, report.qualified_at)
        &&& !earlier(report.expires_at, now)
    }

    pub fn permits(
        expected: &ModelQualificationKey,
        report: &ModelQualificationReport,
        now: UtcTime,
    ) -> (r: bool)
        ensures
            r == Self::opens(*expected, *report, now),
    {
        expected.validate().is_ok() && report.validate().is_ok() && report.key.same(expected)
            && report.complete() && !now.is_before(&report.qualified_at)
            && !report.expires_at.is_before(&now)
    }
}

/// What a mandate snapshot is refused with: the first fault that it has.
pub proof fn refusal_of_mandate_snapshot_names_its_fault(this: MandateSnapshot)
    ensures
        !(this.maximum_gross_exposure.0 <= 1_000_000 && this.maximum_drawdown_budget.0 <= 1_000_000
            && this.minimum_cash_reserve.0 <= 1_000_000 && this.maximum_turnover.0 <= 1_000_000
            && !blank(this.loss_response_policy@) && !blank(this.speculation_policy@))
            ==> this.verdict() == Verdict::Err(budget("mandate_snapshot"@)),
{
}

/// What a capability retention matrix is refused with: the first fault that it has.
pub proof fn refusal_of_capability_retention_matrix_names_its_fault(
    this: CapabilityRetentionMatrix,
)
    ensures
        !(this.is_complete())
            ==> this.verdict() == Verdict::Err(budget("capability_retention_matrix"@)),
{
}

/// What a model qualification key is refused with: the first fault that it has.
pub proof fn refusal_of_model_qualification_key_names_its_fault(this: ModelQualificationKey)
    ensures
        !(!blank(this.provider_id@) && !blank(this.model_id@))
            ==> this.verdict() == Verdict::Err(ErrorView::InvalidContentHash),
{
}

/// What a model qualification evidence is refused with: the first fault that it has.
pub proof fn refusal_of_model_qualification_evidence_names_its_fault(
    this: ModelQualificationEvidence,
)
    ensures
        !(this.is_sound())
            ==> this.verdict() == Verdict::Err(empty("model_qualification.evidence"@)),
{
}

/// What a model qualification report is refused with: the first fault that it has.
pub proof fn refusal_of_model_qualification_report_names_its_fault(this: ModelQualificationReport)
    ensures
        this.key.verdict() is Ok && this.evidence.verdict() is Ok && !(!blank(this.approved_by@)
            && earlier(this.qualified_at, this.expires_at) && this.report_hash@ == this.identity())
            ==> this.verdict() == Verdict::Err(ErrorView::InvalidContentHash),
{
}

} // verus!
