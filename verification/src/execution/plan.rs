//! Orders, plans, and the context that a plan is executed in.
use crate::artifact::{ArtifactKind, ArtifactRef};
use crate::decision::ProcessQualityAssessment;
use crate::error::{
    budget, demand, empty, empty_field, first, invalid_budget, outcome, DomainError, ErrorView,
    Verdict,
};
use crate::execution::snapshots::{exposure_times, FactorExposure};
use crate::foundation::{
    digest_of, is_digest, json_digest, Asset, ContentHash, MoneyMicros, RunId, TargetPortfolio,
};
use crate::json::{
    json_content, json_insert, json_new_object, json_object, json_text, no_members, JsonTree,
    ToJson,
};
use crate::lists::{check_all, list_is_accepted_by_member, list_verdict, Checked};
use crate::longitudinal::{weight_sum, MandateAssessment};
use crate::market_safety::PreTradeSafetySnapshot;
use crate::text::{blank, is_blank};
use crate::time::UtcTime;
use crate::DOMAIN_SCHEMA_VERSION;
use vstd::prelude::*;

verus! {

/// Which way an order goes.
#[derive(Clone, Copy, Debug, PartialEq, Eq, PartialOrd, Ord, Hash, Structural)]
pub enum OrderSide {
    Buy,
    Sell,
}

impl OrderSide {
    /// The name of the variant in JSON.
    pub open spec fn wire(self) -> Seq<char> {
        match self {
            OrderSide::Buy => "buy"@,
            OrderSide::Sell => "sell"@,
        }
    }

    /// The name of the variant in JSON.
    pub fn wire_name(self) -> (r: &'static str)
        ensures
            r@ == self.wire(),
    {
        match self {
            OrderSide::Buy => "buy",
            OrderSide::Sell => "sell",
        }
    }
}

impl ToJson for OrderSide {
    open spec fn json(&self) -> JsonTree {
        JsonTree::Text(self.wire())
    }

    fn to_json(&self) -> (r: serde_json::Value) {
        json_text(self.wire_name())
    }
}

/// An order that is to be placed.
#[derive(Clone, Copy, Debug, PartialEq, Eq, Structural)]
pub struct OrderIntent {
    pub extended_hours: bool,
    pub asset: Asset,
    pub side: OrderSide,
    pub notional: MoneyMicros,
    pub limit_price: MoneyMicros,
}

impl ToJson for OrderIntent {
    open spec fn json(&self) -> JsonTree {
        let m = no_members();
        let m = if self.extended_hours {
            m.insert("extended_hours"@, self.extended_hours.json())
        } else {
            m
        };
        let m = m.insert("asset"@, self.asset.json());
        let m = m.insert("side"@, self.side.json());
        let m = m.insert("notional"@, self.notional.json());
        let m = m.insert("limit_price"@, self.limit_price.json());
        JsonTree::Object(m)
    }

    fn to_json(&self) -> (r: serde_json::Value) {
        let mut members = json_new_object();
        if self.extended_hours {
            json_insert(&mut members, "extended_hours", self.extended_hours.to_json());
        }
        json_insert(&mut members, "asset", self.asset.to_json());
        json_insert(&mut members, "side", self.side.to_json());
        json_insert(&mut members, "notional", self.notional.to_json());
        json_insert(&mut members, "limit_price", self.limit_price.to_json());
        json_object(members)
    }
}

impl OrderIntent {
    pub open spec fn verdict(&self) -> Verdict {
        demand(self.notional.0 > 0 && self.limit_price.0 > 0, budget("order_intent"@))
    }

    pub fn validate(&self) -> (r: Result<(), DomainError>)
        ensures
            outcome(r) == self.verdict(),
    {
        if self.notional.0 <= 0 || self.limit_price.0 <= 0 {
            return Err(invalid_budget("order_intent"));
        }
        Ok(())
    }
}

impl Checked for OrderIntent {
    open spec fn judged(&self) -> Verdict {
        self.verdict()
    }

    fn check(&self) -> (r: Result<(), DomainError>) {
        self.validate()
    }
}

/// The orders that bring a portfolio to its target, bound by a digest to all that they rest on.
#[derive(Debug, Clone, PartialEq, Eq)]
pub struct ExecutionPlan {
    pub schema_version: u32,
    pub decision_context: ArtifactRef,
    pub account_snapshot: ArtifactRef,
    pub quote_snapshot: ArtifactRef,
    pub market_clock_snapshot: ArtifactRef,
    pub policy_hash: ContentHash,
    pub maximum_total_notional: MoneyMicros,
    pub target: TargetPortfolio,
    pub orders: Vec<OrderIntent>,
    pub gross_exposure_ppm: u32,
    pub net_exposure_ppm: i64,
    pub factor_exposure: FactorExposure,
    pub turnover_ppm: u32,
    pub broker_session: String,
    pub created_at: UtcTime,
    pub plan_hash: ContentHash,
}

impl ExecutionPlan {
    /// What the identity is the digest of.
    pub open spec fn identity_json(&self) -> JsonTree {
        let m = no_members();
        let m = m.insert("schema_version"@, self.schema_version.json());
        let m = m.insert("decision_context"@, self.decision_context.json());
        let m = m.insert("account_snapshot"@, self.account_snapshot.json());
        let m = m.insert("quote_snapshot"@, self.quote_snapshot.json());
        let m = m.insert("market_clock_snapshot"@, self.market_clock_snapshot.json());
        let m = m.insert("policy_hash"@, self.policy_hash.json());
        let m = m.insert("maximum_total_notional"@, self.maximum_total_notional.json());
        let m = m.insert("target"@, self.target.json());
        let m = m.insert("orders"@, self.orders.json());
        let m = m.insert("gross_exposure_ppm"@, self.gross_exposure_ppm.json());
        let m = m.insert("net_exposure_ppm"@, self.net_exposure_ppm.json());
        let m = m.insert("factor_exposure"@, self.factor_exposure.json());
        let m = m.insert("turnover_ppm"@, self.turnover_ppm.json());
        let m = m.insert("broker_session"@, self.broker_session.json());
        let m = m.insert("created_at"@, self.created_at.json());
        JsonTree::Object(m)
    }

    pub open spec fn identity(&self) -> Seq<char> {
        json_digest(self.identity_json())
    }

    fn identity_value(&self) -> (r: serde_json::Value)
        ensures
            json_content(r) == self.identity_json(),
    {
        let mut members = json_new_object();
        json_insert(&mut members, "schema_version", self.schema_version.to_json());
        json_insert(&mut members, "decision_context", self.decision_context.to_json());
        json_insert(&mut members, "account_snapshot", self.account_snapshot.to_json());
        json_insert(&mut members, "quote_snapshot", self.quote_snapshot.to_json());
        json_insert(&mut members, "market_clock_snapshot", self.market_clock_snapshot.to_json());
        json_insert(&mut members, "policy_hash", self.policy_hash.to_json());
        json_insert(&mut members, "maximum_total_notional", self.maximum_total_notional.to_json());
        json_insert(&mut members, "target", self.target.to_json());
        json_insert(&mut members, "orders", self.orders.to_json());
        json_insert(&mut members, "gross_exposure_ppm", self.gross_exposure_ppm.to_json());
        json_insert(&mut members, "net_exposure_ppm", self.net_exposure_ppm.to_json());
        json_insert(&mut members, "factor_exposure", self.factor_exposure.to_json());
        json_insert(&mut members, "turnover_ppm", self.turnover_ppm.to_json());
        json_insert(&mut members, "broker_session", self.broker_session.to_json());
        json_insert(&mut members, "created_at", self.created_at.to_json());
        json_object(members)
    }
}

/// What the orders to buy come to.
pub open spec fn buy_total(orders: Seq<OrderIntent>) -> int
    decreases orders.len(),
{
    if orders.len() == 0 {
        0
    } else {
        buy_total(orders.drop_last()) + if orders.last().side is Buy {
            orders.last().notional.0 as int
        } else {
            0
        }
    }
}

proof fn buy_total_grows(orders: Seq<OrderIntent>, n: int)
    requires
        0 <= n <= orders.len(),
        forall|i: int| 0 <= i < orders.len() ==> (#[trigger] orders[i]).notional.0 > 0,
    ensures
        0 <= buy_total(orders.take(n)) <= buy_total(orders),
    decreases orders.len(),
{
    if orders.len() > 0 {
        let rest = orders.drop_last();
        assert forall|i: int| 0 <= i < rest.len() implies (#[trigger] rest[i]).notional.0 > 0 by {
            assert(rest[i] == orders[i]);
        }
        assert(orders.last() == orders[orders.len() - 1]);
        if n < orders.len() {
            assert(rest.take(n) =~= orders.take(n));
            buy_total_grows(rest, n);
        } else {
            assert(orders.take(n) =~= orders);
            buy_total_grows(rest, n - 1);
        }
    } else {
        assert(orders.take(n) =~= orders);
    }
}

/// No two orders are of the same asset.
pub open spec fn assets_differ(orders: Seq<OrderIntent>) -> bool {
    forall|i: int, j: int|
        0 <= i < j < orders.len() ==> (#[trigger] orders[i]).asset != (#[trigger] orders[j]).asset
}

/// The sum of the weights of a target.
pub open spec fn weight_total(target: TargetPortfolio) -> int {
    weight_sum(target.weights.values(), target.weights.keys().len())
}

proof fn weight_sum_grows(weights: Seq<crate::foundation::WeightPpm>, m: nat, n: nat)
    requires
        m <= n,
    ensures
        0 <= weight_sum(weights, m) <= weight_sum(weights, n),
    decreases n,
{
    if m < n {
        weight_sum_grows(weights, m, (n - 1) as nat);
    } else if n > 0 {
        weight_sum_grows(weights, (n - 1) as nat, (n - 1) as nat);
    }
}

fn total_weight(target: &TargetPortfolio) -> (r: Result<u32, DomainError>)
    ensures
        match r {
            Ok(sum) => sum == weight_total(*target),
            Err(e) => weight_total(*target) > u32::MAX && e@ == budget(
                "execution_plan.gross_exposure_ppm"@,
            ),
        },
{
    let n: usize = target.weights.len();
    let mut sum: u32 = 0;
    let mut i: usize = 0;
    while i < n
        invariant
            i <= n,
            n == target.weights.keys().len(),
            sum == weight_sum(target.weights.values(), i as nat),
        decreases n - i,
    {
        proof {
            weight_sum_grows(target.weights.values(), (i + 1) as nat, n as nat);
        }
        match sum.checked_add(target.weights.value_at(i).0) {
            Some(more) => {
                sum = more;
            },
            None => {
                return Err(invalid_budget("execution_plan.gross_exposure_ppm"));
            },
        }
        i += 1;
    }
    Ok(sum)
}

impl ExecutionPlan {
    /// The digest of everything but the digest.
    pub fn expected_hash(&self) -> (r: Result<ContentHash, DomainError>)
        ensures
            r is Ok,
            r->Ok_0@ == self.identity(),
            is_digest(r->Ok_0@),
    {
        Ok(digest_of(&self.identity_value()))
    }

    /// Puts the plan under its own digest.
    pub fn refresh_hash(&mut self) -> (r: Result<(), DomainError>)
        ensures
            r is Ok,
            *final(self) == (ExecutionPlan { plan_hash: final(self).plan_hash, ..*old(self) }),
            final(self).plan_hash@ == final(self).identity(),
    {
        let hash = self.expected_hash()?;
        self.plan_hash = hash;
        proof {
            assert(self.identity_json() == old(self).identity_json());
        }
        Ok(())
    }

    /// Whether the exposures are those of the target with the leverage of a day.
    pub fn uses_current_factor_exposure_model(&self) -> (r: Result<bool, DomainError>)
        ensures
            match r {
                Ok(current) => FactorExposure::of_target(self.target) is Ok && current == (
                self.factor_exposure == FactorExposure::of_target(self.target)->Ok_0),
                Err(e) => FactorExposure::of_target(self.target) == Err::<FactorExposure, ErrorView>(
                    e@,
                ),
            },
    {
        let current = FactorExposure::from_target(&self.target)?;
        Ok(self.factor_exposure == current)
    }

    pub open spec fn identity_verdict(&self) -> Verdict {
        first(
            demand(
                self.schema_version == DOMAIN_SCHEMA_VERSION && !blank(self.broker_session@),
                empty("execution_plan.identity"@),
            ),
            first(
                demand(
                    self.maximum_total_notional.0 > 0,
                    budget("execution_plan.maximum_total_notional"@),
                ),
                demand(
                    self.decision_context.kind is DecisionContext
                        && self.account_snapshot.kind is NormalizedEvidence
                        && self.quote_snapshot.kind is NormalizedEvidence
                        && self.market_clock_snapshot.kind is NormalizedEvidence,
                    empty("execution_plan.references"@),
                ),
            ),
        )
    }

    pub open spec fn is_bounded(&self) -> bool {
        &&& self.orders@.len() > 0
        &&& self.gross_exposure_ppm <= 1_000_000
        &&& -1_000_000 <= self.net_exposure_ppm <= 1_000_000
        &&& self.turnover_ppm <= 1_000_000
    }

    /// Each order is valid, those to buy stay within the ceiling, and no asset has two.
    pub open spec fn orders_verdict(&self) -> Verdict {
        if list_verdict(self.orders@) is Err {
            list_verdict(self.orders@)
        } else if buy_total(self.orders@) > i64::MAX {
            Err(budget("execution_plan.buy_notional"@))
        } else if buy_total(self.orders@) > self.maximum_total_notional.0 {
            Err(budget("execution_plan.maximum_total_notional"@))
        } else {
            demand(assets_differ(self.orders@), empty("execution_plan.orders"@))
        }
    }

    /// The exposures are those of the target, with the leverage of a day or, as in older plans,
    /// without.
    pub open spec fn exposure_verdict(&self) -> Verdict {
        let wrong = budget("execution_plan.derived_exposure"@);
        if weight_total(self.target) > u32::MAX {
            Err(budget("execution_plan.gross_exposure_ppm"@))
        } else if self.gross_exposure_ppm != weight_total(self.target) || self.net_exposure_ppm
            != weight_total(self.target) {
            Err(wrong)
        } else {
            match exposure_times(self.target, 3) {
                Err(e) => Err(e),
                Ok(current) => if self.factor_exposure == current {
                    Ok(())
                } else {
                    match exposure_times(self.target, 1) {
                        Err(e) => Err(e),
                        Ok(older) => demand(self.factor_exposure == older, wrong),
                    }
                },
            }
        }
    }

    pub open spec fn verdict(&self) -> Verdict {
        first(
            self.identity_verdict(),
            first(
                self.target.universe_verdict(),
                first(
                    self.factor_exposure.verdict(),
                    first(
                        demand(self.is_bounded(), budget("execution_plan.exposure"@)),
                        first(
                            self.orders_verdict(),
                            first(
                                self.exposure_verdict(),
                                demand(
                                    self.plan_hash@ == self.identity(),
                                    ErrorView::ExecutionPlanHashMismatch,
                                ),
                            ),
                        ),
                    ),
                ),
            ),
        )
    }

    fn validate_identity(&self) -> (r: Result<(), DomainError>)
        ensures
            outcome(r) == self.identity_verdict(),
    {
        if self.schema_version != DOMAIN_SCHEMA_VERSION || is_blank(&self.broker_session) {
            return Err(empty_field("execution_plan.identity"));
        }
        if self.maximum_total_notional.0 <= 0 {
            return Err(invalid_budget("execution_plan.maximum_total_notional"));
        }
        if self.decision_context.kind != ArtifactKind::DecisionContext || self.account_snapshot.kind
            != ArtifactKind::NormalizedEvidence || self.quote_snapshot.kind
            != ArtifactKind::NormalizedEvidence || self.market_clock_snapshot.kind
            != ArtifactKind::NormalizedEvidence {
            return Err(empty_field("execution_plan.references"));
        }
        Ok(())
    }

    /// What the orders to buy come to, where it can be held.
    fn total_to_buy(&self) -> (r: Option<i64>)
        requires
            list_verdict(self.orders@) is Ok,
        ensures
            match r {
                Some(total) => total == buy_total(self.orders@),
                None => buy_total(self.orders@) > i64::MAX,
            },
    {
        let ghost orders = self.orders@;
        proof {
            list_is_accepted_by_member(orders);
            assert forall|i: int| 0 <= i < orders.len() implies (#[trigger] orders[i]).notional.0
                > 0 by {
                assert(orders[i].judged() is Ok);
            }
        }
        let mut total: i64 = 0;
        let mut i: usize = 0;
        while i < self.orders.len()
            invariant
                i <= self.orders.len(),
                orders == self.orders@,
                forall|j: int| 0 <= j < orders.len() ==> (#[trigger] orders[j]).notional.0 > 0,
                total == buy_total(orders.take(i as int)),
                total >= 0,
            decreases self.orders.len() - i,
        {
            proof {
                assert(orders.take(i + 1).drop_last() =~= orders.take(i as int));
                assert(orders.take(i + 1).last() == orders[i as int]);
                buy_total_grows(orders, i + 1);
            }
            let order = &self.orders[i];
            if order.side == OrderSide::Buy {
                match total.checked_add(order.notional.0) {
                    Some(more) => {
                        total = more;
                    },
                    None => {
                        return None;
                    },
                }
            }
            i += 1;
        }
        proof {
            assert(orders.take(orders.len() as int) =~= orders);
        }
        Some(total)
    }

    fn has_one_order_per_asset(&self) -> (r: bool)
        ensures
            r == assets_differ(self.orders@),
    {
        let mut i: usize = 0;
        while i < self.orders.len()
            invariant
                i <= self.orders.len(),
                forall|k: int, l: int|
                    0 <= k < l < i ==> (#[trigger] self.orders@[k]).asset != (
                    #[trigger] self.orders@[l]).asset,
            decreases self.orders.len() - i,
        {
            let mut j: usize = 0;
            while j < i
                invariant
                    j <= i < self.orders.len(),
                    forall|k: int|
                        0 <= k < j ==> (#[trigger] self.orders@[k]).asset
                            != self.orders@[i as int].asset,
                decreases i - j,
            {
                if self.orders[j].asset == self.orders[i].asset {
                    return false;
                }
                j += 1;
            }
            i += 1;
        }
        true
    }

    fn validate_orders(&self) -> (r: Result<(), DomainError>)
        ensures
            outcome(r) == self.orders_verdict(),
    {
        check_all(&self.orders)?;
        let bought = match self.total_to_buy() {
            Some(total) => total,
            None => {
                return Err(invalid_budget("execution_plan.buy_notional"));
            },
        };
        if bought > self.maximum_total_notional.0 {
            return Err(invalid_budget("execution_plan.maximum_total_notional"));
        }
        if !self.has_one_order_per_asset() {
            return Err(empty_field("execution_plan.orders"));
        }
        Ok(())
    }

    fn validate_exposure(&self) -> (r: Result<(), DomainError>)
        ensures
            outcome(r) == self.exposure_verdict(),
    {
        let gross = total_weight(&self.target)?;
        if self.gross_exposure_ppm != gross || self.net_exposure_ppm != gross as i64 {
            return Err(invalid_budget("execution_plan.derived_exposure"));
        }
        let current = FactorExposure::from_target(&self.target)?;
        if self.factor_exposure != current {
            let older = FactorExposure::from_legacy_capital_target(&self.target)?;
            if self.factor_exposure != older {
                return Err(invalid_budget("execution_plan.derived_exposure"));
            }
        }
        Ok(())
    }

    pub fn validate(&self) -> (r: Result<(), DomainError>)
        ensures
            outcome(r) == self.verdict(),
    {
        self.validate_identity()?;
        self.target.validate_universe()?;
        self.factor_exposure.validate()?;
        if self.orders.len() == 0 || self.gross_exposure_ppm > 1_000_000 || self.net_exposure_ppm
            < -1_000_000 || self.net_exposure_ppm > 1_000_000 || self.turnover_ppm > 1_000_000 {
            return Err(invalid_budget("execution_plan.exposure"));
        }
        self.validate_orders()?;
        self.validate_exposure()?;
        let expected = self.expected_hash()?;
        if !self.plan_hash.same(&expected) {
            return Err(DomainError::ExecutionPlanHashMismatch);
        }
        Ok(())
    }
}

/// A valid plan buys for no more than its ceiling, and its target takes no more than the whole.
pub proof fn valid_plan_stays_within_its_ceiling(plan: ExecutionPlan)
    requires
        plan.verdict() is Ok,
    ensures
        buy_total(plan.orders@) <= plan.maximum_total_notional.0,
        weight_total(plan.target) <= 1_000_000,
        plan.net_exposure_ppm == plan.gross_exposure_ppm,
        plan.plan_hash@ == plan.identity(),
{
}

/// A change of what a valid plan says is noticed, unless its digest is the same.
pub proof fn changed_plan_is_noticed(plan: ExecutionPlan, changed: ExecutionPlan)
    requires
        plan.verdict() is Ok,
        changed.plan_hash@ == plan.plan_hash@,
        changed.identity() != plan.identity(),
    ensures
        changed.verdict() is Err,
{
}

/// What a plan is executed in.
#[derive(Debug, Clone, PartialEq, Eq)]
pub struct ExecutionContext {
    pub schema_version: u32,
    pub run_id: RunId,
    pub decision_context: ArtifactRef,
    pub account_snapshot: Option<ArtifactRef>,
    pub quote_snapshot: Option<ArtifactRef>,
    pub market_clock_snapshot: Option<ArtifactRef>,
    pub execution_plan: Option<ArtifactRef>,
    pub factor_exposure: Option<FactorExposure>,
    pub turnover_ppm: Option<u32>,
    pub plan_hash: Option<ContentHash>,
    pub broker_session: Option<String>,
    pub mandate_assessment: Option<MandateAssessment>,
    pub pretrade_safety: Option<PreTradeSafetySnapshot>,
    pub final_process_quality: Option<ProcessQualityAssessment>,
    pub frozen: bool,
    pub created_at: UtcTime,
}

/// A reference that may be absent is of a kind.
pub open spec fn is_of_kind(reference: Option<ArtifactRef>, kind: ArtifactKind) -> bool {
    reference matches Some(own) ==> own.kind == kind
}

fn has_kind(reference: &Option<ArtifactRef>, kind: ArtifactKind) -> (r: bool)
    ensures
        r == is_of_kind(*reference, kind),
{
    match reference {
        Some(own) => own.kind == kind,
        None => true,
    }
}

impl ExecutionContext {
    pub open spec fn references_fit(&self) -> bool {
        &&& self.decision_context.kind is DecisionContext
        &&& is_of_kind(self.account_snapshot, ArtifactKind::NormalizedEvidence)
        &&& is_of_kind(self.quote_snapshot, ArtifactKind::NormalizedEvidence)
        &&& is_of_kind(self.market_clock_snapshot, ArtifactKind::NormalizedEvidence)
        &&& is_of_kind(self.execution_plan, ArtifactKind::ExecutionPlan)
    }

    pub open spec fn derived_values_fit(&self) -> bool {
        &&& self.turnover_ppm matches Some(turnover) ==> turnover <= 1_000_000
        &&& self.broker_session matches Some(session) ==> !blank(session@)
    }

    /// The final quality is measured in every dimension.
    pub open spec fn quality_verdict(&self) -> Verdict {
        match self.final_process_quality {
            Some(quality) => first(
                quality.verdict(),
                demand(
                    quality.floor() is Some,
                    budget("execution_context.final_process_quality"@),
                ),
            ),
            None => Ok(()),
        }
    }

    pub open spec fn verdict(&self) -> Verdict {
        if self.schema_version != DOMAIN_SCHEMA_VERSION || blank(self.run_id@) {
            Err(empty("execution_context.identity"@))
        } else if !self.references_fit() {
            Err(empty("execution_context.references"@))
        } else if !self.derived_values_fit() {
            Err(budget("execution_context.derived"@))
        } else {
            first(
                match self.factor_exposure {
                    Some(exposure) => exposure.verdict(),
                    None => Ok(()),
                },
                first(
                    match self.pretrade_safety {
                        Some(safety) => safety.verdict(),
                        None => Ok(()),
                    },
                    self.quality_verdict(),
                ),
            )
        }
    }

    pub fn validate(&self) -> (r: Result<(), DomainError>)
        ensures
            outcome(r) == self.verdict(),
    {
        if self.schema_version != DOMAIN_SCHEMA_VERSION || is_blank(&self.run_id.0) {
            return Err(empty_field("execution_context.identity"));
        }
        if self.decision_context.kind != ArtifactKind::DecisionContext || !has_kind(
            &self.account_snapshot,
            ArtifactKind::NormalizedEvidence,
        ) || !has_kind(&self.quote_snapshot, ArtifactKind::NormalizedEvidence) || !has_kind(
            &self.market_clock_snapshot,
            ArtifactKind::NormalizedEvidence,
        ) || !has_kind(&self.execution_plan, ArtifactKind::ExecutionPlan) {
            return Err(empty_field("execution_context.references"));
        }
        let excessive = match self.turnover_ppm {
            Some(turnover) => turnover > 1_000_000,
            None => false,
        };
        let unnamed = match &self.broker_session {
            Some(session) => is_blank(session),
            None => false,
        };
        if excessive || unnamed {
            return Err(invalid_budget("execution_context.derived"));
        }
        if let Some(exposure) = &self.factor_exposure {
            exposure.validate()?;
        }
        if let Some(safety) = &self.pretrade_safety {
            safety.validate()?;
        }
        if let Some(quality) = &self.final_process_quality {
            quality.validate()?;
            if quality.measured_floor().is_none() {
                return Err(invalid_budget("execution_context.final_process_quality"));
            }
        }
        Ok(())
    }

    /// Everything is there, the mandate and the safety checks permit it, and nothing is frozen.
    pub open spec fn plan_is_closed(&self) -> bool {
        &&& self.account_snapshot is Some
        &&& self.quote_snapshot is Some
        &&& self.market_clock_snapshot is Some
        &&& self.execution_plan is Some
        &&& self.factor_exposure is Some
        &&& self.turnover_ppm is Some
        &&& self.plan_hash is Some
        &&& self.broker_session is Some
        &&& self.mandate_assessment matches Some(assessment) && assessment.is_permitted()
        &&& self.pretrade_safety matches Some(safety) && safety.permits_execution
        &&& !self.frozen
    }

    pub open spec fn closure_verdict(&self) -> Verdict {
        first(
            self.verdict(),
            demand(self.plan_is_closed(), empty("execution_context.plan_closure"@)),
        )
    }

    pub fn validate_complete_plan_closure(&self) -> (r: Result<(), DomainError>)
        ensures
            outcome(r) == self.closure_verdict(),
    {
        self.validate()?;
        let permitted = match &self.mandate_assessment {
            Some(assessment) => assessment.permitted(),
            None => false,
        };
        let safe = match &self.pretrade_safety {
            Some(safety) => safety.permits_execution,
            None => false,
        };
        if self.account_snapshot.is_none() || self.quote_snapshot.is_none()
            || self.market_clock_snapshot.is_none() || self.execution_plan.is_none()
            || self.factor_exposure.is_none() || self.turnover_ppm.is_none()
            || self.plan_hash.is_none() || self.broker_session.is_none() || !permitted || !safe
            || self.frozen {
            return Err(empty_field("execution_context.plan_closure"));
        }
        Ok(())
    }
}

/// Nothing that is frozen, breaks the mandate or fails a safety check is ready to be executed.
pub proof fn closed_plan_is_permitted(context: ExecutionContext)
    requires
        context.closure_verdict() is Ok,
    ensures
        !context.frozen,
        context.mandate_assessment is Some,
        context.mandate_assessment->0.is_permitted(),
        context.pretrade_safety is Some,
        context.pretrade_safety->0.may_execute(),
{
}

/// An order to sell takes nothing from what may be bought.
pub proof fn selling_uses_no_budget(orders: Seq<OrderIntent>, order: OrderIntent)
    requires
        order.side is Sell,
    ensures
        buy_total(orders.push(order)) == buy_total(orders),
{
    assert(orders.push(order).drop_last() =~= orders);
}

/// What an order intent is refused with: the first fault that it has.
pub proof fn refusal_of_order_intent_names_its_fault(this: OrderIntent)
    ensures
        !(this.notional.0 > 0 && this.limit_price.0 > 0)
            ==> this.verdict() == Verdict::Err(budget("order_intent"@)),
{
}

/// What an execution plan is refused with: the first fault that it has.
pub proof fn identity_verdict_of_execution_plan_names_its_fault(this: ExecutionPlan)
    ensures
        !(this.schema_version == DOMAIN_SCHEMA_VERSION && !blank(this.broker_session@))
            ==> this.identity_verdict() == Verdict::Err(empty("execution_plan.identity"@)),
        (this.schema_version == DOMAIN_SCHEMA_VERSION && !blank(this.broker_session@))
            && !(this.maximum_total_notional.0 > 0)
            ==> this.identity_verdict() == Verdict::Err(
                budget("execution_plan.maximum_total_notional"@),
            ),
        (this.schema_version == DOMAIN_SCHEMA_VERSION && !blank(this.broker_session@))
            && (this.maximum_total_notional.0 > 0)
            && !(this.decision_context.kind is DecisionContext
            && this.account_snapshot.kind is NormalizedEvidence
            && this.quote_snapshot.kind is NormalizedEvidence
            && this.market_clock_snapshot.kind is NormalizedEvidence)
            ==> this.identity_verdict() == Verdict::Err(empty("execution_plan.references"@)),
{
}

/// What an execution plan is refused with: the first fault that it has.
pub proof fn orders_verdict_of_execution_plan_names_its_fault(this: ExecutionPlan)
    ensures
        list_verdict(this.orders@) is Ok && (buy_total(this.orders@) > i64::MAX)
            ==> this.orders_verdict() == Verdict::Err(budget("execution_plan.buy_notional"@)),
        list_verdict(this.orders@) is Ok && !(buy_total(this.orders@) > i64::MAX)
            && (buy_total(this.orders@) > this.maximum_total_notional.0)
            ==> this.orders_verdict() == Verdict::Err(
                budget("execution_plan.maximum_total_notional"@),
            ),
        list_verdict(this.orders@) is Ok && !(buy_total(this.orders@) > i64::MAX)
            && !(buy_total(this.orders@) > this.maximum_total_notional.0)
            && !(assets_differ(this.orders@))
            ==> this.orders_verdict() == Verdict::Err(empty("execution_plan.orders"@)),
{
}

/// What an execution plan is refused with: the first fault that it has.
pub proof fn refusal_of_execution_plan_names_its_fault(this: ExecutionPlan)
    ensures
        this.identity_verdict() is Ok && this.target.universe_verdict() is Ok
            && this.factor_exposure.verdict() is Ok && !(this.is_bounded())
            ==> this.verdict() == Verdict::Err(budget("execution_plan.exposure"@)),
        this.identity_verdict() is Ok && this.target.universe_verdict() is Ok
            && this.factor_exposure.verdict() is Ok && (this.is_bounded())
            && this.orders_verdict() is Ok && this.exposure_verdict() is Ok
            && !(this.plan_hash@ == this.identity())
            ==> this.verdict() == Verdict::Err(ErrorView::ExecutionPlanHashMismatch),
{
}

/// What an execution context is refused with: the first fault that it has.
pub proof fn refusal_of_execution_context_names_its_fault(this: ExecutionContext)
    ensures
        (this.schema_version != DOMAIN_SCHEMA_VERSION || blank(this.run_id@))
            ==> this.verdict() == Verdict::Err(empty("execution_context.identity"@)),
        !(this.schema_version != DOMAIN_SCHEMA_VERSION || blank(this.run_id@))
            && (!this.references_fit())
            ==> this.verdict() == Verdict::Err(empty("execution_context.references"@)),
        !(this.schema_version != DOMAIN_SCHEMA_VERSION || blank(this.run_id@))
            && !(!this.references_fit()) && (!this.derived_values_fit())
            ==> this.verdict() == Verdict::Err(budget("execution_context.derived"@)),
{
}

/// What an execution context is refused with: the first fault that it has.
pub proof fn closure_verdict_of_execution_context_names_its_fault(this: ExecutionContext)
    ensures
        this.verdict() is Ok && !(this.plan_is_closed())
            ==> this.closure_verdict() == Verdict::Err(empty("execution_context.plan_closure"@)),
{
}

} // verus!
