//! What was seen of the account, the quotes and the clock, and the factors of a target.
use crate::error::{
    budget, demand, empty, empty_field, first, invalid_budget, outcome, DomainError, ErrorView,
    Verdict,
};
use crate::execution::session::{TradingSession, TradingSessionSnapshot};
use crate::foundation::{Asset, MoneyMicros, TargetPortfolio};
use crate::json::{json_insert, json_new_object, json_object, no_members, JsonTree, ToJson};
use crate::lists::{first_fault, first_fault_stays};
use crate::market_safety::{holds_blank, set_has_blank};
use crate::ordered::{OrderedMap, OrderedSet};
use crate::text::{blank, is_blank};
use crate::time::{earlier, CalendarDay, UtcTime};
use crate::DOMAIN_SCHEMA_VERSION;
use vstd::prelude::*;

verus! {

/// How much of an asset is held.
#[derive(Clone, Copy, Debug, PartialEq, Eq, Structural)]
pub struct Position {
    pub quantity_micros: i64,
    pub market_value: MoneyMicros,
}

/// What was seen of an account.
#[derive(Debug, Clone, PartialEq, Eq)]
pub struct AccountSnapshot {
    pub schema_version: u32,
    pub broker_session: String,
    pub observed_at: UtcTime,
    pub equity: MoneyMicros,
    pub buying_power: MoneyMicros,
    pub day_turnover: MoneyMicros,
    pub active: bool,
    pub trading_blocked: bool,
    pub positions: OrderedMap<Asset, Position>,
    pub external_positions: OrderedSet<String>,
    pub open_order_ids: OrderedSet<String>,
}

impl AccountSnapshot {
    /// No position is short.
    pub open spec fn position_is_long(&self, i: int) -> bool {
        &&& self.positions.values()[i].quantity_micros >= 0
        &&& self.positions.values()[i].market_value.0 >= 0
    }

    pub open spec fn positions_are_sound(&self) -> bool {
        &&& forall|i: int|
            0 <= i < self.positions.keys().len() ==> #[trigger] self.position_is_long(i)
        &&& !holds_blank(self.external_positions@)
        &&& !holds_blank(self.open_order_ids@)
    }

    pub open spec fn verdict(&self) -> Verdict {
        first(
            demand(
                self.schema_version == DOMAIN_SCHEMA_VERSION && !blank(self.broker_session@),
                empty("account_snapshot.identity"@),
            ),
            first(
                demand(
                    self.equity.0 > 0 && self.buying_power.0 >= 0 && self.day_turnover.0 >= 0,
                    budget("account_snapshot.money"@),
                ),
                demand(self.positions_are_sound(), budget("account_snapshot.positions"@)),
            ),
        )
    }

    fn is_long(&self) -> (r: bool)
        ensures
            r == forall|i: int|
                0 <= i < self.positions.keys().len() ==> #[trigger] self.position_is_long(i),
    {
        let n: usize = self.positions.len();
        let mut i: usize = 0;
        while i < n
            invariant
                i <= n,
                n == self.positions.keys().len(),
                forall|j: int| 0 <= j < i ==> #[trigger] self.position_is_long(j),
            decreases n - i,
        {
            let position = self.positions.value_at(i);
            if position.quantity_micros < 0 || position.market_value.0 < 0 {
                proof {
                    assert(!self.position_is_long(i as int));
                }
                return false;
            }
            i += 1;
        }
        true
    }

    pub fn validate(&self) -> (r: Result<(), DomainError>)
        ensures
            outcome(r) == self.verdict(),
    {
        if self.schema_version != DOMAIN_SCHEMA_VERSION || is_blank(&self.broker_session) {
            return Err(empty_field("account_snapshot.identity"));
        }
        if self.equity.0 <= 0 || self.buying_power.0 < 0 || self.day_turnover.0 < 0 {
            return Err(invalid_budget("account_snapshot.money"));
        }
        if !self.is_long() || set_has_blank(&self.external_positions) || set_has_blank(
            &self.open_order_ids,
        ) {
            return Err(invalid_budget("account_snapshot.positions"));
        }
        Ok(())
    }
}

/// What an asset was offered and asked for.
#[derive(Clone, Copy, Debug, PartialEq, Eq, Structural)]
pub struct Quote {
    pub bid: MoneyMicros,
    pub ask: MoneyMicros,
    pub observed_at: UtcTime,
}

impl Quote {
    pub open spec fn verdict(&self) -> Verdict {
        demand(0 < self.bid.0 < self.ask.0, budget("quote.price"@))
    }

    pub fn validate(&self) -> (r: Result<(), DomainError>)
        ensures
            outcome(r) == self.verdict(),
    {
        if self.bid.0 <= 0 || self.ask.0 <= self.bid.0 {
            return Err(invalid_budget("quote.price"));
        }
        Ok(())
    }
}

/// What was seen of the quotes.
#[derive(Debug, Clone, PartialEq, Eq)]
pub struct QuoteSnapshot {
    pub feed: Option<String>,
    pub schema_version: u32,
    pub broker_session: String,
    pub observed_at: UtcTime,
    pub quotes: OrderedMap<Asset, Quote>,
}

impl QuoteSnapshot {
    /// The check of one quote, in the order of the assets.
    pub open spec fn quote_checks(&self) -> spec_fn(int) -> Verdict {
        |i: int| self.quotes.values()[i].verdict()
    }

    pub open spec fn verdict(&self) -> Verdict {
        first(
            demand(
                self.schema_version == DOMAIN_SCHEMA_VERSION && !blank(self.broker_session@),
                empty("quote_snapshot.identity"@),
            ),
            first_fault(self.quotes.keys().len(), self.quote_checks()),
        )
    }

    fn validate_quotes(&self) -> (r: Result<(), DomainError>)
        ensures
            outcome(r) == first_fault(self.quotes.keys().len(), self.quote_checks()),
    {
        let ghost checks = self.quote_checks();
        let count: usize = self.quotes.len();
        let mut n: usize = 0;
        while n < count
            invariant
                n <= count,
                count == self.quotes.keys().len(),
                checks == self.quote_checks(),
                first_fault(n as nat, checks) == Verdict::Ok(()),
            decreases count - n,
        {
            proof {
                assert(first_fault((n + 1) as nat, checks) == checks(n as int));
                if checks(n as int) is Err {
                    first_fault_stays((n + 1) as nat, count as nat, checks);
                }
            }
            self.quotes.value_at(n).validate()?;
            n += 1;
        }
        Ok(())
    }

    pub fn validate(&self) -> (r: Result<(), DomainError>)
        ensures
            outcome(r) == self.verdict(),
    {
        if self.schema_version != DOMAIN_SCHEMA_VERSION || is_blank(&self.broker_session) {
            return Err(empty_field("quote_snapshot.identity"));
        }
        self.validate_quotes()
    }
}

/// What was seen of the clock of the market.
#[derive(Debug, Clone, PartialEq, Eq)]
pub struct MarketClockSnapshot {
    pub session: Option<TradingSessionSnapshot>,
    pub schema_version: u32,
    pub broker_session: String,
    pub is_open: bool,
    pub observed_at: UtcTime,
}

impl MarketClockSnapshot {
    /// The session of the calendar; without one, what the open flag says.
    pub open spec fn session_kind(&self) -> TradingSession {
        match self.session {
            Some(session) => session.kind,
            None => if self.is_open {
                TradingSession::Regular
            } else {
                TradingSession::Closed
            },
        }
    }

    pub fn trading_session(&self) -> (r: TradingSession)
        ensures
            r == self.session_kind(),
    {
        match &self.session {
            Some(session) => session.kind,
            None => if self.is_open {
                TradingSession::Regular
            } else {
                TradingSession::Closed
            },
        }
    }

    /// There is a session at all.
    pub open spec fn is_tradable(&self) -> bool {
        !(self.session_kind() is Closed)
    }

    /// Whether there is a session at all.
    pub fn tradable(&self) -> (r: bool)
        ensures
            r == self.is_tradable(),
    {
        self.trading_session() != TradingSession::Closed
    }

    pub open spec fn verdict(&self) -> Verdict {
        demand(
            self.schema_version == DOMAIN_SCHEMA_VERSION && !blank(self.broker_session@),
            empty("market_clock_snapshot.identity"@),
        )
    }

    pub fn validate(&self) -> (r: Result<(), DomainError>)
        ensures
            outcome(r) == self.verdict(),
    {
        if self.schema_version != DOMAIN_SCHEMA_VERSION || is_blank(&self.broker_session) {
            return Err(empty_field("market_clock_snapshot.identity"));
        }
        Ok(())
    }
}

/// The instant up to which a decision may know things.
#[derive(Debug, Clone, PartialEq, Eq)]
pub struct DecisionClock {
    pub decision_cutoff: UtcTime,
}

impl DecisionClock {
    /// The decision may know of an instant.
    pub open spec fn knows_instant(&self, timestamp: UtcTime) -> bool {
        !earlier(self.decision_cutoff, timestamp)
    }

    /// The decision may know what was published on a day.
    pub open spec fn knows_vintage(&self, vintage: CalendarDay) -> bool {
        vintage.day() <= self.decision_cutoff.day()
    }

    /// The decision may know the bar of the day of an instant.
    pub open spec fn knows_bar(&self, event_time: UtcTime) -> bool {
        event_time.day() < self.decision_cutoff.day()
    }

    /// Whether an instant is not after the cutoff.
    pub fn contains(&self, timestamp: UtcTime) -> (r: bool)
        ensures
            r == self.knows_instant(timestamp),
    {
        !self.decision_cutoff.is_before(&timestamp)
    }

    /// Whether a day is not after that of the cutoff.
    pub fn contains_vintage(&self, vintage: CalendarDay) -> (r: bool)
        ensures
            r == self.knows_vintage(vintage),
    {
        !self.decision_cutoff.date().is_before(&vintage)
    }

    /// Whether the day of an instant was over before the day of the cutoff.
    pub fn contains_completed_daily_bar(&self, event_time: UtcTime) -> (r: bool)
        ensures
            r == self.knows_bar(event_time),
    {
        event_time.date().is_before(&self.decision_cutoff.date())
    }
}

/// A day whose bar is complete is one whose vintage and instant the decision may know.
pub proof fn completed_bars_are_known(clock: DecisionClock, event_time: UtcTime)
    requires
        event_time.day() < clock.decision_cutoff.day(),
    ensures
        event_time.day() <= clock.decision_cutoff.day(),
        !earlier(clock.decision_cutoff, event_time),
{
}

/// How much of a portfolio moves with each factor.
#[derive(Clone, Copy, Debug, PartialEq, Eq, Structural)]
pub struct FactorExposure {
    pub leveraged_equity_ppm: u32,
    pub nasdaq_ppm: u32,
    pub semiconductor_ppm: u32,
    pub tqqq_qqq_pair_ppm: u32,
    pub soxl_soxx_pair_ppm: u32,
}

impl ToJson for FactorExposure {
    open spec fn json(&self) -> JsonTree {
        let m = no_members();
        let m = m.insert("leveraged_equity_ppm"@, self.leveraged_equity_ppm.json());
        let m = m.insert("nasdaq_ppm"@, self.nasdaq_ppm.json());
        let m = m.insert("semiconductor_ppm"@, self.semiconductor_ppm.json());
        let m = m.insert("tqqq_qqq_pair_ppm"@, self.tqqq_qqq_pair_ppm.json());
        let m = m.insert("soxl_soxx_pair_ppm"@, self.soxl_soxx_pair_ppm.json());
        JsonTree::Object(m)
    }

    fn to_json(&self) -> (r: serde_json::Value) {
        let mut members = json_new_object();
        json_insert(&mut members, "leveraged_equity_ppm", self.leveraged_equity_ppm.to_json());
        json_insert(&mut members, "nasdaq_ppm", self.nasdaq_ppm.to_json());
        json_insert(&mut members, "semiconductor_ppm", self.semiconductor_ppm.to_json());
        json_insert(&mut members, "tqqq_qqq_pair_ppm", self.tqqq_qqq_pair_ppm.to_json());
        json_insert(&mut members, "soxl_soxx_pair_ppm", self.soxl_soxx_pair_ppm.to_json());
        json_object(members)
    }
}

/// The weight of an asset in a target.
pub open spec fn weight_of(target: TargetPortfolio, asset: Asset) -> int {
    target.weights@[asset].0 as int
}

/// The exposures that the weights make with the leveraged funds counted so many times, where
/// they can be held.
pub open spec fn exposure_times(target: TargetPortfolio, times: int) -> Result<
    FactorExposure,
    ErrorView,
> {
    if !target.covers_universe() {
        Err(ErrorView::InvalidTargetUniverse)
    } else {
        let tqqq = times * weight_of(target, Asset::Tqqq);
        let soxl = times * weight_of(target, Asset::Soxl);
        let leveraged = tqqq + soxl;
        let nasdaq = tqqq + weight_of(target, Asset::Qqq);
        let semiconductor = soxl + weight_of(target, Asset::Soxx);
        if leveraged > u32::MAX || nasdaq > u32::MAX || semiconductor > u32::MAX {
            Err(budget("factor_exposure"@))
        } else {
            Ok(
                FactorExposure {
                    leveraged_equity_ppm: leveraged as u32,
                    nasdaq_ppm: nasdaq as u32,
                    semiconductor_ppm: semiconductor as u32,
                    tqqq_qqq_pair_ppm: nasdaq as u32,
                    soxl_soxx_pair_ppm: semiconductor as u32,
                },
            )
        }
    }
}

/// The result as its error is seen.
pub open spec fn seen_exposure(r: Result<FactorExposure, DomainError>) -> Result<
    FactorExposure,
    ErrorView,
> {
    match r {
        Ok(exposure) => Ok(exposure),
        Err(e) => Err(e@),
    }
}

fn sum_of(a: u32, b: u32) -> (r: Result<u32, DomainError>)
    ensures
        match r {
            Ok(sum) => sum == a + b,
            Err(e) => a + b > u32::MAX && e@ == budget("factor_exposure"@),
        },
{
    match a.checked_add(b) {
        Some(sum) => Ok(sum),
        None => Err(invalid_budget("factor_exposure")),
    }
}

fn product_of(a: u32, times: u32) -> (r: Result<u32, DomainError>)
    ensures
        match r {
            Ok(product) => product == a * times,
            Err(e) => a * times > u32::MAX && e@ == budget("factor_exposure"@),
        },
{
    match a.checked_mul(times) {
        Some(product) => Ok(product),
        None => Err(invalid_budget("factor_exposure")),
    }
}

impl FactorExposure {
    /// How many times the leveraged funds move with their index in a day.
    const DAILY_LEVERAGE_MULTIPLIER: u32 = 3;

    fn weight(target: &TargetPortfolio, asset: Asset) -> (r: u32)
        requires
            target.covers_universe(),
        ensures
            r == weight_of(*target, asset),
    {
        proof {
            assert(target.weights@.dom().contains(asset));
        }
        match target.weights.get(&asset) {
            Some(weight) => weight.0,
            None => 0,
        }
    }

    fn with_leverage(target: &TargetPortfolio, times: u32) -> (r: Result<
        FactorExposure,
        DomainError,
    >)
        ensures
            seen_exposure(r) == exposure_times(*target, times as int),
    {
        target.validate_universe()?;
        let tqqq_weight = Self::weight(target, Asset::Tqqq);
        let soxl_weight = Self::weight(target, Asset::Soxl);
        proof {
            assert(tqqq_weight * times == times * weight_of(*target, Asset::Tqqq))
                by (nonlinear_arith)
                requires
                    tqqq_weight == weight_of(*target, Asset::Tqqq),
            ;
            assert(soxl_weight * times == times * weight_of(*target, Asset::Soxl))
                by (nonlinear_arith)
                requires
                    soxl_weight == weight_of(*target, Asset::Soxl),
            ;
            assert(tqqq_weight * times >= 0 && soxl_weight * times >= 0) by (nonlinear_arith);
        }
        let tqqq: u32 = product_of(tqqq_weight, times)?;
        let soxl: u32 = product_of(soxl_weight, times)?;
        let leveraged_equity_ppm: u32 = sum_of(tqqq, soxl)?;
        let nasdaq_ppm: u32 = sum_of(tqqq, Self::weight(target, Asset::Qqq))?;
        let semiconductor_ppm: u32 = sum_of(soxl, Self::weight(target, Asset::Soxx))?;
        Ok(
            FactorExposure {
                leveraged_equity_ppm,
                nasdaq_ppm,
                semiconductor_ppm,
                tqqq_qqq_pair_ppm: nasdaq_ppm,
                soxl_soxx_pair_ppm: semiconductor_ppm,
            },
        )
    }

    /// What a target moves with in a day.
    pub open spec fn of_target(target: TargetPortfolio) -> Result<FactorExposure, ErrorView> {
        exposure_times(target, 3)
    }

    /// What a target moves with in a day: the leveraged funds count three times.
    pub fn from_target(target: &TargetPortfolio) -> (r: Result<FactorExposure, DomainError>)
        ensures
            seen_exposure(r) == Self::of_target(*target),
    {
        Self::with_leverage(target, Self::DAILY_LEVERAGE_MULTIPLIER)
    }

    /// What older plans took a target to move with: the capital alone.
    pub(crate) fn from_legacy_capital_target(target: &TargetPortfolio) -> (r: Result<
        FactorExposure,
        DomainError,
    >)
        ensures
            seen_exposure(r) == exposure_times(*target, 1),
    {
        Self::with_leverage(target, 1)
    }

    /// No exposure is more than three times the whole of two funds.
    pub open spec fn verdict(&self) -> Verdict {
        demand(
            self.leveraged_equity_ppm <= 6_000_000 && self.nasdaq_ppm <= 6_000_000
                && self.semiconductor_ppm <= 6_000_000 && self.tqqq_qqq_pair_ppm <= 6_000_000
                && self.soxl_soxx_pair_ppm <= 6_000_000,
            budget("factor_exposure"@),
        )
    }

    pub fn validate(&self) -> (r: Result<(), DomainError>)
        ensures
            outcome(r) == self.verdict(),
    {
        let limit: u32 = 2 * Self::DAILY_LEVERAGE_MULTIPLIER * 1_000_000;
        if self.leveraged_equity_ppm > limit || self.nasdaq_ppm > limit || self.semiconductor_ppm
            > limit || self.tqqq_qqq_pair_ppm > limit || self.soxl_soxx_pair_ppm > limit {
            return Err(invalid_budget("factor_exposure"));
        }
        Ok(())
    }
}

/// The exposures of a target in which no asset takes more than the whole are valid.
pub proof fn exposure_of_bounded_target_is_valid(target: TargetPortfolio)
    requires
        target.covers_universe(),
        forall|asset: Asset| #[trigger] weight_of(target, asset) <= 1_000_000,
    ensures
        exposure_times(target, 3) is Ok,
        exposure_times(target, 3)->Ok_0.verdict() is Ok,
{
    assert(weight_of(target, Asset::Tqqq) <= 1_000_000);
    assert(weight_of(target, Asset::Qqq) <= 1_000_000);
    assert(weight_of(target, Asset::Soxx) <= 1_000_000);
    assert(weight_of(target, Asset::Soxl) <= 1_000_000);
}

/// A target without leveraged funds moves with its capital alone.
pub proof fn unleveraged_target_moves_with_its_capital(target: TargetPortfolio)
    requires
        target.covers_universe(),
        weight_of(target, Asset::Tqqq) == 0,
        weight_of(target, Asset::Soxl) == 0,
    ensures
        exposure_times(target, 3) == exposure_times(target, 1),
{
}

/// What an account snapshot is refused with: the first fault that it has.
pub proof fn refusal_of_account_snapshot_names_its_fault(this: AccountSnapshot)
    ensures
        !(this.schema_version == DOMAIN_SCHEMA_VERSION && !blank(this.broker_session@))
            ==> this.verdict() == Verdict::Err(empty("account_snapshot.identity"@)),
        (this.schema_version == DOMAIN_SCHEMA_VERSION && !blank(this.broker_session@))
            && !(this.equity.0 > 0 && this.buying_power.0 >= 0 && this.day_turnover.0 >= 0)
            ==> this.verdict() == Verdict::Err(budget("account_snapshot.money"@)),
        (this.schema_version == DOMAIN_SCHEMA_VERSION && !blank(this.broker_session@))
            && (this.equity.0 > 0 && this.buying_power.0 >= 0 && this.day_turnover.0 >= 0)
            && !(this.positions_are_sound())
            ==> this.verdict() == Verdict::Err(budget("account_snapshot.positions"@)),
{
}

/// What a quote is refused with: the first fault that it has.
pub proof fn refusal_of_quote_names_its_fault(this: Quote)
    ensures
        !(0 < this.bid.0 < this.ask.0) ==> this.verdict() == Verdict::Err(budget("quote.price"@)),
{
}

/// What a quote snapshot is refused with: the first fault that it has.
pub proof fn refusal_of_quote_snapshot_names_its_fault(this: QuoteSnapshot)
    ensures
        !(this.schema_version == DOMAIN_SCHEMA_VERSION && !blank(this.broker_session@))
            ==> this.verdict() == Verdict::Err(empty("quote_snapshot.identity"@)),
{
}

/// What a market clock snapshot is refused with: the first fault that it has.
pub proof fn refusal_of_market_clock_snapshot_names_its_fault(this: MarketClockSnapshot)
    ensures
        !(this.schema_version == DOMAIN_SCHEMA_VERSION && !blank(this.broker_session@))
            ==> this.verdict() == Verdict::Err(empty("market_clock_snapshot.identity"@)),
{
}

/// What a factor exposure is refused with: the first fault that it has.
pub proof fn refusal_of_factor_exposure_names_its_fault(this: FactorExposure)
    ensures
        !(this.leveraged_equity_ppm <= 6_000_000 && this.nasdaq_ppm <= 6_000_000
            && this.semiconductor_ppm <= 6_000_000 && this.tqqq_qqq_pair_ppm <= 6_000_000
            && this.soxl_soxx_pair_ppm <= 6_000_000)
            ==> this.verdict() == Verdict::Err(budget("factor_exposure"@)),
{
}

} // verus!
