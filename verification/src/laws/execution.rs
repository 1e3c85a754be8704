//! What holds of exposures, plans, receipts and sessions.
use crate::artifact::ArtifactKind;
use crate::decision::ProcessQualityAssessment;
use crate::error::ErrorView;
use crate::execution::effects::{
    ExecutionVerdict, FreezeState, NoOrder, OrderReceipt, OrderReceiptState, PaperCommitment,
    PaperReprice, Reconciliation, is_second_try,
};
use crate::execution::plan::{
    ExecutionContext, ExecutionPlan, OrderIntent, OrderSide, assets_differ, buy_total, weight_total,
};
use crate::execution::session::{
    DayTimes, ExchangeSession, Finding, day_times, find_session, is_before, session_in, soonest,
};
use crate::execution::session::{TradingSession, asset_flag, is_overnight_asset};
use crate::execution::snapshots::{
    AccountSnapshot, FactorExposure, MarketClockSnapshot, Quote, QuoteSnapshot, exposure_times,
};
use crate::foundation::{Asset, TargetPortfolio, WeightPpm};
use crate::json::{JsonTree, member_of};
use crate::lists::{list_is_accepted_by_member, no_fault_means_every_check_passes};
use crate::longitudinal::weight_sum;
use crate::market_safety::holds_blank;
use crate::text::blank;
use crate::time::new_york_instant;
use vstd::prelude::*;

verus! {

/// A target stands for the whole universe exactly where it has a weight for each of the four
/// assets.
pub proof fn target_covers_the_four_assets(target: TargetPortfolio)
    ensures
        target.universe_verdict() is Ok <==> {
            &&& target.weights@.dom().contains(Asset::Tqqq)
            &&& target.weights@.dom().contains(Asset::Qqq)
            &&& target.weights@.dom().contains(Asset::Soxx)
            &&& target.weights@.dom().contains(Asset::Soxl)
        },
        !(target.universe_verdict() is Ok) ==> target.universe_verdict()->Err_0
            is InvalidTargetUniverse,
{
    if target.weights@.dom().contains(Asset::Tqqq) && target.weights@.dom().contains(Asset::Qqq)
        && target.weights@.dom().contains(Asset::Soxx) && target.weights@.dom().contains(
        Asset::Soxl,
    ) {
        assert forall|asset: Asset| #[trigger] target.weights@.dom().contains(asset) by {
            match asset {
                Asset::Tqqq => {},
                Asset::Qqq => {},
                Asset::Soxx => {},
                Asset::Soxl => {},
            }
        }
    }
}

/// A target in QQQ alone moves with the Nasdaq and not with semiconductors, however the leveraged
/// funds would count.
pub proof fn target_in_qqq_moves_with_the_nasdaq(target: TargetPortfolio, times: int)
    requires
        target.universe_verdict() is Ok,
        target.weights@[Asset::Tqqq].0 == 0,
        target.weights@[Asset::Soxx].0 == 0,
        target.weights@[Asset::Soxl].0 == 0,
    ensures
        exposure_times(target, times) matches Ok(exposure) && {
            &&& exposure.nasdaq_ppm == target.weights@[Asset::Qqq].0
            &&& exposure.tqqq_qqq_pair_ppm == target.weights@[Asset::Qqq].0
            &&& exposure.semiconductor_ppm == 0
            &&& exposure.soxl_soxx_pair_ppm == 0
            &&& exposure.leveraged_equity_ppm == 0
        },
{
    assert(times * 0 == 0);
}

/// A target in SOXX alone moves with semiconductors and not with the Nasdaq, however the leveraged
/// funds would count.
pub proof fn target_in_soxx_moves_with_semiconductors(target: TargetPortfolio, times: int)
    requires
        target.universe_verdict() is Ok,
        target.weights@[Asset::Tqqq].0 == 0,
        target.weights@[Asset::Qqq].0 == 0,
        target.weights@[Asset::Soxl].0 == 0,
    ensures
        exposure_times(target, times) matches Ok(exposure) && {
            &&& exposure.semiconductor_ppm == target.weights@[Asset::Soxx].0
            &&& exposure.soxl_soxx_pair_ppm == target.weights@[Asset::Soxx].0
            &&& exposure.nasdaq_ppm == 0
            &&& exposure.tqqq_qqq_pair_ppm == 0
            &&& exposure.leveraged_equity_ppm == 0
        },
{
    assert(times * 0 == 0);
}

/// The Nasdaq exposure of two targets is the same where they hold the same of TQQQ and QQQ, the
/// semiconductor exposure where they hold the same of SOXL and SOXX, and the leveraged exposure
/// where they hold the same of TQQQ and SOXL, whatever else they hold.
pub proof fn each_factor_depends_on_its_own_funds(
    a: TargetPortfolio,
    b: TargetPortfolio,
    times: int,
)
    requires
        exposure_times(a, times) is Ok,
        exposure_times(b, times) is Ok,
    ensures
        a.weights@[Asset::Tqqq] == b.weights@[Asset::Tqqq] && a.weights@[Asset::Qqq]
            == b.weights@[Asset::Qqq] ==> exposure_times(a, times)->Ok_0.nasdaq_ppm
            == exposure_times(b, times)->Ok_0.nasdaq_ppm && exposure_times(
            a,
            times,
        )->Ok_0.tqqq_qqq_pair_ppm == exposure_times(b, times)->Ok_0.tqqq_qqq_pair_ppm,
        a.weights@[Asset::Soxl] == b.weights@[Asset::Soxl] && a.weights@[Asset::Soxx]
            == b.weights@[Asset::Soxx] ==> exposure_times(a, times)->Ok_0.semiconductor_ppm
            == exposure_times(b, times)->Ok_0.semiconductor_ppm && exposure_times(
            a,
            times,
        )->Ok_0.soxl_soxx_pair_ppm == exposure_times(b, times)->Ok_0.soxl_soxx_pair_ppm,
        a.weights@[Asset::Tqqq] == b.weights@[Asset::Tqqq] && a.weights@[Asset::Soxl]
            == b.weights@[Asset::Soxl] ==> exposure_times(a, times)->Ok_0.leveraged_equity_ppm
            == exposure_times(b, times)->Ok_0.leveraged_equity_ppm,
{
}

/// The leveraged funds count three times in a day and the others once: what moves with the Nasdaq
/// and with semiconductors together is what is leveraged and what is held unleveraged.
pub proof fn leveraged_funds_count_three_times(target: TargetPortfolio)
    ensures
        exposure_times(target, 3) matches Ok(exposure) ==> {
            let tqqq = target.weights@[Asset::Tqqq].0;
            let qqq = target.weights@[Asset::Qqq].0;
            let soxx = target.weights@[Asset::Soxx].0;
            let soxl = target.weights@[Asset::Soxl].0;
            &&& exposure.leveraged_equity_ppm == 3 * (tqqq + soxl)
            &&& exposure.nasdaq_ppm - qqq == 3 * tqqq
            &&& exposure.semiconductor_ppm - soxx == 3 * soxl
            &&& exposure.tqqq_qqq_pair_ppm == exposure.nasdaq_ppm
            &&& exposure.soxl_soxx_pair_ppm == exposure.semiconductor_ppm
            &&& exposure.nasdaq_ppm + exposure.semiconductor_ppm == exposure.leveraged_equity_ppm
                + qqq + soxx
        },
        exposure_times(target, 1) matches Ok(exposure) ==> exposure.nasdaq_ppm
            + exposure.semiconductor_ppm == target.weights@[Asset::Tqqq].0
            + target.weights@[Asset::Qqq].0 + target.weights@[Asset::Soxx].0
            + target.weights@[Asset::Soxl].0,
        exposure_times(target, 3) is Ok <==> target.universe_verdict() is Ok && 3 * (
        target.weights@[Asset::Tqqq].0 + target.weights@[Asset::Soxl].0) <= u32::MAX && 3
            * target.weights@[Asset::Tqqq].0 + target.weights@[Asset::Qqq].0 <= u32::MAX && 3
            * target.weights@[Asset::Soxl].0 + target.weights@[Asset::Soxx].0 <= u32::MAX,
        !(exposure_times(target, 3) is Ok) ==> (exposure_times(
            target,
            3,
        )->Err_0 is InvalidTargetUniverse <==> !(target.universe_verdict() is Ok)),
{
    if target.covers_universe() {
        assert(target.weights@.dom().contains(Asset::Tqqq));
    }
}

/// An exposure is accepted exactly where no factor is more than six times the whole.
pub proof fn accepted_exposure_is_bounded(exposure: FactorExposure)
    ensures
        exposure.verdict() is Ok <==> {
            &&& exposure.leveraged_equity_ppm <= 6_000_000
            &&& exposure.nasdaq_ppm <= 6_000_000
            &&& exposure.semiconductor_ppm <= 6_000_000
            &&& exposure.tqqq_qqq_pair_ppm <= 6_000_000
            &&& exposure.soxl_soxx_pair_ppm <= 6_000_000
        },
{
}

/// An account is accepted exactly where its session is known, it has equity and owes nothing, and
/// it is long in all it holds.
pub proof fn accepted_account_is_long(account: AccountSnapshot)
    ensures
        account.verdict() is Ok <==> {
            &&& account.schema_version == 2
            &&& !blank(account.broker_session@)
            &&& account.equity.0 > 0
            &&& account.buying_power.0 >= 0
            &&& account.day_turnover.0 >= 0
            &&& forall|i: int|
                0 <= i < account.positions.keys().len() ==> (
                #[trigger] account.positions.values()[i]).quantity_micros >= 0
                    && account.positions.values()[i].market_value.0 >= 0
            &&& forall|s: Seq<char>| #[trigger]
                account.external_positions@.contains(s) ==> !blank(s)
            &&& forall|s: Seq<char>| #[trigger] account.open_order_ids@.contains(s) ==> !blank(s)
        },
{
    if forall|i: int|
        0 <= i < account.positions.keys().len() ==> (
        #[trigger] account.positions.values()[i]).quantity_micros >= 0
            && account.positions.values()[i].market_value.0 >= 0 {
        assert forall|i: int|
            0 <= i < account.positions.keys().len() implies #[trigger] account.position_is_long(
            i,
        ) by {
            assert(account.positions.values()[i].quantity_micros >= 0);
        }
    }
    if account.positions_are_sound() {
        assert forall|i: int| 0 <= i < account.positions.keys().len() implies (
        #[trigger] account.positions.values()[i]).quantity_micros >= 0
            && account.positions.values()[i].market_value.0 >= 0 by {
            assert(account.position_is_long(i));
        }
    }
}

/// A quote is accepted exactly where it bids something and asks more.
pub proof fn accepted_quote_asks_more_than_it_bids(quote: Quote)
    ensures
        quote.verdict() is Ok <==> quote.bid.0 > 0 && quote.ask.0 > quote.bid.0,
{
}

/// Quotes are accepted exactly where their session is known and each is acceptable.
pub proof fn accepted_quotes_are_each_accepted(quotes: QuoteSnapshot)
    ensures
        quotes.verdict() is Ok <==> {
            &&& quotes.schema_version == 2
            &&& !blank(quotes.broker_session@)
            &&& forall|i: int|
                0 <= i < quotes.quotes.keys().len() ==> 0 < (
                #[trigger] quotes.quotes.values()[i]).bid.0 < quotes.quotes.values()[i].ask.0
        },
{
    let checks = quotes.quote_checks();
    let n = quotes.quotes.keys().len();
    no_fault_means_every_check_passes(n, checks);
    if forall|i: int| 0 <= i < n ==> (#[trigger] checks(i)) is Ok {
        assert forall|i: int| 0 <= i < n implies 0 < (#[trigger] quotes.quotes.values()[i]).bid.0
            < quotes.quotes.values()[i].ask.0 by {
            assert(checks(i) is Ok);
        }
    }
    if forall|i: int|
        0 <= i < n ==> 0 < (#[trigger] quotes.quotes.values()[i]).bid.0
            < quotes.quotes.values()[i].ask.0 {
        assert forall|i: int| 0 <= i < n implies (#[trigger] checks(i)) is Ok by {
            assert(0 < quotes.quotes.values()[i].bid.0);
        }
    }
}

/// A clock that names a session says that session; without one the market is in its regular
/// session exactly while it is open.
pub proof fn clock_says_the_session_it_names(clock: MarketClockSnapshot)
    ensures
        clock.session matches Some(session) ==> clock.session_kind() == session.kind,
        clock.session is None && clock.is_open ==> clock.session_kind() is Regular,
        clock.session is None && !clock.is_open ==> clock.session_kind() is Closed,
        clock.verdict() is Ok <==> clock.schema_version == 2 && !blank(clock.broker_session@),
{
}

/// An order is accepted exactly where it is for some money at some price.
pub proof fn accepted_order_is_worth_something(order: OrderIntent)
    ensures
        order.verdict() is Ok <==> order.notional.0 > 0 && order.limit_price.0 > 0,
{
}

/// An order to buy uses its whole notional of the budget and an order to sell none of it, in
/// whatever order they stand.
pub proof fn buying_uses_the_notional(orders: Seq<OrderIntent>, order: OrderIntent)
    ensures
        buy_total(Seq::<OrderIntent>::empty()) == 0,
        order.side == OrderSide::Buy ==> buy_total(orders.push(order)) - buy_total(orders)
            == order.notional.0,
        order.side == OrderSide::Sell ==> buy_total(orders.push(order)) == buy_total(orders),
{
    assert(orders.push(order).drop_last() =~= orders);
}

/// What two lists of orders buy together is what each buys.
pub proof fn buying_adds_up(a: Seq<OrderIntent>, b: Seq<OrderIntent>)
    ensures
        buy_total(a + b) == buy_total(a) + buy_total(b),
    decreases b.len(),
{
    if b.len() == 0 {
        assert(a + b =~= a);
    } else {
        buying_adds_up(a, b.drop_last());
        assert((a + b).drop_last() =~= a + b.drop_last());
    }
}

/// The sum of weights is that of all of them: nothing for none, and what stands first and last
/// counts like any other.
pub proof fn weights_add_up(weights: Seq<WeightPpm>, n: nat)
    requires
        n <= weights.len(),
    ensures
        weight_sum(weights, n) == weights.take(n as int).fold_left(
            0int,
            |total: int, weight: WeightPpm| total + weight.0,
        ),
    decreases n,
{
    let step = |total: int, weight: WeightPpm| total + weight.0;
    reveal_with_fuel(Seq::fold_left, 2);
    if n > 0 {
        weights_add_up(weights, (n - 1) as nat);
        assert(weights.take(n as int).drop_last() =~= weights.take(n - 1));
        assert(weights.take(n as int).last() == weights[n - 1]);
    } else {
        assert(weights.take(0) =~= Seq::empty());
    }
}

/// A plan is accepted exactly where it refers to what it was made from, buys within its ceiling,
/// has one acceptable order at most for each asset, states the exposures of its own target and
/// stands under its own digest.
#[verifier::rlimit(40)]
pub proof fn accepted_plan_states_its_own_target(plan: ExecutionPlan)
    ensures
        plan.verdict() is Ok <==> {
            &&& plan.schema_version == 2
            &&& !blank(plan.broker_session@)
            &&& plan.maximum_total_notional.0 > 0
            &&& plan.decision_context.kind == ArtifactKind::DecisionContext
            &&& plan.account_snapshot.kind == ArtifactKind::NormalizedEvidence
            &&& plan.quote_snapshot.kind == ArtifactKind::NormalizedEvidence
            &&& plan.market_clock_snapshot.kind == ArtifactKind::NormalizedEvidence
            &&& plan.target.universe_verdict() is Ok
            &&& plan.factor_exposure.verdict() is Ok
            &&& plan.orders@.len() > 0
            &&& forall|i: int|
                0 <= i < plan.orders@.len() ==> (#[trigger] plan.orders@[i]).notional.0 > 0
                    && plan.orders@[i].limit_price.0 > 0
            &&& forall|i: int, j: int|
                0 <= i < plan.orders@.len() && 0 <= j < plan.orders@.len() && i != j ==> (
                #[trigger] plan.orders@[i]).asset != (#[trigger] plan.orders@[j]).asset
            &&& buy_total(plan.orders@) <= plan.maximum_total_notional.0
            &&& plan.turnover_ppm <= 1_000_000
            &&& plan.gross_exposure_ppm <= 1_000_000
            &&& plan.gross_exposure_ppm == weight_sum(
                plan.target.weights.values(),
                plan.target.weights.keys().len(),
            )
            &&& plan.net_exposure_ppm == plan.gross_exposure_ppm
            &&& exposure_times(plan.target, 3) is Ok
            &&& exposure_times(plan.target, 3)->Ok_0 == plan.factor_exposure || (exposure_times(
                plan.target,
                1,
            ) is Ok && exposure_times(plan.target, 1)->Ok_0 == plan.factor_exposure)
            &&& plan.plan_hash@ == plan.identity()
        },
{
    list_is_accepted_by_member(plan.orders@);
    assert forall|i: int| 0 <= i < plan.orders@.len() implies (crate::lists::Checked::judged(
        &(#[trigger] plan.orders@[i]),
    ) is Ok <==> plan.orders@[i].notional.0 > 0 && plan.orders@[i].limit_price.0 > 0) by {}
    if forall|i: int, j: int|
        0 <= i < plan.orders@.len() && 0 <= j < plan.orders@.len() && i != j ==> (
        #[trigger] plan.orders@[i]).asset != (#[trigger] plan.orders@[j]).asset {
        assert(assets_differ(plan.orders@));
    }
    if assets_differ(plan.orders@) {
        assert forall|i: int, j: int|
            0 <= i < plan.orders@.len() && 0 <= j < plan.orders@.len() && i != j implies (
        #[trigger] plan.orders@[i]).asset != (#[trigger] plan.orders@[j]).asset by {
            if i < j {
            } else {
                assert(plan.orders@[j].asset != plan.orders@[i].asset);
            }
        }
    }
}

/// An execution context is accepted exactly where it names its run, what it refers to is of the
/// right kinds, and what was derived is within bounds.
pub proof fn accepted_execution_context_refers_soundly(context: ExecutionContext)
    ensures
        context.verdict() is Ok <==> {
            &&& context.schema_version == 2
            &&& !blank(context.run_id@)
            &&& context.decision_context.kind == ArtifactKind::DecisionContext
            &&& context.account_snapshot matches Some(r) ==> r.kind
                == ArtifactKind::NormalizedEvidence
            &&& context.quote_snapshot matches Some(r) ==> r.kind
                == ArtifactKind::NormalizedEvidence
            &&& context.market_clock_snapshot matches Some(r) ==> r.kind
                == ArtifactKind::NormalizedEvidence
            &&& context.execution_plan matches Some(r) ==> r.kind == ArtifactKind::ExecutionPlan
            &&& context.turnover_ppm matches Some(turnover) ==> turnover <= 1_000_000
            &&& context.broker_session matches Some(session) ==> !blank(session@)
            &&& context.factor_exposure matches Some(exposure) ==> exposure.verdict() is Ok
            &&& context.pretrade_safety matches Some(safety) ==> safety.verdict() is Ok
            &&& context.final_process_quality matches Some(quality) ==> quality.verdict() is Ok
                && quality.event_grounding_ppm is Some && quality.premise_support_ppm is Some
                && quality.temporal_validity_ppm is Some && quality.logic_validity_ppm is Some
                && quality.mandate_consistency_ppm is Some
                && quality.portfolio_consistency_ppm is Some
                && quality.action_feasibility_ppm is Some
        },
{
}

/// A plan may be carried out only where everything it depends on is present, the mandate is kept,
/// safety permits it and nothing is frozen.
pub proof fn executable_plan_is_permitted_and_unfrozen(context: ExecutionContext)
    ensures
        context.closure_verdict() is Ok <==> {
            &&& context.verdict() is Ok
            &&& context.account_snapshot is Some
            &&& context.quote_snapshot is Some
            &&& context.market_clock_snapshot is Some
            &&& context.execution_plan is Some
            &&& context.factor_exposure is Some
            &&& context.turnover_ppm is Some
            &&& context.plan_hash is Some
            &&& context.broker_session is Some
            &&& context.mandate_assessment is Some
            &&& context.mandate_assessment->0.violations@.len() == 0
            &&& context.mandate_assessment->0.distance_after_ppm == 0
            &&& context.pretrade_safety is Some
            &&& context.pretrade_safety->0.permits_execution
            &&& !context.frozen
        },
{
}

/// That there is no order is accepted exactly where it says which context it is about and what
/// stands in the way.
pub proof fn missing_order_has_a_blocker(no_order: NoOrder)
    ensures
        no_order.verdict() is Ok <==> no_order.execution_context.kind
            == ArtifactKind::ExecutionContext && no_order.blockers@.len() > 0,
{
}

/// A verdict is accepted exactly where the context that it accepts is one, or what it says of
/// there being no order is acceptable.
pub proof fn accepted_verdict_is_of_a_context(verdict: ExecutionVerdict)
    ensures
        verdict is Accepted ==> (verdict.verdict() is Ok <==> verdict->execution_context.kind
            == ArtifactKind::ExecutionContext),
        verdict is NoOrder ==> verdict.verdict() == verdict->no_order.verdict(),
{
}

/// A freeze is accepted exactly where it gives a reason.
pub proof fn accepted_freeze_gives_a_reason(freeze: FreezeState)
    ensures
        freeze.verdict() is Ok <==> freeze.schema_version == 2 && !blank(freeze.reason@),
{
}

/// A commitment is accepted exactly where it is named and names an order for each asset that it
/// is committed to, of which there is one at least.
pub proof fn accepted_commitment_names_its_orders(commitment: PaperCommitment)
    ensures
        commitment.verdict() is Ok <==> {
            &&& !blank(commitment.commitment_id@)
            &&& !blank(commitment.broker_session@)
            &&& commitment.execution_context.kind == ArtifactKind::ExecutionContext
            &&& commitment.client_order_ids.keys().len() > 0
            &&& forall|i: int|
                0 <= i < commitment.client_order_ids.keys().len() ==> !blank(
                    (#[trigger] commitment.client_order_ids.values()[i])@,
                )
        },
{
}

/// In a valid receipt what was asked for is what is filled and what remains; an order that is only
/// accepted has nothing filled, a filled one nothing left, a partial one both, and a price stands
/// exactly where something was filled.
pub proof fn receipt_accounts_for_what_was_asked(receipt: OrderReceipt)
    ensures
        receipt.verdict() is Ok ==> {
            &&& receipt.requested_quantity_micros == receipt.filled_quantity_micros
                + receipt.remaining_quantity_micros
            &&& receipt.requested_quantity_micros > 0
            &&& receipt.filled_quantity_micros >= 0
            &&& receipt.remaining_quantity_micros >= 0
            &&& receipt.average_fill_price is Some <==> receipt.filled_quantity_micros > 0
            &&& receipt.average_fill_price matches Some(price) ==> price.0 > 0
            &&& receipt.state is Accepted ==> receipt.filled_quantity_micros == 0
            &&& receipt.state is PartiallyFilled ==> receipt.filled_quantity_micros > 0
                && receipt.remaining_quantity_micros > 0
            &&& receipt.state is Filled ==> receipt.remaining_quantity_micros == 0
            &&& !blank(receipt.client_order_id@)
            &&& !blank(receipt.broker_order_id@)
            &&& receipt.reason matches Some(reason) ==> !blank(reason@)
        },
        receipt.verdict() is Ok <==> {
            &&& !blank(receipt.client_order_id@)
            &&& !blank(receipt.broker_order_id@)
            &&& receipt.reason matches Some(reason) ==> !blank(reason@)
            &&& receipt.requested_quantity_micros > 0
            &&& receipt.filled_quantity_micros >= 0
            &&& receipt.remaining_quantity_micros >= 0
            &&& receipt.requested_quantity_micros - receipt.filled_quantity_micros
                == receipt.remaining_quantity_micros
            &&& receipt.average_fill_price matches Some(price) ==> price.0 > 0
            &&& receipt.average_fill_price is Some <==> receipt.filled_quantity_micros > 0
            &&& receipt.state is Accepted ==> receipt.filled_quantity_micros == 0
            &&& receipt.state is PartiallyFilled ==> receipt.filled_quantity_micros > 0
                && receipt.remaining_quantity_micros > 0
            &&& receipt.state is Filled ==> receipt.remaining_quantity_micros == 0
        },
{
}

/// An order is tried again under its own name with the count raised from nothing to one.
pub proof fn second_try_keeps_the_name(prior: Seq<char>, replacement: Seq<char>)
    ensures
        is_second_try(prior, replacement) ==> exists|name: Seq<char>|
            name.len() > 0 && prior == #[trigger] (name + "-r0"@) && replacement == name + "-r1"@,
        forall|name: Seq<char>|
            name.len() > 0 && prior == #[trigger] (name + "-r0"@) && replacement == name + "-r1"@
                ==> is_second_try(prior, replacement),
{
    reveal_strlit("-r0");
    reveal_strlit("-r1");
    if is_second_try(prior, replacement) {
        let name = prior.take(prior.len() - 3);
        assert(prior =~= name + "-r0"@) by {
            assert(prior =~= name + prior.skip(prior.len() - 3));
        }
    }
    assert forall|name: Seq<char>|
        name.len() > 0 && prior == #[trigger] (name + "-r0"@) && replacement == name
            + "-r1"@ implies is_second_try(prior, replacement) by {
        assert(prior.skip(prior.len() - 3) =~= "-r0"@);
        assert(prior.take(prior.len() - 3) =~= name);
    }
}

/// A new price is accepted exactly where it is for a known order of a commitment, is above nothing
/// and follows a first try.
pub proof fn accepted_reprice_follows_a_first_try(reprice: PaperReprice)
    ensures
        reprice.verdict() is Ok <==> {
            &&& reprice.schema_version == 2
            &&& !blank(reprice.reprice_id@)
            &&& reprice.commitment.kind == ArtifactKind::ExecutionCommitment
            &&& reprice.prior_receipt.kind == ArtifactKind::OrderReceipt
            &&& !blank(reprice.prior_broker_order_id@)
            &&& reprice.replacement_limit_price.0 > 0
            &&& is_second_try(reprice.prior_client_order_id@, reprice.replacement_client_order_id@)
        },
        reprice.verdict() matches Err(e) && !is_second_try(
            reprice.prior_client_order_id@,
            reprice.replacement_client_order_id@,
        ) && e is InvalidRepriceLineage ==> reprice.replacement_limit_price.0 > 0,
{
}

/// A reconciliation is accepted exactly where it is of a commitment, from receipts alone, and has
/// a receipt where it is complete.
pub proof fn complete_reconciliation_has_a_receipt(reconciliation: Reconciliation)
    ensures
        reconciliation.verdict() is Ok <==> {
            &&& !blank(reconciliation.reconciliation_id@)
            &&& reconciliation.commitment.kind == ArtifactKind::ExecutionCommitment
            &&& forall|i: int|
                0 <= i < reconciliation.broker_receipts@.len() ==> (
                #[trigger] reconciliation.broker_receipts@[i]).kind == ArtifactKind::OrderReceipt
            &&& reconciliation.state is Complete ==> reconciliation.broker_receipts@.len() > 0
        },
{
}

/// One instant is before another by its seconds, and by its nanoseconds where those are the same;
/// of two different instants exactly one is before the other.
pub proof fn instants_stand_in_one_order(a: (int, int), b: (int, int), c: (int, int))
    ensures
        !is_before(a, a),
        a.0 < b.0 ==> is_before(a, b),
        a.0 == b.0 && a.1 < b.1 ==> is_before(a, b),
        is_before(a, b) ==> !is_before(b, a),
        a != b ==> is_before(a, b) || is_before(b, a),
        is_before(a, b) && is_before(b, c) ==> is_before(a, c),
{
}

/// Where the moments of a day follow each other, an instant belongs to the session that has begun
/// and not ended; the regular one counts only while the market is said to be open, and a session
/// no longer runs at the instant at which it ends.
pub proof fn instant_belongs_to_the_session_that_runs(
    times: DayTimes,
    now: (int, int),
    regular_open: bool,
)
    requires
        is_before(times.overnight, times.pre),
        is_before(times.pre, times.open),
        is_before(times.open, times.close),
        is_before(times.close, times.end),
    ensures
        is_before(now, times.overnight) ==> session_in(times, now, regular_open) is None,
        !is_before(now, times.end) ==> session_in(times, now, regular_open) is None,
        !is_before(now, times.overnight) && is_before(now, times.pre) ==> session_in(
            times,
            now,
            regular_open,
        ) == Some((TradingSession::Overnight, times.pre)),
        !is_before(now, times.pre) && is_before(now, times.open) ==> session_in(
            times,
            now,
            regular_open,
        ) == Some((TradingSession::PreMarket, times.open)),
        !is_before(now, times.open) && is_before(now, times.close) ==> session_in(
            times,
            now,
            true,
        ) == Some((TradingSession::Regular, times.close)) && session_in(times, now, false) is None,
        !is_before(now, times.close) && is_before(now, times.end) ==> session_in(
            times,
            now,
            regular_open,
        ) == Some((TradingSession::AfterHours, times.end)),
        session_in(times, times.pre, regular_open) == Some((TradingSession::PreMarket, times.open)),
        session_in(times, times.close, regular_open) == Some(
            (TradingSession::AfterHours, times.end),
        ),
{
}

/// A trading day runs from eight in the evening before it, through four in the morning and the
/// exchange's own hours, to eight in the evening, all in New York.
pub proof fn trading_day_runs_from_evening_to_evening(day: ExchangeSession)
    ensures
        day_times(day) matches Ok(times) ==> {
            let date = day.date.day();
            &&& new_york_instant(date - 1, 72_000, 0) == Some(times.overnight)
            &&& new_york_instant(date, 14_400, 0) == Some(times.pre)
            &&& new_york_instant(date, day.open.secs(), day.open.nanos()) == Some(times.open)
            &&& new_york_instant(date, day.close.secs(), day.close.nanos()) == Some(times.close)
            &&& new_york_instant(date, 72_000, 0) == Some(times.end)
            &&& is_before(
                (day.open.secs(), day.open.nanos()),
                (day.close.secs(), day.close.nanos()),
            )
            &&& day.open.secs() >= 14_400
            &&& !is_before((72_000, 0), (day.close.secs(), day.close.nanos()))
        },
{
}

/// The session that is found is the one that runs at the instant on the first listed day on which
/// one runs.
pub proof fn found_session_runs_on_the_first_such_day(
    days: Seq<ExchangeSession>,
    now: (int, int),
    regular_open: bool,
    known: Option<(int, int)>,
)
    ensures
        find_session(days, now, regular_open, known) matches Ok(
            Finding::InSession { kind, date, ends_at },
        ) ==> exists|i: int|
            0 <= i < days.len() && (#[trigger] days[i]).date == date && day_times(days[i]) is Ok
                && session_in(day_times(days[i])->Ok_0, now, regular_open) == Some((kind, ends_at))
                && forall|j: int|
                0 <= j < i ==> day_times(#[trigger] days[j]) is Ok && session_in(
                    day_times(days[j])->Ok_0,
                    now,
                    regular_open,
                ) is None,
        find_session(days, now, regular_open, known) matches Ok(finding) && finding is OutOfSession
            ==> forall|j: int|
            0 <= j < days.len() ==> day_times(#[trigger] days[j]) is Ok && session_in(
                day_times(days[j])->Ok_0,
                now,
                regular_open,
            ) is None,
    decreases days.len(),
{
    if days.len() > 0 {
        if let Ok(times) = day_times(days[0]) {
            if session_in(times, now, regular_open) is None {
                let rest = days.drop_first();
                let next = if is_before(now, times.overnight) {
                    Some(soonest(known, times.overnight))
                } else {
                    known
                };
                found_session_runs_on_the_first_such_day(rest, now, regular_open, next);
                match find_session(rest, now, regular_open, next) {
                    Ok(Finding::InSession { kind, date, ends_at }) => {
                        let i = choose|i: int|
                            0 <= i < rest.len() && (#[trigger] rest[i]).date == date && day_times(
                                rest[i],
                            ) is Ok && session_in(day_times(rest[i])->Ok_0, now, regular_open)
                                == Some((kind, ends_at)) && forall|j: int|
                                0 <= j < i ==> day_times(#[trigger] rest[j]) is Ok && session_in(
                                    day_times(rest[j])->Ok_0,
                                    now,
                                    regular_open,
                                ) is None;
                        assert(days[i + 1] == rest[i]);
                        assert forall|j: int| 0 <= j < i + 1 implies day_times(
                            #[trigger] days[j],
                        ) is Ok && session_in(day_times(days[j])->Ok_0, now, regular_open) is None by {
                            if j > 0 {
                                assert(rest[j - 1] == days[j]);
                            }
                        }
                    },
                    Ok(Finding::OutOfSession { next_open }) => {
                        assert forall|j: int| 0 <= j < days.len() implies day_times(
                            #[trigger] days[j],
                        ) is Ok && session_in(day_times(days[j])->Ok_0, now, regular_open) is None by {
                            if j > 0 {
                                assert(rest[j - 1] == days[j]);
                            }
                        }
                    },
                    Err(_) => {},
                }
            } else {
                assert(days[0].date == days[0].date);
            }
        }
    }
}

/// The next opening is the soonest of the evenings still to come on which a listed day begins, and
/// there is none only where no such evening is to come.
pub proof fn next_opening_is_the_soonest_to_come(
    days: Seq<ExchangeSession>,
    now: (int, int),
    regular_open: bool,
    known: Option<(int, int)>,
)
    requires
        known matches Some(at) ==> is_before(now, at),
    ensures
        find_session(days, now, regular_open, known) matches Ok(
            Finding::OutOfSession { next_open },
        ) ==> {
            &&& forall|i: int|
                0 <= i < days.len() && is_before(
                    now,
                    day_times(#[trigger] days[i])->Ok_0.overnight,
                ) ==> next_open is Some && !is_before(
                    day_times(days[i])->Ok_0.overnight,
                    next_open->0,
                )
            &&& known matches Some(at) ==> next_open is Some && !is_before(at, next_open->0)
            &&& next_open matches Some(at) ==> is_before(now, at) && (known == Some(at) || exists|
                i: int,
            |
                0 <= i < days.len() && day_times(#[trigger] days[i])->Ok_0.overnight == at)
        },
    decreases days.len(),
{
    if days.len() > 0 {
        if let Ok(times) = day_times(days[0]) {
            if session_in(times, now, regular_open) is None {
                let rest = days.drop_first();
                let next = if is_before(now, times.overnight) {
                    Some(soonest(known, times.overnight))
                } else {
                    known
                };
                next_opening_is_the_soonest_to_come(rest, now, regular_open, next);
                if let Ok(Finding::OutOfSession { next_open }) = find_session(
                    rest,
                    now,
                    regular_open,
                    next,
                ) {
                    assert forall|i: int|
                        0 <= i < days.len() && is_before(
                            now,
                            day_times(#[trigger] days[i])->Ok_0.overnight,
                        ) implies next_open is Some && !is_before(
                        day_times(days[i])->Ok_0.overnight,
                        next_open->0,
                    ) by {
                        if i > 0 {
                            assert(rest[i - 1] == days[i]);
                        }
                    }
                    if next_open is Some && known != next_open {
                        let at = next_open->0;
                        if next == Some(at) {
                            assert(day_times(days[0])->Ok_0.overnight == at);
                        } else {
                            let i = choose|i: int|
                                0 <= i < rest.len() && day_times(#[trigger] rest[i])->Ok_0.overnight
                                    == at;
                            assert(days[i + 1] == rest[i]);
                        }
                    }
                }
            }
        }
    }
}

/// An asset is available overnight only where its description is of that symbol, active and
/// tradable, and the flags for the night say so.
pub proof fn overnight_asset_is_active_and_tradable(tree: JsonTree, symbol: Seq<char>)
    ensures
        is_overnight_asset(tree, symbol) <==> {
            &&& member_of(tree, "symbol"@) == Some(JsonTree::Text(symbol))
            &&& member_of(tree, "status"@) == Some(JsonTree::Text("active"@))
            &&& member_of(tree, "tradable"@) == Some(JsonTree::Bool(true))
            &&& asset_flag(tree, "overnight_tradable"@) == Some(true)
            &&& asset_flag(tree, "overnight_halted"@) == Some(false)
        },
{
}

} // verus!
