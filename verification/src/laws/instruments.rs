//! What holds of the instruments and of the evidence that they require.
use crate::foundation::Asset;
use crate::instrument_evidence::{
    InstrumentEvidenceBlocker, InstrumentEvidenceCategory, InstrumentEvidenceKey,
    InstrumentEvidenceProfile, InstrumentEvidenceRequirement, RequirementView, asset_key,
    benchmark_of, category_named, evidence_by, is_required_of, issuer_of, key_of, keys_of, kind_of,
    missing, multiplier_of, need_of, needs, registered, required, required_of,
    required_of_the_economy, researched, shifted, spread_keys, states_all,
};
use crate::text::{listed, starts_with};
use crate::time::{FIRST_DAY, LAST_DAY, day_read, day_text};
use vstd::prelude::*;

verus! {

/// A leveraged fund follows the index of the fund beside it threefold, is reset each day, and is of
/// another issuer; the others follow their index once.
pub proof fn leveraged_fund_follows_its_index_threefold(asset: Asset)
    ensures
        benchmark_of(Asset::Tqqq) == benchmark_of(Asset::Qqq),
        benchmark_of(Asset::Soxl) == benchmark_of(Asset::Soxx),
        benchmark_of(Asset::Qqq) == "Nasdaq-100 Index"@,
        benchmark_of(Asset::Soxx) == "NYSE Semiconductor Index"@,
        kind_of(asset) is DailyResetLeveragedEtf <==> asset is Tqqq || asset is Soxl,
        multiplier_of(asset) == 3 <==> kind_of(asset) is DailyResetLeveragedEtf,
        multiplier_of(asset) == 1 <==> kind_of(asset) is Etf,
        issuer_of(Asset::Qqq) == "Invesco"@,
        issuer_of(Asset::Tqqq) == "ProShares"@,
        issuer_of(Asset::Soxx) == "iShares"@,
        issuer_of(Asset::Soxl) == "Direxion"@,
        registered().contains(asset),
        registered().len() == 4,
{
    assert(registered()[0] == Asset::Qqq && registered()[1] == Asset::Tqqq && registered()[2]
        == Asset::Soxx && registered()[3] == Asset::Soxl);
}

/// A profile describes one asset at most.
pub proof fn profile_describes_one_asset(profile: InstrumentEvidenceProfile, a: Asset, b: Asset)
    ensures
        profile.describes(a) && profile.describes(b) ==> a == b,
        profile.describes(a) ==> profile.asset == a && profile.kind == kind_of(a)
            && profile.issuer@ == issuer_of(a) && profile.benchmark@ == benchmark_of(a)
            && profile.daily_leverage_multiplier == multiplier_of(a),
{
}

/// A day is shifted within the calendar, and a text that is no day or would leave the calendar stays
/// as it is.
pub proof fn shifted_day_is_that_many_days_away(session: Seq<char>, days: int)
    ensures
        day_read(session) is None ==> shifted(session, days) == session,
        day_read(session) matches Some(day) ==> (FIRST_DAY <= day + days <= LAST_DAY ==> shifted(
            session,
            days,
        ) == day_text(day + days)),
        day_read(session) matches Some(day) ==> (!(FIRST_DAY <= day + days <= LAST_DAY) ==> shifted(
            session,
            days,
        ) == session),
{
}

/// A requirement for a category.
pub open spec fn requires_category(
    list: Seq<RequirementView>,
    asset: Asset,
    category: InstrumentEvidenceCategory,
) -> bool {
    exists|i: int|
        0 <= i < list.len() && (#[trigger] list[i]).key.asset == Some(asset) && list[i].key.category
            == category
}

/// Of an asset everything is required but the calendar of the economy, which is of no asset, and the
/// terms of leverage, which only a leveraged fund has; prices come from the broker, quotes and
/// options fresh to five minutes, the rest from the news, fresh to a day and the terms to a week.
pub proof fn asset_requires_its_own_evidence(
    asset: Asset,
    session: Seq<char>,
    category: InstrumentEvidenceCategory,
    i: int,
)
    ensures
        requires_category(required_of(asset, session), asset, category) <==> !(
        category is MacroReleaseCalendar) && (category is LeveragedEtfTerms
            ==> kind_of(asset) is DailyResetLeveragedEtf),
        0 <= i < required_of(asset, session).len() ==> {
            let view = required_of(asset, session)[i];
            &&& view.key.asset == Some(asset)
            &&& view.source_family == "alpaca"@ <==> view.key.category is CorporateActions
                || view.key.category is ImpliedVolatilityTermStructure
                || view.key.category is LiquiditySpread
            &&& view.source_family == "alpaca"@ || view.source_family == "news_web"@
            &&& view.max_age_secs == 300 <==> view.key.category is LiquiditySpread
                || view.key.category is ImpliedVolatilityTermStructure
            &&& view.max_age_secs == 604_800 <==> view.key.category is LeveragedEtfTerms
            &&& view.max_age_secs == 300 || view.max_age_secs == 604_800 || view.max_age_secs
                == 86_400
            &&& view.key.category is LiquiditySpread ==> view.resource == "paper.quotes"@
            &&& view.key.category is CorporateActions ==> view.resource == "corporate_actions:"@
                + asset.wire() + ":"@ + shifted(session, -366) + ":"@ + session
            &&& view.key.category is ImpliedVolatilityTermStructure ==> view.resource
                == "option_chain:"@ + asset.wire() + ":"@ + session + ":"@ + shifted(session, 120)
            &&& view.source_family == "news_web"@ ==> view.resource == "research:"@
                + view.key.category.wire() + ":"@ + asset.wire() + ":"@ + session
        },
        required_of(asset, session).len() == (if kind_of(asset) is DailyResetLeveragedEtf {
            7nat
        } else {
            6nat
        }),
{
    reveal_strlit("alpaca");
    reveal_strlit("news_web");
    assert("alpaca"@.len() == 6 && "news_web"@.len() == 8);
    let list = required_of(asset, session);
    assert(list[0].key.category is EtfHoldings);
    assert(list[1].key.category is IndexMetadata);
    assert(list[2].key.category is EarningsEventCalendar);
    if kind_of(asset) is DailyResetLeveragedEtf {
        assert(list[3].key.category is LeveragedEtfTerms);
        assert(list[4].key.category is CorporateActions);
        assert(list[5].key.category is ImpliedVolatilityTermStructure);
        assert(list[6].key.category is LiquiditySpread);
        if 0 <= i < list.len() {
            assert(i == 0 || i == 1 || i == 2 || i == 3 || i == 4 || i == 5 || i == 6);
        }
    } else {
        assert(list[3].key.category is CorporateActions);
        assert(list[4].key.category is ImpliedVolatilityTermStructure);
        assert(list[5].key.category is LiquiditySpread);
        if 0 <= i < list.len() {
            assert(i == 0 || i == 1 || i == 2 || i == 3 || i == 4 || i == 5);
        }
    }
    if requires_category(list, asset, category) {
        let k = choose|k: int|
            0 <= k < list.len() && (#[trigger] list[k]).key.asset == Some(asset)
                && list[k].key.category == category;
        assert(k == 0 || k == 1 || k == 2 || k == 3 || k == 4 || k == 5 || k == 6);
    }
}

/// The economy requires its calendar from the day before to forty-five days on, fresh to a day.
pub proof fn economy_requires_its_calendar(session: Seq<char>)
    ensures
        ({
            let view = required_of_the_economy(session);
            &&& view.key.asset is None
            &&& view.key.category is MacroReleaseCalendar
            &&& view.source_family == "fred"@
            &&& view.resource == "release_calendar:"@ + session + ":"@ + shifted(session, 45)
                + ":"@ + shifted(session, -1)
            &&& view.max_age_secs == 86_400
        }),
        required(session).len() == 27,
        required(session)[26] == required_of_the_economy(session),
{
    let a = required_of(Asset::Qqq, session);
    let b = required_of(Asset::Tqqq, session);
    let c = required_of(Asset::Soxx, session);
    let d = required_of(Asset::Soxl, session);
    assert(a.len() == 6 && b.len() == 7 && c.len() == 6 && d.len() == 7);
}

/// Which keys an asset requires: its own of every category but those of the economy and, unless it
/// is leveraged, of leverage; and that of the economy.
pub proof fn asset_requires_its_own_keys(asset: Asset, key: InstrumentEvidenceKey)
    ensures
        is_required_of(asset, key) ==> key.asset is None || key.asset == Some(asset),
        key.asset is None ==> (is_required_of(asset, key) <==> key.category is MacroReleaseCalendar),
        key.asset == Some(asset) && key.category is LeveragedEtfTerms ==> (is_required_of(asset, key)
            <==> asset is Tqqq || asset is Soxl),
        key.asset == Some(asset) && !(key.category is MacroReleaseCalendar) && !(
        key.category is LeveragedEtfTerms) ==> is_required_of(asset, key),
        key.asset == Some(asset) && key.category is MacroReleaseCalendar ==> !is_required_of(
            asset,
            key,
        ),
{
}

/// A category is read by its own name, and quotes are evidence on the spread of every asset.
pub proof fn category_is_read_by_its_name(
    text: Seq<char>,
    key: InstrumentEvidenceKey,
    asset: Asset,
)
    ensures
        category_named(text) matches Some(category) ==> category.wire() == text,
        category_named("etf_holdings"@) == Some(InstrumentEvidenceCategory::EtfHoldings),
        spread_keys().contains(key) <==> key.asset is Some && key.category is LiquiditySpread,
        key.category is LiquiditySpread ==> evidence_by(key) == spread_keys(),
        !(key.category is LiquiditySpread) ==> evidence_by(key) == set![key],
        keys_of("paper.quotes"@) == spread_keys(),
{
    if key.asset is Some && key.category is LiquiditySpread {
        match key.asset->0 {
            Asset::Tqqq => assert(key == key_of(Asset::Tqqq, key.category)),
            Asset::Qqq => assert(key == key_of(Asset::Qqq, key.category)),
            Asset::Soxx => assert(key == key_of(Asset::Soxx, key.category)),
            Asset::Soxl => assert(key == key_of(Asset::Soxl, key.category)),
        }
    }
}

/// A requirement is stated with its own key, source, resource and age, and a blocker with the key,
/// source and resource of what is missing.
pub proof fn requirement_is_stated_in_full(
    requirement: InstrumentEvidenceRequirement,
    blocker: InstrumentEvidenceBlocker,
    view: RequirementView,
)
    ensures
        requirement.states(view) ==> requirement.key == view.key
            && requirement.need.source_family@ == view.source_family
            && requirement.need.resource@ == view.resource && requirement.need.max_age_secs
            == view.max_age_secs && requirement.need.schema_version == 2,
        blocker.blocks(view) ==> blocker.key == view.key && blocker.expected_source_family@
            == view.source_family && blocker.expected_resource@ == view.resource,
        need_of(view).source_family == view.source_family,
        need_of(view).resource == view.resource,
        need_of(view).max_age_secs == view.max_age_secs,
{
}

/// What is missing is exactly what is required and not among the resources.
pub proof fn missing_is_what_no_resource_brings(
    session: Seq<char>,
    resources: Seq<String>,
    view: RequirementView,
)
    ensures
        missing(session, resources).contains(view) <==> required(session).contains(view) && !listed(
            resources,
            view.resource,
        ),
        needs(session).contains(need_of(view)) <== required(session).contains(view),
{
    broadcast use vstd::seq_lib::group_filter_ensures;

    let list = required(session);
    let keep = |v: RequirementView| !listed(resources, v.resource);
    if missing(session, resources).contains(view) {
        let i = choose|i: int|
            0 <= i < missing(session, resources).len() && missing(session, resources)[i] == view;
        assert(list.filter(keep).contains(view));
        assert(keep(list.filter(keep)[i]));
        list.lemma_filter_contains_rev(keep, view);
    }
    if list.contains(view) && !listed(resources, view.resource) {
        let i = choose|i: int| 0 <= i < list.len() && list[i] == view;
        assert(keep(list[i]));
        assert(list.filter(keep).contains(list[i]));
    }
    if list.contains(view) {
        let i = choose|i: int| 0 <= i < list.len() && list[i] == view;
        let mapped = list.map_values(|v: RequirementView| need_of(v));
        assert(mapped[i] == need_of(view));
        assert(mapped.contains(need_of(view)));
    }
}

} // verus!
