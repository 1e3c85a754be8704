//! What holds of content, consensus, capacity, compliance, dependencies and pre-trade safety.
use crate::foundation::{Asset, MoneyMicros, WeightPpm};
use crate::lists::no_fault_means_every_check_passes;
use crate::market_safety::{
    AgentEvidenceContribution, AssetCapacityAssessment, CapacityPolicy, ComplianceActionPolicy,
    ComplianceActivitySnapshot, ComplianceControl, ComplianceViolation,
    ConsensusDiversityAssessment, DependencyClosure, DependencyDegradationClass,
    DependencyHealthStatus, DependencyKind, DependencySnapshot, FinancialContentAssessment,
    FinancialContentIndicator, FinancialContentPolicy, InformationClassification,
    PreTradeSafetySnapshot, SourceAuthorityClass, agent_names, aggregate_notional, all_clusters,
    all_snapshots, capacity_entry_verdict, capacity_row, capacity_rows, contributions_are_sound,
    dependency_checks, diversity_facts, is_largest_overlap, overlap_ppm, pair_overlap, paper_controls,
    participation_ppm, rows_fit, seconds_apart, slippage_ppm,
};
use crate::text::blank;
use crate::time::{UtcTime, earlier, elapsed_nanos};
use vstd::prelude::*;

verus! {

/// An assessment of content is accepted exactly where its origin is known, nothing it names is
/// blank and it counts no more than a thousand confirmations.
pub proof fn accepted_content_has_an_origin(content: FinancialContentAssessment)
    ensures
        content.verdict() is Ok <==> {
            &&& !blank(content.source_origin@)
            &&& content.syndication_parent matches Some(parent) ==> !blank(parent@)
            &&& forall|s: Seq<char>| #[trigger]
                content.canonical_entity_ids@.contains(s) ==> !blank(s)
            &&& content.independent_confirmation_clusters <= 1_000
        },
{
}

/// Content may be traded on exactly where it and the policy are acceptable, it is public or, where
/// the policy allows that, licensed, shows none of the four signs of manipulation, and, where
/// much hangs on it, comes from a first-hand authority and is confirmed often enough.
pub proof fn tradable_content_is_public_and_confirmed(
    content: FinancialContentAssessment,
    policy: FinancialContentPolicy,
)
    ensures
        !content.is_blocked(policy) <==> {
            &&& content.verdict() is Ok
            &&& 1 <= policy.minimum_high_impact_confirmation_clusters <= 16
            &&& content.information_classification is Public
                || content.information_classification is Licensed
                && policy.allow_licensed_information
            &&& !content.indicators@.contains(FinancialContentIndicator::InstructionLikeContent)
            &&& !content.indicators@.contains(FinancialContentIndicator::UnicodeAnomaly)
            &&& !content.indicators@.contains(FinancialContentIndicator::HiddenContent)
            &&& !content.indicators@.contains(FinancialContentIndicator::EntityIdentifierMismatch)
            &&& content.high_impact ==> (content.authority is Regulator
                || content.authority is Exchange || content.authority is Issuer
                || content.authority is FundSponsor) && content.independent_confirmation_clusters
                >= policy.minimum_high_impact_confirmation_clusters
        },
        policy.verdict() is Ok <==> 1 <= policy.minimum_high_impact_confirmation_clusters <= 16,
{
}

/// The clusters of all contributions are those that some contribution has.
pub proof fn clusters_are_those_that_someone_has(
    list: Seq<AgentEvidenceContribution>,
    cluster: Seq<char>,
)
    ensures
        all_clusters(list).contains(cluster) <==> exists|i: int|
            0 <= i < list.len() && (#[trigger] list[i]).evidence_clusters@.contains(cluster),
    decreases list.len(),
{
    if list.len() > 0 {
        let rest = list.drop_last();
        clusters_are_those_that_someone_has(rest, cluster);
        if all_clusters(rest).contains(cluster) {
            let i = choose|i: int|
                0 <= i < rest.len() && (#[trigger] rest[i]).evidence_clusters@.contains(cluster);
            assert(list[i] == rest[i]);
        }
        if list.last().evidence_clusters@.contains(cluster) {
            assert(list[list.len() - 1].evidence_clusters@.contains(cluster));
        }
        if exists|i: int|
            0 <= i < list.len() && (#[trigger] list[i]).evidence_clusters@.contains(cluster) {
            let i = choose|i: int|
                0 <= i < list.len() && (#[trigger] list[i]).evidence_clusters@.contains(cluster);
            if i < rest.len() {
                assert(rest[i] == list[i]);
            }
        }
    }
}

/// The snapshots of all contributions are those that some contribution names.
pub proof fn snapshots_are_those_that_someone_names(
    list: Seq<AgentEvidenceContribution>,
    snapshot: Seq<char>,
)
    ensures
        all_snapshots(list).contains(snapshot) <==> exists|i: int|
            0 <= i < list.len() && (#[trigger] list[i]).capability_snapshot_hash is Some
                && list[i].capability_snapshot_hash->0@ == snapshot,
    decreases list.len(),
{
    if list.len() > 0 {
        let rest = list.drop_last();
        snapshots_are_those_that_someone_names(rest, snapshot);
        if all_snapshots(rest).contains(snapshot) {
            let i = choose|i: int|
                0 <= i < rest.len() && (#[trigger] rest[i]).capability_snapshot_hash is Some
                    && rest[i].capability_snapshot_hash->0@ == snapshot;
            assert(list[i] == rest[i]);
        }
        if list.last().capability_snapshot_hash is Some {
            assert(list[list.len() - 1].capability_snapshot_hash is Some);
        }
        if exists|i: int|
            0 <= i < list.len() && (#[trigger] list[i]).capability_snapshot_hash is Some
                && list[i].capability_snapshot_hash->0@ == snapshot {
            let i = choose|i: int|
                0 <= i < list.len() && (#[trigger] list[i]).capability_snapshot_hash is Some
                    && list[i].capability_snapshot_hash->0@ == snapshot;
            if i < rest.len() {
                assert(rest[i] == list[i]);
            }
        }
    }
}

/// Contributions are sound exactly where each names its agent and some evidence, and no agent
/// contributes twice.
pub proof fn sound_contributions_are_of_different_agents(list: Seq<AgentEvidenceContribution>)
    ensures
        contributions_are_sound(list) <==> {
            &&& forall|i: int|
                0 <= i < list.len() ==> !blank((#[trigger] list[i]).agent_id@)
                    && list[i].evidence_clusters@.len() != 0
            &&& forall|i: int, j: int|
                0 <= i < j < list.len() ==> (#[trigger] list[i]).agent_id@ != (
                #[trigger] list[j]).agent_id@
        },
{
    let names = agent_names(list);
    if names.no_duplicates() {
        assert forall|i: int, j: int| 0 <= i < j < list.len() implies (
        #[trigger] list[i]).agent_id@ != (#[trigger] list[j]).agent_id@ by {
            assert(names[i] != names[j]);
        }
    }
    if forall|i: int, j: int|
        0 <= i < j < list.len() ==> (#[trigger] list[i]).agent_id@ != (#[trigger] list[j]).agent_id@ {
        assert forall|i: int, j: int|
            0 <= i < names.len() && 0 <= j < names.len() && i != j implies names[i] != names[j] by {
            if i < j {
                assert(list[i].agent_id@ != list[j].agent_id@);
            } else {
                assert(list[j].agent_id@ != list[i].agent_id@);
            }
        }
    }
}

/// The overlap of two sets of evidence is the same from either side; it is nothing where they share
/// nothing, the whole where they are one, and else what they share of what they have together,
/// rounded down.
pub proof fn overlap_is_what_is_shared(a: Set<Seq<char>>, b: Set<Seq<char>>)
    requires
        a.finite(),
        b.finite(),
        a.union(b).len() > 0,
        a.intersect(b).len() * 1_000_000 <= usize::MAX,
    ensures
        overlap_ppm(a, b) == overlap_ppm(b, a),
        overlap_ppm(a, b) * a.union(b).len() <= 1_000_000 * a.intersect(b).len(),
        1_000_000 * a.intersect(b).len() < (overlap_ppm(a, b) + 1) * a.union(b).len(),
        a.disjoint(b) ==> overlap_ppm(a, b) == 0,
        a == b ==> overlap_ppm(a, b) == 1_000_000,
        0 <= overlap_ppm(a, b) <= 1_000_000,
{
    assert(a.union(b) =~= b.union(a));
    assert(a.intersect(b) =~= b.intersect(a));
    let both = a.intersect(b).len() as int;
    let either = a.union(b).len() as int;
    assert(both <= either) by {
        vstd::set_lib::lemma_len_subset(a.intersect(b), a.union(b));
    }
    assert(0 <= both * 1_000_000 / either <= 1_000_000) by (nonlinear_arith)
        requires
            0 <= both <= either,
            either > 0,
    ;
    let part = both * 1_000_000 / either;
    assert(part * either <= both * 1_000_000 < (part + 1) * either) by (nonlinear_arith)
        requires
            part == both * 1_000_000 / either,
            either > 0,
            0 <= both,
    ;
    if a.disjoint(b) {
        assert(a.intersect(b) =~= Set::empty());
        assert(0int / either == 0) by (nonlinear_arith)
            requires
                either > 0,
        ;
    }
    if a == b {
        assert(a.intersect(b) =~= a);
        assert(a.union(b) =~= a);
        assert(both * 1_000_000 / either == 1_000_000) by (nonlinear_arith)
            requires
                both == either,
                either > 0,
        ;
    }
}

/// The largest overlap is that of some pair and not below that of any.
pub proof fn largest_overlap_is_of_a_pair(
    list: Seq<AgentEvidenceContribution>,
    m: int,
    other: int,
)
    ensures
        is_largest_overlap(list, m) && is_largest_overlap(list, other) ==> m == other,
        is_largest_overlap(list, m) ==> forall|i: int, j: int|
            0 <= i < j < list.len() ==> overlap_ppm(
                (#[trigger] list[i]).evidence_clusters@,
                (#[trigger] list[j]).evidence_clusters@,
            ) <= m,
        list.len() <= 1 ==> (is_largest_overlap(list, m) <==> m == 0),
        list.len() == 2 && overlap_ppm(list[0].evidence_clusters@, list[1].evidence_clusters@) >= 0
            ==> (is_largest_overlap(list, m) <==> m == overlap_ppm(
            list[0].evidence_clusters@,
            list[1].evidence_clusters@,
        )),
{
    if is_largest_overlap(list, m) {
        assert forall|i: int, j: int| 0 <= i < j < list.len() implies overlap_ppm(
            (#[trigger] list[i]).evidence_clusters@,
            (#[trigger] list[j]).evidence_clusters@,
        ) <= m by {
            assert(pair_overlap(list, i, j) <= m);
        }
    }
    if list.len() == 2 {
        let only = pair_overlap(list, 0, 1);
        assert forall|i: int, j: int| 0 <= i < j < list.len() implies #[trigger] pair_overlap(
            list,
            i,
            j,
        ) == only by {
            assert(i == 0 && j == 1);
        }
    }
}

/// An assessment of diversity is accepted exactly where its contributions are sound and not too
/// many, it counts them, their snapshots and clusters truly, states their largest overlap, calls
/// them independent only where there is one voice, or all capabilities were observed, several
/// snapshots and clusters stand behind them and they overlap no more than is allowed, and
/// grants no more confidence than was claimed.
pub proof fn accepted_consensus_counts_truly(a: ConsensusDiversityAssessment)
    ensures
        a.verdict() is Ok <==> {
            let list = a.contributions@;
            let observed = forall|i: int|
                0 <= i < list.len() ==> (#[trigger] list[i]).capability_snapshot_hash is Some;
            &&& list.len() > 0
            &&& a.maximum_allowed_overlap_ppm <= 1_000_000
            &&& contributions_are_sound(list)
            &&& a.participant_count == list.len()
            &&& a.unique_capability_snapshots == all_snapshots(list).len()
            &&& a.unique_evidence_clusters == all_clusters(list).len()
            &&& a.capability_observation_complete == observed
            &&& is_largest_overlap(list, a.maximum_source_overlap_ppm as int)
            &&& a.independent <==> list.len() == 1 || observed && all_snapshots(list).len() >= 2
                && all_clusters(list).len() >= 2 && a.maximum_source_overlap_ppm
                <= a.maximum_allowed_overlap_ppm
            &&& a.raw_confidence_ppm <= 1_000_000
            &&& a.effective_confidence_ppm <= a.raw_confidence_ppm
            &&& a.confidence_capped <==> a.effective_confidence_ppm < a.raw_confidence_ppm
        },
{
}

/// A policy on capacity is accepted exactly where it allows some part of the market but no more
/// than the whole, no more slippage than the whole, and no slope above ten.
pub proof fn accepted_capacity_policy_is_bounded(policy: CapacityPolicy)
    ensures
        policy.verdict() is Ok <==> policy.maximum_market_participation_ppm >= 1
            && policy.maximum_market_participation_ppm <= 1_000_000
            && policy.maximum_estimated_slippage_ppm <= 1_000_000 && policy.impact_slope_ppm
            <= 10_000_000,
{
}

/// What all agents order together is the weight of the asset in their accounts, rounded down.
pub proof fn aggregate_is_the_weight_of_all_accounts(account: int, weight: int, agents: int)
    ensures
        aggregate_notional(account, weight, agents) * 1_000_000 <= account * weight * agents,
        account * weight * agents < (aggregate_notional(account, weight, agents) + 1) * 1_000_000,
{
}

/// The part of the market that is taken is what is ordered of what is traded in a day, and the
/// slippage is that part times the slope, both rounded down and as far as they can be counted.
pub proof fn participation_is_the_part_of_the_volume(aggregate: int, volume: int, slope: int)
    requires
        aggregate >= 0,
        volume > 0,
        slope >= 0,
    ensures
        participation_ppm(aggregate, volume) < u32::MAX ==> participation_ppm(aggregate, volume)
            * volume <= aggregate * 1_000_000 < (participation_ppm(aggregate, volume) + 1) * volume,
        aggregate * 1_000_000 >= u32::MAX * volume ==> participation_ppm(aggregate, volume)
            == u32::MAX,
        0 <= participation_ppm(aggregate, volume) <= u32::MAX,
        ({
            let taken = participation_ppm(aggregate, volume);
            slippage_ppm(taken, slope) < u32::MAX ==> slippage_ppm(taken, slope) * 1_000_000
                <= taken * slope < (slippage_ppm(taken, slope) + 1) * 1_000_000
        }),
        participation_ppm(volume, volume) == 1_000_000,
        slippage_ppm(1_000_000, slope) == slope || slope > u32::MAX,
{
    let share = aggregate * 1_000_000 / volume;
    assert(share >= 0 && share * volume <= aggregate * 1_000_000 < (share + 1) * volume)
        by (nonlinear_arith)
        requires
            share == aggregate * 1_000_000 / volume,
            aggregate >= 0,
            volume > 0,
    ;
    if aggregate * 1_000_000 >= u32::MAX * volume {
        assert(share >= 0xffff_ffff) by (nonlinear_arith)
            requires
                aggregate * 1_000_000 >= 0xffff_ffff * volume,
                aggregate * 1_000_000 < (share + 1) * volume,
                volume > 0,
        ;
    }
    let taken = participation_ppm(aggregate, volume);
    assert(taken * slope >= 0) by (nonlinear_arith)
        requires
            taken >= 0,
            slope >= 0,
    ;
    assert(volume * 1_000_000 / volume == 1_000_000) by (nonlinear_arith)
        requires
            volume > 0,
    ;
}

/// What is assessed of an asset: the part of the market, what that costs, that the rest of the
/// order is the likelier filled the less of the market it takes, and whether both limits hold.
pub proof fn capacity_row_says_what_it_takes(
    policy: CapacityPolicy,
    asset: Asset,
    aggregate: int,
    volume: MoneyMicros,
)
    requires
        0 <= aggregate <= i64::MAX,
        volume.0 > 0,
    ensures
        ({
            let row = capacity_row(policy, asset, aggregate, volume);
            let taken = participation_ppm(aggregate, volume.0 as int);
            &&& row.asset == asset
            &&& row.aggregate_order_notional.0 == aggregate
            &&& row.average_daily_dollar_volume == volume
            &&& row.expected_market_participation_ppm == taken
            &&& row.estimated_slippage_ppm == slippage_ppm(taken, policy.impact_slope_ppm as int)
            &&& taken <= 1_000_000 ==> row.estimated_fill_probability_ppm + taken == 1_000_000
            &&& taken > 1_000_000 ==> row.estimated_fill_probability_ppm == 0
            &&& row.within_capacity <==> row.expected_market_participation_ppm
                <= policy.maximum_market_participation_ppm && row.estimated_slippage_ppm
                <= policy.maximum_estimated_slippage_ppm
        }),
{
}

/// An asset has a row.
pub open spec fn has_row(rows: Seq<AssetCapacityAssessment>, asset: Asset) -> bool {
    exists|i: int| 0 <= i < rows.len() && (#[trigger] rows[i]).asset == asset
}

proof fn rows_are_of_weighted_assets(
    policy: CapacityPolicy,
    weights: Map<Asset, WeightPpm>,
    account: int,
    agents: int,
    volumes: Map<Asset, MoneyMicros>,
    n: nat,
)
    requires
        n <= 4,
    ensures
        capacity_rows(policy, weights, account, agents, volumes, n) matches Ok(rows) ==> {
            &&& forall|k: int|
                0 <= k < n ==> (has_row(rows, #[trigger] Asset::EXECUTABLE[k]) <==> weights[
                Asset::EXECUTABLE[k]].0 > 0)
            &&& forall|i: int|
                0 <= i < rows.len() ==> volumes.dom().contains((#[trigger] rows[i]).asset)
                    && volumes[rows[i].asset].0 > 0 && rows[i] == capacity_row(
                    policy,
                    rows[i].asset,
                    aggregate_notional(account, weights[rows[i].asset].0 as int, agents),
                    volumes[rows[i].asset],
                ) && aggregate_notional(account, weights[rows[i].asset].0 as int, agents)
                    <= i64::MAX && rows[i].asset.place() < n
        },
    decreases n,
{
    if n > 0 {
        rows_are_of_weighted_assets(policy, weights, account, agents, volumes, (n - 1) as nat);
        let asset = Asset::EXECUTABLE[n - 1];
        assert(forall|k: int| 0 <= k < 4 ==> (#[trigger] Asset::EXECUTABLE[k]).place() == k);
        if let Ok(before) = capacity_rows(
            policy,
            weights,
            account,
            agents,
            volumes,
            (n - 1) as nat,
        ) {
            if let Ok(rows) = capacity_rows(policy, weights, account, agents, volumes, n) {
                assert forall|k: int| 0 <= k < n implies (has_row(
                    rows,
                    #[trigger] Asset::EXECUTABLE[k],
                ) <==> weights[Asset::EXECUTABLE[k]].0 > 0) by {
                    let own = Asset::EXECUTABLE[k];
                    if k < n - 1 {
                        if has_row(before, own) {
                            let i = choose|i: int|
                                0 <= i < before.len() && (#[trigger] before[i]).asset == own;
                            assert(rows[i].asset == own);
                        }
                        if has_row(rows, own) {
                            let i = choose|i: int|
                                0 <= i < rows.len() && (#[trigger] rows[i]).asset == own;
                            if i < before.len() {
                                assert(before[i].asset == own);
                            }
                        }
                    } else {
                        if weights[own].0 > 0 {
                            assert(rows[rows.len() - 1].asset == own);
                        } else if has_row(rows, own) {
                            let i = choose|i: int|
                                0 <= i < rows.len() && (#[trigger] rows[i]).asset == own;
                            assert(before[i].asset == own);
                        }
                    }
                }
                assert forall|i: int| 0 <= i < rows.len() implies volumes.dom().contains(
                    (#[trigger] rows[i]).asset,
                ) && volumes[rows[i].asset].0 > 0 && rows[i] == capacity_row(
                    policy,
                    rows[i].asset,
                    aggregate_notional(account, weights[rows[i].asset].0 as int, agents),
                    volumes[rows[i].asset],
                ) && aggregate_notional(account, weights[rows[i].asset].0 as int, agents)
                    <= i64::MAX && rows[i].asset.place() < n by {
                    if i < before.len() {
                        assert(rows[i] == before[i]);
                    }
                }
            }
        }
    }
}

/// Where a capacity is assessed, exactly the assets with a weight have a row, each of them a daily
/// volume, and each row is that of the asset's own weight and volume.
pub proof fn every_weighted_asset_is_assessed(
    policy: CapacityPolicy,
    weights: Map<Asset, WeightPpm>,
    account: int,
    agents: int,
    volumes: Map<Asset, MoneyMicros>,
    asset: Asset,
)
    ensures
        capacity_rows(policy, weights, account, agents, volumes, 4) matches Ok(rows) ==> {
            &&& has_row(rows, asset) <==> weights[asset].0 > 0
            &&& weights[asset].0 > 0 ==> volumes.dom().contains(asset) && volumes[asset].0 > 0
            &&& forall|i: int|
                0 <= i < rows.len() ==> (#[trigger] rows[i]) == capacity_row(
                    policy,
                    rows[i].asset,
                    aggregate_notional(account, weights[rows[i].asset].0 as int, agents),
                    volumes[rows[i].asset],
                )
        },
{
    rows_are_of_weighted_assets(policy, weights, account, agents, volumes, 4);
    assert(Asset::EXECUTABLE[asset.place() as int] == asset) by {
        match asset {
            Asset::Tqqq => {},
            Asset::Qqq => {},
            Asset::Soxx => {},
            Asset::Soxl => {},
        }
    }
    if let Ok(rows) = capacity_rows(policy, weights, account, agents, volumes, 4) {
        if has_row(rows, asset) {
            let i = choose|i: int| 0 <= i < rows.len() && (#[trigger] rows[i]).asset == asset;
            assert(volumes.dom().contains(rows[i].asset));
        }
    }
}

/// A scenario is within capacity exactly where something was assessed and each row is within it.
pub proof fn scenario_fits_where_each_row_does(rows: Seq<AssetCapacityAssessment>)
    ensures
        rows_fit(rows) <==> rows.len() > 0 && !(exists|i: int|
            0 <= i < rows.len() && !(#[trigger] rows[i]).within_capacity),
{
}

/// A capacity is assessed only under an acceptable policy, for a target of the whole universe, some
/// money and some agents.
pub proof fn capacity_is_assessed_for_some_money(
    policy: CapacityPolicy,
    target: crate::foundation::TargetPortfolio,
    account: int,
    agents: int,
)
    ensures
        capacity_entry_verdict(policy, target, account, agents) is Ok <==> policy.verdict() is Ok
            && target.universe_verdict() is Ok && account >= 1 && agents >= 1,
{
}

/// The ratio of cancelled to submitted orders, rounded down; cancelling without submitting counts
/// as cancelling everything.
pub proof fn cancel_ratio_is_what_was_cancelled(activity: ComplianceActivitySnapshot)
    ensures
        activity.recent_submissions == 0 ==> activity.cancel_ratio_ppm() == (
        if activity.recent_cancellations == 0 {
            0int
        } else {
            1_000_000int
        }),
        activity.recent_submissions > 0 && activity.cancel_ratio_ppm() < u32::MAX
            ==> activity.cancel_ratio_ppm() * activity.recent_submissions
            <= activity.recent_cancellations * 1_000_000 < (activity.cancel_ratio_ppm() + 1)
            * activity.recent_submissions,
        activity.recent_submissions > 0 && activity.recent_cancellations
            == activity.recent_submissions ==> activity.cancel_ratio_ppm() == 1_000_000,
        activity.is_quiet() <==> activity.recent_submissions + activity.recent_cancellations == 0
            && !activity.self_trade_detected && !activity.spoofing_or_layering_pattern
            && !activity.marking_the_close_risk && !activity.prearranged_trade_risk
            && !activity.front_running_risk,
{
    let submitted = activity.recent_submissions as int;
    let cancelled = activity.recent_cancellations as int;
    if submitted > 0 {
        let ratio = cancelled * 1_000_000 / submitted;
        assert(ratio >= 0 && ratio * submitted <= cancelled * 1_000_000 < (ratio + 1) * submitted)
            by (nonlinear_arith)
            requires
                ratio == cancelled * 1_000_000 / submitted,
                cancelled >= 0,
                submitted > 0,
        ;
        if cancelled == submitted {
            assert(ratio == 1_000_000) by (nonlinear_arith)
                requires
                    ratio == cancelled * 1_000_000 / submitted,
                    cancelled == submitted,
                    submitted > 0,
            ;
        }
    }
}

/// A policy on compliance is accepted exactly where its cancel ratio is a share, no asset is both
/// restricted and watched, and it requires some control.
pub proof fn accepted_compliance_policy_requires_controls(policy: ComplianceActionPolicy)
    ensures
        policy.verdict() is Ok <==> {
            &&& policy.maximum_cancel_ratio_ppm <= 1_000_000
            &&& policy.required_controls@.len() != 0
            &&& forall|asset: Asset| #[trigger]
                policy.restricted_assets@.contains(asset) ==> !policy.watch_list_assets@.contains(
                    asset,
                )
        },
{
}

/// An action is clean exactly where its asset is neither restricted nor watched, its information is
/// public or, where that is permitted, licensed, cancellations keep within their ratio, no
/// pattern of abuse was seen, and every required control was there to see it.
pub proof fn clean_action_breaks_no_rule(
    policy: ComplianceActionPolicy,
    asset: Asset,
    information: InformationClassification,
    activity: ComplianceActivitySnapshot,
)
    ensures
        (forall|violation: ComplianceViolation|
            !#[trigger] policy.is_violated(violation, asset, information, activity)) <==> {
            &&& !policy.restricted_assets@.contains(asset)
            &&& !policy.watch_list_assets@.contains(asset)
            &&& information is Public || information is Licensed
                && policy.permit_licensed_information
            &&& activity.cancel_ratio_ppm() <= policy.maximum_cancel_ratio_ppm
            &&& !activity.self_trade_detected
            &&& !activity.spoofing_or_layering_pattern
            &&& !activity.marking_the_close_risk
            &&& !activity.prearranged_trade_risk
            &&& !activity.front_running_risk
            &&& forall|control: ComplianceControl| #[trigger]
                policy.required_controls@.contains(control)
                    ==> activity.available_controls@.contains(control)
        },
{
    if forall|violation: ComplianceViolation|
        !#[trigger] policy.is_violated(violation, asset, information, activity) {
        assert(!policy.is_violated(
            ComplianceViolation::RestrictedAsset,
            asset,
            information,
            activity,
        ));
        assert(!policy.is_violated(
            ComplianceViolation::WatchListRequiresReview,
            asset,
            information,
            activity,
        ));
        assert(!policy.is_violated(
            ComplianceViolation::SuspectedMnpi,
            asset,
            information,
            activity,
        ));
        assert(!policy.is_violated(
            ComplianceViolation::UnknownInformationClass,
            asset,
            information,
            activity,
        ));
        assert(!policy.is_violated(ComplianceViolation::SelfTrade, asset, information, activity));
        assert(!policy.is_violated(
            ComplianceViolation::ExcessiveCancellation,
            asset,
            information,
            activity,
        ));
        assert(!policy.is_violated(
            ComplianceViolation::SpoofingOrLayeringPattern,
            asset,
            information,
            activity,
        ));
        assert(!policy.is_violated(
            ComplianceViolation::MarkingTheCloseRisk,
            asset,
            information,
            activity,
        ));
        assert(!policy.is_violated(
            ComplianceViolation::PrearrangedTradeRisk,
            asset,
            information,
            activity,
        ));
        assert(!policy.is_violated(
            ComplianceViolation::FrontRunningRisk,
            asset,
            information,
            activity,
        ));
        assert(!policy.is_violated(
            ComplianceViolation::SurveillanceCoverageIncomplete,
            asset,
            information,
            activity,
        ));
    }
}

/// Each rule is broken by what it is about and by nothing else: two actions that agree on that
/// either both break it or both do not.
pub proof fn each_rule_looks_at_its_own_matter(
    policy: ComplianceActionPolicy,
    a: Asset,
    b: Asset,
    information: InformationClassification,
    other: InformationClassification,
    x: ComplianceActivitySnapshot,
    y: ComplianceActivitySnapshot,
)
    ensures
        policy.is_violated(ComplianceViolation::RestrictedAsset, a, information, x)
            == policy.is_violated(ComplianceViolation::RestrictedAsset, a, other, y),
        policy.is_violated(ComplianceViolation::RestrictedAsset, a, information, x)
            <==> policy.restricted_assets@.contains(a),
        policy.is_violated(ComplianceViolation::WatchListRequiresReview, a, information, x)
            <==> policy.watch_list_assets@.contains(a),
        policy.is_violated(ComplianceViolation::SuspectedMnpi, a, information, x)
            == policy.is_violated(ComplianceViolation::SuspectedMnpi, b, information, y),
        information is Confidential || information is SuspectedMnpi ==> policy.is_violated(
            ComplianceViolation::SuspectedMnpi,
            a,
            information,
            x,
        ),
        information is Public || information is Licensed || information is Unknown
            ==> !policy.is_violated(ComplianceViolation::SuspectedMnpi, a, information, x),
        information is Unknown ==> policy.is_violated(
            ComplianceViolation::UnknownInformationClass,
            a,
            information,
            x,
        ),
        information is Licensed ==> (policy.is_violated(
            ComplianceViolation::UnknownInformationClass,
            a,
            information,
            x,
        ) <==> !policy.permit_licensed_information),
        x.self_trade_detected == policy.is_violated(
            ComplianceViolation::SelfTrade,
            a,
            information,
            x,
        ),
        x.spoofing_or_layering_pattern == policy.is_violated(
            ComplianceViolation::SpoofingOrLayeringPattern,
            a,
            information,
            x,
        ),
        x.marking_the_close_risk == policy.is_violated(
            ComplianceViolation::MarkingTheCloseRisk,
            a,
            information,
            x,
        ),
        x.prearranged_trade_risk == policy.is_violated(
            ComplianceViolation::PrearrangedTradeRisk,
            a,
            information,
            x,
        ),
        x.front_running_risk == policy.is_violated(
            ComplianceViolation::FrontRunningRisk,
            a,
            information,
            x,
        ),
{
}

/// Paper trading requires exactly the five controls that need no view of the whole market.
pub proof fn paper_trading_requires_five_controls(control: ComplianceControl)
    ensures
        paper_controls().contains(control) <==> !(control is MarkingTheClose
            || control is PrearrangedTrading || control is FrontRunning),
{
}

/// What a failing service degrades: reading for news, macro data and names, deciding for the
/// model, executing for what an order passes through, reconciling for storage and compliance for
/// its data; only services outside the trade itself can be dispensed with.
pub proof fn failing_service_degrades_what_it_serves(kind: DependencyKind)
    ensures
        kind.degradation() is Decision <==> kind is ModelProvider,
        kind.degradation() is Reconciliation <==> kind is Storage,
        kind.degradation() is Compliance <==> kind is ComplianceData,
        kind.degradation() is Read <==> kind is NewsProvider || kind is MacroData || kind is Dns,
        kind.degradation() is Execution <==> kind is MarketData || kind is Broker
            || kind is MarketClock || kind is Identity,
        kind.is_optional() <==> kind.degradation() is Read || kind is Identity,
{
}

/// The whole seconds between two instants are the same either way round, and an observation is stale
/// exactly where more of them have passed than were expected.
pub proof fn stale_observation_is_older_than_expected(snapshot: DependencySnapshot, now: UtcTime)
    ensures
        ({
            let nanos = elapsed_nanos(snapshot.observed_at, now);
            let distance = if nanos < 0 {
                -nanos
            } else {
                nanos
            };
            snapshot.is_stale(now) <==> distance >= (snapshot.expected_freshness_secs + 1)
                * 1_000_000_000
        }),
        seconds_apart(snapshot.observed_at, now) >= 0,
{
}

/// A snapshot of a service is accepted exactly where everything it names is named, it expects some
/// freshness, and only a dispensable service that was not switched is called inactive.
pub proof fn accepted_dependency_is_named(snapshot: DependencySnapshot)
    ensures
        snapshot.verdict() is Ok <==> {
            &&& !blank(snapshot.provider@)
            &&& !blank(snapshot.service@)
            &&& !blank(snapshot.version@)
            &&& !blank(snapshot.data_classification@)
            &&& !blank(snapshot.configured_service@)
            &&& !blank(snapshot.actual_service@)
            &&& snapshot.expected_freshness_secs > 0
            &&& forall|s: Seq<char>| #[trigger]
                snapshot.fourth_party_dependencies@.contains(s) ==> !blank(s)
            &&& snapshot.status is NotRequired || snapshot.status is NotApplicable
                ==> snapshot.kind.is_optional() && snapshot.configured_service@
                == snapshot.actual_service@
        },
{
}

/// A service allows risk exactly where its snapshot is acceptable, it is the configured one, and it
/// is either healthy and fresh or not needed.
pub proof fn service_that_allows_risk_is_healthy_and_fresh(
    snapshot: DependencySnapshot,
    now: UtcTime,
)
    ensures
        snapshot.allows_risk(now) <==> {
            &&& snapshot.verdict() is Ok
            &&& snapshot.configured_service@ == snapshot.actual_service@
            &&& snapshot.status is NotRequired || snapshot.status is NotApplicable || (
            snapshot.status is Healthy && !snapshot.is_stale(now))
        },
        snapshot.is_in_order(now) <==> {
            &&& snapshot.configured_service@ == snapshot.actual_service@
            &&& snapshot.status is NotRequired || snapshot.status is NotApplicable || (
            snapshot.status is Healthy && !snapshot.is_stale(now))
        },
        snapshot.verdict() is Ok ==> (snapshot.allows_risk(now) <==> snapshot.is_in_order(now)),
{
}

/// A closure is accepted exactly where it has all ten kinds of services, each acceptable, under its
/// own kind and observed no later than the closure was captured.
pub proof fn accepted_closure_has_every_service(closure: DependencyClosure)
    ensures
        closure.verdict() is Ok <==> {
            let values = closure.dependencies.values();
            &&& forall|kind: DependencyKind| #[trigger] closure.dependencies@.dom().contains(kind)
            &&& forall|i: int|
                0 <= i < closure.dependencies.keys().len() ==> (
                #[trigger] values[i]).verdict() is Ok && values[i].kind
                    == closure.dependencies.keys()[i] && !earlier(
                    closure.captured_at,
                    values[i].observed_at,
                )
        },
{
    let n = closure.dependencies.keys().len();
    let values = closure.dependencies.values();
    let checks = dependency_checks(closure);
    no_fault_means_every_check_passes(n, checks);
    if forall|i: int| 0 <= i < n ==> (#[trigger] checks(i)) is Ok {
        assert forall|i: int| 0 <= i < n implies (#[trigger] values[i]).verdict() is Ok
            && values[i].kind == closure.dependencies.keys()[i] && !earlier(
            closure.captured_at,
            values[i].observed_at,
        ) by {
            assert(checks(i) is Ok);
        }
    }
    if forall|i: int|
        0 <= i < n ==> (#[trigger] values[i]).verdict() is Ok && values[i].kind
            == closure.dependencies.keys()[i] && !earlier(
            closure.captured_at,
            values[i].observed_at,
        ) {
        assert forall|i: int| 0 <= i < n implies (#[trigger] checks(i)) is Ok by {
            assert(values[i].verdict() is Ok);
        }
    }
}

/// New risk needs every service to allow it; to reduce risk it is enough that the five do that an
/// order passes through and is accounted for by.
pub proof fn reducing_risk_needs_fewer_services(closure: DependencyClosure, now: UtcTime)
    ensures
        closure.allows_risk(now) ==> closure.verdict() is Ok && forall|i: int|
            0 <= i < closure.dependencies.keys().len() ==> (
            #[trigger] closure.dependencies.values()[i]).allows_risk(now),
        closure.verdict() is Ok && (forall|i: int|
            0 <= i < closure.dependencies.keys().len() ==> (
            #[trigger] closure.dependencies.values()[i]).allows_risk(now))
            ==> closure.allows_risk(now),
        closure.allows_risk_reduction(now) <==> {
            let dependencies = closure.dependencies@;
            &&& closure.verdict() is Ok
            &&& dependencies[DependencyKind::MarketData].allows_risk(now)
            &&& dependencies[DependencyKind::Broker].allows_risk(now)
            &&& dependencies[DependencyKind::MarketClock].allows_risk(now)
            &&& dependencies[DependencyKind::Storage].allows_risk(now)
            &&& dependencies[DependencyKind::ComplianceData].allows_risk(now)
        },
{
    if closure.verdict() is Ok {
        assert(closure.is_complete());
        assert(closure.dependencies@.dom().contains(DependencyKind::MarketData));
        assert(closure.dependencies@.dom().contains(DependencyKind::Broker));
        assert(closure.dependencies@.dom().contains(DependencyKind::MarketClock));
        assert(closure.dependencies@.dom().contains(DependencyKind::Storage));
        assert(closure.dependencies@.dom().contains(DependencyKind::ComplianceData));
    }
}

/// A safety snapshot is accepted exactly where it covers the ordered assets and permits what it may:
/// to execute where nothing breaks a rule and every class of information is known, the services
/// allow it, and, where risk rises, there is capacity on known volumes; and to raise risk only
/// where it executes and risk rises.
pub proof fn accepted_safety_permits_what_it_may(safety: PreTradeSafetySnapshot)
    ensures
        safety.verdict() is Ok <==> {
            let clean = safety.missing_information_classifications@.len() == 0
                && safety.compliance_violations_by_asset.keys().len() > 0 && forall|i: int|
                0 <= i < safety.compliance_violations_by_asset.keys().len() ==> (
                #[trigger] safety.compliance_violations_by_asset.values()[i])@.len() == 0;
            let may = if safety.risk_increasing {
                clean && safety.dependency_permits_new_risk && safety.capacity_scenario is Some
                    && safety.capacity_scenario->0.within_capacity
                    && safety.missing_average_daily_dollar_volume@.len() == 0
            } else {
                clean && safety.dependency_permits_risk_reduction
            };
            &&& safety.ordered_assets@.len() != 0
            &&& forall|asset: Asset| #[trigger]
                safety.information_classifications@.dom().contains(asset)
                    ==> safety.ordered_assets@.contains(asset)
            &&& safety.compliance_violations_by_asset@.dom() == safety.ordered_assets@
            &&& safety.permits_execution == may
            &&& safety.permits_risk_increasing == (may && safety.risk_increasing)
        },
{
}

} // verus!
