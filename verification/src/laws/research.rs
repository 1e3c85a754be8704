//! What holds of research: intents, grounds, gaps, claims, critiques and resolutions.
use crate::artifact::{ArtifactKind, RefView};
use crate::decision::DecisionHorizon;
use crate::error::ErrorView;
use crate::foundation::Asset;
use crate::lists::{list_is_accepted_by_member, no_fault_means_every_check_passes};
use crate::research::{
    ClaimVerificationEvidence, EvidenceGap, EvidenceGround, ResearchClaim, ResearchCritique,
    ResearchIntent, ResearchResolution, ResearchShard, first_outside, gaps_block, gaps_verdict,
    ground_checks, ground_evidence, grounds_verdict, reference_checks, references_verdict,
    speaks_of_news, verified_evidence,
};
use crate::text::{blank, contains_text, contains_word, lowercased, starts_with};
use crate::time::{earlier, elapsed_nanos};
use vstd::prelude::*;

verus! {

/// An intent is accepted exactly where it asks a governed source for a bounded amount of recent
/// material, does not look for news among prices, and its window runs forward over no more than
/// a leap year.
pub proof fn accepted_intent_is_bounded_and_governed(intent: ResearchIntent)
    ensures
        intent.verdict() is Ok <==> {
            let family = intent.source_family@;
            let query = lowercased(intent.query@);
            &&& intent.schema_version == 2
            &&& !blank(intent.resource@) && intent.resource@.len() <= 2_048
            &&& !blank(intent.query@) && intent.query@.len() <= 2_000
            &&& 1 <= intent.max_age_secs <= 604_800
            &&& 1 <= intent.max_results <= 32
            &&& !blank(family)
            &&& family == "alpaca"@ || family == "sec_edgar"@ || family == "fred"@ || family
                == "news_web"@
            &&& family == "alpaca"@ && (intent.resource@ == "bars"@ || starts_with(
                intent.resource@,
                "bars:"@,
            )) ==> !contains_text(query, "新闻"@) && !contains_word(query, "news"@)
            &&& intent.window_start is Some && intent.window_end is Some ==> !earlier(
                intent.window_end->0,
                intent.window_start->0,
            ) && elapsed_nanos(intent.window_start->0, intent.window_end->0) <= 366 * 86_400
                * 1_000_000_000
        },
        !(intent.verdict() is Ok) && intent.verdict() != Err::<(), ErrorView>(
            ErrorView::EvidenceSourceNotAllowed(intent.source_family@),
        ) ==> {
            ||| intent.verdict()->Err_0 is EmptyField
            ||| intent.verdict()->Err_0 is InvalidEvidenceWindow
        },
{
}

/// Each governed source feeds a lane of its own, and anything else counts as news.
pub proof fn each_source_feeds_its_own_lane(a: ResearchIntent, b: ResearchIntent)
    ensures
        a.source_family@ == "alpaca"@ ==> a.lane() is PriceMarketStructure,
        a.lane() is PriceMarketStructure ==> a.source_family@ == "alpaca"@,
        a.lane() is Macro ==> a.source_family@ == "fred"@,
        a.lane() is FundamentalsSemiconductor ==> a.source_family@ == "sec_edgar"@,
        a.source_family@ == "fred"@ ==> a.lane() is Macro,
        a.source_family@ == "sec_edgar"@ ==> a.lane() is FundamentalsSemiconductor,
        a.source_family@ == "news_web"@ ==> a.lane() is NewsEvent,
        a.lane() == b.lane() && !(a.lane() is NewsEvent) ==> a.source_family@ == b.source_family@,
{
    reveal_strlit("alpaca");
    reveal_strlit("fred");
    reveal_strlit("sec_edgar");
    reveal_strlit("news_web");
    assert("alpaca"@.len() == 6 && "fred"@.len() == 4 && "sec_edgar"@.len() == 9);
    assert("news_web"@.len() == 8);
}

/// A ground is accepted exactly where it cites derived evidence, says what it supports, and,
/// where it points a direction, names the assets it points at.
pub proof fn accepted_ground_cites_evidence(ground: EvidenceGround)
    ensures
        ground.verdict() is Ok <==> {
            &&& ground.evidence.kind == ArtifactKind::NormalizedEvidence || ground.evidence.kind
                == ArtifactKind::SemanticDetail
            &&& !blank(ground.support@)
            &&& ground.role is Directional ==> ground.assets@.len() != 0
        },
        !(ground.verdict() is Ok) ==> (ground.verdict()->Err_0 is InvalidEvidenceGroundScope <==> (
        ground.evidence.kind == ArtifactKind::NormalizedEvidence || ground.evidence.kind
            == ArtifactKind::SemanticDetail) && !blank(ground.support@)),
{
}

/// Only a directional ground points at an asset, in its own domain and for the assets it names.
pub proof fn ground_points_only_where_it_says(
    ground: EvidenceGround,
    asset: Asset,
    domain: ResearchShard,
)
    ensures
        ground.directs(asset, domain) ==> ground.role is Directional && ground.domain == Some(
            domain,
        ) && ground.assets@.contains(asset),
        ground.role is Directional && ground.domain == Some(domain) && ground.assets@.contains(asset)
            ==> ground.directs(asset, domain),
{
}

/// What verifies a claim counts as current exactly where its source is rated and it was valid
/// when the decision was taken.
pub proof fn current_evidence_is_rated_and_timely(evidence: ClaimVerificationEvidence)
    ensures
        evidence.is_current() ==> !(evidence.authority is Unrated),
        evidence.is_current() ==> evidence.temporal_validity is ValidAtDecisionCutoff,
        !(evidence.authority is Unrated) && evidence.temporal_validity is ValidAtDecisionCutoff
            ==> evidence.is_current(),
        evidence.verdict() is Ok <==> evidence.evidence.kind == ArtifactKind::NormalizedEvidence
            || evidence.evidence.kind == ArtifactKind::SemanticDetail,
{
}

/// A gap blocks no more than it says: only one that blocks forecasts, only for the assets that
/// it names or all where it names none, and only for the horizons that it names or the claim's
/// own where it names none.
pub proof fn gap_blocks_no_more_than_it_says(
    gap: EvidenceGap,
    asset: Asset,
    horizon: DecisionHorizon,
    claim_horizon: DecisionHorizon,
)
    ensures
        gap.blocks(asset, horizon, claim_horizon) ==> gap.impact is BlocksDirectionalForecast,
        gap.blocks(asset, horizon, claim_horizon) && gap.assets@.len() != 0 ==> gap.assets@.contains(
            asset,
        ),
        gap.blocks(asset, horizon, claim_horizon) && gap.horizons@.len() != 0
            ==> gap.horizons@.contains(horizon),
        gap.blocks(asset, horizon, claim_horizon) && gap.horizons@.len() == 0 ==> horizon
            == claim_horizon,
        gap.impact is BlocksDirectionalForecast && gap.assets@.len() == 0 && gap.horizons@.len() == 0
            ==> gap.blocks(asset, claim_horizon, claim_horizon),
        gap.impact is BlocksDirectionalForecast && gap.assets@.contains(asset)
            && gap.horizons@.len() != 0 && gap.horizons@.contains(horizon) ==> gap.blocks(
            asset,
            horizon,
            claim_horizon,
        ),
        gap.impact is BlocksDirectionalForecast && gap.assets@.len() == 0 && gap.horizons@.len() != 0
            && gap.horizons@.contains(horizon) ==> gap.blocks(asset, horizon, claim_horizon),
        gap.impact is BlocksDirectionalForecast && gap.assets@.contains(asset)
            && gap.horizons@.len() == 0 ==> gap.blocks(asset, claim_horizon, claim_horizon),
{
}

/// A gap is accepted exactly where it is explained, asks for no more than eight further pieces of
/// research, each acceptable, and asks for at least one where it blocks and can be closed.
pub proof fn accepted_gap_can_be_closed(gap: EvidenceGap)
    ensures
        gap.verdict() is Ok <==> {
            &&& !blank(gap.topic@)
            &&& !blank(gap.rationale@)
            &&& gap.supplemental_needs@.len() + gap.supplemental_requests@.len() <= 8
            &&& gap.retriable && gap.impact is BlocksDirectionalForecast
                ==> gap.supplemental_needs@.len() + gap.supplemental_requests@.len() > 0
            &&& forall|i: int|
                0 <= i < gap.supplemental_needs@.len() ==> (
                #[trigger] gap.supplemental_needs@[i]).verdict() is Ok
            &&& forall|i: int|
                0 <= i < gap.supplemental_requests@.len() ==> (
                #[trigger] gap.supplemental_requests@[i]).verdict() is Ok
        },
{
    list_is_accepted_by_member(gap.supplemental_needs@);
    list_is_accepted_by_member(gap.supplemental_requests@);
    assert forall|i: int| 0 <= i < gap.supplemental_needs@.len() implies (
    #[trigger] gap.supplemental_needs@[i]).verdict() == crate::lists::Checked::judged(
        &gap.supplemental_needs@[i],
    ) by {}
    assert forall|i: int| 0 <= i < gap.supplemental_requests@.len() implies (
    #[trigger] gap.supplemental_requests@[i]).verdict() == crate::lists::Checked::judged(
        &gap.supplemental_requests@[i],
    ) by {}
}

/// Grounds are accepted exactly where there are some, each is acceptable and no two cite the
/// same evidence.
pub proof fn accepted_grounds_are_distinct(grounds: Seq<EvidenceGround>)
    ensures
        grounds_verdict(grounds) is Ok <==> {
            &&& grounds.len() > 0
            &&& forall|i: int| 0 <= i < grounds.len() ==> (#[trigger] grounds[i]).verdict() is Ok
            &&& forall|i: int, j: int|
                0 <= i < j < grounds.len() ==> (#[trigger] grounds[i]).evidence@ != (
                #[trigger] grounds[j]).evidence@
        },
{
    let checks = ground_checks(grounds);
    no_fault_means_every_check_passes(grounds.len(), checks);
    let cited = ground_evidence(grounds);
    if grounds_verdict(grounds) is Ok {
        assert forall|i: int| 0 <= i < grounds.len() implies (
        #[trigger] grounds[i]).verdict() is Ok by {
            assert(checks(i) is Ok);
        }
        assert forall|i: int, j: int| 0 <= i < j < grounds.len() implies (
        #[trigger] grounds[i]).evidence@ != (#[trigger] grounds[j]).evidence@ by {
            assert(checks(j) is Ok);
            assert(cited.take(j)[i] == grounds[i].evidence@);
        }
    } else if grounds.len() > 0 && (forall|i: int|
        0 <= i < grounds.len() ==> (#[trigger] grounds[i]).verdict() is Ok) {
        let j = choose|j: int| 0 <= j < grounds.len() && !((#[trigger] checks(j)) is Ok);
        assert(grounds[j].verdict() is Ok);
        assert(cited.take(j).contains(grounds[j].evidence@));
        let i = choose|i: int| 0 <= i < j && cited.take(j)[i] == grounds[j].evidence@;
        assert(grounds[i].evidence@ == grounds[j].evidence@);
    }
}

/// The evidence that verifies a claim is accepted exactly where each piece is and none is cited
/// twice.
pub proof fn accepted_references_are_distinct(list: Seq<ClaimVerificationEvidence>)
    ensures
        references_verdict(list) is Ok <==> {
            &&& forall|i: int| 0 <= i < list.len() ==> (#[trigger] list[i]).verdict() is Ok
            &&& forall|i: int, j: int|
                0 <= i < j < list.len() ==> (#[trigger] list[i]).evidence@ != (
                #[trigger] list[j]).evidence@
        },
{
    let checks = reference_checks(list);
    no_fault_means_every_check_passes(list.len(), checks);
    let cited = verified_evidence(list);
    if references_verdict(list) is Ok {
        assert forall|i: int| 0 <= i < list.len() implies (#[trigger] list[i]).verdict() is Ok by {
            assert(checks(i) is Ok);
        }
        assert forall|i: int, j: int| 0 <= i < j < list.len() implies (
        #[trigger] list[i]).evidence@ != (#[trigger] list[j]).evidence@ by {
            assert(checks(j) is Ok);
            assert(cited.take(j)[i] == list[i].evidence@);
        }
    } else if forall|i: int| 0 <= i < list.len() ==> (#[trigger] list[i]).verdict() is Ok {
        let j = choose|j: int| 0 <= j < list.len() && !((#[trigger] checks(j)) is Ok);
        assert(list[j].verdict() is Ok);
        assert(cited.take(j).contains(list[j].evidence@));
        let i = choose|i: int| 0 <= i < j && cited.take(j)[i] == list[j].evidence@;
        assert(list[i].evidence@ == list[j].evidence@);
    }
}

/// Gaps are accepted exactly where there are at most two and each is acceptable.
pub proof fn accepted_gaps_are_few(gaps: Seq<EvidenceGap>)
    ensures
        gaps_verdict(gaps) is Ok <==> gaps.len() <= 2 && forall|i: int|
            0 <= i < gaps.len() ==> (#[trigger] gaps[i]).verdict() is Ok,
{
    list_is_accepted_by_member(gaps);
    assert forall|i: int| 0 <= i < gaps.len() implies (#[trigger] gaps[i]).verdict()
        == crate::lists::Checked::judged(&gaps[i]) by {}
}

/// A claim is accepted exactly where it says something, measures itself within the whole, and its
/// grounds and gaps are acceptable.
pub proof fn accepted_claim_is_grounded(claim: ResearchClaim)
    ensures
        claim.verdict() is Ok <==> {
            &&& claim.schema_version == 2
            &&& !blank(claim.topic@)
            &&& !blank(claim.statement@)
            &&& claim.materiality_ppm <= 1_000_000
            &&& claim.confidence_ppm <= 1_000_000
            &&& claim.grounds@.len() > 0
            &&& forall|i: int|
                0 <= i < claim.grounds@.len() ==> (#[trigger] claim.grounds@[i]).verdict() is Ok
            &&& forall|i: int, j: int|
                0 <= i < j < claim.grounds@.len() ==> (#[trigger] claim.grounds@[i]).evidence@ != (
                #[trigger] claim.grounds@[j]).evidence@
            &&& claim.evidence_gaps@.len() <= 2
            &&& forall|i: int|
                0 <= i < claim.evidence_gaps@.len() ==> (
                #[trigger] claim.evidence_gaps@[i]).verdict() is Ok
        },
{
    accepted_grounds_are_distinct(claim.grounds@);
    accepted_gaps_are_few(claim.evidence_gaps@);
}

/// Nothing stands outside exactly where every citation is among the grounds, and what is named
/// as outside is the first citation that is not.
pub proof fn first_outside_is_not_among_the_grounds(cited: Seq<RefView>, grounds: Set<RefView>)
    ensures
        first_outside(cited, grounds) is None <==> forall|i: int|
            0 <= i < cited.len() ==> grounds.contains(#[trigger] cited[i]),
        first_outside(cited, grounds) matches Some(key) ==> exists|i: int|
            0 <= i < cited.len() && #[trigger] cited[i] == key && !grounds.contains(key) && forall|
                j: int,
            |
                0 <= j < i ==> grounds.contains(#[trigger] cited[j]),
    decreases cited.len(),
{
    if cited.len() > 0 {
        let rest = cited.drop_first();
        first_outside_is_not_among_the_grounds(rest, grounds);
        if grounds.contains(cited[0]) {
            assert forall|i: int| 0 <= i < rest.len() implies rest[i] == #[trigger] cited[i + 1] by {}
            if first_outside(cited, grounds) is None {
                assert forall|i: int| 0 <= i < cited.len() implies grounds.contains(
                    #[trigger] cited[i],
                ) by {
                    if i > 0 {
                        assert(rest[i - 1] == cited[i]);
                    }
                }
            } else {
                let key = first_outside(cited, grounds)->0;
                let i = choose|i: int|
                    0 <= i < rest.len() && #[trigger] rest[i] == key && !grounds.contains(key)
                        && forall|j: int| 0 <= j < i ==> grounds.contains(#[trigger] rest[j]);
                assert(cited[i + 1] == key);
                assert forall|j: int| 0 <= j < i + 1 implies grounds.contains(
                    #[trigger] cited[j],
                ) by {
                    if j > 0 {
                        assert(rest[j - 1] == cited[j]);
                    }
                }
            }
        } else {
            assert(cited[0] == first_outside(cited, grounds)->0);
        }
    }
}

/// Whether a critique cites a piece of evidence as a ground.
pub open spec fn is_ground_of(critique: ResearchCritique, evidence: RefView) -> bool {
    exists|i: int|
        0 <= i < critique.grounds@.len() && (#[trigger] critique.grounds@[i]).evidence@ == evidence
}

proof fn nothing_outside_means_all_are_grounds(critique: ResearchCritique)
    ensures
        first_outside(critique.verification(), ground_evidence(critique.grounds@).to_set()) is None
            <==> {
            &&& forall|i: int|
                0 <= i < critique.supporting_refs@.len() ==> is_ground_of(
                    critique,
                    (#[trigger] critique.supporting_refs@[i]).evidence@,
                )
            &&& forall|i: int|
                0 <= i < critique.conflicting_refs@.len() ==> is_ground_of(
                    critique,
                    (#[trigger] critique.conflicting_refs@[i]).evidence@,
                )
        },
{
    let cited = critique.verification();
    let known = ground_evidence(critique.grounds@);
    let grounds = known.to_set();
    first_outside_is_not_among_the_grounds(cited, grounds);
    let supporting = critique.supporting_refs@;
    let conflicting = critique.conflicting_refs@;
    assert forall|key: RefView| #[trigger] grounds.contains(key) == is_ground_of(critique, key) by {
        if grounds.contains(key) {
            let i = choose|i: int| 0 <= i < known.len() && known[i] == key;
            assert(critique.grounds@[i].evidence@ == key);
        }
        if is_ground_of(critique, key) {
            let i = choose|i: int|
                0 <= i < critique.grounds@.len() && (#[trigger] critique.grounds@[i]).evidence@ == key;
            assert(known[i] == key);
        }
    }
    assert forall|i: int| 0 <= i < supporting.len() implies (#[trigger] supporting[i]).evidence@
        == cited[i] by {}
    assert forall|i: int| 0 <= i < conflicting.len() implies (#[trigger] conflicting[i]).evidence@
        == cited[supporting.len() + i] by {}
    if first_outside(cited, grounds) is None {
        assert forall|i: int| 0 <= i < supporting.len() implies is_ground_of(
            critique,
            (#[trigger] supporting[i]).evidence@,
        ) by {
            assert(grounds.contains(cited[i]));
        }
        assert forall|i: int| 0 <= i < conflicting.len() implies is_ground_of(
            critique,
            (#[trigger] conflicting[i]).evidence@,
        ) by {
            assert(grounds.contains(cited[supporting.len() + i]));
        }
    } else {
        let i = choose|i: int| 0 <= i < cited.len() && !grounds.contains(#[trigger] cited[i]);
        if i < supporting.len() {
            assert(supporting[i].evidence@ == cited[i]);
        } else {
            assert(conflicting[i - supporting.len()].evidence@ == cited[i]);
        }
        assert(!is_ground_of(critique, cited[i]));
    }
}

/// A critique is accepted exactly where it is about a claim, explains itself, stands on grounds or
/// gaps that are acceptable, draws every verifying reference from its own grounds, calls itself a
/// blocker where a gap of it blocks, and its references bear its verification status out.
#[verifier::rlimit(40)]
pub proof fn accepted_critique_bears_its_status_out(critique: ResearchCritique)
    ensures
        critique.verdict() is Ok <==> {
            let supporting = critique.supporting_refs@;
            let conflicting = critique.conflicting_refs@;
            &&& critique.schema_version == 2
            &&& critique.target.kind == ArtifactKind::Claim
            &&& !blank(critique.topic@)
            &&& !blank(critique.rationale@)
            &&& critique.grounds@.len() > 0 || critique.evidence_gaps@.len() > 0
            &&& critique.grounds@.len() > 0 ==> grounds_verdict(critique.grounds@) is Ok
            &&& gaps_verdict(critique.evidence_gaps@) is Ok
            &&& references_verdict(supporting) is Ok
            &&& references_verdict(conflicting) is Ok
            &&& forall|i: int|
                0 <= i < supporting.len() ==> is_ground_of(
                    critique,
                    (#[trigger] supporting[i]).evidence@,
                )
            &&& forall|i: int|
                0 <= i < conflicting.len() ==> is_ground_of(
                    critique,
                    (#[trigger] conflicting[i]).evidence@,
                )
            &&& !critique.blocker ==> forall|i: int|
                0 <= i < critique.evidence_gaps@.len() ==> !((
                #[trigger] critique.evidence_gaps@[i]).impact is BlocksDirectionalForecast)
            &&& critique.verification_status is Supported ==> supporting.len() > 0
                && conflicting.len() == 0 && forall|i: int|
                0 <= i < supporting.len() ==> !((#[trigger] supporting[i]).authority is Unrated)
                    && supporting[i].temporal_validity is ValidAtDecisionCutoff
            &&& critique.verification_status is Contradicted ==> conflicting.len() > 0
        },
{
    nothing_outside_means_all_are_grounds(critique);
}

/// A critique blocks a slot exactly where it is a blocker and either none of its gaps blocks
/// forecasts at all or one of them blocks that slot.
pub proof fn critique_blocks_where_its_gaps_do(
    critique: ResearchCritique,
    asset: Asset,
    horizon: DecisionHorizon,
    claim_horizon: DecisionHorizon,
)
    ensures
        !critique.blocker ==> !critique.blocks(asset, horizon, claim_horizon),
        critique.blocker && (forall|i: int|
            0 <= i < critique.evidence_gaps@.len() ==> !((
            #[trigger] critique.evidence_gaps@[i]).impact is BlocksDirectionalForecast))
            ==> critique.blocks(asset, horizon, claim_horizon),
        critique.blocker && gaps_block(critique.evidence_gaps@, asset, horizon, claim_horizon)
            ==> critique.blocks(asset, horizon, claim_horizon),
        critique.blocks(asset, horizon, claim_horizon) ==> (forall|i: int|
            0 <= i < critique.evidence_gaps@.len() ==> !((
            #[trigger] critique.evidence_gaps@[i]).impact is BlocksDirectionalForecast)) || exists|
            i: int,
        |
            0 <= i < critique.evidence_gaps@.len() && (#[trigger] critique.evidence_gaps@[i]).blocks(
                asset,
                horizon,
                claim_horizon,
            ),
{
}

/// Gaps block a slot exactly where one of them does, so further gaps never open a slot.
pub proof fn further_gaps_open_no_slot(
    gaps: Seq<EvidenceGap>,
    more: EvidenceGap,
    asset: Asset,
    horizon: DecisionHorizon,
    claim_horizon: DecisionHorizon,
)
    ensures
        gaps_block(gaps.push(more), asset, horizon, claim_horizon) <==> gaps_block(
            gaps,
            asset,
            horizon,
            claim_horizon,
        ) || more.blocks(asset, horizon, claim_horizon),
        !gaps_block(Seq::<EvidenceGap>::empty(), asset, horizon, claim_horizon),
{
    let all = gaps.push(more);
    if gaps_block(gaps, asset, horizon, claim_horizon) {
        let i = choose|i: int|
            0 <= i < gaps.len() && (#[trigger] gaps[i]).blocks(asset, horizon, claim_horizon);
        assert(all[i] == gaps[i]);
    }
    if more.blocks(asset, horizon, claim_horizon) {
        assert(all[gaps.len() as int] == more);
    }
    if gaps_block(all, asset, horizon, claim_horizon) {
        let i = choose|i: int|
            0 <= i < all.len() && (#[trigger] all[i]).blocks(asset, horizon, claim_horizon);
        if i < gaps.len() {
            assert(gaps[i] == all[i]);
        }
    }
}

/// A resolution is accepted exactly where it relates a claim and a critique, explains itself, and
/// its grounds and remaining gaps are acceptable.
pub proof fn accepted_resolution_relates_claim_and_critique(resolution: ResearchResolution)
    ensures
        resolution.verdict() is Ok <==> {
            &&& resolution.schema_version == 2
            &&& resolution.claim.kind == ArtifactKind::Claim
            &&& resolution.critique.kind == ArtifactKind::Critique
            &&& !blank(resolution.rationale@)
            &&& grounds_verdict(resolution.grounds@) is Ok
            &&& gaps_verdict(resolution.remaining_gaps@) is Ok
        },
{
}

} // verus!
