//! What holds of the slots that research opens, and of the forecasts and weights that rest on them.
use crate::artifact::{ArtifactRef, RefView};
use crate::decision::{
    DecisionDraft, DecisionHorizon, Forecast, ResearchAssetAllocation, allocation_is_carried,
    backed_slot_has_evidence, claim_is_verified, critique_confirms, forecast_is_carried,
    forecasts_have_evidence, grounds_direct, lane_is_confirmed, slot_eligible, slot_is_covered,
    weights_are_carried,
};
use crate::foundation::Asset;
use crate::research::{
    ClaimStance, EvidenceGround, ResearchClaim, ResearchCritique, ResearchShard, gaps_block,
};
use vstd::prelude::*;

verus! {

/// A ground of a claim that points at an asset in a domain, that the critique stands on as well
/// for that asset in the same role and domain, and that a reference of the critique supports
/// from a rated source that was valid at the cutoff.
pub open spec fn is_confirmed_ground(
    ground: EvidenceGround,
    critique: ResearchCritique,
    asset: Asset,
    domain: ResearchShard,
    reviewed: int,
    supported: int,
) -> bool {
    &&& ground.role is Directional
    &&& ground.domain == Some(domain)
    &&& ground.assets@.contains(asset)
    &&& 0 <= reviewed < critique.grounds@.len()
    &&& critique.grounds@[reviewed].evidence@ == ground.evidence@
    &&& critique.grounds@[reviewed].role is Directional
    &&& critique.grounds@[reviewed].domain == Some(domain)
    &&& critique.grounds@[reviewed].assets@.contains(asset)
    &&& 0 <= supported < critique.supporting_refs@.len()
    &&& critique.supporting_refs@[supported].evidence@ == ground.evidence@
    &&& !(critique.supporting_refs@[supported].authority is Unrated)
    &&& critique.supporting_refs@[supported].temporal_validity is ValidAtDecisionCutoff
}

/// A lane of a claim is confirmed exactly where a ground of the claim points along it and the
/// critique both stands on that ground and supports it with current evidence.
pub proof fn confirmed_lane_has_a_supported_ground(
    claim: ResearchClaim,
    critique: ResearchCritique,
    asset: Asset,
    domain: ResearchShard,
)
    ensures
        lane_is_confirmed(claim, critique, asset, domain) <==> exists|g: int, r: int, s: int|
            0 <= g < claim.grounds@.len() && #[trigger] is_confirmed_ground(
                claim.grounds@[g],
                critique,
                asset,
                domain,
                r,
                s,
            ),
{
    if lane_is_confirmed(claim, critique, asset, domain) {
        let g = choose|g: int|
            0 <= g < claim.grounds@.len() && (#[trigger] claim.grounds@[g]).directs(asset, domain)
                && crate::decision::ground_is_reviewed(claim.grounds@[g], critique, asset)
                && crate::decision::ground_is_confirmed(claim.grounds@[g], critique);
        let ground = claim.grounds@[g];
        let r = choose|r: int|
            0 <= r < critique.grounds@.len() && (#[trigger] critique.grounds@[r]).evidence@
                == ground.evidence@ && critique.grounds@[r].role == ground.role
                && critique.grounds@[r].domain == ground.domain
                && critique.grounds@[r].assets@.contains(asset);
        let s = choose|s: int|
            0 <= s < critique.supporting_refs@.len() && (
            #[trigger] critique.supporting_refs@[s]).evidence@ == ground.evidence@
                && critique.supporting_refs@[s].is_current();
        assert(is_confirmed_ground(claim.grounds@[g], critique, asset, domain, r, s));
    }
    if exists|g: int, r: int, s: int|
        0 <= g < claim.grounds@.len() && #[trigger] is_confirmed_ground(
            claim.grounds@[g],
            critique,
            asset,
            domain,
            r,
            s,
        ) {
        let (g, r, s) = choose|g: int, r: int, s: int|
            0 <= g < claim.grounds@.len() && #[trigger] is_confirmed_ground(
                claim.grounds@[g],
                critique,
                asset,
                domain,
                r,
                s,
            );
        let ground = claim.grounds@[g];
        assert(critique.grounds@[r].evidence@ == ground.evidence@);
        assert(critique.supporting_refs@[s].evidence@ == ground.evidence@);
        assert(ground.directs(asset, domain));
    }
}

/// What makes a slot eligible is a valid critique of that very claim that found it supported: it
/// names nothing in conflict, rests on current evidence, and does not block the slot.
pub proof fn eligible_slot_has_a_supporting_critique(
    reference: RefView,
    claim: ResearchClaim,
    critiques: Seq<ResearchCritique>,
    asset: Asset,
    horizon: DecisionHorizon,
)
    requires
        slot_eligible(reference, claim, critiques, asset, horizon),
    ensures
        claim.horizon == horizon,
        claim.stance is Bullish || claim.stance is Bearish,
        claim.verdict() is Ok,
        exists|i: int|
            0 <= i < critiques.len() && (#[trigger] critiques[i]).target@ == reference
                && critiques[i].verdict() is Ok && critiques[i].verification_status is Supported
                && critiques[i].conflicting_refs@.len() == 0
                && critiques[i].supporting_refs@.len() > 0 && !critiques[i].blocks(
                asset,
                horizon,
                claim.horizon,
            ),
{
    let i = choose|i: int|
        0 <= i < critiques.len() && critique_confirms(
            #[trigger] critiques[i],
            reference,
            claim,
            asset,
            horizon,
        );
    assert(critiques[i].target@ == reference);
}

/// Where every critique of a claim contradicts it, finds too little to tell, or is not valid, the
/// claim is eligible for no slot at all.
pub proof fn unsupported_claim_is_eligible_nowhere(
    reference: RefView,
    claim: ResearchClaim,
    critiques: Seq<ResearchCritique>,
    asset: Asset,
    horizon: DecisionHorizon,
)
    requires
        forall|i: int|
            0 <= i < critiques.len() && (#[trigger] critiques[i]).target@ == reference ==> {
                ||| critiques[i].verification_status is Contradicted
                ||| critiques[i].verification_status is NotEnoughInformation
                ||| critiques[i].verdict() is Err
                ||| critiques[i].blocks(asset, horizon, claim.horizon)
            },
    ensures
        !slot_eligible(reference, claim, critiques, asset, horizon),
{
    if slot_eligible(reference, claim, critiques, asset, horizon) {
        eligible_slot_has_a_supporting_critique(reference, claim, critiques, asset, horizon);
    }
}

/// A directional, valid claim of the horizon without a gap that blocks the slot is eligible as soon
/// as one valid critique supports it in the price and macro lanes without blocking the slot.
pub proof fn supported_claim_is_eligible(
    reference: RefView,
    claim: ResearchClaim,
    critiques: Seq<ResearchCritique>,
    asset: Asset,
    horizon: DecisionHorizon,
    i: int,
)
    requires
        claim.horizon == horizon,
        claim.verdict() is Ok,
        claim.stance is Bullish || claim.stance is Bearish,
        forall|g: int|
            0 <= g < claim.evidence_gaps@.len() ==> !(#[trigger] claim.evidence_gaps@[g]).blocks(
                asset,
                horizon,
                claim.horizon,
            ),
        0 <= i < critiques.len(),
        critiques[i].target@ == reference,
        critiques[i].verdict() is Ok,
        critiques[i].verification_status is Supported,
        !critiques[i].blocks(asset, horizon, claim.horizon),
        lane_is_confirmed(claim, critiques[i], asset, ResearchShard::PriceMarketStructure),
        lane_is_confirmed(claim, critiques[i], asset, ResearchShard::Macro),
    ensures
        slot_eligible(reference, claim, critiques, asset, horizon),
{
    assert(critique_confirms(critiques[i], reference, claim, asset, horizon));
}

/// The lanes that make a slot eligible are confirmed by one and the same critique, and they are
/// prices and macro.
pub proof fn eligible_slot_is_confirmed_in_both_lanes_at_once(
    reference: RefView,
    claim: ResearchClaim,
    critiques: Seq<ResearchCritique>,
    asset: Asset,
    horizon: DecisionHorizon,
)
    requires
        slot_eligible(reference, claim, critiques, asset, horizon),
    ensures
        exists|i: int|
            0 <= i < critiques.len() && (#[trigger] critiques[i]).target@ == reference
                && critiques[i].verification_status is Supported && lane_is_confirmed(
                claim,
                critiques[i],
                asset,
                ResearchShard::PriceMarketStructure,
            ) && lane_is_confirmed(claim, critiques[i], asset, ResearchShard::Macro),
        forall|g: int|
            0 <= g < claim.evidence_gaps@.len() ==> !(#[trigger] claim.evidence_gaps@[g]).blocks(
                asset,
                horizon,
                claim.horizon,
            ),
{
    let i = choose|i: int|
        0 <= i < critiques.len() && critique_confirms(
            #[trigger] critiques[i],
            reference,
            claim,
            asset,
            horizon,
        );
    assert(critiques[i].target@ == reference);
    assert forall|g: int| 0 <= g < claim.evidence_gaps@.len() implies !(
    #[trigger] claim.evidence_gaps@[g]).blocks(asset, horizon, claim.horizon) by {
        if claim.evidence_gaps@[g].blocks(asset, horizon, claim.horizon) {
            assert(gaps_block(claim.evidence_gaps@, asset, horizon, claim.horizon));
        }
    }
}

/// A forecast is carried only by a claim that the draft cites, that is of the forecast's horizon
/// and points its way, and that a supporting critique stands behind.
pub proof fn carried_forecast_has_a_supported_claim(
    draft: DecisionDraft,
    forecast: Forecast,
    claims: Seq<(ArtifactRef, ResearchClaim)>,
    critiques: Seq<ResearchCritique>,
)
    requires
        forecast_is_carried(draft, forecast, claims, critiques),
    ensures
        exists|i: int, j: int, k: int|
            0 <= i < claims.len() && 0 <= j < critiques.len() && 0 <= k < draft.claims@.len() && (
            #[trigger] draft.claims@[k])@ == (#[trigger] claims[i]).0@ && (
            #[trigger] critiques[j]).target@ == claims[i].0@
                && critiques[j].verification_status is Supported && critiques[j].verdict() is Ok
                && claims[i].1.verdict() is Ok && claims[i].1.horizon == forecast.horizon && (
            forecast.expected_return_ppm > 0 ==> claims[i].1.stance is Bullish) && (
            forecast.expected_return_ppm < 0 ==> claims[i].1.stance is Bearish) && !(
            claims[i].1.stance is Neutral),
{
    let i = choose|i: int|
        0 <= i < claims.len() && crate::artifact::refs_list(
            draft.claims@,
            (#[trigger] claims[i]).0@,
        ) && forecast.agrees_with(claims[i].1.stance) && slot_eligible(
            claims[i].0@,
            claims[i].1,
            critiques,
            forecast.asset,
            forecast.horizon,
        );
    eligible_slot_has_a_supporting_critique(
        claims[i].0@,
        claims[i].1,
        critiques,
        forecast.asset,
        forecast.horizon,
    );
    let k = choose|k: int| 0 <= k < draft.claims@.len() && (#[trigger] draft.claims@[k])@
        == claims[i].0@;
    let j = choose|j: int|
        0 <= j < critiques.len() && (#[trigger] critiques[j]).target@ == claims[i].0@
            && critiques[j].verdict() is Ok && critiques[j].verification_status is Supported
            && critiques[j].conflicting_refs@.len() == 0 && critiques[j].supporting_refs@.len() > 0
            && !critiques[j].blocks(forecast.asset, forecast.horizon, claims[i].1.horizon);
    assert(draft.claims@[k]@ == claims[i].0@);
    assert(critiques[j].target@ == claims[i].0@);
}

/// A claim that the draft cites and that is eligible for the slot of a forecast carries that
/// forecast where it points the same way.
pub proof fn eligible_claim_carries_its_forecast(
    draft: DecisionDraft,
    forecast: Forecast,
    claims: Seq<(ArtifactRef, ResearchClaim)>,
    critiques: Seq<ResearchCritique>,
    i: int,
    k: int,
)
    requires
        0 <= i < claims.len(),
        0 <= k < draft.claims@.len(),
        draft.claims@[k]@ == claims[i].0@,
        slot_eligible(claims[i].0@, claims[i].1, critiques, forecast.asset, forecast.horizon),
        claims[i].1.stance is Bullish ==> forecast.expected_return_ppm > 0,
        claims[i].1.stance is Bearish ==> forecast.expected_return_ppm < 0,
    ensures
        forecast_is_carried(draft, forecast, claims, critiques),
{
    assert(crate::artifact::refs_list(draft.claims@, claims[i].0@));
    assert(forecast.agrees_with(claims[i].1.stance));
}

/// Which way a forecast points: up with a bullish claim, down with a bearish one, with a neutral
/// claim never; the sign of the expected return decides, and only where it is nothing the odds.
pub proof fn forecast_agrees_with_the_stance_of_its_sign(forecast: Forecast)
    ensures
        !forecast.agrees_with(ClaimStance::Neutral),
        forecast.expected_return_ppm > 0 ==> forecast.agrees_with(ClaimStance::Bullish)
            && !forecast.agrees_with(ClaimStance::Bearish),
        forecast.expected_return_ppm < 0 ==> forecast.agrees_with(ClaimStance::Bearish)
            && !forecast.agrees_with(ClaimStance::Bullish),
        forecast.expected_return_ppm == 0 ==> (forecast.agrees_with(ClaimStance::Bullish)
            <==> forecast.positive_return_probability_ppm > 500_000),
        forecast.expected_return_ppm == 0 ==> (forecast.agrees_with(ClaimStance::Bearish)
            <==> forecast.positive_return_probability_ppm < 500_000),
        forecast.neutral() <==> !forecast.agrees_with(ClaimStance::Bullish)
            && !forecast.agrees_with(ClaimStance::Bearish),
{
}

/// A weight is carried only where the draft forecasts a rise of the asset for a horizon that the
/// allocation names, and a bullish claim that a supporting critique stands behind is eligible
/// for that slot.
pub proof fn carried_weight_rests_on_a_supported_rise(
    proposal: DecisionDraft,
    allocation: ResearchAssetAllocation,
    claims: Seq<(ArtifactRef, ResearchClaim)>,
    critiques: Seq<ResearchCritique>,
)
    requires
        allocation_is_carried(proposal, allocation, claims, critiques),
    ensures
        allocation.supporting_horizons@.len() > 0,
        allocation.evidence_refs@.len() > 0,
        exists|f: int, i: int, j: int, h: int|
            0 <= f < proposal.forecasts@.len() && 0 <= i < claims.len() && 0 <= j < critiques.len()
                && 0 <= h < allocation.supporting_horizons@.len() && (
            #[trigger] proposal.forecasts@[f]).asset == allocation.asset
                && proposal.forecasts@[f].horizon == (#[trigger] allocation.supporting_horizons@[h])
                && proposal.forecasts@[f].expected_return_ppm > 0 && (
            #[trigger] claims[i]).1.stance is Bullish && claims[i].1.horizon
                == allocation.supporting_horizons@[h] && (#[trigger] critiques[j]).target@
                == claims[i].0@ && critiques[j].verification_status is Supported
                && critiques[j].verdict() is Ok,
{
    let h = choose|h: int|
        0 <= h < allocation.supporting_horizons@.len() && crate::decision::rise_is_forecast(
            proposal.forecasts@,
            allocation.asset,
            #[trigger] allocation.supporting_horizons@[h],
        ) && crate::decision::some_claim_carries(
            proposal,
            allocation,
            allocation.supporting_horizons@[h],
            claims,
            critiques,
        );
    let horizon = allocation.supporting_horizons@[h];
    let f = choose|f: int|
        0 <= f < proposal.forecasts@.len() && (#[trigger] proposal.forecasts@[f]).asset
            == allocation.asset && proposal.forecasts@[f].horizon == horizon
            && proposal.forecasts@[f].expected_return_ppm > 0;
    let i = choose|i: int|
        0 <= i < claims.len() && crate::decision::claim_carries_allocation(
            proposal,
            allocation,
            horizon,
            #[trigger] claims[i],
            critiques,
        );
    eligible_slot_has_a_supporting_critique(
        claims[i].0@,
        claims[i].1,
        critiques,
        allocation.asset,
        horizon,
    );
    let j = choose|j: int|
        0 <= j < critiques.len() && (#[trigger] critiques[j]).target@ == claims[i].0@
            && critiques[j].verdict() is Ok && critiques[j].verification_status is Supported
            && critiques[j].conflicting_refs@.len() == 0 && critiques[j].supporting_refs@.len() > 0
            && !critiques[j].blocks(allocation.asset, horizon, claims[i].1.horizon);
    assert(proposal.forecasts@[f].horizon == horizon);
    assert(claims[i].1.stance is Bullish);
    assert(critiques[j].target@ == claims[i].0@);
}

/// A carried weight cites the claim that carries it, a ground of that claim for the asset, or a
/// critique of that claim, in that a critique is cited by the reference at its own place.
pub proof fn weight_with_unrelated_citations_is_not_carried(
    proposal: DecisionDraft,
    allocation: ResearchAssetAllocation,
    claims: Seq<(ArtifactRef, ResearchClaim)>,
    critiques: Seq<ResearchCritique>,
)
    requires
        forall|e: int, i: int|
            0 <= e < allocation.evidence_refs@.len() && 0 <= i < claims.len() ==> (
            #[trigger] allocation.evidence_refs@[e])@ != (#[trigger] claims[i]).0@,
        forall|e: int, i: int, g: int|
            0 <= e < allocation.evidence_refs@.len() && 0 <= i < claims.len() && 0 <= g
                < claims[i].1.grounds@.len() && claims[i].1.grounds@[g].assets@.contains(
                allocation.asset,
            ) ==> (#[trigger] allocation.evidence_refs@[e])@ != (
            #[trigger] claims[i].1.grounds@[g]).evidence@,
        forall|e: int, c: int|
            0 <= e < allocation.evidence_refs@.len() && 0 <= c < proposal.critiques@.len() ==> (
            #[trigger] allocation.evidence_refs@[e])@ != (#[trigger] proposal.critiques@[c])@,
    ensures
        !allocation_is_carried(proposal, allocation, claims, critiques),
{
    if allocation_is_carried(proposal, allocation, claims, critiques) {
        let h = choose|h: int|
            0 <= h < allocation.supporting_horizons@.len() && crate::decision::rise_is_forecast(
                proposal.forecasts@,
                allocation.asset,
                #[trigger] allocation.supporting_horizons@[h],
            ) && crate::decision::some_claim_carries(
                proposal,
                allocation,
                allocation.supporting_horizons@[h],
                claims,
                critiques,
            );
        let i = choose|i: int|
            0 <= i < claims.len() && crate::decision::claim_carries_allocation(
                proposal,
                allocation,
                allocation.supporting_horizons@[h],
                #[trigger] claims[i],
                critiques,
            );
        let e = choose|e: int|
            0 <= e < allocation.evidence_refs@.len() && crate::decision::citation_fits(
                (#[trigger] allocation.evidence_refs@[e])@,
                claims[i],
                critiques,
                proposal.critiques@,
                allocation.asset,
            );
        assert(allocation.evidence_refs@[e]@ != claims[i].0@);
    }
}

/// A rising forecast, an eligible bullish claim of its horizon and a citation of that claim carry
/// the weight.
pub proof fn supported_rise_carries_a_weight(
    proposal: DecisionDraft,
    allocation: ResearchAssetAllocation,
    claims: Seq<(ArtifactRef, ResearchClaim)>,
    critiques: Seq<ResearchCritique>,
    h: int,
    f: int,
    i: int,
    e: int,
)
    requires
        0 <= h < allocation.supporting_horizons@.len(),
        0 <= f < proposal.forecasts@.len(),
        proposal.forecasts@[f].asset == allocation.asset,
        proposal.forecasts@[f].horizon == allocation.supporting_horizons@[h],
        proposal.forecasts@[f].expected_return_ppm > 0,
        0 <= i < claims.len(),
        claims[i].1.stance is Bullish,
        slot_eligible(
            claims[i].0@,
            claims[i].1,
            critiques,
            allocation.asset,
            allocation.supporting_horizons@[h],
        ),
        0 <= e < allocation.evidence_refs@.len(),
        allocation.evidence_refs@[e]@ == claims[i].0@ || exists|g: int|
            0 <= g < claims[i].1.grounds@.len() && (
            #[trigger] claims[i].1.grounds@[g]).assets@.contains(allocation.asset)
                && claims[i].1.grounds@[g].evidence@ == allocation.evidence_refs@[e]@ || exists|
            c: int,
        |
            0 <= c < critiques.len() && c < proposal.critiques@.len() && (
            #[trigger] critiques[c]).target@ == claims[i].0@ && proposal.critiques@[c]@
                == allocation.evidence_refs@[e]@,
    ensures
        allocation_is_carried(proposal, allocation, claims, critiques),
{
    let horizon = allocation.supporting_horizons@[h];
    assert(crate::decision::citation_fits(
        allocation.evidence_refs@[e]@,
        claims[i],
        critiques,
        proposal.critiques@,
        allocation.asset,
    )) by {
        if allocation.evidence_refs@[e]@ != claims[i].0@ && !(exists|c: int|
            0 <= c < critiques.len() && c < proposal.critiques@.len() && (
            #[trigger] critiques[c]).target@ == claims[i].0@ && proposal.critiques@[c]@
                == allocation.evidence_refs@[e]@) {
            assert(exists|g: int|
                0 <= g < claims[i].1.grounds@.len() && (
                #[trigger] claims[i].1.grounds@[g]).assets@.contains(allocation.asset)
                    && claims[i].1.grounds@[g].evidence@ == allocation.evidence_refs@[e]@);
        }
    }
    assert(crate::decision::claim_carries_allocation(
        proposal,
        allocation,
        horizon,
        claims[i],
        critiques,
    ));
    assert(crate::decision::rise_is_forecast(proposal.forecasts@, allocation.asset, horizon)) by {
        assert(proposal.forecasts@[f].asset == allocation.asset);
    }
    assert(crate::decision::some_claim_carries(proposal, allocation, horizon, claims, critiques));
}

/// Weights are carried where each weight above nothing is; a plan of cash alone needs no support.
pub proof fn only_weights_above_nothing_need_support(
    proposal: DecisionDraft,
    claims: Seq<(ArtifactRef, ResearchClaim)>,
    critiques: Seq<ResearchCritique>,
)
    ensures
        proposal.research_allocation is None ==> weights_are_carried(proposal, claims, critiques),
        proposal.research_allocation matches Some(plan) ==> ((forall|i: int|
            0 <= i < plan.allocations@.len() ==> (
            #[trigger] plan.allocations@[i]).target_weight_ppm.0 == 0) ==> weights_are_carried(
            proposal,
            claims,
            critiques,
        )),
        proposal.research_allocation matches Some(plan) ==> (weights_are_carried(
            proposal,
            claims,
            critiques,
        ) ==> forall|i: int|
            0 <= i < plan.allocations@.len() && !allocation_is_carried(
                proposal,
                #[trigger] plan.allocations@[i],
                claims,
                critiques,
            ) ==> plan.allocations@[i].target_weight_ppm.0 == 0),
{
}

/// A claim counts as verified only by a critique of that claim that supports it and does not block
/// the slot.
pub proof fn verified_claim_has_a_supporting_critique(
    reference: RefView,
    claim: ResearchClaim,
    critiques: Seq<ResearchCritique>,
    asset: Asset,
    horizon: DecisionHorizon,
)
    ensures
        claim_is_verified(reference, claim, critiques, asset, horizon) <==> !(forall|i: int|
            0 <= i < critiques.len() && (#[trigger] critiques[i]).target@ == reference
                && critiques[i].verification_status is Supported ==> critiques[i].blocks(
                asset,
                horizon,
                claim.horizon,
            )),
{
}

/// Grounds point at an asset in a domain exactly where one of them is directional, of that domain
/// and for that asset.
pub proof fn pointing_grounds_hold_a_directional_one(
    grounds: Seq<EvidenceGround>,
    asset: Asset,
    domain: ResearchShard,
)
    ensures
        grounds_direct(grounds, asset, domain) <==> !(forall|i: int|
            0 <= i < grounds.len() ==> !((#[trigger] grounds[i]).role is Directional)
                || grounds[i].domain != Some(domain) || !grounds[i].assets@.contains(asset)),
{
    if grounds_direct(grounds, asset, domain) {
        let i = choose|i: int| 0 <= i < grounds.len() && (#[trigger] grounds[i]).directs(
            asset,
            domain,
        );
        assert(grounds[i].role is Directional);
    } else {
        assert forall|i: int| 0 <= i < grounds.len() implies !((
        #[trigger] grounds[i]).role is Directional) || grounds[i].domain != Some(domain)
            || !grounds[i].assets@.contains(asset) by {
            assert(!grounds[i].directs(asset, domain));
        }
    }
}

/// Forecasts have evidence only where, for each that points a way, claims of its own horizon point
/// at its asset in prices and in macro, and no claim has a gap that blocks the slot; neutral
/// forecasts need none.
pub proof fn pointed_forecast_needs_both_lanes(
    forecasts: Seq<Forecast>,
    claims: Seq<ResearchClaim>,
    f: int,
)
    requires
        0 <= f < forecasts.len(),
        forecasts[f].expected_return_ppm != 0 || forecasts[f].positive_return_probability_ppm
            != 500_000,
    ensures
        forecasts_have_evidence(forecasts, claims) ==> {
            &&& exists|i: int|
                0 <= i < claims.len() && (#[trigger] claims[i]).horizon == forecasts[f].horizon
                    && grounds_direct(
                    claims[i].grounds@,
                    forecasts[f].asset,
                    ResearchShard::PriceMarketStructure,
                )
            &&& exists|i: int|
                0 <= i < claims.len() && (#[trigger] claims[i]).horizon == forecasts[f].horizon
                    && grounds_direct(claims[i].grounds@, forecasts[f].asset, ResearchShard::Macro)
            &&& forall|i: int|
                0 <= i < claims.len() ==> !gaps_block(
                    (#[trigger] claims[i]).evidence_gaps@,
                    forecasts[f].asset,
                    forecasts[f].horizon,
                    claims[i].horizon,
                )
        },
{
    if forecasts_have_evidence(forecasts, claims) {
        let asset = forecasts[f].asset;
        let horizon = forecasts[f].horizon;
        assert(!forecasts[f].neutral());
        assert(crate::decision::slot_has_evidence(claims, asset, horizon));
        let p = choose|i: int| #[trigger]
            crate::decision::claim_covers(
                claims,
                i,
                asset,
                horizon,
                ResearchShard::PriceMarketStructure,
            );
        let m = choose|i: int| #[trigger]
            crate::decision::claim_covers(claims, i, asset, horizon, ResearchShard::Macro);
        assert(claims[p].horizon == horizon);
        assert(claims[m].horizon == horizon);
    }
}

/// Neutral forecasts, and forecasts whose slots have a claim for each of the two lanes and no
/// blocking gap, have evidence.
pub proof fn covered_forecasts_have_evidence(
    forecasts: Seq<Forecast>,
    claims: Seq<ResearchClaim>,
    price: spec_fn(int) -> int,
    macros: spec_fn(int) -> int,
)
    requires
        forall|f: int|
            0 <= f < forecasts.len() && (forecasts[f].expected_return_ppm != 0
                || forecasts[f].positive_return_probability_ppm != 500_000) ==> {
                let p = price(f);
                let m = macros(f);
                &&& 0 <= p < claims.len() && claims[p].horizon == (#[trigger] forecasts[f]).horizon
                &&& grounds_direct(
                    claims[p].grounds@,
                    forecasts[f].asset,
                    ResearchShard::PriceMarketStructure,
                )
                &&& 0 <= m < claims.len() && claims[m].horizon == forecasts[f].horizon
                &&& grounds_direct(claims[m].grounds@, forecasts[f].asset, ResearchShard::Macro)
                &&& forall|i: int|
                    0 <= i < claims.len() ==> !gaps_block(
                        (#[trigger] claims[i]).evidence_gaps@,
                        forecasts[f].asset,
                        forecasts[f].horizon,
                        claims[i].horizon,
                    )
            },
    ensures
        forecasts_have_evidence(forecasts, claims),
{
    assert forall|f: int| 0 <= f < forecasts.len() && !(
    #[trigger] forecasts[f]).neutral() implies crate::decision::slot_has_evidence(
        claims,
        forecasts[f].asset,
        forecasts[f].horizon,
    ) by {
        assert(crate::decision::claim_covers(
            claims,
            price(f),
            forecasts[f].asset,
            forecasts[f].horizon,
            ResearchShard::PriceMarketStructure,
        ));
        assert(crate::decision::claim_covers(
            claims,
            macros(f),
            forecasts[f].asset,
            forecasts[f].horizon,
            ResearchShard::Macro,
        ));
    }
}

/// A backed slot has, in prices and in macro, a claim of the forecast's horizon that points its
/// way, that a supporting critique stands behind, and whose grounds point at the asset; no such
/// claim has a gap that blocks the slot.
pub proof fn backed_slot_has_supported_claims_in_both_lanes(
    claims: Seq<(ArtifactRef, ResearchClaim)>,
    forecast: Forecast,
    critiques: Seq<ResearchCritique>,
)
    requires
        backed_slot_has_evidence(claims, forecast, critiques),
    ensures
        exists|i: int|
            0 <= i < claims.len() && (#[trigger] claims[i]).1.horizon == forecast.horizon
                && forecast.agrees_with(claims[i].1.stance) && claim_is_verified(
                claims[i].0@,
                claims[i].1,
                critiques,
                forecast.asset,
                forecast.horizon,
            ) && grounds_direct(
                claims[i].1.grounds@,
                forecast.asset,
                ResearchShard::PriceMarketStructure,
            ),
        exists|i: int|
            0 <= i < claims.len() && (#[trigger] claims[i]).1.horizon == forecast.horizon
                && forecast.agrees_with(claims[i].1.stance) && claim_is_verified(
                claims[i].0@,
                claims[i].1,
                critiques,
                forecast.asset,
                forecast.horizon,
            ) && grounds_direct(claims[i].1.grounds@, forecast.asset, ResearchShard::Macro),
        forall|i: int|
            0 <= i < claims.len() && (#[trigger] claims[i]).1.horizon == forecast.horizon
                && forecast.agrees_with(claims[i].1.stance) && claim_is_verified(
                claims[i].0@,
                claims[i].1,
                critiques,
                forecast.asset,
                forecast.horizon,
            ) ==> !gaps_block(
                claims[i].1.evidence_gaps@,
                forecast.asset,
                forecast.horizon,
                claims[i].1.horizon,
            ),
{
    let p = choose|i: int|
        0 <= i < claims.len() && crate::decision::claim_backs_forecast(
            #[trigger] claims[i],
            forecast,
            critiques,
        ) && grounds_direct(
            claims[i].1.grounds@,
            forecast.asset,
            ResearchShard::PriceMarketStructure,
        );
    let m = choose|i: int|
        0 <= i < claims.len() && crate::decision::claim_backs_forecast(
            #[trigger] claims[i],
            forecast,
            critiques,
        ) && grounds_direct(claims[i].1.grounds@, forecast.asset, ResearchShard::Macro);
    assert(claims[p].1.horizon == forecast.horizon);
    assert(claims[m].1.horizon == forecast.horizon);
}

/// Where no critique supports any claim, no slot is backed.
pub proof fn without_support_no_slot_is_backed(
    claims: Seq<(ArtifactRef, ResearchClaim)>,
    forecast: Forecast,
    critiques: Seq<ResearchCritique>,
)
    requires
        forall|i: int|
            0 <= i < critiques.len() ==> !((
            #[trigger] critiques[i]).verification_status is Supported),
    ensures
        !backed_slot_has_evidence(claims, forecast, critiques),
{
}

/// Research covers a slot only with valid supporting critiques of claims of its horizon in all of
/// prices, macro and news, and never where a claim has a gap that blocks it.
pub proof fn covered_slot_has_three_verified_lanes(
    claims: Seq<(ArtifactRef, ResearchClaim)>,
    critiques: Seq<ResearchCritique>,
    asset: Asset,
    horizon: DecisionHorizon,
    domain: ResearchShard,
)
    requires
        slot_is_covered(claims, critiques, asset, horizon),
        !(domain is FundamentalsSemiconductor),
    ensures
        exists|i: int, j: int|
            0 <= i < claims.len() && 0 <= j < critiques.len() && (#[trigger] claims[i]).1.horizon
                == horizon && grounds_direct(claims[i].1.grounds@, asset, domain) && (
            #[trigger] critiques[j]).target@ == claims[i].0@
                && critiques[j].verification_status is Supported && critiques[j].verdict() is Ok
                && !critiques[j].blocks(asset, horizon, claims[i].1.horizon),
        forall|i: int|
            0 <= i < claims.len() ==> !gaps_block(
                (#[trigger] claims[i]).1.evidence_gaps@,
                asset,
                horizon,
                claims[i].1.horizon,
            ),
{
    assert(crate::decision::verified_lane(claims, critiques, asset, horizon, domain)) by {
        match domain {
            ResearchShard::PriceMarketStructure => {},
            ResearchShard::Macro => {},
            ResearchShard::NewsEvent => {},
            ResearchShard::FundamentalsSemiconductor => {},
        }
    }
    let i = choose|i: int|
        0 <= i < claims.len() && crate::decision::claim_is_soundly_verified(
            #[trigger] claims[i],
            critiques,
            asset,
            horizon,
        ) && grounds_direct(claims[i].1.grounds@, asset, domain);
    let j = choose|j: int|
        0 <= j < critiques.len() && (#[trigger] critiques[j]).target@ == claims[i].0@
            && critiques[j].verification_status is Supported && !critiques[j].blocks(
            asset,
            horizon,
            claims[i].1.horizon,
        ) && critiques[j].verdict() is Ok;
    assert(claims[i].1.horizon == horizon);
    assert(critiques[j].target@ == claims[i].0@);
}

/// Verified claims in prices, macro and news, without a blocking gap anywhere, cover a slot.
pub proof fn three_verified_lanes_cover_a_slot(
    claims: Seq<(ArtifactRef, ResearchClaim)>,
    critiques: Seq<ResearchCritique>,
    asset: Asset,
    horizon: DecisionHorizon,
    claim_of: spec_fn(ResearchShard) -> int,
    critique_of: spec_fn(ResearchShard) -> int,
)
    requires
        forall|domain: ResearchShard|
            !(domain is FundamentalsSemiconductor) ==> {
                let i = #[trigger] claim_of(domain);
                let j = critique_of(domain);
                &&& 0 <= i < claims.len()
                &&& claims[i].1.horizon == horizon
                &&& grounds_direct(claims[i].1.grounds@, asset, domain)
                &&& 0 <= j < critiques.len()
                &&& critiques[j].target@ == claims[i].0@
                &&& critiques[j].verification_status is Supported
                &&& critiques[j].verdict() is Ok
                &&& !critiques[j].blocks(asset, horizon, horizon)
            },
        forall|i: int|
            0 <= i < claims.len() ==> !gaps_block(
                (#[trigger] claims[i]).1.evidence_gaps@,
                asset,
                horizon,
                claims[i].1.horizon,
            ),
    ensures
        slot_is_covered(claims, critiques, asset, horizon),
{
    assert forall|domain: ResearchShard|
        !(domain is FundamentalsSemiconductor) implies #[trigger] crate::decision::verified_lane(
        claims,
        critiques,
        asset,
        horizon,
        domain,
    ) by {
        let i = claim_of(domain);
        let j = critique_of(domain);
        assert(critiques[j].target@ == claims[i].0@);
        assert(crate::decision::claim_is_soundly_verified(claims[i], critiques, asset, horizon));
    }
}

} // verus!
