//! What holds of reviews of proposals and of supplemental research.
use crate::artifact::{ArtifactKind, ArtifactRef};
use crate::decision::{DecisionDraft, DecisionHorizon, Forecast, ResearchAssetAllocation};
use crate::foundation::Asset;
use crate::ordered::views;
use crate::research_review::{
    NumericEstimateBasis, ProposalAssessment, ProposalIssue, ProposalReview, ResearchSettings,
    SupplementalIntent, accepted_forecasts_are_kept, allocation_key, assessed_scopes, basis_scopes,
    bases_verdict, first_allocation, first_basis, first_forecast, forecast_key, has_stagnated,
    is_key_of, is_review_key, issue_ids, lists_each_scope_once, owned_scope_json, recurs,
    rejections_recur, scope_json,
};
use crate::text::{blank, starts_with};
use vstd::prelude::*;

verus! {

/// A research setting is accepted exactly where its workflow, which grows by two nodes with each
/// revision, keeps within thirty-two nodes.
pub proof fn each_revision_adds_two_nodes(settings: ResearchSettings, more: ResearchSettings)
    ensures
        settings.max_proposal_revisions == 0 ==> settings.workflow_nodes() == 21,
        more.max_proposal_revisions == settings.max_proposal_revisions + 1
            ==> more.workflow_nodes() == settings.workflow_nodes() + 2,
        settings.verdict() is Ok <==> settings.max_proposal_revisions <= 5,
{
}

/// A scope of a review is the cash, the allocation of an asset, or its forecast for a horizon, and
/// those of an asset are its own allocation and forecasts.
pub proof fn scopes_are_allocations_and_forecasts(
    s: Seq<char>,
    asset: Asset,
    horizon: DecisionHorizon,
)
    ensures
        is_review_key("allocation.cash"@),
        is_review_key("allocation."@ + asset.wire()),
        is_review_key("forecast."@ + asset.wire() + "."@ + horizon.wire()),
        is_key_of("allocation."@ + asset.wire(), asset),
        is_key_of("forecast."@ + asset.wire() + "."@ + horizon.wire(), asset),
        is_key_of(s, asset) ==> is_review_key(s),
{
    assert(allocation_key(asset) == "allocation."@ + asset.wire());
    assert(forecast_key(asset, horizon) == "forecast."@ + asset.wire() + "."@ + horizon.wire());
}

/// Some entry of a list.
pub open spec fn occurs(list: Seq<Seq<char>>, s: Seq<char>) -> bool {
    exists|i: int| 0 <= i < list.len() && #[trigger] list[i] == s
}

/// Scopes are listed once each exactly where none stands twice, each is a scope and every scope is
/// there.
pub proof fn listed_scopes_are_all_of_them(scopes: Seq<Seq<char>>)
    ensures
        lists_each_scope_once(scopes) <==> {
            &&& forall|i: int, j: int|
                0 <= i < j < scopes.len() ==> #[trigger] scopes[i] != #[trigger] scopes[j]
            &&& forall|i: int| 0 <= i < scopes.len() ==> is_review_key(#[trigger] scopes[i])
            &&& forall|s: Seq<char>| #[trigger] is_review_key(s) ==> occurs(scopes, s)
        },
{
    assert forall|s: Seq<char>| #[trigger] occurs(scopes, s) == scopes.contains(s) by {
        if occurs(scopes, s) {
            let i = choose|i: int| 0 <= i < scopes.len() && #[trigger] scopes[i] == s;
            assert(scopes.contains(s));
        }
    }
    if lists_each_scope_once(scopes) {
        assert forall|i: int| 0 <= i < scopes.len() implies is_review_key(#[trigger] scopes[i]) by {
            assert(scopes.contains(scopes[i]));
        }
        assert forall|s: Seq<char>| #[trigger] is_review_key(s) implies occurs(scopes, s) by {
            assert(scopes.contains(s));
        }
    }
    if (forall|i: int, j: int|
        0 <= i < j < scopes.len() ==> #[trigger] scopes[i] != #[trigger] scopes[j]) && (forall|
        i: int,
    |
        0 <= i < scopes.len() ==> is_review_key(#[trigger] scopes[i])) && (forall|s: Seq<char>|
        #[trigger]
        is_review_key(s) ==> occurs(scopes, s)) {
        assert(scopes.no_duplicates()) by {
            assert forall|i: int, j: int|
                0 <= i < scopes.len() && 0 <= j < scopes.len() && i != j implies scopes[i]
                != scopes[j] by {
                if i < j {
                } else {
                    assert(scopes[j] != scopes[i]);
                }
            }
        }
        assert forall|s: Seq<char>| #[trigger] scopes.contains(s) <==> is_review_key(s) by {
            if scopes.contains(s) {
                let i = choose|i: int| 0 <= i < scopes.len() && scopes[i] == s;
                assert(is_review_key(scopes[i]));
            }
            if is_review_key(s) {
                assert(occurs(scopes, s));
            }
        }
    }
}

/// A reference that a review may cite.
pub open spec fn may_be_cited(reference: ArtifactRef) -> bool {
    ||| reference.kind == ArtifactKind::Claim
    ||| reference.kind == ArtifactKind::Critique
    ||| reference.kind == ArtifactKind::NormalizedEvidence
    ||| reference.kind == ArtifactKind::SemanticDetail
}

/// Bases of estimates are accepted exactly where there is one for each scope and each has citable
/// inputs and says its units, method, assumptions and uncertainty.
pub proof fn accepted_bases_explain_every_number(bases: Seq<NumericEstimateBasis>)
    ensures
        bases_verdict(bases) is Ok <==> {
            &&& lists_each_scope_once(basis_scopes(bases))
            &&& forall|i: int|
                0 <= i < bases.len() ==> (#[trigger] bases[i]).inputs@.len() > 0 && !blank(
                    bases[i].units@,
                ) && !blank(bases[i].method@) && !blank(bases[i].assumptions@) && !blank(
                    bases[i].uncertainty@,
                ) && forall|j: int|
                    0 <= j < bases[i].inputs@.len() ==> may_be_cited(#[trigger] bases[i].inputs@[j])
        },
        basis_scopes(bases).len() == bases.len(),
        forall|i: int| 0 <= i < bases.len() ==> #[trigger] basis_scopes(bases)[i] == bases[i].scope@,
{
    assert forall|i: int| 0 <= i < bases.len() implies ((
    #[trigger] bases[i]).is_complete() <==> bases[i].inputs@.len() > 0 && !blank(bases[i].units@)
        && !blank(bases[i].method@) && !blank(bases[i].assumptions@) && !blank(
        bases[i].uncertainty@,
    ) && forall|j: int|
        0 <= j < bases[i].inputs@.len() ==> may_be_cited(#[trigger] bases[i].inputs@[j])) by {}
}

/// An issue concerns a scope exactly where its path is the scope, a part of it, or a part of its
/// numeric basis; it is sound where it also says how it is corrected and cites what may be cited.
pub proof fn issue_concerns_its_own_scope(issue: ProposalIssue, scope: Seq<char>)
    ensures
        issue.field_path@ == scope ==> issue.concerns(scope),
        issue.concerns(scope) <==> issue.field_path@ == scope || starts_with(
            issue.field_path@,
            scope + "."@,
        ) || starts_with(issue.field_path@, "numeric_basis."@ + scope + "."@),
        issue.is_sound(scope) <==> issue.concerns(scope) && !blank(issue.correction_criterion@)
            && forall|i: int|
            0 <= i < issue.evidence_refs@.len() ==> may_be_cited(#[trigger] issue.evidence_refs@[i]),
{
}

/// An assessment has sound issues exactly where it accepts without any and rejects with one to
/// three, each sound and no two the same.
pub proof fn rejection_has_an_issue(assessment: ProposalAssessment)
    ensures
        assessment.issues_are_sound() <==> {
            &&& assessment.accepted ==> assessment.issues@.len() == 0
            &&& !assessment.accepted ==> 1 <= assessment.issues@.len() <= 3
            &&& forall|i: int|
                0 <= i < assessment.issues@.len() ==> (#[trigger] assessment.issues@[i]).is_sound(
                    assessment.scope@,
                )
            &&& forall|i: int, j: int|
                0 <= i < j < assessment.issues@.len() ==> (#[trigger] assessment.issues@[i]).id(
                    assessment.scope@,
                ) != (#[trigger] assessment.issues@[j]).id(assessment.scope@)
        },
{
    let ids = issue_ids(assessment);
    if ids.no_duplicates() {
        assert forall|i: int, j: int| 0 <= i < j < assessment.issues@.len() implies (
        #[trigger] assessment.issues@[i]).id(assessment.scope@) != (
        #[trigger] assessment.issues@[j]).id(assessment.scope@) by {
            assert(ids[i] != ids[j]);
        }
    }
    if forall|i: int, j: int|
        0 <= i < j < assessment.issues@.len() ==> (#[trigger] assessment.issues@[i]).id(
            assessment.scope@,
        ) != (#[trigger] assessment.issues@[j]).id(assessment.scope@) {
        assert forall|i: int, j: int|
            0 <= i < ids.len() && 0 <= j < ids.len() && i != j implies ids[i] != ids[j] by {
            if i < j {
                assert(assessment.issues@[i].id(assessment.scope@) != assessment.issues@[j].id(
                    assessment.scope@,
                ));
            } else {
                assert(assessment.issues@[j].id(assessment.scope@) != assessment.issues@[i].id(
                    assessment.scope@,
                ));
            }
        }
    }
}

/// A review is accepted exactly where it is of a proposal under a manifest and assesses each scope
/// once with a reason; from the version on that structures issues, these must be sound too; and
/// it accepts all exactly where it is acceptable and accepts each.
pub proof fn accepted_proposal_review_assesses_every_scope(review: ProposalReview, version: u32)
    ensures
        review.verdict() is Ok <==> {
            &&& review.proposal.kind == ArtifactKind::DecisionProposal
            &&& review.manifest.kind == ArtifactKind::ContextManifest
            &&& lists_each_scope_once(assessed_scopes(review.assessments@))
            &&& forall|i: int|
                0 <= i < review.assessments@.len() ==> !blank(
                    (#[trigger] review.assessments@[i]).rationale@,
                )
        },
        review.contract_verdict(version) is Ok <==> review.verdict() is Ok && (version < 69
            || forall|i: int|
            0 <= i < review.assessments@.len() ==> (
            #[trigger] review.assessments@[i]).issues_are_sound()),
        review.accepts_all() <==> review.verdict() is Ok && !(exists|i: int|
            0 <= i < review.assessments@.len() && !(#[trigger] review.assessments@[i]).accepted),
        forall|i: int|
            0 <= i < review.assessments@.len() ==> #[trigger] assessed_scopes(
                review.assessments@,
            )[i] == review.assessments@[i].scope@,
{
}

/// What a scope stands for in a proposal is the first forecast, allocation or basis under its key.
pub proof fn scope_stands_for_what_is_under_its_key(
    forecasts: Seq<Forecast>,
    allocations: Seq<ResearchAssetAllocation>,
    bases: Seq<NumericEstimateBasis>,
    scope: Seq<char>,
)
    ensures
        first_forecast(forecasts, scope) matches Some(own) ==> forecast_key(own.asset, own.horizon)
            == scope && forecasts.contains(own),
        first_forecast(forecasts, scope) is None ==> forall|i: int|
            0 <= i < forecasts.len() ==> forecast_key(
                (#[trigger] forecasts[i]).asset,
                forecasts[i].horizon,
            ) != scope,
        first_allocation(allocations, scope) matches Some(own) ==> allocation_key(own.asset) == scope
            && allocations.contains(own),
        first_allocation(allocations, scope) is None ==> forall|i: int|
            0 <= i < allocations.len() ==> allocation_key((#[trigger] allocations[i]).asset)
                != scope,
        first_basis(bases, scope) matches Some(own) ==> own.scope@ == scope && bases.contains(own),
        first_basis(bases, scope) is None ==> forall|i: int|
            0 <= i < bases.len() ==> (#[trigger] bases[i]).scope@ != scope,
    decreases forecasts.len() + allocations.len() + bases.len(),
{
    if forecasts.len() > 0 {
        let rest = forecasts.drop_first();
        scope_stands_for_what_is_under_its_key(rest, allocations, bases, scope);
        assert forall|i: int| 0 < i < forecasts.len() implies #[trigger] forecasts[i] == rest[i
            - 1] by {}
        if first_forecast(forecasts, scope) is Some {
            if forecast_key(forecasts[0].asset, forecasts[0].horizon) != scope {
                let own = first_forecast(forecasts, scope)->0;
                let i = choose|i: int| 0 <= i < rest.len() && rest[i] == own;
                assert(forecasts[i + 1] == own);
            } else {
                assert(forecasts[0] == first_forecast(forecasts, scope)->0);
            }
        }
    } else if allocations.len() > 0 {
        let rest = allocations.drop_first();
        scope_stands_for_what_is_under_its_key(forecasts, rest, bases, scope);
        assert forall|i: int| 0 < i < allocations.len() implies #[trigger] allocations[i] == rest[i
            - 1] by {}
        if first_allocation(allocations, scope) is Some {
            if allocation_key(allocations[0].asset) != scope {
                let own = first_allocation(allocations, scope)->0;
                let i = choose|i: int| 0 <= i < rest.len() && rest[i] == own;
                assert(allocations[i + 1] == own);
            } else {
                assert(allocations[0] == first_allocation(allocations, scope)->0);
            }
        }
    } else if bases.len() > 0 {
        let rest = bases.drop_first();
        scope_stands_for_what_is_under_its_key(forecasts, allocations, rest, scope);
        assert forall|i: int| 0 < i < bases.len() implies #[trigger] bases[i] == rest[i - 1] by {}
        if first_basis(bases, scope) is Some {
            if bases[0].scope@ != scope {
                let own = first_basis(bases, scope)->0;
                let i = choose|i: int| 0 <= i < rest.len() && rest[i] == own;
                assert(bases[i + 1] == own);
            } else {
                assert(bases[0] == first_basis(bases, scope)->0);
            }
        }
    }
}

/// A revision that changes nothing keeps every accepted forecast, and one that changes what stands
/// under an accepted forecast does not.
pub proof fn accepted_forecast_may_not_change(
    previous: DecisionDraft,
    next: DecisionDraft,
    review: ProposalReview,
    i: int,
)
    ensures
        accepted_forecasts_are_kept(previous, previous, review),
        0 <= i < review.assessments@.len() && review.assessments@[i].accepted && starts_with(
            review.assessments@[i].scope@,
            "forecast."@,
        ) && owned_scope_json(previous, review.assessments@[i].scope@) != owned_scope_json(
            next,
            review.assessments@[i].scope@,
        ) ==> !accepted_forecasts_are_kept(previous, next, review),
        (forall|j: int|
            0 <= j < review.assessments@.len() ==> !(#[trigger] review.assessments@[j]).accepted)
            ==> accepted_forecasts_are_kept(previous, next, review),
{
}

/// A revision has stagnated only where both reviews are sound and reject something, and what the
/// later rejects the earlier rejected too with the same issues, references and content.
pub proof fn stagnation_repeats_every_rejection(
    previous: DecisionDraft,
    previous_review: ProposalReview,
    current: DecisionDraft,
    current_review: ProposalReview,
    i: int,
)
    requires
        has_stagnated(previous, previous_review, current, current_review),
        0 <= i < current_review.assessments@.len(),
        !current_review.assessments@[i].accepted,
    ensures
        previous_review.contract_verdict(69) is Ok,
        current_review.contract_verdict(69) is Ok,
        recurs(current_review.assessments@[i], current, previous_review, previous),
{
}

/// Where a review accepts everything there is no stagnation, on either side.
pub proof fn accepted_proposal_has_not_stagnated(
    previous: DecisionDraft,
    previous_review: ProposalReview,
    current: DecisionDraft,
    current_review: ProposalReview,
)
    requires
        previous_review.accepts_all() || current_review.accepts_all(),
    ensures
        !has_stagnated(previous, previous_review, current, current_review),
{
}

/// It does not matter which of two reviews came first.
pub proof fn stagnation_is_mutual(
    previous: DecisionDraft,
    previous_review: ProposalReview,
    current: DecisionDraft,
    current_review: ProposalReview,
)
    requires
        has_stagnated(previous, previous_review, current, current_review),
    ensures
        has_stagnated(current, current_review, previous, previous_review),
{
}

/// A proposal that is submitted again unchanged and rejected as before has stagnated.
pub proof fn unchanged_proposal_has_stagnated(proposal: DecisionDraft, review: ProposalReview)
    requires
        review.contract_verdict(69) is Ok,
        !review.accepts_all(),
    ensures
        has_stagnated(proposal, review, proposal, review),
{
    assert forall|j: int|
        0 <= j < review.assessments@.len() && !(
        #[trigger] review.assessments@[j]).accepted implies recurs(
        review.assessments@[j],
        proposal,
        review,
        proposal,
    ) by {
        assert(review.assessments@[j].scope@ == review.assessments@[j].scope@);
    }
}

/// A supplemental intent is accepted exactly where it asks something about some assets, none twice,
/// and names series, each known and none twice, exactly where it is about the economy.
pub proof fn accepted_supplement_names_series_of_the_economy(intent: SupplementalIntent)
    ensures
        intent.verdict() is Ok <==> {
            let series = intent.series@;
            &&& !blank(intent.query@)
            &&& intent.assets@.len() > 0
            &&& intent.assets@.no_duplicates()
            &&& views(series).no_duplicates()
            &&& intent.kind is Macro <==> series.len() > 0
            &&& forall|i: int|
                0 <= i < series.len() ==> (#[trigger] series[i])@ == "DFF"@ || series[i]@
                    == "DFII10"@ || series[i]@ == "VIXCLS"@ || series[i]@ == "DGS2"@ || series[i]@
                    == "DGS10"@
        },
{
}

} // verus!
