//! The review of research proposals: revisions, numeric bases and supplementary requests.
use crate::artifact::{
    refs_json, refs_to_json, ArtifactKind, ArtifactRef, RefView,
};
use crate::decision::{
    all_refs_are_citable, refs_are_citable, DecisionDraft, DecisionHorizon, Forecast,
    ForecastThesis, ResearchAssetAllocation,
};
use crate::error::{
    budget, demand, empty, empty_field, first, invalid_budget, outcome, DomainError, Verdict,
};
use crate::foundation::{digest_of, json_digest, Asset, ContentHash};
use crate::json::{
    json_bytes, json_content, json_contents, json_insert, json_list, json_new_object, json_null,
    exact, exact_members, json_object, json_same, json_text, json_to_vec, no_members, JsonTree, ToJson,
};
use crate::lists::{all_of, any_of, Checked};
use crate::ordered::{are_distinct, duplicate_keys, listing, views, OrderedSet};
use crate::text::{blank, has_prefix, is_blank, joined, same_text, starts_with};
use vstd::prelude::*;

verus! {

pub const REVIEWED_RESEARCH_CONTRACT_VERSION: u32 = 67;

/// The first contract whose reviews list their issues.
pub const STRUCTURED_REVIEW_ISSUES_CONTRACT_VERSION: u32 = 69;

pub const RESEARCH_PROPOSAL_REVIEWER_RECIPE_ID: &'static str = "research.proposal_reviewer";

pub const RESEARCH_SUPPLEMENT_RECIPE_ID: &'static str = "research.supplement";

/// Settings of research. Revisions follow the first proposal, and each has its own review.
#[derive(Clone, Copy, Debug, PartialEq, Eq, Structural)]
pub struct ResearchSettings {
    pub max_proposal_revisions: u8,
}

impl Default for ResearchSettings {
    fn default() -> (r: Self)
        ensures
            r.max_proposal_revisions == 2,
    {
        ResearchSettings { max_proposal_revisions: 2 }
    }
}

impl ResearchSettings {
    /// The tasks of a full run: evidence, twelve for the horizons, a supplement, two for each
    /// proposal and its review, and five gates at the end.
    pub open spec fn workflow_nodes(&self) -> int {
        21 + 2 * self.max_proposal_revisions
    }

    pub open spec fn verdict(&self) -> Verdict {
        demand(
            self.workflow_nodes() <= 32,
            budget("agent.research.max_proposal_revisions exceeds 32 workflow nodes"@),
        )
    }

    pub fn validate(&self) -> (r: Result<(), DomainError>)
        ensures
            outcome(r) == self.verdict(),
    {
        let nodes: u32 = 21 + 2 * self.max_proposal_revisions as u32;
        if nodes > 32 {
            return Err(
                invalid_budget("agent.research.max_proposal_revisions exceeds 32 workflow nodes"),
            );
        }
        Ok(())
    }
}

/// The scope of the weight of an asset.
pub open spec fn allocation_key(asset: Asset) -> Seq<char> {
    "allocation."@ + asset.wire()
}

/// The scope of the forecast of an asset over a horizon.
pub open spec fn forecast_key(asset: Asset, horizon: DecisionHorizon) -> Seq<char> {
    "forecast."@ + asset.wire() + "."@ + horizon.wire()
}

/// The scopes of a proposal: its cash, each weight and each forecast.
pub open spec fn is_review_key(s: Seq<char>) -> bool {
    ||| s == "allocation.cash"@
    ||| exists|asset: Asset| s == #[trigger] allocation_key(asset)
    ||| exists|asset: Asset, horizon: DecisionHorizon| s == #[trigger] forecast_key(asset, horizon)
}

/// The scopes that belong to an asset.
pub open spec fn is_key_of(s: Seq<char>, asset: Asset) -> bool {
    ||| s == allocation_key(asset)
    ||| exists|horizon: DecisionHorizon| s == #[trigger] forecast_key(asset, horizon)
}

fn allocation_scope(asset: Asset) -> (r: String)
    ensures
        r@ == allocation_key(asset),
{
    joined("allocation.", asset.symbol())
}

fn forecast_scope(asset: Asset, horizon: DecisionHorizon) -> (r: String)
    ensures
        r@ == forecast_key(asset, horizon),
{
    let name = joined("forecast.", asset.symbol());
    let name = joined(&name, ".");
    joined(&name, horizon.wire_name())
}

fn insert_keys_of(keys: &mut OrderedSet<String>, asset: Asset)
    ensures
        forall|s: Seq<char>| #[trigger] final(keys)@.contains(s) <==> old(keys)@.contains(s)
            || is_key_of(s, asset),
{
    let ghost before = keys@;
    keys.insert(allocation_scope(asset));
    keys.insert(forecast_scope(asset, DecisionHorizon::T1));
    keys.insert(forecast_scope(asset, DecisionHorizon::T3));
    keys.insert(forecast_scope(asset, DecisionHorizon::T5));
    proof {
        assert forall|s: Seq<char>| #[trigger] keys@.contains(s) <==> before.contains(s)
            || is_key_of(s, asset) by {
            if is_key_of(s, asset) && s != allocation_key(asset) {
                let horizon = choose|horizon: DecisionHorizon| s == #[trigger] forecast_key(
                    asset,
                    horizon,
                );
                assert(horizon is T1 || horizon is T3 || horizon is T5);
            }
        }
    }
}

pub fn proposal_review_keys() -> (r: OrderedSet<String>)
    ensures
        forall|s: Seq<char>| #[trigger] r@.contains(s) <==> is_review_key(s),
{
    let mut keys: OrderedSet<String> = OrderedSet::new();
    keys.insert("allocation.cash".to_owned());
    insert_keys_of(&mut keys, Asset::Tqqq);
    insert_keys_of(&mut keys, Asset::Qqq);
    insert_keys_of(&mut keys, Asset::Soxx);
    insert_keys_of(&mut keys, Asset::Soxl);
    proof {
        assert forall|s: Seq<char>| #[trigger] keys@.contains(s) <==> is_review_key(s) by {
            if keys@.contains(s) && s != "allocation.cash"@ {
                let asset = choose|asset: Asset| is_key_of(s, asset);
                assert(is_key_of(s, Asset::Tqqq) || is_key_of(s, Asset::Qqq) || is_key_of(
                    s,
                    Asset::Soxx,
                ) || is_key_of(s, Asset::Soxl));
            }
            if is_review_key(s) && s != "allocation.cash"@ {
                if exists|asset: Asset| s == #[trigger] allocation_key(asset) {
                    let asset = choose|asset: Asset| s == #[trigger] allocation_key(asset);
                    assert(is_key_of(s, asset));
                    assert(crate::foundation::executable(asset));
                } else {
                    let (asset, horizon) = choose|asset: Asset, horizon: DecisionHorizon|
                        s == #[trigger] forecast_key(asset, horizon);
                    assert(is_key_of(s, asset));
                    assert(crate::foundation::executable(asset));
                }
            }
        }
    }
    keys
}

/// Every scope is listed, and each once.
pub open spec fn lists_each_scope_once(scopes: Seq<Seq<char>>) -> bool {
    &&& scopes.no_duplicates()
    &&& forall|s: Seq<char>| #[trigger] scopes.contains(s) <==> is_review_key(s)
}

fn each_scope_is_listed_once(scopes: Vec<String>) -> (r: bool)
    ensures
        r == lists_each_scope_once(views(scopes@)),
{
    let distinct = are_distinct(&scopes);
    let ghost listed = views(scopes@);
    let found = OrderedSet::from_vec(scopes);
    let wanted = proposal_review_keys();
    let same = found.same(&wanted);
    proof {
        assert forall|s: Seq<char>| found@.contains(s) == listed.contains(s) by {}
        if same {
            assert forall|s: Seq<char>| #[trigger] listed.contains(s) <==> is_review_key(s) by {
                assert(found@.contains(s) == wanted@.contains(s));
            }
        }
        if lists_each_scope_once(listed) {
            assert forall|s: Seq<char>| found@.contains(s) == wanted@.contains(s) by {
                assert(listed.contains(s) <==> is_review_key(s));
            }
            assert(found@ =~= wanted@);
        }
    }
    distinct && same
}

/// How a number was estimated. It says nothing about how well it is calibrated.
#[derive(Debug, Clone, PartialEq, Eq)]
pub struct NumericEstimateBasis {
    pub scope: String,
    pub inputs: Vec<ArtifactRef>,
    pub units: String,
    pub method: String,
    pub assumptions: String,
    pub uncertainty: String,
}

impl ToJson for NumericEstimateBasis {
    open spec fn json(&self) -> JsonTree {
        let m = no_members();
        let m = m.insert("scope"@, self.scope.json());
        let m = m.insert("inputs"@, self.inputs.json());
        let m = m.insert("units"@, self.units.json());
        let m = m.insert("method"@, self.method.json());
        let m = m.insert("assumptions"@, self.assumptions.json());
        let m = m.insert("uncertainty"@, self.uncertainty.json());
        JsonTree::Object(m)
    }

    fn to_json(&self) -> (r: serde_json::Value) {
        let mut members = json_new_object();
        json_insert(&mut members, "scope", self.scope.to_json());
        json_insert(&mut members, "inputs", self.inputs.to_json());
        json_insert(&mut members, "units", self.units.to_json());
        json_insert(&mut members, "method", self.method.to_json());
        json_insert(&mut members, "assumptions", self.assumptions.to_json());
        json_insert(&mut members, "uncertainty", self.uncertainty.to_json());
        json_object(members)
    }
}

impl NumericEstimateBasis {
    /// Has inputs that may be cited, and says how it was made.
    pub open spec fn is_complete(&self) -> bool {
        &&& self.inputs@.len() > 0
        &&& !blank(self.units@)
        &&& !blank(self.method@)
        &&& !blank(self.assumptions@)
        &&& !blank(self.uncertainty@)
        &&& refs_are_citable(self.inputs@)
    }

    fn has_all_parts(&self) -> (r: bool)
        ensures
            r == self.is_complete(),
    {
        self.inputs.len() > 0 && !is_blank(&self.units) && !is_blank(&self.method) && !is_blank(
            &self.assumptions,
        ) && !is_blank(&self.uncertainty) && all_refs_are_citable(&self.inputs)
    }
}

/// The scopes of the bases.
pub open spec fn basis_scopes(bases: Seq<NumericEstimateBasis>) -> Seq<Seq<char>> {
    bases.map_values(|basis: NumericEstimateBasis| basis.scope@)
}

/// Every scope has one basis, and each basis is complete.
pub open spec fn bases_are_complete(bases: Seq<NumericEstimateBasis>) -> bool {
    &&& lists_each_scope_once(basis_scopes(bases))
    &&& forall|i: int| 0 <= i < bases.len() ==> (#[trigger] bases[i]).is_complete()
}

pub open spec fn bases_verdict(bases: Seq<NumericEstimateBasis>) -> Verdict {
    demand(
        bases_are_complete(bases),
        empty(
            "proposal.numeric_basis requires all 12 forecasts and 5 allocations with input refs, units, method, assumptions and uncertainty"@,
        ),
    )
}

pub fn validate_numeric_bases(bases: &Vec<NumericEstimateBasis>) -> (r: Result<(), DomainError>)
    ensures
        outcome(r) == bases_verdict(bases@),
{
    let mut scopes: Vec<String> = Vec::new();
    let mut i: usize = 0;
    while i < bases.len()
        invariant
            i <= bases.len(),
            scopes.len() == i,
            forall|j: int| 0 <= j < i ==> (#[trigger] scopes@[j])@ == bases@[j].scope@,
        decreases bases.len() - i,
    {
        scopes.push(bases[i].scope.clone());
        i += 1;
    }
    proof {
        assert(views(scopes@) =~= basis_scopes(bases@));
    }
    let complete = |basis: &NumericEstimateBasis| -> (b: bool)
        ensures
            b == basis.is_complete(),
        { basis.has_all_parts() };
    if !each_scope_is_listed_once(scopes) || !all_of(bases.as_slice(), complete) {
        return Err(
            empty_field(
                "proposal.numeric_basis requires all 12 forecasts and 5 allocations with input refs, units, method, assumptions and uncertainty",
            ),
        );
    }
    Ok(())
}

/// What is thought of one scope of a proposal.
#[derive(Debug, Clone, PartialEq, Eq)]
pub struct ProposalAssessment {
    pub scope: String,
    pub accepted: bool,
    pub rationale: String,
    pub evidence_refs: Vec<ArtifactRef>,
    pub issues: Vec<ProposalIssue>,
}

/// What kind of fault an issue is.
#[derive(Clone, Copy, Debug, PartialEq, Eq, PartialOrd, Ord, Hash, Structural)]
pub enum ProposalIssueCategory {
    SupportMissing,
    SourceQualification,
    ConflictingSupport,
    TemporalMismatch,
    UnitError,
    EstimateBasisMismatch,
    AllocationInconsistency,
}

impl ProposalIssueCategory {
    /// The name of the variant in JSON.
    pub open spec fn wire(self) -> Seq<char> {
        match self {
            ProposalIssueCategory::SupportMissing => "support_missing"@,
            ProposalIssueCategory::SourceQualification => "source_qualification"@,
            ProposalIssueCategory::ConflictingSupport => "conflicting_support"@,
            ProposalIssueCategory::TemporalMismatch => "temporal_mismatch"@,
            ProposalIssueCategory::UnitError => "unit_error"@,
            ProposalIssueCategory::EstimateBasisMismatch => "estimate_basis_mismatch"@,
            ProposalIssueCategory::AllocationInconsistency => "allocation_inconsistency"@,
        }
    }

    /// The name of the variant in JSON.
    pub fn wire_name(self) -> (r: &'static str)
        ensures
            r@ == self.wire(),
    {
        match self {
            ProposalIssueCategory::SupportMissing => "support_missing",
            ProposalIssueCategory::SourceQualification => "source_qualification",
            ProposalIssueCategory::ConflictingSupport => "conflicting_support",
            ProposalIssueCategory::TemporalMismatch => "temporal_mismatch",
            ProposalIssueCategory::UnitError => "unit_error",
            ProposalIssueCategory::EstimateBasisMismatch => "estimate_basis_mismatch",
            ProposalIssueCategory::AllocationInconsistency => "allocation_inconsistency",
        }
    }
}

impl ToJson for ProposalIssueCategory {
    open spec fn json(&self) -> JsonTree {
        JsonTree::Text(self.wire())
    }

    fn to_json(&self) -> (r: serde_json::Value) {
        json_text(self.wire_name())
    }
}

/// A fault of a proposal, and what would mend it.
#[derive(Debug, Clone, PartialEq, Eq)]
pub struct ProposalIssue {
    pub category: ProposalIssueCategory,
    pub field_path: String,
    pub correction_criterion: String,
    pub evidence_refs: Vec<ArtifactRef>,
}

impl ProposalIssue {
    /// What identifies an issue: its scope, its category and its field.
    pub open spec fn id_json(&self, scope: Seq<char>) -> JsonTree {
        JsonTree::List(
            seq![
                JsonTree::Text(scope),
                JsonTree::Text(self.category.wire()),
                JsonTree::Text(self.field_path@),
            ],
        )
    }

    /// The identity of an issue: the digest of its scope, its category and its field.
    pub open spec fn id(&self, scope: Seq<char>) -> Seq<char> {
        json_digest(self.id_json(scope))
    }

    pub fn stable_id(&self, scope: &str) -> (r: String)
        ensures
            r@ == self.id(scope@),
    {
        let mut parts: Vec<serde_json::Value> = Vec::new();
        parts.push(json_text(scope));
        parts.push(self.category.to_json());
        parts.push(self.field_path.to_json());
        proof {
            assert(json_contents(parts@) =~= seq![
                JsonTree::Text(scope@),
                JsonTree::Text(self.category.wire()),
                JsonTree::Text(self.field_path@),
            ]);
        }
        digest_of(&json_list(parts)).as_str().to_owned()
    }

    /// The field is that of the scope, one below it or one of its basis.
    pub open spec fn concerns(&self, scope: Seq<char>) -> bool {
        ||| self.field_path@ == scope
        ||| starts_with(self.field_path@, scope + "."@)
        ||| starts_with(self.field_path@, "numeric_basis."@ + scope + "."@)
    }

    fn is_of_scope(&self, scope: &str) -> (r: bool)
        ensures
            r == self.concerns(scope@),
    {
        let below = joined(scope, ".");
        let basis = joined(&joined("numeric_basis.", scope), ".");
        same_text(&self.field_path, scope) || has_prefix(&self.field_path, &below) || has_prefix(
            &self.field_path,
            &basis,
        )
    }

    /// Of the scope, with something that would mend it, and citing what may be cited.
    pub open spec fn is_sound(&self, scope: Seq<char>) -> bool {
        &&& self.concerns(scope)
        &&& !blank(self.correction_criterion@)
        &&& refs_are_citable(self.evidence_refs@)
    }
}

/// Rewording an issue does not change its identity.
pub proof fn issue_identity_ignores_prose(a: ProposalIssue, b: ProposalIssue, scope: Seq<char>)
    requires
        a.category == b.category,
        a.field_path@ == b.field_path@,
    ensures
        a.id(scope) == b.id(scope),
{
}

/// The identities of the issues of an assessment.
pub open spec fn issue_ids(assessment: ProposalAssessment) -> Seq<Seq<char>> {
    assessment.issues@.map_values(|issue: ProposalIssue| issue.id(assessment.scope@))
}

fn list_issue_ids(assessment: &ProposalAssessment) -> (r: Vec<String>)
    ensures
        views(r@) == issue_ids(*assessment),
{
    let mut ids: Vec<String> = Vec::new();
    let mut i: usize = 0;
    while i < assessment.issues.len()
        invariant
            i <= assessment.issues.len(),
            ids.len() == i,
            forall|j: int|
                0 <= j < i ==> (#[trigger] ids@[j])@ == assessment.issues@[j].id(
                    assessment.scope@,
                ),
        decreases assessment.issues.len() - i,
    {
        ids.push(assessment.issues[i].stable_id(&assessment.scope));
        i += 1;
    }
    proof {
        assert(views(ids@) =~= issue_ids(*assessment));
    }
    ids
}

impl ProposalAssessment {
    /// An accepted scope has no issue; a rejected one has one to three, which differ and are
    /// sound.
    pub open spec fn issues_are_sound(&self) -> bool {
        &&& self.issues@.len() <= 3
        &&& self.accepted == (self.issues@.len() == 0)
        &&& forall|i: int|
            0 <= i < self.issues@.len() ==> (#[trigger] self.issues@[i]).is_sound(self.scope@)
        &&& issue_ids(*self).no_duplicates()
    }

    fn has_sound_issues(&self) -> (r: bool)
        ensures
            r == self.issues_are_sound(),
    {
        let scope = self.scope.as_str();
        let sound = |issue: &ProposalIssue| -> (b: bool)
            ensures
                b == issue.is_sound(scope@),
            {
                issue.is_of_scope(scope) && !is_blank(&issue.correction_criterion)
                    && all_refs_are_citable(&issue.evidence_refs)
            };
        self.issues.len() <= 3 && self.accepted == (self.issues.len() == 0) && all_of(
            self.issues.as_slice(),
            sound,
        ) && are_distinct(&list_issue_ids(self))
    }
}

/// A review of a proposal, bound to it, to what was seen and to the contract.
#[derive(Debug, Clone, PartialEq, Eq)]
pub struct ProposalReview {
    pub proposal: ArtifactRef,
    pub proposal_hash: ContentHash,
    pub manifest: ArtifactRef,
    pub contract_hash: ContentHash,
    pub assessments: Vec<ProposalAssessment>,
}

/// The scopes of the assessments.
pub open spec fn assessed_scopes(list: Seq<ProposalAssessment>) -> Seq<Seq<char>> {
    list.map_values(|a: ProposalAssessment| a.scope@)
}

impl ProposalReview {
    /// The assessments of a rejected scope list sound issues.
    pub open spec fn issues_are_sound(&self) -> bool {
        forall|i: int|
            0 <= i < self.assessments@.len() ==> (#[trigger] self.assessments@[i]).issues_are_sound()
    }

    pub open spec fn contract_verdict(&self, version: u32) -> Verdict {
        first(
            self.verdict(),
            demand(
                version < STRUCTURED_REVIEW_ISSUES_CONTRACT_VERSION || self.issues_are_sound(),
                empty(
                    "proposal_review structured issues require a rejected scope, matching field, unique ID and correction criterion"@,
                ),
            ),
        )
    }

    pub fn validate_for_contract(&self, version: u32) -> (r: Result<(), DomainError>)
        ensures
            outcome(r) == self.contract_verdict(version),
    {
        self.validate()?;
        if version < STRUCTURED_REVIEW_ISSUES_CONTRACT_VERSION {
            return Ok(());
        }
        let sound = |a: &ProposalAssessment| -> (b: bool)
            ensures
                b == a.issues_are_sound(),
            { a.has_sound_issues() };
        if !all_of(self.assessments.as_slice(), sound) {
            return Err(
                empty_field(
                    "proposal_review structured issues require a rejected scope, matching field, unique ID and correction criterion",
                ),
            );
        }
        Ok(())
    }

    /// Bound to a proposal and a manifest, with a reasoned assessment of every scope.
    pub open spec fn is_complete(&self) -> bool {
        &&& self.proposal.kind is DecisionProposal
        &&& self.manifest.kind is ContextManifest
        &&& lists_each_scope_once(assessed_scopes(self.assessments@))
        &&& forall|i: int|
            0 <= i < self.assessments@.len() ==> !blank((#[trigger] self.assessments@[i]).rationale@)
    }

    pub open spec fn verdict(&self) -> Verdict {
        demand(self.is_complete(), empty("proposal_review complete scope and binding"@))
    }

    pub fn validate(&self) -> (r: Result<(), DomainError>)
        ensures
            outcome(r) == self.verdict(),
    {
        let mut scopes: Vec<String> = Vec::new();
        let mut i: usize = 0;
        while i < self.assessments.len()
            invariant
                i <= self.assessments.len(),
                scopes.len() == i,
                forall|j: int|
                    0 <= j < i ==> (#[trigger] scopes@[j])@ == self.assessments@[j].scope@,
            decreases self.assessments.len() - i,
        {
            scopes.push(self.assessments[i].scope.clone());
            i += 1;
        }
        proof {
            assert(views(scopes@) =~= assessed_scopes(self.assessments@));
        }
        let reasoned = |a: &ProposalAssessment| -> (b: bool)
            ensures
                b == !blank(a.rationale@),
            { !is_blank(&a.rationale) };
        if self.proposal.kind != ArtifactKind::DecisionProposal || self.manifest.kind
            != ArtifactKind::ContextManifest || !each_scope_is_listed_once(scopes) || !all_of(
            self.assessments.as_slice(),
            reasoned,
        ) {
            return Err(empty_field("proposal_review complete scope and binding"));
        }
        Ok(())
    }

    /// The review is valid and accepts every scope.
    pub open spec fn accepts_all(&self) -> bool {
        self.verdict() is Ok && forall|i: int|
            0 <= i < self.assessments@.len() ==> (#[trigger] self.assessments@[i]).accepted
    }

    pub fn accepted(&self) -> (r: bool)
        ensures
            r == self.accepts_all(),
    {
        let granted = |a: &ProposalAssessment| -> (b: bool)
            ensures
                b == a.accepted,
            { a.accepted };
        self.validate().is_ok() && all_of(self.assessments.as_slice(), granted)
    }

    /// The review lets this very proposal pass.
    pub open spec fn lets_pass(&self, proposal: RefView, hash: Seq<char>) -> bool {
        &&& self.accepts_all()
        &&& self.proposal@ == proposal
        &&& self.proposal_hash@ == hash
    }

    /// Whether the review lets this very proposal pass.
    pub fn authorizes(&self, proposal: &ArtifactRef, hash: &ContentHash) -> (r: bool)
        ensures
            r == self.lets_pass(proposal@, hash@),
    {
        self.accepted() && self.proposal.same(proposal) && self.proposal_hash.same(hash)
    }
}

/// The first forecast for a scope.
pub open spec fn first_forecast(list: Seq<Forecast>, scope: Seq<char>) -> Option<Forecast>
    decreases list.len(),
{
    if list.len() == 0 {
        None
    } else if forecast_key(list[0].asset, list[0].horizon) == scope {
        Some(list[0])
    } else {
        first_forecast(list.drop_first(), scope)
    }
}

fn find_forecast<'a>(list: &'a Vec<Forecast>, scope: &str) -> (r: Option<&'a Forecast>)
    ensures
        r == (match first_forecast(list@, scope@) {
            Some(forecast) => Some(&forecast),
            None => None,
        }),
{
    let mut i: usize = 0;
    proof {
        assert(list@.skip(0) =~= list@);
    }
    while i < list.len()
        invariant
            i <= list.len(),
            first_forecast(list@, scope@) == first_forecast(list@.skip(i as int), scope@),
        decreases list.len() - i,
    {
        proof {
            assert(list@.skip(i as int)[0] == list@[i as int]);
            assert(list@.skip(i as int).drop_first() =~= list@.skip(i + 1));
        }
        let key = forecast_scope(list[i].asset, list[i].horizon);
        if same_text(&key, scope) {
            return Some(&list[i]);
        }
        i += 1;
    }
    None
}

/// The first allocation for a scope.
pub open spec fn first_allocation(list: Seq<ResearchAssetAllocation>, scope: Seq<char>) -> Option<
    ResearchAssetAllocation,
>
    decreases list.len(),
{
    if list.len() == 0 {
        None
    } else if allocation_key(list[0].asset) == scope {
        Some(list[0])
    } else {
        first_allocation(list.drop_first(), scope)
    }
}

fn find_allocation<'a>(list: &'a Vec<ResearchAssetAllocation>, scope: &str) -> (r: Option<
    &'a ResearchAssetAllocation,
>)
    ensures
        r == (match first_allocation(list@, scope@) {
            Some(allocation) => Some(&allocation),
            None => None,
        }),
{
    let mut i: usize = 0;
    proof {
        assert(list@.skip(0) =~= list@);
    }
    while i < list.len()
        invariant
            i <= list.len(),
            first_allocation(list@, scope@) == first_allocation(list@.skip(i as int), scope@),
        decreases list.len() - i,
    {
        proof {
            assert(list@.skip(i as int)[0] == list@[i as int]);
            assert(list@.skip(i as int).drop_first() =~= list@.skip(i + 1));
        }
        let key = allocation_scope(list[i].asset);
        if same_text(&key, scope) {
            return Some(&list[i]);
        }
        i += 1;
    }
    None
}

/// The first basis for a scope.
pub open spec fn first_basis(list: Seq<NumericEstimateBasis>, scope: Seq<char>) -> Option<
    NumericEstimateBasis,
>
    decreases list.len(),
{
    if list.len() == 0 {
        None
    } else if list[0].scope@ == scope {
        Some(list[0])
    } else {
        first_basis(list.drop_first(), scope)
    }
}

fn find_basis<'a>(list: &'a Vec<NumericEstimateBasis>, scope: &str) -> (r: Option<
    &'a NumericEstimateBasis,
>)
    ensures
        r == (match first_basis(list@, scope@) {
            Some(basis) => Some(&basis),
            None => None,
        }),
{
    let mut i: usize = 0;
    proof {
        assert(list@.skip(0) =~= list@);
    }
    while i < list.len()
        invariant
            i <= list.len(),
            first_basis(list@, scope@) == first_basis(list@.skip(i as int), scope@),
        decreases list.len() - i,
    {
        proof {
            assert(list@.skip(i as int)[0] == list@[i as int]);
            assert(list@.skip(i as int).drop_first() =~= list@.skip(i + 1));
        }
        if same_text(&list[i].scope, scope) {
            return Some(&list[i]);
        }
        i += 1;
    }
    None
}

/// What a proposal says in a scope, whatever the order of its lists.
pub open spec fn scope_target_json(proposal: DecisionDraft, scope: Seq<char>) -> JsonTree {
    if first_forecast(proposal.forecasts@, scope) is Some {
        first_forecast(proposal.forecasts@, scope)->0.json()
    } else {
        match proposal.research_allocation {
            Some(plan) => if scope == "allocation.cash"@ {
                plan.cash_weight_ppm.json()
            } else {
                match first_allocation(plan.allocations@, scope) {
                    Some(allocation) => allocation.json(),
                    None => JsonTree::Null,
                }
            },
            None => JsonTree::Null,
        }
    }
}

/// The basis of a scope.
pub open spec fn scope_basis_json(proposal: DecisionDraft, scope: Seq<char>) -> JsonTree {
    match first_basis(proposal.numeric_basis@, scope) {
        Some(basis) => basis.json(),
        None => JsonTree::Null,
    }
}

pub open spec fn value_and_basis(value: JsonTree, basis: JsonTree) -> JsonTree {
    JsonTree::Object(no_members().insert("value"@, value).insert("basis"@, basis))
}

/// The value and the basis of a scope, null where there is none.
pub open spec fn scope_json(proposal: DecisionDraft, scope: Seq<char>) -> JsonTree {
    value_and_basis(scope_target_json(proposal, scope), scope_basis_json(proposal, scope))
}

fn scope_basis_value(proposal: &DecisionDraft, scope: &str) -> (r: serde_json::Value)
    ensures
        json_content(r) == scope_basis_json(*proposal, scope@),
{
    match find_basis(&proposal.numeric_basis, scope) {
        Some(basis) => basis.to_json(),
        None => json_null(),
    }
}

pub fn proposal_scope_value(proposal: &DecisionDraft, scope: &str) -> (r: serde_json::Value)
    ensures
        json_content(r) == scope_json(*proposal, scope@),
{
    let value = match find_forecast(&proposal.forecasts, scope) {
        Some(forecast) => forecast.to_json(),
        None => match &proposal.research_allocation {
            Some(plan) => if same_text(scope, "allocation.cash") {
                plan.cash_weight_ppm.to_json()
            } else {
                match find_allocation(&plan.allocations, scope) {
                    Some(allocation) => allocation.to_json(),
                    None => json_null(),
                }
            },
            None => json_null(),
        },
    };
    let mut members = json_new_object();
    json_insert(&mut members, "value", value);
    json_insert(&mut members, "basis", scope_basis_value(proposal, scope));
    json_object(members)
}

/// What the model owns of a thesis: its times are bound to the calendar.
pub open spec fn owned_thesis_json(thesis: ForecastThesis) -> JsonTree {
    JsonTree::Object(
        no_members().insert("exit_condition"@, thesis.exit_condition.json()).insert(
            "invalidation_conditions"@,
            thesis.invalidation_conditions.json(),
        ),
    )
}

/// What the model owns of a forecast.
pub open spec fn owned_forecast_json(forecast: Forecast) -> JsonTree {
    JsonTree::Object(
        no_members().insert("asset"@, forecast.asset.json()).insert(
            "horizon"@,
            forecast.horizon.json(),
        ).insert(
            "positive_return_probability_ppm"@,
            forecast.positive_return_probability_ppm.json(),
        ).insert("expected_return_ppm"@, forecast.expected_return_ppm.json()).insert(
            "thesis"@,
            match forecast.thesis {
                Some(thesis) => owned_thesis_json(thesis),
                None => JsonTree::Null,
            },
        ),
    )
}

/// What the model owns of the forecast of a scope, and its basis.
pub open spec fn owned_scope_json(proposal: DecisionDraft, scope: Seq<char>) -> JsonTree {
    value_and_basis(
        match first_forecast(proposal.forecasts@, scope) {
            Some(forecast) => owned_forecast_json(forecast),
            None => JsonTree::Null,
        },
        scope_basis_json(proposal, scope),
    )
}

fn owned_scope_value(proposal: &DecisionDraft, scope: &str) -> (r: serde_json::Value)
    ensures
        json_content(r) == owned_scope_json(*proposal, scope@),
        exact(json_content(r)),
{
    proof {
        owned_scope_is_exact(*proposal, scope@);
    }
    let value = match find_forecast(&proposal.forecasts, scope) {
        Some(forecast) => {
            let thesis = match &forecast.thesis {
                Some(thesis) => {
                    let mut parts = json_new_object();
                    json_insert(&mut parts, "exit_condition", thesis.exit_condition.to_json());
                    json_insert(
                        &mut parts,
                        "invalidation_conditions",
                        thesis.invalidation_conditions.to_json(),
                    );
                    json_object(parts)
                },
                None => json_null(),
            };
            let mut parts = json_new_object();
            json_insert(&mut parts, "asset", forecast.asset.to_json());
            json_insert(&mut parts, "horizon", forecast.horizon.to_json());
            json_insert(
                &mut parts,
                "positive_return_probability_ppm",
                forecast.positive_return_probability_ppm.to_json(),
            );
            json_insert(&mut parts, "expected_return_ppm", forecast.expected_return_ppm.to_json());
            json_insert(&mut parts, "thesis", thesis);
            json_object(parts)
        },
        None => json_null(),
    };
    let mut members = json_new_object();
    json_insert(&mut members, "value", value);
    json_insert(&mut members, "basis", scope_basis_value(proposal, scope));
    json_object(members)
}

/// Every forecast that was accepted is kept, with its basis. Weights may move: they share a
/// sum with every forecast that is mended.
pub open spec fn accepted_forecasts_are_kept(
    previous: DecisionDraft,
    next: DecisionDraft,
    review: ProposalReview,
) -> bool {
    forall|i: int|
        0 <= i < review.assessments@.len() && (#[trigger] review.assessments@[i]).accepted
            && starts_with(review.assessments@[i].scope@, "forecast."@) ==> owned_scope_json(
            previous,
            review.assessments@[i].scope@,
        ) == owned_scope_json(next, review.assessments@[i].scope@)
}

proof fn owned_forecast_is_exact(forecast: Forecast)
    ensures
        exact(owned_forecast_json(forecast)),
{
    let thesis = match forecast.thesis {
        Some(thesis) => owned_thesis_json(thesis),
        None => JsonTree::Null,
    };
    assert(exact(JsonTree::Object(no_members())));
    if forecast.thesis is Some {
        let own = forecast.thesis->0;
        let exit = no_members().insert("exit_condition"@, own.exit_condition.json());
        exact_members(no_members(), "exit_condition"@, own.exit_condition.json());
        texts_are_exact(own.invalidation_conditions);
        exact_members(exit, "invalidation_conditions"@, own.invalidation_conditions.json());
    }
    assert(exact(thesis));
    let a = no_members().insert("asset"@, forecast.asset.json());
    let b = a.insert("horizon"@, forecast.horizon.json());
    let c = b.insert(
        "positive_return_probability_ppm"@,
        forecast.positive_return_probability_ppm.json(),
    );
    let d = c.insert("expected_return_ppm"@, forecast.expected_return_ppm.json());
    exact_members(no_members(), "asset"@, forecast.asset.json());
    exact_members(a, "horizon"@, forecast.horizon.json());
    exact_members(
        b,
        "positive_return_probability_ppm"@,
        forecast.positive_return_probability_ppm.json(),
    );
    exact_members(c, "expected_return_ppm"@, forecast.expected_return_ppm.json());
    exact_members(d, "thesis"@, thesis);
}

proof fn texts_are_exact(list: Vec<String>)
    ensures
        exact(list.json()),
{
    let parts = list@.map_values(|value: String| value.json());
    assert forall|i: int| 0 <= i < parts.len() implies exact(#[trigger] parts[i]) by {
        assert(parts[i] == JsonTree::Text(list@[i]@));
    }
}

proof fn refs_are_exact(list: Vec<ArtifactRef>)
    ensures
        exact(list.json()),
{
    let parts = list@.map_values(|value: ArtifactRef| value.json());
    assert(exact(JsonTree::Object(no_members())));
    assert forall|i: int| 0 <= i < parts.len() implies exact(#[trigger] parts[i]) by {
        let own = list@[i];
        let id = no_members().insert("artifact_id"@, own.artifact_id.json());
        exact_members(no_members(), "artifact_id"@, own.artifact_id.json());
        exact_members(id, "kind"@, own.kind.json());
        assert(parts[i] == own.json());
    }
}

proof fn basis_is_exact(basis: NumericEstimateBasis)
    ensures
        exact(basis.json()),
{
    assert(exact(JsonTree::Object(no_members())));
    refs_are_exact(basis.inputs);
    let a = no_members().insert("scope"@, basis.scope.json());
    let b = a.insert("inputs"@, basis.inputs.json());
    let c = b.insert("units"@, basis.units.json());
    let d = c.insert("method"@, basis.method.json());
    let e = d.insert("assumptions"@, basis.assumptions.json());
    exact_members(no_members(), "scope"@, basis.scope.json());
    exact_members(a, "inputs"@, basis.inputs.json());
    exact_members(b, "units"@, basis.units.json());
    exact_members(c, "method"@, basis.method.json());
    exact_members(d, "assumptions"@, basis.assumptions.json());
    exact_members(e, "uncertainty"@, basis.uncertainty.json());
}

proof fn owned_scope_is_exact(proposal: DecisionDraft, scope: Seq<char>)
    ensures
        exact(owned_scope_json(proposal, scope)),
{
    let value = match first_forecast(proposal.forecasts@, scope) {
        Some(forecast) => owned_forecast_json(forecast),
        None => JsonTree::Null,
    };
    let basis = scope_basis_json(proposal, scope);
    if first_forecast(proposal.forecasts@, scope) is Some {
        owned_forecast_is_exact(first_forecast(proposal.forecasts@, scope)->0);
    }
    if first_basis(proposal.numeric_basis@, scope) is Some {
        basis_is_exact(first_basis(proposal.numeric_basis@, scope)->0);
    }
    assert(exact(JsonTree::Object(no_members())));
    exact_members(no_members(), "value"@, value);
    exact_members(no_members().insert("value"@, value), "basis"@, basis);
}

pub fn validate_proposal_revision(
    previous: &DecisionDraft,
    next: &DecisionDraft,
    review: &ProposalReview,
) -> (r: Result<(), DomainError>)
    ensures
        outcome(r) == demand(
            accepted_forecasts_are_kept(*previous, *next, *review),
            empty("proposal revision changed an accepted forecast or its numeric basis"@),
        ),
{
    let kept = |a: &ProposalAssessment| -> (b: bool)
        ensures
            b == (a.accepted && starts_with(a.scope@, "forecast."@) ==> owned_scope_json(
                *previous,
                a.scope@,
            ) == owned_scope_json(*next, a.scope@)),
        {
            !a.accepted || !has_prefix(&a.scope, "forecast.") || json_same(
                &owned_scope_value(previous, &a.scope),
                &owned_scope_value(next, &a.scope),
            )
        };
    if !all_of(review.assessments.as_slice(), kept) {
        return Err(
            empty_field("proposal revision changed an accepted forecast or its numeric basis"),
        );
    }
    Ok(())
}

/// A proposal that is not changed passes as its own revision.
pub proof fn unchanged_proposal_is_a_valid_revision(proposal: DecisionDraft, review: ProposalReview)
    ensures
        accepted_forecasts_are_kept(proposal, proposal, review),
{
}

/// The references of the first issue with an identity, each once and in order.
pub open spec fn issue_refs(issues: Seq<ProposalIssue>, scope: Seq<char>, id: Seq<char>) -> Seq<
    RefView,
>
    decreases issues.len(),
{
    if issues.len() == 0 {
        Seq::empty()
    } else if issues[0].id(scope) == id {
        listing::<ArtifactRef>(views(issues[0].evidence_refs@).to_set())
    } else {
        issue_refs(issues.drop_first(), scope, id)
    }
}

pub open spec fn issue_entry(assessment: ProposalAssessment, id: Seq<char>) -> JsonTree {
    JsonTree::List(
        seq![
            JsonTree::Text(id),
            refs_json(issue_refs(assessment.issues@, assessment.scope@, id)),
        ],
    )
}

/// What an assessment holds against a scope, without its prose, and what the scope says.
pub open spec fn fingerprint(assessment: ProposalAssessment, proposal: DecisionDraft) -> JsonTree {
    JsonTree::Object(
        no_members().insert(
            "issues"@,
            JsonTree::List(
                listing::<String>(issue_ids(assessment).to_set()).map_values(
                    |id: Seq<char>| issue_entry(assessment, id),
                ),
            ),
        ).insert(
            "refs"@,
            refs_json(listing::<ArtifactRef>(views(assessment.evidence_refs@).to_set())),
        ).insert("content"@, scope_json(proposal, assessment.scope@)),
    )
}

fn distinct_refs(list: &Vec<ArtifactRef>) -> (r: serde_json::Value)
    ensures
        json_content(r) == refs_json(listing::<ArtifactRef>(views(list@).to_set())),
{
    let refs = OrderedSet::from_vec(duplicate_keys(list)).into_vec();
    refs_to_json(&refs)
}

fn refs_of_issue(assessment: &ProposalAssessment, id: &str) -> (r: serde_json::Value)
    ensures
        json_content(r) == refs_json(issue_refs(assessment.issues@, assessment.scope@, id@)),
{
    let list = &assessment.issues;
    let mut i: usize = 0;
    proof {
        assert(list@.skip(0) =~= list@);
    }
    while i < list.len()
        invariant
            i <= list.len(),
            list == &assessment.issues,
            issue_refs(list@, assessment.scope@, id@) == issue_refs(
                list@.skip(i as int),
                assessment.scope@,
                id@,
            ),
        decreases list.len() - i,
    {
        proof {
            assert(list@.skip(i as int)[0] == list@[i as int]);
            assert(list@.skip(i as int).drop_first() =~= list@.skip(i + 1));
        }
        if same_text(&list[i].stable_id(&assessment.scope), id) {
            return distinct_refs(&list[i].evidence_refs);
        }
        i += 1;
    }
    let none: Vec<ArtifactRef> = Vec::new();
    proof {
        assert(views(none@) =~= Seq::<RefView>::empty());
    }
    refs_to_json(&none)
}

fn fingerprint_bytes(assessment: &ProposalAssessment, proposal: &DecisionDraft) -> (r: Vec<u8>)
    ensures
        r@ == json_bytes(fingerprint(*assessment, *proposal)),
{
    let ids = OrderedSet::from_vec(list_issue_ids(assessment)).into_vec();
    let ghost keys = views(ids@);
    let mut entries: Vec<serde_json::Value> = Vec::new();
    let mut i: usize = 0;
    while i < ids.len()
        invariant
            i <= ids.len(),
            keys == views(ids@),
            entries.len() == i,
            forall|j: int|
                0 <= j < i ==> json_content(#[trigger] entries@[j]) == issue_entry(
                    *assessment,
                    keys[j],
                ),
        decreases ids.len() - i,
    {
        let mut entry: Vec<serde_json::Value> = Vec::new();
        entry.push(ids[i].to_json());
        entry.push(refs_of_issue(assessment, &ids[i]));
        proof {
            assert(json_contents(entry@) =~= seq![
                JsonTree::Text(ids@[i as int]@),
                refs_json(issue_refs(assessment.issues@, assessment.scope@, ids@[i as int]@)),
            ]);
        }
        entries.push(json_list(entry));
        i += 1;
    }
    proof {
        assert(json_contents(entries@) =~= keys.map_values(
            |id: Seq<char>| issue_entry(*assessment, id),
        ));
    }
    let mut members = json_new_object();
    json_insert(&mut members, "issues", json_list(entries));
    json_insert(&mut members, "refs", distinct_refs(&assessment.evidence_refs));
    json_insert(&mut members, "content", proposal_scope_value(proposal, &assessment.scope));
    match json_to_vec(&json_object(members)) {
        Ok(bytes) => bytes,
        Err(_) => Vec::new(),
    }
}

/// A rejected assessment is among the rejected ones of another review, with the same
/// fingerprint.
pub open spec fn recurs(
    assessment: ProposalAssessment,
    proposal: DecisionDraft,
    other: ProposalReview,
    other_proposal: DecisionDraft,
) -> bool {
    exists|j: int|
        0 <= j < other.assessments@.len() && !(#[trigger] other.assessments@[j]).accepted
            && other.assessments@[j].scope@ == assessment.scope@ && json_bytes(
            fingerprint(other.assessments@[j], other_proposal),
        ) == json_bytes(fingerprint(assessment, proposal))
}

/// Every rejection of one review recurs in the other.
pub open spec fn rejections_recur(
    review: ProposalReview,
    proposal: DecisionDraft,
    other: ProposalReview,
    other_proposal: DecisionDraft,
) -> bool {
    forall|i: int|
        0 <= i < review.assessments@.len() && !(#[trigger] review.assessments@[i]).accepted
            ==> recurs(review.assessments@[i], proposal, other, other_proposal)
}

fn all_rejections_recur(
    review: &ProposalReview,
    proposal: &DecisionDraft,
    other: &ProposalReview,
    other_proposal: &DecisionDraft,
) -> (r: bool)
    ensures
        r == rejections_recur(*review, *proposal, *other, *other_proposal),
{
    let recurring = |a: &ProposalAssessment| -> (b: bool)
        ensures
            b == (!a.accepted ==> recurs(*a, *proposal, *other, *other_proposal)),
        {
            let same = |o: &ProposalAssessment| -> (c: bool)
                ensures
                    c == (!o.accepted && o.scope@ == a.scope@ && json_bytes(
                        fingerprint(*o, *other_proposal),
                    ) == json_bytes(fingerprint(*a, *proposal))),
                {
                    !o.accepted && same_text(&o.scope, &a.scope) && same_bytes(
                        &fingerprint_bytes(o, other_proposal),
                        &fingerprint_bytes(a, proposal),
                    )
                };
            a.accepted || any_of(other.assessments.as_slice(), same)
        };
    all_of(review.assessments.as_slice(), recurring)
}

fn same_bytes(a: &Vec<u8>, b: &Vec<u8>) -> (r: bool)
    ensures
        r == (a@ == b@),
{
    if a.len() != b.len() {
        return false;
    }
    let mut i: usize = 0;
    while i < a.len()
        invariant
            i <= a.len(),
            a.len() == b.len(),
            forall|j: int| 0 <= j < i ==> a@[j] == b@[j],
        decreases a.len() - i,
    {
        if a[i] != b[i] {
            return false;
        }
        i += 1;
    }
    proof {
        assert(a@ =~= b@);
    }
    true
}

/// Two valid reviews that both reject, and reject the same for the same reasons.
pub open spec fn has_stagnated(
    previous: DecisionDraft,
    previous_review: ProposalReview,
    current: DecisionDraft,
    current_review: ProposalReview,
) -> bool {
    &&& previous_review.contract_verdict(STRUCTURED_REVIEW_ISSUES_CONTRACT_VERSION) is Ok
    &&& current_review.contract_verdict(STRUCTURED_REVIEW_ISSUES_CONTRACT_VERSION) is Ok
    &&& !previous_review.accepts_all()
    &&& !current_review.accepts_all()
    &&& rejections_recur(previous_review, previous, current_review, current)
    &&& rejections_recur(current_review, current, previous_review, previous)
}

pub fn proposal_revision_stagnated(
    previous: &DecisionDraft,
    previous_review: &ProposalReview,
    current: &DecisionDraft,
    current_review: &ProposalReview,
) -> (r: bool)
    ensures
        r == has_stagnated(*previous, *previous_review, *current, *current_review),
{
    if previous_review.validate_for_contract(STRUCTURED_REVIEW_ISSUES_CONTRACT_VERSION).is_err()
        || current_review.validate_for_contract(
        STRUCTURED_REVIEW_ISSUES_CONTRACT_VERSION,
    ).is_err() || previous_review.accepted() || current_review.accepted() {
        return false;
    }
    all_rejections_recur(previous_review, previous, current_review, current)
        && all_rejections_recur(current_review, current, previous_review, previous)
}

/// Two reviews stagnate in either order.
pub proof fn stagnation_is_symmetric(
    previous: DecisionDraft,
    previous_review: ProposalReview,
    current: DecisionDraft,
    current_review: ProposalReview,
)
    ensures
        has_stagnated(previous, previous_review, current, current_review) == has_stagnated(
            current,
            current_review,
            previous,
            previous_review,
        ),
{
}

/// A scope that comes to be accepted, while nothing else is rejected for it, is progress.
pub proof fn newly_accepted_scope_is_progress(
    previous: DecisionDraft,
    previous_review: ProposalReview,
    current: DecisionDraft,
    current_review: ProposalReview,
    i: int,
    j: int,
)
    requires
        0 <= i < previous_review.assessments@.len(),
        0 <= j < current_review.assessments@.len(),
        !previous_review.assessments@[i].accepted,
        current_review.assessments@[j].accepted,
        previous_review.assessments@[i].scope@ == current_review.assessments@[j].scope@,
    ensures
        !has_stagnated(previous, previous_review, current, current_review),
{
    if has_stagnated(previous, previous_review, current, current_review) {
        let a = previous_review.assessments@[i];
        assert(recurs(a, previous, current_review, current));
        let k = choose|k: int|
            0 <= k < current_review.assessments@.len() && !(
            #[trigger] current_review.assessments@[k]).accepted
                && current_review.assessments@[k].scope@ == a.scope@;
        let scopes = assessed_scopes(current_review.assessments@);
        assert(scopes[k] == scopes[j]);
    }
}

/// What is asked for in addition.
#[derive(Clone, Copy, Debug, PartialEq, Eq, PartialOrd, Ord, Hash, Structural)]
pub enum SupplementalKind {
    News,
    Price,
    Macro,
}

impl SupplementalKind {
    /// The name of the variant in JSON.
    pub open spec fn wire(self) -> Seq<char> {
        match self {
            SupplementalKind::News => "news"@,
            SupplementalKind::Price => "price"@,
            SupplementalKind::Macro => "macro"@,
        }
    }

    /// The name of the variant in JSON.
    pub fn wire_name(self) -> (r: &'static str)
        ensures
            r@ == self.wire(),
    {
        match self {
            SupplementalKind::News => "news",
            SupplementalKind::Price => "price",
            SupplementalKind::Macro => "macro",
        }
    }
}

impl ToJson for SupplementalKind {
    open spec fn json(&self) -> JsonTree {
        JsonTree::Text(self.wire())
    }

    fn to_json(&self) -> (r: serde_json::Value) {
        json_text(self.wire_name())
    }
}

/// A request for more evidence.
#[derive(Debug, Clone, PartialEq, Eq)]
pub struct SupplementalIntent {
    pub kind: SupplementalKind,
    pub assets: Vec<Asset>,
    pub series: Vec<String>,
    pub query: String,
}

/// The macroeconomic series that can be asked for.
pub open spec fn is_macro_series(s: Seq<char>) -> bool {
    s == "DFF"@ || s == "DFII10"@ || s == "VIXCLS"@ || s == "DGS2"@ || s == "DGS10"@
}

fn names_macro_series(s: &str) -> (r: bool)
    ensures
        r == is_macro_series(s@),
{
    same_text(s, "DFF") || same_text(s, "DFII10") || same_text(s, "VIXCLS") || same_text(s, "DGS2")
        || same_text(s, "DGS10")
}

impl SupplementalIntent {
    /// A query for distinct assets; a macroeconomic request names distinct series that exist,
    /// another request names none.
    pub open spec fn is_answerable(&self) -> bool {
        &&& !blank(self.query@)
        &&& self.assets@.len() > 0
        &&& self.assets@.no_duplicates()
        &&& views(self.series@).no_duplicates()
        &&& if self.kind is Macro {
            &&& self.series@.len() > 0
            &&& forall|i: int|
                0 <= i < self.series@.len() ==> is_macro_series((#[trigger] self.series@[i])@)
        } else {
            self.series@.len() == 0
        }
    }

    pub open spec fn verdict(&self) -> Verdict {
        demand(
            self.is_answerable(),
            empty("supplemental intent: unique assets, supported kind/series and query required"@),
        )
    }

    pub fn validate(&self) -> (r: Result<(), DomainError>)
        ensures
            outcome(r) == self.verdict(),
    {
        let known = |s: &String| -> (b: bool)
            ensures
                b == is_macro_series(s@),
            { names_macro_series(s) };
        let series_fit = match self.kind {
            SupplementalKind::Macro => self.series.len() > 0 && all_of(self.series.as_slice(), known),
            _ => self.series.len() == 0,
        };
        proof {
            assert(views(self.assets@) =~= self.assets@);
        }
        if is_blank(&self.query) || self.assets.len() == 0 || !are_distinct(&self.assets)
            || !are_distinct(&self.series) || !series_fit {
            return Err(
                empty_field(
                    "supplemental intent: unique assets, supported kind/series and query required",
                ),
            );
        }
        Ok(())
    }
}

impl Checked for SupplementalIntent {
    open spec fn judged(&self) -> Verdict {
        self.verdict()
    }

    fn check(&self) -> (r: Result<(), DomainError>) {
        self.validate()
    }
}

/// What became of a request.
#[derive(Debug, Clone, PartialEq, Eq)]
pub struct SupplementalDisposition {
    pub requester: ArtifactRef,
    pub horizon: DecisionHorizon,
    pub gap_index: usize,
    pub request_index: usize,
    pub resource: Option<String>,
    pub status: String,
    pub reason: String,
    pub evidence: Vec<ArtifactRef>,
}

/// What became of a round of requests.
#[derive(Debug, Clone, PartialEq, Eq)]
pub struct SupplementalRound {
    pub dispositions: Vec<SupplementalDisposition>,
    pub affected_horizons: OrderedSet<DecisionHorizon>,
    pub evidence: Vec<ArtifactRef>,
}

impl Default for SupplementalRound {
    fn default() -> (r: Self)
        ensures
            r.dispositions@.len() == 0,
            r.affected_horizons@ == Set::<DecisionHorizon>::empty(),
            r.evidence@.len() == 0,
    {
        SupplementalRound {
            dispositions: Vec::new(),
            affected_horizons: OrderedSet::new(),
            evidence: Vec::new(),
        }
    }
}

/// A revision keeps the numbers of every forecast that was accepted.
pub proof fn revision_keeps_accepted_numbers(
    previous: DecisionDraft,
    next: DecisionDraft,
    review: ProposalReview,
    i: int,
)
    requires
        accepted_forecasts_are_kept(previous, next, review),
        0 <= i < review.assessments@.len(),
        review.assessments@[i].accepted,
        starts_with(review.assessments@[i].scope@, "forecast."@),
        first_forecast(previous.forecasts@, review.assessments@[i].scope@) is Some,
    ensures
        first_forecast(next.forecasts@, review.assessments@[i].scope@) is Some,
        ({
            let before = first_forecast(previous.forecasts@, review.assessments@[i].scope@)->0;
            let after = first_forecast(next.forecasts@, review.assessments@[i].scope@)->0;
            &&& before.positive_return_probability_ppm == after.positive_return_probability_ppm
            &&& before.expected_return_ppm == after.expected_return_ppm
        }),
{
    reveal_strlit("value");
    reveal_strlit("basis");
    reveal_strlit("positive_return_probability_ppm");
    reveal_strlit("expected_return_ppm");
    reveal_strlit("thesis");
    assert("value"@[0] == 'v' && "basis"@[0] == 'b');
    assert("positive_return_probability_ppm"@[0] == 'p' && "expected_return_ppm"@[0] == 'e'
        && "thesis"@[0] == 't');
    let scope = review.assessments@[i].scope@;
    let a = owned_scope_json(previous, scope);
    let b = owned_scope_json(next, scope);
    assert(a == b);
    assert(a->Object_0["value"@] == b->Object_0["value"@]);
    let before = first_forecast(previous.forecasts@, scope)->0;
    let m = owned_forecast_json(before);
    let n = b->Object_0["value"@];
    assert(m == n);
    assert(first_forecast(next.forecasts@, scope) is Some);
    assert(m->Object_0["expected_return_ppm"@] == n->Object_0["expected_return_ppm"@]);
    assert(m->Object_0["positive_return_probability_ppm"@]
        == n->Object_0["positive_return_probability_ppm"@]);
}

/// What a research settings is refused with: the first fault that it has.
pub proof fn refusal_of_research_settings_names_its_fault(this: ResearchSettings)
    ensures
        !(this.workflow_nodes() <= 32)
            ==> this.verdict() == Verdict::Err(
                budget("agent.research.max_proposal_revisions exceeds 32 workflow nodes"@),
            ),
{
}

/// What is refused in this respect is refused with the first fault that it has.
pub proof fn bases_verdict_names_its_fault(bases: Seq<NumericEstimateBasis>)
    ensures
        !(bases_are_complete(bases))
            ==> bases_verdict(bases) == Verdict::Err(
                empty("proposal.numeric_basis requires all 12 forecasts and 5 allocations with input refs, units, method, assumptions and uncertainty"@),
            ),
{
}

/// What a proposal review is refused with: the first fault that it has.
pub proof fn contract_verdict_of_proposal_review_names_its_fault(
    this: ProposalReview,
    version: u32,
)
    ensures
        this.verdict() is Ok && !(version < STRUCTURED_REVIEW_ISSUES_CONTRACT_VERSION
            || this.issues_are_sound())
            ==> this.contract_verdict(version) == Verdict::Err(
                empty("proposal_review structured issues require a rejected scope, matching field, unique ID and correction criterion"@),
            ),
{
}

/// What a proposal review is refused with: the first fault that it has.
pub proof fn refusal_of_proposal_review_names_its_fault(this: ProposalReview)
    ensures
        !(this.is_complete())
            ==> this.verdict() == Verdict::Err(
                empty("proposal_review complete scope and binding"@),
            ),
{
}

/// What a supplemental intent is refused with: the first fault that it has.
pub proof fn refusal_of_supplemental_intent_names_its_fault(this: SupplementalIntent)
    ensures
        !(this.is_answerable())
            ==> this.verdict() == Verdict::Err(
                empty("supplemental intent: unique assets, supported kind/series and query required"@),
            ),
{
}

} // verus!
