//! Contracts of agents: what they may read, which tools they may call, what they put out and what
//! it may cost. A contract is known by the digest of all of it.
use crate::artifact::{ArtifactId, ArtifactKind};
use crate::error::{
    budget, demand, empty, empty_field, first, invalid_budget, outcome, DomainError, ErrorView,
    Verdict,
};
use crate::foundation::{
    digest_of, is_digest, json_digest, BlobRef, ContentHash, ContractId, FailureDisposition,
    RetryPolicy, TaskBudget, TerminationPolicy, ToolGrant, ToolKind,
};
use crate::json::{
    json_content, json_insert, json_new_object, json_object, json_text, no_members, JsonTree,
    ToJson,
};
use crate::lists::{all_of, any_of, first_fault, first_fault_stays};
use crate::market_safety::{holds_blank, set_has_blank};
use crate::ordered::{are_distinct, views, Key, OrderedSet, Rank};
use crate::text::{
    any_blank, any_longer, blank, chars_of, has_blank, has_longer, is_blank, is_listed, listed,
    rank_texts, same_text, text_code, text_code_is_injective,
};
use crate::workflow::RuntimeTaskClass;
use crate::DOMAIN_SCHEMA_VERSION;
use vstd::prelude::*;

verus! {

/// What a contract is for: a text that is not blank.
#[derive(Debug, PartialEq, Eq, PartialOrd, Ord, Hash)]
pub struct ContractPurpose(String);

impl View for ContractPurpose {
    type V = Seq<char>;

    closed spec fn view(&self) -> Seq<char> {
        self.0@
    }
}

impl Clone for ContractPurpose {
    fn clone(&self) -> (r: Self)
        ensures
            r == *self,
    {
        ContractPurpose(self.0.clone())
    }
}

impl ContractPurpose {
    pub fn new(value: &str) -> (r: Result<ContractPurpose, DomainError>)
        ensures
            match r {
                Ok(purpose) => purpose@ == value@ && !blank(value@),
                Err(e) => blank(value@) && e@ == empty("contract.purpose"@),
            },
    {
        if is_blank(value) {
            return Err(empty_field("contract.purpose"));
        }
        Ok(ContractPurpose(value.to_owned()))
    }

    /// The purpose that a stored text stands for, taken as it is.
    pub fn from_stored(value: String) -> (r: ContractPurpose)
        ensures
            r@ == value@,
    {
        ContractPurpose(value)
    }

    pub fn as_str(&self) -> (r: &str)
        ensures
            r@ == self@,
    {
        self.0.as_str()
    }
}

impl ToJson for ContractPurpose {
    open spec fn json(&self) -> JsonTree {
        JsonTree::Text(self@)
    }

    fn to_json(&self) -> (r: serde_json::Value) {
        json_text(self.0.as_str())
    }
}

/// What an agent may see. Without a limit on the sources, that on the model's input holds for
/// them too.
#[derive(Debug, PartialEq, Eq)]
pub struct ContextPolicy {
    pub permitted_kinds: OrderedSet<ArtifactKind>,
    pub permitted_source_families: OrderedSet<String>,
    pub min_artifacts: u16,
    pub max_artifacts: u16,
    pub max_bytes: u64,
    pub max_source_bytes: Option<u64>,
    pub max_tokens: u32,
    pub allow_raw_reread: bool,
}

impl ToJson for ContextPolicy {
    open spec fn json(&self) -> JsonTree {
        let m = no_members();
        let m = m.insert("permitted_kinds"@, self.permitted_kinds.json());
        let m = m.insert("permitted_source_families"@, self.permitted_source_families.json());
        let m = m.insert("min_artifacts"@, self.min_artifacts.json());
        let m = m.insert("max_artifacts"@, self.max_artifacts.json());
        let m = m.insert("max_bytes"@, self.max_bytes.json());
        let m = m.insert("max_source_bytes"@, self.max_source_bytes.json());
        let m = m.insert("max_tokens"@, self.max_tokens.json());
        let m = m.insert("allow_raw_reread"@, self.allow_raw_reread.json());
        JsonTree::Object(m)
    }

    fn to_json(&self) -> (r: serde_json::Value) {
        let mut members = json_new_object();
        json_insert(&mut members, "permitted_kinds", self.permitted_kinds.to_json());
        json_insert(
            &mut members,
            "permitted_source_families",
            self.permitted_source_families.to_json(),
        );
        json_insert(&mut members, "min_artifacts", self.min_artifacts.to_json());
        json_insert(&mut members, "max_artifacts", self.max_artifacts.to_json());
        json_insert(&mut members, "max_bytes", self.max_bytes.to_json());
        json_insert(&mut members, "max_source_bytes", self.max_source_bytes.to_json());
        json_insert(&mut members, "max_tokens", self.max_tokens.to_json());
        json_insert(&mut members, "allow_raw_reread", self.allow_raw_reread.to_json());
        json_object(members)
    }
}

impl Clone for ContextPolicy {
    fn clone(&self) -> (r: Self)
        ensures
            r.is_like(*self),
    {
        ContextPolicy {
            permitted_kinds: self.permitted_kinds.clone(),
            permitted_source_families: self.permitted_source_families.clone(),
            min_artifacts: self.min_artifacts,
            max_artifacts: self.max_artifacts,
            max_bytes: self.max_bytes,
            max_source_bytes: self.max_source_bytes,
            max_tokens: self.max_tokens,
            allow_raw_reread: self.allow_raw_reread,
        }
    }
}

impl ContextPolicy {
    /// The two policies say the same.
    pub open spec fn is_like(&self, other: ContextPolicy) -> bool {
        &&& self.permitted_kinds@ == other.permitted_kinds@
        &&& self.permitted_kinds.keys() == other.permitted_kinds.keys()
        &&& self.permitted_source_families@ == other.permitted_source_families@
        &&& self.permitted_source_families.keys() == other.permitted_source_families.keys()
        &&& self.min_artifacts == other.min_artifacts
        &&& self.max_artifacts == other.max_artifacts
        &&& self.max_bytes == other.max_bytes
        &&& self.max_source_bytes == other.max_source_bytes
        &&& self.max_tokens == other.max_tokens
        &&& self.allow_raw_reread == other.allow_raw_reread
    }

    pub open spec fn is_bounded(&self) -> bool {
        &&& self.permitted_kinds@.len() > 0
        &&& self.min_artifacts <= self.max_artifacts
        &&& self.max_artifacts > 0
        &&& self.max_bytes > 0
        &&& self.max_source_bytes != Some(0u64)
        &&& self.max_tokens > 0
    }

    /// Bounded, without raw evidence, and from named sources.
    pub open spec fn verdict(&self) -> Verdict {
        first(
            demand(self.is_bounded(), budget("contract.context_policy"@)),
            first(
                demand(
                    !self.permitted_kinds@.contains(ArtifactKind::RawEvidence),
                    ErrorView::RawEvidenceDirectContext,
                ),
                demand(
                    !holds_blank(self.permitted_source_families@),
                    empty("contract.context_policy.permitted_source_families"@),
                ),
            ),
        )
    }

    pub fn validate(&self) -> (r: Result<(), DomainError>)
        ensures
            outcome(r) == self.verdict(),
    {
        let no_source = match self.max_source_bytes {
            Some(n) => n == 0,
            None => false,
        };
        if self.permitted_kinds.is_empty() || self.min_artifacts > self.max_artifacts
            || self.max_artifacts == 0 || self.max_bytes == 0 || no_source || self.max_tokens == 0 {
            return Err(invalid_budget("contract.context_policy"));
        }
        if self.permitted_kinds.contains(&ArtifactKind::RawEvidence) {
            return Err(DomainError::RawEvidenceDirectContext);
        }
        if set_has_blank(&self.permitted_source_families) {
            return Err(empty_field("contract.context_policy.permitted_source_families"));
        }
        Ok(())
    }

    /// How many bytes of sources may be read.
    pub open spec fn source_limit(&self) -> u64 {
        match self.max_source_bytes {
            Some(n) => n,
            None => self.max_bytes,
        }
    }

    pub fn source_bytes(&self) -> (r: u64)
        ensures
            r == self.source_limit(),
    {
        match self.max_source_bytes {
            Some(n) => n,
            None => self.max_bytes,
        }
    }
}

/// The most that a contract may hand on to a candidate for its place. A candidate may have less
/// and never more.
#[derive(Debug, Clone, PartialEq, Eq)]
pub struct CandidateCapabilityCeiling {
    pub context: ContextPolicy,
    pub tool_grants: Vec<ToolGrant>,
}

impl ToJson for CandidateCapabilityCeiling {
    open spec fn json(&self) -> JsonTree {
        let m = no_members();
        let m = m.insert("context"@, self.context.json());
        let m = m.insert("tool_grants"@, self.tool_grants.json());
        JsonTree::Object(m)
    }

    fn to_json(&self) -> (r: serde_json::Value) {
        let mut members = json_new_object();
        json_insert(&mut members, "context", self.context.to_json());
        json_insert(&mut members, "tool_grants", self.tool_grants.to_json());
        json_object(members)
    }
}

/// A grant lets its tool be asked for a source: one that it lists, and any where it lists none.
pub open spec fn grant_admits(grant: ToolGrant, source: Seq<char>) -> bool {
    grant.allowed_sources@.len() == 0 || listed(grant.allowed_sources@, source)
}

/// A tool is granted with every source that is asked for. What asks for any source is covered
/// only by what allows any.
pub open spec fn grant_covers(allowed: ToolGrant, requested: ToolGrant) -> bool {
    &&& allowed.kind == requested.kind
    &&& allowed.allowed_sources@.len() == 0 || (requested.allowed_sources@.len() > 0 && forall|
        i: int,
    |
        0 <= i < requested.allowed_sources@.len() ==> listed(
            allowed.allowed_sources@,
            (#[trigger] requested.allowed_sources@[i])@,
        ))
}

/// Some grant covers the one that is asked for.
pub open spec fn is_covered(allowed: Seq<ToolGrant>, requested: ToolGrant) -> bool {
    exists|i: int| 0 <= i < allowed.len() && grant_covers(#[trigger] allowed[i], requested)
}

/// Every grant that is asked for is covered.
pub open spec fn all_are_covered(allowed: Seq<ToolGrant>, requested: Seq<ToolGrant>) -> bool {
    forall|i: int| 0 <= i < requested.len() ==> is_covered(allowed, #[trigger] requested[i])
}

fn covers(allowed: &ToolGrant, requested: &ToolGrant) -> (r: bool)
    ensures
        r == grant_covers(*allowed, *requested),
{
    let known = |source: &String| -> (b: bool)
        ensures
            b == listed(allowed.allowed_sources@, source@),
        { is_listed(&allowed.allowed_sources, source) };
    allowed.kind == requested.kind && (allowed.allowed_sources.len() == 0 || (
    requested.allowed_sources.len() > 0 && all_of(requested.allowed_sources.as_slice(), known)))
}

fn has_covering(allowed: &Vec<ToolGrant>, requested: &ToolGrant) -> (r: bool)
    ensures
        r == is_covered(allowed@, *requested),
{
    let fits = |grant: &ToolGrant| -> (b: bool)
        ensures
            b == grant_covers(*grant, *requested),
        { covers(grant, requested) };
    any_of(allowed.as_slice(), fits)
}

/// The first policy with its grants asks for no more than the second with its own.
pub open spec fn is_no_wider(
    context: ContextPolicy,
    grants: Seq<ToolGrant>,
    limit: ContextPolicy,
    limit_grants: Seq<ToolGrant>,
) -> bool {
    &&& context.permitted_kinds@.subset_of(limit.permitted_kinds@)
    &&& context.permitted_source_families@.subset_of(limit.permitted_source_families@)
    &&& context.min_artifacts >= limit.min_artifacts
    &&& context.max_artifacts <= limit.max_artifacts
    &&& context.max_bytes <= limit.max_bytes
    &&& context.source_limit() <= limit.source_limit()
    &&& context.max_tokens <= limit.max_tokens
    &&& context.allow_raw_reread ==> limit.allow_raw_reread
    &&& all_are_covered(limit_grants, grants)
}

/// A grant reads evidence, from sources that the policy permits, and raw evidence only where
/// that may be read again.
pub open spec fn grant_is_allowed(grant: ToolGrant, context: ContextPolicy) -> bool {
    &&& grant.kind is ReadEvidence || grant.kind is ReadRawEvidence
    &&& grant.allowed_sources@.len() > 0
    &&& forall|i: int|
        0 <= i < grant.allowed_sources@.len() ==> !blank((#[trigger] grant.allowed_sources@[i])@)
            && context.permitted_source_families@.contains(grant.allowed_sources@[i]@)
    &&& grant.kind is ReadRawEvidence ==> context.allow_raw_reread
}

pub open spec fn grants_verdict(grants: Seq<ToolGrant>, context: ContextPolicy) -> Verdict {
    demand(
        forall|i: int| 0 <= i < grants.len() ==> grant_is_allowed(#[trigger] grants[i], context),
        empty("contract.tool_grants"@),
    )
}

fn is_allowed(grant: &ToolGrant, context: &ContextPolicy) -> (r: bool)
    ensures
        r == grant_is_allowed(*grant, *context),
{
    let known = |source: &String| -> (b: bool)
        ensures
            b == (!blank(source@) && context.permitted_source_families@.contains(source@)),
        { !is_blank(source) && context.permitted_source_families.contains(source) };
    (grant.kind == ToolKind::ReadEvidence || grant.kind == ToolKind::ReadRawEvidence)
        && grant.allowed_sources.len() > 0 && all_of(grant.allowed_sources.as_slice(), known) && (
    grant.kind != ToolKind::ReadRawEvidence || context.allow_raw_reread)
}

fn validate_tool_grants(grants: &Vec<ToolGrant>, context: &ContextPolicy) -> (r: Result<
    (),
    DomainError,
>)
    ensures
        outcome(r) == grants_verdict(grants@, *context),
{
    let allowed = |grant: &ToolGrant| -> (b: bool)
        ensures
            b == grant_is_allowed(*grant, *context),
        { is_allowed(grant, context) };
    if !all_of(grants.as_slice(), allowed) {
        return Err(empty_field("contract.tool_grants"));
    }
    Ok(())
}

impl CandidateCapabilityCeiling {
    pub open spec fn verdict(&self) -> Verdict {
        first(self.context.verdict(), grants_verdict(self.tool_grants@, self.context))
    }

    pub fn validate(&self) -> (r: Result<(), DomainError>)
        ensures
            outcome(r) == self.verdict(),
    {
        self.context.validate()?;
        validate_tool_grants(&self.tool_grants, &self.context)
    }

    pub(crate) fn permits(&self, context: &ContextPolicy, tool_grants: &Vec<ToolGrant>) -> (r: bool)
        ensures
            r == is_no_wider(*context, tool_grants@, self.context, self.tool_grants@),
    {
        let fits = |grant: &ToolGrant| -> (b: bool)
            ensures
                b == is_covered(self.tool_grants@, *grant),
            { has_covering(&self.tool_grants, grant) };
        context.permitted_kinds.is_subset(&self.context.permitted_kinds)
            && context.permitted_source_families.is_subset(&self.context.permitted_source_families)
            && context.min_artifacts >= self.context.min_artifacts && context.max_artifacts
            <= self.context.max_artifacts && context.max_bytes <= self.context.max_bytes
            && context.source_bytes() <= self.context.source_bytes() && context.max_tokens
            <= self.context.max_tokens && (!context.allow_raw_reread
            || self.context.allow_raw_reread) && all_of(tool_grants.as_slice(), fits)
    }
}

/// What asks for no more than something that itself asks for no more than a limit stays within
/// that limit.
pub proof fn narrowing_is_transitive(
    a: CandidateCapabilityCeiling,
    b: CandidateCapabilityCeiling,
    c: CandidateCapabilityCeiling,
)
    requires
        is_no_wider(a.context, a.tool_grants@, b.context, b.tool_grants@),
        is_no_wider(b.context, b.tool_grants@, c.context, c.tool_grants@),
    ensures
        is_no_wider(a.context, a.tool_grants@, c.context, c.tool_grants@),
{
    assert forall|i: int| 0 <= i < a.tool_grants@.len() implies is_covered(
        c.tool_grants@,
        #[trigger] a.tool_grants@[i],
    ) by {
        let wanted = a.tool_grants@[i];
        let j = choose|j: int|
            0 <= j < b.tool_grants@.len() && grant_covers(#[trigger] b.tool_grants@[j], wanted);
        let middle = b.tool_grants@[j];
        let k = choose|k: int|
            0 <= k < c.tool_grants@.len() && grant_covers(#[trigger] c.tool_grants@[k], middle);
        assert(grant_covers(c.tool_grants@[k], wanted)) by {
            if c.tool_grants@[k].allowed_sources@.len() > 0 {
                assert(middle.allowed_sources@.len() > 0);
                assert(wanted.allowed_sources@.len() > 0);
            }
            assert forall|s: int| c.tool_grants@[k].allowed_sources@.len() > 0 && 0 <= s < wanted.allowed_sources@.len() implies listed(
                c.tool_grants@[k].allowed_sources@,
                (#[trigger] wanted.allowed_sources@[s])@,
            ) by {
                let source = wanted.allowed_sources@[s]@;
                assert(listed(middle.allowed_sources@, source));
                let m = choose|m: int|
                    0 <= m < middle.allowed_sources@.len() && (
                    #[trigger] middle.allowed_sources@[m])@ == source;
                assert(listed(c.tool_grants@[k].allowed_sources@, middle.allowed_sources@[m]@));
            }
        }
    }
}

/// What is valid on its own is within itself as a limit.
pub proof fn ceiling_is_within_itself(a: CandidateCapabilityCeiling)
    ensures
        is_no_wider(a.context, a.tool_grants@, a.context, a.tool_grants@),
{
    assert forall|i: int| 0 <= i < a.tool_grants@.len() implies is_covered(
        a.tool_grants@,
        #[trigger] a.tool_grants@[i],
    ) by {
        let own = a.tool_grants@[i];
        assert forall|s: int| 0 <= s < own.allowed_sources@.len() implies listed(
            own.allowed_sources@,
            (#[trigger] own.allowed_sources@[s])@,
        ) by {}
        assert(grant_covers(a.tool_grants@[i], own));
    }
}

/// What an agent puts out.
#[derive(Debug, Clone, PartialEq, Eq)]
pub struct OutputContract {
    pub artifact_kind: ArtifactKind,
    pub schema: BlobRef,
}

impl ToJson for OutputContract {
    open spec fn json(&self) -> JsonTree {
        let m = no_members();
        let m = m.insert("artifact_kind"@, self.artifact_kind.json());
        let m = m.insert("schema"@, self.schema.json());
        JsonTree::Object(m)
    }

    fn to_json(&self) -> (r: serde_json::Value) {
        let mut members = json_new_object();
        json_insert(&mut members, "artifact_kind", self.artifact_kind.to_json());
        json_insert(&mut members, "schema", self.schema.to_json());
        json_object(members)
    }
}

impl OutputContract {
    fn validate(&self) -> (r: Result<(), DomainError>)
        ensures
            outcome(r) == self.schema.verdict(),
    {
        self.schema.validate()
    }
}

/// The instructions of a model: those that all share, and those of its role.
#[derive(Debug, Clone, PartialEq, Eq)]
pub struct PromptBundle {
    pub version: u32,
    pub governance: BlobRef,
    pub role: BlobRef,
}

impl ToJson for PromptBundle {
    open spec fn json(&self) -> JsonTree {
        let m = no_members();
        let m = m.insert("version"@, self.version.json());
        let m = m.insert("governance"@, self.governance.json());
        let m = m.insert("role"@, self.role.json());
        JsonTree::Object(m)
    }

    fn to_json(&self) -> (r: serde_json::Value) {
        let mut members = json_new_object();
        json_insert(&mut members, "version", self.version.to_json());
        json_insert(&mut members, "governance", self.governance.to_json());
        json_insert(&mut members, "role", self.role.to_json());
        json_object(members)
    }
}

impl PromptBundle {
    pub open spec fn verdict(&self) -> Verdict {
        first(
            demand(self.version > 0, empty("contract.prompt.version"@)),
            first(self.governance.verdict(), self.role.verdict()),
        )
    }

    fn validate(&self) -> (r: Result<(), DomainError>)
        ensures
            outcome(r) == self.verdict(),
    {
        if self.version == 0 {
            return Err(empty_field("contract.prompt.version"));
        }
        self.governance.validate()?;
        self.role.validate()
    }
}

/// Whether an agent says how it came to its result.
#[derive(Clone, Copy, Debug, PartialEq, Eq, PartialOrd, Ord, Hash, Structural)]
pub enum DeliberationPolicy {
    Disabled,
    Required,
}

impl DeliberationPolicy {
    /// The name of the variant in JSON.
    pub open spec fn wire(self) -> Seq<char> {
        match self {
            DeliberationPolicy::Disabled => "disabled"@,
            DeliberationPolicy::Required => "required"@,
        }
    }

    /// The name of the variant in JSON.
    pub fn wire_name(self) -> (r: &'static str)
        ensures
            r@ == self.wire(),
    {
        match self {
            DeliberationPolicy::Disabled => "disabled",
            DeliberationPolicy::Required => "required",
        }
    }
}

impl ToJson for DeliberationPolicy {
    open spec fn json(&self) -> JsonTree {
        JsonTree::Text(self.wire())
    }

    fn to_json(&self) -> (r: serde_json::Value) {
        json_text(self.wire_name())
    }
}

impl Default for DeliberationPolicy {
    fn default() -> (r: Self)
        ensures
            r is Disabled,
    {
        DeliberationPolicy::Disabled
    }
}

/// How an agent came to its result.
#[derive(Debug, Clone, PartialEq, Eq)]
pub struct DeliberationSummary {
    pub selected_path: String,
    pub alternatives: Vec<String>,
    pub alternative_match_ppm: Vec<u32>,
    pub uncertainties: Vec<String>,
    pub uncertainty_weight_ppm: Vec<u32>,
    pub assessment_source: Option<String>,
    pub basis_artifact_ids: Vec<ArtifactId>,
    pub confidence_ppm: u32,
}

/// No share is more than the whole.
pub open spec fn shares_are_bounded(shares: Seq<u32>) -> bool {
    forall|i: int| 0 <= i < shares.len() ==> #[trigger] shares[i] <= 1_000_000
}

/// The sum of the shares.
pub open spec fn total(shares: Seq<u32>) -> int
    decreases shares.len(),
{
    if shares.len() == 0 {
        0
    } else {
        total(shares.drop_last()) + shares.last()
    }
}

proof fn total_grows(shares: Seq<u32>, n: int)
    requires
        0 <= n <= shares.len(),
    ensures
        0 <= total(shares.take(n)) <= total(shares),
    decreases shares.len(),
{
    if n < shares.len() {
        assert(shares.drop_last().take(n) =~= shares.take(n));
        total_grows(shares.drop_last(), n);
    } else {
        assert(shares.take(n) =~= shares);
        if n > 0 {
            total_grows(shares.drop_last(), n - 1);
        }
    }
}

fn sums_to(shares: &Vec<u32>, wanted: u32) -> (r: bool)
    ensures
        r == (total(shares@) == wanted),
{
    let mut sum: u32 = 0;
    let mut i: usize = 0;
    while i < shares.len()
        invariant
            i <= shares.len(),
            sum == total(shares@.take(i as int)),
        decreases shares.len() - i,
    {
        proof {
            assert(shares@.take(i + 1).drop_last() =~= shares@.take(i as int));
            total_grows(shares@, i + 1);
        }
        match sum.checked_add(shares[i]) {
            Some(more) => {
                sum = more;
            },
            None => {
                return false;
            },
        }
        i += 1;
    }
    proof {
        assert(shares@.take(shares@.len() as int) =~= shares@);
    }
    sum == wanted
}

fn has_bounded_shares(shares: &Vec<u32>) -> (r: bool)
    ensures
        r == shares_are_bounded(shares@),
{
    let bounded = |share: &u32| -> (b: bool)
        ensures
            b == (*share <= 1_000_000),
        { *share <= 1_000_000 };
    all_of(shares.as_slice(), bounded)
}

impl DeliberationSummary {
    /// At most three items, with as many shares, where shares are given.
    pub open spec fn shares_match(items: Seq<String>, shares: Seq<u32>) -> bool {
        shares.len() > 0 ==> items.len() <= 3 && shares.len() == items.len()
    }

    pub open spec fn items_are_sound(items: Seq<String>) -> bool {
        !any_blank(items) && !any_longer(items, 500)
    }

    pub open spec fn is_bounded(&self) -> bool {
        &&& !blank(self.selected_path@)
        &&& self.selected_path@.len() <= 1_000
        &&& Self::shares_match(self.alternatives@, self.alternative_match_ppm@)
        &&& Self::shares_match(self.uncertainties@, self.uncertainty_weight_ppm@)
        &&& self.basis_artifact_ids@.len() <= 8
        &&& self.confidence_ppm <= 1_000_000
        &&& shares_are_bounded(self.alternative_match_ppm@)
        &&& shares_are_bounded(self.uncertainty_weight_ppm@)
        &&& self.assessment_source matches Some(source) ==> source@ == "model_assessed"@
        &&& Self::items_are_sound(self.alternatives@)
        &&& Self::items_are_sound(self.uncertainties@)
    }

    /// The uncertainties make up what the confidence leaves.
    pub open spec fn uncertainty_is_whole(&self) -> bool {
        total(self.uncertainty_weight_ppm@) == 1_000_000 - self.confidence_ppm
    }

    pub open spec fn verdict(&self) -> Verdict {
        first(
            demand(self.is_bounded(), budget("deliberation.summary"@)),
            first(
                demand(
                    self.uncertainty_weight_ppm@.len() > 0 ==> self.uncertainty_is_whole(),
                    budget("deliberation.uncertainty_weight_ppm"@),
                ),
                demand(
                    views(self.basis_artifact_ids@).no_duplicates(),
                    empty("deliberation.basis_artifact_ids"@),
                ),
            ),
        )
    }

    fn is_within_bounds(&self) -> (r: bool)
        ensures
            r == self.is_bounded(),
    {
        let known_source = match &self.assessment_source {
            Some(source) => same_text(source, "model_assessed"),
            None => true,
        };
        let matched = (self.alternative_match_ppm.len() == 0 || (self.alternatives.len() <= 3
            && self.alternative_match_ppm.len() == self.alternatives.len())) && (
        self.uncertainty_weight_ppm.len() == 0 || (self.uncertainties.len() <= 3
            && self.uncertainty_weight_ppm.len() == self.uncertainties.len()));
        !is_blank(&self.selected_path) && self.selected_path.as_str().unicode_len() <= 1_000
            && matched && self.basis_artifact_ids.len() <= 8 && self.confidence_ppm <= 1_000_000
            && has_bounded_shares(&self.alternative_match_ppm) && has_bounded_shares(
            &self.uncertainty_weight_ppm,
        ) && known_source && !has_blank(&self.alternatives) && !has_longer(&self.alternatives, 500)
            && !has_blank(&self.uncertainties) && !has_longer(&self.uncertainties, 500)
    }

    pub fn validate(&self) -> (r: Result<(), DomainError>)
        ensures
            outcome(r) == self.verdict(),
    {
        if !self.is_within_bounds() {
            return Err(invalid_budget("deliberation.summary"));
        }
        if self.uncertainty_weight_ppm.len() > 0 && !sums_to(
            &self.uncertainty_weight_ppm,
            1_000_000 - self.confidence_ppm,
        ) {
            return Err(invalid_budget("deliberation.uncertainty_weight_ppm"));
        }
        if !are_distinct(&self.basis_artifact_ids) {
            return Err(empty_field("deliberation.basis_artifact_ids"));
        }
        Ok(())
    }

    /// Said to be the model's own, with a share for each item.
    pub open spec fn is_model_assessed(&self) -> bool {
        &&& self.assessment_source matches Some(source) && source@ == "model_assessed"@
        &&& self.alternatives@.len() <= 3
        &&& self.alternative_match_ppm@.len() == self.alternatives@.len()
        &&& self.uncertainties@.len() <= 3
        &&& self.uncertainty_weight_ppm@.len() == self.uncertainties@.len()
    }

    pub open spec fn assessment_verdict(&self) -> Verdict {
        first(
            self.verdict(),
            first(
                demand(self.is_model_assessed(), budget("deliberation.summary"@)),
                demand(
                    self.uncertainty_is_whole(),
                    budget("deliberation.uncertainty_weight_ppm"@),
                ),
            ),
        )
    }

    pub fn validate_model_assessment(&self) -> (r: Result<(), DomainError>)
        ensures
            outcome(r) == self.assessment_verdict(),
    {
        self.validate()?;
        let own = match &self.assessment_source {
            Some(source) => same_text(source, "model_assessed"),
            None => false,
        };
        if !own || self.alternatives.len() > 3 || self.alternative_match_ppm.len()
            != self.alternatives.len() || self.uncertainties.len() > 3
            || self.uncertainty_weight_ppm.len() != self.uncertainties.len() {
            return Err(invalid_budget("deliberation.summary"));
        }
        if !sums_to(&self.uncertainty_weight_ppm, 1_000_000 - self.confidence_ppm) {
            return Err(invalid_budget("deliberation.uncertainty_weight_ppm"));
        }
        Ok(())
    }
}

/// A model that names no uncertainty is certain.
pub proof fn assessment_without_uncertainty_is_certain(summary: DeliberationSummary)
    requires
        summary.assessment_verdict() is Ok,
        summary.uncertainties@.len() == 0,
    ensures
        summary.confidence_ppm == 1_000_000,
{
}

/// What an agent hands in: its result, and how it came to it.
#[derive(Debug, Clone, PartialEq)]
pub struct AgentOutputEnvelope {
    pub result: serde_json::Value,
    pub deliberation: DeliberationSummary,
}

/// A function that a model may call, bound to a kind of tool.
#[derive(Debug, Clone, PartialEq, Eq)]
pub struct ToolSpec {
    pub name: String,
    pub description: String,
    pub kind: ToolKind,
    pub input_schema: BlobRef,
    pub strict: bool,
}

impl ToJson for ToolSpec {
    open spec fn json(&self) -> JsonTree {
        let m = no_members();
        let m = m.insert("name"@, self.name.json());
        let m = m.insert("description"@, self.description.json());
        let m = m.insert("kind"@, self.kind.json());
        let m = m.insert("input_schema"@, self.input_schema.json());
        let m = m.insert("strict"@, self.strict.json());
        JsonTree::Object(m)
    }

    fn to_json(&self) -> (r: serde_json::Value) {
        let mut members = json_new_object();
        json_insert(&mut members, "name", self.name.to_json());
        json_insert(&mut members, "description", self.description.to_json());
        json_insert(&mut members, "kind", self.kind.to_json());
        json_insert(&mut members, "input_schema", self.input_schema.to_json());
        json_insert(&mut members, "strict", self.strict.to_json());
        json_object(members)
    }
}

pub open spec fn is_name_char(c: char, first_place: bool) -> bool {
    ||| 'a' <= c <= 'z'
    ||| '0' <= c <= '9'
    ||| c == '_' && !first_place
}

/// Lower-case letters and digits, and underscores after the first place.
pub open spec fn is_tool_name(name: Seq<char>) -> bool {
    &&& name.len() > 0
    &&& forall|i: int| 0 <= i < name.len() ==> is_name_char(#[trigger] name[i], i == 0)
}

fn has_tool_name(name: &str) -> (r: bool)
    ensures
        r == is_tool_name(name@),
{
    let chars = chars_of(name);
    let mut i: usize = 0;
    while i < chars.len()
        invariant
            i <= chars.len(),
            chars@ == name@,
            forall|j: int| 0 <= j < i ==> is_name_char(#[trigger] name@[j], j == 0),
        decreases chars.len() - i,
    {
        let c = chars[i];
        if !(('a' <= c && c <= 'z') || ('0' <= c && c <= '9') || (c == '_' && i > 0)) {
            proof {
                assert(!is_name_char(name@[i as int], i == 0));
            }
            return false;
        }
        i += 1;
    }
    chars.len() > 0
}

impl ToolSpec {
    pub open spec fn verdict(&self) -> Verdict {
        first(
            demand(
                is_tool_name(self.name@) && !blank(self.description@) && self.strict,
                empty("contract.tool_specs"@),
            ),
            self.input_schema.verdict(),
        )
    }

    fn validate(&self) -> (r: Result<(), DomainError>)
        ensures
            outcome(r) == self.verdict(),
    {
        if !has_tool_name(&self.name) || is_blank(&self.description) || !self.strict {
            return Err(empty_field("contract.tool_specs"));
        }
        self.input_schema.validate()
    }
}

/// No earlier tool has the name of this one.
pub open spec fn tool_name_is_new(specs: Seq<ToolSpec>, i: int) -> bool {
    forall|j: int| 0 <= j < i ==> (#[trigger] specs[j]).name@ != specs[i].name@
}

/// A tool of this kind is granted.
pub open spec fn kind_is_granted(grants: Seq<ToolGrant>, kind: ToolKind) -> bool {
    exists|i: int| 0 <= i < grants.len() && (#[trigger] grants[i]).kind == kind
}

/// A function of this kind is declared.
pub open spec fn kind_is_declared(specs: Seq<ToolSpec>, kind: ToolKind) -> bool {
    exists|i: int| 0 <= i < specs.len() && (#[trigger] specs[i]).kind == kind
}

/// The check of one declared function.
pub open spec fn tool_checks(specs: Seq<ToolSpec>, grants: Seq<ToolGrant>) -> spec_fn(
    int,
) -> Verdict {
    |i: int|
        first(
            specs[i].verdict(),
            demand(
                tool_name_is_new(specs, i) && kind_is_granted(grants, specs[i].kind),
                empty("contract.tool_specs"@),
            ),
        )
}

/// Each function is valid, has a name of its own and is granted; each grant has a function.
pub open spec fn specs_verdict(specs: Seq<ToolSpec>, grants: Seq<ToolGrant>) -> Verdict {
    first(
        first_fault(specs.len(), tool_checks(specs, grants)),
        demand(
            forall|i: int|
                0 <= i < grants.len() ==> kind_is_declared(specs, (#[trigger] grants[i]).kind),
            empty("contract.tool_specs"@),
        ),
    )
}

fn has_new_tool_name(specs: &Vec<ToolSpec>, i: usize) -> (r: bool)
    requires
        i < specs@.len(),
    ensures
        r == tool_name_is_new(specs@, i as int),
{
    let mut j: usize = 0;
    while j < i
        invariant
            j <= i < specs.len(),
            forall|k: int| 0 <= k < j ==> (#[trigger] specs@[k]).name@ != specs@[i as int].name@,
        decreases i - j,
    {
        if same_text(&specs[j].name, &specs[i].name) {
            return false;
        }
        j += 1;
    }
    true
}

fn is_granted(grants: &Vec<ToolGrant>, kind: ToolKind) -> (r: bool)
    ensures
        r == kind_is_granted(grants@, kind),
{
    let fits = |grant: &ToolGrant| -> (b: bool)
        ensures
            b == (grant.kind == kind),
        { grant.kind == kind };
    any_of(grants.as_slice(), fits)
}

fn is_declared(specs: &Vec<ToolSpec>, kind: ToolKind) -> (r: bool)
    ensures
        r == kind_is_declared(specs@, kind),
{
    let fits = |tool: &ToolSpec| -> (b: bool)
        ensures
            b == (tool.kind == kind),
        { tool.kind == kind };
    any_of(specs.as_slice(), fits)
}

fn validate_tool_specs(specs: &Vec<ToolSpec>, grants: &Vec<ToolGrant>) -> (r: Result<
    (),
    DomainError,
>)
    ensures
        outcome(r) == specs_verdict(specs@, grants@),
{
    let ghost checks = tool_checks(specs@, grants@);
    let mut n: usize = 0;
    while n < specs.len()
        invariant
            n <= specs.len(),
            checks == tool_checks(specs@, grants@),
            first_fault(n as nat, checks) == Verdict::Ok(()),
        decreases specs.len() - n,
    {
        proof {
            assert(first_fault((n + 1) as nat, checks) == checks(n as int));
            if checks(n as int) is Err {
                first_fault_stays((n + 1) as nat, specs@.len(), checks);
            }
        }
        specs[n].validate()?;
        if !has_new_tool_name(specs, n) || !is_granted(grants, specs[n].kind) {
            return Err(empty_field("contract.tool_specs"));
        }
        n += 1;
    }
    let declared = |grant: &ToolGrant| -> (b: bool)
        ensures
            b == kind_is_declared(specs@, grant.kind),
        { is_declared(specs, grant.kind) };
    if !all_of(grants.as_slice(), declared) {
        return Err(empty_field("contract.tool_specs"));
    }
    Ok(())
}

/// The one definition of an agent, from its prompt to its budget.
#[derive(Debug, Clone, PartialEq, Eq)]
pub struct AgentContract {
    pub schema_version: u32,
    pub contract_id: ContractId,
    pub version: u32,
    pub purpose: ContractPurpose,
    pub responsibility: String,
    pub prompt: PromptBundle,
    pub context: ContextPolicy,
    pub tool_grants: Vec<ToolGrant>,
    pub tool_specs: Vec<ToolSpec>,
    pub candidate_capability_ceiling: CandidateCapabilityCeiling,
    pub output: OutputContract,
    pub deliberation_policy: DeliberationPolicy,
    pub budget: TaskBudget,
    pub retry: RetryPolicy,
    pub termination: TerminationPolicy,
    pub on_failure: FailureDisposition,
    pub contract_hash: ContentHash,
}

impl AgentContract {
    /// What the identity is the digest of.
    pub open spec fn identity_json(&self) -> JsonTree {
        let m = no_members();
        let m = m.insert("schema_version"@, self.schema_version.json());
        let m = m.insert("contract_id"@, self.contract_id.json());
        let m = m.insert("version"@, self.version.json());
        let m = m.insert("purpose"@, self.purpose.json());
        let m = m.insert("responsibility"@, self.responsibility.json());
        let m = m.insert("prompt"@, self.prompt.json());
        let m = m.insert("context"@, self.context.json());
        let m = m.insert("tool_grants"@, self.tool_grants.json());
        let m = m.insert("tool_specs"@, self.tool_specs.json());
        let m = m.insert("candidate_capability_ceiling"@, self.candidate_capability_ceiling.json());
        let m = m.insert("output"@, self.output.json());
        let m = m.insert("deliberation_policy"@, self.deliberation_policy.json());
        let m = m.insert("budget"@, self.budget.json());
        let m = m.insert("retry"@, self.retry.json());
        let m = m.insert("termination"@, self.termination.json());
        let m = m.insert("on_failure"@, self.on_failure.json());
        JsonTree::Object(m)
    }

    pub open spec fn identity(&self) -> Seq<char> {
        json_digest(self.identity_json())
    }

    fn identity_value(&self) -> (r: serde_json::Value)
        ensures
            json_content(r) == self.identity_json(),
    {
        let mut members = json_new_object();
        json_insert(&mut members, "schema_version", self.schema_version.to_json());
        json_insert(&mut members, "contract_id", self.contract_id.to_json());
        json_insert(&mut members, "version", self.version.to_json());
        json_insert(&mut members, "purpose", self.purpose.to_json());
        json_insert(&mut members, "responsibility", self.responsibility.to_json());
        json_insert(&mut members, "prompt", self.prompt.to_json());
        json_insert(&mut members, "context", self.context.to_json());
        json_insert(&mut members, "tool_grants", self.tool_grants.to_json());
        json_insert(&mut members, "tool_specs", self.tool_specs.to_json());
        json_insert(
            &mut members,
            "candidate_capability_ceiling",
            self.candidate_capability_ceiling.to_json(),
        );
        json_insert(&mut members, "output", self.output.to_json());
        json_insert(&mut members, "deliberation_policy", self.deliberation_policy.to_json());
        json_insert(&mut members, "budget", self.budget.to_json());
        json_insert(&mut members, "retry", self.retry.to_json());
        json_insert(&mut members, "termination", self.termination.to_json());
        json_insert(&mut members, "on_failure", self.on_failure.to_json());
        json_object(members)
    }
}

/// The kinds of artifacts that an agent may put out.
pub open spec fn is_agent_output(kind: ArtifactKind) -> bool {
    ||| kind is EvidenceNeed
    ||| kind is WorkflowProposalDraft
    ||| kind is WorkflowProposal
    ||| kind is Claim
    ||| kind is Critique
    ||| kind is Resolution
    ||| kind is DecisionProposal
    ||| kind is ProposalReview
    ||| kind is RetrospectiveDraft
}

/// The two lists grant the same.
pub open spec fn grants_are_alike(a: Seq<ToolGrant>, b: Seq<ToolGrant>) -> bool {
    &&& a.len() == b.len()
    &&& forall|i: int|
        0 <= i < a.len() ==> (#[trigger] a[i]).kind == b[i].kind && texts_are_alike(
            a[i].allowed_sources@,
            b[i].allowed_sources@,
        )
}

/// The two lists hold the same texts.
pub open spec fn texts_are_alike(a: Seq<String>, b: Seq<String>) -> bool {
    &&& a.len() == b.len()
    &&& forall|i: int| 0 <= i < a.len() ==> (#[trigger] a[i])@ == b[i]@
}

fn copy_texts(from: &Vec<String>) -> (r: Vec<String>)
    ensures
        texts_are_alike(r@, from@),
{
    let mut r: Vec<String> = Vec::new();
    let mut i: usize = 0;
    while i < from.len()
        invariant
            i <= from.len(),
            r.len() == i,
            forall|j: int| 0 <= j < i ==> (#[trigger] r@[j])@ == from@[j]@,
        decreases from.len() - i,
    {
        r.push(from[i].clone());
        i += 1;
    }
    r
}

fn copy_grants(from: &Vec<ToolGrant>) -> (r: Vec<ToolGrant>)
    ensures
        grants_are_alike(r@, from@),
{
    let mut r: Vec<ToolGrant> = Vec::new();
    let mut i: usize = 0;
    while i < from.len()
        invariant
            i <= from.len(),
            r.len() == i,
            forall|j: int|
                0 <= j < i ==> (#[trigger] r@[j]).kind == from@[j].kind && texts_are_alike(
                    r@[j].allowed_sources@,
                    from@[j].allowed_sources@,
                ),
        decreases from.len() - i,
    {
        r.push(
            ToolGrant {
                kind: from[i].kind,
                allowed_sources: copy_texts(&from[i].allowed_sources),
            },
        );
        i += 1;
    }
    r
}

impl AgentContract {
    /// A contract of the given parts, under its own digest, which hands on all that it has.
    pub open spec fn is_made_of(
        &self,
        contract_id: ContractId,
        version: u32,
        purpose: ContractPurpose,
        responsibility: Seq<char>,
        prompt: PromptBundle,
        context: ContextPolicy,
        tool_grants: Vec<ToolGrant>,
        tool_specs: Vec<ToolSpec>,
        output: OutputContract,
        budget: TaskBudget,
        retry: RetryPolicy,
        termination: TerminationPolicy,
        on_failure: FailureDisposition,
    ) -> bool {
        &&& self.schema_version == DOMAIN_SCHEMA_VERSION
        &&& self.contract_id == contract_id
        &&& self.version == version
        &&& self.purpose == purpose
        &&& self.responsibility@ == responsibility
        &&& self.prompt == prompt
        &&& self.context == context
        &&& self.tool_grants == tool_grants
        &&& self.tool_specs == tool_specs
        &&& self.candidate_capability_ceiling.context.is_like(context)
        &&& grants_are_alike(self.candidate_capability_ceiling.tool_grants@, tool_grants@)
        &&& self.output == output
        &&& self.deliberation_policy is Disabled
        &&& self.budget == budget
        &&& self.retry == retry
        &&& self.termination == termination
        &&& self.on_failure == on_failure
        &&& self.contract_hash@ == self.identity()
    }

    pub fn new(
        contract_id: ContractId,
        version: u32,
        purpose: ContractPurpose,
        responsibility: &str,
        prompt: PromptBundle,
        context: ContextPolicy,
        tool_grants: Vec<ToolGrant>,
        tool_specs: Vec<ToolSpec>,
        output: OutputContract,
        budget: TaskBudget,
        retry: RetryPolicy,
        termination: TerminationPolicy,
        on_failure: FailureDisposition,
    ) -> (r: Result<AgentContract, DomainError>)
        ensures
            exists|c: AgentContract| #[trigger]
                c.is_made_of(
                    contract_id,
                    version,
                    purpose,
                    responsibility@,
                    prompt,
                    context,
                    tool_grants,
                    tool_specs,
                    output,
                    budget,
                    retry,
                    termination,
                    on_failure,
                ) && (match r {
                    Ok(made) => made == c && c.verdict() is Ok,
                    Err(e) => c.verdict() == Verdict::Err(e@),
                }),
    {
        let ceiling = CandidateCapabilityCeiling {
            context: context.clone(),
            tool_grants: copy_grants(&tool_grants),
        };
        let mut contract = AgentContract {
            schema_version: DOMAIN_SCHEMA_VERSION,
            contract_id,
            version,
            purpose,
            responsibility: responsibility.to_owned(),
            prompt,
            context,
            tool_grants,
            tool_specs,
            candidate_capability_ceiling: ceiling,
            output,
            deliberation_policy: DeliberationPolicy::Disabled,
            budget,
            retry,
            termination,
            on_failure,
            contract_hash: ContentHash::of_bytes("uninitialized contract".as_bytes()),
        };
        let id = contract.expected_hash()?;
        contract.contract_hash = id;
        proof {
            assert(contract.is_made_of(
                contract_id,
                version,
                purpose,
                responsibility@,
                prompt,
                context,
                tool_grants,
                tool_specs,
                output,
                budget,
                retry,
                termination,
                on_failure,
            ));
        }
        contract.validate()?;
        Ok(contract)
    }

    /// The digest of everything but the digest.
    pub fn expected_hash(&self) -> (r: Result<ContentHash, DomainError>)
        ensures
            r is Ok,
            r->Ok_0@ == self.identity(),
            is_digest(r->Ok_0@),
    {
        Ok(digest_of(&self.identity_value()))
    }

    /// The contract with another ceiling, under its new digest.
    pub open spec fn with_ceiling(&self, ceiling: CandidateCapabilityCeiling, made: Self) -> bool {
        &&& made == (AgentContract {
            candidate_capability_ceiling: ceiling,
            contract_hash: made.contract_hash,
            ..*self
        })
        &&& made.contract_hash@ == made.identity()
    }

    pub fn with_candidate_capability_ceiling(self, ceiling: CandidateCapabilityCeiling) -> (r: Result<
        AgentContract,
        DomainError,
    >)
        ensures
            exists|c: AgentContract| #[trigger]
                self.with_ceiling(ceiling, c) && (match r {
                    Ok(made) => made == c && c.verdict() is Ok,
                    Err(e) => c.verdict() == Verdict::Err(e@),
                }),
    {
        let mut contract = AgentContract { candidate_capability_ceiling: ceiling, ..self };
        let id = contract.expected_hash()?;
        contract.contract_hash = id;
        proof {
            assert(self.with_ceiling(ceiling, contract));
        }
        contract.validate()?;
        Ok(contract)
    }

    /// Whether a candidate asks for no more than the ceiling.
    pub fn permits_candidate(&self, candidate: &Self) -> (r: bool)
        ensures
            r == is_no_wider(
                candidate.context,
                candidate.tool_grants@,
                self.candidate_capability_ceiling.context,
                self.candidate_capability_ceiling.tool_grants@,
            ),
    {
        self.candidate_capability_ceiling.permits(&candidate.context, &candidate.tool_grants)
    }

    /// Whether what the contract itself has is within its ceiling.
    pub open spec fn is_within_ceiling(&self) -> bool {
        is_no_wider(
            self.context,
            self.tool_grants@,
            self.candidate_capability_ceiling.context,
            self.candidate_capability_ceiling.tool_grants@,
        )
    }

    pub open spec fn capability_verdict(&self) -> Verdict {
        first(
            self.prompt.verdict(),
            first(
                self.context.verdict(),
                first(
                    self.candidate_capability_ceiling.verdict(),
                    demand(
                        self.is_within_ceiling(),
                        empty("contract.candidate_capability_ceiling"@),
                    ),
                ),
            ),
        )
    }

    pub open spec fn limits_verdict(&self) -> Verdict {
        first(
            self.output.schema.verdict(),
            first(
                self.budget.verdict(),
                first(
                    self.retry.verdict(),
                    first(
                        grants_verdict(self.tool_grants@, self.context),
                        specs_verdict(self.tool_specs@, self.tool_grants@),
                    ),
                ),
            ),
        )
    }

    pub open spec fn verdict(&self) -> Verdict {
        if self.schema_version != DOMAIN_SCHEMA_VERSION {
            Err(empty("contract.schema_version"@))
        } else if self.version == 0 || blank(self.responsibility@) {
            Err(empty("contract.identity"@))
        } else {
            first(
                self.capability_verdict(),
                first(
                    self.limits_verdict(),
                    first(
                        demand(
                            is_agent_output(self.output.artifact_kind),
                            empty("contract.output.artifact_kind"@),
                        ),
                        demand(
                            self.contract_hash@ == self.identity(),
                            ErrorView::InvalidContentHash,
                        ),
                    ),
                ),
            )
        }
    }

    pub fn validate(&self) -> (r: Result<(), DomainError>)
        ensures
            outcome(r) == self.verdict(),
    {
        if self.schema_version != DOMAIN_SCHEMA_VERSION {
            return Err(empty_field("contract.schema_version"));
        }
        if self.version == 0 || is_blank(&self.responsibility) {
            return Err(empty_field("contract.identity"));
        }
        self.prompt.validate()?;
        self.context.validate()?;
        self.candidate_capability_ceiling.validate()?;
        if !self.candidate_capability_ceiling.permits(&self.context, &self.tool_grants) {
            return Err(empty_field("contract.candidate_capability_ceiling"));
        }
        self.output.validate()?;
        self.budget.validate()?;
        self.retry.validate()?;
        validate_tool_grants(&self.tool_grants, &self.context)?;
        validate_tool_specs(&self.tool_specs, &self.tool_grants)?;
        if !matches!(
            self.output.artifact_kind,
            ArtifactKind::EvidenceNeed | ArtifactKind::WorkflowProposalDraft
                | ArtifactKind::WorkflowProposal | ArtifactKind::Claim | ArtifactKind::Critique
                | ArtifactKind::Resolution | ArtifactKind::DecisionProposal
                | ArtifactKind::ProposalReview | ArtifactKind::RetrospectiveDraft
        ) {
            return Err(empty_field("contract.output.artifact_kind"));
        }
        let expected = self.expected_hash()?;
        if !self.contract_hash.same(&expected) {
            return Err(DomainError::InvalidContentHash);
        }
        Ok(())
    }
}

/// A valid contract permits itself as a candidate.
pub proof fn valid_contract_permits_itself(contract: AgentContract)
    requires
        contract.verdict() is Ok,
    ensures
        is_no_wider(
            contract.context,
            contract.tool_grants@,
            contract.candidate_capability_ceiling.context,
            contract.candidate_capability_ceiling.tool_grants@,
        ),
{
}

/// A permitted candidate gains no source: whatever a tool of the candidate may be asked for, a
/// tool of the same kind under the ceiling may be asked for too.
pub proof fn permitted_candidate_gains_no_source(
    contract: AgentContract,
    candidate: AgentContract,
    i: int,
    source: Seq<char>,
)
    requires
        is_no_wider(
            candidate.context,
            candidate.tool_grants@,
            contract.candidate_capability_ceiling.context,
            contract.candidate_capability_ceiling.tool_grants@,
        ),
        0 <= i < candidate.tool_grants@.len(),
        grant_admits(candidate.tool_grants@[i], source),
    ensures
        exists|k: int|
            0 <= k < contract.candidate_capability_ceiling.tool_grants@.len() && (
            #[trigger] contract.candidate_capability_ceiling.tool_grants@[k]).kind
                == candidate.tool_grants@[i].kind && grant_admits(
                contract.candidate_capability_ceiling.tool_grants@[k],
                source,
            ),
{
    let allowed = contract.candidate_capability_ceiling.tool_grants@;
    let wanted = candidate.tool_grants@[i];
    assert(is_covered(allowed, wanted));
    let k = choose|k: int| 0 <= k < allowed.len() && grant_covers(#[trigger] allowed[k], wanted);
    if allowed[k].allowed_sources@.len() > 0 {
        let j = choose|j: int|
            0 <= j < wanted.allowed_sources@.len() && (#[trigger] wanted.allowed_sources@[j])@
                == source;
        assert(listed(allowed[k].allowed_sources@, wanted.allowed_sources@[j]@));
    }
    assert(grant_admits(allowed[k], source));
}

/// A candidate whose tool may be asked for any source is permitted only under a ceiling that
/// grants a tool of that kind for any source.
pub proof fn permitted_candidate_keeps_source_limits(
    contract: AgentContract,
    candidate: AgentContract,
    i: int,
)
    requires
        is_no_wider(
            candidate.context,
            candidate.tool_grants@,
            contract.candidate_capability_ceiling.context,
            contract.candidate_capability_ceiling.tool_grants@,
        ),
        0 <= i < candidate.tool_grants@.len(),
        candidate.tool_grants@[i].allowed_sources@.len() == 0,
    ensures
        exists|k: int|
            0 <= k < contract.candidate_capability_ceiling.tool_grants@.len() && (
            #[trigger] contract.candidate_capability_ceiling.tool_grants@[k]).kind
                == candidate.tool_grants@[i].kind
                && contract.candidate_capability_ceiling.tool_grants@[k].allowed_sources@.len() == 0,
{
    let allowed = contract.candidate_capability_ceiling.tool_grants@;
    let wanted = candidate.tool_grants@[i];
    assert(is_covered(allowed, wanted));
    let k = choose|k: int| 0 <= k < allowed.len() && grant_covers(#[trigger] allowed[k], wanted);
    assert(allowed[k].allowed_sources@.len() == 0);
}

/// A contract of the plainer form, with one prompt and no declared functions.
#[derive(Debug, Clone, PartialEq, Eq)]
pub struct ContractSpec {
    pub schema_version: u32,
    pub contract_id: ContractId,
    pub version: u32,
    pub purpose: ContractPurpose,
    pub responsibility: String,
    pub prompt: BlobRef,
    pub context: ContextPolicy,
    pub tool_grants: Vec<ToolGrant>,
    pub output: OutputContract,
    pub budget: TaskBudget,
    pub retry: RetryPolicy,
    pub termination: TerminationPolicy,
    pub on_failure: FailureDisposition,
    pub contract_hash: ContentHash,
}

impl ContractSpec {
    /// What the identity is the digest of.
    pub open spec fn identity_json(&self) -> JsonTree {
        let m = no_members();
        let m = m.insert("schema_version"@, self.schema_version.json());
        let m = m.insert("contract_id"@, self.contract_id.json());
        let m = m.insert("version"@, self.version.json());
        let m = m.insert("purpose"@, self.purpose.json());
        let m = m.insert("responsibility"@, self.responsibility.json());
        let m = m.insert("prompt"@, self.prompt.json());
        let m = m.insert("context"@, self.context.json());
        let m = m.insert("tool_grants"@, self.tool_grants.json());
        let m = m.insert("output"@, self.output.json());
        let m = m.insert("budget"@, self.budget.json());
        let m = m.insert("retry"@, self.retry.json());
        let m = m.insert("termination"@, self.termination.json());
        let m = m.insert("on_failure"@, self.on_failure.json());
        JsonTree::Object(m)
    }

    pub open spec fn identity(&self) -> Seq<char> {
        json_digest(self.identity_json())
    }

    fn identity_value(&self) -> (r: serde_json::Value)
        ensures
            json_content(r) == self.identity_json(),
    {
        let mut members = json_new_object();
        json_insert(&mut members, "schema_version", self.schema_version.to_json());
        json_insert(&mut members, "contract_id", self.contract_id.to_json());
        json_insert(&mut members, "version", self.version.to_json());
        json_insert(&mut members, "purpose", self.purpose.to_json());
        json_insert(&mut members, "responsibility", self.responsibility.to_json());
        json_insert(&mut members, "prompt", self.prompt.to_json());
        json_insert(&mut members, "context", self.context.to_json());
        json_insert(&mut members, "tool_grants", self.tool_grants.to_json());
        json_insert(&mut members, "output", self.output.to_json());
        json_insert(&mut members, "budget", self.budget.to_json());
        json_insert(&mut members, "retry", self.retry.to_json());
        json_insert(&mut members, "termination", self.termination.to_json());
        json_insert(&mut members, "on_failure", self.on_failure.to_json());
        json_object(members)
    }
}

impl ContractSpec {
    /// A contract of the given parts, under its own digest.
    pub open spec fn is_made_of(
        &self,
        contract_id: ContractId,
        version: u32,
        purpose: ContractPurpose,
        responsibility: Seq<char>,
        prompt: BlobRef,
        context: ContextPolicy,
        tool_grants: Vec<ToolGrant>,
        output: OutputContract,
        budget: TaskBudget,
        retry: RetryPolicy,
        termination: TerminationPolicy,
        on_failure: FailureDisposition,
    ) -> bool {
        &&& self.schema_version == DOMAIN_SCHEMA_VERSION
        &&& self.contract_id == contract_id
        &&& self.version == version
        &&& self.purpose == purpose
        &&& self.responsibility@ == responsibility
        &&& self.prompt == prompt
        &&& self.context == context
        &&& self.tool_grants == tool_grants
        &&& self.output == output
        &&& self.budget == budget
        &&& self.retry == retry
        &&& self.termination == termination
        &&& self.on_failure == on_failure
        &&& self.contract_hash@ == self.identity()
    }

    pub fn new(
        contract_id: ContractId,
        version: u32,
        purpose: ContractPurpose,
        responsibility: &str,
        prompt: BlobRef,
        context: ContextPolicy,
        tool_grants: Vec<ToolGrant>,
        output: OutputContract,
        budget: TaskBudget,
        retry: RetryPolicy,
        termination: TerminationPolicy,
        on_failure: FailureDisposition,
    ) -> (r: Result<ContractSpec, DomainError>)
        ensures
            exists|c: ContractSpec| #[trigger]
                c.is_made_of(
                    contract_id,
                    version,
                    purpose,
                    responsibility@,
                    prompt,
                    context,
                    tool_grants,
                    output,
                    budget,
                    retry,
                    termination,
                    on_failure,
                ) && (match r {
                    Ok(made) => made == c && c.verdict() is Ok,
                    Err(e) => c.verdict() == Verdict::Err(e@),
                }),
    {
        let mut contract = ContractSpec {
            schema_version: DOMAIN_SCHEMA_VERSION,
            contract_id,
            version,
            purpose,
            responsibility: responsibility.to_owned(),
            prompt,
            context,
            tool_grants,
            output,
            budget,
            retry,
            termination,
            on_failure,
            contract_hash: ContentHash::of_bytes("uninitialized contract".as_bytes()),
        };
        let id = contract.expected_hash()?;
        contract.contract_hash = id;
        proof {
            assert(contract.is_made_of(
                contract_id,
                version,
                purpose,
                responsibility@,
                prompt,
                context,
                tool_grants,
                output,
                budget,
                retry,
                termination,
                on_failure,
            ));
        }
        contract.validate()?;
        Ok(contract)
    }

    /// The digest of everything but the digest.
    pub fn expected_hash(&self) -> (r: Result<ContentHash, DomainError>)
        ensures
            r is Ok,
            r->Ok_0@ == self.identity(),
            is_digest(r->Ok_0@),
    {
        Ok(digest_of(&self.identity_value()))
    }

    pub open spec fn verdict(&self) -> Verdict {
        if self.schema_version != DOMAIN_SCHEMA_VERSION {
            Err(empty("contract.schema_version"@))
        } else if self.version == 0 || blank(self.responsibility@) {
            Err(empty("contract.identity"@))
        } else {
            first(
                self.prompt.verdict(),
                first(
                    self.context.verdict(),
                    first(
                        self.output.schema.verdict(),
                        first(
                            self.budget.verdict(),
                            first(
                                self.retry.verdict(),
                                demand(
                                    self.contract_hash@ == self.identity(),
                                    ErrorView::InvalidContentHash,
                                ),
                            ),
                        ),
                    ),
                ),
            )
        }
    }

    pub fn validate(&self) -> (r: Result<(), DomainError>)
        ensures
            outcome(r) == self.verdict(),
    {
        if self.schema_version != DOMAIN_SCHEMA_VERSION {
            return Err(empty_field("contract.schema_version"));
        }
        if self.version == 0 || is_blank(&self.responsibility) {
            return Err(empty_field("contract.identity"));
        }
        self.prompt.validate()?;
        self.context.validate()?;
        self.output.validate()?;
        self.budget.validate()?;
        self.retry.validate()?;
        let expected = self.expected_hash()?;
        if !self.contract_hash.same(&expected) {
            return Err(DomainError::InvalidContentHash);
        }
        Ok(())
    }
}

/// The name of a recipe: a text that is not blank.
#[derive(Debug, PartialEq, Eq, PartialOrd, Ord, Hash)]
pub struct TaskRecipeId(String);

impl View for TaskRecipeId {
    type V = Seq<char>;

    closed spec fn view(&self) -> Seq<char> {
        self.0@
    }
}

impl Clone for TaskRecipeId {
    fn clone(&self) -> (r: Self)
        ensures
            r == *self,
    {
        TaskRecipeId(self.0.clone())
    }
}

impl TaskRecipeId {
    pub fn new(value: &str) -> (r: Result<TaskRecipeId, DomainError>)
        ensures
            match r {
                Ok(id) => id@ == value@ && !blank(value@),
                Err(e) => blank(value@) && e@ == empty("task_recipe.id"@),
            },
    {
        if is_blank(value) {
            return Err(empty_field("task_recipe.id"));
        }
        Ok(TaskRecipeId(value.to_owned()))
    }

    /// The identifier that a stored text stands for, taken as it is.
    pub fn from_stored(value: String) -> (r: TaskRecipeId)
        ensures
            r@ == value@,
    {
        TaskRecipeId(value)
    }

    pub fn as_str(&self) -> (r: &str)
        ensures
            r@ == self@,
    {
        self.0.as_str()
    }
}

impl Key for TaskRecipeId {
    open spec fn code(key: Seq<char>) -> Seq<int> {
        text_code(key)
    }

    proof fn code_is_injective(a: Seq<char>, b: Seq<char>) {
        text_code_is_injective(a, b);
    }

    fn rank(&self, other: &Self) -> (r: Rank) {
        proof {
            assert(Self::code(self@) == text_code(self.0@));
            assert(Self::code(other@) == text_code(other.0@));
        }
        rank_texts(self.0.as_str(), other.0.as_str())
    }

    fn duplicate(&self) -> (r: Self) {
        self.clone()
    }
}

impl ToJson for TaskRecipeId {
    open spec fn json(&self) -> JsonTree {
        JsonTree::Text(self@)
    }

    fn to_json(&self) -> (r: serde_json::Value) {
        json_text(self.0.as_str())
    }
}

/// How a task of a workflow is made.
#[derive(Debug, Clone, PartialEq, Eq)]
pub struct TaskRecipe {
    pub recipe_id: TaskRecipeId,
    pub purpose: ContractPurpose,
    pub contract_hash: Option<ContentHash>,
    pub task_class: RuntimeTaskClass,
    pub allowed_evidence_sources: OrderedSet<String>,
    pub max_children: u16,
    pub max_depth: u16,
    pub priority_ceiling: u8,
    pub budget: TaskBudget,
    pub retry: RetryPolicy,
    pub on_failure: FailureDisposition,
}

impl TaskRecipe {
    /// An agent needs a contract.
    pub open spec fn verdict(&self) -> Verdict {
        first(
            demand(self.priority_ceiling <= 100, budget("task_recipe.priority_ceiling"@)),
            first(
                self.budget.verdict(),
                first(
                    self.retry.verdict(),
                    first(
                        demand(
                            self.task_class is Agent ==> self.contract_hash is Some,
                            empty("task_recipe.contract_hash"@),
                        ),
                        demand(
                            !holds_blank(self.allowed_evidence_sources@),
                            empty("task_recipe.allowed_evidence_sources"@),
                        ),
                    ),
                ),
            ),
        )
    }

    pub fn validate(&self) -> (r: Result<(), DomainError>)
        ensures
            outcome(r) == self.verdict(),
    {
        if self.priority_ceiling > 100 {
            return Err(invalid_budget("task_recipe.priority_ceiling"));
        }
        self.budget.validate()?;
        self.retry.validate()?;
        if self.task_class == RuntimeTaskClass::Agent && self.contract_hash.is_none() {
            return Err(empty_field("task_recipe.contract_hash"));
        }
        if set_has_blank(&self.allowed_evidence_sources) {
            return Err(empty_field("task_recipe.allowed_evidence_sources"));
        }
        Ok(())
    }
}

/// What a context policy is refused with: the first fault that it has.
pub proof fn refusal_of_context_policy_names_its_fault(this: ContextPolicy)
    ensures
        !(this.is_bounded()) ==> this.verdict() == Verdict::Err(budget("contract.context_policy"@)),
        (this.is_bounded()) && !(!this.permitted_kinds@.contains(ArtifactKind::RawEvidence))
            ==> this.verdict() == Verdict::Err(ErrorView::RawEvidenceDirectContext),
        (this.is_bounded()) && (!this.permitted_kinds@.contains(ArtifactKind::RawEvidence))
            && !(!holds_blank(this.permitted_source_families@))
            ==> this.verdict() == Verdict::Err(
                empty("contract.context_policy.permitted_source_families"@),
            ),
{
}

/// What is refused in this respect is refused with the first fault that it has.
pub proof fn grants_verdict_names_its_fault(grants: Seq<ToolGrant>, context: ContextPolicy)
    ensures
        !(forall|i: int| 0 <= i < grants.len() ==> grant_is_allowed(#[trigger] grants[i], context))
            ==> grants_verdict(grants, context) == Verdict::Err(empty("contract.tool_grants"@)),
{
}

/// What a prompt bundle is refused with: the first fault that it has.
pub proof fn refusal_of_prompt_bundle_names_its_fault(this: PromptBundle)
    ensures
        !(this.version > 0) ==> this.verdict() == Verdict::Err(empty("contract.prompt.version"@)),
{
}

/// What a deliberation summary is refused with: the first fault that it has.
pub proof fn refusal_of_deliberation_summary_names_its_fault(this: DeliberationSummary)
    ensures
        !(this.is_bounded()) ==> this.verdict() == Verdict::Err(budget("deliberation.summary"@)),
        (this.is_bounded()) && !(this.uncertainty_weight_ppm@.len() > 0
            ==> this.uncertainty_is_whole())
            ==> this.verdict() == Verdict::Err(budget("deliberation.uncertainty_weight_ppm"@)),
        (this.is_bounded()) && (this.uncertainty_weight_ppm@.len() > 0
            ==> this.uncertainty_is_whole()) && !(views(this.basis_artifact_ids@).no_duplicates())
            ==> this.verdict() == Verdict::Err(empty("deliberation.basis_artifact_ids"@)),
{
}

/// What a deliberation summary is refused with: the first fault that it has.
pub proof fn assessment_verdict_of_deliberation_summary_names_its_fault(this: DeliberationSummary)
    ensures
        this.verdict() is Ok && !(this.is_model_assessed())
            ==> this.assessment_verdict() == Verdict::Err(budget("deliberation.summary"@)),
        this.verdict() is Ok && (this.is_model_assessed()) && !(this.uncertainty_is_whole())
            ==> this.assessment_verdict() == Verdict::Err(
                budget("deliberation.uncertainty_weight_ppm"@),
            ),
{
}

/// What a tool spec is refused with: the first fault that it has.
pub proof fn refusal_of_tool_spec_names_its_fault(this: ToolSpec)
    ensures
        !(is_tool_name(this.name@) && !blank(this.description@) && this.strict)
            ==> this.verdict() == Verdict::Err(empty("contract.tool_specs"@)),
{
}

/// What is refused in this respect is refused with the first fault that it has.
pub proof fn specs_verdict_names_its_fault(specs: Seq<ToolSpec>, grants: Seq<ToolGrant>)
    ensures
        first_fault(specs.len(), tool_checks(specs, grants)) is Ok
            && !(forall|i: int| 0 <= i < grants.len()
            ==> kind_is_declared(specs, (#[trigger] grants[i]).kind))
            ==> specs_verdict(specs, grants) == Verdict::Err(empty("contract.tool_specs"@)),
{
}

/// What an agent contract is refused with: the first fault that it has.
pub proof fn capability_verdict_of_agent_contract_names_its_fault(this: AgentContract)
    ensures
        this.prompt.verdict() is Ok && this.context.verdict() is Ok
            && this.candidate_capability_ceiling.verdict() is Ok && !(this.is_within_ceiling())
            ==> this.capability_verdict() == Verdict::Err(
                empty("contract.candidate_capability_ceiling"@),
            ),
{
}

/// What an agent contract is refused with: the first fault that it has.
pub proof fn refusal_of_agent_contract_names_its_fault(this: AgentContract)
    ensures
        (this.schema_version != DOMAIN_SCHEMA_VERSION)
            ==> this.verdict() == Verdict::Err(empty("contract.schema_version"@)),
        !(this.schema_version != DOMAIN_SCHEMA_VERSION) && (this.version == 0
            || blank(this.responsibility@))
            ==> this.verdict() == Verdict::Err(empty("contract.identity"@)),
        !(this.schema_version != DOMAIN_SCHEMA_VERSION) && !(this.version == 0
            || blank(this.responsibility@)) && this.capability_verdict() is Ok
            && this.limits_verdict() is Ok && !(is_agent_output(this.output.artifact_kind))
            ==> this.verdict() == Verdict::Err(empty("contract.output.artifact_kind"@)),
        !(this.schema_version != DOMAIN_SCHEMA_VERSION) && !(this.version == 0
            || blank(this.responsibility@)) && this.capability_verdict() is Ok
            && this.limits_verdict() is Ok && (is_agent_output(this.output.artifact_kind))
            && !(this.contract_hash@ == this.identity())
            ==> this.verdict() == Verdict::Err(ErrorView::InvalidContentHash),
{
}

/// What a contract spec is refused with: the first fault that it has.
pub proof fn refusal_of_contract_spec_names_its_fault(this: ContractSpec)
    ensures
        (this.schema_version != DOMAIN_SCHEMA_VERSION)
            ==> this.verdict() == Verdict::Err(empty("contract.schema_version"@)),
        !(this.schema_version != DOMAIN_SCHEMA_VERSION) && (this.version == 0
            || blank(this.responsibility@))
            ==> this.verdict() == Verdict::Err(empty("contract.identity"@)),
        !(this.schema_version != DOMAIN_SCHEMA_VERSION) && !(this.version == 0
            || blank(this.responsibility@)) && this.prompt.verdict() is Ok
            && this.context.verdict() is Ok && this.output.schema.verdict() is Ok
            && this.budget.verdict() is Ok && this.retry.verdict() is Ok
            && !(this.contract_hash@ == this.identity())
            ==> this.verdict() == Verdict::Err(ErrorView::InvalidContentHash),
{
}

/// What a task recipe is refused with: the first fault that it has.
pub proof fn refusal_of_task_recipe_names_its_fault(this: TaskRecipe)
    ensures
        !(this.priority_ceiling <= 100)
            ==> this.verdict() == Verdict::Err(budget("task_recipe.priority_ceiling"@)),
        (this.priority_ceiling <= 100) && this.budget.verdict() is Ok && this.retry.verdict() is Ok
            && !(this.task_class is Agent ==> this.contract_hash is Some)
            ==> this.verdict() == Verdict::Err(empty("task_recipe.contract_hash"@)),
        (this.priority_ceiling <= 100) && this.budget.verdict() is Ok && this.retry.verdict() is Ok
            && (this.task_class is Agent ==> this.contract_hash is Some)
            && !(!holds_blank(this.allowed_evidence_sources@))
            ==> this.verdict() == Verdict::Err(empty("task_recipe.allowed_evidence_sources"@)),
{
}

} // verus!
