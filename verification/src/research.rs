//! Research requests, and the claims, critiques and resolutions that rest on evidence.
use crate::artifact::{ArtifactKind, ArtifactRef, RefView};
use crate::compound::{JsonPart, Part};
use crate::decision::DecisionHorizon;
use crate::error::{
    budget, demand, empty, empty_field, first, invalid_budget, outcome, DomainError, ErrorView,
    Verdict,
};
use crate::foundation::Asset;
use crate::json::{
    json_insert, json_new_object, json_object, json_text, no_members, JsonItem, JsonKey, JsonTree,
    ToJson,
};
use crate::lists::{
    all_of, any_of, check_all, first_fault, first_fault_stays, list_verdict, Checked,
};
use crate::ordered::{listing, rank_numbers, views, Key, OrderedSet, Rank};
use crate::research_review::SupplementalIntent;
use crate::text::{
    blank, contains_text, contains_word, has_part, has_prefix, has_word, is_blank, joined,
    lowercased, same_text, starts_with,
};
use crate::time::{display_text, earlier, elapsed_nanos, UtcTime};
use crate::DOMAIN_SCHEMA_VERSION;
use vstd::prelude::*;

verus! {

pub const MAX_EVIDENCE_GAPS: usize = 2;

pub const STRUCTURED_CRITIQUE_CANDIDATE_TOPOLOGY_ID: &'static str = "candidate.structured_critique";

/// Which way a claim points.
#[derive(Clone, Copy, Debug, PartialEq, Eq, PartialOrd, Ord, Hash, Structural)]
pub enum ClaimStance {
    Bullish,
    Bearish,
    Neutral,
}

impl ClaimStance {
    /// The name of the variant in JSON.
    pub open spec fn wire(self) -> Seq<char> {
        match self {
            ClaimStance::Bullish => "bullish"@,
            ClaimStance::Bearish => "bearish"@,
            ClaimStance::Neutral => "neutral"@,
        }
    }

    /// The name of the variant in JSON.
    pub fn wire_name(self) -> (r: &'static str)
        ensures
            r@ == self.wire(),
    {
        match self {
            ClaimStance::Bullish => "bullish",
            ClaimStance::Bearish => "bearish",
            ClaimStance::Neutral => "neutral",
        }
    }
}

impl ToJson for ClaimStance {
    open spec fn json(&self) -> JsonTree {
        JsonTree::Text(self.wire())
    }

    fn to_json(&self) -> (r: serde_json::Value) {
        json_text(self.wire_name())
    }
}

/// How much a critique weighs.
#[derive(Clone, Copy, Debug, PartialEq, Eq, PartialOrd, Ord, Hash, Structural)]
pub enum CritiqueSeverity {
    Low,
    Medium,
    High,
}

impl CritiqueSeverity {
    /// The name of the variant in JSON.
    pub open spec fn wire(self) -> Seq<char> {
        match self {
            CritiqueSeverity::Low => "low"@,
            CritiqueSeverity::Medium => "medium"@,
            CritiqueSeverity::High => "high"@,
        }
    }

    /// The name of the variant in JSON.
    pub fn wire_name(self) -> (r: &'static str)
        ensures
            r@ == self.wire(),
    {
        match self {
            CritiqueSeverity::Low => "low",
            CritiqueSeverity::Medium => "medium",
            CritiqueSeverity::High => "high",
        }
    }
}

impl ToJson for CritiqueSeverity {
    open spec fn json(&self) -> JsonTree {
        JsonTree::Text(self.wire())
    }

    fn to_json(&self) -> (r: serde_json::Value) {
        json_text(self.wire_name())
    }
}

/// What a critique found of a claim.
#[derive(Clone, Copy, Debug, PartialEq, Eq, PartialOrd, Ord, Hash, Structural)]
pub enum ClaimVerificationStatus {
    Supported,
    Contradicted,
    NotEnoughInformation,
}

impl ClaimVerificationStatus {
    /// The name of the variant in JSON.
    pub open spec fn wire(self) -> Seq<char> {
        match self {
            ClaimVerificationStatus::Supported => "supported"@,
            ClaimVerificationStatus::Contradicted => "contradicted"@,
            ClaimVerificationStatus::NotEnoughInformation => "not_enough_information"@,
        }
    }

    /// The name of the variant in JSON.
    pub fn wire_name(self) -> (r: &'static str)
        ensures
            r@ == self.wire(),
    {
        match self {
            ClaimVerificationStatus::Supported => "supported",
            ClaimVerificationStatus::Contradicted => "contradicted",
            ClaimVerificationStatus::NotEnoughInformation => "not_enough_information",
        }
    }
}

impl ToJson for ClaimVerificationStatus {
    open spec fn json(&self) -> JsonTree {
        JsonTree::Text(self.wire())
    }

    fn to_json(&self) -> (r: serde_json::Value) {
        json_text(self.wire_name())
    }
}

/// What stands behind a source.
#[derive(Clone, Copy, Debug, PartialEq, Eq, PartialOrd, Ord, Hash, Structural)]
pub enum SourceAuthority {
    Primary,
    Official,
    EstablishedSecondary,
    Unrated,
}

impl SourceAuthority {
    /// The name of the variant in JSON.
    pub open spec fn wire(self) -> Seq<char> {
        match self {
            SourceAuthority::Primary => "primary"@,
            SourceAuthority::Official => "official"@,
            SourceAuthority::EstablishedSecondary => "established_secondary"@,
            SourceAuthority::Unrated => "unrated"@,
        }
    }

    /// The name of the variant in JSON.
    pub fn wire_name(self) -> (r: &'static str)
        ensures
            r@ == self.wire(),
    {
        match self {
            SourceAuthority::Primary => "primary",
            SourceAuthority::Official => "official",
            SourceAuthority::EstablishedSecondary => "established_secondary",
            SourceAuthority::Unrated => "unrated",
        }
    }
}

impl ToJson for SourceAuthority {
    open spec fn json(&self) -> JsonTree {
        JsonTree::Text(self.wire())
    }

    fn to_json(&self) -> (r: serde_json::Value) {
        json_text(self.wire_name())
    }
}

/// Whether evidence still holds when the decision is made.
#[derive(Clone, Copy, Debug, PartialEq, Eq, PartialOrd, Ord, Hash, Structural)]
pub enum TemporalValidity {
    ValidAtDecisionCutoff,
    Stale,
    Unknown,
}

impl TemporalValidity {
    /// The name of the variant in JSON.
    pub open spec fn wire(self) -> Seq<char> {
        match self {
            TemporalValidity::ValidAtDecisionCutoff => "valid_at_decision_cutoff"@,
            TemporalValidity::Stale => "stale"@,
            TemporalValidity::Unknown => "unknown"@,
        }
    }

    /// The name of the variant in JSON.
    pub fn wire_name(self) -> (r: &'static str)
        ensures
            r@ == self.wire(),
    {
        match self {
            TemporalValidity::ValidAtDecisionCutoff => "valid_at_decision_cutoff",
            TemporalValidity::Stale => "stale",
            TemporalValidity::Unknown => "unknown",
        }
    }
}

impl ToJson for TemporalValidity {
    open spec fn json(&self) -> JsonTree {
        JsonTree::Text(self.wire())
    }

    fn to_json(&self) -> (r: serde_json::Value) {
        json_text(self.wire_name())
    }
}

/// What a ground of evidence is for.
#[derive(Clone, Copy, Debug, PartialEq, Eq, PartialOrd, Ord, Hash, Structural)]
pub enum EvidenceGroundRole {
    Descriptive,
    Directional,
}

impl EvidenceGroundRole {
    /// The name of the variant in JSON.
    pub open spec fn wire(self) -> Seq<char> {
        match self {
            EvidenceGroundRole::Descriptive => "descriptive"@,
            EvidenceGroundRole::Directional => "directional"@,
        }
    }

    /// The name of the variant in JSON.
    pub fn wire_name(self) -> (r: &'static str)
        ensures
            r@ == self.wire(),
    {
        match self {
            EvidenceGroundRole::Descriptive => "descriptive",
            EvidenceGroundRole::Directional => "directional",
        }
    }
}

impl ToJson for EvidenceGroundRole {
    open spec fn json(&self) -> JsonTree {
        JsonTree::Text(self.wire())
    }

    fn to_json(&self) -> (r: serde_json::Value) {
        json_text(self.wire_name())
    }
}

/// What a gap in the evidence does.
#[derive(Clone, Copy, Debug, PartialEq, Eq, PartialOrd, Ord, Hash, Structural)]
pub enum EvidenceGapImpact {
    Warning,
    BlocksDirectionalForecast,
}

impl EvidenceGapImpact {
    /// The name of the variant in JSON.
    pub open spec fn wire(self) -> Seq<char> {
        match self {
            EvidenceGapImpact::Warning => "warning"@,
            EvidenceGapImpact::BlocksDirectionalForecast => "blocks_directional_forecast"@,
        }
    }

    /// The name of the variant in JSON.
    pub fn wire_name(self) -> (r: &'static str)
        ensures
            r@ == self.wire(),
    {
        match self {
            EvidenceGapImpact::Warning => "warning",
            EvidenceGapImpact::BlocksDirectionalForecast => "blocks_directional_forecast",
        }
    }
}

impl ToJson for EvidenceGapImpact {
    open spec fn json(&self) -> JsonTree {
        JsonTree::Text(self.wire())
    }

    fn to_json(&self) -> (r: serde_json::Value) {
        json_text(self.wire_name())
    }
}

/// How a critique was answered.
#[derive(Clone, Copy, Debug, PartialEq, Eq, PartialOrd, Ord, Hash, Structural)]
pub enum ResolutionDisposition {
    Accepted,
    Rebutted,
    Unresolved,
}

impl ResolutionDisposition {
    /// The name of the variant in JSON.
    pub open spec fn wire(self) -> Seq<char> {
        match self {
            ResolutionDisposition::Accepted => "accepted"@,
            ResolutionDisposition::Rebutted => "rebutted"@,
            ResolutionDisposition::Unresolved => "unresolved"@,
        }
    }

    /// The name of the variant in JSON.
    pub fn wire_name(self) -> (r: &'static str)
        ensures
            r@ == self.wire(),
    {
        match self {
            ResolutionDisposition::Accepted => "accepted",
            ResolutionDisposition::Rebutted => "rebutted",
            ResolutionDisposition::Unresolved => "unresolved",
        }
    }
}

impl ToJson for ResolutionDisposition {
    open spec fn json(&self) -> JsonTree {
        JsonTree::Text(self.wire())
    }

    fn to_json(&self) -> (r: serde_json::Value) {
        json_text(self.wire_name())
    }
}

/// The lanes of research.
#[derive(Clone, Copy, Debug, PartialEq, Eq, PartialOrd, Ord, Hash, Structural)]
pub enum ResearchShard {
    PriceMarketStructure,
    Macro,
    FundamentalsSemiconductor,
    NewsEvent,
}

impl ResearchShard {
    /// The name of the variant in JSON.
    pub open spec fn wire(self) -> Seq<char> {
        match self {
            ResearchShard::PriceMarketStructure => "price_market_structure"@,
            ResearchShard::Macro => "macro"@,
            ResearchShard::FundamentalsSemiconductor => "fundamentals_semiconductor"@,
            ResearchShard::NewsEvent => "news_event"@,
        }
    }

    /// The name of the variant in JSON.
    pub fn wire_name(self) -> (r: &'static str)
        ensures
            r@ == self.wire(),
    {
        match self {
            ResearchShard::PriceMarketStructure => "price_market_structure",
            ResearchShard::Macro => "macro",
            ResearchShard::FundamentalsSemiconductor => "fundamentals_semiconductor",
            ResearchShard::NewsEvent => "news_event",
        }
    }
}

impl ToJson for ResearchShard {
    open spec fn json(&self) -> JsonTree {
        JsonTree::Text(self.wire())
    }

    fn to_json(&self) -> (r: serde_json::Value) {
        json_text(self.wire_name())
    }
}

impl View for ResearchShard {
    type V = ResearchShard;

    open spec fn view(&self) -> ResearchShard {
        *self
    }
}

impl ResearchShard {
    /// Where the variant stands in the order.
    pub open spec fn place(self) -> u32 {
        match self {
            ResearchShard::PriceMarketStructure => 0,
            ResearchShard::Macro => 1,
            ResearchShard::FundamentalsSemiconductor => 2,
            ResearchShard::NewsEvent => 3,
        }
    }

    pub(crate) fn place_number(self) -> (r: u32)
        ensures
            r == self.place(),
    {
        match self {
            ResearchShard::PriceMarketStructure => 0,
            ResearchShard::Macro => 1,
            ResearchShard::FundamentalsSemiconductor => 2,
            ResearchShard::NewsEvent => 3,
        }
    }
}

impl Key for ResearchShard {
    open spec fn code(key: ResearchShard) -> Seq<int> {
        seq![key.place() as int]
    }

    proof fn code_is_injective(a: ResearchShard, b: ResearchShard) {
        assert(Self::code(a)[0] == a.place() as int && Self::code(b)[0] == b.place() as int);
    }

    fn rank(&self, other: &Self) -> (r: Rank) {
        rank_numbers((*self).place_number(), (*other).place_number())
    }

    fn duplicate(&self) -> (r: Self) {
        *self
    }
}

impl JsonItem for ResearchShard {
    open spec fn item_json(key: ResearchShard) -> JsonTree {
        JsonTree::Text(key.wire())
    }

    fn to_item_json(&self) -> (r: serde_json::Value) {
        json_text((*self).wire_name())
    }
}

impl JsonKey for ResearchShard {
    open spec fn key_text(key: ResearchShard) -> Seq<char> {
        key.wire()
    }

    fn to_key_text(&self) -> (r: String) {
        (*self).wire_name().to_owned()
    }
}

impl Default for ClaimVerificationStatus {
    fn default() -> (r: Self)
        ensures
            r is NotEnoughInformation,
    {
        ClaimVerificationStatus::NotEnoughInformation
    }
}

impl Default for SourceAuthority {
    fn default() -> (r: Self)
        ensures
            r is Unrated,
    {
        SourceAuthority::Unrated
    }
}

impl Default for TemporalValidity {
    fn default() -> (r: Self)
        ensures
            r is Unknown,
    {
        TemporalValidity::Unknown
    }
}

impl Default for EvidenceGroundRole {
    fn default() -> (r: Self)
        ensures
            r is Descriptive,
    {
        EvidenceGroundRole::Descriptive
    }
}

impl Default for EvidenceGapImpact {
    fn default() -> (r: Self)
        ensures
            r is Warning,
    {
        EvidenceGapImpact::Warning
    }
}

/// The kinds of artifacts that a statement may rest on: never raw evidence.
pub open spec fn is_evidence_kind(kind: ArtifactKind) -> bool {
    kind is NormalizedEvidence || kind is SemanticDetail
}

/// Evidence that a critique verified a claim with.
#[derive(Debug, PartialEq, Eq)]
pub struct ClaimVerificationEvidence {
    pub evidence: ArtifactRef,
    pub authority: SourceAuthority,
    pub temporal_validity: TemporalValidity,
}

impl Clone for ClaimVerificationEvidence {
    fn clone(&self) -> (r: Self)
        ensures
            r == *self,
    {
        ClaimVerificationEvidence {
            evidence: self.evidence.clone(),
            authority: self.authority,
            temporal_validity: self.temporal_validity,
        }
    }
}

impl ClaimVerificationEvidence {
    pub open spec fn verdict(&self) -> Verdict {
        demand(
            is_evidence_kind(self.evidence.kind),
            empty("research.claim_verification.evidence"@),
        )
    }

    pub fn validate(&self) -> (r: Result<(), DomainError>)
        ensures
            outcome(r) == self.verdict(),
    {
        if !matches!(self.evidence.kind, ArtifactKind::NormalizedEvidence | ArtifactKind::SemanticDetail) {
            return Err(empty_field("research.claim_verification.evidence"));
        }
        Ok(())
    }

    /// From a rated source, and valid when the decision is made.
    pub open spec fn is_current(&self) -> bool {
        !(self.authority is Unrated) && self.temporal_validity is ValidAtDecisionCutoff
    }

    pub fn is_current_authoritative(&self) -> (r: bool)
        ensures
            r == self.is_current(),
    {
        self.authority != SourceAuthority::Unrated && self.temporal_validity
            == TemporalValidity::ValidAtDecisionCutoff
    }
}

/// What a task needs from the evidence store.
#[derive(Debug, PartialEq, Eq, PartialOrd, Ord)]
pub struct EvidenceNeed {
    pub schema_version: u32,
    pub source_family: String,
    pub resource: String,
    pub max_age_secs: u64,
}

/// What a `EvidenceNeed` holds.
pub ghost struct EvidenceNeedView {
    pub schema_version: u32,
    pub source_family: Seq<char>,
    pub resource: Seq<char>,
    pub max_age_secs: u64,
}

impl View for EvidenceNeed {
    type V = EvidenceNeedView;

    open spec fn view(&self) -> EvidenceNeedView {
        EvidenceNeedView {
            schema_version: self.schema_version.seen(),
            source_family: self.source_family.seen(),
            resource: self.resource.seen(),
            max_age_secs: self.max_age_secs.seen(),
        }
    }
}

/// The parts of a `EvidenceNeed`, in the order in which they count.
pub type EvidenceNeedParts = (u32, (String, (String, u64)));

impl EvidenceNeedView {
    pub open spec fn parts(self) -> <EvidenceNeedParts as Part>::Seen {
        (self.schema_version, (self.source_family, (self.resource, self.max_age_secs)))
    }
}

impl Key for EvidenceNeed {
    open spec fn code(key: EvidenceNeedView) -> Seq<int> {
        <EvidenceNeedParts as Part>::part(key.parts())
    }

    proof fn code_is_injective(a: EvidenceNeedView, b: EvidenceNeedView) {
        <EvidenceNeedParts as Part>::parts_settle(a.parts(), b.parts());
    }

    fn rank(&self, other: &Self) -> (r: Rank) {
        let mine = (&self.schema_version, (&self.source_family, (&self.resource,
            &self.max_age_secs)));
        let theirs = (&other.schema_version, (&other.source_family, (&other.resource,
            &other.max_age_secs)));
        mine.rank_part(&theirs)
    }

    fn duplicate(&self) -> (r: Self) {
        self.clone()
    }
}

impl JsonItem for EvidenceNeed {
    open spec fn item_json(key: EvidenceNeedView) -> JsonTree {
        let m = no_members();
        let m = m.insert("schema_version"@, <u32 as JsonPart>::part_json(key.schema_version));
        let m = m.insert("source_family"@, <String as JsonPart>::part_json(key.source_family));
        let m = m.insert("resource"@, <String as JsonPart>::part_json(key.resource));
        let m = m.insert("max_age_secs"@, <u64 as JsonPart>::part_json(key.max_age_secs));
        JsonTree::Object(m)
    }

    fn to_item_json(&self) -> (r: serde_json::Value) {
        let mut members = json_new_object();
        json_insert(&mut members, "schema_version", self.schema_version.part_to_json());
        json_insert(&mut members, "source_family", self.source_family.part_to_json());
        json_insert(&mut members, "resource", self.resource.part_to_json());
        json_insert(&mut members, "max_age_secs", self.max_age_secs.part_to_json());
        json_object(members)
    }
}

impl Clone for EvidenceNeed {
    fn clone(&self) -> (r: Self)
        ensures
            r == *self,
    {
        EvidenceNeed {
            schema_version: self.schema_version,
            source_family: self.source_family.clone(),
            resource: self.resource.clone(),
            max_age_secs: self.max_age_secs,
        }
    }
}

/// A request for research. It is turned into a need before a workflow is installed, and
/// nothing widens it afterwards.
#[derive(Debug, Clone, PartialEq, Eq)]
pub struct ResearchIntent {
    pub schema_version: u32,
    pub source_family: String,
    pub resource: String,
    pub query: String,
    pub assets: OrderedSet<Asset>,
    pub window_start: Option<UtcTime>,
    pub window_end: Option<UtcTime>,
    pub max_age_secs: u64,
    pub max_results: u16,
}

/// The source families that may be asked.
pub open spec fn is_governed_source(family: Seq<char>) -> bool {
    family == "alpaca"@ || family == "sec_edgar"@ || family == "fred"@ || family == "news_web"@
}

pub fn source_is_governed(family: &str) -> (r: bool)
    ensures
        r == is_governed_source(family@),
{
    same_text(family, "alpaca") || same_text(family, "sec_edgar") || same_text(family, "fred")
        || same_text(family, "news_web")
}

/// A query in lower case that asks for news, in Chinese or in English.
pub open spec fn speaks_of_news(query: Seq<char>) -> bool {
    contains_text(query, "新闻"@) || contains_word(query, "news"@)
}

pub fn mentions_news(query: &str) -> (r: bool)
    ensures
        r == speaks_of_news(query@),
{
    proof {
        reveal_strlit("news");
    }
    has_part(query, "新闻") || has_word(query, "news")
}

impl ResearchIntent {
    pub open spec fn lane(&self) -> ResearchShard {
        if self.source_family@ == "alpaca"@ {
            ResearchShard::PriceMarketStructure
        } else if self.source_family@ == "fred"@ {
            ResearchShard::Macro
        } else if self.source_family@ == "sec_edgar"@ {
            ResearchShard::FundamentalsSemiconductor
        } else {
            ResearchShard::NewsEvent
        }
    }

    /// The lane that the source family belongs to.
    pub fn shard(&self) -> (r: ResearchShard)
        ensures
            r == self.lane(),
    {
        if same_text(&self.source_family, "alpaca") {
            ResearchShard::PriceMarketStructure
        } else if same_text(&self.source_family, "fred") {
            ResearchShard::Macro
        } else if same_text(&self.source_family, "sec_edgar") {
            ResearchShard::FundamentalsSemiconductor
        } else {
            ResearchShard::NewsEvent
        }
    }

    /// Complete, and within the limits of a request.
    pub open spec fn is_bounded(&self) -> bool {
        &&& self.schema_version == DOMAIN_SCHEMA_VERSION
        &&& !blank(self.source_family@)
        &&& !blank(self.resource@)
        &&& !blank(self.query@)
        &&& self.resource@.len() <= 2_048
        &&& self.query@.len() <= 2_000
        &&& 1 <= self.max_age_secs <= 604_800
        &&& 1 <= self.max_results <= 32
    }

    /// Asks for news where only prices are to be had.
    pub open spec fn asks_prices_for_news(&self) -> bool {
        let query = lowercased(self.query@);
        &&& self.source_family@ == "alpaca"@
        &&& self.resource@ == "bars"@ || starts_with(self.resource@, "bars:"@)
        &&& speaks_of_news(query)
    }

    /// The window runs forward and spans at most 366 days.
    pub open spec fn window_is_valid(&self) -> bool {
        self.window_start matches Some(start) ==> self.window_end matches Some(end) ==> !earlier(
            end,
            start,
        ) && elapsed_nanos(start, end) <= 366 * 86_400_000_000_000
    }

    pub open spec fn verdict(&self) -> Verdict {
        if !self.is_bounded() {
            Err(empty("research.intent"@))
        } else if !is_governed_source(self.source_family@) {
            Err(ErrorView::EvidenceSourceNotAllowed(self.source_family@))
        } else if self.asks_prices_for_news() {
            Err(empty("research.intent.news_requires_news_source"@))
        } else if !self.window_is_valid() {
            Err(
                ErrorView::InvalidEvidenceWindow {
                    field: "research.intent.window"@,
                    start: display_text(self.window_start->0.secs(), self.window_start->0.nanos()),
                    end: display_text(self.window_end->0.secs(), self.window_end->0.nanos()),
                },
            )
        } else {
            Ok(())
        }
    }

    pub fn validate(&self) -> (r: Result<(), DomainError>)
        ensures
            outcome(r) == self.verdict(),
    {
        if self.schema_version != DOMAIN_SCHEMA_VERSION || is_blank(&self.source_family) || is_blank(
            &self.resource,
        ) || is_blank(&self.query) || self.resource.as_str().unicode_len() > 2_048
            || self.query.as_str().unicode_len() > 2_000 || self.max_age_secs < 1
            || self.max_age_secs > 604_800 || self.max_results < 1 || self.max_results > 32 {
            return Err(empty_field("research.intent"));
        }
        if !source_is_governed(&self.source_family) {
            return Err(DomainError::EvidenceSourceNotAllowed(self.source_family.clone()));
        }
        let query = self.query.as_str().to_lowercase();
        if same_text(&self.source_family, "alpaca") && (same_text(&self.resource, "bars")
            || has_prefix(&self.resource, "bars:")) && mentions_news(&query) {
            return Err(empty_field("research.intent.news_requires_news_source"));
        }
        if let Some(start) = self.window_start {
            if let Some(end) = self.window_end {
                if end.is_before(&start) || end.is_more_than_days_after(&start, 366) {
                    return Err(
                        DomainError::InvalidEvidenceWindow {
                            field: "research.intent.window",
                            start: start.text(),
                            end: end.text(),
                        },
                    );
                }
            }
        }
        Ok(())
    }

    /// The need that a valid request amounts to.
    pub fn evidence_need(&self) -> (r: Result<EvidenceNeed, DomainError>)
        ensures
            match r {
                Ok(need) => self.verdict() is Ok && need == (EvidenceNeed {
                    schema_version: DOMAIN_SCHEMA_VERSION,
                    source_family: self.source_family,
                    resource: self.resource,
                    max_age_secs: self.max_age_secs,
                }),
                Err(e) => self.verdict() == Verdict::Err(e@),
            },
    {
        self.validate()?;
        Ok(
            EvidenceNeed {
                schema_version: DOMAIN_SCHEMA_VERSION,
                source_family: self.source_family.clone(),
                resource: self.resource.clone(),
                max_age_secs: self.max_age_secs,
            },
        )
    }
}

impl Checked for ResearchIntent {
    open spec fn judged(&self) -> Verdict {
        self.verdict()
    }

    fn check(&self) -> (r: Result<(), DomainError>) {
        self.validate()
    }
}

/// What one piece of evidence supports.
#[derive(Debug, Clone, PartialEq, Eq)]
pub struct EvidenceGround {
    pub evidence: ArtifactRef,
    pub support: String,
    pub role: EvidenceGroundRole,
    pub assets: OrderedSet<Asset>,
    pub domain: Option<ResearchShard>,
}

impl EvidenceGround {
    pub open spec fn verdict(&self) -> Verdict {
        first(
            demand(
                is_evidence_kind(self.evidence.kind) && !blank(self.support@),
                empty("research.ground"@),
            ),
            demand(
                self.role is Directional ==> self.assets@.len() > 0,
                ErrorView::InvalidEvidenceGroundScope,
            ),
        )
    }

    pub fn validate(&self) -> (r: Result<(), DomainError>)
        ensures
            outcome(r) == self.verdict(),
    {
        if !matches!(self.evidence.kind, ArtifactKind::NormalizedEvidence | ArtifactKind::SemanticDetail)
            || is_blank(&self.support) {
            return Err(empty_field("research.ground"));
        }
        if self.role == EvidenceGroundRole::Directional && self.assets.is_empty() {
            return Err(DomainError::InvalidEvidenceGroundScope);
        }
        Ok(())
    }

    /// Supports a direction of an asset in a lane.
    pub open spec fn directs(&self, asset: Asset, domain: ResearchShard) -> bool {
        self.role is Directional && self.domain == Some(domain) && self.assets@.contains(asset)
    }

    pub fn is_directional_for(&self, asset: Asset, domain: ResearchShard) -> (r: bool)
        ensures
            r == self.directs(asset, domain),
    {
        let of_domain = match self.domain {
            Some(own) => own == domain,
            None => false,
        };
        self.role == EvidenceGroundRole::Directional && of_domain && self.assets.contains(&asset)
    }
}

/// Evidence that is missing. With no assets it concerns all of them; with no horizons that of
/// its claim.
#[derive(Debug, Clone, PartialEq, Eq)]
pub struct EvidenceGap {
    pub supplemental_requests: Vec<SupplementalIntent>,
    pub topic: String,
    pub rationale: String,
    pub impact: EvidenceGapImpact,
    pub assets: OrderedSet<Asset>,
    pub horizons: OrderedSet<DecisionHorizon>,
    pub supplemental_needs: Vec<ResearchIntent>,
    pub retriable: bool,
}

impl EvidenceGap {
    /// Keeps a direction from being forecast for an asset and a horizon.
    pub open spec fn blocks(
        &self,
        asset: Asset,
        horizon: DecisionHorizon,
        claim_horizon: DecisionHorizon,
    ) -> bool {
        &&& self.impact is BlocksDirectionalForecast
        &&& self.assets@.len() == 0 || self.assets@.contains(asset)
        &&& if self.horizons@.len() == 0 {
            horizon == claim_horizon
        } else {
            self.horizons@.contains(horizon)
        }
    }

    pub fn blocks_slot(
        &self,
        asset: Asset,
        horizon: DecisionHorizon,
        claim_horizon: DecisionHorizon,
    ) -> (r: bool)
        ensures
            r == self.blocks(asset, horizon, claim_horizon),
    {
        self.impact == EvidenceGapImpact::BlocksDirectionalForecast && (self.assets.is_empty()
            || self.assets.contains(&asset)) && if self.horizons.is_empty() {
            horizon == claim_horizon
        } else {
            self.horizons.contains(&horizon)
        }
    }

    pub open spec fn verdict(&self) -> Verdict {
        if blank(self.topic@) || blank(self.rationale@) {
            Err(empty("research.evidence_gap"@))
        } else if self.retriable && self.impact is BlocksDirectionalForecast
            && self.supplemental_needs@.len() == 0 && self.supplemental_requests@.len() == 0 {
            Err(empty("research.evidence_gap.retriable_requires_supplemental_needs"@))
        } else if self.supplemental_needs@.len() + self.supplemental_requests@.len() > 8 {
            Err(budget("research.evidence_gap.supplemental_needs"@))
        } else {
            first(
                list_verdict(self.supplemental_requests@),
                list_verdict(self.supplemental_needs@),
            )
        }
    }

    pub fn validate(&self) -> (r: Result<(), DomainError>)
        ensures
            outcome(r) == self.verdict(),
    {
        if is_blank(&self.topic) || is_blank(&self.rationale) {
            return Err(empty_field("research.evidence_gap"));
        }
        if self.retriable && self.impact == EvidenceGapImpact::BlocksDirectionalForecast
            && self.supplemental_needs.len() == 0 && self.supplemental_requests.len() == 0 {
            return Err(
                empty_field("research.evidence_gap.retriable_requires_supplemental_needs"),
            );
        }
        if self.supplemental_needs.len() > 8 || self.supplemental_requests.len() > 8
            - self.supplemental_needs.len() {
            return Err(invalid_budget("research.evidence_gap.supplemental_needs"));
        }
        check_all(&self.supplemental_requests)?;
        check_all(&self.supplemental_needs)
    }
}

impl Checked for EvidenceGap {
    open spec fn judged(&self) -> Verdict {
        self.verdict()
    }

    fn check(&self) -> (r: Result<(), DomainError>) {
        self.validate()
    }
}

/// Some listed gap blocks a slot.
pub open spec fn gaps_block(
    gaps: Seq<EvidenceGap>,
    asset: Asset,
    horizon: DecisionHorizon,
    claim_horizon: DecisionHorizon,
) -> bool {
    exists|i: int| 0 <= i < gaps.len() && (#[trigger] gaps[i]).blocks(asset, horizon, claim_horizon)
}

pub fn any_gap_blocks(
    gaps: &Vec<EvidenceGap>,
    asset: Asset,
    horizon: DecisionHorizon,
    claim_horizon: DecisionHorizon,
) -> (r: bool)
    ensures
        r == gaps_block(gaps@, asset, horizon, claim_horizon),
{
    let blocks = |gap: &EvidenceGap| -> (b: bool)
        ensures
            b == gap.blocks(asset, horizon, claim_horizon),
        { gap.blocks_slot(asset, horizon, claim_horizon) };
    any_of(gaps.as_slice(), blocks)
}

/// Some listed gap keeps a direction from being forecast.
pub open spec fn has_blocking_gap(gaps: Seq<EvidenceGap>) -> bool {
    exists|i: int| 0 <= i < gaps.len() && (#[trigger] gaps[i]).impact is BlocksDirectionalForecast
}

fn some_gap_is_blocking(gaps: &Vec<EvidenceGap>) -> (r: bool)
    ensures
        r == has_blocking_gap(gaps@),
{
    let blocking = |gap: &EvidenceGap| -> (b: bool)
        ensures
            b == (gap.impact is BlocksDirectionalForecast),
        { gap.impact == EvidenceGapImpact::BlocksDirectionalForecast };
    any_of(gaps.as_slice(), blocking)
}

/// A statement of research.
#[derive(Debug, Clone, PartialEq, Eq)]
pub struct ResearchClaim {
    pub schema_version: u32,
    pub topic: String,
    pub statement: String,
    pub horizon: DecisionHorizon,
    pub stance: ClaimStance,
    pub materiality_ppm: u32,
    pub confidence_ppm: u32,
    pub grounds: Vec<EvidenceGround>,
    pub evidence_gaps: Vec<EvidenceGap>,
}

impl ResearchClaim {
    pub open spec fn verdict(&self) -> Verdict {
        if self.schema_version != DOMAIN_SCHEMA_VERSION || blank(self.topic@) || blank(
            self.statement@,
        ) {
            Err(empty("research.claim"@))
        } else if self.materiality_ppm > 1_000_000 {
            Err(budget("research.claim.materiality_ppm"@))
        } else if self.confidence_ppm > 1_000_000 {
            Err(budget("research.claim.confidence_ppm"@))
        } else {
            first(grounds_verdict(self.grounds@), gaps_verdict(self.evidence_gaps@))
        }
    }

    pub fn validate(&self) -> (r: Result<(), DomainError>)
        ensures
            outcome(r) == self.verdict(),
    {
        if self.schema_version != DOMAIN_SCHEMA_VERSION || is_blank(&self.topic) || is_blank(
            &self.statement,
        ) {
            return Err(empty_field("research.claim"));
        }
        if self.materiality_ppm > 1_000_000 {
            return Err(invalid_budget("research.claim.materiality_ppm"));
        }
        if self.confidence_ppm > 1_000_000 {
            return Err(invalid_budget("research.claim.confidence_ppm"));
        }
        validate_grounds(&self.grounds)?;
        validate_gaps(&self.evidence_gaps)
    }

    /// What the claim rests on.
    pub open spec fn sources(&self) -> Set<RefView> {
        ground_evidence(self.grounds@).to_set()
    }

    /// The evidence of the grounds, each piece once and in order.
    pub fn source_refs(&self) -> (r: Vec<ArtifactRef>)
        ensures
            views(r@) == listing::<ArtifactRef>(self.sources()),
    {
        ground_refs(&self.grounds).into_vec()
    }
}

/// The pieces of evidence that grounds cite.
pub open spec fn ground_evidence(grounds: Seq<EvidenceGround>) -> Seq<RefView> {
    grounds.map_values(|ground: EvidenceGround| ground.evidence@)
}

/// The pieces of evidence that a verification cites.
pub open spec fn verified_evidence(list: Seq<ClaimVerificationEvidence>) -> Seq<RefView> {
    list.map_values(|reference: ClaimVerificationEvidence| reference.evidence@)
}

fn ground_refs(grounds: &Vec<EvidenceGround>) -> (r: OrderedSet<ArtifactRef>)
    ensures
        r@ == ground_evidence(grounds@).to_set(),
{
    let mut refs: Vec<ArtifactRef> = Vec::new();
    let mut i: usize = 0;
    while i < grounds.len()
        invariant
            i <= grounds.len(),
            refs.len() == i,
            forall|j: int| 0 <= j < i ==> (#[trigger] refs@[j])@ == grounds@[j].evidence@,
        decreases grounds.len() - i,
    {
        refs.push(grounds[i].evidence.clone());
        i += 1;
    }
    proof {
        assert(views(refs@) =~= ground_evidence(grounds@));
    }
    OrderedSet::from_vec(refs)
}

/// The check of one ground: valid on its own, and of evidence that no ground before it cites.
pub open spec fn ground_checks(grounds: Seq<EvidenceGround>) -> spec_fn(int) -> Verdict {
    |i: int|
        first(
            grounds[i].verdict(),
            demand(
                !ground_evidence(grounds).take(i).contains(grounds[i].evidence@),
                empty("research.grounds"@),
            ),
        )
}

pub open spec fn grounds_verdict(grounds: Seq<EvidenceGround>) -> Verdict {
    if grounds.len() == 0 {
        Err(empty("research.grounds"@))
    } else {
        first_fault(grounds.len(), ground_checks(grounds))
    }
}

fn validate_grounds(grounds: &Vec<EvidenceGround>) -> (r: Result<(), DomainError>)
    ensures
        outcome(r) == grounds_verdict(grounds@),
{
    if grounds.len() == 0 {
        return Err(empty_field("research.grounds"));
    }
    let ghost checks = ground_checks(grounds@);
    let ghost cited = ground_evidence(grounds@);
    let mut seen: OrderedSet<ArtifactRef> = OrderedSet::new();
    let mut n: usize = 0;
    proof {
        assert(cited.take(0).to_set() =~= Set::<RefView>::empty());
    }
    while n < grounds.len()
        invariant
            n <= grounds.len(),
            checks == ground_checks(grounds@),
            cited == ground_evidence(grounds@),
            seen@ == cited.take(n as int).to_set(),
            first_fault(n as nat, checks) == Verdict::Ok(()),
        decreases grounds.len() - n,
    {
        let ground = &grounds[n];
        let valid = ground.validate();
        let fresh = seen.insert(ground.evidence.clone());
        proof {
            let k = (n + 1) as nat;
            assert(cited.take(n as int).to_set().contains(ground.evidence@) == cited.take(
                n as int,
            ).contains(ground.evidence@));
            assert(first_fault(k, checks) == checks(n as int));
            assert(cited.take(n + 1) =~= cited.take(n as int).push(ground.evidence@));
            cited.take(n as int).lemma_push_to_set_commute(ground.evidence@);
            assert(cited.take(n + 1).to_set() =~= seen@);
            if checks(n as int) is Err {
                first_fault_stays(k, grounds@.len(), checks);
            }
        }
        valid?;
        if !fresh {
            return Err(empty_field("research.grounds"));
        }
        n += 1;
    }
    Ok(())
}

pub open spec fn gaps_verdict(gaps: Seq<EvidenceGap>) -> Verdict {
    if gaps.len() > MAX_EVIDENCE_GAPS {
        Err(budget("research.evidence_gaps"@))
    } else {
        list_verdict(gaps)
    }
}

fn validate_gaps(gaps: &Vec<EvidenceGap>) -> (r: Result<(), DomainError>)
    ensures
        outcome(r) == gaps_verdict(gaps@),
{
    if gaps.len() > MAX_EVIDENCE_GAPS {
        return Err(invalid_budget("research.evidence_gaps"));
    }
    check_all(gaps)
}

/// The check of one piece of evidence of a verification.
pub open spec fn reference_checks(list: Seq<ClaimVerificationEvidence>) -> spec_fn(int) -> Verdict {
    |i: int|
        first(
            list[i].verdict(),
            demand(
                !verified_evidence(list).take(i).contains(list[i].evidence@),
                empty("research.claim_verification.references"@),
            ),
        )
}

pub open spec fn references_verdict(list: Seq<ClaimVerificationEvidence>) -> Verdict {
    first_fault(list.len(), reference_checks(list))
}

fn validate_verification_refs(references: &Vec<ClaimVerificationEvidence>) -> (r: Result<(), DomainError>)
    ensures
        outcome(r) == references_verdict(references@),
{
    let ghost checks = reference_checks(references@);
    let ghost cited = verified_evidence(references@);
    let mut seen: OrderedSet<ArtifactRef> = OrderedSet::new();
    let mut n: usize = 0;
    proof {
        assert(cited.take(0).to_set() =~= Set::<RefView>::empty());
    }
    while n < references.len()
        invariant
            n <= references.len(),
            checks == reference_checks(references@),
            cited == verified_evidence(references@),
            seen@ == cited.take(n as int).to_set(),
            first_fault(n as nat, checks) == Verdict::Ok(()),
        decreases references.len() - n,
    {
        let reference = &references[n];
        let valid = reference.validate();
        let fresh = seen.insert(reference.evidence.clone());
        proof {
            let k = (n + 1) as nat;
            assert(cited.take(n as int).to_set().contains(reference.evidence@) == cited.take(
                n as int,
            ).contains(reference.evidence@));
            assert(first_fault(k, checks) == checks(n as int));
            assert(cited.take(n + 1) =~= cited.take(n as int).push(reference.evidence@));
            cited.take(n as int).lemma_push_to_set_commute(reference.evidence@);
            assert(cited.take(n + 1).to_set() =~= seen@);
            if checks(n as int) is Err {
                first_fault_stays(k, references@.len(), checks);
            }
        }
        valid?;
        if !fresh {
            return Err(empty_field("research.claim_verification.references"));
        }
        n += 1;
    }
    Ok(())
}

/// A critique of a claim.
#[derive(Debug, Clone, PartialEq, Eq)]
pub struct ResearchCritique {
    pub schema_version: u32,
    pub target: ArtifactRef,
    pub topic: String,
    pub severity: CritiqueSeverity,
    pub blocker: bool,
    pub rationale: String,
    pub grounds: Vec<EvidenceGround>,
    pub evidence_gaps: Vec<EvidenceGap>,
    pub verification_status: ClaimVerificationStatus,
    pub supporting_refs: Vec<ClaimVerificationEvidence>,
    pub conflicting_refs: Vec<ClaimVerificationEvidence>,
}

/// How a piece of evidence is named in an error.
pub open spec fn evidence_name(key: RefView) -> Seq<char> {
    key.artifact_id + " (kind "@ + key.kind.variant() + ")"@
}

fn name_evidence(reference: &ArtifactRef) -> (r: String)
    ensures
        r@ == evidence_name(reference@),
{
    let name = joined(reference.artifact_id.0.as_str(), " (kind ");
    let name = joined(&name, reference.kind.variant_name());
    joined(&name, ")")
}

/// The first piece of evidence that no ground cites.
pub open spec fn first_outside(
    cited: Seq<RefView>,
    grounds: Set<RefView>,
) -> Option<RefView>
    decreases cited.len(),
{
    if cited.len() == 0 {
        None
    } else if !grounds.contains(cited[0]) {
        Some(cited[0])
    } else {
        first_outside(cited.drop_first(), grounds)
    }
}

fn find_outside(
    list: &Vec<ClaimVerificationEvidence>,
    grounds: &OrderedSet<ArtifactRef>,
) -> (r: Option<usize>)
    ensures
        r matches Some(i) ==> i < list@.len() && first_outside(verified_evidence(list@), grounds@)
            == Some(list@[i as int].evidence@),
        r is None ==> first_outside(verified_evidence(list@), grounds@) is None,
{
    let ghost cited = verified_evidence(list@);
    let mut i: usize = 0;
    proof {
        assert(cited.skip(0) =~= cited);
    }
    while i < list.len()
        invariant
            i <= list.len(),
            cited == verified_evidence(list@),
            first_outside(cited, grounds@) == first_outside(cited.skip(i as int), grounds@),
        decreases list.len() - i,
    {
        proof {
            assert(cited.skip(i as int)[0] == list@[i as int].evidence@);
            assert(cited.skip(i as int).drop_first() =~= cited.skip(i + 1));
        }
        if !grounds.contains(&list[i].evidence) {
            return Some(i);
        }
        i += 1;
    }
    None
}

proof fn first_outside_of_two_lists(a: Seq<RefView>, b: Seq<RefView>, grounds: Set<RefView>)
    ensures
        first_outside(a + b, grounds) == (if first_outside(a, grounds) is Some {
            first_outside(a, grounds)
        } else {
            first_outside(b, grounds)
        }),
    decreases a.len(),
{
    if a.len() == 0 {
        assert(a + b =~= b);
    } else {
        assert((a + b).drop_first() =~= a.drop_first() + b);
        first_outside_of_two_lists(a.drop_first(), b, grounds);
    }
}

impl ResearchCritique {
    /// The blocker applies to an asset and a horizon. Where gaps say what is blocked, they
    /// decide; a blocker without such a gap applies to the whole claim.
    pub open spec fn blocks(
        &self,
        asset: Asset,
        horizon: DecisionHorizon,
        claim_horizon: DecisionHorizon,
    ) -> bool {
        self.blocker && (has_blocking_gap(self.evidence_gaps@) ==> gaps_block(
            self.evidence_gaps@,
            asset,
            horizon,
            claim_horizon,
        ))
    }

    pub fn blocks_slot(
        &self,
        asset: Asset,
        horizon: DecisionHorizon,
        claim_horizon: DecisionHorizon,
    ) -> (r: bool)
        ensures
            r == self.blocks(asset, horizon, claim_horizon),
    {
        if !self.blocker {
            return false;
        }
        if !some_gap_is_blocking(&self.evidence_gaps) {
            return true;
        }
        any_gap_blocks(&self.evidence_gaps, asset, horizon, claim_horizon)
    }

    /// The evidence that verifies the claim, for and against it.
    pub open spec fn verification(&self) -> Seq<RefView> {
        verified_evidence(self.supporting_refs@) + verified_evidence(self.conflicting_refs@)
    }

    /// What was found agrees with the evidence for and against the claim.
    pub open spec fn status_verdict(&self) -> Verdict {
        match self.verification_status {
            ClaimVerificationStatus::Supported => demand(
                self.supporting_refs@.len() > 0 && self.conflicting_refs@.len() == 0 && (forall|
                    i: int,
                |
                    0 <= i < self.supporting_refs@.len() ==> (
                    #[trigger] self.supporting_refs@[i]).is_current()),
                empty("research.claim_verification.supported"@),
            ),
            ClaimVerificationStatus::Contradicted => demand(
                self.conflicting_refs@.len() > 0,
                empty("research.claim_verification.contradicted"@),
            ),
            ClaimVerificationStatus::NotEnoughInformation => Ok(()),
        }
    }

    pub open spec fn verdict(&self) -> Verdict {
        let outside = first_outside(
            self.verification(),
            ground_evidence(self.grounds@).to_set(),
        );
        if self.schema_version != DOMAIN_SCHEMA_VERSION || !(self.target.kind is Claim) || blank(
            self.topic@,
        ) || blank(self.rationale@) {
            Err(empty("research.critique"@))
        } else if self.grounds@.len() == 0 && self.evidence_gaps@.len() == 0 {
            Err(empty("research.critique.grounds_or_gaps"@))
        } else if self.grounds@.len() > 0 && grounds_verdict(self.grounds@) is Err {
            grounds_verdict(self.grounds@)
        } else if gaps_verdict(self.evidence_gaps@) is Err {
            gaps_verdict(self.evidence_gaps@)
        } else if references_verdict(self.supporting_refs@) is Err {
            references_verdict(self.supporting_refs@)
        } else if references_verdict(self.conflicting_refs@) is Err {
            references_verdict(self.conflicting_refs@)
        } else if outside is Some {
            Err(
                ErrorView::VerificationRefOutsideGrounds {
                    field: "research.claim_verification.ground_closure"@,
                    evidence: evidence_name(outside->0),
                },
            )
        } else if !self.blocker && has_blocking_gap(self.evidence_gaps@) {
            Err(empty("research.critique.blocking_gap_requires_blocker_true"@))
        } else {
            self.status_verdict()
        }
    }

    pub fn validate(&self) -> (r: Result<(), DomainError>)
        ensures
            outcome(r) == self.verdict(),
    {
        if self.schema_version != DOMAIN_SCHEMA_VERSION || self.target.kind != ArtifactKind::Claim
            || is_blank(&self.topic) || is_blank(&self.rationale) {
            return Err(empty_field("research.critique"));
        }
        if self.grounds.len() == 0 && self.evidence_gaps.len() == 0 {
            return Err(empty_field("research.critique.grounds_or_gaps"));
        }
        if self.grounds.len() > 0 {
            validate_grounds(&self.grounds)?;
        }
        validate_gaps(&self.evidence_gaps)?;
        validate_verification_refs(&self.supporting_refs)?;
        validate_verification_refs(&self.conflicting_refs)?;
        let grounds = ground_refs(&self.grounds);
        proof {
            first_outside_of_two_lists(
                verified_evidence(self.supporting_refs@),
                verified_evidence(self.conflicting_refs@),
                grounds@,
            );
        }
        let outside = match find_outside(&self.supporting_refs, &grounds) {
            Some(i) => Some(&self.supporting_refs[i]),
            None => match find_outside(&self.conflicting_refs, &grounds) {
                Some(i) => Some(&self.conflicting_refs[i]),
                None => None,
            },
        };
        if let Some(reference) = outside {
            return Err(
                DomainError::VerificationRefOutsideGrounds {
                    field: "research.claim_verification.ground_closure",
                    evidence: name_evidence(&reference.evidence),
                },
            );
        }
        if !self.blocker && some_gap_is_blocking(&self.evidence_gaps) {
            return Err(empty_field("research.critique.blocking_gap_requires_blocker_true"));
        }
        let current = |reference: &ClaimVerificationEvidence| -> (b: bool)
            ensures
                b == reference.is_current(),
            { reference.is_current_authoritative() };
        match self.verification_status {
            ClaimVerificationStatus::Supported => {
                if self.supporting_refs.len() == 0 || self.conflicting_refs.len() > 0 || !all_of(
                    self.supporting_refs.as_slice(),
                    current,
                ) {
                    return Err(empty_field("research.claim_verification.supported"));
                }
                Ok(())
            },
            ClaimVerificationStatus::Contradicted => {
                if self.conflicting_refs.len() == 0 {
                    return Err(empty_field("research.claim_verification.contradicted"));
                }
                Ok(())
            },
            ClaimVerificationStatus::NotEnoughInformation => Ok(()),
        }
    }

    /// What the critique is about and rests on.
    pub open spec fn sources(&self) -> Set<RefView> {
        ground_evidence(self.grounds@).to_set().insert(self.target@).union(
            self.verification().to_set(),
        )
    }

    /// The claim and all evidence that is cited, each once and in order.
    pub fn source_refs(&self) -> (r: Vec<ArtifactRef>)
        ensures
            views(r@) == listing::<ArtifactRef>(self.sources()),
    {
        let mut refs = ground_refs(&self.grounds);
        refs.insert(self.target.clone());
        let ghost basis = refs@;
        proof {
            let a = verified_evidence(self.supporting_refs@);
            let b = verified_evidence(self.conflicting_refs@);
            assert((a + b).to_set() =~= a.to_set().union(b.to_set())) by {
                assert forall|v: RefView| (a + b).to_set().contains(v) == a.to_set().union(
                    b.to_set(),
                ).contains(v) by {
                    if a.contains(v) {
                        let i = choose|i: int| 0 <= i < a.len() && a[i] == v;
                        assert((a + b)[i] == v);
                    }
                    if b.contains(v) {
                        let i = choose|i: int| 0 <= i < b.len() && b[i] == v;
                        assert((a + b)[a.len() + i] == v);
                    }
                    if (a + b).contains(v) {
                        let i = choose|i: int| 0 <= i < (a + b).len() && (a + b)[i] == v;
                        if i < a.len() {
                            assert(a[i] == v);
                        } else {
                            assert(b[i - a.len()] == v);
                        }
                    }
                }
            }
        }
        insert_verified(&mut refs, &self.supporting_refs);
        insert_verified(&mut refs, &self.conflicting_refs);
        proof {
            assert(refs@ =~= basis.union(self.verification().to_set()));
        }
        refs.into_vec()
    }
}

fn insert_verified(refs: &mut OrderedSet<ArtifactRef>, list: &Vec<ClaimVerificationEvidence>)
    ensures
        final(refs)@ == old(refs)@.union(verified_evidence(list@).to_set()),
{
    let ghost cited = verified_evidence(list@);
    let ghost before = refs@;
    let mut i: usize = 0;
    proof {
        assert(cited.take(0).to_set() =~= Set::<RefView>::empty());
        assert(before.union(cited.take(0).to_set()) =~= before);
    }
    while i < list.len()
        invariant
            i <= list.len(),
            cited == verified_evidence(list@),
            refs@ == before.union(cited.take(i as int).to_set()),
        decreases list.len() - i,
    {
        refs.insert(list[i].evidence.clone());
        proof {
            assert(cited.take(i + 1) =~= cited.take(i as int).push(list@[i as int].evidence@));
            cited.take(i as int).lemma_push_to_set_commute(list@[i as int].evidence@);
            assert(refs@ =~= before.union(cited.take(i + 1).to_set()));
        }
        i += 1;
    }
    proof {
        assert(cited.take(cited.len() as int) =~= cited);
    }
}

/// How a critique of a claim was settled.
#[derive(Debug, Clone, PartialEq, Eq)]
pub struct ResearchResolution {
    pub schema_version: u32,
    pub claim: ArtifactRef,
    pub critique: ArtifactRef,
    pub disposition: ResolutionDisposition,
    pub rationale: String,
    pub grounds: Vec<EvidenceGround>,
    pub remaining_gaps: Vec<EvidenceGap>,
}

impl ResearchResolution {
    pub open spec fn verdict(&self) -> Verdict {
        if self.schema_version != DOMAIN_SCHEMA_VERSION || !(self.claim.kind is Claim)
            || !(self.critique.kind is Critique) || blank(self.rationale@) {
            Err(empty("research.resolution"@))
        } else {
            first(grounds_verdict(self.grounds@), gaps_verdict(self.remaining_gaps@))
        }
    }

    pub fn validate(&self) -> (r: Result<(), DomainError>)
        ensures
            outcome(r) == self.verdict(),
    {
        if self.schema_version != DOMAIN_SCHEMA_VERSION || self.claim.kind != ArtifactKind::Claim
            || self.critique.kind != ArtifactKind::Critique || is_blank(&self.rationale) {
            return Err(empty_field("research.resolution"));
        }
        validate_grounds(&self.grounds)?;
        validate_gaps(&self.remaining_gaps)
    }

    /// What the resolution is about and rests on.
    pub open spec fn sources(&self) -> Set<RefView> {
        ground_evidence(self.grounds@).to_set().insert(self.claim@).insert(self.critique@)
    }

    /// The claim, the critique and the evidence of the grounds, each once and in order.
    pub fn source_refs(&self) -> (r: Vec<ArtifactRef>)
        ensures
            views(r@) == listing::<ArtifactRef>(self.sources()),
    {
        let mut refs = ground_refs(&self.grounds);
        refs.insert(self.claim.clone());
        refs.insert(self.critique.clone());
        refs.into_vec()
    }
}

/// A valid critique cites only evidence that its own grounds hold.
pub proof fn valid_critique_cites_its_grounds(critique: ResearchCritique, i: int)
    requires
        critique.verdict() is Ok,
        0 <= i < critique.verification().len(),
    ensures
        ground_evidence(critique.grounds@).contains(critique.verification()[i]),
{
    let grounds = ground_evidence(critique.grounds@).to_set();
    none_outside_means_all_cited(critique.verification(), grounds);
    assert(grounds.contains(critique.verification()[i]));
}

proof fn none_outside_means_all_cited(cited: Seq<RefView>, grounds: Set<RefView>)
    requires
        first_outside(cited, grounds) is None,
    ensures
        forall|i: int| 0 <= i < cited.len() ==> grounds.contains(#[trigger] cited[i]),
    decreases cited.len(),
{
    if cited.len() > 0 {
        none_outside_means_all_cited(cited.drop_first(), grounds);
        assert forall|i: int| 0 <= i < cited.len() implies grounds.contains(#[trigger] cited[i]) by {
            if i > 0 {
                assert(cited.drop_first()[i - 1] == cited[i]);
            }
        }
    }
}

/// A valid critique that finds its claim supported blocks no slot unless it is a blocker, and
/// cites no evidence against the claim.
pub proof fn supported_critique_has_no_conflict(critique: ResearchCritique)
    requires
        critique.verdict() is Ok,
        critique.verification_status is Supported,
    ensures
        critique.conflicting_refs@.len() == 0,
        critique.supporting_refs@.len() > 0,
        !critique.blocker ==> !has_blocking_gap(critique.evidence_gaps@),
{
}

/// What a claim verification evidence is refused with: the first fault that it has.
pub proof fn refusal_of_claim_verification_evidence_names_its_fault(
    this: ClaimVerificationEvidence,
)
    ensures
        !(is_evidence_kind(this.evidence.kind))
            ==> this.verdict() == Verdict::Err(empty("research.claim_verification.evidence"@)),
{
}

/// What a research intent is refused with: the first fault that it has.
pub proof fn refusal_of_research_intent_names_its_fault(this: ResearchIntent)
    ensures
        (!this.is_bounded()) ==> this.verdict() == Verdict::Err(empty("research.intent"@)),
        !(!this.is_bounded()) && (!is_governed_source(this.source_family@))
            ==> this.verdict() == Verdict::Err(
                ErrorView::EvidenceSourceNotAllowed(this.source_family@),
            ),
        !(!this.is_bounded()) && !(!is_governed_source(this.source_family@))
            && (this.asks_prices_for_news())
            ==> this.verdict() == Verdict::Err(empty("research.intent.news_requires_news_source"@)),
        !(!this.is_bounded()) && !(!is_governed_source(this.source_family@))
            && !(this.asks_prices_for_news()) && (!this.window_is_valid())
            ==> this.verdict() == Verdict::Err(
                ErrorView::InvalidEvidenceWindow { field: "research.intent.window"@, start: display_text(this.window_start->0.secs(), this.window_start->0.nanos()), end: display_text(this.window_end->0.secs(), this.window_end->0.nanos()), },
            ),
{
}

/// What an evidence ground is refused with: the first fault that it has.
pub proof fn refusal_of_evidence_ground_names_its_fault(this: EvidenceGround)
    ensures
        !(is_evidence_kind(this.evidence.kind) && !blank(this.support@))
            ==> this.verdict() == Verdict::Err(empty("research.ground"@)),
        (is_evidence_kind(this.evidence.kind) && !blank(this.support@))
            && !(this.role is Directional ==> this.assets@.len() > 0)
            ==> this.verdict() == Verdict::Err(ErrorView::InvalidEvidenceGroundScope),
{
}

/// What an evidence gap is refused with: the first fault that it has.
pub proof fn refusal_of_evidence_gap_names_its_fault(this: EvidenceGap)
    ensures
        (blank(this.topic@) || blank(this.rationale@))
            ==> this.verdict() == Verdict::Err(empty("research.evidence_gap"@)),
        !(blank(this.topic@) || blank(this.rationale@)) && (this.retriable
            && this.impact is BlocksDirectionalForecast && this.supplemental_needs@.len() == 0
            && this.supplemental_requests@.len() == 0)
            ==> this.verdict() == Verdict::Err(
                empty("research.evidence_gap.retriable_requires_supplemental_needs"@),
            ),
        !(blank(this.topic@) || blank(this.rationale@)) && !(this.retriable
            && this.impact is BlocksDirectionalForecast && this.supplemental_needs@.len() == 0
            && this.supplemental_requests@.len() == 0)
            && (this.supplemental_needs@.len() + this.supplemental_requests@.len() > 8)
            ==> this.verdict() == Verdict::Err(budget("research.evidence_gap.supplemental_needs"@)),
{
}

/// What a research claim is refused with: the first fault that it has.
pub proof fn refusal_of_research_claim_names_its_fault(this: ResearchClaim)
    ensures
        (this.schema_version != DOMAIN_SCHEMA_VERSION || blank(this.topic@)
            || blank(this.statement@)) ==> this.verdict() == Verdict::Err(empty("research.claim"@)),
        !(this.schema_version != DOMAIN_SCHEMA_VERSION || blank(this.topic@)
            || blank(this.statement@)) && (this.materiality_ppm > 1_000_000)
            ==> this.verdict() == Verdict::Err(budget("research.claim.materiality_ppm"@)),
        !(this.schema_version != DOMAIN_SCHEMA_VERSION || blank(this.topic@)
            || blank(this.statement@)) && !(this.materiality_ppm > 1_000_000)
            && (this.confidence_ppm > 1_000_000)
            ==> this.verdict() == Verdict::Err(budget("research.claim.confidence_ppm"@)),
{
}

/// What is refused in this respect is refused with the first fault that it has.
pub proof fn grounds_verdict_names_its_fault(grounds: Seq<EvidenceGround>)
    ensures
        (grounds.len() == 0)
            ==> grounds_verdict(grounds) == Verdict::Err(empty("research.grounds"@)),
{
}

/// What is refused in this respect is refused with the first fault that it has.
pub proof fn gaps_verdict_names_its_fault(gaps: Seq<EvidenceGap>)
    ensures
        (gaps.len() > MAX_EVIDENCE_GAPS)
            ==> gaps_verdict(gaps) == Verdict::Err(budget("research.evidence_gaps"@)),
{
}

/// What a research resolution is refused with: the first fault that it has.
pub proof fn refusal_of_research_resolution_names_its_fault(this: ResearchResolution)
    ensures
        (this.schema_version != DOMAIN_SCHEMA_VERSION || !(this.claim.kind is Claim)
            || !(this.critique.kind is Critique) || blank(this.rationale@))
            ==> this.verdict() == Verdict::Err(empty("research.resolution"@)),
{
}

} // verus!
