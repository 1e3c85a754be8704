//! The instruments, and the evidence that is required of each for a session.
use crate::compound::{by_parts, joined_codes, number_part, numbers_settle, rank_counts};
use crate::foundation::{sha256_text, Asset, ContentHash};
use crate::json::{
    json_insert, json_new_object, json_object, json_text, no_members, JsonItem, JsonKey, JsonTree,
    ToJson,
};
use crate::ordered::{listing, rank_numbers, views, Key, OrderedSet, Rank};
use crate::research::{EvidenceNeed, EvidenceNeedView};
use crate::text::{
    decimal, decimal_text, has_prefix, is_listed, joined, listed, parts_between, same_text,
    split_text, starts_with, text_views, first_part, single_part,
};
use crate::time::{day_read, day_text, CalendarDay, FIRST_DAY, LAST_DAY};
use crate::DOMAIN_SCHEMA_VERSION;
use vstd::prelude::*;

verus! {

pub const INSTRUMENT_EVIDENCE_REGISTRY_VERSION: u32 = 1;

/// What kind of fund an instrument is.
#[derive(Clone, Copy, Debug, PartialEq, Eq, PartialOrd, Ord, Hash, Structural)]
pub enum InstrumentKind {
    Etf,
    DailyResetLeveragedEtf,
}

impl InstrumentKind {
    /// The name of the variant in JSON.
    pub open spec fn wire(self) -> Seq<char> {
        match self {
            InstrumentKind::Etf => "etf"@,
            InstrumentKind::DailyResetLeveragedEtf => "daily_reset_leveraged_etf"@,
        }
    }

    /// The name of the variant in JSON.
    pub fn wire_name(self) -> (r: &'static str)
        ensures
            r@ == self.wire(),
    {
        match self {
            InstrumentKind::Etf => "etf",
            InstrumentKind::DailyResetLeveragedEtf => "daily_reset_leveraged_etf",
        }
    }
}

impl ToJson for InstrumentKind {
    open spec fn json(&self) -> JsonTree {
        JsonTree::Text(self.wire())
    }

    fn to_json(&self) -> (r: serde_json::Value) {
        json_text(self.wire_name())
    }
}

impl InstrumentKind {
    /// The name of the variant.
    pub open spec fn variant(self) -> Seq<char> {
        match self {
            InstrumentKind::Etf => "Etf"@,
            InstrumentKind::DailyResetLeveragedEtf => "DailyResetLeveragedEtf"@,
        }
    }

    /// The name of the variant.
    pub fn variant_name(self) -> (r: &'static str)
        ensures
            r@ == self.variant(),
    {
        match self {
            InstrumentKind::Etf => "Etf",
            InstrumentKind::DailyResetLeveragedEtf => "DailyResetLeveragedEtf",
        }
    }
}

/// What is known of an instrument.
#[derive(Clone, Copy, Debug, PartialEq, Eq)]
pub struct InstrumentEvidenceProfile {
    pub asset: Asset,
    pub kind: InstrumentKind,
    pub issuer: &'static str,
    pub benchmark: &'static str,
    pub daily_leverage_multiplier: u8,
}

impl InstrumentEvidenceProfile {
    /// Whether the leverage is set anew every day.
    pub fn daily_reset(self) -> (r: bool)
        ensures
            r == (self.kind is DailyResetLeveragedEtf),
    {
        matches!(self.kind, InstrumentKind::DailyResetLeveragedEtf)
    }
}

/// The instruments, in the order in which their evidence is listed.
pub open spec fn registered() -> Seq<Asset> {
    seq![Asset::Qqq, Asset::Tqqq, Asset::Soxx, Asset::Soxl]
}

/// The kind of fund behind an asset.
pub open spec fn kind_of(asset: Asset) -> InstrumentKind {
    match asset {
        Asset::Qqq => InstrumentKind::Etf,
        Asset::Tqqq => InstrumentKind::DailyResetLeveragedEtf,
        Asset::Soxx => InstrumentKind::Etf,
        Asset::Soxl => InstrumentKind::DailyResetLeveragedEtf,
    }
}

/// Who issues the fund behind an asset.
pub open spec fn issuer_of(asset: Asset) -> Seq<char> {
    match asset {
        Asset::Qqq => "Invesco"@,
        Asset::Tqqq => "ProShares"@,
        Asset::Soxx => "iShares"@,
        Asset::Soxl => "Direxion"@,
    }
}

/// The index that the fund behind an asset follows.
pub open spec fn benchmark_of(asset: Asset) -> Seq<char> {
    match asset {
        Asset::Qqq => "Nasdaq-100 Index"@,
        Asset::Tqqq => "Nasdaq-100 Index"@,
        Asset::Soxx => "NYSE Semiconductor Index"@,
        Asset::Soxl => "NYSE Semiconductor Index"@,
    }
}

/// How many times the fund behind an asset moves with its index.
pub open spec fn multiplier_of(asset: Asset) -> u8 {
    match asset {
        Asset::Qqq => 1,
        Asset::Tqqq => 3,
        Asset::Soxx => 1,
        Asset::Soxl => 3,
    }
}

impl InstrumentEvidenceProfile {
    pub open spec fn describes(&self, asset: Asset) -> bool {
        &&& self.asset == asset
        &&& self.kind == kind_of(asset)
        &&& self.issuer@ == issuer_of(asset)
        &&& self.benchmark@ == benchmark_of(asset)
        &&& self.daily_leverage_multiplier == multiplier_of(asset)
    }

    fn of(asset: Asset) -> (r: InstrumentEvidenceProfile)
        ensures
            r.describes(asset),
    {
        match asset {
            Asset::Qqq => InstrumentEvidenceProfile {
                asset: Asset::Qqq,
                kind: InstrumentKind::Etf,
                issuer: "Invesco",
                benchmark: "Nasdaq-100 Index",
                daily_leverage_multiplier: 1,
            },
            Asset::Tqqq => InstrumentEvidenceProfile {
                asset: Asset::Tqqq,
                kind: InstrumentKind::DailyResetLeveragedEtf,
                issuer: "ProShares",
                benchmark: "Nasdaq-100 Index",
                daily_leverage_multiplier: 3,
            },
            Asset::Soxx => InstrumentEvidenceProfile {
                asset: Asset::Soxx,
                kind: InstrumentKind::Etf,
                issuer: "iShares",
                benchmark: "NYSE Semiconductor Index",
                daily_leverage_multiplier: 1,
            },
            Asset::Soxl => InstrumentEvidenceProfile {
                asset: Asset::Soxl,
                kind: InstrumentKind::DailyResetLeveragedEtf,
                issuer: "Direxion",
                benchmark: "NYSE Semiconductor Index",
                daily_leverage_multiplier: 3,
            },
        }
    }
}

/// The profiles of the instruments, in their order.
pub fn instrument_evidence_registry() -> (r: [InstrumentEvidenceProfile; 4])
    ensures
        forall|i: int| 0 <= i < 4 ==> (#[trigger] r@[i]).describes(registered()[i]),
{
    let r = [
        InstrumentEvidenceProfile::of(Asset::Qqq),
        InstrumentEvidenceProfile::of(Asset::Tqqq),
        InstrumentEvidenceProfile::of(Asset::Soxx),
        InstrumentEvidenceProfile::of(Asset::Soxl),
    ];
    proof {
        assert forall|i: int| 0 <= i < 4 implies (#[trigger] r@[i]).describes(registered()[i]) by {
            assert(i == 0 || i == 1 || i == 2 || i == 3);
        }
    }
    r
}

/// What evidence is about.
#[derive(Clone, Copy, Debug, PartialEq, Eq, PartialOrd, Ord, Hash, Structural)]
pub enum InstrumentEvidenceCategory {
    EtfHoldings,
    IndexMetadata,
    LeveragedEtfTerms,
    CorporateActions,
    EarningsEventCalendar,
    MacroReleaseCalendar,
    ImpliedVolatilityTermStructure,
    LiquiditySpread,
}

impl InstrumentEvidenceCategory {
    /// The name of the variant in JSON.
    pub open spec fn wire(self) -> Seq<char> {
        match self {
            InstrumentEvidenceCategory::EtfHoldings => "etf_holdings"@,
            InstrumentEvidenceCategory::IndexMetadata => "index_metadata"@,
            InstrumentEvidenceCategory::LeveragedEtfTerms => "leveraged_etf_terms"@,
            InstrumentEvidenceCategory::CorporateActions => "corporate_actions"@,
            InstrumentEvidenceCategory::EarningsEventCalendar => "earnings_event_calendar"@,
            InstrumentEvidenceCategory::MacroReleaseCalendar => "macro_release_calendar"@,
            InstrumentEvidenceCategory::ImpliedVolatilityTermStructure => "implied_volatility_term_structure"@,
            InstrumentEvidenceCategory::LiquiditySpread => "liquidity_spread"@,
        }
    }

    /// The name of the variant in JSON.
    pub fn wire_name(self) -> (r: &'static str)
        ensures
            r@ == self.wire(),
    {
        match self {
            InstrumentEvidenceCategory::EtfHoldings => "etf_holdings",
            InstrumentEvidenceCategory::IndexMetadata => "index_metadata",
            InstrumentEvidenceCategory::LeveragedEtfTerms => "leveraged_etf_terms",
            InstrumentEvidenceCategory::CorporateActions => "corporate_actions",
            InstrumentEvidenceCategory::EarningsEventCalendar => "earnings_event_calendar",
            InstrumentEvidenceCategory::MacroReleaseCalendar => "macro_release_calendar",
            InstrumentEvidenceCategory::ImpliedVolatilityTermStructure => "implied_volatility_term_structure",
            InstrumentEvidenceCategory::LiquiditySpread => "liquidity_spread",
        }
    }
}

impl ToJson for InstrumentEvidenceCategory {
    open spec fn json(&self) -> JsonTree {
        JsonTree::Text(self.wire())
    }

    fn to_json(&self) -> (r: serde_json::Value) {
        json_text(self.wire_name())
    }
}

impl View for InstrumentEvidenceCategory {
    type V = InstrumentEvidenceCategory;

    open spec fn view(&self) -> InstrumentEvidenceCategory {
        *self
    }
}

impl InstrumentEvidenceCategory {
    /// Where the variant stands in the order.
    pub open spec fn place(self) -> u32 {
        match self {
            InstrumentEvidenceCategory::EtfHoldings => 0,
            InstrumentEvidenceCategory::IndexMetadata => 1,
            InstrumentEvidenceCategory::LeveragedEtfTerms => 2,
            InstrumentEvidenceCategory::CorporateActions => 3,
            InstrumentEvidenceCategory::EarningsEventCalendar => 4,
            InstrumentEvidenceCategory::MacroReleaseCalendar => 5,
            InstrumentEvidenceCategory::ImpliedVolatilityTermStructure => 6,
            InstrumentEvidenceCategory::LiquiditySpread => 7,
        }
    }

    pub(crate) fn place_number(self) -> (r: u32)
        ensures
            r == self.place(),
    {
        match self {
            InstrumentEvidenceCategory::EtfHoldings => 0,
            InstrumentEvidenceCategory::IndexMetadata => 1,
            InstrumentEvidenceCategory::LeveragedEtfTerms => 2,
            InstrumentEvidenceCategory::CorporateActions => 3,
            InstrumentEvidenceCategory::EarningsEventCalendar => 4,
            InstrumentEvidenceCategory::MacroReleaseCalendar => 5,
            InstrumentEvidenceCategory::ImpliedVolatilityTermStructure => 6,
            InstrumentEvidenceCategory::LiquiditySpread => 7,
        }
    }
}

impl Key for InstrumentEvidenceCategory {
    open spec fn code(key: InstrumentEvidenceCategory) -> Seq<int> {
        seq![key.place() as int]
    }

    proof fn code_is_injective(a: InstrumentEvidenceCategory, b: InstrumentEvidenceCategory) {
        assert(Self::code(a)[0] == a.place() as int && Self::code(b)[0] == b.place() as int);
    }

    fn rank(&self, other: &Self) -> (r: Rank) {
        rank_numbers((*self).place_number(), (*other).place_number())
    }

    fn duplicate(&self) -> (r: Self) {
        *self
    }
}

impl JsonItem for InstrumentEvidenceCategory {
    open spec fn item_json(key: InstrumentEvidenceCategory) -> JsonTree {
        JsonTree::Text(key.wire())
    }

    fn to_item_json(&self) -> (r: serde_json::Value) {
        json_text((*self).wire_name())
    }
}

impl JsonKey for InstrumentEvidenceCategory {
    open spec fn key_text(key: InstrumentEvidenceCategory) -> Seq<char> {
        key.wire()
    }

    fn to_key_text(&self) -> (r: String) {
        (*self).wire_name().to_owned()
    }
}

impl InstrumentEvidenceCategory {
    pub fn as_str(self) -> (r: &'static str)
        ensures
            r@ == self.wire(),
    {
        self.wire_name()
    }
}

/// What a piece of evidence is of; of no asset where it is of the economy.
#[derive(Clone, Copy, Debug, PartialEq, Eq, PartialOrd, Ord, Structural)]
pub struct InstrumentEvidenceKey {
    pub asset: Option<Asset>,
    pub category: InstrumentEvidenceCategory,
}

impl ToJson for InstrumentEvidenceKey {
    open spec fn json(&self) -> JsonTree {
        let m = no_members();
        let m = m.insert("asset"@, self.asset.json());
        let m = m.insert("category"@, self.category.json());
        JsonTree::Object(m)
    }

    fn to_json(&self) -> (r: serde_json::Value) {
        let mut members = json_new_object();
        json_insert(&mut members, "asset", self.asset.to_json());
        json_insert(&mut members, "category", self.category.to_json());
        json_object(members)
    }
}

impl View for InstrumentEvidenceKey {
    type V = InstrumentEvidenceKey;

    open spec fn view(&self) -> InstrumentEvidenceKey {
        *self
    }
}

/// Where an asset stands, behind none.
pub open spec fn asset_place(asset: Option<Asset>) -> int {
    match asset {
        Some(own) => own.place() + 1,
        None => 0,
    }
}

impl Key for InstrumentEvidenceKey {
    open spec fn code(key: InstrumentEvidenceKey) -> Seq<int> {
        number_part(asset_place(key.asset)) + number_part(key.category.place() as int)
    }

    proof fn code_is_injective(a: InstrumentEvidenceKey, b: InstrumentEvidenceKey) {
        numbers_settle(asset_place(a.asset), asset_place(b.asset));
        numbers_settle(a.category.place() as int, b.category.place() as int);
        joined_codes(
            number_part(asset_place(a.asset)),
            number_part(asset_place(b.asset)),
            number_part(a.category.place() as int),
            number_part(b.category.place() as int),
        );
    }

    fn rank(&self, other: &Self) -> (r: Rank) {
        let a: u64 = match self.asset {
            Some(own) => own.place_number() as u64 + 1,
            None => 0,
        };
        let b: u64 = match other.asset {
            Some(own) => own.place_number() as u64 + 1,
            None => 0,
        };
        proof {
            numbers_settle(a as int, b as int);
            joined_codes(
                number_part(a as int),
                number_part(b as int),
                number_part(self.category.place() as int),
                number_part(other.category.place() as int),
            );
        }
        by_parts(
            rank_counts(a, b),
            rank_counts(
                self.category.place_number() as u64,
                other.category.place_number() as u64,
            ),
        )
    }

    fn duplicate(&self) -> (r: Self) {
        *self
    }
}

/// A piece of evidence that is required.
#[derive(Debug, Clone, PartialEq, Eq)]
pub struct InstrumentEvidenceRequirement {
    pub registry_version: u32,
    pub key: InstrumentEvidenceKey,
    pub need: EvidenceNeed,
}

/// A piece of evidence that is required and was not found.
#[derive(Debug, Clone, PartialEq, Eq)]
pub struct InstrumentEvidenceBlocker {
    pub registry_version: u32,
    pub key: InstrumentEvidenceKey,
    pub expected_source_family: String,
    pub expected_resource: String,
}

/// What a profile enters the digest of the registry with.
pub open spec fn profile_text(asset: Asset) -> Seq<char> {
    asset.wire() + ":"@ + kind_of(asset).variant() + ":"@ + issuer_of(asset) + ":"@ + benchmark_of(
        asset,
    ) + ":"@ + decimal(multiplier_of(asset) as nat) + ":"@ + if kind_of(
        asset,
    ) is DailyResetLeveragedEtf {
        "true"@
    } else {
        "false"@
    }
}

/// What the digest of the registry is made of.
pub open spec fn registry_text() -> Seq<char> {
    "akzio.instrument_evidence_registry:v"@ + decimal(INSTRUMENT_EVIDENCE_REGISTRY_VERSION as nat)
        + "|"@ + profile_text(Asset::Qqq) + "|"@ + profile_text(Asset::Tqqq) + "|"@ + profile_text(
        Asset::Soxx,
    ) + "|"@ + profile_text(Asset::Soxl)
}

fn profile_identity(profile: &InstrumentEvidenceProfile) -> (r: String)
    requires
        profile.describes(profile.asset),
    ensures
        r@ == profile_text(profile.asset),
{
    let text = joined(profile.asset.symbol(), ":");
    let text = joined(&text, profile.kind.variant_name());
    let text = joined(&text, ":");
    let text = joined(&text, profile.issuer);
    let text = joined(&text, ":");
    let text = joined(&text, profile.benchmark);
    let text = joined(&text, ":");
    let text = joined(&text, &decimal_text(profile.daily_leverage_multiplier as u64));
    let text = joined(&text, ":");
    joined(
        &text,
        if profile.daily_reset() {
            "true"
        } else {
            "false"
        },
    )
}

/// The digest of the registry, by which a change of it is known.
pub fn instrument_evidence_registry_hash() -> (r: ContentHash)
    ensures
        r@ == sha256_text(vstd::utf8::encode_utf8(registry_text())),
{
    let registry = instrument_evidence_registry();
    proof {
        assert(registry@[0].describes(registered()[0]));
        assert(registry@[1].describes(registered()[1]));
        assert(registry@[2].describes(registered()[2]));
        assert(registry@[3].describes(registered()[3]));
    }
    let text = joined(
        "akzio.instrument_evidence_registry:v",
        &decimal_text(INSTRUMENT_EVIDENCE_REGISTRY_VERSION as u64),
    );
    let text = joined(&text, "|");
    let text = joined(&text, &profile_identity(&registry[0]));
    let text = joined(&text, "|");
    let text = joined(&text, &profile_identity(&registry[1]));
    let text = joined(&text, "|");
    let text = joined(&text, &profile_identity(&registry[2]));
    let text = joined(&text, "|");
    let text = joined(&text, &profile_identity(&registry[3]));
    ContentHash::of_bytes(text.as_str().as_bytes())
}

/// A day a number of days after that of the session, written as a day; the session itself where
/// it is no day, or the calendar does not reach so far.
pub open spec fn shifted(session: Seq<char>, days: int) -> Seq<char> {
    match day_read(session) {
        Some(day) => if FIRST_DAY <= day + days <= LAST_DAY {
            day_text(day + days)
        } else {
            session
        },
        None => session,
    }
}

fn shift(session: &str, days: i32) -> (r: String)
    ensures
        r@ == shifted(session@, days as int),
        !session@.contains(':') ==> !r@.contains(':'),
{
    match CalendarDay::parse(session) {
        Some(day) => match day.plus(days) {
            Some(later) => later.text(),
            None => session.to_owned(),
        },
        None => session.to_owned(),
    }
}

/// What is required: of what, from where, and how old it may be.
pub ghost struct RequirementView {
    pub key: InstrumentEvidenceKey,
    pub source_family: Seq<char>,
    pub resource: Seq<char>,
    pub max_age_secs: u64,
}

impl InstrumentEvidenceRequirement {
    /// A requirement of the registry as it is.
    pub open spec fn states(&self, view: RequirementView) -> bool {
        &&& self.registry_version == INSTRUMENT_EVIDENCE_REGISTRY_VERSION
        &&& self.key == view.key
        &&& self.need.schema_version == DOMAIN_SCHEMA_VERSION
        &&& self.need.source_family@ == view.source_family
        &&& self.need.resource@ == view.resource
        &&& self.need.max_age_secs == view.max_age_secs
    }
}

/// Each requirement of a list states what the other list says.
pub open spec fn states_all(
    list: Seq<InstrumentEvidenceRequirement>,
    wanted: Seq<RequirementView>,
) -> bool {
    &&& list.len() == wanted.len()
    &&& forall|i: int| 0 <= i < list.len() ==> (#[trigger] list[i]).states(wanted[i])
}

/// What is researched of an asset in the news.
pub open spec fn research_resource(category: Seq<char>, symbol: Seq<char>, session: Seq<char>) -> Seq<
    char,
> {
    "research:"@ + category + ":"@ + symbol + ":"@ + session
}

/// What is asked of an asset between two days.
pub open spec fn ranged_resource(
    name: Seq<char>,
    symbol: Seq<char>,
    from: Seq<char>,
    to: Seq<char>,
) -> Seq<char> {
    name + symbol + ":"@ + from + ":"@ + to
}

pub open spec fn key_of(asset: Asset, category: InstrumentEvidenceCategory) -> InstrumentEvidenceKey {
    InstrumentEvidenceKey { asset: Some(asset), category }
}

/// What is researched of an asset in one category.
pub open spec fn researched(
    asset: Asset,
    category: InstrumentEvidenceCategory,
    session: Seq<char>,
    max_age_secs: u64,
) -> RequirementView {
    RequirementView {
        key: key_of(asset, category),
        source_family: "news_web"@,
        resource: research_resource(category.wire(), asset.wire(), session),
        max_age_secs,
    }
}

/// What is required of an asset for a session.
pub open spec fn required_of(asset: Asset, session: Seq<char>) -> Seq<RequirementView> {
    let news = seq![
        researched(asset, InstrumentEvidenceCategory::EtfHoldings, session, 86_400),
        researched(asset, InstrumentEvidenceCategory::IndexMetadata, session, 86_400),
        researched(asset, InstrumentEvidenceCategory::EarningsEventCalendar, session, 86_400),
    ];
    let terms = if kind_of(asset) is DailyResetLeveragedEtf {
        news.push(
            researched(asset, InstrumentEvidenceCategory::LeveragedEtfTerms, session, 604_800),
        )
    } else {
        news
    };
    terms.push(
        RequirementView {
            key: key_of(asset, InstrumentEvidenceCategory::CorporateActions),
            source_family: "alpaca"@,
            resource: ranged_resource(
                "corporate_actions:"@,
                asset.wire(),
                shifted(session, -366),
                session,
            ),
            max_age_secs: 86_400,
        },
    ).push(
        RequirementView {
            key: key_of(asset, InstrumentEvidenceCategory::ImpliedVolatilityTermStructure),
            source_family: "alpaca"@,
            resource: ranged_resource(
                "option_chain:"@,
                asset.wire(),
                session,
                shifted(session, 120),
            ),
            max_age_secs: 300,
        },
    ).push(
        RequirementView {
            key: key_of(asset, InstrumentEvidenceCategory::LiquiditySpread),
            source_family: "alpaca"@,
            resource: "paper.quotes"@,
            max_age_secs: 300,
        },
    )
}

/// What is required of the economy for a session.
pub open spec fn required_of_the_economy(session: Seq<char>) -> RequirementView {
    RequirementView {
        key: InstrumentEvidenceKey {
            asset: None,
            category: InstrumentEvidenceCategory::MacroReleaseCalendar,
        },
        source_family: "fred"@,
        resource: "release_calendar:"@ + session + ":"@ + shifted(session, 45) + ":"@ + shifted(
            session,
            -1,
        ),
        max_age_secs: 86_400,
    }
}

/// All that is required for a session.
pub open spec fn required(session: Seq<char>) -> Seq<RequirementView> {
    (required_of(Asset::Qqq, session) + required_of(Asset::Tqqq, session) + required_of(
        Asset::Soxx,
        session,
    ) + required_of(Asset::Soxl, session)).push(required_of_the_economy(session))
}

fn requirement(
    asset: Option<Asset>,
    category: InstrumentEvidenceCategory,
    source_family: &str,
    resource: String,
    max_age_secs: u64,
) -> (r: InstrumentEvidenceRequirement)
    ensures
        r.states(
            (RequirementView {
                key: InstrumentEvidenceKey { asset, category },
                source_family: source_family@,
                resource: resource@,
                max_age_secs,
            }),
        ),
{
    InstrumentEvidenceRequirement {
        registry_version: INSTRUMENT_EVIDENCE_REGISTRY_VERSION,
        key: InstrumentEvidenceKey { asset, category },
        need: EvidenceNeed {
            schema_version: DOMAIN_SCHEMA_VERSION,
            source_family: source_family.to_owned(),
            resource,
            max_age_secs,
        },
    }
}

fn research_text(category: &str, symbol: &str, session: &str) -> (r: String)
    ensures
        r@ == research_resource(category@, symbol@, session@),
{
    let text = joined("research:", category);
    let text = joined(&text, ":");
    let text = joined(&text, symbol);
    let text = joined(&text, ":");
    joined(&text, session)
}

fn ranged_text(name: &str, symbol: &str, from: &str, to: &str) -> (r: String)
    ensures
        r@ == ranged_resource(name@, symbol@, from@, to@),
{
    let text = joined(name, symbol);
    let text = joined(&text, ":");
    let text = joined(&text, from);
    let text = joined(&text, ":");
    joined(&text, to)
}

fn add_researched(
    list: &mut Vec<InstrumentEvidenceRequirement>,
    asset: Asset,
    category: InstrumentEvidenceCategory,
    session: &str,
    max_age_secs: u64,
)
    ensures
        final(list)@.len() == old(list)@.len() + 1,
        final(list)@.drop_last() == old(list)@,
        final(list)@.last().states(researched(asset, category, session@, max_age_secs)),
{
    let resource = research_text(category.as_str(), asset.symbol(), session);
    list.push(requirement(Some(asset), category, "news_web", resource, max_age_secs));
    proof {
        assert(list@.drop_last() =~= old(list)@);
    }
}

proof fn one_more_is_stated(
    list: Seq<InstrumentEvidenceRequirement>,
    wanted: Seq<RequirementView>,
    view: RequirementView,
)
    requires
        list.len() > 0,
        states_all(list.drop_last(), wanted),
        list.last().states(view),
    ensures
        states_all(list, wanted.push(view)),
{
    let more = wanted.push(view);
    assert forall|i: int| 0 <= i < list.len() implies (#[trigger] list[i]).states(more[i]) by {
        if i < wanted.len() {
            assert(list.drop_last()[i] == list[i]);
        }
    }
}

fn add_asset(list: &mut Vec<InstrumentEvidenceRequirement>, asset: Asset, session: &str, Ghost(
    before,
): Ghost<Seq<RequirementView>>)
    requires
        states_all(old(list)@, before),
    ensures
        states_all(final(list)@, before + required_of(asset, session@)),
        !session@.contains(':') ==> !shifted(session@, -366).contains(':') && !shifted(
            session@,
            120,
        ).contains(':'),
{
    let profile = InstrumentEvidenceProfile::of(asset);
    let ghost mut so_far = before;
    add_researched(list, asset, InstrumentEvidenceCategory::EtfHoldings, session, 86_400);
    proof {
        let next = researched(asset, InstrumentEvidenceCategory::EtfHoldings, session@, 86_400);
        one_more_is_stated(list@, so_far, next);
        so_far = so_far.push(next);
    }
    add_researched(list, asset, InstrumentEvidenceCategory::IndexMetadata, session, 86_400);
    proof {
        let next = researched(asset, InstrumentEvidenceCategory::IndexMetadata, session@, 86_400);
        one_more_is_stated(list@, so_far, next);
        so_far = so_far.push(next);
    }
    add_researched(list, asset, InstrumentEvidenceCategory::EarningsEventCalendar, session, 86_400);
    proof {
        let next = researched(
            asset,
            InstrumentEvidenceCategory::EarningsEventCalendar,
            session@,
            86_400,
        );
        one_more_is_stated(list@, so_far, next);
        so_far = so_far.push(next);
    }
    if profile.daily_reset() {
        add_researched(
            list,
            asset,
            InstrumentEvidenceCategory::LeveragedEtfTerms,
            session,
            604_800,
        );
        proof {
            let next = researched(
                asset,
                InstrumentEvidenceCategory::LeveragedEtfTerms,
                session@,
                604_800,
            );
            one_more_is_stated(list@, so_far, next);
            so_far = so_far.push(next);
        }
    }
    let start = shift(session, -366);
    let end = shift(session, 120);
    let ghost actions = RequirementView {
        key: key_of(asset, InstrumentEvidenceCategory::CorporateActions),
        source_family: "alpaca"@,
        resource: ranged_resource("corporate_actions:"@, asset.wire(), start@, session@),
        max_age_secs: 86_400,
    };
    let ghost options = RequirementView {
        key: key_of(asset, InstrumentEvidenceCategory::ImpliedVolatilityTermStructure),
        source_family: "alpaca"@,
        resource: ranged_resource("option_chain:"@, asset.wire(), session@, end@),
        max_age_secs: 300,
    };
    let ghost spread = RequirementView {
        key: key_of(asset, InstrumentEvidenceCategory::LiquiditySpread),
        source_family: "alpaca"@,
        resource: "paper.quotes"@,
        max_age_secs: 300,
    };
    let ghost earlier = list@;
    list.push(
        requirement(
            Some(asset),
            InstrumentEvidenceCategory::CorporateActions,
            "alpaca",
            ranged_text("corporate_actions:", asset.symbol(), &start, session),
            86_400,
        ),
    );
    proof {
        assert(list@.drop_last() =~= earlier);
        one_more_is_stated(list@, so_far, actions);
        so_far = so_far.push(actions);
    }
    let ghost earlier = list@;
    list.push(
        requirement(
            Some(asset),
            InstrumentEvidenceCategory::ImpliedVolatilityTermStructure,
            "alpaca",
            ranged_text("option_chain:", asset.symbol(), session, &end),
            300,
        ),
    );
    proof {
        assert(list@.drop_last() =~= earlier);
        one_more_is_stated(list@, so_far, options);
        so_far = so_far.push(options);
    }
    let ghost earlier = list@;
    list.push(
        requirement(
            Some(asset),
            InstrumentEvidenceCategory::LiquiditySpread,
            "alpaca",
            "paper.quotes".to_owned(),
            300,
        ),
    );
    proof {
        assert(list@.drop_last() =~= earlier);
        one_more_is_stated(list@, so_far, spread);
        so_far = so_far.push(spread);
        assert(so_far =~= before + required_of(asset, session@));
    }
}

pub fn instrument_evidence_requirements_for_session(session_key: &str) -> (r: Vec<
    InstrumentEvidenceRequirement,
>)
    ensures
        states_all(r@, required(session_key@)),
        !session_key@.contains(':') ==> resources_name_their_keys(r@),
{
    let mut list: Vec<InstrumentEvidenceRequirement> = Vec::new();
    let ghost none: Seq<RequirementView> = Seq::empty();
    add_asset(&mut list, Asset::Qqq, session_key, Ghost(none));
    let ghost one = none + required_of(Asset::Qqq, session_key@);
    add_asset(&mut list, Asset::Tqqq, session_key, Ghost(one));
    let ghost two = one + required_of(Asset::Tqqq, session_key@);
    add_asset(&mut list, Asset::Soxx, session_key, Ghost(two));
    let ghost three = two + required_of(Asset::Soxx, session_key@);
    add_asset(&mut list, Asset::Soxl, session_key, Ghost(three));
    let ghost four = three + required_of(Asset::Soxl, session_key@);
    let end = shift(session_key, 45);
    let vintage = shift(session_key, -1);
    let text = joined("release_calendar:", session_key);
    let text = joined(&text, ":");
    let text = joined(&text, &end);
    let text = joined(&text, ":");
    let text = joined(&text, &vintage);
    let ghost earlier = list@;
    list.push(
        requirement(
            None,
            InstrumentEvidenceCategory::MacroReleaseCalendar,
            "fred",
            text,
            86_400,
        ),
    );
    proof {
        assert(list@.drop_last() =~= earlier);
        one_more_is_stated(list@, four, required_of_the_economy(session_key@));
        assert(four.push(required_of_the_economy(session_key@)) =~= required(session_key@));
        if !session_key@.contains(':') {
            assert forall|i: int| 0 <= i < list@.len() implies keys_of(
                (#[trigger] list@[i]).need.resource@,
            ) == evidence_by(list@[i].key) by {
                required_resource_names_its_key(session_key@, i);
                assert(list@[i].states(required(session_key@)[i]));
            }
        }
    }
    list
}

/// Each resource of a list counts as evidence of exactly what it is asked for.
pub open spec fn resources_name_their_keys(list: Seq<InstrumentEvidenceRequirement>) -> bool {
    forall|i: int|
        0 <= i < list.len() ==> keys_of((#[trigger] list[i]).need.resource@) == evidence_by(
            list[i].key,
        )
}

/// The need of a requirement.
pub open spec fn need_of(view: RequirementView) -> EvidenceNeedView {
    EvidenceNeedView {
        schema_version: DOMAIN_SCHEMA_VERSION,
        source_family: view.source_family,
        resource: view.resource,
        max_age_secs: view.max_age_secs,
    }
}

/// The needs of a session: each once, in ascending order.
pub open spec fn needs(session: Seq<char>) -> Set<EvidenceNeedView> {
    required(session).map_values(|view: RequirementView| need_of(view)).to_set()
}

pub fn instrument_evidence_needs_for_session(session_key: &str) -> (r: Vec<EvidenceNeed>)
    ensures
        views(r@) == listing::<EvidenceNeed>(needs(session_key@)),
{
    let list = instrument_evidence_requirements_for_session(session_key);
    let ghost wanted = required(session_key@);
    let mut all: Vec<EvidenceNeed> = Vec::new();
    let mut i: usize = 0;
    while i < list.len()
        invariant
            i <= list.len(),
            all.len() == i,
            wanted == required(session_key@),
            states_all(list@, wanted),
            forall|j: int| 0 <= j < i ==> (#[trigger] all@[j])@ == need_of(wanted[j]),
        decreases list.len() - i,
    {
        proof {
            assert(list@[i as int].states(wanted[i as int]));
        }
        all.push(list[i].need.clone());
        i += 1;
    }
    proof {
        assert(views(all@) =~= wanted.map_values(|view: RequirementView| need_of(view)));
    }
    OrderedSet::from_vec(all).into_vec()
}

/// What is required of an asset, and of the economy.
pub open spec fn is_required_of(asset: Asset, key: InstrumentEvidenceKey) -> bool {
    match key.asset {
        Some(own) => own == asset && !(key.category is MacroReleaseCalendar) && (
        key.category is LeveragedEtfTerms ==> kind_of(asset) is DailyResetLeveragedEtf),
        None => key.category is MacroReleaseCalendar,
    }
}

pub fn instrument_evidence_required_keys_for_asset(asset: Asset) -> (r: OrderedSet<
    InstrumentEvidenceKey,
>)
    ensures
        forall|key: InstrumentEvidenceKey| #[trigger]
            r@.contains(key) <==> is_required_of(asset, key),
        r@.len() == if kind_of(asset) is DailyResetLeveragedEtf {
            8nat
        } else {
            7nat
        },
{
    let mut r: OrderedSet<InstrumentEvidenceKey> = OrderedSet::new();
    let own = Some(asset);
    r.insert(InstrumentEvidenceKey { asset: own, category: InstrumentEvidenceCategory::EtfHoldings });
    r.insert(
        InstrumentEvidenceKey { asset: own, category: InstrumentEvidenceCategory::IndexMetadata },
    );
    r.insert(
        InstrumentEvidenceKey { asset: own, category: InstrumentEvidenceCategory::CorporateActions },
    );
    r.insert(
        InstrumentEvidenceKey {
            asset: own,
            category: InstrumentEvidenceCategory::EarningsEventCalendar,
        },
    );
    r.insert(
        InstrumentEvidenceKey {
            asset: own,
            category: InstrumentEvidenceCategory::ImpliedVolatilityTermStructure,
        },
    );
    r.insert(
        InstrumentEvidenceKey { asset: own, category: InstrumentEvidenceCategory::LiquiditySpread },
    );
    r.insert_if(
        InstrumentEvidenceProfile::of(asset).daily_reset(),
        InstrumentEvidenceKey {
            asset: own,
            category: InstrumentEvidenceCategory::LeveragedEtfTerms,
        },
    );
    r.insert(
        InstrumentEvidenceKey {
            asset: None,
            category: InstrumentEvidenceCategory::MacroReleaseCalendar,
        },
    );
    proof {
        assert(r@.len() == if kind_of(asset) is DailyResetLeveragedEtf {
            8nat
        } else {
            7nat
        });
        assert forall|key: InstrumentEvidenceKey| #[trigger]
            r@.contains(key) <==> is_required_of(asset, key) by {
            match key.category {
                InstrumentEvidenceCategory::EtfHoldings => {},
                InstrumentEvidenceCategory::IndexMetadata => {},
                InstrumentEvidenceCategory::LeveragedEtfTerms => {},
                InstrumentEvidenceCategory::CorporateActions => {},
                InstrumentEvidenceCategory::EarningsEventCalendar => {},
                InstrumentEvidenceCategory::MacroReleaseCalendar => {},
                InstrumentEvidenceCategory::ImpliedVolatilityTermStructure => {},
                InstrumentEvidenceCategory::LiquiditySpread => {},
            }
        }
    }
    r
}

impl InstrumentEvidenceBlocker {
    /// A blocker of what is required.
    pub open spec fn blocks(&self, view: RequirementView) -> bool {
        &&& self.registry_version == INSTRUMENT_EVIDENCE_REGISTRY_VERSION
        &&& self.key == view.key
        &&& self.expected_source_family@ == view.source_family
        &&& self.expected_resource@ == view.resource
    }
}

/// What is required and not among the resources.
pub open spec fn missing(session: Seq<char>, resources: Seq<String>) -> Seq<RequirementView> {
    required(session).filter(|view: RequirementView| !listed(resources, view.resource))
}

/// What is required for a session and not among the resources, in the order of the registry.
pub fn instrument_evidence_blockers_for_session(
    session_key: &str,
    resources: &Vec<String>,
) -> (r: Vec<InstrumentEvidenceBlocker>)
    ensures
        r@.len() == missing(session_key@, resources@).len(),
        forall|i: int|
            0 <= i < r@.len() ==> (#[trigger] r@[i]).blocks(
                missing(session_key@, resources@)[i],
            ),
{
    let list = instrument_evidence_requirements_for_session(session_key);
    let ghost wanted = required(session_key@);
    let ghost test = |view: RequirementView| !listed(resources@, view.resource);
    let mut r: Vec<InstrumentEvidenceBlocker> = Vec::new();
    let mut i: usize = 0;
    proof {
        assert(wanted.take(0) =~= Seq::<RequirementView>::empty());
        reveal(Seq::filter);
    }
    while i < list.len()
        invariant
            i <= list.len(),
            wanted == required(session_key@),
            test == (|view: RequirementView| !listed(resources@, view.resource)),
            states_all(list@, wanted),
            r@.len() == wanted.take(i as int).filter(test).len(),
            forall|j: int|
                0 <= j < r@.len() ==> (#[trigger] r@[j]).blocks(
                    wanted.take(i as int).filter(test)[j],
                ),
        decreases list.len() - i,
    {
        proof {
            assert(list@[i as int].states(wanted[i as int]));
            assert(wanted.take(i + 1) =~= wanted.take(i as int).push(wanted[i as int]));
            wanted.take(i as int).lemma_filter_push(wanted[i as int], test);
        }
        let own = &list[i];
        if !is_listed(resources, &own.need.resource) {
            r.push(
                InstrumentEvidenceBlocker {
                    registry_version: INSTRUMENT_EVIDENCE_REGISTRY_VERSION,
                    key: own.key,
                    expected_source_family: own.need.source_family.clone(),
                    expected_resource: own.need.resource.clone(),
                },
            );
        }
        i += 1;
    }
    proof {
        assert(wanted.take(wanted.len() as int) =~= wanted);
    }
    r
}

/// The category that a resource of the news names.
pub open spec fn category_named(text: Seq<char>) -> Option<InstrumentEvidenceCategory> {
    if text == "etf_holdings"@ {
        Some(InstrumentEvidenceCategory::EtfHoldings)
    } else if text == "index_metadata"@ {
        Some(InstrumentEvidenceCategory::IndexMetadata)
    } else if text == "leveraged_etf_terms"@ {
        Some(InstrumentEvidenceCategory::LeveragedEtfTerms)
    } else if text == "earnings_event_calendar"@ {
        Some(InstrumentEvidenceCategory::EarningsEventCalendar)
    } else if text == "corporate_actions"@ {
        Some(InstrumentEvidenceCategory::CorporateActions)
    } else if text == "implied_volatility_term_structure"@ {
        Some(InstrumentEvidenceCategory::ImpliedVolatilityTermStructure)
    } else {
        None
    }
}

fn name_category(text: &str) -> (r: Option<InstrumentEvidenceCategory>)
    ensures
        r == category_named(text@),
{
    if same_text(text, "etf_holdings") {
        Some(InstrumentEvidenceCategory::EtfHoldings)
    } else if same_text(text, "index_metadata") {
        Some(InstrumentEvidenceCategory::IndexMetadata)
    } else if same_text(text, "leveraged_etf_terms") {
        Some(InstrumentEvidenceCategory::LeveragedEtfTerms)
    } else if same_text(text, "earnings_event_calendar") {
        Some(InstrumentEvidenceCategory::EarningsEventCalendar)
    } else if same_text(text, "corporate_actions") {
        Some(InstrumentEvidenceCategory::CorporateActions)
    } else if same_text(text, "implied_volatility_term_structure") {
        Some(InstrumentEvidenceCategory::ImpliedVolatilityTermStructure)
    } else {
        None
    }
}

/// The category and the symbol in the four parts of a resource.
pub open spec fn named_in(parts: Seq<Seq<char>>) -> Option<(Seq<char>, Seq<char>)> {
    if parts.len() != 4 {
        None
    } else if parts[0] == "research"@ {
        Some((parts[1], parts[2]))
    } else if parts[0] == "corporate_actions"@ {
        Some(("corporate_actions"@, parts[1]))
    } else if parts[0] == "option_chain"@ {
        Some(("implied_volatility_term_structure"@, parts[1]))
    } else {
        None
    }
}

/// The one key that a resource of an asset stands for.
pub open spec fn asset_key(resource: Seq<char>) -> Option<InstrumentEvidenceKey> {
    match named_in(parts_between(resource, ':')) {
        Some(names) => match (Asset::named(names.1), category_named(names.0)) {
            (Some(asset), Some(category)) => Some(key_of(asset, category)),
            _ => None,
        },
        None => None,
    }
}

/// The spread of every asset.
pub open spec fn spread_keys() -> Set<InstrumentEvidenceKey> {
    set![
        key_of(Asset::Tqqq, InstrumentEvidenceCategory::LiquiditySpread),
        key_of(Asset::Qqq, InstrumentEvidenceCategory::LiquiditySpread),
        key_of(Asset::Soxx, InstrumentEvidenceCategory::LiquiditySpread),
        key_of(Asset::Soxl, InstrumentEvidenceCategory::LiquiditySpread),
    ]
}

/// What a resource that is asked for as evidence of something is evidence of: of that alone. The
/// quotes, which are asked for all assets at once, are evidence of the spread of each.
pub open spec fn evidence_by(key: InstrumentEvidenceKey) -> Set<InstrumentEvidenceKey> {
    if key.category is LiquiditySpread {
        spread_keys()
    } else {
        set![key]
    }
}

/// What a resource is evidence of.
pub open spec fn keys_of(resource: Seq<char>) -> Set<InstrumentEvidenceKey> {
    if resource == "paper.quotes"@ {
        spread_keys()
    } else if starts_with(resource, "release_calendar:"@) {
        set![
            InstrumentEvidenceKey {
                asset: None,
                category: InstrumentEvidenceCategory::MacroReleaseCalendar,
            },
        ]
    } else {
        match asset_key(resource) {
            Some(key) => set![key],
            None => Set::empty(),
        }
    }
}

fn find_asset_key(resource: &str) -> (r: Option<InstrumentEvidenceKey>)
    ensures
        r == asset_key(resource@),
{
    let parts = split_text(resource, ':');
    proof {
        assert(text_views(parts@).len() == parts@.len());
    }
    if parts.len() != 4 {
        return None;
    }
    proof {
        assert(text_views(parts@)[0] == parts@[0]@);
        assert(text_views(parts@)[1] == parts@[1]@);
        assert(text_views(parts@)[2] == parts@[2]@);
    }
    let names: (&str, &str) = if same_text(&parts[0], "research") {
        (parts[1].as_str(), parts[2].as_str())
    } else if same_text(&parts[0], "corporate_actions") {
        ("corporate_actions", parts[1].as_str())
    } else if same_text(&parts[0], "option_chain") {
        ("implied_volatility_term_structure", parts[1].as_str())
    } else {
        return None;
    };
    match (Asset::try_from(names.1), name_category(names.0)) {
        (Ok(asset), Some(category)) => Some(
            InstrumentEvidenceKey { asset: Some(asset), category },
        ),
        _ => None,
    }
}

pub fn instrument_evidence_keys_for_resource(resource: &str) -> (r: OrderedSet<
    InstrumentEvidenceKey,
>)
    ensures
        r@ == keys_of(resource@),
{
    let mut r: OrderedSet<InstrumentEvidenceKey> = OrderedSet::new();
    if same_text(resource, "paper.quotes") {
        let category = InstrumentEvidenceCategory::LiquiditySpread;
        r.insert(InstrumentEvidenceKey { asset: Some(Asset::Tqqq), category });
        r.insert(InstrumentEvidenceKey { asset: Some(Asset::Qqq), category });
        r.insert(InstrumentEvidenceKey { asset: Some(Asset::Soxx), category });
        r.insert(InstrumentEvidenceKey { asset: Some(Asset::Soxl), category });
        return r;
    }
    if has_prefix(resource, "release_calendar:") {
        r.insert(
            InstrumentEvidenceKey {
                asset: None,
                category: InstrumentEvidenceCategory::MacroReleaseCalendar,
            },
        );
        return r;
    }
    if let Some(key) = find_asset_key(resource) {
        r.insert(key);
    }
    r
}

proof fn names_hold_no_colon()
    ensures
        !"research"@.contains(':'),
        !"corporate_actions"@.contains(':'),
        !"option_chain"@.contains(':'),
        !"etf_holdings"@.contains(':'),
        !"index_metadata"@.contains(':'),
        !"earnings_event_calendar"@.contains(':'),
        !"leveraged_etf_terms"@.contains(':'),
        !"TQQQ"@.contains(':'),
        !"QQQ"@.contains(':'),
        !"SOXX"@.contains(':'),
        !"SOXL"@.contains(':'),
{
    reveal_strlit("research");
    reveal_strlit("corporate_actions");
    reveal_strlit("option_chain");
    reveal_strlit("etf_holdings");
    reveal_strlit("index_metadata");
    reveal_strlit("earnings_event_calendar");
    reveal_strlit("leveraged_etf_terms");
    reveal_strlit("TQQQ");
    reveal_strlit("QQQ");
    reveal_strlit("SOXX");
    reveal_strlit("SOXL");
    assert forall|k: int| 0 <= k < 8 implies "research"@[k] != ':' by {
        assert(k == 0 || k == 1 || k == 2 || k == 3 || k == 4 || k == 5 || k == 6 || k == 7);
    }
    assert forall|k: int| 0 <= k < 17 implies "corporate_actions"@[k] != ':' by {
        assert(k == 0 || k == 1 || k == 2 || k == 3 || k == 4 || k == 5 || k == 6 || k == 7 || k == 8 || k == 9 || k == 10 || k == 11 || k == 12 || k == 13 || k == 14 || k == 15 || k == 16);
    }
    assert forall|k: int| 0 <= k < 12 implies "option_chain"@[k] != ':' by {
        assert(k == 0 || k == 1 || k == 2 || k == 3 || k == 4 || k == 5 || k == 6 || k == 7 || k == 8 || k == 9 || k == 10 || k == 11);
    }
    assert forall|k: int| 0 <= k < 12 implies "etf_holdings"@[k] != ':' by {
        assert(k == 0 || k == 1 || k == 2 || k == 3 || k == 4 || k == 5 || k == 6 || k == 7 || k == 8 || k == 9 || k == 10 || k == 11);
    }
    assert forall|k: int| 0 <= k < 14 implies "index_metadata"@[k] != ':' by {
        assert(k == 0 || k == 1 || k == 2 || k == 3 || k == 4 || k == 5 || k == 6 || k == 7 || k == 8 || k == 9 || k == 10 || k == 11 || k == 12 || k == 13);
    }
    assert forall|k: int| 0 <= k < 23 implies "earnings_event_calendar"@[k] != ':' by {
        assert(k == 0 || k == 1 || k == 2 || k == 3 || k == 4 || k == 5 || k == 6 || k == 7 || k == 8 || k == 9 || k == 10 || k == 11 || k == 12 || k == 13 || k == 14 || k == 15 || k == 16 || k == 17 || k == 18 || k == 19 || k == 20 || k == 21 || k == 22);
    }
    assert forall|k: int| 0 <= k < 19 implies "leveraged_etf_terms"@[k] != ':' by {
        assert(k == 0 || k == 1 || k == 2 || k == 3 || k == 4 || k == 5 || k == 6 || k == 7 || k == 8 || k == 9 || k == 10 || k == 11 || k == 12 || k == 13 || k == 14 || k == 15 || k == 16 || k == 17 || k == 18);
    }
    assert forall|k: int| 0 <= k < 4 implies "TQQQ"@[k] != ':' by {
        assert(k == 0 || k == 1 || k == 2 || k == 3);
    }
    assert forall|k: int| 0 <= k < 3 implies "QQQ"@[k] != ':' by {
        assert(k == 0 || k == 1 || k == 2);
    }
    assert forall|k: int| 0 <= k < 4 implies "SOXX"@[k] != ':' by {
        assert(k == 0 || k == 1 || k == 2 || k == 3);
    }
    assert forall|k: int| 0 <= k < 4 implies "SOXL"@[k] != ':' by {
        assert(k == 0 || k == 1 || k == 2 || k == 3);
    }
}

proof fn research_resource_names_its_key(
    asset: Asset,
    category: InstrumentEvidenceCategory,
    session: Seq<char>,
)
    requires
        !session.contains(':'),
        category is EtfHoldings || category is IndexMetadata || category is EarningsEventCalendar
            || category is LeveragedEtfTerms,
    ensures
        keys_of(research_resource(category.wire(), asset.wire(), session)) == evidence_by(
            key_of(asset, category),
        ),
{
    names_hold_no_colon();
    categories_are_named();
    crate::foundation::symbol_names_its_asset(asset);
    reveal_strlit("research:");
    reveal_strlit("research");
    reveal_strlit(":");
    reveal_strlit("paper.quotes");
    reveal_strlit("release_calendar:");
    let c = ':';
    let symbol = asset.wire();
    let name = category.wire();
    let whole = research_resource(name, symbol, session);
    let tail = symbol + seq![c] + session;
    let rest = name + seq![c] + tail;
    assert(whole =~= "research"@ + seq![c] + rest);
    first_part("research"@, c, rest);
    first_part(name, c, tail);
    first_part(symbol, c, session);
    single_part(session, c);
    let parts = parts_between(whole, c);
    assert(parts =~= seq!["research"@, name, symbol, session]);
    assert(whole[0] == 'r' && whole[2] == 's');
    assert("paper.quotes"@[0] == 'p');
    if whole.len() >= 17 {
        assert(whole.take(17)[2] == whole[2]);
    }
    assert("release_calendar:"@[2] == 'l');
}

proof fn ranged_resource_names_its_key(
    asset: Asset,
    options: bool,
    from: Seq<char>,
    to: Seq<char>,
)
    requires
        !from.contains(':'),
        !to.contains(':'),
    ensures
        keys_of(
            ranged_resource(
                if options {
                    "option_chain:"@
                } else {
                    "corporate_actions:"@
                },
                asset.wire(),
                from,
                to,
            ),
        ) == evidence_by(
            key_of(
                asset,
                if options {
                    InstrumentEvidenceCategory::ImpliedVolatilityTermStructure
                } else {
                    InstrumentEvidenceCategory::CorporateActions
                },
            ),
        ),
{
    names_hold_no_colon();
    categories_are_named();
    crate::foundation::symbol_names_its_asset(asset);
    reveal_strlit("option_chain:");
    reveal_strlit("option_chain");
    reveal_strlit("corporate_actions:");
    reveal_strlit("corporate_actions");
    reveal_strlit("research");
    reveal_strlit(":");
    reveal_strlit("paper.quotes");
    reveal_strlit("release_calendar:");
    let c = ':';
    let symbol = asset.wire();
    let title = if options {
        "option_chain"@
    } else {
        "corporate_actions"@
    };
    let headed = if options {
        "option_chain:"@
    } else {
        "corporate_actions:"@
    };
    let whole = ranged_resource(headed, symbol, from, to);
    let tail = from + seq![c] + to;
    let rest = symbol + seq![c] + tail;
    assert(headed =~= title + seq![c]);
    assert(whole =~= title + seq![c] + rest);
    first_part(title, c, rest);
    first_part(symbol, c, tail);
    first_part(from, c, to);
    single_part(to, c);
    let parts = parts_between(whole, c);
    assert(parts =~= seq![title, symbol, from, to]);
    assert(whole[0] == title[0]);
    assert("paper.quotes"@[0] == 'p');
    if whole.len() >= 17 {
        assert(whole.take(17)[0] == whole[0]);
    }
    assert("release_calendar:"@[0] == 'r');
    assert(title[0] != "research"@[0]);
}

proof fn categories_are_named()
    ensures
        category_named("etf_holdings"@) == Some(InstrumentEvidenceCategory::EtfHoldings),
        category_named("index_metadata"@) == Some(InstrumentEvidenceCategory::IndexMetadata),
        category_named("leveraged_etf_terms"@) == Some(
            InstrumentEvidenceCategory::LeveragedEtfTerms,
        ),
        category_named("earnings_event_calendar"@) == Some(
            InstrumentEvidenceCategory::EarningsEventCalendar,
        ),
        category_named("corporate_actions"@) == Some(InstrumentEvidenceCategory::CorporateActions),
        category_named("implied_volatility_term_structure"@) == Some(
            InstrumentEvidenceCategory::ImpliedVolatilityTermStructure,
        ),
{
    reveal_strlit("etf_holdings");
    reveal_strlit("index_metadata");
    reveal_strlit("leveraged_etf_terms");
    reveal_strlit("earnings_event_calendar");
    reveal_strlit("corporate_actions");
    reveal_strlit("implied_volatility_term_structure");
    assert("etf_holdings"@.len() == 12 && "index_metadata"@.len() == 14
        && "leveraged_etf_terms"@.len() == 19 && "earnings_event_calendar"@.len() == 23
        && "corporate_actions"@.len() == 17 && "implied_volatility_term_structure"@.len() == 33);
}

/// The resource that is asked for as evidence of something counts as evidence of exactly that,
/// where the session and the days around it are written without a colon.
pub proof fn required_resources_name_their_keys(asset: Asset, session: Seq<char>, i: int)
    requires
        !session.contains(':'),
        !shifted(session, -366).contains(':'),
        !shifted(session, 120).contains(':'),
        0 <= i < required_of(asset, session).len(),
    ensures
        keys_of(required_of(asset, session)[i].resource) == evidence_by(
            required_of(asset, session)[i].key,
        ),
{
    let all = required_of(asset, session);
    let n = all.len();
    if i == 0 {
        research_resource_names_its_key(asset, InstrumentEvidenceCategory::EtfHoldings, session);
    } else if i == 1 {
        research_resource_names_its_key(asset, InstrumentEvidenceCategory::IndexMetadata, session);
    } else if i == 2 {
        research_resource_names_its_key(
            asset,
            InstrumentEvidenceCategory::EarningsEventCalendar,
            session,
        );
    } else if i == n - 1 {
        assert(all[i].key == key_of(asset, InstrumentEvidenceCategory::LiquiditySpread));
    } else if i == n - 2 {
        ranged_resource_names_its_key(asset, true, session, shifted(session, 120));
    } else if i == n - 3 {
        ranged_resource_names_its_key(asset, false, shifted(session, -366), session);
    } else {
        research_resource_names_its_key(
            asset,
            InstrumentEvidenceCategory::LeveragedEtfTerms,
            session,
        );
    }
}

proof fn required_resource_names_its_key(session: Seq<char>, i: int)
    requires
        !session.contains(':'),
        !shifted(session, -366).contains(':'),
        !shifted(session, 120).contains(':'),
        0 <= i < required(session).len(),
    ensures
        keys_of(required(session)[i].resource) == evidence_by(required(session)[i].key),
{
    let a = required_of(Asset::Qqq, session);
    let b = required_of(Asset::Tqqq, session);
    let c = required_of(Asset::Soxx, session);
    let d = required_of(Asset::Soxl, session);
    let all = required(session);
    let ab = (a.len() + b.len()) as int;
    let abc = ab + c.len() as int;
    if i < a.len() {
        assert(all[i] == a[i]);
        required_resources_name_their_keys(Asset::Qqq, session, i);
    } else if i < ab {
        assert(all[i] == b[i - a.len()]);
        required_resources_name_their_keys(Asset::Tqqq, session, i - a.len());
    } else if i < abc {
        assert(all[i] == c[i - ab]);
        required_resources_name_their_keys(Asset::Soxx, session, i - ab);
    } else if i < abc + d.len() {
        assert(all[i] == d[i - abc]);
        required_resources_name_their_keys(Asset::Soxl, session, i - abc);
    } else {
        release_calendar_names_its_key(session);
    }
}

/// Whatever the session, the calendar that is asked for counts as evidence of the economy, and
/// of nothing else.
pub proof fn release_calendar_names_its_key(session: Seq<char>)
    ensures
        keys_of(required_of_the_economy(session).resource) == set![
            required_of_the_economy(session).key,
        ],
{
    reveal_strlit("release_calendar:");
    reveal_strlit("paper.quotes");
    let whole = required_of_the_economy(session).resource;
    assert(whole.take(17) =~= "release_calendar:"@);
    assert(whole[0] == 'r');
    assert("paper.quotes"@[0] == 'p');
}

proof fn keys_required_of_an_asset(asset: Asset, session: Seq<char>, key: InstrumentEvidenceKey)
    ensures
        (exists|i: int|
            0 <= i < required_of(asset, session).len() && (#[trigger] required_of(asset, session)[i]).key
                == key) <==> key.asset == Some(asset) && is_required_of(asset, key),
        forall|i: int|
            0 <= i < required_of(asset, session).len() ==> (#[trigger] required_of(
                asset,
                session,
            )[i]).key.asset == Some(asset),
{
    let all = required_of(asset, session);
    let n = all.len() as int;
    assert(all[0].key == key_of(asset, InstrumentEvidenceCategory::EtfHoldings));
    assert(all[1].key == key_of(asset, InstrumentEvidenceCategory::IndexMetadata));
    assert(all[2].key == key_of(asset, InstrumentEvidenceCategory::EarningsEventCalendar));
    assert(all[n - 3].key == key_of(asset, InstrumentEvidenceCategory::CorporateActions));
    assert(all[n - 2].key == key_of(
        asset,
        InstrumentEvidenceCategory::ImpliedVolatilityTermStructure,
    ));
    assert(all[n - 1].key == key_of(asset, InstrumentEvidenceCategory::LiquiditySpread));
    if kind_of(asset) is DailyResetLeveragedEtf {
        assert(n == 7);
        assert(all[3].key == key_of(asset, InstrumentEvidenceCategory::LeveragedEtfTerms));
    } else {
        assert(n == 6);
    }
    match key.category {
        InstrumentEvidenceCategory::EtfHoldings => {},
        InstrumentEvidenceCategory::IndexMetadata => {},
        InstrumentEvidenceCategory::LeveragedEtfTerms => {},
        InstrumentEvidenceCategory::CorporateActions => {},
        InstrumentEvidenceCategory::EarningsEventCalendar => {},
        InstrumentEvidenceCategory::MacroReleaseCalendar => {},
        InstrumentEvidenceCategory::ImpliedVolatilityTermStructure => {},
        InstrumentEvidenceCategory::LiquiditySpread => {},
    }
}

/// Some requirement of a session is of a key.
pub open spec fn is_asked_for(session: Seq<char>, key: InstrumentEvidenceKey) -> bool {
    exists|i: int|
        0 <= i < required(session).len() && (#[trigger] required(session)[i]).key == key
}

/// What is required of an asset is, whatever the session, what is asked for of the asset itself
/// and of the economy.
pub proof fn required_keys_are_those_asked_for(
    asset: Asset,
    session: Seq<char>,
    key: InstrumentEvidenceKey,
)
    ensures
        is_required_of(asset, key) <==> is_asked_for(session, key) && (key.asset == Some(asset)
            || key.asset is None),
{
    let a = required_of(Asset::Qqq, session);
    let b = required_of(Asset::Tqqq, session);
    let c = required_of(Asset::Soxx, session);
    let d = required_of(Asset::Soxl, session);
    let all = required(session);
    let ab = (a.len() + b.len()) as int;
    let abc = ab + c.len() as int;
    let abcd = abc + d.len() as int;
    keys_required_of_an_asset(Asset::Qqq, session, key);
    keys_required_of_an_asset(Asset::Tqqq, session, key);
    keys_required_of_an_asset(Asset::Soxx, session, key);
    keys_required_of_an_asset(Asset::Soxl, session, key);
    assert(all.len() == abcd + 1);
    assert(all[abcd] == required_of_the_economy(session));
    assert forall|i: int| 0 <= i < abcd implies #[trigger] all[i] == (if i < a.len() {
        a[i]
    } else if i < ab {
        b[i - a.len()]
    } else if i < abc {
        c[i - ab]
    } else {
        d[i - abc]
    }) by {}
    if is_required_of(asset, key) && key.asset == Some(asset) {
        let own = required_of(asset, session);
        let j = choose|j: int| 0 <= j < own.len() && (#[trigger] own[j]).key == key;
        let at = match asset {
            Asset::Qqq => j,
            Asset::Tqqq => a.len() + j,
            Asset::Soxx => ab + j,
            Asset::Soxl => abc + j,
        };
        assert(all[at].key == key);
    }
    if is_asked_for(session, key) {
        let i = choose|i: int| 0 <= i < all.len() && (#[trigger] all[i]).key == key;
        if i < a.len() {
            assert(a[i].key == key);
        } else if i < ab {
            assert(b[i - a.len()].key == key);
        } else if i < abc {
            assert(c[i - ab].key == key);
        } else if i < abcd {
            assert(d[i - abc].key == key);
        }
    }
}

/// Where every resource that is required is there, nothing is missing.
pub proof fn complete_evidence_leaves_nothing_missing(session: Seq<char>, resources: Seq<String>)
    requires
        forall|i: int|
            0 <= i < required(session).len() ==> listed(
                resources,
                (#[trigger] required(session)[i]).resource,
            ),
    ensures
        missing(session, resources).len() == 0,
{
    let test = |view: RequirementView| !listed(resources, view.resource);
    if missing(session, resources).len() > 0 {
        required(session).lemma_filter_contains_rev(test, missing(session, resources)[0]);
    }
}

/// What is missing is required, and is not among the resources.
pub proof fn what_is_missing_is_required(session: Seq<char>, resources: Seq<String>, i: int)
    requires
        0 <= i < missing(session, resources).len(),
    ensures
        required(session).contains(missing(session, resources)[i]),
        !listed(resources, missing(session, resources)[i].resource),
{
    let test = |view: RequirementView| !listed(resources, view.resource);
    required(session).lemma_filter_pred(test, i);
    required(session).lemma_filter_contains_rev(test, missing(session, resources)[i]);
}

} // verus!
