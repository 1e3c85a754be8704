//! The regime of a market, as it was known when a decision was made or as it was seen later.
use crate::artifact::ArtifactRef;
use crate::error::{
    demand, empty, empty_field, first, outcome, DomainError, ErrorView, Verdict,
};
use crate::foundation::{digest_of, is_digest, json_digest, ContentHash};
use crate::json::{
    json_content, json_insert, json_new_object, json_object, json_text, no_members, JsonItem,
    JsonKey, JsonTree, ToJson,
};
use crate::ordered::{rank_numbers, Key, OrderedMap, OrderedSet, Rank};
use crate::text::joined;
use crate::time::{earlier, UtcTime};
use crate::DOMAIN_SCHEMA_VERSION;
use vstd::prelude::*;

verus! {

/// Whether a regime was known at the time of a decision or was seen afterwards.
#[derive(Clone, Copy, Debug, PartialEq, Eq, PartialOrd, Ord, Hash, Structural)]
pub enum RegimeClassificationKind {
    DecisionTime,
    ExPost,
}

impl RegimeClassificationKind {
    /// The name of the variant in JSON.
    pub open spec fn wire(self) -> Seq<char> {
        match self {
            RegimeClassificationKind::DecisionTime => "decision_time"@,
            RegimeClassificationKind::ExPost => "ex_post"@,
        }
    }

    /// The name of the variant in JSON.
    pub fn wire_name(self) -> (r: &'static str)
        ensures
            r@ == self.wire(),
    {
        match self {
            RegimeClassificationKind::DecisionTime => "decision_time",
            RegimeClassificationKind::ExPost => "ex_post",
        }
    }
}

impl ToJson for RegimeClassificationKind {
    open spec fn json(&self) -> JsonTree {
        JsonTree::Text(self.wire())
    }

    fn to_json(&self) -> (r: serde_json::Value) {
        json_text(self.wire_name())
    }
}

/// How likely each of some states is, and which is taken to hold.
#[derive(Debug, PartialEq, Eq)]
pub struct RegimeDistribution<T: JsonKey> {
    pub probabilities_ppm: OrderedMap<T, u32>,
    pub dominant: T,
}

/// The sum of the first `n` shares.
pub open spec fn share_sum(shares: Seq<u32>, n: nat) -> int
    decreases n,
{
    if n == 0 {
        0
    } else {
        share_sum(shares, (n - 1) as nat) + shares[n - 1]
    }
}

proof fn share_sum_grows(shares: Seq<u32>, m: nat, n: nat)
    requires
        m <= n,
    ensures
        0 <= share_sum(shares, m) <= share_sum(shares, n),
    decreases n,
{
    if m < n {
        share_sum_grows(shares, m, (n - 1) as nat);
    } else if n > 0 {
        share_sum_grows(shares, (n - 1) as nat, (n - 1) as nat);
    }
}

impl<T: JsonKey> Clone for RegimeDistribution<T> {
    fn clone(&self) -> (r: Self)
        ensures
            r.probabilities_ppm.keys() == self.probabilities_ppm.keys(),
            r.probabilities_ppm.values() == self.probabilities_ppm.values(),
            r.dominant@ == self.dominant@,
    {
        let probabilities_ppm = self.probabilities_ppm.clone();
        proof {
            assert(probabilities_ppm.values() =~= self.probabilities_ppm.values());
        }
        RegimeDistribution { probabilities_ppm, dominant: self.dominant.duplicate() }
    }
}

impl<T: JsonKey> ToJson for RegimeDistribution<T> {
    open spec fn json(&self) -> JsonTree {
        JsonTree::Object(
            no_members().insert("probabilities_ppm"@, self.probabilities_ppm.json()).insert(
                "dominant"@,
                T::item_json(self.dominant@),
            ),
        )
    }

    fn to_json(&self) -> (r: serde_json::Value) {
        let mut members = json_new_object();
        json_insert(&mut members, "probabilities_ppm", self.probabilities_ppm.to_json());
        json_insert(&mut members, "dominant", self.dominant.to_item_json());
        json_object(members)
    }
}

impl<T: JsonKey> RegimeDistribution<T> {
    pub fn new(probabilities_ppm: OrderedMap<T, u32>, dominant: T) -> (r: Self)
        ensures
            r == (RegimeDistribution { probabilities_ppm, dominant }),
    {
        RegimeDistribution { probabilities_ppm, dominant }
    }

    /// The sum of all shares.
    pub open spec fn whole(&self) -> int {
        share_sum(self.probabilities_ppm.values(), self.probabilities_ppm.keys().len())
    }

    /// Some state is listed, the one that is taken to hold too, and the shares make no more
    /// than the whole, but for rounding.
    pub open spec fn verdict(&self) -> Verdict {
        if self.probabilities_ppm.keys().len() == 0 {
            Err(empty("regime_distribution.probabilities_ppm"@))
        } else {
            demand(
                self.probabilities_ppm@.dom().contains(self.dominant@) && self.whole()
                    <= 1_000_005,
                ErrorView::InvalidDistribution,
            )
        }
    }

    fn exceeds_the_whole(&self) -> (r: bool)
        ensures
            r == (self.whole() > 1_000_005),
    {
        let n: usize = self.probabilities_ppm.len();
        let mut total: u64 = 0;
        let mut i: usize = 0;
        while i < n
            invariant
                i <= n,
                n == self.probabilities_ppm.keys().len(),
                total == share_sum(self.probabilities_ppm.values(), i as nat),
                total <= 1_000_005,
            decreases n - i,
        {
            total += *self.probabilities_ppm.value_at(i) as u64;
            i += 1;
            if total > 1_000_005 {
                proof {
                    share_sum_grows(self.probabilities_ppm.values(), i as nat, n as nat);
                }
                return true;
            }
        }
        false
    }

    pub fn validate(&self) -> (r: Result<(), DomainError>)
        ensures
            outcome(r) == self.verdict(),
    {
        if self.probabilities_ppm.is_empty() {
            return Err(empty_field("regime_distribution.probabilities_ppm"));
        }
        if !self.probabilities_ppm.contains_key(&self.dominant) {
            return Err(DomainError::InvalidDistribution);
        }
        if self.exceeds_the_whole() {
            return Err(DomainError::InvalidDistribution);
        }
        Ok(())
    }
}

/// Which way prices go.
#[derive(Clone, Copy, Debug, PartialEq, Eq, PartialOrd, Ord, Hash, Structural)]
pub enum TrendRegime {
    BullStrong,
    BullWeak,
    Neutral,
    BearWeak,
    BearStrong,
}

impl TrendRegime {
    /// The name of the variant in JSON.
    pub open spec fn wire(self) -> Seq<char> {
        match self {
            TrendRegime::BullStrong => "bull_strong"@,
            TrendRegime::BullWeak => "bull_weak"@,
            TrendRegime::Neutral => "neutral"@,
            TrendRegime::BearWeak => "bear_weak"@,
            TrendRegime::BearStrong => "bear_strong"@,
        }
    }

    /// The name of the variant in JSON.
    pub fn wire_name(self) -> (r: &'static str)
        ensures
            r@ == self.wire(),
    {
        match self {
            TrendRegime::BullStrong => "bull_strong",
            TrendRegime::BullWeak => "bull_weak",
            TrendRegime::Neutral => "neutral",
            TrendRegime::BearWeak => "bear_weak",
            TrendRegime::BearStrong => "bear_strong",
        }
    }
}

impl ToJson for TrendRegime {
    open spec fn json(&self) -> JsonTree {
        JsonTree::Text(self.wire())
    }

    fn to_json(&self) -> (r: serde_json::Value) {
        json_text(self.wire_name())
    }
}

impl View for TrendRegime {
    type V = TrendRegime;

    open spec fn view(&self) -> TrendRegime {
        *self
    }
}

impl TrendRegime {
    /// Where the variant stands in the order.
    pub open spec fn place(self) -> u32 {
        match self {
            TrendRegime::BullStrong => 0,
            TrendRegime::BullWeak => 1,
            TrendRegime::Neutral => 2,
            TrendRegime::BearWeak => 3,
            TrendRegime::BearStrong => 4,
        }
    }

    pub(crate) fn place_number(self) -> (r: u32)
        ensures
            r == self.place(),
    {
        match self {
            TrendRegime::BullStrong => 0,
            TrendRegime::BullWeak => 1,
            TrendRegime::Neutral => 2,
            TrendRegime::BearWeak => 3,
            TrendRegime::BearStrong => 4,
        }
    }
}

impl Key for TrendRegime {
    open spec fn code(key: TrendRegime) -> Seq<int> {
        seq![key.place() as int]
    }

    proof fn code_is_injective(a: TrendRegime, b: TrendRegime) {
        assert(Self::code(a)[0] == a.place() as int && Self::code(b)[0] == b.place() as int);
    }

    fn rank(&self, other: &Self) -> (r: Rank) {
        rank_numbers((*self).place_number(), (*other).place_number())
    }

    fn duplicate(&self) -> (r: Self) {
        *self
    }
}

impl JsonItem for TrendRegime {
    open spec fn item_json(key: TrendRegime) -> JsonTree {
        JsonTree::Text(key.wire())
    }

    fn to_item_json(&self) -> (r: serde_json::Value) {
        json_text((*self).wire_name())
    }
}

impl JsonKey for TrendRegime {
    open spec fn key_text(key: TrendRegime) -> Seq<char> {
        key.wire()
    }

    fn to_key_text(&self) -> (r: String) {
        (*self).wire_name().to_owned()
    }
}

/// How much prices move.
#[derive(Clone, Copy, Debug, PartialEq, Eq, PartialOrd, Ord, Hash, Structural)]
pub enum VolatilityRegime {
    Low,
    Normal,
    High,
    Extreme,
}

impl VolatilityRegime {
    /// The name of the variant in JSON.
    pub open spec fn wire(self) -> Seq<char> {
        match self {
            VolatilityRegime::Low => "low"@,
            VolatilityRegime::Normal => "normal"@,
            VolatilityRegime::High => "high"@,
            VolatilityRegime::Extreme => "extreme"@,
        }
    }

    /// The name of the variant in JSON.
    pub fn wire_name(self) -> (r: &'static str)
        ensures
            r@ == self.wire(),
    {
        match self {
            VolatilityRegime::Low => "low",
            VolatilityRegime::Normal => "normal",
            VolatilityRegime::High => "high",
            VolatilityRegime::Extreme => "extreme",
        }
    }
}

impl ToJson for VolatilityRegime {
    open spec fn json(&self) -> JsonTree {
        JsonTree::Text(self.wire())
    }

    fn to_json(&self) -> (r: serde_json::Value) {
        json_text(self.wire_name())
    }
}

impl View for VolatilityRegime {
    type V = VolatilityRegime;

    open spec fn view(&self) -> VolatilityRegime {
        *self
    }
}

impl VolatilityRegime {
    /// Where the variant stands in the order.
    pub open spec fn place(self) -> u32 {
        match self {
            VolatilityRegime::Low => 0,
            VolatilityRegime::Normal => 1,
            VolatilityRegime::High => 2,
            VolatilityRegime::Extreme => 3,
        }
    }

    pub(crate) fn place_number(self) -> (r: u32)
        ensures
            r == self.place(),
    {
        match self {
            VolatilityRegime::Low => 0,
            VolatilityRegime::Normal => 1,
            VolatilityRegime::High => 2,
            VolatilityRegime::Extreme => 3,
        }
    }
}

impl Key for VolatilityRegime {
    open spec fn code(key: VolatilityRegime) -> Seq<int> {
        seq![key.place() as int]
    }

    proof fn code_is_injective(a: VolatilityRegime, b: VolatilityRegime) {
        assert(Self::code(a)[0] == a.place() as int && Self::code(b)[0] == b.place() as int);
    }

    fn rank(&self, other: &Self) -> (r: Rank) {
        rank_numbers((*self).place_number(), (*other).place_number())
    }

    fn duplicate(&self) -> (r: Self) {
        *self
    }
}

impl JsonItem for VolatilityRegime {
    open spec fn item_json(key: VolatilityRegime) -> JsonTree {
        JsonTree::Text(key.wire())
    }

    fn to_item_json(&self) -> (r: serde_json::Value) {
        json_text((*self).wire_name())
    }
}

impl JsonKey for VolatilityRegime {
    open spec fn key_text(key: VolatilityRegime) -> Seq<char> {
        key.wire()
    }

    fn to_key_text(&self) -> (r: String) {
        (*self).wire_name().to_owned()
    }
}

/// How easily can be traded.
#[derive(Clone, Copy, Debug, PartialEq, Eq, PartialOrd, Ord, Hash, Structural)]
pub enum LiquidityRegime {
    Abundant,
    Normal,
    Stressed,
    Illiquid,
}

impl LiquidityRegime {
    /// The name of the variant in JSON.
    pub open spec fn wire(self) -> Seq<char> {
        match self {
            LiquidityRegime::Abundant => "abundant"@,
            LiquidityRegime::Normal => "normal"@,
            LiquidityRegime::Stressed => "stressed"@,
            LiquidityRegime::Illiquid => "illiquid"@,
        }
    }

    /// The name of the variant in JSON.
    pub fn wire_name(self) -> (r: &'static str)
        ensures
            r@ == self.wire(),
    {
        match self {
            LiquidityRegime::Abundant => "abundant",
            LiquidityRegime::Normal => "normal",
            LiquidityRegime::Stressed => "stressed",
            LiquidityRegime::Illiquid => "illiquid",
        }
    }
}

impl ToJson for LiquidityRegime {
    open spec fn json(&self) -> JsonTree {
        JsonTree::Text(self.wire())
    }

    fn to_json(&self) -> (r: serde_json::Value) {
        json_text(self.wire_name())
    }
}

impl View for LiquidityRegime {
    type V = LiquidityRegime;

    open spec fn view(&self) -> LiquidityRegime {
        *self
    }
}

impl LiquidityRegime {
    /// Where the variant stands in the order.
    pub open spec fn place(self) -> u32 {
        match self {
            LiquidityRegime::Abundant => 0,
            LiquidityRegime::Normal => 1,
            LiquidityRegime::Stressed => 2,
            LiquidityRegime::Illiquid => 3,
        }
    }

    pub(crate) fn place_number(self) -> (r: u32)
        ensures
            r == self.place(),
    {
        match self {
            LiquidityRegime::Abundant => 0,
            LiquidityRegime::Normal => 1,
            LiquidityRegime::Stressed => 2,
            LiquidityRegime::Illiquid => 3,
        }
    }
}

impl Key for LiquidityRegime {
    open spec fn code(key: LiquidityRegime) -> Seq<int> {
        seq![key.place() as int]
    }

    proof fn code_is_injective(a: LiquidityRegime, b: LiquidityRegime) {
        assert(Self::code(a)[0] == a.place() as int && Self::code(b)[0] == b.place() as int);
    }

    fn rank(&self, other: &Self) -> (r: Rank) {
        rank_numbers((*self).place_number(), (*other).place_number())
    }

    fn duplicate(&self) -> (r: Self) {
        *self
    }
}

impl JsonItem for LiquidityRegime {
    open spec fn item_json(key: LiquidityRegime) -> JsonTree {
        JsonTree::Text(key.wire())
    }

    fn to_item_json(&self) -> (r: serde_json::Value) {
        json_text((*self).wire_name())
    }
}

impl JsonKey for LiquidityRegime {
    open spec fn key_text(key: LiquidityRegime) -> Seq<char> {
        key.wire()
    }

    fn to_key_text(&self) -> (r: String) {
        (*self).wire_name().to_owned()
    }
}

/// How many take part in a move.
#[derive(Clone, Copy, Debug, PartialEq, Eq, PartialOrd, Ord, Hash, Structural)]
pub enum BreadthRegime {
    BroadParticipation,
    Selective,
    Divergent,
    NarrowConcentration,
}

impl BreadthRegime {
    /// The name of the variant in JSON.
    pub open spec fn wire(self) -> Seq<char> {
        match self {
            BreadthRegime::BroadParticipation => "broad_participation"@,
            BreadthRegime::Selective => "selective"@,
            BreadthRegime::Divergent => "divergent"@,
            BreadthRegime::NarrowConcentration => "narrow_concentration"@,
        }
    }

    /// The name of the variant in JSON.
    pub fn wire_name(self) -> (r: &'static str)
        ensures
            r@ == self.wire(),
    {
        match self {
            BreadthRegime::BroadParticipation => "broad_participation",
            BreadthRegime::Selective => "selective",
            BreadthRegime::Divergent => "divergent",
            BreadthRegime::NarrowConcentration => "narrow_concentration",
        }
    }
}

impl ToJson for BreadthRegime {
    open spec fn json(&self) -> JsonTree {
        JsonTree::Text(self.wire())
    }

    fn to_json(&self) -> (r: serde_json::Value) {
        json_text(self.wire_name())
    }
}

impl View for BreadthRegime {
    type V = BreadthRegime;

    open spec fn view(&self) -> BreadthRegime {
        *self
    }
}

impl BreadthRegime {
    /// Where the variant stands in the order.
    pub open spec fn place(self) -> u32 {
        match self {
            BreadthRegime::BroadParticipation => 0,
            BreadthRegime::Selective => 1,
            BreadthRegime::Divergent => 2,
            BreadthRegime::NarrowConcentration => 3,
        }
    }

    pub(crate) fn place_number(self) -> (r: u32)
        ensures
            r == self.place(),
    {
        match self {
            BreadthRegime::BroadParticipation => 0,
            BreadthRegime::Selective => 1,
            BreadthRegime::Divergent => 2,
            BreadthRegime::NarrowConcentration => 3,
        }
    }
}

impl Key for BreadthRegime {
    open spec fn code(key: BreadthRegime) -> Seq<int> {
        seq![key.place() as int]
    }

    proof fn code_is_injective(a: BreadthRegime, b: BreadthRegime) {
        assert(Self::code(a)[0] == a.place() as int && Self::code(b)[0] == b.place() as int);
    }

    fn rank(&self, other: &Self) -> (r: Rank) {
        rank_numbers((*self).place_number(), (*other).place_number())
    }

    fn duplicate(&self) -> (r: Self) {
        *self
    }
}

impl JsonItem for BreadthRegime {
    open spec fn item_json(key: BreadthRegime) -> JsonTree {
        JsonTree::Text(key.wire())
    }

    fn to_item_json(&self) -> (r: serde_json::Value) {
        json_text((*self).wire_name())
    }
}

impl JsonKey for BreadthRegime {
    open spec fn key_text(key: BreadthRegime) -> Seq<char> {
        key.wire()
    }

    fn to_key_text(&self) -> (r: String) {
        (*self).wire_name().to_owned()
    }
}

/// How much risk is taken.
#[derive(Clone, Copy, Debug, PartialEq, Eq, PartialOrd, Ord, Hash, Structural)]
pub enum RiskRegime {
    RiskOn,
    Neutral,
    RiskOff,
    Crisis,
}

impl RiskRegime {
    /// The name of the variant in JSON.
    pub open spec fn wire(self) -> Seq<char> {
        match self {
            RiskRegime::RiskOn => "risk_on"@,
            RiskRegime::Neutral => "neutral"@,
            RiskRegime::RiskOff => "risk_off"@,
            RiskRegime::Crisis => "crisis"@,
        }
    }

    /// The name of the variant in JSON.
    pub fn wire_name(self) -> (r: &'static str)
        ensures
            r@ == self.wire(),
    {
        match self {
            RiskRegime::RiskOn => "risk_on",
            RiskRegime::Neutral => "neutral",
            RiskRegime::RiskOff => "risk_off",
            RiskRegime::Crisis => "crisis",
        }
    }
}

impl ToJson for RiskRegime {
    open spec fn json(&self) -> JsonTree {
        JsonTree::Text(self.wire())
    }

    fn to_json(&self) -> (r: serde_json::Value) {
        json_text(self.wire_name())
    }
}

impl View for RiskRegime {
    type V = RiskRegime;

    open spec fn view(&self) -> RiskRegime {
        *self
    }
}

impl RiskRegime {
    /// Where the variant stands in the order.
    pub open spec fn place(self) -> u32 {
        match self {
            RiskRegime::RiskOn => 0,
            RiskRegime::Neutral => 1,
            RiskRegime::RiskOff => 2,
            RiskRegime::Crisis => 3,
        }
    }

    pub(crate) fn place_number(self) -> (r: u32)
        ensures
            r == self.place(),
    {
        match self {
            RiskRegime::RiskOn => 0,
            RiskRegime::Neutral => 1,
            RiskRegime::RiskOff => 2,
            RiskRegime::Crisis => 3,
        }
    }
}

impl Key for RiskRegime {
    open spec fn code(key: RiskRegime) -> Seq<int> {
        seq![key.place() as int]
    }

    proof fn code_is_injective(a: RiskRegime, b: RiskRegime) {
        assert(Self::code(a)[0] == a.place() as int && Self::code(b)[0] == b.place() as int);
    }

    fn rank(&self, other: &Self) -> (r: Rank) {
        rank_numbers((*self).place_number(), (*other).place_number())
    }

    fn duplicate(&self) -> (r: Self) {
        *self
    }
}

impl JsonItem for RiskRegime {
    open spec fn item_json(key: RiskRegime) -> JsonTree {
        JsonTree::Text(key.wire())
    }

    fn to_item_json(&self) -> (r: serde_json::Value) {
        json_text((*self).wire_name())
    }
}

impl JsonKey for RiskRegime {
    open spec fn key_text(key: RiskRegime) -> Seq<char> {
        key.wire()
    }

    fn to_key_text(&self) -> (r: String) {
        (*self).wire_name().to_owned()
    }
}

/// The regime of a market in five dimensions, as of an instant, for a decision.
#[derive(Debug, Clone, PartialEq, Eq)]
pub struct RegimeSnapshot {
    pub schema_version: u32,
    pub snapshot_hash: ContentHash,
    pub classification_kind: RegimeClassificationKind,
    pub decision_at: UtcTime,
    pub as_of: UtcTime,
    pub taxonomy_id: ContentHash,
    pub detector_id: String,
    pub detector_version: String,
    pub detector_hash: ContentHash,
    pub input_snapshot_refs: Vec<ArtifactRef>,
    pub input_snapshot_hash: ContentHash,
    pub trend: RegimeDistribution<TrendRegime>,
    pub volatility: RegimeDistribution<VolatilityRegime>,
    pub liquidity: RegimeDistribution<LiquidityRegime>,
    pub breadth: RegimeDistribution<BreadthRegime>,
    pub risk_state: RegimeDistribution<RiskRegime>,
    pub confidence_ppm: u32,
    pub entropy_ppm: u32,
}

impl RegimeSnapshot {
    /// What the identity is the digest of.
    pub open spec fn identity_json(&self) -> JsonTree {
        let m = no_members();
        let m = m.insert("schema_version"@, self.schema_version.json());
        let m = m.insert("classification_kind"@, self.classification_kind.json());
        let m = m.insert("decision_at"@, self.decision_at.json());
        let m = m.insert("as_of"@, self.as_of.json());
        let m = m.insert("taxonomy_id"@, self.taxonomy_id.json());
        let m = m.insert("detector_id"@, self.detector_id.json());
        let m = m.insert("detector_version"@, self.detector_version.json());
        let m = m.insert("detector_hash"@, self.detector_hash.json());
        let m = m.insert("input_snapshot_refs"@, self.input_snapshot_refs.json());
        let m = m.insert("input_snapshot_hash"@, self.input_snapshot_hash.json());
        let m = m.insert("trend"@, self.trend.json());
        let m = m.insert("volatility"@, self.volatility.json());
        let m = m.insert("liquidity"@, self.liquidity.json());
        let m = m.insert("breadth"@, self.breadth.json());
        let m = m.insert("risk_state"@, self.risk_state.json());
        let m = m.insert("confidence_ppm"@, self.confidence_ppm.json());
        let m = m.insert("entropy_ppm"@, self.entropy_ppm.json());
        JsonTree::Object(m)
    }

    pub open spec fn identity(&self) -> Seq<char> {
        json_digest(self.identity_json())
    }

    fn identity_value(&self) -> (r: serde_json::Value)
        ensures
            json_content(r) == self.identity_json(),
    {
        let mut members = json_new_object();
        json_insert(&mut members, "schema_version", self.schema_version.to_json());
        json_insert(&mut members, "classification_kind", self.classification_kind.to_json());
        json_insert(&mut members, "decision_at", self.decision_at.to_json());
        json_insert(&mut members, "as_of", self.as_of.to_json());
        json_insert(&mut members, "taxonomy_id", self.taxonomy_id.to_json());
        json_insert(&mut members, "detector_id", self.detector_id.to_json());
        json_insert(&mut members, "detector_version", self.detector_version.to_json());
        json_insert(&mut members, "detector_hash", self.detector_hash.to_json());
        json_insert(&mut members, "input_snapshot_refs", self.input_snapshot_refs.to_json());
        json_insert(&mut members, "input_snapshot_hash", self.input_snapshot_hash.to_json());
        json_insert(&mut members, "trend", self.trend.to_json());
        json_insert(&mut members, "volatility", self.volatility.to_json());
        json_insert(&mut members, "liquidity", self.liquidity.to_json());
        json_insert(&mut members, "breadth", self.breadth.to_json());
        json_insert(&mut members, "risk_state", self.risk_state.to_json());
        json_insert(&mut members, "confidence_ppm", self.confidence_ppm.to_json());
        json_insert(&mut members, "entropy_ppm", self.entropy_ppm.to_json());
        json_object(members)
    }
}

/// The name of a trend among the labels.
pub open spec fn trend_label(trend: TrendRegime) -> Seq<char> {
    match trend {
        TrendRegime::BullStrong => "bull_strong"@,
        TrendRegime::BullWeak => "bull_weak"@,
        TrendRegime::Neutral => "trend_neutral"@,
        TrendRegime::BearWeak => "bear_weak"@,
        TrendRegime::BearStrong => "bear_strong"@,
    }
}

pub open spec fn volatility_label(volatility: VolatilityRegime) -> Seq<char> {
    match volatility {
        VolatilityRegime::Low => "low_volatility"@,
        VolatilityRegime::Normal => "normal_volatility"@,
        VolatilityRegime::High => "high_volatility"@,
        VolatilityRegime::Extreme => "extreme_volatility"@,
    }
}

pub open spec fn liquidity_label(liquidity: LiquidityRegime) -> Seq<char> {
    match liquidity {
        LiquidityRegime::Abundant => "abundant_liquidity"@,
        LiquidityRegime::Normal => "normal_liquidity"@,
        LiquidityRegime::Stressed => "stressed_liquidity"@,
        LiquidityRegime::Illiquid => "illiquid"@,
    }
}

pub open spec fn breadth_label(breadth: BreadthRegime) -> Seq<char> {
    match breadth {
        BreadthRegime::BroadParticipation => "broad_breadth"@,
        BreadthRegime::Selective => "selective_breadth"@,
        BreadthRegime::Divergent => "divergent_breadth"@,
        BreadthRegime::NarrowConcentration => "narrow_breadth"@,
    }
}

pub open spec fn risk_label(risk: RiskRegime) -> Seq<char> {
    match risk {
        RiskRegime::RiskOn => "risk_on"@,
        RiskRegime::Neutral => "risk_neutral"@,
        RiskRegime::RiskOff => "risk_off"@,
        RiskRegime::Crisis => "crisis"@,
    }
}

fn trend_name(trend: TrendRegime) -> (r: &'static str)
    ensures
        r@ == trend_label(trend),
{
    match trend {
        TrendRegime::BullStrong => "bull_strong",
        TrendRegime::BullWeak => "bull_weak",
        TrendRegime::Neutral => "trend_neutral",
        TrendRegime::BearWeak => "bear_weak",
        TrendRegime::BearStrong => "bear_strong",
    }
}

fn volatility_name(volatility: VolatilityRegime) -> (r: &'static str)
    ensures
        r@ == volatility_label(volatility),
{
    match volatility {
        VolatilityRegime::Low => "low_volatility",
        VolatilityRegime::Normal => "normal_volatility",
        VolatilityRegime::High => "high_volatility",
        VolatilityRegime::Extreme => "extreme_volatility",
    }
}

fn liquidity_name(liquidity: LiquidityRegime) -> (r: &'static str)
    ensures
        r@ == liquidity_label(liquidity),
{
    match liquidity {
        LiquidityRegime::Abundant => "abundant_liquidity",
        LiquidityRegime::Normal => "normal_liquidity",
        LiquidityRegime::Stressed => "stressed_liquidity",
        LiquidityRegime::Illiquid => "illiquid",
    }
}

fn breadth_name(breadth: BreadthRegime) -> (r: &'static str)
    ensures
        r@ == breadth_label(breadth),
{
    match breadth {
        BreadthRegime::BroadParticipation => "broad_breadth",
        BreadthRegime::Selective => "selective_breadth",
        BreadthRegime::Divergent => "divergent_breadth",
        BreadthRegime::NarrowConcentration => "narrow_breadth",
    }
}

fn risk_name(risk: RiskRegime) -> (r: &'static str)
    ensures
        r@ == risk_label(risk),
{
    match risk {
        RiskRegime::RiskOn => "risk_on",
        RiskRegime::Neutral => "risk_neutral",
        RiskRegime::RiskOff => "risk_off",
        RiskRegime::Crisis => "crisis",
    }
}

/// Puts a label in, alone and behind its dimension.
fn add_label(labels: &mut OrderedSet<String>, dimension: &str, name: &str)
    ensures
        final(labels)@ == old(labels)@.insert(name@).insert(dimension@ + name@),
{
    labels.insert(name.to_owned());
    labels.insert(joined(dimension, name));
}

impl RegimeSnapshot {
    /// What was known after the decision is no part of a regime at its time.
    pub open spec fn looks_ahead(&self) -> bool {
        self.classification_kind is DecisionTime && earlier(self.decision_at, self.as_of)
    }

    pub open spec fn distributions_verdict(&self) -> Verdict {
        first(
            self.trend.verdict(),
            first(
                self.volatility.verdict(),
                first(
                    self.liquidity.verdict(),
                    first(self.breadth.verdict(), self.risk_state.verdict()),
                ),
            ),
        )
    }

    pub open spec fn verdict_under(&self, identity_fits: bool) -> Verdict {
        if self.schema_version != DOMAIN_SCHEMA_VERSION {
            Err(empty("regime_snapshot.schema_version"@))
        } else if self.looks_ahead() {
            Err(
                ErrorView::DecisionTimeLookaheadViolation {
                    decision_at: self.decision_at,
                    as_of: self.as_of,
                },
            )
        } else if !identity_fits {
            Err(ErrorView::InvalidContentHash)
        } else {
            self.distributions_verdict()
        }
    }

    pub open spec fn verdict(&self) -> Verdict {
        self.verdict_under(self.snapshot_hash@ == self.identity())
    }

    /// The snapshot under its own identity, where it is valid.
    pub fn seal(self) -> (r: Result<RegimeSnapshot, DomainError>)
        ensures
            match r {
                Ok(sealed) => {
                    &&& sealed == (RegimeSnapshot { snapshot_hash: sealed.snapshot_hash, ..self })
                    &&& sealed.snapshot_hash@ == self.identity()
                    &&& sealed.verdict() is Ok
                },
                Err(e) => self.verdict_under(true) == Verdict::Err(e@),
            },
    {
        let hash = self.identity_hash()?;
        let sealed = RegimeSnapshot { snapshot_hash: hash, ..self };
        proof {
            assert(sealed.identity_json() == self.identity_json());
        }
        sealed.validate()?;
        Ok(sealed)
    }

    /// The digest of everything but the digest.
    pub fn identity_hash(&self) -> (r: Result<ContentHash, DomainError>)
        ensures
            r is Ok,
            r->Ok_0@ == self.identity(),
            is_digest(r->Ok_0@),
    {
        Ok(digest_of(&self.identity_value()))
    }

    pub fn validate(&self) -> (r: Result<(), DomainError>)
        ensures
            outcome(r) == self.verdict(),
    {
        if self.schema_version != DOMAIN_SCHEMA_VERSION {
            return Err(empty_field("regime_snapshot.schema_version"));
        }
        if self.classification_kind == RegimeClassificationKind::DecisionTime
            && self.decision_at.is_before(&self.as_of) {
            return Err(
                DomainError::DecisionTimeLookaheadViolation {
                    decision_at: self.decision_at,
                    as_of: self.as_of,
                },
            );
        }
        let expected = self.identity_hash()?;
        if !self.snapshot_hash.same(&expected) {
            return Err(DomainError::InvalidContentHash);
        }
        self.trend.validate()?;
        self.volatility.validate()?;
        self.liquidity.validate()?;
        self.breadth.validate()?;
        self.risk_state.validate()
    }

    /// A regime at decision time, known by then and made for no later decision.
    pub open spec fn serves_decision(&self, decision_at: UtcTime) -> bool {
        &&& self.classification_kind is DecisionTime
        &&& !earlier(decision_at, self.as_of)
        &&& !earlier(decision_at, self.decision_at)
    }

    pub fn permits_decision_context(&self, decision_at: UtcTime) -> (r: bool)
        ensures
            r == self.serves_decision(decision_at),
    {
        self.classification_kind == RegimeClassificationKind::DecisionTime
            && !decision_at.is_before(&self.as_of) && !decision_at.is_before(&self.decision_at)
    }

    /// The labels of the five states that are taken to hold, each alone and behind its
    /// dimension.
    pub open spec fn labels(&self) -> Set<Seq<char>> {
        let trend = trend_label(self.trend.dominant);
        let volatility = volatility_label(self.volatility.dominant);
        let liquidity = liquidity_label(self.liquidity.dominant);
        let breadth = breadth_label(self.breadth.dominant);
        let risk = risk_label(self.risk_state.dominant);
        Set::<Seq<char>>::empty().insert(trend).insert("trend:"@ + trend).insert(volatility).insert(
            "volatility:"@ + volatility,
        ).insert(liquidity).insert("liquidity:"@ + liquidity).insert(breadth).insert(
            "breadth:"@ + breadth,
        ).insert(risk).insert("risk:"@ + risk)
    }

    pub fn canonical_regime_labels(&self) -> (r: OrderedSet<String>)
        ensures
            r@ == self.labels(),
    {
        let mut labels: OrderedSet<String> = OrderedSet::new();
        add_label(&mut labels, "trend:", trend_name(self.trend.dominant));
        add_label(&mut labels, "volatility:", volatility_name(self.volatility.dominant));
        add_label(&mut labels, "liquidity:", liquidity_name(self.liquidity.dominant));
        add_label(&mut labels, "breadth:", breadth_name(self.breadth.dominant));
        add_label(&mut labels, "risk:", risk_name(self.risk_state.dominant));
        labels
    }
}

/// What was seen only afterwards serves no decision.
pub proof fn later_knowledge_serves_no_decision(snapshot: RegimeSnapshot, decision_at: UtcTime)
    requires
        snapshot.classification_kind is ExPost || earlier(decision_at, snapshot.as_of),
    ensures
        !snapshot.serves_decision(decision_at),
{
}

/// A valid regime at decision time serves its own decision, and every later one.
pub proof fn valid_regime_serves_its_decision(snapshot: RegimeSnapshot, decision_at: UtcTime)
    requires
        snapshot.verdict() is Ok,
        snapshot.classification_kind is DecisionTime,
        !earlier(decision_at, snapshot.decision_at),
    ensures
        snapshot.serves_decision(decision_at),
{
}

/// What a regime snapshot is refused with: the first fault that it has.
pub proof fn verdict_under_of_regime_snapshot_names_its_fault(
    this: RegimeSnapshot,
    identity_fits: bool,
)
    ensures
        (this.schema_version != DOMAIN_SCHEMA_VERSION)
            ==> this.verdict_under(identity_fits) == Verdict::Err(
                empty("regime_snapshot.schema_version"@),
            ),
        !(this.schema_version != DOMAIN_SCHEMA_VERSION) && (this.looks_ahead())
            ==> this.verdict_under(identity_fits) == Verdict::Err(
                ErrorView::DecisionTimeLookaheadViolation { decision_at: this.decision_at, as_of: this.as_of, },
            ),
        !(this.schema_version != DOMAIN_SCHEMA_VERSION) && !(this.looks_ahead()) && (!identity_fits)
            ==> this.verdict_under(identity_fits) == Verdict::Err(ErrorView::InvalidContentHash),
{
}

} // verus!
