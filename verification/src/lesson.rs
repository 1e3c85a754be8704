//! Lessons: statements that can be used again, who vouches for them, and what was seen of the
//! decisions that cited them.
use crate::artifact::{refs_all_cite, refs_all_have_kind, refs_cite, refs_have_kind, ArtifactKind, ArtifactRef};
use crate::decision::{share_fits, DecisionHorizon};
use crate::error::{
    budget, demand, empty, empty_field, first, invalid_budget, outcome, DomainError, Verdict,
};
use crate::foundation::{content_hash_json, json_digest, Asset, ContentHash};
use crate::ids::LessonId;
use crate::json::{
    json_insert, json_new_object, json_object, json_text, no_members, JsonTree, ToJson,
};
use crate::market_safety::{holds_blank, set_has_blank};
use crate::ordered::{Key, OrderedMap, OrderedSet};
use crate::text::{any_blank, blank, has_blank, is_blank, same_text};
use crate::time::{earlier, UtcTime, LAST_SECOND};
use crate::DOMAIN_SCHEMA_VERSION;
use vstd::prelude::*;

verus! {

/// Where a lesson comes from.
#[derive(Clone, Copy, Debug, PartialEq, Eq, PartialOrd, Ord, Hash, Structural)]
pub enum LessonOrigin {
    Operator,
    OutcomeDerived,
}

impl LessonOrigin {
    /// The name of the variant in JSON.
    pub open spec fn wire(self) -> Seq<char> {
        match self {
            LessonOrigin::Operator => "operator"@,
            LessonOrigin::OutcomeDerived => "outcome_derived"@,
        }
    }

    /// The name of the variant in JSON.
    pub fn wire_name(self) -> (r: &'static str)
        ensures
            r@ == self.wire(),
    {
        match self {
            LessonOrigin::Operator => "operator",
            LessonOrigin::OutcomeDerived => "outcome_derived",
        }
    }
}

impl ToJson for LessonOrigin {
    open spec fn json(&self) -> JsonTree {
        JsonTree::Text(self.wire())
    }

    fn to_json(&self) -> (r: serde_json::Value) {
        json_text(self.wire_name())
    }
}

/// The state of a lesson.
#[derive(Clone, Copy, Debug, PartialEq, Eq, PartialOrd, Ord, Hash, Structural)]
pub enum LessonLifecycle {
    Draft,
    Active,
    Contested,
    Retired,
}

impl LessonLifecycle {
    /// The name of the variant in JSON.
    pub open spec fn wire(self) -> Seq<char> {
        match self {
            LessonLifecycle::Draft => "draft"@,
            LessonLifecycle::Active => "active"@,
            LessonLifecycle::Contested => "contested"@,
            LessonLifecycle::Retired => "retired"@,
        }
    }

    /// The name of the variant in JSON.
    pub fn wire_name(self) -> (r: &'static str)
        ensures
            r@ == self.wire(),
    {
        match self {
            LessonLifecycle::Draft => "draft",
            LessonLifecycle::Active => "active",
            LessonLifecycle::Contested => "contested",
            LessonLifecycle::Retired => "retired",
        }
    }
}

impl ToJson for LessonLifecycle {
    open spec fn json(&self) -> JsonTree {
        JsonTree::Text(self.wire())
    }

    fn to_json(&self) -> (r: serde_json::Value) {
        json_text(self.wire_name())
    }
}

/// Who vouches for a lesson.
#[derive(Clone, Copy, Debug, PartialEq, Eq, PartialOrd, Ord, Hash, Structural)]
pub enum LessonTrustClass {
    OperatorReviewed,
    Verified,
    OutcomeDerived,
    Contested,
}

impl LessonTrustClass {
    /// The name of the variant in JSON.
    pub open spec fn wire(self) -> Seq<char> {
        match self {
            LessonTrustClass::OperatorReviewed => "operator_reviewed"@,
            LessonTrustClass::Verified => "verified"@,
            LessonTrustClass::OutcomeDerived => "outcome_derived"@,
            LessonTrustClass::Contested => "contested"@,
        }
    }

    /// The name of the variant in JSON.
    pub fn wire_name(self) -> (r: &'static str)
        ensures
            r@ == self.wire(),
    {
        match self {
            LessonTrustClass::OperatorReviewed => "operator_reviewed",
            LessonTrustClass::Verified => "verified",
            LessonTrustClass::OutcomeDerived => "outcome_derived",
            LessonTrustClass::Contested => "contested",
        }
    }
}

impl ToJson for LessonTrustClass {
    open spec fn json(&self) -> JsonTree {
        JsonTree::Text(self.wire())
    }

    fn to_json(&self) -> (r: serde_json::Value) {
        json_text(self.wire_name())
    }
}

/// What speaks against a lesson.
#[derive(Clone, Copy, Debug, PartialEq, Eq, PartialOrd, Ord, Hash, Structural)]
pub enum LessonGovernanceSignalKind {
    Contradiction,
    PostUseFailure,
}

impl LessonGovernanceSignalKind {
    /// The name of the variant in JSON.
    pub open spec fn wire(self) -> Seq<char> {
        match self {
            LessonGovernanceSignalKind::Contradiction => "contradiction"@,
            LessonGovernanceSignalKind::PostUseFailure => "post_use_failure"@,
        }
    }

    /// The name of the variant in JSON.
    pub fn wire_name(self) -> (r: &'static str)
        ensures
            r@ == self.wire(),
    {
        match self {
            LessonGovernanceSignalKind::Contradiction => "contradiction",
            LessonGovernanceSignalKind::PostUseFailure => "post_use_failure",
        }
    }
}

impl ToJson for LessonGovernanceSignalKind {
    open spec fn json(&self) -> JsonTree {
        JsonTree::Text(self.wire())
    }

    fn to_json(&self) -> (r: serde_json::Value) {
        json_text(self.wire_name())
    }
}

impl LessonGovernanceSignalKind {
    pub fn as_str(self) -> (r: &'static str)
        ensures
            r@ == self.wire(),
    {
        self.wire_name()
    }
}

/// Something that speaks against a lesson, with its evidence.
#[derive(Debug, Clone, PartialEq, Eq)]
pub struct LessonGovernanceSignal {
    pub kind: LessonGovernanceSignalKind,
    pub evidence: ArtifactRef,
    pub actor: String,
    pub reason: String,
    pub observed_at: UtcTime,
}

/// What can speak against a lesson.
pub open spec fn is_signal_evidence(kind: ArtifactKind) -> bool {
    ||| kind is Claim
    ||| kind is Critique
    ||| kind is Outcome
    ||| kind is Retrospective
    ||| kind is Evaluation
    ||| kind is SemanticDetail
}

impl LessonGovernanceSignal {
    pub open spec fn verdict(&self) -> Verdict {
        demand(
            !blank(self.actor@) && !blank(self.reason@) && is_signal_evidence(self.evidence.kind),
            empty("lesson.governance_signal"@),
        )
    }

    pub fn validate(&self) -> (r: Result<(), DomainError>)
        ensures
            outcome(r) == self.verdict(),
    {
        if is_blank(&self.actor) || is_blank(&self.reason) || !matches!(
            self.evidence.kind,
            ArtifactKind::Claim | ArtifactKind::Critique | ArtifactKind::Outcome
                | ArtifactKind::Retrospective | ArtifactKind::Evaluation
                | ArtifactKind::SemanticDetail
        ) {
            return Err(empty_field("lesson.governance_signal"));
        }
        Ok(())
    }
}

/// How long a lesson is good for, how often it may be used, and what was found against it.
#[derive(Debug, Clone, PartialEq, Eq)]
pub struct LessonGovernance {
    pub valid_from: UtcTime,
    pub valid_until: Option<UtcTime>,
    pub last_revalidated_at: UtcTime,
    pub verifier_id: String,
    pub verifier_version: String,
    pub trust_class: LessonTrustClass,
    pub uncertainty_ppm: u32,
    pub max_usage_before_revalidation: u64,
    pub contradiction_count: u64,
    pub post_use_failure_count: u64,
    pub regime_compatibility: OrderedMap<String, u32>,
    pub quarantine_reason: Option<String>,
}

/// An instant a number of days after another. A leap second is left on the way.
pub open spec fn is_days_after(until: UtcTime, from: UtcTime, days: int) -> bool {
    &&& until.secs() == from.secs() + days * 86_400
    &&& until.nanos() == from.nanos() % 1_000_000_000
}

impl LessonGovernance {
    /// Good from an instant on, with nothing found against it yet.
    pub open spec fn is_fresh(
        &self,
        now: UtcTime,
        verifier: Seq<char>,
        trust: LessonTrustClass,
        uncertainty: u32,
        uses: u64,
    ) -> bool {
        &&& self.valid_from == now
        &&& self.last_revalidated_at == now
        &&& self.verifier_id@ == verifier
        &&& self.verifier_version@ == "v1"@
        &&& self.trust_class == trust
        &&& self.uncertainty_ppm == uncertainty
        &&& self.max_usage_before_revalidation == uses
        &&& self.contradiction_count == 0
        &&& self.post_use_failure_count == 0
        &&& self.regime_compatibility@ == Map::<Seq<char>, u32>::empty()
    }

    /// Approved by an operator for ninety days.
    pub open spec fn is_operator_review(&self, now: UtcTime) -> bool {
        &&& self.is_fresh(
            now,
            "operator-review"@,
            LessonTrustClass::OperatorReviewed,
            250_000,
            100,
        )
        &&& self.valid_until matches Some(until) && is_days_after(until, now, 90)
        &&& self.quarantine_reason is None
    }

    /// Learned from outcomes and kept out until it is confirmed.
    pub open spec fn is_outcome_quarantine(&self, now: UtcTime) -> bool {
        &&& self.is_fresh(
            now,
            "paired-outcome-pending"@,
            LessonTrustClass::OutcomeDerived,
            1_000_000,
            1,
        )
        &&& self.valid_until is None
        &&& self.quarantine_reason matches Some(reason) && reason@
            == "paired cross-regime validation pending"@
    }

    /// Learned from outcomes and confirmed for thirty days.
    pub open spec fn is_outcome_revalidation(&self, now: UtcTime) -> bool {
        &&& self.is_fresh(now, "operator-paired-review"@, LessonTrustClass::Verified, 500_000, 20)
        &&& self.valid_until matches Some(until) && is_days_after(until, now, 30)
        &&& self.quarantine_reason is None
    }

    /// A lesson's governance that an operator has approved for ninety days.
    pub fn operator_reviewed(now: UtcTime) -> (r: LessonGovernance)
        requires
            now.secs() + 90 * 86_400 <= LAST_SECOND,
        ensures
            r.is_operator_review(now),
    {
        LessonGovernance {
            valid_from: now,
            valid_until: Some(now.plus_days(90)),
            last_revalidated_at: now,
            verifier_id: "operator-review".to_owned(),
            verifier_version: "v1".to_owned(),
            trust_class: LessonTrustClass::OperatorReviewed,
            uncertainty_ppm: 250_000,
            max_usage_before_revalidation: 100,
            contradiction_count: 0,
            post_use_failure_count: 0,
            regime_compatibility: OrderedMap::new(),
            quarantine_reason: None,
        }
    }

    /// Learned from outcomes and kept out until it is confirmed.
    pub fn outcome_quarantined(now: UtcTime) -> (r: LessonGovernance)
        ensures
            r.is_outcome_quarantine(now),
    {
        LessonGovernance {
            valid_from: now,
            valid_until: None,
            last_revalidated_at: now,
            verifier_id: "paired-outcome-pending".to_owned(),
            verifier_version: "v1".to_owned(),
            trust_class: LessonTrustClass::OutcomeDerived,
            uncertainty_ppm: 1_000_000,
            max_usage_before_revalidation: 1,
            contradiction_count: 0,
            post_use_failure_count: 0,
            regime_compatibility: OrderedMap::new(),
            quarantine_reason: Some("paired cross-regime validation pending".to_owned()),
        }
    }

    /// Learned from outcomes and confirmed for thirty days.
    pub fn outcome_revalidated(now: UtcTime) -> (r: LessonGovernance)
        requires
            now.secs() + 30 * 86_400 <= LAST_SECOND,
        ensures
            r.is_outcome_revalidation(now),
    {
        LessonGovernance {
            valid_from: now,
            valid_until: Some(now.plus_days(30)),
            last_revalidated_at: now,
            verifier_id: "operator-paired-review".to_owned(),
            verifier_version: "v1".to_owned(),
            trust_class: LessonTrustClass::Verified,
            uncertainty_ppm: 500_000,
            max_usage_before_revalidation: 20,
            contradiction_count: 0,
            post_use_failure_count: 0,
            regime_compatibility: OrderedMap::new(),
            quarantine_reason: None,
        }
    }

    /// A regime has a name, and a share of the whole.
    pub open spec fn compatibility_is_sound(&self, i: int) -> bool {
        &&& !blank(self.regime_compatibility.keys()[i])
        &&& self.regime_compatibility.values()[i] <= 1_000_000
    }

    pub open spec fn is_sound(&self) -> bool {
        &&& !blank(self.verifier_id@)
        &&& !blank(self.verifier_version@)
        &&& self.uncertainty_ppm <= 1_000_000
        &&& self.max_usage_before_revalidation > 0
        &&& !earlier(self.last_revalidated_at, self.valid_from)
        &&& self.valid_until matches Some(until) ==> earlier(self.valid_from, until)
        &&& self.regime_compatibility.keys().len() <= 32
        &&& forall|i: int|
            0 <= i < self.regime_compatibility.keys().len()
                ==> #[trigger] self.compatibility_is_sound(i)
        &&& self.quarantine_reason matches Some(reason) ==> !blank(reason@)
    }

    pub open spec fn verdict(&self) -> Verdict {
        demand(self.is_sound(), budget("lesson.governance"@))
    }

    fn has_sound_compatibility(&self) -> (r: bool)
        ensures
            r == forall|i: int|
                0 <= i < self.regime_compatibility.keys().len()
                    ==> #[trigger] self.compatibility_is_sound(i),
    {
        let n: usize = self.regime_compatibility.len();
        let mut i: usize = 0;
        while i < n
            invariant
                i <= n,
                n == self.regime_compatibility.keys().len(),
                forall|j: int| 0 <= j < i ==> #[trigger] self.compatibility_is_sound(j),
            decreases n - i,
        {
            let sound = !is_blank(self.regime_compatibility.key_at(i))
                && *self.regime_compatibility.value_at(i) <= 1_000_000;
            proof {
                assert(sound == self.compatibility_is_sound(i as int));
            }
            if !sound {
                return false;
            }
            i += 1;
        }
        true
    }

    pub fn validate(&self) -> (r: Result<(), DomainError>)
        ensures
            outcome(r) == self.verdict(),
    {
        let ends_early = match &self.valid_until {
            Some(until) => !self.valid_from.is_before(until),
            None => false,
        };
        let no_reason = match &self.quarantine_reason {
            Some(reason) => is_blank(reason),
            None => false,
        };
        if is_blank(&self.verifier_id) || is_blank(&self.verifier_version) || self.uncertainty_ppm
            > 1_000_000 || self.max_usage_before_revalidation == 0
            || self.last_revalidated_at.is_before(&self.valid_from) || ends_early
            || self.regime_compatibility.len() > 32 || !self.has_sound_compatibility()
            || no_reason {
            return Err(invalid_budget("lesson.governance"));
        }
        Ok(())
    }

    /// One of the regimes is at least half compatible.
    pub open spec fn suits_one_of(&self, regimes: Set<Seq<char>>) -> bool {
        exists|regime: Seq<char>| #[trigger]
            regimes.contains(regime) && self.regime_compatibility@.dom().contains(regime)
                && self.regime_compatibility@[regime] >= 500_000
    }

    /// Neither kept out nor out of date, used up or contradicted, and made for the regime.
    pub open spec fn admits(&self, now: UtcTime, uses: u64, regimes: Set<Seq<char>>) -> bool {
        &&& self.quarantine_reason is None
        &&& !earlier(now, self.valid_from)
        &&& self.valid_until matches Some(until) ==> !earlier(until, now)
        &&& uses < self.max_usage_before_revalidation
        &&& self.contradiction_count == 0
        &&& self.post_use_failure_count == 0
        &&& self.regime_compatibility.keys().len() > 0 ==> self.suits_one_of(regimes)
    }

    fn is_suited(&self, regimes: &OrderedSet<String>) -> (r: bool)
        ensures
            r == self.suits_one_of(regimes@),
    {
        let n: usize = regimes.len();
        let mut i: usize = 0;
        while i < n
            invariant
                i <= n,
                n == regimes.keys().len(),
                regimes@ == regimes.keys().to_set(),
                forall|j: int|
                    0 <= j < i ==> !(self.regime_compatibility@.dom().contains(
                        #[trigger] regimes.keys()[j],
                    ) && self.regime_compatibility@[regimes.keys()[j]] >= 500_000),
            decreases n - i,
        {
            let regime = regimes.at(i);
            if let Some(share) = self.regime_compatibility.get(regime) {
                if *share >= 500_000 {
                    proof {
                        assert(regimes@.contains(regime@));
                    }
                    return true;
                }
            }
            i += 1;
        }
        proof {
            assert forall|regime: Seq<char>| #[trigger] regimes@.contains(regime) implies !(
            self.regime_compatibility@.dom().contains(regime)
                && self.regime_compatibility@[regime] >= 500_000) by {
                let j = choose|j: int| 0 <= j < n && regimes.keys()[j] == regime;
                assert(regimes.keys()[j] == regime);
            }
        }
        false
    }

    pub fn permits_retrieval(
        &self,
        now: UtcTime,
        usage_count: u64,
        regimes: &OrderedSet<String>,
    ) -> (r: bool)
        ensures
            r == self.admits(now, usage_count, regimes@),
    {
        let over = match &self.valid_until {
            Some(until) => until.is_before(&now),
            None => false,
        };
        self.quarantine_reason.is_none() && !now.is_before(&self.valid_from) && !over && usage_count
            < self.max_usage_before_revalidation && self.contradiction_count == 0
            && self.post_use_failure_count == 0 && (self.regime_compatibility.is_empty()
            || self.is_suited(regimes))
    }
}

/// Once something was found against a lesson, or it was kept out, it is not looked up.
pub proof fn contested_lesson_is_not_looked_up(
    governance: LessonGovernance,
    now: UtcTime,
    uses: u64,
    regimes: Set<Seq<char>>,
)
    requires
        governance.contradiction_count > 0 || governance.post_use_failure_count > 0
            || governance.quarantine_reason is Some,
    ensures
        !governance.admits(now, uses, regimes),
{
}

/// A lesson that may be looked up after some uses might have been after fewer.
pub proof fn fewer_uses_keep_a_lesson_available(
    governance: LessonGovernance,
    now: UtcTime,
    uses: u64,
    fewer: u64,
    regimes: Set<Seq<char>>,
)
    requires
        governance.admits(now, uses, regimes),
        fewer <= uses,
    ensures
        governance.admits(now, fewer, regimes),
{
}

/// What a lesson applies to; nothing named in a dimension means all of it.
#[derive(Debug, Clone, PartialEq, Eq)]
pub struct LessonScope {
    pub assets: OrderedSet<Asset>,
    pub horizons: OrderedSet<DecisionHorizon>,
    pub regimes: OrderedSet<String>,
    pub decision_stages: OrderedSet<String>,
}

impl Default for LessonScope {
    fn default() -> (r: Self)
        ensures
            r.assets@ == Set::<Asset>::empty(),
            r.horizons@ == Set::<DecisionHorizon>::empty(),
            r.regimes@ == Set::<Seq<char>>::empty(),
            r.decision_stages@ == Set::<Seq<char>>::empty(),
    {
        LessonScope {
            assets: OrderedSet::new(),
            horizons: OrderedSet::new(),
            regimes: OrderedSet::new(),
            decision_stages: OrderedSet::new(),
        }
    }
}

/// The two have something in common.
pub open spec fn share_one<V>(a: Set<V>, b: Set<V>) -> bool {
    exists|v: V| #[trigger] a.contains(v) && b.contains(v)
}

/// Applies to all, is asked of nothing in particular, or has something in common.
pub open spec fn loosely_fits<V>(own: Set<V>, asked: Set<V>) -> bool {
    own == Set::<V>::empty() || asked == Set::<V>::empty() || share_one(own, asked)
}

fn have_common<K: Key>(a: &OrderedSet<K>, b: &OrderedSet<K>) -> (r: bool)
    ensures
        r == share_one(a@, b@),
{
    let apart = a.is_disjoint(b);
    proof {
        if !apart {
            let v = choose|v: K::V| a@.contains(v) && b@.contains(v);
            assert(a@.contains(v) && b@.contains(v));
        }
    }
    !apart
}

fn fits_loosely<K: Key>(own: &OrderedSet<K>, asked: &OrderedSet<K>) -> (r: bool)
    ensures
        r == loosely_fits(own@, asked@),
{
    own.is_empty() || asked.is_empty() || have_common(own, asked)
}

impl LessonScope {
    pub open spec fn verdict(&self) -> Verdict {
        first(
            demand(
                !holds_blank(self.regimes@) && !holds_blank(self.decision_stages@),
                empty("lesson.scope"@),
            ),
            demand(
                self.regimes@.len() <= 16 && self.decision_stages@.len() <= 8,
                budget("lesson.scope"@),
            ),
        )
    }

    pub fn validate(&self) -> (r: Result<(), DomainError>)
        ensures
            outcome(r) == self.verdict(),
    {
        if set_has_blank(&self.regimes) || set_has_blank(&self.decision_stages) {
            return Err(empty_field("lesson.scope"));
        }
        if self.regimes.len() > 16 || self.decision_stages.len() > 8 {
            return Err(invalid_budget("lesson.scope"));
        }
        Ok(())
    }

    /// Assets, horizons and stages that are not asked for do not count against a lesson;
    /// regimes do.
    pub open spec fn applies_to(
        &self,
        assets: Set<Asset>,
        horizons: Set<DecisionHorizon>,
        regimes: Set<Seq<char>>,
        decision_stages: Set<Seq<char>>,
    ) -> bool {
        &&& loosely_fits(self.assets@, assets)
        &&& loosely_fits(self.horizons@, horizons)
        &&& self.regimes@ == Set::<Seq<char>>::empty() || share_one(self.regimes@, regimes)
        &&& loosely_fits(self.decision_stages@, decision_stages)
    }

    pub fn matches(
        &self,
        assets: &OrderedSet<Asset>,
        horizons: &OrderedSet<DecisionHorizon>,
        regimes: &OrderedSet<String>,
        decision_stages: &OrderedSet<String>,
    ) -> (r: bool)
        ensures
            r == self.applies_to(assets@, horizons@, regimes@, decision_stages@),
    {
        fits_loosely(&self.assets, assets) && fits_loosely(&self.horizons, horizons) && (
        self.regimes.is_empty() || have_common(&self.regimes, regimes)) && fits_loosely(
            &self.decision_stages,
            decision_stages,
        )
    }
}

/// A statement that can be used again. It gives no authority to trade.
#[derive(Debug, Clone, PartialEq, Eq)]
pub struct Lesson {
    pub schema_version: u32,
    pub lesson_id: LessonId,
    pub origin: LessonOrigin,
    pub lifecycle: LessonLifecycle,
    pub title: String,
    pub statement: String,
    pub rationale: String,
    pub recommended_behavior: String,
    pub exclusions: Vec<String>,
    pub scope: LessonScope,
    pub source_refs: Vec<ArtifactRef>,
    pub supersedes: Vec<ArtifactRef>,
    pub conflicts_with: Vec<ArtifactRef>,
    pub confidence_ppm: u32,
    pub authored_by: Option<String>,
    pub approved_by: Option<String>,
    pub created_at: UtcTime,
    pub updated_at: UtcTime,
    pub governance: Option<LessonGovernance>,
}

/// A name is given.
pub open spec fn is_named(name: Option<String>) -> bool {
    name matches Some(text) && text@.len() > 0
}

fn has_name(name: &Option<String>) -> (r: bool)
    ensures
        r == is_named(*name),
{
    match name {
        Some(text) => text.as_str().unicode_len() > 0,
        None => false,
    }
}

impl Lesson {
    pub open spec fn is_complete(&self) -> bool {
        &&& self.schema_version == DOMAIN_SCHEMA_VERSION
        &&& !blank(self.lesson_id@)
        &&& !blank(self.title@)
        &&& !blank(self.statement@)
        &&& !blank(self.rationale@)
        &&& !blank(self.recommended_behavior@)
    }

    pub open spec fn is_bounded(&self) -> bool {
        &&& self.confidence_ppm <= 1_000_000
        &&& 0 < self.source_refs@.len() <= 16
        &&& self.exclusions@.len() <= 16
        &&& self.supersedes@.len() <= 8
        &&& self.conflicts_with@.len() <= 8
        &&& !any_blank(self.exclusions@)
    }

    pub open spec fn governance_verdict(&self) -> Verdict {
        match self.governance {
            Some(governance) => governance.verdict(),
            None => Ok(()),
        }
    }

    /// A lesson rests on something other than lessons, and relates to lessons alone.
    pub open spec fn references_verdict(&self) -> Verdict {
        first(
            demand(
                !refs_cite(self.source_refs@, ArtifactKind::Lesson),
                empty("lesson.source_refs"@),
            ),
            demand(
                refs_all_cite(self.supersedes@, ArtifactKind::Lesson) && refs_all_cite(
                    self.conflicts_with@,
                    ArtifactKind::Lesson,
                ),
                empty("lesson.related_refs"@),
            ),
        )
    }

    /// An operator's lesson has an author, one in use is approved, and one that is active is
    /// not kept out.
    pub open spec fn authority_verdict(&self) -> Verdict {
        first(
            demand(
                self.origin is Operator ==> is_named(self.authored_by),
                empty("lesson.authored_by"@),
            ),
            first(
                demand(
                    self.lifecycle is Active || self.lifecycle is Contested ==> is_named(
                        self.approved_by,
                    ) && self.governance is Some,
                    empty("lesson.approved_by"@),
                ),
                demand(
                    self.lifecycle is Active ==> !(self.governance matches Some(governance)
                        && governance.quarantine_reason is Some),
                    budget("lesson.governance.quarantine"@),
                ),
            ),
        )
    }

    pub open spec fn verdict(&self) -> Verdict {
        if !self.is_complete() {
            Err(empty("lesson.identity_or_content"@))
        } else if !self.is_bounded() {
            Err(budget("lesson.bounds"@))
        } else {
            first(
                self.scope.verdict(),
                first(
                    self.governance_verdict(),
                    first(self.references_verdict(), self.authority_verdict()),
                ),
            )
        }
    }

    fn validate_authority(&self) -> (r: Result<(), DomainError>)
        ensures
            outcome(r) == self.authority_verdict(),
    {
        if self.origin == LessonOrigin::Operator && !has_name(&self.authored_by) {
            return Err(empty_field("lesson.authored_by"));
        }
        if (self.lifecycle == LessonLifecycle::Active || self.lifecycle
            == LessonLifecycle::Contested) && (!has_name(&self.approved_by)
            || self.governance.is_none()) {
            return Err(empty_field("lesson.approved_by"));
        }
        let kept_out = match &self.governance {
            Some(governance) => governance.quarantine_reason.is_some(),
            None => false,
        };
        if self.lifecycle == LessonLifecycle::Active && kept_out {
            return Err(invalid_budget("lesson.governance.quarantine"));
        }
        Ok(())
    }

    pub fn validate(&self) -> (r: Result<(), DomainError>)
        ensures
            outcome(r) == self.verdict(),
    {
        if self.schema_version != DOMAIN_SCHEMA_VERSION || is_blank(&self.lesson_id.0) || is_blank(
            &self.title,
        ) || is_blank(&self.statement) || is_blank(&self.rationale) || is_blank(
            &self.recommended_behavior,
        ) {
            return Err(empty_field("lesson.identity_or_content"));
        }
        if self.confidence_ppm > 1_000_000 || self.source_refs.len() == 0 || self.source_refs.len()
            > 16 || self.exclusions.len() > 16 || self.supersedes.len() > 8
            || self.conflicts_with.len() > 8 || has_blank(&self.exclusions) {
            return Err(invalid_budget("lesson.bounds"));
        }
        self.scope.validate()?;
        if let Some(governance) = &self.governance {
            governance.validate()?;
        }
        if refs_have_kind(&self.source_refs, ArtifactKind::Lesson) {
            return Err(empty_field("lesson.source_refs"));
        }
        if !refs_all_have_kind(&self.supersedes, ArtifactKind::Lesson) || !refs_all_have_kind(
            &self.conflicts_with,
            ArtifactKind::Lesson,
        ) {
            return Err(empty_field("lesson.related_refs"));
        }
        self.validate_authority()
    }

    /// The lesson is in use, and its governance admits it.
    pub open spec fn can_be_looked_up(
        &self,
        now: UtcTime,
        uses: u64,
        regimes: Set<Seq<char>>,
    ) -> bool {
        &&& self.lifecycle is Active
        &&& self.governance matches Some(governance) && governance.admits(now, uses, regimes)
    }

    pub fn is_retrievable(
        &self,
        now: UtcTime,
        usage_count: u64,
        regimes: &OrderedSet<String>,
    ) -> (r: bool)
        ensures
            r == self.can_be_looked_up(now, usage_count, regimes@),
    {
        if self.lifecycle != LessonLifecycle::Active {
            return false;
        }
        match &self.governance {
            Some(governance) => governance.permits_retrieval(now, usage_count, regimes),
            None => false,
        }
    }
}

/// A valid lesson that can be looked up was approved.
pub proof fn lessons_in_use_were_approved(
    lesson: Lesson,
    now: UtcTime,
    uses: u64,
    regimes: Set<Seq<char>>,
)
    requires
        lesson.verdict() is Ok,
        lesson.can_be_looked_up(now, uses, regimes),
    ensures
        is_named(lesson.approved_by),
        lesson.governance is Some,
        lesson.governance->0.quarantine_reason is None,
{
}

/// What became of a lesson in a decision.
#[derive(Clone, Copy, Debug, PartialEq, Eq, PartialOrd, Ord, Hash, Structural)]
pub enum LessonAttribution {
    Applied,
    Rejected,
}

impl LessonAttribution {
    /// The name of the variant in JSON.
    pub open spec fn wire(self) -> Seq<char> {
        match self {
            LessonAttribution::Applied => "applied"@,
            LessonAttribution::Rejected => "rejected"@,
        }
    }

    /// The name of the variant in JSON.
    pub fn wire_name(self) -> (r: &'static str)
        ensures
            r@ == self.wire(),
    {
        match self {
            LessonAttribution::Applied => "applied",
            LessonAttribution::Rejected => "rejected",
        }
    }
}

impl ToJson for LessonAttribution {
    open spec fn json(&self) -> JsonTree {
        JsonTree::Text(self.wire())
    }

    fn to_json(&self) -> (r: serde_json::Value) {
        json_text(self.wire_name())
    }
}

impl LessonAttribution {
    pub fn as_str(self) -> (r: &'static str)
        ensures
            r@ == self.wire(),
    {
        self.wire_name()
    }
}

/// A decision that cited a lesson, and its outcome. It says what was seen together, and nothing
/// of what caused it.
#[derive(Debug, Clone, PartialEq, Eq)]
pub struct LessonEvidence {
    pub schema_version: u32,
    pub lesson_id: LessonId,
    pub lesson_artifact: ArtifactRef,
    pub decision_context: ArtifactRef,
    pub outcome: ArtifactRef,
    pub attribution: LessonAttribution,
    pub utility_ppm_by_horizon: [i64; 3],
    pub calibration_ppm_by_horizon: [Option<u32>; 3],
    pub recorded_at: UtcTime,
}

impl LessonEvidence {
    /// No calibration is more than the whole.
    pub open spec fn calibration_fits(&self) -> bool {
        &&& share_fits(self.calibration_ppm_by_horizon@[0])
        &&& share_fits(self.calibration_ppm_by_horizon@[1])
        &&& share_fits(self.calibration_ppm_by_horizon@[2])
    }

    pub open spec fn verdict(&self) -> Verdict {
        if self.schema_version != DOMAIN_SCHEMA_VERSION || blank(self.lesson_id@) {
            Err(empty("lesson_evidence.identity"@))
        } else if !(self.lesson_artifact.kind is Lesson)
            || !(self.decision_context.kind is DecisionContext) || !(
        self.outcome.kind is Outcome) {
            Err(empty("lesson_evidence.references"@))
        } else {
            demand(self.calibration_fits(), budget("lesson_evidence.calibration_ppm"@))
        }
    }

    pub fn validate(&self) -> (r: Result<(), DomainError>)
        ensures
            outcome(r) == self.verdict(),
    {
        if self.schema_version != DOMAIN_SCHEMA_VERSION || is_blank(&self.lesson_id.0) {
            return Err(empty_field("lesson_evidence.identity"));
        }
        if self.lesson_artifact.kind != ArtifactKind::Lesson || self.decision_context.kind
            != ArtifactKind::DecisionContext || self.outcome.kind != ArtifactKind::Outcome {
            return Err(empty_field("lesson_evidence.references"));
        }
        let shares = &self.calibration_ppm_by_horizon;
        if !is_share(shares[0]) || !is_share(shares[1]) || !is_share(shares[2]) {
            return Err(invalid_budget("lesson_evidence.calibration_ppm"));
        }
        Ok(())
    }

    /// The lesson, the decision and the outcome: what was recorded twice is the same record.
    pub open spec fn key(&self) -> (Seq<char>, Seq<char>, Seq<char>) {
        (self.lesson_id@, self.decision_context.artifact_id@, self.outcome.artifact_id@)
    }

    pub fn idempotency_key(&self) -> (r: (String, String, String))
        ensures
            (r.0@, r.1@, r.2@) == self.key(),
    {
        (
            self.lesson_id.0.clone(),
            self.decision_context.artifact_id.0.as_str().to_owned(),
            self.outcome.artifact_id.0.as_str().to_owned(),
        )
    }

    pub open spec fn identity_json(&self) -> JsonTree {
        JsonTree::Object(
            no_members().insert("schema_version"@, self.schema_version.json()).insert(
                "lesson_id"@,
                JsonTree::Text(self.key().0),
            ).insert("decision_context"@, JsonTree::Text(self.key().1)).insert(
                "outcome"@,
                JsonTree::Text(self.key().2),
            ),
        )
    }

    pub fn identity_hash(&self) -> (r: Result<ContentHash, serde_json::Error>)
        ensures
            r is Ok,
            r->Ok_0@ == json_digest(self.identity_json()),
    {
        let key = self.idempotency_key();
        let mut members = json_new_object();
        json_insert(&mut members, "schema_version", self.schema_version.to_json());
        json_insert(&mut members, "lesson_id", key.0.to_json());
        json_insert(&mut members, "decision_context", key.1.to_json());
        json_insert(&mut members, "outcome", key.2.to_json());
        content_hash_json(&json_object(members))
    }

    /// Everything but the time of recording is the same.
    pub open spec fn is_same_observation(&self, other: LessonEvidence) -> bool {
        &&& self.schema_version == other.schema_version
        &&& self.lesson_id@ == other.lesson_id@
        &&& self.lesson_artifact@ == other.lesson_artifact@
        &&& self.decision_context@ == other.decision_context@
        &&& self.outcome@ == other.outcome@
        &&& self.attribution == other.attribution
        &&& self.utility_ppm_by_horizon@ == other.utility_ppm_by_horizon@
        &&& self.calibration_ppm_by_horizon@ == other.calibration_ppm_by_horizon@
    }

    pub fn describes_same_observation(&self, other: &Self) -> (r: bool)
        ensures
            r == self.is_same_observation(*other),
    {
        let a = &self.utility_ppm_by_horizon;
        let b = &other.utility_ppm_by_horizon;
        let utilities = a[0] == b[0] && a[1] == b[1] && a[2] == b[2];
        let c = &self.calibration_ppm_by_horizon;
        let d = &other.calibration_ppm_by_horizon;
        let calibrations = same_share(c[0], d[0]) && same_share(c[1], d[1]) && same_share(
            c[2],
            d[2],
        );
        proof {
            if utilities {
                assert(a@ =~= b@);
            }
            if calibrations {
                assert(c@ =~= d@);
            }
        }
        self.schema_version == other.schema_version && same_text(
            &self.lesson_id.0,
            &other.lesson_id.0,
        ) && self.lesson_artifact.same(&other.lesson_artifact) && self.decision_context.same(
            &other.decision_context,
        ) && self.outcome.same(&other.outcome) && self.attribution == other.attribution && utilities
            && calibrations
    }

    /// Some horizon closed with positive utility.
    pub open spec fn gained(&self) -> bool {
        ||| self.utility_ppm_by_horizon@[0] > 0
        ||| self.utility_ppm_by_horizon@[1] > 0
        ||| self.utility_ppm_by_horizon@[2] > 0
    }

    pub fn any_horizon_positive_utility(&self) -> (r: bool)
        ensures
            r == self.gained(),
    {
        self.utility_ppm_by_horizon[0] > 0 || self.utility_ppm_by_horizon[1] > 0
            || self.utility_ppm_by_horizon[2] > 0
    }
}

fn is_share(value: Option<u32>) -> (r: bool)
    ensures
        r == share_fits(value),
{
    match value {
        Some(ppm) => ppm <= 1_000_000,
        None => true,
    }
}

fn same_share(a: Option<u32>, b: Option<u32>) -> (r: bool)
    ensures
        r == (a == b),
{
    match (a, b) {
        (Some(x), Some(y)) => x == y,
        (None, None) => true,
        _ => false,
    }
}

/// What was recorded again later is the same observation under the same identity.
pub proof fn time_of_recording_does_not_matter(a: LessonEvidence, b: LessonEvidence)
    requires
        b == (LessonEvidence { recorded_at: b.recorded_at, ..a }),
    ensures
        a.is_same_observation(b),
        json_digest(a.identity_json()) == json_digest(b.identity_json()),
{
}

/// Records of one observation have one identity.
pub proof fn one_observation_has_one_identity(a: LessonEvidence, b: LessonEvidence)
    requires
        a.is_same_observation(b),
    ensures
        a.key() == b.key(),
        a.identity_json() == b.identity_json(),
{
}

/// What was seen together with a lesson, counted.
#[derive(Clone, Copy, Debug, PartialEq, Eq, Structural)]
pub struct LessonEvidenceSummary {
    pub applied_count: u64,
    pub rejected_count: u64,
    pub applied_with_positive_utility: u64,
    pub rejected_with_positive_utility: u64,
    pub mean_calibration_ppm: Option<u32>,
    pub observational: bool,
}

impl Default for LessonEvidenceSummary {
    fn default() -> (r: Self)
        ensures
            r == (LessonEvidenceSummary {
                applied_count: 0,
                rejected_count: 0,
                applied_with_positive_utility: 0,
                rejected_with_positive_utility: 0,
                mean_calibration_ppm: None,
                observational: false,
            }),
    {
        LessonEvidenceSummary {
            applied_count: 0,
            rejected_count: 0,
            applied_with_positive_utility: 0,
            rejected_with_positive_utility: 0,
            mean_calibration_ppm: None,
            observational: false,
        }
    }
}

/// How many records attribute so.
pub open spec fn attributed(records: Seq<LessonEvidence>, to: LessonAttribution) -> nat {
    records.filter(|r: LessonEvidence| r.attribution == to).len()
}

/// How many records attribute so and gained on some horizon.
pub open spec fn gainful(records: Seq<LessonEvidence>, to: LessonAttribution) -> nat {
    records.filter(|r: LessonEvidence| r.attribution == to && r.gained()).len()
}

/// What a share counts in a sum.
pub open spec fn share_value(share: Option<u32>) -> int {
    match share {
        Some(ppm) => ppm as int,
        None => 0,
    }
}

/// One where a share was measured.
pub open spec fn share_count(share: Option<u32>) -> int {
    match share {
        Some(_) => 1,
        None => 0,
    }
}

/// The sum of all calibrations that were measured.
pub open spec fn calibration_total(records: Seq<LessonEvidence>) -> int
    decreases records.len(),
{
    if records.len() == 0 {
        0
    } else {
        let own = records.last().calibration_ppm_by_horizon@;
        calibration_total(records.drop_last()) + share_value(own[0]) + share_value(own[1])
            + share_value(own[2])
    }
}

/// How many calibrations were measured.
pub open spec fn calibration_count(records: Seq<LessonEvidence>) -> int
    decreases records.len(),
{
    if records.len() == 0 {
        0
    } else {
        let own = records.last().calibration_ppm_by_horizon@;
        calibration_count(records.drop_last()) + share_count(own[0]) + share_count(own[1])
            + share_count(own[2])
    }
}

/// The mean of the calibrations that were measured, where there are any.
pub open spec fn mean_calibration(records: Seq<LessonEvidence>) -> Option<int> {
    if calibration_count(records) == 0 {
        None
    } else {
        Some(calibration_total(records) / calibration_count(records))
    }
}

proof fn calibrations_grow(records: Seq<LessonEvidence>, n: int)
    requires
        0 <= n <= records.len(),
    ensures
        0 <= calibration_total(records.take(n)) <= calibration_total(records),
        0 <= calibration_count(records.take(n)) <= calibration_count(records),
        calibration_count(records) <= 3 * records.len(),
        calibration_total(records) <= calibration_count(records) * 0xffff_ffff,
    decreases records.len(),
{
    if records.len() > 0 {
        if n < records.len() {
            assert(records.drop_last().take(n) =~= records.take(n));
            calibrations_grow(records.drop_last(), n);
        } else {
            assert(records.take(n) =~= records);
            calibrations_grow(records.drop_last(), n - 1);
        }
    } else {
        assert(records.take(n) =~= records);
    }
}

proof fn counts_of_a_longer_list(records: Seq<LessonEvidence>, n: int)
    requires
        0 <= n < records.len(),
    ensures
        forall|to: LessonAttribution| #[trigger]
            attributed(records.take(n + 1), to) == attributed(records.take(n), to) + if records[n].attribution
                == to {
                1nat
            } else {
                0nat
            },
        forall|to: LessonAttribution| #[trigger]
            gainful(records.take(n + 1), to) == gainful(records.take(n), to) + if records[n].attribution
                == to && records[n].gained() {
                1nat
            } else {
                0nat
            },
{
    let longer = records.take(n + 1);
    assert(longer =~= records.take(n).push(records[n]));
    assert forall|to: LessonAttribution| #[trigger]
        attributed(longer, to) == attributed(records.take(n), to) + if records[n].attribution
            == to {
            1nat
        } else {
            0nat
        } by {
        let test = |r: LessonEvidence| r.attribution == to;
        records.take(n).lemma_filter_push(records[n], test);
    }
    assert forall|to: LessonAttribution| #[trigger]
        gainful(longer, to) == gainful(records.take(n), to) + if records[n].attribution == to
            && records[n].gained() {
            1nat
        } else {
            0nat
        } by {
        let test = |r: LessonEvidence| r.attribution == to && r.gained();
        records.take(n).lemma_filter_push(records[n], test);
    }
}

fn sum_of(shares: &[Option<u32>; 3]) -> (r: u64)
    ensures
        r == share_value(shares@[0]) + share_value(shares@[1]) + share_value(shares@[2]),
{
    let mut sum: u64 = 0;
    if let Some(ppm) = shares[0] {
        sum += ppm as u64;
    }
    if let Some(ppm) = shares[1] {
        sum += ppm as u64;
    }
    if let Some(ppm) = shares[2] {
        sum += ppm as u64;
    }
    sum
}

fn count_of(shares: &[Option<u32>; 3]) -> (r: u64)
    ensures
        r == share_count(shares@[0]) + share_count(shares@[1]) + share_count(shares@[2]),
{
    let mut count: u64 = 0;
    if shares[0].is_some() {
        count += 1;
    }
    if shares[1].is_some() {
        count += 1;
    }
    if shares[2].is_some() {
        count += 1;
    }
    count
}

impl LessonEvidenceSummary {
    /// The counts and the mean of a list of records whose calibrations can be summed up.
    pub fn from_records(records: &[LessonEvidence]) -> (r: LessonEvidenceSummary)
        requires
            calibration_total(records@) <= u64::MAX,
            calibration_count(records@) <= u64::MAX,
        ensures
            r.applied_count == attributed(records@, LessonAttribution::Applied),
            r.rejected_count == attributed(records@, LessonAttribution::Rejected),
            r.applied_with_positive_utility == gainful(records@, LessonAttribution::Applied),
            r.rejected_with_positive_utility == gainful(records@, LessonAttribution::Rejected),
            match r.mean_calibration_ppm {
                Some(ppm) => mean_calibration(records@) == Some(ppm as int),
                None => mean_calibration(records@) is None,
            },
            r.observational,
    {
        let mut applied: u64 = 0;
        let mut rejected: u64 = 0;
        let mut applied_gain: u64 = 0;
        let mut rejected_gain: u64 = 0;
        let mut total: u64 = 0;
        let mut count: u64 = 0;
        let mut i: usize = 0;
        proof {
            assert(records@.take(0) =~= Seq::<LessonEvidence>::empty());
            reveal(Seq::filter);
        }
        while i < records.len()
            invariant
                i <= records.len(),
                calibration_total(records@) <= u64::MAX,
                calibration_count(records@) <= u64::MAX,
                applied == attributed(records@.take(i as int), LessonAttribution::Applied),
                rejected == attributed(records@.take(i as int), LessonAttribution::Rejected),
                applied_gain == gainful(records@.take(i as int), LessonAttribution::Applied),
                rejected_gain == gainful(records@.take(i as int), LessonAttribution::Rejected),
                applied <= i,
                rejected <= i,
                applied_gain <= i,
                rejected_gain <= i,
                total == calibration_total(records@.take(i as int)),
                count == calibration_count(records@.take(i as int)),
            decreases records.len() - i,
        {
            let record = &records[i];
            let gained = record.any_horizon_positive_utility();
            proof {
                counts_of_a_longer_list(records@, i as int);
                calibrations_grow(records@, i + 1);
                assert(records@.take(i + 1).drop_last() =~= records@.take(i as int));
                assert(records@.take(i + 1).last() == records@[i as int]);
            }
            match record.attribution {
                LessonAttribution::Applied => {
                    applied += 1;
                    if gained {
                        applied_gain += 1;
                    }
                },
                LessonAttribution::Rejected => {
                    rejected += 1;
                    if gained {
                        rejected_gain += 1;
                    }
                },
            }
            total += sum_of(&record.calibration_ppm_by_horizon);
            count += count_of(&record.calibration_ppm_by_horizon);
            i += 1;
        }
        proof {
            assert(records@.take(records@.len() as int) =~= records@);
            calibrations_grow(records@, records@.len() as int);
        }
        let mean: Option<u32> = if count == 0 {
            None
        } else {
            proof {
                assert(total / count <= 0xffff_ffff) by (nonlinear_arith)
                    requires
                        count > 0,
                        total <= count * 0xffff_ffff,
                ;
            }
            Some((total / count) as u32)
        };
        LessonEvidenceSummary {
            applied_count: applied,
            rejected_count: rejected,
            applied_with_positive_utility: applied_gain,
            rejected_with_positive_utility: rejected_gain,
            mean_calibration_ppm: mean,
            observational: true,
        }
    }
}

/// No more uses gained than there were.
pub proof fn gains_are_among_the_uses(records: Seq<LessonEvidence>, to: LessonAttribution)
    ensures
        gainful(records, to) <= attributed(records, to),
    decreases records.len(),
{
    reveal(Seq::filter);
    if records.len() > 0 {
        gains_are_among_the_uses(records.drop_last(), to);
    }
}

/// What a lesson governance signal is refused with: the first fault that it has.
pub proof fn refusal_of_lesson_governance_signal_names_its_fault(this: LessonGovernanceSignal)
    ensures
        !(!blank(this.actor@) && !blank(this.reason@) && is_signal_evidence(this.evidence.kind))
            ==> this.verdict() == Verdict::Err(empty("lesson.governance_signal"@)),
{
}

/// What a lesson governance is refused with: the first fault that it has.
pub proof fn refusal_of_lesson_governance_names_its_fault(this: LessonGovernance)
    ensures
        !(this.is_sound()) ==> this.verdict() == Verdict::Err(budget("lesson.governance"@)),
{
}

/// What a lesson scope is refused with: the first fault that it has.
pub proof fn refusal_of_lesson_scope_names_its_fault(this: LessonScope)
    ensures
        !(!holds_blank(this.regimes@) && !holds_blank(this.decision_stages@))
            ==> this.verdict() == Verdict::Err(empty("lesson.scope"@)),
        (!holds_blank(this.regimes@) && !holds_blank(this.decision_stages@))
            && !(this.regimes@.len() <= 16 && this.decision_stages@.len() <= 8)
            ==> this.verdict() == Verdict::Err(budget("lesson.scope"@)),
{
}

/// What a lesson is refused with: the first fault that it has.
pub proof fn references_verdict_of_lesson_names_its_fault(this: Lesson)
    ensures
        !(!refs_cite(this.source_refs@, ArtifactKind::Lesson))
            ==> this.references_verdict() == Verdict::Err(empty("lesson.source_refs"@)),
        (!refs_cite(this.source_refs@, ArtifactKind::Lesson))
            && !(refs_all_cite(this.supersedes@, ArtifactKind::Lesson)
            && refs_all_cite(this.conflicts_with@, ArtifactKind::Lesson))
            ==> this.references_verdict() == Verdict::Err(empty("lesson.related_refs"@)),
{
}

/// What a lesson is refused with: the first fault that it has.
pub proof fn authority_verdict_of_lesson_names_its_fault(this: Lesson)
    ensures
        !(this.origin is Operator ==> is_named(this.authored_by))
            ==> this.authority_verdict() == Verdict::Err(empty("lesson.authored_by"@)),
        (this.origin is Operator ==> is_named(this.authored_by)) && !(this.lifecycle is Active
            || this.lifecycle is Contested ==> is_named(this.approved_by)
            && this.governance is Some)
            ==> this.authority_verdict() == Verdict::Err(empty("lesson.approved_by"@)),
        (this.origin is Operator ==> is_named(this.authored_by)) && (this.lifecycle is Active
            || this.lifecycle is Contested ==> is_named(this.approved_by)
            && this.governance is Some) && !(this.lifecycle is Active
            ==> !(this.governance matches Some(governance) && governance.quarantine_reason is Some))
            ==> this.authority_verdict() == Verdict::Err(budget("lesson.governance.quarantine"@)),
{
}

/// What a lesson is refused with: the first fault that it has.
pub proof fn refusal_of_lesson_names_its_fault(this: Lesson)
    ensures
        (!this.is_complete())
            ==> this.verdict() == Verdict::Err(empty("lesson.identity_or_content"@)),
        !(!this.is_complete()) && (!this.is_bounded())
            ==> this.verdict() == Verdict::Err(budget("lesson.bounds"@)),
{
}

/// What a lesson evidence is refused with: the first fault that it has.
pub proof fn refusal_of_lesson_evidence_names_its_fault(this: LessonEvidence)
    ensures
        (this.schema_version != DOMAIN_SCHEMA_VERSION || blank(this.lesson_id@))
            ==> this.verdict() == Verdict::Err(empty("lesson_evidence.identity"@)),
        !(this.schema_version != DOMAIN_SCHEMA_VERSION || blank(this.lesson_id@))
            && (!(this.lesson_artifact.kind is Lesson)
            || !(this.decision_context.kind is DecisionContext) || !(this.outcome.kind is Outcome))
            ==> this.verdict() == Verdict::Err(empty("lesson_evidence.references"@)),
        !(this.schema_version != DOMAIN_SCHEMA_VERSION || blank(this.lesson_id@))
            && !(!(this.lesson_artifact.kind is Lesson)
            || !(this.decision_context.kind is DecisionContext) || !(this.outcome.kind is Outcome))
            && !(this.calibration_fits())
            ==> this.verdict() == Verdict::Err(budget("lesson_evidence.calibration_ppm"@)),
{
}

} // verus!
