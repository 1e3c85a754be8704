//! Safety of the market actions: the integrity of content, the independence of a consensus,
//! capacity, compliance and the state of outside services.
use crate::error::{
    budget, demand, empty, empty_field, first, invalid_budget, outcome, DomainError, Verdict,
};
use crate::foundation::{clamped, Asset, ContentHash, MoneyMicros, TargetPortfolio, WeightPpm};
use crate::lists::{all_of, first_fault, first_fault_stays, no_fault_means_every_check_passes};
use crate::ordered::{rank_numbers, Key, OrderedMap, OrderedSet, Rank};
use crate::text::{blank, is_blank, same_text};
use crate::time::{earlier, elapsed_nanos, truncated, UtcTime};
use vstd::prelude::*;

verus! {

/// How freely information may be used.
#[derive(Clone, Copy, Debug, PartialEq, Eq, PartialOrd, Ord, Hash, Structural)]
pub enum InformationClassification {
    Public,
    Licensed,
    Confidential,
    SuspectedMnpi,
    Unknown,
}

/// Who stands behind a source.
#[derive(Clone, Copy, Debug, PartialEq, Eq, PartialOrd, Ord, Hash, Structural)]
pub enum SourceAuthorityClass {
    Regulator,
    Exchange,
    Issuer,
    FundSponsor,
    EstablishedNews,
    SocialMedia,
    Unknown,
}

impl SourceAuthorityClass {
    pub open spec fn is_primary(self) -> bool {
        self is Regulator || self is Exchange || self is Issuer || self is FundSponsor
    }

    /// Whether the source can carry a claim of high impact.
    pub fn is_primary_for_high_impact(self) -> (r: bool)
        ensures
            r == self.is_primary(),
    {
        matches!(
            self,
            SourceAuthorityClass::Regulator | SourceAuthorityClass::Exchange
                | SourceAuthorityClass::Issuer | SourceAuthorityClass::FundSponsor
        )
    }
}

/// What is suspicious about content.
#[derive(Clone, Copy, Debug, PartialEq, Eq, PartialOrd, Ord, Hash, Structural)]
pub enum FinancialContentIndicator {
    InstructionLikeContent,
    UnicodeAnomaly,
    HiddenContent,
    EntityIdentifierMismatch,
    UnverifiedHighImpactClaim,
    SyndicatedDuplicate,
}

impl View for FinancialContentIndicator {
    type V = FinancialContentIndicator;

    open spec fn view(&self) -> FinancialContentIndicator {
        *self
    }
}

impl FinancialContentIndicator {
    /// Where the variant stands in the order.
    pub open spec fn place(self) -> u32 {
        match self {
            FinancialContentIndicator::InstructionLikeContent => 0,
            FinancialContentIndicator::UnicodeAnomaly => 1,
            FinancialContentIndicator::HiddenContent => 2,
            FinancialContentIndicator::EntityIdentifierMismatch => 3,
            FinancialContentIndicator::UnverifiedHighImpactClaim => 4,
            FinancialContentIndicator::SyndicatedDuplicate => 5,
        }
    }

    pub(crate) fn place_number(self) -> (r: u32)
        ensures
            r == self.place(),
    {
        match self {
            FinancialContentIndicator::InstructionLikeContent => 0,
            FinancialContentIndicator::UnicodeAnomaly => 1,
            FinancialContentIndicator::HiddenContent => 2,
            FinancialContentIndicator::EntityIdentifierMismatch => 3,
            FinancialContentIndicator::UnverifiedHighImpactClaim => 4,
            FinancialContentIndicator::SyndicatedDuplicate => 5,
        }
    }
}

impl Key for FinancialContentIndicator {
    open spec fn code(key: FinancialContentIndicator) -> Seq<int> {
        seq![key.place() as int]
    }

    proof fn code_is_injective(a: FinancialContentIndicator, b: FinancialContentIndicator) {
        assert(Self::code(a)[0] == a.place() as int && Self::code(b)[0] == b.place() as int);
    }

    fn rank(&self, other: &Self) -> (r: Rank) {
        rank_numbers((*self).place_number(), (*other).place_number())
    }

    fn duplicate(&self) -> (r: Self) {
        *self
    }
}

/// What is known of a piece of financial content.
#[derive(Debug, Clone, PartialEq, Eq)]
pub struct FinancialContentAssessment {
    pub source_origin: String,
    pub syndication_parent: Option<String>,
    pub content_similarity_cluster: ContentHash,
    pub first_seen_at: UtcTime,
    pub canonical_entity_ids: OrderedSet<String>,
    pub indicators: OrderedSet<FinancialContentIndicator>,
    pub authority: SourceAuthorityClass,
    pub information_classification: InformationClassification,
    pub independent_confirmation_clusters: u16,
    pub high_impact: bool,
}

/// Some text of a set is blank.
pub open spec fn holds_blank(texts: Set<Seq<char>>) -> bool {
    exists|t: Seq<char>| #[trigger] texts.contains(t) && blank(t)
}

pub fn set_has_blank(texts: &OrderedSet<String>) -> (r: bool)
    ensures
        r == holds_blank(texts@),
{
    let n: usize = texts.len();
    let mut i: usize = 0;
    while i < n
        invariant
            i <= n,
            n == texts.keys().len(),
            texts@ == texts.keys().to_set(),
            forall|j: int| 0 <= j < i ==> !blank(#[trigger] texts.keys()[j]),
        decreases n - i,
    {
        if is_blank(texts.at(i)) {
            return true;
        }
        i += 1;
    }
    false
}

impl FinancialContentAssessment {
    pub open spec fn verdict(&self) -> Verdict {
        demand(
            !blank(self.source_origin@) && (self.syndication_parent matches Some(parent) ==> !blank(
                parent@,
            )) && !holds_blank(self.canonical_entity_ids@)
                && self.independent_confirmation_clusters <= 1_000,
            empty("financial_content_assessment"@),
        )
    }

    pub fn validate(&self) -> (r: Result<(), DomainError>)
        ensures
            outcome(r) == self.verdict(),
    {
        let parent_blank = match &self.syndication_parent {
            Some(parent) => is_blank(parent),
            None => false,
        };
        if is_blank(&self.source_origin) || parent_blank || set_has_blank(
            &self.canonical_entity_ids,
        ) || self.independent_confirmation_clusters > 1_000 {
            return Err(empty_field("financial_content_assessment"));
        }
        Ok(())
    }

    /// The content is of a class that may not be traded on.
    pub open spec fn is_withheld(&self, policy: FinancialContentPolicy) -> bool {
        match self.information_classification {
            InformationClassification::Public => false,
            InformationClassification::Licensed => !policy.allow_licensed_information,
            _ => true,
        }
    }

    /// The content tries to steer, hides something or names another entity.
    pub open spec fn is_manipulated(&self) -> bool {
        ||| self.indicators@.contains(FinancialContentIndicator::InstructionLikeContent)
        ||| self.indicators@.contains(FinancialContentIndicator::UnicodeAnomaly)
        ||| self.indicators@.contains(FinancialContentIndicator::HiddenContent)
        ||| self.indicators@.contains(FinancialContentIndicator::EntityIdentifierMismatch)
    }

    /// The content claims much and too little stands behind it.
    pub open spec fn is_unconfirmed(&self, policy: FinancialContentPolicy) -> bool {
        self.high_impact && (!self.authority.is_primary() || self.independent_confirmation_clusters
            < policy.minimum_high_impact_confirmation_clusters)
    }

    /// Content that may not be traded on.
    pub open spec fn is_blocked(&self, policy: FinancialContentPolicy) -> bool {
        ||| self.verdict() is Err
        ||| policy.verdict() is Err
        ||| self.is_withheld(policy)
        ||| self.is_manipulated()
        ||| self.is_unconfirmed(policy)
    }

    pub fn blocks_trading(&self, policy: &FinancialContentPolicy) -> (r: bool)
        ensures
            r == self.is_blocked(*policy),
    {
        if self.validate().is_err() || policy.validate().is_err() {
            return true;
        }
        let withheld = match self.information_classification {
            InformationClassification::Public => false,
            InformationClassification::Licensed => !policy.allow_licensed_information,
            _ => true,
        };
        if withheld {
            return true;
        }
        if self.indicators.contains(&FinancialContentIndicator::InstructionLikeContent)
            || self.indicators.contains(&FinancialContentIndicator::UnicodeAnomaly)
            || self.indicators.contains(&FinancialContentIndicator::HiddenContent)
            || self.indicators.contains(&FinancialContentIndicator::EntityIdentifierMismatch) {
            return true;
        }
        self.high_impact && (!self.authority.is_primary_for_high_impact()
            || self.independent_confirmation_clusters
            < policy.minimum_high_impact_confirmation_clusters)
    }
}

/// When content may be traded on.
#[derive(Clone, Copy, Debug, PartialEq, Eq, Structural)]
pub struct FinancialContentPolicy {
    pub minimum_high_impact_confirmation_clusters: u16,
    pub allow_licensed_information: bool,
}

impl FinancialContentPolicy {
    pub open spec fn verdict(&self) -> Verdict {
        demand(
            1 <= self.minimum_high_impact_confirmation_clusters <= 16,
            budget("financial_content_policy.confirmation_clusters"@),
        )
    }

    pub fn validate(&self) -> (r: Result<(), DomainError>)
        ensures
            outcome(r) == self.verdict(),
    {
        if self.minimum_high_impact_confirmation_clusters == 0
            || self.minimum_high_impact_confirmation_clusters > 16 {
            return Err(invalid_budget("financial_content_policy.confirmation_clusters"));
        }
        Ok(())
    }
}

impl Default for FinancialContentPolicy {
    fn default() -> (r: Self)
        ensures
            r == (FinancialContentPolicy {
                minimum_high_impact_confirmation_clusters: 2,
                allow_licensed_information: true,
            }),
    {
        FinancialContentPolicy {
            minimum_high_impact_confirmation_clusters: 2,
            allow_licensed_information: true,
        }
    }
}

/// What one agent brought into a consensus.
#[derive(Debug, PartialEq, Eq)]
pub struct AgentEvidenceContribution {
    pub agent_id: String,
    pub capability_snapshot_hash: Option<ContentHash>,
    pub evidence_clusters: OrderedSet<ContentHash>,
}

impl Clone for AgentEvidenceContribution {
    fn clone(&self) -> (r: Self)
        ensures
            same_contribution(*self, r),
    {
        AgentEvidenceContribution {
            agent_id: self.agent_id.clone(),
            capability_snapshot_hash: match &self.capability_snapshot_hash {
                Some(hash) => Some(hash.clone()),
                None => None,
            },
            evidence_clusters: self.evidence_clusters.clone(),
        }
    }
}

pub open spec fn same_contribution(
    a: AgentEvidenceContribution,
    b: AgentEvidenceContribution,
) -> bool {
    &&& a.agent_id == b.agent_id
    &&& a.capability_snapshot_hash == b.capability_snapshot_hash
    &&& a.evidence_clusters@ == b.evidence_clusters@
}

/// The agents of the contributions.
pub open spec fn agent_names(list: Seq<AgentEvidenceContribution>) -> Seq<Seq<char>> {
    list.map_values(|c: AgentEvidenceContribution| c.agent_id@)
}

/// The clusters of evidence that any contribution cites.
pub open spec fn all_clusters(list: Seq<AgentEvidenceContribution>) -> Set<Seq<char>>
    decreases list.len(),
{
    if list.len() == 0 {
        Set::empty()
    } else {
        all_clusters(list.drop_last()).union(list.last().evidence_clusters@)
    }
}

/// The capability snapshots of the contributions that have one.
pub open spec fn all_snapshots(list: Seq<AgentEvidenceContribution>) -> Set<Seq<char>>
    decreases list.len(),
{
    if list.len() == 0 {
        Set::empty()
    } else {
        match list.last().capability_snapshot_hash {
            Some(hash) => all_snapshots(list.drop_last()).insert(hash@),
            None => all_snapshots(list.drop_last()),
        }
    }
}

/// Every contribution is of another agent, who is named and cites some evidence.
pub open spec fn contributions_are_sound(list: Seq<AgentEvidenceContribution>) -> bool {
    &&& forall|i: int|
        0 <= i < list.len() ==> !blank((#[trigger] list[i]).agent_id@)
            && list[i].evidence_clusters@.len() > 0
    &&& agent_names(list).no_duplicates()
}

/// The share of two sets that both hold, in parts per million of what either holds.
pub open spec fn overlap_ppm(a: Set<Seq<char>>, b: Set<Seq<char>>) -> int {
    let both = a.intersect(b).len() as int * 1_000_000;
    let either = a.union(b).len() as int;
    let part = (if both > usize::MAX {
        usize::MAX as int
    } else {
        both
    }) / either;
    if either == 0 || part > u32::MAX {
        1_000_000
    } else {
        part
    }
}

/// The overlap of two contributions.
pub open spec fn pair_overlap(list: Seq<AgentEvidenceContribution>, i: int, j: int) -> int {
    overlap_ppm(list[i].evidence_clusters@, list[j].evidence_clusters@)
}

/// The largest overlap of two contributions, zero where there are not two.
pub open spec fn is_largest_overlap(list: Seq<AgentEvidenceContribution>, m: int) -> bool {
    &&& m >= 0
    &&& forall|i: int, j: int|
        0 <= i < j < list.len() ==> #[trigger] pair_overlap(list, i, j) <= m
    &&& m > 0 ==> exists|i: int, j: int|
        0 <= i < j < list.len() && #[trigger] pair_overlap(list, i, j) == m
}

fn measure_overlap(a: &OrderedSet<ContentHash>, b: &OrderedSet<ContentHash>) -> (r: u32)
    ensures
        r == overlap_ppm(a@, b@),
{
    let common: usize = a.common(b);
    let left: usize = a.len();
    let right: usize = b.len();
    proof {
        vstd::set_lib::lemma_set_intersect_union_lens(a@, b@);
        vstd::set_lib::lemma_len_intersect(a@, b@);
    }
    let either: u128 = left as u128 + right as u128 - common as u128;
    let product: u128 = common as u128 * 1_000_000;
    let capped: u128 = if product > usize::MAX as u128 {
        usize::MAX as u128
    } else {
        product
    };
    if either == 0 {
        return 1_000_000;
    }
    let part: u128 = capped / either;
    if part > u32::MAX as u128 {
        1_000_000
    } else {
        part as u32
    }
}

/// How independent the voices of a consensus are.
#[derive(Debug, PartialEq, Eq)]
pub struct ConsensusDiversityAssessment {
    pub contributions: Vec<AgentEvidenceContribution>,
    pub participant_count: u16,
    pub capability_observation_complete: bool,
    pub unique_capability_snapshots: u16,
    pub unique_evidence_clusters: u16,
    pub maximum_allowed_overlap_ppm: u32,
    pub maximum_source_overlap_ppm: u32,
    pub independent: bool,
    pub raw_confidence_ppm: u32,
    pub effective_confidence_ppm: u32,
    pub confidence_capped: bool,
}

impl Clone for ConsensusDiversityAssessment {
    fn clone(&self) -> (r: Self)
        ensures
            r.contributions@.len() == self.contributions@.len(),
            forall|i: int|
                0 <= i < r.contributions@.len() ==> same_contribution(
                    #[trigger] self.contributions@[i],
                    r.contributions@[i],
                ),
            r.participant_count == self.participant_count,
            r.capability_observation_complete == self.capability_observation_complete,
            r.unique_capability_snapshots == self.unique_capability_snapshots,
            r.unique_evidence_clusters == self.unique_evidence_clusters,
            r.maximum_allowed_overlap_ppm == self.maximum_allowed_overlap_ppm,
            r.maximum_source_overlap_ppm == self.maximum_source_overlap_ppm,
            r.independent == self.independent,
            r.raw_confidence_ppm == self.raw_confidence_ppm,
            r.effective_confidence_ppm == self.effective_confidence_ppm,
            r.confidence_capped == self.confidence_capped,
    {
        ConsensusDiversityAssessment {
            contributions: copy_contributions(&self.contributions),
            participant_count: self.participant_count,
            capability_observation_complete: self.capability_observation_complete,
            unique_capability_snapshots: self.unique_capability_snapshots,
            unique_evidence_clusters: self.unique_evidence_clusters,
            maximum_allowed_overlap_ppm: self.maximum_allowed_overlap_ppm,
            maximum_source_overlap_ppm: self.maximum_source_overlap_ppm,
            independent: self.independent,
            raw_confidence_ppm: self.raw_confidence_ppm,
            effective_confidence_ppm: self.effective_confidence_ppm,
            confidence_capped: self.confidence_capped,
        }
    }
}

fn copy_contributions(list: &Vec<AgentEvidenceContribution>) -> (r: Vec<AgentEvidenceContribution>)
    ensures
        r@.len() == list@.len(),
        forall|i: int|
            0 <= i < r@.len() ==> same_contribution(#[trigger] list@[i], r@[i]),
{
    let mut r: Vec<AgentEvidenceContribution> = Vec::new();
    let mut i: usize = 0;
    while i < list.len()
        invariant
            i <= list.len(),
            r.len() == i,
            forall|j: int| 0 <= j < i ==> same_contribution(#[trigger] list@[j], r@[j]),
        decreases list.len() - i,
    {
        r.push(list[i].clone());
        i += 1;
    }
    r
}

/// What an assessment of contributions finds.
pub ghost struct DiversityFacts {
    pub participants: nat,
    pub observed: bool,
    pub snapshots: nat,
    pub clusters: nat,
}

pub open spec fn diversity_facts(list: Seq<AgentEvidenceContribution>) -> DiversityFacts {
    DiversityFacts {
        participants: list.len(),
        observed: forall|i: int|
            0 <= i < list.len() ==> (#[trigger] list[i]).capability_snapshot_hash is Some,
        snapshots: all_snapshots(list).len(),
        clusters: all_clusters(list).len(),
    }
}

impl DiversityFacts {
    /// A single voice, or voices that differ in what they can do and in what they rest on.
    pub open spec fn is_independent(self, overlap: int, allowed: int) -> bool {
        ||| self.participants == 1
        ||| {
            &&& self.observed
            &&& self.snapshots > 1
            &&& self.clusters > 1
            &&& overlap <= allowed
        }
    }
}

impl ConsensusDiversityAssessment {
    /// Whether contributions can be assessed.
    pub open spec fn contributions_verdict(
        list: Seq<AgentEvidenceContribution>,
        maximum_allowed_overlap_ppm: u32,
    ) -> Verdict {
        let facts = diversity_facts(list);
        if list.len() == 0 || maximum_allowed_overlap_ppm > 1_000_000 {
            Err(budget("consensus_diversity"@))
        } else if !contributions_are_sound(list) {
            Err(empty("consensus_diversity.contribution"@))
        } else if facts.participants > u16::MAX {
            Err(budget("consensus_diversity.participant_count"@))
        } else if facts.snapshots > u16::MAX {
            Err(budget("consensus_diversity.capability_snapshots"@))
        } else if facts.clusters > u16::MAX {
            Err(budget("consensus_diversity.evidence_clusters"@))
        } else {
            Ok(())
        }
    }

    /// The derived values are those of the contributions.
    pub open spec fn agrees_with_contributions(&self) -> bool {
        let facts = diversity_facts(self.contributions@);
        &&& self.participant_count == facts.participants
        &&& self.capability_observation_complete == facts.observed
        &&& self.unique_capability_snapshots == facts.snapshots
        &&& self.unique_evidence_clusters == facts.clusters
        &&& is_largest_overlap(self.contributions@, self.maximum_source_overlap_ppm as int)
        &&& self.independent == facts.is_independent(
            self.maximum_source_overlap_ppm as int,
            self.maximum_allowed_overlap_ppm as int,
        )
    }

    pub fn from_contributions(
        contributions: &Vec<AgentEvidenceContribution>,
        maximum_allowed_overlap_ppm: u32,
    ) -> (r: Result<ConsensusDiversityAssessment, DomainError>)
        ensures
            match r {
                Ok(a) => {
                    &&& Self::contributions_verdict(contributions@, maximum_allowed_overlap_ppm) is Ok
                    &&& a.contributions@.len() == contributions@.len()
                    &&& forall|i: int|
                        0 <= i < contributions@.len() ==> same_contribution(
                            #[trigger] contributions@[i],
                            a.contributions@[i],
                        )
                    &&& a.agrees_with_contributions()
                    &&& a.maximum_allowed_overlap_ppm == maximum_allowed_overlap_ppm
                    &&& a.raw_confidence_ppm == 0
                    &&& a.effective_confidence_ppm == 0
                    &&& !a.confidence_capped
                },
                Err(e) => Self::contributions_verdict(contributions@, maximum_allowed_overlap_ppm)
                    == Verdict::Err(e@),
            },
    {
        if contributions.len() == 0 || maximum_allowed_overlap_ppm > WeightPpm::SCALE {
            return Err(invalid_budget("consensus_diversity"));
        }
        let mut agent_ids: OrderedSet<String> = OrderedSet::new();
        let mut capability_snapshots: OrderedSet<ContentHash> = OrderedSet::new();
        let mut clusters: OrderedSet<ContentHash> = OrderedSet::new();
        let ghost names = agent_names(contributions@);
        let mut n: usize = 0;
        proof {
            assert(names.take(0).to_set() =~= Set::<Seq<char>>::empty());
        }
        while n < contributions.len()
            invariant
                n <= contributions.len(),
                contributions.len() > 0,
                maximum_allowed_overlap_ppm <= 1_000_000,
                names == agent_names(contributions@),
                agent_ids@ == names.take(n as int).to_set(),
                names.take(n as int).no_duplicates(),
                capability_snapshots@ == all_snapshots(contributions@.take(n as int)),
                clusters@ == all_clusters(contributions@.take(n as int)),
                forall|i: int|
                    0 <= i < n ==> !blank((#[trigger] contributions@[i]).agent_id@)
                        && contributions@[i].evidence_clusters@.len() > 0,
            decreases contributions.len() - n,
        {
            let contribution = &contributions[n];
            let ghost prefix = contributions@.take(n as int);
            let ghost name = contribution.agent_id@;
            proof {
                assert(contributions@.take(n + 1).drop_last() =~= prefix);
                assert(names.take(n + 1) =~= names.take(n as int).push(name));
                names.take(n as int).lemma_push_to_set_commute(name);
            }
            if is_blank(&contribution.agent_id) || contribution.evidence_clusters.is_empty() {
                return Err(empty_field("consensus_diversity.contribution"));
            }
            if !agent_ids.insert(contribution.agent_id.clone()) {
                proof {
                    let i = choose|i: int| 0 <= i < n && names.take(n as int)[i] == name;
                    assert(names[i] == names[n as int]);
                }
                return Err(empty_field("consensus_diversity.contribution"));
            }
            proof {
                let grown = names.take(n + 1);
                let held = names.take(n as int);
                assert forall|i: int, j: int|
                    0 <= i < grown.len() && 0 <= j < grown.len() && i != j implies grown[i]
                    != grown[j] by {
                    if i == n {
                        assert(held.to_set().contains(held[j]));
                    } else if j == n {
                        assert(held.to_set().contains(held[i]));
                    } else {
                        assert(held[i] != held[j]);
                    }
                }
            }
            if let Some(hash) = &contribution.capability_snapshot_hash {
                capability_snapshots.insert(hash.clone());
            }
            clusters.extend_from(&contribution.evidence_clusters);
            n += 1;
        }
        proof {
            assert(contributions@.take(contributions@.len() as int) =~= contributions@);
            assert(names.take(names.len() as int) =~= names);
        }
        let maximum_overlap: u32 = largest_overlap(contributions);
        if contributions.len() > u16::MAX as usize {
            return Err(invalid_budget("consensus_diversity.participant_count"));
        }
        let participant_count: u16 = contributions.len() as u16;
        if capability_snapshots.len() > u16::MAX as usize {
            return Err(invalid_budget("consensus_diversity.capability_snapshots"));
        }
        let unique_capability_snapshots: u16 = capability_snapshots.len() as u16;
        if clusters.len() > u16::MAX as usize {
            return Err(invalid_budget("consensus_diversity.evidence_clusters"));
        }
        let unique_evidence_clusters: u16 = clusters.len() as u16;
        let observed = |c: &AgentEvidenceContribution| -> (b: bool)
            ensures
                b == (c.capability_snapshot_hash is Some),
            { c.capability_snapshot_hash.is_some() };
        let capability_observation_complete = all_of(contributions.as_slice(), observed);
        let floor: u16 = if participant_count < 2 {
            participant_count
        } else {
            2
        };
        let independent = participant_count == 1 || (capability_observation_complete
            && unique_capability_snapshots > 1 && unique_evidence_clusters > 1
            && unique_evidence_clusters >= floor && maximum_overlap <= maximum_allowed_overlap_ppm);
        let r = ConsensusDiversityAssessment {
            contributions: copy_contributions(contributions),
            participant_count,
            capability_observation_complete,
            unique_capability_snapshots,
            unique_evidence_clusters,
            maximum_allowed_overlap_ppm,
            maximum_source_overlap_ppm: maximum_overlap,
            independent,
            raw_confidence_ppm: 0,
            effective_confidence_ppm: 0,
            confidence_capped: false,
        };
        proof {
            same_contributions_same_facts(contributions@, r.contributions@);
            same_overlaps(contributions@, r.contributions@, maximum_overlap as int);
        }
        Ok(r)
    }

    pub open spec fn confidence_verdict(raw: u32, effective: u32) -> Verdict {
        demand(
            raw <= 1_000_000 && effective <= raw,
            budget("consensus_diversity.confidence"@),
        )
    }

    /// Notes the confidence that was claimed and the one that is granted.
    pub fn record_confidence(
        &mut self,
        raw_confidence_ppm: u32,
        effective_confidence_ppm: u32,
    ) -> (r: Result<(), DomainError>)
        ensures
            outcome(r) == Self::confidence_verdict(raw_confidence_ppm, effective_confidence_ppm),
            r is Err ==> *final(self) == *old(self),
            r is Ok ==> *final(self) == (ConsensusDiversityAssessment {
                raw_confidence_ppm,
                effective_confidence_ppm,
                confidence_capped: effective_confidence_ppm < raw_confidence_ppm,
                ..*old(self)
            }),
    {
        if raw_confidence_ppm > WeightPpm::SCALE || effective_confidence_ppm > raw_confidence_ppm {
            return Err(invalid_budget("consensus_diversity.confidence"));
        }
        self.raw_confidence_ppm = raw_confidence_ppm;
        self.effective_confidence_ppm = effective_confidence_ppm;
        self.confidence_capped = effective_confidence_ppm < raw_confidence_ppm;
        Ok(())
    }

    pub open spec fn verdict(&self) -> Verdict {
        first(
            Self::contributions_verdict(self.contributions@, self.maximum_allowed_overlap_ppm),
            first(
                Self::confidence_verdict(self.raw_confidence_ppm, self.effective_confidence_ppm),
                demand(
                    self.agrees_with_contributions() && self.confidence_capped == (
                    self.effective_confidence_ppm < self.raw_confidence_ppm),
                    budget("consensus_diversity.assessment"@),
                ),
            ),
        )
    }

    /// Checks that nothing derived from the contributions was made up.
    pub fn validate(&self) -> (r: Result<(), DomainError>)
        ensures
            outcome(r) == self.verdict(),
    {
        let mut expected = Self::from_contributions(
            &self.contributions,
            self.maximum_allowed_overlap_ppm,
        )?;
        proof {
            same_contributions_same_facts(self.contributions@, expected.contributions@);
        }
        let ghost derived = expected;
        expected.record_confidence(self.raw_confidence_ppm, self.effective_confidence_ppm)?;
        proof {
            let m = expected.maximum_source_overlap_ppm as int;
            same_overlaps_back(self.contributions@, expected.contributions@, m);
            if is_largest_overlap(self.contributions@, self.maximum_source_overlap_ppm as int) {
                largest_overlap_is_unique(
                    self.contributions@,
                    m,
                    self.maximum_source_overlap_ppm as int,
                );
            }
        }
        if expected.participant_count != self.participant_count
            || expected.capability_observation_complete != self.capability_observation_complete
            || expected.unique_capability_snapshots != self.unique_capability_snapshots
            || expected.unique_evidence_clusters != self.unique_evidence_clusters
            || expected.maximum_source_overlap_ppm != self.maximum_source_overlap_ppm
            || expected.independent != self.independent || expected.confidence_capped
            != self.confidence_capped {
            return Err(invalid_budget("consensus_diversity.assessment"));
        }
        Ok(())
    }

    /// More than one agent agrees, and they do so independently.
    pub open spec fn lends_confidence(&self) -> bool {
        self.participant_count > 1 && self.independent
    }

    /// Whether agreement may raise the confidence: there are several voices and they are
    /// independent.
    pub fn permits_consensus_confidence_boost(&self) -> (r: bool)
        ensures
            r == self.lends_confidence(),
            self.participant_count <= 1 ==> !r,
            !self.independent ==> !r,
    {
        self.participant_count > 1 && self.independent
    }
}

proof fn same_contributions_same_facts(
    a: Seq<AgentEvidenceContribution>,
    b: Seq<AgentEvidenceContribution>,
)
    requires
        a.len() == b.len(),
        forall|i: int| 0 <= i < a.len() ==> same_contribution(#[trigger] a[i], b[i]),
    ensures
        diversity_facts(a) == diversity_facts(b),
        all_clusters(a) == all_clusters(b),
        all_snapshots(a) == all_snapshots(b),
    decreases a.len(),
{
    if a.len() > 0 {
        let x = a.drop_last();
        let y = b.drop_last();
        assert forall|i: int| 0 <= i < x.len() implies same_contribution(#[trigger] x[i], y[i]) by {
            assert(same_contribution(a[i], b[i]));
        }
        same_contributions_same_facts(x, y);
        assert(same_contribution(a[a.len() - 1], b[b.len() - 1]));
    }
    assert(diversity_facts(a).observed == diversity_facts(b).observed) by {
        if diversity_facts(a).observed {
            assert forall|i: int| 0 <= i < b.len() implies (
            #[trigger] b[i]).capability_snapshot_hash is Some by {
                assert(same_contribution(a[i], b[i]));
            }
        }
        if diversity_facts(b).observed {
            assert forall|i: int| 0 <= i < a.len() implies (
            #[trigger] a[i]).capability_snapshot_hash is Some by {
                assert(same_contribution(a[i], b[i]));
            }
        }
    }
}

proof fn same_overlaps(
    a: Seq<AgentEvidenceContribution>,
    b: Seq<AgentEvidenceContribution>,
    m: int,
)
    requires
        a.len() == b.len(),
        forall|i: int| 0 <= i < a.len() ==> same_contribution(#[trigger] a[i], b[i]),
        is_largest_overlap(a, m),
    ensures
        is_largest_overlap(b, m),
{
    assert forall|i: int, j: int| 0 <= i < j < b.len() implies #[trigger] pair_overlap(b, i, j) <= m by {
        assert(same_contribution(a[i], b[i]) && same_contribution(a[j], b[j]));
        assert(pair_overlap(a, i, j) == pair_overlap(b, i, j));
    }
    if m > 0 {
        let (i, j) = choose|i: int, j: int|
            0 <= i < j < a.len() && #[trigger] pair_overlap(a, i, j) == m;
        assert(same_contribution(a[i], b[i]) && same_contribution(a[j], b[j]));
        assert(pair_overlap(b, i, j) == m);
    }
}

proof fn same_overlaps_back(
    a: Seq<AgentEvidenceContribution>,
    b: Seq<AgentEvidenceContribution>,
    m: int,
)
    requires
        a.len() == b.len(),
        forall|i: int| 0 <= i < a.len() ==> same_contribution(#[trigger] a[i], b[i]),
        is_largest_overlap(b, m),
    ensures
        is_largest_overlap(a, m),
{
    assert forall|i: int| 0 <= i < b.len() implies same_contribution(#[trigger] b[i], a[i]) by {
        assert(same_contribution(a[i], b[i]));
    }
    same_overlaps(b, a, m);
}

/// There is one largest overlap.
proof fn largest_overlap_is_unique(list: Seq<AgentEvidenceContribution>, m: int, k: int)
    requires
        is_largest_overlap(list, m),
        is_largest_overlap(list, k),
    ensures
        m == k,
{
    if m > k {
        let (i, j) = choose|i: int, j: int|
            0 <= i < j < list.len() && #[trigger] pair_overlap(list, i, j) == m;
        assert(pair_overlap(list, i, j) <= k);
    } else if k > m {
        let (i, j) = choose|i: int, j: int|
            0 <= i < j < list.len() && #[trigger] pair_overlap(list, i, j) == k;
        assert(pair_overlap(list, i, j) <= m);
    }
}

fn largest_overlap(list: &Vec<AgentEvidenceContribution>) -> (r: u32)
    ensures
        is_largest_overlap(list@, r as int),
{
    let mut m: u32 = 0;
    let mut left: usize = 0;
    while left < list.len()
        invariant
            left <= list.len(),
            forall|i: int, j: int|
                0 <= i < j < list@.len() && i < left ==> #[trigger] pair_overlap(list@, i, j) <= m,
            m > 0 ==> exists|i: int, j: int|
                0 <= i < j < list@.len() && #[trigger] pair_overlap(list@, i, j) == m,
        decreases list.len() - left,
    {
        let mut right: usize = left + 1;
        while right < list.len()
            invariant
                left < right <= list.len(),
                forall|i: int, j: int|
                    0 <= i < j < list@.len() && (i < left || (i == left && j < right))
                        ==> #[trigger] pair_overlap(list@, i, j) <= m,
                m > 0 ==> exists|i: int, j: int|
                    0 <= i < j < list@.len() && #[trigger] pair_overlap(list@, i, j) == m,
            decreases list.len() - right,
        {
            let overlap: u32 = measure_overlap(
                &list[left].evidence_clusters,
                &list[right].evidence_clusters,
            );
            proof {
                assert(pair_overlap(list@, left as int, right as int) == overlap);
            }
            if overlap > m {
                m = overlap;
            }
            right += 1;
        }
        left += 1;
    }
    m
}

/// Several voices that rest on the same evidence never raise the confidence.
pub proof fn shared_evidence_never_boosts_confidence(a: ConsensusDiversityAssessment)
    requires
        a.verdict() is Ok,
        a.participant_count > 1,
        a.maximum_source_overlap_ppm > a.maximum_allowed_overlap_ppm,
    ensures
        !a.independent,
{
}

/// The granted confidence of a valid assessment never exceeds the claimed one.
pub proof fn granted_confidence_never_exceeds_claim(a: ConsensusDiversityAssessment)
    requires
        a.verdict() is Ok,
    ensures
        a.effective_confidence_ppm <= a.raw_confidence_ppm <= 1_000_000,
        a.confidence_capped <==> a.effective_confidence_ppm != a.raw_confidence_ppm,
{
}

/// How much of the market may be taken.
#[derive(Clone, Copy, Debug, PartialEq, Eq, Structural)]
pub struct CapacityPolicy {
    pub maximum_market_participation_ppm: u32,
    pub maximum_estimated_slippage_ppm: u32,
    pub impact_slope_ppm: u32,
}

impl CapacityPolicy {
    pub open spec fn verdict(&self) -> Verdict {
        demand(
            0 < self.maximum_market_participation_ppm <= 1_000_000
                && self.maximum_estimated_slippage_ppm <= 1_000_000 && self.impact_slope_ppm
                <= 10_000_000,
            budget("capacity_policy"@),
        )
    }

    pub fn validate(&self) -> (r: Result<(), DomainError>)
        ensures
            outcome(r) == self.verdict(),
    {
        if self.maximum_market_participation_ppm == 0 || self.maximum_market_participation_ppm
            > WeightPpm::SCALE || self.maximum_estimated_slippage_ppm > WeightPpm::SCALE
            || self.impact_slope_ppm > 10_000_000 {
            return Err(invalid_budget("capacity_policy"));
        }
        Ok(())
    }
}

impl Default for CapacityPolicy {
    fn default() -> (r: Self)
        ensures
            r == (CapacityPolicy {
                maximum_market_participation_ppm: 50_000,
                maximum_estimated_slippage_ppm: 10_000,
                impact_slope_ppm: 200_000,
            }),
    {
        CapacityPolicy {
            maximum_market_participation_ppm: 50_000,
            maximum_estimated_slippage_ppm: 10_000,
            impact_slope_ppm: 200_000,
        }
    }
}

/// What an order of one asset does to its market.
#[derive(Clone, Copy, Debug, PartialEq, Eq, Structural)]
pub struct AssetCapacityAssessment {
    pub asset: Asset,
    pub aggregate_order_notional: MoneyMicros,
    pub average_daily_dollar_volume: MoneyMicros,
    pub expected_market_participation_ppm: u32,
    pub estimated_slippage_ppm: u32,
    pub estimated_fill_probability_ppm: u32,
    pub within_capacity: bool,
}

/// What a number of alike accounts does to the markets.
#[derive(Debug, Clone, PartialEq, Eq)]
pub struct CapacityScenario {
    pub account_notional: MoneyMicros,
    pub homogeneous_agent_count: u32,
    pub assets: Vec<AssetCapacityAssessment>,
    pub within_capacity: bool,
}

/// The money that all the accounts together order of an asset.
pub open spec fn aggregate_notional(account: int, weight: int, agents: int) -> int {
    account * weight * agents / 1_000_000
}

/// The share of the daily volume that an order is.
pub open spec fn participation_ppm(aggregate: int, volume: int) -> int {
    clamped(aggregate * 1_000_000 / volume, 0, u32::MAX as int)
}

pub open spec fn slippage_ppm(participation: int, slope: int) -> int {
    clamped(participation * slope / 1_000_000, 0, u32::MAX as int)
}

/// The assessment of one asset.
pub open spec fn capacity_row(
    policy: CapacityPolicy,
    asset: Asset,
    aggregate: int,
    volume: MoneyMicros,
) -> AssetCapacityAssessment {
    let participation = participation_ppm(aggregate, volume.0 as int);
    let slippage = slippage_ppm(participation, policy.impact_slope_ppm as int);
    AssetCapacityAssessment {
        asset,
        aggregate_order_notional: MoneyMicros(aggregate as i64),
        average_daily_dollar_volume: volume,
        expected_market_participation_ppm: participation as u32,
        estimated_slippage_ppm: slippage as u32,
        estimated_fill_probability_ppm: (1_000_000 - clamped(participation, 0, 1_000_000)) as u32,
        within_capacity: participation <= policy.maximum_market_participation_ppm && slippage
            <= policy.maximum_estimated_slippage_ppm,
    }
}

/// The assessments of the first `n` assets that have a weight, or why one cannot be assessed.
pub open spec fn capacity_rows(
    policy: CapacityPolicy,
    weights: Map<Asset, WeightPpm>,
    account: int,
    agents: int,
    volumes: Map<Asset, MoneyMicros>,
    n: nat,
) -> Result<Seq<AssetCapacityAssessment>, crate::error::ErrorView>
    decreases n,
{
    if n == 0 {
        Ok(Seq::empty())
    } else {
        match capacity_rows(policy, weights, account, agents, volumes, (n - 1) as nat) {
            Err(e) => Err(e),
            Ok(rows) => {
                let asset = Asset::EXECUTABLE[n - 1];
                let weight = weights[asset].0 as int;
                let aggregate = aggregate_notional(account, weight, agents);
                if weight == 0 {
                    Ok(rows)
                } else if aggregate > i64::MAX {
                    Err(budget("capacity_scenario.notional"@))
                } else if !volumes.dom().contains(asset) || volumes[asset].0 <= 0 {
                    Err(budget("capacity_scenario.average_daily_dollar_volume"@))
                } else {
                    Ok(rows.push(capacity_row(policy, asset, aggregate, volumes[asset])))
                }
            },
        }
    }
}

/// Every listed assessment is within capacity, and there is one.
pub open spec fn rows_fit(rows: Seq<AssetCapacityAssessment>) -> bool {
    rows.len() > 0 && forall|i: int| 0 <= i < rows.len() ==> (#[trigger] rows[i]).within_capacity
}

pub open spec fn capacity_entry_verdict(
    policy: CapacityPolicy,
    target: TargetPortfolio,
    account: int,
    agents: int,
) -> Verdict {
    first(
        policy.verdict(),
        first(
            target.universe_verdict(),
            demand(account > 0 && agents > 0, budget("capacity_scenario"@)),
        ),
    )
}

fn assess_asset(
    policy: &CapacityPolicy,
    asset: Asset,
    weight: u32,
    account_notional: i64,
    agents: u32,
    volume: Option<&MoneyMicros>,
) -> (r: Result<AssetCapacityAssessment, DomainError>)
    requires
        weight > 0,
        account_notional > 0,
        agents > 0,
        policy.verdict() is Ok,
    ensures
        match r {
            Ok(row) => {
                let aggregate = aggregate_notional(
                    account_notional as int,
                    weight as int,
                    agents as int,
                );
                aggregate <= i64::MAX && volume is Some && volume->Some_0.0 > 0 && row == capacity_row(
                    *policy,
                    asset,
                    aggregate,
                    *volume->Some_0,
                )
            },
            Err(e) => {
                let aggregate = aggregate_notional(
                    account_notional as int,
                    weight as int,
                    agents as int,
                );
                if aggregate > i64::MAX {
                    e@ == budget("capacity_scenario.notional"@)
                } else {
                    &&& volume is None || volume->Some_0.0 <= 0
                    &&& e@ == budget("capacity_scenario.average_daily_dollar_volume"@)
                }
            },
        },
{
    let a: i128 = account_notional as i128;
    let w: i128 = weight as i128;
    let k: i128 = agents as i128;
    assert(0 < a * w <= 0x7fff_ffff_ffff_ffff * 0xffff_ffff) by (nonlinear_arith)
        requires
            0 < a <= 0x7fff_ffff_ffff_ffff,
            0 < w <= 0xffff_ffff,
    ;
    let aw: i128 = a * w;
    assert(0 < aw * k <= 0x7fff_ffff_ffff_ffff * 0xffff_ffff * 0xffff_ffff) by (nonlinear_arith)
        requires
            0 < aw <= 0x7fff_ffff_ffff_ffff * 0xffff_ffff,
            0 < k <= 0xffff_ffff,
    ;
    let product: i128 = aw * k;
    let aggregate: i128 = product / 1_000_000;
    if aggregate > i64::MAX as i128 {
        return Err(invalid_budget("capacity_scenario.notional"));
    }
    let adv = match volume {
        Some(value) => *value,
        None => {
            return Err(invalid_budget("capacity_scenario.average_daily_dollar_volume"));
        },
    };
    if adv.0 <= 0 {
        return Err(invalid_budget("capacity_scenario.average_daily_dollar_volume"));
    }
    let scaled: i128 = aggregate * 1_000_000;
    let share: i128 = scaled / (adv.0 as i128);
    assert(share >= 0) by (nonlinear_arith)
        requires
            scaled >= 0,
            adv.0 > 0,
            share == scaled as int / (adv.0 as int),
    ;
    let participation: u32 = if share > u32::MAX as i128 {
        u32::MAX
    } else {
        share as u32
    };
    let slope: u64 = policy.impact_slope_ppm as u64;
    assert(participation as int * slope as int <= 0xffff_ffff * 10_000_000) by (nonlinear_arith)
        requires
            0 <= participation <= 0xffff_ffff,
            0 <= slope <= 10_000_000,
    ;
    assert(participation as int * slope as int >= 0) by (nonlinear_arith)
        requires
            0 <= participation,
            0 <= slope,
    ;
    let impact: u64 = (participation as u64) * slope / 1_000_000;
    let slippage: u32 = if impact > u32::MAX as u64 {
        u32::MAX
    } else {
        impact as u32
    };
    let taken: u32 = if participation < WeightPpm::SCALE {
        participation
    } else {
        WeightPpm::SCALE
    };
    Ok(
        AssetCapacityAssessment {
            asset,
            aggregate_order_notional: MoneyMicros(aggregate as i64),
            average_daily_dollar_volume: adv,
            expected_market_participation_ppm: participation,
            estimated_slippage_ppm: slippage,
            estimated_fill_probability_ppm: WeightPpm::SCALE - taken,
            within_capacity: participation <= policy.maximum_market_participation_ppm && slippage
                <= policy.maximum_estimated_slippage_ppm,
        },
    )
}

/// Assesses the orders of a number of accounts that all follow one target.
pub fn assess_capacity(
    policy: &CapacityPolicy,
    target: &TargetPortfolio,
    account_notional: MoneyMicros,
    homogeneous_agent_count: u32,
    average_daily_dollar_volume: &OrderedMap<Asset, MoneyMicros>,
) -> (r: Result<CapacityScenario, DomainError>)
    ensures
        ({
            let entry = capacity_entry_verdict(
                *policy,
                *target,
                account_notional.0 as int,
                homogeneous_agent_count as int,
            );
            let rows = capacity_rows(
                *policy,
                target.weights@,
                account_notional.0 as int,
                homogeneous_agent_count as int,
                average_daily_dollar_volume@,
                4,
            );
            match r {
                Ok(scenario) => {
                    &&& entry is Ok
                    &&& rows == Ok::<_, crate::error::ErrorView>(scenario.assets@)
                    &&& scenario.account_notional == account_notional
                    &&& scenario.homogeneous_agent_count == homogeneous_agent_count
                    &&& scenario.within_capacity == rows_fit(scenario.assets@)
                },
                Err(e) => if entry is Err {
                    entry == Verdict::Err(e@)
                } else {
                    rows == Err::<Seq<AssetCapacityAssessment>, _>(e@)
                },
            }
        }),
{
    policy.validate()?;
    target.validate_universe()?;
    if account_notional.0 <= 0 || homogeneous_agent_count == 0 {
        return Err(invalid_budget("capacity_scenario"));
    }
    let mut assets: Vec<AssetCapacityAssessment> = Vec::new();
    let mut n: usize = 0;
    let ghost weights = target.weights@;
    let ghost account = account_notional.0 as int;
    let ghost agents = homogeneous_agent_count as int;
    let ghost volumes = average_daily_dollar_volume@;
    let universe = Asset::EXECUTABLE;
    while n < 4
        invariant
            n <= 4,
            universe == Asset::EXECUTABLE,
            weights == target.weights@,
            account == account_notional.0,
            agents == homogeneous_agent_count,
            volumes == average_daily_dollar_volume@,
            account > 0,
            agents > 0,
            policy.verdict() is Ok,
            target.covers_universe(),
            capacity_entry_verdict(*policy, *target, account, agents) is Ok,
            capacity_rows(*policy, weights, account, agents, volumes, n as nat) == Ok::<
                _,
                crate::error::ErrorView,
            >(assets@),
        decreases 4 - n,
    {
        let asset = universe[n];
        proof {
            assert(target.weights@.dom().contains(asset));
        }
        let weight: u32 = match target.weights.get(&asset) {
            Some(weight) => weight.0,
            None => 0,
        };
        if weight > 0 {
            let assessed = assess_asset(
                policy,
                asset,
                weight,
                account_notional.0,
                homogeneous_agent_count,
                average_daily_dollar_volume.get(&asset),
            );
            proof {
                if assessed is Err {
                    capacity_error_stays(
                        *policy,
                        weights,
                        account,
                        agents,
                        volumes,
                        (n + 1) as nat,
                        4,
                    );
                }
            }
            assets.push(assessed?);
        }
        n += 1;
    }
    let fits = |row: &AssetCapacityAssessment| -> (b: bool)
        ensures
            b == row.within_capacity,
        { row.within_capacity };
    let within_capacity = assets.len() > 0 && all_of(assets.as_slice(), fits);
    Ok(CapacityScenario { account_notional, homogeneous_agent_count, assets, within_capacity })
}

proof fn capacity_error_stays(
    policy: CapacityPolicy,
    weights: Map<Asset, WeightPpm>,
    account: int,
    agents: int,
    volumes: Map<Asset, MoneyMicros>,
    m: nat,
    n: nat,
)
    requires
        m <= n,
        capacity_rows(policy, weights, account, agents, volumes, m) is Err,
    ensures
        capacity_rows(policy, weights, account, agents, volumes, n) == capacity_rows(
            policy,
            weights,
            account,
            agents,
            volumes,
            m,
        ),
    decreases n,
{
    if m < n {
        capacity_error_stays(policy, weights, account, agents, volumes, m, (n - 1) as nat);
    }
}

/// What speaks against an action.
#[derive(Clone, Copy, Debug, PartialEq, Eq, PartialOrd, Ord, Hash, Structural)]
pub enum ComplianceViolation {
    RestrictedAsset,
    WatchListRequiresReview,
    SuspectedMnpi,
    UnknownInformationClass,
    SelfTrade,
    ExcessiveCancellation,
    SpoofingOrLayeringPattern,
    MarkingTheCloseRisk,
    PrearrangedTradeRisk,
    FrontRunningRisk,
    SurveillanceCoverageIncomplete,
}

impl View for ComplianceViolation {
    type V = ComplianceViolation;

    open spec fn view(&self) -> ComplianceViolation {
        *self
    }
}

impl ComplianceViolation {
    /// Where the variant stands in the order.
    pub open spec fn place(self) -> u32 {
        match self {
            ComplianceViolation::RestrictedAsset => 0,
            ComplianceViolation::WatchListRequiresReview => 1,
            ComplianceViolation::SuspectedMnpi => 2,
            ComplianceViolation::UnknownInformationClass => 3,
            ComplianceViolation::SelfTrade => 4,
            ComplianceViolation::ExcessiveCancellation => 5,
            ComplianceViolation::SpoofingOrLayeringPattern => 6,
            ComplianceViolation::MarkingTheCloseRisk => 7,
            ComplianceViolation::PrearrangedTradeRisk => 8,
            ComplianceViolation::FrontRunningRisk => 9,
            ComplianceViolation::SurveillanceCoverageIncomplete => 10,
        }
    }

    pub(crate) fn place_number(self) -> (r: u32)
        ensures
            r == self.place(),
    {
        match self {
            ComplianceViolation::RestrictedAsset => 0,
            ComplianceViolation::WatchListRequiresReview => 1,
            ComplianceViolation::SuspectedMnpi => 2,
            ComplianceViolation::UnknownInformationClass => 3,
            ComplianceViolation::SelfTrade => 4,
            ComplianceViolation::ExcessiveCancellation => 5,
            ComplianceViolation::SpoofingOrLayeringPattern => 6,
            ComplianceViolation::MarkingTheCloseRisk => 7,
            ComplianceViolation::PrearrangedTradeRisk => 8,
            ComplianceViolation::FrontRunningRisk => 9,
            ComplianceViolation::SurveillanceCoverageIncomplete => 10,
        }
    }
}

impl Key for ComplianceViolation {
    open spec fn code(key: ComplianceViolation) -> Seq<int> {
        seq![key.place() as int]
    }

    proof fn code_is_injective(a: ComplianceViolation, b: ComplianceViolation) {
        assert(Self::code(a)[0] == a.place() as int && Self::code(b)[0] == b.place() as int);
    }

    fn rank(&self, other: &Self) -> (r: Rank) {
        rank_numbers((*self).place_number(), (*other).place_number())
    }

    fn duplicate(&self) -> (r: Self) {
        *self
    }
}

/// What is watched for.
#[derive(Clone, Copy, Debug, PartialEq, Eq, PartialOrd, Ord, Hash, Structural)]
pub enum ComplianceControl {
    InformationClassification,
    RestrictedAndWatchLists,
    SelfTrade,
    CancellationRatio,
    SpoofingAndLayering,
    MarkingTheClose,
    PrearrangedTrading,
    FrontRunning,
}

impl View for ComplianceControl {
    type V = ComplianceControl;

    open spec fn view(&self) -> ComplianceControl {
        *self
    }
}

impl ComplianceControl {
    /// Where the variant stands in the order.
    pub open spec fn place(self) -> u32 {
        match self {
            ComplianceControl::InformationClassification => 0,
            ComplianceControl::RestrictedAndWatchLists => 1,
            ComplianceControl::SelfTrade => 2,
            ComplianceControl::CancellationRatio => 3,
            ComplianceControl::SpoofingAndLayering => 4,
            ComplianceControl::MarkingTheClose => 5,
            ComplianceControl::PrearrangedTrading => 6,
            ComplianceControl::FrontRunning => 7,
        }
    }

    pub(crate) fn place_number(self) -> (r: u32)
        ensures
            r == self.place(),
    {
        match self {
            ComplianceControl::InformationClassification => 0,
            ComplianceControl::RestrictedAndWatchLists => 1,
            ComplianceControl::SelfTrade => 2,
            ComplianceControl::CancellationRatio => 3,
            ComplianceControl::SpoofingAndLayering => 4,
            ComplianceControl::MarkingTheClose => 5,
            ComplianceControl::PrearrangedTrading => 6,
            ComplianceControl::FrontRunning => 7,
        }
    }
}

impl Key for ComplianceControl {
    open spec fn code(key: ComplianceControl) -> Seq<int> {
        seq![key.place() as int]
    }

    proof fn code_is_injective(a: ComplianceControl, b: ComplianceControl) {
        assert(Self::code(a)[0] == a.place() as int && Self::code(b)[0] == b.place() as int);
    }

    fn rank(&self, other: &Self) -> (r: Rank) {
        rank_numbers((*self).place_number(), (*other).place_number())
    }

    fn duplicate(&self) -> (r: Self) {
        *self
    }
}

impl ComplianceControl {
    pub const ALL: [ComplianceControl; 8] = [
        ComplianceControl::InformationClassification,
        ComplianceControl::RestrictedAndWatchLists,
        ComplianceControl::SelfTrade,
        ComplianceControl::CancellationRatio,
        ComplianceControl::SpoofingAndLayering,
        ComplianceControl::MarkingTheClose,
        ComplianceControl::PrearrangedTrading,
        ComplianceControl::FrontRunning,
    ];

    pub const PAPER_BASELINE: [ComplianceControl; 5] = [
        ComplianceControl::InformationClassification,
        ComplianceControl::RestrictedAndWatchLists,
        ComplianceControl::SelfTrade,
        ComplianceControl::CancellationRatio,
        ComplianceControl::SpoofingAndLayering,
    ];

    /// What is watched for in paper trading.
    pub open spec fn is_baseline(self) -> bool {
        ||| self is InformationClassification
        ||| self is RestrictedAndWatchLists
        ||| self is SelfTrade
        ||| self is CancellationRatio
        ||| self is SpoofingAndLayering
    }
}

/// The controls of paper trading.
pub open spec fn paper_controls() -> Set<ComplianceControl> {
    Set::new(|c: ComplianceControl| c.is_baseline())
}

pub fn paper_required_compliance_controls() -> (r: OrderedSet<ComplianceControl>)
    ensures
        r@ == paper_controls(),
{
    let mut r: OrderedSet<ComplianceControl> = OrderedSet::new();
    r.insert(ComplianceControl::InformationClassification);
    r.insert(ComplianceControl::RestrictedAndWatchLists);
    r.insert(ComplianceControl::SelfTrade);
    r.insert(ComplianceControl::CancellationRatio);
    r.insert(ComplianceControl::SpoofingAndLayering);
    proof {
        assert(r@ =~= paper_controls());
    }
    r
}

/// What was seen of the account lately.
#[derive(Debug, PartialEq, Eq)]
pub struct ComplianceActivitySnapshot {
    pub recent_submissions: u32,
    pub recent_cancellations: u32,
    pub self_trade_detected: bool,
    pub spoofing_or_layering_pattern: bool,
    pub marking_the_close_risk: bool,
    pub prearranged_trade_risk: bool,
    pub front_running_risk: bool,
    pub available_controls: OrderedSet<ComplianceControl>,
}

impl ComplianceActivitySnapshot {
    /// Nothing was seen.
    pub open spec fn is_quiet(&self) -> bool {
        &&& self.recent_submissions == 0
        &&& self.recent_cancellations == 0
        &&& !self.self_trade_detected
        &&& !self.spoofing_or_layering_pattern
        &&& !self.marking_the_close_risk
        &&& !self.prearranged_trade_risk
        &&& !self.front_running_risk
    }

    /// Nothing was seen under the controls of paper trading.
    pub fn paper_baseline() -> (r: Self)
        ensures
            r.is_quiet(),
            r.available_controls@ == paper_controls(),
    {
        let mut r = Self::default();
        r.available_controls = paper_required_compliance_controls();
        r
    }

    /// The share of orders that were cancelled.
    pub open spec fn cancel_ratio_ppm(&self) -> int {
        if self.recent_submissions == 0 {
            if self.recent_cancellations == 0 {
                0
            } else {
                1_000_000
            }
        } else {
            clamped(
                self.recent_cancellations * 1_000_000 / self.recent_submissions as int,
                0,
                u32::MAX as int,
            )
        }
    }

    fn cancel_ratio(&self) -> (r: u32)
        ensures
            r == self.cancel_ratio_ppm(),
    {
        if self.recent_submissions == 0 {
            if self.recent_cancellations == 0 {
                0
            } else {
                WeightPpm::SCALE
            }
        } else {
            let scaled: u64 = self.recent_cancellations as u64 * 1_000_000;
            let ratio: u64 = scaled / self.recent_submissions as u64;
            if ratio > u32::MAX as u64 {
                u32::MAX
            } else {
                ratio as u32
            }
        }
    }
}

impl Clone for ComplianceActivitySnapshot {
    fn clone(&self) -> (r: Self)
        ensures
            r.recent_submissions == self.recent_submissions,
            r.recent_cancellations == self.recent_cancellations,
            r.self_trade_detected == self.self_trade_detected,
            r.spoofing_or_layering_pattern == self.spoofing_or_layering_pattern,
            r.marking_the_close_risk == self.marking_the_close_risk,
            r.prearranged_trade_risk == self.prearranged_trade_risk,
            r.front_running_risk == self.front_running_risk,
            r.available_controls@ == self.available_controls@,
    {
        ComplianceActivitySnapshot {
            recent_submissions: self.recent_submissions,
            recent_cancellations: self.recent_cancellations,
            self_trade_detected: self.self_trade_detected,
            spoofing_or_layering_pattern: self.spoofing_or_layering_pattern,
            marking_the_close_risk: self.marking_the_close_risk,
            prearranged_trade_risk: self.prearranged_trade_risk,
            front_running_risk: self.front_running_risk,
            available_controls: self.available_controls.clone(),
        }
    }
}

impl Default for ComplianceActivitySnapshot {
    fn default() -> (r: Self)
        ensures
            r.is_quiet(),
            r.available_controls@ == Set::<ComplianceControl>::empty(),
    {
        ComplianceActivitySnapshot {
            recent_submissions: 0,
            recent_cancellations: 0,
            self_trade_detected: false,
            spoofing_or_layering_pattern: false,
            marking_the_close_risk: false,
            prearranged_trade_risk: false,
            front_running_risk: false,
            available_controls: OrderedSet::new(),
        }
    }
}

/// What an action has to comply with.
#[derive(Debug, Clone, PartialEq, Eq)]
pub struct ComplianceActionPolicy {
    pub restricted_assets: OrderedSet<Asset>,
    pub watch_list_assets: OrderedSet<Asset>,
    pub maximum_cancel_ratio_ppm: u32,
    pub permit_licensed_information: bool,
    pub required_controls: OrderedSet<ComplianceControl>,
}

impl ComplianceActionPolicy {
    pub open spec fn verdict(&self) -> Verdict {
        demand(
            self.maximum_cancel_ratio_ppm <= 1_000_000 && self.restricted_assets@.disjoint(
                self.watch_list_assets@,
            ) && self.required_controls@.len() > 0,
            budget("compliance_action_policy"@),
        )
    }

    pub fn validate(&self) -> (r: Result<(), DomainError>)
        ensures
            outcome(r) == self.verdict(),
    {
        if self.maximum_cancel_ratio_ppm > WeightPpm::SCALE || !self.restricted_assets.is_disjoint(
            &self.watch_list_assets,
        ) || self.required_controls.is_empty() {
            return Err(invalid_budget("compliance_action_policy"));
        }
        Ok(())
    }

    /// Whether a violation is at hand.
    pub open spec fn is_violated(
        &self,
        violation: ComplianceViolation,
        asset: Asset,
        information: InformationClassification,
        activity: ComplianceActivitySnapshot,
    ) -> bool {
        match violation {
            ComplianceViolation::RestrictedAsset => self.restricted_assets@.contains(asset),
            ComplianceViolation::WatchListRequiresReview => self.watch_list_assets@.contains(asset),
            ComplianceViolation::SuspectedMnpi => information is SuspectedMnpi
                || information is Confidential,
            ComplianceViolation::UnknownInformationClass => information is Unknown || (
            information is Licensed && !self.permit_licensed_information),
            ComplianceViolation::SelfTrade => activity.self_trade_detected,
            ComplianceViolation::ExcessiveCancellation => activity.cancel_ratio_ppm()
                > self.maximum_cancel_ratio_ppm,
            ComplianceViolation::SpoofingOrLayeringPattern => activity.spoofing_or_layering_pattern,
            ComplianceViolation::MarkingTheCloseRisk => activity.marking_the_close_risk,
            ComplianceViolation::PrearrangedTradeRisk => activity.prearranged_trade_risk,
            ComplianceViolation::FrontRunningRisk => activity.front_running_risk,
            ComplianceViolation::SurveillanceCoverageIncomplete => !self.required_controls@.subset_of(
                activity.available_controls@,
            ),
        }
    }

    /// All violations at hand.
    pub fn assess(
        &self,
        asset: Asset,
        information: InformationClassification,
        activity: &ComplianceActivitySnapshot,
    ) -> (r: Result<OrderedSet<ComplianceViolation>, DomainError>)
        ensures
            match r {
                Ok(violations) => self.verdict() is Ok && forall|v: ComplianceViolation| #[trigger]
                    violations@.contains(v) <==> self.is_violated(v, asset, information, *activity),
                Err(e) => self.verdict() == Verdict::Err(e@),
            },
    {
        self.validate()?;
        let mut violations: OrderedSet<ComplianceViolation> = OrderedSet::new();
        let withheld = match information {
            InformationClassification::SuspectedMnpi | InformationClassification::Confidential => true,
            _ => false,
        };
        let unclear = match information {
            InformationClassification::Unknown => true,
            InformationClassification::Licensed => !self.permit_licensed_information,
            _ => false,
        };
        let uncovered = !self.required_controls.is_subset(&activity.available_controls);
        let cancels = activity.cancel_ratio() > self.maximum_cancel_ratio_ppm;
        violations.insert_if(uncovered, ComplianceViolation::SurveillanceCoverageIncomplete);
        violations.insert_if(
            self.restricted_assets.contains(&asset),
            ComplianceViolation::RestrictedAsset,
        );
        violations.insert_if(
            self.watch_list_assets.contains(&asset),
            ComplianceViolation::WatchListRequiresReview,
        );
        violations.insert_if(withheld, ComplianceViolation::SuspectedMnpi);
        violations.insert_if(unclear, ComplianceViolation::UnknownInformationClass);
        violations.insert_if(activity.self_trade_detected, ComplianceViolation::SelfTrade);
        violations.insert_if(cancels, ComplianceViolation::ExcessiveCancellation);
        violations.insert_if(
            activity.spoofing_or_layering_pattern,
            ComplianceViolation::SpoofingOrLayeringPattern,
        );
        violations.insert_if(
            activity.marking_the_close_risk,
            ComplianceViolation::MarkingTheCloseRisk,
        );
        violations.insert_if(
            activity.prearranged_trade_risk,
            ComplianceViolation::PrearrangedTradeRisk,
        );
        violations.insert_if(activity.front_running_risk, ComplianceViolation::FrontRunningRisk);
        Ok(violations)
    }

    /// Demands every control.
    pub fn require_full_market_integrity(&mut self)
        ensures
            forall|c: ComplianceControl| #[trigger] final(self).required_controls@.contains(c),
            final(self).restricted_assets == old(self).restricted_assets,
            final(self).watch_list_assets == old(self).watch_list_assets,
            final(self).maximum_cancel_ratio_ppm == old(self).maximum_cancel_ratio_ppm,
            final(self).permit_licensed_information == old(self).permit_licensed_information,
    {
        let mut controls = paper_required_compliance_controls();
        controls.insert(ComplianceControl::MarkingTheClose);
        controls.insert(ComplianceControl::PrearrangedTrading);
        controls.insert(ComplianceControl::FrontRunning);
        proof {
            assert forall|c: ComplianceControl| #[trigger] controls@.contains(c) by {
                assert(c.is_baseline() || c is MarkingTheClose || c is PrearrangedTrading
                    || c is FrontRunning);
            }
        }
        self.required_controls = controls;
    }
}

impl Default for ComplianceActionPolicy {
    fn default() -> (r: Self)
        ensures
            r.restricted_assets@ == Set::<Asset>::empty(),
            r.watch_list_assets@ == Set::<Asset>::empty(),
            r.maximum_cancel_ratio_ppm == 500_000,
            r.permit_licensed_information,
            r.required_controls@ == paper_controls(),
    {
        ComplianceActionPolicy {
            restricted_assets: OrderedSet::new(),
            watch_list_assets: OrderedSet::new(),
            maximum_cancel_ratio_ppm: 500_000,
            permit_licensed_information: true,
            required_controls: paper_required_compliance_controls(),
        }
    }
}

/// An outside service that the system depends on.
#[derive(Clone, Copy, Debug, PartialEq, Eq, PartialOrd, Ord, Hash, Structural)]
pub enum DependencyKind {
    ModelProvider,
    NewsProvider,
    MarketData,
    MacroData,
    Broker,
    Dns,
    MarketClock,
    Storage,
    Identity,
    ComplianceData,
}

impl View for DependencyKind {
    type V = DependencyKind;

    open spec fn view(&self) -> DependencyKind {
        *self
    }
}

impl DependencyKind {
    /// Where the variant stands in the order.
    pub open spec fn place(self) -> u32 {
        match self {
            DependencyKind::ModelProvider => 0,
            DependencyKind::NewsProvider => 1,
            DependencyKind::MarketData => 2,
            DependencyKind::MacroData => 3,
            DependencyKind::Broker => 4,
            DependencyKind::Dns => 5,
            DependencyKind::MarketClock => 6,
            DependencyKind::Storage => 7,
            DependencyKind::Identity => 8,
            DependencyKind::ComplianceData => 9,
        }
    }

    pub(crate) fn place_number(self) -> (r: u32)
        ensures
            r == self.place(),
    {
        match self {
            DependencyKind::ModelProvider => 0,
            DependencyKind::NewsProvider => 1,
            DependencyKind::MarketData => 2,
            DependencyKind::MacroData => 3,
            DependencyKind::Broker => 4,
            DependencyKind::Dns => 5,
            DependencyKind::MarketClock => 6,
            DependencyKind::Storage => 7,
            DependencyKind::Identity => 8,
            DependencyKind::ComplianceData => 9,
        }
    }
}

impl Key for DependencyKind {
    open spec fn code(key: DependencyKind) -> Seq<int> {
        seq![key.place() as int]
    }

    proof fn code_is_injective(a: DependencyKind, b: DependencyKind) {
        assert(Self::code(a)[0] == a.place() as int && Self::code(b)[0] == b.place() as int);
    }

    fn rank(&self, other: &Self) -> (r: Rank) {
        rank_numbers((*self).place_number(), (*other).place_number())
    }

    fn duplicate(&self) -> (r: Self) {
        *self
    }
}

impl DependencyKind {
    pub const ALL: [DependencyKind; 10] = [
        DependencyKind::ModelProvider,
        DependencyKind::NewsProvider,
        DependencyKind::MarketData,
        DependencyKind::MacroData,
        DependencyKind::Broker,
        DependencyKind::Dns,
        DependencyKind::MarketClock,
        DependencyKind::Storage,
        DependencyKind::Identity,
        DependencyKind::ComplianceData,
    ];

    /// Whether the system can do without the service.
    pub open spec fn is_optional(self) -> bool {
        self is NewsProvider || self is MacroData || self is Dns || self is Identity
    }

    fn may_be_inactive(self) -> (r: bool)
        ensures
            r == self.is_optional(),
    {
        matches!(
            self,
            DependencyKind::NewsProvider | DependencyKind::MacroData | DependencyKind::Dns
                | DependencyKind::Identity
        )
    }

    /// What suffers where the service fails.
    pub open spec fn degradation(self) -> DependencyDegradationClass {
        match self {
            DependencyKind::NewsProvider | DependencyKind::MacroData | DependencyKind::Dns => {
                DependencyDegradationClass::Read
            },
            DependencyKind::ModelProvider => DependencyDegradationClass::Decision,
            DependencyKind::MarketData
            | DependencyKind::Broker
            | DependencyKind::MarketClock
            | DependencyKind::Identity => DependencyDegradationClass::Execution,
            DependencyKind::Storage => DependencyDegradationClass::Reconciliation,
            DependencyKind::ComplianceData => DependencyDegradationClass::Compliance,
        }
    }
}

fn dependency_degradation_class(kind: DependencyKind) -> (r: DependencyDegradationClass)
    ensures
        r == kind.degradation(),
{
    match kind {
        DependencyKind::NewsProvider | DependencyKind::MacroData | DependencyKind::Dns => {
            DependencyDegradationClass::Read
        },
        DependencyKind::ModelProvider => DependencyDegradationClass::Decision,
        DependencyKind::MarketData
        | DependencyKind::Broker
        | DependencyKind::MarketClock
        | DependencyKind::Identity => DependencyDegradationClass::Execution,
        DependencyKind::Storage => DependencyDegradationClass::Reconciliation,
        DependencyKind::ComplianceData => DependencyDegradationClass::Compliance,
    }
}

/// The state of a service.
#[derive(Clone, Copy, Debug, PartialEq, Eq, PartialOrd, Ord, Hash, Structural)]
pub enum DependencyHealthStatus {
    Healthy,
    Degraded,
    Partial,
    Unavailable,
    Stale,
    NotRequired,
    NotApplicable,
}

/// What the failure of a service affects.
#[derive(Clone, Copy, Debug, PartialEq, Eq, PartialOrd, Ord, Hash, Structural)]
pub enum DependencyDegradationClass {
    Read,
    Decision,
    Execution,
    Reconciliation,
    Compliance,
}

/// A failure of a service.
#[derive(Debug, Clone, PartialEq, Eq)]
pub struct DependencyIncident {
    pub kind: DependencyKind,
    pub class: DependencyDegradationClass,
    pub status: DependencyHealthStatus,
    pub configured_service: String,
    pub actual_service: String,
    pub observed_at: UtcTime,
    pub reason: String,
}

pub ghost struct IncidentView {
    pub kind: DependencyKind,
    pub class: DependencyDegradationClass,
    pub status: DependencyHealthStatus,
    pub configured_service: Seq<char>,
    pub actual_service: Seq<char>,
    pub observed_at: UtcTime,
    pub reason: Seq<char>,
}

impl View for DependencyIncident {
    type V = IncidentView;

    open spec fn view(&self) -> IncidentView {
        IncidentView {
            kind: self.kind,
            class: self.class,
            status: self.status,
            configured_service: self.configured_service@,
            actual_service: self.actual_service@,
            observed_at: self.observed_at,
            reason: self.reason@,
        }
    }
}

/// What is done where a service fails.
#[derive(Clone, Copy, Debug, PartialEq, Eq, PartialOrd, Ord, Hash, Structural)]
pub enum FallbackPolicy {
    FailClosed,
    RiskReductionOnly,
    EquivalentServiceOnly,
}

/// What was seen of a service.
#[derive(Debug, Clone, PartialEq, Eq)]
pub struct DependencySnapshot {
    pub kind: DependencyKind,
    pub provider: String,
    pub service: String,
    pub version: String,
    pub data_classification: String,
    pub expected_freshness_secs: u64,
    pub observed_at: UtcTime,
    pub status: DependencyHealthStatus,
    pub fallback_policy: FallbackPolicy,
    pub configured_service: String,
    pub actual_service: String,
    pub fourth_party_dependencies: OrderedSet<String>,
}

/// The distance of two instants in whole seconds.
pub open spec fn seconds_apart(a: UtcTime, b: UtcTime) -> int {
    let s = truncated(elapsed_nanos(a, b), 1_000_000_000);
    if s < 0 {
        -s
    } else {
        s
    }
}

fn distance_in_seconds(from: &UtcTime, to: &UtcTime) -> (r: u64)
    ensures
        r == seconds_apart(*from, *to),
{
    let s: i64 = to.seconds_since(from);
    if s >= 0 {
        s as u64
    } else {
        (-(s as i128)) as u64
    }
}

impl DependencySnapshot {
    pub open spec fn is_inactive(&self) -> bool {
        self.status is NotRequired || self.status is NotApplicable
    }

    /// Another service answers than the one that was configured.
    pub open spec fn is_switched(&self) -> bool {
        self.configured_service@ != self.actual_service@
    }

    /// The service was last seen too long ago.
    pub open spec fn is_stale(&self, now: UtcTime) -> bool {
        seconds_apart(self.observed_at, now) > self.expected_freshness_secs
    }

    pub open spec fn verdict(&self) -> Verdict {
        if blank(self.provider@) || blank(self.service@) || blank(self.version@) || blank(
            self.data_classification@,
        ) || self.expected_freshness_secs == 0 || blank(self.configured_service@) || blank(
            self.actual_service@,
        ) || holds_blank(self.fourth_party_dependencies@) {
            Err(empty("dependency_snapshot"@))
        } else {
            demand(
                self.is_inactive() ==> self.kind.is_optional() && !self.is_switched(),
                budget("dependency_snapshot.inactive_status"@),
            )
        }
    }

    pub fn validate(&self) -> (r: Result<(), DomainError>)
        ensures
            outcome(r) == self.verdict(),
    {
        if is_blank(&self.provider) || is_blank(&self.service) || is_blank(&self.version)
            || is_blank(&self.data_classification) || self.expected_freshness_secs == 0
            || is_blank(&self.configured_service) || is_blank(&self.actual_service)
            || set_has_blank(&self.fourth_party_dependencies) {
            return Err(empty_field("dependency_snapshot"));
        }
        if matches!(
            self.status,
            DependencyHealthStatus::NotRequired | DependencyHealthStatus::NotApplicable
        ) && (!self.kind.may_be_inactive() || !same_text(
            &self.configured_service,
            &self.actual_service,
        )) {
            return Err(invalid_budget("dependency_snapshot.inactive_status"));
        }
        Ok(())
    }

    /// The service is as it should be for taking on risk.
    pub open spec fn allows_risk(&self, now: UtcTime) -> bool {
        &&& self.verdict() is Ok
        &&& !self.is_switched()
        &&& match self.status {
            DependencyHealthStatus::Healthy => !self.is_stale(now),
            DependencyHealthStatus::NotRequired | DependencyHealthStatus::NotApplicable => true,
            _ => false,
        }
    }

    pub fn permits_new_risk(&self, now: UtcTime) -> (r: bool)
        ensures
            r == self.allows_risk(now),
    {
        if self.validate().is_err() || !same_text(&self.configured_service, &self.actual_service) {
            return false;
        }
        match self.status {
            DependencyHealthStatus::Healthy => distance_in_seconds(&self.observed_at, &now)
                <= self.expected_freshness_secs,
            DependencyHealthStatus::NotRequired | DependencyHealthStatus::NotApplicable => {
                self.kind.may_be_inactive()
            },
            _ => false,
        }
    }

    /// Nothing is wrong with the service, or it is not needed.
    pub open spec fn is_in_order(&self, now: UtcTime) -> bool {
        !self.is_switched() && (self.is_inactive() || (self.status is Healthy && !self.is_stale(
            now,
        )))
    }

    pub open spec fn incident_reason(&self, now: UtcTime) -> Seq<char> {
        if self.is_switched() {
            "configured service differs from actual service"@
        } else if self.is_stale(now) {
            "dependency observation exceeded freshness budget"@
        } else {
            match self.status {
                DependencyHealthStatus::Healthy => "dependency healthy"@,
                DependencyHealthStatus::Degraded => "dependency degraded"@,
                DependencyHealthStatus::Partial => "dependency response partial"@,
                DependencyHealthStatus::Unavailable => "dependency unavailable"@,
                DependencyHealthStatus::Stale => "dependency reported stale"@,
                DependencyHealthStatus::NotRequired => "dependency not required"@,
                DependencyHealthStatus::NotApplicable => "dependency not applicable"@,
            }
        }
    }
}

/// What was seen of all services.
#[derive(Debug, Clone, PartialEq, Eq)]
pub struct DependencyClosure {
    pub captured_at: UtcTime,
    pub dependencies: OrderedMap<DependencyKind, DependencySnapshot>,
}

/// The incidents among the first `n` services.
pub open spec fn incident_list(
    keys: Seq<DependencyKind>,
    snapshots: Seq<DependencySnapshot>,
    now: UtcTime,
    n: nat,
) -> Seq<IncidentView>
    decreases n,
{
    if n == 0 {
        Seq::empty()
    } else {
        let before = incident_list(keys, snapshots, now, (n - 1) as nat);
        let s = snapshots[n - 1];
        if s.is_in_order(now) {
            before
        } else {
            before.push(
                IncidentView {
                    kind: keys[n - 1],
                    class: keys[n - 1].degradation(),
                    status: s.status,
                    configured_service: s.configured_service@,
                    actual_service: s.actual_service@,
                    observed_at: s.observed_at,
                    reason: s.incident_reason(now),
                },
            )
        }
    }
}

/// The check of one service: valid, under its own kind and not seen after the whole was.
pub open spec fn dependency_checks(closure: DependencyClosure) -> spec_fn(int) -> Verdict {
    |i: int|
        first(
            closure.dependencies.values()[i].verdict(),
            demand(
                closure.dependencies.keys()[i] == closure.dependencies.values()[i].kind && !earlier(
                    closure.captured_at,
                    closure.dependencies.values()[i].observed_at,
                ),
                budget("dependency_closure.snapshot"@),
            ),
        )
}

impl DependencyClosure {
    pub open spec fn is_complete(&self) -> bool {
        forall|kind: DependencyKind| #[trigger] self.dependencies@.dom().contains(kind)
    }

    pub open spec fn verdict(&self) -> Verdict {
        first(
            demand(self.is_complete(), empty("dependency_closure.required"@)),
            first_fault(self.dependencies.keys().len(), dependency_checks(*self)),
        )
    }

    pub fn validate(&self) -> (r: Result<(), DomainError>)
        ensures
            outcome(r) == self.verdict(),
    {
        let d = &self.dependencies;
        let complete = d.contains_key(&DependencyKind::ModelProvider) && d.contains_key(
            &DependencyKind::NewsProvider,
        ) && d.contains_key(&DependencyKind::MarketData) && d.contains_key(
            &DependencyKind::MacroData,
        ) && d.contains_key(&DependencyKind::Broker) && d.contains_key(&DependencyKind::Dns)
            && d.contains_key(&DependencyKind::MarketClock) && d.contains_key(
            &DependencyKind::Storage,
        ) && d.contains_key(&DependencyKind::Identity) && d.contains_key(
            &DependencyKind::ComplianceData,
        );
        proof {
            if complete {
                assert forall|kind: DependencyKind| #[trigger]
                    self.dependencies@.dom().contains(kind) by {
                    assert(kind is ModelProvider || kind is NewsProvider || kind is MarketData
                        || kind is MacroData || kind is Broker || kind is Dns || kind is MarketClock
                        || kind is Storage || kind is Identity || kind is ComplianceData);
                }
            }
        }
        if !complete {
            return Err(empty_field("dependency_closure.required"));
        }
        let ghost checks = dependency_checks(*self);
        let n: usize = d.len();
        let mut i: usize = 0;
        while i < n
            invariant
                i <= n,
                n == self.dependencies.keys().len(),
                d == &self.dependencies,
                self.is_complete(),
                checks == dependency_checks(*self),
                first_fault(i as nat, checks) == Verdict::Ok(()),
            decreases n - i,
        {
            let snapshot = d.value_at(i);
            let kind = d.key_at(i);
            let valid = snapshot.validate();
            proof {
                assert(first_fault((i + 1) as nat, checks) == checks(i as int));
                if checks(i as int) is Err {
                    first_fault_stays((i + 1) as nat, n as nat, checks);
                }
            }
            valid?;
            if *kind != snapshot.kind || self.captured_at.is_before(&snapshot.observed_at) {
                return Err(invalid_budget("dependency_closure.snapshot"));
            }
            i += 1;
        }
        Ok(())
    }

    /// Every service is as it should be for taking on risk.
    pub open spec fn allows_risk(&self, now: UtcTime) -> bool {
        self.verdict() is Ok && forall|i: int|
            0 <= i < self.dependencies.keys().len() ==> (
            #[trigger] self.dependencies.values()[i]).allows_risk(now)
    }

    pub fn permits_new_risk(&self, now: UtcTime) -> (r: bool)
        ensures
            r == self.allows_risk(now),
    {
        if self.validate().is_err() {
            return false;
        }
        let n: usize = self.dependencies.len();
        let mut i: usize = 0;
        while i < n
            invariant
                i <= n,
                n == self.dependencies.keys().len(),
                forall|j: int|
                    0 <= j < i ==> (#[trigger] self.dependencies.values()[j]).allows_risk(now),
            decreases n - i,
        {
            if !self.dependencies.value_at(i).permits_new_risk(now) {
                return false;
            }
            i += 1;
        }
        true
    }

    /// The service of a kind is there and as it should be.
    pub open spec fn service_allows_risk(&self, kind: DependencyKind, now: UtcTime) -> bool {
        self.dependencies@.dom().contains(kind) && self.dependencies@[kind].allows_risk(now)
    }

    /// Risk may be reduced without a model provider, but not without the market, the broker,
    /// the clock, the storage and compliance.
    pub open spec fn allows_risk_reduction(&self, now: UtcTime) -> bool {
        &&& self.verdict() is Ok
        &&& self.service_allows_risk(DependencyKind::MarketData, now)
        &&& self.service_allows_risk(DependencyKind::Broker, now)
        &&& self.service_allows_risk(DependencyKind::MarketClock, now)
        &&& self.service_allows_risk(DependencyKind::Storage, now)
        &&& self.service_allows_risk(DependencyKind::ComplianceData, now)
    }

    fn service_permits(&self, kind: DependencyKind, now: UtcTime) -> (r: bool)
        ensures
            r == self.service_allows_risk(kind, now),
    {
        match self.dependencies.get(&kind) {
            Some(snapshot) => snapshot.permits_new_risk(now),
            None => false,
        }
    }

    pub fn permits_risk_reduction(&self, now: UtcTime) -> (r: bool)
        ensures
            r == self.allows_risk_reduction(now),
    {
        self.validate().is_ok() && self.service_permits(DependencyKind::MarketData, now)
            && self.service_permits(DependencyKind::Broker, now) && self.service_permits(
            DependencyKind::MarketClock,
            now,
        ) && self.service_permits(DependencyKind::Storage, now) && self.service_permits(
            DependencyKind::ComplianceData,
            now,
        )
    }

    /// An incident for every service that is not in order, in the order of the kinds.
    pub fn incidents(&self, now: UtcTime) -> (r: Vec<DependencyIncident>)
        ensures
            r@.map_values(|incident: DependencyIncident| incident@) == all_incidents(*self, now),
            are_of_different_kinds(all_incidents(*self, now)),
            forall|kind: DependencyKind| #[trigger]
                is_reported(all_incidents(*self, now), kind)
                    <==> self.dependencies@.dom().contains(kind)
                    && !self.dependencies@[kind].is_in_order(now),
    {
        let mut incidents: Vec<DependencyIncident> = Vec::new();
        let n: usize = self.dependencies.len();
        let ghost keys = self.dependencies.keys();
        let ghost values = self.dependencies.values();
        let ghost seen = |incident: DependencyIncident| incident@;
        let mut i: usize = 0;
        proof {
            assert(incidents@.map_values(seen) =~= Seq::<IncidentView>::empty());
        }
        while i < n
            invariant
                i <= n,
                n == keys.len(),
                keys.no_duplicates(),
                self.dependencies@.dom() == keys.to_set(),
                forall|k: int|
                    0 <= k < n ==> self.dependencies@.dom().contains(#[trigger] keys[k])
                        && self.dependencies@[keys[k]] == values[k],
                keys == self.dependencies.keys(),
                values == self.dependencies.values(),
                seen == (|incident: DependencyIncident| incident@),
                incidents@.map_values(seen) == incident_list(keys, values, now, i as nat),
            decreases n - i,
        {
            let kind = *self.dependencies.key_at(i);
            let snapshot = self.dependencies.value_at(i);
            let stale = distance_in_seconds(&snapshot.observed_at, &now)
                > snapshot.expected_freshness_secs;
            let switched = !same_text(&snapshot.configured_service, &snapshot.actual_service);
            let inactive = matches!(
                snapshot.status,
                DependencyHealthStatus::NotRequired | DependencyHealthStatus::NotApplicable
            );
            if !((snapshot.status == DependencyHealthStatus::Healthy && !stale && !switched) || (
            inactive && !switched)) {
                let reason = if switched {
                    "configured service differs from actual service"
                } else if stale {
                    "dependency observation exceeded freshness budget"
                } else {
                    match snapshot.status {
                        DependencyHealthStatus::Healthy => "dependency healthy",
                        DependencyHealthStatus::Degraded => "dependency degraded",
                        DependencyHealthStatus::Partial => "dependency response partial",
                        DependencyHealthStatus::Unavailable => "dependency unavailable",
                        DependencyHealthStatus::Stale => "dependency reported stale",
                        DependencyHealthStatus::NotRequired => "dependency not required",
                        DependencyHealthStatus::NotApplicable => "dependency not applicable",
                    }
                };
                let ghost before = incidents@;
                let incident = DependencyIncident {
                    kind,
                    class: dependency_degradation_class(kind),
                    status: snapshot.status,
                    configured_service: snapshot.configured_service.clone(),
                    actual_service: snapshot.actual_service.clone(),
                    observed_at: snapshot.observed_at,
                    reason: reason.to_owned(),
                };
                incidents.push(incident);
                proof {
                    assert(incidents@.map_values(seen) =~= before.map_values(seen).push(incident@));
                }
            }
            i += 1;
        }
        proof {
            let all = all_incidents(*self, now);
            each_faulty_service_is_reported_once(keys, values, now, n as nat);
            assert(keys.take(n as int) =~= keys);
            assert forall|kind: DependencyKind| #[trigger]
                is_reported(all, kind) <==> self.dependencies@.dom().contains(kind)
                    && !self.dependencies@[kind].is_in_order(now) by {
                if is_reported(all, kind) || self.dependencies@.dom().contains(kind) {
                    assert(keys.contains(kind));
                    let k = choose|k: int| 0 <= k < keys.len() && keys[k] == kind;
                    assert(self.dependencies@[keys[k]] == values[k]);
                }
            }
        }
        incidents
    }
}

/// Every incident of a closure.
pub open spec fn all_incidents(closure: DependencyClosure, now: UtcTime) -> Seq<IncidentView> {
    incident_list(
        closure.dependencies.keys(),
        closure.dependencies.values(),
        now,
        closure.dependencies.keys().len(),
    )
}

/// With a valid closure, taking on risk is allowed exactly where no service gives rise to an
/// incident.
pub proof fn allowed_risk_means_no_incident(closure: DependencyClosure, now: UtcTime)
    requires
        closure.verdict() is Ok,
    ensures
        closure.allows_risk(now) <==> all_incidents(closure, now) == Seq::<IncidentView>::empty(),
{
    let keys = closure.dependencies.keys();
    let values = closure.dependencies.values();
    no_incident_means_order(keys, values, now, keys.len());
    no_fault_means_every_check_passes(keys.len(), dependency_checks(closure));
    assert forall|i: int| 0 <= i < keys.len() implies ((#[trigger] values[i]).allows_risk(now)
        <==> values[i].is_in_order(now)) by {
        let check = dependency_checks(closure);
        assert(check(i) is Ok);
    }
}

proof fn no_incident_means_order(
    keys: Seq<DependencyKind>,
    values: Seq<DependencySnapshot>,
    now: UtcTime,
    n: nat,
)
    ensures
        incident_list(keys, values, now, n) == Seq::<IncidentView>::empty() <==> forall|i: int|
            0 <= i < n ==> (#[trigger] values[i]).is_in_order(now),
    decreases n,
{
    if n > 0 {
        no_incident_means_order(keys, values, now, (n - 1) as nat);
        if !values[n - 1].is_in_order(now) {
            assert(incident_list(keys, values, now, n).len() > 0);
        }
    }
}

/// Some incident is of a kind of service.
pub open spec fn is_reported(incidents: Seq<IncidentView>, kind: DependencyKind) -> bool {
    exists|i: int| 0 <= i < incidents.len() && (#[trigger] incidents[i]).kind == kind
}

/// No kind of service has two incidents.
pub open spec fn are_of_different_kinds(incidents: Seq<IncidentView>) -> bool {
    forall|i: int, j: int|
        0 <= i < j < incidents.len() ==> (#[trigger] incidents[i]).kind != (
        #[trigger] incidents[j]).kind
}

/// Of services of different kinds, exactly those that are not in order are reported, and each
/// once.
pub proof fn each_faulty_service_is_reported_once(
    keys: Seq<DependencyKind>,
    snapshots: Seq<DependencySnapshot>,
    now: UtcTime,
    n: nat,
)
    requires
        keys.no_duplicates(),
        n <= keys.len(),
    ensures
        are_of_different_kinds(incident_list(keys, snapshots, now, n)),
        forall|k: int|
            0 <= k < n ==> (is_reported(incident_list(keys, snapshots, now, n), #[trigger] keys[k])
                <==> !snapshots[k].is_in_order(now)),
        forall|kind: DependencyKind| #[trigger]
            is_reported(incident_list(keys, snapshots, now, n), kind) ==> keys.take(
                n as int,
            ).contains(kind),
    decreases n,
{
    if n > 0 {
        let m = (n - 1) as nat;
        let before = incident_list(keys, snapshots, now, m);
        let all = incident_list(keys, snapshots, now, n);
        each_faulty_service_is_reported_once(keys, snapshots, now, m);
        let last = keys[m as int];
        assert(!keys.take(m as int).contains(last)) by {
            if keys.take(m as int).contains(last) {
                let q = choose|q: int| 0 <= q < m && keys.take(m as int)[q] == last;
                assert(keys[q] == keys[m as int]);
            }
        }
        assert(!is_reported(before, last));
        assert forall|kind: DependencyKind| #[trigger] is_reported(all, kind) <==> is_reported(
            before,
            kind,
        ) || (kind == last && !snapshots[m as int].is_in_order(now)) by {
            if is_reported(before, kind) {
                let i = choose|i: int| 0 <= i < before.len() && (#[trigger] before[i]).kind == kind;
                assert(all[i] == before[i]);
            }
            if kind == last && !snapshots[m as int].is_in_order(now) {
                assert(all[before.len() as int].kind == kind);
            }
            if is_reported(all, kind) {
                let i = choose|i: int| 0 <= i < all.len() && (#[trigger] all[i]).kind == kind;
                if i < before.len() {
                    assert(before[i].kind == kind);
                }
            }
        }
        assert forall|i: int, j: int| 0 <= i < j < all.len() implies (#[trigger] all[i]).kind != (
        #[trigger] all[j]).kind by {
            assert(all[i] == before[i]);
            assert(is_reported(before, before[i].kind));
            if j < before.len() {
                assert(all[j] == before[j]);
            }
        }
        assert forall|k: int| 0 <= k < n implies (is_reported(all, #[trigger] keys[k])
            <==> !snapshots[k].is_in_order(now)) by {
            if k < m {
                assert(keys[k] != last);
            }
        }
        assert forall|kind: DependencyKind| #[trigger] is_reported(all, kind) implies keys.take(
            n as int,
        ).contains(kind) by {
            if is_reported(before, kind) {
                let q = choose|q: int| 0 <= q < m && keys.take(m as int)[q] == kind;
                assert(keys.take(n as int)[q] == kind);
            } else {
                assert(keys.take(n as int)[m as int] == kind);
            }
        }
    }
}

/// The result of the checks before a trade. What is missing is listed and never counts as an
/// approval.
#[derive(Debug, Clone, PartialEq, Eq)]
pub struct PreTradeSafetySnapshot {
    pub ordered_assets: OrderedSet<Asset>,
    pub information_classifications: OrderedMap<Asset, InformationClassification>,
    pub recent_compliance_activity: ComplianceActivitySnapshot,
    pub dependency_closure: DependencyClosure,
    pub capacity_scenario: Option<CapacityScenario>,
    pub missing_average_daily_dollar_volume: OrderedSet<Asset>,
    pub compliance_violations_by_asset: OrderedMap<Asset, OrderedSet<ComplianceViolation>>,
    pub missing_information_classifications: OrderedSet<Asset>,
    pub risk_increasing: bool,
    pub dependency_permits_new_risk: bool,
    pub dependency_permits_risk_reduction: bool,
    pub permits_execution: bool,
    pub permits_risk_increasing: bool,
}

impl PreTradeSafetySnapshot {
    /// The listed assets are those that are ordered.
    pub open spec fn covers_orders(&self) -> bool {
        &&& self.ordered_assets@.len() > 0
        &&& self.information_classifications@.dom().subset_of(self.ordered_assets@)
        &&& self.compliance_violations_by_asset@.dom() == self.ordered_assets@
    }

    /// Every asset is classified, and nothing speaks against any.
    pub open spec fn complies(&self) -> bool {
        &&& self.missing_information_classifications@.len() == 0
        &&& self.compliance_violations_by_asset.keys().len() > 0
        &&& forall|i: int|
            0 <= i < self.compliance_violations_by_asset.keys().len() ==> (
            #[trigger] self.compliance_violations_by_asset.values()[i])@.len() == 0
    }

    /// The markets can take the orders, where these add risk.
    pub open spec fn has_capacity(&self) -> bool {
        self.risk_increasing ==> self.capacity_scenario is Some
            && self.capacity_scenario->0.within_capacity
            && self.missing_average_daily_dollar_volume@.len() == 0
    }

    /// Whether the orders may be executed.
    pub open spec fn may_execute(&self) -> bool {
        &&& self.complies()
        &&& self.has_capacity()
        &&& if self.risk_increasing {
            self.dependency_permits_new_risk
        } else {
            self.dependency_permits_risk_reduction
        }
    }

    pub open spec fn verdict(&self) -> Verdict {
        first(
            demand(self.covers_orders(), budget("pretrade_safety.assets"@)),
            demand(
                self.permits_execution == self.may_execute() && self.permits_risk_increasing == (
                self.risk_increasing && self.may_execute()),
                budget("pretrade_safety.permission"@),
            ),
        )
    }

    fn names_only_ordered_assets(&self) -> (r: bool)
        ensures
            r == self.information_classifications@.dom().subset_of(self.ordered_assets@),
    {
        let n: usize = self.information_classifications.len();
        let ghost keys = self.information_classifications.keys();
        let mut i: usize = 0;
        while i < n
            invariant
                i <= n,
                n == keys.len(),
                keys == self.information_classifications.keys(),
                self.information_classifications@.dom() == keys.to_set(),
                forall|j: int| 0 <= j < i ==> self.ordered_assets@.contains(#[trigger] keys[j]),
            decreases n - i,
        {
            if !self.ordered_assets.contains(self.information_classifications.key_at(i)) {
                proof {
                    assert(self.information_classifications@.dom().contains(keys[i as int]));
                }
                return false;
            }
            i += 1;
        }
        true
    }

    fn reviews_all_ordered_assets(&self) -> (r: bool)
        ensures
            r == (self.compliance_violations_by_asset@.dom() == self.ordered_assets@),
    {
        let m = &self.compliance_violations_by_asset;
        let n: usize = m.len();
        let ghost keys = m.keys();
        let mut i: usize = 0;
        while i < n
            invariant
                i <= n,
                n == keys.len(),
                m == &self.compliance_violations_by_asset,
                keys == m.keys(),
                m@.dom() == keys.to_set(),
                forall|j: int| 0 <= j < i ==> self.ordered_assets@.contains(#[trigger] keys[j]),
            decreases n - i,
        {
            if !self.ordered_assets.contains(m.key_at(i)) {
                proof {
                    assert(m@.dom().contains(keys[i as int]));
                }
                return false;
            }
            i += 1;
        }
        let k: usize = self.ordered_assets.len();
        let ghost ordered = self.ordered_assets.keys();
        let mut i: usize = 0;
        while i < k
            invariant
                i <= k,
                k == ordered.len(),
                m == &self.compliance_violations_by_asset,
                ordered == self.ordered_assets.keys(),
                self.ordered_assets@ == ordered.to_set(),
                forall|j: int| 0 <= j < i ==> m@.dom().contains(#[trigger] ordered[j]),
            decreases k - i,
        {
            if !m.contains_key(self.ordered_assets.at(i)) {
                return false;
            }
            i += 1;
        }
        proof {
            assert(m@.dom() =~= self.ordered_assets@);
        }
        true
    }

    fn finds_no_violation(&self) -> (r: bool)
        ensures
            r == forall|i: int|
                0 <= i < self.compliance_violations_by_asset.keys().len() ==> (
                #[trigger] self.compliance_violations_by_asset.values()[i])@.len() == 0,
    {
        let n: usize = self.compliance_violations_by_asset.len();
        let mut i: usize = 0;
        while i < n
            invariant
                i <= n,
                n == self.compliance_violations_by_asset.keys().len(),
                forall|j: int|
                    0 <= j < i ==> (
                    #[trigger] self.compliance_violations_by_asset.values()[j])@.len() == 0,
            decreases n - i,
        {
            if !self.compliance_violations_by_asset.value_at(i).is_empty() {
                return false;
            }
            i += 1;
        }
        true
    }

    pub fn validate(&self) -> (r: Result<(), DomainError>)
        ensures
            outcome(r) == self.verdict(),
    {
        if self.ordered_assets.is_empty() || !self.names_only_ordered_assets()
            || !self.reviews_all_ordered_assets() {
            return Err(invalid_budget("pretrade_safety.assets"));
        }
        let compliance_permits = self.missing_information_classifications.is_empty()
            && !self.compliance_violations_by_asset.is_empty() && self.finds_no_violation();
        let within = match &self.capacity_scenario {
            Some(scenario) => scenario.within_capacity,
            None => false,
        };
        let capacity_permits = !self.risk_increasing || (within
            && self.missing_average_daily_dollar_volume.is_empty());
        let expected_execution = compliance_permits && capacity_permits
            && if self.risk_increasing {
            self.dependency_permits_new_risk
        } else {
            self.dependency_permits_risk_reduction
        };
        let expected_risk_increasing = self.risk_increasing && expected_execution;
        if self.permits_execution != expected_execution || self.permits_risk_increasing
            != expected_risk_increasing {
            return Err(invalid_budget("pretrade_safety.permission"));
        }
        Ok(())
    }
}

/// A valid snapshot permits nothing where a classification is missing or where orders that
/// add risk have no measured capacity.
pub proof fn missing_safety_evidence_permits_nothing(s: PreTradeSafetySnapshot)
    requires
        s.verdict() is Ok,
        s.missing_information_classifications@.len() > 0 || (s.risk_increasing && (
        s.capacity_scenario is None || s.missing_average_daily_dollar_volume@.len() > 0)),
    ensures
        !s.permits_execution,
        !s.permits_risk_increasing,
{
}

/// More agents that trade alike take no less of the market.
pub proof fn more_agents_take_no_less_of_the_market(
    account: int,
    weight: int,
    few: int,
    many: int,
    volume: int,
)
    requires
        0 <= account,
        0 <= weight,
        0 <= few <= many,
        0 < volume,
    ensures
        participation_ppm(aggregate_notional(account, weight, few), volume) <= participation_ppm(
            aggregate_notional(account, weight, many),
            volume,
        ),
{
    let x = aggregate_notional(account, weight, few);
    let y = aggregate_notional(account, weight, many);
    assert(0 <= account * weight) by (nonlinear_arith)
        requires
            0 <= account,
            0 <= weight,
    ;
    vstd::arithmetic::mul::lemma_mul_inequality(few, many, account * weight);
    vstd::arithmetic::mul::lemma_mul_is_commutative(few, account * weight);
    vstd::arithmetic::mul::lemma_mul_is_commutative(many, account * weight);
    vstd::arithmetic::div_mod::lemma_div_is_ordered(
        account * weight * few,
        account * weight * many,
        1_000_000,
    );
    vstd::arithmetic::div_mod::lemma_div_is_ordered(x * 1_000_000, y * 1_000_000, volume);
}

/// What a financial content assessment is refused with: the first fault that it has.
pub proof fn refusal_of_financial_content_assessment_names_its_fault(
    this: FinancialContentAssessment,
)
    ensures
        !(!blank(this.source_origin@) && (this.syndication_parent matches Some(parent)
            ==> !blank(parent@)) && !holds_blank(this.canonical_entity_ids@)
            && this.independent_confirmation_clusters <= 1_000)
            ==> this.verdict() == Verdict::Err(empty("financial_content_assessment"@)),
{
}

/// What a financial content policy is refused with: the first fault that it has.
pub proof fn refusal_of_financial_content_policy_names_its_fault(this: FinancialContentPolicy)
    ensures
        !(1 <= this.minimum_high_impact_confirmation_clusters <= 16)
            ==> this.verdict() == Verdict::Err(
                budget("financial_content_policy.confirmation_clusters"@),
            ),
{
}

/// What is refused in this respect is refused with the first fault that it has.
pub proof fn confidence_verdict_of_consensus_diversity_assessment_names_its_fault(
    raw: u32,
    effective: u32,
)
    ensures
        !(raw <= 1_000_000 && effective <= raw)
            ==> ConsensusDiversityAssessment::confidence_verdict(raw, effective) == Verdict::Err(
                budget("consensus_diversity.confidence"@),
            ),
{
}

/// What a consensus diversity assessment is refused with: the first fault that it has.
pub proof fn refusal_of_consensus_diversity_assessment_names_its_fault(
    this: ConsensusDiversityAssessment,
)
    ensures
        ConsensusDiversityAssessment::contributions_verdict(this.contributions@, this.maximum_allowed_overlap_ppm) is Ok
            && ConsensusDiversityAssessment::confidence_verdict(this.raw_confidence_ppm, this.effective_confidence_ppm) is Ok
            && !(this.agrees_with_contributions()
            && this.confidence_capped == (this.effective_confidence_ppm < this.raw_confidence_ppm))
            ==> this.verdict() == Verdict::Err(budget("consensus_diversity.assessment"@)),
{
}

/// What a capacity policy is refused with: the first fault that it has.
pub proof fn refusal_of_capacity_policy_names_its_fault(this: CapacityPolicy)
    ensures
        !(0 < this.maximum_market_participation_ppm <= 1_000_000
            && this.maximum_estimated_slippage_ppm <= 1_000_000
            && this.impact_slope_ppm <= 10_000_000)
            ==> this.verdict() == Verdict::Err(budget("capacity_policy"@)),
{
}

/// What is refused in this respect is refused with the first fault that it has.
pub proof fn capacity_entry_verdict_names_its_fault(
    policy: CapacityPolicy,
    target: TargetPortfolio,
    account: int,
    agents: int,
)
    ensures
        policy.verdict() is Ok && target.universe_verdict() is Ok && !(account > 0 && agents > 0)
            ==> capacity_entry_verdict(policy, target, account, agents) == Verdict::Err(
                budget("capacity_scenario"@),
            ),
{
}

/// What a compliance action policy is refused with: the first fault that it has.
pub proof fn refusal_of_compliance_action_policy_names_its_fault(this: ComplianceActionPolicy)
    ensures
        !(this.maximum_cancel_ratio_ppm <= 1_000_000
            && this.restricted_assets@.disjoint(this.watch_list_assets@)
            && this.required_controls@.len() > 0)
            ==> this.verdict() == Verdict::Err(budget("compliance_action_policy"@)),
{
}

/// What a dependency snapshot is refused with: the first fault that it has.
pub proof fn refusal_of_dependency_snapshot_names_its_fault(this: DependencySnapshot)
    ensures
        (blank(this.provider@) || blank(this.service@) || blank(this.version@)
            || blank(this.data_classification@) || this.expected_freshness_secs == 0
            || blank(this.configured_service@) || blank(this.actual_service@)
            || holds_blank(this.fourth_party_dependencies@))
            ==> this.verdict() == Verdict::Err(empty("dependency_snapshot"@)),
        !(blank(this.provider@) || blank(this.service@) || blank(this.version@)
            || blank(this.data_classification@) || this.expected_freshness_secs == 0
            || blank(this.configured_service@) || blank(this.actual_service@)
            || holds_blank(this.fourth_party_dependencies@)) && !(this.is_inactive()
            ==> this.kind.is_optional() && !this.is_switched())
            ==> this.verdict() == Verdict::Err(budget("dependency_snapshot.inactive_status"@)),
{
}

/// What a dependency closure is refused with: the first fault that it has.
pub proof fn refusal_of_dependency_closure_names_its_fault(this: DependencyClosure)
    ensures
        !(this.is_complete())
            ==> this.verdict() == Verdict::Err(empty("dependency_closure.required"@)),
{
}

/// What a pre trade safety snapshot is refused with: the first fault that it has.
pub proof fn refusal_of_pre_trade_safety_snapshot_names_its_fault(this: PreTradeSafetySnapshot)
    ensures
        !(this.covers_orders())
            ==> this.verdict() == Verdict::Err(budget("pretrade_safety.assets"@)),
        (this.covers_orders()) && !(this.permits_execution == this.may_execute()
            && this.permits_risk_increasing == (this.risk_increasing && this.may_execute()))
            ==> this.verdict() == Verdict::Err(budget("pretrade_safety.permission"@)),
{
}

} // verus!
