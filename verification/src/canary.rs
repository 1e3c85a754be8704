//! Campaigns that try a candidate beside the one in force, stage by stage, on paper.
use crate::artifact::{ArtifactKind, ArtifactRef};
use crate::decision::share_fits;
use crate::error::{
    budget, demand, empty, empty_field, first, invalid_budget, outcome, DomainError, Verdict,
};
use crate::evaluation::outcome::{
    CalibrationReport, ForecastScore, OutcomeCostModel, OutcomeHorizon, OutcomeWindow,
};
use crate::evaluation::policy::CandidatePolicyState;
use crate::experiment::SearchBiasAcceptancePolicy;
use crate::foundation::{
    digest_of, is_digest, json_digest, Asset, ContentHash, MoneyMicros, RunId, TopologyId,
};
use crate::json::{
    json_content, json_insert, json_new_object, json_object, json_text, no_members, JsonTree,
    ToJson,
};
use crate::lists::{check_all, list_verdict, Checked};
use crate::longitudinal::{CapabilityRetentionMatrix, PromotionIntegrityEvidence};
use crate::market_safety::{holds_blank, set_has_blank};
use crate::ordered::{OrderedMap, OrderedSet};
use crate::text::{blank, is_blank, same_text};
use crate::time::{day_text, CalendarDay, UtcTime};
use crate::DOMAIN_SCHEMA_VERSION;
use vstd::prelude::*;

verus! {

/// The state of a campaign.
#[derive(Clone, Copy, Debug, PartialEq, Eq, PartialOrd, Ord, Hash, Structural)]
pub enum CanaryCampaignStatus {
    Staged,
    ValidationStage1,
    ValidationStage2,
    ValidationStage3,
    ActiveValidation,
    Completed,
    Frozen,
}

impl CanaryCampaignStatus {
    /// The name of the variant in JSON.
    pub open spec fn wire(self) -> Seq<char> {
        match self {
            CanaryCampaignStatus::Staged => "staged"@,
            CanaryCampaignStatus::ValidationStage1 => "validation_stage1"@,
            CanaryCampaignStatus::ValidationStage2 => "validation_stage2"@,
            CanaryCampaignStatus::ValidationStage3 => "validation_stage3"@,
            CanaryCampaignStatus::ActiveValidation => "active_validation"@,
            CanaryCampaignStatus::Completed => "completed"@,
            CanaryCampaignStatus::Frozen => "frozen"@,
        }
    }

    /// The name of the variant in JSON.
    pub fn wire_name(self) -> (r: &'static str)
        ensures
            r@ == self.wire(),
    {
        match self {
            CanaryCampaignStatus::Staged => "staged",
            CanaryCampaignStatus::ValidationStage1 => "validation_stage1",
            CanaryCampaignStatus::ValidationStage2 => "validation_stage2",
            CanaryCampaignStatus::ValidationStage3 => "validation_stage3",
            CanaryCampaignStatus::ActiveValidation => "active_validation",
            CanaryCampaignStatus::Completed => "completed",
            CanaryCampaignStatus::Frozen => "frozen",
        }
    }
}

impl ToJson for CanaryCampaignStatus {
    open spec fn json(&self) -> JsonTree {
        JsonTree::Text(self.wire())
    }

    fn to_json(&self) -> (r: serde_json::Value) {
        json_text(self.wire_name())
    }
}

impl CanaryCampaignStatus {
    pub const LEVELS: [CanaryCampaignStatus; 4] = [
        CanaryCampaignStatus::ValidationStage1,
        CanaryCampaignStatus::ValidationStage2,
        CanaryCampaignStatus::ValidationStage3,
        CanaryCampaignStatus::ActiveValidation,
    ];

    /// The first three stages under the names of their rollouts.
    #[allow(non_upper_case_globals)]
    pub const Canary10: CanaryCampaignStatus = CanaryCampaignStatus::ValidationStage1;

    #[allow(non_upper_case_globals)]
    pub const Canary25: CanaryCampaignStatus = CanaryCampaignStatus::ValidationStage2;

    #[allow(non_upper_case_globals)]
    pub const Canary50: CanaryCampaignStatus = CanaryCampaignStatus::ValidationStage3;

    pub open spec fn following(self) -> Option<CanaryCampaignStatus> {
        match self {
            CanaryCampaignStatus::Staged => Some(CanaryCampaignStatus::ValidationStage1),
            CanaryCampaignStatus::ValidationStage1 => Some(CanaryCampaignStatus::ValidationStage2),
            CanaryCampaignStatus::ValidationStage2 => Some(CanaryCampaignStatus::ValidationStage3),
            CanaryCampaignStatus::ValidationStage3 => Some(CanaryCampaignStatus::ActiveValidation),
            CanaryCampaignStatus::ActiveValidation => Some(CanaryCampaignStatus::Completed),
            CanaryCampaignStatus::Completed => None,
            CanaryCampaignStatus::Frozen => None,
        }
    }

    /// The state that follows where a stage is passed.
    pub fn next(self) -> (r: Option<CanaryCampaignStatus>)
        ensures
            r == self.following(),
    {
        match self {
            CanaryCampaignStatus::Staged => Some(CanaryCampaignStatus::ValidationStage1),
            CanaryCampaignStatus::ValidationStage1 => Some(CanaryCampaignStatus::ValidationStage2),
            CanaryCampaignStatus::ValidationStage2 => Some(CanaryCampaignStatus::ValidationStage3),
            CanaryCampaignStatus::ValidationStage3 => Some(CanaryCampaignStatus::ActiveValidation),
            CanaryCampaignStatus::ActiveValidation => Some(CanaryCampaignStatus::Completed),
            CanaryCampaignStatus::Completed | CanaryCampaignStatus::Frozen => None,
        }
    }

    pub open spec fn is_stage(self) -> bool {
        ||| self is ValidationStage1
        ||| self is ValidationStage2
        ||| self is ValidationStage3
        ||| self is ActiveValidation
    }

    /// Whether the candidate is being tried.
    pub fn is_level(self) -> (r: bool)
        ensures
            r == self.is_stage(),
    {
        matches!(
            self,
            CanaryCampaignStatus::ValidationStage1 | CanaryCampaignStatus::ValidationStage2
                | CanaryCampaignStatus::ValidationStage3 | CanaryCampaignStatus::ActiveValidation
        )
    }

    pub open spec fn rollout(self) -> Option<CandidatePolicyState> {
        match self {
            CanaryCampaignStatus::ValidationStage1 => Some(CandidatePolicyState::Canary10),
            CanaryCampaignStatus::ValidationStage2 => Some(CandidatePolicyState::Canary25),
            CanaryCampaignStatus::ValidationStage3 => Some(CandidatePolicyState::Canary50),
            CanaryCampaignStatus::ActiveValidation => Some(CandidatePolicyState::Active),
            CanaryCampaignStatus::Completed => Some(CandidatePolicyState::Active),
            CanaryCampaignStatus::Staged => None,
            CanaryCampaignStatus::Frozen => None,
        }
    }

    /// How far the candidate is rolled out.
    pub fn policy_state(self) -> (r: Option<CandidatePolicyState>)
        ensures
            r == self.rollout(),
    {
        match self {
            CanaryCampaignStatus::ValidationStage1 => Some(CandidatePolicyState::Canary10),
            CanaryCampaignStatus::ValidationStage2 => Some(CandidatePolicyState::Canary25),
            CanaryCampaignStatus::ValidationStage3 => Some(CandidatePolicyState::Canary50),
            CanaryCampaignStatus::ActiveValidation | CanaryCampaignStatus::Completed => Some(
                CandidatePolicyState::Active,
            ),
            CanaryCampaignStatus::Staged | CanaryCampaignStatus::Frozen => None,
        }
    }

    pub open spec fn shown(self) -> Seq<char> {
        match self {
            CanaryCampaignStatus::Staged => "Staged"@,
            CanaryCampaignStatus::ValidationStage1 => "ValidationStage1"@,
            CanaryCampaignStatus::ValidationStage2 => "ValidationStage2"@,
            CanaryCampaignStatus::ValidationStage3 => "ValidationStage3"@,
            CanaryCampaignStatus::ActiveValidation => "ActiveValidation"@,
            CanaryCampaignStatus::Completed => "Completed"@,
            CanaryCampaignStatus::Frozen => "Frozen"@,
        }
    }

    pub fn display_name(self) -> (r: &'static str)
        ensures
            r@ == self.shown(),
    {
        match self {
            CanaryCampaignStatus::Staged => "Staged",
            CanaryCampaignStatus::ValidationStage1 => "ValidationStage1",
            CanaryCampaignStatus::ValidationStage2 => "ValidationStage2",
            CanaryCampaignStatus::ValidationStage3 => "ValidationStage3",
            CanaryCampaignStatus::ActiveValidation => "ActiveValidation",
            CanaryCampaignStatus::Completed => "Completed",
            CanaryCampaignStatus::Frozen => "Frozen",
        }
    }

    /// The name under which older records store the state, where it differs.
    pub fn legacy_storage_name(self) -> (r: Option<&'static str>)
        ensures
            match self {
                CanaryCampaignStatus::ValidationStage1 => r matches Some(name) && name@
                    == "canary10"@,
                CanaryCampaignStatus::ValidationStage2 => r matches Some(name) && name@
                    == "canary25"@,
                CanaryCampaignStatus::ValidationStage3 => r matches Some(name) && name@
                    == "canary50"@,
                _ => r is None,
            },
    {
        match self {
            CanaryCampaignStatus::ValidationStage1 => Some("canary10"),
            CanaryCampaignStatus::ValidationStage2 => Some("canary25"),
            CanaryCampaignStatus::ValidationStage3 => Some("canary50"),
            _ => None,
        }
    }
}

/// The state after a number of stages that were passed, where there is one.
pub open spec fn advanced(from: CanaryCampaignStatus, steps: nat) -> Option<CanaryCampaignStatus>
    decreases steps,
{
    if steps == 0 {
        Some(from)
    } else {
        match advanced(from, (steps - 1) as nat) {
            Some(state) => state.following(),
            None => None,
        }
    }
}

/// A staged campaign passes through every stage, in order, and then is complete; no state
/// follows a complete or a frozen campaign.
pub proof fn campaign_passes_every_stage()
    ensures
        advanced(CanaryCampaignStatus::Staged, 1) == Some(CanaryCampaignStatus::ValidationStage1),
        advanced(CanaryCampaignStatus::Staged, 2) == Some(CanaryCampaignStatus::ValidationStage2),
        advanced(CanaryCampaignStatus::Staged, 3) == Some(CanaryCampaignStatus::ValidationStage3),
        advanced(CanaryCampaignStatus::Staged, 4) == Some(CanaryCampaignStatus::ActiveValidation),
        advanced(CanaryCampaignStatus::Staged, 5) == Some(CanaryCampaignStatus::Completed),
        forall|state: CanaryCampaignStatus|
            (#[trigger] state.following()) is None <==> state is Completed || state is Frozen,
{
    reveal_with_fuel(advanced, 6);
}

/// The rollout never shrinks while stages are passed: only the last step keeps it.
pub proof fn rollout_grows_with_the_stages(state: CanaryCampaignStatus)
    requires
        state.is_stage(),
    ensures
        state.following() is Some,
        state.rollout() is Some,
        state.following()->0.rollout() is Some,
        state is ActiveValidation <==> state.rollout() == state.following()->0.rollout(),
{
}

/// When a candidate is promoted.
#[derive(Debug, Clone, PartialEq, Eq)]
pub struct CanaryPromotionPolicy {
    pub minimum_evidence_completeness_ppm: u32,
    pub minimum_risk_recall_ppm: u32,
    pub minimum_process_quality_ppm: u32,
    pub required_paired_sessions_per_horizon: [u64; 3],
    pub minimum_distinct_market_days: u64,
    pub required_regimes: OrderedSet<String>,
    pub minimum_cost_adjusted_utility_delta_ppm: i64,
    pub maximum_drawdown_delta_ppm: u32,
    pub maximum_tail_loss_delta_ppm: u32,
    pub minimum_confidence_ppm: u32,
    pub search_bias_acceptance: Option<SearchBiasAcceptancePolicy>,
}

impl ToJson for CanaryPromotionPolicy {
    open spec fn json(&self) -> JsonTree {
        let m = no_members();
        let m = m.insert(
            "minimum_evidence_completeness_ppm"@,
            self.minimum_evidence_completeness_ppm.json(),
        );
        let m = m.insert("minimum_risk_recall_ppm"@, self.minimum_risk_recall_ppm.json());
        let m = m.insert("minimum_process_quality_ppm"@, self.minimum_process_quality_ppm.json());
        let m = m.insert(
            "required_paired_sessions_per_horizon"@,
            self.required_paired_sessions_per_horizon.json(),
        );
        let m = m.insert("minimum_distinct_market_days"@, self.minimum_distinct_market_days.json());
        let m = m.insert("required_regimes"@, self.required_regimes.json());
        let m = m.insert(
            "minimum_cost_adjusted_utility_delta_ppm"@,
            self.minimum_cost_adjusted_utility_delta_ppm.json(),
        );
        let m = m.insert("maximum_drawdown_delta_ppm"@, self.maximum_drawdown_delta_ppm.json());
        let m = m.insert("maximum_tail_loss_delta_ppm"@, self.maximum_tail_loss_delta_ppm.json());
        let m = m.insert("minimum_confidence_ppm"@, self.minimum_confidence_ppm.json());
        let m = if self.search_bias_acceptance is Some {
            m.insert("search_bias_acceptance"@, self.search_bias_acceptance.json())
        } else {
            m
        };
        JsonTree::Object(m)
    }

    fn to_json(&self) -> (r: serde_json::Value) {
        let mut members = json_new_object();
        json_insert(
            &mut members,
            "minimum_evidence_completeness_ppm",
            self.minimum_evidence_completeness_ppm.to_json(),
        );
        json_insert(
            &mut members,
            "minimum_risk_recall_ppm",
            self.minimum_risk_recall_ppm.to_json(),
        );
        json_insert(
            &mut members,
            "minimum_process_quality_ppm",
            self.minimum_process_quality_ppm.to_json(),
        );
        json_insert(
            &mut members,
            "required_paired_sessions_per_horizon",
            self.required_paired_sessions_per_horizon.to_json(),
        );
        json_insert(
            &mut members,
            "minimum_distinct_market_days",
            self.minimum_distinct_market_days.to_json(),
        );
        json_insert(&mut members, "required_regimes", self.required_regimes.to_json());
        json_insert(
            &mut members,
            "minimum_cost_adjusted_utility_delta_ppm",
            self.minimum_cost_adjusted_utility_delta_ppm.to_json(),
        );
        json_insert(
            &mut members,
            "maximum_drawdown_delta_ppm",
            self.maximum_drawdown_delta_ppm.to_json(),
        );
        json_insert(
            &mut members,
            "maximum_tail_loss_delta_ppm",
            self.maximum_tail_loss_delta_ppm.to_json(),
        );
        json_insert(&mut members, "minimum_confidence_ppm", self.minimum_confidence_ppm.to_json());
        if self.search_bias_acceptance.is_some() {
            json_insert(&mut members, "search_bias_acceptance", self.search_bias_acceptance.to_json());
        }
        json_object(members)
    }
}

impl CanaryPromotionPolicy {
    pub open spec fn is_bounded(&self) -> bool {
        &&& self.minimum_evidence_completeness_ppm <= 1_000_000
        &&& self.minimum_risk_recall_ppm <= 1_000_000
        &&& self.minimum_process_quality_ppm <= 1_000_000
        &&& self.maximum_drawdown_delta_ppm <= 1_000_000
        &&& self.maximum_tail_loss_delta_ppm <= 1_000_000
        &&& self.minimum_confidence_ppm <= 1_000_000
        &&& self.minimum_cost_adjusted_utility_delta_ppm >= 0
        &&& forall|i: int|
            0 <= i < 3 ==> #[trigger] self.required_paired_sessions_per_horizon@[i] > 0
        &&& self.minimum_distinct_market_days > 0
        &&& self.required_regimes@.len() > 0
        &&& !holds_blank(self.required_regimes@)
    }

    pub open spec fn verdict(&self) -> Verdict {
        first(
            demand(self.is_bounded(), budget("canary.promotion_policy"@)),
            match self.search_bias_acceptance {
                Some(acceptance) => acceptance.verdict(),
                None => Ok(()),
            },
        )
    }

    fn needs_a_session_per_horizon(&self) -> (r: bool)
        ensures
            r == forall|i: int|
                0 <= i < 3 ==> #[trigger] self.required_paired_sessions_per_horizon@[i] > 0,
    {
        let required = &self.required_paired_sessions_per_horizon;
        let r = required[0] > 0 && required[1] > 0 && required[2] > 0;
        proof {
            if r {
                assert forall|i: int| 0 <= i < 3 implies #[trigger] required@[i] > 0 by {
                    assert(i == 0 || i == 1 || i == 2);
                }
            }
        }
        r
    }

    pub fn validate(&self) -> (r: Result<(), DomainError>)
        ensures
            outcome(r) == self.verdict(),
    {
        if self.minimum_evidence_completeness_ppm > 1_000_000 || self.minimum_risk_recall_ppm
            > 1_000_000 || self.minimum_process_quality_ppm > 1_000_000
            || self.maximum_drawdown_delta_ppm > 1_000_000 || self.maximum_tail_loss_delta_ppm
            > 1_000_000 || self.minimum_confidence_ppm > 1_000_000
            || self.minimum_cost_adjusted_utility_delta_ppm < 0
            || !self.needs_a_session_per_horizon() || self.minimum_distinct_market_days == 0
            || self.required_regimes.is_empty() || set_has_blank(&self.required_regimes) {
            return Err(invalid_budget("canary.promotion_policy"));
        }
        if let Some(acceptance) = &self.search_bias_acceptance {
            acceptance.validate()?;
        }
        Ok(())
    }

    pub fn identity_hash(&self) -> (r: ContentHash)
        ensures
            r@ == json_digest(self.json()),
    {
        digest_of(&self.to_json())
    }
}

/// What is observed in one stage. Without a certificate of the search it may be observed, but
/// nothing may be promoted.
#[derive(Debug, Clone, PartialEq, Eq)]
pub struct CanaryCohortManifest {
    pub schema_version: u32,
    pub cohort_id: ContentHash,
    pub campaign_id: ContentHash,
    pub parent_contract_hash: ContentHash,
    pub candidate_contract_hash: ContentHash,
    pub parent_topology_id: TopologyId,
    pub candidate_topology_id: TopologyId,
    pub validation_stage: CanaryCampaignStatus,
    pub observation_start: CalendarDay,
    pub observation_end: CalendarDay,
    pub asset_universe: OrderedSet<Asset>,
    pub cost_model: OutcomeCostModel,
    pub market_calendar_id: ContentHash,
    pub market_regimes: OrderedMap<CalendarDay, String>,
    pub generation_dataset_id: ContentHash,
    pub promotion_dataset_id: ContentHash,
    pub promotion_policy_hash: ContentHash,
    pub search_bias_certificate: Option<ArtifactRef>,
    pub promotion_integrity: Option<PromotionIntegrityEvidence>,
    pub capability_retention: Option<CapabilityRetentionMatrix>,
}

impl CanaryCohortManifest {
    /// What the identity is the digest of.
    pub open spec fn identity_json(&self) -> JsonTree {
        let m = no_members();
        let m = m.insert("schema_version"@, self.schema_version.json());
        let m = m.insert("campaign_id"@, self.campaign_id.json());
        let m = m.insert("parent_contract_hash"@, self.parent_contract_hash.json());
        let m = m.insert("candidate_contract_hash"@, self.candidate_contract_hash.json());
        let m = m.insert("parent_topology_id"@, self.parent_topology_id.json());
        let m = m.insert("candidate_topology_id"@, self.candidate_topology_id.json());
        let m = m.insert("validation_stage"@, self.validation_stage.json());
        let m = m.insert("observation_start"@, self.observation_start.json());
        let m = m.insert("observation_end"@, self.observation_end.json());
        let m = m.insert("asset_universe"@, self.asset_universe.json());
        let m = m.insert("cost_model"@, self.cost_model.json());
        let m = m.insert("market_calendar_id"@, self.market_calendar_id.json());
        let m = m.insert("market_regimes"@, self.market_regimes.json());
        let m = m.insert("generation_dataset_id"@, self.generation_dataset_id.json());
        let m = m.insert("promotion_dataset_id"@, self.promotion_dataset_id.json());
        let m = m.insert("promotion_policy_hash"@, self.promotion_policy_hash.json());
        let m = m.insert("search_bias_certificate"@, self.search_bias_certificate.json());
        let m = m.insert("promotion_integrity"@, self.promotion_integrity.json());
        let m = m.insert("capability_retention"@, self.capability_retention.json());
        JsonTree::Object(m)
    }

    pub open spec fn identity(&self) -> Seq<char> {
        json_digest(self.identity_json())
    }

    fn identity_value(&self) -> (r: serde_json::Value)
        ensures
            json_content(r) == self.identity_json(),
    {
        let mut members = json_new_object();
        json_insert(&mut members, "schema_version", self.schema_version.to_json());
        json_insert(&mut members, "campaign_id", self.campaign_id.to_json());
        json_insert(&mut members, "parent_contract_hash", self.parent_contract_hash.to_json());
        json_insert(
            &mut members,
            "candidate_contract_hash",
            self.candidate_contract_hash.to_json(),
        );
        json_insert(&mut members, "parent_topology_id", self.parent_topology_id.to_json());
        json_insert(&mut members, "candidate_topology_id", self.candidate_topology_id.to_json());
        json_insert(&mut members, "validation_stage", self.validation_stage.to_json());
        json_insert(&mut members, "observation_start", self.observation_start.to_json());
        json_insert(&mut members, "observation_end", self.observation_end.to_json());
        json_insert(&mut members, "asset_universe", self.asset_universe.to_json());
        json_insert(&mut members, "cost_model", self.cost_model.to_json());
        json_insert(&mut members, "market_calendar_id", self.market_calendar_id.to_json());
        json_insert(&mut members, "market_regimes", self.market_regimes.to_json());
        json_insert(&mut members, "generation_dataset_id", self.generation_dataset_id.to_json());
        json_insert(&mut members, "promotion_dataset_id", self.promotion_dataset_id.to_json());
        json_insert(&mut members, "promotion_policy_hash", self.promotion_policy_hash.to_json());
        json_insert(
            &mut members,
            "search_bias_certificate",
            self.search_bias_certificate.to_json(),
        );
        json_insert(&mut members, "promotion_integrity", self.promotion_integrity.to_json());
        json_insert(&mut members, "capability_retention", self.capability_retention.to_json());
        json_object(members)
    }
}

impl CanaryCohortManifest {
    /// The manifest under its own identity.
    pub fn seal(self) -> (r: CanaryCohortManifest)
        ensures
            r == (CanaryCohortManifest { cohort_id: r.cohort_id, ..self }),
            r.cohort_id@ == self.identity(),
            r.cohort_id@ == r.identity(),
    {
        let id = self.identity_hash();
        let r = CanaryCohortManifest { cohort_id: id, ..self };
        proof {
            assert(r.identity_json() == self.identity_json());
        }
        r
    }

    pub fn identity_hash(&self) -> (r: ContentHash)
        ensures
            r@ == self.identity(),
            is_digest(r@),
    {
        digest_of(&self.identity_value())
    }

    /// A day of the observation, with a regime that has a name.
    pub open spec fn day_fits(&self, i: int) -> bool {
        &&& self.observation_start.day() <= self.market_regimes.keys()[i].day()
        &&& self.market_regimes.keys()[i].day() <= self.observation_end.day()
        &&& !blank(self.market_regimes.values()[i]@)
    }

    pub open spec fn days_fit(&self) -> bool {
        forall|i: int| 0 <= i < self.market_regimes.keys().len() ==> #[trigger] self.day_fits(i)
    }

    pub open spec fn is_sound(&self) -> bool {
        &&& self.schema_version == DOMAIN_SCHEMA_VERSION
        &&& self.cohort_id@ == self.identity()
        &&& self.validation_stage.is_stage()
        &&& !blank(self.parent_topology_id@)
        &&& !blank(self.candidate_topology_id@)
        &&& self.observation_start.day() <= self.observation_end.day()
        &&& self.asset_universe@.len() > 0
        &&& self.market_regimes.keys().len() > 0
        &&& self.days_fit()
        &&& self.generation_dataset_id@ != self.promotion_dataset_id@
        &&& self.search_bias_certificate matches Some(reference)
            ==> reference.kind is SearchBiasCertificate
    }

    pub open spec fn verdict(&self) -> Verdict {
        if !self.is_sound() {
            Err(budget("canary.cohort_manifest"@))
        } else {
            first(
                self.cost_model.verdict(),
                match self.capability_retention {
                    Some(retention) => retention.verdict(),
                    None => Ok(()),
                },
            )
        }
    }

    fn has_fitting_days(&self) -> (r: bool)
        ensures
            r == self.days_fit(),
    {
        let n: usize = self.market_regimes.len();
        let mut i: usize = 0;
        while i < n
            invariant
                i <= n,
                n == self.market_regimes.keys().len(),
                forall|j: int| 0 <= j < i ==> #[trigger] self.day_fits(j),
            decreases n - i,
        {
            let day = self.market_regimes.key_at(i);
            let fits = !day.is_before(&self.observation_start) && !self.observation_end.is_before(
                day,
            ) && !is_blank(self.market_regimes.value_at(i));
            proof {
                assert(fits == self.day_fits(i as int));
            }
            if !fits {
                return false;
            }
            i += 1;
        }
        true
    }

    pub fn validate(&self) -> (r: Result<(), DomainError>)
        ensures
            outcome(r) == self.verdict(),
    {
        let foreign = match &self.search_bias_certificate {
            Some(reference) => reference.kind != ArtifactKind::SearchBiasCertificate,
            None => false,
        };
        if self.schema_version != DOMAIN_SCHEMA_VERSION || !self.cohort_id.same(
            &self.identity_hash(),
        ) || !self.validation_stage.is_level() || is_blank(&self.parent_topology_id.0) || is_blank(
            &self.candidate_topology_id.0,
        ) || self.observation_end.is_before(&self.observation_start)
            || self.asset_universe.is_empty() || self.market_regimes.is_empty()
            || !self.has_fitting_days() || self.generation_dataset_id.same(
            &self.promotion_dataset_id,
        ) || foreign {
            return Err(invalid_budget("canary.cohort_manifest"));
        }
        self.cost_model.validate()?;
        if let Some(retention) = &self.capability_retention {
            retention.validate()?;
        }
        Ok(())
    }

    /// The regime of a day of the observation.
    pub fn regime_for(&self, market_day: CalendarDay) -> (r: Option<&str>)
        ensures
            match r {
                Some(regime) => self.market_regimes@.dom().contains(market_day) && regime@
                    == self.market_regimes@[market_day]@,
                None => !self.market_regimes@.dom().contains(market_day),
            },
    {
        match self.market_regimes.get(&market_day) {
            Some(regime) => Some(regime.as_str()),
            None => None,
        }
    }

    /// A regime that some day of the observation has.
    pub open spec fn has_regime(&self, regime: Seq<char>) -> bool {
        exists|i: int|
            0 <= i < self.market_regimes.keys().len() && (
            #[trigger] self.market_regimes.values()[i])@ == regime
    }

    fn regimes(&self) -> (r: OrderedSet<String>)
        ensures
            forall|regime: Seq<char>| #[trigger] r@.contains(regime) <==> self.has_regime(regime),
    {
        let mut r: OrderedSet<String> = OrderedSet::new();
        let n: usize = self.market_regimes.len();
        let mut i: usize = 0;
        while i < n
            invariant
                i <= n,
                n == self.market_regimes.keys().len(),
                forall|regime: Seq<char>| #[trigger]
                    r@.contains(regime) <==> exists|j: int|
                        0 <= j < i && (#[trigger] self.market_regimes.values()[j])@ == regime,
            decreases n - i,
        {
            r.insert(self.market_regimes.value_at(i).clone());
            i += 1;
        }
        r
    }
}

/// What one side of a pair measured over a horizon. A recall that was not measured is absent,
/// and never taken for a recall of zero.
#[derive(Clone, Copy, Debug, PartialEq, Eq)]
pub struct CanaryPairedOutcomeMetrics {
    pub observed_trading_day: CalendarDay,
    pub evidence_completeness_ppm: Option<u32>,
    pub risk_recall_ppm: Option<u32>,
    pub process_quality_ppm: Option<u32>,
    pub cost_adjusted_utility_ppm: i64,
    pub drawdown_ppm: Option<u32>,
    pub tail_loss_ppm: Option<u32>,
    pub confidence_ppm: u32,
    pub forecast_score: Option<ForecastScore>,
}

impl ToJson for CanaryPairedOutcomeMetrics {
    open spec fn json(&self) -> JsonTree {
        let m = no_members();
        let m = m.insert("observed_trading_day"@, self.observed_trading_day.json());
        let m = m.insert("evidence_completeness_ppm"@, self.evidence_completeness_ppm.json());
        let m = m.insert("risk_recall_ppm"@, self.risk_recall_ppm.json());
        let m = if self.process_quality_ppm is Some {
            m.insert("process_quality_ppm"@, self.process_quality_ppm.json())
        } else {
            m
        };
        let m = m.insert("cost_adjusted_utility_ppm"@, self.cost_adjusted_utility_ppm.json());
        let m = m.insert("drawdown_ppm"@, self.drawdown_ppm.json());
        let m = m.insert("tail_loss_ppm"@, self.tail_loss_ppm.json());
        let m = m.insert("confidence_ppm"@, self.confidence_ppm.json());
        let m = if self.forecast_score is Some {
            m.insert("forecast_score"@, self.forecast_score.json())
        } else {
            m
        };
        JsonTree::Object(m)
    }

    fn to_json(&self) -> (r: serde_json::Value) {
        let mut members = json_new_object();
        json_insert(&mut members, "observed_trading_day", self.observed_trading_day.to_json());
        json_insert(
            &mut members,
            "evidence_completeness_ppm",
            self.evidence_completeness_ppm.to_json(),
        );
        json_insert(&mut members, "risk_recall_ppm", self.risk_recall_ppm.to_json());
        if self.process_quality_ppm.is_some() {
            json_insert(&mut members, "process_quality_ppm", self.process_quality_ppm.to_json());
        }
        json_insert(
            &mut members,
            "cost_adjusted_utility_ppm",
            self.cost_adjusted_utility_ppm.to_json(),
        );
        json_insert(&mut members, "drawdown_ppm", self.drawdown_ppm.to_json());
        json_insert(&mut members, "tail_loss_ppm", self.tail_loss_ppm.to_json());
        json_insert(&mut members, "confidence_ppm", self.confidence_ppm.to_json());
        if self.forecast_score.is_some() {
            json_insert(&mut members, "forecast_score", self.forecast_score.to_json());
        }
        json_object(members)
    }
}

fn share_is_valid(value: Option<u32>) -> (r: bool)
    ensures
        r == share_fits(value),
{
    match value {
        Some(ppm) => ppm <= 1_000_000,
        None => true,
    }
}

impl CanaryPairedOutcomeMetrics {
    /// What a window shows of a side.
    pub open spec fn shown_by(window: OutcomeWindow) -> CanaryPairedOutcomeMetrics {
        CanaryPairedOutcomeMetrics {
            observed_trading_day: window.observed_trading_day,
            evidence_completeness_ppm: window.evidence_completeness_ppm,
            risk_recall_ppm: window.risk_recall_ppm,
            process_quality_ppm: None,
            cost_adjusted_utility_ppm: window.utility_ppm,
            drawdown_ppm: window.maximum_drawdown_ppm,
            tail_loss_ppm: window.expected_shortfall_ppm,
            confidence_ppm: match window.calibration_ppm {
                Some(ppm) => ppm,
                None => 0,
            },
            forecast_score: window.forecast_score,
        }
    }

    pub fn from_outcome_window(window: &OutcomeWindow) -> (r: Self)
        ensures
            r == Self::shown_by(*window),
    {
        CanaryPairedOutcomeMetrics {
            observed_trading_day: window.observed_trading_day,
            evidence_completeness_ppm: window.evidence_completeness_ppm,
            risk_recall_ppm: window.risk_recall_ppm,
            process_quality_ppm: None,
            cost_adjusted_utility_ppm: window.utility_ppm,
            drawdown_ppm: window.maximum_drawdown_ppm,
            tail_loss_ppm: window.expected_shortfall_ppm,
            confidence_ppm: match window.calibration_ppm {
                Some(ppm) => ppm,
                None => 0,
            },
            forecast_score: window.forecast_score,
        }
    }

    pub fn risk_recall_is_measured(&self) -> (r: bool)
        ensures
            r == (self.risk_recall_ppm is Some),
    {
        self.risk_recall_ppm.is_some()
    }

    pub open spec fn shares_fit(&self) -> bool {
        &&& share_fits(self.evidence_completeness_ppm)
        &&& share_fits(self.risk_recall_ppm)
        &&& share_fits(self.process_quality_ppm)
        &&& share_fits(self.drawdown_ppm)
        &&& share_fits(self.tail_loss_ppm)
        &&& self.confidence_ppm <= 1_000_000
    }

    pub open spec fn verdict(&self) -> Verdict {
        first(
            demand(self.shares_fit(), budget("canary.paired_outcome_metrics"@)),
            match self.forecast_score {
                Some(score) => score.verdict(),
                None => Ok(()),
            },
        )
    }

    pub fn validate(&self) -> (r: Result<(), DomainError>)
        ensures
            outcome(r) == self.verdict(),
    {
        if !share_is_valid(self.evidence_completeness_ppm) || !share_is_valid(self.risk_recall_ppm)
            || !share_is_valid(self.process_quality_ppm) || !share_is_valid(self.drawdown_ppm)
            || !share_is_valid(self.tail_loss_ppm) || self.confidence_ppm > 1_000_000 {
            return Err(invalid_budget("canary.paired_outcome_metrics"));
        }
        if let Some(score) = &self.forecast_score {
            score.validate()?;
        }
        Ok(())
    }
}

/// What the one in force and the candidate measured on one day.
#[derive(Clone, Copy, Debug, PartialEq, Eq)]
pub struct CanaryPairedSubjectMetrics {
    pub parent: CanaryPairedOutcomeMetrics,
    pub candidate: CanaryPairedOutcomeMetrics,
}

impl ToJson for CanaryPairedSubjectMetrics {
    open spec fn json(&self) -> JsonTree {
        let m = no_members();
        let m = m.insert("parent"@, self.parent.json());
        let m = m.insert("candidate"@, self.candidate.json());
        JsonTree::Object(m)
    }

    fn to_json(&self) -> (r: serde_json::Value) {
        let mut members = json_new_object();
        json_insert(&mut members, "parent", self.parent.to_json());
        json_insert(&mut members, "candidate", self.candidate.to_json());
        json_object(members)
    }
}

impl CanaryPairedSubjectMetrics {
    /// Both sides measured how many risks they recalled.
    pub open spec fn recalls_risk(&self) -> bool {
        self.parent.risk_recall_ppm is Some && self.candidate.risk_recall_ppm is Some
    }

    /// Whether both sides measured their recall. A pair without it neither promotes nor
    /// rolls back.
    pub fn risk_recall_is_measured(&self) -> (r: bool)
        ensures
            r == self.recalls_risk(),
    {
        self.parent.risk_recall_is_measured() && self.candidate.risk_recall_is_measured()
    }

    pub open spec fn verdict(&self) -> Verdict {
        first(
            self.parent.verdict(),
            first(
                self.candidate.verdict(),
                demand(
                    self.parent.observed_trading_day == self.candidate.observed_trading_day,
                    budget("canary.paired_observation_window"@),
                ),
            ),
        )
    }

    pub fn validate(&self) -> (r: Result<(), DomainError>)
        ensures
            outcome(r) == self.verdict(),
    {
        self.parent.validate()?;
        self.candidate.validate()?;
        if self.parent.observed_trading_day != self.candidate.observed_trading_day {
            return Err(invalid_budget("canary.paired_observation_window"));
        }
        Ok(())
    }
}

/// An observation of a session: the contract, the topology and both together.
#[derive(Debug, Clone, PartialEq, Eq)]
pub struct CanaryPairedObservation {
    pub schema_version: u32,
    pub cohort_id: ContentHash,
    pub session_key: String,
    pub market_day: CalendarDay,
    pub regime: String,
    pub horizon: OutcomeHorizon,
    pub asset_universe: OrderedSet<Asset>,
    pub cost_model: OutcomeCostModel,
    pub market_calendar_id: ContentHash,
    pub generation_dataset_id: ContentHash,
    pub promotion_dataset_id: ContentHash,
    pub contract: CanaryPairedSubjectMetrics,
    pub topology: CanaryPairedSubjectMetrics,
    pub bundle: CanaryPairedSubjectMetrics,
}

impl ToJson for CanaryPairedObservation {
    open spec fn json(&self) -> JsonTree {
        let m = no_members();
        let m = m.insert("schema_version"@, self.schema_version.json());
        let m = m.insert("cohort_id"@, self.cohort_id.json());
        let m = m.insert("session_key"@, self.session_key.json());
        let m = m.insert("market_day"@, self.market_day.json());
        let m = m.insert("regime"@, self.regime.json());
        let m = m.insert("horizon"@, self.horizon.json());
        let m = m.insert("asset_universe"@, self.asset_universe.json());
        let m = m.insert("cost_model"@, self.cost_model.json());
        let m = m.insert("market_calendar_id"@, self.market_calendar_id.json());
        let m = m.insert("generation_dataset_id"@, self.generation_dataset_id.json());
        let m = m.insert("promotion_dataset_id"@, self.promotion_dataset_id.json());
        let m = m.insert("contract"@, self.contract.json());
        let m = m.insert("topology"@, self.topology.json());
        let m = m.insert("bundle"@, self.bundle.json());
        JsonTree::Object(m)
    }

    fn to_json(&self) -> (r: serde_json::Value) {
        let mut members = json_new_object();
        json_insert(&mut members, "schema_version", self.schema_version.to_json());
        json_insert(&mut members, "cohort_id", self.cohort_id.to_json());
        json_insert(&mut members, "session_key", self.session_key.to_json());
        json_insert(&mut members, "market_day", self.market_day.to_json());
        json_insert(&mut members, "regime", self.regime.to_json());
        json_insert(&mut members, "horizon", self.horizon.to_json());
        json_insert(&mut members, "asset_universe", self.asset_universe.to_json());
        json_insert(&mut members, "cost_model", self.cost_model.to_json());
        json_insert(&mut members, "market_calendar_id", self.market_calendar_id.to_json());
        json_insert(&mut members, "generation_dataset_id", self.generation_dataset_id.to_json());
        json_insert(&mut members, "promotion_dataset_id", self.promotion_dataset_id.to_json());
        json_insert(&mut members, "contract", self.contract.to_json());
        json_insert(&mut members, "topology", self.topology.to_json());
        json_insert(&mut members, "bundle", self.bundle.to_json());
        json_object(members)
    }
}

impl CanaryPairedObservation {
    pub open spec fn verdict(&self) -> Verdict {
        if self.schema_version != DOMAIN_SCHEMA_VERSION || self.session_key@ != day_text(
            self.market_day.day(),
        ) || blank(self.regime@) || self.asset_universe@.len() == 0 || self.generation_dataset_id@
            == self.promotion_dataset_id@ {
            Err(budget("canary.paired_observation"@))
        } else {
            first(
                self.cost_model.verdict(),
                first(
                    self.contract.verdict(),
                    first(self.topology.verdict(), self.bundle.verdict()),
                ),
            )
        }
    }

    pub fn validate(&self) -> (r: Result<(), DomainError>)
        ensures
            outcome(r) == self.verdict(),
    {
        let day = self.market_day.text();
        if self.schema_version != DOMAIN_SCHEMA_VERSION || !same_text(&self.session_key, &day)
            || is_blank(&self.regime) || self.asset_universe.is_empty()
            || self.generation_dataset_id.same(&self.promotion_dataset_id) {
            return Err(invalid_budget("canary.paired_observation"));
        }
        self.cost_model.validate()?;
        self.contract.validate()?;
        self.topology.validate()?;
        self.bundle.validate()
    }

    pub fn identity_hash(&self) -> (r: ContentHash)
        ensures
            r@ == json_digest(self.json()),
    {
        digest_of(&self.to_json())
    }
}

/// What was compared.
#[derive(Clone, Copy, Debug, PartialEq, Eq, PartialOrd, Ord, Hash, Structural)]
pub enum CanarySubjectKind {
    Contract,
    Topology,
    Bundle,
}

impl CanarySubjectKind {
    /// The name of the variant in JSON.
    pub open spec fn wire(self) -> Seq<char> {
        match self {
            CanarySubjectKind::Contract => "contract"@,
            CanarySubjectKind::Topology => "topology"@,
            CanarySubjectKind::Bundle => "bundle"@,
        }
    }

    /// The name of the variant in JSON.
    pub fn wire_name(self) -> (r: &'static str)
        ensures
            r@ == self.wire(),
    {
        match self {
            CanarySubjectKind::Contract => "contract",
            CanarySubjectKind::Topology => "topology",
            CanarySubjectKind::Bundle => "bundle",
        }
    }
}

impl ToJson for CanarySubjectKind {
    open spec fn json(&self) -> JsonTree {
        JsonTree::Text(self.wire())
    }

    fn to_json(&self) -> (r: serde_json::Value) {
        json_text(self.wire_name())
    }
}

/// How well the two sides were calibrated.
#[derive(Clone, Copy, Debug, PartialEq, Eq, Structural)]
pub struct CanaryCalibrationReport {
    pub subject: CanarySubjectKind,
    pub horizon: OutcomeHorizon,
    pub parent: Option<CalibrationReport>,
    pub candidate: Option<CalibrationReport>,
}

impl ToJson for CanaryCalibrationReport {
    open spec fn json(&self) -> JsonTree {
        let m = no_members();
        let m = m.insert("subject"@, self.subject.json());
        let m = m.insert("horizon"@, self.horizon.json());
        let m = m.insert("parent"@, self.parent.json());
        let m = m.insert("candidate"@, self.candidate.json());
        JsonTree::Object(m)
    }

    fn to_json(&self) -> (r: serde_json::Value) {
        let mut members = json_new_object();
        json_insert(&mut members, "subject", self.subject.to_json());
        json_insert(&mut members, "horizon", self.horizon.to_json());
        json_insert(&mut members, "parent", self.parent.to_json());
        json_insert(&mut members, "candidate", self.candidate.to_json());
        json_object(members)
    }
}

/// The verdict on a report that may be absent.
pub open spec fn report_verdict(report: Option<CalibrationReport>) -> Verdict {
    match report {
        Some(own) => own.verdict(),
        None => Ok(()),
    }
}

impl CanaryCalibrationReport {
    pub open spec fn verdict(&self) -> Verdict {
        first(report_verdict(self.parent), report_verdict(self.candidate))
    }

    pub fn validate(&self) -> (r: Result<(), DomainError>)
        ensures
            outcome(r) == self.verdict(),
    {
        if let Some(report) = &self.parent {
            report.validate()?;
        }
        if let Some(report) = &self.candidate {
            report.validate()?;
        }
        Ok(())
    }
}

impl Checked for CanaryCalibrationReport {
    open spec fn judged(&self) -> Verdict {
        self.verdict()
    }

    fn check(&self) -> (r: Result<(), DomainError>) {
        self.validate()
    }
}

/// What follows from a stage.
#[derive(Clone, Copy, Debug, PartialEq, Eq, PartialOrd, Ord, Hash, Structural)]
pub enum CanaryVerdict {
    Advance,
    Hold,
    Rollback,
    Defer,
}

impl CanaryVerdict {
    /// The name of the variant in JSON.
    pub open spec fn wire(self) -> Seq<char> {
        match self {
            CanaryVerdict::Advance => "advance"@,
            CanaryVerdict::Hold => "hold"@,
            CanaryVerdict::Rollback => "rollback"@,
            CanaryVerdict::Defer => "defer"@,
        }
    }

    /// The name of the variant in JSON.
    pub fn wire_name(self) -> (r: &'static str)
        ensures
            r@ == self.wire(),
    {
        match self {
            CanaryVerdict::Advance => "advance",
            CanaryVerdict::Hold => "hold",
            CanaryVerdict::Rollback => "rollback",
            CanaryVerdict::Defer => "defer",
        }
    }
}

impl ToJson for CanaryVerdict {
    open spec fn json(&self) -> JsonTree {
        JsonTree::Text(self.wire())
    }

    fn to_json(&self) -> (r: serde_json::Value) {
        json_text(self.wire_name())
    }
}

/// The evaluation of a stage.
#[derive(Debug, Clone, PartialEq, Eq)]
pub struct CanaryCohortEvaluation {
    pub schema_version: u32,
    pub evaluation_id: ContentHash,
    pub cohort_id: ContentHash,
    pub promotion_policy_hash: ContentHash,
    pub observation_set_hash: ContentHash,
    pub verdict: CanaryVerdict,
    pub paired_sessions_by_horizon: [u64; 3],
    pub distinct_market_days: u64,
    pub covered_regimes: OrderedSet<String>,
    pub calibration_reports: Vec<CanaryCalibrationReport>,
    pub search_bias_certificate: Option<ArtifactRef>,
    pub evaluated_at: UtcTime,
}

impl CanaryCohortEvaluation {
    /// What the identity is the digest of.
    pub open spec fn identity_json(&self) -> JsonTree {
        let m = no_members();
        let m = m.insert("schema_version"@, self.schema_version.json());
        let m = m.insert("cohort_id"@, self.cohort_id.json());
        let m = m.insert("promotion_policy_hash"@, self.promotion_policy_hash.json());
        let m = m.insert("observation_set_hash"@, self.observation_set_hash.json());
        let m = m.insert("verdict"@, self.verdict.json());
        let m = m.insert("paired_sessions_by_horizon"@, self.paired_sessions_by_horizon.json());
        let m = m.insert("distinct_market_days"@, self.distinct_market_days.json());
        let m = m.insert("covered_regimes"@, self.covered_regimes.json());
        let m = m.insert("calibration_reports"@, self.calibration_reports.json());
        let m = m.insert("search_bias_certificate"@, self.search_bias_certificate.json());
        JsonTree::Object(m)
    }

    pub open spec fn identity(&self) -> Seq<char> {
        json_digest(self.identity_json())
    }

    fn identity_value(&self) -> (r: serde_json::Value)
        ensures
            json_content(r) == self.identity_json(),
    {
        let mut members = json_new_object();
        json_insert(&mut members, "schema_version", self.schema_version.to_json());
        json_insert(&mut members, "cohort_id", self.cohort_id.to_json());
        json_insert(&mut members, "promotion_policy_hash", self.promotion_policy_hash.to_json());
        json_insert(&mut members, "observation_set_hash", self.observation_set_hash.to_json());
        json_insert(&mut members, "verdict", self.verdict.to_json());
        json_insert(
            &mut members,
            "paired_sessions_by_horizon",
            self.paired_sessions_by_horizon.to_json(),
        );
        json_insert(&mut members, "distinct_market_days", self.distinct_market_days.to_json());
        json_insert(&mut members, "covered_regimes", self.covered_regimes.to_json());
        json_insert(&mut members, "calibration_reports", self.calibration_reports.to_json());
        json_insert(
            &mut members,
            "search_bias_certificate",
            self.search_bias_certificate.to_json(),
        );
        json_object(members)
    }
}

impl CanaryCohortEvaluation {
    /// The evaluation under its own identity.
    pub fn seal(self) -> (r: CanaryCohortEvaluation)
        ensures
            r == (CanaryCohortEvaluation { evaluation_id: r.evaluation_id, ..self }),
            r.evaluation_id@ == self.identity(),
            r.evaluation_id@ == r.identity(),
    {
        let id = self.identity_hash();
        let r = CanaryCohortEvaluation { evaluation_id: id, ..self };
        proof {
            assert(r.identity_json() == self.identity_json());
        }
        r
    }

    pub fn identity_hash(&self) -> (r: ContentHash)
        ensures
            r@ == self.identity(),
            is_digest(r@),
    {
        digest_of(&self.identity_value())
    }

    pub open spec fn judgement(&self) -> Verdict {
        if self.schema_version != DOMAIN_SCHEMA_VERSION || self.evaluation_id@ != self.identity() {
            Err(budget("canary.cohort_evaluation"@))
        } else {
            first(
                list_verdict(self.calibration_reports@),
                demand(
                    self.search_bias_certificate matches Some(reference)
                        ==> reference.kind is SearchBiasCertificate,
                    budget("canary.cohort_evaluation.search_bias_certificate"@),
                ),
            )
        }
    }

    pub fn validate(&self) -> (r: Result<(), DomainError>)
        ensures
            outcome(r) == self.judgement(),
    {
        if self.schema_version != DOMAIN_SCHEMA_VERSION || !self.evaluation_id.same(
            &self.identity_hash(),
        ) {
            return Err(invalid_budget("canary.cohort_evaluation"));
        }
        check_all(&self.calibration_reports)?;
        let foreign = match &self.search_bias_certificate {
            Some(reference) => reference.kind != ArtifactKind::SearchBiasCertificate,
            None => false,
        };
        if foreign {
            return Err(invalid_budget("canary.cohort_evaluation.search_bias_certificate"));
        }
        Ok(())
    }
}

/// When an evaluation was made does not enter its identity.
pub proof fn evaluation_identity_ignores_its_time(
    a: CanaryCohortEvaluation,
    b: CanaryCohortEvaluation,
)
    requires
        b == (CanaryCohortEvaluation {
            evaluated_at: b.evaluated_at,
            evaluation_id: b.evaluation_id,
            ..a
        }),
    ensures
        a.identity() == b.identity(),
{
}

/// A campaign: what is tried, on whose approval and within which money.
#[derive(Debug, Clone, PartialEq, Eq)]
pub struct CanaryCampaignSpec {
    pub schema_version: u32,
    pub campaign_id: ContentHash,
    pub active_contract_hash: ContentHash,
    pub candidate_contract: ArtifactRef,
    pub active_topology_id: TopologyId,
    pub candidate_topology: ArtifactRef,
    pub runtime_manifest: ArtifactRef,
    pub paper_approval: ArtifactRef,
    pub source_revision: String,
    pub maximum_total_notional: MoneyMicros,
    pub behavior_bundle_hash: Option<ContentHash>,
    pub promotion_policy: Option<CanaryPromotionPolicy>,
    pub cohorts: Vec<CanaryCohortManifest>,
    pub created_at: UtcTime,
}

/// The first manifest of a stage.
pub open spec fn first_cohort(
    list: Seq<CanaryCohortManifest>,
    stage: CanaryCampaignStatus,
) -> Option<CanaryCohortManifest>
    decreases list.len(),
{
    if list.len() == 0 {
        None
    } else if list[0].validation_stage == stage {
        Some(list[0])
    } else {
        first_cohort(list.drop_first(), stage)
    }
}

/// The identities of the manifests.
pub open spec fn cohort_ids(list: Seq<CanaryCohortManifest>) -> Seq<Seq<char>> {
    list.map_values(|c: CanaryCohortManifest| c.cohort_id@)
}

fn cohorts_differ(list: &Vec<CanaryCohortManifest>) -> (r: bool)
    ensures
        r == cohort_ids(list@).no_duplicates(),
{
    let ghost ids = cohort_ids(list@);
    let mut i: usize = 0;
    while i < list.len()
        invariant
            i <= list.len(),
            ids == cohort_ids(list@),
            forall|k: int, l: int| 0 <= k < l < i ==> ids[k] != ids[l],
        decreases list.len() - i,
    {
        let mut j: usize = 0;
        while j < i
            invariant
                j <= i < list.len(),
                ids == cohort_ids(list@),
                forall|k: int| 0 <= k < j ==> ids[k] != ids[i as int],
            decreases i - j,
        {
            if list[j].cohort_id.same(&list[i].cohort_id) {
                proof {
                    assert(ids[j as int] == ids[i as int]);
                }
                return false;
            }
            j += 1;
        }
        i += 1;
    }
    true
}

impl CanaryCampaignSpec {
    /// Complete, and with money of at most a thousand dollars.
    pub open spec fn is_bounded(&self) -> bool {
        &&& self.schema_version == DOMAIN_SCHEMA_VERSION
        &&& !blank(self.source_revision@)
        &&& !blank(self.active_topology_id@)
        &&& 0 < self.maximum_total_notional.0 <= 1_000_000_000
    }

    pub open spec fn references_verdict(&self) -> Verdict {
        first(
            demand(
                self.candidate_contract.kind is Contract,
                empty("canary_campaign.candidate_contract"@),
            ),
            first(
                demand(
                    self.candidate_topology.kind is WorkflowGraph,
                    empty("canary_campaign.candidate_topology"@),
                ),
                first(
                    demand(
                        self.runtime_manifest.kind is RuntimeManifest,
                        empty("canary_campaign.runtime_manifest"@),
                    ),
                    demand(
                        self.paper_approval.kind is PaperLaunchApproval,
                        empty("canary_campaign.paper_approval"@),
                    ),
                ),
            ),
        )
    }

    /// A manifest belongs to the campaign and can give what the policy asks for.
    pub open spec fn cohort_serves(
        &self,
        cohort: CanaryCohortManifest,
        policy: CanaryPromotionPolicy,
    ) -> bool {
        let days = cohort.market_regimes.keys().len();
        &&& cohort.campaign_id@ == self.campaign_id@
        &&& cohort.parent_contract_hash@ == self.active_contract_hash@
        &&& cohort.parent_topology_id@ == self.active_topology_id@
        &&& cohort.promotion_policy_hash@ == json_digest(policy.json())
        &&& forall|regime: Seq<char>| #[trigger]
            policy.required_regimes@.contains(regime) ==> cohort.has_regime(regime)
        &&& policy.minimum_distinct_market_days <= days
        &&& forall|i: int|
            0 <= i < 3 ==> #[trigger] policy.required_paired_sessions_per_horizon@[i] <= days
    }

    pub open spec fn stage_verdict(
        &self,
        stage: CanaryCampaignStatus,
        policy: CanaryPromotionPolicy,
    ) -> Verdict {
        match first_cohort(self.cohorts@, stage) {
            None => Err(budget("canary_campaign.cohorts"@)),
            Some(cohort) => first(
                cohort.verdict(),
                demand(
                    self.cohort_serves(cohort, policy),
                    budget("canary_campaign.cohorts"@),
                ),
            ),
        }
    }

    /// Either nothing is promoted and nothing observed, or every stage has a manifest that
    /// serves the policy.
    pub open spec fn cohorts_verdict(&self) -> Verdict {
        match self.promotion_policy {
            None => demand(self.cohorts@.len() == 0, budget("canary_campaign.cohorts"@)),
            Some(policy) => if policy.verdict() is Err {
                policy.verdict()
            } else if self.cohorts@.len() != 4 || !cohort_ids(self.cohorts@).no_duplicates() {
                Err(budget("canary_campaign.cohorts"@))
            } else {
                first(
                    self.stage_verdict(CanaryCampaignStatus::ValidationStage1, policy),
                    first(
                        self.stage_verdict(CanaryCampaignStatus::ValidationStage2, policy),
                        first(
                            self.stage_verdict(CanaryCampaignStatus::ValidationStage3, policy),
                            self.stage_verdict(CanaryCampaignStatus::ActiveValidation, policy),
                        ),
                    ),
                )
            },
        }
    }

    pub open spec fn verdict(&self) -> Verdict {
        if !self.is_bounded() {
            Err(empty("canary_campaign.spec"@))
        } else {
            first(self.references_verdict(), self.cohorts_verdict())
        }
    }

    fn serves(&self, cohort: &CanaryCohortManifest, policy: &CanaryPromotionPolicy) -> (r: bool)
        ensures
            r == self.cohort_serves(*cohort, *policy),
    {
        let days: usize = cohort.market_regimes.len();
        let available = cohort.regimes();
        let required = &policy.required_paired_sessions_per_horizon;
        let covers = policy.required_regimes.is_subset(&available);
        let sessions = required[0] <= days as u64 && required[1] <= days as u64 && required[2]
            <= days as u64;
        proof {
            if covers {
                assert forall|regime: Seq<char>| #[trigger]
                    policy.required_regimes@.contains(regime) implies cohort.has_regime(regime) by {
                    assert(available@.contains(regime));
                }
            } else {
                let regime = choose|regime: Seq<char>|
                    policy.required_regimes@.contains(regime) && !available@.contains(regime);
                assert(!cohort.has_regime(regime));
            }
            if sessions {
                assert forall|i: int| 0 <= i < 3 implies #[trigger] required@[i] <= days by {
                    assert(i == 0 || i == 1 || i == 2);
                }
            }
        }
        cohort.campaign_id.same(&self.campaign_id) && cohort.parent_contract_hash.same(
            &self.active_contract_hash,
        ) && cohort.parent_topology_id.0 == self.active_topology_id.0
            && cohort.promotion_policy_hash.same(&policy.identity_hash()) && covers
            && policy.minimum_distinct_market_days <= days as u64 && sessions
    }

    fn validate_stage(
        &self,
        stage: CanaryCampaignStatus,
        policy: &CanaryPromotionPolicy,
    ) -> (r: Result<(), DomainError>)
        ensures
            outcome(r) == self.stage_verdict(stage, *policy),
    {
        match self.cohort(stage) {
            None => Err(invalid_budget("canary_campaign.cohorts")),
            Some(cohort) => {
                cohort.validate()?;
                if !self.serves(cohort, policy) {
                    return Err(invalid_budget("canary_campaign.cohorts"));
                }
                Ok(())
            },
        }
    }

    fn validate_cohorts(&self) -> (r: Result<(), DomainError>)
        ensures
            outcome(r) == self.cohorts_verdict(),
    {
        match &self.promotion_policy {
            None => {
                if self.cohorts.len() != 0 {
                    return Err(invalid_budget("canary_campaign.cohorts"));
                }
                Ok(())
            },
            Some(policy) => {
                policy.validate()?;
                if self.cohorts.len() != 4 {
                    return Err(invalid_budget("canary_campaign.cohorts"));
                }
                if !cohorts_differ(&self.cohorts) {
                    return Err(invalid_budget("canary_campaign.cohorts"));
                }
                self.validate_stage(CanaryCampaignStatus::ValidationStage1, policy)?;
                self.validate_stage(CanaryCampaignStatus::ValidationStage2, policy)?;
                self.validate_stage(CanaryCampaignStatus::ValidationStage3, policy)?;
                self.validate_stage(CanaryCampaignStatus::ActiveValidation, policy)
            },
        }
    }

    pub fn validate(&self) -> (r: Result<(), DomainError>)
        ensures
            outcome(r) == self.verdict(),
    {
        if self.schema_version != DOMAIN_SCHEMA_VERSION || is_blank(&self.source_revision)
            || is_blank(&self.active_topology_id.0) || self.maximum_total_notional.0 <= 0
            || self.maximum_total_notional.0 > MoneyMicros::from_usd_cents(100_000).0 {
            return Err(empty_field("canary_campaign.spec"));
        }
        if self.candidate_contract.kind != ArtifactKind::Contract {
            return Err(empty_field("canary_campaign.candidate_contract"));
        }
        if self.candidate_topology.kind != ArtifactKind::WorkflowGraph {
            return Err(empty_field("canary_campaign.candidate_topology"));
        }
        if self.runtime_manifest.kind != ArtifactKind::RuntimeManifest {
            return Err(empty_field("canary_campaign.runtime_manifest"));
        }
        if self.paper_approval.kind != ArtifactKind::PaperLaunchApproval {
            return Err(empty_field("canary_campaign.paper_approval"));
        }
        self.validate_cohorts()
    }

    /// The manifest of a stage.
    pub fn cohort(&self, stage: CanaryCampaignStatus) -> (r: Option<&CanaryCohortManifest>)
        ensures
            r == (match first_cohort(self.cohorts@, stage) {
                Some(cohort) => Some(&cohort),
                None => None,
            }),
    {
        let list = &self.cohorts;
        let mut i: usize = 0;
        proof {
            assert(list@.skip(0) =~= list@);
        }
        while i < list.len()
            invariant
                i <= list.len(),
                list == &self.cohorts,
                first_cohort(list@, stage) == first_cohort(list@.skip(i as int), stage),
            decreases list.len() - i,
        {
            proof {
                assert(list@.skip(i as int)[0] == list@[i as int]);
                assert(list@.skip(i as int).drop_first() =~= list@.skip(i + 1));
            }
            if list[i].validation_stage == stage {
                return Some(&list[i]);
            }
            i += 1;
        }
        None
    }

    /// The campaign promotes by what pairs of cohorts show.
    pub open spec fn is_paired(&self) -> bool {
        self.promotion_policy is Some && self.cohorts@.len() > 0
    }

    pub fn has_paired_cohorts(&self) -> (r: bool)
        ensures
            r == self.is_paired(),
    {
        self.promotion_policy.is_some() && self.cohorts.len() > 0
    }
}

/// A valid campaign that promotes has for every stage a valid manifest of its own.
pub proof fn valid_campaign_has_every_stage(campaign: CanaryCampaignSpec, stage: CanaryCampaignStatus)
    requires
        campaign.verdict() is Ok,
        campaign.promotion_policy is Some,
        stage.is_stage(),
    ensures
        first_cohort(campaign.cohorts@, stage) is Some,
        first_cohort(campaign.cohorts@, stage)->0.verdict() is Ok,
        first_cohort(campaign.cohorts@, stage)->0.campaign_id@ == campaign.campaign_id@,
{
}

/// A session in which a stage is observed, with the run in force and its three shadows.
#[derive(Debug, Clone, PartialEq, Eq)]
pub struct CanarySessionReservation {
    pub schema_version: u32,
    pub campaign_id: ContentHash,
    pub level: CanaryCampaignStatus,
    pub session_key: String,
    pub cohort_id: Option<ContentHash>,
    pub market_day: Option<CalendarDay>,
    pub regime: Option<String>,
    pub parent_run_id: RunId,
    pub contract_shadow_run_id: RunId,
    pub topology_shadow_run_id: RunId,
    pub bundle_shadow_run_id: RunId,
    pub scheduler_epoch: u64,
    pub reserved_at: UtcTime,
}

impl CanarySessionReservation {
    pub open spec fn is_complete(&self) -> bool {
        &&& self.schema_version == DOMAIN_SCHEMA_VERSION
        &&& self.level.is_stage()
        &&& !blank(self.session_key@)
        &&& self.scheduler_epoch > 0
        &&& !blank(self.parent_run_id@)
        &&& !blank(self.contract_shadow_run_id@)
        &&& !blank(self.topology_shadow_run_id@)
        &&& !blank(self.bundle_shadow_run_id@)
    }

    /// Either of no manifest, or of one on a day with a regime that names the session.
    pub open spec fn cohort_is_sound(&self) -> bool {
        match (self.cohort_id, self.market_day, self.regime) {
            (None, None, None) => true,
            (Some(_), Some(day), Some(regime)) => !blank(regime@) && self.session_key@ == day_text(
                day.day(),
            ),
            _ => false,
        }
    }

    /// The four runs are four.
    pub open spec fn runs_differ(&self) -> bool {
        &&& self.parent_run_id@ != self.contract_shadow_run_id@
        &&& self.parent_run_id@ != self.topology_shadow_run_id@
        &&& self.parent_run_id@ != self.bundle_shadow_run_id@
        &&& self.contract_shadow_run_id@ != self.topology_shadow_run_id@
        &&& self.contract_shadow_run_id@ != self.bundle_shadow_run_id@
        &&& self.topology_shadow_run_id@ != self.bundle_shadow_run_id@
    }

    pub open spec fn verdict(&self) -> Verdict {
        first(
            demand(self.is_complete(), empty("canary_campaign.session"@)),
            first(
                demand(self.cohort_is_sound(), empty("canary_campaign.session.cohort"@)),
                demand(self.runs_differ(), empty("canary_campaign.session.run_ids"@)),
            ),
        )
    }

    pub fn validate(&self) -> (r: Result<(), DomainError>)
        ensures
            outcome(r) == self.verdict(),
    {
        if self.schema_version != DOMAIN_SCHEMA_VERSION || !self.level.is_level() || is_blank(
            &self.session_key,
        ) || self.scheduler_epoch == 0 || is_blank(&self.parent_run_id.0) || is_blank(
            &self.contract_shadow_run_id.0,
        ) || is_blank(&self.topology_shadow_run_id.0) || is_blank(&self.bundle_shadow_run_id.0) {
            return Err(empty_field("canary_campaign.session"));
        }
        let sound = match (&self.cohort_id, &self.market_day, &self.regime) {
            (None, None, None) => true,
            (Some(_), Some(day), Some(regime)) => {
                let name = day.text();
                !is_blank(regime) && same_text(&self.session_key, &name)
            },
            _ => false,
        };
        if !sound {
            return Err(empty_field("canary_campaign.session.cohort"));
        }
        if self.parent_run_id.0 == self.contract_shadow_run_id.0 || self.parent_run_id.0
            == self.topology_shadow_run_id.0 || self.parent_run_id.0 == self.bundle_shadow_run_id.0
            || self.contract_shadow_run_id.0 == self.topology_shadow_run_id.0
            || self.contract_shadow_run_id.0 == self.bundle_shadow_run_id.0
            || self.topology_shadow_run_id.0 == self.bundle_shadow_run_id.0 {
            return Err(empty_field("canary_campaign.session.run_ids"));
        }
        Ok(())
    }
}

/// What a canary promotion policy is refused with: the first fault that it has.
pub proof fn refusal_of_canary_promotion_policy_names_its_fault(this: CanaryPromotionPolicy)
    ensures
        !(this.is_bounded()) ==> this.verdict() == Verdict::Err(budget("canary.promotion_policy"@)),
{
}

/// What a canary cohort manifest is refused with: the first fault that it has.
pub proof fn refusal_of_canary_cohort_manifest_names_its_fault(this: CanaryCohortManifest)
    ensures
        (!this.is_sound()) ==> this.verdict() == Verdict::Err(budget("canary.cohort_manifest"@)),
{
}

/// What a canary paired outcome metrics is refused with: the first fault that it has.
pub proof fn refusal_of_canary_paired_outcome_metrics_names_its_fault(
    this: CanaryPairedOutcomeMetrics,
)
    ensures
        !(this.shares_fit())
            ==> this.verdict() == Verdict::Err(budget("canary.paired_outcome_metrics"@)),
{
}

/// What a canary paired subject metrics is refused with: the first fault that it has.
pub proof fn refusal_of_canary_paired_subject_metrics_names_its_fault(
    this: CanaryPairedSubjectMetrics,
)
    ensures
        this.parent.verdict() is Ok && this.candidate.verdict() is Ok
            && !(this.parent.observed_trading_day == this.candidate.observed_trading_day)
            ==> this.verdict() == Verdict::Err(budget("canary.paired_observation_window"@)),
{
}

/// What a canary paired observation is refused with: the first fault that it has.
pub proof fn refusal_of_canary_paired_observation_names_its_fault(this: CanaryPairedObservation)
    ensures
        (this.schema_version != DOMAIN_SCHEMA_VERSION
            || this.session_key@ != day_text(this.market_day.day()) || blank(this.regime@)
            || this.asset_universe@.len() == 0
            || this.generation_dataset_id@ == this.promotion_dataset_id@)
            ==> this.verdict() == Verdict::Err(budget("canary.paired_observation"@)),
{
}

/// What a canary cohort evaluation is refused with: the first fault that it has.
pub proof fn judgement_of_canary_cohort_evaluation_names_its_fault(this: CanaryCohortEvaluation)
    ensures
        (this.schema_version != DOMAIN_SCHEMA_VERSION || this.evaluation_id@ != this.identity())
            ==> this.judgement() == Verdict::Err(budget("canary.cohort_evaluation"@)),
        !(this.schema_version != DOMAIN_SCHEMA_VERSION || this.evaluation_id@ != this.identity())
            && list_verdict(this.calibration_reports@) is Ok
            && !(this.search_bias_certificate matches Some(reference)
            ==> reference.kind is SearchBiasCertificate)
            ==> this.judgement() == Verdict::Err(
                budget("canary.cohort_evaluation.search_bias_certificate"@),
            ),
{
}

/// What a canary campaign spec is refused with: the first fault that it has.
pub proof fn references_verdict_of_canary_campaign_spec_names_its_fault(this: CanaryCampaignSpec)
    ensures
        !(this.candidate_contract.kind is Contract)
            ==> this.references_verdict() == Verdict::Err(
                empty("canary_campaign.candidate_contract"@),
            ),
        (this.candidate_contract.kind is Contract)
            && !(this.candidate_topology.kind is WorkflowGraph)
            ==> this.references_verdict() == Verdict::Err(
                empty("canary_campaign.candidate_topology"@),
            ),
        (this.candidate_contract.kind is Contract)
            && (this.candidate_topology.kind is WorkflowGraph)
            && !(this.runtime_manifest.kind is RuntimeManifest)
            ==> this.references_verdict() == Verdict::Err(
                empty("canary_campaign.runtime_manifest"@),
            ),
        (this.candidate_contract.kind is Contract)
            && (this.candidate_topology.kind is WorkflowGraph)
            && (this.runtime_manifest.kind is RuntimeManifest)
            && !(this.paper_approval.kind is PaperLaunchApproval)
            ==> this.references_verdict() == Verdict::Err(empty("canary_campaign.paper_approval"@)),
{
}

/// What a canary campaign spec is refused with: the first fault that it has.
pub proof fn refusal_of_canary_campaign_spec_names_its_fault(this: CanaryCampaignSpec)
    ensures
        (!this.is_bounded()) ==> this.verdict() == Verdict::Err(empty("canary_campaign.spec"@)),
{
}

/// What a canary session reservation is refused with: the first fault that it has.
pub proof fn refusal_of_canary_session_reservation_names_its_fault(this: CanarySessionReservation)
    ensures
        !(this.is_complete()) ==> this.verdict() == Verdict::Err(empty("canary_campaign.session"@)),
        (this.is_complete()) && !(this.cohort_is_sound())
            ==> this.verdict() == Verdict::Err(empty("canary_campaign.session.cohort"@)),
        (this.is_complete()) && (this.cohort_is_sound()) && !(this.runs_differ())
            ==> this.verdict() == Verdict::Err(empty("canary_campaign.session.run_ids"@)),
{
}

} // verus!
