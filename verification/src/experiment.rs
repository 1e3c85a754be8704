//! Experiments and the bias that searching among them brings. Controls against leaked
//! information and controls against searching too long are apart: neither replaces the other.
use crate::artifact::{
    refs_all_cite, refs_all_have_kind, refs_contain, refs_list, ArtifactKind, ArtifactRef,
};
use crate::error::{
    budget, demand, empty, empty_field, first, invalid_budget, outcome, DomainError, Verdict,
};
use crate::evaluation::policy::PolicySubject;
use crate::foundation::{digest_of, is_digest, json_digest, ContentHash};
use crate::json::{
    json_content, json_insert, json_new_object, json_object, json_text, no_members, JsonTree,
    ToJson,
};
use crate::lists::{all_of, first_fault, first_fault_stays};
use crate::ordered::{ascending, is_ascending, views, OrderedMap};
use crate::text::{blank, is_blank};
use crate::time::{earlier, CalendarDay, UtcTime};
use crate::DOMAIN_SCHEMA_VERSION;
use vstd::prelude::*;

verus! {

/// What a model could see in an experiment: everything, no names, no dates, neither, or only
/// what came after the end of its knowledge.
#[derive(Clone, Copy, Debug, PartialEq, Eq, PartialOrd, Ord, Hash, Structural)]
pub enum ExperimentCondition {
    Bright,
    IdentifierMasked,
    CalendarMasked,
    FullyMasked,
    PostCutoffForward,
}

impl ExperimentCondition {
    /// The name of the variant in JSON.
    pub open spec fn wire(self) -> Seq<char> {
        match self {
            ExperimentCondition::Bright => "bright"@,
            ExperimentCondition::IdentifierMasked => "identifier_masked"@,
            ExperimentCondition::CalendarMasked => "calendar_masked"@,
            ExperimentCondition::FullyMasked => "fully_masked"@,
            ExperimentCondition::PostCutoffForward => "post_cutoff_forward"@,
        }
    }

    /// The name of the variant in JSON.
    pub fn wire_name(self) -> (r: &'static str)
        ensures
            r@ == self.wire(),
    {
        match self {
            ExperimentCondition::Bright => "bright",
            ExperimentCondition::IdentifierMasked => "identifier_masked",
            ExperimentCondition::CalendarMasked => "calendar_masked",
            ExperimentCondition::FullyMasked => "fully_masked",
            ExperimentCondition::PostCutoffForward => "post_cutoff_forward",
        }
    }
}

impl ToJson for ExperimentCondition {
    open spec fn json(&self) -> JsonTree {
        JsonTree::Text(self.wire())
    }

    fn to_json(&self) -> (r: serde_json::Value) {
        json_text(self.wire_name())
    }
}

/// How an experiment ended.
#[derive(Clone, Copy, Debug, PartialEq, Eq, PartialOrd, Ord, Hash, Structural)]
pub enum ExperimentTrialStatus {
    Failed,
    Rejected,
    Evaluated,
    Selected,
    Invalidated,
}

impl ExperimentTrialStatus {
    /// The name of the variant in JSON.
    pub open spec fn wire(self) -> Seq<char> {
        match self {
            ExperimentTrialStatus::Failed => "failed"@,
            ExperimentTrialStatus::Rejected => "rejected"@,
            ExperimentTrialStatus::Evaluated => "evaluated"@,
            ExperimentTrialStatus::Selected => "selected"@,
            ExperimentTrialStatus::Invalidated => "invalidated"@,
        }
    }

    /// The name of the variant in JSON.
    pub fn wire_name(self) -> (r: &'static str)
        ensures
            r@ == self.wire(),
    {
        match self {
            ExperimentTrialStatus::Failed => "failed",
            ExperimentTrialStatus::Rejected => "rejected",
            ExperimentTrialStatus::Evaluated => "evaluated",
            ExperimentTrialStatus::Selected => "selected",
            ExperimentTrialStatus::Invalidated => "invalidated",
        }
    }
}

impl ToJson for ExperimentTrialStatus {
    open spec fn json(&self) -> JsonTree {
        JsonTree::Text(self.wire())
    }

    fn to_json(&self) -> (r: serde_json::Value) {
        json_text(self.wire_name())
    }
}

/// What an experiment measured, over slices that all candidates share.
#[derive(Debug, Clone, PartialEq, Eq)]
pub struct ExperimentTrialMetrics {
    pub slice_returns_ppm: Vec<i64>,
    pub mean_return_ppm: i64,
    pub sharpe_ratio_ppm: Option<i64>,
}

impl ToJson for ExperimentTrialMetrics {
    open spec fn json(&self) -> JsonTree {
        let m = no_members();
        let m = m.insert("slice_returns_ppm"@, self.slice_returns_ppm.json());
        let m = m.insert("mean_return_ppm"@, self.mean_return_ppm.json());
        let m = m.insert("sharpe_ratio_ppm"@, self.sharpe_ratio_ppm.json());
        JsonTree::Object(m)
    }

    fn to_json(&self) -> (r: serde_json::Value) {
        let mut members = json_new_object();
        json_insert(&mut members, "slice_returns_ppm", self.slice_returns_ppm.to_json());
        json_insert(&mut members, "mean_return_ppm", self.mean_return_ppm.to_json());
        json_insert(&mut members, "sharpe_ratio_ppm", self.sharpe_ratio_ppm.to_json());
        json_object(members)
    }
}

impl ExperimentTrialMetrics {
    pub open spec fn is_bounded(&self) -> bool {
        &&& 2 <= self.slice_returns_ppm@.len() <= 10_000
        &&& forall|i: int|
            0 <= i < self.slice_returns_ppm@.len() ==> -10_000_000
                <= #[trigger] self.slice_returns_ppm@[i] <= 10_000_000
        &&& -10_000_000 <= self.mean_return_ppm <= 10_000_000
        &&& self.sharpe_ratio_ppm matches Some(ratio) ==> -100_000_000 <= ratio <= 100_000_000
    }

    pub open spec fn verdict(&self) -> Verdict {
        demand(self.is_bounded(), budget("experiment_trial.metrics"@))
    }

    pub fn validate(&self) -> (r: Result<(), DomainError>)
        ensures
            outcome(r) == self.verdict(),
    {
        let fits = |value: &i64| -> (b: bool)
            ensures
                b == (-10_000_000 <= *value <= 10_000_000),
            { -10_000_000 <= *value && *value <= 10_000_000 };
        let sharpe_fits = match self.sharpe_ratio_ppm {
            Some(ratio) => -100_000_000 <= ratio && ratio <= 100_000_000,
            None => true,
        };
        if self.slice_returns_ppm.len() < 2 || self.slice_returns_ppm.len() > 10_000 || !all_of(
            self.slice_returns_ppm.as_slice(),
            fits,
        ) || self.mean_return_ppm < -10_000_000 || self.mean_return_ppm > 10_000_000
            || !sharpe_fits {
            return Err(invalid_budget("experiment_trial.metrics"));
        }
        Ok(())
    }
}

/// One experiment.
#[derive(Debug, Clone, PartialEq, Eq)]
pub struct ExperimentTrial {
    pub schema_version: u32,
    pub trial_id: ContentHash,
    pub subject: PolicySubject,
    pub parent_trial_id: Option<ContentHash>,
    pub candidate_hash: ContentHash,
    pub parameters_hash: ContentHash,
    pub prompt_hash: ContentHash,
    pub model_snapshot_hash: ContentHash,
    pub provider_id: String,
    pub model_id: String,
    pub model_release_date: CalendarDay,
    pub model_knowledge_cutoff: CalendarDay,
    pub condition: ExperimentCondition,
    pub generation_dataset_id: ContentHash,
    pub validation_dataset_id: ContentHash,
    pub holdout_dataset_id: ContentHash,
    pub generation_start: CalendarDay,
    pub generation_end: CalendarDay,
    pub validation_start: CalendarDay,
    pub validation_end: CalendarDay,
    pub holdout_start: CalendarDay,
    pub holdout_end: CalendarDay,
    pub candidate_frozen_at: UtcTime,
    pub holdout_first_opened_at: Option<UtcTime>,
    pub holdout_access_count: u32,
    pub status: ExperimentTrialStatus,
    pub metrics: Option<ExperimentTrialMetrics>,
    pub failure_reason: Option<String>,
    pub behavior_bundle_hash: Option<ContentHash>,
    pub campaign_id: Option<ContentHash>,
    pub trial_index: Option<u64>,
    pub source_refs: Vec<ArtifactRef>,
    pub created_at: UtcTime,
}

impl ExperimentTrial {
    /// What the identity is the digest of.
    pub open spec fn identity_json(&self) -> JsonTree {
        let m = no_members();
        let m = m.insert("schema_version"@, self.schema_version.json());
        let m = m.insert("subject"@, self.subject.json());
        let m = m.insert("parent_trial_id"@, self.parent_trial_id.json());
        let m = m.insert("candidate_hash"@, self.candidate_hash.json());
        let m = m.insert("parameters_hash"@, self.parameters_hash.json());
        let m = m.insert("prompt_hash"@, self.prompt_hash.json());
        let m = m.insert("model_snapshot_hash"@, self.model_snapshot_hash.json());
        let m = m.insert("provider_id"@, self.provider_id.json());
        let m = m.insert("model_id"@, self.model_id.json());
        let m = m.insert("model_release_date"@, self.model_release_date.json());
        let m = m.insert("model_knowledge_cutoff"@, self.model_knowledge_cutoff.json());
        let m = m.insert("condition"@, self.condition.json());
        let m = m.insert("generation_dataset_id"@, self.generation_dataset_id.json());
        let m = m.insert("validation_dataset_id"@, self.validation_dataset_id.json());
        let m = m.insert("holdout_dataset_id"@, self.holdout_dataset_id.json());
        let m = m.insert("generation_start"@, self.generation_start.json());
        let m = m.insert("generation_end"@, self.generation_end.json());
        let m = m.insert("validation_start"@, self.validation_start.json());
        let m = m.insert("validation_end"@, self.validation_end.json());
        let m = m.insert("holdout_start"@, self.holdout_start.json());
        let m = m.insert("holdout_end"@, self.holdout_end.json());
        let m = m.insert("candidate_frozen_at"@, self.candidate_frozen_at.json());
        let m = m.insert("holdout_first_opened_at"@, self.holdout_first_opened_at.json());
        let m = m.insert("holdout_access_count"@, self.holdout_access_count.json());
        let m = m.insert("status"@, self.status.json());
        let m = m.insert("metrics"@, self.metrics.json());
        let m = m.insert("failure_reason"@, self.failure_reason.json());
        let m = m.insert("behavior_bundle_hash"@, self.behavior_bundle_hash.json());
        let m = m.insert("campaign_id"@, self.campaign_id.json());
        let m = m.insert("trial_index"@, self.trial_index.json());
        let m = m.insert("source_refs"@, self.source_refs.json());
        let m = m.insert("created_at"@, self.created_at.json());
        JsonTree::Object(m)
    }

    pub open spec fn identity(&self) -> Seq<char> {
        json_digest(self.identity_json())
    }

    fn identity_value(&self) -> (r: serde_json::Value)
        ensures
            json_content(r) == self.identity_json(),
    {
        let mut members = json_new_object();
        json_insert(&mut members, "schema_version", self.schema_version.to_json());
        json_insert(&mut members, "subject", self.subject.to_json());
        json_insert(&mut members, "parent_trial_id", self.parent_trial_id.to_json());
        json_insert(&mut members, "candidate_hash", self.candidate_hash.to_json());
        json_insert(&mut members, "parameters_hash", self.parameters_hash.to_json());
        json_insert(&mut members, "prompt_hash", self.prompt_hash.to_json());
        json_insert(&mut members, "model_snapshot_hash", self.model_snapshot_hash.to_json());
        json_insert(&mut members, "provider_id", self.provider_id.to_json());
        json_insert(&mut members, "model_id", self.model_id.to_json());
        json_insert(&mut members, "model_release_date", self.model_release_date.to_json());
        json_insert(&mut members, "model_knowledge_cutoff", self.model_knowledge_cutoff.to_json());
        json_insert(&mut members, "condition", self.condition.to_json());
        json_insert(&mut members, "generation_dataset_id", self.generation_dataset_id.to_json());
        json_insert(&mut members, "validation_dataset_id", self.validation_dataset_id.to_json());
        json_insert(&mut members, "holdout_dataset_id", self.holdout_dataset_id.to_json());
        json_insert(&mut members, "generation_start", self.generation_start.to_json());
        json_insert(&mut members, "generation_end", self.generation_end.to_json());
        json_insert(&mut members, "validation_start", self.validation_start.to_json());
        json_insert(&mut members, "validation_end", self.validation_end.to_json());
        json_insert(&mut members, "holdout_start", self.holdout_start.to_json());
        json_insert(&mut members, "holdout_end", self.holdout_end.to_json());
        json_insert(&mut members, "candidate_frozen_at", self.candidate_frozen_at.to_json());
        json_insert(
            &mut members,
            "holdout_first_opened_at",
            self.holdout_first_opened_at.to_json(),
        );
        json_insert(&mut members, "holdout_access_count", self.holdout_access_count.to_json());
        json_insert(&mut members, "status", self.status.to_json());
        json_insert(&mut members, "metrics", self.metrics.to_json());
        json_insert(&mut members, "failure_reason", self.failure_reason.to_json());
        json_insert(&mut members, "behavior_bundle_hash", self.behavior_bundle_hash.to_json());
        json_insert(&mut members, "campaign_id", self.campaign_id.to_json());
        json_insert(&mut members, "trial_index", self.trial_index.to_json());
        json_insert(&mut members, "source_refs", self.source_refs.to_json());
        json_insert(&mut members, "created_at", self.created_at.to_json());
        json_object(members)
    }
}

/// A reason that says something.
pub open spec fn is_reason(reason: Option<String>) -> bool {
    reason matches Some(text) && !blank(text@)
}

fn gives_reason(reason: &Option<String>) -> (r: bool)
    ensures
        r == is_reason(*reason),
{
    match reason {
        Some(text) => !is_blank(text),
        None => false,
    }
}

impl ExperimentTrial {
    /// The model was known when the experiment was made.
    pub open spec fn model_is_known(&self) -> bool {
        &&& !blank(self.provider_id@)
        &&& !blank(self.model_id@)
        &&& self.model_release_date.day() <= self.created_at.day()
        &&& self.model_knowledge_cutoff.day() <= self.created_at.day()
    }

    /// The three periods follow each other and rest on three sets of data.
    pub open spec fn periods_are_apart(&self) -> bool {
        &&& self.generation_start.day() <= self.generation_end.day()
        &&& self.generation_end.day() < self.validation_start.day()
        &&& self.validation_start.day() <= self.validation_end.day()
        &&& self.validation_end.day() < self.holdout_start.day()
        &&& self.holdout_start.day() <= self.holdout_end.day()
        &&& self.generation_dataset_id@ != self.validation_dataset_id@
        &&& self.generation_dataset_id@ != self.holdout_dataset_id@
        &&& self.validation_dataset_id@ != self.holdout_dataset_id@
    }

    /// The candidate was frozen before the data held out for it were opened, or the trial
    /// does not count.
    pub open spec fn holdout_is_guarded(&self) -> bool {
        &&& !earlier(self.created_at, self.candidate_frozen_at)
        &&& self.holdout_first_opened_at matches Some(opened) ==> {
            &&& !earlier(self.created_at, opened)
            &&& earlier(opened, self.candidate_frozen_at) ==> self.status is Invalidated
        }
        &&& (self.holdout_first_opened_at is Some) == (self.holdout_access_count > 0)
    }

    /// What a trial has depends on how it ended.
    pub open spec fn result_verdict(&self) -> Verdict {
        match self.status {
            ExperimentTrialStatus::Failed => demand(
                self.metrics is None && is_reason(self.failure_reason),
                budget("experiment_trial.failure"@),
            ),
            ExperimentTrialStatus::Invalidated => demand(
                self.holdout_access_count > 1 && is_reason(self.failure_reason),
                budget("experiment_trial.invalidation"@),
            ),
            _ => first(
                demand(
                    self.metrics is Some && self.failure_reason is None,
                    budget("experiment_trial.result"@),
                ),
                demand(
                    self.holdout_access_count == 1,
                    budget("experiment_trial.holdout_access"@),
                ),
            ),
        }
    }

    /// The verdict on a trial whose identity is or is not its own.
    pub open spec fn verdict_under(&self, identity_fits: bool) -> Verdict {
        if self.subject.verdict() is Err {
            self.subject.verdict()
        } else if self.schema_version != DOMAIN_SCHEMA_VERSION || !identity_fits
            || !self.model_is_known() || !self.periods_are_apart() || !self.holdout_is_guarded()
            || !ascending::<ArtifactRef>(views(self.source_refs@)) {
            Err(budget("experiment_trial"@))
        } else if self.condition is PostCutoffForward && self.holdout_start.day()
            <= self.model_knowledge_cutoff.day() {
            Err(budget("experiment_trial.post_cutoff"@))
        } else if self.result_verdict() is Err {
            self.result_verdict()
        } else {
            match self.metrics {
                Some(metrics) => metrics.verdict(),
                None => Ok(()),
            }
        }
    }

    pub open spec fn verdict(&self) -> Verdict {
        self.verdict_under(self.trial_id@ == self.identity())
    }

    /// The trial under its own identity, where it is valid.
    pub fn seal(self) -> (r: Result<ExperimentTrial, DomainError>)
        ensures
            match r {
                Ok(sealed) => {
                    &&& sealed == (ExperimentTrial { trial_id: sealed.trial_id, ..self })
                    &&& sealed.trial_id@ == self.identity()
                    &&& sealed.verdict() is Ok
                    &&& self.verdict_under(true) is Ok
                },
                Err(e) => self.verdict_under(true) == Verdict::Err(e@),
            },
    {
        let id = self.identity_hash()?;
        let sealed = ExperimentTrial { trial_id: id, ..self };
        proof {
            assert(sealed.identity_json() == self.identity_json());
        }
        sealed.validate()?;
        Ok(sealed)
    }

    pub fn identity_hash(&self) -> (r: Result<ContentHash, DomainError>)
        ensures
            r is Ok,
            r->Ok_0@ == self.identity(),
            is_digest(r->Ok_0@),
    {
        Ok(digest_of(&self.identity_value()))
    }

    fn has_known_model(&self) -> (r: bool)
        ensures
            r == self.model_is_known(),
    {
        let today = self.created_at.date();
        !is_blank(&self.provider_id) && !is_blank(&self.model_id) && !today.is_before(
            &self.model_release_date,
        ) && !today.is_before(&self.model_knowledge_cutoff)
    }

    fn has_periods_apart(&self) -> (r: bool)
        ensures
            r == self.periods_are_apart(),
    {
        !self.generation_end.is_before(&self.generation_start) && self.generation_end.is_before(
            &self.validation_start,
        ) && !self.validation_end.is_before(&self.validation_start) && self.validation_end.is_before(
            &self.holdout_start,
        ) && !self.holdout_end.is_before(&self.holdout_start) && !self.generation_dataset_id.same(
            &self.validation_dataset_id,
        ) && !self.generation_dataset_id.same(&self.holdout_dataset_id)
            && !self.validation_dataset_id.same(&self.holdout_dataset_id)
    }

    fn has_guarded_holdout(&self) -> (r: bool)
        ensures
            r == self.holdout_is_guarded(),
    {
        let opened_well = match self.holdout_first_opened_at {
            Some(opened) => !self.created_at.is_before(&opened) && (!opened.is_before(
                &self.candidate_frozen_at,
            ) || self.status == ExperimentTrialStatus::Invalidated),
            None => true,
        };
        !self.created_at.is_before(&self.candidate_frozen_at) && opened_well
            && self.holdout_first_opened_at.is_some() == (self.holdout_access_count > 0)
    }

    pub fn validate(&self) -> (r: Result<(), DomainError>)
        ensures
            outcome(r) == self.verdict(),
    {
        self.subject.validate()?;
        let id = self.identity_hash()?;
        if self.schema_version != DOMAIN_SCHEMA_VERSION || !self.trial_id.same(&id)
            || !self.has_known_model() || !self.has_periods_apart() || !self.has_guarded_holdout()
            || !is_ascending(&self.source_refs) {
            return Err(invalid_budget("experiment_trial"));
        }
        if self.condition == ExperimentCondition::PostCutoffForward
            && !self.model_knowledge_cutoff.is_before(&self.holdout_start) {
            return Err(invalid_budget("experiment_trial.post_cutoff"));
        }
        match self.status {
            ExperimentTrialStatus::Failed => {
                if self.metrics.is_some() || !gives_reason(&self.failure_reason) {
                    return Err(invalid_budget("experiment_trial.failure"));
                }
            },
            ExperimentTrialStatus::Invalidated => {
                if self.holdout_access_count <= 1 || !gives_reason(&self.failure_reason) {
                    return Err(invalid_budget("experiment_trial.invalidation"));
                }
            },
            _ => {
                if self.metrics.is_none() || self.failure_reason.is_some() {
                    return Err(invalid_budget("experiment_trial.result"));
                }
                if self.holdout_access_count != 1 {
                    return Err(invalid_budget("experiment_trial.holdout_access"));
                }
            },
        }
        if let Some(metrics) = &self.metrics {
            metrics.validate()?;
        }
        Ok(())
    }

    /// The model could not have known what it was asked.
    pub open spec fn is_controlled(&self) -> bool {
        self.condition is FullyMasked || self.condition is PostCutoffForward
    }

    /// Whether the model could not have known what it was asked.
    pub fn is_contamination_controlled(&self) -> (r: bool)
        ensures
            r == self.is_controlled(),
    {
        matches!(
            self.condition,
            ExperimentCondition::FullyMasked | ExperimentCondition::PostCutoffForward
        )
    }
}

/// The data held out for a valid trial that was not invalidated were opened only after its
/// candidate was frozen; a trial that is evaluated opened them once.
pub proof fn holdout_is_opened_after_the_candidate_is_frozen(trial: ExperimentTrial)
    requires
        trial.verdict() is Ok,
        !(trial.status is Invalidated),
        trial.holdout_first_opened_at is Some,
    ensures
        !earlier(trial.holdout_first_opened_at->0, trial.candidate_frozen_at),
        !(trial.status is Failed) ==> trial.holdout_access_count == 1,
{
}

/// A forward trial holds out only days after the end of its model's knowledge.
pub proof fn forward_trial_is_after_the_cutoff(trial: ExperimentTrial)
    requires
        trial.verdict() is Ok,
        trial.condition is PostCutoffForward,
    ensures
        trial.model_knowledge_cutoff.day() < trial.holdout_start.day(),
{
}

/// When a result of a search is accepted.
#[derive(Debug, PartialEq, Eq)]
pub struct SearchBiasAcceptancePolicy {
    pub min_deflated_sharpe_ratio_ppm: i64,
    pub max_probability_of_backtest_overfitting_ppm: u32,
    pub min_bootstrap_lower_bound_ppm: i64,
    pub max_family_wise_error_rate_ppm: u32,
    pub min_global_trial_count: u64,
    pub min_comparable_trial_count: u64,
    pub selection_metric_hash: ContentHash,
    pub search_space_hash: ContentHash,
    pub slice_schema_hash: ContentHash,
    pub metric_implementation_hash: ContentHash,
}

impl Clone for SearchBiasAcceptancePolicy {
    fn clone(&self) -> (r: Self)
        ensures
            r == *self,
    {
        SearchBiasAcceptancePolicy {
            min_deflated_sharpe_ratio_ppm: self.min_deflated_sharpe_ratio_ppm,
            max_probability_of_backtest_overfitting_ppm: self.max_probability_of_backtest_overfitting_ppm,
            min_bootstrap_lower_bound_ppm: self.min_bootstrap_lower_bound_ppm,
            max_family_wise_error_rate_ppm: self.max_family_wise_error_rate_ppm,
            min_global_trial_count: self.min_global_trial_count,
            min_comparable_trial_count: self.min_comparable_trial_count,
            selection_metric_hash: self.selection_metric_hash.clone(),
            search_space_hash: self.search_space_hash.clone(),
            slice_schema_hash: self.slice_schema_hash.clone(),
            metric_implementation_hash: self.metric_implementation_hash.clone(),
        }
    }
}

impl ToJson for SearchBiasAcceptancePolicy {
    open spec fn json(&self) -> JsonTree {
        let m = no_members();
        let m = m.insert(
            "min_deflated_sharpe_ratio_ppm"@,
            self.min_deflated_sharpe_ratio_ppm.json(),
        );
        let m = m.insert(
            "max_probability_of_backtest_overfitting_ppm"@,
            self.max_probability_of_backtest_overfitting_ppm.json(),
        );
        let m = m.insert(
            "min_bootstrap_lower_bound_ppm"@,
            self.min_bootstrap_lower_bound_ppm.json(),
        );
        let m = m.insert(
            "max_family_wise_error_rate_ppm"@,
            self.max_family_wise_error_rate_ppm.json(),
        );
        let m = m.insert("min_global_trial_count"@, self.min_global_trial_count.json());
        let m = m.insert("min_comparable_trial_count"@, self.min_comparable_trial_count.json());
        let m = m.insert("selection_metric_hash"@, self.selection_metric_hash.json());
        let m = m.insert("search_space_hash"@, self.search_space_hash.json());
        let m = m.insert("slice_schema_hash"@, self.slice_schema_hash.json());
        let m = m.insert("metric_implementation_hash"@, self.metric_implementation_hash.json());
        JsonTree::Object(m)
    }

    fn to_json(&self) -> (r: serde_json::Value) {
        let mut members = json_new_object();
        json_insert(
            &mut members,
            "min_deflated_sharpe_ratio_ppm",
            self.min_deflated_sharpe_ratio_ppm.to_json(),
        );
        json_insert(
            &mut members,
            "max_probability_of_backtest_overfitting_ppm",
            self.max_probability_of_backtest_overfitting_ppm.to_json(),
        );
        json_insert(
            &mut members,
            "min_bootstrap_lower_bound_ppm",
            self.min_bootstrap_lower_bound_ppm.to_json(),
        );
        json_insert(
            &mut members,
            "max_family_wise_error_rate_ppm",
            self.max_family_wise_error_rate_ppm.to_json(),
        );
        json_insert(&mut members, "min_global_trial_count", self.min_global_trial_count.to_json());
        json_insert(
            &mut members,
            "min_comparable_trial_count",
            self.min_comparable_trial_count.to_json(),
        );
        json_insert(&mut members, "selection_metric_hash", self.selection_metric_hash.to_json());
        json_insert(&mut members, "search_space_hash", self.search_space_hash.to_json());
        json_insert(&mut members, "slice_schema_hash", self.slice_schema_hash.to_json());
        json_insert(
            &mut members,
            "metric_implementation_hash",
            self.metric_implementation_hash.to_json(),
        );
        json_object(members)
    }
}

impl SearchBiasAcceptancePolicy {
    pub fn identity_hash(&self) -> (r: Result<ContentHash, DomainError>)
        ensures
            r is Ok,
            r->Ok_0@ == json_digest(self.json()),
    {
        Ok(digest_of(&self.to_json()))
    }

    pub open spec fn verdict(&self) -> Verdict {
        demand(
            self.min_global_trial_count >= 2 && self.max_probability_of_backtest_overfitting_ppm
                <= 1_000_000 && self.max_family_wise_error_rate_ppm <= 1_000_000,
            budget("search_bias_acceptance_policy"@),
        )
    }

    pub fn validate(&self) -> (r: Result<(), DomainError>)
        ensures
            outcome(r) == self.verdict(),
    {
        if self.min_global_trial_count < 2 || self.max_probability_of_backtest_overfitting_ppm
            > 1_000_000 || self.max_family_wise_error_rate_ppm > 1_000_000 {
            return Err(invalid_budget("search_bias_acceptance_policy"));
        }
        Ok(())
    }
}

/// Which implementation a metric was computed by.
#[derive(Debug, Clone, PartialEq, Eq)]
pub struct MetricIdentity {
    pub metric_name: String,
    pub metric_version: String,
    pub implementation_hash: ContentHash,
    pub assumptions_hash: ContentHash,
}

impl ToJson for MetricIdentity {
    open spec fn json(&self) -> JsonTree {
        let m = no_members();
        let m = m.insert("metric_name"@, self.metric_name.json());
        let m = m.insert("metric_version"@, self.metric_version.json());
        let m = m.insert("implementation_hash"@, self.implementation_hash.json());
        let m = m.insert("assumptions_hash"@, self.assumptions_hash.json());
        JsonTree::Object(m)
    }

    fn to_json(&self) -> (r: serde_json::Value) {
        let mut members = json_new_object();
        json_insert(&mut members, "metric_name", self.metric_name.to_json());
        json_insert(&mut members, "metric_version", self.metric_version.to_json());
        json_insert(&mut members, "implementation_hash", self.implementation_hash.to_json());
        json_insert(&mut members, "assumptions_hash", self.assumptions_hash.to_json());
        json_object(members)
    }
}

impl MetricIdentity {
    pub open spec fn verdict(&self) -> Verdict {
        demand(
            !blank(self.metric_name@) && !blank(self.metric_version@),
            empty("metric_identity"@),
        )
    }

    pub fn validate(&self) -> (r: Result<(), DomainError>)
        ensures
            outcome(r) == self.verdict(),
    {
        if is_blank(&self.metric_name) || is_blank(&self.metric_version) {
            return Err(empty_field("metric_identity"));
        }
        Ok(())
    }
}

/// How much of a result the search for it explains.
#[derive(Debug, Clone, PartialEq, Eq)]
pub struct SearchBiasCertificate {
    pub schema_version: u32,
    pub certificate_id: ContentHash,
    pub selected_trial: ArtifactRef,
    pub trial_refs: Vec<ArtifactRef>,
    pub global_trial_count: u64,
    pub deflated_sharpe_ratio_ppm: Option<i64>,
    pub probability_of_backtest_overfitting_ppm: Option<u32>,
    pub stationary_bootstrap_lower_bound_ppm: Option<i64>,
    pub moving_block_bootstrap_lower_bound_ppm: Option<i64>,
    pub family_wise_error_rate_ppm: Option<u32>,
    pub selected_condition: ExperimentCondition,
    pub bright_trial: Option<ArtifactRef>,
    pub bright_minus_masked_bootstrap_lower_bound_ppm: Option<i64>,
    pub contamination_risk: Option<bool>,
    pub holdout_dataset_id: ContentHash,
    pub holdout_access_count: u32,
    pub behavior_bundle_hash: Option<ContentHash>,
    pub acceptance_policy_hash: Option<ContentHash>,
    pub metric_identities: OrderedMap<String, MetricIdentity>,
    pub created_at: UtcTime,
}

impl SearchBiasCertificate {
    /// What the identity is the digest of.
    pub open spec fn identity_json(&self) -> JsonTree {
        let m = no_members();
        let m = m.insert("schema_version"@, self.schema_version.json());
        let m = m.insert("selected_trial"@, self.selected_trial.json());
        let m = m.insert("trial_refs"@, self.trial_refs.json());
        let m = m.insert("global_trial_count"@, self.global_trial_count.json());
        let m = m.insert("deflated_sharpe_ratio_ppm"@, self.deflated_sharpe_ratio_ppm.json());
        let m = m.insert(
            "probability_of_backtest_overfitting_ppm"@,
            self.probability_of_backtest_overfitting_ppm.json(),
        );
        let m = m.insert(
            "stationary_bootstrap_lower_bound_ppm"@,
            self.stationary_bootstrap_lower_bound_ppm.json(),
        );
        let m = m.insert(
            "moving_block_bootstrap_lower_bound_ppm"@,
            self.moving_block_bootstrap_lower_bound_ppm.json(),
        );
        let m = m.insert("family_wise_error_rate_ppm"@, self.family_wise_error_rate_ppm.json());
        let m = m.insert("selected_condition"@, self.selected_condition.json());
        let m = m.insert("bright_trial"@, self.bright_trial.json());
        let m = m.insert(
            "bright_minus_masked_bootstrap_lower_bound_ppm"@,
            self.bright_minus_masked_bootstrap_lower_bound_ppm.json(),
        );
        let m = m.insert("contamination_risk"@, self.contamination_risk.json());
        let m = m.insert("holdout_dataset_id"@, self.holdout_dataset_id.json());
        let m = m.insert("holdout_access_count"@, self.holdout_access_count.json());
        let m = m.insert("behavior_bundle_hash"@, self.behavior_bundle_hash.json());
        let m = m.insert("acceptance_policy_hash"@, self.acceptance_policy_hash.json());
        let m = m.insert("metric_identities"@, self.metric_identities.json());
        let m = m.insert("created_at"@, self.created_at.json());
        JsonTree::Object(m)
    }

    pub open spec fn identity(&self) -> Seq<char> {
        json_digest(self.identity_json())
    }

    fn identity_value(&self) -> (r: serde_json::Value)
        ensures
            json_content(r) == self.identity_json(),
    {
        let mut members = json_new_object();
        json_insert(&mut members, "schema_version", self.schema_version.to_json());
        json_insert(&mut members, "selected_trial", self.selected_trial.to_json());
        json_insert(&mut members, "trial_refs", self.trial_refs.to_json());
        json_insert(&mut members, "global_trial_count", self.global_trial_count.to_json());
        json_insert(
            &mut members,
            "deflated_sharpe_ratio_ppm",
            self.deflated_sharpe_ratio_ppm.to_json(),
        );
        json_insert(
            &mut members,
            "probability_of_backtest_overfitting_ppm",
            self.probability_of_backtest_overfitting_ppm.to_json(),
        );
        json_insert(
            &mut members,
            "stationary_bootstrap_lower_bound_ppm",
            self.stationary_bootstrap_lower_bound_ppm.to_json(),
        );
        json_insert(
            &mut members,
            "moving_block_bootstrap_lower_bound_ppm",
            self.moving_block_bootstrap_lower_bound_ppm.to_json(),
        );
        json_insert(
            &mut members,
            "family_wise_error_rate_ppm",
            self.family_wise_error_rate_ppm.to_json(),
        );
        json_insert(&mut members, "selected_condition", self.selected_condition.to_json());
        json_insert(&mut members, "bright_trial", self.bright_trial.to_json());
        json_insert(
            &mut members,
            "bright_minus_masked_bootstrap_lower_bound_ppm",
            self.bright_minus_masked_bootstrap_lower_bound_ppm.to_json(),
        );
        json_insert(&mut members, "contamination_risk", self.contamination_risk.to_json());
        json_insert(&mut members, "holdout_dataset_id", self.holdout_dataset_id.to_json());
        json_insert(&mut members, "holdout_access_count", self.holdout_access_count.to_json());
        json_insert(&mut members, "behavior_bundle_hash", self.behavior_bundle_hash.to_json());
        json_insert(&mut members, "acceptance_policy_hash", self.acceptance_policy_hash.to_json());
        json_insert(&mut members, "metric_identities", self.metric_identities.to_json());
        json_insert(&mut members, "created_at", self.created_at.to_json());
        json_object(members)
    }
}

pub open spec fn at_most(value: Option<u32>, limit: u32) -> bool {
    value matches Some(v) && v <= limit
}

pub open spec fn at_least(value: Option<i64>, limit: i64) -> bool {
    value matches Some(v) && v >= limit
}

fn is_at_most(value: Option<u32>, limit: u32) -> (r: bool)
    ensures
        r == at_most(value, limit),
{
    match value {
        Some(v) => v <= limit,
        None => false,
    }
}

fn is_at_least(value: Option<i64>, limit: i64) -> (r: bool)
    ensures
        r == at_least(value, limit),
{
    match value {
        Some(v) => v >= limit,
        None => false,
    }
}

/// The check of one metric.
pub open spec fn metric_checks(map: OrderedMap<String, MetricIdentity>) -> spec_fn(int) -> Verdict {
    |i: int| map.values()[i].verdict()
}

impl SearchBiasCertificate {
    /// All trials of the search are listed, the selected one among them.
    pub open spec fn trials_are_listed(&self) -> bool {
        &&& self.selected_trial.kind is ExperimentTrial
        &&& self.trial_refs@.len() >= 2
        &&& self.global_trial_count == self.trial_refs@.len()
        &&& ascending::<ArtifactRef>(views(self.trial_refs@))
        &&& refs_list(self.trial_refs@, self.selected_trial@)
        &&& refs_all_cite(self.trial_refs@, ArtifactKind::ExperimentTrial)
        &&& self.bright_trial matches Some(bright) ==> bright.kind is ExperimentTrial && refs_list(
            self.trial_refs@,
            bright@,
        )
    }

    pub open spec fn shares_fit(&self) -> bool {
        &&& self.probability_of_backtest_overfitting_ppm matches Some(v) ==> v <= 1_000_000
        &&& self.family_wise_error_rate_ppm matches Some(v) ==> v <= 1_000_000
    }

    /// A masked trial is compared with the same trial in the open; a forward trial is not.
    pub open spec fn contamination_verdict(&self) -> Verdict {
        match self.selected_condition {
            ExperimentCondition::FullyMasked => demand(
                self.bright_trial is Some && self.bright_minus_masked_bootstrap_lower_bound_ppm is Some
                    && self.contamination_risk is Some,
                budget("search_bias_certificate.contamination"@),
            ),
            ExperimentCondition::PostCutoffForward => demand(
                self.bright_trial is None && self.bright_minus_masked_bootstrap_lower_bound_ppm is None
                    && self.contamination_risk is None,
                budget("search_bias_certificate.contamination"@),
            ),
            _ => Err(budget("search_bias_certificate.selected_condition"@)),
        }
    }

    pub open spec fn verdict_under(&self, identity_fits: bool) -> Verdict {
        let metrics = first_fault(
            self.metric_identities.keys().len(),
            metric_checks(self.metric_identities),
        );
        if self.schema_version != DOMAIN_SCHEMA_VERSION || !identity_fits
            || !self.trials_are_listed() || self.holdout_access_count != 1 || !self.shares_fit() {
            Err(budget("search_bias_certificate"@))
        } else if metrics is Err {
            metrics
        } else {
            self.contamination_verdict()
        }
    }

    pub open spec fn verdict(&self) -> Verdict {
        self.verdict_under(self.certificate_id@ == self.identity())
    }

    /// The certificate under its own identity, where it is valid.
    pub fn seal(self) -> (r: Result<SearchBiasCertificate, DomainError>)
        ensures
            match r {
                Ok(sealed) => {
                    &&& sealed == (SearchBiasCertificate {
                        certificate_id: sealed.certificate_id,
                        ..self
                    })
                    &&& sealed.certificate_id@ == self.identity()
                    &&& sealed.verdict() is Ok
                    &&& self.verdict_under(true) is Ok
                },
                Err(e) => self.verdict_under(true) == Verdict::Err(e@),
            },
    {
        let id = self.identity_hash()?;
        let sealed = SearchBiasCertificate { certificate_id: id, ..self };
        proof {
            assert(sealed.identity_json() == self.identity_json());
        }
        sealed.validate()?;
        Ok(sealed)
    }

    pub fn identity_hash(&self) -> (r: Result<ContentHash, DomainError>)
        ensures
            r is Ok,
            r->Ok_0@ == self.identity(),
            is_digest(r->Ok_0@),
    {
        Ok(digest_of(&self.identity_value()))
    }

    fn lists_trials(&self) -> (r: bool)
        ensures
            r == self.trials_are_listed(),
    {
        let bright_fits = match &self.bright_trial {
            Some(bright) => bright.kind == ArtifactKind::ExperimentTrial && refs_contain(
                &self.trial_refs,
                bright,
            ),
            None => true,
        };
        self.selected_trial.kind == ArtifactKind::ExperimentTrial && self.trial_refs.len() >= 2
            && self.global_trial_count == self.trial_refs.len() as u64 && is_ascending(
            &self.trial_refs,
        ) && refs_contain(&self.trial_refs, &self.selected_trial) && refs_all_have_kind(
            &self.trial_refs,
            ArtifactKind::ExperimentTrial,
        ) && bright_fits
    }

    fn validate_metrics(&self) -> (r: Result<(), DomainError>)
        ensures
            outcome(r) == first_fault(
                self.metric_identities.keys().len(),
                metric_checks(self.metric_identities),
            ),
    {
        let ghost checks = metric_checks(self.metric_identities);
        let n: usize = self.metric_identities.len();
        let mut i: usize = 0;
        while i < n
            invariant
                i <= n,
                n == self.metric_identities.keys().len(),
                checks == metric_checks(self.metric_identities),
                first_fault(i as nat, checks) == Verdict::Ok(()),
            decreases n - i,
        {
            let valid = self.metric_identities.value_at(i).validate();
            proof {
                assert(first_fault((i + 1) as nat, checks) == checks(i as int));
                if checks(i as int) is Err {
                    first_fault_stays((i + 1) as nat, n as nat, checks);
                }
            }
            valid?;
            i += 1;
        }
        Ok(())
    }

    pub fn validate(&self) -> (r: Result<(), DomainError>)
        ensures
            outcome(r) == self.verdict(),
    {
        let id = self.identity_hash()?;
        let overfit = match self.probability_of_backtest_overfitting_ppm {
            Some(v) => v > 1_000_000,
            None => false,
        };
        let erring = match self.family_wise_error_rate_ppm {
            Some(v) => v > 1_000_000,
            None => false,
        };
        if self.schema_version != DOMAIN_SCHEMA_VERSION || !self.certificate_id.same(&id)
            || !self.lists_trials() || self.holdout_access_count != 1 || overfit || erring {
            return Err(invalid_budget("search_bias_certificate"));
        }
        self.validate_metrics()?;
        match self.selected_condition {
            ExperimentCondition::FullyMasked => {
                if self.bright_trial.is_none()
                    || self.bright_minus_masked_bootstrap_lower_bound_ppm.is_none()
                    || self.contamination_risk.is_none() {
                    return Err(invalid_budget("search_bias_certificate.contamination"));
                }
                Ok(())
            },
            ExperimentCondition::PostCutoffForward => {
                if self.bright_trial.is_some()
                    || self.bright_minus_masked_bootstrap_lower_bound_ppm.is_some()
                    || self.contamination_risk.is_some() {
                    return Err(invalid_budget("search_bias_certificate.contamination"));
                }
                Ok(())
            },
            _ => Err(invalid_budget("search_bias_certificate.selected_condition")),
        }
    }

    fn is_contaminated(&self) -> (r: bool)
        ensures
            r == (self.contamination_risk == Some(true)),
    {
        match self.contamination_risk {
            Some(risk) => risk,
            None => false,
        }
    }

    /// Everything that a promotion looks at was measured, and nothing was contaminated.
    pub open spec fn is_ready(&self) -> bool {
        &&& self.deflated_sharpe_ratio_ppm is Some
        &&& self.probability_of_backtest_overfitting_ppm is Some
        &&& self.stationary_bootstrap_lower_bound_ppm is Some
        &&& self.family_wise_error_rate_ppm is Some
        &&& self.holdout_access_count == 1
        &&& self.contamination_risk != Some(true)
    }

    /// Whether everything that a promotion looks at was measured, and nothing was contaminated.
    pub fn is_promotion_ready(&self) -> (r: bool)
        ensures
            r == self.is_ready(),
    {
        self.deflated_sharpe_ratio_ppm.is_some()
            && self.probability_of_backtest_overfitting_ppm.is_some()
            && self.stationary_bootstrap_lower_bound_ppm.is_some()
            && self.family_wise_error_rate_ppm.is_some() && self.holdout_access_count == 1
            && !self.is_contaminated()
    }

    /// The certificate meets a policy.
    pub open spec fn meets(&self, policy: SearchBiasAcceptancePolicy) -> bool {
        &&& self.verdict() is Ok
        &&& policy.verdict() is Ok
        &&& self.contamination_risk != Some(true)
        &&& self.global_trial_count >= policy.min_global_trial_count
        &&& at_least(self.deflated_sharpe_ratio_ppm, policy.min_deflated_sharpe_ratio_ppm)
        &&& at_most(
            self.probability_of_backtest_overfitting_ppm,
            policy.max_probability_of_backtest_overfitting_ppm,
        )
        &&& at_least(
            self.stationary_bootstrap_lower_bound_ppm,
            policy.min_bootstrap_lower_bound_ppm,
        )
        &&& at_most(self.family_wise_error_rate_ppm, policy.max_family_wise_error_rate_ppm)
        &&& self.acceptance_policy_hash matches Some(hash) ==> hash@ == json_digest(policy.json())
    }

    pub fn permits_promotion(&self, policy: &SearchBiasAcceptancePolicy) -> (r: bool)
        ensures
            r == self.meets(*policy),
    {
        let bound = match &self.acceptance_policy_hash {
            Some(hash) => match policy.identity_hash() {
                Ok(own) => own.same(hash),
                Err(_) => false,
            },
            None => true,
        };
        self.validate().is_ok() && policy.validate().is_ok() && self.holdout_access_count == 1
            && !self.is_contaminated() && self.global_trial_count >= policy.min_global_trial_count
            && is_at_least(self.deflated_sharpe_ratio_ppm, policy.min_deflated_sharpe_ratio_ppm)
            && is_at_most(
            self.probability_of_backtest_overfitting_ppm,
            policy.max_probability_of_backtest_overfitting_ppm,
        ) && is_at_least(
            self.stationary_bootstrap_lower_bound_ppm,
            policy.min_bootstrap_lower_bound_ppm,
        ) && is_at_most(self.family_wise_error_rate_ppm, policy.max_family_wise_error_rate_ppm)
            && bound
    }
}

/// A certificate that meets a policy was measured in full and counts every trial.
pub proof fn promotion_needs_a_complete_certificate(
    certificate: SearchBiasCertificate,
    policy: SearchBiasAcceptancePolicy,
)
    requires
        certificate.meets(policy),
    ensures
        certificate.deflated_sharpe_ratio_ppm is Some,
        certificate.probability_of_backtest_overfitting_ppm is Some,
        certificate.stationary_bootstrap_lower_bound_ppm is Some,
        certificate.family_wise_error_rate_ppm is Some,
        certificate.global_trial_count == certificate.trial_refs@.len(),
        certificate.selected_condition is FullyMasked
            || certificate.selected_condition is PostCutoffForward,
{
}

/// What an experiment trial metrics is refused with: the first fault that it has.
pub proof fn refusal_of_experiment_trial_metrics_names_its_fault(this: ExperimentTrialMetrics)
    ensures
        !(this.is_bounded())
            ==> this.verdict() == Verdict::Err(budget("experiment_trial.metrics"@)),
{
}

/// What an experiment trial is refused with: the first fault that it has.
pub proof fn verdict_under_of_experiment_trial_names_its_fault(
    this: ExperimentTrial,
    identity_fits: bool,
)
    ensures
        this.subject.verdict() is Ok && (this.schema_version != DOMAIN_SCHEMA_VERSION
            || !identity_fits || !this.model_is_known() || !this.periods_are_apart()
            || !this.holdout_is_guarded() || !ascending::<ArtifactRef>(views(this.source_refs@)))
            ==> this.verdict_under(identity_fits) == Verdict::Err(budget("experiment_trial"@)),
        this.subject.verdict() is Ok && !(this.schema_version != DOMAIN_SCHEMA_VERSION
            || !identity_fits || !this.model_is_known() || !this.periods_are_apart()
            || !this.holdout_is_guarded() || !ascending::<ArtifactRef>(views(this.source_refs@)))
            && (this.condition is PostCutoffForward
            && this.holdout_start.day() <= this.model_knowledge_cutoff.day())
            ==> this.verdict_under(identity_fits) == Verdict::Err(
                budget("experiment_trial.post_cutoff"@),
            ),
{
}

/// What a search bias acceptance policy is refused with: the first fault that it has.
pub proof fn refusal_of_search_bias_acceptance_policy_names_its_fault(
    this: SearchBiasAcceptancePolicy,
)
    ensures
        !(this.min_global_trial_count >= 2
            && this.max_probability_of_backtest_overfitting_ppm <= 1_000_000
            && this.max_family_wise_error_rate_ppm <= 1_000_000)
            ==> this.verdict() == Verdict::Err(budget("search_bias_acceptance_policy"@)),
{
}

/// What a metric identity is refused with: the first fault that it has.
pub proof fn refusal_of_metric_identity_names_its_fault(this: MetricIdentity)
    ensures
        !(!blank(this.metric_name@) && !blank(this.metric_version@))
            ==> this.verdict() == Verdict::Err(empty("metric_identity"@)),
{
}

} // verus!
