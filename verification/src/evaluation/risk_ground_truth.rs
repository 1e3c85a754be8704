//! What a decision should have seen coming, judged by others than those who made it.
use crate::artifact::{ArtifactKind, ArtifactRef};
use crate::error::{
    budget, demand, empty, empty_field, invalid_budget, outcome, DomainError, Verdict,
};
use crate::evaluation::outcome::OutcomeHorizon;
use crate::lists::any_of;
use crate::market_safety::{holds_blank, set_has_blank};
use crate::ordered::{ascending, is_ascending, views, OrderedSet};
use crate::text::{alike, are_alike, blank, is_blank};
use crate::time::{earlier, CalendarDay, UtcTime};
use crate::DOMAIN_SCHEMA_VERSION;
use vstd::prelude::*;

verus! {

/// Who judged.
#[derive(Debug, PartialEq, Eq)]
pub struct RiskAssessmentAuthority {
    pub identity: String,
    pub version: String,
}

impl Clone for RiskAssessmentAuthority {
    fn clone(&self) -> (r: Self)
        ensures
            r == *self,
    {
        RiskAssessmentAuthority { identity: self.identity.clone(), version: self.version.clone() }
    }
}

impl RiskAssessmentAuthority {
    pub open spec fn verdict(&self, field: Seq<char>) -> Verdict {
        demand(!blank(self.identity@) && !blank(self.version@), empty(field))
    }

    pub fn validate(&self, field: &'static str) -> (r: Result<(), DomainError>)
        ensures
            outcome(r) == self.verdict(field@),
    {
        if is_blank(&self.identity) || is_blank(&self.version) {
            return Err(empty_field(field));
        }
        Ok(())
    }
}

/// The risks of one horizon. Those that were to be expected come from the basis and not from
/// the decision; those that were detected are the ones among them that the decision saw.
#[derive(Debug, Clone, PartialEq, Eq)]
pub struct RiskGroundTruthAssessment {
    pub schema_version: u32,
    pub schedule: ArtifactRef,
    pub decision: ArtifactRef,
    pub horizon: OutcomeHorizon,
    pub observed_trading_day: CalendarDay,
    pub expected_risk_ids: OrderedSet<String>,
    pub detected_risk_ids: OrderedSet<String>,
    pub basis_refs: Vec<ArtifactRef>,
    pub decision_producer_identity: String,
    pub reviewer: RiskAssessmentAuthority,
    pub verifier: RiskAssessmentAuthority,
    pub assessed_at: UtcTime,
    pub valid_until: UtcTime,
    pub sealed_at: Option<UtcTime>,
}

impl RiskGroundTruthAssessment {
    /// Who reviews, who verifies and who made the decision are three.
    pub open spec fn judges_are_independent(&self) -> bool {
        &&& !alike(self.reviewer.identity@, self.verifier.identity@)
        &&& !alike(self.reviewer.identity@, self.decision_producer_identity@)
        &&& !alike(self.verifier.identity@, self.decision_producer_identity@)
    }

    /// A basis is evidence, and neither the schedule nor the decision itself.
    pub open spec fn is_basis(&self, reference: ArtifactRef) -> bool {
        &&& {
            ||| reference.kind is RawEvidence
            ||| reference.kind is NormalizedEvidence
            ||| reference.kind is SemanticDetail
        }
        &&& reference.artifact_id@ != self.schedule.artifact_id@
        &&& reference.artifact_id@ != self.decision.artifact_id@
    }

    pub open spec fn basis_is_sound(&self) -> bool {
        &&& self.basis_refs@.len() > 0
        &&& ascending::<ArtifactRef>(views(self.basis_refs@))
        &&& forall|i: int| 0 <= i < self.basis_refs@.len() ==> self.is_basis(#[trigger] self.basis_refs@[i])
    }

    /// Some risk was to be expected, and only such were detected.
    pub open spec fn risks_are_sound(&self) -> bool {
        &&& self.expected_risk_ids@.len() > 0
        &&& !holds_blank(self.expected_risk_ids@)
        &&& !holds_blank(self.detected_risk_ids@)
        &&& self.detected_risk_ids@.subset_of(self.expected_risk_ids@)
    }

    /// Sealed while the assessment was valid, and not before the day it is about.
    pub open spec fn seal_is_sound(&self) -> bool {
        self.sealed_at matches Some(sealed_at) ==> {
            &&& !earlier(sealed_at, self.assessed_at)
            &&& !earlier(self.valid_until, sealed_at)
            &&& self.observed_trading_day.day() <= sealed_at.day()
        }
    }

    pub open spec fn verdict(&self) -> Verdict {
        if self.schema_version != DOMAIN_SCHEMA_VERSION {
            Err(empty("risk_ground_truth.schema_version"@))
        } else if !(self.schedule.kind is OutcomeSchedule) || !(self.decision.kind is Decision) {
            Err(empty("risk_ground_truth.references"@))
        } else if blank(self.decision_producer_identity@) {
            Err(empty("risk_ground_truth.decision_producer_identity"@))
        } else if self.reviewer.verdict("risk_ground_truth.reviewer_authority"@) is Err {
            self.reviewer.verdict("risk_ground_truth.reviewer_authority"@)
        } else if self.verifier.verdict("risk_ground_truth.verifier"@) is Err {
            self.verifier.verdict("risk_ground_truth.verifier"@)
        } else if !self.judges_are_independent() {
            Err(empty("risk_ground_truth.independence"@))
        } else if !self.basis_is_sound() {
            Err(empty("risk_ground_truth.basis_refs"@))
        } else if !self.risks_are_sound() {
            Err(budget("risk_ground_truth.risk_ids"@))
        } else if earlier(self.valid_until, self.assessed_at) {
            Err(budget("risk_ground_truth.validity"@))
        } else {
            demand(self.seal_is_sound(), budget("risk_ground_truth.sealed_at"@))
        }
    }

    fn has_sound_basis(&self) -> (r: bool)
        ensures
            r == self.basis_is_sound(),
    {
        let foreign = |reference: &ArtifactRef| -> (b: bool)
            ensures
                b == !self.is_basis(*reference),
            {
                !matches!(
                    reference.kind,
                    ArtifactKind::RawEvidence | ArtifactKind::NormalizedEvidence
                        | ArtifactKind::SemanticDetail
                ) || reference.artifact_id.same(&self.schedule.artifact_id)
                    || reference.artifact_id.same(&self.decision.artifact_id)
            };
        self.basis_refs.len() > 0 && is_ascending(&self.basis_refs) && !any_of(
            self.basis_refs.as_slice(),
            foreign,
        )
    }

    pub fn validate(&self) -> (r: Result<(), DomainError>)
        ensures
            outcome(r) == self.verdict(),
    {
        if self.schema_version != DOMAIN_SCHEMA_VERSION {
            return Err(empty_field("risk_ground_truth.schema_version"));
        }
        if self.schedule.kind != ArtifactKind::OutcomeSchedule || self.decision.kind
            != ArtifactKind::Decision {
            return Err(empty_field("risk_ground_truth.references"));
        }
        if is_blank(&self.decision_producer_identity) {
            return Err(empty_field("risk_ground_truth.decision_producer_identity"));
        }
        self.reviewer.validate("risk_ground_truth.reviewer_authority")?;
        self.verifier.validate("risk_ground_truth.verifier")?;
        if identities_match(&self.reviewer.identity, &self.verifier.identity) || identities_match(
            &self.reviewer.identity,
            &self.decision_producer_identity,
        ) || identities_match(&self.verifier.identity, &self.decision_producer_identity) {
            return Err(empty_field("risk_ground_truth.independence"));
        }
        if !self.has_sound_basis() {
            return Err(empty_field("risk_ground_truth.basis_refs"));
        }
        if self.expected_risk_ids.is_empty() || set_has_blank(&self.expected_risk_ids)
            || set_has_blank(&self.detected_risk_ids) || !self.detected_risk_ids.is_subset(
            &self.expected_risk_ids,
        ) {
            return Err(invalid_budget("risk_ground_truth.risk_ids"));
        }
        if self.valid_until.is_before(&self.assessed_at) {
            return Err(invalid_budget("risk_ground_truth.validity"));
        }
        if let Some(sealed_at) = self.sealed_at {
            if sealed_at.is_before(&self.assessed_at) || self.valid_until.is_before(&sealed_at)
                || sealed_at.date().is_before(&self.observed_trading_day) {
                return Err(invalid_budget("risk_ground_truth.sealed_at"));
            }
        }
        Ok(())
    }

    pub open spec fn use_verdict(&self, used_at: UtcTime) -> Verdict {
        if self.verdict() is Err {
            self.verdict()
        } else {
            match self.sealed_at {
                None => Err(empty("risk_ground_truth.sealed_at"@)),
                Some(sealed_at) => demand(
                    !earlier(used_at, sealed_at) && !earlier(self.valid_until, used_at),
                    budget("risk_ground_truth.stale"@),
                ),
            }
        }
    }

    /// Checks that the assessment was sealed and still valid when it was used.
    pub fn validate_sealed_at(&self, used_at: UtcTime) -> (r: Result<(), DomainError>)
        ensures
            outcome(r) == self.use_verdict(used_at),
    {
        self.validate()?;
        match self.sealed_at {
            None => Err(empty_field("risk_ground_truth.sealed_at")),
            Some(sealed_at) => {
                if used_at.is_before(&sealed_at) || self.valid_until.is_before(&used_at) {
                    return Err(invalid_budget("risk_ground_truth.stale"));
                }
                Ok(())
            },
        }
    }

    pub fn expected_count(&self) -> (r: u64)
        ensures
            r == self.expected_risk_ids@.len(),
    {
        self.expected_risk_ids.len() as u64
    }

    pub fn detected_count(&self) -> (r: u64)
        ensures
            r == self.detected_risk_ids@.len(),
    {
        self.detected_risk_ids.len() as u64
    }
}

fn identities_match(left: &str, right: &str) -> (r: bool)
    ensures
        r == alike(left@, right@),
{
    are_alike(left, right)
}

/// A valid assessment never detects more risks than were to be expected.
pub proof fn detected_risks_are_expected(a: RiskGroundTruthAssessment)
    requires
        a.verdict() is Ok,
        a.expected_risk_ids@.finite(),
    ensures
        a.detected_risk_ids@.len() <= a.expected_risk_ids@.len(),
{
    vstd::set_lib::lemma_len_subset(a.detected_risk_ids@, a.expected_risk_ids@);
}

/// No one judges under two names that differ only in case or in white space around them.
pub proof fn judges_of_a_valid_assessment_differ(a: RiskGroundTruthAssessment)
    requires
        a.verdict() is Ok,
    ensures
        a.reviewer.identity@ != a.verifier.identity@,
        a.reviewer.identity@ != a.decision_producer_identity@,
        a.verifier.identity@ != a.decision_producer_identity@,
{
}

/// What a risk assessment authority is refused with: the first fault that it has.
pub proof fn refusal_of_risk_assessment_authority_names_its_fault(
    this: RiskAssessmentAuthority,
    field: Seq<char>,
)
    ensures
        !(!blank(this.identity@) && !blank(this.version@))
            ==> this.verdict(field) == Verdict::Err(empty(field)),
{
}

/// What a risk ground truth assessment is refused with: the first fault that it has.
pub proof fn refusal_of_risk_ground_truth_assessment_names_its_fault(
    this: RiskGroundTruthAssessment,
)
    ensures
        (this.schema_version != DOMAIN_SCHEMA_VERSION)
            ==> this.verdict() == Verdict::Err(empty("risk_ground_truth.schema_version"@)),
        !(this.schema_version != DOMAIN_SCHEMA_VERSION) && (!(this.schedule.kind is OutcomeSchedule)
            || !(this.decision.kind is Decision))
            ==> this.verdict() == Verdict::Err(empty("risk_ground_truth.references"@)),
        !(this.schema_version != DOMAIN_SCHEMA_VERSION)
            && !(!(this.schedule.kind is OutcomeSchedule) || !(this.decision.kind is Decision))
            && (blank(this.decision_producer_identity@))
            ==> this.verdict() == Verdict::Err(
                empty("risk_ground_truth.decision_producer_identity"@),
            ),
        !(this.schema_version != DOMAIN_SCHEMA_VERSION)
            && !(!(this.schedule.kind is OutcomeSchedule) || !(this.decision.kind is Decision))
            && !(blank(this.decision_producer_identity@))
            && this.reviewer.verdict("risk_ground_truth.reviewer_authority"@) is Ok
            && this.verifier.verdict("risk_ground_truth.verifier"@) is Ok
            && (!this.judges_are_independent())
            ==> this.verdict() == Verdict::Err(empty("risk_ground_truth.independence"@)),
        !(this.schema_version != DOMAIN_SCHEMA_VERSION)
            && !(!(this.schedule.kind is OutcomeSchedule) || !(this.decision.kind is Decision))
            && !(blank(this.decision_producer_identity@))
            && this.reviewer.verdict("risk_ground_truth.reviewer_authority"@) is Ok
            && this.verifier.verdict("risk_ground_truth.verifier"@) is Ok
            && !(!this.judges_are_independent()) && (!this.basis_is_sound())
            ==> this.verdict() == Verdict::Err(empty("risk_ground_truth.basis_refs"@)),
        !(this.schema_version != DOMAIN_SCHEMA_VERSION)
            && !(!(this.schedule.kind is OutcomeSchedule) || !(this.decision.kind is Decision))
            && !(blank(this.decision_producer_identity@))
            && this.reviewer.verdict("risk_ground_truth.reviewer_authority"@) is Ok
            && this.verifier.verdict("risk_ground_truth.verifier"@) is Ok
            && !(!this.judges_are_independent()) && !(!this.basis_is_sound())
            && (!this.risks_are_sound())
            ==> this.verdict() == Verdict::Err(budget("risk_ground_truth.risk_ids"@)),
        !(this.schema_version != DOMAIN_SCHEMA_VERSION)
            && !(!(this.schedule.kind is OutcomeSchedule) || !(this.decision.kind is Decision))
            && !(blank(this.decision_producer_identity@))
            && this.reviewer.verdict("risk_ground_truth.reviewer_authority"@) is Ok
            && this.verifier.verdict("risk_ground_truth.verifier"@) is Ok
            && !(!this.judges_are_independent()) && !(!this.basis_is_sound())
            && !(!this.risks_are_sound()) && (earlier(this.valid_until, this.assessed_at))
            ==> this.verdict() == Verdict::Err(budget("risk_ground_truth.validity"@)),
        !(this.schema_version != DOMAIN_SCHEMA_VERSION)
            && !(!(this.schedule.kind is OutcomeSchedule) || !(this.decision.kind is Decision))
            && !(blank(this.decision_producer_identity@))
            && this.reviewer.verdict("risk_ground_truth.reviewer_authority"@) is Ok
            && this.verifier.verdict("risk_ground_truth.verifier"@) is Ok
            && !(!this.judges_are_independent()) && !(!this.basis_is_sound())
            && !(!this.risks_are_sound()) && !(earlier(this.valid_until, this.assessed_at))
            && !(this.seal_is_sound())
            ==> this.verdict() == Verdict::Err(budget("risk_ground_truth.sealed_at"@)),
{
}

} // verus!
