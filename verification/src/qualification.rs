//! Receipts of the stages that a change of behavior must pass.
use crate::artifact::{ArtifactKind, ArtifactRef};
use crate::error::{budget, demand, invalid_budget, outcome, DomainError, Verdict};
use crate::foundation::{digest_of, is_digest, json_digest, ContentHash};
use crate::json::{
    json_content, json_insert, json_new_object, json_object, json_text, no_members, JsonTree,
    ToJson,
};
use crate::ordered::OrderedMap;
use crate::text::{blank, is_blank};
use crate::time::UtcTime;
use crate::DOMAIN_SCHEMA_VERSION;
use vstd::prelude::*;

verus! {

/// The stages, in their order.
#[derive(Clone, Copy, Debug, PartialEq, Eq, PartialOrd, Ord, Hash, Structural)]
pub enum QualificationStage {
    Replay,
    Adversarial,
    ExecutionSimulation,
    Shadow,
    Canary,
}

impl QualificationStage {
    /// The name of the variant in JSON.
    pub open spec fn wire(self) -> Seq<char> {
        match self {
            QualificationStage::Replay => "replay"@,
            QualificationStage::Adversarial => "adversarial"@,
            QualificationStage::ExecutionSimulation => "execution_simulation"@,
            QualificationStage::Shadow => "shadow"@,
            QualificationStage::Canary => "canary"@,
        }
    }

    /// The name of the variant in JSON.
    pub fn wire_name(self) -> (r: &'static str)
        ensures
            r@ == self.wire(),
    {
        match self {
            QualificationStage::Replay => "replay",
            QualificationStage::Adversarial => "adversarial",
            QualificationStage::ExecutionSimulation => "execution_simulation",
            QualificationStage::Shadow => "shadow",
            QualificationStage::Canary => "canary",
        }
    }
}

impl ToJson for QualificationStage {
    open spec fn json(&self) -> JsonTree {
        JsonTree::Text(self.wire())
    }

    fn to_json(&self) -> (r: serde_json::Value) {
        json_text(self.wire_name())
    }
}

impl QualificationStage {
    pub const ORDERED: [QualificationStage; 5] = [
        QualificationStage::Replay,
        QualificationStage::Adversarial,
        QualificationStage::ExecutionSimulation,
        QualificationStage::Shadow,
        QualificationStage::Canary,
    ];

    pub fn as_str(self) -> (r: &'static str)
        ensures
            r@ == self.wire(),
    {
        self.wire_name()
    }
}

/// How a stage came out.
#[derive(Clone, Copy, Debug, PartialEq, Eq, PartialOrd, Ord, Hash, Structural)]
pub enum QualificationVerdict {
    Pass,
    Fail,
    Inconclusive,
    Regressed,
}

impl QualificationVerdict {
    /// The name of the variant in JSON.
    pub open spec fn wire(self) -> Seq<char> {
        match self {
            QualificationVerdict::Pass => "pass"@,
            QualificationVerdict::Fail => "fail"@,
            QualificationVerdict::Inconclusive => "inconclusive"@,
            QualificationVerdict::Regressed => "regressed"@,
        }
    }

    /// The name of the variant in JSON.
    pub fn wire_name(self) -> (r: &'static str)
        ensures
            r@ == self.wire(),
    {
        match self {
            QualificationVerdict::Pass => "pass",
            QualificationVerdict::Fail => "fail",
            QualificationVerdict::Inconclusive => "inconclusive",
            QualificationVerdict::Regressed => "regressed",
        }
    }
}

impl ToJson for QualificationVerdict {
    open spec fn json(&self) -> JsonTree {
        JsonTree::Text(self.wire())
    }

    fn to_json(&self) -> (r: serde_json::Value) {
        json_text(self.wire_name())
    }
}

impl QualificationVerdict {
    pub fn is_pass(self) -> (r: bool)
        ensures
            r == (self is Pass),
    {
        matches!(self, QualificationVerdict::Pass)
    }
}

/// What was compared in a stage on a scenario, by whom, and how it came out.
#[derive(Debug, Clone, PartialEq, Eq)]
pub struct QualificationStageReceipt {
    pub schema_version: u32,
    pub receipt_id: ContentHash,
    pub behavior_bundle_hash: ContentHash,
    pub qualification_key_hash: ContentHash,
    pub stage: QualificationStage,
    pub scenario_bank_hash: ContentHash,
    pub scenario_id: String,
    pub critical: bool,
    pub frozen_context_manifest: ArtifactRef,
    pub champion_snapshot: ContentHash,
    pub challenger_snapshot: ContentHash,
    pub champion_output: ArtifactRef,
    pub challenger_output: ArtifactRef,
    pub evaluator_commitment: ContentHash,
    pub evaluator_reveal: ContentHash,
    pub evaluator_version_hash: ContentHash,
    pub measured_metrics: OrderedMap<String, i64>,
    pub deterministic_verdict: QualificationVerdict,
    pub source_refs: Vec<ArtifactRef>,
    pub created_at: UtcTime,
}

impl QualificationStageReceipt {
    /// What the identity is the digest of.
    pub open spec fn identity_json(&self) -> JsonTree {
        let m = no_members();
        let m = m.insert("schema_version"@, self.schema_version.json());
        let m = m.insert("behavior_bundle_hash"@, self.behavior_bundle_hash.json());
        let m = m.insert("qualification_key_hash"@, self.qualification_key_hash.json());
        let m = m.insert("stage"@, self.stage.json());
        let m = m.insert("scenario_bank_hash"@, self.scenario_bank_hash.json());
        let m = m.insert("scenario_id"@, self.scenario_id.json());
        let m = m.insert("critical"@, self.critical.json());
        let m = m.insert("frozen_context_manifest"@, self.frozen_context_manifest.json());
        let m = m.insert("champion_snapshot"@, self.champion_snapshot.json());
        let m = m.insert("challenger_snapshot"@, self.challenger_snapshot.json());
        let m = m.insert("champion_output"@, self.champion_output.json());
        let m = m.insert("challenger_output"@, self.challenger_output.json());
        let m = m.insert("evaluator_commitment"@, self.evaluator_commitment.json());
        let m = m.insert("evaluator_reveal"@, self.evaluator_reveal.json());
        let m = m.insert("evaluator_version_hash"@, self.evaluator_version_hash.json());
        let m = m.insert("measured_metrics"@, self.measured_metrics.json());
        let m = m.insert("deterministic_verdict"@, self.deterministic_verdict.json());
        let m = m.insert("source_refs"@, self.source_refs.json());
        let m = m.insert("created_at"@, self.created_at.json());
        JsonTree::Object(m)
    }

    pub open spec fn identity(&self) -> Seq<char> {
        json_digest(self.identity_json())
    }

    fn identity_value(&self) -> (r: serde_json::Value)
        ensures
            json_content(r) == self.identity_json(),
    {
        let mut members = json_new_object();
        json_insert(&mut members, "schema_version", self.schema_version.to_json());
        json_insert(&mut members, "behavior_bundle_hash", self.behavior_bundle_hash.to_json());
        json_insert(&mut members, "qualification_key_hash", self.qualification_key_hash.to_json());
        json_insert(&mut members, "stage", self.stage.to_json());
        json_insert(&mut members, "scenario_bank_hash", self.scenario_bank_hash.to_json());
        json_insert(&mut members, "scenario_id", self.scenario_id.to_json());
        json_insert(&mut members, "critical", self.critical.to_json());
        json_insert(
            &mut members,
            "frozen_context_manifest",
            self.frozen_context_manifest.to_json(),
        );
        json_insert(&mut members, "champion_snapshot", self.champion_snapshot.to_json());
        json_insert(&mut members, "challenger_snapshot", self.challenger_snapshot.to_json());
        json_insert(&mut members, "champion_output", self.champion_output.to_json());
        json_insert(&mut members, "challenger_output", self.challenger_output.to_json());
        json_insert(&mut members, "evaluator_commitment", self.evaluator_commitment.to_json());
        json_insert(&mut members, "evaluator_reveal", self.evaluator_reveal.to_json());
        json_insert(&mut members, "evaluator_version_hash", self.evaluator_version_hash.to_json());
        json_insert(&mut members, "measured_metrics", self.measured_metrics.to_json());
        json_insert(&mut members, "deterministic_verdict", self.deterministic_verdict.to_json());
        json_insert(&mut members, "source_refs", self.source_refs.to_json());
        json_insert(&mut members, "created_at", self.created_at.to_json());
        json_object(members)
    }
}

/// What can be compared.
pub open spec fn is_comparable_output(kind: ArtifactKind) -> bool {
    ||| kind is Evaluation
    ||| kind is DecisionProposal
    ||| kind is Decision
    ||| kind is AgentTurn
}

fn is_output(kind: ArtifactKind) -> (r: bool)
    ensures
        r == is_comparable_output(kind),
{
    matches!(
        kind,
        ArtifactKind::Evaluation | ArtifactKind::DecisionProposal | ArtifactKind::Decision
            | ArtifactKind::AgentTurn
    )
}

impl QualificationStageReceipt {
    pub open spec fn is_sound(&self, identity_fits: bool) -> bool {
        &&& self.schema_version == DOMAIN_SCHEMA_VERSION
        &&& identity_fits
        &&& !blank(self.scenario_id@)
        &&& self.frozen_context_manifest.kind is ContextManifest
        &&& is_comparable_output(self.champion_output.kind)
        &&& is_comparable_output(self.challenger_output.kind)
    }

    pub open spec fn verdict(&self) -> Verdict {
        demand(
            self.is_sound(self.receipt_id@ == self.identity()),
            budget("qualification_stage_receipt"@),
        )
    }

    /// The receipt under its own identity, where it is valid.
    pub fn seal(self) -> (r: Result<QualificationStageReceipt, DomainError>)
        ensures
            match r {
                Ok(sealed) => {
                    &&& sealed == (QualificationStageReceipt {
                        receipt_id: sealed.receipt_id,
                        ..self
                    })
                    &&& sealed.receipt_id@ == self.identity()
                    &&& sealed.verdict() is Ok
                },
                Err(e) => !self.is_sound(true) && e@ == budget("qualification_stage_receipt"@),
            },
    {
        let id = self.identity_hash()?;
        let sealed = QualificationStageReceipt { receipt_id: id, ..self };
        proof {
            assert(sealed.identity_json() == self.identity_json());
        }
        sealed.validate()?;
        Ok(sealed)
    }

    /// The digest of everything but the identity.
    pub fn identity_hash(&self) -> (r: Result<ContentHash, DomainError>)
        ensures
            r is Ok,
            r->Ok_0@ == self.identity(),
            is_digest(r->Ok_0@),
    {
        Ok(digest_of(&self.identity_value()))
    }

    pub fn validate(&self) -> (r: Result<(), DomainError>)
        ensures
            outcome(r) == self.verdict(),
    {
        let expected = self.identity_hash()?;
        if self.schema_version != DOMAIN_SCHEMA_VERSION || !self.receipt_id.same(&expected)
            || is_blank(&self.scenario_id) || self.frozen_context_manifest.kind
            != ArtifactKind::ContextManifest || !is_output(self.champion_output.kind)
            || !is_output(self.challenger_output.kind) {
            return Err(invalid_budget("qualification_stage_receipt"));
        }
        Ok(())
    }
}

/// What a qualification stage receipt is refused with: the first fault that it has.
pub proof fn refusal_of_qualification_stage_receipt_names_its_fault(
    this: QualificationStageReceipt,
)
    ensures
        !(this.is_sound(this.receipt_id@ == this.identity()))
            ==> this.verdict() == Verdict::Err(budget("qualification_stage_receipt"@)),
{
}

} // verus!
