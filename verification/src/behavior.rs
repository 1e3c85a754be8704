//! The identity of all that makes agents behave as they do.
use crate::artifact::{ArtifactKind, ArtifactRef};
use crate::error::{demand, empty, empty_field, outcome, DomainError, Verdict};
use crate::foundation::{digest_of, is_digest, json_digest, ContentHash};
use crate::json::{
    json_content, json_insert, json_new_object, json_object, json_text, no_members, JsonTree,
    ToJson,
};
use crate::text::{blank, is_blank};
use crate::time::UtcTime;
use crate::DOMAIN_SCHEMA_VERSION;
use vstd::prelude::*;

verus! {

/// Why the behavior was changed.
#[derive(Clone, Copy, Debug, PartialEq, Eq, PartialOrd, Ord, Hash, Structural)]
pub enum BehaviorChangeReason {
    InitialBaseline,
    PromptRefinement,
    ModelSnapshotUpgrade,
    PolicyAdjustment,
    RegimeDetectorUpdate,
    ContractEvolution,
    TopologyRefactor,
    CanaryPromotion,
    RollbackRemediation,
    ManualIntervention,
}

impl BehaviorChangeReason {
    /// The name of the variant in JSON.
    pub open spec fn wire(self) -> Seq<char> {
        match self {
            BehaviorChangeReason::InitialBaseline => "initial_baseline"@,
            BehaviorChangeReason::PromptRefinement => "prompt_refinement"@,
            BehaviorChangeReason::ModelSnapshotUpgrade => "model_snapshot_upgrade"@,
            BehaviorChangeReason::PolicyAdjustment => "policy_adjustment"@,
            BehaviorChangeReason::RegimeDetectorUpdate => "regime_detector_update"@,
            BehaviorChangeReason::ContractEvolution => "contract_evolution"@,
            BehaviorChangeReason::TopologyRefactor => "topology_refactor"@,
            BehaviorChangeReason::CanaryPromotion => "canary_promotion"@,
            BehaviorChangeReason::RollbackRemediation => "rollback_remediation"@,
            BehaviorChangeReason::ManualIntervention => "manual_intervention"@,
        }
    }

    /// The name of the variant in JSON.
    pub fn wire_name(self) -> (r: &'static str)
        ensures
            r@ == self.wire(),
    {
        match self {
            BehaviorChangeReason::InitialBaseline => "initial_baseline",
            BehaviorChangeReason::PromptRefinement => "prompt_refinement",
            BehaviorChangeReason::ModelSnapshotUpgrade => "model_snapshot_upgrade",
            BehaviorChangeReason::PolicyAdjustment => "policy_adjustment",
            BehaviorChangeReason::RegimeDetectorUpdate => "regime_detector_update",
            BehaviorChangeReason::ContractEvolution => "contract_evolution",
            BehaviorChangeReason::TopologyRefactor => "topology_refactor",
            BehaviorChangeReason::CanaryPromotion => "canary_promotion",
            BehaviorChangeReason::RollbackRemediation => "rollback_remediation",
            BehaviorChangeReason::ManualIntervention => "manual_intervention",
        }
    }
}

impl ToJson for BehaviorChangeReason {
    open spec fn json(&self) -> JsonTree {
        JsonTree::Text(self.wire())
    }

    fn to_json(&self) -> (r: serde_json::Value) {
        json_text(self.wire_name())
    }
}

/// Contract, topology, routes, prompts and policies as one candidate.
#[derive(Debug, Clone, PartialEq, Eq)]
pub struct BehaviorBundleManifest {
    pub schema_version: u32,
    pub bundle_hash: ContentHash,
    pub parent_bundle: Option<ContentHash>,
    pub contract: ArtifactRef,
    pub topology: ArtifactRef,
    pub model_routes_hash: ContentHash,
    pub model_capability_bundle_hash: ContentHash,
    pub prompt_bundle_hash: ContentHash,
    pub decision_policy_hash: ContentHash,
    pub execution_policy_hash: ContentHash,
    pub evaluation_policy_hash: ContentHash,
    pub governance_bundle_hash: ContentHash,
    pub regime_taxonomy_hash: ContentHash,
    pub regime_detector_hash: ContentHash,
    pub retrieval_policy_hash: ContentHash,
    pub created_by: String,
    pub created_at: UtcTime,
    pub change_reason: BehaviorChangeReason,
}

impl BehaviorBundleManifest {
    /// What the identity is the digest of.
    pub open spec fn identity_json(&self) -> JsonTree {
        let m = no_members();
        let m = m.insert("schema_version"@, self.schema_version.json());
        let m = m.insert("parent_bundle"@, self.parent_bundle.json());
        let m = m.insert("contract"@, self.contract.json());
        let m = m.insert("topology"@, self.topology.json());
        let m = m.insert("model_routes_hash"@, self.model_routes_hash.json());
        let m = m.insert("model_capability_bundle_hash"@, self.model_capability_bundle_hash.json());
        let m = m.insert("prompt_bundle_hash"@, self.prompt_bundle_hash.json());
        let m = m.insert("decision_policy_hash"@, self.decision_policy_hash.json());
        let m = m.insert("execution_policy_hash"@, self.execution_policy_hash.json());
        let m = m.insert("evaluation_policy_hash"@, self.evaluation_policy_hash.json());
        let m = m.insert("governance_bundle_hash"@, self.governance_bundle_hash.json());
        let m = m.insert("regime_taxonomy_hash"@, self.regime_taxonomy_hash.json());
        let m = m.insert("regime_detector_hash"@, self.regime_detector_hash.json());
        let m = m.insert("retrieval_policy_hash"@, self.retrieval_policy_hash.json());
        let m = m.insert("created_by"@, self.created_by.json());
        let m = m.insert("created_at"@, self.created_at.json());
        let m = m.insert("change_reason"@, self.change_reason.json());
        JsonTree::Object(m)
    }

    pub open spec fn identity(&self) -> Seq<char> {
        json_digest(self.identity_json())
    }

    fn identity_value(&self) -> (r: serde_json::Value)
        ensures
            json_content(r) == self.identity_json(),
    {
        let mut members = json_new_object();
        json_insert(&mut members, "schema_version", self.schema_version.to_json());
        json_insert(&mut members, "parent_bundle", self.parent_bundle.to_json());
        json_insert(&mut members, "contract", self.contract.to_json());
        json_insert(&mut members, "topology", self.topology.to_json());
        json_insert(&mut members, "model_routes_hash", self.model_routes_hash.to_json());
        json_insert(
            &mut members,
            "model_capability_bundle_hash",
            self.model_capability_bundle_hash.to_json(),
        );
        json_insert(&mut members, "prompt_bundle_hash", self.prompt_bundle_hash.to_json());
        json_insert(&mut members, "decision_policy_hash", self.decision_policy_hash.to_json());
        json_insert(&mut members, "execution_policy_hash", self.execution_policy_hash.to_json());
        json_insert(&mut members, "evaluation_policy_hash", self.evaluation_policy_hash.to_json());
        json_insert(&mut members, "governance_bundle_hash", self.governance_bundle_hash.to_json());
        json_insert(&mut members, "regime_taxonomy_hash", self.regime_taxonomy_hash.to_json());
        json_insert(&mut members, "regime_detector_hash", self.regime_detector_hash.to_json());
        json_insert(&mut members, "retrieval_policy_hash", self.retrieval_policy_hash.to_json());
        json_insert(&mut members, "created_by", self.created_by.to_json());
        json_insert(&mut members, "created_at", self.created_at.to_json());
        json_insert(&mut members, "change_reason", self.change_reason.to_json());
        json_object(members)
    }
}

impl BehaviorBundleManifest {
    pub open spec fn is_sound(&self, identity_fits: bool) -> bool {
        &&& self.schema_version == DOMAIN_SCHEMA_VERSION
        &&& identity_fits
        &&& self.contract.kind is Contract
        &&& self.topology.kind is WorkflowGraph
        &&& !blank(self.created_by@)
    }

    pub open spec fn verdict(&self) -> Verdict {
        demand(
            self.is_sound(self.bundle_hash@ == self.identity()),
            empty("behavior_bundle_manifest"@),
        )
    }

    /// The manifest under its own identity, where it is valid.
    pub fn seal(self) -> (r: Result<BehaviorBundleManifest, DomainError>)
        ensures
            match r {
                Ok(sealed) => {
                    &&& sealed == (BehaviorBundleManifest { bundle_hash: sealed.bundle_hash, ..self })
                    &&& sealed.bundle_hash@ == self.identity()
                    &&& sealed.verdict() is Ok
                },
                Err(e) => !self.is_sound(true) && e@ == empty("behavior_bundle_manifest"@),
            },
    {
        let hash = self.identity_hash()?;
        let sealed = BehaviorBundleManifest { bundle_hash: hash, ..self };
        proof {
            assert(sealed.identity_json() == self.identity_json());
        }
        sealed.validate()?;
        Ok(sealed)
    }

    /// The digest of everything but the digest.
    pub fn identity_hash(&self) -> (r: Result<ContentHash, DomainError>)
        ensures
            r is Ok,
            r->Ok_0@ == self.identity(),
            is_digest(r->Ok_0@),
    {
        Ok(digest_of(&self.identity_value()))
    }

    pub fn validate(&self) -> (r: Result<(), DomainError>)
        ensures
            outcome(r) == self.verdict(),
    {
        let expected = self.identity_hash()?;
        if self.schema_version != DOMAIN_SCHEMA_VERSION || !self.bundle_hash.same(&expected)
            || self.contract.kind != ArtifactKind::Contract || self.topology.kind
            != ArtifactKind::WorkflowGraph || is_blank(&self.created_by) {
            return Err(empty_field("behavior_bundle_manifest"));
        }
        Ok(())
    }
}

/// What a behavior bundle manifest is refused with: the first fault that it has.
pub proof fn refusal_of_behavior_bundle_manifest_names_its_fault(this: BehaviorBundleManifest)
    ensures
        !(this.is_sound(this.bundle_hash@ == this.identity()))
            ==> this.verdict() == Verdict::Err(empty("behavior_bundle_manifest"@)),
{
}

} // verus!
