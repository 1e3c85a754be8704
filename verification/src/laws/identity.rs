//! What holds of the identities of the records.
use crate::artifact::Artifact;
use crate::behavior::BehaviorBundleManifest;
use crate::canary::{CanaryCohortEvaluation, CanaryCohortManifest, CanaryPairedObservation, CanaryPromotionPolicy};
use crate::context::ContextSelection;
use crate::contract::{AgentContract, ContractSpec};
use crate::execution::plan::ExecutionPlan;
use crate::experiment::{ExperimentTrial, SearchBiasAcceptancePolicy, SearchBiasCertificate};
use crate::longitudinal::{MandateSnapshot, ModelQualificationKey, ModelQualificationReport};
use crate::qualification::QualificationStageReceipt;
use crate::regime::RegimeSnapshot;
use crate::release::ReleaseEvidenceBody;
use crate::evaluation::outcome::OutcomeBenchmark;
use crate::json::{JsonTree, ToJson, member_of};
use crate::lesson::LessonEvidence;
use crate::research_review::ProposalIssue;
use vstd::prelude::*;

verus! {

#[verifier::rlimit(60)]
proof fn agent_contract_identity_holds_its_fields(contract: AgentContract)
    ensures
        member_of(contract.identity_json(), "schema_version"@) == Some(
            contract.schema_version.json(),
        ),
        member_of(contract.identity_json(), "contract_id"@) == Some(contract.contract_id.json()),
        member_of(contract.identity_json(), "version"@) == Some(contract.version.json()),
        member_of(contract.identity_json(), "purpose"@) == Some(contract.purpose.json()),
        member_of(contract.identity_json(), "responsibility"@) == Some(
            contract.responsibility.json(),
        ),
        member_of(contract.identity_json(), "prompt"@) == Some(contract.prompt.json()),
        member_of(contract.identity_json(), "context"@) == Some(contract.context.json()),
        member_of(contract.identity_json(), "tool_grants"@) == Some(contract.tool_grants.json()),
        member_of(contract.identity_json(), "tool_specs"@) == Some(contract.tool_specs.json()),
        member_of(contract.identity_json(), "candidate_capability_ceiling"@) == Some(
            contract.candidate_capability_ceiling.json(),
        ),
        member_of(contract.identity_json(), "output"@) == Some(contract.output.json()),
        member_of(contract.identity_json(), "deliberation_policy"@) == Some(
            contract.deliberation_policy.json(),
        ),
        member_of(contract.identity_json(), "budget"@) == Some(contract.budget.json()),
        member_of(contract.identity_json(), "retry"@) == Some(contract.retry.json()),
        member_of(contract.identity_json(), "termination"@) == Some(contract.termination.json()),
        member_of(contract.identity_json(), "on_failure"@) == Some(contract.on_failure.json()),
{
    reveal_strlit("schema_version");
    reveal_strlit("contract_id");
    reveal_strlit("version");
    reveal_strlit("purpose");
    reveal_strlit("responsibility");
    reveal_strlit("prompt");
    reveal_strlit("context");
    reveal_strlit("tool_grants");
    reveal_strlit("tool_specs");
    reveal_strlit("candidate_capability_ceiling");
    reveal_strlit("output");
    reveal_strlit("deliberation_policy");
    reveal_strlit("budget");
    reveal_strlit("retry");
    reveal_strlit("termination");
    reveal_strlit("on_failure");
    assert("retry"@.len() == 5);
    assert("prompt"@.len() == 6 && "prompt"@[0] == 'p');
    assert("output"@.len() == 6 && "output"@[0] == 'o');
    assert("budget"@.len() == 6 && "budget"@[0] == 'b');
    assert("version"@.len() == 7 && "version"@[0] == 'v');
    assert("purpose"@.len() == 7 && "purpose"@[0] == 'p');
    assert("context"@.len() == 7 && "context"@[0] == 'c');
    assert("tool_specs"@.len() == 10 && "tool_specs"@[0] == 't');
    assert("on_failure"@.len() == 10 && "on_failure"@[0] == 'o');
    assert("contract_id"@.len() == 11 && "contract_id"@[2] == 'n');
    assert("tool_grants"@.len() == 11 && "tool_grants"@[2] == 'o');
    assert("termination"@.len() == 11 && "termination"@[2] == 'r');
    assert("schema_version"@.len() == 14 && "schema_version"@[0] == 's');
    assert("responsibility"@.len() == 14 && "responsibility"@[0] == 'r');
    assert("deliberation_policy"@.len() == 19);
    assert("candidate_capability_ceiling"@.len() == 28);
}

/// Contracts of an agent with the same identity are the same in every field that it covers.
pub proof fn agent_contracts_with_one_identity_agree(a: AgentContract, b: AgentContract)
    requires
        a.identity_json() == b.identity_json(),
    ensures
        a.schema_version.json() == b.schema_version.json(),
        a.contract_id.json() == b.contract_id.json(),
        a.version.json() == b.version.json(),
        a.purpose.json() == b.purpose.json(),
        a.responsibility.json() == b.responsibility.json(),
        a.prompt.json() == b.prompt.json(),
        a.context.json() == b.context.json(),
        a.tool_grants.json() == b.tool_grants.json(),
        a.tool_specs.json() == b.tool_specs.json(),
        a.candidate_capability_ceiling.json() == b.candidate_capability_ceiling.json(),
        a.output.json() == b.output.json(),
        a.deliberation_policy.json() == b.deliberation_policy.json(),
        a.budget.json() == b.budget.json(),
        a.retry.json() == b.retry.json(),
        a.termination.json() == b.termination.json(),
        a.on_failure.json() == b.on_failure.json(),
{
    agent_contract_identity_holds_its_fields(a);
    agent_contract_identity_holds_its_fields(b);
}

#[verifier::rlimit(60)]
proof fn artifact_identity_holds_its_fields(artifact: Artifact)
    ensures
        member_of(artifact.identity_json(), "schema_version"@) == Some(
            artifact.schema_version.json(),
        ),
        member_of(artifact.identity_json(), "kind"@) == Some(artifact.kind.json()),
        member_of(artifact.identity_json(), "blob"@) == Some(artifact.blob.json()),
        member_of(artifact.identity_json(), "producer"@) == Some(artifact.producer.json()),
        member_of(artifact.identity_json(), "lifecycle"@) == Some(artifact.lifecycle.json()),
        member_of(artifact.identity_json(), "provenance"@) == Some(artifact.provenance.json()),
        member_of(artifact.identity_json(), "origin"@) == Some(artifact.origin.json()),
        member_of(artifact.identity_json(), "created_at"@) == Some(artifact.created_at.json()),
{
    reveal_strlit("schema_version");
    reveal_strlit("kind");
    reveal_strlit("blob");
    reveal_strlit("producer");
    reveal_strlit("lifecycle");
    reveal_strlit("provenance");
    reveal_strlit("origin");
    reveal_strlit("source_refs");
    reveal_strlit("created_at");
    assert("kind"@.len() == 4 && "kind"@[0] == 'k');
    assert("blob"@.len() == 4 && "blob"@[0] == 'b');
    assert("origin"@.len() == 6);
    assert("producer"@.len() == 8);
    assert("lifecycle"@.len() == 9);
    assert("provenance"@.len() == 10 && "provenance"@[0] == 'p');
    assert("created_at"@.len() == 10 && "created_at"@[0] == 'c');
    assert("source_refs"@.len() == 11);
    assert("schema_version"@.len() == 14);
}

/// Artifacts with the same identity are the same in every field that it covers.
pub proof fn artifacts_with_one_identity_agree(a: Artifact, b: Artifact)
    requires
        a.identity_json() == b.identity_json(),
    ensures
        a.schema_version.json() == b.schema_version.json(),
        a.kind.json() == b.kind.json(),
        a.blob.json() == b.blob.json(),
        a.producer.json() == b.producer.json(),
        a.lifecycle.json() == b.lifecycle.json(),
        a.provenance.json() == b.provenance.json(),
        a.origin.json() == b.origin.json(),
        a.created_at.json() == b.created_at.json(),
{
    artifact_identity_holds_its_fields(a);
    artifact_identity_holds_its_fields(b);
}

#[verifier::rlimit(60)]
proof fn bundle_identity_holds_its_fields(bundle: BehaviorBundleManifest)
    ensures
        member_of(bundle.identity_json(), "schema_version"@) == Some(bundle.schema_version.json()),
        member_of(bundle.identity_json(), "parent_bundle"@) == Some(bundle.parent_bundle.json()),
        member_of(bundle.identity_json(), "contract"@) == Some(bundle.contract.json()),
        member_of(bundle.identity_json(), "topology"@) == Some(bundle.topology.json()),
        member_of(bundle.identity_json(), "model_routes_hash"@) == Some(
            bundle.model_routes_hash.json(),
        ),
        member_of(bundle.identity_json(), "model_capability_bundle_hash"@) == Some(
            bundle.model_capability_bundle_hash.json(),
        ),
        member_of(bundle.identity_json(), "prompt_bundle_hash"@) == Some(
            bundle.prompt_bundle_hash.json(),
        ),
        member_of(bundle.identity_json(), "decision_policy_hash"@) == Some(
            bundle.decision_policy_hash.json(),
        ),
        member_of(bundle.identity_json(), "execution_policy_hash"@) == Some(
            bundle.execution_policy_hash.json(),
        ),
        member_of(bundle.identity_json(), "evaluation_policy_hash"@) == Some(
            bundle.evaluation_policy_hash.json(),
        ),
        member_of(bundle.identity_json(), "governance_bundle_hash"@) == Some(
            bundle.governance_bundle_hash.json(),
        ),
        member_of(bundle.identity_json(), "regime_taxonomy_hash"@) == Some(
            bundle.regime_taxonomy_hash.json(),
        ),
        member_of(bundle.identity_json(), "regime_detector_hash"@) == Some(
            bundle.regime_detector_hash.json(),
        ),
        member_of(bundle.identity_json(), "retrieval_policy_hash"@) == Some(
            bundle.retrieval_policy_hash.json(),
        ),
        member_of(bundle.identity_json(), "created_by"@) == Some(bundle.created_by.json()),
        member_of(bundle.identity_json(), "created_at"@) == Some(bundle.created_at.json()),
        member_of(bundle.identity_json(), "change_reason"@) == Some(bundle.change_reason.json()),
{
    reveal_strlit("schema_version");
    reveal_strlit("parent_bundle");
    reveal_strlit("contract");
    reveal_strlit("topology");
    reveal_strlit("model_routes_hash");
    reveal_strlit("model_capability_bundle_hash");
    reveal_strlit("prompt_bundle_hash");
    reveal_strlit("decision_policy_hash");
    reveal_strlit("execution_policy_hash");
    reveal_strlit("evaluation_policy_hash");
    reveal_strlit("governance_bundle_hash");
    reveal_strlit("regime_taxonomy_hash");
    reveal_strlit("regime_detector_hash");
    reveal_strlit("retrieval_policy_hash");
    reveal_strlit("created_by");
    reveal_strlit("created_at");
    reveal_strlit("change_reason");
    assert("contract"@.len() == 8 && "contract"@[0] == 'c');
    assert("topology"@.len() == 8 && "topology"@[0] == 't');
    assert("created_by"@.len() == 10 && "created_by"@[8] == 'b');
    assert("created_at"@.len() == 10 && "created_at"@[8] == 'a');
    assert("parent_bundle"@.len() == 13 && "parent_bundle"@[0] == 'p');
    assert("change_reason"@.len() == 13 && "change_reason"@[0] == 'c');
    assert("schema_version"@.len() == 14);
    assert("model_routes_hash"@.len() == 17);
    assert("prompt_bundle_hash"@.len() == 18);
    assert("decision_policy_hash"@.len() == 20 && "decision_policy_hash"@[7] == 'n');
    assert("regime_taxonomy_hash"@.len() == 20 && "regime_taxonomy_hash"@[7] == 't');
    assert("regime_detector_hash"@.len() == 20 && "regime_detector_hash"@[7] == 'd');
    assert("execution_policy_hash"@.len() == 21 && "execution_policy_hash"@[0] == 'e');
    assert("retrieval_policy_hash"@.len() == 21 && "retrieval_policy_hash"@[0] == 'r');
    assert("evaluation_policy_hash"@.len() == 22 && "evaluation_policy_hash"@[0] == 'e');
    assert("governance_bundle_hash"@.len() == 22 && "governance_bundle_hash"@[0] == 'g');
    assert("model_capability_bundle_hash"@.len() == 28);
}

/// Bundles of behaviour with the same identity are the same in every field that it covers.
pub proof fn bundles_with_one_identity_agree(a: BehaviorBundleManifest, b: BehaviorBundleManifest)
    requires
        a.identity_json() == b.identity_json(),
    ensures
        a.schema_version.json() == b.schema_version.json(),
        a.parent_bundle.json() == b.parent_bundle.json(),
        a.contract.json() == b.contract.json(),
        a.topology.json() == b.topology.json(),
        a.model_routes_hash.json() == b.model_routes_hash.json(),
        a.model_capability_bundle_hash.json() == b.model_capability_bundle_hash.json(),
        a.prompt_bundle_hash.json() == b.prompt_bundle_hash.json(),
        a.decision_policy_hash.json() == b.decision_policy_hash.json(),
        a.execution_policy_hash.json() == b.execution_policy_hash.json(),
        a.evaluation_policy_hash.json() == b.evaluation_policy_hash.json(),
        a.governance_bundle_hash.json() == b.governance_bundle_hash.json(),
        a.regime_taxonomy_hash.json() == b.regime_taxonomy_hash.json(),
        a.regime_detector_hash.json() == b.regime_detector_hash.json(),
        a.retrieval_policy_hash.json() == b.retrieval_policy_hash.json(),
        a.created_by.json() == b.created_by.json(),
        a.created_at.json() == b.created_at.json(),
        a.change_reason.json() == b.change_reason.json(),
{
    bundle_identity_holds_its_fields(a);
    bundle_identity_holds_its_fields(b);
}

#[verifier::rlimit(60)]
proof fn cohort_evaluation_identity_holds_its_fields(evaluation: CanaryCohortEvaluation)
    ensures
        member_of(evaluation.identity_json(), "schema_version"@) == Some(
            evaluation.schema_version.json(),
        ),
        member_of(evaluation.identity_json(), "cohort_id"@) == Some(evaluation.cohort_id.json()),
        member_of(evaluation.identity_json(), "promotion_policy_hash"@) == Some(
            evaluation.promotion_policy_hash.json(),
        ),
        member_of(evaluation.identity_json(), "observation_set_hash"@) == Some(
            evaluation.observation_set_hash.json(),
        ),
        member_of(evaluation.identity_json(), "verdict"@) == Some(evaluation.verdict.json()),
        member_of(evaluation.identity_json(), "paired_sessions_by_horizon"@) == Some(
            evaluation.paired_sessions_by_horizon.json(),
        ),
        member_of(evaluation.identity_json(), "distinct_market_days"@) == Some(
            evaluation.distinct_market_days.json(),
        ),
        member_of(evaluation.identity_json(), "covered_regimes"@) == Some(
            evaluation.covered_regimes.json(),
        ),
        member_of(evaluation.identity_json(), "calibration_reports"@) == Some(
            evaluation.calibration_reports.json(),
        ),
        member_of(evaluation.identity_json(), "search_bias_certificate"@) == Some(
            evaluation.search_bias_certificate.json(),
        ),
{
    reveal_strlit("schema_version");
    reveal_strlit("cohort_id");
    reveal_strlit("promotion_policy_hash");
    reveal_strlit("observation_set_hash");
    reveal_strlit("verdict");
    reveal_strlit("paired_sessions_by_horizon");
    reveal_strlit("distinct_market_days");
    reveal_strlit("covered_regimes");
    reveal_strlit("calibration_reports");
    reveal_strlit("search_bias_certificate");
    assert("verdict"@.len() == 7);
    assert("cohort_id"@.len() == 9);
    assert("schema_version"@.len() == 14);
    assert("covered_regimes"@.len() == 15);
    assert("calibration_reports"@.len() == 19);
    assert("observation_set_hash"@.len() == 20 && "observation_set_hash"@[0] == 'o');
    assert("distinct_market_days"@.len() == 20 && "distinct_market_days"@[0] == 'd');
    assert("promotion_policy_hash"@.len() == 21);
    assert("search_bias_certificate"@.len() == 23);
    assert("paired_sessions_by_horizon"@.len() == 26);
}

/// Evaluations of a cohort with the same identity are the same in every field that it covers.
pub proof fn cohort_evaluations_with_one_identity_agree(
    a: CanaryCohortEvaluation,
    b: CanaryCohortEvaluation,
)
    requires
        a.identity_json() == b.identity_json(),
    ensures
        a.schema_version.json() == b.schema_version.json(),
        a.cohort_id.json() == b.cohort_id.json(),
        a.promotion_policy_hash.json() == b.promotion_policy_hash.json(),
        a.observation_set_hash.json() == b.observation_set_hash.json(),
        a.verdict.json() == b.verdict.json(),
        a.paired_sessions_by_horizon.json() == b.paired_sessions_by_horizon.json(),
        a.distinct_market_days.json() == b.distinct_market_days.json(),
        a.covered_regimes.json() == b.covered_regimes.json(),
        a.calibration_reports.json() == b.calibration_reports.json(),
        a.search_bias_certificate.json() == b.search_bias_certificate.json(),
{
    cohort_evaluation_identity_holds_its_fields(a);
    cohort_evaluation_identity_holds_its_fields(b);
}

#[verifier::rlimit(60)]
proof fn cohort_identity_holds_its_fields(cohort: CanaryCohortManifest)
    ensures
        member_of(cohort.identity_json(), "schema_version"@) == Some(cohort.schema_version.json()),
        member_of(cohort.identity_json(), "campaign_id"@) == Some(cohort.campaign_id.json()),
        member_of(cohort.identity_json(), "parent_contract_hash"@) == Some(
            cohort.parent_contract_hash.json(),
        ),
        member_of(cohort.identity_json(), "candidate_contract_hash"@) == Some(
            cohort.candidate_contract_hash.json(),
        ),
        member_of(cohort.identity_json(), "parent_topology_id"@) == Some(
            cohort.parent_topology_id.json(),
        ),
        member_of(cohort.identity_json(), "candidate_topology_id"@) == Some(
            cohort.candidate_topology_id.json(),
        ),
        member_of(cohort.identity_json(), "validation_stage"@) == Some(
            cohort.validation_stage.json(),
        ),
        member_of(cohort.identity_json(), "observation_start"@) == Some(
            cohort.observation_start.json(),
        ),
        member_of(cohort.identity_json(), "observation_end"@) == Some(
            cohort.observation_end.json(),
        ),
        member_of(cohort.identity_json(), "asset_universe"@) == Some(cohort.asset_universe.json()),
        member_of(cohort.identity_json(), "cost_model"@) == Some(cohort.cost_model.json()),
        member_of(cohort.identity_json(), "market_calendar_id"@) == Some(
            cohort.market_calendar_id.json(),
        ),
        member_of(cohort.identity_json(), "market_regimes"@) == Some(cohort.market_regimes.json()),
        member_of(cohort.identity_json(), "generation_dataset_id"@) == Some(
            cohort.generation_dataset_id.json(),
        ),
        member_of(cohort.identity_json(), "promotion_dataset_id"@) == Some(
            cohort.promotion_dataset_id.json(),
        ),
        member_of(cohort.identity_json(), "promotion_policy_hash"@) == Some(
            cohort.promotion_policy_hash.json(),
        ),
        member_of(cohort.identity_json(), "search_bias_certificate"@) == Some(
            cohort.search_bias_certificate.json(),
        ),
        member_of(cohort.identity_json(), "promotion_integrity"@) == Some(
            cohort.promotion_integrity.json(),
        ),
        member_of(cohort.identity_json(), "capability_retention"@) == Some(
            cohort.capability_retention.json(),
        ),
{
    reveal_strlit("schema_version");
    reveal_strlit("campaign_id");
    reveal_strlit("parent_contract_hash");
    reveal_strlit("candidate_contract_hash");
    reveal_strlit("parent_topology_id");
    reveal_strlit("candidate_topology_id");
    reveal_strlit("validation_stage");
    reveal_strlit("observation_start");
    reveal_strlit("observation_end");
    reveal_strlit("asset_universe");
    reveal_strlit("cost_model");
    reveal_strlit("market_calendar_id");
    reveal_strlit("market_regimes");
    reveal_strlit("generation_dataset_id");
    reveal_strlit("promotion_dataset_id");
    reveal_strlit("promotion_policy_hash");
    reveal_strlit("search_bias_certificate");
    reveal_strlit("promotion_integrity");
    reveal_strlit("capability_retention");
    assert("cost_model"@.len() == 10);
    assert("campaign_id"@.len() == 11);
    assert("schema_version"@.len() == 14 && "schema_version"@[0] == 's');
    assert("asset_universe"@.len() == 14 && "asset_universe"@[0] == 'a');
    assert("market_regimes"@.len() == 14 && "market_regimes"@[0] == 'm');
    assert("observation_end"@.len() == 15);
    assert("validation_stage"@.len() == 16);
    assert("observation_start"@.len() == 17);
    assert("parent_topology_id"@.len() == 18 && "parent_topology_id"@[0] == 'p');
    assert("market_calendar_id"@.len() == 18 && "market_calendar_id"@[0] == 'm');
    assert("promotion_integrity"@.len() == 19);
    assert("parent_contract_hash"@.len() == 20 && "parent_contract_hash"@[2] == 'r');
    assert("promotion_dataset_id"@.len() == 20 && "promotion_dataset_id"@[2] == 'o');
    assert("capability_retention"@.len() == 20 && "capability_retention"@[2] == 'p');
    assert("candidate_topology_id"@.len() == 21 && "candidate_topology_id"@[0] == 'c');
    assert("generation_dataset_id"@.len() == 21 && "generation_dataset_id"@[0] == 'g');
    assert("promotion_policy_hash"@.len() == 21 && "promotion_policy_hash"@[0] == 'p');
    assert("candidate_contract_hash"@.len() == 23 && "candidate_contract_hash"@[0] == 'c');
    assert("search_bias_certificate"@.len() == 23 && "search_bias_certificate"@[0] == 's');
}

/// Cohorts with the same identity are the same in every field that it covers.
pub proof fn cohorts_with_one_identity_agree(a: CanaryCohortManifest, b: CanaryCohortManifest)
    requires
        a.identity_json() == b.identity_json(),
    ensures
        a.schema_version.json() == b.schema_version.json(),
        a.campaign_id.json() == b.campaign_id.json(),
        a.parent_contract_hash.json() == b.parent_contract_hash.json(),
        a.candidate_contract_hash.json() == b.candidate_contract_hash.json(),
        a.parent_topology_id.json() == b.parent_topology_id.json(),
        a.candidate_topology_id.json() == b.candidate_topology_id.json(),
        a.validation_stage.json() == b.validation_stage.json(),
        a.observation_start.json() == b.observation_start.json(),
        a.observation_end.json() == b.observation_end.json(),
        a.asset_universe.json() == b.asset_universe.json(),
        a.cost_model.json() == b.cost_model.json(),
        a.market_calendar_id.json() == b.market_calendar_id.json(),
        a.market_regimes.json() == b.market_regimes.json(),
        a.generation_dataset_id.json() == b.generation_dataset_id.json(),
        a.promotion_dataset_id.json() == b.promotion_dataset_id.json(),
        a.promotion_policy_hash.json() == b.promotion_policy_hash.json(),
        a.search_bias_certificate.json() == b.search_bias_certificate.json(),
        a.promotion_integrity.json() == b.promotion_integrity.json(),
        a.capability_retention.json() == b.capability_retention.json(),
{
    cohort_identity_holds_its_fields(a);
    cohort_identity_holds_its_fields(b);
}

#[verifier::rlimit(60)]
proof fn contract_spec_identity_holds_its_fields(spec: ContractSpec)
    ensures
        member_of(spec.identity_json(), "schema_version"@) == Some(spec.schema_version.json()),
        member_of(spec.identity_json(), "contract_id"@) == Some(spec.contract_id.json()),
        member_of(spec.identity_json(), "version"@) == Some(spec.version.json()),
        member_of(spec.identity_json(), "purpose"@) == Some(spec.purpose.json()),
        member_of(spec.identity_json(), "responsibility"@) == Some(spec.responsibility.json()),
        member_of(spec.identity_json(), "prompt"@) == Some(spec.prompt.json()),
        member_of(spec.identity_json(), "context"@) == Some(spec.context.json()),
        member_of(spec.identity_json(), "tool_grants"@) == Some(spec.tool_grants.json()),
        member_of(spec.identity_json(), "output"@) == Some(spec.output.json()),
        member_of(spec.identity_json(), "budget"@) == Some(spec.budget.json()),
        member_of(spec.identity_json(), "retry"@) == Some(spec.retry.json()),
        member_of(spec.identity_json(), "termination"@) == Some(spec.termination.json()),
        member_of(spec.identity_json(), "on_failure"@) == Some(spec.on_failure.json()),
{
    reveal_strlit("schema_version");
    reveal_strlit("contract_id");
    reveal_strlit("version");
    reveal_strlit("purpose");
    reveal_strlit("responsibility");
    reveal_strlit("prompt");
    reveal_strlit("context");
    reveal_strlit("tool_grants");
    reveal_strlit("output");
    reveal_strlit("budget");
    reveal_strlit("retry");
    reveal_strlit("termination");
    reveal_strlit("on_failure");
    assert("retry"@.len() == 5);
    assert("prompt"@.len() == 6 && "prompt"@[0] == 'p');
    assert("output"@.len() == 6 && "output"@[0] == 'o');
    assert("budget"@.len() == 6 && "budget"@[0] == 'b');
    assert("version"@.len() == 7 && "version"@[0] == 'v');
    assert("purpose"@.len() == 7 && "purpose"@[0] == 'p');
    assert("context"@.len() == 7 && "context"@[0] == 'c');
    assert("on_failure"@.len() == 10);
    assert("contract_id"@.len() == 11 && "contract_id"@[2] == 'n');
    assert("tool_grants"@.len() == 11 && "tool_grants"@[2] == 'o');
    assert("termination"@.len() == 11 && "termination"@[2] == 'r');
    assert("schema_version"@.len() == 14 && "schema_version"@[0] == 's');
    assert("responsibility"@.len() == 14 && "responsibility"@[0] == 'r');
}

/// Specifications of a contract with the same identity are the same in every field that it covers.
pub proof fn contract_specs_with_one_identity_agree(a: ContractSpec, b: ContractSpec)
    requires
        a.identity_json() == b.identity_json(),
    ensures
        a.schema_version.json() == b.schema_version.json(),
        a.contract_id.json() == b.contract_id.json(),
        a.version.json() == b.version.json(),
        a.purpose.json() == b.purpose.json(),
        a.responsibility.json() == b.responsibility.json(),
        a.prompt.json() == b.prompt.json(),
        a.context.json() == b.context.json(),
        a.tool_grants.json() == b.tool_grants.json(),
        a.output.json() == b.output.json(),
        a.budget.json() == b.budget.json(),
        a.retry.json() == b.retry.json(),
        a.termination.json() == b.termination.json(),
        a.on_failure.json() == b.on_failure.json(),
{
    contract_spec_identity_holds_its_fields(a);
    contract_spec_identity_holds_its_fields(b);
}

#[verifier::rlimit(60)]
proof fn plan_identity_holds_its_fields(plan: ExecutionPlan)
    ensures
        member_of(plan.identity_json(), "schema_version"@) == Some(plan.schema_version.json()),
        member_of(plan.identity_json(), "decision_context"@) == Some(plan.decision_context.json()),
        member_of(plan.identity_json(), "account_snapshot"@) == Some(plan.account_snapshot.json()),
        member_of(plan.identity_json(), "quote_snapshot"@) == Some(plan.quote_snapshot.json()),
        member_of(plan.identity_json(), "market_clock_snapshot"@) == Some(
            plan.market_clock_snapshot.json(),
        ),
        member_of(plan.identity_json(), "policy_hash"@) == Some(plan.policy_hash.json()),
        member_of(plan.identity_json(), "maximum_total_notional"@) == Some(
            plan.maximum_total_notional.json(),
        ),
        member_of(plan.identity_json(), "target"@) == Some(plan.target.json()),
        member_of(plan.identity_json(), "orders"@) == Some(plan.orders.json()),
        member_of(plan.identity_json(), "gross_exposure_ppm"@) == Some(
            plan.gross_exposure_ppm.json(),
        ),
        member_of(plan.identity_json(), "net_exposure_ppm"@) == Some(plan.net_exposure_ppm.json()),
        member_of(plan.identity_json(), "factor_exposure"@) == Some(plan.factor_exposure.json()),
        member_of(plan.identity_json(), "turnover_ppm"@) == Some(plan.turnover_ppm.json()),
        member_of(plan.identity_json(), "broker_session"@) == Some(plan.broker_session.json()),
        member_of(plan.identity_json(), "created_at"@) == Some(plan.created_at.json()),
{
    reveal_strlit("schema_version");
    reveal_strlit("decision_context");
    reveal_strlit("account_snapshot");
    reveal_strlit("quote_snapshot");
    reveal_strlit("market_clock_snapshot");
    reveal_strlit("policy_hash");
    reveal_strlit("maximum_total_notional");
    reveal_strlit("target");
    reveal_strlit("orders");
    reveal_strlit("gross_exposure_ppm");
    reveal_strlit("net_exposure_ppm");
    reveal_strlit("factor_exposure");
    reveal_strlit("turnover_ppm");
    reveal_strlit("broker_session");
    reveal_strlit("created_at");
    assert("target"@.len() == 6 && "target"@[0] == 't');
    assert("orders"@.len() == 6 && "orders"@[0] == 'o');
    assert("created_at"@.len() == 10);
    assert("policy_hash"@.len() == 11);
    assert("turnover_ppm"@.len() == 12);
    assert("schema_version"@.len() == 14 && "schema_version"@[0] == 's');
    assert("quote_snapshot"@.len() == 14 && "quote_snapshot"@[0] == 'q');
    assert("broker_session"@.len() == 14 && "broker_session"@[0] == 'b');
    assert("factor_exposure"@.len() == 15);
    assert("decision_context"@.len() == 16 && "decision_context"@[0] == 'd');
    assert("account_snapshot"@.len() == 16 && "account_snapshot"@[0] == 'a');
    assert("net_exposure_ppm"@.len() == 16 && "net_exposure_ppm"@[0] == 'n');
    assert("gross_exposure_ppm"@.len() == 18);
    assert("market_clock_snapshot"@.len() == 21);
    assert("maximum_total_notional"@.len() == 22);
}

/// Plans with the same identity are the same in every field that it covers.
pub proof fn plans_with_one_identity_agree(a: ExecutionPlan, b: ExecutionPlan)
    requires
        a.identity_json() == b.identity_json(),
    ensures
        a.schema_version.json() == b.schema_version.json(),
        a.decision_context.json() == b.decision_context.json(),
        a.account_snapshot.json() == b.account_snapshot.json(),
        a.quote_snapshot.json() == b.quote_snapshot.json(),
        a.market_clock_snapshot.json() == b.market_clock_snapshot.json(),
        a.policy_hash.json() == b.policy_hash.json(),
        a.maximum_total_notional.json() == b.maximum_total_notional.json(),
        a.target.json() == b.target.json(),
        a.orders.json() == b.orders.json(),
        a.gross_exposure_ppm.json() == b.gross_exposure_ppm.json(),
        a.net_exposure_ppm.json() == b.net_exposure_ppm.json(),
        a.factor_exposure.json() == b.factor_exposure.json(),
        a.turnover_ppm.json() == b.turnover_ppm.json(),
        a.broker_session.json() == b.broker_session.json(),
        a.created_at.json() == b.created_at.json(),
{
    plan_identity_holds_its_fields(a);
    plan_identity_holds_its_fields(b);
}

#[verifier::rlimit(60)]
proof fn trial_identity_holds_its_fields(trial: ExperimentTrial)
    ensures
        member_of(trial.identity_json(), "schema_version"@) == Some(trial.schema_version.json()),
        member_of(trial.identity_json(), "subject"@) == Some(trial.subject.json()),
        member_of(trial.identity_json(), "parent_trial_id"@) == Some(trial.parent_trial_id.json()),
        member_of(trial.identity_json(), "candidate_hash"@) == Some(trial.candidate_hash.json()),
        member_of(trial.identity_json(), "parameters_hash"@) == Some(trial.parameters_hash.json()),
        member_of(trial.identity_json(), "prompt_hash"@) == Some(trial.prompt_hash.json()),
        member_of(trial.identity_json(), "model_snapshot_hash"@) == Some(
            trial.model_snapshot_hash.json(),
        ),
        member_of(trial.identity_json(), "provider_id"@) == Some(trial.provider_id.json()),
        member_of(trial.identity_json(), "model_id"@) == Some(trial.model_id.json()),
        member_of(trial.identity_json(), "model_release_date"@) == Some(
            trial.model_release_date.json(),
        ),
        member_of(trial.identity_json(), "model_knowledge_cutoff"@) == Some(
            trial.model_knowledge_cutoff.json(),
        ),
        member_of(trial.identity_json(), "condition"@) == Some(trial.condition.json()),
        member_of(trial.identity_json(), "generation_dataset_id"@) == Some(
            trial.generation_dataset_id.json(),
        ),
        member_of(trial.identity_json(), "validation_dataset_id"@) == Some(
            trial.validation_dataset_id.json(),
        ),
        member_of(trial.identity_json(), "holdout_dataset_id"@) == Some(
            trial.holdout_dataset_id.json(),
        ),
        member_of(trial.identity_json(), "generation_start"@) == Some(
            trial.generation_start.json(),
        ),
        member_of(trial.identity_json(), "generation_end"@) == Some(trial.generation_end.json()),
        member_of(trial.identity_json(), "validation_start"@) == Some(
            trial.validation_start.json(),
        ),
        member_of(trial.identity_json(), "validation_end"@) == Some(trial.validation_end.json()),
        member_of(trial.identity_json(), "holdout_start"@) == Some(trial.holdout_start.json()),
        member_of(trial.identity_json(), "holdout_end"@) == Some(trial.holdout_end.json()),
        member_of(trial.identity_json(), "candidate_frozen_at"@) == Some(
            trial.candidate_frozen_at.json(),
        ),
        member_of(trial.identity_json(), "holdout_first_opened_at"@) == Some(
            trial.holdout_first_opened_at.json(),
        ),
        member_of(trial.identity_json(), "holdout_access_count"@) == Some(
            trial.holdout_access_count.json(),
        ),
        member_of(trial.identity_json(), "status"@) == Some(trial.status.json()),
        member_of(trial.identity_json(), "metrics"@) == Some(trial.metrics.json()),
        member_of(trial.identity_json(), "failure_reason"@) == Some(trial.failure_reason.json()),
        member_of(trial.identity_json(), "behavior_bundle_hash"@) == Some(
            trial.behavior_bundle_hash.json(),
        ),
        member_of(trial.identity_json(), "campaign_id"@) == Some(trial.campaign_id.json()),
        member_of(trial.identity_json(), "trial_index"@) == Some(trial.trial_index.json()),
        member_of(trial.identity_json(), "source_refs"@) == Some(trial.source_refs.json()),
        member_of(trial.identity_json(), "created_at"@) == Some(trial.created_at.json()),
{
    reveal_strlit("schema_version");
    reveal_strlit("subject");
    reveal_strlit("parent_trial_id");
    reveal_strlit("candidate_hash");
    reveal_strlit("parameters_hash");
    reveal_strlit("prompt_hash");
    reveal_strlit("model_snapshot_hash");
    reveal_strlit("provider_id");
    reveal_strlit("model_id");
    reveal_strlit("model_release_date");
    reveal_strlit("model_knowledge_cutoff");
    reveal_strlit("condition");
    reveal_strlit("generation_dataset_id");
    reveal_strlit("validation_dataset_id");
    reveal_strlit("holdout_dataset_id");
    reveal_strlit("generation_start");
    reveal_strlit("generation_end");
    reveal_strlit("validation_start");
    reveal_strlit("validation_end");
    reveal_strlit("holdout_start");
    reveal_strlit("holdout_end");
    reveal_strlit("candidate_frozen_at");
    reveal_strlit("holdout_first_opened_at");
    reveal_strlit("holdout_access_count");
    reveal_strlit("status");
    reveal_strlit("metrics");
    reveal_strlit("failure_reason");
    reveal_strlit("behavior_bundle_hash");
    reveal_strlit("campaign_id");
    reveal_strlit("trial_index");
    reveal_strlit("source_refs");
    reveal_strlit("created_at");
    assert("status"@.len() == 6);
    assert("subject"@.len() == 7 && "subject"@[0] == 's');
    assert("metrics"@.len() == 7 && "metrics"@[0] == 'm');
    assert("model_id"@.len() == 8);
    assert("condition"@.len() == 9);
    assert("created_at"@.len() == 10);
    assert("prompt_hash"@.len() == 11 && "prompt_hash"@[3] == 'm');
    assert("provider_id"@.len() == 11 && "provider_id"@[3] == 'v');
    assert("holdout_end"@.len() == 11 && "holdout_end"@[3] == 'd');
    assert("campaign_id"@.len() == 11 && "campaign_id"@[3] == 'p');
    assert("trial_index"@.len() == 11 && "trial_index"@[3] == 'a');
    assert("source_refs"@.len() == 11 && "source_refs"@[3] == 'r');
    assert("holdout_start"@.len() == 13);
    assert("schema_version"@.len() == 14 && "schema_version"@[0] == 's');
    assert("candidate_hash"@.len() == 14 && "candidate_hash"@[0] == 'c');
    assert("generation_end"@.len() == 14 && "generation_end"@[0] == 'g');
    assert("validation_end"@.len() == 14 && "validation_end"@[0] == 'v');
    assert("failure_reason"@.len() == 14 && "failure_reason"@[0] == 'f');
    assert("parent_trial_id"@.len() == 15 && "parent_trial_id"@[3] == 'e');
    assert("parameters_hash"@.len() == 15 && "parameters_hash"@[3] == 'a');
    assert("generation_start"@.len() == 16 && "generation_start"@[0] == 'g');
    assert("validation_start"@.len() == 16 && "validation_start"@[0] == 'v');
    assert("model_release_date"@.len() == 18 && "model_release_date"@[0] == 'm');
    assert("holdout_dataset_id"@.len() == 18 && "holdout_dataset_id"@[0] == 'h');
    assert("model_snapshot_hash"@.len() == 19 && "model_snapshot_hash"@[0] == 'm');
    assert("candidate_frozen_at"@.len() == 19 && "candidate_frozen_at"@[0] == 'c');
    assert("holdout_access_count"@.len() == 20 && "holdout_access_count"@[0] == 'h');
    assert("behavior_bundle_hash"@.len() == 20 && "behavior_bundle_hash"@[0] == 'b');
    assert("generation_dataset_id"@.len() == 21 && "generation_dataset_id"@[0] == 'g');
    assert("validation_dataset_id"@.len() == 21 && "validation_dataset_id"@[0] == 'v');
    assert("model_knowledge_cutoff"@.len() == 22);
    assert("holdout_first_opened_at"@.len() == 23);
}

/// Trials with the same identity are the same in every field that it covers.
pub proof fn trials_with_one_identity_agree(a: ExperimentTrial, b: ExperimentTrial)
    requires
        a.identity_json() == b.identity_json(),
    ensures
        a.schema_version.json() == b.schema_version.json(),
        a.subject.json() == b.subject.json(),
        a.parent_trial_id.json() == b.parent_trial_id.json(),
        a.candidate_hash.json() == b.candidate_hash.json(),
        a.parameters_hash.json() == b.parameters_hash.json(),
        a.prompt_hash.json() == b.prompt_hash.json(),
        a.model_snapshot_hash.json() == b.model_snapshot_hash.json(),
        a.provider_id.json() == b.provider_id.json(),
        a.model_id.json() == b.model_id.json(),
        a.model_release_date.json() == b.model_release_date.json(),
        a.model_knowledge_cutoff.json() == b.model_knowledge_cutoff.json(),
        a.condition.json() == b.condition.json(),
        a.generation_dataset_id.json() == b.generation_dataset_id.json(),
        a.validation_dataset_id.json() == b.validation_dataset_id.json(),
        a.holdout_dataset_id.json() == b.holdout_dataset_id.json(),
        a.generation_start.json() == b.generation_start.json(),
        a.generation_end.json() == b.generation_end.json(),
        a.validation_start.json() == b.validation_start.json(),
        a.validation_end.json() == b.validation_end.json(),
        a.holdout_start.json() == b.holdout_start.json(),
        a.holdout_end.json() == b.holdout_end.json(),
        a.candidate_frozen_at.json() == b.candidate_frozen_at.json(),
        a.holdout_first_opened_at.json() == b.holdout_first_opened_at.json(),
        a.holdout_access_count.json() == b.holdout_access_count.json(),
        a.status.json() == b.status.json(),
        a.metrics.json() == b.metrics.json(),
        a.failure_reason.json() == b.failure_reason.json(),
        a.behavior_bundle_hash.json() == b.behavior_bundle_hash.json(),
        a.campaign_id.json() == b.campaign_id.json(),
        a.trial_index.json() == b.trial_index.json(),
        a.source_refs.json() == b.source_refs.json(),
        a.created_at.json() == b.created_at.json(),
{
    trial_identity_holds_its_fields(a);
    trial_identity_holds_its_fields(b);
}

#[verifier::rlimit(60)]
proof fn report_identity_holds_its_fields(report: ModelQualificationReport)
    ensures
        member_of(report.identity_json(), "key"@) == Some(report.key.json()),
        member_of(report.identity_json(), "behavior_fingerprint"@) == Some(
            report.behavior_fingerprint.json(),
        ),
        member_of(report.identity_json(), "evidence"@) == Some(report.evidence.json()),
        member_of(report.identity_json(), "replay_passed"@) == Some(report.replay_passed.json()),
        member_of(report.identity_json(), "adversarial_passed"@) == Some(
            report.adversarial_passed.json(),
        ),
        member_of(report.identity_json(), "execution_simulation_passed"@) == Some(
            report.execution_simulation_passed.json(),
        ),
        member_of(report.identity_json(), "shadow_passed"@) == Some(report.shadow_passed.json()),
        member_of(report.identity_json(), "canary_passed"@) == Some(report.canary_passed.json()),
        member_of(report.identity_json(), "critical_regressions"@) == Some(
            report.critical_regressions.json(),
        ),
        member_of(report.identity_json(), "approved_by"@) == Some(report.approved_by.json()),
        member_of(report.identity_json(), "qualified_at"@) == Some(report.qualified_at.json()),
        member_of(report.identity_json(), "expires_at"@) == Some(report.expires_at.json()),
{
    reveal_strlit("key");
    reveal_strlit("behavior_fingerprint");
    reveal_strlit("evidence");
    reveal_strlit("replay_passed");
    reveal_strlit("adversarial_passed");
    reveal_strlit("execution_simulation_passed");
    reveal_strlit("shadow_passed");
    reveal_strlit("canary_passed");
    reveal_strlit("critical_regressions");
    reveal_strlit("approved_by");
    reveal_strlit("qualified_at");
    reveal_strlit("expires_at");
    assert("key"@.len() == 3);
    assert("evidence"@.len() == 8);
    assert("expires_at"@.len() == 10);
    assert("approved_by"@.len() == 11);
    assert("qualified_at"@.len() == 12);
    assert("replay_passed"@.len() == 13 && "replay_passed"@[0] == 'r');
    assert("shadow_passed"@.len() == 13 && "shadow_passed"@[0] == 's');
    assert("canary_passed"@.len() == 13 && "canary_passed"@[0] == 'c');
    assert("adversarial_passed"@.len() == 18);
    assert("behavior_fingerprint"@.len() == 20 && "behavior_fingerprint"@[0] == 'b');
    assert("critical_regressions"@.len() == 20 && "critical_regressions"@[0] == 'c');
    assert("execution_simulation_passed"@.len() == 27);
}

/// Reports of a qualification with the same identity are the same in every field that it covers.
pub proof fn reports_with_one_identity_agree(
    a: ModelQualificationReport,
    b: ModelQualificationReport,
)
    requires
        a.identity_json() == b.identity_json(),
    ensures
        a.key.json() == b.key.json(),
        a.behavior_fingerprint.json() == b.behavior_fingerprint.json(),
        a.evidence.json() == b.evidence.json(),
        a.replay_passed.json() == b.replay_passed.json(),
        a.adversarial_passed.json() == b.adversarial_passed.json(),
        a.execution_simulation_passed.json() == b.execution_simulation_passed.json(),
        a.shadow_passed.json() == b.shadow_passed.json(),
        a.canary_passed.json() == b.canary_passed.json(),
        a.critical_regressions.json() == b.critical_regressions.json(),
        a.approved_by.json() == b.approved_by.json(),
        a.qualified_at.json() == b.qualified_at.json(),
        a.expires_at.json() == b.expires_at.json(),
{
    report_identity_holds_its_fields(a);
    report_identity_holds_its_fields(b);
}

#[verifier::rlimit(60)]
proof fn receipt_identity_holds_its_fields(receipt: QualificationStageReceipt)
    ensures
        member_of(receipt.identity_json(), "schema_version"@) == Some(
            receipt.schema_version.json(),
        ),
        member_of(receipt.identity_json(), "behavior_bundle_hash"@) == Some(
            receipt.behavior_bundle_hash.json(),
        ),
        member_of(receipt.identity_json(), "qualification_key_hash"@) == Some(
            receipt.qualification_key_hash.json(),
        ),
        member_of(receipt.identity_json(), "stage"@) == Some(receipt.stage.json()),
        member_of(receipt.identity_json(), "scenario_bank_hash"@) == Some(
            receipt.scenario_bank_hash.json(),
        ),
        member_of(receipt.identity_json(), "scenario_id"@) == Some(receipt.scenario_id.json()),
        member_of(receipt.identity_json(), "critical"@) == Some(receipt.critical.json()),
        member_of(receipt.identity_json(), "frozen_context_manifest"@) == Some(
            receipt.frozen_context_manifest.json(),
        ),
        member_of(receipt.identity_json(), "champion_snapshot"@) == Some(
            receipt.champion_snapshot.json(),
        ),
        member_of(receipt.identity_json(), "challenger_snapshot"@) == Some(
            receipt.challenger_snapshot.json(),
        ),
        member_of(receipt.identity_json(), "champion_output"@) == Some(
            receipt.champion_output.json(),
        ),
        member_of(receipt.identity_json(), "challenger_output"@) == Some(
            receipt.challenger_output.json(),
        ),
        member_of(receipt.identity_json(), "evaluator_commitment"@) == Some(
            receipt.evaluator_commitment.json(),
        ),
        member_of(receipt.identity_json(), "evaluator_reveal"@) == Some(
            receipt.evaluator_reveal.json(),
        ),
        member_of(receipt.identity_json(), "evaluator_version_hash"@) == Some(
            receipt.evaluator_version_hash.json(),
        ),
        member_of(receipt.identity_json(), "measured_metrics"@) == Some(
            receipt.measured_metrics.json(),
        ),
        member_of(receipt.identity_json(), "deterministic_verdict"@) == Some(
            receipt.deterministic_verdict.json(),
        ),
        member_of(receipt.identity_json(), "source_refs"@) == Some(receipt.source_refs.json()),
        member_of(receipt.identity_json(), "created_at"@) == Some(receipt.created_at.json()),
{
    reveal_strlit("schema_version");
    reveal_strlit("behavior_bundle_hash");
    reveal_strlit("qualification_key_hash");
    reveal_strlit("stage");
    reveal_strlit("scenario_bank_hash");
    reveal_strlit("scenario_id");
    reveal_strlit("critical");
    reveal_strlit("frozen_context_manifest");
    reveal_strlit("champion_snapshot");
    reveal_strlit("challenger_snapshot");
    reveal_strlit("champion_output");
    reveal_strlit("challenger_output");
    reveal_strlit("evaluator_commitment");
    reveal_strlit("evaluator_reveal");
    reveal_strlit("evaluator_version_hash");
    reveal_strlit("measured_metrics");
    reveal_strlit("deterministic_verdict");
    reveal_strlit("source_refs");
    reveal_strlit("created_at");
    assert("stage"@.len() == 5);
    assert("critical"@.len() == 8);
    assert("created_at"@.len() == 10);
    assert("scenario_id"@.len() == 11 && "scenario_id"@[1] == 'c');
    assert("source_refs"@.len() == 11 && "source_refs"@[1] == 'o');
    assert("schema_version"@.len() == 14);
    assert("champion_output"@.len() == 15);
    assert("evaluator_reveal"@.len() == 16 && "evaluator_reveal"@[0] == 'e');
    assert("measured_metrics"@.len() == 16 && "measured_metrics"@[0] == 'm');
    assert("champion_snapshot"@.len() == 17 && "champion_snapshot"@[3] == 'm');
    assert("challenger_output"@.len() == 17 && "challenger_output"@[3] == 'l');
    assert("scenario_bank_hash"@.len() == 18);
    assert("challenger_snapshot"@.len() == 19);
    assert("behavior_bundle_hash"@.len() == 20 && "behavior_bundle_hash"@[0] == 'b');
    assert("evaluator_commitment"@.len() == 20 && "evaluator_commitment"@[0] == 'e');
    assert("deterministic_verdict"@.len() == 21);
    assert("qualification_key_hash"@.len() == 22 && "qualification_key_hash"@[0] == 'q');
    assert("evaluator_version_hash"@.len() == 22 && "evaluator_version_hash"@[0] == 'e');
    assert("frozen_context_manifest"@.len() == 23);
}

/// Receipts of a stage with the same identity are the same in every field that it covers.
pub proof fn receipts_with_one_identity_agree(
    a: QualificationStageReceipt,
    b: QualificationStageReceipt,
)
    requires
        a.identity_json() == b.identity_json(),
    ensures
        a.schema_version.json() == b.schema_version.json(),
        a.behavior_bundle_hash.json() == b.behavior_bundle_hash.json(),
        a.qualification_key_hash.json() == b.qualification_key_hash.json(),
        a.stage.json() == b.stage.json(),
        a.scenario_bank_hash.json() == b.scenario_bank_hash.json(),
        a.scenario_id.json() == b.scenario_id.json(),
        a.critical.json() == b.critical.json(),
        a.frozen_context_manifest.json() == b.frozen_context_manifest.json(),
        a.champion_snapshot.json() == b.champion_snapshot.json(),
        a.challenger_snapshot.json() == b.challenger_snapshot.json(),
        a.champion_output.json() == b.champion_output.json(),
        a.challenger_output.json() == b.challenger_output.json(),
        a.evaluator_commitment.json() == b.evaluator_commitment.json(),
        a.evaluator_reveal.json() == b.evaluator_reveal.json(),
        a.evaluator_version_hash.json() == b.evaluator_version_hash.json(),
        a.measured_metrics.json() == b.measured_metrics.json(),
        a.deterministic_verdict.json() == b.deterministic_verdict.json(),
        a.source_refs.json() == b.source_refs.json(),
        a.created_at.json() == b.created_at.json(),
{
    receipt_identity_holds_its_fields(a);
    receipt_identity_holds_its_fields(b);
}

#[verifier::rlimit(60)]
proof fn regime_identity_holds_its_fields(snapshot: RegimeSnapshot)
    ensures
        member_of(snapshot.identity_json(), "schema_version"@) == Some(
            snapshot.schema_version.json(),
        ),
        member_of(snapshot.identity_json(), "classification_kind"@) == Some(
            snapshot.classification_kind.json(),
        ),
        member_of(snapshot.identity_json(), "decision_at"@) == Some(snapshot.decision_at.json()),
        member_of(snapshot.identity_json(), "as_of"@) == Some(snapshot.as_of.json()),
        member_of(snapshot.identity_json(), "taxonomy_id"@) == Some(snapshot.taxonomy_id.json()),
        member_of(snapshot.identity_json(), "detector_id"@) == Some(snapshot.detector_id.json()),
        member_of(snapshot.identity_json(), "detector_version"@) == Some(
            snapshot.detector_version.json(),
        ),
        member_of(snapshot.identity_json(), "detector_hash"@) == Some(
            snapshot.detector_hash.json(),
        ),
        member_of(snapshot.identity_json(), "input_snapshot_refs"@) == Some(
            snapshot.input_snapshot_refs.json(),
        ),
        member_of(snapshot.identity_json(), "input_snapshot_hash"@) == Some(
            snapshot.input_snapshot_hash.json(),
        ),
        member_of(snapshot.identity_json(), "trend"@) == Some(snapshot.trend.json()),
        member_of(snapshot.identity_json(), "volatility"@) == Some(snapshot.volatility.json()),
        member_of(snapshot.identity_json(), "liquidity"@) == Some(snapshot.liquidity.json()),
        member_of(snapshot.identity_json(), "breadth"@) == Some(snapshot.breadth.json()),
        member_of(snapshot.identity_json(), "risk_state"@) == Some(snapshot.risk_state.json()),
        member_of(snapshot.identity_json(), "confidence_ppm"@) == Some(
            snapshot.confidence_ppm.json(),
        ),
        member_of(snapshot.identity_json(), "entropy_ppm"@) == Some(snapshot.entropy_ppm.json()),
{
    reveal_strlit("schema_version");
    reveal_strlit("classification_kind");
    reveal_strlit("decision_at");
    reveal_strlit("as_of");
    reveal_strlit("taxonomy_id");
    reveal_strlit("detector_id");
    reveal_strlit("detector_version");
    reveal_strlit("detector_hash");
    reveal_strlit("input_snapshot_refs");
    reveal_strlit("input_snapshot_hash");
    reveal_strlit("trend");
    reveal_strlit("volatility");
    reveal_strlit("liquidity");
    reveal_strlit("breadth");
    reveal_strlit("risk_state");
    reveal_strlit("confidence_ppm");
    reveal_strlit("entropy_ppm");
    assert("as_of"@.len() == 5 && "as_of"@[0] == 'a');
    assert("trend"@.len() == 5 && "trend"@[0] == 't');
    assert("breadth"@.len() == 7);
    assert("liquidity"@.len() == 9);
    assert("volatility"@.len() == 10 && "volatility"@[0] == 'v');
    assert("risk_state"@.len() == 10 && "risk_state"@[0] == 'r');
    assert("decision_at"@.len() == 11 && "decision_at"@[3] == 'i');
    assert("taxonomy_id"@.len() == 11 && "taxonomy_id"@[3] == 'o');
    assert("detector_id"@.len() == 11 && "detector_id"@[3] == 'e');
    assert("entropy_ppm"@.len() == 11 && "entropy_ppm"@[3] == 'r');
    assert("detector_hash"@.len() == 13);
    assert("schema_version"@.len() == 14 && "schema_version"@[0] == 's');
    assert("confidence_ppm"@.len() == 14 && "confidence_ppm"@[0] == 'c');
    assert("detector_version"@.len() == 16);
    assert("classification_kind"@.len() == 19 && "classification_kind"@[15] == 'k');
    assert("input_snapshot_refs"@.len() == 19 && "input_snapshot_refs"@[15] == 'r');
    assert("input_snapshot_hash"@.len() == 19 && "input_snapshot_hash"@[15] == 'h');
}

/// Snapshots of a regime with the same identity are the same in every field that it covers.
pub proof fn regimes_with_one_identity_agree(a: RegimeSnapshot, b: RegimeSnapshot)
    requires
        a.identity_json() == b.identity_json(),
    ensures
        a.schema_version.json() == b.schema_version.json(),
        a.classification_kind.json() == b.classification_kind.json(),
        a.decision_at.json() == b.decision_at.json(),
        a.as_of.json() == b.as_of.json(),
        a.taxonomy_id.json() == b.taxonomy_id.json(),
        a.detector_id.json() == b.detector_id.json(),
        a.detector_version.json() == b.detector_version.json(),
        a.detector_hash.json() == b.detector_hash.json(),
        a.input_snapshot_refs.json() == b.input_snapshot_refs.json(),
        a.input_snapshot_hash.json() == b.input_snapshot_hash.json(),
        a.trend.json() == b.trend.json(),
        a.volatility.json() == b.volatility.json(),
        a.liquidity.json() == b.liquidity.json(),
        a.breadth.json() == b.breadth.json(),
        a.risk_state.json() == b.risk_state.json(),
        a.confidence_ppm.json() == b.confidence_ppm.json(),
        a.entropy_ppm.json() == b.entropy_ppm.json(),
{
    regime_identity_holds_its_fields(a);
    regime_identity_holds_its_fields(b);
}

#[verifier::rlimit(60)]
proof fn certificate_identity_holds_its_fields(certificate: SearchBiasCertificate)
    ensures
        member_of(certificate.identity_json(), "schema_version"@) == Some(
            certificate.schema_version.json(),
        ),
        member_of(certificate.identity_json(), "selected_trial"@) == Some(
            certificate.selected_trial.json(),
        ),
        member_of(certificate.identity_json(), "trial_refs"@) == Some(
            certificate.trial_refs.json(),
        ),
        member_of(certificate.identity_json(), "global_trial_count"@) == Some(
            certificate.global_trial_count.json(),
        ),
        member_of(certificate.identity_json(), "deflated_sharpe_ratio_ppm"@) == Some(
            certificate.deflated_sharpe_ratio_ppm.json(),
        ),
        member_of(certificate.identity_json(), "probability_of_backtest_overfitting_ppm"@) == Some(
            certificate.probability_of_backtest_overfitting_ppm.json(),
        ),
        member_of(certificate.identity_json(), "stationary_bootstrap_lower_bound_ppm"@) == Some(
            certificate.stationary_bootstrap_lower_bound_ppm.json(),
        ),
        member_of(certificate.identity_json(), "moving_block_bootstrap_lower_bound_ppm"@) == Some(
            certificate.moving_block_bootstrap_lower_bound_ppm.json(),
        ),
        member_of(certificate.identity_json(), "family_wise_error_rate_ppm"@) == Some(
            certificate.family_wise_error_rate_ppm.json(),
        ),
        member_of(certificate.identity_json(), "selected_condition"@) == Some(
            certificate.selected_condition.json(),
        ),
        member_of(certificate.identity_json(), "bright_trial"@) == Some(
            certificate.bright_trial.json(),
        ),
        member_of(certificate.identity_json(), "bright_minus_masked_bootstrap_lower_bound_ppm"@) == Some(
            certificate.bright_minus_masked_bootstrap_lower_bound_ppm.json(),
        ),
        member_of(certificate.identity_json(), "contamination_risk"@) == Some(
            certificate.contamination_risk.json(),
        ),
        member_of(certificate.identity_json(), "holdout_dataset_id"@) == Some(
            certificate.holdout_dataset_id.json(),
        ),
        member_of(certificate.identity_json(), "holdout_access_count"@) == Some(
            certificate.holdout_access_count.json(),
        ),
        member_of(certificate.identity_json(), "behavior_bundle_hash"@) == Some(
            certificate.behavior_bundle_hash.json(),
        ),
        member_of(certificate.identity_json(), "acceptance_policy_hash"@) == Some(
            certificate.acceptance_policy_hash.json(),
        ),
        member_of(certificate.identity_json(), "metric_identities"@) == Some(
            certificate.metric_identities.json(),
        ),
        member_of(certificate.identity_json(), "created_at"@) == Some(
            certificate.created_at.json(),
        ),
{
    reveal_strlit("schema_version");
    reveal_strlit("selected_trial");
    reveal_strlit("trial_refs");
    reveal_strlit("global_trial_count");
    reveal_strlit("deflated_sharpe_ratio_ppm");
    reveal_strlit("probability_of_backtest_overfitting_ppm");
    reveal_strlit("stationary_bootstrap_lower_bound_ppm");
    reveal_strlit("moving_block_bootstrap_lower_bound_ppm");
    reveal_strlit("family_wise_error_rate_ppm");
    reveal_strlit("selected_condition");
    reveal_strlit("bright_trial");
    reveal_strlit("bright_minus_masked_bootstrap_lower_bound_ppm");
    reveal_strlit("contamination_risk");
    reveal_strlit("holdout_dataset_id");
    reveal_strlit("holdout_access_count");
    reveal_strlit("behavior_bundle_hash");
    reveal_strlit("acceptance_policy_hash");
    reveal_strlit("metric_identities");
    reveal_strlit("created_at");
    assert("trial_refs"@.len() == 10 && "trial_refs"@[0] == 't');
    assert("created_at"@.len() == 10 && "created_at"@[0] == 'c');
    assert("bright_trial"@.len() == 12);
    assert("schema_version"@.len() == 14 && "schema_version"@[1] == 'c');
    assert("selected_trial"@.len() == 14 && "selected_trial"@[1] == 'e');
    assert("metric_identities"@.len() == 17);
    assert("global_trial_count"@.len() == 18 && "global_trial_count"@[0] == 'g');
    assert("selected_condition"@.len() == 18 && "selected_condition"@[0] == 's');
    assert("contamination_risk"@.len() == 18 && "contamination_risk"@[0] == 'c');
    assert("holdout_dataset_id"@.len() == 18 && "holdout_dataset_id"@[0] == 'h');
    assert("holdout_access_count"@.len() == 20 && "holdout_access_count"@[0] == 'h');
    assert("behavior_bundle_hash"@.len() == 20 && "behavior_bundle_hash"@[0] == 'b');
    assert("acceptance_policy_hash"@.len() == 22);
    assert("deflated_sharpe_ratio_ppm"@.len() == 25);
    assert("family_wise_error_rate_ppm"@.len() == 26);
    assert("stationary_bootstrap_lower_bound_ppm"@.len() == 36);
    assert("moving_block_bootstrap_lower_bound_ppm"@.len() == 38);
    assert("probability_of_backtest_overfitting_ppm"@.len() == 39);
    assert("bright_minus_masked_bootstrap_lower_bound_ppm"@.len() == 45);
}

/// Certificates with the same identity are the same in every field that it covers.
pub proof fn certificates_with_one_identity_agree(
    a: SearchBiasCertificate,
    b: SearchBiasCertificate,
)
    requires
        a.identity_json() == b.identity_json(),
    ensures
        a.schema_version.json() == b.schema_version.json(),
        a.selected_trial.json() == b.selected_trial.json(),
        a.trial_refs.json() == b.trial_refs.json(),
        a.global_trial_count.json() == b.global_trial_count.json(),
        a.deflated_sharpe_ratio_ppm.json() == b.deflated_sharpe_ratio_ppm.json(),
        a.probability_of_backtest_overfitting_ppm.json() == b.probability_of_backtest_overfitting_ppm.json(),
        a.stationary_bootstrap_lower_bound_ppm.json() == b.stationary_bootstrap_lower_bound_ppm.json(),
        a.moving_block_bootstrap_lower_bound_ppm.json() == b.moving_block_bootstrap_lower_bound_ppm.json(),
        a.family_wise_error_rate_ppm.json() == b.family_wise_error_rate_ppm.json(),
        a.selected_condition.json() == b.selected_condition.json(),
        a.bright_trial.json() == b.bright_trial.json(),
        a.bright_minus_masked_bootstrap_lower_bound_ppm.json() == b.bright_minus_masked_bootstrap_lower_bound_ppm.json(),
        a.contamination_risk.json() == b.contamination_risk.json(),
        a.holdout_dataset_id.json() == b.holdout_dataset_id.json(),
        a.holdout_access_count.json() == b.holdout_access_count.json(),
        a.behavior_bundle_hash.json() == b.behavior_bundle_hash.json(),
        a.acceptance_policy_hash.json() == b.acceptance_policy_hash.json(),
        a.metric_identities.json() == b.metric_identities.json(),
        a.created_at.json() == b.created_at.json(),
{
    certificate_identity_holds_its_fields(a);
    certificate_identity_holds_its_fields(b);
}

#[verifier::rlimit(60)]
proof fn paired_observation_json_holds_its_fields(pair: CanaryPairedObservation)
    ensures
        member_of(pair.json(), "schema_version"@) == Some(pair.schema_version.json()),
        member_of(pair.json(), "cohort_id"@) == Some(pair.cohort_id.json()),
        member_of(pair.json(), "session_key"@) == Some(pair.session_key.json()),
        member_of(pair.json(), "market_day"@) == Some(pair.market_day.json()),
        member_of(pair.json(), "regime"@) == Some(pair.regime.json()),
        member_of(pair.json(), "horizon"@) == Some(pair.horizon.json()),
        member_of(pair.json(), "asset_universe"@) == Some(pair.asset_universe.json()),
        member_of(pair.json(), "cost_model"@) == Some(pair.cost_model.json()),
        member_of(pair.json(), "market_calendar_id"@) == Some(pair.market_calendar_id.json()),
        member_of(pair.json(), "generation_dataset_id"@) == Some(pair.generation_dataset_id.json()),
        member_of(pair.json(), "promotion_dataset_id"@) == Some(pair.promotion_dataset_id.json()),
        member_of(pair.json(), "contract"@) == Some(pair.contract.json()),
        member_of(pair.json(), "topology"@) == Some(pair.topology.json()),
        member_of(pair.json(), "bundle"@) == Some(pair.bundle.json()),
{
    reveal_strlit("schema_version");
    reveal_strlit("cohort_id");
    reveal_strlit("session_key");
    reveal_strlit("market_day");
    reveal_strlit("regime");
    reveal_strlit("horizon");
    reveal_strlit("asset_universe");
    reveal_strlit("cost_model");
    reveal_strlit("market_calendar_id");
    reveal_strlit("generation_dataset_id");
    reveal_strlit("promotion_dataset_id");
    reveal_strlit("contract");
    reveal_strlit("topology");
    reveal_strlit("bundle");
    assert("regime"@.len() == 6 && "regime"@[0] == 'r');
    assert("bundle"@.len() == 6 && "bundle"@[0] == 'b');
    assert("horizon"@.len() == 7);
    assert("contract"@.len() == 8 && "contract"@[0] == 'c');
    assert("topology"@.len() == 8 && "topology"@[0] == 't');
    assert("cohort_id"@.len() == 9);
    assert("market_day"@.len() == 10 && "market_day"@[0] == 'm');
    assert("cost_model"@.len() == 10 && "cost_model"@[0] == 'c');
    assert("session_key"@.len() == 11);
    assert("schema_version"@.len() == 14 && "schema_version"@[0] == 's');
    assert("asset_universe"@.len() == 14 && "asset_universe"@[0] == 'a');
    assert("market_calendar_id"@.len() == 18);
    assert("promotion_dataset_id"@.len() == 20);
    assert("generation_dataset_id"@.len() == 21);
}

/// Paired observations with the same JSON are the same in every field.
pub proof fn paired_observations_with_one_json_agree(
    a: CanaryPairedObservation,
    b: CanaryPairedObservation,
)
    requires
        a.json() == b.json(),
    ensures
        a.schema_version.json() == b.schema_version.json(),
        a.cohort_id.json() == b.cohort_id.json(),
        a.session_key.json() == b.session_key.json(),
        a.market_day.json() == b.market_day.json(),
        a.regime.json() == b.regime.json(),
        a.horizon.json() == b.horizon.json(),
        a.asset_universe.json() == b.asset_universe.json(),
        a.cost_model.json() == b.cost_model.json(),
        a.market_calendar_id.json() == b.market_calendar_id.json(),
        a.generation_dataset_id.json() == b.generation_dataset_id.json(),
        a.promotion_dataset_id.json() == b.promotion_dataset_id.json(),
        a.contract.json() == b.contract.json(),
        a.topology.json() == b.topology.json(),
        a.bundle.json() == b.bundle.json(),
{
    paired_observation_json_holds_its_fields(a);
    paired_observation_json_holds_its_fields(b);
}

#[verifier::rlimit(60)]
proof fn promotion_policy_json_holds_its_fields(policy: CanaryPromotionPolicy)
    ensures
        member_of(policy.json(), "minimum_evidence_completeness_ppm"@) == Some(
            policy.minimum_evidence_completeness_ppm.json(),
        ),
        member_of(policy.json(), "minimum_risk_recall_ppm"@) == Some(
            policy.minimum_risk_recall_ppm.json(),
        ),
        member_of(policy.json(), "minimum_process_quality_ppm"@) == Some(
            policy.minimum_process_quality_ppm.json(),
        ),
        member_of(policy.json(), "required_paired_sessions_per_horizon"@) == Some(
            policy.required_paired_sessions_per_horizon.json(),
        ),
        member_of(policy.json(), "minimum_distinct_market_days"@) == Some(
            policy.minimum_distinct_market_days.json(),
        ),
        member_of(policy.json(), "required_regimes"@) == Some(policy.required_regimes.json()),
        member_of(policy.json(), "minimum_cost_adjusted_utility_delta_ppm"@) == Some(
            policy.minimum_cost_adjusted_utility_delta_ppm.json(),
        ),
        member_of(policy.json(), "maximum_drawdown_delta_ppm"@) == Some(
            policy.maximum_drawdown_delta_ppm.json(),
        ),
        member_of(policy.json(), "maximum_tail_loss_delta_ppm"@) == Some(
            policy.maximum_tail_loss_delta_ppm.json(),
        ),
        member_of(policy.json(), "minimum_confidence_ppm"@) == Some(
            policy.minimum_confidence_ppm.json(),
        ),
        member_of(policy.json(), "search_bias_acceptance"@) == (if policy.search_bias_acceptance is Some {
            Some(policy.search_bias_acceptance.json())
        } else {
            None
        }),
{
    reveal_strlit("minimum_evidence_completeness_ppm");
    reveal_strlit("minimum_risk_recall_ppm");
    reveal_strlit("minimum_process_quality_ppm");
    reveal_strlit("required_paired_sessions_per_horizon");
    reveal_strlit("minimum_distinct_market_days");
    reveal_strlit("required_regimes");
    reveal_strlit("minimum_cost_adjusted_utility_delta_ppm");
    reveal_strlit("maximum_drawdown_delta_ppm");
    reveal_strlit("maximum_tail_loss_delta_ppm");
    reveal_strlit("minimum_confidence_ppm");
    reveal_strlit("search_bias_acceptance");
    assert("required_regimes"@.len() == 16);
    assert("minimum_confidence_ppm"@.len() == 22 && "minimum_confidence_ppm"@[0] == 'm');
    assert("search_bias_acceptance"@.len() == 22 && "search_bias_acceptance"@[0] == 's');
    assert("minimum_risk_recall_ppm"@.len() == 23);
    assert("maximum_drawdown_delta_ppm"@.len() == 26);
    assert("minimum_process_quality_ppm"@.len() == 27 && "minimum_process_quality_ppm"@[1] == 'i');
    assert("maximum_tail_loss_delta_ppm"@.len() == 27 && "maximum_tail_loss_delta_ppm"@[1] == 'a');
    assert("minimum_distinct_market_days"@.len() == 28);
    assert("minimum_evidence_completeness_ppm"@.len() == 33);
    assert("required_paired_sessions_per_horizon"@.len() == 36);
    assert("minimum_cost_adjusted_utility_delta_ppm"@.len() == 39);
}

/// Policies of promotion with the same JSON are the same in every field.
pub proof fn promotion_policies_with_one_json_agree(
    a: CanaryPromotionPolicy,
    b: CanaryPromotionPolicy,
)
    requires
        a.json() == b.json(),
    ensures
        a.minimum_evidence_completeness_ppm.json() == b.minimum_evidence_completeness_ppm.json(),
        a.minimum_risk_recall_ppm.json() == b.minimum_risk_recall_ppm.json(),
        a.minimum_process_quality_ppm.json() == b.minimum_process_quality_ppm.json(),
        a.required_paired_sessions_per_horizon.json() == b.required_paired_sessions_per_horizon.json(),
        a.minimum_distinct_market_days.json() == b.minimum_distinct_market_days.json(),
        a.required_regimes.json() == b.required_regimes.json(),
        a.minimum_cost_adjusted_utility_delta_ppm.json() == b.minimum_cost_adjusted_utility_delta_ppm.json(),
        a.maximum_drawdown_delta_ppm.json() == b.maximum_drawdown_delta_ppm.json(),
        a.maximum_tail_loss_delta_ppm.json() == b.maximum_tail_loss_delta_ppm.json(),
        a.minimum_confidence_ppm.json() == b.minimum_confidence_ppm.json(),
        a.search_bias_acceptance is Some <==> b.search_bias_acceptance is Some,
        a.search_bias_acceptance is Some ==> a.search_bias_acceptance.json() == b.search_bias_acceptance.json(),
{
    promotion_policy_json_holds_its_fields(a);
    promotion_policy_json_holds_its_fields(b);
}

#[verifier::rlimit(60)]
proof fn context_selection_json_holds_its_fields(selection: ContextSelection)
    ensures
        member_of(selection.json(), "artifact"@) == Some(selection.artifact.json()),
        member_of(selection.json(), "reason"@) == Some(selection.reason.json()),
        member_of(selection.json(), "estimated_tokens"@) == Some(selection.estimated_tokens.json()),
        member_of(selection.json(), "projected_bytes"@) == Some(selection.projected_bytes.json()),
        member_of(selection.json(), "trust"@) == Some(selection.trust.json()),
{
    reveal_strlit("artifact");
    reveal_strlit("reason");
    reveal_strlit("estimated_tokens");
    reveal_strlit("projected_bytes");
    reveal_strlit("trust");
    assert("trust"@.len() == 5);
    assert("reason"@.len() == 6);
    assert("artifact"@.len() == 8);
    assert("projected_bytes"@.len() == 15);
    assert("estimated_tokens"@.len() == 16);
}

/// Selections of context with the same JSON are the same in every field.
pub proof fn context_selections_with_one_json_agree(a: ContextSelection, b: ContextSelection)
    requires
        a.json() == b.json(),
    ensures
        a.artifact.json() == b.artifact.json(),
        a.reason.json() == b.reason.json(),
        a.estimated_tokens.json() == b.estimated_tokens.json(),
        a.projected_bytes.json() == b.projected_bytes.json(),
        a.trust.json() == b.trust.json(),
{
    context_selection_json_holds_its_fields(a);
    context_selection_json_holds_its_fields(b);
}

#[verifier::rlimit(60)]
proof fn mandate_json_holds_its_fields(mandate: MandateSnapshot)
    ensures
        member_of(mandate.json(), "maximum_gross_exposure"@) == Some(
            mandate.maximum_gross_exposure.json(),
        ),
        member_of(mandate.json(), "maximum_drawdown_budget"@) == Some(
            mandate.maximum_drawdown_budget.json(),
        ),
        member_of(mandate.json(), "minimum_cash_reserve"@) == Some(
            mandate.minimum_cash_reserve.json(),
        ),
        member_of(mandate.json(), "prohibited_assets"@) == Some(mandate.prohibited_assets.json()),
        member_of(mandate.json(), "prohibited_actions"@) == Some(mandate.prohibited_actions.json()),
        member_of(mandate.json(), "maximum_turnover"@) == Some(mandate.maximum_turnover.json()),
        member_of(mandate.json(), "loss_response_policy"@) == Some(
            mandate.loss_response_policy.json(),
        ),
        member_of(mandate.json(), "speculation_policy"@) == Some(mandate.speculation_policy.json()),
{
    reveal_strlit("maximum_gross_exposure");
    reveal_strlit("maximum_drawdown_budget");
    reveal_strlit("minimum_cash_reserve");
    reveal_strlit("prohibited_assets");
    reveal_strlit("prohibited_actions");
    reveal_strlit("maximum_turnover");
    reveal_strlit("loss_response_policy");
    reveal_strlit("speculation_policy");
    assert("maximum_turnover"@.len() == 16);
    assert("prohibited_assets"@.len() == 17);
    assert("prohibited_actions"@.len() == 18 && "prohibited_actions"@[0] == 'p');
    assert("speculation_policy"@.len() == 18 && "speculation_policy"@[0] == 's');
    assert("minimum_cash_reserve"@.len() == 20 && "minimum_cash_reserve"@[0] == 'm');
    assert("loss_response_policy"@.len() == 20 && "loss_response_policy"@[0] == 'l');
    assert("maximum_gross_exposure"@.len() == 22);
    assert("maximum_drawdown_budget"@.len() == 23);
}

/// Mandates with the same JSON are the same in every field.
pub proof fn mandates_with_one_json_agree(a: MandateSnapshot, b: MandateSnapshot)
    requires
        a.json() == b.json(),
    ensures
        a.maximum_gross_exposure.json() == b.maximum_gross_exposure.json(),
        a.maximum_drawdown_budget.json() == b.maximum_drawdown_budget.json(),
        a.minimum_cash_reserve.json() == b.minimum_cash_reserve.json(),
        a.prohibited_assets.json() == b.prohibited_assets.json(),
        a.prohibited_actions.json() == b.prohibited_actions.json(),
        a.maximum_turnover.json() == b.maximum_turnover.json(),
        a.loss_response_policy.json() == b.loss_response_policy.json(),
        a.speculation_policy.json() == b.speculation_policy.json(),
{
    mandate_json_holds_its_fields(a);
    mandate_json_holds_its_fields(b);
}

#[verifier::rlimit(60)]
proof fn qualification_key_json_holds_its_fields(key: ModelQualificationKey)
    ensures
        member_of(key.json(), "provider_id"@) == Some(key.provider_id.json()),
        member_of(key.json(), "model_id"@) == Some(key.model_id.json()),
        member_of(key.json(), "model_snapshot_hash"@) == Some(key.model_snapshot_hash.json()),
        member_of(key.json(), "system_prompt_hash"@) == Some(key.system_prompt_hash.json()),
        member_of(key.json(), "role_prompt_hash"@) == Some(key.role_prompt_hash.json()),
        member_of(key.json(), "tool_schema_hash"@) == Some(key.tool_schema_hash.json()),
        member_of(key.json(), "runtime_config_hash"@) == Some(key.runtime_config_hash.json()),
        member_of(key.json(), "context_strategy_hash"@) == Some(key.context_strategy_hash.json()),
{
    reveal_strlit("provider_id");
    reveal_strlit("model_id");
    reveal_strlit("model_snapshot_hash");
    reveal_strlit("system_prompt_hash");
    reveal_strlit("role_prompt_hash");
    reveal_strlit("tool_schema_hash");
    reveal_strlit("runtime_config_hash");
    reveal_strlit("context_strategy_hash");
    assert("model_id"@.len() == 8);
    assert("provider_id"@.len() == 11);
    assert("role_prompt_hash"@.len() == 16 && "role_prompt_hash"@[0] == 'r');
    assert("tool_schema_hash"@.len() == 16 && "tool_schema_hash"@[0] == 't');
    assert("system_prompt_hash"@.len() == 18);
    assert("model_snapshot_hash"@.len() == 19 && "model_snapshot_hash"@[0] == 'm');
    assert("runtime_config_hash"@.len() == 19 && "runtime_config_hash"@[0] == 'r');
    assert("context_strategy_hash"@.len() == 21);
}

/// Keys of a qualification with the same JSON are the same in every field.
pub proof fn qualification_keys_with_one_json_agree(
    a: ModelQualificationKey,
    b: ModelQualificationKey,
)
    requires
        a.json() == b.json(),
    ensures
        a.provider_id.json() == b.provider_id.json(),
        a.model_id.json() == b.model_id.json(),
        a.model_snapshot_hash.json() == b.model_snapshot_hash.json(),
        a.system_prompt_hash.json() == b.system_prompt_hash.json(),
        a.role_prompt_hash.json() == b.role_prompt_hash.json(),
        a.tool_schema_hash.json() == b.tool_schema_hash.json(),
        a.runtime_config_hash.json() == b.runtime_config_hash.json(),
        a.context_strategy_hash.json() == b.context_strategy_hash.json(),
{
    qualification_key_json_holds_its_fields(a);
    qualification_key_json_holds_its_fields(b);
}

#[verifier::rlimit(60)]
proof fn qualification_report_json_holds_its_fields(report: ModelQualificationReport)
    ensures
        member_of(report.json(), "key"@) == Some(report.key.json()),
        member_of(report.json(), "behavior_fingerprint"@) == Some(
            report.behavior_fingerprint.json(),
        ),
        member_of(report.json(), "evidence"@) == Some(report.evidence.json()),
        member_of(report.json(), "replay_passed"@) == Some(report.replay_passed.json()),
        member_of(report.json(), "adversarial_passed"@) == Some(report.adversarial_passed.json()),
        member_of(report.json(), "execution_simulation_passed"@) == Some(
            report.execution_simulation_passed.json(),
        ),
        member_of(report.json(), "shadow_passed"@) == Some(report.shadow_passed.json()),
        member_of(report.json(), "canary_passed"@) == Some(report.canary_passed.json()),
        member_of(report.json(), "critical_regressions"@) == Some(
            report.critical_regressions.json(),
        ),
        member_of(report.json(), "approved_by"@) == Some(report.approved_by.json()),
        member_of(report.json(), "qualified_at"@) == Some(report.qualified_at.json()),
        member_of(report.json(), "expires_at"@) == Some(report.expires_at.json()),
        member_of(report.json(), "report_hash"@) == Some(report.report_hash.json()),
{
    reveal_strlit("key");
    reveal_strlit("behavior_fingerprint");
    reveal_strlit("evidence");
    reveal_strlit("replay_passed");
    reveal_strlit("adversarial_passed");
    reveal_strlit("execution_simulation_passed");
    reveal_strlit("shadow_passed");
    reveal_strlit("canary_passed");
    reveal_strlit("critical_regressions");
    reveal_strlit("approved_by");
    reveal_strlit("qualified_at");
    reveal_strlit("expires_at");
    reveal_strlit("report_hash");
    assert("key"@.len() == 3);
    assert("evidence"@.len() == 8);
    assert("expires_at"@.len() == 10);
    assert("approved_by"@.len() == 11 && "approved_by"@[0] == 'a');
    assert("report_hash"@.len() == 11 && "report_hash"@[0] == 'r');
    assert("qualified_at"@.len() == 12);
    assert("replay_passed"@.len() == 13 && "replay_passed"@[0] == 'r');
    assert("shadow_passed"@.len() == 13 && "shadow_passed"@[0] == 's');
    assert("canary_passed"@.len() == 13 && "canary_passed"@[0] == 'c');
    assert("adversarial_passed"@.len() == 18);
    assert("behavior_fingerprint"@.len() == 20 && "behavior_fingerprint"@[0] == 'b');
    assert("critical_regressions"@.len() == 20 && "critical_regressions"@[0] == 'c');
    assert("execution_simulation_passed"@.len() == 27);
}

/// Reports of a qualification with the same JSON are the same in every field.
pub proof fn qualification_reports_with_one_json_agree(
    a: ModelQualificationReport,
    b: ModelQualificationReport,
)
    requires
        a.json() == b.json(),
    ensures
        a.key.json() == b.key.json(),
        a.behavior_fingerprint.json() == b.behavior_fingerprint.json(),
        a.evidence.json() == b.evidence.json(),
        a.replay_passed.json() == b.replay_passed.json(),
        a.adversarial_passed.json() == b.adversarial_passed.json(),
        a.execution_simulation_passed.json() == b.execution_simulation_passed.json(),
        a.shadow_passed.json() == b.shadow_passed.json(),
        a.canary_passed.json() == b.canary_passed.json(),
        a.critical_regressions.json() == b.critical_regressions.json(),
        a.approved_by.json() == b.approved_by.json(),
        a.qualified_at.json() == b.qualified_at.json(),
        a.expires_at.json() == b.expires_at.json(),
        a.report_hash.json() == b.report_hash.json(),
{
    qualification_report_json_holds_its_fields(a);
    qualification_report_json_holds_its_fields(b);
}

#[verifier::rlimit(60)]
proof fn release_body_json_holds_its_fields(body: ReleaseEvidenceBody)
    ensures
        member_of(body.json(), "run_id"@) == Some(body.run_id.json()),
        member_of(body.json(), "purpose"@) == Some(body.purpose.json()),
        member_of(body.json(), "environment"@) == Some(body.environment.json()),
        member_of(body.json(), "materialized_at"@) == Some(body.materialized_at.json()),
        member_of(body.json(), "runtime"@) == Some(body.runtime.json()),
        member_of(body.json(), "workflow"@) == Some(body.workflow.json()),
        member_of(body.json(), "contracts"@) == Some(body.contracts.json()),
        member_of(body.json(), "provider_routes"@) == Some(body.provider_routes.json()),
        member_of(body.json(), "source_snapshots"@) == Some(body.source_snapshots.json()),
        member_of(body.json(), "broker"@) == Some(body.broker.json()),
        member_of(body.json(), "session"@) == Some(body.session.json()),
        member_of(body.json(), "daemon"@) == Some(body.daemon.json()),
        member_of(body.json(), "execution"@) == Some(body.execution.json()),
        member_of(body.json(), "outcomes"@) == Some(body.outcomes.json()),
        member_of(body.json(), "learning"@) == Some(body.learning.json()),
        member_of(body.json(), "canary"@) == Some(body.canary.json()),
        member_of(body.json(), "human_approval"@) == Some(body.human_approval.json()),
        member_of(body.json(), "integrity"@) == Some(body.integrity.json()),
        member_of(body.json(), "post_outcome_approval"@) == (if body.post_outcome_approval is Some {
            Some(body.post_outcome_approval.json())
        } else {
            None
        }),
{
    reveal_strlit("run_id");
    reveal_strlit("purpose");
    reveal_strlit("environment");
    reveal_strlit("materialized_at");
    reveal_strlit("runtime");
    reveal_strlit("workflow");
    reveal_strlit("contracts");
    reveal_strlit("provider_routes");
    reveal_strlit("source_snapshots");
    reveal_strlit("broker");
    reveal_strlit("session");
    reveal_strlit("daemon");
    reveal_strlit("execution");
    reveal_strlit("outcomes");
    reveal_strlit("learning");
    reveal_strlit("canary");
    reveal_strlit("human_approval");
    reveal_strlit("integrity");
    reveal_strlit("post_outcome_approval");
    assert("run_id"@.len() == 6 && "run_id"@[0] == 'r');
    assert("broker"@.len() == 6 && "broker"@[0] == 'b');
    assert("daemon"@.len() == 6 && "daemon"@[0] == 'd');
    assert("canary"@.len() == 6 && "canary"@[0] == 'c');
    assert("purpose"@.len() == 7 && "purpose"@[0] == 'p');
    assert("runtime"@.len() == 7 && "runtime"@[0] == 'r');
    assert("session"@.len() == 7 && "session"@[0] == 's');
    assert("workflow"@.len() == 8 && "workflow"@[0] == 'w');
    assert("outcomes"@.len() == 8 && "outcomes"@[0] == 'o');
    assert("learning"@.len() == 8 && "learning"@[0] == 'l');
    assert("contracts"@.len() == 9 && "contracts"@[0] == 'c');
    assert("execution"@.len() == 9 && "execution"@[0] == 'e');
    assert("integrity"@.len() == 9 && "integrity"@[0] == 'i');
    assert("environment"@.len() == 11);
    assert("human_approval"@.len() == 14);
    assert("materialized_at"@.len() == 15 && "materialized_at"@[0] == 'm');
    assert("provider_routes"@.len() == 15 && "provider_routes"@[0] == 'p');
    assert("source_snapshots"@.len() == 16);
    assert("post_outcome_approval"@.len() == 21);
}

/// Bodies of evidence with the same JSON are the same in every field.
pub proof fn release_bodies_with_one_json_agree(a: ReleaseEvidenceBody, b: ReleaseEvidenceBody)
    requires
        a.json() == b.json(),
    ensures
        a.run_id.json() == b.run_id.json(),
        a.purpose.json() == b.purpose.json(),
        a.environment.json() == b.environment.json(),
        a.materialized_at.json() == b.materialized_at.json(),
        a.runtime.json() == b.runtime.json(),
        a.workflow.json() == b.workflow.json(),
        a.contracts.json() == b.contracts.json(),
        a.provider_routes.json() == b.provider_routes.json(),
        a.source_snapshots.json() == b.source_snapshots.json(),
        a.broker.json() == b.broker.json(),
        a.session.json() == b.session.json(),
        a.daemon.json() == b.daemon.json(),
        a.execution.json() == b.execution.json(),
        a.outcomes.json() == b.outcomes.json(),
        a.learning.json() == b.learning.json(),
        a.canary.json() == b.canary.json(),
        a.human_approval.json() == b.human_approval.json(),
        a.integrity.json() == b.integrity.json(),
        a.post_outcome_approval is Some <==> b.post_outcome_approval is Some,
        a.post_outcome_approval is Some ==> a.post_outcome_approval.json() == b.post_outcome_approval.json(),
{
    release_body_json_holds_its_fields(a);
    release_body_json_holds_its_fields(b);
}

#[verifier::rlimit(60)]
proof fn search_policy_json_holds_its_fields(policy: SearchBiasAcceptancePolicy)
    ensures
        member_of(policy.json(), "min_deflated_sharpe_ratio_ppm"@) == Some(
            policy.min_deflated_sharpe_ratio_ppm.json(),
        ),
        member_of(policy.json(), "max_probability_of_backtest_overfitting_ppm"@) == Some(
            policy.max_probability_of_backtest_overfitting_ppm.json(),
        ),
        member_of(policy.json(), "min_bootstrap_lower_bound_ppm"@) == Some(
            policy.min_bootstrap_lower_bound_ppm.json(),
        ),
        member_of(policy.json(), "max_family_wise_error_rate_ppm"@) == Some(
            policy.max_family_wise_error_rate_ppm.json(),
        ),
        member_of(policy.json(), "min_global_trial_count"@) == Some(
            policy.min_global_trial_count.json(),
        ),
        member_of(policy.json(), "min_comparable_trial_count"@) == Some(
            policy.min_comparable_trial_count.json(),
        ),
        member_of(policy.json(), "selection_metric_hash"@) == Some(
            policy.selection_metric_hash.json(),
        ),
        member_of(policy.json(), "search_space_hash"@) == Some(policy.search_space_hash.json()),
        member_of(policy.json(), "slice_schema_hash"@) == Some(policy.slice_schema_hash.json()),
        member_of(policy.json(), "metric_implementation_hash"@) == Some(
            policy.metric_implementation_hash.json(),
        ),
{
    reveal_strlit("min_deflated_sharpe_ratio_ppm");
    reveal_strlit("max_probability_of_backtest_overfitting_ppm");
    reveal_strlit("min_bootstrap_lower_bound_ppm");
    reveal_strlit("max_family_wise_error_rate_ppm");
    reveal_strlit("min_global_trial_count");
    reveal_strlit("min_comparable_trial_count");
    reveal_strlit("selection_metric_hash");
    reveal_strlit("search_space_hash");
    reveal_strlit("slice_schema_hash");
    reveal_strlit("metric_implementation_hash");
    assert("search_space_hash"@.len() == 17 && "search_space_hash"@[1] == 'e');
    assert("slice_schema_hash"@.len() == 17 && "slice_schema_hash"@[1] == 'l');
    assert("selection_metric_hash"@.len() == 21);
    assert("min_global_trial_count"@.len() == 22);
    assert("min_comparable_trial_count"@.len() == 26 && "min_comparable_trial_count"@[1] == 'i');
    assert("metric_implementation_hash"@.len() == 26 && "metric_implementation_hash"@[1] == 'e');
    assert("min_deflated_sharpe_ratio_ppm"@.len() == 29 && "min_deflated_sharpe_ratio_ppm"@[4] == 'd');
    assert("min_bootstrap_lower_bound_ppm"@.len() == 29 && "min_bootstrap_lower_bound_ppm"@[4] == 'b');
    assert("max_family_wise_error_rate_ppm"@.len() == 30);
    assert("max_probability_of_backtest_overfitting_ppm"@.len() == 43);
}

/// Policies on the bias of a search with the same JSON are the same in every field.
pub proof fn search_policies_with_one_json_agree(
    a: SearchBiasAcceptancePolicy,
    b: SearchBiasAcceptancePolicy,
)
    requires
        a.json() == b.json(),
    ensures
        a.min_deflated_sharpe_ratio_ppm.json() == b.min_deflated_sharpe_ratio_ppm.json(),
        a.max_probability_of_backtest_overfitting_ppm.json() == b.max_probability_of_backtest_overfitting_ppm.json(),
        a.min_bootstrap_lower_bound_ppm.json() == b.min_bootstrap_lower_bound_ppm.json(),
        a.max_family_wise_error_rate_ppm.json() == b.max_family_wise_error_rate_ppm.json(),
        a.min_global_trial_count.json() == b.min_global_trial_count.json(),
        a.min_comparable_trial_count.json() == b.min_comparable_trial_count.json(),
        a.selection_metric_hash.json() == b.selection_metric_hash.json(),
        a.search_space_hash.json() == b.search_space_hash.json(),
        a.slice_schema_hash.json() == b.slice_schema_hash.json(),
        a.metric_implementation_hash.json() == b.metric_implementation_hash.json(),
{
    search_policy_json_holds_its_fields(a);
    search_policy_json_holds_its_fields(b);
}

/// Evidence of a lesson with the same identity is of one lesson, in one context, with one outcome.
pub proof fn lesson_evidence_with_one_identity_agrees(a: LessonEvidence, b: LessonEvidence)
    requires
        a.identity_json() == b.identity_json(),
    ensures
        a.schema_version == b.schema_version,
        a.lesson_id@ == b.lesson_id@,
        a.decision_context.artifact_id@ == b.decision_context.artifact_id@,
        a.outcome.artifact_id@ == b.outcome.artifact_id@,
{
    lesson_evidence_identity_holds_its_key(a);
    lesson_evidence_identity_holds_its_key(b);
}

proof fn lesson_evidence_identity_holds_its_key(evidence: LessonEvidence)
    ensures
        member_of(evidence.identity_json(), "schema_version"@) == Some(
            JsonTree::Number(evidence.schema_version as int),
        ),
        member_of(evidence.identity_json(), "lesson_id"@) == Some(
            JsonTree::Text(evidence.lesson_id@),
        ),
        member_of(evidence.identity_json(), "decision_context"@) == Some(
            JsonTree::Text(evidence.decision_context.artifact_id@),
        ),
        member_of(evidence.identity_json(), "outcome"@) == Some(
            JsonTree::Text(evidence.outcome.artifact_id@),
        ),
{
    reveal_strlit("schema_version");
    reveal_strlit("lesson_id");
    reveal_strlit("decision_context");
    reveal_strlit("outcome");
    assert("schema_version"@.len() == 14);
    assert("lesson_id"@.len() == 9);
    assert("decision_context"@.len() == 16);
    assert("outcome"@.len() == 7);
}

/// To be the same observation is to agree in everything but the time of recording; it is mutual, and
/// the same observation has one identity.
pub proof fn same_observation_is_recorded_at_any_time(a: LessonEvidence, b: LessonEvidence)
    ensures
        a.is_same_observation(a),
        a.is_same_observation(b) <==> b.is_same_observation(a),
        a.is_same_observation(b) ==> a.identity_json() == b.identity_json(),
        a.schema_version != b.schema_version ==> !a.is_same_observation(b),
        a.lesson_id@ != b.lesson_id@ ==> !a.is_same_observation(b),
        a.lesson_artifact@ != b.lesson_artifact@ ==> !a.is_same_observation(b),
        a.decision_context@ != b.decision_context@ ==> !a.is_same_observation(b),
        a.outcome@ != b.outcome@ ==> !a.is_same_observation(b),
        a.attribution != b.attribution ==> !a.is_same_observation(b),
        a.utility_ppm_by_horizon@ != b.utility_ppm_by_horizon@ ==> !a.is_same_observation(b),
        a.calibration_ppm_by_horizon@ != b.calibration_ppm_by_horizon@ ==> !a.is_same_observation(
            b,
        ),
        b == (LessonEvidence { recorded_at: b.recorded_at, ..a }) ==> a.is_same_observation(b),
{
}

/// What identifies an issue is its scope, its category and its field, and nothing else.
pub proof fn issues_with_one_identity_agree(
    a: ProposalIssue,
    b: ProposalIssue,
    scope: Seq<char>,
    other: Seq<char>,
)
    ensures
        a.id_json(scope) == b.id_json(other) ==> {
            &&& scope == other
            &&& a.category.wire() == b.category.wire()
            &&& a.field_path@ == b.field_path@
        },
        scope == other && a.category == b.category && a.field_path@ == b.field_path@ ==> a.id(scope)
            == b.id(other),
{
    if a.id_json(scope) == b.id_json(other) {
        let x = a.id_json(scope)->List_0;
        let y = b.id_json(other)->List_0;
        assert(x[0] == y[0] && x[1] == y[1] && x[2] == y[2]);
    }
}

/// A benchmark that is held puts all or nothing of its capital into the funds it names: none for
/// cash, all for a fund, a quarter into each of four, a half into each unleveraged one.
pub proof fn held_benchmark_puts_its_capital_into_its_funds(benchmark: OutcomeBenchmark)
    requires
        !(benchmark is BetaMatchedQqq),
        !(benchmark is VolatilityTargetedQqq),
    ensures
        ({
            let weights = member_of(benchmark.definition_json(), "weights_ppm"@)->0;
            let tqqq = member_of(weights, "TQQQ"@)->0->Number_0;
            let qqq = member_of(weights, "QQQ"@)->0->Number_0;
            let soxx = member_of(weights, "SOXX"@)->0->Number_0;
            let soxl = member_of(weights, "SOXL"@)->0->Number_0;
            &&& benchmark is Cash <==> tqqq + qqq + soxx + soxl == 0
            &&& !(benchmark is Cash) <==> tqqq + qqq + soxx + soxl == 1_000_000
            &&& tqqq >= 0 && qqq >= 0 && soxx >= 0 && soxl >= 0
            &&& benchmark is Qqq <==> qqq == 1_000_000
            &&& benchmark is Soxx <==> soxx == 1_000_000
            &&& benchmark is FourAssetEqualWeight ==> tqqq == qqq && qqq == soxx && soxx == soxl
            &&& benchmark is NoLlmDeterministic ==> qqq == soxx && tqqq == 0 && soxl == 0
        }),
{
    reveal_strlit("method");
    reveal_strlit("weights_ppm");
    reveal_strlit("TQQQ");
    reveal_strlit("QQQ");
    reveal_strlit("SOXX");
    reveal_strlit("SOXL");
    assert("method"@.len() == 6);
    assert("weights_ppm"@.len() == 11);
    assert("QQQ"@.len() == 3);
    assert("TQQQ"@.len() == 4 && "TQQQ"@[0] == 'T' && "TQQQ"@[3] == 'Q');
    assert("SOXX"@.len() == 4 && "SOXX"@[0] == 'S' && "SOXX"@[3] == 'X');
    assert("SOXL"@.len() == 4 && "SOXL"@[0] == 'S' && "SOXL"@[3] == 'L');
}

/// A benchmark that follows QQQ at a scale asks for the samples that it needs.
pub proof fn scaled_benchmark_asks_for_its_samples(benchmark: OutcomeBenchmark)
    requires
        benchmark is BetaMatchedQqq || benchmark is VolatilityTargetedQqq,
    ensures
        member_of(benchmark.definition_json(), "minimum_samples"@) == Some(
            JsonTree::Number(benchmark.least_samples() as int),
        ),
        member_of(benchmark.definition_json(), "reference"@) == Some(JsonTree::Text("QQQ"@)),
{
    reveal_strlit("method");
    reveal_strlit("reference");
    reveal_strlit("minimum_samples");
    reveal_strlit("portfolio_path");
    assert("method"@.len() == 6);
    assert("reference"@.len() == 9);
    assert("minimum_samples"@.len() == 15);
    assert("portfolio_path"@.len() == 14);
}

} // verus!
