//! Contracts of agents, their candidates and what they hand in.
use akzio_domain::artifact::{ArtifactId, ArtifactKind};
use akzio_domain::budget::ToolCallLimit;
use akzio_domain::contract::{
    AgentContract, CandidateCapabilityCeiling, ContextPolicy, ContractPurpose, DeliberationSummary,
    OutputContract, PromptBundle, TaskRecipe, TaskRecipeId, ToolSpec,
};
use akzio_domain::error::DomainError;
use akzio_domain::foundation::{
    BlobRef, ContentHash, ContractId, FailureDisposition, RetryPolicy, TaskBudget,
    TerminationPolicy, ToolGrant, ToolKind,
};
use akzio_domain::ordered::OrderedSet;
use akzio_domain::workflow::RuntimeTaskClass;

fn blob(value: &[u8]) -> BlobRef {
    BlobRef {
        hash: ContentHash::of_bytes(value),
        media_type: "application/json".to_owned(),
        bytes: value.len() as u64,
    }
}

fn budget() -> TaskBudget {
    TaskBudget {
        max_input_tokens: 256,
        max_output_tokens: 128,
        max_wall_time_secs: 30,
        max_tool_calls: ToolCallLimit::Limited(2),
    }
}

fn policy() -> ContextPolicy {
    ContextPolicy {
        permitted_kinds: OrderedSet::from_vec(vec![
            ArtifactKind::NormalizedEvidence,
            ArtifactKind::Claim,
        ]),
        permitted_source_families: OrderedSet::from_vec(vec![
            "alpaca".to_owned(),
            "fred".to_owned(),
        ]),
        min_artifacts: 0,
        max_artifacts: 4,
        max_bytes: 1024,
        max_source_bytes: None,
        max_tokens: 256,
        allow_raw_reread: false,
    }
}

fn grant(sources: &[&str]) -> ToolGrant {
    ToolGrant {
        kind: ToolKind::ReadEvidence,
        allowed_sources: sources.iter().map(|s| s.to_string()).collect(),
    }
}

fn contract(context: ContextPolicy, grants: Vec<ToolGrant>) -> Result<AgentContract, DomainError> {
    AgentContract::new(
        ContractId("contract".to_owned()),
        1,
        ContractPurpose::new("research.analyst").unwrap(),
        "derive claims",
        PromptBundle {
            version: 1,
            governance: blob(b"governance"),
            role: blob(b"role"),
        },
        context,
        grants,
        vec![ToolSpec {
            name: "read_evidence".to_owned(),
            description: "reads evidence".to_owned(),
            kind: ToolKind::ReadEvidence,
            input_schema: blob(b"input"),
            strict: true,
        }],
        OutputContract {
            artifact_kind: ArtifactKind::Claim,
            schema: blob(b"schema"),
        },
        budget(),
        RetryPolicy::none(),
        TerminationPolicy::leaf(),
        FailureDisposition::FailTask,
    )
}

#[test]
fn contract_permits_itself_and_what_is_narrower() {
    let own = contract(policy(), vec![grant(&["alpaca", "fred"])]).unwrap();
    assert_eq!(own.validate(), Ok(()));
    assert!(own.permits_candidate(&own));
    let mut narrower = policy();
    narrower.max_tokens = 100;
    let candidate = contract(narrower, vec![grant(&["fred"])]).unwrap();
    assert!(own.permits_candidate(&candidate));
    assert!(!candidate.permits_candidate(&own));
}

#[test]
fn candidate_gains_no_source_and_no_room() {
    let own = contract(policy(), vec![grant(&["alpaca"])]).unwrap();
    let more_sources = contract(policy(), vec![grant(&["alpaca", "fred"])]).unwrap();
    assert!(!own.permits_candidate(&more_sources));
    let mut wider = policy();
    wider.max_source_bytes = Some(2048);
    let more_room = contract(wider, vec![grant(&["alpaca"])]).unwrap();
    assert!(!own.permits_candidate(&more_room));
}

#[test]
fn tool_for_any_source_is_wider_than_one_for_some() {
    let own = contract(policy(), vec![grant(&["alpaca"])]).unwrap();
    let mut unlimited = own.clone();
    unlimited.tool_grants = vec![grant(&[])];
    assert!(!own.permits_candidate(&unlimited));
    let mut open = own.clone();
    open.candidate_capability_ceiling.tool_grants = vec![grant(&[])];
    assert!(open.permits_candidate(&own));
    assert!(open.permits_candidate(&unlimited));
    let mut other_tool = own.clone();
    other_tool.tool_grants[0].kind = ToolKind::ReadMarketData;
    assert!(!open.permits_candidate(&other_tool));
}

#[test]
fn narrower_ceiling_gives_another_identity() {
    let own = contract(policy(), vec![grant(&["alpaca"])]).unwrap();
    let hash = own.contract_hash.clone();
    let mut wide = policy();
    wide.max_tokens = 512;
    let ceiling = CandidateCapabilityCeiling {
        context: wide,
        tool_grants: vec![grant(&["alpaca", "fred"])],
    };
    let raised = own.with_candidate_capability_ceiling(ceiling).unwrap();
    assert_ne!(raised.contract_hash, hash);
    assert_eq!(raised.validate(), Ok(()));
    let mut tight = policy();
    tight.max_tokens = 1;
    let too_tight = CandidateCapabilityCeiling {
        context: tight,
        tool_grants: vec![grant(&["alpaca"])],
    };
    assert_eq!(
        raised.with_candidate_capability_ceiling(too_tight),
        Err(DomainError::EmptyField {
            field: "contract.candidate_capability_ceiling"
        })
    );
}

#[test]
fn context_policy_keeps_raw_evidence_out() {
    let mut raw = policy();
    raw.permitted_kinds.insert(ArtifactKind::RawEvidence);
    assert_eq!(raw.validate(), Err(DomainError::RawEvidenceDirectContext));
    let mut unbounded = policy();
    unbounded.min_artifacts = 5;
    assert_eq!(
        unbounded.validate(),
        Err(DomainError::InvalidBudget {
            field: "contract.context_policy"
        })
    );
    assert_eq!(policy().source_bytes(), 1024);
}

#[test]
fn tools_are_granted_and_declared() {
    assert_eq!(
        contract(policy(), vec![]),
        Err(DomainError::EmptyField {
            field: "contract.tool_specs"
        })
    );
    assert_eq!(
        contract(policy(), vec![grant(&["news_web"])]),
        Err(DomainError::EmptyField {
            field: "contract.tool_grants"
        })
    );
}

fn summary() -> DeliberationSummary {
    DeliberationSummary {
        selected_path: "hold".to_owned(),
        alternatives: vec!["buy".to_owned()],
        alternative_match_ppm: vec![400_000],
        uncertainties: vec!["rates".to_owned(), "earnings".to_owned()],
        uncertainty_weight_ppm: vec![200_000, 100_000],
        assessment_source: Some("model_assessed".to_owned()),
        basis_artifact_ids: vec![ArtifactId(ContentHash::of_bytes(b"basis"))],
        confidence_ppm: 700_000,
    }
}

#[test]
fn uncertainties_make_up_what_confidence_leaves() {
    assert_eq!(summary().validate_model_assessment(), Ok(()));
    let mut unsure = summary();
    unsure.confidence_ppm = 600_000;
    assert_eq!(
        unsure.validate(),
        Err(DomainError::InvalidBudget {
            field: "deliberation.uncertainty_weight_ppm"
        })
    );
    let mut certain = summary();
    certain.uncertainties.clear();
    certain.uncertainty_weight_ppm.clear();
    assert_eq!(certain.validate(), Ok(()));
    assert!(certain.validate_model_assessment().is_err());
    certain.confidence_ppm = 1_000_000;
    assert_eq!(certain.validate_model_assessment(), Ok(()));
}

#[test]
fn basis_is_cited_once() {
    let mut twice = summary();
    twice
        .basis_artifact_ids
        .push(ArtifactId(ContentHash::of_bytes(b"basis")));
    assert_eq!(
        twice.validate(),
        Err(DomainError::EmptyField {
            field: "deliberation.basis_artifact_ids"
        })
    );
}

#[test]
fn recipe_of_an_agent_has_a_contract() {
    let mut recipe = TaskRecipe {
        recipe_id: TaskRecipeId::new("research.analyst").unwrap(),
        purpose: ContractPurpose::new("research.analyst").unwrap(),
        contract_hash: None,
        task_class: RuntimeTaskClass::Agent,
        allowed_evidence_sources: OrderedSet::new(),
        max_children: 0,
        max_depth: 0,
        priority_ceiling: 100,
        budget: budget(),
        retry: RetryPolicy::none(),
        on_failure: FailureDisposition::FailTask,
    };
    assert_eq!(
        recipe.validate(),
        Err(DomainError::EmptyField {
            field: "task_recipe.contract_hash"
        })
    );
    recipe.task_class = RuntimeTaskClass::Evidence;
    assert_eq!(recipe.validate(), Ok(()));
    assert!(TaskRecipeId::new(" ").is_err());
}
