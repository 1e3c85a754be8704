//! Proposals and graphs of workflows.
use akzio_domain::budget::ToolCallLimit;
use akzio_domain::contract::{ContractPurpose, TaskRecipe, TaskRecipeId};
use akzio_domain::error::DomainError;
use akzio_domain::foundation::{
    FailureDisposition, RetryPolicy, TaskBudget, TaskId,
};
use akzio_domain::ordered::{OrderedMap, OrderedSet};
use akzio_domain::workflow::{
    FactorLimits, RuntimeTaskClass, WorkflowGraph, WorkflowNode, WorkflowProposal,
    WorkflowProposalTask,
};
use akzio_domain::DOMAIN_SCHEMA_VERSION;

fn budget() -> TaskBudget {
    TaskBudget {
        max_input_tokens: 100,
        max_output_tokens: 100,
        max_wall_time_secs: 60,
        max_tool_calls: ToolCallLimit::Limited(1),
    }
}

fn node(task: &str, dependencies: &[&str]) -> WorkflowNode {
    WorkflowNode {
        spec: None,
        task_id: TaskId(task.to_owned()),
        recipe_id: TaskRecipeId::new("research.analyst").unwrap(),
        contract_hash: None,
        objective: "study".to_owned(),
        dependencies: dependencies.iter().map(|d| TaskId(d.to_string())).collect(),
        input_artifacts: vec![],
        priority: 50,
        budget: budget(),
        retry: RetryPolicy::none(),
        on_failure: FailureDisposition::FailRun,
        parent_task_id: None,
    }
}

fn graph(nodes: Vec<WorkflowNode>) -> WorkflowGraph {
    WorkflowGraph {
        schema_version: DOMAIN_SCHEMA_VERSION,
        topology_id: "active".to_owned(),
        nodes,
    }
}

#[test]
fn graph_without_a_cycle_is_valid() {
    let diamond = graph(vec![
        node("d", &["b", "c"]),
        node("b", &["a"]),
        node("c", &["a"]),
        node("a", &[]),
    ]);
    assert_eq!(diamond.validate(), Ok(()));
}

#[test]
fn cycle_is_found_wherever_it_is() {
    for nodes in [
        vec![node("a", &["a"])],
        vec![node("a", &["b"]), node("b", &["a"])],
        vec![
            node("x", &[]),
            node("a", &["x", "c"]),
            node("b", &["a"]),
            node("c", &["b"]),
        ],
    ] {
        assert_eq!(graph(nodes).validate(), Err(DomainError::CyclicPlan));
    }
}

#[test]
fn dependency_is_a_node() {
    assert_eq!(
        graph(vec![node("a", &["b"])]).validate(),
        Err(DomainError::UnknownDependency {
            task: TaskId("a".to_owned()),
            dependency: TaskId("b".to_owned()),
        })
    );
    assert_eq!(
        graph(vec![node("a", &["b", "zz", "yy"]), node("b", &[])]).validate(),
        Err(DomainError::UnknownDependency {
            task: TaskId("a".to_owned()),
            dependency: TaskId("zz".to_owned()),
        })
    );
}

#[test]
fn tasks_differ() {
    assert_eq!(
        graph(vec![node("a", &[]), node("a", &[])]).validate(),
        Err(DomainError::DuplicateTaskId(TaskId("a".to_owned())))
    );
    assert_eq!(
        graph(vec![
            node("a", &[]),
            node("b", &[]),
            node("c", &[]),
            node("c", &[]),
            node("b", &[]),
        ])
        .validate(),
        Err(DomainError::DuplicateTaskId(TaskId("c".to_owned())))
    );
    assert_eq!(
        graph(vec![]).validate(),
        Err(DomainError::EmptyField {
            field: "workflow_graph.nodes"
        })
    );
}

#[test]
fn proposal_names_known_recipes_and_tasks() {
    let recipe_id = TaskRecipeId::new("research.analyst").unwrap();
    let recipes = OrderedMap::from_entries(vec![(
        recipe_id.clone(),
        TaskRecipe {
            recipe_id: recipe_id.clone(),
            purpose: ContractPurpose::new("research.analyst").unwrap(),
            contract_hash: None,
            task_class: RuntimeTaskClass::Evidence,
            allowed_evidence_sources: OrderedSet::new(),
            max_children: 0,
            max_depth: 0,
            priority_ceiling: 60,
            budget: budget(),
            retry: RetryPolicy::none(),
            on_failure: FailureDisposition::FailTask,
        },
    )]);
    let task = |depends_on: Vec<String>, priority: u8| WorkflowProposalTask {
        recipe_id: recipe_id.clone(),
        objective: "study".to_owned(),
        depends_on,
        priority,
        evidence_needs: vec![],
    };
    let proposal = |task: WorkflowProposalTask| WorkflowProposal {
        schema_version: DOMAIN_SCHEMA_VERSION,
        topology_id: "active".to_owned(),
        tasks: OrderedMap::from_entries(vec![("one".to_owned(), task)]),
        stop_reason: None,
    };
    assert_eq!(proposal(task(vec![], 60)).validate(&recipes), Ok(()));
    assert_eq!(
        proposal(task(vec![], 61)).validate(&recipes),
        Err(DomainError::InvalidBudget {
            field: "workflow_proposal.priority"
        })
    );
    assert_eq!(
        proposal(task(vec!["one".to_owned(), "two".to_owned()], 1)).validate(&recipes),
        Err(DomainError::UnknownDependency {
            task: TaskId("one".to_owned()),
            dependency: TaskId("two".to_owned()),
        })
    );
    assert_eq!(
        proposal(task(vec![], 1)).validate(&OrderedMap::new()),
        Err(DomainError::EmptyField {
            field: "workflow_proposal.recipe"
        })
    );
}

#[test]
fn factor_limits_are_shares() {
    let mut limits = FactorLimits {
        global_leveraged_equity_ppm: 1_000_000,
        nasdaq_ppm: 0,
        semiconductor_ppm: 0,
        paired_index_ppm: 0,
    };
    assert_eq!(limits.validate(), Ok(()));
    limits.paired_index_ppm = 1_000_001;
    assert!(limits.validate().is_err());
}
