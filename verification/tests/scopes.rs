//! What a task may look up.
use akzio_domain::budget::ToolCallLimit;
use akzio_domain::context_scope::ContextQueryScope;
use akzio_domain::contract::TaskRecipeId;
use akzio_domain::decision::DecisionHorizon;
use akzio_domain::foundation::{Asset, FailureDisposition, RetryPolicy, TaskBudget, TaskId};
use akzio_domain::lesson::LessonScope;
use akzio_domain::ordered::OrderedSet;
use akzio_domain::workflow::{NodeSpec, WorkflowNode};
use akzio_domain::{
    RESEARCH_ANALYST_RECIPE_ID, RESEARCH_CRITIC_RECIPE_ID, RESEARCH_SYNTHESIZER_RECIPE_ID,
};

fn node(recipe: &str) -> WorkflowNode {
    WorkflowNode {
        spec: Some(NodeSpec {
            key: "research.analyst.t1".into(),
            horizon: Some(DecisionHorizon::T1),
            research_round: Some(0),
            proposal_revision: None,
        }),
        task_id: TaskId::new(),
        recipe_id: TaskRecipeId::new(recipe).unwrap(),
        contract_hash: None,
        objective: "[research_horizon=t5] stage:untrusted".into(),
        dependencies: vec![],
        input_artifacts: vec![],
        priority: 1,
        budget: TaskBudget {
            max_input_tokens: 1000,
            max_output_tokens: 100,
            max_wall_time_secs: 30,
            max_tool_calls: ToolCallLimit::Limited(0),
        },
        retry: RetryPolicy::none(),
        on_failure: FailureDisposition::FailTask,
        parent_task_id: None,
    }
}

#[test]
fn typed_node_scope_wins_over_conflicting_objective() {
    let query = ContextQueryScope::for_node(&node(RESEARCH_ANALYST_RECIPE_ID));
    assert_eq!(
        query.horizons,
        OrderedSet::from_vec(vec![DecisionHorizon::T1])
    );
    assert_eq!(query.assets, OrderedSet::from_vec(Asset::EXECUTABLE.to_vec()));
    assert_eq!(
        query.decision_stages,
        OrderedSet::from_vec(vec![RESEARCH_ANALYST_RECIPE_ID.to_owned()])
    );
}

#[test]
fn unknown_horizon_does_not_mean_all_horizons() {
    let mut scoped_lesson = LessonScope::default();
    scoped_lesson.horizons.insert(DecisionHorizon::T5);
    assert!(!ContextQueryScope::default().matches(&scoped_lesson));
    assert!(ContextQueryScope::default().matches(&LessonScope::default()));
    let mut synthesis = node(RESEARCH_SYNTHESIZER_RECIPE_ID);
    synthesis.spec = Some(NodeSpec {
        key: "synth".into(),
        horizon: None,
        research_round: None,
        proposal_revision: Some(0),
    });
    let query = ContextQueryScope::for_node(&synthesis);
    assert_eq!(
        query.horizons,
        OrderedSet::from_vec(vec![
            DecisionHorizon::T1,
            DecisionHorizon::T3,
            DecisionHorizon::T5,
        ])
    );
    assert!(query.matches(&scoped_lesson));
}

#[test]
fn historical_node_uses_existing_read_adapter_without_rewriting_it() {
    let mut historical = node(RESEARCH_CRITIC_RECIPE_ID);
    historical.spec = None;
    let original = historical.clone();
    assert_eq!(
        ContextQueryScope::for_node(&historical).horizons,
        OrderedSet::from_vec(vec![DecisionHorizon::T5])
    );
    assert_eq!(historical, original);
    historical.objective = "No frozen horizon".into();
    assert!(ContextQueryScope::for_node(&historical)
        .horizons
        .is_empty());
}

#[test]
fn lesson_with_another_asset_is_not_looked_up() {
    let mut lesson = LessonScope::default();
    lesson.assets.insert(Asset::Soxl);
    let mut query = ContextQueryScope::default();
    query.assets.insert(Asset::Qqq);
    assert!(!query.matches(&lesson));
    query.assets.insert(Asset::Soxl);
    assert!(query.matches(&lesson));
}
