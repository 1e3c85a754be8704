//! Budgets of agents: defaults, versions and overrides.
use akzio_domain::budget::{
    default_agent_budget, legacy_contract_budget, versioned_contract_budget, AgentBudgetConfig,
    AgentSettings, ToolCallLimit, AGENT_ROLES,
};
use akzio_domain::error::DomainError;
use akzio_domain::json::ToJson;

#[test]
fn research_output_defaults_allow_a_million_with_role_appropriate_timeouts() {
    for (_, purpose) in AGENT_ROLES {
        let legacy = legacy_contract_budget(purpose).unwrap();
        let budget = default_agent_budget(purpose).unwrap();
        assert_eq!(budget.max_input_tokens, 1_000_000);
        assert_eq!(budget.max_tool_calls, ToolCallLimit::Unlimited);
        assert_eq!(
            budget.max_wall_time_secs,
            if matches!(
                purpose,
                "research.analyst" | "research.critic" | "research.synthesizer"
            ) {
                180
            } else {
                legacy.max_wall_time_secs
            }
        );
        assert_eq!(
            budget.max_output_tokens,
            if purpose.starts_with("research.") {
                1_000_000
            } else {
                4_000
            }
        );
    }
}

#[test]
fn output_override_rejects_more_than_the_application_ceiling() {
    for limit in [1, 1_000_000] {
        let mut settings = AgentBudgetConfig::default();
        settings.default.max_output_tokens = Some(limit);
        assert!(settings.validate().is_ok());
    }
    for limit in [0, 1_000_001, u32::MAX] {
        let mut settings = AgentBudgetConfig::default();
        settings.critic.max_output_tokens = Some(limit);
        assert!(settings.validate().is_err(), "output {limit}");
    }
}

#[test]
fn versioned_contract_changes_only_research_output() {
    for (_, purpose) in AGENT_ROLES {
        let mut expected = legacy_contract_budget(purpose).unwrap();
        if purpose.starts_with("research.") {
            expected.max_output_tokens = 1_000_000;
        }
        assert_eq!(versioned_contract_budget(purpose).unwrap(), expected);
    }
}

#[test]
fn new_critic_budget_is_distinct_from_legacy_contract_budget() {
    assert_eq!(
        legacy_contract_budget("research.critic")
            .expect("registered Critic role")
            .max_output_tokens,
        4_000
    );
    assert_eq!(
        default_agent_budget("research.critic")
            .expect("registered Critic role")
            .max_output_tokens,
        1_000_000
    );

    let mut settings = AgentBudgetConfig::default();
    settings.critic.max_output_tokens = Some(16_000);
    assert_eq!(
        settings.resolve("research.proposal_reviewer"),
        settings.resolve("research.critic")
    );
    assert_eq!(
        settings
            .resolve("research.critic")
            .expect("registered Critic role")
            .max_output_tokens,
        16_000
    );
}

#[test]
fn legacy_budget_wire_format_is_unchanged() {
    let raw = r#"{"max_input_tokens":48000,"max_output_tokens":6000,"max_wall_time_secs":120,"max_tool_calls":4}"#;
    let wire: serde_json::Value = serde_json::from_str(raw).unwrap();
    let budget = legacy_contract_budget("research.analyst").unwrap();
    assert_eq!(budget.to_json(), wire);
    assert_eq!(
        ToolCallLimit::Unlimited.to_json(),
        serde_json::Value::from("unlimited")
    );
    assert!(ToolCallLimit::Unlimited > ToolCallLimit::Limited(u16::MAX));
}

#[test]
fn each_zero_of_an_override_is_named() {
    let mut settings = AgentBudgetConfig::default();
    settings.default.max_input_tokens = Some(0);
    assert_eq!(
        settings.validate(),
        Err(DomainError::InvalidBudget {
            field: "agent.budget.max_input_tokens"
        })
    );
    let mut settings = AgentBudgetConfig::default();
    settings.outcome_worker.timeout_seconds = Some(0);
    assert_eq!(
        settings.validate(),
        Err(DomainError::InvalidBudget {
            field: "agent.budget.timeout_seconds"
        })
    );
    let mut settings = AgentBudgetConfig::default();
    settings.synthesizer.max_tool_calls = Some(ToolCallLimit::Limited(0));
    assert!(settings.validate().is_ok());
}

#[test]
fn role_overrides_stand_on_top_of_those_for_all() {
    let mut settings = AgentBudgetConfig::default();
    settings.default.timeout_seconds = Some(30);
    settings.default.max_input_tokens = Some(10);
    settings.analyst.timeout_seconds = Some(60);
    let analyst = settings.resolve("research.analyst").unwrap();
    assert_eq!(analyst.max_wall_time_secs, 60);
    assert_eq!(analyst.max_input_tokens, 10);
    assert_eq!(
        settings
            .resolve("learning.outcome_worker")
            .unwrap()
            .max_wall_time_secs,
        30
    );
    assert!(settings.resolve("research.planner").is_none());
}

#[test]
fn every_purpose_has_a_resolved_budget() {
    let settings = AgentSettings::default();
    let budgets = settings.budget.resolved();
    assert_eq!(budgets.len(), 5);
    assert_eq!(
        budgets.get(&"research.proposal_reviewer".to_owned()),
        budgets.get(&"research.critic".to_owned())
    );
    assert_eq!(
        budgets.get(&"research.analyst".to_owned()).copied(),
        default_agent_budget("research.analyst")
    );
}

#[test]
fn calls_within_the_limit_are_counted_down() {
    let limit = ToolCallLimit::Limited(2);
    assert_eq!(limit.finite(), Some(2));
    assert!(limit.allows(2));
    assert!(!limit.allows(3));
    assert_eq!(limit.remaining(1), Some(1));
    assert_eq!(limit.remaining(9), Some(0));
    assert_eq!(ToolCallLimit::Unlimited.finite(), None);
    assert!(ToolCallLimit::Unlimited.allows(u64::MAX));
    assert_eq!(ToolCallLimit::Unlimited.remaining(3), None);
}
