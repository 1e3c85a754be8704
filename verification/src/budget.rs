//! What agents may use up: defaults by role, and overrides from the settings.
use crate::error::{budget, demand, first, invalid_budget, outcome, DomainError, Verdict};
use crate::foundation::TaskBudget;
use crate::json::{json_text, json_unsigned, JsonTree, ToJson};
use crate::ordered::OrderedMap;
use crate::research_review::ResearchSettings;
use crate::text::{same_text, starts_with};
use vstd::prelude::*;

verus! {

/// How many tools may be called.
#[derive(Clone, Copy, Debug, PartialEq, Eq, PartialOrd, Ord, Structural)]
pub enum ToolCallLimit {
    Limited(u16),
    Unlimited,
}

impl ToolCallLimit {
    /// The limit that a name stands for: only no limit has one.
    pub fn named(value: &str) -> (r: Option<ToolCallLimit>)
        ensures
            r == (if value@ == "unlimited"@ {
                Some(ToolCallLimit::Unlimited)
            } else {
                None
            }),
    {
        if same_text(value, "unlimited") {
            Some(ToolCallLimit::Unlimited)
        } else {
            None
        }
    }

    /// The limit, where there is one.
    pub fn finite(self) -> (r: Option<u16>)
        ensures
            r == (match self {
                ToolCallLimit::Limited(n) => Some(n),
                ToolCallLimit::Unlimited => None::<u16>,
            }),
    {
        match self {
            ToolCallLimit::Limited(n) => Some(n),
            ToolCallLimit::Unlimited => None,
        }
    }

    /// So many calls are within the limit.
    pub open spec fn admits(self, used: int) -> bool {
        match self {
            ToolCallLimit::Limited(n) => used <= n,
            ToolCallLimit::Unlimited => true,
        }
    }

    pub fn allows(self, used: u64) -> (r: bool)
        ensures
            r == self.admits(used as int),
    {
        match self {
            ToolCallLimit::Limited(n) => used <= n as u64,
            ToolCallLimit::Unlimited => true,
        }
    }

    /// How many calls are left, none where the limit is passed.
    pub open spec fn left(self, used: int) -> Option<int> {
        match self {
            ToolCallLimit::Limited(n) => Some(
                if used <= n {
                    n - used
                } else {
                    0
                },
            ),
            ToolCallLimit::Unlimited => None,
        }
    }

    pub fn remaining(self, used: u64) -> (r: Option<u64>)
        ensures
            match r {
                Some(n) => self.left(used as int) == Some(n as int),
                None => self.left(used as int) is None,
            },
    {
        match self {
            ToolCallLimit::Limited(n) => Some((n as u64).saturating_sub(used)),
            ToolCallLimit::Unlimited => None,
        }
    }
}

/// While calls are left, one more call is within the limit, and it takes one of those left.
pub proof fn each_call_takes_one_of_those_left(limit: ToolCallLimit, used: int)
    requires
        0 <= used,
        limit.left(used) is None || limit.left(used)->0 > 0,
    ensures
        limit.admits(used + 1),
        limit.left(used) matches Some(n) ==> limit.left(used + 1) == Some(n - 1),
{
}

/// A number where there is one, else the word `unlimited`.
impl ToJson for ToolCallLimit {
    open spec fn json(&self) -> JsonTree {
        match self {
            ToolCallLimit::Limited(n) => JsonTree::Number(*n as int),
            ToolCallLimit::Unlimited => JsonTree::Text("unlimited"@),
        }
    }

    fn to_json(&self) -> (r: serde_json::Value) {
        match self {
            ToolCallLimit::Limited(n) => json_unsigned(*n as u64),
            ToolCallLimit::Unlimited => json_text("unlimited"),
        }
    }
}

/// The settings of the agents.
#[derive(Debug, Clone, PartialEq, Eq)]
pub struct AgentSettings {
    pub research: ResearchSettings,
    pub budget: AgentBudgetConfig,
}

impl Default for AgentSettings {
    fn default() -> (r: Self)
        ensures
            r.research.max_proposal_revisions == 2,
            r.budget == unchanged_config(),
    {
        AgentSettings { research: ResearchSettings::default(), budget: AgentBudgetConfig::default() }
    }
}

/// What the settings change of the budgets: of all agents, and on top of that of one role.
#[derive(Debug, Clone, PartialEq, Eq)]
pub struct AgentBudgetConfig {
    pub default: BudgetOverride,
    pub analyst: BudgetOverride,
    pub critic: BudgetOverride,
    pub synthesizer: BudgetOverride,
    pub outcome_worker: BudgetOverride,
}

/// What is set in place of a default; what is absent is kept.
#[derive(Debug, Clone, PartialEq, Eq)]
pub struct BudgetOverride {
    pub max_input_tokens: Option<u32>,
    pub max_output_tokens: Option<u32>,
    pub max_tool_calls: Option<ToolCallLimit>,
    pub timeout_seconds: Option<u32>,
}

/// The override that sets nothing.
pub open spec fn no_override() -> BudgetOverride {
    BudgetOverride {
        max_input_tokens: None,
        max_output_tokens: None,
        max_tool_calls: None,
        timeout_seconds: None,
    }
}

/// The settings that change nothing.
pub open spec fn unchanged_config() -> AgentBudgetConfig {
    AgentBudgetConfig {
        default: no_override(),
        analyst: no_override(),
        critic: no_override(),
        synthesizer: no_override(),
        outcome_worker: no_override(),
    }
}

impl Default for BudgetOverride {
    fn default() -> (r: Self)
        ensures
            r == no_override(),
    {
        BudgetOverride {
            max_input_tokens: None,
            max_output_tokens: None,
            max_tool_calls: None,
            timeout_seconds: None,
        }
    }
}

impl Default for AgentBudgetConfig {
    fn default() -> (r: Self)
        ensures
            r == unchanged_config(),
    {
        AgentBudgetConfig {
            default: BudgetOverride::default(),
            analyst: BudgetOverride::default(),
            critic: BudgetOverride::default(),
            synthesizer: BudgetOverride::default(),
            outcome_worker: BudgetOverride::default(),
        }
    }
}

/// The most output that newly configured tasks may ask for. It says nothing of the input or of
/// how much context a provider holds.
pub const MAX_AGENT_OUTPUT_TOKENS: u32 = 1_000_000;

/// The contract version from which research may use the whole output ceiling.
pub const OUTPUT_BUDGET_RESEARCH_CONTRACT_VERSION: u32 = 49;

/// The roles of the agents, with the purpose of each.
pub const AGENT_ROLES: [(&'static str, &'static str); 4] = [
    ("analyst", "research.analyst"),
    ("critic", "research.critic"),
    ("synthesizer", "research.synthesizer"),
    ("outcome_worker", "learning.outcome_worker"),
];

/// A value that is set is not zero.
pub open spec fn is_no_zero(value: Option<u32>) -> bool {
    value matches Some(n) ==> n > 0
}

fn is_zero(value: Option<u32>) -> (r: bool)
    ensures
        r == !is_no_zero(value),
{
    match value {
        Some(n) => n == 0,
        None => false,
    }
}

impl BudgetOverride {
    /// No tool at all may be set; no token and no second may not.
    pub open spec fn verdict(&self) -> Verdict {
        first(
            demand(is_no_zero(self.max_input_tokens), budget("agent.budget.max_input_tokens"@)),
            first(
                demand(
                    is_no_zero(self.max_output_tokens),
                    budget("agent.budget.max_output_tokens"@),
                ),
                first(
                    demand(
                        is_no_zero(self.timeout_seconds),
                        budget("agent.budget.timeout_seconds"@),
                    ),
                    demand(
                        self.max_output_tokens matches Some(n) ==> n <= MAX_AGENT_OUTPUT_TOKENS,
                        budget("agent.budget.max_output_tokens"@),
                    ),
                ),
            ),
        )
    }

    fn validate(&self) -> (r: Result<(), DomainError>)
        ensures
            outcome(r) == self.verdict(),
    {
        if is_zero(self.max_input_tokens) {
            return Err(invalid_budget("agent.budget.max_input_tokens"));
        }
        if is_zero(self.max_output_tokens) {
            return Err(invalid_budget("agent.budget.max_output_tokens"));
        }
        if is_zero(self.timeout_seconds) {
            return Err(invalid_budget("agent.budget.timeout_seconds"));
        }
        let excessive = match self.max_output_tokens {
            Some(n) => n > MAX_AGENT_OUTPUT_TOKENS,
            None => false,
        };
        if excessive {
            return Err(invalid_budget("agent.budget.max_output_tokens"));
        }
        Ok(())
    }

    /// The budget with what is set in place of what it was.
    pub open spec fn applied(&self, to: TaskBudget) -> TaskBudget {
        TaskBudget {
            max_input_tokens: match self.max_input_tokens {
                Some(n) => n,
                None => to.max_input_tokens,
            },
            max_output_tokens: match self.max_output_tokens {
                Some(n) => n,
                None => to.max_output_tokens,
            },
            max_wall_time_secs: match self.timeout_seconds {
                Some(n) => n,
                None => to.max_wall_time_secs,
            },
            max_tool_calls: match self.max_tool_calls {
                Some(n) => n,
                None => to.max_tool_calls,
            },
        }
    }

    fn apply(&self, to: &mut TaskBudget)
        ensures
            *final(to) == self.applied(*old(to)),
    {
        if let Some(n) = self.max_input_tokens {
            to.max_input_tokens = n;
        }
        if let Some(n) = self.max_output_tokens {
            to.max_output_tokens = n;
        }
        if let Some(n) = self.max_tool_calls {
            to.max_tool_calls = n;
        }
        if let Some(n) = self.timeout_seconds {
            to.max_wall_time_secs = n;
        }
    }
}

pub open spec fn limited(input: u32, output: u32, tools: u16, seconds: u32) -> TaskBudget {
    TaskBudget {
        max_input_tokens: input,
        max_output_tokens: output,
        max_wall_time_secs: seconds,
        max_tool_calls: ToolCallLimit::Limited(tools),
    }
}

fn limited_budget(input: u32, output: u32, tools: u16, seconds: u32) -> (r: TaskBudget)
    ensures
        r == limited(input, output, tools, seconds),
{
    TaskBudget {
        max_input_tokens: input,
        max_output_tokens: output,
        max_wall_time_secs: seconds,
        max_tool_calls: ToolCallLimit::Limited(tools),
    }
}

/// The defaults of the contracts before output budgets had versions.
pub open spec fn legacy_budget(purpose: Seq<char>) -> Option<TaskBudget> {
    if purpose == "research.planner"@ {
        Some(limited(12_000, 2_000, 4, 120))
    } else if purpose == "research.analyst"@ {
        Some(limited(48_000, 6_000, 4, 120))
    } else if purpose == "research.critic"@ {
        Some(limited(48_000, 4_000, 4, 120))
    } else if purpose == "research.synthesizer"@ {
        Some(limited(48_000, 5_000, 2, 120))
    } else if purpose == "learning.outcome_worker"@ {
        Some(limited(12_000, 4_000, 2, 180))
    } else {
        None
    }
}

pub fn legacy_contract_budget(purpose: &str) -> (r: Option<TaskBudget>)
    ensures
        r == legacy_budget(purpose@),
{
    if same_text(purpose, "research.planner") {
        Some(limited_budget(12_000, 2_000, 4, 120))
    } else if same_text(purpose, "research.analyst") {
        Some(limited_budget(48_000, 6_000, 4, 120))
    } else if same_text(purpose, "research.critic") {
        Some(limited_budget(48_000, 4_000, 4, 120))
    } else if same_text(purpose, "research.synthesizer") {
        Some(limited_budget(48_000, 5_000, 2, 120))
    } else if same_text(purpose, "learning.outcome_worker") {
        Some(limited_budget(12_000, 4_000, 2, 180))
    } else {
        None
    }
}

/// The defaults of the contracts with versioned output budgets. Proposals are reviewed in the
/// role of the critic.
pub open spec fn versioned_budget(purpose: Seq<char>) -> Option<TaskBudget> {
    if purpose == "research.analyst"@ || purpose == "research.critic"@ || purpose
        == "research.proposal_reviewer"@ {
        Some(limited(48_000, MAX_AGENT_OUTPUT_TOKENS, 4, 120))
    } else if purpose == "research.synthesizer"@ {
        Some(limited(48_000, MAX_AGENT_OUTPUT_TOKENS, 2, 120))
    } else if purpose == "learning.outcome_worker"@ {
        Some(limited(12_000, 4_000, 2, 180))
    } else {
        None
    }
}

pub fn versioned_contract_budget(purpose: &str) -> (r: Option<TaskBudget>)
    ensures
        r == versioned_budget(purpose@),
{
    if same_text(purpose, "research.analyst") || same_text(purpose, "research.critic")
        || same_text(purpose, "research.proposal_reviewer") {
        Some(limited_budget(48_000, MAX_AGENT_OUTPUT_TOKENS, 4, 120))
    } else if same_text(purpose, "research.synthesizer") {
        Some(limited_budget(48_000, MAX_AGENT_OUTPUT_TOKENS, 2, 120))
    } else if same_text(purpose, "learning.outcome_worker") {
        Some(limited_budget(12_000, 4_000, 2, 180))
    } else {
        None
    }
}

/// The defaults of new runs.
pub open spec fn default_budget(purpose: Seq<char>) -> Option<TaskBudget> {
    match versioned_budget(purpose) {
        Some(own) => Some(
            TaskBudget {
                max_input_tokens: 1_000_000,
                max_output_tokens: own.max_output_tokens,
                max_wall_time_secs: if purpose == "research.analyst"@ || purpose
                    == "research.critic"@ || purpose == "research.synthesizer"@ {
                    180
                } else {
                    own.max_wall_time_secs
                },
                max_tool_calls: ToolCallLimit::Unlimited,
            },
        ),
        None => None,
    }
}

pub fn default_agent_budget(purpose: &str) -> (r: Option<TaskBudget>)
    ensures
        r == default_budget(purpose@),
{
    match versioned_contract_budget(purpose) {
        Some(own) => {
            let research = same_text(purpose, "research.analyst") || same_text(
                purpose,
                "research.critic",
            ) || same_text(purpose, "research.synthesizer");
            Some(
                TaskBudget {
                    max_input_tokens: 1_000_000,
                    max_output_tokens: own.max_output_tokens,
                    max_wall_time_secs: if research {
                        180
                    } else {
                        own.max_wall_time_secs
                    },
                    max_tool_calls: ToolCallLimit::Unlimited,
                },
            )
        },
        None => None,
    }
}

impl AgentBudgetConfig {
    pub open spec fn verdict(&self) -> Verdict {
        first(
            self.default.verdict(),
            first(
                self.analyst.verdict(),
                first(
                    self.critic.verdict(),
                    first(self.synthesizer.verdict(), self.outcome_worker.verdict()),
                ),
            ),
        )
    }

    pub fn validate(&self) -> (r: Result<(), DomainError>)
        ensures
            outcome(r) == self.verdict(),
    {
        self.default.validate()?;
        self.analyst.validate()?;
        self.critic.validate()?;
        self.synthesizer.validate()?;
        self.outcome_worker.validate()
    }

    /// What the role of a purpose sets.
    pub open spec fn role_override(&self, purpose: Seq<char>) -> Option<BudgetOverride> {
        if purpose == "research.analyst"@ {
            Some(self.analyst)
        } else if purpose == "research.critic"@ || purpose == "research.proposal_reviewer"@ {
            Some(self.critic)
        } else if purpose == "research.synthesizer"@ {
            Some(self.synthesizer)
        } else if purpose == "learning.outcome_worker"@ {
            Some(self.outcome_worker)
        } else {
            None
        }
    }

    /// The purpose whose defaults a purpose has.
    pub open spec fn role_purpose(purpose: Seq<char>) -> Seq<char> {
        if purpose == "research.proposal_reviewer"@ {
            "research.critic"@
        } else {
            purpose
        }
    }

    /// The budget of a purpose: its default, changed for all agents and on top for its role.
    pub open spec fn budget_of(&self, purpose: Seq<char>) -> Option<TaskBudget> {
        match (self.role_override(purpose), default_budget(Self::role_purpose(purpose))) {
            (Some(role), Some(own)) => Some(role.applied(self.default.applied(own))),
            _ => None,
        }
    }

    pub fn resolve(&self, purpose: &str) -> (r: Option<TaskBudget>)
        ensures
            r == self.budget_of(purpose@),
    {
        let role = if same_text(purpose, "research.analyst") {
            &self.analyst
        } else if same_text(purpose, "research.critic") || same_text(
            purpose,
            "research.proposal_reviewer",
        ) {
            &self.critic
        } else if same_text(purpose, "research.synthesizer") {
            &self.synthesizer
        } else if same_text(purpose, "learning.outcome_worker") {
            &self.outcome_worker
        } else {
            return None;
        };
        let own = if same_text(purpose, "research.proposal_reviewer") {
            default_agent_budget("research.critic")
        } else {
            default_agent_budget(purpose)
        };
        match own {
            Some(own) => {
                let mut changed = own;
                self.default.apply(&mut changed);
                role.apply(&mut changed);
                Some(changed)
            },
            None => None,
        }
    }

    /// The budgets of every purpose.
    pub open spec fn budgets(&self) -> Map<Seq<char>, TaskBudget> {
        map![
            "research.analyst"@ => self.budget_of("research.analyst"@)->0,
            "research.critic"@ => self.budget_of("research.critic"@)->0,
            "research.synthesizer"@ => self.budget_of("research.synthesizer"@)->0,
            "learning.outcome_worker"@ => self.budget_of("learning.outcome_worker"@)->0,
            "research.proposal_reviewer"@ => self.budget_of("research.proposal_reviewer"@)->0,
        ]
    }

    fn add_budget(&self, to: &mut OrderedMap<String, TaskBudget>, purpose: &str)
        requires
            self.budget_of(purpose@) is Some,
        ensures
            final(to)@ == old(to)@.insert(purpose@, self.budget_of(purpose@)->0),
    {
        if let Some(own) = self.resolve(purpose) {
            to.insert(purpose.to_owned(), own);
        }
    }

    pub fn resolved(&self) -> (r: OrderedMap<String, TaskBudget>)
        ensures
            r@ == self.budgets(),
    {
        let mut r: OrderedMap<String, TaskBudget> = OrderedMap::new();
        self.add_budget(&mut r, "research.analyst");
        self.add_budget(&mut r, "research.critic");
        self.add_budget(&mut r, "research.synthesizer");
        self.add_budget(&mut r, "learning.outcome_worker");
        self.add_budget(&mut r, "research.proposal_reviewer");
        r
    }
}

proof fn purposes_differ()
    ensures
        "research.planner"@ != "research.analyst"@,
        "research.planner"@ != "research.critic"@,
        "research.planner"@ != "research.synthesizer"@,
        "research.analyst"@ != "research.critic"@,
        "research.analyst"@ != "research.synthesizer"@,
        "research.analyst"@ != "learning.outcome_worker"@,
        "research.analyst"@ != "research.proposal_reviewer"@,
        "research.critic"@ != "research.synthesizer"@,
        "research.critic"@ != "learning.outcome_worker"@,
        "research.critic"@ != "research.proposal_reviewer"@,
        "research.synthesizer"@ != "learning.outcome_worker"@,
        "research.synthesizer"@ != "research.proposal_reviewer"@,
        "learning.outcome_worker"@ != "research.proposal_reviewer"@,
        "learning.outcome_worker"@ != "research.planner"@,
        starts_with("research.analyst"@, "research."@),
        starts_with("research.critic"@, "research."@),
        starts_with("research.synthesizer"@, "research."@),
        !starts_with("learning.outcome_worker"@, "research."@),
{
    reveal_strlit("research.planner");
    reveal_strlit("research.analyst");
    reveal_strlit("research.critic");
    reveal_strlit("research.synthesizer");
    reveal_strlit("learning.outcome_worker");
    reveal_strlit("research.proposal_reviewer");
    reveal_strlit("research.");
    assert("research.proposal_reviewer"@.len() == 26);
    assert("research.critic"@.len() == 15);
    assert("research.synthesizer"@.len() == 20);
    assert("research.planner"@[9] != "research.analyst"@[9]);
    assert("research.analyst"@.take(9) =~= "research."@);
    assert("research.critic"@.take(9) =~= "research."@);
    assert("research.synthesizer"@.take(9) =~= "research."@);
    assert("learning.outcome_worker"@.take(9)[0] != "research."@[0]);
}

/// The purpose of one of the four roles.
pub open spec fn is_role_purpose(purpose: Seq<char>) -> bool {
    ||| purpose == "research.analyst"@
    ||| purpose == "research.critic"@
    ||| purpose == "research.synthesizer"@
    ||| purpose == "learning.outcome_worker"@
}

/// Versioned output budgets change nothing but the output of research.
pub proof fn versions_change_only_research_output(purpose: Seq<char>)
    requires
        is_role_purpose(purpose),
    ensures
        legacy_budget(purpose) is Some,
        versioned_budget(purpose) is Some,
        versioned_budget(purpose)->0 == (TaskBudget {
            max_output_tokens: if starts_with(purpose, "research."@) {
                MAX_AGENT_OUTPUT_TOKENS
            } else {
                legacy_budget(purpose)->0.max_output_tokens
            },
            ..legacy_budget(purpose)->0
        }),
{
    purposes_differ();
}

/// Whatever the settings, proposals are reviewed on the budget of the critic.
pub proof fn proposals_are_reviewed_on_the_critics_budget(config: AgentBudgetConfig)
    ensures
        config.budget_of("research.proposal_reviewer"@) == config.budget_of("research.critic"@),
        config.budget_of("research.critic"@) is Some,
{
    purposes_differ();
}

/// Settings that change nothing leave every role its default.
pub proof fn unchanged_settings_keep_the_defaults(purpose: Seq<char>)
    requires
        is_role_purpose(purpose),
    ensures
        unchanged_config().verdict() is Ok,
        unchanged_config().budget_of(purpose) == default_budget(purpose),
{
    purposes_differ();
}

/// What valid settings resolve to is a valid budget.
pub proof fn valid_settings_resolve_to_valid_budgets(config: AgentBudgetConfig, purpose: Seq<char>)
    requires
        config.verdict() is Ok,
        config.budget_of(purpose) is Some,
    ensures
        config.budget_of(purpose)->0.verdict() is Ok,
        config.budget_of(purpose)->0.max_output_tokens <= MAX_AGENT_OUTPUT_TOKENS,
{
    purposes_differ();
}

/// What a budget override is refused with: the first fault that it has.
pub proof fn refusal_of_budget_override_names_its_fault(this: BudgetOverride)
    ensures
        !(is_no_zero(this.max_input_tokens))
            ==> this.verdict() == Verdict::Err(budget("agent.budget.max_input_tokens"@)),
        (is_no_zero(this.max_input_tokens)) && !(is_no_zero(this.max_output_tokens))
            ==> this.verdict() == Verdict::Err(budget("agent.budget.max_output_tokens"@)),
        (is_no_zero(this.max_input_tokens)) && (is_no_zero(this.max_output_tokens))
            && !(is_no_zero(this.timeout_seconds))
            ==> this.verdict() == Verdict::Err(budget("agent.budget.timeout_seconds"@)),
        (is_no_zero(this.max_input_tokens)) && (is_no_zero(this.max_output_tokens))
            && (is_no_zero(this.timeout_seconds)) && !(this.max_output_tokens matches Some(n)
            ==> n <= MAX_AGENT_OUTPUT_TOKENS)
            ==> this.verdict() == Verdict::Err(budget("agent.budget.max_output_tokens"@)),
{
}

} // verus!
