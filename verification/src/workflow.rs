//! Workflows: proposals of tasks, and the graphs of nodes that are made of them.
use crate::artifact::ArtifactRef;
use crate::contract::{TaskRecipe, TaskRecipeId};
use crate::decision::DecisionHorizon;
use crate::error::{
    budget, demand, empty, empty_field, first, invalid_budget, outcome, DomainError, ErrorView,
    Verdict,
};
use crate::foundation::{ContentHash, FailureDisposition, RetryPolicy, TaskBudget, TaskId};
use crate::json::{
    json_insert, json_new_object, json_object, json_text, no_members, JsonTree, ToJson,
};
use crate::lists::{
    first_fault, first_fault_stays, no_fault_means_every_check_passes, position_of,
};
use crate::ordered::{pushed_elements, OrderedMap};
use crate::text::{blank, has_prefix, is_blank, same_text, starts_with};
use crate::DOMAIN_SCHEMA_VERSION;
use vstd::prelude::*;

verus! {

/// What a task of a workflow does.
#[derive(Clone, Copy, Debug, PartialEq, Eq, PartialOrd, Ord, Hash, Structural)]
pub enum RuntimeTaskClass {
    Evidence,
    Agent,
    DecisionGate,
    ExecutionGate,
    PaperCommit,
    Reconcile,
    Evaluate,
}

impl RuntimeTaskClass {
    /// The name of the variant in JSON.
    pub open spec fn wire(self) -> Seq<char> {
        match self {
            RuntimeTaskClass::Evidence => "evidence"@,
            RuntimeTaskClass::Agent => "agent"@,
            RuntimeTaskClass::DecisionGate => "decision_gate"@,
            RuntimeTaskClass::ExecutionGate => "execution_gate"@,
            RuntimeTaskClass::PaperCommit => "paper_commit"@,
            RuntimeTaskClass::Reconcile => "reconcile"@,
            RuntimeTaskClass::Evaluate => "evaluate"@,
        }
    }

    /// The name of the variant in JSON.
    pub fn wire_name(self) -> (r: &'static str)
        ensures
            r@ == self.wire(),
    {
        match self {
            RuntimeTaskClass::Evidence => "evidence",
            RuntimeTaskClass::Agent => "agent",
            RuntimeTaskClass::DecisionGate => "decision_gate",
            RuntimeTaskClass::ExecutionGate => "execution_gate",
            RuntimeTaskClass::PaperCommit => "paper_commit",
            RuntimeTaskClass::Reconcile => "reconcile",
            RuntimeTaskClass::Evaluate => "evaluate",
        }
    }
}

impl ToJson for RuntimeTaskClass {
    open spec fn json(&self) -> JsonTree {
        JsonTree::Text(self.wire())
    }

    fn to_json(&self) -> (r: serde_json::Value) {
        json_text(self.wire_name())
    }
}

/// A task that is proposed.
#[derive(Debug, Clone, PartialEq, Eq)]
pub struct WorkflowProposalTask {
    pub recipe_id: TaskRecipeId,
    pub objective: String,
    pub depends_on: Vec<String>,
    pub priority: u8,
    pub evidence_needs: Vec<ArtifactRef>,
}

/// A workflow that is proposed, its tasks by alias.
#[derive(Debug, Clone, PartialEq, Eq)]
pub struct WorkflowProposal {
    pub schema_version: u32,
    pub topology_id: String,
    pub tasks: OrderedMap<String, WorkflowProposalTask>,
    pub stop_reason: Option<String>,
}

impl WorkflowProposal {
    /// The first task that a task waits for and that is not proposed, where there is one.
    pub open spec fn first_unproposed(&self, aliases: Seq<String>) -> Option<Seq<char>>
        decreases aliases.len(),
    {
        if aliases.len() == 0 {
            None
        } else if !self.tasks@.dom().contains(aliases[0]@) {
            Some(aliases[0]@)
        } else {
            self.first_unproposed(aliases.drop_first())
        }
    }

    pub open spec fn task_verdict(
        &self,
        alias: Seq<char>,
        task: WorkflowProposalTask,
        recipes: Map<Seq<char>, TaskRecipe>,
    ) -> Verdict {
        if blank(alias) || blank(task.objective@) || task.priority > 100 {
            Err(budget("workflow_proposal.task"@))
        } else if !recipes.dom().contains(task.recipe_id@) {
            Err(empty("workflow_proposal.recipe"@))
        } else if task.priority > recipes[task.recipe_id@].priority_ceiling {
            Err(budget("workflow_proposal.priority"@))
        } else {
            match self.first_unproposed(task.depends_on@) {
                Some(missing) => Err(
                    ErrorView::UnknownDependency { task: alias, dependency: missing },
                ),
                None => Ok(()),
            }
        }
    }

    /// The check of one task, in the order of the aliases.
    pub open spec fn task_checks(&self, recipes: Map<Seq<char>, TaskRecipe>) -> spec_fn(
        int,
    ) -> Verdict {
        |i: int| self.task_verdict(self.tasks.keys()[i], self.tasks.values()[i], recipes)
    }

    pub open spec fn verdict(&self, recipes: Map<Seq<char>, TaskRecipe>) -> Verdict {
        if self.schema_version != DOMAIN_SCHEMA_VERSION || blank(self.topology_id@) {
            Err(empty("workflow_proposal.identity"@))
        } else if self.tasks.keys().len() == 0 {
            Err(empty("workflow_proposal.tasks"@))
        } else {
            first_fault(self.tasks.keys().len(), self.task_checks(recipes))
        }
    }

    fn validate_task(
        &self,
        alias: &String,
        task: &WorkflowProposalTask,
        recipes: &OrderedMap<TaskRecipeId, TaskRecipe>,
    ) -> (r: Result<(), DomainError>)
        ensures
            outcome(r) == self.task_verdict(alias@, *task, recipes@),
    {
        if is_blank(alias) || is_blank(&task.objective) || task.priority > 100 {
            return Err(invalid_budget("workflow_proposal.task"));
        }
        match recipes.get(&task.recipe_id) {
            None => {
                return Err(empty_field("workflow_proposal.recipe"));
            },
            Some(recipe) => {
                if task.priority > recipe.priority_ceiling {
                    return Err(invalid_budget("workflow_proposal.priority"));
                }
            },
        }
        match self.find_unproposed(&task.depends_on) {
            Some(missing) => Err(
                DomainError::UnknownDependency {
                    task: TaskId(alias.clone()),
                    dependency: TaskId(missing),
                },
            ),
            None => Ok(()),
        }
    }

    fn find_unproposed(&self, aliases: &Vec<String>) -> (r: Option<String>)
        ensures
            match (r, self.first_unproposed(aliases@)) {
                (Some(own), Some(missing)) => own@ == missing,
                (None, None) => true,
                _ => false,
            },
    {
        let mut i: usize = 0;
        proof {
            assert(aliases@.skip(0) =~= aliases@);
        }
        while i < aliases.len()
            invariant
                i <= aliases.len(),
                self.first_unproposed(aliases@) == self.first_unproposed(aliases@.skip(i as int)),
            decreases aliases.len() - i,
        {
            proof {
                assert(aliases@.skip(i as int)[0] == aliases@[i as int]);
                assert(aliases@.skip(i as int).drop_first() =~= aliases@.skip(i + 1));
            }
            if !self.tasks.contains_key(&aliases[i]) {
                return Some(aliases[i].clone());
            }
            i += 1;
        }
        None
    }

    fn validate_tasks(&self, recipes: &OrderedMap<TaskRecipeId, TaskRecipe>) -> (r: Result<
        (),
        DomainError,
    >)
        ensures
            outcome(r) == first_fault(self.tasks.keys().len(), self.task_checks(recipes@)),
    {
        let ghost checks = self.task_checks(recipes@);
        let count: usize = self.tasks.len();
        let mut n: usize = 0;
        while n < count
            invariant
                n <= count,
                count == self.tasks.keys().len(),
                checks == self.task_checks(recipes@),
                first_fault(n as nat, checks) == Verdict::Ok(()),
            decreases count - n,
        {
            proof {
                assert(first_fault((n + 1) as nat, checks) == checks(n as int));
                if checks(n as int) is Err {
                    first_fault_stays((n + 1) as nat, count as nat, checks);
                }
            }
            self.validate_task(self.tasks.key_at(n), self.tasks.value_at(n), recipes)?;
            n += 1;
        }
        Ok(())
    }

    pub fn validate(&self, recipes: &OrderedMap<TaskRecipeId, TaskRecipe>) -> (r: Result<
        (),
        DomainError,
    >)
        ensures
            outcome(r) == self.verdict(recipes@),
    {
        if self.schema_version != DOMAIN_SCHEMA_VERSION || is_blank(&self.topology_id) {
            return Err(empty_field("workflow_proposal.identity"));
        }
        if self.tasks.is_empty() {
            return Err(empty_field("workflow_proposal.tasks"));
        }
        self.validate_tasks(recipes)
    }
}

/// What a node is meant to do, apart from the words of its objective.
#[derive(Debug, PartialEq, Eq)]
pub struct NodeSpec {
    pub key: String,
    pub horizon: Option<DecisionHorizon>,
    pub research_round: Option<u8>,
    pub proposal_revision: Option<u8>,
}

impl Clone for NodeSpec {
    fn clone(&self) -> (r: Self)
        ensures
            r == *self,
    {
        NodeSpec {
            key: self.key.clone(),
            horizon: self.horizon,
            research_round: self.research_round,
            proposal_revision: self.proposal_revision,
        }
    }
}

impl ToJson for NodeSpec {
    open spec fn json(&self) -> JsonTree {
        let m = no_members();
        let m = m.insert("key"@, self.key.json());
        let m = m.insert("horizon"@, self.horizon.json());
        let m = m.insert("research_round"@, self.research_round.json());
        let m = m.insert("proposal_revision"@, self.proposal_revision.json());
        JsonTree::Object(m)
    }

    fn to_json(&self) -> (r: serde_json::Value) {
        let mut members = json_new_object();
        json_insert(&mut members, "key", self.key.to_json());
        json_insert(&mut members, "horizon", self.horizon.to_json());
        json_insert(&mut members, "research_round", self.research_round.to_json());
        json_insert(&mut members, "proposal_revision", self.proposal_revision.to_json());
        json_object(members)
    }
}

/// A node of a workflow: a task with what it waits for and what it may use up.
#[derive(Debug, Clone, PartialEq, Eq)]
pub struct WorkflowNode {
    pub spec: Option<NodeSpec>,
    pub task_id: TaskId,
    pub recipe_id: TaskRecipeId,
    pub contract_hash: Option<ContentHash>,
    pub objective: String,
    pub dependencies: Vec<TaskId>,
    pub input_artifacts: Vec<ArtifactRef>,
    pub priority: u8,
    pub budget: TaskBudget,
    pub retry: RetryPolicy,
    pub on_failure: FailureDisposition,
    pub parent_task_id: Option<TaskId>,
}

impl ToJson for WorkflowNode {
    open spec fn json(&self) -> JsonTree {
        let m = no_members();
        let m = if self.spec is Some {
            m.insert("spec"@, self.spec.json())
        } else {
            m
        };
        let m = m.insert("task_id"@, self.task_id.json());
        let m = m.insert("recipe_id"@, self.recipe_id.json());
        let m = m.insert("contract_hash"@, self.contract_hash.json());
        let m = m.insert("objective"@, self.objective.json());
        let m = m.insert("dependencies"@, self.dependencies.json());
        let m = m.insert("input_artifacts"@, self.input_artifacts.json());
        let m = m.insert("priority"@, self.priority.json());
        let m = m.insert("budget"@, self.budget.json());
        let m = m.insert("retry"@, self.retry.json());
        let m = m.insert("on_failure"@, self.on_failure.json());
        let m = m.insert("parent_task_id"@, self.parent_task_id.json());
        JsonTree::Object(m)
    }

    fn to_json(&self) -> (r: serde_json::Value) {
        let mut members = json_new_object();
        if self.spec.is_some() {
            json_insert(&mut members, "spec", self.spec.to_json());
        }
        json_insert(&mut members, "task_id", self.task_id.to_json());
        json_insert(&mut members, "recipe_id", self.recipe_id.to_json());
        json_insert(&mut members, "contract_hash", self.contract_hash.to_json());
        json_insert(&mut members, "objective", self.objective.to_json());
        json_insert(&mut members, "dependencies", self.dependencies.to_json());
        json_insert(&mut members, "input_artifacts", self.input_artifacts.to_json());
        json_insert(&mut members, "priority", self.priority.to_json());
        json_insert(&mut members, "budget", self.budget.to_json());
        json_insert(&mut members, "retry", self.retry.to_json());
        json_insert(&mut members, "on_failure", self.on_failure.to_json());
        json_insert(&mut members, "parent_task_id", self.parent_task_id.to_json());
        json_object(members)
    }
}

/// The horizon that an objective begins with, where it names one.
pub open spec fn marked_horizon(objective: Seq<char>) -> Option<DecisionHorizon> {
    if starts_with(objective, "[research_horizon=t1]"@) {
        Some(DecisionHorizon::T1)
    } else if starts_with(objective, "[research_horizon=t3]"@) {
        Some(DecisionHorizon::T3)
    } else if starts_with(objective, "[research_horizon=t5]"@) {
        Some(DecisionHorizon::T5)
    } else {
        None
    }
}

impl WorkflowNode {
    /// The horizon of the node: that of its own description, and of a node without one that
    /// which its objective begins with.
    pub open spec fn horizon(&self) -> Option<DecisionHorizon> {
        match self.spec {
            Some(own) => own.horizon,
            None => marked_horizon(self.objective@),
        }
    }

    pub fn execution_spec(&self) -> (r: NodeSpec)
        ensures
            match self.spec {
                Some(own) => r == own,
                None => r.key@ == self.recipe_id@ && r.horizon == self.horizon()
                    && r.research_round is None && r.proposal_revision is None,
            },
    {
        match &self.spec {
            Some(own) => own.clone(),
            None => {
                let horizon = if has_prefix(&self.objective, "[research_horizon=t1]") {
                    Some(DecisionHorizon::T1)
                } else if has_prefix(&self.objective, "[research_horizon=t3]") {
                    Some(DecisionHorizon::T3)
                } else if has_prefix(&self.objective, "[research_horizon=t5]") {
                    Some(DecisionHorizon::T5)
                } else {
                    None
                };
                NodeSpec {
                    key: self.recipe_id.as_str().to_owned(),
                    horizon,
                    research_round: None,
                    proposal_revision: None,
                }
            },
        }
    }
}

/// A workflow, ready to run.
#[derive(Debug, Clone, PartialEq, Eq)]
pub struct WorkflowGraph {
    pub schema_version: u32,
    pub topology_id: String,
    pub nodes: Vec<WorkflowNode>,
}

impl ToJson for WorkflowGraph {
    open spec fn json(&self) -> JsonTree {
        let m = no_members();
        let m = m.insert("schema_version"@, self.schema_version.json());
        let m = m.insert("topology_id"@, self.topology_id.json());
        let m = m.insert("nodes"@, self.nodes.json());
        JsonTree::Object(m)
    }

    fn to_json(&self) -> (r: serde_json::Value) {
        let mut members = json_new_object();
        json_insert(&mut members, "schema_version", self.schema_version.to_json());
        json_insert(&mut members, "topology_id", self.topology_id.to_json());
        json_insert(&mut members, "nodes", self.nodes.to_json());
        json_object(members)
    }
}

/// The task that is the `i`-th node.
pub open spec fn task_of(nodes: Seq<WorkflowNode>, i: int) -> Seq<char> {
    nodes[i].task_id@
}

/// No two nodes are the same task.
pub open spec fn tasks_differ(nodes: Seq<WorkflowNode>) -> bool {
    forall|i: int, j: int|
        0 <= i < j < nodes.len() ==> #[trigger] task_of(nodes, i) != #[trigger] task_of(nodes, j)
}

/// Some node is the task.
pub open spec fn has_task(nodes: Seq<WorkflowNode>, task: Seq<char>) -> bool {
    exists|i: int| 0 <= i < nodes.len() && #[trigger] task_of(nodes, i) == task
}

/// Every task that the node waits for is a node.
pub open spec fn dependencies_are_known(nodes: Seq<WorkflowNode>, node: WorkflowNode) -> bool {
    forall|k: int|
        0 <= k < node.dependencies@.len() ==> has_task(nodes, (#[trigger] node.dependencies@[k])@)
}

/// The first of some tasks that no node is, where there is one.
pub open spec fn first_unknown(nodes: Seq<WorkflowNode>, tasks: Seq<TaskId>) -> Option<Seq<char>>
    decreases tasks.len(),
{
    if tasks.len() == 0 {
        None
    } else if !has_task(nodes, tasks[0]@) {
        Some(tasks[0]@)
    } else {
        first_unknown(nodes, tasks.drop_first())
    }
}

proof fn first_unknown_is_the_first(nodes: Seq<WorkflowNode>, tasks: Seq<TaskId>, n: int)
    requires
        0 <= n <= tasks.len(),
        forall|k: int| 0 <= k < n ==> has_task(nodes, (#[trigger] tasks[k])@),
        n < tasks.len() ==> !has_task(nodes, tasks[n]@),
    ensures
        first_unknown(nodes, tasks) == if n < tasks.len() {
            Some(tasks[n]@)
        } else {
            None
        },
    decreases tasks.len(),
{
    if n > 0 {
        assert(has_task(nodes, tasks[0]@));
        let rest = tasks.drop_first();
        assert forall|k: int| 0 <= k < n - 1 implies has_task(nodes, (#[trigger] rest[k])@) by {
            let next = k + 1;
            assert(rest[k] == tasks[next]);
        }
        if n < tasks.len() {
            assert(rest[n - 1] == tasks[n]);
        }
        first_unknown_is_the_first(nodes, rest, n - 1);
    }
}

/// The first task that an earlier node is already, among the first nodes, where there is one.
pub open spec fn first_repeated(nodes: Seq<WorkflowNode>, n: nat) -> Option<Seq<char>>
    decreases n,
{
    if n == 0 {
        None
    } else if first_repeated(nodes, (n - 1) as nat) is Some {
        first_repeated(nodes, (n - 1) as nat)
    } else if is_repeated(nodes, n - 1) {
        Some(task_of(nodes, n - 1))
    } else {
        None
    }
}

/// An earlier node is the same task.
pub open spec fn is_repeated(nodes: Seq<WorkflowNode>, n: int) -> bool {
    exists|k: int| 0 <= k < n && #[trigger] task_of(nodes, k) == task_of(nodes, n)
}

proof fn repeated_stays(nodes: Seq<WorkflowNode>, m: nat, n: nat)
    requires
        m <= n,
        first_repeated(nodes, m) is Some,
    ensures
        first_repeated(nodes, n) == first_repeated(nodes, m),
    decreases n,
{
    if m < n {
        repeated_stays(nodes, m, (n - 1) as nat);
    }
}

/// Node `a` waits for node `b`.
pub open spec fn depends(nodes: Seq<WorkflowNode>, a: int, b: int) -> bool {
    &&& 0 <= a < nodes.len()
    &&& 0 <= b < nodes.len()
    &&& exists|k: int|
        0 <= k < nodes[a].dependencies@.len() && (#[trigger] nodes[a].dependencies@[k])@ == task_of(
            nodes,
            b,
        )
}

/// A walk of at least one step from each node to one that it waits for.
pub open spec fn is_walk(nodes: Seq<WorkflowNode>, walk: Seq<int>) -> bool {
    &&& walk.len() >= 2
    &&& forall|i: int, j: int|
        0 <= i && j == i + 1 && j < walk.len() ==> depends(
            nodes,
            #[trigger] walk[i],
            #[trigger] walk[j],
        )
}

/// Some walk comes back to where it began.
pub open spec fn has_cycle(nodes: Seq<WorkflowNode>) -> bool {
    exists|walk: Seq<int>| #[trigger] is_walk(nodes, walk) && walk.first() == walk.last()
}

/// An order in which every node listed stands after all that it waits for.
pub open spec fn is_running_order(nodes: Seq<WorkflowNode>, order: Seq<int>) -> bool {
    forall|p: int, b: int|
        0 <= p < order.len() && #[trigger] depends(nodes, order[p], b) ==> stands_before(
            order,
            b,
            p,
        )
}

/// A node stands at a place before the `p`-th.
pub open spec fn stands_before(order: Seq<int>, node: int, p: int) -> bool {
    exists|q: int| 0 <= q < p && #[trigger] order[q] == node
}

proof fn walk_descends(nodes: Seq<WorkflowNode>, order: Seq<int>, walk: Seq<int>, p: int)
    requires
        is_running_order(nodes, order),
        is_walk(nodes, walk),
        0 <= p < order.len(),
        order[p] == walk[0],
    ensures
        stands_before(order, walk.last(), p),
    decreases walk.len(),
{
    assert(depends(nodes, walk[0], walk[1]));
    assert(depends(nodes, order[p], walk[1]));
    let q = choose|q: int| 0 <= q < p && #[trigger] order[q] == walk[1];
    if walk.len() > 2 {
        let rest = walk.drop_first();
        assert forall|i: int, j: int| 0 <= i && j == i + 1 && j < rest.len() implies depends(
            nodes,
            #[trigger] rest[i],
            #[trigger] rest[j],
        ) by {
            let k = j + 1;
            assert(rest[i] == walk[j] && rest[j] == walk[k]);
        }
        walk_descends(nodes, order, rest, q);
        assert(rest.last() == walk.last());
        let t = choose|t: int| 0 <= t < q && #[trigger] order[t] == walk.last();
        assert(order[t] == walk.last());
    }
}

/// Nodes that can all be run one after the other, each after those that it waits for, have no
/// cycle.
pub proof fn running_order_means_no_cycle(nodes: Seq<WorkflowNode>, order: Seq<int>)
    requires
        is_running_order(nodes, order),
        order.no_duplicates(),
        forall|i: int| 0 <= i < nodes.len() ==> #[trigger] order.contains(i),
    ensures
        !has_cycle(nodes),
{
    if has_cycle(nodes) {
        let walk = choose|walk: Seq<int>| #[trigger]
            is_walk(nodes, walk) && walk.first() == walk.last();
        assert(depends(nodes, walk[0], walk[1]));
        assert(order.contains(walk[0]));
        let p = choose|p: int| 0 <= p < order.len() && order[p] == walk[0];
        walk_descends(nodes, order, walk, p);
        let q = choose|q: int| 0 <= q < p && #[trigger] order[q] == walk.last();
        assert(order[q] == order[p]);
    }
}

/// A running order of the nodes, each of them once.
pub open spec fn runs_all(nodes: Seq<WorkflowNode>, order: Seq<int>) -> bool {
    &&& is_running_order(nodes, order)
    &&& order.no_duplicates()
    &&& forall|i: int| 0 <= i < nodes.len() <==> #[trigger] order.contains(i)
}

/// Nodes without a cycle can all be run one after the other, each after those that it waits
/// for.
pub proof fn nodes_without_a_cycle_have_a_running_order(nodes: Seq<WorkflowNode>)
    requires
        !has_cycle(nodes),
    ensures
        exists|order: Seq<int>| #[trigger] runs_all(nodes, order),
{
    let none: Seq<int> = Seq::empty();
    assert(is_running_order(nodes, none));
    order_completes(nodes, none);
}

proof fn order_completes(nodes: Seq<WorkflowNode>, done: Seq<int>)
    requires
        !has_cycle(nodes),
        is_running_order(nodes, done),
        done.no_duplicates(),
        forall|i: int| #[trigger] done.contains(i) ==> 0 <= i < nodes.len(),
    ensures
        exists|order: Seq<int>| #[trigger] runs_all(nodes, order),
    decreases nodes.len() - done.len(),
{
    distinct_places_fit(done, nodes.len());
    if forall|i: int| 0 <= i < nodes.len() ==> #[trigger] done.contains(i) {
        assert(runs_all(nodes, done));
    } else {
        let i = node_without_wait(nodes, done);
        let next = done.push(i);
        pushed_elements(done, i);
        assert forall|p: int, b: int|
            0 <= p < next.len() && #[trigger] depends(nodes, next[p], b) implies stands_before(
            next,
            b,
            p,
        ) by {
            if p < done.len() {
                assert(next[p] == done[p]);
                assert(depends(nodes, done[p], b));
                let q = choose|q: int| 0 <= q < p && #[trigger] done[q] == b;
                assert(next[q] == b);
            } else {
                assert(next[p] == i);
                assert(done.contains(b));
                let q = choose|q: int| 0 <= q < done.len() && done[q] == b;
                assert(next[q] == b);
            }
        }
        distinct_places_fit(next, nodes.len());
        order_completes(nodes, next);
    }
}

/// Places that differ are no more than there are.
proof fn distinct_places_fit(places: Seq<int>, n: nat)
    requires
        places.no_duplicates(),
        forall|i: int| #[trigger] places.contains(i) ==> 0 <= i < n,
    ensures
        places.len() <= n,
{
    let all = vstd::set_lib::set_int_range(0, n as int);
    vstd::set_lib::lemma_int_range(0, n as int);
    places.unique_seq_to_set();
    assert(places.to_set().subset_of(all)) by {
        assert forall|i: int| places.to_set().contains(i) implies all.contains(i) by {
            assert(places.contains(i));
        }
    }
    vstd::set_lib::lemma_len_subset(places.to_set(), all);
}

/// Every node that is left waits for another that is left.
spec fn is_stuck(nodes: Seq<WorkflowNode>, done: Seq<int>) -> bool {
    forall|i: int|
        0 <= i < nodes.len() && !(#[trigger] done.contains(i)) ==> waits_for_one_left(
            nodes,
            done,
            i,
        )
}

spec fn waits_for_one_left(nodes: Seq<WorkflowNode>, done: Seq<int>, i: int) -> bool {
    exists|b: int| #[trigger] depends(nodes, i, b) && !done.contains(b)
}

/// A node that is left and waits only for nodes that are done.
proof fn node_without_wait(nodes: Seq<WorkflowNode>, done: Seq<int>) -> (r: int)
    requires
        !has_cycle(nodes),
        !(forall|i: int| 0 <= i < nodes.len() ==> #[trigger] done.contains(i)),
    ensures
        0 <= r < nodes.len(),
        !done.contains(r),
        forall|b: int| #[trigger] depends(nodes, r, b) ==> done.contains(b),
{
    if is_stuck(nodes, done) {
        let start = choose|i: int| 0 <= i < nodes.len() && !(#[trigger] done.contains(i));
        let walk = stuck_walk(nodes, done, start, nodes.len());
        if walk.no_duplicates() {
            assert forall|i: int| #[trigger] walk.contains(i) implies 0 <= i < nodes.len() by {
                let p = choose|p: int| 0 <= p < walk.len() && walk[p] == i;
                assert(0 <= walk[p] < nodes.len());
            }
            distinct_places_fit(walk, nodes.len());
        }
        let (p, q) = choose|p: int, q: int|
            0 <= p < walk.len() && 0 <= q < walk.len() && p != q && walk[p] == walk[q];
        if p < q {
            round_is_a_cycle(nodes, walk, p, q);
        } else {
            round_is_a_cycle(nodes, walk, q, p);
        }
    }
    choose|i: int|
        0 <= i < nodes.len() && !(#[trigger] done.contains(i)) && !waits_for_one_left(
            nodes,
            done,
            i,
        )
}

proof fn round_is_a_cycle(nodes: Seq<WorkflowNode>, walk: Seq<int>, p: int, q: int)
    requires
        forall|i: int, j: int|
            0 <= i && j == i + 1 && j < walk.len() ==> depends(
                nodes,
                #[trigger] walk[i],
                #[trigger] walk[j],
            ),
        0 <= p < q < walk.len(),
        walk[p] == walk[q],
    ensures
        has_cycle(nodes),
{
    let round = walk.subrange(p, q + 1);
    assert forall|i: int, j: int| 0 <= i && j == i + 1 && j < round.len() implies depends(
        nodes,
        #[trigger] round[i],
        #[trigger] round[j],
    ) by {
        let k = p + i;
        let l = p + j;
        assert(round[i] == walk[k] && round[j] == walk[l]);
        assert(depends(nodes, walk[k], walk[l]));
    }
    assert(is_walk(nodes, round));
    assert(round.first() == round.last());
}

/// A walk of any length among nodes that are left, where each waits for another.
proof fn stuck_walk(nodes: Seq<WorkflowNode>, done: Seq<int>, start: int, steps: nat) -> (walk: Seq<
    int,
>)
    requires
        is_stuck(nodes, done),
        0 <= start < nodes.len(),
        !done.contains(start),
    ensures
        walk.len() == steps + 1,
        walk[0] == start,
        forall|i: int| 0 <= i < walk.len() ==> 0 <= #[trigger] walk[i] < nodes.len(),
        forall|i: int, j: int|
            0 <= i && j == i + 1 && j < walk.len() ==> depends(
                nodes,
                #[trigger] walk[i],
                #[trigger] walk[j],
            ),
    decreases steps,
{
    if steps == 0 {
        seq![start]
    } else {
        assert(waits_for_one_left(nodes, done, start));
        let b = choose|b: int| #[trigger] depends(nodes, start, b) && !done.contains(b);
        let rest = stuck_walk(nodes, done, b, (steps - 1) as nat);
        let walk = seq![start] + rest;
        assert forall|i: int, j: int| 0 <= i && j == i + 1 && j < walk.len() implies depends(
            nodes,
            #[trigger] walk[i],
            #[trigger] walk[j],
        ) by {
            if i > 0 {
                let k = i - 1;
                assert(walk[i] == rest[k] && walk[j] == rest[i]);
                assert(depends(nodes, rest[k], rest[i]));
            } else {
                assert(walk[0] == start && walk[1] == rest[0]);
            }
        }
        walk
    }
}

/// How many nodes were not met yet.
spec fn unmet(marks: Seq<u8>) -> nat
    decreases marks.len(),
{
    if marks.len() == 0 {
        0
    } else {
        unmet(marks.drop_last()) + if marks.last() == 0 {
            1nat
        } else {
            0nat
        }
    }
}

proof fn unmet_falls(before: Seq<u8>, after: Seq<u8>)
    requires
        before.len() == after.len(),
        forall|i: int| 0 <= i < after.len() && #[trigger] after[i] == 0 ==> before[i] == 0,
    ensures
        unmet(after) <= unmet(before),
        forall|i: int|
            0 <= i < after.len() && #[trigger] after[i] != 0 && before[i] == 0 ==> unmet(after)
                < unmet(before),
    decreases before.len(),
{
    if before.len() > 0 {
        let a = after.drop_last();
        let b = before.drop_last();
        assert forall|i: int| 0 <= i < a.len() && #[trigger] a[i] == 0 implies b[i] == 0 by {
            assert(after[i] == 0);
        }
        unmet_falls(b, a);
        assert(after[after.len() - 1] == after.last());
        assert forall|i: int|
            0 <= i < after.len() && #[trigger] after[i] != 0 && before[i] == 0 implies unmet(after)
            < unmet(before) by {
            if i < a.len() {
                assert(a[i] == after[i] && b[i] == before[i]);
            }
        }
    }
}

/// The state of a search: which nodes were not met, which are on the way from the start to the
/// node at hand, and which are done, in the order in which they were.
spec fn is_search(
    nodes: Seq<WorkflowNode>,
    marks: Seq<u8>,
    way: Seq<int>,
    done: Seq<int>,
) -> bool {
    &&& marks.len() == nodes.len()
    &&& forall|i: int| 0 <= i < marks.len() ==> #[trigger] marks[i] <= 2
    &&& forall|i: int| 0 <= i < marks.len() ==> (#[trigger] marks[i] == 1 <==> way.contains(i))
    &&& forall|i: int| 0 <= i < marks.len() ==> (#[trigger] marks[i] == 2 <==> done.contains(i))
    &&& forall|i: int| way.contains(i) ==> 0 <= i < nodes.len()
    &&& forall|i: int| done.contains(i) ==> 0 <= i < nodes.len()
    &&& forall|i: int, j: int|
        0 <= i && j == i + 1 && j < way.len() ==> depends(
            nodes,
            #[trigger] way[i],
            #[trigger] way[j],
        )
    &&& done.no_duplicates()
    &&& is_running_order(nodes, done)
}

proof fn way_back_is_a_cycle(nodes: Seq<WorkflowNode>, way: Seq<int>, to: int)
    requires
        way.len() > 0,
        forall|i: int, j: int|
            0 <= i && j == i + 1 && j < way.len() ==> depends(
                nodes,
                #[trigger] way[i],
                #[trigger] way[j],
            ),
        depends(nodes, way.last(), to),
        way.contains(to),
    ensures
        has_cycle(nodes),
{
    let p = choose|p: int| 0 <= p < way.len() && way[p] == to;
    let walk = way.skip(p).push(to);
    assert forall|i: int, j: int| 0 <= i && j == i + 1 && j < walk.len() implies depends(
        nodes,
        #[trigger] walk[i],
        #[trigger] walk[j],
    ) by {
        let k = p + i;
        let l = p + j;
        assert(walk[i] == way[k]);
        if j < walk.len() - 1 {
            assert(walk[j] == way[l]);
            assert(depends(nodes, way[k], way[l]));
        } else {
            assert(way[k] == way.last());
        }
    }
    assert(is_walk(nodes, walk));
    assert(walk.first() == to && walk.last() == to);
}

impl WorkflowGraph {
    pub open spec fn node_verdict(&self, node: WorkflowNode) -> Verdict {
        first(
            demand(
                !blank(node.objective@) && node.priority <= 100,
                budget("workflow_graph.node"@),
            ),
            first(
                node.budget.verdict(),
                first(
                    node.retry.verdict(),
                    match first_unknown(self.nodes@, node.dependencies@) {
                        Some(unknown) => Err(
                            ErrorView::UnknownDependency {
                                task: node.task_id@,
                                dependency: unknown,
                            },
                        ),
                        None => Ok(()),
                    },
                ),
            ),
        )
    }

    /// The check of one node.
    pub open spec fn node_checks(&self) -> spec_fn(int) -> Verdict {
        |i: int| self.node_verdict(self.nodes@[i])
    }

    /// Every node is valid and a task of its own, and none waits for itself by way of others.
    pub open spec fn verdict(&self) -> Verdict {
        if self.schema_version != DOMAIN_SCHEMA_VERSION || blank(self.topology_id@) {
            Err(empty("workflow_graph.identity"@))
        } else if self.nodes@.len() == 0 {
            Err(empty("workflow_graph.nodes"@))
        } else {
            match first_repeated(self.nodes@, self.nodes@.len()) {
                Some(task) => Err(ErrorView::DuplicateTaskId(task)),
                None => first(
                    first_fault(self.nodes@.len(), self.node_checks()),
                    demand(!has_cycle(self.nodes@), ErrorView::CyclicPlan),
                ),
            }
        }
    }

    /// The first node that is the task of an earlier one.
    fn find_repeated(&self) -> (r: Option<usize>)
        ensures
            match r {
                Some(i) => i < self.nodes@.len() && first_repeated(self.nodes@, self.nodes@.len())
                    == Some(task_of(self.nodes@, i as int)),
                None => first_repeated(self.nodes@, self.nodes@.len()) is None && tasks_differ(
                    self.nodes@,
                ),
            },
    {
        let ghost nodes = self.nodes@;
        let mut i: usize = 0;
        while i < self.nodes.len()
            invariant
                i <= self.nodes.len(),
                nodes == self.nodes@,
                first_repeated(nodes, i as nat) is None,
                forall|k: int, l: int|
                    0 <= k < l < i ==> #[trigger] task_of(nodes, k) != #[trigger] task_of(nodes, l),
            decreases self.nodes.len() - i,
        {
            let mut j: usize = 0;
            while j < i
                invariant
                    j <= i < self.nodes.len(),
                    nodes == self.nodes@,
                    first_repeated(nodes, i as nat) is None,
                    forall|k: int|
                        0 <= k < j ==> #[trigger] task_of(nodes, k) != task_of(nodes, i as int),
                decreases i - j,
            {
                if same_text(&self.nodes[j].task_id.0, &self.nodes[i].task_id.0) {
                    proof {
                        assert(task_of(nodes, j as int) == task_of(nodes, i as int));
                        assert(is_repeated(nodes, i as int));
                        assert(first_repeated(nodes, (i + 1) as nat) == Some(
                            task_of(nodes, i as int),
                        ));
                        repeated_stays(nodes, (i + 1) as nat, nodes.len());
                    }
                    return Some(i);
                }
                j += 1;
            }
            proof {
                assert(!is_repeated(nodes, i as int));
                assert(first_repeated(nodes, (i + 1) as nat) is None);
            }
            i += 1;
        }
        None
    }

    /// The node that is a task.
    fn place_of(&self, task: &TaskId) -> (r: Option<usize>)
        ensures
            match r {
                Some(i) => i < self.nodes@.len() && task_of(self.nodes@, i as int) == task@,
                None => !has_task(self.nodes@, task@),
            },
    {
        let mut i: usize = 0;
        while i < self.nodes.len()
            invariant
                i <= self.nodes.len(),
                forall|k: int| 0 <= k < i ==> #[trigger] task_of(self.nodes@, k) != task@,
            decreases self.nodes.len() - i,
        {
            if same_text(&self.nodes[i].task_id.0, &task.0) {
                return Some(i);
            }
            i += 1;
        }
        None
    }

    fn validate_node(&self, node: &WorkflowNode) -> (r: Result<(), DomainError>)
        ensures
            outcome(r) == self.node_verdict(*node),
            r is Ok ==> dependencies_are_known(self.nodes@, *node),
    {
        if is_blank(&node.objective) || node.priority > 100 {
            return Err(invalid_budget("workflow_graph.node"));
        }
        node.budget.validate()?;
        node.retry.validate()?;
        let unknown = |task: &TaskId| -> (b: bool)
            ensures
                b == !has_task(self.nodes@, task@),
            { self.place_of(task).is_none() };
        let found = position_of(node.dependencies.as_slice(), unknown);
        proof {
            let n = match found {
                Some(n) => n as int,
                None => node.dependencies@.len() as int,
            };
            first_unknown_is_the_first(self.nodes@, node.dependencies@, n);
        }
        match found {
            Some(n) => Err(
                DomainError::UnknownDependency {
                    task: node.task_id.clone(),
                    dependency: node.dependencies[n].clone(),
                },
            ),
            None => Ok(()),
        }
    }

    /// Searches from a node that was not met. Whether all that it waits for, by way of others
    /// too, could be done; if not, there is a cycle.
    fn search(
        &self,
        i: usize,
        marks: &mut Vec<u8>,
        Ghost(way): Ghost<Seq<int>>,
        Ghost(done): Ghost<Seq<int>>,
    ) -> (r: (bool, Ghost<Seq<int>>))
        requires
            i < self.nodes@.len(),
            tasks_differ(self.nodes@),
            forall|n: int|
                0 <= n < self.nodes@.len() ==> dependencies_are_known(
                    self.nodes@,
                    #[trigger] self.nodes@[n],
                ),
            is_search(self.nodes@, old(marks)@, way, done),
            old(marks)@[i as int] == 0,
            way.len() > 0 ==> depends(self.nodes@, way.last(), i as int),
        ensures
            !r.0 ==> has_cycle(self.nodes@),
            r.0 ==> is_search(self.nodes@, final(marks)@, way, r.1@),
            r.0 ==> final(marks)@[i as int] == 2,
            r.0 ==> forall|n: int|
                0 <= n < self.nodes@.len() && #[trigger] old(marks)@[n] == 2 ==> final(marks)@[n]
                    == 2,
            r.0 ==> forall|n: int|
                0 <= n < self.nodes@.len() && #[trigger] final(marks)@[n] == 0 ==> old(marks)@[n]
                    == 0,
        decreases unmet(old(marks)@),
    {
        let ghost nodes = self.nodes@;
        let ghost before = marks@;
        let ghost here = way.push(i as int);
        let ghost mut order = done;
        marks.set(i, 1);
        proof {
            assert(marks@[i as int] != 0);
            unmet_falls(before, marks@);
            assert(!way.contains(i as int));
            assert(!done.contains(i as int));
            way_grows(nodes, before, way, done, i as int);
        }
        let mut k: usize = 0;
        while k < self.nodes[i as usize].dependencies.len()
            invariant
                i < nodes.len(),
                nodes == self.nodes@,
                k <= nodes[i as int].dependencies@.len(),
                tasks_differ(nodes),
                forall|n: int|
                    0 <= n < nodes.len() ==> dependencies_are_known(nodes, #[trigger] nodes[n]),
                is_search(nodes, marks@, here, order),
                here == way.push(i as int),
                before == old(marks)@,
                unmet(marks@) < unmet(before),
                marks@.len() == before.len(),
                forall|n: int|
                    0 <= n < nodes.len() && #[trigger] before[n] == 2 ==> marks@[n] == 2,
                forall|n: int|
                    0 <= n < nodes.len() && #[trigger] marks@[n] == 0 ==> before[n] == 0,
                forall|l: int, n: int|
                    0 <= l < k && 0 <= n < nodes.len() && (
                    #[trigger] nodes[i as int].dependencies@[l])@ == #[trigger] task_of(nodes, n)
                        ==> marks@[n] == 2,
            decreases nodes[i as int].dependencies@.len() - k,
        {
            let task = &self.nodes[i].dependencies[k];
            proof {
                assert(has_task(nodes, nodes[i as int].dependencies@[k as int]@));
            }
            let to = match self.place_of(task) {
                Some(to) => to,
                None => {
                    return (true, Ghost(done));
                },
            };
            proof {
                assert(nodes[i as int].dependencies@[k as int]@ == task_of(nodes, to as int));
                assert(depends(nodes, i as int, to as int));
                assert(here.last() == i as int);
            }
            let mark = marks[to];
            if mark == 1 {
                proof {
                    assert(here.contains(to as int));
                    way_back_is_a_cycle(nodes, here, to as int);
                }
                return (false, Ghost(done));
            }
            if mark == 0 {
                let ghost earlier = marks@;
                let found = self.search(to, marks, Ghost(here), Ghost(order));
                if !found.0 {
                    return (false, Ghost(done));
                }
                proof {
                    order = found.1@;
                    unmet_falls(earlier, marks@);
                }
            }
            proof {
                assert forall|l: int, n: int|
                    0 <= l < k + 1 && 0 <= n < nodes.len() && (
                    #[trigger] nodes[i as int].dependencies@[l])@ == #[trigger] task_of(
                        nodes,
                        n,
                    ) implies marks@[n] == 2 by {
                    if l == k {
                        assert(task_of(nodes, n) == task_of(nodes, to as int));
                        assert(n == to as int);
                    }
                }
            }
            k += 1;
        }
        let ghost last = marks@;
        marks.set(i, 2);
        proof {
            assert forall|b: int| #[trigger] depends(nodes, i as int, b) implies last[b] == 2 by {
                let l = choose|l: int|
                    0 <= l < nodes[i as int].dependencies@.len() && (
                    #[trigger] nodes[i as int].dependencies@[l])@ == task_of(nodes, b);
                assert(nodes[i as int].dependencies@[l]@ == task_of(nodes, b));
            }
            node_is_done(nodes, last, way, order, i as int);
        }
        (true, Ghost(order.push(i as int)))
    }

    fn validate_nodes(&self) -> (r: Result<(), DomainError>)
        ensures
            outcome(r) == first_fault(self.nodes@.len(), self.node_checks()),
            r is Ok ==> forall|n: int|
                0 <= n < self.nodes@.len() ==> dependencies_are_known(
                    self.nodes@,
                    #[trigger] self.nodes@[n],
                ),
    {
        let ghost checks = self.node_checks();
        let mut n: usize = 0;
        while n < self.nodes.len()
            invariant
                n <= self.nodes.len(),
                checks == self.node_checks(),
                first_fault(n as nat, checks) == Verdict::Ok(()),
                forall|i: int|
                    0 <= i < n ==> dependencies_are_known(self.nodes@, #[trigger] self.nodes@[i]),
            decreases self.nodes.len() - n,
        {
            proof {
                assert(first_fault((n + 1) as nat, checks) == checks(n as int));
                if checks(n as int) is Err {
                    first_fault_stays((n + 1) as nat, self.nodes@.len(), checks);
                }
            }
            self.validate_node(&self.nodes[n])?;
            n += 1;
        }
        Ok(())
    }

    fn validate_order(&self) -> (r: Result<(), DomainError>)
        requires
            tasks_differ(self.nodes@),
            forall|n: int|
                0 <= n < self.nodes@.len() ==> dependencies_are_known(
                    self.nodes@,
                    #[trigger] self.nodes@[n],
                ),
        ensures
            outcome(r) == demand(!has_cycle(self.nodes@), ErrorView::CyclicPlan),
    {
        let ghost nodes = self.nodes@;
        let ghost mut order: Seq<int> = Seq::empty();
        let mut marks: Vec<u8> = Vec::new();
        let mut n: usize = 0;
        while n < self.nodes.len()
            invariant
                n <= self.nodes.len(),
                marks.len() == n,
                forall|i: int| 0 <= i < n ==> #[trigger] marks@[i] == 0,
            decreases self.nodes.len() - n,
        {
            marks.push(0);
            n += 1;
        }
        let ghost none: Seq<int> = Seq::empty();
        let mut i: usize = 0;
        while i < self.nodes.len()
            invariant
                i <= self.nodes.len(),
                nodes == self.nodes@,
                none == Seq::<int>::empty(),
                tasks_differ(nodes),
                forall|n: int|
                    0 <= n < nodes.len() ==> dependencies_are_known(nodes, #[trigger] nodes[n]),
                is_search(nodes, marks@, none, order),
                forall|n: int| 0 <= n < i ==> #[trigger] marks@[n] == 2,
            decreases self.nodes.len() - i,
        {
            if marks[i] == 0 {
                let found = self.search(i, &mut marks, Ghost(none), Ghost(order));
                if !found.0 {
                    return Err(DomainError::CyclicPlan);
                }
                proof {
                    order = found.1@;
                }
            }
            proof {
                assert(!none.contains(i as int));
            }
            i += 1;
        }
        proof {
            assert forall|n: int| 0 <= n < nodes.len() implies #[trigger] order.contains(n) by {
                assert(marks@[n] == 2);
            }
            running_order_means_no_cycle(nodes, order);
        }
        Ok(())
    }

    pub fn validate(&self) -> (r: Result<(), DomainError>)
        ensures
            outcome(r) == self.verdict(),
    {
        if self.schema_version != DOMAIN_SCHEMA_VERSION || is_blank(&self.topology_id) {
            return Err(empty_field("workflow_graph.identity"));
        }
        if self.nodes.len() == 0 {
            return Err(empty_field("workflow_graph.nodes"));
        }
        if let Some(repeated) = self.find_repeated() {
            return Err(DomainError::DuplicateTaskId(self.nodes[repeated].task_id.clone()));
        }
        self.validate_nodes()?;
        self.validate_order()
    }
}

proof fn way_grows(nodes: Seq<WorkflowNode>, marks: Seq<u8>, way: Seq<int>, done: Seq<int>, i: int)
    requires
        is_search(nodes, marks, way, done),
        0 <= i < nodes.len(),
        marks[i] == 0,
        way.len() > 0 ==> depends(nodes, way.last(), i),
    ensures
        is_search(nodes, marks.update(i, 1), way.push(i), done),
{
    let next = marks.update(i, 1);
    let here = way.push(i);
    pushed_elements(way, i);
    assert forall|n: int| 0 <= n < next.len() implies (#[trigger] next[n] == 1 <==> here.contains(
        n,
    )) by {
        assert(here.contains(n) <==> way.contains(n) || n == i);
        if n != i {
            assert(next[n] == marks[n]);
        }
    }
    assert forall|n: int| 0 <= n < next.len() implies (#[trigger] next[n] == 2 <==> done.contains(
        n,
    )) by {
        if n != i {
            assert(next[n] == marks[n]);
        } else {
            assert(marks[i] != 2);
        }
    }
    assert forall|a: int, b: int| 0 <= a && b == a + 1 && b < here.len() implies depends(
        nodes,
        #[trigger] here[a],
        #[trigger] here[b],
    ) by {
        if b < way.len() {
            assert(here[a] == way[a] && here[b] == way[b]);
        } else {
            assert(here[a] == way.last() && here[b] == i);
        }
    }
}

proof fn node_is_done(
    nodes: Seq<WorkflowNode>,
    marks: Seq<u8>,
    way: Seq<int>,
    done: Seq<int>,
    i: int,
)
    requires
        is_search(nodes, marks, way.push(i), done),
        0 <= i < nodes.len(),
        !way.contains(i),
        forall|b: int| #[trigger] depends(nodes, i, b) ==> marks[b] == 2,
    ensures
        is_search(nodes, marks.update(i, 2), way, done.push(i)),
{
    let next = marks.update(i, 2);
    let here = way.push(i);
    let after = done.push(i);
    pushed_elements(way, i);
    pushed_elements(done, i);
    assert(here[way.len() as int] == i);
    assert(here.contains(i));
    assert(marks[i] == 1);
    assert(!done.contains(i));
    assert forall|n: int| 0 <= n < next.len() implies (#[trigger] next[n] == 1 <==> way.contains(
        n,
    )) by {
        if n != i {
            assert(next[n] == marks[n]);
            assert(here.contains(n) <==> way.contains(n));
        }
    }
    assert forall|n: int| 0 <= n < next.len() implies (#[trigger] next[n] == 2 <==> after.contains(
        n,
    )) by {
        if n != i {
            assert(next[n] == marks[n]);
        }
    }
    assert forall|n: int| way.contains(n) implies 0 <= n < nodes.len() by {
        assert(here.contains(n));
    }
    assert forall|a: int, b: int| 0 <= a && b == a + 1 && b < way.len() implies depends(
        nodes,
        #[trigger] way[a],
        #[trigger] way[b],
    ) by {
        assert(here[a] == way[a] && here[b] == way[b]);
    }
    assert forall|p: int, b: int|
        0 <= p < after.len() && #[trigger] depends(nodes, after[p], b) implies stands_before(
        after,
        b,
        p,
    ) by {
        if p < done.len() {
            assert(after[p] == done[p]);
            assert(depends(nodes, done[p], b));
            let q = choose|q: int| 0 <= q < p && #[trigger] done[q] == b;
            assert(after[q] == b);
        } else {
            assert(after[p] == i);
            assert(marks[b] == 2);
            assert(done.contains(b));
            let q = choose|q: int| 0 <= q < done.len() && done[q] == b;
            assert(after[q] == b);
        }
    }
}

proof fn known_dependencies_are_tasks(nodes: Seq<WorkflowNode>, tasks: Seq<TaskId>)
    requires
        first_unknown(nodes, tasks) is None,
    ensures
        forall|k: int| 0 <= k < tasks.len() ==> has_task(nodes, (#[trigger] tasks[k])@),
    decreases tasks.len(),
{
    if tasks.len() > 0 {
        let rest = tasks.drop_first();
        known_dependencies_are_tasks(nodes, rest);
        assert forall|k: int| 0 <= k < tasks.len() implies has_task(
            nodes,
            (#[trigger] tasks[k])@,
        ) by {
            if k > 0 {
                assert(rest[k - 1] == tasks[k]);
            }
        }
    }
}

/// An alias that is reported is one that is not proposed, and one of those named.
pub proof fn reported_alias_is_not_proposed(proposal: WorkflowProposal, aliases: Seq<String>)
    ensures
        proposal.first_unproposed(aliases) matches Some(missing)
            ==> !proposal.tasks@.dom().contains(missing) && exists|k: int|
            0 <= k < aliases.len() && (#[trigger] aliases[k])@ == missing,
    decreases aliases.len(),
{
    if aliases.len() > 0 && proposal.tasks@.dom().contains(aliases[0]@) {
        let rest = aliases.drop_first();
        reported_alias_is_not_proposed(proposal, rest);
        if let Some(missing) = proposal.first_unproposed(rest) {
            let k = choose|k: int| 0 <= k < rest.len() && (#[trigger] rest[k])@ == missing;
            let next = k + 1;
            assert(aliases[next]@ == missing);
        }
    }
}

/// A dependency that is reported is one that no node is, and one of those named.
pub proof fn reported_dependency_is_unknown(nodes: Seq<WorkflowNode>, tasks: Seq<TaskId>)
    ensures
        first_unknown(nodes, tasks) matches Some(unknown) ==> !has_task(nodes, unknown) && exists|
            k: int,
        |
            0 <= k < tasks.len() && (#[trigger] tasks[k])@ == unknown,
    decreases tasks.len(),
{
    if tasks.len() > 0 && has_task(nodes, tasks[0]@) {
        let rest = tasks.drop_first();
        reported_dependency_is_unknown(nodes, rest);
        if let Some(unknown) = first_unknown(nodes, rest) {
            let k = choose|k: int| 0 <= k < rest.len() && (#[trigger] rest[k])@ == unknown;
            let next = k + 1;
            assert(tasks[next]@ == unknown);
        }
    }
}

/// A task that is reported as a duplicate is that of two nodes.
pub proof fn reported_duplicate_is_the_task_of_two(nodes: Seq<WorkflowNode>, n: nat)
    requires
        n <= nodes.len(),
    ensures
        first_repeated(nodes, n) matches Some(task) ==> exists|k: int, l: int|
            0 <= k < l < n && #[trigger] task_of(nodes, k) == task && #[trigger] task_of(nodes, l)
                == task,
    decreases n,
{
    if n > 0 {
        reported_duplicate_is_the_task_of_two(nodes, (n - 1) as nat);
        if first_repeated(nodes, (n - 1) as nat) is None && is_repeated(nodes, n - 1) {
            let k = choose|k: int|
                0 <= k < n - 1 && #[trigger] task_of(nodes, k) == task_of(nodes, n - 1);
            assert(task_of(nodes, k) == task_of(nodes, n - 1));
        }
    }
}

proof fn no_repeat_means_tasks_differ(nodes: Seq<WorkflowNode>, n: nat)
    requires
        first_repeated(nodes, n) is None,
    ensures
        forall|k: int, l: int|
            0 <= k < l < n ==> #[trigger] task_of(nodes, k) != #[trigger] task_of(nodes, l),
    decreases n,
{
    if n > 0 {
        no_repeat_means_tasks_differ(nodes, (n - 1) as nat);
        assert(!is_repeated(nodes, n - 1));
    }
}

/// The nodes of a valid graph are tasks of their own, wait only for nodes of the graph, and can
/// be run in some order.
pub proof fn valid_graph_can_be_run(graph: WorkflowGraph)
    requires
        graph.verdict() is Ok,
    ensures
        tasks_differ(graph.nodes@),
        forall|i: int|
            0 <= i < graph.nodes@.len() ==> dependencies_are_known(
                graph.nodes@,
                #[trigger] graph.nodes@[i],
            ),
        exists|order: Seq<int>| #[trigger] runs_all(graph.nodes@, order),
{
    let nodes = graph.nodes@;
    no_repeat_means_tasks_differ(nodes, nodes.len());
    no_fault_means_every_check_passes(nodes.len(), graph.node_checks());
    assert forall|i: int| 0 <= i < nodes.len() implies dependencies_are_known(
        nodes,
        #[trigger] nodes[i],
    ) by {
        let check = graph.node_checks();
        assert(check(i) is Ok);
        known_dependencies_are_tasks(nodes, nodes[i].dependencies@);
    }
    nodes_without_a_cycle_have_a_running_order(nodes);
}

/// In a valid graph no node waits for itself.
pub proof fn valid_graph_has_no_node_that_waits_for_itself(graph: WorkflowGraph, i: int)
    requires
        graph.verdict() is Ok,
    ensures
        !depends(graph.nodes@, i, i),
{
    if depends(graph.nodes@, i, i) {
        let walk = seq![i, i];
        assert(is_walk(graph.nodes@, walk));
        assert(walk.first() == walk.last());
    }
}

/// How much a blocker weighs.
#[derive(Clone, Copy, Debug, PartialEq, Eq, PartialOrd, Ord, Hash, Structural)]
pub enum BlockerSeverity {
    Hard,
    Soft,
}

impl BlockerSeverity {
    /// The name of the variant in JSON.
    pub open spec fn wire(self) -> Seq<char> {
        match self {
            BlockerSeverity::Hard => "hard"@,
            BlockerSeverity::Soft => "soft"@,
        }
    }

    /// The name of the variant in JSON.
    pub fn wire_name(self) -> (r: &'static str)
        ensures
            r@ == self.wire(),
    {
        match self {
            BlockerSeverity::Hard => "hard",
            BlockerSeverity::Soft => "soft",
        }
    }
}

impl ToJson for BlockerSeverity {
    open spec fn json(&self) -> JsonTree {
        JsonTree::Text(self.wire())
    }

    fn to_json(&self) -> (r: serde_json::Value) {
        json_text(self.wire_name())
    }
}

/// Why a decision is blocked.
#[derive(Debug, Clone, PartialEq, Eq)]
pub struct DecisionBlocker {
    pub code: String,
    pub severity: BlockerSeverity,
    pub scope: String,
    pub explanation: String,
    pub source_refs: Vec<ArtifactRef>,
}

impl DecisionBlocker {
    /// A hard blocker cites its evidence.
    pub open spec fn verdict(&self) -> Verdict {
        first(
            demand(
                !blank(self.code@) && !blank(self.scope@) && !blank(self.explanation@),
                empty("decision_blocker"@),
            ),
            demand(
                self.severity is Hard ==> self.source_refs@.len() > 0,
                empty("decision_blocker.source_refs"@),
            ),
        )
    }

    pub fn validate(&self) -> (r: Result<(), DomainError>)
        ensures
            outcome(r) == self.verdict(),
    {
        if is_blank(&self.code) || is_blank(&self.scope) || is_blank(&self.explanation) {
            return Err(empty_field("decision_blocker"));
        }
        if self.severity == BlockerSeverity::Hard && self.source_refs.len() == 0 {
            return Err(empty_field("decision_blocker.source_refs"));
        }
        Ok(())
    }
}

/// The largest share of a portfolio on each factor.
#[derive(Clone, Copy, Debug, PartialEq, Eq, Structural)]
pub struct FactorLimits {
    pub global_leveraged_equity_ppm: u32,
    pub nasdaq_ppm: u32,
    pub semiconductor_ppm: u32,
    pub paired_index_ppm: u32,
}

impl ToJson for FactorLimits {
    open spec fn json(&self) -> JsonTree {
        let m = no_members();
        let m = m.insert("global_leveraged_equity_ppm"@, self.global_leveraged_equity_ppm.json());
        let m = m.insert("nasdaq_ppm"@, self.nasdaq_ppm.json());
        let m = m.insert("semiconductor_ppm"@, self.semiconductor_ppm.json());
        let m = m.insert("paired_index_ppm"@, self.paired_index_ppm.json());
        JsonTree::Object(m)
    }

    fn to_json(&self) -> (r: serde_json::Value) {
        let mut members = json_new_object();
        json_insert(
            &mut members,
            "global_leveraged_equity_ppm",
            self.global_leveraged_equity_ppm.to_json(),
        );
        json_insert(&mut members, "nasdaq_ppm", self.nasdaq_ppm.to_json());
        json_insert(&mut members, "semiconductor_ppm", self.semiconductor_ppm.to_json());
        json_insert(&mut members, "paired_index_ppm", self.paired_index_ppm.to_json());
        json_object(members)
    }
}

impl FactorLimits {
    pub open spec fn verdict(&self) -> Verdict {
        demand(
            self.global_leveraged_equity_ppm <= 1_000_000 && self.nasdaq_ppm <= 1_000_000
                && self.semiconductor_ppm <= 1_000_000 && self.paired_index_ppm <= 1_000_000,
            budget("factor_limits"@),
        )
    }

    pub fn validate(&self) -> (r: Result<(), DomainError>)
        ensures
            outcome(r) == self.verdict(),
    {
        if self.global_leveraged_equity_ppm > 1_000_000 || self.nasdaq_ppm > 1_000_000
            || self.semiconductor_ppm > 1_000_000 || self.paired_index_ppm > 1_000_000 {
            return Err(invalid_budget("factor_limits"));
        }
        Ok(())
    }
}

/// What a workflow proposal is refused with: the first fault that it has.
pub proof fn task_verdict_of_workflow_proposal_names_its_fault(
    this: WorkflowProposal,
    alias: Seq<char>,
    task: WorkflowProposalTask,
    recipes: Map<Seq<char>, TaskRecipe>,
)
    ensures
        (blank(alias) || blank(task.objective@) || task.priority > 100)
            ==> this.task_verdict(alias, task, recipes) == Verdict::Err(
                budget("workflow_proposal.task"@),
            ),
        !(blank(alias) || blank(task.objective@) || task.priority > 100)
            && (!recipes.dom().contains(task.recipe_id@))
            ==> this.task_verdict(alias, task, recipes) == Verdict::Err(
                empty("workflow_proposal.recipe"@),
            ),
        !(blank(alias) || blank(task.objective@) || task.priority > 100)
            && !(!recipes.dom().contains(task.recipe_id@))
            && (task.priority > recipes[task.recipe_id@].priority_ceiling)
            ==> this.task_verdict(alias, task, recipes) == Verdict::Err(
                budget("workflow_proposal.priority"@),
            ),
{
}

/// What a workflow proposal is refused with: the first fault that it has.
pub proof fn refusal_of_workflow_proposal_names_its_fault(
    this: WorkflowProposal,
    recipes: Map<Seq<char>, TaskRecipe>,
)
    ensures
        (this.schema_version != DOMAIN_SCHEMA_VERSION || blank(this.topology_id@))
            ==> this.verdict(recipes) == Verdict::Err(empty("workflow_proposal.identity"@)),
        !(this.schema_version != DOMAIN_SCHEMA_VERSION || blank(this.topology_id@))
            && (this.tasks.keys().len() == 0)
            ==> this.verdict(recipes) == Verdict::Err(empty("workflow_proposal.tasks"@)),
{
}

/// What a workflow graph is refused with: the first fault that it has.
pub proof fn node_verdict_of_workflow_graph_names_its_fault(
    this: WorkflowGraph,
    node: WorkflowNode,
)
    ensures
        !(!blank(node.objective@) && node.priority <= 100)
            ==> this.node_verdict(node) == Verdict::Err(budget("workflow_graph.node"@)),
{
}

/// What a workflow graph is refused with: the first fault that it has.
pub proof fn refusal_of_workflow_graph_names_its_fault(this: WorkflowGraph)
    ensures
        (this.schema_version != DOMAIN_SCHEMA_VERSION || blank(this.topology_id@))
            ==> this.verdict() == Verdict::Err(empty("workflow_graph.identity"@)),
        !(this.schema_version != DOMAIN_SCHEMA_VERSION || blank(this.topology_id@))
            && (this.nodes@.len() == 0)
            ==> this.verdict() == Verdict::Err(empty("workflow_graph.nodes"@)),
{
}

/// What a decision blocker is refused with: the first fault that it has.
pub proof fn refusal_of_decision_blocker_names_its_fault(this: DecisionBlocker)
    ensures
        !(!blank(this.code@) && !blank(this.scope@) && !blank(this.explanation@))
            ==> this.verdict() == Verdict::Err(empty("decision_blocker"@)),
        (!blank(this.code@) && !blank(this.scope@) && !blank(this.explanation@))
            && !(this.severity is Hard ==> this.source_refs@.len() > 0)
            ==> this.verdict() == Verdict::Err(empty("decision_blocker.source_refs"@)),
{
}

/// What a factor limits is refused with: the first fault that it has.
pub proof fn refusal_of_factor_limits_names_its_fault(this: FactorLimits)
    ensures
        !(this.global_leveraged_equity_ppm <= 1_000_000 && this.nasdaq_ppm <= 1_000_000
            && this.semiconductor_ppm <= 1_000_000 && this.paired_index_ppm <= 1_000_000)
            ==> this.verdict() == Verdict::Err(budget("factor_limits"@)),
{
}

} // verus!
