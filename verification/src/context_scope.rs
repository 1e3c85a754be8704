//! Which lessons are relevant to a node. Relevance grants no access to anything.
use crate::decision::DecisionHorizon;
use crate::foundation::{executable, Asset};
use crate::lesson::LessonScope;
use crate::ordered::{Key, OrderedSet};
use crate::research_review::RESEARCH_PROPOSAL_REVIEWER_RECIPE_ID;
use crate::text::same_text;
use crate::workflow::WorkflowNode;
use crate::{
    LEARNING_OUTCOME_WORKER_RECIPE_ID, RESEARCH_ANALYST_RECIPE_ID, RESEARCH_CRITIC_RECIPE_ID,
    RESEARCH_SYNTHESIZER_RECIPE_ID,
};
use vstd::prelude::*;

verus! {

/// What is asked for. Nothing asked for in a dimension means that it is unknown, not that
/// anything will do.
#[derive(Debug, Clone, PartialEq, Eq)]
pub struct ContextQueryScope {
    pub assets: OrderedSet<Asset>,
    pub horizons: OrderedSet<DecisionHorizon>,
    pub regimes: OrderedSet<String>,
    pub decision_stages: OrderedSet<String>,
}

impl Default for ContextQueryScope {
    fn default() -> (r: Self)
        ensures
            r.assets@ == Set::<Asset>::empty(),
            r.horizons@ == Set::<DecisionHorizon>::empty(),
            r.regimes@ == Set::<Seq<char>>::empty(),
            r.decision_stages@ == Set::<Seq<char>>::empty(),
    {
        ContextQueryScope {
            assets: OrderedSet::new(),
            horizons: OrderedSet::new(),
            regimes: OrderedSet::new(),
            decision_stages: OrderedSet::new(),
        }
    }
}

/// The recipes that lessons are looked up for.
pub open spec fn learns(recipe: Seq<char>) -> bool {
    ||| recipe == RESEARCH_ANALYST_RECIPE_ID@
    ||| recipe == RESEARCH_CRITIC_RECIPE_ID@
    ||| recipe == RESEARCH_SYNTHESIZER_RECIPE_ID@
    ||| recipe == RESEARCH_PROPOSAL_REVIEWER_RECIPE_ID@
    ||| recipe == LEARNING_OUTCOME_WORKER_RECIPE_ID@
}

/// The recipes that look at every horizon.
pub open spec fn spans_horizons(recipe: Seq<char>) -> bool {
    ||| recipe == RESEARCH_SYNTHESIZER_RECIPE_ID@
    ||| recipe == RESEARCH_PROPOSAL_REVIEWER_RECIPE_ID@
}

/// The horizons of a node.
pub open spec fn horizons_of(node: WorkflowNode) -> Set<DecisionHorizon> {
    if spans_horizons(node.recipe_id@) {
        set![DecisionHorizon::T1, DecisionHorizon::T3, DecisionHorizon::T5]
    } else {
        match node.horizon() {
            Some(horizon) => set![horizon],
            None => Set::empty(),
        }
    }
}

/// What applies everywhere, or to something that is asked for.
pub open spec fn overlap<V>(applicable: Set<V>, requested: Set<V>) -> bool {
    ||| applicable == Set::<V>::empty()
    ||| exists|v: V| #[trigger] applicable.contains(v) && requested.contains(v)
}

fn overlaps<K: Key>(applicable: &OrderedSet<K>, requested: &OrderedSet<K>) -> (r: bool)
    ensures
        r == overlap(applicable@, requested@),
{
    let none = applicable.is_empty();
    let apart = applicable.is_disjoint(requested);
    proof {
        if !apart {
            let v = choose|v: K::V| applicable@.contains(v) && requested@.contains(v);
            assert(applicable@.contains(v) && requested@.contains(v));
        }
    }
    none || !apart
}

impl ContextQueryScope {
    /// What a node asks for: nothing where its recipe does not learn.
    pub open spec fn is_asked_by(&self, node: WorkflowNode) -> bool {
        &&& self.regimes@ == Set::<Seq<char>>::empty()
        &&& learns(node.recipe_id@) ==> {
            &&& self.assets@ == Set::new(|asset: Asset| executable(asset))
            &&& self.decision_stages@ == set![node.recipe_id@]
            &&& self.horizons@ == horizons_of(node)
        }
        &&& !learns(node.recipe_id@) ==> {
            &&& self.assets@ == Set::<Asset>::empty()
            &&& self.decision_stages@ == Set::<Seq<char>>::empty()
            &&& self.horizons@ == Set::<DecisionHorizon>::empty()
        }
    }

    /// The scope that a node asks for.
    pub fn for_node(node: &WorkflowNode) -> (r: ContextQueryScope)
        ensures
            r.is_asked_by(*node),
    {
        let recipe = node.recipe_id.as_str();
        let mut scope = ContextQueryScope::default();
        let spans = same_text(recipe, RESEARCH_SYNTHESIZER_RECIPE_ID) || same_text(
            recipe,
            RESEARCH_PROPOSAL_REVIEWER_RECIPE_ID,
        );
        if !(same_text(recipe, RESEARCH_ANALYST_RECIPE_ID) || same_text(
            recipe,
            RESEARCH_CRITIC_RECIPE_ID,
        ) || spans || same_text(recipe, LEARNING_OUTCOME_WORKER_RECIPE_ID)) {
            return scope;
        }
        let mut assets: OrderedSet<Asset> = OrderedSet::new();
        assets.insert(Asset::Tqqq);
        assets.insert(Asset::Qqq);
        assets.insert(Asset::Soxx);
        assets.insert(Asset::Soxl);
        let mut stages: OrderedSet<String> = OrderedSet::new();
        stages.insert(recipe.to_owned());
        let mut horizons: OrderedSet<DecisionHorizon> = OrderedSet::new();
        if spans {
            horizons.insert(DecisionHorizon::T1);
            horizons.insert(DecisionHorizon::T3);
            horizons.insert(DecisionHorizon::T5);
        } else if let Some(horizon) = node.execution_spec().horizon {
            horizons.insert(horizon);
        }
        proof {
            assert(assets@ =~= Set::new(|asset: Asset| executable(asset)));
            assert(horizons@ =~= horizons_of(*node));
            assert(stages@ =~= set![node.recipe_id@]);
        }
        scope = ContextQueryScope {
            assets,
            horizons,
            regimes: OrderedSet::new(),
            decision_stages: stages,
        };
        scope
    }

    /// The lesson applies everywhere in a dimension, or to something asked for in it.
    pub open spec fn fits(&self, lesson: LessonScope) -> bool {
        &&& overlap(lesson.assets@, self.assets@)
        &&& overlap(lesson.horizons@, self.horizons@)
        &&& overlap(lesson.regimes@, self.regimes@)
        &&& overlap(lesson.decision_stages@, self.decision_stages@)
    }

    pub fn matches(&self, lesson: &LessonScope) -> (r: bool)
        ensures
            r == self.fits(*lesson),
    {
        overlaps(&lesson.assets, &self.assets) && overlaps(&lesson.horizons, &self.horizons)
            && overlaps(&lesson.regimes, &self.regimes) && overlaps(
            &lesson.decision_stages,
            &self.decision_stages,
        )
    }
}

/// What is unknown is not taken for everything: a lesson that is limited in a dimension does not
/// fit a query that asks for nothing in it.
pub proof fn unknown_dimension_fits_no_limited_lesson(query: ContextQueryScope, lesson: LessonScope)
    requires
        query.horizons@ == Set::<DecisionHorizon>::empty() && lesson.horizons@ != Set::<
            DecisionHorizon,
        >::empty() || query.assets@ == Set::<Asset>::empty() && lesson.assets@ != Set::<
            Asset,
        >::empty() || query.regimes@ == Set::<Seq<char>>::empty() && lesson.regimes@ != Set::<
            Seq<char>,
        >::empty() || query.decision_stages@ == Set::<Seq<char>>::empty()
            && lesson.decision_stages@ != Set::<Seq<char>>::empty(),
    ensures
        !query.fits(lesson),
{
}

/// A lesson without limits fits every query.
pub proof fn unlimited_lesson_fits_every_query(query: ContextQueryScope, lesson: LessonScope)
    requires
        lesson.assets@ == Set::<Asset>::empty(),
        lesson.horizons@ == Set::<DecisionHorizon>::empty(),
        lesson.regimes@ == Set::<Seq<char>>::empty(),
        lesson.decision_stages@ == Set::<Seq<char>>::empty(),
    ensures
        query.fits(lesson),
{
}

/// What a node says of itself outweighs the words of its objective.
pub proof fn description_outweighs_the_objective(a: WorkflowNode, b: WorkflowNode)
    requires
        a.spec is Some,
        b.spec == a.spec,
        a.recipe_id@ == b.recipe_id@,
    ensures
        horizons_of(a) == horizons_of(b),
{
}

} // verus!
