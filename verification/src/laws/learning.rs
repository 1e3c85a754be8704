//! What holds of lessons, regimes, bundles, receipts and events.
use crate::artifact::ArtifactKind;
use crate::behavior::BehaviorBundleManifest;
use crate::decision::DecisionHorizon;
use crate::error::ErrorView;
use crate::event::DurableEvent;
use crate::foundation::Asset;
use crate::lesson::{
    Lesson, LessonAttribution, LessonEvidence, LessonGovernance, LessonGovernanceSignal, LessonScope,
    attributed, calibration_count, calibration_total, gainful, is_days_after, loosely_fits,
    mean_calibration, share_one,
};
use crate::qualification::QualificationStageReceipt;
use crate::regime::{RegimeDistribution, RegimeSnapshot, share_sum};
use crate::json::{JsonItem, JsonKey};
use crate::ordered::Key;
use crate::text::blank;
use crate::time::{UtcTime, earlier};
use vstd::prelude::*;

verus! {

/// A signal is accepted exactly where someone gives a reason for it from research or from what came
/// of a decision.
pub proof fn accepted_signal_rests_on_evidence(signal: LessonGovernanceSignal)
    ensures
        signal.verdict() is Ok <==> {
            &&& !blank(signal.actor@)
            &&& !blank(signal.reason@)
            &&& {
                ||| signal.evidence.kind == ArtifactKind::Claim
                ||| signal.evidence.kind == ArtifactKind::Critique
                ||| signal.evidence.kind == ArtifactKind::Outcome
                ||| signal.evidence.kind == ArtifactKind::Retrospective
                ||| signal.evidence.kind == ArtifactKind::Evaluation
                ||| signal.evidence.kind == ArtifactKind::SemanticDetail
            }
        },
{
}

/// Governance is accepted exactly where its verifier is named, its uncertainty is a share, it may be
/// used at all, was last revalidated no earlier than it became valid, ends, if it does, later
/// than that, and its regimes are few, named and measured in shares.
pub proof fn accepted_governance_can_be_used(governance: LessonGovernance)
    ensures
        governance.verdict() is Ok <==> {
            let regimes = governance.regime_compatibility.keys();
            &&& !blank(governance.verifier_id@)
            &&& !blank(governance.verifier_version@)
            &&& governance.uncertainty_ppm <= 1_000_000
            &&& governance.max_usage_before_revalidation >= 1
            &&& !earlier(governance.last_revalidated_at, governance.valid_from)
            &&& governance.valid_until matches Some(until) ==> earlier(governance.valid_from, until)
            &&& governance.quarantine_reason matches Some(reason) ==> !blank(reason@)
            &&& regimes.len() <= 32
            &&& forall|i: int|
                0 <= i < regimes.len() ==> !blank(#[trigger] regimes[i])
                    && governance.regime_compatibility.values()[i] <= 1_000_000
        },
{
    let regimes = governance.regime_compatibility.keys();
    if governance.is_sound() {
        assert forall|i: int| 0 <= i < regimes.len() implies !blank(#[trigger] regimes[i])
            && governance.regime_compatibility.values()[i] <= 1_000_000 by {
            assert(governance.compatibility_is_sound(i));
        }
    }
    if forall|i: int|
        0 <= i < regimes.len() ==> !blank(#[trigger] regimes[i])
            && governance.regime_compatibility.values()[i] <= 1_000_000 {
        assert forall|i: int| 0 <= i < regimes.len() implies #[trigger]
            governance.compatibility_is_sound(i) by {
            assert(!blank(regimes[i]));
        }
    }
}

/// A lesson may be used while it is not quarantined, from when it became valid up to and at its end,
/// fewer times than it may be used, without a contradiction or a failure, and, where it has
/// regimes, in one that suits it at least by half.
pub proof fn admitted_lesson_is_valid_and_unharmed(
    governance: LessonGovernance,
    now: UtcTime,
    uses: u64,
    regimes: Set<Seq<char>>,
)
    ensures
        governance.admits(now, uses, regimes) <==> {
            &&& governance.quarantine_reason is None
            &&& !earlier(now, governance.valid_from)
            &&& governance.valid_until is Some ==> !earlier(governance.valid_until->0, now)
            &&& uses < governance.max_usage_before_revalidation
            &&& governance.contradiction_count == 0
            &&& governance.post_use_failure_count == 0
            &&& governance.regime_compatibility.keys().len() > 0 ==> exists|regime: Seq<char>|
                #[trigger]
                regimes.contains(regime) && governance.regime_compatibility@.dom().contains(regime)
                    && governance.regime_compatibility@[regime] >= 500_000
        },
{
}

/// A whole number of days later is that many times the seconds of a day later.
pub proof fn days_later_is_whole_days(until: UtcTime, from: UtcTime, days: int)
    ensures
        is_days_after(until, from, days) ==> until.secs() - from.secs() == 86_400 * days,
        is_days_after(until, from, days) && from.nanos() < 1_000_000_000 && from.nanos() >= 0
            ==> until.nanos() == from.nanos(),
        is_days_after(until, from, days) && days > 0 ==> earlier(from, until),
{
}

/// A scope is accepted exactly where what it names is named and there is not too much of it.
pub proof fn accepted_scope_is_named(scope: LessonScope)
    ensures
        scope.verdict() is Ok <==> {
            &&& forall|s: Seq<char>| #[trigger] scope.regimes@.contains(s) ==> !blank(s)
            &&& forall|s: Seq<char>| #[trigger] scope.decision_stages@.contains(s) ==> !blank(s)
            &&& scope.regimes@.len() <= 16
            &&& scope.decision_stages@.len() <= 8
        },
{
}

/// A lesson applies exactly where in assets, horizons and stages it or the question is open or they
/// meet, and in regimes it is open or they meet: that no regime is known does not open a lesson
/// that is bound to one.
pub proof fn lesson_bound_to_a_regime_needs_that_regime(
    scope: LessonScope,
    assets: Set<Asset>,
    horizons: Set<DecisionHorizon>,
    regimes: Set<Seq<char>>,
    stages: Set<Seq<char>>,
)
    ensures
        scope.applies_to(assets, horizons, regimes, stages) <==> {
            &&& scope.assets@ == Set::<Asset>::empty() || assets == Set::<Asset>::empty()
                || share_one(scope.assets@, assets)
            &&& scope.horizons@ == Set::<DecisionHorizon>::empty() || horizons
                == Set::<DecisionHorizon>::empty() || share_one(scope.horizons@, horizons)
            &&& scope.decision_stages@ == Set::<Seq<char>>::empty() || stages
                == Set::<Seq<char>>::empty() || share_one(scope.decision_stages@, stages)
            &&& scope.regimes@ == Set::<Seq<char>>::empty() || share_one(scope.regimes@, regimes)
        },
        scope.regimes@ != Set::<Seq<char>>::empty() ==> !scope.applies_to(
            assets,
            horizons,
            Set::<Seq<char>>::empty(),
            stages,
        ),
{
}

/// Two sets share something exactly where they are not disjoint.
pub proof fn sharing_is_not_being_disjoint<V>(a: Set<V>, b: Set<V>)
    ensures
        share_one(a, b) <==> !a.disjoint(b),
        share_one(a, b) <==> share_one(b, a),
        loosely_fits(a, b) <==> loosely_fits(b, a),
{
    if !a.disjoint(b) {
        let v = choose|v: V| a.contains(v) && b.contains(v);
        assert(a.contains(v) && b.contains(v));
    }
    if share_one(b, a) {
        let v = choose|v: V| #[trigger] b.contains(v) && a.contains(v);
        assert(a.contains(v));
    }
    if share_one(a, b) {
        let v = choose|v: V| #[trigger] a.contains(v) && b.contains(v);
        assert(b.contains(v));
    }
}

/// A lesson is accepted exactly where it says what it says, keeps within its numbers, its scope and
/// governance are acceptable, it rests on no lesson and relates to lessons alone, an operator's
/// has its author, one in force or contested its approval and governance, and one in force is
/// not quarantined.
#[verifier::rlimit(40)]
pub proof fn accepted_lesson_in_force_is_approved(lesson: Lesson)
    ensures
        lesson.verdict() is Ok <==> {
            &&& lesson.schema_version == 2
            &&& !blank(lesson.lesson_id@)
            &&& !blank(lesson.title@)
            &&& !blank(lesson.statement@)
            &&& !blank(lesson.rationale@)
            &&& !blank(lesson.recommended_behavior@)
            &&& lesson.confidence_ppm <= 1_000_000
            &&& 1 <= lesson.source_refs@.len() <= 16
            &&& lesson.exclusions@.len() <= 16
            &&& forall|i: int|
                0 <= i < lesson.exclusions@.len() ==> !blank((#[trigger] lesson.exclusions@[i])@)
            &&& lesson.supersedes@.len() <= 8
            &&& lesson.conflicts_with@.len() <= 8
            &&& lesson.scope.verdict() is Ok
            &&& lesson.governance matches Some(governance) ==> governance.verdict() is Ok
            &&& forall|i: int|
                0 <= i < lesson.source_refs@.len() ==> (#[trigger] lesson.source_refs@[i]).kind
                    != ArtifactKind::Lesson
            &&& forall|i: int|
                0 <= i < lesson.supersedes@.len() ==> (#[trigger] lesson.supersedes@[i]).kind
                    == ArtifactKind::Lesson
            &&& forall|i: int|
                0 <= i < lesson.conflicts_with@.len() ==> (
                #[trigger] lesson.conflicts_with@[i]).kind == ArtifactKind::Lesson
            &&& lesson.origin is Operator ==> lesson.authored_by is Some
                && lesson.authored_by->0@.len() > 0
            &&& lesson.lifecycle is Active || lesson.lifecycle is Contested
                ==> lesson.approved_by is Some && lesson.approved_by->0@.len() > 0
                && lesson.governance is Some
            &&& lesson.lifecycle is Active ==> lesson.governance->0.quarantine_reason is None
        },
{
}

/// A lesson is looked up exactly while it is in force and its governance admits it.
pub proof fn looked_up_lesson_is_in_force(
    lesson: Lesson,
    now: UtcTime,
    uses: u64,
    regimes: Set<Seq<char>>,
)
    ensures
        lesson.can_be_looked_up(now, uses, regimes) <==> lesson.lifecycle is Active
            && lesson.governance is Some && lesson.governance->0.admits(now, uses, regimes),
{
}

/// Evidence on a lesson is accepted exactly where it names the lesson, refers to it, to the context
/// of a decision and to its outcome, and its calibrations are shares.
pub proof fn accepted_lesson_evidence_refers_to_its_outcome(evidence: LessonEvidence)
    ensures
        evidence.verdict() is Ok <==> {
            let shares = evidence.calibration_ppm_by_horizon@;
            &&& evidence.schema_version == 2
            &&& !blank(evidence.lesson_id@)
            &&& evidence.lesson_artifact.kind == ArtifactKind::Lesson
            &&& evidence.decision_context.kind == ArtifactKind::DecisionContext
            &&& evidence.outcome.kind == ArtifactKind::Outcome
            &&& shares[0] is Some ==> shares[0]->0 <= 1_000_000
            &&& shares[1] is Some ==> shares[1]->0 <= 1_000_000
            &&& shares[2] is Some ==> shares[2]->0 <= 1_000_000
        },
        evidence.gained() <==> !(evidence.utility_ppm_by_horizon@[0] <= 0
            && evidence.utility_ppm_by_horizon@[1] <= 0 && evidence.utility_ppm_by_horizon@[2] <= 0),
{
}

/// One more record counts once under its own attribution and under no other, and once more where it
/// gained.
pub proof fn each_record_counts_under_its_attribution(
    records: Seq<LessonEvidence>,
    more: LessonEvidence,
    to: LessonAttribution,
)
    ensures
        attributed(records.push(more), to) == attributed(records, to) + (if more.attribution == to {
            1nat
        } else {
            0nat
        }),
        gainful(records.push(more), to) == gainful(records, to) + (if more.attribution == to
            && more.gained() {
            1nat
        } else {
            0nat
        }),
        attributed(Seq::<LessonEvidence>::empty(), to) == 0,
        gainful(records, to) <= attributed(records, to),
    decreases records.len(),
{
    reveal(Seq::filter);
    let own = |r: LessonEvidence| r.attribution == to;
    let good = |r: LessonEvidence| r.attribution == to && r.gained();
    let all = records.push(more);
    assert(all.drop_last() =~= records);
    if records.len() > 0 {
        each_record_counts_under_its_attribution(records.drop_last(), records.last(), to);
        assert(records.drop_last().push(records.last()) =~= records);
    }
}

/// A share that was measured, or nothing.
pub open spec fn measured(share: Option<u32>) -> int {
    if share is Some {
        share->0 as int
    } else {
        0
    }
}

/// One for a share that was measured.
pub open spec fn counted(share: Option<u32>) -> int {
    if share is Some {
        1
    } else {
        0
    }
}

/// The mean calibration is over the shares that were measured, rounded down: each adds itself to the
/// total and one to the count, and without any there is no mean.
pub proof fn mean_is_over_what_was_measured(records: Seq<LessonEvidence>, more: LessonEvidence)
    ensures
        ({
            let own = more.calibration_ppm_by_horizon@;
            &&& calibration_total(records.push(more)) == calibration_total(records) + measured(
                own[0],
            ) + measured(own[1]) + measured(own[2])
            &&& calibration_count(records.push(more)) == calibration_count(records) + counted(
                own[0],
            ) + counted(own[1]) + counted(own[2])
        }),
        calibration_count(Seq::<LessonEvidence>::empty()) == 0,
        calibration_total(Seq::<LessonEvidence>::empty()) == 0,
        mean_calibration(records) is None <==> calibration_count(records) == 0,
        calibration_count(records) > 0 ==> mean_calibration(records)->0 * calibration_count(records)
            <= calibration_total(records) < (mean_calibration(records)->0 + 1) * calibration_count(
            records,
        ),
{
    assert(records.push(more).drop_last() =~= records);
    let count = calibration_count(records);
    let sum = calibration_total(records);
    if count > 0 {
        let mean = sum / count;
        assert(mean * count <= sum < (mean + 1) * count) by (nonlinear_arith)
            requires
                mean == sum / count,
                count > 0,
        ;
    }
}

/// Shares add up to the sum of each, the first and the last like any other.
pub proof fn regime_shares_add_up(shares: Seq<u32>, n: nat)
    requires
        n <= shares.len(),
    ensures
        share_sum(shares, n) == shares.take(n as int).fold_left(
            0int,
            |total: int, share: u32| total + share,
        ),
    decreases n,
{
    reveal_with_fuel(Seq::fold_left, 2);
    if n > 0 {
        regime_shares_add_up(shares, (n - 1) as nat);
        assert(shares.take(n as int).drop_last() =~= shares.take(n - 1));
        assert(shares.take(n as int).last() == shares[n - 1]);
    } else {
        assert(shares.take(0) =~= Seq::empty());
    }
}

/// A distribution is accepted exactly where it has some probabilities, that of the dominant regime
/// among them, and they sum to no more than the whole but for rounding.
pub proof fn accepted_distribution_holds_its_dominant<T: Key + JsonKey + JsonItem>(
    distribution: RegimeDistribution<T>,
)
    ensures
        distribution.verdict() is Ok <==> {
            &&& distribution.probabilities_ppm.keys().len() > 0
            &&& distribution.probabilities_ppm@.dom().contains(distribution.dominant@)
            &&& share_sum(
                distribution.probabilities_ppm.values(),
                distribution.probabilities_ppm.keys().len(),
            ) <= 1_000_005
        },
        distribution.probabilities_ppm.keys().len() > 0 && !(distribution.verdict() is Ok)
            ==> distribution.verdict()->Err_0 is InvalidDistribution,
{
}

/// A snapshot of the regime is accepted exactly where, made for a decision, it uses nothing later
/// than the decision, stands under its own digest, and its five distributions are acceptable;
/// it serves a decision exactly where it was made for one, from what was known by then.
pub proof fn regime_for_a_decision_looks_at_nothing_later(
    snapshot: RegimeSnapshot,
    decision_at: UtcTime,
)
    ensures
        snapshot.verdict() is Ok <==> {
            &&& snapshot.schema_version == 2
            &&& snapshot.classification_kind is DecisionTime ==> !earlier(
                snapshot.decision_at,
                snapshot.as_of,
            )
            &&& snapshot.snapshot_hash@ == snapshot.identity()
            &&& snapshot.trend.verdict() is Ok
            &&& snapshot.volatility.verdict() is Ok
            &&& snapshot.liquidity.verdict() is Ok
            &&& snapshot.breadth.verdict() is Ok
            &&& snapshot.risk_state.verdict() is Ok
        },
        snapshot.schema_version == 2 && snapshot.classification_kind is DecisionTime && earlier(
            snapshot.decision_at,
            snapshot.as_of,
        ) ==> snapshot.verdict() == Err::<(), ErrorView>(
            (ErrorView::DecisionTimeLookaheadViolation {
                decision_at: snapshot.decision_at,
                as_of: snapshot.as_of,
            }),
        ),
        snapshot.serves_decision(decision_at) <==> {
            &&& snapshot.classification_kind is DecisionTime
            &&& !earlier(decision_at, snapshot.as_of)
            &&& !earlier(decision_at, snapshot.decision_at)
        },
{
}

/// A bundle of behaviour is accepted exactly where it stands under its own digest, is of a contract
/// and a graph, and someone made it.
pub proof fn accepted_bundle_is_of_contract_and_graph(bundle: BehaviorBundleManifest)
    ensures
        bundle.verdict() is Ok <==> {
            &&& bundle.schema_version == 2
            &&& bundle.bundle_hash@ == bundle.identity()
            &&& bundle.contract.kind == ArtifactKind::Contract
            &&& bundle.topology.kind == ArtifactKind::WorkflowGraph
            &&& !blank(bundle.created_by@)
        },
{
}

/// A receipt of a stage is accepted exactly where it stands under its own digest, names its scenario
/// and frozen context, and compares two outputs that can be compared.
pub proof fn accepted_receipt_compares_outputs(receipt: QualificationStageReceipt)
    ensures
        receipt.verdict() is Ok <==> {
            &&& receipt.schema_version == 2
            &&& receipt.receipt_id@ == receipt.identity()
            &&& !blank(receipt.scenario_id@)
            &&& receipt.frozen_context_manifest.kind == ArtifactKind::ContextManifest
            &&& {
                ||| receipt.champion_output.kind == ArtifactKind::Evaluation
                ||| receipt.champion_output.kind == ArtifactKind::DecisionProposal
                ||| receipt.champion_output.kind == ArtifactKind::Decision
                ||| receipt.champion_output.kind == ArtifactKind::AgentTurn
            }
            &&& {
                ||| receipt.challenger_output.kind == ArtifactKind::Evaluation
                ||| receipt.challenger_output.kind == ArtifactKind::DecisionProposal
                ||| receipt.challenger_output.kind == ArtifactKind::Decision
                ||| receipt.challenger_output.kind == ArtifactKind::AgentTurn
            }
        },
{
}

/// An event is accepted exactly where it is of the current schema, named with its run, and names a
/// task where it names an attempt.
pub proof fn accepted_event_of_an_attempt_names_its_task(event: DurableEvent)
    ensures
        event.verdict() is Ok <==> {
            &&& event.schema_version == 2
            &&& !blank(event.event_id@)
            &&& !blank(event.run_id@)
            &&& event.task_id is Some || event.attempt_id is None
        },
        event.schema_version == 2 && !blank(event.event_id@) && !blank(event.run_id@)
            && event.task_id is None && event.attempt_id is Some
            ==> event.verdict()->Err_0 is AttemptOriginWithoutTask,
{
}

} // verus!
