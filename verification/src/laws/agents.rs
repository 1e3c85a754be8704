//! What holds of budgets, contracts and the contexts that agents are given.
use crate::artifact::{ArtifactKind, RefView};
use crate::budget::{
    AgentBudgetConfig, BudgetOverride, ToolCallLimit, default_budget, is_role_purpose, legacy_budget,
    versioned_budget,
};
use crate::context::{
    ContextManifestPayload, ContextProjection, ContextSelection, ReadGrant,
    TaskWritePermit, indicators_are_sound, quarantine_is_sound, selection_is_sound,
};
use crate::context_scope::{ContextQueryScope, horizons_of, learns, overlap, spans_horizons};
use crate::contract::{
    AgentContract, CandidateCapabilityCeiling, ContextPolicy, ContractSpec, DeliberationSummary,
    PromptBundle, TaskRecipe, ToolSpec, all_are_covered, grant_admits, grant_covers, grants_verdict,
    is_agent_output, is_no_wider, is_tool_name, kind_is_granted, specs_verdict, tool_checks, total,
};
use crate::decision::DecisionHorizon;
use crate::foundation::{
    BlobRef, RetryPolicy, TaskBudget, ToolGrant, ToolKind, clamped, is_digest, token_estimate,
};
use crate::lesson::LessonScope;
use crate::lists::no_fault_means_every_check_passes;
use crate::ordered::views;
use crate::text::{blank, byte_len};
use crate::time::{UtcTime, earlier};
use crate::workflow::WorkflowNode;
use vstd::prelude::*;

verus! {

/// A limit admits uses up to and at the limit, and what is left with what was used makes the limit.
pub proof fn limit_is_used_up_at_the_limit(limit: ToolCallLimit, used: int)
    requires
        used >= 0,
    ensures
        limit is Unlimited ==> limit.admits(used) && limit.left(used) is None,
        limit matches ToolCallLimit::Limited(n) ==> {
            &&& limit.admits(used) <==> used <= n
            &&& used <= n ==> limit.left(used) == Some(n - used)
            &&& used >= n ==> limit.left(used) == Some(0int)
        },
{
}

/// An override is accepted exactly where it sets nothing to zero and lets no agent write more than
/// the most.
pub proof fn accepted_override_sets_nothing_to_zero(change: BudgetOverride)
    ensures
        change.verdict() is Ok <==> {
            &&& change.max_input_tokens != Some(0u32)
            &&& change.max_output_tokens != Some(0u32)
            &&& change.timeout_seconds != Some(0u32)
            &&& change.max_output_tokens matches Some(n) ==> n <= 1_000_000
        },
{
}

/// An override sets what it names and leaves the rest, so what is set last stands, to apply it twice
/// is to apply it once, and a valid one keeps a valid budget valid.
pub proof fn override_sets_what_it_names(
    change: BudgetOverride,
    last: BudgetOverride,
    own: TaskBudget,
)
    ensures
        change.max_input_tokens is None ==> change.applied(own).max_input_tokens
            == own.max_input_tokens,
        change.max_output_tokens is None ==> change.applied(own).max_output_tokens
            == own.max_output_tokens,
        change.timeout_seconds is None ==> change.applied(own).max_wall_time_secs
            == own.max_wall_time_secs,
        change.max_tool_calls is None ==> change.applied(own).max_tool_calls == own.max_tool_calls,
        change.max_input_tokens matches Some(n) ==> change.applied(own).max_input_tokens == n,
        change.max_output_tokens matches Some(n) ==> change.applied(own).max_output_tokens == n,
        change.timeout_seconds matches Some(n) ==> change.applied(own).max_wall_time_secs == n,
        change.max_tool_calls matches Some(n) ==> change.applied(own).max_tool_calls == n,
        change.applied(change.applied(own)) == change.applied(own),
        last.max_input_tokens is Some ==> last.applied(change.applied(own)).max_input_tokens
            == last.applied(own).max_input_tokens,
        change.verdict() is Ok && own.verdict() is Ok ==> change.applied(own).verdict() is Ok,
{
}

/// A newer contract never allows an agent less to write than an older one, and the same to read, to
/// call and to take; only the roles of research and learning have a budget at all, and the
/// planner only an older one.
pub proof fn newer_budget_only_writes_more(purpose: Seq<char>)
    ensures
        legacy_budget(purpose) is Some && versioned_budget(purpose) is Some ==> {
            let old_one = legacy_budget(purpose)->0;
            let new_one = versioned_budget(purpose)->0;
            &&& new_one.max_input_tokens == old_one.max_input_tokens
            &&& new_one.max_tool_calls == old_one.max_tool_calls
            &&& new_one.max_wall_time_secs == old_one.max_wall_time_secs
            &&& new_one.max_output_tokens >= old_one.max_output_tokens
        },
        legacy_budget(purpose) is Some <==> is_role_purpose(purpose) || purpose
            == "research.planner"@,
        versioned_budget(purpose) is Some <==> is_role_purpose(purpose) || purpose
            == "research.proposal_reviewer"@,
        default_budget(purpose) is Some <==> versioned_budget(purpose) is Some,
        legacy_budget(purpose) matches Some(own) ==> own.verdict() is Ok
            && !(own.max_tool_calls is Unlimited),
        versioned_budget(purpose) matches Some(own) ==> own.verdict() is Ok
            && !(own.max_tool_calls is Unlimited),
        default_budget(purpose) matches Some(own) ==> {
            &&& own.max_tool_calls is Unlimited
            &&& own.max_input_tokens == 1_000_000
            &&& own.max_wall_time_secs >= versioned_budget(purpose)->0.max_wall_time_secs
            &&& own.max_output_tokens == versioned_budget(purpose)->0.max_output_tokens
            &&& own.max_wall_time_secs == 180 || purpose == "research.proposal_reviewer"@
                && own.max_wall_time_secs == 120
        },
        versioned_budget(purpose) matches Some(own) ==> {
            &&& own.max_output_tokens == 1_000_000 || purpose == "learning.outcome_worker"@
                && own.max_output_tokens == 4_000
            &&& own.max_input_tokens == 48_000 || purpose == "learning.outcome_worker"@
                && own.max_input_tokens == 12_000
        },
{
    purposes_are_different();
}

proof fn purposes_are_different()
    ensures
        "research.planner"@ != "research.analyst"@,
        "research.planner"@ != "research.critic"@,
        "research.planner"@ != "research.synthesizer"@,
        "research.planner"@ != "learning.outcome_worker"@,
        "research.planner"@ != "research.proposal_reviewer"@,
        "research.analyst"@ != "research.critic"@,
        "research.analyst"@ != "research.synthesizer"@,
        "research.analyst"@ != "learning.outcome_worker"@,
        "research.analyst"@ != "research.proposal_reviewer"@,
        "research.critic"@ != "research.synthesizer"@,
        "research.critic"@ != "learning.outcome_worker"@,
        "research.critic"@ != "research.proposal_reviewer"@,
        "research.synthesizer"@ != "learning.outcome_worker"@,
        "research.synthesizer"@ != "research.proposal_reviewer"@,
        "learning.outcome_worker"@ != "research.proposal_reviewer"@,
{
    reveal_strlit("research.planner");
    reveal_strlit("research.analyst");
    reveal_strlit("research.critic");
    reveal_strlit("research.synthesizer");
    reveal_strlit("learning.outcome_worker");
    reveal_strlit("research.proposal_reviewer");
    assert("research.planner"@[9] == 'p' && "research.analyst"@[9] == 'a' && "research.critic"@[9]
        == 'c' && "research.synthesizer"@[9] == 's');
    assert("research.proposal_reviewer"@.len() == 26 && "research.planner"@.len() == 16
        && "learning.outcome_worker"@.len() == 23 && "research.analyst"@.len() == 16
        && "research.critic"@.len() == 15 && "research.synthesizer"@.len() == 20);
}

/// The budget of a role is its own default, changed first for all and then for the role; who reviews
/// proposals works on the critic's.
pub proof fn role_has_the_last_word_on_its_budget(config: AgentBudgetConfig, purpose: Seq<char>)
    ensures
        config.budget_of(purpose) is Some <==> is_role_purpose(purpose) || purpose
            == "research.proposal_reviewer"@,
        config.budget_of("research.proposal_reviewer"@) == config.budget_of("research.critic"@),
        config.role_override("research.analyst"@) == Some(config.analyst),
        config.role_override("research.critic"@) == Some(config.critic),
        config.role_override("research.synthesizer"@) == Some(config.synthesizer),
        config.role_override("learning.outcome_worker"@) == Some(config.outcome_worker),
        config.budget_of(purpose) matches Some(own) ==> {
            let role = config.role_override(purpose)->0;
            &&& role.max_input_tokens matches Some(n) ==> own.max_input_tokens == n
            &&& role.max_input_tokens is None && config.default.max_input_tokens is Some
                ==> own.max_input_tokens == config.default.max_input_tokens->0
            &&& role.max_input_tokens is None && config.default.max_input_tokens is None
                ==> own.max_input_tokens == 1_000_000
            &&& role.max_tool_calls matches Some(n) ==> own.max_tool_calls == n
            &&& role.max_tool_calls is None && config.default.max_tool_calls is Some
                ==> own.max_tool_calls == config.default.max_tool_calls->0
            &&& role.max_tool_calls is None && config.default.max_tool_calls is None
                ==> own.max_tool_calls is Unlimited
            &&& role.max_output_tokens matches Some(n) ==> own.max_output_tokens == n
            &&& role.max_output_tokens is None && config.default.max_output_tokens is Some
                ==> own.max_output_tokens == config.default.max_output_tokens->0
            &&& role.timeout_seconds matches Some(n) ==> own.max_wall_time_secs == n
            &&& role.timeout_seconds is None && config.default.timeout_seconds is Some
                ==> own.max_wall_time_secs == config.default.timeout_seconds->0
        },
        config.verdict() is Ok <==> config.default.verdict() is Ok && config.analyst.verdict() is Ok
            && config.critic.verdict() is Ok && config.synthesizer.verdict() is Ok
            && config.outcome_worker.verdict() is Ok,
{
    purposes_are_different();
}

/// The records that bound a task are accepted exactly where none of their numbers is zero.
pub proof fn accepted_bounds_are_above_nothing(own: TaskBudget, retry: RetryPolicy, blob: BlobRef)
    ensures
        own.verdict() is Ok <==> own.max_input_tokens > 0 && own.max_output_tokens > 0
            && own.max_wall_time_secs > 0,
        retry.verdict() is Ok <==> retry.max_attempts > 0,
        blob.verdict() is Ok <==> !blank(blob.media_type@),
{
}

/// Four bytes, begun or whole, count as a token, and anything as one at least.
pub proof fn four_bytes_make_a_token(bytes: int)
    requires
        bytes >= 0,
    ensures
        1 <= token_estimate(bytes) <= u32::MAX,
        1 <= bytes && token_estimate(bytes) < u32::MAX ==> token_estimate(bytes) * 4 - 4 < bytes
            <= token_estimate(bytes) * 4,
        token_estimate(bytes) <= token_estimate(bytes + 1) <= token_estimate(bytes) + 1,
        bytes > 4 * u32::MAX ==> token_estimate(bytes) == u32::MAX,
{
}

/// To clamp keeps what is within the bounds and moves the rest to the nearer bound.
pub proof fn clamping_keeps_what_is_within(x: int, low: int, high: int)
    requires
        low <= high,
    ensures
        low <= clamped(x, low, high) <= high,
        low <= x <= high ==> clamped(x, low, high) == x,
        x <= low ==> clamped(x, low, high) == low,
        x >= high ==> clamped(x, low, high) == high,
{
}

/// A digest is sixty-four characters, each a digit or a small letter up to f.
pub proof fn digest_is_small_hexadecimal(s: Seq<char>, i: int)
    ensures
        is_digest(s) ==> s.len() == 64,
        is_digest(s) && 0 <= i < 64 ==> "0123456789abcdef"@.contains(s[i]),
        s.len() == 64 && (forall|j: int|
            0 <= j < 64 ==> "0123456789abcdef"@.contains(#[trigger] s[j])) ==> is_digest(s),
{
    reveal_strlit("0123456789abcdef");
    let hex = "0123456789abcdef"@;
    if is_digest(s) && 0 <= i < 64 {
        let c = s[i];
        assert('0' <= c <= '9' || 'a' <= c <= 'f');
        let n = c as int;
        if '0' <= c <= '9' {
            assert(hex[0] == '0' && hex[1] == '1' && hex[2] == '2' && hex[3] == '3' && hex[4] == '4'
                && hex[5] == '5' && hex[6] == '6' && hex[7] == '7' && hex[8] == '8' && hex[9]
                == '9');
            assert(hex[n - 48] == c);
        } else {
            assert(hex[10] == 'a' && hex[11] == 'b' && hex[12] == 'c' && hex[13] == 'd' && hex[14]
                == 'e' && hex[15] == 'f');
            assert(hex[n - 87] == c);
        }
    }
    if s.len() == 64 && (forall|j: int|
        0 <= j < 64 ==> "0123456789abcdef"@.contains(#[trigger] s[j])) {
        assert forall|j: int| 0 <= j < s.len() implies '0' <= #[trigger] s[j] <= '9' || 'a' <= s[j]
            <= 'f' by {
            assert(hex.contains(s[j]));
            let k = choose|k: int| 0 <= k < hex.len() && hex[k] == s[j];
            assert(0 <= k < 16);
        }
    }
}

/// A context policy is accepted exactly where it permits some kinds but never raw evidence, its
/// bounds are above nothing and do not cross, and the families it names are named.
pub proof fn accepted_context_policy_permits_no_raw_evidence(policy: ContextPolicy)
    ensures
        policy.verdict() is Ok <==> {
            &&& policy.permitted_kinds@.len() != 0
            &&& !policy.permitted_kinds@.contains(ArtifactKind::RawEvidence)
            &&& policy.min_artifacts <= policy.max_artifacts
            &&& policy.max_artifacts > 0
            &&& policy.max_bytes > 0
            &&& policy.max_source_bytes matches Some(n) ==> n > 0
            &&& policy.max_tokens > 0
            &&& forall|s: Seq<char>| #[trigger]
                policy.permitted_source_families@.contains(s) ==> !blank(s)
        },
        policy.max_source_bytes matches Some(n) ==> policy.source_limit() == n,
        policy.max_source_bytes is None ==> policy.source_limit() == policy.max_bytes,
{
}

/// Some text of a list.
pub open spec fn names(list: Seq<String>, text: Seq<char>) -> bool {
    exists|i: int| 0 <= i < list.len() && (#[trigger] list[i])@ == text
}

/// A grant without sources is for any; one covers another exactly where it is of the same kind and
/// admits every source that the other admits.
pub proof fn covering_grant_admits_no_less(allowed: ToolGrant, requested: ToolGrant, source: Seq<char>)
    ensures
        grant_admits(allowed, source) <==> allowed.allowed_sources@.len() == 0 || names(
            allowed.allowed_sources@,
            source,
        ),
        grant_covers(allowed, requested) && grant_admits(requested, source) ==> grant_admits(
            allowed,
            source,
        ),
        grant_covers(allowed, requested) ==> allowed.kind == requested.kind,
        grant_covers(allowed, allowed),
        allowed.allowed_sources@.len() > 0 && requested.allowed_sources@.len() == 0
            ==> !grant_covers(allowed, requested),
        allowed.allowed_sources@.len() == 0 && allowed.kind == requested.kind ==> grant_covers(
            allowed,
            requested,
        ),
        grant_covers(allowed, requested) && allowed.allowed_sources@.len() > 0 ==> forall|i: int|
            0 <= i < requested.allowed_sources@.len() ==> names(
                allowed.allowed_sources@,
                (#[trigger] requested.allowed_sources@[i])@,
            ),
{
    if grant_covers(allowed, requested) && grant_admits(requested, source)
        && allowed.allowed_sources@.len() > 0 {
        let i = choose|i: int|
            0 <= i < requested.allowed_sources@.len() && (
            #[trigger] requested.allowed_sources@[i])@ == source;
        assert(crate::text::listed(
            allowed.allowed_sources@,
            requested.allowed_sources@[i]@,
        ));
    }
    if allowed.allowed_sources@.len() > 0 {
        assert forall|i: int| 0 <= i < allowed.allowed_sources@.len() implies crate::text::listed(
            allowed.allowed_sources@,
            (#[trigger] allowed.allowed_sources@[i])@,
        ) by {}
    }
}

/// Capabilities are no wider than others exactly where they permit nothing more: no further kind or
/// family, no wider bound, no raw evidence that the others keep back, and no grant that none of
/// the others covers.
pub proof fn narrower_capabilities_permit_nothing_more(
    context: ContextPolicy,
    grants: Seq<ToolGrant>,
    limit: ContextPolicy,
    limit_grants: Seq<ToolGrant>,
)
    ensures
        is_no_wider(context, grants, limit, limit_grants) <==> {
            &&& forall|kind: ArtifactKind| #[trigger]
                context.permitted_kinds@.contains(kind) ==> limit.permitted_kinds@.contains(kind)
            &&& forall|family: Seq<char>| #[trigger]
                context.permitted_source_families@.contains(family)
                    ==> limit.permitted_source_families@.contains(family)
            &&& context.min_artifacts >= limit.min_artifacts
            &&& context.max_artifacts <= limit.max_artifacts
            &&& context.max_bytes <= limit.max_bytes
            &&& context.source_limit() <= limit.source_limit()
            &&& context.max_tokens <= limit.max_tokens
            &&& !context.allow_raw_reread || limit.allow_raw_reread
            &&& forall|i: int|
                0 <= i < grants.len() ==> some_grant_covers(limit_grants, #[trigger] grants[i])
        },
{
    assert forall|i: int| 0 <= i < grants.len() implies crate::contract::is_covered(
        limit_grants,
        #[trigger] grants[i],
    ) == some_grant_covers(limit_grants, grants[i]) by {}
}

/// Some grant covers another.
pub open spec fn some_grant_covers(allowed: Seq<ToolGrant>, requested: ToolGrant) -> bool {
    exists|i: int| 0 <= i < allowed.len() && grant_covers(#[trigger] allowed[i], requested)
}

/// Grants are accepted exactly where each is to read evidence from named families that the context
/// permits, and raw evidence only where the context allows that.
pub proof fn accepted_grants_only_read(grants: Seq<ToolGrant>, context: ContextPolicy)
    ensures
        grants_verdict(grants, context) is Ok <==> {
            &&& forall|i: int|
                0 <= i < grants.len() ==> (#[trigger] grants[i]).allowed_sources@.len() > 0 && (
                grants[i].kind == ToolKind::ReadEvidence || grants[i].kind
                    == ToolKind::ReadRawEvidence && context.allow_raw_reread)
            &&& forall|i: int, j: int|
                0 <= i < grants.len() && 0 <= j < grants[i].allowed_sources@.len() ==> !blank(
                    (#[trigger] grants[i].allowed_sources@[j])@,
                ) && context.permitted_source_families@.contains(grants[i].allowed_sources@[j]@)
        },
{
    if grants_verdict(grants, context) is Ok {
        assert forall|i: int, j: int|
            0 <= i < grants.len() && 0 <= j < grants[i].allowed_sources@.len() implies !blank(
            (#[trigger] grants[i].allowed_sources@[j])@,
        ) && context.permitted_source_families@.contains(grants[i].allowed_sources@[j]@) by {
            assert(crate::contract::grant_is_allowed(grants[i], context));
        }
    }
}

/// A ceiling is accepted exactly where its context and its grants are.
pub proof fn accepted_ceiling_is_a_capability(ceiling: CandidateCapabilityCeiling, prompt: PromptBundle)
    ensures
        ceiling.verdict() is Ok <==> ceiling.context.verdict() is Ok && grants_verdict(
            ceiling.tool_grants@,
            ceiling.context,
        ) is Ok,
        prompt.verdict() is Ok <==> prompt.version > 0 && !blank(
            prompt.governance.media_type@,
        ) && !blank(prompt.role.media_type@),
{
}

/// The total of shares is that of each of them.
pub proof fn shares_add_up(shares: Seq<u32>, more: u32)
    ensures
        total(Seq::<u32>::empty()) == 0,
        total(shares.push(more)) == total(shares) + more,
{
    assert(shares.push(more).drop_last() =~= shares);
}

/// Texts that each say something, in at most five hundred characters.
pub open spec fn are_short_texts(list: Seq<String>) -> bool {
    forall|i: int|
        0 <= i < list.len() ==> !blank((#[trigger] list[i])@) && list[i]@.len() <= 500
}

/// A summary of a deliberation is accepted exactly where it names its path, its alternatives and
/// uncertainties, measured each or not at all, are few and short, its basis cites nothing twice,
/// and the measured uncertainties make up what it is not confident of.
#[verifier::rlimit(40)]
pub proof fn accepted_deliberation_measures_its_doubts(summary: DeliberationSummary)
    ensures
        summary.verdict() is Ok <==> {
            let matches = summary.alternative_match_ppm@;
            let weights = summary.uncertainty_weight_ppm@;
            &&& !blank(summary.selected_path@)
            &&& summary.selected_path@.len() <= 1_000
            &&& summary.confidence_ppm <= 1_000_000
            &&& summary.basis_artifact_ids@.len() <= 8
            &&& matches.len() > 0 ==> matches.len() == summary.alternatives@.len() <= 3
            &&& weights.len() > 0 ==> weights.len() == summary.uncertainties@.len() <= 3
            &&& forall|i: int| 0 <= i < matches.len() ==> #[trigger] matches[i] <= 1_000_000
            &&& forall|i: int| 0 <= i < weights.len() ==> #[trigger] weights[i] <= 1_000_000
            &&& weights.len() > 0 ==> total(weights) + summary.confidence_ppm == 1_000_000
            &&& are_short_texts(summary.alternatives@)
            &&& are_short_texts(summary.uncertainties@)
            &&& summary.assessment_source matches Some(source) ==> source@ == "model_assessed"@
            &&& views(summary.basis_artifact_ids@).no_duplicates()
        },
        summary.assessment_verdict() is Ok <==> {
            &&& summary.verdict() is Ok
            &&& summary.assessment_source is Some
            &&& summary.alternative_match_ppm@.len() == summary.alternatives@.len() <= 3
            &&& summary.uncertainty_weight_ppm@.len() == summary.uncertainties@.len() <= 3
            &&& total(summary.uncertainty_weight_ppm@) + summary.confidence_ppm == 1_000_000
        },
{
}

/// A tool has a name of small letters, digits and underscores that begins with no underscore.
pub proof fn tool_name_is_small(name: Seq<char>, i: int)
    ensures
        is_tool_name(name) ==> name.len() > 0 && name[0] != '_',
        is_tool_name(name) && 0 <= i < name.len() ==> 'a' <= name[i] <= 'z' || '0' <= name[i] <= '9'
            || name[i] == '_',
        name.len() > 0 && ('a' <= name[0] <= 'z' || '0' <= name[0] <= '9') && (forall|j: int|
            0 <= j < name.len() ==> 'a' <= #[trigger] name[j] <= 'z' || '0' <= name[j] <= '9'
                || name[j] == '_') ==> is_tool_name(name),
{
}

/// Tools are accepted exactly where each is named, described, strict and of a granted kind, no two
/// share a name, and every granted kind has a tool.
pub proof fn accepted_tools_match_the_grants(specs: Seq<ToolSpec>, grants: Seq<ToolGrant>)
    ensures
        specs_verdict(specs, grants) is Ok <==> {
            &&& forall|i: int|
                0 <= i < specs.len() ==> is_tool_name((#[trigger] specs[i]).name@) && !blank(
                    specs[i].description@,
                ) && specs[i].strict && !blank(specs[i].input_schema.media_type@)
                    && kind_is_granted(grants, specs[i].kind)
            &&& forall|i: int, j: int|
                0 <= i < j < specs.len() ==> (#[trigger] specs[i]).name@ != (
                #[trigger] specs[j]).name@
            &&& forall|i: int|
                0 <= i < grants.len() ==> has_tool(specs, (#[trigger] grants[i]).kind)
        },
        forall|kind: ToolKind| #[trigger]
            kind_is_granted(grants, kind) <==> exists|i: int|
                0 <= i < grants.len() && (#[trigger] grants[i]).kind == kind,
{
    let checks = tool_checks(specs, grants);
    no_fault_means_every_check_passes(specs.len(), checks);
    if forall|i: int| 0 <= i < specs.len() ==> (#[trigger] checks(i)) is Ok {
        assert forall|i: int| 0 <= i < specs.len() implies is_tool_name(
            (#[trigger] specs[i]).name@,
        ) && !blank(specs[i].description@) && specs[i].strict && !blank(
            specs[i].input_schema.media_type@,
        ) && kind_is_granted(grants, specs[i].kind) by {
            assert(checks(i) is Ok);
        }
        assert forall|i: int, j: int| 0 <= i < j < specs.len() implies (#[trigger] specs[i]).name@
            != (#[trigger] specs[j]).name@ by {
            assert(checks(j) is Ok);
        }
    }
    if (forall|i: int|
        0 <= i < specs.len() ==> is_tool_name((#[trigger] specs[i]).name@) && !blank(
            specs[i].description@,
        ) && specs[i].strict && !blank(specs[i].input_schema.media_type@) && kind_is_granted(
            grants,
            specs[i].kind,
        )) && (forall|i: int, j: int|
        0 <= i < j < specs.len() ==> (#[trigger] specs[i]).name@ != (#[trigger] specs[j]).name@) {
        assert forall|j: int| 0 <= j < specs.len() implies (#[trigger] checks(j)) is Ok by {
            assert(is_tool_name(specs[j].name@));
            assert(crate::contract::tool_name_is_new(specs, j));
        }
    }
}

/// Some tool is of a kind.
pub open spec fn has_tool(specs: Seq<ToolSpec>, kind: ToolKind) -> bool {
    exists|i: int| 0 <= i < specs.len() && (#[trigger] specs[i]).kind == kind
}

/// A contract is accepted exactly where it is versioned and says what it is responsible for, its
/// prompt, context, ceiling, schema, budget, retries, grants and tools are acceptable, it is no
/// wider than its ceiling, it puts out what an agent may, and it stands under its own digest.
#[verifier::rlimit(60)]
pub proof fn accepted_contract_stays_within_its_ceiling(contract: AgentContract)
    ensures
        contract.verdict() is Ok <==> {
            &&& contract.schema_version == 2
            &&& contract.version > 0
            &&& !blank(contract.responsibility@)
            &&& contract.prompt.verdict() is Ok
            &&& contract.context.verdict() is Ok
            &&& contract.candidate_capability_ceiling.verdict() is Ok
            &&& is_no_wider(
                contract.context,
                contract.tool_grants@,
                contract.candidate_capability_ceiling.context,
                contract.candidate_capability_ceiling.tool_grants@,
            )
            &&& !blank(contract.output.schema.media_type@)
            &&& contract.budget.verdict() is Ok
            &&& contract.retry.max_attempts > 0
            &&& grants_verdict(contract.tool_grants@, contract.context) is Ok
            &&& specs_verdict(contract.tool_specs@, contract.tool_grants@) is Ok
            &&& is_agent_output(contract.output.artifact_kind)
            &&& contract.contract_hash@ == contract.identity()
        },
{
}

/// What an agent puts out is a need, a proposal, a piece of research, a review or a draft: never a
/// decision, an order, an outcome or evidence.
pub proof fn agents_put_out_no_decisions(kind: ArtifactKind)
    ensures
        is_agent_output(kind) <==> {
            ||| kind == ArtifactKind::EvidenceNeed
            ||| kind == ArtifactKind::WorkflowProposalDraft
            ||| kind == ArtifactKind::WorkflowProposal
            ||| kind == ArtifactKind::Claim
            ||| kind == ArtifactKind::Critique
            ||| kind == ArtifactKind::Resolution
            ||| kind == ArtifactKind::DecisionProposal
            ||| kind == ArtifactKind::ProposalReview
            ||| kind == ArtifactKind::RetrospectiveDraft
        },
{
}

/// A specification of a contract is accepted exactly where it is versioned and responsible for
/// something, its parts are acceptable and it stands under its own digest.
pub proof fn accepted_specification_stands_under_its_digest(spec: ContractSpec)
    ensures
        spec.verdict() is Ok <==> {
            &&& spec.schema_version == 2
            &&& spec.version > 0
            &&& !blank(spec.responsibility@)
            &&& !blank(spec.prompt.media_type@)
            &&& spec.context.verdict() is Ok
            &&& !blank(spec.output.schema.media_type@)
            &&& spec.budget.verdict() is Ok
            &&& spec.retry.max_attempts > 0
            &&& spec.contract_hash@ == spec.identity()
        },
{
}

/// A recipe is accepted exactly where its priority is a hundred at most, its bounds are above
/// nothing, it names a contract where an agent runs it, and its sources are named.
pub proof fn accepted_recipe_names_the_contract_of_its_agent(recipe: TaskRecipe)
    ensures
        recipe.verdict() is Ok <==> {
            &&& recipe.priority_ceiling <= 100
            &&& recipe.budget.verdict() is Ok
            &&& recipe.retry.max_attempts > 0
            &&& recipe.task_class is Agent ==> recipe.contract_hash is Some
            &&& forall|s: Seq<char>| #[trigger]
                recipe.allowed_evidence_sources@.contains(s) ==> !blank(s)
        },
{
}

/// A selection is sound exactly where it gives a reason, costs some tokens and is of a permitted
/// kind, and evidence is never trusted.
pub proof fn selected_evidence_is_never_trusted(selection: ContextSelection, policy: ContextPolicy)
    ensures
        selection_is_sound(selection, policy) <==> {
            &&& !blank(selection.reason@)
            &&& selection.estimated_tokens > 0
            &&& policy.permitted_kinds@.contains(selection.artifact.kind)
            &&& selection.artifact.kind == ArtifactKind::NormalizedEvidence
                || selection.artifact.kind == ArtifactKind::SemanticDetail
                ==> selection.trust is UntrustedEvidence
        },
{
}

/// A manifest is accepted exactly where it keeps within its policy, its selections are sound, and
/// what it holds back is evidence, for a few named reasons, once each and not selected.
#[verifier::rlimit(40)]
pub proof fn accepted_manifest_selects_nothing_it_holds_back(
    manifest: ContextManifestPayload,
    policy: ContextPolicy,
)
    ensures
        manifest.verdict(policy) is Ok <==> {
            let kept = manifest.selections@;
            let held = manifest.quarantined@;
            &&& manifest.schema_version == 2
            &&& policy.min_artifacts <= kept.len() <= policy.max_artifacts
            &&& manifest.total_bytes <= policy.source_limit()
            &&& manifest.projected_bytes matches Some(n) ==> n <= policy.max_bytes
            &&& manifest.projected_bytes is None ==> manifest.total_bytes <= policy.max_bytes
            &&& manifest.estimated_tokens <= policy.max_tokens
            &&& forall|i: int|
                0 <= i < kept.len() ==> selection_is_sound(#[trigger] kept[i], policy)
            &&& forall|i: int|
                0 <= i < held.len() ==> ((#[trigger] held[i]).artifact.kind
                    == ArtifactKind::NormalizedEvidence || held[i].artifact.kind
                    == ArtifactKind::SemanticDetail) && indicators_are_sound(held[i].indicators@)
            &&& forall|i: int, j: int|
                0 <= i < held.len() && 0 <= j < kept.len() ==> (#[trigger] held[i]).artifact@ != (
                #[trigger] kept[j]).artifact@
            &&& forall|i: int, j: int|
                0 <= i < j < held.len() ==> (#[trigger] held[i]).artifact@ != (
                #[trigger] held[j]).artifact@
        },
{
    let kept = manifest.selections@;
    let held = manifest.quarantined@;
    if forall|i: int| 0 <= i < held.len() ==> #[trigger] quarantine_is_sound(manifest, i) {
        assert forall|i: int| 0 <= i < held.len() implies ((#[trigger] held[i]).artifact.kind
            == ArtifactKind::NormalizedEvidence || held[i].artifact.kind
            == ArtifactKind::SemanticDetail) && indicators_are_sound(held[i].indicators@) by {
            assert(quarantine_is_sound(manifest, i));
        }
        assert forall|i: int, j: int| 0 <= i < held.len() && 0 <= j < kept.len() implies (
        #[trigger] held[i]).artifact@ != (#[trigger] kept[j]).artifact@ by {
            assert(quarantine_is_sound(manifest, i));
        }
        assert forall|i: int, j: int| 0 <= i < j < held.len() implies (
        #[trigger] held[i]).artifact@ != (#[trigger] held[j]).artifact@ by {
            assert(quarantine_is_sound(manifest, j));
        }
    }
    if (forall|i: int|
        0 <= i < held.len() ==> ((#[trigger] held[i]).artifact.kind
            == ArtifactKind::NormalizedEvidence || held[i].artifact.kind
            == ArtifactKind::SemanticDetail) && indicators_are_sound(held[i].indicators@)) && (
    forall|i: int, j: int|
        0 <= i < held.len() && 0 <= j < kept.len() ==> (#[trigger] held[i]).artifact@ != (
        #[trigger] kept[j]).artifact@) && (forall|i: int, j: int|
        0 <= i < j < held.len() ==> (#[trigger] held[i]).artifact@ != (
        #[trigger] held[j]).artifact@) {
        assert forall|i: int| 0 <= i < held.len() implies #[trigger] quarantine_is_sound(
            manifest,
            i,
        ) by {
            assert(indicators_are_sound(held[i].indicators@));
        }
    }
}

/// The reasons to hold something back are one to eight, each saying something in at most a hundred
/// and twenty-eight bytes.
pub proof fn sound_indicators_are_few(indicators: Seq<String>)
    ensures
        indicators_are_sound(indicators) <==> 1 <= indicators.len() <= 8 && forall|i: int|
            0 <= i < indicators.len() ==> !blank((#[trigger] indicators[i])@) && byte_len(
                indicators[i]@,
            ) <= 128,
{
}

/// A projection is accepted exactly where it is of a manifest, gives a reason, and allows no raw
/// evidence and nothing twice.
pub proof fn accepted_projection_allows_no_raw_evidence(projection: ContextProjection)
    ensures
        projection.verdict() is Ok <==> {
            let allowed = projection.allowed@;
            &&& projection.parent_manifest.kind == ArtifactKind::ContextManifest
            &&& !blank(projection.reason@)
            &&& forall|i: int|
                0 <= i < allowed.len() ==> (#[trigger] allowed[i]).kind != ArtifactKind::RawEvidence
            &&& forall|i: int, j: int|
                0 <= i < j < allowed.len() ==> (#[trigger] allowed[i]).artifact_id@ != (
                #[trigger] allowed[j]).artifact_id@
        },
{
    let allowed = projection.allowed@;
    if forall|i: int| 0 <= i < allowed.len() ==> #[trigger] projection.reference_is_sound(i) {
        assert forall|i: int| 0 <= i < allowed.len() implies (#[trigger] allowed[i]).kind
            != ArtifactKind::RawEvidence by {
            assert(projection.reference_is_sound(i));
        }
        assert forall|i: int, j: int| 0 <= i < j < allowed.len() implies (
        #[trigger] allowed[i]).artifact_id@ != (#[trigger] allowed[j]).artifact_id@ by {
            assert(projection.reference_is_sound(j));
        }
    }
    if (forall|i: int|
        0 <= i < allowed.len() ==> (#[trigger] allowed[i]).kind != ArtifactKind::RawEvidence) && (
    forall|i: int, j: int|
        0 <= i < j < allowed.len() ==> (#[trigger] allowed[i]).artifact_id@ != (
        #[trigger] allowed[j]).artifact_id@) {
        assert forall|i: int| 0 <= i < allowed.len() implies #[trigger] projection.reference_is_sound(
            i,
        ) by {
            assert(allowed[i].kind != ArtifactKind::RawEvidence);
        }
    }
}

/// A grant lends each artifact only until it expires, raw ones from its closure of raw sources and
/// others from what is readable; it goes with the one permit of its own attempt and contract.
pub proof fn grant_reads_until_it_expires(
    grant: ReadGrant,
    permit: TaskWritePermit,
    artifact: Seq<char>,
    now: UtcTime,
)
    ensures
        grant.admits(artifact, true, now) <==> earlier(now, grant.expires_at)
            && grant.raw_source_closure@.contains(artifact),
        grant.admits(artifact, false, now) <==> earlier(now, grant.expires_at)
            && grant.readable@.contains(artifact),
        !grant.admits(artifact, true, grant.expires_at),
        !grant.admits(artifact, false, grant.expires_at),
        grant.goes_with(permit) <==> {
            &&& permit.run_id@ == grant.run_id@
            &&& permit.task_id@ == grant.task_id@
            &&& permit.attempt_id@ == grant.attempt_id@
            &&& permit.lease_id@ == grant.lease_id@
            &&& permit.epoch == grant.epoch
            &&& permit.contract_hash is Some
            &&& permit.contract_hash->0@ == grant.contract_hash@
        },
{
}

/// Two scopes meet where one does not restrict itself or they have something in common; a lesson
/// fits a scope exactly where they meet in assets, horizons, regimes and stages.
pub proof fn lesson_fits_where_it_meets_the_scope(scope: ContextQueryScope, lesson: LessonScope)
    ensures
        scope.fits(lesson) <==> {
            &&& overlap(lesson.assets@, scope.assets@)
            &&& overlap(lesson.horizons@, scope.horizons@)
            &&& overlap(lesson.regimes@, scope.regimes@)
            &&& overlap(lesson.decision_stages@, scope.decision_stages@)
        },
{
}

/// What is unrestricted applies to anything, and what is restricted exactly to what it names.
pub proof fn unrestricted_scope_overlaps_anything<V>(applicable: Set<V>, requested: Set<V>, v: V)
    ensures
        overlap(Set::<V>::empty(), requested),
        applicable.contains(v) && requested.contains(v) ==> overlap(applicable, requested),
        applicable.contains(v) && overlap(applicable, requested) ==> !applicable.disjoint(requested),
        applicable.contains(v) ==> !overlap(applicable, Set::<V>::empty()),
{
}

/// The synthesizer and who reviews proposals look at every horizon, others at that of their node
/// alone; whoever they are, they learn, as do the other roles of research and learning.
pub proof fn spanning_roles_look_at_every_horizon(node: WorkflowNode, horizon: DecisionHorizon)
    ensures
        spans_horizons(node.recipe_id@) ==> horizons_of(node).contains(horizon),
        !spans_horizons(node.recipe_id@) ==> (horizons_of(node).contains(horizon)
            <==> node.horizon() == Some(horizon)),
        spans_horizons(node.recipe_id@) ==> learns(node.recipe_id@),
        spans_horizons(node.recipe_id@) <==> node.recipe_id@ == "research.synthesizer"@
            || node.recipe_id@ == "research.proposal_reviewer"@,
        learns(node.recipe_id@) <==> node.recipe_id@ == "research.analyst"@ || node.recipe_id@
            == "research.critic"@ || node.recipe_id@ == "research.synthesizer"@ || node.recipe_id@
            == "research.proposal_reviewer"@ || node.recipe_id@ == "learning.outcome_worker"@,
{
}

} // verus!
