//! What a task is given to read: the manifest of its context, and the grants to read and write
//! that go with one attempt.
use crate::artifact::{ArtifactId, ArtifactKind, ArtifactOrigin, ArtifactRef, RefView};
use crate::contract::ContextPolicy;
use crate::error::{
    budget, demand, empty, empty_field, first, invalid_budget, outcome, DomainError, Verdict,
};
use crate::foundation::{
    content_hash_json, json_digest, AttemptId, ContentHash, LeaseId, RunId, TaskId,
};
use crate::json::{
    json_content, json_contents, json_insert, json_list, json_new_object, json_object, json_text,
    no_members, JsonTree, ToJson,
};
use crate::lists::{all_of, any_of};
use crate::ordered::OrderedSet;
use crate::text::{blank, byte_count, byte_len, is_blank, same_text};
use crate::time::{earlier, UtcTime};
use crate::DOMAIN_SCHEMA_VERSION;
use vstd::prelude::*;

verus! {

/// Whether what is selected may be taken at its word.
#[derive(Clone, Copy, Debug, PartialEq, Eq, PartialOrd, Ord, Hash, Structural)]
pub enum ContextTrust {
    GovernedArtifact,
    UntrustedEvidence,
}

impl ContextTrust {
    /// The name of the variant in JSON.
    pub open spec fn wire(self) -> Seq<char> {
        match self {
            ContextTrust::GovernedArtifact => "governed_artifact"@,
            ContextTrust::UntrustedEvidence => "untrusted_evidence"@,
        }
    }

    /// The name of the variant in JSON.
    pub fn wire_name(self) -> (r: &'static str)
        ensures
            r@ == self.wire(),
    {
        match self {
            ContextTrust::GovernedArtifact => "governed_artifact",
            ContextTrust::UntrustedEvidence => "untrusted_evidence",
        }
    }
}

impl ToJson for ContextTrust {
    open spec fn json(&self) -> JsonTree {
        JsonTree::Text(self.wire())
    }

    fn to_json(&self) -> (r: serde_json::Value) {
        json_text(self.wire_name())
    }
}

impl Default for ContextTrust {
    fn default() -> (r: Self)
        ensures
            r is UntrustedEvidence,
    {
        ContextTrust::UntrustedEvidence
    }
}

/// Why something was kept out of a context.
#[derive(Clone, Copy, Debug, PartialEq, Eq, PartialOrd, Ord, Hash, Structural)]
pub enum ContextQuarantineReason {
    InstructionLikeContent,
    FinancialContentRisk,
}

impl ContextQuarantineReason {
    /// The name of the variant in JSON.
    pub open spec fn wire(self) -> Seq<char> {
        match self {
            ContextQuarantineReason::InstructionLikeContent => "instruction_like_content"@,
            ContextQuarantineReason::FinancialContentRisk => "financial_content_risk"@,
        }
    }

    /// The name of the variant in JSON.
    pub fn wire_name(self) -> (r: &'static str)
        ensures
            r@ == self.wire(),
    {
        match self {
            ContextQuarantineReason::InstructionLikeContent => "instruction_like_content",
            ContextQuarantineReason::FinancialContentRisk => "financial_content_risk",
        }
    }
}

impl ToJson for ContextQuarantineReason {
    open spec fn json(&self) -> JsonTree {
        JsonTree::Text(self.wire())
    }

    fn to_json(&self) -> (r: serde_json::Value) {
        json_text(self.wire_name())
    }
}

/// Something that was kept out of a context.
#[derive(Debug, Clone, PartialEq, Eq)]
pub struct ContextQuarantine {
    pub artifact: ArtifactRef,
    pub reason: ContextQuarantineReason,
    pub indicators: Vec<String>,
}

impl ToJson for ContextQuarantine {
    open spec fn json(&self) -> JsonTree {
        let m = no_members();
        let m = m.insert("artifact"@, self.artifact.json());
        let m = m.insert("reason"@, self.reason.json());
        let m = m.insert("indicators"@, self.indicators.json());
        JsonTree::Object(m)
    }

    fn to_json(&self) -> (r: serde_json::Value) {
        let mut members = json_new_object();
        json_insert(&mut members, "artifact", self.artifact.to_json());
        json_insert(&mut members, "reason", self.reason.to_json());
        json_insert(&mut members, "indicators", self.indicators.to_json());
        json_object(members)
    }
}

/// Something that was selected for a context.
#[derive(Debug, Clone, PartialEq, Eq)]
pub struct ContextSelection {
    pub artifact: ArtifactRef,
    pub reason: String,
    pub estimated_tokens: u32,
    pub projected_bytes: Option<u64>,
    pub trust: ContextTrust,
}

impl ToJson for ContextSelection {
    open spec fn json(&self) -> JsonTree {
        let m = no_members();
        let m = m.insert("artifact"@, self.artifact.json());
        let m = m.insert("reason"@, self.reason.json());
        let m = m.insert("estimated_tokens"@, self.estimated_tokens.json());
        let m = m.insert("projected_bytes"@, self.projected_bytes.json());
        let m = m.insert("trust"@, self.trust.json());
        JsonTree::Object(m)
    }

    fn to_json(&self) -> (r: serde_json::Value) {
        let mut members = json_new_object();
        json_insert(&mut members, "artifact", self.artifact.to_json());
        json_insert(&mut members, "reason", self.reason.to_json());
        json_insert(&mut members, "estimated_tokens", self.estimated_tokens.to_json());
        json_insert(&mut members, "projected_bytes", self.projected_bytes.to_json());
        json_insert(&mut members, "trust", self.trust.to_json());
        json_object(members)
    }
}

/// The identity and the kind of a selection, as a list of two.
pub open spec fn selection_json(selection: ContextSelection) -> JsonTree {
    JsonTree::List(
        seq![selection.artifact.artifact_id.json(), selection.artifact.kind.json()],
    )
}

/// The identities and kinds of the selections, in their order.
pub open spec fn selections_json(selections: Seq<ContextSelection>) -> JsonTree {
    JsonTree::List(selections.map_values(|s: ContextSelection| selection_json(s)))
}

fn selection_value(selection: &ContextSelection) -> (r: serde_json::Value)
    ensures
        json_content(r) == selection_json(*selection),
{
    let mut parts: Vec<serde_json::Value> = Vec::new();
    parts.push(selection.artifact.artifact_id.to_json());
    parts.push(selection.artifact.kind.to_json());
    proof {
        assert(json_contents(parts@) =~= seq![
            selection.artifact.artifact_id.json(),
            selection.artifact.kind.json(),
        ]);
    }
    json_list(parts)
}

/// The digest of what is selected, in its order.
pub fn manifest_input_hash(selections: &Vec<ContextSelection>) -> (r: Result<
    ContentHash,
    serde_json::Error,
>)
    ensures
        r is Ok,
        r->Ok_0@ == json_digest(selections_json(selections@)),
{
    let mut parts: Vec<serde_json::Value> = Vec::new();
    let mut i: usize = 0;
    while i < selections.len()
        invariant
            i <= selections.len(),
            parts.len() == i,
            forall|j: int|
                0 <= j < i ==> json_content(#[trigger] parts@[j]) == selection_json(selections@[j]),
        decreases selections.len() - i,
    {
        parts.push(selection_value(&selections[i]));
        i += 1;
    }
    proof {
        assert(json_contents(parts@) =~= selections@.map_values(
            |s: ContextSelection| selection_json(s),
        ));
    }
    content_hash_json(&json_list(parts))
}

/// Why something was selected, and what it costs, does not enter the digest; the order does.
pub proof fn input_hash_ignores_selection_metadata(
    a: Seq<ContextSelection>,
    b: Seq<ContextSelection>,
)
    requires
        a.len() == b.len(),
        forall|i: int| 0 <= i < a.len() ==> (#[trigger] a[i]).artifact@ == b[i].artifact@,
    ensures
        json_digest(selections_json(a)) == json_digest(selections_json(b)),
{
    let left = a.map_values(|s: ContextSelection| selection_json(s));
    let right = b.map_values(|s: ContextSelection| selection_json(s));
    assert forall|i: int| 0 <= i < left.len() implies #[trigger] left[i] == right[i] by {
        assert(a[i].artifact@ == b[i].artifact@);
        assert(left[i] == selection_json(a[i]));
        assert(right[i] == selection_json(b[i]));
        assert(selection_json(a[i])->List_0 =~= selection_json(b[i])->List_0);
    }
    assert(left =~= right);
}

/// The manifest of a context. Where the size of what the model sees is not given, it is that of
/// the sources.
#[derive(Debug, Clone, PartialEq, Eq)]
pub struct ContextManifestPayload {
    pub schema_version: u32,
    pub contract_hash: ContentHash,
    pub selections: Vec<ContextSelection>,
    pub quarantined: Vec<ContextQuarantine>,
    pub total_bytes: u64,
    pub projected_bytes: Option<u64>,
    pub estimated_tokens: u32,
    pub input_hash: ContentHash,
}

impl ToJson for ContextManifestPayload {
    open spec fn json(&self) -> JsonTree {
        let m = no_members();
        let m = m.insert("schema_version"@, self.schema_version.json());
        let m = m.insert("contract_hash"@, self.contract_hash.json());
        let m = m.insert("selections"@, self.selections.json());
        let m = m.insert("quarantined"@, self.quarantined.json());
        let m = m.insert("total_bytes"@, self.total_bytes.json());
        let m = m.insert("projected_bytes"@, self.projected_bytes.json());
        let m = m.insert("estimated_tokens"@, self.estimated_tokens.json());
        let m = m.insert("input_hash"@, self.input_hash.json());
        JsonTree::Object(m)
    }

    fn to_json(&self) -> (r: serde_json::Value) {
        let mut members = json_new_object();
        json_insert(&mut members, "schema_version", self.schema_version.to_json());
        json_insert(&mut members, "contract_hash", self.contract_hash.to_json());
        json_insert(&mut members, "selections", self.selections.to_json());
        json_insert(&mut members, "quarantined", self.quarantined.to_json());
        json_insert(&mut members, "total_bytes", self.total_bytes.to_json());
        json_insert(&mut members, "projected_bytes", self.projected_bytes.to_json());
        json_insert(&mut members, "estimated_tokens", self.estimated_tokens.to_json());
        json_insert(&mut members, "input_hash", self.input_hash.to_json());
        json_object(members)
    }
}

/// Evidence whose text nobody vouches for.
pub open spec fn is_evidence_text(kind: ArtifactKind) -> bool {
    kind is NormalizedEvidence || kind is SemanticDetail
}

fn has_evidence_text(kind: ArtifactKind) -> (r: bool)
    ensures
        r == is_evidence_text(kind),
{
    kind == ArtifactKind::NormalizedEvidence || kind == ArtifactKind::SemanticDetail
}

/// A selection is explained and permitted, and evidence is not trusted.
pub open spec fn selection_is_sound(selection: ContextSelection, policy: ContextPolicy) -> bool {
    &&& !blank(selection.reason@)
    &&& selection.estimated_tokens > 0
    &&& policy.permitted_kinds@.contains(selection.artifact.kind)
    &&& is_evidence_text(selection.artifact.kind) ==> selection.trust is UntrustedEvidence
}

/// Something was selected.
pub open spec fn is_selected(selections: Seq<ContextSelection>, artifact: RefView) -> bool {
    exists|i: int| 0 <= i < selections.len() && (#[trigger] selections[i]).artifact@ == artifact
}

/// One to eight short indicators.
pub open spec fn indicators_are_sound(indicators: Seq<String>) -> bool {
    &&& 0 < indicators.len() <= 8
    &&& forall|i: int|
        0 <= i < indicators.len() ==> !blank((#[trigger] indicators[i])@) && byte_len(
            indicators[i]@,
        ) <= 128
}

/// What is kept out is evidence, is not selected as well, and is kept out once.
pub open spec fn quarantine_is_sound(payload: ContextManifestPayload, i: int) -> bool {
    let own = payload.quarantined@[i];
    &&& is_evidence_text(own.artifact.kind)
    &&& !is_selected(payload.selections@, own.artifact@)
    &&& forall|j: int|
        0 <= j < i ==> (#[trigger] payload.quarantined@[j]).artifact@ != own.artifact@
    &&& indicators_are_sound(own.indicators@)
}

fn has_sound_indicators(indicators: &Vec<String>) -> (r: bool)
    ensures
        r == indicators_are_sound(indicators@),
{
    let sound = |indicator: &String| -> (b: bool)
        ensures
            b == (!blank(indicator@) && byte_len(indicator@) <= 128),
        { !is_blank(indicator) && byte_count(indicator) <= 128 };
    indicators.len() > 0 && indicators.len() <= 8 && all_of(indicators.as_slice(), sound)
}

impl ContextManifestPayload {
    /// How much of it the model sees.
    pub open spec fn visible_bytes(&self) -> u64 {
        match self.projected_bytes {
            Some(n) => n,
            None => self.total_bytes,
        }
    }

    pub open spec fn is_within(&self, policy: ContextPolicy) -> bool {
        &&& self.schema_version == DOMAIN_SCHEMA_VERSION
        &&& policy.min_artifacts <= self.selections@.len() <= policy.max_artifacts
        &&& self.total_bytes <= policy.source_limit()
        &&& self.visible_bytes() <= policy.max_bytes
        &&& self.estimated_tokens <= policy.max_tokens
    }

    pub open spec fn verdict(&self, policy: ContextPolicy) -> Verdict {
        first(
            demand(self.is_within(policy), budget("context_manifest"@)),
            first(
                demand(
                    forall|i: int|
                        0 <= i < self.selections@.len() ==> selection_is_sound(
                            #[trigger] self.selections@[i],
                            policy,
                        ),
                    empty("context_manifest.selection"@),
                ),
                demand(
                    forall|i: int|
                        0 <= i < self.quarantined@.len() ==> #[trigger] quarantine_is_sound(
                            *self,
                            i,
                        ),
                    empty("context_manifest.quarantine"@),
                ),
            ),
        )
    }

    fn is_selection(&self, artifact: &ArtifactRef) -> (r: bool)
        ensures
            r == is_selected(self.selections@, artifact@),
    {
        let same = |s: &ContextSelection| -> (b: bool)
            ensures
                b == (s.artifact@ == artifact@),
            { s.artifact.same(artifact) };
        any_of(self.selections.as_slice(), same)
    }

    fn is_kept_out_before(&self, i: usize) -> (r: bool)
        requires
            i < self.quarantined@.len(),
        ensures
            r == !(forall|j: int|
                0 <= j < i ==> (#[trigger] self.quarantined@[j]).artifact@
                    != self.quarantined@[i as int].artifact@),
    {
        let mut j: usize = 0;
        while j < i
            invariant
                j <= i < self.quarantined.len(),
                forall|k: int|
                    0 <= k < j ==> (#[trigger] self.quarantined@[k]).artifact@
                        != self.quarantined@[i as int].artifact@,
            decreases i - j,
        {
            if self.quarantined[j].artifact.same(&self.quarantined[i].artifact) {
                return true;
            }
            j += 1;
        }
        false
    }

    fn has_sound_quarantine(&self) -> (r: bool)
        ensures
            r == forall|i: int|
                0 <= i < self.quarantined@.len() ==> #[trigger] quarantine_is_sound(*self, i),
    {
        let mut i: usize = 0;
        while i < self.quarantined.len()
            invariant
                i <= self.quarantined.len(),
                forall|j: int| 0 <= j < i ==> #[trigger] quarantine_is_sound(*self, j),
            decreases self.quarantined.len() - i,
        {
            let own = &self.quarantined[i];
            let sound = has_evidence_text(own.artifact.kind) && !self.is_selection(&own.artifact)
                && !self.is_kept_out_before(i) && has_sound_indicators(&own.indicators);
            proof {
                assert(sound == quarantine_is_sound(*self, i as int));
            }
            if !sound {
                return false;
            }
            i += 1;
        }
        true
    }

    pub fn validate(&self, policy: &ContextPolicy) -> (r: Result<(), DomainError>)
        ensures
            outcome(r) == self.verdict(*policy),
    {
        let visible: u64 = match self.projected_bytes {
            Some(n) => n,
            None => self.total_bytes,
        };
        if self.schema_version != DOMAIN_SCHEMA_VERSION || self.selections.len()
            < policy.min_artifacts as usize || self.selections.len() > policy.max_artifacts as usize
            || self.total_bytes > policy.source_bytes() || visible > policy.max_bytes
            || self.estimated_tokens > policy.max_tokens {
            return Err(invalid_budget("context_manifest"));
        }
        let sound = |s: &ContextSelection| -> (b: bool)
            ensures
                b == selection_is_sound(*s, *policy),
            {
                !is_blank(&s.reason) && s.estimated_tokens > 0 && policy.permitted_kinds.contains(
                    &s.artifact.kind,
                ) && (!has_evidence_text(s.artifact.kind) || s.trust
                    == ContextTrust::UntrustedEvidence)
            };
        if !all_of(self.selections.as_slice(), sound) {
            return Err(empty_field("context_manifest.selection"));
        }
        if !self.has_sound_quarantine() {
            return Err(empty_field("context_manifest.quarantine"));
        }
        Ok(())
    }
}

/// Under a valid policy no raw evidence is selected, and evidence that is selected is not
/// trusted.
pub proof fn valid_manifest_has_no_raw_evidence(
    payload: ContextManifestPayload,
    policy: ContextPolicy,
    i: int,
)
    requires
        policy.verdict() is Ok,
        payload.verdict(policy) is Ok,
        0 <= i < payload.selections@.len(),
    ensures
        !(payload.selections@[i].artifact.kind is RawEvidence),
        is_evidence_text(payload.selections@[i].artifact.kind)
            ==> payload.selections@[i].trust is UntrustedEvidence,
{
    assert(selection_is_sound(payload.selections@[i], policy));
}

/// Nothing is both selected and kept out.
pub proof fn quarantined_evidence_is_not_selected(
    payload: ContextManifestPayload,
    policy: ContextPolicy,
    i: int,
    j: int,
)
    requires
        payload.verdict(policy) is Ok,
        0 <= i < payload.selections@.len(),
        0 <= j < payload.quarantined@.len(),
    ensures
        payload.selections@[i].artifact@ != payload.quarantined@[j].artifact@,
{
    assert(quarantine_is_sound(payload, j));
}

/// What of the context of a task its child may see. It carries references alone.
#[derive(Debug, Clone, PartialEq, Eq)]
pub struct ContextProjection {
    pub parent_manifest: ArtifactRef,
    pub allowed: Vec<ArtifactRef>,
    pub reason: String,
}

impl ContextProjection {
    /// A reference is not to raw evidence, and none before it has the same identity.
    pub open spec fn reference_is_sound(&self, i: int) -> bool {
        &&& !(self.allowed@[i].kind is RawEvidence)
        &&& forall|j: int|
            0 <= j < i ==> (#[trigger] self.allowed@[j]).artifact_id@
                != self.allowed@[i].artifact_id@
    }

    pub open spec fn verdict(&self) -> Verdict {
        first(
            demand(
                self.parent_manifest.kind is ContextManifest && !blank(self.reason@),
                empty("context_projection"@),
            ),
            demand(
                forall|i: int|
                    0 <= i < self.allowed@.len() ==> #[trigger] self.reference_is_sound(i),
                empty("context_projection.allowed"@),
            ),
        )
    }

    fn has_sound_reference(&self, i: usize) -> (r: bool)
        requires
            i < self.allowed@.len(),
        ensures
            r == self.reference_is_sound(i as int),
    {
        let mut j: usize = 0;
        while j < i
            invariant
                j <= i < self.allowed.len(),
                forall|k: int|
                    0 <= k < j ==> (#[trigger] self.allowed@[k]).artifact_id@
                        != self.allowed@[i as int].artifact_id@,
            decreases i - j,
        {
            if self.allowed[j].artifact_id.same(&self.allowed[i].artifact_id) {
                return false;
            }
            j += 1;
        }
        self.allowed[i].kind != ArtifactKind::RawEvidence
    }

    pub fn validate(&self) -> (r: Result<(), DomainError>)
        ensures
            outcome(r) == self.verdict(),
    {
        if self.parent_manifest.kind != ArtifactKind::ContextManifest || is_blank(&self.reason) {
            return Err(empty_field("context_projection"));
        }
        let mut i: usize = 0;
        while i < self.allowed.len()
            invariant
                i <= self.allowed.len(),
                self.parent_manifest.kind is ContextManifest && !blank(self.reason@),
                forall|j: int| 0 <= j < i ==> #[trigger] self.reference_is_sound(j),
            decreases self.allowed.len() - i,
        {
            if !self.has_sound_reference(i) {
                return Err(empty_field("context_projection.allowed"));
            }
            i += 1;
        }
        Ok(())
    }
}

/// What one attempt may read, until it expires.
#[derive(Debug, Clone, PartialEq, Eq)]
pub struct ReadGrant {
    pub manifest_artifact_id: ArtifactId,
    pub run_id: RunId,
    pub task_id: TaskId,
    pub attempt_id: AttemptId,
    pub lease_id: LeaseId,
    pub epoch: u64,
    pub contract_hash: ContentHash,
    pub readable: OrderedSet<ArtifactId>,
    pub raw_source_closure: OrderedSet<ArtifactId>,
    pub expires_at: UtcTime,
}

impl ReadGrant {
    /// The grant goes with the same attempt, under the same contract, as the permit.
    pub open spec fn goes_with(&self, permit: TaskWritePermit) -> bool {
        &&& self.run_id@ == permit.run_id@
        &&& self.task_id@ == permit.task_id@
        &&& self.attempt_id@ == permit.attempt_id@
        &&& self.lease_id@ == permit.lease_id@
        &&& self.epoch == permit.epoch
        &&& permit.contract_hash matches Some(hash) && hash@ == self.contract_hash@
    }

    pub fn matches_permit(&self, permit: &TaskWritePermit) -> (r: bool)
        ensures
            r == self.goes_with(*permit),
    {
        let same_contract = match &permit.contract_hash {
            Some(hash) => hash.same(&self.contract_hash),
            None => false,
        };
        same_text(&self.run_id.0, &permit.run_id.0) && same_text(
            &self.task_id.0,
            &permit.task_id.0,
        ) && same_text(&self.attempt_id.0, &permit.attempt_id.0) && same_text(
            &self.lease_id.0,
            &permit.lease_id.0,
        ) && self.epoch == permit.epoch && same_contract
    }

    /// What may be read at a time: raw sources and all else apart.
    pub open spec fn admits(&self, artifact: Seq<char>, raw: bool, now: UtcTime) -> bool {
        &&& earlier(now, self.expires_at)
        &&& if raw {
            self.raw_source_closure@.contains(artifact)
        } else {
            self.readable@.contains(artifact)
        }
    }

    pub fn permits(&self, artifact_id: &ArtifactId, raw: bool, now: UtcTime) -> (r: bool)
        ensures
            r == self.admits(artifact_id@, raw, now),
    {
        now.is_before(&self.expires_at) && if raw {
            self.raw_source_closure.contains(artifact_id)
        } else {
            self.readable.contains(artifact_id)
        }
    }
}

/// From the instant of its expiry on, a grant admits nothing.
pub proof fn expired_grant_admits_nothing(
    grant: ReadGrant,
    artifact: Seq<char>,
    raw: bool,
    now: UtcTime,
)
    requires
        !earlier(now, grant.expires_at),
    ensures
        !grant.admits(artifact, raw, now),
{
}

/// A grant that goes with the permits of two attempts goes with one attempt.
pub proof fn grant_goes_with_one_attempt(grant: ReadGrant, a: TaskWritePermit, b: TaskWritePermit)
    requires
        grant.goes_with(a),
        grant.goes_with(b),
    ensures
        a.attempt_id@ == b.attempt_id@,
        a.lease_id@ == b.lease_id@,
        a.epoch == b.epoch,
{
}

/// What a task may read under a contract, until it expires.
#[derive(Debug, Clone, PartialEq, Eq)]
pub struct ContextGrant {
    pub manifest_artifact_id: ArtifactId,
    pub contract_hash: ContentHash,
    pub readable: OrderedSet<ArtifactId>,
    pub raw_source_closure: OrderedSet<ArtifactId>,
    pub expires_at: UtcTime,
}

impl ContextGrant {
    /// What may be read up to the instant of expiry: raw sources and all else apart.
    /// What may be read up to and at the expiry: raw sources and all else apart.
    pub open spec fn admits(&self, artifact: Seq<char>, raw: bool, now: UtcTime) -> bool {
        &&& !earlier(self.expires_at, now)
        &&& if raw {
            self.raw_source_closure@.contains(artifact)
        } else {
            self.readable@.contains(artifact)
        }
    }

    pub fn permits(&self, artifact_id: &ArtifactId, raw: bool, now: UtcTime) -> (r: bool)
        ensures
            r == self.admits(artifact_id@, raw, now),
    {
        !self.expires_at.is_before(&now) && if raw {
            self.raw_source_closure.contains(artifact_id)
        } else {
            self.readable.contains(artifact_id)
        }
    }
}

/// The permit of one running attempt to write.
#[derive(Debug, Clone, PartialEq, Eq)]
pub struct TaskWritePermit {
    pub run_id: RunId,
    pub task_id: TaskId,
    pub attempt_id: AttemptId,
    pub lease_id: LeaseId,
    pub epoch: u64,
    pub contract_hash: Option<ContentHash>,
}

impl TaskWritePermit {
    /// Where what the attempt writes comes from.
    pub fn artifact_origin(&self) -> (r: ArtifactOrigin)
        ensures
            r.run_id == Some(self.run_id),
            r.task_id == Some(self.task_id),
            r.attempt_id == Some(self.attempt_id),
            match self.contract_hash {
                Some(hash) => r.contract_hash matches Some(own) && own@ == hash@,
                None => r.contract_hash is None,
            },
    {
        ArtifactOrigin {
            run_id: Some(self.run_id.clone()),
            task_id: Some(self.task_id.clone()),
            attempt_id: Some(self.attempt_id.clone()),
            contract_hash: match &self.contract_hash {
                Some(hash) => Some(hash.clone()),
                None => None,
            },
        }
    }
}

/// What an attempt writes names the attempt with its task: such an origin is valid.
pub proof fn origin_of_a_permit_is_valid(permit: TaskWritePermit, origin: ArtifactOrigin)
    requires
        origin.run_id == Some(permit.run_id),
        origin.task_id == Some(permit.task_id),
        origin.attempt_id == Some(permit.attempt_id),
    ensures
        origin.verdict() is Ok,
{
}

/// What a context manifest payload is refused with: the first fault that it has.
pub proof fn refusal_of_context_manifest_payload_names_its_fault(
    this: ContextManifestPayload,
    policy: ContextPolicy,
)
    ensures
        !(this.is_within(policy))
            ==> this.verdict(policy) == Verdict::Err(budget("context_manifest"@)),
        (this.is_within(policy)) && !(forall|i: int| 0 <= i < this.selections@.len()
            ==> selection_is_sound(#[trigger] this.selections@[i], policy))
            ==> this.verdict(policy) == Verdict::Err(empty("context_manifest.selection"@)),
        (this.is_within(policy)) && (forall|i: int| 0 <= i < this.selections@.len()
            ==> selection_is_sound(#[trigger] this.selections@[i], policy))
            && !(forall|i: int| 0 <= i < this.quarantined@.len()
            ==> #[trigger] quarantine_is_sound(this, i))
            ==> this.verdict(policy) == Verdict::Err(empty("context_manifest.quarantine"@)),
{
}

/// What a context projection is refused with: the first fault that it has.
pub proof fn refusal_of_context_projection_names_its_fault(this: ContextProjection)
    ensures
        !(this.parent_manifest.kind is ContextManifest && !blank(this.reason@))
            ==> this.verdict() == Verdict::Err(empty("context_projection"@)),
        (this.parent_manifest.kind is ContextManifest && !blank(this.reason@))
            && !(forall|i: int| 0 <= i < this.allowed@.len()
            ==> #[trigger] this.reference_is_sound(i))
            ==> this.verdict() == Verdict::Err(empty("context_projection.allowed"@)),
{
}

} // verus!
