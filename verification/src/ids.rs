//! Identifiers of records that are not named by their content.
use crate::foundation::{fresh_id, is_fresh_id};
use crate::json::{json_text, JsonTree, ToJson};
use crate::ordered::{Key, Rank};
use crate::text::{rank_texts, text_code, text_code_is_injective};
use vstd::prelude::*;

verus! {

#[derive(Debug, PartialEq, Eq, PartialOrd, Ord, Hash)]
pub struct ExperienceId(pub String);

impl View for ExperienceId {
    type V = Seq<char>;

    open spec fn view(&self) -> Seq<char> {
        self.0@
    }
}

impl Clone for ExperienceId {
    fn clone(&self) -> (r: Self)
        ensures
            r == *self,
    {
        ExperienceId(self.0.clone())
    }
}

impl ExperienceId {
    /// A new identifier: the first sixteen digits of a random UUID.
    pub fn new() -> (r: Self)
        ensures
            is_fresh_id(r@),
    {
        ExperienceId(fresh_id())
    }
}

impl Default for ExperienceId {
    fn default() -> (r: Self)
        ensures
            is_fresh_id(r@),
    {
        Self::new()
    }
}

impl Key for ExperienceId {
    open spec fn code(key: Seq<char>) -> Seq<int> {
        text_code(key)
    }

    proof fn code_is_injective(a: Seq<char>, b: Seq<char>) {
        text_code_is_injective(a, b);
    }

    fn rank(&self, other: &Self) -> (r: Rank) {
        rank_texts(&self.0, &other.0)
    }

    fn duplicate(&self) -> (r: Self) {
        self.clone()
    }
}

impl ToJson for ExperienceId {
    open spec fn json(&self) -> JsonTree {
        JsonTree::Text(self@)
    }

    fn to_json(&self) -> (r: serde_json::Value) {
        json_text(&self.0)
    }
}

#[derive(Debug, PartialEq, Eq, PartialOrd, Ord, Hash)]
pub struct OutcomeId(pub String);

impl View for OutcomeId {
    type V = Seq<char>;

    open spec fn view(&self) -> Seq<char> {
        self.0@
    }
}

impl Clone for OutcomeId {
    fn clone(&self) -> (r: Self)
        ensures
            r == *self,
    {
        OutcomeId(self.0.clone())
    }
}

impl OutcomeId {
    /// A new identifier: the first sixteen digits of a random UUID.
    pub fn new() -> (r: Self)
        ensures
            is_fresh_id(r@),
    {
        OutcomeId(fresh_id())
    }
}

impl Default for OutcomeId {
    fn default() -> (r: Self)
        ensures
            is_fresh_id(r@),
    {
        Self::new()
    }
}

impl Key for OutcomeId {
    open spec fn code(key: Seq<char>) -> Seq<int> {
        text_code(key)
    }

    proof fn code_is_injective(a: Seq<char>, b: Seq<char>) {
        text_code_is_injective(a, b);
    }

    fn rank(&self, other: &Self) -> (r: Rank) {
        rank_texts(&self.0, &other.0)
    }

    fn duplicate(&self) -> (r: Self) {
        self.clone()
    }
}

impl ToJson for OutcomeId {
    open spec fn json(&self) -> JsonTree {
        JsonTree::Text(self@)
    }

    fn to_json(&self) -> (r: serde_json::Value) {
        json_text(&self.0)
    }
}

#[derive(Debug, PartialEq, Eq, PartialOrd, Ord, Hash)]
pub struct EvaluationId(pub String);

impl View for EvaluationId {
    type V = Seq<char>;

    open spec fn view(&self) -> Seq<char> {
        self.0@
    }
}

impl Clone for EvaluationId {
    fn clone(&self) -> (r: Self)
        ensures
            r == *self,
    {
        EvaluationId(self.0.clone())
    }
}

impl EvaluationId {
    /// A new identifier: the first sixteen digits of a random UUID.
    pub fn new() -> (r: Self)
        ensures
            is_fresh_id(r@),
    {
        EvaluationId(fresh_id())
    }
}

impl Default for EvaluationId {
    fn default() -> (r: Self)
        ensures
            is_fresh_id(r@),
    {
        Self::new()
    }
}

impl Key for EvaluationId {
    open spec fn code(key: Seq<char>) -> Seq<int> {
        text_code(key)
    }

    proof fn code_is_injective(a: Seq<char>, b: Seq<char>) {
        text_code_is_injective(a, b);
    }

    fn rank(&self, other: &Self) -> (r: Rank) {
        rank_texts(&self.0, &other.0)
    }

    fn duplicate(&self) -> (r: Self) {
        self.clone()
    }
}

impl ToJson for EvaluationId {
    open spec fn json(&self) -> JsonTree {
        JsonTree::Text(self@)
    }

    fn to_json(&self) -> (r: serde_json::Value) {
        json_text(&self.0)
    }
}

#[derive(Debug, PartialEq, Eq, PartialOrd, Ord, Hash)]
pub struct PolicyTransitionId(pub String);

impl View for PolicyTransitionId {
    type V = Seq<char>;

    open spec fn view(&self) -> Seq<char> {
        self.0@
    }
}

impl Clone for PolicyTransitionId {
    fn clone(&self) -> (r: Self)
        ensures
            r == *self,
    {
        PolicyTransitionId(self.0.clone())
    }
}

impl PolicyTransitionId {
    /// A new identifier: the first sixteen digits of a random UUID.
    pub fn new() -> (r: Self)
        ensures
            is_fresh_id(r@),
    {
        PolicyTransitionId(fresh_id())
    }
}

impl Default for PolicyTransitionId {
    fn default() -> (r: Self)
        ensures
            is_fresh_id(r@),
    {
        Self::new()
    }
}

impl Key for PolicyTransitionId {
    open spec fn code(key: Seq<char>) -> Seq<int> {
        text_code(key)
    }

    proof fn code_is_injective(a: Seq<char>, b: Seq<char>) {
        text_code_is_injective(a, b);
    }

    fn rank(&self, other: &Self) -> (r: Rank) {
        rank_texts(&self.0, &other.0)
    }

    fn duplicate(&self) -> (r: Self) {
        self.clone()
    }
}

impl ToJson for PolicyTransitionId {
    open spec fn json(&self) -> JsonTree {
        JsonTree::Text(self@)
    }

    fn to_json(&self) -> (r: serde_json::Value) {
        json_text(&self.0)
    }
}

#[derive(Debug, PartialEq, Eq, PartialOrd, Ord, Hash)]
pub struct LessonId(pub String);

impl View for LessonId {
    type V = Seq<char>;

    open spec fn view(&self) -> Seq<char> {
        self.0@
    }
}

impl Clone for LessonId {
    fn clone(&self) -> (r: Self)
        ensures
            r == *self,
    {
        LessonId(self.0.clone())
    }
}

impl LessonId {
    /// A new identifier: the first sixteen digits of a random UUID.
    pub fn new() -> (r: Self)
        ensures
            is_fresh_id(r@),
    {
        LessonId(fresh_id())
    }
}

impl Default for LessonId {
    fn default() -> (r: Self)
        ensures
            is_fresh_id(r@),
    {
        Self::new()
    }
}

impl Key for LessonId {
    open spec fn code(key: Seq<char>) -> Seq<int> {
        text_code(key)
    }

    proof fn code_is_injective(a: Seq<char>, b: Seq<char>) {
        text_code_is_injective(a, b);
    }

    fn rank(&self, other: &Self) -> (r: Rank) {
        rank_texts(&self.0, &other.0)
    }

    fn duplicate(&self) -> (r: Self) {
        self.clone()
    }
}

impl ToJson for LessonId {
    open spec fn json(&self) -> JsonTree {
        JsonTree::Text(self@)
    }

    fn to_json(&self) -> (r: serde_json::Value) {
        json_text(&self.0)
    }
}

#[derive(Debug, PartialEq, Eq, PartialOrd, Ord, Hash)]
pub struct PaperCommitmentId(pub String);

impl View for PaperCommitmentId {
    type V = Seq<char>;

    open spec fn view(&self) -> Seq<char> {
        self.0@
    }
}

impl Clone for PaperCommitmentId {
    fn clone(&self) -> (r: Self)
        ensures
            r == *self,
    {
        PaperCommitmentId(self.0.clone())
    }
}

impl PaperCommitmentId {
    /// A new identifier: the first sixteen digits of a random UUID.
    pub fn new() -> (r: Self)
        ensures
            is_fresh_id(r@),
    {
        PaperCommitmentId(fresh_id())
    }
}

impl Default for PaperCommitmentId {
    fn default() -> (r: Self)
        ensures
            is_fresh_id(r@),
    {
        Self::new()
    }
}

impl Key for PaperCommitmentId {
    open spec fn code(key: Seq<char>) -> Seq<int> {
        text_code(key)
    }

    proof fn code_is_injective(a: Seq<char>, b: Seq<char>) {
        text_code_is_injective(a, b);
    }

    fn rank(&self, other: &Self) -> (r: Rank) {
        rank_texts(&self.0, &other.0)
    }

    fn duplicate(&self) -> (r: Self) {
        self.clone()
    }
}

impl ToJson for PaperCommitmentId {
    open spec fn json(&self) -> JsonTree {
        JsonTree::Text(self@)
    }

    fn to_json(&self) -> (r: serde_json::Value) {
        json_text(&self.0)
    }
}

#[derive(Debug, PartialEq, Eq, PartialOrd, Ord, Hash)]
pub struct PaperCancelId(pub String);

impl View for PaperCancelId {
    type V = Seq<char>;

    open spec fn view(&self) -> Seq<char> {
        self.0@
    }
}

impl Clone for PaperCancelId {
    fn clone(&self) -> (r: Self)
        ensures
            r == *self,
    {
        PaperCancelId(self.0.clone())
    }
}

impl PaperCancelId {
    /// A new identifier: the first sixteen digits of a random UUID.
    pub fn new() -> (r: Self)
        ensures
            is_fresh_id(r@),
    {
        PaperCancelId(fresh_id())
    }
}

impl Default for PaperCancelId {
    fn default() -> (r: Self)
        ensures
            is_fresh_id(r@),
    {
        Self::new()
    }
}

impl Key for PaperCancelId {
    open spec fn code(key: Seq<char>) -> Seq<int> {
        text_code(key)
    }

    proof fn code_is_injective(a: Seq<char>, b: Seq<char>) {
        text_code_is_injective(a, b);
    }

    fn rank(&self, other: &Self) -> (r: Rank) {
        rank_texts(&self.0, &other.0)
    }

    fn duplicate(&self) -> (r: Self) {
        self.clone()
    }
}

impl ToJson for PaperCancelId {
    open spec fn json(&self) -> JsonTree {
        JsonTree::Text(self@)
    }

    fn to_json(&self) -> (r: serde_json::Value) {
        json_text(&self.0)
    }
}

#[derive(Debug, PartialEq, Eq, PartialOrd, Ord, Hash)]
pub struct PaperRepriceId(pub String);

impl View for PaperRepriceId {
    type V = Seq<char>;

    open spec fn view(&self) -> Seq<char> {
        self.0@
    }
}

impl Clone for PaperRepriceId {
    fn clone(&self) -> (r: Self)
        ensures
            r == *self,
    {
        PaperRepriceId(self.0.clone())
    }
}

impl PaperRepriceId {
    /// A new identifier: the first sixteen digits of a random UUID.
    pub fn new() -> (r: Self)
        ensures
            is_fresh_id(r@),
    {
        PaperRepriceId(fresh_id())
    }
}

impl Default for PaperRepriceId {
    fn default() -> (r: Self)
        ensures
            is_fresh_id(r@),
    {
        Self::new()
    }
}

impl Key for PaperRepriceId {
    open spec fn code(key: Seq<char>) -> Seq<int> {
        text_code(key)
    }

    proof fn code_is_injective(a: Seq<char>, b: Seq<char>) {
        text_code_is_injective(a, b);
    }

    fn rank(&self, other: &Self) -> (r: Rank) {
        rank_texts(&self.0, &other.0)
    }

    fn duplicate(&self) -> (r: Self) {
        self.clone()
    }
}

impl ToJson for PaperRepriceId {
    open spec fn json(&self) -> JsonTree {
        JsonTree::Text(self@)
    }

    fn to_json(&self) -> (r: serde_json::Value) {
        json_text(&self.0)
    }
}

#[derive(Debug, PartialEq, Eq, PartialOrd, Ord, Hash)]
pub struct ReconciliationId(pub String);

impl View for ReconciliationId {
    type V = Seq<char>;

    open spec fn view(&self) -> Seq<char> {
        self.0@
    }
}

impl Clone for ReconciliationId {
    fn clone(&self) -> (r: Self)
        ensures
            r == *self,
    {
        ReconciliationId(self.0.clone())
    }
}

impl ReconciliationId {
    /// A new identifier: the first sixteen digits of a random UUID.
    pub fn new() -> (r: Self)
        ensures
            is_fresh_id(r@),
    {
        ReconciliationId(fresh_id())
    }
}

impl Default for ReconciliationId {
    fn default() -> (r: Self)
        ensures
            is_fresh_id(r@),
    {
        Self::new()
    }
}

impl Key for ReconciliationId {
    open spec fn code(key: Seq<char>) -> Seq<int> {
        text_code(key)
    }

    proof fn code_is_injective(a: Seq<char>, b: Seq<char>) {
        text_code_is_injective(a, b);
    }

    fn rank(&self, other: &Self) -> (r: Rank) {
        rank_texts(&self.0, &other.0)
    }

    fn duplicate(&self) -> (r: Self) {
        self.clone()
    }
}

impl ToJson for ReconciliationId {
    open spec fn json(&self) -> JsonTree {
        JsonTree::Text(self@)
    }

    fn to_json(&self) -> (r: serde_json::Value) {
        json_text(&self.0)
    }
}

#[derive(Debug, PartialEq, Eq, PartialOrd, Ord, Hash)]
pub struct EventId(pub String);

impl View for EventId {
    type V = Seq<char>;

    open spec fn view(&self) -> Seq<char> {
        self.0@
    }
}

impl Clone for EventId {
    fn clone(&self) -> (r: Self)
        ensures
            r == *self,
    {
        EventId(self.0.clone())
    }
}

impl EventId {
    /// A new identifier: the first sixteen digits of a random UUID.
    pub fn new() -> (r: Self)
        ensures
            is_fresh_id(r@),
    {
        EventId(fresh_id())
    }
}

impl Default for EventId {
    fn default() -> (r: Self)
        ensures
            is_fresh_id(r@),
    {
        Self::new()
    }
}

impl Key for EventId {
    open spec fn code(key: Seq<char>) -> Seq<int> {
        text_code(key)
    }

    proof fn code_is_injective(a: Seq<char>, b: Seq<char>) {
        text_code_is_injective(a, b);
    }

    fn rank(&self, other: &Self) -> (r: Rank) {
        rank_texts(&self.0, &other.0)
    }

    fn duplicate(&self) -> (r: Self) {
        self.clone()
    }
}

impl ToJson for EventId {
    open spec fn json(&self) -> JsonTree {
        JsonTree::Text(self@)
    }

    fn to_json(&self) -> (r: serde_json::Value) {
        json_text(&self.0)
    }
}

} // verus!
