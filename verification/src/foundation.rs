//! The scalar types that every other module builds on: assets, weights, money, content
//! hashes, identifiers, task budgets and the states of runs and tasks.
use crate::budget::ToolCallLimit;
use crate::error::{budget, demand, empty_field, first, invalid_budget, outcome, DomainError, ErrorView, Verdict};
use crate::json::{
    json_bytes, json_content, json_insert, json_new_object, json_object, json_text, json_to_vec,
    no_members, JsonItem, JsonKey, JsonTree, ToJson,
};
use crate::ordered::{rank_numbers, Key, OrderedMap, Rank};
use crate::text::{
    blank, chars_of, is_blank, rank_texts, same_text, text_code, text_code_is_injective, trim,
    trimmed, uppercased,
};
use vstd::prelude::*;

verus! {

/// A security that orders may name.
#[derive(Clone, Copy, Debug, PartialEq, Eq, PartialOrd, Ord, Hash, Structural)]
pub enum Asset {
    Tqqq,
    Qqq,
    Soxx,
    Soxl,
}

impl Asset {
    /// The name of the variant in JSON.
    pub open spec fn wire(self) -> Seq<char> {
        match self {
            Asset::Tqqq => "TQQQ"@,
            Asset::Qqq => "QQQ"@,
            Asset::Soxx => "SOXX"@,
            Asset::Soxl => "SOXL"@,
        }
    }

    /// The name of the variant in JSON.
    pub fn wire_name(self) -> (r: &'static str)
        ensures
            r@ == self.wire(),
    {
        match self {
            Asset::Tqqq => "TQQQ",
            Asset::Qqq => "QQQ",
            Asset::Soxx => "SOXX",
            Asset::Soxl => "SOXL",
        }
    }
}

impl ToJson for Asset {
    open spec fn json(&self) -> JsonTree {
        JsonTree::Text(self.wire())
    }

    fn to_json(&self) -> (r: serde_json::Value) {
        json_text(self.wire_name())
    }
}

impl View for Asset {
    type V = Asset;

    open spec fn view(&self) -> Asset {
        *self
    }
}

impl Asset {
    /// Where the variant stands in the order.
    pub open spec fn place(self) -> u32 {
        match self {
            Asset::Tqqq => 0,
            Asset::Qqq => 1,
            Asset::Soxx => 2,
            Asset::Soxl => 3,
        }
    }

    pub(crate) fn place_number(self) -> (r: u32)
        ensures
            r == self.place(),
    {
        match self {
            Asset::Tqqq => 0,
            Asset::Qqq => 1,
            Asset::Soxx => 2,
            Asset::Soxl => 3,
        }
    }
}

impl Key for Asset {
    open spec fn code(key: Asset) -> Seq<int> {
        seq![key.place() as int]
    }

    proof fn code_is_injective(a: Asset, b: Asset) {
        assert(Self::code(a)[0] == a.place() as int && Self::code(b)[0] == b.place() as int);
    }

    fn rank(&self, other: &Self) -> (r: Rank) {
        rank_numbers((*self).place_number(), (*other).place_number())
    }

    fn duplicate(&self) -> (r: Self) {
        *self
    }
}

impl JsonItem for Asset {
    open spec fn item_json(key: Asset) -> JsonTree {
        JsonTree::Text(key.wire())
    }

    fn to_item_json(&self) -> (r: serde_json::Value) {
        json_text((*self).wire_name())
    }
}

impl JsonKey for Asset {
    open spec fn key_text(key: Asset) -> Seq<char> {
        key.wire()
    }

    fn to_key_text(&self) -> (r: String) {
        (*self).wire_name().to_owned()
    }
}

impl Asset {
    pub const EXECUTABLE: [Asset; 4] = [Asset::Tqqq, Asset::Qqq, Asset::Soxx, Asset::Soxl];

    pub fn symbol(self) -> (r: &'static str)
        ensures
            r@ == self.wire(),
    {
        self.wire_name()
    }

    /// The asset that a text names, in either case and with white space around it.
    pub open spec fn named(text: Seq<char>) -> Option<Asset> {
        let name = uppercased(trimmed(text));
        if name == "TQQQ"@ {
            Some(Asset::Tqqq)
        } else if name == "QQQ"@ {
            Some(Asset::Qqq)
        } else if name == "SOXX"@ {
            Some(Asset::Soxx)
        } else if name == "SOXL"@ {
            Some(Asset::Soxl)
        } else {
            None
        }
    }

    pub fn try_from(value: &str) -> (r: Result<Asset, DomainError>)
        ensures
            r matches Ok(asset) ==> Asset::named(value@) == Some(asset),
            r matches Err(e) ==> Asset::named(value@) is None && e@ == ErrorView::UnsupportedAsset(
                uppercased(trimmed(value@)),
            ),
    {
        let name = trim(value).as_str().to_ascii_uppercase();
        if same_text(&name, "TQQQ") {
            Ok(Asset::Tqqq)
        } else if same_text(&name, "QQQ") {
            Ok(Asset::Qqq)
        } else if same_text(&name, "SOXX") {
            Ok(Asset::Soxx)
        } else if same_text(&name, "SOXL") {
            Ok(Asset::Soxl)
        } else {
            Err(DomainError::UnsupportedAsset(name))
        }
    }
}

/// An asset is named by its own symbol.
pub proof fn symbol_names_its_asset(asset: Asset)
    ensures
        Asset::named(asset.wire()) == Some(asset),
{
    reveal_strlit("TQQQ");
    reveal_strlit("QQQ");
    reveal_strlit("SOXX");
    reveal_strlit("SOXL");
    let s = asset.wire();
    assert(crate::text::without_leading(s) == s);
    assert(crate::text::without_trailing(s) == s);
    assert(uppercased(s) =~= s);
    assert("QQQ"@.len() == 3 && "TQQQ"@.len() == 4 && "SOXX"@.len() == 4 && "SOXL"@.len() == 4);
    assert("TQQQ"@[0] == 'T' && "SOXX"@[0] == 'S' && "SOXL"@[0] == 'S');
    assert("SOXX"@[3] == 'X' && "SOXL"@[3] == 'L');
}

/// A portfolio weight in parts per million.
#[derive(Clone, Copy, Debug, PartialEq, Eq, PartialOrd, Ord, Hash, Structural)]
pub struct WeightPpm(pub u32);

impl WeightPpm {
    pub const SCALE: u32 = 1_000_000;
}

impl ToJson for WeightPpm {
    open spec fn json(&self) -> JsonTree {
        self.0.json()
    }

    fn to_json(&self) -> (r: serde_json::Value) {
        self.0.to_json()
    }
}

/// Signed money in millionths of a dollar.
#[derive(Clone, Copy, Debug, PartialEq, Eq, PartialOrd, Ord, Hash, Structural)]
pub struct MoneyMicros(pub i64);

impl MoneyMicros {
    /// The millionths that a number of cents is, or the nearest that can be held.
    pub open spec fn of_cents(cents: int) -> int {
        clamped(cents * 10_000, i64::MIN as int, i64::MAX as int)
    }

    /// The money that a number of cents is, or the nearest that can be held.
    pub fn from_usd_cents(cents: i64) -> (r: MoneyMicros)
        ensures
            r.0 == Self::of_cents(cents as int),
    {
        match cents.checked_mul(10_000) {
            Some(value) => MoneyMicros(value),
            None => if cents > 0 {
                MoneyMicros(i64::MAX)
            } else {
                MoneyMicros(i64::MIN)
            },
        }
    }
}

impl ToJson for MoneyMicros {
    open spec fn json(&self) -> JsonTree {
        self.0.json()
    }

    fn to_json(&self) -> (r: serde_json::Value) {
        self.0.to_json()
    }
}

/// The number of a range that is nearest to `x`.
pub open spec fn clamped(x: int, low: int, high: int) -> int {
    if x < low {
        low
    } else if x > high {
        high
    } else {
        x
    }
}

/// Only digits and the letters `a` to `f`.
pub open spec fn lower_hex(s: Seq<char>) -> bool {
    forall|i: int| 0 <= i < s.len() ==> '0' <= #[trigger] s[i] <= '9' || 'a' <= s[i] <= 'f'
}

/// The text of a SHA-256 digest.
pub open spec fn is_digest(s: Seq<char>) -> bool {
    s.len() == 64 && lower_hex(s)
}

/// The SHA-256 digest of some bytes in lower-case hexadecimal.
pub uninterp spec fn sha256_text(bytes: Seq<u8>) -> Seq<char>;

/// The digest of the encoding of a JSON value.
pub open spec fn json_digest(tree: JsonTree) -> Seq<char> {
    sha256_text(json_bytes(tree))
}

/// `sha2::Sha256::digest`, written in lower-case hexadecimal: two digits for each of the
/// thirty-two bytes. Which digest it is for given bytes is named.
#[verifier::external_body]
fn sha256_hex(bytes: &[u8]) -> (r: String)
    ensures
        r@ == sha256_text(bytes@),
        is_digest(r@),
{
    format!("{:x}", <sha2::Sha256 as sha2::Digest>::digest(bytes))
}

/// The digits of a random UUID: thirty-two in lower-case hexadecimal, of which the thirteenth
/// tells its version and the seventeenth its variant.
pub open spec fn is_random_uuid(s: Seq<char>) -> bool {
    &&& s.len() == 32
    &&& lower_hex(s)
    &&& s[12] == '4'
    &&& s[16] == '8' || s[16] == '9' || s[16] == 'a' || s[16] == 'b'
}

/// The first sixteen digits of a random UUID.
pub open spec fn is_fresh_id(s: Seq<char>) -> bool {
    &&& s.len() == 16
    &&& lower_hex(s)
    &&& s[12] == '4'
    &&& exists|digits: Seq<char>| #[trigger] is_random_uuid(digits) && s == digits.take(16)
}

/// `uuid::Uuid::new_v4` in its simple form: thirty-two lower-case hexadecimal digits, with the
/// marks of version four and of its variant where the crate sets them. The other digits are
/// random, so nothing more is said of them.
#[verifier::external_body]
fn random_digits() -> (r: String)
    ensures
        is_random_uuid(r@),
{
    uuid::Uuid::new_v4().simple().to_string()
}

/// The identifier that is cut from drawn digits: the first sixteen of them.
pub fn id_of_digits(digits: &str) -> (r: String)
    requires
        digits@.len() >= 16,
    ensures
        r@ == digits@.take(16),
{
    digits.substring_char(0, 16).to_owned()
}

/// A new identifier, cut from the digits of a random UUID.
pub fn fresh_id() -> (r: String)
    ensures
        is_fresh_id(r@),
{
    let digits = random_digits();
    proof {
        assert forall|i: int| 0 <= i < 16 implies digits@.take(16)[i] == digits@[i] by {}
    }
    id_of_digits(&digits)
}

/// A content hash: the text of a SHA-256 digest.
#[derive(Debug, PartialEq, Eq, PartialOrd, Ord, Hash)]
pub struct ContentHash(String);

impl View for ContentHash {
    type V = Seq<char>;

    closed spec fn view(&self) -> Seq<char> {
        self.0@
    }
}

impl Clone for ContentHash {
    fn clone(&self) -> (r: Self)
        ensures
            r == *self,
    {
        ContentHash(self.0.clone())
    }
}

impl ContentHash {
    pub fn new(value: &str) -> (r: Result<ContentHash, DomainError>)
        ensures
            r is Ok <==> is_digest(value@),
            r matches Ok(hash) ==> hash@ == value@,
            r matches Err(e) ==> e@ == ErrorView::InvalidContentHash,
    {
        let chars = chars_of(value);
        if chars.len() != 64 {
            return Err(DomainError::InvalidContentHash);
        }
        let mut i: usize = 0;
        while i < chars.len()
            invariant
                i <= chars.len(),
                chars@ == value@,
                forall|j: int|
                    0 <= j < i ==> '0' <= #[trigger] value@[j] <= '9' || 'a' <= value@[j] <= 'f',
            decreases chars.len() - i,
        {
            let c = chars[i];
            if !(('0' <= c && c <= '9') || ('a' <= c && c <= 'f')) {
                proof {
                    assert(value@[i as int] == c);
                }
                return Err(DomainError::InvalidContentHash);
            }
            i += 1;
        }
        Ok(ContentHash(value.to_owned()))
    }

    /// The hash that a stored text stands for, taken as it is.
    pub fn from_stored(value: String) -> (r: ContentHash)
        ensures
            r@ == value@,
    {
        ContentHash(value)
    }

    pub fn of_bytes(bytes: &[u8]) -> (r: ContentHash)
        ensures
            r@ == sha256_text(bytes@),
            is_digest(r@),
    {
        ContentHash(sha256_hex(bytes))
    }

    pub fn as_str(&self) -> (r: &str)
        ensures
            r@ == self@,
    {
        &self.0
    }

    pub fn same(&self, other: &ContentHash) -> (r: bool)
        ensures
            r == (self@ == other@),
    {
        self.0 == other.0
    }
}

impl Key for ContentHash {
    open spec fn code(key: Seq<char>) -> Seq<int> {
        text_code(key)
    }

    proof fn code_is_injective(a: Seq<char>, b: Seq<char>) {
        text_code_is_injective(a, b);
    }

    fn rank(&self, other: &Self) -> (r: Rank) {
        rank_texts(&self.0, &other.0)
    }

    fn duplicate(&self) -> (r: Self) {
        self.clone()
    }
}

impl JsonItem for ContentHash {
    open spec fn item_json(key: Seq<char>) -> JsonTree {
        JsonTree::Text(key)
    }

    fn to_item_json(&self) -> (r: serde_json::Value) {
        self.to_json()
    }
}

impl JsonKey for ContentHash {
    open spec fn key_text(key: Seq<char>) -> Seq<char> {
        key
    }

    fn to_key_text(&self) -> (r: String) {
        self.0.clone()
    }
}

impl ToJson for ContentHash {
    open spec fn json(&self) -> JsonTree {
        JsonTree::Text(self@)
    }

    fn to_json(&self) -> (r: serde_json::Value) {
        let r = json_text(self.as_str());
        proof {
            assert(json_content(r) == JsonTree::Text(self@));
            assert(self.json() == JsonTree::Text(self@));
        }
        r
    }
}

/// The bytes of a JSON value: compact, with the members of each object sorted by name.
pub fn canonical_json_bytes(value: &serde_json::Value) -> (r: Result<Vec<u8>, serde_json::Error>)
    ensures
        r is Ok,
        r->Ok_0@ == json_bytes(json_content(*value)),
{
    json_to_vec(value)
}

/// The digest of the bytes of a JSON value.
pub fn content_hash_json(value: &serde_json::Value) -> (r: Result<ContentHash, serde_json::Error>)
    ensures
        r is Ok,
        r->Ok_0@ == json_digest(json_content(*value)),
        is_digest(r->Ok_0@),
{
    match canonical_json_bytes(value) {
        Ok(bytes) => Ok(ContentHash::of_bytes(bytes.as_slice())),
        Err(e) => Err(e),
    }
}

/// The digest of a JSON value.
pub fn digest_of(value: &serde_json::Value) -> (r: ContentHash)
    ensures
        r@ == json_digest(json_content(*value)),
        is_digest(r@),
{
    let bytes = match json_to_vec(value) {
        Ok(bytes) => bytes,
        Err(_) => Vec::new(),
    };
    ContentHash::of_bytes(bytes.as_slice())
}

/// The tokens that a number of bytes is taken for: one for every four, rounded up, at least
/// one and at most what a `u32` holds.
pub open spec fn token_estimate(bytes: int) -> int {
    clamped((bytes + 3) / 4, 1, u32::MAX as int)
}

pub fn estimate_tokens_from_bytes(bytes: u64) -> (r: u32)
    ensures
        r == token_estimate(bytes as int),
{
    let whole: u64 = bytes / 4;
    let tokens: u64 = if bytes % 4 == 0 {
        whole
    } else {
        whole + 1
    };
    if tokens == 0 {
        1
    } else if tokens > u32::MAX as u64 {
        u32::MAX
    } else {
        tokens as u32
    }
}

pub fn estimate_json_tokens(value: &serde_json::Value) -> (r: Result<u32, serde_json::Error>)
    ensures
        r is Ok,
        r->Ok_0 == token_estimate(json_bytes(json_content(*value)).len() as int),
{
    match json_to_vec(value) {
        Ok(bytes) => Ok(estimate_tokens_from_bytes(bytes.len() as u64)),
        Err(e) => Err(e),
    }
}

#[derive(Debug, PartialEq, Eq, PartialOrd, Ord, Hash)]
pub struct RunId(pub String);

impl View for RunId {
    type V = Seq<char>;

    open spec fn view(&self) -> Seq<char> {
        self.0@
    }
}

impl Clone for RunId {
    fn clone(&self) -> (r: Self)
        ensures
            r == *self,
    {
        RunId(self.0.clone())
    }
}

impl RunId {
    /// A new identifier: the first sixteen digits of a random UUID.
    pub fn new() -> (r: Self)
        ensures
            is_fresh_id(r@),
    {
        RunId(fresh_id())
    }
}

impl Default for RunId {
    fn default() -> (r: Self)
        ensures
            is_fresh_id(r@),
    {
        Self::new()
    }
}

impl Key for RunId {
    open spec fn code(key: Seq<char>) -> Seq<int> {
        text_code(key)
    }

    proof fn code_is_injective(a: Seq<char>, b: Seq<char>) {
        text_code_is_injective(a, b);
    }

    fn rank(&self, other: &Self) -> (r: Rank) {
        rank_texts(&self.0, &other.0)
    }

    fn duplicate(&self) -> (r: Self) {
        self.clone()
    }
}

impl ToJson for RunId {
    open spec fn json(&self) -> JsonTree {
        JsonTree::Text(self@)
    }

    fn to_json(&self) -> (r: serde_json::Value) {
        json_text(&self.0)
    }
}

#[derive(Debug, PartialEq, Eq, PartialOrd, Ord, Hash)]
pub struct TaskId(pub String);

impl View for TaskId {
    type V = Seq<char>;

    open spec fn view(&self) -> Seq<char> {
        self.0@
    }
}

impl Clone for TaskId {
    fn clone(&self) -> (r: Self)
        ensures
            r == *self,
    {
        TaskId(self.0.clone())
    }
}

impl TaskId {
    /// A new identifier: the first sixteen digits of a random UUID.
    pub fn new() -> (r: Self)
        ensures
            is_fresh_id(r@),
    {
        TaskId(fresh_id())
    }
}

impl Default for TaskId {
    fn default() -> (r: Self)
        ensures
            is_fresh_id(r@),
    {
        Self::new()
    }
}

impl Key for TaskId {
    open spec fn code(key: Seq<char>) -> Seq<int> {
        text_code(key)
    }

    proof fn code_is_injective(a: Seq<char>, b: Seq<char>) {
        text_code_is_injective(a, b);
    }

    fn rank(&self, other: &Self) -> (r: Rank) {
        rank_texts(&self.0, &other.0)
    }

    fn duplicate(&self) -> (r: Self) {
        self.clone()
    }
}

impl ToJson for TaskId {
    open spec fn json(&self) -> JsonTree {
        JsonTree::Text(self@)
    }

    fn to_json(&self) -> (r: serde_json::Value) {
        json_text(&self.0)
    }
}

#[derive(Debug, PartialEq, Eq, PartialOrd, Ord, Hash)]
pub struct AttemptId(pub String);

impl View for AttemptId {
    type V = Seq<char>;

    open spec fn view(&self) -> Seq<char> {
        self.0@
    }
}

impl Clone for AttemptId {
    fn clone(&self) -> (r: Self)
        ensures
            r == *self,
    {
        AttemptId(self.0.clone())
    }
}

impl AttemptId {
    /// A new identifier: the first sixteen digits of a random UUID.
    pub fn new() -> (r: Self)
        ensures
            is_fresh_id(r@),
    {
        AttemptId(fresh_id())
    }
}

impl Default for AttemptId {
    fn default() -> (r: Self)
        ensures
            is_fresh_id(r@),
    {
        Self::new()
    }
}

impl Key for AttemptId {
    open spec fn code(key: Seq<char>) -> Seq<int> {
        text_code(key)
    }

    proof fn code_is_injective(a: Seq<char>, b: Seq<char>) {
        text_code_is_injective(a, b);
    }

    fn rank(&self, other: &Self) -> (r: Rank) {
        rank_texts(&self.0, &other.0)
    }

    fn duplicate(&self) -> (r: Self) {
        self.clone()
    }
}

impl ToJson for AttemptId {
    open spec fn json(&self) -> JsonTree {
        JsonTree::Text(self@)
    }

    fn to_json(&self) -> (r: serde_json::Value) {
        json_text(&self.0)
    }
}

#[derive(Debug, PartialEq, Eq, PartialOrd, Ord, Hash)]
pub struct LeaseId(pub String);

impl View for LeaseId {
    type V = Seq<char>;

    open spec fn view(&self) -> Seq<char> {
        self.0@
    }
}

impl Clone for LeaseId {
    fn clone(&self) -> (r: Self)
        ensures
            r == *self,
    {
        LeaseId(self.0.clone())
    }
}

impl LeaseId {
    /// A new identifier: the first sixteen digits of a random UUID.
    pub fn new() -> (r: Self)
        ensures
            is_fresh_id(r@),
    {
        LeaseId(fresh_id())
    }
}

impl Default for LeaseId {
    fn default() -> (r: Self)
        ensures
            is_fresh_id(r@),
    {
        Self::new()
    }
}

impl Key for LeaseId {
    open spec fn code(key: Seq<char>) -> Seq<int> {
        text_code(key)
    }

    proof fn code_is_injective(a: Seq<char>, b: Seq<char>) {
        text_code_is_injective(a, b);
    }

    fn rank(&self, other: &Self) -> (r: Rank) {
        rank_texts(&self.0, &other.0)
    }

    fn duplicate(&self) -> (r: Self) {
        self.clone()
    }
}

impl ToJson for LeaseId {
    open spec fn json(&self) -> JsonTree {
        JsonTree::Text(self@)
    }

    fn to_json(&self) -> (r: serde_json::Value) {
        json_text(&self.0)
    }
}

#[derive(Debug, PartialEq, Eq, PartialOrd, Ord, Hash)]
pub struct ContractId(pub String);

impl View for ContractId {
    type V = Seq<char>;

    open spec fn view(&self) -> Seq<char> {
        self.0@
    }
}

impl Clone for ContractId {
    fn clone(&self) -> (r: Self)
        ensures
            r == *self,
    {
        ContractId(self.0.clone())
    }
}

impl ContractId {
    /// A new identifier: the first sixteen digits of a random UUID.
    pub fn new() -> (r: Self)
        ensures
            is_fresh_id(r@),
    {
        ContractId(fresh_id())
    }
}

impl Default for ContractId {
    fn default() -> (r: Self)
        ensures
            is_fresh_id(r@),
    {
        Self::new()
    }
}

impl Key for ContractId {
    open spec fn code(key: Seq<char>) -> Seq<int> {
        text_code(key)
    }

    proof fn code_is_injective(a: Seq<char>, b: Seq<char>) {
        text_code_is_injective(a, b);
    }

    fn rank(&self, other: &Self) -> (r: Rank) {
        rank_texts(&self.0, &other.0)
    }

    fn duplicate(&self) -> (r: Self) {
        self.clone()
    }
}

impl ToJson for ContractId {
    open spec fn json(&self) -> JsonTree {
        JsonTree::Text(self@)
    }

    fn to_json(&self) -> (r: serde_json::Value) {
        json_text(&self.0)
    }
}

#[derive(Debug, PartialEq, Eq, PartialOrd, Ord, Hash)]
pub struct TopologyId(pub String);

impl View for TopologyId {
    type V = Seq<char>;

    open spec fn view(&self) -> Seq<char> {
        self.0@
    }
}

impl Clone for TopologyId {
    fn clone(&self) -> (r: Self)
        ensures
            r == *self,
    {
        TopologyId(self.0.clone())
    }
}

impl TopologyId {
    /// A new identifier: the first sixteen digits of a random UUID.
    pub fn new() -> (r: Self)
        ensures
            is_fresh_id(r@),
    {
        TopologyId(fresh_id())
    }
}

impl Default for TopologyId {
    fn default() -> (r: Self)
        ensures
            is_fresh_id(r@),
    {
        Self::new()
    }
}

impl Key for TopologyId {
    open spec fn code(key: Seq<char>) -> Seq<int> {
        text_code(key)
    }

    proof fn code_is_injective(a: Seq<char>, b: Seq<char>) {
        text_code_is_injective(a, b);
    }

    fn rank(&self, other: &Self) -> (r: Rank) {
        rank_texts(&self.0, &other.0)
    }

    fn duplicate(&self) -> (r: Self) {
        self.clone()
    }
}

impl ToJson for TopologyId {
    open spec fn json(&self) -> JsonTree {
        JsonTree::Text(self@)
    }

    fn to_json(&self) -> (r: serde_json::Value) {
        json_text(&self.0)
    }
}

#[derive(Debug, PartialEq, Eq, PartialOrd, Ord, Hash)]
pub struct DecisionId(pub String);

impl View for DecisionId {
    type V = Seq<char>;

    open spec fn view(&self) -> Seq<char> {
        self.0@
    }
}

impl Clone for DecisionId {
    fn clone(&self) -> (r: Self)
        ensures
            r == *self,
    {
        DecisionId(self.0.clone())
    }
}

impl DecisionId {
    /// A new identifier: the first sixteen digits of a random UUID.
    pub fn new() -> (r: Self)
        ensures
            is_fresh_id(r@),
    {
        DecisionId(fresh_id())
    }
}

impl Default for DecisionId {
    fn default() -> (r: Self)
        ensures
            is_fresh_id(r@),
    {
        Self::new()
    }
}

impl Key for DecisionId {
    open spec fn code(key: Seq<char>) -> Seq<int> {
        text_code(key)
    }

    proof fn code_is_injective(a: Seq<char>, b: Seq<char>) {
        text_code_is_injective(a, b);
    }

    fn rank(&self, other: &Self) -> (r: Rank) {
        rank_texts(&self.0, &other.0)
    }

    fn duplicate(&self) -> (r: Self) {
        self.clone()
    }
}

impl ToJson for DecisionId {
    open spec fn json(&self) -> JsonTree {
        JsonTree::Text(self@)
    }

    fn to_json(&self) -> (r: serde_json::Value) {
        json_text(&self.0)
    }
}

#[derive(Debug, PartialEq, Eq, PartialOrd, Ord, Hash)]
pub struct MemoryId(pub String);

impl View for MemoryId {
    type V = Seq<char>;

    open spec fn view(&self) -> Seq<char> {
        self.0@
    }
}

impl Clone for MemoryId {
    fn clone(&self) -> (r: Self)
        ensures
            r == *self,
    {
        MemoryId(self.0.clone())
    }
}

impl MemoryId {
    /// A new identifier: the first sixteen digits of a random UUID.
    pub fn new() -> (r: Self)
        ensures
            is_fresh_id(r@),
    {
        MemoryId(fresh_id())
    }
}

impl Default for MemoryId {
    fn default() -> (r: Self)
        ensures
            is_fresh_id(r@),
    {
        Self::new()
    }
}

impl Key for MemoryId {
    open spec fn code(key: Seq<char>) -> Seq<int> {
        text_code(key)
    }

    proof fn code_is_injective(a: Seq<char>, b: Seq<char>) {
        text_code_is_injective(a, b);
    }

    fn rank(&self, other: &Self) -> (r: Rank) {
        rank_texts(&self.0, &other.0)
    }

    fn duplicate(&self) -> (r: Self) {
        self.clone()
    }
}

impl ToJson for MemoryId {
    open spec fn json(&self) -> JsonTree {
        JsonTree::Text(self@)
    }

    fn to_json(&self) -> (r: serde_json::Value) {
        json_text(&self.0)
    }
}

/// A target portfolio. Cash is not listed: what no asset takes stays cash.
#[derive(Debug, Clone, PartialEq, Eq)]
pub struct TargetPortfolio {
    pub weights: OrderedMap<Asset, WeightPpm>,
}

impl ToJson for TargetPortfolio {
    open spec fn json(&self) -> JsonTree {
        let m = no_members();
        let m = m.insert("weights"@, self.weights.json());
        JsonTree::Object(m)
    }

    fn to_json(&self) -> (r: serde_json::Value) {
        let mut members = json_new_object();
        json_insert(&mut members, "weights", self.weights.to_json());
        json_object(members)
    }
}

/// The assets of the universe.
pub open spec fn executable(asset: Asset) -> bool {
    asset is Tqqq || asset is Qqq || asset is Soxx || asset is Soxl
}

impl TargetPortfolio {
    /// Every asset with a weight of zero.
    pub fn zeroed() -> (r: TargetPortfolio)
        ensures
            forall|asset: Asset| #[trigger]
                r.weights@.dom().contains(asset) && r.weights@[asset] == WeightPpm(0),
    {
        let mut weights: OrderedMap<Asset, WeightPpm> = OrderedMap::new();
        weights.insert(Asset::Tqqq, WeightPpm(0));
        weights.insert(Asset::Qqq, WeightPpm(0));
        weights.insert(Asset::Soxx, WeightPpm(0));
        weights.insert(Asset::Soxl, WeightPpm(0));
        TargetPortfolio { weights }
    }

    /// Every asset has a weight.
    pub open spec fn covers_universe(&self) -> bool {
        forall|asset: Asset| #[trigger] self.weights@.dom().contains(asset)
    }

    pub open spec fn universe_verdict(&self) -> Verdict {
        demand(self.covers_universe(), ErrorView::InvalidTargetUniverse)
    }

    pub fn validate_universe(&self) -> (r: Result<(), DomainError>)
        ensures
            outcome(r) == self.universe_verdict(),
    {
        let all = self.weights.contains_key(&Asset::Tqqq) && self.weights.contains_key(&Asset::Qqq)
            && self.weights.contains_key(&Asset::Soxx) && self.weights.contains_key(&Asset::Soxl);
        proof {
            if all {
                assert forall|asset: Asset| #[trigger] self.weights@.dom().contains(asset) by {
                    assert(executable(asset));
                }
            }
        }
        if !all {
            return Err(DomainError::InvalidTargetUniverse);
        }
        Ok(())
    }
}

/// A blob in the content store.
#[derive(Debug, PartialEq, Eq)]
pub struct BlobRef {
    pub hash: ContentHash,
    pub media_type: String,
    pub bytes: u64,
}

impl Clone for BlobRef {
    fn clone(&self) -> (r: Self)
        ensures
            r == *self,
    {
        BlobRef { hash: self.hash.clone(), media_type: self.media_type.clone(), bytes: self.bytes }
    }
}

impl ToJson for BlobRef {
    open spec fn json(&self) -> JsonTree {
        let m = no_members();
        let m = m.insert("hash"@, self.hash.json());
        let m = m.insert("media_type"@, self.media_type.json());
        let m = m.insert("bytes"@, self.bytes.json());
        JsonTree::Object(m)
    }

    fn to_json(&self) -> (r: serde_json::Value) {
        let mut members = json_new_object();
        json_insert(&mut members, "hash", self.hash.to_json());
        json_insert(&mut members, "media_type", self.media_type.to_json());
        json_insert(&mut members, "bytes", self.bytes.to_json());
        json_object(members)
    }
}

impl BlobRef {
    pub open spec fn verdict(&self) -> Verdict {
        demand(!blank(self.media_type@), crate::error::empty("blob_ref.media_type"@))
    }

    pub fn validate(&self) -> (r: Result<(), DomainError>)
        ensures
            outcome(r) == self.verdict(),
    {
        if is_blank(&self.media_type) {
            return Err(empty_field("blob_ref.media_type"));
        }
        Ok(())
    }
}

/// What a run is for.
#[derive(Clone, Copy, Debug, PartialEq, Eq, PartialOrd, Ord, Hash, Structural)]
pub enum RunPurpose {
    Debug,
    PositionPlan,
    Paper,
    PaperDryRun,
    Replay,
    Shadow,
}

impl RunPurpose {
    /// The name of the variant in JSON.
    pub open spec fn wire(self) -> Seq<char> {
        match self {
            RunPurpose::Debug => "debug"@,
            RunPurpose::PositionPlan => "position_plan"@,
            RunPurpose::Paper => "paper"@,
            RunPurpose::PaperDryRun => "paper_dry_run"@,
            RunPurpose::Replay => "replay"@,
            RunPurpose::Shadow => "shadow"@,
        }
    }

    /// The name of the variant in JSON.
    pub fn wire_name(self) -> (r: &'static str)
        ensures
            r@ == self.wire(),
    {
        match self {
            RunPurpose::Debug => "debug",
            RunPurpose::PositionPlan => "position_plan",
            RunPurpose::Paper => "paper",
            RunPurpose::PaperDryRun => "paper_dry_run",
            RunPurpose::Replay => "replay",
            RunPurpose::Shadow => "shadow",
        }
    }
}

impl ToJson for RunPurpose {
    open spec fn json(&self) -> JsonTree {
        JsonTree::Text(self.wire())
    }

    fn to_json(&self) -> (r: serde_json::Value) {
        json_text(self.wire_name())
    }
}

impl RunPurpose {
    /// What the run shows may be learned from.
    pub open spec fn teaches(self) -> bool {
        self is Paper
    }

    /// Whether what the run shows may be learned from.
    pub fn is_canonical_learning(self) -> (r: bool)
        ensures
            r == self.teaches(),
    {
        matches!(self, RunPurpose::Paper)
    }
}

/// The state of a task.
#[derive(Clone, Copy, Debug, PartialEq, Eq, PartialOrd, Ord, Hash, Structural)]
pub enum TaskStatus {
    Pending,
    Leased,
    Running,
    Succeeded,
    Failed,
    Cancelled,
    Skipped,
}

impl TaskStatus {
    /// The name of the variant in JSON.
    pub open spec fn wire(self) -> Seq<char> {
        match self {
            TaskStatus::Pending => "pending"@,
            TaskStatus::Leased => "leased"@,
            TaskStatus::Running => "running"@,
            TaskStatus::Succeeded => "succeeded"@,
            TaskStatus::Failed => "failed"@,
            TaskStatus::Cancelled => "cancelled"@,
            TaskStatus::Skipped => "skipped"@,
        }
    }

    /// The name of the variant in JSON.
    pub fn wire_name(self) -> (r: &'static str)
        ensures
            r@ == self.wire(),
    {
        match self {
            TaskStatus::Pending => "pending",
            TaskStatus::Leased => "leased",
            TaskStatus::Running => "running",
            TaskStatus::Succeeded => "succeeded",
            TaskStatus::Failed => "failed",
            TaskStatus::Cancelled => "cancelled",
            TaskStatus::Skipped => "skipped",
        }
    }
}

impl ToJson for TaskStatus {
    open spec fn json(&self) -> JsonTree {
        JsonTree::Text(self.wire())
    }

    fn to_json(&self) -> (r: serde_json::Value) {
        json_text(self.wire_name())
    }
}

impl TaskStatus {
    /// The task has come to an end.
    pub open spec fn is_over(self) -> bool {
        !(self is Pending || self is Leased || self is Running)
    }

    /// Whether the task has come to an end.
    pub fn is_terminal(self) -> (r: bool)
        ensures
            r == self.is_over(),
    {
        matches!(
            self,
            TaskStatus::Succeeded | TaskStatus::Failed | TaskStatus::Cancelled | TaskStatus::Skipped
        )
    }
}

/// The state of a workflow.
#[derive(Clone, Copy, Debug, PartialEq, Eq, PartialOrd, Ord, Hash, Structural)]
pub enum WorkflowStatus {
    Queued,
    Leased,
    Running,
    DecisionCompleted,
    Completed,
    CompletedWithExecutionRejection,
    Failed,
    Cancelled,
}

impl WorkflowStatus {
    /// The name of the variant in JSON.
    pub open spec fn wire(self) -> Seq<char> {
        match self {
            WorkflowStatus::Queued => "queued"@,
            WorkflowStatus::Leased => "leased"@,
            WorkflowStatus::Running => "running"@,
            WorkflowStatus::DecisionCompleted => "decision_completed"@,
            WorkflowStatus::Completed => "completed"@,
            WorkflowStatus::CompletedWithExecutionRejection => "completed_with_execution_rejection"@,
            WorkflowStatus::Failed => "failed"@,
            WorkflowStatus::Cancelled => "cancelled"@,
        }
    }

    /// The name of the variant in JSON.
    pub fn wire_name(self) -> (r: &'static str)
        ensures
            r@ == self.wire(),
    {
        match self {
            WorkflowStatus::Queued => "queued",
            WorkflowStatus::Leased => "leased",
            WorkflowStatus::Running => "running",
            WorkflowStatus::DecisionCompleted => "decision_completed",
            WorkflowStatus::Completed => "completed",
            WorkflowStatus::CompletedWithExecutionRejection => "completed_with_execution_rejection",
            WorkflowStatus::Failed => "failed",
            WorkflowStatus::Cancelled => "cancelled",
        }
    }
}

impl ToJson for WorkflowStatus {
    open spec fn json(&self) -> JsonTree {
        JsonTree::Text(self.wire())
    }

    fn to_json(&self) -> (r: serde_json::Value) {
        json_text(self.wire_name())
    }
}

/// What a task may use up.
#[derive(Clone, Copy, Debug, PartialEq, Eq, Structural)]
pub struct TaskBudget {
    pub max_input_tokens: u32,
    pub max_output_tokens: u32,
    pub max_wall_time_secs: u32,
    pub max_tool_calls: ToolCallLimit,
}

impl ToJson for TaskBudget {
    open spec fn json(&self) -> JsonTree {
        let m = no_members();
        let m = m.insert("max_input_tokens"@, self.max_input_tokens.json());
        let m = m.insert("max_output_tokens"@, self.max_output_tokens.json());
        let m = m.insert("max_wall_time_secs"@, self.max_wall_time_secs.json());
        let m = m.insert("max_tool_calls"@, self.max_tool_calls.json());
        JsonTree::Object(m)
    }

    fn to_json(&self) -> (r: serde_json::Value) {
        let mut members = json_new_object();
        json_insert(&mut members, "max_input_tokens", self.max_input_tokens.to_json());
        json_insert(&mut members, "max_output_tokens", self.max_output_tokens.to_json());
        json_insert(&mut members, "max_wall_time_secs", self.max_wall_time_secs.to_json());
        json_insert(&mut members, "max_tool_calls", self.max_tool_calls.to_json());
        json_object(members)
    }
}

impl TaskBudget {
    pub open spec fn verdict(&self) -> Verdict {
        first(
            demand(self.max_input_tokens > 0, budget("max_input_tokens"@)),
            first(
                demand(self.max_output_tokens > 0, budget("max_output_tokens"@)),
                demand(self.max_wall_time_secs > 0, budget("max_wall_time_secs"@)),
            ),
        )
    }

    pub fn validate(&self) -> (r: Result<(), DomainError>)
        ensures
            outcome(r) == self.verdict(),
    {
        if self.max_input_tokens == 0 {
            return Err(invalid_budget("max_input_tokens"));
        }
        if self.max_output_tokens == 0 {
            return Err(invalid_budget("max_output_tokens"));
        }
        if self.max_wall_time_secs == 0 {
            return Err(invalid_budget("max_wall_time_secs"));
        }
        Ok(())
    }
}

/// What a tool does.
#[derive(Clone, Copy, Debug, PartialEq, Eq, PartialOrd, Ord, Hash, Structural)]
pub enum ToolKind {
    ReadEvidence,
    ReadRawEvidence,
    FetchWebEvidence,
    ReadMarketData,
}

impl ToolKind {
    /// The name of the variant in JSON.
    pub open spec fn wire(self) -> Seq<char> {
        match self {
            ToolKind::ReadEvidence => "read_evidence"@,
            ToolKind::ReadRawEvidence => "read_raw_evidence"@,
            ToolKind::FetchWebEvidence => "fetch_web_evidence"@,
            ToolKind::ReadMarketData => "read_market_data"@,
        }
    }

    /// The name of the variant in JSON.
    pub fn wire_name(self) -> (r: &'static str)
        ensures
            r@ == self.wire(),
    {
        match self {
            ToolKind::ReadEvidence => "read_evidence",
            ToolKind::ReadRawEvidence => "read_raw_evidence",
            ToolKind::FetchWebEvidence => "fetch_web_evidence",
            ToolKind::ReadMarketData => "read_market_data",
        }
    }
}

impl ToJson for ToolKind {
    open spec fn json(&self) -> JsonTree {
        JsonTree::Text(self.wire())
    }

    fn to_json(&self) -> (r: serde_json::Value) {
        json_text(self.wire_name())
    }
}

/// A tool that a task may call. With no source listed it may be asked for any.
#[derive(Debug, Clone, PartialEq, Eq)]
pub struct ToolGrant {
    pub kind: ToolKind,
    pub allowed_sources: Vec<String>,
}

impl ToJson for ToolGrant {
    open spec fn json(&self) -> JsonTree {
        let m = no_members();
        let m = m.insert("kind"@, self.kind.json());
        let m = m.insert("allowed_sources"@, self.allowed_sources.json());
        JsonTree::Object(m)
    }

    fn to_json(&self) -> (r: serde_json::Value) {
        let mut members = json_new_object();
        json_insert(&mut members, "kind", self.kind.to_json());
        json_insert(&mut members, "allowed_sources", self.allowed_sources.to_json());
        json_object(members)
    }
}

/// When a failed attempt is tried again.
#[derive(Clone, Copy, Debug, PartialEq, Eq, Structural)]
pub struct RetryPolicy {
    pub max_attempts: u8,
    pub initial_backoff_ms: u64,
    pub retry_transport: bool,
    pub retry_rate_limited: bool,
    pub retry_invalid_output: bool,
}

impl ToJson for RetryPolicy {
    open spec fn json(&self) -> JsonTree {
        let m = no_members();
        let m = m.insert("max_attempts"@, self.max_attempts.json());
        let m = m.insert("initial_backoff_ms"@, self.initial_backoff_ms.json());
        let m = m.insert("retry_transport"@, self.retry_transport.json());
        let m = m.insert("retry_rate_limited"@, self.retry_rate_limited.json());
        let m = m.insert("retry_invalid_output"@, self.retry_invalid_output.json());
        JsonTree::Object(m)
    }

    fn to_json(&self) -> (r: serde_json::Value) {
        let mut members = json_new_object();
        json_insert(&mut members, "max_attempts", self.max_attempts.to_json());
        json_insert(&mut members, "initial_backoff_ms", self.initial_backoff_ms.to_json());
        json_insert(&mut members, "retry_transport", self.retry_transport.to_json());
        json_insert(&mut members, "retry_rate_limited", self.retry_rate_limited.to_json());
        json_insert(&mut members, "retry_invalid_output", self.retry_invalid_output.to_json());
        json_object(members)
    }
}

impl RetryPolicy {
    /// One attempt and no other.
    pub open spec fn once() -> RetryPolicy {
        RetryPolicy {
            max_attempts: 1,
            initial_backoff_ms: 0,
            retry_transport: false,
            retry_rate_limited: false,
            retry_invalid_output: false,
        }
    }

    /// A policy of one attempt.
    pub fn none() -> (r: RetryPolicy)
        ensures
            r == Self::once(),
    {
        RetryPolicy {
            max_attempts: 1,
            initial_backoff_ms: 0,
            retry_transport: false,
            retry_rate_limited: false,
            retry_invalid_output: false,
        }
    }

    pub open spec fn verdict(&self) -> Verdict {
        demand(self.max_attempts > 0, budget("retry.max_attempts"@))
    }

    pub fn validate(&self) -> (r: Result<(), DomainError>)
        ensures
            outcome(r) == self.verdict(),
    {
        if self.max_attempts == 0 {
            return Err(invalid_budget("retry.max_attempts"));
        }
        Ok(())
    }
}

/// When a task stops, and what it may start.
#[derive(Clone, Copy, Debug, PartialEq, Eq, Structural)]
pub struct TerminationPolicy {
    pub max_child_tasks: u16,
    pub max_depth: u16,
    pub require_evidence: bool,
    pub stop_when_evidence_complete: bool,
}

impl ToJson for TerminationPolicy {
    open spec fn json(&self) -> JsonTree {
        let m = no_members();
        let m = m.insert("max_child_tasks"@, self.max_child_tasks.json());
        let m = m.insert("max_depth"@, self.max_depth.json());
        let m = m.insert("require_evidence"@, self.require_evidence.json());
        let m = m.insert("stop_when_evidence_complete"@, self.stop_when_evidence_complete.json());
        JsonTree::Object(m)
    }

    fn to_json(&self) -> (r: serde_json::Value) {
        let mut members = json_new_object();
        json_insert(&mut members, "max_child_tasks", self.max_child_tasks.to_json());
        json_insert(&mut members, "max_depth", self.max_depth.to_json());
        json_insert(&mut members, "require_evidence", self.require_evidence.to_json());
        json_insert(
            &mut members,
            "stop_when_evidence_complete",
            self.stop_when_evidence_complete.to_json(),
        );
        json_object(members)
    }
}

impl TerminationPolicy {
    /// A task without children that stops when its evidence is complete.
    pub open spec fn childless() -> TerminationPolicy {
        TerminationPolicy {
            max_child_tasks: 0,
            max_depth: 0,
            require_evidence: true,
            stop_when_evidence_complete: true,
        }
    }

    /// The policy of a task without children.
    pub fn leaf() -> (r: TerminationPolicy)
        ensures
            r == Self::childless(),
    {
        TerminationPolicy {
            max_child_tasks: 0,
            max_depth: 0,
            require_evidence: true,
            stop_when_evidence_complete: true,
        }
    }
}

/// What the failure of a task does.
#[derive(Clone, Copy, Debug, PartialEq, Eq, PartialOrd, Ord, Hash, Structural)]
pub enum FailureDisposition {
    FailRun,
    FailTask,
    SkipTask,
}

impl FailureDisposition {
    /// The name of the variant in JSON.
    pub open spec fn wire(self) -> Seq<char> {
        match self {
            FailureDisposition::FailRun => "fail_run"@,
            FailureDisposition::FailTask => "fail_task"@,
            FailureDisposition::SkipTask => "skip_task"@,
        }
    }

    /// The name of the variant in JSON.
    pub fn wire_name(self) -> (r: &'static str)
        ensures
            r@ == self.wire(),
    {
        match self {
            FailureDisposition::FailRun => "fail_run",
            FailureDisposition::FailTask => "fail_task",
            FailureDisposition::SkipTask => "skip_task",
        }
    }
}

impl ToJson for FailureDisposition {
    open spec fn json(&self) -> JsonTree {
        JsonTree::Text(self.wire())
    }

    fn to_json(&self) -> (r: serde_json::Value) {
        json_text(self.wire_name())
    }
}

/// What a target portfolio is refused with: the first fault that it has.
pub proof fn universe_verdict_of_target_portfolio_names_its_fault(this: TargetPortfolio)
    ensures
        !(this.covers_universe())
            ==> this.universe_verdict() == Verdict::Err(ErrorView::InvalidTargetUniverse),
{
}

/// What a blob ref is refused with: the first fault that it has.
pub proof fn refusal_of_blob_ref_names_its_fault(this: BlobRef)
    ensures
        !(!blank(this.media_type@))
            ==> this.verdict() == Verdict::Err(crate::error::empty("blob_ref.media_type"@)),
{
}

/// What a task budget is refused with: the first fault that it has.
pub proof fn refusal_of_task_budget_names_its_fault(this: TaskBudget)
    ensures
        !(this.max_input_tokens > 0)
            ==> this.verdict() == Verdict::Err(budget("max_input_tokens"@)),
        (this.max_input_tokens > 0) && !(this.max_output_tokens > 0)
            ==> this.verdict() == Verdict::Err(budget("max_output_tokens"@)),
        (this.max_input_tokens > 0) && (this.max_output_tokens > 0)
            && !(this.max_wall_time_secs > 0)
            ==> this.verdict() == Verdict::Err(budget("max_wall_time_secs"@)),
{
}

/// What a retry policy is refused with: the first fault that it has.
pub proof fn refusal_of_retry_policy_names_its_fault(this: RetryPolicy)
    ensures
        !(this.max_attempts > 0) ==> this.verdict() == Verdict::Err(budget("retry.max_attempts"@)),
{
}

} // verus!
