//! JSON values of `serde_json` as trees, and the bytes and digests of their encoding.
use crate::ordered::{Key, OrderedMap, OrderedSet};
use vstd::prelude::*;

verus! {

/// What a JSON value without fractional numbers holds. The order of an object's members is
/// not part of it: `serde_json` keeps them sorted by name.
pub ghost enum JsonTree {
    Null,
    Bool(bool),
    Number(int),
    Text(Seq<char>),
    List(Seq<JsonTree>),
    Object(Map<Seq<char>, JsonTree>),
}

/// A JSON value.
#[verifier::external_type_specification]
#[verifier::external_body]
pub struct ExValue(serde_json::Value);

/// The members of a JSON object.
#[verifier::external_type_specification]
#[verifier::external_body]
#[verifier::reject_recursive_types(K)]
#[verifier::reject_recursive_types(V)]
pub struct ExMap<K, V>(serde_json::Map<K, V>);

/// An error of `serde_json`.
#[verifier::external_type_specification]
#[verifier::external_body]
pub struct ExError(serde_json::Error);

/// What a JSON value holds.
pub uninterp spec fn json_content(value: serde_json::Value) -> JsonTree;

/// What the members of a JSON object hold, by name.
pub uninterp spec fn json_members(members: serde_json::Map<String, serde_json::Value>) -> Map<
    Seq<char>,
    JsonTree,
>;

/// The compact encoding that `serde_json::to_vec` writes of a value.
pub uninterp spec fn json_bytes(tree: JsonTree) -> Seq<u8>;

/// Nothing in the tree is a fractional number: each number is one of 64 bits.
pub open spec fn exact(tree: JsonTree) -> bool
    decreases tree,
{
    match tree {
        JsonTree::Number(n) => i64::MIN <= n <= u64::MAX,
        JsonTree::List(parts) => forall|i: int| 0 <= i < parts.len() ==> exact(#[trigger] parts[i]),
        JsonTree::Object(members) => members.dom().finite() && forall|name: Seq<char>|
            members.dom().contains(name) ==> exact(#[trigger] members[name]),
        _ => true,
    }
}

/// An exact member keeps the members exact.
pub proof fn exact_members(members: Map<Seq<char>, JsonTree>, name: Seq<char>, value: JsonTree)
    requires
        exact(JsonTree::Object(members)),
        exact(value),
    ensures
        exact(JsonTree::Object(members.insert(name, value))),
{
    let more = members.insert(name, value);
    assert forall|n: Seq<char>| more.dom().contains(n) implies exact(#[trigger] more[n]) by {
        if n != name {
            assert(more[n] == members[n]);
        }
    }
}

pub open spec fn no_members() -> Map<Seq<char>, JsonTree> {
    Map::empty()
}

/// The trees of the listed values.
pub open spec fn json_contents(values: Seq<serde_json::Value>) -> Seq<JsonTree> {
    values.map_values(|v: serde_json::Value| json_content(v))
}

/// `serde_json::Value::Null` is the null value.
#[verifier::external_body]
pub(crate) fn json_null() -> (r: serde_json::Value)
    ensures
        json_content(r) == JsonTree::Null,
{
    serde_json::Value::Null
}

/// `serde_json::Value::Bool` holds the given truth value.
#[verifier::external_body]
pub(crate) fn json_bool(value: bool) -> (r: serde_json::Value)
    ensures
        json_content(r) == JsonTree::Bool(value),
{
    serde_json::Value::Bool(value)
}

/// `serde_json::Value::from` of an unsigned number holds that number.
#[verifier::external_body]
pub(crate) fn json_unsigned(value: u64) -> (r: serde_json::Value)
    ensures
        json_content(r) == JsonTree::Number(value as int),
{
    serde_json::Value::from(value)
}

/// `serde_json::Value::from` of a signed number holds that number.
#[verifier::external_body]
pub(crate) fn json_signed(value: i64) -> (r: serde_json::Value)
    ensures
        json_content(r) == JsonTree::Number(value as int),
{
    serde_json::Value::from(value)
}

/// `serde_json::Value::String` holds the given text.
#[verifier::external_body]
pub(crate) fn json_text(value: &str) -> (r: serde_json::Value)
    ensures
        json_content(r) == JsonTree::Text(value@),
{
    serde_json::Value::String(value.to_owned())
}

/// `serde_json::Value::Array` holds the given values in their order.
#[verifier::external_body]
pub(crate) fn json_list(values: Vec<serde_json::Value>) -> (r: serde_json::Value)
    ensures
        json_content(r) == JsonTree::List(json_contents(values@)),
{
    serde_json::Value::Array(values)
}

/// `serde_json::Map::new` has no member.
#[verifier::external_body]
pub(crate) fn json_new_object() -> (r: serde_json::Map<String, serde_json::Value>)
    ensures
        json_members(r) == no_members(),
{
    serde_json::Map::new()
}

/// `serde_json::Map::insert` puts a member in under its name, in place of one that was there.
#[verifier::external_body]
pub(crate) fn json_insert(
    members: &mut serde_json::Map<String, serde_json::Value>,
    name: &str,
    value: serde_json::Value,
)
    ensures
        json_members(*final(members)) == json_members(*old(members)).insert(
            name@,
            json_content(value),
        ),
{
    members.insert(name.to_owned(), value);
}

/// `serde_json::Value::Object` holds the given members.
#[verifier::external_body]
pub(crate) fn json_object(members: serde_json::Map<String, serde_json::Value>) -> (r:
    serde_json::Value)
    ensures
        json_content(r) == JsonTree::Object(json_members(members)),
{
    serde_json::Value::Object(members)
}

/// `serde_json::to_vec` succeeds on every `serde_json::Value`, whose member names are texts and
/// whose writer is a vector, and what it writes depends on what the value holds.
#[verifier::external_body]
pub(crate) fn json_to_vec(value: &serde_json::Value) -> (r: Result<Vec<u8>, serde_json::Error>)
    ensures
        r is Ok,
        r->Ok_0@ == json_bytes(json_content(*value)),
{
    serde_json::to_vec(value)
}

/// A `serde_json::Value` without fractional numbers equals exactly the values that hold the same.
#[verifier::external_body]
pub(crate) fn json_same(a: &serde_json::Value, b: &serde_json::Value) -> (r: bool)
    requires
        exact(json_content(*a)),
    ensures
        r == (json_content(*a) == json_content(*b)),
{
    a == b
}

/// `serde_json::Value::clone` holds what the value holds.
pub assume_specification[ <serde_json::Value as Clone>::clone ](value: &serde_json::Value) -> (r:
    serde_json::Value)
    ensures
        json_content(r) == json_content(*value),
;

/// The member of a name, where the tree is an object that has it.
pub open spec fn member_of(tree: JsonTree, name: Seq<char>) -> Option<JsonTree> {
    match tree {
        JsonTree::Object(members) => if members.dom().contains(name) {
            Some(members[name])
        } else {
            None
        },
        _ => None,
    }
}

/// `serde_json::Value::get` with a name gives the member of an object, and nothing of any other
/// value.
#[verifier::external_body]
pub(crate) fn json_member<'a>(value: &'a serde_json::Value, name: &str) -> (r: Option<
    &'a serde_json::Value,
>)
    ensures
        match r {
            Some(member) => member_of(json_content(*value), name@) == Some(json_content(*member)),
            None => member_of(json_content(*value), name@) is None,
        },
{
    value.get(name)
}

/// `serde_json::Value::as_str` gives the text of a text, and nothing of any other value.
#[verifier::external_body]
pub(crate) fn json_as_text(value: &serde_json::Value) -> (r: Option<&str>)
    ensures
        match r {
            Some(text) => json_content(*value) == JsonTree::Text(text@),
            None => !(json_content(*value) is Text),
        },
{
    value.as_str()
}

/// `serde_json::Value::as_bool` gives the truth value of one, and nothing of any other value.
#[verifier::external_body]
pub(crate) fn json_as_bool(value: &serde_json::Value) -> (r: Option<bool>)
    ensures
        match r {
            Some(truth) => json_content(*value) == JsonTree::Bool(truth),
            None => !(json_content(*value) is Bool),
        },
{
    value.as_bool()
}

/// `serde_json::Value::as_array` gives the values of a list, and nothing of any other value.
#[verifier::external_body]
pub(crate) fn json_as_list(value: &serde_json::Value) -> (r: Option<&Vec<serde_json::Value>>)
    ensures
        match r {
            Some(items) => json_content(*value) == JsonTree::List(json_contents(items@)),
            None => !(json_content(*value) is List),
        },
{
    value.as_array()
}

/// A value with a JSON form.
pub trait ToJson {
    spec fn json(&self) -> JsonTree;

    fn to_json(&self) -> (r: serde_json::Value)
        ensures
            json_content(r) == self.json(),
    ;
}

/// A key with a JSON form.
pub trait JsonItem: Key {
    spec fn item_json(key: Self::V) -> JsonTree;

    fn to_item_json(&self) -> (r: serde_json::Value)
        ensures
            json_content(r) == Self::item_json(self@),
    ;
}

/// A key whose JSON form is a text, which can be the name of a member.
pub trait JsonKey: JsonItem {
    spec fn key_text(key: Self::V) -> Seq<char>;

    fn to_key_text(&self) -> (r: String)
        ensures
            r@ == Self::key_text(self@),
    ;
}

impl ToJson for bool {
    open spec fn json(&self) -> JsonTree {
        JsonTree::Bool(*self)
    }

    fn to_json(&self) -> (r: serde_json::Value) {
        json_bool(*self)
    }
}

impl ToJson for u8 {
    open spec fn json(&self) -> JsonTree {
        JsonTree::Number(*self as int)
    }

    fn to_json(&self) -> (r: serde_json::Value) {
        json_unsigned(*self as u64)
    }
}

impl ToJson for u16 {
    open spec fn json(&self) -> JsonTree {
        JsonTree::Number(*self as int)
    }

    fn to_json(&self) -> (r: serde_json::Value) {
        json_unsigned(*self as u64)
    }
}

impl ToJson for u32 {
    open spec fn json(&self) -> JsonTree {
        JsonTree::Number(*self as int)
    }

    fn to_json(&self) -> (r: serde_json::Value) {
        json_unsigned(*self as u64)
    }
}

impl ToJson for u64 {
    open spec fn json(&self) -> JsonTree {
        JsonTree::Number(*self as int)
    }

    fn to_json(&self) -> (r: serde_json::Value) {
        json_unsigned(*self)
    }
}

impl ToJson for i32 {
    open spec fn json(&self) -> JsonTree {
        JsonTree::Number(*self as int)
    }

    fn to_json(&self) -> (r: serde_json::Value) {
        json_signed(*self as i64)
    }
}

impl ToJson for i64 {
    open spec fn json(&self) -> JsonTree {
        JsonTree::Number(*self as int)
    }

    fn to_json(&self) -> (r: serde_json::Value) {
        json_signed(*self)
    }
}

impl ToJson for String {
    open spec fn json(&self) -> JsonTree {
        JsonTree::Text(self@)
    }

    fn to_json(&self) -> (r: serde_json::Value) {
        json_text(self)
    }
}

impl ToJson for serde_json::Value {
    open spec fn json(&self) -> JsonTree {
        json_content(*self)
    }

    fn to_json(&self) -> (r: serde_json::Value) {
        self.clone()
    }
}

impl JsonItem for String {
    open spec fn item_json(key: Seq<char>) -> JsonTree {
        JsonTree::Text(key)
    }

    fn to_item_json(&self) -> (r: serde_json::Value) {
        json_text(self)
    }
}

impl JsonKey for String {
    open spec fn key_text(key: Seq<char>) -> Seq<char> {
        key
    }

    fn to_key_text(&self) -> (r: String) {
        self.clone()
    }
}

impl<T: ToJson> ToJson for Option<T> {
    open spec fn json(&self) -> JsonTree {
        match self {
            Some(value) => value.json(),
            None => JsonTree::Null,
        }
    }

    fn to_json(&self) -> (r: serde_json::Value) {
        match self {
            Some(value) => value.to_json(),
            None => json_null(),
        }
    }
}

impl<T: ToJson> ToJson for Vec<T> {
    open spec fn json(&self) -> JsonTree {
        JsonTree::List(self@.map_values(|value: T| value.json()))
    }

    fn to_json(&self) -> (r: serde_json::Value) {
        let mut values: Vec<serde_json::Value> = Vec::new();
        let mut i: usize = 0;
        while i < self.len()
            invariant
                i <= self.len(),
                values.len() == i,
                forall|j: int| 0 <= j < i ==> json_content(#[trigger] values@[j]) == self@[j].json(),
            decreases self.len() - i,
        {
            values.push(self[i].to_json());
            i += 1;
        }
        proof {
            assert(json_contents(values@) =~= self@.map_values(|value: T| value.json()));
        }
        json_list(values)
    }
}

impl<T: ToJson, const N: usize> ToJson for [T; N] {
    open spec fn json(&self) -> JsonTree {
        JsonTree::List(self@.map_values(|value: T| value.json()))
    }

    fn to_json(&self) -> (r: serde_json::Value) {
        let mut values: Vec<serde_json::Value> = Vec::new();
        let mut i: usize = 0;
        while i < N
            invariant
                i <= N,
                self@.len() == N,
                values.len() == i,
                forall|j: int| 0 <= j < i ==> json_content(#[trigger] values@[j]) == self@[j].json(),
            decreases N - i,
        {
            values.push(self[i].to_json());
            i += 1;
        }
        proof {
            assert(json_contents(values@) =~= self@.map_values(|value: T| value.json()));
        }
        json_list(values)
    }
}

impl<K: JsonItem> ToJson for OrderedSet<K> {
    open spec fn json(&self) -> JsonTree {
        JsonTree::List(self.keys().map_values(|key: K::V| K::item_json(key)))
    }

    fn to_json(&self) -> (r: serde_json::Value) {
        let mut values: Vec<serde_json::Value> = Vec::new();
        let mut i: usize = 0;
        let n: usize = self.len();
        while i < n
            invariant
                i <= n,
                n == self.keys().len(),
                values.len() == i,
                forall|j: int|
                    0 <= j < i ==> json_content(#[trigger] values@[j]) == K::item_json(
                        self.keys()[j],
                    ),
            decreases n - i,
        {
            values.push(self.at(i).to_item_json());
            i += 1;
        }
        proof {
            assert(json_contents(values@) =~= self.keys().map_values(
                |key: K::V| K::item_json(key),
            ));
        }
        json_list(values)
    }
}

/// The members that the first `n` keys and values make.
pub open spec fn keyed_members<K: JsonKey, W: ToJson>(keys: Seq<K::V>, values: Seq<W>, n: nat) -> Map<
    Seq<char>,
    JsonTree,
>
    decreases n,
{
    if n == 0 {
        no_members()
    } else {
        keyed_members::<K, W>(keys, values, (n - 1) as nat).insert(
            K::key_text(keys[n - 1]),
            values[n - 1].json(),
        )
    }
}

impl<K: JsonKey, W: ToJson> ToJson for OrderedMap<K, W> {
    open spec fn json(&self) -> JsonTree {
        JsonTree::Object(keyed_members::<K, W>(self.keys(), self.values(), self.keys().len()))
    }

    fn to_json(&self) -> (r: serde_json::Value) {
        let mut members = json_new_object();
        let mut i: usize = 0;
        let n: usize = self.len();
        while i < n
            invariant
                i <= n,
                n == self.keys().len(),
                json_members(members) == keyed_members::<K, W>(self.keys(), self.values(), i as nat),
            decreases n - i,
        {
            let name = self.key_at(i).to_key_text();
            json_insert(&mut members, name.as_str(), self.value_at(i).to_json());
            i += 1;
        }
        json_object(members)
    }
}

} // verus!
