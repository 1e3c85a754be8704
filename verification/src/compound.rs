//! Keys that are made of parts, ordered by the first part in which they differ.
use crate::artifact::{ArtifactRef, RefView};
use crate::foundation::ContentHash;
use crate::json::{json_bool, json_content, json_null, json_text, json_unsigned, JsonTree, ToJson};
use crate::ordered::{
    diverges, precedes, precedes_is_asymmetric, precedes_is_total, rank_of, Key, Rank,
};
use crate::text::{rank_texts, text_code, text_code_is_injective};
use crate::time::{rfc3339_text, UtcTime};
use vstd::prelude::*;

verus! {

/// Two codes agree below a place and hold different numbers there.
pub open spec fn settled_at(a: Seq<int>, b: Seq<int>, k: int) -> bool {
    &&& 0 <= k < a.len()
    &&& k < b.len()
    &&& forall|i: int| 0 <= i < k ==> a[i] == b[i]
    &&& a[k] != b[k]
}

/// Two codes are equal or differ before either ends, so that nothing behind them changes their
/// order.
pub open spec fn settled(a: Seq<int>, b: Seq<int>) -> bool {
    a == b || exists|k: int| #[trigger] settled_at(a, b, k)
}

/// What follows settled codes decides where they are equal, and only there.
pub proof fn joined_codes(a: Seq<int>, b: Seq<int>, x: Seq<int>, y: Seq<int>)
    requires
        settled(a, b),
    ensures
        a == b ==> rank_of(a + x, b + y) == rank_of(x, y),
        a != b ==> rank_of(a + x, b + y) == rank_of(a, b),
        a + x == b + y ==> a == b && x == y,
        settled(x, y) ==> settled(a + x, b + y),
{
    let p = a + x;
    let q = b + y;
    let n = a.len() as int;
    if a == b {
        if x == y {
            assert(p =~= q);
        } else {
            if p == q {
                assert(p.skip(n) =~= x && q.skip(n) =~= y);
            }
            if precedes(x, y) {
                let k = choose|k: int| #[trigger] diverges(x, y, k);
                prefixed_codes_diverge(a, x, y, k);
            } else {
                precedes_is_total(x, y);
                let k = choose|k: int| #[trigger] diverges(y, x, k);
                prefixed_codes_diverge(a, y, x, k);
                precedes_is_asymmetric(q, p);
            }
        }
        if settled(x, y) && x != y {
            let k = choose|k: int| #[trigger] settled_at(x, y, k);
            let m = n + k;
            assert forall|i: int| 0 <= i < m implies p[i] == q[i] by {
                if i >= n {
                    let j = i - n;
                    assert(p[i] == x[j] && q[i] == y[j]);
                }
            }
            assert(p[m] == x[k] && q[m] == y[k]);
            assert(settled_at(p, q, m));
        }
    } else {
        let k = choose|k: int| #[trigger] settled_at(a, b, k);
        assert forall|i: int| 0 <= i <= k implies p[i] == a[i] && q[i] == b[i] by {}
        assert(settled_at(p, q, k));
        assert(p != q);
        if a[k] < b[k] {
            assert(diverges(p, q, k));
            assert(diverges(a, b, k));
        } else {
            assert(diverges(q, p, k));
            assert(diverges(b, a, k));
            precedes_is_asymmetric(q, p);
            precedes_is_asymmetric(b, a);
        }
    }
}

proof fn prefixed_codes_diverge(a: Seq<int>, x: Seq<int>, y: Seq<int>, k: int)
    requires
        diverges(x, y, k),
    ensures
        precedes(a + x, a + y),
{
    let p = a + x;
    let q = a + y;
    let m = a.len() + k;
    assert forall|i: int| 0 <= i < m implies p[i] == q[i] by {
        if i >= a.len() {
            let j = i - a.len();
            assert(p[i] == x[j] && q[i] == y[j]);
        }
    }
    assert(q[m] == y[k]);
    if k < x.len() {
        assert(p[m] == x[k]);
    }
    assert(diverges(p, q, m));
}

/// The rank by the first of two parts, and where it does not tell, by the second.
pub fn by_parts(a: Rank, b: Rank) -> (r: Rank)
    ensures
        r == (if a is Same {
            b
        } else {
            a
        }),
{
    match a {
        Rank::Same => b,
        _ => a,
    }
}

/// A part of a key, with its place in the order.
pub trait Part: Sized {
    type Seen;

    /// What the part holds.
    spec fn seen(&self) -> Self::Seen;

    spec fn part(seen: Self::Seen) -> Seq<int>;

    proof fn parts_settle(a: Self::Seen, b: Self::Seen)
        ensures
            settled(Self::part(a), Self::part(b)),
            Self::part(a) == Self::part(b) ==> a == b,
    ;

    fn rank_part(&self, other: &Self) -> (r: Rank)
        ensures
            r == rank_of(Self::part(self.seen()), Self::part(other.seen())),
    ;
}

/// A part that can be copied and written as JSON.
pub trait JsonPart: Part {
    spec fn part_json(seen: Self::Seen) -> JsonTree;

    fn copy_part(&self) -> (r: Self)
        ensures
            r.seen() == self.seen(),
    ;

    fn part_to_json(&self) -> (r: serde_json::Value)
        ensures
            json_content(r) == Self::part_json(self.seen()),
    ;
}

/// The code of a number.
pub open spec fn number_part(n: int) -> Seq<int> {
    seq![n]
}

pub proof fn numbers_settle(a: int, b: int)
    ensures
        settled(number_part(a), number_part(b)),
        number_part(a) == number_part(b) ==> a == b,
        rank_of(number_part(a), number_part(b)) == (if a < b {
            Rank::Before
        } else if a == b {
            Rank::Same
        } else {
            Rank::After
        }),
{
    let p = number_part(a);
    let q = number_part(b);
    assert(p[0] == a && q[0] == b);
    if a != b {
        assert(settled_at(p, q, 0));
    }
    if a < b {
        assert(diverges(p, q, 0));
    } else if b < a {
        assert(diverges(q, p, 0));
        precedes_is_asymmetric(q, p);
    }
}

pub fn rank_counts(a: u64, b: u64) -> (r: Rank)
    ensures
        r == rank_of(number_part(a as int), number_part(b as int)),
{
    proof {
        numbers_settle(a as int, b as int);
    }
    if a < b {
        Rank::Before
    } else if a == b {
        Rank::Same
    } else {
        Rank::After
    }
}

/// The code of a text, with an end that comes before every character.
pub open spec fn text_part(s: Seq<char>) -> Seq<int> {
    text_code(s) + seq![-1int]
}

proof fn char_is_no_negative_number(c: char)
    ensures
        c as int >= 0,
{
}

proof fn code_is_no_negative_number(s: Seq<char>, i: int)
    requires
        0 <= i < s.len(),
    ensures
        text_code(s)[i] >= 0,
{
    let c = s[i];
    assert(text_code(s)[i] == c as int);
    char_is_no_negative_number(c);
}

pub proof fn texts_settle(a: Seq<char>, b: Seq<char>)
    ensures
        settled(text_part(a), text_part(b)),
        text_part(a) == text_part(b) ==> a == b,
        rank_of(text_part(a), text_part(b)) == rank_of(text_code(a), text_code(b)),
{
    let x = text_code(a);
    let y = text_code(b);
    if x == y {
        text_code_is_injective(a, b);
    } else {
        if precedes(x, y) {
            ended_text_precedes(a, b);
        } else {
            precedes_is_total(x, y);
            ended_text_precedes(b, a);
            let k = choose|k: int| #[trigger] settled_at(text_part(b), text_part(a), k);
            assert(settled_at(text_part(a), text_part(b), k));
        }
    }
}

proof fn ended_text_precedes(a: Seq<char>, b: Seq<char>)
    requires
        precedes(text_code(a), text_code(b)),
    ensures
        precedes(text_part(a), text_part(b)),
        !precedes(text_part(b), text_part(a)),
        text_part(a) != text_part(b),
        exists|k: int| #[trigger] settled_at(text_part(a), text_part(b), k),
{
    let x = text_code(a);
    let y = text_code(b);
    let p = text_part(a);
    let q = text_part(b);
    let k = choose|k: int| #[trigger] diverges(x, y, k);
    assert forall|i: int| 0 <= i < k implies p[i] == q[i] by {
        assert(p[i] == x[i] && q[i] == y[i]);
    }
    assert(q[k] == y[k]);
    if k == x.len() {
        assert(p[k] == -1);
        code_is_no_negative_number(b, k);
    } else {
        assert(p[k] == x[k]);
    }
    assert(diverges(p, q, k));
    assert(settled_at(p, q, k));
    precedes_is_asymmetric(p, q);
}

impl Part for String {
    type Seen = Seq<char>;

    open spec fn seen(&self) -> Seq<char> {
        self@
    }

    open spec fn part(seen: Seq<char>) -> Seq<int> {
        text_part(seen)
    }

    proof fn parts_settle(a: Seq<char>, b: Seq<char>) {
        texts_settle(a, b);
    }

    fn rank_part(&self, other: &Self) -> (r: Rank) {
        proof {
            texts_settle(self@, other@);
        }
        rank_texts(self, other)
    }
}

impl JsonPart for String {
    open spec fn part_json(seen: Seq<char>) -> JsonTree {
        JsonTree::Text(seen)
    }

    fn copy_part(&self) -> (r: Self) {
        self.clone()
    }

    fn part_to_json(&self) -> (r: serde_json::Value) {
        json_text(self)
    }
}

impl Part for ContentHash {
    type Seen = Seq<char>;

    open spec fn seen(&self) -> Seq<char> {
        self@
    }

    open spec fn part(seen: Seq<char>) -> Seq<int> {
        text_part(seen)
    }

    proof fn parts_settle(a: Seq<char>, b: Seq<char>) {
        texts_settle(a, b);
    }

    fn rank_part(&self, other: &Self) -> (r: Rank) {
        proof {
            texts_settle(self@, other@);
        }
        rank_texts(self.as_str(), other.as_str())
    }
}

impl JsonPart for ContentHash {
    open spec fn part_json(seen: Seq<char>) -> JsonTree {
        JsonTree::Text(seen)
    }

    fn copy_part(&self) -> (r: Self) {
        self.clone()
    }

    fn part_to_json(&self) -> (r: serde_json::Value) {
        json_text(self.as_str())
    }
}

impl Part for bool {
    type Seen = bool;

    open spec fn seen(&self) -> bool {
        *self
    }

    open spec fn part(seen: bool) -> Seq<int> {
        number_part(
            if seen {
                1
            } else {
                0
            },
        )
    }

    proof fn parts_settle(a: bool, b: bool) {
        numbers_settle(
            if a {
                1
            } else {
                0
            },
            if b {
                1
            } else {
                0
            },
        );
    }

    fn rank_part(&self, other: &Self) -> (r: Rank) {
        rank_counts(
            if *self {
                1
            } else {
                0
            },
            if *other {
                1
            } else {
                0
            },
        )
    }
}

impl JsonPart for bool {
    open spec fn part_json(seen: bool) -> JsonTree {
        JsonTree::Bool(seen)
    }

    fn copy_part(&self) -> (r: Self) {
        *self
    }

    fn part_to_json(&self) -> (r: serde_json::Value) {
        json_bool(*self)
    }
}

impl Part for u32 {
    type Seen = u32;

    open spec fn seen(&self) -> u32 {
        *self
    }

    open spec fn part(seen: u32) -> Seq<int> {
        number_part(seen as int)
    }

    proof fn parts_settle(a: u32, b: u32) {
        numbers_settle(a as int, b as int);
    }

    fn rank_part(&self, other: &Self) -> (r: Rank) {
        rank_counts(*self as u64, *other as u64)
    }
}

impl JsonPart for u32 {
    open spec fn part_json(seen: u32) -> JsonTree {
        JsonTree::Number(seen as int)
    }

    fn copy_part(&self) -> (r: Self) {
        *self
    }

    fn part_to_json(&self) -> (r: serde_json::Value) {
        json_unsigned(*self as u64)
    }
}

impl Part for u64 {
    type Seen = u64;

    open spec fn seen(&self) -> u64 {
        *self
    }

    open spec fn part(seen: u64) -> Seq<int> {
        number_part(seen as int)
    }

    proof fn parts_settle(a: u64, b: u64) {
        numbers_settle(a as int, b as int);
    }

    fn rank_part(&self, other: &Self) -> (r: Rank) {
        rank_counts(*self, *other)
    }
}

impl JsonPart for u64 {
    open spec fn part_json(seen: u64) -> JsonTree {
        JsonTree::Number(seen as int)
    }

    fn copy_part(&self) -> (r: Self) {
        *self
    }

    fn part_to_json(&self) -> (r: serde_json::Value) {
        json_unsigned(*self)
    }
}

/// A part that is only lent.
impl<'a, T: Part> Part for &'a T {
    type Seen = T::Seen;

    open spec fn seen(&self) -> T::Seen {
        (**self).seen()
    }

    open spec fn part(seen: T::Seen) -> Seq<int> {
        T::part(seen)
    }

    proof fn parts_settle(a: T::Seen, b: T::Seen) {
        T::parts_settle(a, b);
    }

    fn rank_part(&self, other: &Self) -> (r: Rank) {
        (**self).rank_part(*other)
    }
}

/// Two parts, of which the first goes before the second.
impl<A: Part, B: Part> Part for (A, B) {
    type Seen = (A::Seen, B::Seen);

    open spec fn seen(&self) -> (A::Seen, B::Seen) {
        (self.0.seen(), self.1.seen())
    }

    open spec fn part(seen: (A::Seen, B::Seen)) -> Seq<int> {
        A::part(seen.0) + B::part(seen.1)
    }

    proof fn parts_settle(a: (A::Seen, B::Seen), b: (A::Seen, B::Seen)) {
        A::parts_settle(a.0, b.0);
        B::parts_settle(a.1, b.1);
        joined_codes(A::part(a.0), A::part(b.0), B::part(a.1), B::part(b.1));
    }

    fn rank_part(&self, other: &Self) -> (r: Rank) {
        proof {
            let a = self.seen();
            let b = other.seen();
            A::parts_settle(a.0, b.0);
            joined_codes(A::part(a.0), A::part(b.0), B::part(a.1), B::part(b.1));
        }
        match self.0.rank_part(&other.0) {
            Rank::Same => self.1.rank_part(&other.1),
            rank => rank,
        }
    }
}

/// An absent part comes first.
impl<T: Part> Part for Option<T> {
    type Seen = Option<T::Seen>;

    open spec fn seen(&self) -> Option<T::Seen> {
        match self {
            Some(value) => Some(value.seen()),
            None => None,
        }
    }

    open spec fn part(seen: Option<T::Seen>) -> Seq<int> {
        match seen {
            Some(value) => number_part(1) + T::part(value),
            None => number_part(0) + Seq::<int>::empty(),
        }
    }

    proof fn parts_settle(a: Option<T::Seen>, b: Option<T::Seen>) {
        match (a, b) {
            (Some(x), Some(y)) => {
                numbers_settle(1, 1);
                T::parts_settle(x, y);
                joined_codes(number_part(1), number_part(1), T::part(x), T::part(y));
            },
            (Some(x), None) => {
                numbers_settle(1, 0);
                joined_codes(number_part(1), number_part(0), T::part(x), Seq::<int>::empty());
                settled_stays(number_part(1), number_part(0), T::part(x), Seq::<int>::empty());
            },
            (None, Some(y)) => {
                numbers_settle(0, 1);
                joined_codes(number_part(0), number_part(1), Seq::<int>::empty(), T::part(y));
                settled_stays(number_part(0), number_part(1), Seq::<int>::empty(), T::part(y));
            },
            (None, None) => {},
        }
    }

    fn rank_part(&self, other: &Self) -> (r: Rank) {
        match (self, other) {
            (Some(x), Some(y)) => {
                proof {
                    numbers_settle(1, 1);
                    joined_codes(
                        number_part(1),
                        number_part(1),
                        T::part(x.seen()),
                        T::part(y.seen()),
                    );
                }
                x.rank_part(y)
            },
            (Some(x), None) => {
                proof {
                    numbers_settle(1, 0);
                    joined_codes(
                        number_part(1),
                        number_part(0),
                        T::part(x.seen()),
                        Seq::<int>::empty(),
                    );
                }
                Rank::After
            },
            (None, Some(y)) => {
                proof {
                    numbers_settle(0, 1);
                    joined_codes(
                        number_part(0),
                        number_part(1),
                        Seq::<int>::empty(),
                        T::part(y.seen()),
                    );
                }
                Rank::Before
            },
            (None, None) => Rank::Same,
        }
    }
}

impl<T: JsonPart> JsonPart for Option<T> {
    open spec fn part_json(seen: Option<T::Seen>) -> JsonTree {
        match seen {
            Some(value) => T::part_json(value),
            None => JsonTree::Null,
        }
    }

    fn copy_part(&self) -> (r: Self) {
        match self {
            Some(value) => Some(value.copy_part()),
            None => None,
        }
    }

    fn part_to_json(&self) -> (r: serde_json::Value) {
        match self {
            Some(value) => value.part_to_json(),
            None => json_null(),
        }
    }
}

/// Codes that differ stay settled whatever follows.
pub proof fn settled_stays(a: Seq<int>, b: Seq<int>, x: Seq<int>, y: Seq<int>)
    requires
        settled(a, b),
        a != b,
    ensures
        settled(a + x, b + y),
{
    let k = choose|k: int| #[trigger] settled_at(a, b, k);
    assert forall|i: int| 0 <= i <= k implies (a + x)[i] == a[i] && (b + y)[i] == b[i] by {}
    assert(settled_at(a + x, b + y, k));
}

impl Part for ArtifactRef {
    type Seen = RefView;

    open spec fn seen(&self) -> RefView {
        self@
    }

    open spec fn part(seen: RefView) -> Seq<int> {
        <ArtifactRef as Key>::code(seen)
    }

    proof fn parts_settle(a: RefView, b: RefView) {
        let x = text_part(a.artifact_id);
        let y = text_part(b.artifact_id);
        let m = number_part(a.kind.place() as int);
        let n = number_part(b.kind.place() as int);
        assert(<ArtifactRef as Key>::code(a) =~= x + m);
        assert(<ArtifactRef as Key>::code(b) =~= y + n);
        texts_settle(a.artifact_id, b.artifact_id);
        numbers_settle(a.kind.place() as int, b.kind.place() as int);
        joined_codes(x, y, m, n);
        if Self::part(a) == Self::part(b) {
            <ArtifactRef as Key>::code_is_injective(a, b);
        }
    }

    fn rank_part(&self, other: &Self) -> (r: Rank) {
        self.rank(other)
    }
}

impl JsonPart for ArtifactRef {
    open spec fn part_json(seen: RefView) -> JsonTree {
        crate::artifact::ref_json(seen)
    }

    fn copy_part(&self) -> (r: Self) {
        self.clone()
    }

    fn part_to_json(&self) -> (r: serde_json::Value) {
        proof {
            assert(self.json() == crate::artifact::ref_json(self@));
        }
        self.to_json()
    }
}

impl Part for UtcTime {
    type Seen = UtcTime;

    open spec fn seen(&self) -> UtcTime {
        *self
    }

    open spec fn part(seen: UtcTime) -> Seq<int> {
        number_part(seen.secs()) + number_part(seen.nanos())
    }

    proof fn parts_settle(a: UtcTime, b: UtcTime) {
        numbers_settle(a.secs(), b.secs());
        numbers_settle(a.nanos(), b.nanos());
        joined_codes(
            number_part(a.secs()),
            number_part(b.secs()),
            number_part(a.nanos()),
            number_part(b.nanos()),
        );
        crate::time::instants_are_their_parts(a, b);
    }

    fn rank_part(&self, other: &Self) -> (r: Rank) {
        proof {
            numbers_settle(self.secs(), other.secs());
            numbers_settle(self.nanos(), other.nanos());
            joined_codes(
                number_part(self.secs()),
                number_part(other.secs()),
                number_part(self.nanos()),
                number_part(other.nanos()),
            );
        }
        if self.is_before(other) {
            Rank::Before
        } else if other.is_before(self) {
            Rank::After
        } else {
            Rank::Same
        }
    }
}

impl JsonPart for UtcTime {
    open spec fn part_json(seen: UtcTime) -> JsonTree {
        JsonTree::Text(rfc3339_text(seen.secs(), seen.nanos()))
    }

    fn copy_part(&self) -> (r: Self) {
        *self
    }

    fn part_to_json(&self) -> (r: serde_json::Value) {
        self.to_json()
    }
}

} // verus!
