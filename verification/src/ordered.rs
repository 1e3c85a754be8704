//! Sets and maps over ordered keys, held as strictly ascending vectors.
//!
//! A key stands in the order by its code, a sequence of integers; codes are compared
//! position by position and a proper prefix comes first.
use vstd::prelude::*;

verus! {

/// How the first of two keys stands to the second.
#[derive(Clone, Copy, Debug, PartialEq, Eq, Structural)]
pub enum Rank {
    Before,
    Same,
    After,
}

/// `a` and `b` agree below `k`, and at `k` the code `a` has ended or holds the smaller number.
pub open spec fn diverges(a: Seq<int>, b: Seq<int>, k: int) -> bool {
    &&& 0 <= k <= a.len()
    &&& k < b.len()
    &&& forall|i: int| 0 <= i < k ==> a[i] == b[i]
    &&& k == a.len() || a[k] < b[k]
}

/// The strict order of codes.
pub open spec fn precedes(a: Seq<int>, b: Seq<int>) -> bool {
    exists|k: int| #[trigger] diverges(a, b, k)
}

pub open spec fn rank_of(a: Seq<int>, b: Seq<int>) -> Rank {
    if a == b {
        Rank::Same
    } else if precedes(a, b) {
        Rank::Before
    } else {
        Rank::After
    }
}

/// No code precedes itself, and of two codes at most one precedes the other.
pub proof fn precedes_is_asymmetric(a: Seq<int>, b: Seq<int>)
    requires
        precedes(a, b),
    ensures
        a != b,
        !precedes(b, a),
{
    let k = choose|k: int| #[trigger] diverges(a, b, k);
    if precedes(b, a) {
        let j = choose|j: int| #[trigger] diverges(b, a, j);
        if k < j {
            assert(b[k] == a[k]);
        } else if j < k {
            assert(a[j] == b[j]);
        }
    }
}

pub proof fn precedes_is_transitive(a: Seq<int>, b: Seq<int>, c: Seq<int>)
    requires
        precedes(a, b),
        precedes(b, c),
    ensures
        precedes(a, c),
{
    let k = choose|k: int| #[trigger] diverges(a, b, k);
    let j = choose|j: int| #[trigger] diverges(b, c, j);
    if k <= j {
        assert(diverges(a, c, k));
    } else {
        assert(diverges(a, c, j));
    }
}

/// Two different codes are ordered one way or the other.
pub proof fn precedes_is_total(a: Seq<int>, b: Seq<int>)
    requires
        a != b,
    ensures
        precedes(a, b) || precedes(b, a),
{
    precedes_or_shares_prefix(a, b, 0);
}

proof fn precedes_or_shares_prefix(a: Seq<int>, b: Seq<int>, n: int)
    requires
        a != b,
        0 <= n <= a.len(),
        n <= b.len(),
        forall|i: int| 0 <= i < n ==> a[i] == b[i],
    ensures
        precedes(a, b) || precedes(b, a),
    decreases a.len() - n,
{
    if n == a.len() {
        if n == b.len() {
            assert(a =~= b);
        } else {
            assert(diverges(a, b, n));
        }
    } else if n == b.len() {
        assert(diverges(b, a, n));
    } else if a[n] < b[n] {
        assert(diverges(a, b, n));
    } else if a[n] > b[n] {
        assert(diverges(b, a, n));
    } else {
        precedes_or_shares_prefix(a, b, n + 1);
    }
}

/// A key of an ordered collection.
pub trait Key: View + Sized {
    /// Where a key stands in the order.
    spec fn code(key: Self::V) -> Seq<int>;

    proof fn code_is_injective(a: Self::V, b: Self::V)
        requires
            Self::code(a) == Self::code(b),
        ensures
            a == b,
    ;

    fn rank(&self, other: &Self) -> (r: Rank)
        ensures
            r == rank_of(Self::code(self@), Self::code(other@)),
    ;

    fn duplicate(&self) -> (r: Self)
        ensures
            r@ == self@,
    ;
}

/// How two numbers stand to each other, as codes of one number each.
pub fn rank_numbers(a: u32, b: u32) -> (r: Rank)
    ensures
        r == rank_of(seq![a as int], seq![b as int]),
{
    let ghost x = seq![a as int];
    let ghost y = seq![b as int];
    proof {
        assert(x[0] == a as int && y[0] == b as int);
        if a < b {
            assert(diverges(x, y, 0));
        } else if a > b {
            assert(diverges(y, x, 0));
            precedes_is_asymmetric(y, x);
        }
    }
    if a < b {
        Rank::Before
    } else if a == b {
        Rank::Same
    } else {
        Rank::After
    }
}

pub open spec fn ascending<K: Key>(keys: Seq<K::V>) -> bool {
    forall|i: int, j: int|
        0 <= i < j < keys.len() ==> precedes(K::code(#[trigger] keys[i]), K::code(#[trigger] keys[j]))
}

pub open spec fn views<K: Key>(items: Seq<K>) -> Seq<K::V> {
    items.map_values(|k: K| k@)
}

/// Ascending keys do not repeat.
pub proof fn ascending_has_no_duplicates<K: Key>(keys: Seq<K::V>)
    requires
        ascending::<K>(keys),
    ensures
        keys.no_duplicates(),
        keys.to_set().len() == keys.len(),
        keys.to_set().finite(),
{
    assert forall|i: int, j: int| 0 <= i < keys.len() && 0 <= j < keys.len() && i != j implies keys[i]
        != keys[j] by {
        if i < j {
            precedes_is_asymmetric(K::code(keys[i]), K::code(keys[j]));
        } else {
            precedes_is_asymmetric(K::code(keys[j]), K::code(keys[i]));
        }
    }
    keys.unique_seq_to_set();
    vstd::seq_lib::seq_to_set_is_finite(keys);
}

/// The place of a key in ascending keys: where it is, or where it would be put in.
fn locate<K: Key>(items: &Vec<K>, key: &K) -> (r: (bool, usize))
    requires
        ascending::<K>(views(items@)),
    ensures
        r.1 <= items.len(),
        r.0 == views(items@).to_set().contains(key@),
        r.0 ==> r.1 < items.len() && items@[r.1 as int]@ == key@,
        forall|i: int| 0 <= i < r.1 ==> precedes(K::code(#[trigger] items@[i]@), K::code(key@)),
        forall|i: int|
            r.1 <= i < items.len() && !r.0 ==> precedes(K::code(key@), K::code(#[trigger] items@[i]@)),
{
    let mut n: usize = 0;
    while n < items.len()
        invariant
            n <= items.len(),
            ascending::<K>(views(items@)),
            forall|i: int| 0 <= i < n ==> precedes(K::code(#[trigger] items@[i]@), K::code(key@)),
        decreases items.len() - n,
    {
        let ghost keys = views(items@);
        match items[n].rank(key) {
            Rank::Before => {
                n += 1;
            },
            Rank::Same => {
                proof {
                    K::code_is_injective(items@[n as int]@, key@);
                    assert(keys[n as int] == key@);
                }
                return (true, n);
            },
            Rank::After => {
                proof {
                    precedes_is_total(K::code(items@[n as int]@), K::code(key@));
                    assert forall|i: int| n <= i < items.len() implies precedes(
                        K::code(key@),
                        K::code(#[trigger] items@[i]@),
                    ) by {
                        if i > n {
                            assert(precedes(K::code(keys[n as int]), K::code(keys[i])));
                            precedes_is_transitive(
                                K::code(key@),
                                K::code(items@[n as int]@),
                                K::code(items@[i]@),
                            );
                        }
                    }
                    absent_between(items@, key@, n as int);
                }
                return (false, n);
            },
        }
    }
    proof {
        absent_between(items@, key@, n as int);
    }
    (false, n)
}

proof fn absent_between<K: Key>(items: Seq<K>, key: K::V, n: int)
    requires
        0 <= n <= items.len(),
        forall|i: int| 0 <= i < n ==> precedes(K::code(#[trigger] items[i]@), K::code(key)),
        forall|i: int| n <= i < items.len() ==> precedes(K::code(key), K::code(#[trigger] items[i]@)),
    ensures
        !views(items).to_set().contains(key),
{
    let keys = views(items);
    if keys.to_set().contains(key) {
        let i = choose|i: int| 0 <= i < keys.len() && keys[i] == key;
        assert(items[i]@ == key);
        if i < n {
            precedes_is_asymmetric(K::code(items[i]@), K::code(key));
        } else {
            precedes_is_asymmetric(K::code(key), K::code(items[i]@));
        }
    }
}

/// One key does not come after the other.
pub open spec fn not_after<K: Key>() -> spec_fn(K::V, K::V) -> bool {
    |a: K::V, b: K::V| !precedes(K::code(b), K::code(a))
}

/// The keys in order, each as often as it is listed.
pub open spec fn sorted<K: Key>(keys: Seq<K::V>) -> Seq<K::V> {
    keys.sort_by(not_after::<K>())
}

pub proof fn not_after_is_total_ordering<K: Key>()
    ensures
        vstd::relations::total_ordering(not_after::<K>()),
{
    let leq = not_after::<K>();
    assert forall|a: K::V| #[trigger] leq(a, a) by {
        if precedes(K::code(a), K::code(a)) {
            precedes_is_asymmetric(K::code(a), K::code(a));
        }
    }
    assert forall|a: K::V, b: K::V| #[trigger] leq(a, b) && #[trigger] leq(b, a) implies a == b by {
        if K::code(a) != K::code(b) {
            precedes_is_total(K::code(a), K::code(b));
        }
        K::code_is_injective(a, b);
    }
    assert forall|a: K::V, b: K::V, c: K::V| #[trigger] leq(a, b) && #[trigger] leq(b, c) implies leq(
        a,
        c,
    ) by {
        if precedes(K::code(c), K::code(a)) {
            if K::code(b) == K::code(a) {
            } else {
                precedes_is_total(K::code(b), K::code(a));
                precedes_is_transitive(K::code(c), K::code(a), K::code(b));
            }
        }
    }
    assert forall|a: K::V, b: K::V| #[trigger] leq(a, b) || #[trigger] leq(b, a) by {
        if precedes(K::code(b), K::code(a)) {
            precedes_is_asymmetric(K::code(b), K::code(a));
        }
    }
}

/// Sorting depends only on which keys are listed and how often.
pub proof fn sorted_ignores_order<K: Key>(a: Seq<K::V>, b: Seq<K::V>)
    requires
        a.to_multiset() == b.to_multiset(),
    ensures
        sorted::<K>(a) == sorted::<K>(b),
{
    not_after_is_total_ordering::<K>();
    a.lemma_sort_by_ensures(not_after::<K>());
    b.lemma_sort_by_ensures(not_after::<K>());
    vstd::seq_lib::lemma_sorted_unique(sorted::<K>(a), sorted::<K>(b), not_after::<K>());
}

/// Keys that ascend are sorted.
pub proof fn ascending_is_sorted<K: Key>(keys: Seq<K::V>)
    requires
        ascending::<K>(keys),
    ensures
        sorted::<K>(keys) == keys,
{
    not_after_is_total_ordering::<K>();
    keys.lemma_sort_by_ensures(not_after::<K>());
    let leq = not_after::<K>();
    assert forall|i: int, j: int| 0 <= i < j < keys.len() implies #[trigger] leq(keys[i], keys[j]) by {
        precedes_is_asymmetric(K::code(keys[i]), K::code(keys[j]));
    }
    vstd::seq_lib::lemma_sorted_unique(sorted::<K>(keys), keys, leq);
}

/// The keys of a finite set in ascending order.
pub open spec fn listing<K: Key>(keys: Set<K::V>) -> Seq<K::V> {
    choose|list: Seq<K::V>| #[trigger] ascending::<K>(list) && list.to_set() == keys
}

/// Ascending keys are determined by which they are.
pub proof fn ascending_keys_are_determined<K: Key>(a: Seq<K::V>, b: Seq<K::V>)
    requires
        ascending::<K>(a),
        ascending::<K>(b),
        a.to_set() == b.to_set(),
    ensures
        a == b,
    decreases a.len(),
{
    ascending_has_no_duplicates::<K>(a);
    ascending_has_no_duplicates::<K>(b);
    if a.len() > 0 {
        let x = a.last();
        let y = b.last();
        assert(a.to_set().contains(x) && b.to_set().contains(y));
        assert(b.to_set().contains(x) && a.to_set().contains(y));
        let i = choose|i: int| 0 <= i < b.len() && b[i] == x;
        let j = choose|j: int| 0 <= j < a.len() && a[j] == y;
        if i < b.len() - 1 {
            assert(precedes(K::code(b[i]), K::code(b[b.len() - 1])));
            if j < a.len() - 1 {
                assert(precedes(K::code(a[j]), K::code(a[a.len() - 1])));
                precedes_is_asymmetric(K::code(x), K::code(y));
            }
        }
        assert(x == y);
        let p = a.drop_last();
        let q = b.drop_last();
        assert(p.to_set() =~= a.to_set().remove(x)) by {
            assert forall|v: K::V| p.to_set().contains(v) == a.to_set().remove(x).contains(v) by {
                if p.to_set().contains(v) {
                    let k = choose|k: int| 0 <= k < p.len() && p[k] == v;
                    assert(a[k] == v);
                }
                if a.to_set().contains(v) && v != x {
                    let k = choose|k: int| 0 <= k < a.len() && a[k] == v;
                    assert(p[k] == v);
                }
            }
        }
        assert(q.to_set() =~= b.to_set().remove(y)) by {
            assert forall|v: K::V| q.to_set().contains(v) == b.to_set().remove(y).contains(v) by {
                if q.to_set().contains(v) {
                    let k = choose|k: int| 0 <= k < q.len() && q[k] == v;
                    assert(b[k] == v);
                }
                if b.to_set().contains(v) && v != y {
                    let k = choose|k: int| 0 <= k < b.len() && b[k] == v;
                    assert(q[k] == v);
                }
            }
        }
        ascending_keys_are_determined::<K>(p, q);
        assert(a =~= p.push(x));
        assert(b =~= q.push(y));
    } else {
        assert(b =~= a);
    }
}

/// Ascending keys are the listing of their set.
pub proof fn ascending_is_listing<K: Key>(keys: Seq<K::V>)
    requires
        ascending::<K>(keys),
    ensures
        listing::<K>(keys.to_set()) == keys,
{
    ascending_keys_are_determined::<K>(listing::<K>(keys.to_set()), keys);
}

/// Puts the listed keys in order.
pub fn sort_keys<K: Key>(list: Vec<K>) -> (r: Vec<K>)
    ensures
        views(r@) == sorted::<K>(views(list@)),
{
    let mut r: Vec<K> = Vec::new();
    let ghost all = list@;
    let mut rest = list;
    let ghost leq = not_after::<K>();
    proof {
        not_after_is_total_ordering::<K>();
        assert(views(all).skip(all.len() as int) =~= Seq::<K::V>::empty());
        assert(views(r@) =~= Seq::<K::V>::empty());
    }
    while rest.len() > 0
        invariant
            rest@ == all.take(rest@.len() as int),
            rest@.len() <= all.len(),
            leq == not_after::<K>(),
            vstd::relations::total_ordering(leq),
            vstd::relations::sorted_by(views(r@), leq),
            views(r@).to_multiset() == views(all).skip(rest@.len() as int).to_multiset(),
        decreases rest.len(),
    {
        let ghost n = rest@.len() as int;
        match rest.pop() {
            Some(item) => {
                proof {
                    assert(item == all[n - 1]);
                    let tail = views(all).skip(n);
                    assert(views(all).skip(n - 1) =~= tail.insert(0, item@));
                    vstd::seq_lib::to_multiset_insert(tail, 0, item@);
                }
                let mut at: usize = 0;
                while at < r.len() && matches!(r[at].rank(&item), Rank::Before)
                    invariant
                        at <= r.len(),
                        forall|j: int| 0 <= j < at ==> precedes(K::code(#[trigger] r@[j]@), K::code(item@)),
                    decreases r.len() - at,
                {
                    at += 1;
                }
                let ghost was = views(r@);
                let ghost held = r@;
                r.insert(at, item);
                proof {
                    let k = at as int;
                    assert(views(r@) =~= was.insert(k, item@));
                    vstd::seq_lib::to_multiset_insert(was, k, item@);
                    let now = views(r@);
                    assert forall|i: int, j: int| 0 <= i < j < now.len() implies #[trigger] leq(now[i], now[j]) by {
                        if i < k && j == k {
                            assert(now[i] == held[i]@);
                            precedes_is_asymmetric(K::code(held[i]@), K::code(item@));
                        } else if i == k {
                            assert(was[j - 1] == now[j]);
                            assert(leq(item@, was[k]));
                            if k < j - 1 {
                                assert(leq(was[k], was[j - 1]));
                            }
                        } else {
                            let a = if i < k { i } else { i - 1 };
                            let b = if j < k { j } else { j - 1 };
                            assert(now[i] == was[a] && now[j] == was[b]);
                            assert(leq(was[a], was[b]));
                        }
                    }
                }
            },
            None => {},
        }
    }
    proof {
        assert(views(all).skip(0) =~= views(all));
        views(all).lemma_sort_by_ensures(leq);
        vstd::seq_lib::lemma_sorted_unique(views(r@), sorted::<K>(views(all)), leq);
    }
    r
}

/// Whether no key is listed twice.
pub fn are_distinct<K: Key>(items: &Vec<K>) -> (r: bool)
    ensures
        r == views(items@).no_duplicates(),
{
    let ghost keys = views(items@);
    let mut n: usize = 0;
    while n < items.len()
        invariant
            n <= items.len(),
            keys == views(items@),
            forall|i: int, j: int| 0 <= i < j < n ==> keys[i] != keys[j],
        decreases items.len() - n,
    {
        let mut k: usize = 0;
        while k < n
            invariant
                k <= n < items.len(),
                keys == views(items@),
                forall|i: int| 0 <= i < k ==> keys[i] != keys[n as int],
            decreases n - k,
        {
            if same_key(&items[k], &items[n]) {
                proof {
                    assert(keys[k as int] == keys[n as int]);
                }
                return false;
            }
            k += 1;
        }
        n += 1;
    }
    true
}

pub fn same_key<K: Key>(a: &K, b: &K) -> (r: bool)
    ensures
        r == (a@ == b@),
{
    match a.rank(b) {
        Rank::Same => {
            proof {
                K::code_is_injective(a@, b@);
            }
            true
        },
        _ => false,
    }
}

/// Whether the listed keys ascend.
pub fn is_ascending<K: Key>(items: &Vec<K>) -> (r: bool)
    ensures
        r == ascending::<K>(views(items@)),
{
    let ghost keys = views(items@);
    if items.len() == 0 {
        return true;
    }
    let mut n: usize = 1;
    while n < items.len()
        invariant
            1 <= n <= items.len(),
            keys == views(items@),
            forall|i: int, j: int|
                0 <= i < j < n ==> precedes(K::code(#[trigger] keys[i]), K::code(#[trigger] keys[j])),
        decreases items.len() - n,
    {
        match items[n - 1].rank(&items[n]) {
            Rank::Before => {},
            _ => {
                proof {
                    assert(keys[n - 1] == items@[n - 1]@ && keys[n as int] == items@[n as int]@);
                    if precedes(K::code(keys[n - 1]), K::code(keys[n as int])) {
                        precedes_is_asymmetric(K::code(keys[n - 1]), K::code(keys[n as int]));
                    }
                }
                return false;
            },
        }
        proof {
            assert(precedes(K::code(keys[n - 1]), K::code(keys[n as int])));
            assert forall|i: int| 0 <= i < n implies precedes(K::code(#[trigger] keys[i]), K::code(keys[n as int])) by {
                if i < n - 1 {
                    precedes_is_transitive(K::code(keys[i]), K::code(keys[n - 1]), K::code(keys[n as int]));
                }
            }
        }
        n += 1;
    }
    true
}

/// A set of keys in ascending order.
#[derive(Debug, PartialEq, Eq)]
pub struct OrderedSet<K: Key> {
    items: Vec<K>,
}

impl<K: Key> View for OrderedSet<K> {
    type V = Set<K::V>;

    closed spec fn view(&self) -> Set<K::V> {
        self.keys().to_set()
    }
}

impl<K: Key> OrderedSet<K> {
    #[verifier::type_invariant]
    closed spec fn is_ordered(self) -> bool {
        ascending::<K>(views(self.items@))
    }

    /// The keys in ascending order.
    pub closed spec fn keys(&self) -> Seq<K::V> {
        views(self.items@)
    }

    pub fn new() -> (r: Self)
        ensures
            r@ == Set::<K::V>::empty(),
            r.keys() == Seq::<K::V>::empty(),
    {
        let r = OrderedSet { items: Vec::new() };
        proof {
            assert(r.keys() =~= Seq::<K::V>::empty());
            assert(r@ =~= Set::<K::V>::empty());
        }
        r
    }

    /// The number of keys. A set holds each key once, in ascending order.
    pub fn len(&self) -> (r: usize)
        ensures
            r == self.keys().len(),
            r == self@.len(),
            self@ == self.keys().to_set(),
            self.keys() == listing::<K>(self@),
            ascending::<K>(self.keys()),
            self.keys().no_duplicates(),
    {
        proof {
            use_type_invariant(self);
            ascending_has_no_duplicates::<K>(self.keys());
            ascending_is_listing::<K>(self.keys());
        }
        self.items.len()
    }

    pub fn is_empty(&self) -> (r: bool)
        ensures
            r == (self@ == Set::<K::V>::empty()),
            r == (self@.len() == 0),
            r == (self.keys().len() == 0),
    {
        proof {
            use_type_invariant(self);
            ascending_has_no_duplicates::<K>(self.keys());
            if self.items.len() > 0 {
                assert(self@.contains(self.keys()[0]));
            } else {
                assert(self@ =~= Set::<K::V>::empty());
            }
        }
        self.items.len() == 0
    }

    /// The key at a place of the ascending order.
    pub fn at(&self, i: usize) -> (r: &K)
        requires
            i < self.keys().len(),
        ensures
            r@ == self.keys()[i as int],
            self@.contains(r@),
    {
        proof {
            assert(self@.contains(self.keys()[i as int]));
        }
        &self.items[i]
    }

    pub fn contains(&self, key: &K) -> (r: bool)
        ensures
            r == self@.contains(key@),
    {
        proof {
            use_type_invariant(self);
        }
        locate(&self.items, key).0
    }

    /// Puts a key in; whether it was not there before.
    pub fn insert(&mut self, key: K) -> (r: bool)
        ensures
            final(self)@ == old(self)@.insert(key@),
            r == !old(self)@.contains(key@),
    {
        proof {
            use_type_invariant(&*self);
        }
        let mut items: Vec<K> = Vec::new();
        std::mem::swap(&mut items, &mut self.items);
        let found = locate(&items, &key);
        if found.0 {
            self.items = items;
            proof {
                assert(self@ =~= old(self)@.insert(key@));
            }
            return false;
        }
        let ghost before = items@;
        items.insert(found.1, key);
        proof {
            let n = found.1 as int;
            assert(items@ == before.insert(n, key));
            assert(views(items@) =~= views(before).insert(n, key@));
            let keys = views(items@);
            let from = views(before);
            assert forall|i: int, j: int| 0 <= i < j < keys.len() implies precedes(
                K::code(#[trigger] keys[i]),
                K::code(#[trigger] keys[j]),
            ) by {
                if i < n && j == n {
                    assert(keys[i] == before[i]@);
                } else if i == n && j > n {
                    assert(keys[j] == before[j - 1]@);
                } else {
                    let a = if i < n { i } else { i - 1 };
                    let b = if j < n { j } else { j - 1 };
                    assert(keys[i] == from[a] && keys[j] == from[b]);
                }
            }
            inserted_elements(from, n, key@);
        }
        self.items = items;
        true
    }

    /// Puts a key in where it is wanted.
    pub fn insert_if(&mut self, wanted: bool, key: K)
        ensures
            final(self)@ == (if wanted {
                old(self)@.insert(key@)
            } else {
                old(self)@
            }),
            forall|k: K::V| #[trigger]
                final(self)@.contains(k) <==> old(self)@.contains(k) || (wanted && k == key@),
    {
        if wanted {
            self.insert(key);
        }
    }

    /// The set of the listed keys.
    pub fn from_vec(list: Vec<K>) -> (r: Self)
        ensures
            r@ == views(list@).to_set(),
    {
        let mut r = OrderedSet::new();
        let ghost all = list@;
        let mut rest = list;
        proof {
            assert(views(all).skip(all.len() as int).to_set() =~= Set::<K::V>::empty());
        }
        while rest.len() > 0
            invariant
                rest@ == all.take(rest@.len() as int),
                rest@.len() <= all.len(),
                r@ == views(all).skip(rest@.len() as int).to_set(),
            decreases rest.len(),
        {
            let ghost n = rest@.len() as int;
            let ghost was = r@;
            match rest.pop() {
                Some(key) => {
                    proof {
                        assert(key == all[n - 1]);
                        let tail = views(all).skip(n - 1);
                        assert(tail =~= seq![key@] + views(all).skip(n));
                        assert(tail.to_set() =~= was.insert(key@)) by {
                            assert forall|v: K::V| tail.to_set().contains(v) == was.insert(key@).contains(v) by {
                                if was.contains(v) {
                                    let i = choose|i: int| 0 <= i < views(all).skip(n).len() && views(all).skip(n)[i] == v;
                                    assert(tail[i + 1] == v);
                                }
                                if v == key@ {
                                    assert(tail[0] == v);
                                }
                                if tail.to_set().contains(v) && v != key@ {
                                    let i = choose|i: int| 0 <= i < tail.len() && tail[i] == v;
                                    assert(views(all).skip(n)[i - 1] == v);
                                }
                            }
                        }
                    }
                    r.insert(key);
                },
                None => {},
            }
        }
        proof {
            assert(views(all).skip(0) =~= views(all));
        }
        r
    }

    /// The keys in ascending order.
    pub fn into_vec(self) -> (r: Vec<K>)
        ensures
            views(r@) == listing::<K>(self@),
            ascending::<K>(views(r@)),
            views(r@).to_set() == self@,
    {
        proof {
            use_type_invariant(&self);
            ascending_is_listing::<K>(self.keys());
        }
        self.items
    }

    pub fn is_subset(&self, other: &Self) -> (r: bool)
        ensures
            r == self@.subset_of(other@),
    {
        let mut i: usize = 0;
        while i < self.items.len()
            invariant
                i <= self.items.len(),
                forall|j: int| 0 <= j < i ==> other@.contains(#[trigger] self.keys()[j]),
            decreases self.items.len() - i,
        {
            if !other.contains(&self.items[i]) {
                proof {
                    assert(self@.contains(self.keys()[i as int]));
                }
                return false;
            }
            i += 1;
        }
        true
    }

    pub fn is_disjoint(&self, other: &Self) -> (r: bool)
        ensures
            r == self@.disjoint(other@),
    {
        let mut i: usize = 0;
        while i < self.items.len()
            invariant
                i <= self.items.len(),
                forall|j: int| 0 <= j < i ==> !other@.contains(#[trigger] self.keys()[j]),
            decreases self.items.len() - i,
        {
            if other.contains(&self.items[i]) {
                proof {
                    assert(self@.contains(self.keys()[i as int]));
                }
                return false;
            }
            i += 1;
        }
        true
    }

    /// The number of keys that another set holds too.
    pub fn common(&self, other: &Self) -> (r: usize)
        ensures
            r == self@.intersect(other@).len(),
            self@.finite(),
            other@.finite(),
    {
        let n: usize = self.len();
        let m: usize = other.len();
        let ghost keys = self.keys();
        let mut i: usize = 0;
        let mut found: usize = 0;
        proof {
            vstd::seq_lib::seq_to_set_is_finite(self.keys());
            vstd::seq_lib::seq_to_set_is_finite(other.keys());
            assert(keys.take(0).to_set().intersect(other@) =~= Set::<K::V>::empty());
        }
        while i < n
            invariant
                i <= n,
                found <= i,
                keys == self.keys(),
                n == keys.len(),
                keys.no_duplicates(),
                found == keys.take(i as int).to_set().intersect(other@).len(),
            decreases n - i,
        {
            let ghost part = keys.take(i as int).to_set();
            let ghost key = keys[i as int];
            proof {
                assert(keys.take(i + 1) =~= keys.take(i as int).push(key));
                keys.take(i as int).lemma_push_to_set_commute(key);
                vstd::seq_lib::seq_to_set_is_finite(keys.take(i as int));
                if part.contains(key) {
                    let j = choose|j: int| 0 <= j < keys.take(i as int).len() && keys.take(i as int)[j] == key;
                    assert(keys[j] == keys[i as int]);
                }
                if other@.contains(key) {
                    assert(part.insert(key).intersect(other@) =~= part.intersect(other@).insert(key));
                } else {
                    assert(part.insert(key).intersect(other@) =~= part.intersect(other@));
                }
            }
            if other.contains(self.at(i)) {
                found += 1;
            }
            i += 1;
        }
        proof {
            assert(keys.take(keys.len() as int) =~= keys);
        }
        found
    }

    /// Puts all keys of another set in.
    pub fn extend_from(&mut self, other: &Self)
        ensures
            final(self)@ == old(self)@.union(other@),
    {
        let n: usize = other.len();
        let ghost keys = other.keys();
        let ghost before = self@;
        let mut i: usize = 0;
        proof {
            assert(before.union(keys.take(0).to_set()) =~= before);
        }
        while i < n
            invariant
                i <= n,
                n == keys.len(),
                keys == other.keys(),
                self@ == before.union(keys.take(i as int).to_set()),
            decreases n - i,
        {
            self.insert(other.at(i).duplicate());
            proof {
                assert(keys.take(i + 1) =~= keys.take(i as int).push(keys[i as int]));
                keys.take(i as int).lemma_push_to_set_commute(keys[i as int]);
                assert(self@ =~= before.union(keys.take(i + 1).to_set()));
            }
            i += 1;
        }
        proof {
            assert(keys.take(keys.len() as int) =~= keys);
        }
    }

    /// Whether two sets hold the same keys.
    pub fn same(&self, other: &Self) -> (r: bool)
        ensures
            r == (self@ == other@),
    {
        let r = self.is_subset(other) && other.is_subset(self);
        proof {
            assert(r ==> self@ =~= other@);
        }
        r
    }
}

impl<K: Key> Clone for OrderedSet<K> {
    fn clone(&self) -> (r: Self)
        ensures
            r@ == self@,
            r.keys() == self.keys(),
    {
        proof {
            use_type_invariant(self);
        }
        let items = duplicate_keys(&self.items);
        OrderedSet { items }
    }
}

pub fn duplicate_keys<K: Key>(from: &Vec<K>) -> (r: Vec<K>)
    ensures
        views(r@) == views(from@),
{
    let mut items: Vec<K> = Vec::new();
    let mut i: usize = 0;
    while i < from.len()
        invariant
            i <= from.len(),
            items.len() == i,
            forall|j: int| 0 <= j < i ==> (#[trigger] items@[j])@ == from@[j]@,
        decreases from.len() - i,
    {
        items.push(from[i].duplicate());
        i += 1;
    }
    proof {
        assert(views(items@) =~= views(from@));
    }
    items
}

/// The map that a list of keys and a list of values of the same length stand for.
pub open spec fn paired<A, B>(keys: Seq<A>, values: Seq<B>) -> Map<A, B> {
    Map::new(|k: A| keys.contains(k), |k: A| values[keys.index_of(k)])
}

/// A map from keys to values, in ascending order of the keys.
#[derive(Debug, PartialEq, Eq)]
pub struct OrderedMap<K: Key, W> {
    names: Vec<K>,
    entries: Vec<W>,
}

impl<K: Key, W> View for OrderedMap<K, W> {
    type V = Map<K::V, W>;

    closed spec fn view(&self) -> Map<K::V, W> {
        paired(self.keys(), self.values())
    }
}

impl<K: Key, W> OrderedMap<K, W> {
    #[verifier::type_invariant]
    closed spec fn is_ordered(self) -> bool {
        &&& ascending::<K>(views(self.names@))
        &&& self.names@.len() == self.entries@.len()
    }

    /// The keys in ascending order.
    pub closed spec fn keys(&self) -> Seq<K::V> {
        views(self.names@)
    }

    /// The values in the order of their keys.
    pub closed spec fn values(&self) -> Seq<W> {
        self.entries@
    }

    pub fn new() -> (r: Self)
        ensures
            r@ == Map::<K::V, W>::empty(),
            r.keys() == Seq::<K::V>::empty(),
    {
        let r = OrderedMap { names: Vec::new(), entries: Vec::new() };
        proof {
            assert(r.keys() =~= Seq::<K::V>::empty());
            assert(r@ =~= Map::<K::V, W>::empty());
        }
        r
    }

    /// The number of entries. A map holds each key once, in ascending order.
    pub fn len(&self) -> (r: usize)
        ensures
            r == self.keys().len(),
            r == self.values().len(),
            r == self@.dom().len(),
            self@.dom().finite(),
            self@ == paired(self.keys(), self.values()),
            self@.dom() == self.keys().to_set(),
            ascending::<K>(self.keys()),
            self.keys().no_duplicates(),
            forall|i: int|
                0 <= i < r ==> self@.dom().contains(#[trigger] self.keys()[i]) && self@[self.keys()[i]]
                    == self.values()[i],
    {
        proof {
            use_type_invariant(self);
            self.shape();
        }
        self.names.len()
    }

    proof fn shape(&self)
        requires
            self.is_ordered(),
        ensures
            self.keys().len() == self.values().len(),
            self.keys().len() == self@.dom().len(),
            self@.dom().finite(),
            self@.dom() == self.keys().to_set(),
            self.keys().no_duplicates(),
            forall|i: int|
                0 <= i < self.keys().len() ==> self@.dom().contains(#[trigger] self.keys()[i])
                    && self@[self.keys()[i]] == self.values()[i],
    {
        let keys = self.keys();
        ascending_has_no_duplicates::<K>(keys);
        assert(self@.dom() =~= keys.to_set());
        assert forall|i: int| 0 <= i < keys.len() implies self@.dom().contains(#[trigger] keys[i])
            && self@[keys[i]] == self.values()[i] by {
            assert(keys.contains(keys[i]));
            let j = keys.index_of(keys[i]);
            assert(keys[j] == keys[i]);
        }
    }

    pub fn is_empty(&self) -> (r: bool)
        ensures
            r == (self@ == Map::<K::V, W>::empty()),
            r == (self.keys().len() == 0),
            r == (self@.dom().len() == 0),
    {
        proof {
            use_type_invariant(self);
            self.shape();
            if self.names.len() > 0 {
                assert(self@.dom().contains(self.keys()[0]));
            } else {
                assert(self@ =~= Map::<K::V, W>::empty());
            }
        }
        self.names.len() == 0
    }

    pub fn key_at(&self, i: usize) -> (r: &K)
        requires
            i < self.keys().len(),
        ensures
            r@ == self.keys()[i as int],
            self@.dom().contains(r@),
    {
        proof {
            use_type_invariant(self);
            self.shape();
        }
        &self.names[i]
    }

    pub fn value_at(&self, i: usize) -> (r: &W)
        requires
            i < self.keys().len(),
        ensures
            r == self.values()[i as int],
            self@[self.keys()[i as int]] == *r,
    {
        proof {
            use_type_invariant(self);
            self.shape();
        }
        &self.entries[i]
    }

    pub fn contains_key(&self, key: &K) -> (r: bool)
        ensures
            r == self@.dom().contains(key@),
    {
        proof {
            use_type_invariant(self);
            self.shape();
        }
        locate(&self.names, key).0
    }

    pub fn get(&self, key: &K) -> (r: Option<&W>)
        ensures
            r == (if self@.dom().contains(key@) { Some(&self@[key@]) } else { None }),
    {
        proof {
            use_type_invariant(self);
            self.shape();
        }
        let found = locate(&self.names, key);
        if found.0 {
            proof {
                assert(self.keys()[found.1 as int] == key@);
            }
            Some(&self.entries[found.1])
        } else {
            None
        }
    }

    /// Puts a value in under a key, in place of one that was there.
    pub fn insert(&mut self, key: K, value: W)
        ensures
            final(self)@ == old(self)@.insert(key@, value),
    {
        proof {
            use_type_invariant(&*self);
            self.shape();
        }
        let mut fresh: OrderedMap<K, W> = OrderedMap::new();
        std::mem::swap(&mut fresh, self);
        proof {
            use_type_invariant(&fresh);
        }
        let OrderedMap { names, entries } = fresh;
        let mut names = names;
        let mut entries = entries;
        let ghost from = views(names@);
        let ghost held = entries@;
        let found = locate(&names, &key);
        let ghost n = found.1 as int;
        if found.0 {
            entries.set(found.1, value);
            let r = OrderedMap { names, entries };
            proof {
                assert(from[n] == key@);
                r.shape();
                assert(r.keys() == from);
                assert(r@.dom() =~= old(self)@.insert(key@, value).dom());
                assert forall|k: K::V| r@.dom().contains(k) implies r@[k] == old(self)@.insert(
                    key@,
                    value,
                )[k] by {
                    let i = from.index_of(k);
                    assert(from.contains(k));
                    assert(r.keys()[i] == k && old(self).keys()[i] == k);
                }
                assert(r@ =~= old(self)@.insert(key@, value));
            }
            *self = r;
            return ;
        }
        let ghost before = names@;
        names.insert(found.1, key);
        entries.insert(found.1, value);
        proof {
            assert(views(names@) =~= from.insert(n, key@));
            let keys = views(names@);
            assert forall|i: int, j: int| 0 <= i < j < keys.len() implies precedes(
                K::code(#[trigger] keys[i]),
                K::code(#[trigger] keys[j]),
            ) by {
                if i < n && j == n {
                    assert(keys[i] == before[i]@);
                } else if i == n && j > n {
                    assert(keys[j] == before[j - 1]@);
                } else {
                    let a = if i < n { i } else { i - 1 };
                    let b = if j < n { j } else { j - 1 };
                    assert(keys[i] == from[a] && keys[j] == from[b]);
                }
            }
            inserted_elements(from, n, key@);
        }
        let r = OrderedMap { names, entries };
        proof {
            r.shape();
            let keys = r.keys();
            assert(r@.dom() =~= old(self)@.insert(key@, value).dom());
            assert forall|k: K::V| r@.dom().contains(k) implies r@[k] == old(self)@.insert(
                key@,
                value,
            )[k] by {
                assert(keys.contains(k));
                let i = keys.index_of(k);
                assert(keys[i] == k);
                if i < n {
                    assert(old(self).keys()[i] == k);
                } else if i > n {
                    assert(old(self).keys()[i - 1] == k);
                }
                if i != n && k == key@ {
                    assert(keys[n] == keys[i]);
                }
            }
            assert(r@ =~= old(self)@.insert(key@, value));
        }
        *self = r;
    }

    /// The map with the listed entries; of entries with one key the last one counts.
    pub fn from_entries(list: Vec<(K, W)>) -> (r: Self)
        ensures
            r@ == entry_map(list@),
    {
        let mut r: OrderedMap<K, W> = OrderedMap::new();
        let ghost all = list@;
        let mut taken: Ghost<int> = Ghost(0);
        for entry in it: list
            invariant
                it.seq() == all,
                taken@ == it.index(),
                r@ == entry_map(all.take(taken@)),
        {
            proof {
                assert(all.take(taken@ + 1).drop_last() =~= all.take(taken@));
                taken@ = taken@ + 1;
            }
            r.insert(entry.0, entry.1);
        }
        proof {
            assert(all.take(all.len() as int) =~= all);
        }
        r
    }
}

pub open spec fn entry_map<K: Key, W>(list: Seq<(K, W)>) -> Map<K::V, W>
    decreases list.len(),
{
    if list.len() == 0 {
        Map::empty()
    } else {
        entry_map(list.drop_last()).insert(list.last().0@, list.last().1)
    }
}

impl<K: Key, W: Clone> Clone for OrderedMap<K, W> {
    fn clone(&self) -> (r: Self)
        ensures
            r.keys() == self.keys(),
            r.values().len() == self.values().len(),
            forall|i: int|
                0 <= i < r.values().len() ==> cloned::<W>(#[trigger] self.values()[i], r.values()[i]),
    {
        proof {
            use_type_invariant(self);
        }
        let names = duplicate_keys(&self.names);
        let entries = self.entries.clone();
        proof {
            assert(views(names@).len() == views(self.names@).len());
        }
        OrderedMap { names, entries }
    }
}

/// What a list holds after one more was put at its end.
pub proof fn pushed_elements<T>(s: Seq<T>, x: T)
    ensures
        forall|v: T| #[trigger] s.push(x).contains(v) <==> s.contains(v) || v == x,
{
    let t = s.push(x);
    assert forall|v: T| #[trigger] t.contains(v) <==> s.contains(v) || v == x by {
        if s.contains(v) {
            let i = choose|i: int| 0 <= i < s.len() && s[i] == v;
            assert(t[i] == v);
        }
        if v == x {
            assert(t[s.len() as int] == v);
        }
        if t.contains(v) && v != x {
            let i = choose|i: int| 0 <= i < t.len() && t[i] == v;
            assert(s[i] == v);
        }
    }
}

proof fn inserted_elements<T>(s: Seq<T>, n: int, x: T)
    requires
        0 <= n <= s.len(),
    ensures
        s.insert(n, x).to_set() == s.to_set().insert(x),
{
    let t = s.insert(n, x);
    assert(t.to_set() =~= s.to_set().insert(x)) by {
        assert forall|v: T| t.to_set().contains(v) == s.to_set().insert(x).contains(v) by {
            if s.to_set().contains(v) {
                let i = choose|i: int| 0 <= i < s.len() && s[i] == v;
                let j = if i < n { i } else { i + 1 };
                assert(t[j] == v);
            }
            if v == x {
                assert(t[n] == v);
            }
            if t.to_set().contains(v) && v != x {
                let i = choose|i: int| 0 <= i < t.len() && t[i] == v;
                let j = if i < n { i } else { i - 1 };
                assert(s[j] == v);
            }
        }
    }
}

} // verus!
