//! Searching lists, and checking every member of one.
use crate::error::{first, outcome, DomainError, Verdict};
use vstd::prelude::*;

verus! {

/// Whether a test holds of some member.
pub fn any_of<T, F: Fn(&T) -> bool>(items: &[T], test: F) -> (r: bool)
    requires
        forall|i: int| 0 <= i < items@.len() ==> test.requires((&#[trigger] items@[i],)),
    ensures
        r ==> exists|i: int| 0 <= i < items@.len() && test.ensures((&#[trigger] items@[i],), true),
        !r ==> forall|i: int|
            0 <= i < items@.len() ==> test.ensures((&#[trigger] items@[i],), false),
{
    let mut n: usize = 0;
    while n < items.len()
        invariant
            n <= items.len(),
            forall|i: int| 0 <= i < items@.len() ==> test.requires((&#[trigger] items@[i],)),
            forall|i: int| 0 <= i < n ==> test.ensures((&#[trigger] items@[i],), false),
        decreases items.len() - n,
    {
        if test(&items[n]) {
            return true;
        }
        n += 1;
    }
    false
}

/// Whether a test holds of every member.
pub fn all_of<T, F: Fn(&T) -> bool>(items: &[T], test: F) -> (r: bool)
    requires
        forall|i: int| 0 <= i < items@.len() ==> test.requires((&#[trigger] items@[i],)),
    ensures
        r ==> forall|i: int| 0 <= i < items@.len() ==> test.ensures((&#[trigger] items@[i],), true),
        !r ==> exists|i: int| 0 <= i < items@.len() && test.ensures((&#[trigger] items@[i],), false),
{
    let mut n: usize = 0;
    while n < items.len()
        invariant
            n <= items.len(),
            forall|i: int| 0 <= i < items@.len() ==> test.requires((&#[trigger] items@[i],)),
            forall|i: int| 0 <= i < n ==> test.ensures((&#[trigger] items@[i],), true),
        decreases items.len() - n,
    {
        if !test(&items[n]) {
            return false;
        }
        n += 1;
    }
    true
}

/// The place of the first member of which a test holds.
pub fn position_of<T, F: Fn(&T) -> bool>(items: &[T], test: F) -> (r: Option<usize>)
    requires
        forall|i: int| 0 <= i < items@.len() ==> test.requires((&#[trigger] items@[i],)),
    ensures
        r matches Some(n) ==> n < items@.len() && test.ensures((&items@[n as int],), true)
            && forall|i: int| 0 <= i < n ==> test.ensures((&#[trigger] items@[i],), false),
        r is None ==> forall|i: int|
            0 <= i < items@.len() ==> test.ensures((&#[trigger] items@[i],), false),
{
    let mut n: usize = 0;
    while n < items.len()
        invariant
            n <= items.len(),
            forall|i: int| 0 <= i < items@.len() ==> test.requires((&#[trigger] items@[i],)),
            forall|i: int| 0 <= i < n ==> test.ensures((&#[trigger] items@[i],), false),
        decreases items.len() - n,
    {
        if test(&items[n]) {
            return Some(n);
        }
        n += 1;
    }
    None
}

/// A value that can be checked on its own.
pub trait Checked {
    spec fn judged(&self) -> Verdict;

    fn check(&self) -> (r: Result<(), DomainError>)
        ensures
            outcome(r) == self.judged(),
    ;
}

/// The first refusal among the members of a list.
pub open spec fn list_verdict<T: Checked>(items: Seq<T>) -> Verdict
    decreases items.len(),
{
    if items.len() == 0 {
        Ok(())
    } else {
        first(list_verdict(items.drop_last()), items.last().judged())
    }
}

/// A list is accepted exactly when each member is.
pub proof fn list_is_accepted_by_member<T: Checked>(items: Seq<T>)
    ensures
        list_verdict(items) is Ok <==> forall|i: int|
            0 <= i < items.len() ==> (#[trigger] items[i]).judged() is Ok,
    decreases items.len(),
{
    if items.len() > 0 {
        let rest = items.drop_last();
        list_is_accepted_by_member(rest);
        if list_verdict(items) is Ok {
            assert forall|i: int| 0 <= i < items.len() implies (
            #[trigger] items[i]).judged() is Ok by {
                if i < rest.len() {
                    assert(rest[i] == items[i]);
                }
            }
        } else if list_verdict(rest) is Err {
            let i = choose|i: int| 0 <= i < rest.len() && !((#[trigger] rest[i]).judged() is Ok);
            assert(items[i] == rest[i]);
        } else {
            assert(items[items.len() - 1] == items.last());
        }
    }
}

proof fn refusal_of_a_prefix<T: Checked>(items: Seq<T>, n: int)
    requires
        0 <= n <= items.len(),
        list_verdict(items.take(n)) is Err,
    ensures
        list_verdict(items) == list_verdict(items.take(n)),
    decreases items.len(),
{
    if n < items.len() {
        assert(items.drop_last().take(n) =~= items.take(n));
        refusal_of_a_prefix(items.drop_last(), n);
    } else {
        assert(items.take(n) =~= items);
    }
}

pub fn check_all<T: Checked>(items: &Vec<T>) -> (r: Result<(), DomainError>)
    ensures
        outcome(r) == list_verdict(items@),
{
    let mut n: usize = 0;
    while n < items.len()
        invariant
            n <= items.len(),
            list_verdict(items@.take(n as int)) == Verdict::Ok(()),
        decreases items.len() - n,
    {
        let checked = items[n].check();
        proof {
            assert(items@.take(n + 1).drop_last() =~= items@.take(n as int));
            if checked is Err {
                refusal_of_a_prefix(items@, n + 1);
            }
        }
        checked?;
        n += 1;
    }
    proof {
        assert(items@.take(items@.len() as int) =~= items@);
    }
    Ok(())
}

/// The first refusal among the checks numbered from zero.
pub open spec fn first_fault(n: nat, check: spec_fn(int) -> Verdict) -> Verdict
    decreases n,
{
    if n == 0 {
        Ok(())
    } else {
        first(first_fault((n - 1) as nat, check), check(n - 1))
    }
}

/// Once a check refuses, later checks do not change the verdict.
pub proof fn first_fault_stays(m: nat, n: nat, check: spec_fn(int) -> Verdict)
    requires
        m <= n,
        first_fault(m, check) is Err,
    ensures
        first_fault(n, check) == first_fault(m, check),
    decreases n,
{
    if m < n {
        first_fault_stays(m, (n - 1) as nat, check);
    }
}

/// All checks pass exactly when each does.
pub proof fn no_fault_means_every_check_passes(n: nat, check: spec_fn(int) -> Verdict)
    ensures
        first_fault(n, check) is Ok <==> forall|i: int| 0 <= i < n ==> (#[trigger] check(i)) is Ok,
    decreases n,
{
    if n > 0 {
        no_fault_means_every_check_passes((n - 1) as nat, check);
        if first_fault(n, check) is Err && first_fault((n - 1) as nat, check) is Ok {
            assert(check(n - 1) is Err);
        }
    }
}

} // verus!
