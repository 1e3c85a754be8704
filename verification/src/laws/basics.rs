//! What holds of time, text and names, which everything else rests on.
use crate::foundation::Asset;
use crate::text::{
    alike, any_blank, any_longer, ascii_upper, blank, contains_text, cut, decimal, digit,
    is_whitespace, listed, stands_at, starts_with, trimmed, uppercased, without_leading,
    without_trailing,
};
use crate::time::{UtcTime, earlier, elapsed_nanos, truncated};
use vstd::prelude::*;

verus! {

/// One instant is earlier than another by its seconds, and by its nanoseconds where those agree; of
/// two instants that differ exactly one is the earlier.
pub proof fn earlier_orders_instants(a: UtcTime, b: UtcTime, c: UtcTime)
    ensures
        !earlier(a, a),
        a.secs() < b.secs() ==> earlier(a, b),
        a.secs() == b.secs() && a.nanos() < b.nanos() ==> earlier(a, b),
        earlier(a, b) ==> !earlier(b, a),
        a.secs() != b.secs() || a.nanos() != b.nanos() ==> earlier(a, b) || earlier(b, a),
        earlier(a, b) && earlier(b, c) ==> earlier(a, c),
{
}

/// What passes from one instant to another passes back the other way round; without leap seconds it
/// is the difference of their seconds and nanoseconds.
pub proof fn elapsed_time_runs_both_ways(a: UtcTime, b: UtcTime)
    ensures
        elapsed_nanos(a, a) == 0,
        elapsed_nanos(b, a) == -elapsed_nanos(a, b),
        a.nanos() < 1_000_000_000 && b.nanos() < 1_000_000_000 ==> elapsed_nanos(a, b) == (b.secs()
            - a.secs()) * 1_000_000_000 + b.nanos() - a.nanos(),
        0 <= a.nanos() < 1_000_000_000 && 0 <= b.nanos() < 1_000_000_000 ==> (earlier(a, b)
            <==> elapsed_nanos(a, b) > 0),
{
    assert((b.secs() - a.secs()) * 1_000_000_000 == -((a.secs() - b.secs()) * 1_000_000_000));
}

/// To truncate drops the rest towards nothing, the same on both sides of it.
pub proof fn truncation_drops_the_rest(x: int, by: int)
    requires
        by > 0,
    ensures
        x >= 0 ==> truncated(x, by) * by <= x < (truncated(x, by) + 1) * by,
        truncated(-x, by) == -truncated(x, by),
        0 <= x < by ==> truncated(x, by) == 0,
{
    if x >= 0 {
        assert((x / by) * by <= x < (x / by + 1) * by) by (nonlinear_arith)
            requires
                by > 0,
                x >= 0,
        ;
        if x < by {
            assert(x / by == 0) by (nonlinear_arith)
                requires
                    0 <= x < by,
            ;
        }
        if x == 0 {
            assert(0int / by == 0) by (nonlinear_arith)
                requires
                    by > 0,
            ;
        }
    }
}

/// An instant lies on the day on which its seconds fall; the days are numbered so that the epoch's
/// is the seven hundred and nineteen thousand one hundred and sixty-third.
pub proof fn instant_lies_on_its_day(t: UtcTime)
    ensures
        (t.day() - 719_163) * 86_400 <= t.secs() < (t.day() - 719_162) * 86_400,
{
}

/// Two texts together are blank exactly where both are; the empty text is blank, and one with a
/// letter or a digit is not.
pub proof fn blank_text_is_blank_throughout(a: Seq<char>, b: Seq<char>, i: int)
    ensures
        blank(Seq::<char>::empty()),
        blank(a + b) <==> blank(a) && blank(b),
        is_whitespace(' ') && is_whitespace('\t') && is_whitespace('\n') && is_whitespace('\r'),
        0 <= i < a.len() && ('a' <= a[i] <= 'z' || 'A' <= a[i] <= 'Z' || '0' <= a[i] <= '9')
            ==> !blank(a),
{
    if blank(a + b) {
        assert forall|k: int| 0 <= k < a.len() implies is_whitespace(#[trigger] a[k]) by {
            assert((a + b)[k] == a[k]);
        }
        assert forall|k: int| 0 <= k < b.len() implies is_whitespace(#[trigger] b[k]) by {
            assert((a + b)[a.len() + k] == b[k]);
        }
    }
    if 0 <= i < a.len() && ('a' <= a[i] <= 'z' || 'A' <= a[i] <= 'Z' || '0' <= a[i] <= '9') {
        let n = a[i] as u32;
        assert(!is_whitespace(a[i]));
    }
}

proof fn leading_part_is_blank(s: Seq<char>)
    ensures
        without_leading(s).len() <= s.len(),
        s.skip(s.len() - without_leading(s).len()) == without_leading(s),
        blank(s.take(s.len() - without_leading(s).len())),
        without_leading(s).len() > 0 ==> !is_whitespace(without_leading(s)[0]),
    decreases s.len(),
{
    if s.len() > 0 && is_whitespace(s[0]) {
        let rest = s.drop_first();
        leading_part_is_blank(rest);
        let n = s.len() - without_leading(s).len();
        assert(s.skip(n) =~= rest.skip(n - 1));
        assert forall|i: int| 0 <= i < n implies is_whitespace(#[trigger] s.take(n)[i]) by {
            if i > 0 {
                assert(rest.take(n - 1)[i - 1] == s[i]);
            }
        }
    } else {
        assert(s.skip(0) =~= s);
    }
}

proof fn trailing_part_is_blank(s: Seq<char>)
    ensures
        without_trailing(s).len() <= s.len(),
        s.take(without_trailing(s).len() as int) == without_trailing(s),
        blank(s.skip(without_trailing(s).len() as int)),
        without_trailing(s).len() > 0 ==> !is_whitespace(without_trailing(s).last()),
    decreases s.len(),
{
    if s.len() > 0 && is_whitespace(s.last()) {
        let rest = s.drop_last();
        trailing_part_is_blank(rest);
        let n = without_trailing(s).len() as int;
        assert(s.take(n) =~= rest.take(n));
        assert forall|i: int| 0 <= i < s.len() - n implies is_whitespace(
            #[trigger] s.skip(n)[i],
        ) by {
            if i < rest.len() - n {
                assert(rest.skip(n)[i] == s[n + i]);
            }
        }
    } else {
        assert(s.take(s.len() as int) =~= s);
    }
}

/// To trim a text takes off what is blank at its ends and nothing else.
pub proof fn trimming_takes_off_blank_ends(s: Seq<char>)
    ensures
        exists|a: Seq<char>, b: Seq<char>| #[trigger] (a + trimmed(s) + b) == s && blank(a) && blank(b),
        trimmed(s).len() > 0 ==> !is_whitespace(trimmed(s)[0]) && !is_whitespace(
            trimmed(s)[trimmed(s).len() - 1],
        ),
{
    leading_part_is_blank(s);
    let mid = without_leading(s);
    trailing_part_is_blank(mid);
    let n = s.len() - mid.len();
    let a = s.take(n);
    let b = mid.skip(trimmed(s).len() as int);
    assert(mid =~= mid.take(trimmed(s).len() as int) + b);
    assert(s =~= a + mid);
    assert(a + trimmed(s) + b =~= s);
    if trimmed(s).len() > 0 {
        assert(trimmed(s)[0] == mid[0]);
    }
}

/// Capitals stand for small letters, and everything else for itself.
pub proof fn capitals_stand_for_small_letters(s: Seq<char>, i: int)
    requires
        0 <= i < s.len(),
    ensures
        uppercased(s).len() == s.len(),
        'a' <= s[i] <= 'z' ==> uppercased(s)[i] as u32 + 32 == s[i] as u32,
        !('a' <= s[i] <= 'z') ==> uppercased(s)[i] == s[i],
        uppercased(uppercased(s)) == uppercased(s),
{
    assert forall|k: int| 0 <= k < s.len() implies !('a' <= #[trigger] uppercased(s)[k] <= 'z') by {}
    assert(uppercased(uppercased(s)) =~= uppercased(s));
}

/// Texts are alike whatever stands blank at their ends and whether their letters are small.
pub proof fn alike_texts_differ_in_case_and_ends(a: Seq<char>, b: Seq<char>)
    ensures
        alike(a, a),
        alike(a, b) <==> alike(b, a),
        alike(a, b) <==> uppercased(trimmed(a)) == uppercased(trimmed(b)),
{
}

/// A text starts with another exactly where it is that text and something after it, and contains it
/// where it is also something before it.
pub proof fn containing_text_is_before_and_after(s: Seq<char>, part: Seq<char>)
    ensures
        starts_with(s, part) <==> exists|rest: Seq<char>| s == #[trigger] (part + rest),
        contains_text(s, part) <==> exists|a: Seq<char>, b: Seq<char>| s == #[trigger] (a + part + b),
{
    if starts_with(s, part) {
        let rest = s.skip(part.len() as int);
        assert(s =~= part + rest);
    }
    if exists|rest: Seq<char>| s == #[trigger] (part + rest) {
        let rest = choose|rest: Seq<char>| s == #[trigger] (part + rest);
        assert(s.take(part.len() as int) =~= part);
    }
    if contains_text(s, part) {
        let i = choose|i: int| #[trigger] stands_at(s, part, i);
        let a = s.take(i);
        let b = s.skip(i + part.len());
        assert(s =~= a + part + b) by {
            assert(s =~= a + s.subrange(i, i + part.len()) + b);
        }
    }
    if exists|a: Seq<char>, b: Seq<char>| s == #[trigger] (a + part + b) {
        let (a, b) = choose|a: Seq<char>, b: Seq<char>| s == #[trigger] (a + part + b);
        assert(s.subrange(a.len() as int, (a.len() + part.len()) as int) =~= part);
        assert(stands_at(s, part, a.len() as int));
    }
}

/// A list holds a text, a blank or a long one exactly where one of its members is that.
pub proof fn lists_hold_their_members(list: Seq<String>, more: String, text: Seq<char>, limit: int)
    ensures
        listed(list.push(more), text) <==> listed(list, text) || more@ == text,
        any_blank(list.push(more)) <==> any_blank(list) || blank(more@),
        any_longer(list.push(more), limit) <==> any_longer(list, limit) || more@.len() > limit,
        !listed(Seq::<String>::empty(), text),
        !any_blank(Seq::<String>::empty()),
        !any_longer(Seq::<String>::empty(), limit),
{
    let all = list.push(more);
    assert(all[list.len() as int] == more);
    assert forall|i: int| 0 <= i < list.len() implies #[trigger] all[i] == list[i] by {}
    if listed(list, text) {
        let i = choose|i: int| 0 <= i < list.len() && (#[trigger] list[i])@ == text;
        assert(all[i]@ == text);
    }
    if any_blank(list) {
        let i = choose|i: int| 0 <= i < list.len() && blank((#[trigger] list[i])@);
        assert(blank(all[i]@));
    }
    if any_longer(list, limit) {
        let i = choose|i: int| 0 <= i < list.len() && (#[trigger] list[i])@.len() > limit;
        assert(all[i]@.len() > limit);
    }
    if listed(all, text) && more@ != text {
        let i = choose|i: int| 0 <= i < all.len() && (#[trigger] all[i])@ == text;
        assert(list[i]@ == text);
    }
    if any_blank(all) && !blank(more@) {
        let i = choose|i: int| 0 <= i < all.len() && blank((#[trigger] all[i])@);
        assert(blank(list[i]@));
    }
    if any_longer(all, limit) && more@.len() <= limit {
        let i = choose|i: int| 0 <= i < all.len() && (#[trigger] all[i])@.len() > limit;
        assert(list[i]@.len() > limit);
    }
}

/// A text is cut at the first place where a character stands, which falls away.
pub proof fn text_is_cut_at_the_first_place(s: Seq<char>, c: char)
    ensures
        cut(s, c) is Some <==> s.contains(c),
        cut(s, c) matches Some(parts) ==> parts.0.push(c) + parts.1 == s && !parts.0.contains(c),
{
    broadcast use vstd::seq_lib::group_seq_properties;

    if s.contains(c) {
        let i = s.index_of_first(c)->0;
        s.index_of_first_ensures(c);
        assert(s.take(i).push(c) + s.skip(i + 1) =~= s);
        assert forall|k: int| 0 <= k < i implies #[trigger] s.take(i)[k] != c by {}
    } else {
        s.index_of_first_ensures(c);
    }
}

/// A number is written by its digits, the last of which is what is left over of the tens.
pub proof fn number_is_written_by_its_digits(n: nat, d: nat)
    requires
        d < 10,
    ensures
        decimal(d).len() == 1,
        decimal(d)[0] as int == '0' as int + d,
        n > 0 ==> decimal(10 * n + d) == decimal(n).push(decimal(d)[0]),
{
    assert((10 * n + d) / 10 == n && (10 * n + d) % 10 == d);
    assert(decimal(d) == seq![digit(d)]);
}

/// An asset is named by its symbol alone, in any case and with anything blank around it.
pub proof fn asset_is_named_by_its_symbol(text: Seq<char>, other: Seq<char>)
    ensures
        Asset::named(text) == Some(Asset::Tqqq) <==> uppercased(trimmed(text)) == "TQQQ"@,
        Asset::named(text) == Some(Asset::Qqq) <==> uppercased(trimmed(text)) == "QQQ"@,
        Asset::named(text) == Some(Asset::Soxx) <==> uppercased(trimmed(text)) == "SOXX"@,
        Asset::named(text) == Some(Asset::Soxl) <==> uppercased(trimmed(text)) == "SOXL"@,
        Asset::named(text) matches Some(asset) ==> asset.wire() == uppercased(trimmed(text)),
        alike(text, other) ==> Asset::named(text) == Asset::named(other),
{
    reveal_strlit("TQQQ");
    reveal_strlit("QQQ");
    reveal_strlit("SOXX");
    reveal_strlit("SOXL");
    assert("TQQQ"@[0] == 'T' && "SOXX"@[0] == 'S' && "SOXX"@[3] == 'X' && "SOXL"@[3] == 'L');
    assert("SOXL"@[0] == 'S' && "QQQ"@.len() == 3 && "TQQQ"@.len() == 4);
}

} // verus!
