//! Text as sequences of characters: blankness, trimming, order and case.
use crate::ordered::{diverges, precedes_is_asymmetric, rank_of, Key, Rank};
use vstd::prelude::*;

verus! {

/// The code points with the Unicode property `White_Space`.
pub open spec fn is_whitespace(c: char) -> bool {
    let n = c as u32;
    ||| 0x9 <= n <= 0xd
    ||| n == 0x20
    ||| n == 0x85
    ||| n == 0xa0
    ||| n == 0x1680
    ||| 0x2000 <= n <= 0x200a
    ||| n == 0x2028
    ||| n == 0x2029
    ||| n == 0x202f
    ||| n == 0x205f
    ||| n == 0x3000
}

/// Nothing but white space.
pub open spec fn blank(s: Seq<char>) -> bool {
    forall|i: int| 0 <= i < s.len() ==> is_whitespace(#[trigger] s[i])
}

pub open spec fn without_leading(s: Seq<char>) -> Seq<char>
    decreases s.len(),
{
    if s.len() > 0 && is_whitespace(s[0]) {
        without_leading(s.drop_first())
    } else {
        s
    }
}

pub open spec fn without_trailing(s: Seq<char>) -> Seq<char>
    decreases s.len(),
{
    if s.len() > 0 && is_whitespace(s.last()) {
        without_trailing(s.drop_last())
    } else {
        s
    }
}

/// The text without the white space at its two ends.
pub open spec fn trimmed(s: Seq<char>) -> Seq<char> {
    without_trailing(without_leading(s))
}

pub open spec fn ascii_upper(c: char) -> char {
    if 'a' <= c <= 'z' {
        ((c as u32) - 32) as char
    } else {
        c
    }
}

/// The text with `a` to `z` replaced by `A` to `Z`.
pub open spec fn uppercased(s: Seq<char>) -> Seq<char> {
    s.map_values(|c: char| ascii_upper(c))
}

/// What `str::to_lowercase` gives for a text.
pub uninterp spec fn lowercased(s: Seq<char>) -> Seq<char>;

pub fn char_is_whitespace(c: char) -> (r: bool)
    ensures
        r == is_whitespace(c),
{
    let n: u32 = c as u32;
    (0x9 <= n && n <= 0xd) || n == 0x20 || n == 0x85 || n == 0xa0 || n == 0x1680 || (0x2000 <= n
        && n <= 0x200a) || n == 0x2028 || n == 0x2029 || n == 0x202f || n == 0x205f || n == 0x3000
}

pub fn is_blank(s: &str) -> (r: bool)
    ensures
        r == blank(s@),
{
    for c in it: s.chars()
        invariant
            it.seq() == s@,
            forall|i: int| 0 <= i < it.index() ==> is_whitespace(#[trigger] s@[i]),
    {
        if !char_is_whitespace(c) {
            assert(!is_whitespace(s@[it.index() as int]));
            return false;
        }
    }
    true
}

pub fn same_text(a: &str, b: &str) -> (r: bool)
    ensures
        r == (a@ == b@),
{
    a.to_owned() == b.to_owned()
}

/// The characters of a text.
pub fn chars_of(s: &str) -> (r: Vec<char>)
    ensures
        r@ == s@,
{
    let mut r: Vec<char> = Vec::new();
    for c in it: s.chars()
        invariant
            it.seq() == s@,
            r@ == s@.take(it.index() as int),
    {
        r.push(c);
        proof {
            assert(r@ =~= s@.take(it.index() + 1));
        }
    }
    proof {
        assert(s@.take(s@.len() as int) =~= s@);
    }
    r
}

/// The text without the white space at its two ends.
pub fn trim(s: &str) -> (r: String)
    ensures
        r@ == trimmed(s@),
{
    let chars = chars_of(s);
    let n: usize = chars.len();
    let mut from: usize = 0;
    proof {
        assert(s@.skip(0) =~= s@);
    }
    while from < n && char_is_whitespace(chars[from])
        invariant
            from <= n,
            n == chars.len(),
            chars@ == s@,
            without_leading(s@) == without_leading(s@.skip(from as int)),
        decreases n - from,
    {
        proof {
            assert(s@.skip(from as int).drop_first() =~= s@.skip(from + 1));
        }
        from += 1;
    }
    let ghost body = s@.skip(from as int);
    let mut to: usize = n;
    proof {
        assert(without_leading(body) == body);
        assert(body.take(body.len() as int) =~= body);
    }
    while from < to && char_is_whitespace(chars[to - 1])
        invariant
            from <= to <= n,
            n == chars.len(),
            chars@ == s@,
            body == s@.skip(from as int),
            without_trailing(body) == without_trailing(body.take(to - from)),
        decreases to,
    {
        proof {
            assert(body.take(to - from).drop_last() =~= body.take(to - from - 1));
        }
        to -= 1;
    }
    proof {
        assert(without_trailing(body.take(to - from)) == body.take(to - from));
        assert(body.take(to - from) =~= s@.subrange(from as int, to as int));
    }
    s.substring_char(from, to).to_owned()
}

/// A text is blank exactly when trimming leaves nothing of it.
pub proof fn trimmed_is_empty_iff_blank(s: Seq<char>)
    ensures
        blank(s) <==> trimmed(s).len() == 0,
{
    let t = without_leading(s);
    without_leading_facts(s);
    if t.len() > 0 {
        without_trailing_keeps(t);
    }
}

proof fn without_leading_facts(s: Seq<char>)
    ensures
        blank(s) <==> without_leading(s).len() == 0,
        without_leading(s).len() > 0 ==> !is_whitespace(without_leading(s)[0]),
    decreases s.len(),
{
    if s.len() > 0 && is_whitespace(s[0]) {
        without_leading_facts(s.drop_first());
        if blank(s.drop_first()) {
            assert forall|i: int| 0 <= i < s.len() implies is_whitespace(#[trigger] s[i]) by {
                if i > 0 {
                    assert(s.drop_first()[i - 1] == s[i]);
                }
            }
        } else {
            let j = choose|j: int|
                0 <= j < s.drop_first().len() && !is_whitespace(#[trigger] s.drop_first()[j]);
            assert(s[j + 1] == s.drop_first()[j]);
        }
    } else if s.len() > 0 {
        assert(!is_whitespace(s[0]));
    }
}

proof fn without_trailing_keeps(s: Seq<char>)
    requires
        s.len() > 0,
        !is_whitespace(s[0]),
    ensures
        without_trailing(s).len() > 0,
    decreases s.len(),
{
    if is_whitespace(s.last()) {
        assert(s.len() > 1);
        without_trailing_keeps(s.drop_last());
    }
}

/// `str::to_ascii_uppercase` replaces each of `a` to `z` by its upper-case letter and keeps
/// every other character.
pub assume_specification[ str::to_ascii_uppercase ](s: &str) -> (r: String)
    ensures
        r@ == uppercased(s@),
;

/// `str::to_lowercase` depends on the text alone; what it gives under the Unicode case tables
/// is named, not written out.
pub assume_specification[ str::to_lowercase ](s: &str) -> (r: String)
    ensures
        r@ == lowercased(s@),
;

/// `String::push` puts one character at the end.
pub assume_specification[ String::push ](s: &mut String, c: char)
    ensures
        final(s)@ == old(s)@.push(c),
;

/// One text behind another.
pub fn joined(a: &str, b: &str) -> (r: String)
    ensures
        r@ == a@ + b@,
{
    a.to_owned().concat(b)
}

/// Whether a text is among the listed ones.
pub open spec fn listed(list: Seq<String>, s: Seq<char>) -> bool {
    exists|i: int| 0 <= i < list.len() && (#[trigger] list[i])@ == s
}

pub fn is_listed(list: &Vec<String>, s: &str) -> (r: bool)
    ensures
        r == listed(list@, s@),
{
    let mut i: usize = 0;
    while i < list.len()
        invariant
            i <= list.len(),
            forall|j: int| 0 <= j < i ==> (#[trigger] list@[j])@ != s@,
        decreases list.len() - i,
    {
        if same_text(&list[i], s) {
            return true;
        }
        i += 1;
    }
    false
}

/// Some listed text is blank.
pub open spec fn any_blank(list: Seq<String>) -> bool {
    exists|i: int| 0 <= i < list.len() && blank((#[trigger] list[i])@)
}

pub fn has_blank(list: &Vec<String>) -> (r: bool)
    ensures
        r == any_blank(list@),
{
    let mut i: usize = 0;
    while i < list.len()
        invariant
            i <= list.len(),
            forall|j: int| 0 <= j < i ==> !blank((#[trigger] list@[j])@),
        decreases list.len() - i,
    {
        if is_blank(&list[i]) {
            return true;
        }
        i += 1;
    }
    false
}

pub open spec fn starts_with(s: Seq<char>, prefix: Seq<char>) -> bool {
    prefix.len() <= s.len() && s.take(prefix.len() as int) == prefix
}

pub fn has_prefix(s: &str, prefix: &str) -> (r: bool)
    ensures
        r == starts_with(s@, prefix@),
{
    let n: usize = s.unicode_len();
    let k: usize = prefix.unicode_len();
    if k > n {
        return false;
    }
    proof {
        assert(s@.take(k as int) =~= s@.subrange(0, k as int));
    }
    same_text(s.substring_char(0, k), prefix)
}

/// A part of a text.
pub open spec fn contains_text(s: Seq<char>, part: Seq<char>) -> bool {
    exists|i: int| #[trigger] stands_at(s, part, i)
}

/// A part of a text begins at a place.
pub open spec fn stands_at(s: Seq<char>, part: Seq<char>, i: int) -> bool {
    0 <= i && i + part.len() <= s.len() && s.subrange(i, i + part.len()) == part
}

fn part_stands_at(s: &Vec<char>, part: &Vec<char>, i: usize) -> (r: bool)
    ensures
        r == stands_at(s@, part@, i as int),
{
    if part.len() > s.len() || i > s.len() - part.len() {
        return false;
    }
    let ghost here = s@.subrange(i as int, i + part@.len());
    let mut k: usize = 0;
    while k < part.len()
        invariant
            k <= part.len(),
            i + part.len() <= s.len(),
            here == s@.subrange(i as int, i + part@.len()),
            forall|j: int| 0 <= j < k ==> here[j] == part@[j],
        decreases part.len() - k,
    {
        if s[i + k] != part[k] {
            proof {
                assert(here[k as int] != part@[k as int]);
            }
            return false;
        }
        k += 1;
    }
    proof {
        assert(here =~= part@);
    }
    true
}

pub fn has_part(s: &str, part: &str) -> (r: bool)
    ensures
        r == contains_text(s@, part@),
{
    let text = chars_of(s);
    let wanted = chars_of(part);
    let mut i: usize = 0;
    while i < text.len()
        invariant
            i <= text.len(),
            text@ == s@,
            wanted@ == part@,
            forall|j: int| 0 <= j < i ==> !#[trigger] stands_at(s@, part@, j),
        decreases text.len() - i,
    {
        if part_stands_at(&text, &wanted, i) {
            return true;
        }
        i += 1;
    }
    let last = part_stands_at(&text, &wanted, i);
    proof {
        if !last {
            assert forall|j: int| !#[trigger] stands_at(s@, part@, j) by {
                if j > i {
                    assert(j + part@.len() > s@.len());
                }
            }
        }
    }
    last
}

/// What `char::is_alphanumeric` says of a character.
pub uninterp spec fn alphanumeric(c: char) -> bool;

/// `char::is_alphanumeric` depends on the character alone; the Unicode tables behind it are
/// named, not written out.
pub assume_specification[ char::is_alphanumeric ](c: char) -> (r: bool)
    ensures
        r == alphanumeric(c),
;

/// Which characters of a text are alphanumeric.
pub open spec fn letters_of(s: Seq<char>) -> Seq<bool> {
    s.map_values(|c: char| alphanumeric(c))
}

/// A word stands at a place of a text: a longest run of the characters that are marked.
pub open spec fn word_stands_at(
    s: Seq<char>,
    letters: Seq<bool>,
    word: Seq<char>,
    i: int,
) -> bool {
    &&& stands_at(s, word, i)
    &&& forall|j: int| i <= j < i + word.len() ==> #[trigger] letters[j]
    &&& i == 0 || !letters[i - 1]
    &&& i + word.len() == s.len() || !letters[i + word.len()]
}

/// The word stands somewhere between the characters of a text that are not marked.
pub open spec fn has_marked_word(s: Seq<char>, letters: Seq<bool>, word: Seq<char>) -> bool {
    exists|i: int| #[trigger] word_stands_at(s, letters, word, i)
}

pub open spec fn contains_word(s: Seq<char>, word: Seq<char>) -> bool {
    has_marked_word(s, letters_of(s), word)
}

fn find_letters(text: &Vec<char>) -> (r: Vec<bool>)
    ensures
        r@ == letters_of(text@),
{
    let mut letters: Vec<bool> = Vec::new();
    let mut i: usize = 0;
    while i < text.len()
        invariant
            i <= text.len(),
            letters.len() == i,
            forall|j: int| 0 <= j < i ==> letters@[j] == alphanumeric(#[trigger] text@[j]),
        decreases text.len() - i,
    {
        letters.push(text[i].is_alphanumeric());
        i += 1;
    }
    proof {
        assert(letters@ =~= letters_of(text@));
    }
    letters
}

/// Whether a word stands in a text of which it is told which characters make up words.
pub fn marks_word(text: &Vec<char>, letters: &Vec<bool>, word: &str) -> (r: bool)
    requires
        word@.len() > 0,
        letters@.len() == text@.len(),
    ensures
        r == has_marked_word(text@, letters@, word@),
{
    let wanted = chars_of(word);
    let mut i: usize = 0;
    while i < text.len()
        invariant
            i <= text.len(),
            letters@.len() == text@.len(),
            wanted@ == word@,
            word@.len() > 0,
            forall|j: int| 0 <= j < i ==> !#[trigger] word_stands_at(text@, letters@, word@, j),
        decreases text.len() - i,
    {
        if part_stands_at(text, &wanted, i) && (i == 0 || !letters[i - 1]) && (i + wanted.len()
            == text.len() || !letters[i + wanted.len()]) {
            let mut k: usize = i;
            while k < i + wanted.len() && letters[k]
                invariant
                    i <= k <= i + wanted.len() <= text.len(),
                    letters@.len() == text@.len(),
                    forall|j: int| i <= j < k ==> #[trigger] letters@[j],
                decreases i + wanted.len() - k,
            {
                k += 1;
            }
            if k == i + wanted.len() {
                proof {
                    assert(word_stands_at(text@, letters@, word@, i as int));
                }
                return true;
            }
        }
        i += 1;
    }
    false
}

pub fn has_word(s: &str, word: &str) -> (r: bool)
    requires
        word@.len() > 0,
    ensures
        r == contains_word(s@, word@),
{
    let text = chars_of(s);
    let letters = find_letters(&text);
    marks_word(&text, &letters, word)
}

/// The length of a text in UTF-8.
pub open spec fn byte_len(s: Seq<char>) -> usize {
    vstd::utf8::encode_utf8(s).len() as usize
}

pub fn byte_count(s: &str) -> (r: usize)
    ensures
        r == byte_len(s@),
{
    s.len()
}

/// What stands before and behind the first of a character in a text.
pub open spec fn cut(s: Seq<char>, c: char) -> Option<(Seq<char>, Seq<char>)> {
    match s.index_of_first(c) {
        Some(i) => Some((s.take(i), s.skip(i + 1))),
        None => None,
    }
}

pub fn split_at_first(s: &str, c: char) -> (r: Option<(String, String)>)
    ensures
        match r {
            Some(parts) => cut(s@, c) == Some((parts.0@, parts.1@)),
            None => cut(s@, c) is None,
        },
{
    let chars = chars_of(s);
    let n: usize = chars.len();
    let mut i: usize = 0;
    proof {
        s@.index_of_first_ensures(c);
    }
    while i < n
        invariant
            i <= n,
            n == chars.len(),
            chars@ == s@,
            forall|j: int| 0 <= j < i ==> s@[j] != c,
            match s@.index_of_first(c) {
                Some(k) => 0 <= k < s@.len() && s@[k] == c && forall|j: int| 0 <= j < k ==> s@[j] != c,
                None => forall|j: int| 0 <= j < s@.len() ==> s@[j] != c,
            },
        decreases n - i,
    {
        if chars[i] == c {
            proof {
                let k = s@.index_of_first(c)->0;
                assert(s@[i as int] == c);
                assert(k == i);
                assert(s@.take(k) =~= s@.subrange(0, k));
                assert(s@.skip(k + 1) =~= s@.subrange(k + 1, s@.len() as int));
            }
            return Some(
                (s.substring_char(0, i).to_owned(), s.substring_char(i + 1, n).to_owned()),
            );
        }
        i += 1;
    }
    None
}

/// A text cut at a character that the first part does not hold.
pub proof fn cut_of_joined(a: Seq<char>, c: char, b: Seq<char>)
    requires
        !a.contains(c),
    ensures
        cut(a + seq![c] + b, c) == Some((a, b)),
{
    let s = a + seq![c] + b;
    s.index_of_first_ensures(c);
    assert(s[a.len() as int] == c);
    assert(s.contains(c));
    let k = s.index_of_first(c)->0;
    if k < a.len() {
        assert(a[k] == s[k]);
        assert(a.contains(c));
    }
    assert(k == a.len());
    assert(s.take(k) =~= a);
    assert(s.skip(k + 1) =~= b);
}

/// Two texts that are equal but for the case of ASCII letters and white space around them.
pub open spec fn alike(a: Seq<char>, b: Seq<char>) -> bool {
    uppercased(trimmed(a)) == uppercased(trimmed(b))
}

pub fn are_alike(a: &str, b: &str) -> (r: bool)
    ensures
        r == alike(a@, b@),
{
    let x = trim(a).as_str().to_ascii_uppercase();
    let y = trim(b).as_str().to_ascii_uppercase();
    same_text(&x, &y)
}

/// Some listed text is longer than a limit.
pub open spec fn any_longer(list: Seq<String>, limit: int) -> bool {
    exists|i: int| 0 <= i < list.len() && (#[trigger] list[i])@.len() > limit
}

pub fn has_longer(list: &Vec<String>, limit: usize) -> (r: bool)
    ensures
        r == any_longer(list@, limit as int),
{
    let mut i: usize = 0;
    while i < list.len()
        invariant
            i <= list.len(),
            forall|j: int| 0 <= j < i ==> (#[trigger] list@[j])@.len() <= limit,
        decreases list.len() - i,
    {
        if list[i].as_str().unicode_len() > limit {
            return true;
        }
        i += 1;
    }
    false
}

/// The order of texts is that of their code points.
pub open spec fn text_code(s: Seq<char>) -> Seq<int> {
    s.map_values(|c: char| c as int)
}

pub proof fn text_code_is_injective(a: Seq<char>, b: Seq<char>)
    requires
        text_code(a) == text_code(b),
    ensures
        a == b,
{
    assert(a.len() == text_code(a).len() && b.len() == text_code(b).len());
    assert forall|i: int| 0 <= i < a.len() implies a[i] == b[i] by {
        assert(text_code(a)[i] == a[i] as int && text_code(b)[i] == b[i] as int);
    }
    assert(a =~= b);
}

pub fn rank_texts(a: &str, b: &str) -> (r: Rank)
    ensures
        r == rank_of(text_code(a@), text_code(b@)),
{
    let x = chars_of(a);
    let y = chars_of(b);
    let ghost p = text_code(a@);
    let ghost q = text_code(b@);
    let mut i: usize = 0;
    while i < x.len() && i < y.len()
        invariant
            i <= x.len(),
            i <= y.len(),
            x@ == a@,
            y@ == b@,
            p == text_code(a@),
            q == text_code(b@),
            forall|j: int| 0 <= j < i ==> p[j] == q[j],
        decreases x.len() - i,
    {
        if x[i] < y[i] {
            proof {
                assert(diverges(p, q, i as int));
            }
            return Rank::Before;
        }
        if y[i] < x[i] {
            proof {
                assert(diverges(q, p, i as int));
                precedes_is_asymmetric(q, p);
            }
            return Rank::After;
        }
        i += 1;
    }
    if i < y.len() {
        proof {
            assert(diverges(p, q, i as int));
        }
        return Rank::Before;
    }
    if i < x.len() {
        proof {
            assert(diverges(q, p, i as int));
            precedes_is_asymmetric(q, p);
        }
        return Rank::After;
    }
    proof {
        assert(p =~= q);
    }
    Rank::Same
}

impl Key for String {
    open spec fn code(key: Seq<char>) -> Seq<int> {
        text_code(key)
    }

    proof fn code_is_injective(a: Seq<char>, b: Seq<char>) {
        text_code_is_injective(a, b);
    }

    fn rank(&self, other: &Self) -> (r: Rank) {
        rank_texts(self, other)
    }

    fn duplicate(&self) -> (r: Self) {
        self.clone()
    }
}

/// The parts of a text between the places of a character.
pub open spec fn parts_between(s: Seq<char>, c: char) -> Seq<Seq<char>>
    decreases s.len(),
{
    match s.index_of_first(c) {
        Some(i) => if 0 <= i < s.len() {
            seq![s.take(i)] + parts_between(s.skip(i + 1), c)
        } else {
            seq![s]
        },
        None => seq![s],
    }
}

/// The texts of the views.
pub open spec fn text_views(list: Seq<String>) -> Seq<Seq<char>> {
    list.map_values(|s: String| s@)
}

pub fn split_text(s: &str, c: char) -> (r: Vec<String>)
    ensures
        text_views(r@) == parts_between(s@, c),
{
    let mut parts: Vec<String> = Vec::new();
    let mut rest: String = s.to_owned();
    proof {
        assert(text_views(parts@) + parts_between(s@, c) =~= parts_between(s@, c));
    }
    loop
        invariant
            text_views(parts@) + parts_between(rest@, c) == parts_between(s@, c),
        decreases rest@.len(),
    {
        let ghost before = parts@;
        let ghost whole = rest@;
        proof {
            whole.index_of_first_ensures(c);
        }
        match split_at_first(&rest, c) {
            Some(pair) => {
                parts.push(pair.0);
                rest = pair.1;
                proof {
                    let i = whole.index_of_first(c)->0;
                    assert(0 <= i < whole.len());
                    assert(text_views(parts@) =~= text_views(before) + seq![whole.take(i)]);
                    assert(text_views(before) + (seq![whole.take(i)] + parts_between(rest@, c))
                        =~= text_views(parts@) + parts_between(rest@, c));
                }
            },
            None => {
                parts.push(rest);
                proof {
                    assert(text_views(parts@) =~= text_views(before) + seq![whole]);
                }
                return parts;
            },
        }
    }
}

/// The digit of a number below ten.
pub open spec fn digit(n: nat) -> char {
    if n == 0 {
        '0'
    } else if n == 1 {
        '1'
    } else if n == 2 {
        '2'
    } else if n == 3 {
        '3'
    } else if n == 4 {
        '4'
    } else if n == 5 {
        '5'
    } else if n == 6 {
        '6'
    } else if n == 7 {
        '7'
    } else if n == 8 {
        '8'
    } else {
        '9'
    }
}

/// A number in decimal digits.
pub open spec fn decimal(n: nat) -> Seq<char>
    decreases n,
{
    if n < 10 {
        seq![digit(n)]
    } else {
        decimal(n / 10).push(digit(n % 10))
    }
}

fn digit_of(n: u64) -> (r: char)
    requires
        n < 10,
    ensures
        r == digit(n as nat),
{
    if n == 0 {
        '0'
    } else if n == 1 {
        '1'
    } else if n == 2 {
        '2'
    } else if n == 3 {
        '3'
    } else if n == 4 {
        '4'
    } else if n == 5 {
        '5'
    } else if n == 6 {
        '6'
    } else if n == 7 {
        '7'
    } else if n == 8 {
        '8'
    } else {
        '9'
    }
}

pub fn decimal_text(n: u64) -> (r: String)
    ensures
        r@ == decimal(n as nat),
    decreases n,
{
    if n < 10 {
        let mut text = String::new();
        text.push(digit_of(n));
        proof {
            assert(text@ =~= seq![digit(n as nat)]);
        }
        text
    } else {
        let mut text = decimal_text(n / 10);
        text.push(digit_of(n % 10));
        text
    }
}

/// A text that does not hold the character is its only part.
pub proof fn single_part(s: Seq<char>, c: char)
    requires
        !s.contains(c),
    ensures
        parts_between(s, c) == seq![s],
{
    s.index_of_first_ensures(c);
}

/// What stands before the first place of the character is the first part.
pub proof fn first_part(a: Seq<char>, c: char, b: Seq<char>)
    requires
        !a.contains(c),
    ensures
        parts_between(a + seq![c] + b, c) == seq![a] + parts_between(b, c),
{
    let s = a + seq![c] + b;
    let k = a.len() as int;
    assert(s[k] == c);
    s.index_of_first_ensures(c);
    let i = s.index_of_first(c)->0;
    assert forall|j: int| 0 <= j < k implies s[j] != c by {
        assert(s[j] == a[j]);
    }
    assert(s.contains(c));
    assert(i == k);
    assert(s.take(k) =~= a);
    assert(s.skip(k + 1) =~= b);
}

} // verus!
