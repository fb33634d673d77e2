//! Text as sequences of characters: trimming, searching and padding.

use vstd::prelude::*;

verus! {

/// Whether a character has the Unicode property `White_Space`.
pub open spec fn white_space(c: char) -> bool {
    let code = c as int;
    ||| 0x9 <= code <= 0xd
    ||| code == 0x20
    ||| code == 0x85
    ||| code == 0xa0
    ||| code == 0x1680
    ||| 0x2000 <= code <= 0x200a
    ||| code == 0x2028
    ||| code == 0x2029
    ||| code == 0x202f
    ||| code == 0x205f
    ||| code == 0x3000
}

/// `char::is_whitespace` tells whether a character has the Unicode property
/// `White_Space`; the contract lists the characters that have it.
pub assume_specification[ char::is_whitespace ](c: char) -> (b: bool)
    ensures
        b == white_space(c),
;

/// `s` without the white space at its start.
pub open spec fn trimmed_start(s: Seq<char>) -> Seq<char>
    decreases s.len(),
{
    if s.len() > 0 && white_space(s.first()) {
        trimmed_start(s.drop_first())
    } else {
        s
    }
}

/// `s` without the white space at its end.
pub open spec fn trimmed_end(s: Seq<char>) -> Seq<char>
    decreases s.len(),
{
    if s.len() > 0 && white_space(s.last()) {
        trimmed_end(s.drop_last())
    } else {
        s
    }
}

/// `s` without the white space at either end.
pub open spec fn trimmed(s: Seq<char>) -> Seq<char> {
    trimmed_end(trimmed_start(s))
}

/// `s` without the run of `c` at its end.
pub open spec fn without_trailing(s: Seq<char>, c: char) -> Seq<char>
    decreases s.len(),
{
    if s.len() > 0 && s.last() == c {
        without_trailing(s.drop_last(), c)
    } else {
        s
    }
}

/// Whether `needle` stands in `s` from position `at` on.
pub open spec fn occurs_at(s: Seq<char>, needle: Seq<char>, at: int) -> bool {
    0 <= at && at + needle.len() <= s.len() && s.subrange(at, at + needle.len()) == needle
}

/// Whether `needle` stands somewhere in `s`.
pub open spec fn occurs(s: Seq<char>, needle: Seq<char>) -> bool {
    exists|at: int| occurs_at(s, needle, at)
}

/// The decimal digit for `n`, which is below ten.
pub open spec fn digit(n: int) -> char {
    (n + '0' as int) as char
}

/// The three decimal digits of `n`, which is below a thousand.
pub open spec fn three_digits(n: int) -> Seq<char> {
    seq![digit(n / 100), digit(n / 10 % 10), digit(n % 10)]
}

/// `n` spaces, none where `n` is negative.
pub open spec fn blanks(n: int) -> Seq<char> {
    Seq::new(
        if n > 0 {
            n as nat
        } else {
            0
        },
        |i: int| ' ',
    )
}

/// `s` filled up with spaces at its end to at least `width` characters.
pub open spec fn padded(s: Seq<char>, width: int) -> Seq<char> {
    s + blanks(width - s.len())
}

/// The text of an optional string.
pub open spec fn optional_text(s: Option<String>) -> Option<Seq<char>> {
    match s {
        Some(s) => Some(s@),
        None => None,
    }
}

/// Trimming `c` off the end leaves a text that does not end in `c`, and takes off
/// nothing else.
pub proof fn law_trimmed_off_the_end(s: Seq<char>, c: char)
    ensures
        ({
            let rest = without_trailing(s, c);
            &&& rest.is_prefix_of(s)
            &&& rest.len() > 0 ==> rest.last() != c
            &&& forall|i: int| rest.len() <= i < s.len() ==> s[i] == c
        }),
    decreases s.len(),
{
    if s.len() > 0 && s.last() == c {
        law_trimmed_off_the_end(s.drop_last(), c);
        let rest = without_trailing(s, c);
        assert forall|i: int| rest.len() <= i < s.len() implies s[i] == c by {
            if i < s.len() - 1 {
                assert(s.drop_last()[i] == s[i]);
            }
        }
        assert(rest =~= s.take(rest.len() as int));
    }
}

/// Trimming leaves a text that neither starts nor ends in white space.
pub proof fn law_trimmed_has_no_outer_space(s: Seq<char>)
    ensures
        trimmed(s).len() > 0 ==> !white_space(trimmed(s).first()) && !white_space(
            trimmed(s).last(),
        ),
{
    lemma_trimmed_start(s);
    lemma_trimmed_end(trimmed_start(s));
}

proof fn lemma_trimmed_start(s: Seq<char>)
    ensures
        trimmed_start(s).len() > 0 ==> !white_space(trimmed_start(s).first()),
    decreases s.len(),
{
    if s.len() > 0 && white_space(s.first()) {
        lemma_trimmed_start(s.drop_first());
    }
}

proof fn lemma_trimmed_end(s: Seq<char>)
    ensures
        trimmed_end(s).len() > 0 ==> !white_space(trimmed_end(s).last()) && trimmed_end(s).first()
            == s.first(),
    decreases s.len(),
{
    if s.len() > 0 && white_space(s.last()) {
        lemma_trimmed_end(s.drop_last());
    }
}

/// The characters of `s`.
fn characters(s: &str) -> (chars: Vec<char>)
    ensures
        chars@ == s@,
{
    let mut chars: Vec<char> = Vec::new();
    for c in iter: s.chars()
        invariant
            chars@ == iter.seq().take(iter.index()),
            iter.seq() == s@,
    {
        chars.push(c);
        assert(iter.seq().take(iter.index() + 1) =~= iter.seq().take(iter.index()).push(c));
    }
    assert(s@.take(s@.len() as int) =~= s@);
    chars
}

/// Whether two texts are the same.
pub(crate) fn same(a: &str, b: &str) -> (r: bool)
    ensures
        r == (a@ == b@),
{
    let a: String = a.to_owned();
    let b: String = b.to_owned();
    a == b
}

/// Removes the run of `c` at the end of `s`.
pub fn trim_end_matches(s: &str, c: char) -> (r: String)
    ensures
        r@ == without_trailing(s@, c),
{
    let chars = characters(s);
    let mut end: usize = chars.len();
    assert(s@.take(end as int) =~= s@);
    while end > 0 && chars[end - 1] == c
        invariant
            chars@ == s@,
            end <= chars.len(),
            without_trailing(s@.take(end as int), c) == without_trailing(s@, c),
        decreases end,
    {
        assert(s@.take(end as int).drop_last() =~= s@.take(end - 1));
        end = end - 1;
    }
    assert(s@.take(end as int) =~= s@.subrange(0, end as int));
    s.substring_char(0, end).to_owned()
}

/// Removes the white space at both ends of `s`.
pub fn trim(s: &str) -> (r: String)
    ensures
        r@ == trimmed(s@),
{
    let chars = characters(s);
    let n: usize = chars.len();
    let mut start: usize = 0;
    assert(s@.skip(0) =~= s@);
    while start < n && chars[start].is_whitespace()
        invariant
            chars@ == s@,
            n == chars.len(),
            start <= n,
            trimmed_start(s@.skip(start as int)) == trimmed_start(s@),
        decreases n - start,
    {
        assert(s@.skip(start as int).drop_first() =~= s@.skip(start + 1));
        start = start + 1;
    }
    assert(trimmed_start(s@) == s@.skip(start as int));
    let mut end: usize = n;
    assert(s@.subrange(start as int, end as int) =~= s@.skip(start as int));
    while start < end && chars[end - 1].is_whitespace()
        invariant
            chars@ == s@,
            n == chars.len(),
            start <= end <= n,
            trimmed_end(s@.subrange(start as int, end as int)) == trimmed(s@),
        decreases end,
    {
        assert(s@.subrange(start as int, end as int).drop_last() =~= s@.subrange(
            start as int,
            end - 1,
        ));
        end = end - 1;
    }
    s.substring_char(start, end).to_owned()
}

/// Whether `needle` stands somewhere in `s`.
pub fn contains(s: &str, needle: &str) -> (r: bool)
    ensures
        r == occurs(s@, needle@),
{
    let chars = characters(s);
    let wanted = characters(needle);
    if wanted.len() > chars.len() {
        return false;
    }
    let last: usize = chars.len() - wanted.len();
    let mut at: usize = 0;
    loop
        invariant
            chars@ == s@,
            wanted@ == needle@,
            last == chars.len() - wanted.len(),
            at <= last,
            forall|i: int| 0 <= i < at ==> !occurs_at(s@, needle@, i),
        ensures
            forall|i: int| 0 <= i <= last ==> !occurs_at(s@, needle@, i),
        decreases last - at,
    {
        let mut matched: usize = 0;
        while matched < wanted.len() && chars[at + matched] == wanted[matched]
            invariant
                at <= last,
                last == chars.len() - wanted.len(),
                matched <= wanted.len(),
                forall|i: int| 0 <= i < matched ==> chars@[at + i] == wanted@[i],
            decreases wanted.len() - matched,
        {
            matched = matched + 1;
        }
        if matched == wanted.len() {
            assert(s@.subrange(at as int, at + needle@.len()) =~= needle@);
            assert(occurs_at(s@, needle@, at as int));
            return true;
        }
        assert(!occurs_at(s@, needle@, at as int)) by {
            if occurs_at(s@, needle@, at as int) {
                assert(s@.subrange(at as int, at + needle@.len())[matched as int]
                    == needle@[matched as int]);
            }
        }
        if at == last {
            break;
        }
        at = at + 1;
    }
    false
}

/// Adds spaces at the end of `s` until it has `width` characters.
pub fn pad_right(s: &str, width: usize) -> (r: String)
    ensures
        r@ == padded(s@, width as int),
{
    let mut r: String = s.to_owned();
    let mut n: usize = s.unicode_len();
    assert(r@ =~= padded(s@, n as int));
    while n < width
        invariant
            s@.len() <= n,
            n <= width || n == s@.len(),
            r@ == padded(s@, n as int),
        decreases width - n,
    {
        proof {
            reveal_strlit(" ");
            assert(blanks(n - s@.len()) + " "@ =~= blanks(n + 1 - s@.len()));
        }
        r.append(" ");
        assert(r@ =~= padded(s@, n + 1));
        n = n + 1;
    }
    assert(r@ =~= padded(s@, width as int));
    r
}

/// A run of `c` at the end is taken off whole, and nothing more.
pub proof fn law_trailing_run_is_taken_off(s: Seq<char>, c: char, n: nat)
    requires
        s.len() > 0 ==> s.last() != c,
    ensures
        without_trailing(s + Seq::new(n, |i: int| c), c) == s,
    decreases n,
{
    let run = Seq::new(n, |i: int| c);
    if n == 0 {
        assert(s + run =~= s);
    } else {
        assert((s + run).drop_last() =~= s + Seq::new((n - 1) as nat, |i: int| c));
        law_trailing_run_is_taken_off(s, c, (n - 1) as nat);
    }
}

proof fn lemma_start_taken_off(s: Seq<char>) -> (from: int)
    ensures
        0 <= from <= s.len(),
        trimmed_start(s) == s.skip(from),
        forall|i: int| 0 <= i < from ==> white_space(#[trigger] s[i]),
    decreases s.len(),
{
    if s.len() > 0 && white_space(s.first()) {
        let rest = s.drop_first();
        let from = lemma_start_taken_off(rest);
        assert(rest.skip(from) =~= s.skip(from + 1));
        assert forall|i: int| 0 <= i < from + 1 implies white_space(#[trigger] s[i]) by {
            if i > 0 {
                assert(rest[i - 1] == s[i]);
            }
        }
        from + 1
    } else {
        assert(s.skip(0) =~= s);
        0
    }
}

proof fn lemma_end_taken_off(s: Seq<char>) -> (to: int)
    ensures
        0 <= to <= s.len(),
        trimmed_end(s) == s.take(to),
        forall|i: int| to <= i < s.len() ==> white_space(#[trigger] s[i]),
    decreases s.len(),
{
    if s.len() > 0 && white_space(s.last()) {
        let rest = s.drop_last();
        let to = lemma_end_taken_off(rest);
        assert(rest.take(to) =~= s.take(to));
        assert forall|i: int| to <= i < s.len() implies white_space(#[trigger] s[i]) by {
            if i < rest.len() {
                assert(rest[i] == s[i]);
            }
        }
        to
    } else {
        assert(s.take(s.len() as int) =~= s);
        s.len() as int
    }
}

/// Trimming takes off white space at the two ends, and nothing else: between two
/// places the text stays as it is, and outside them there is only white space.
pub proof fn law_trimmed_takes_off_only_space(s: Seq<char>)
    ensures
        exists|from: int, to: int|
            0 <= from <= to <= s.len() && trimmed(s) == #[trigger] s.subrange(from, to) && (forall|
                i: int,
            |
                (0 <= i < from || to <= i < s.len()) ==> white_space(#[trigger] s[i])),
{
    let from = lemma_start_taken_off(s);
    let rest = s.skip(from);
    let to = lemma_end_taken_off(rest);
    assert(rest.take(to) =~= s.subrange(from, from + to));
    assert forall|i: int| (0 <= i < from || from + to <= i < s.len()) implies white_space(
        #[trigger] s[i],
    ) by {
        if i >= from {
            assert(rest[i - from] == s[i]);
        }
    }
}

/// A text stands in another exactly where the other is made of something, the
/// text, and something.
pub proof fn law_occurs_between(s: Seq<char>, needle: Seq<char>)
    ensures
        occurs(s, needle) <==> exists|before: Seq<char>, after: Seq<char>|
            s == #[trigger] (before + needle + after),
{
    if occurs(s, needle) {
        let at = choose|at: int| occurs_at(s, needle, at);
        let before = s.take(at);
        let after = s.skip(at + needle.len());
        assert(s.subrange(at, at + needle.len()) == needle);
        assert(s =~= before + s.subrange(at, at + needle.len()) + after);
    }
    if exists|before: Seq<char>, after: Seq<char>| s == #[trigger] (before + needle + after) {
        let (before, after) = choose|before: Seq<char>, after: Seq<char>|
            s == #[trigger] (before + needle + after);
        let at = before.len() as int;
        assert(s.subrange(at, at + needle.len()) =~= needle);
        assert(occurs_at(s, needle, at));
    }
}

/// The three digits of a number are digits, and stand for the number.
pub proof fn law_digits_stand_for_the_number(n: int)
    requires
        0 <= n < 1000,
    ensures
        ({
            let digits = three_digits(n);
            let value = |c: char| c as int - '0' as int;
            &&& digits.len() == 3
            &&& forall|i: int| 0 <= i < 3 ==> 0 <= value(#[trigger] digits[i]) <= 9
            &&& value(digits[0]) * 100 + value(digits[1]) * 10 + value(digits[2]) == n
        }),
{
    let digits = three_digits(n);
    assert(0 <= n / 100 <= 9 && 0 <= n / 10 % 10 <= 9 && 0 <= n % 10 <= 9);
    assert(digits[0] as int == n / 100 + 48);
    assert(digits[1] as int == n / 10 % 10 + 48);
    assert(digits[2] as int == n % 10 + 48);
}

/// Padding keeps the text at the start, puts only spaces behind it, and stops at
/// the width, which a longer text has passed already.
pub proof fn law_padding_fills_up_to_the_width(s: Seq<char>, width: int)
    ensures
        s.is_prefix_of(padded(s, width)),
        forall|i: int| s.len() <= i < padded(s, width).len() ==> padded(s, width)[i] == ' ',
        padded(s, width).len() == if s.len() < width {
            width
        } else {
            s.len() as int
        },
{
    assert(padded(s, width).take(s.len() as int) =~= s);
}

} // verus!
