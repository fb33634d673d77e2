//! Texts as lines.

use vstd::prelude::*;

use crate::text::{blanks, without_trailing};

verus! {

/// The lines of a text: what stands before, between and behind its line breaks.
pub open spec fn lines(s: Seq<char>) -> Seq<Seq<char>>
    decreases s.len(),
{
    if s.len() == 0 {
        seq![Seq::empty()]
    } else {
        let front = lines(s.drop_last());
        if s.last() == '\n' {
            front.push(Seq::empty())
        } else {
            front.drop_last().push(front.last().push(s.last()))
        }
    }
}

/// Lines put together with line breaks between them.
pub open spec fn joined_lines(ls: Seq<Seq<char>>) -> Seq<char>
    decreases ls.len(),
{
    if ls.len() == 0 {
        Seq::empty()
    } else if ls.len() == 1 {
        ls[0]
    } else {
        joined_lines(ls.drop_last()) + seq!['\n'] + ls.last()
    }
}

/// The lines of a text, each without the spaces at its end.
pub open spec fn tidied(s: Seq<char>) -> Seq<Seq<char>> {
    lines(s).map_values(|line: Seq<char>| without_trailing(line, ' '))
}

/// Whether a text is a single line.
pub open spec fn single_line(s: Seq<char>) -> bool {
    forall|i: int| 0 <= i < s.len() ==> s[i] != '\n'
}

/// The last line of one text and the first line of the text behind it are one
/// line of the whole.
pub proof fn lemma_lines_concat(a: Seq<char>, b: Seq<char>)
    ensures
        lines(a).len() >= 1,
        lines(b).len() >= 1,
        lines(a + b) == lines(a).drop_last() + seq![lines(a).last() + lines(b)[0]]
            + lines(b).drop_first(),
    decreases b.len(),
{
    lemma_lines_not_empty(a);
    lemma_lines_not_empty(b);
    if b.len() == 0 {
        assert(a + b =~= a);
        assert(lines(a).last() + Seq::<char>::empty() =~= lines(a).last());
        assert(lines(a + b) =~= lines(a).drop_last() + seq![lines(a).last() + lines(b)[0]]
            + lines(b).drop_first());
    } else {
        let front = b.drop_last();
        lemma_lines_concat(a, front);
        lemma_lines_not_empty(front);
        assert((a + b).drop_last() =~= a + front);
        let whole = lines(a + front);
        if b.last() != '\n' && lines(front).len() == 1 {
            assert(whole.last() =~= lines(a).last() + lines(front)[0]);
            assert(whole.last().push(b.last()) =~= lines(a).last() + lines(front)[0].push(b.last()));
        }
        assert(lines(a + b) =~= lines(a).drop_last() + seq![lines(a).last() + lines(b)[0]]
            + lines(b).drop_first());
    }
}

proof fn lemma_lines_not_empty(s: Seq<char>)
    ensures
        lines(s).len() >= 1,
    decreases s.len(),
{
    if s.len() > 0 {
        lemma_lines_not_empty(s.drop_last());
    }
}

/// A single line is its only line.
pub proof fn lemma_single_line(s: Seq<char>)
    requires
        single_line(s),
    ensures
        lines(s) == seq![s],
    decreases s.len(),
{
    if s.len() > 0 {
        assert forall|i: int| 0 <= i < s.drop_last().len() implies s.drop_last()[i] != '\n' by {
            assert(s[i] != '\n');
        }
        lemma_single_line(s.drop_last());
        assert(s.last() != '\n');
        assert(s.drop_last().push(s.last()) =~= s);
    } else {
        assert(s =~= Seq::empty());
    }
    assert(lines(s) =~= seq![s]);
}

/// A line break ends a line.
pub proof fn lemma_lines_break(a: Seq<char>, b: Seq<char>)
    ensures
        lines(a + seq!['\n'] + b) == lines(a) + lines(b),
{
    lemma_lines_concat(a + seq!['\n'], b);
    lemma_lines_not_empty(a);
    lemma_lines_not_empty(b);
    assert((a + seq!['\n']).drop_last() =~= a);
    assert(Seq::<char>::empty() + lines(b)[0] =~= lines(b)[0]);
    assert(lines(a + seq!['\n'] + b) =~= lines(a) + lines(b));
}

/// Lines that were put together come apart again.
pub proof fn lemma_joined_lines(ls: Seq<Seq<char>>)
    requires
        ls.len() > 0,
        forall|k: int| 0 <= k < ls.len() ==> single_line(#[trigger] ls[k]),
    ensures
        lines(joined_lines(ls)) == ls,
    decreases ls.len(),
{
    if ls.len() == 1 {
        assert(single_line(ls[0]));
        lemma_single_line(ls[0]);
        assert(ls =~= seq![ls[0]]);
    } else {
        let front = ls.drop_last();
        assert forall|k: int| 0 <= k < front.len() implies single_line(#[trigger] front[k]) by {
            assert(front[k] == ls[k]);
        }
        lemma_joined_lines(front);
        assert(single_line(ls[ls.len() - 1]));
        lemma_single_line(ls.last());
        lemma_lines_break(joined_lines(front), ls.last());
        assert(front + seq![ls.last()] =~= ls);
    }
}

/// Each line of a text is a single line.
pub proof fn lemma_lines_are_single(s: Seq<char>)
    ensures
        forall|k: int| 0 <= k < lines(s).len() ==> single_line(#[trigger] lines(s)[k]),
    decreases s.len(),
{
    if s.len() > 0 {
        lemma_lines_are_single(s.drop_last());
        lemma_lines_not_empty(s.drop_last());
        let front = lines(s.drop_last());
        assert(single_line(front[front.len() - 1]));
        assert forall|k: int| 0 <= k < lines(s).len() implies single_line(
            #[trigger] lines(s)[k],
        ) by {
            if k < front.len() - 1 {
                assert(lines(s)[k] == front[k]);
            } else if s.last() == '\n' && k == front.len() - 1 {
                assert(lines(s)[k] == front[k]);
            }
        }
    }
}

/// Spaces put behind a text do not count once spaces at the end are taken off.
pub proof fn lemma_trailing_blanks(s: Seq<char>, n: int)
    ensures
        without_trailing(s + blanks(n), ' ') == without_trailing(s, ' '),
    decreases n,
{
    if n <= 0 {
        assert(s + blanks(n) =~= s);
    } else {
        assert((s + blanks(n)).drop_last() =~= s + blanks(n - 1));
        lemma_trailing_blanks(s, n - 1);
    }
}

/// Texts that differ only in the spaces at the ends of lines still do so behind
/// and before the same lines.
pub proof fn lemma_tidied_between(before: Seq<char>, a: Seq<char>, b: Seq<char>)
    requires
        tidied(a) == tidied(b),
    ensures
        tidied(before + seq!['\n'] + a + seq!['\n']) == tidied(before + seq!['\n'] + b + seq!['\n']),
{
    lemma_tidied_parts(before, a);
    lemma_tidied_parts(before, b);
}

proof fn lemma_tidied_parts(before: Seq<char>, a: Seq<char>)
    ensures
        tidied(before + seq!['\n'] + a + seq!['\n']) == tidied(before) + tidied(a) + tidied(
            Seq::empty(),
        ),
{
    lemma_lines_break(before, a);
    lemma_lines_break(before + seq!['\n'] + a, Seq::empty());
    assert(before + seq!['\n'] + a + seq!['\n'] + Seq::<char>::empty() =~= before + seq!['\n'] + a
        + seq!['\n']);
    assert(tidied(before + seq!['\n'] + a + seq!['\n']) =~= tidied(before) + tidied(a) + tidied(
        Seq::empty(),
    ));
}

} // verus!
