//! Color escapes, and texts without them.

use vstd::prelude::*;

use crate::lines::{lemma_lines_concat, lemma_single_line, lines, single_line};

verus! {

/// The character that starts an escape.
pub open spec fn esc() -> char {
    '\x1b'
}

/// Whether a text holds no escape.
pub open spec fn escape_free(s: Seq<char>) -> bool {
    forall|i: int| 0 <= i < s.len() ==> s[i] != esc()
}

/// What stands behind the `m` that ends an escape.
pub open spec fn behind_escape(s: Seq<char>) -> Seq<char>
    decreases s.len(),
{
    if s.len() == 0 {
        s
    } else if s.first() == 'm' {
        s.drop_first()
    } else {
        behind_escape(s.drop_first())
    }
}

/// A text without its escapes, each of which goes up to the next `m`.
pub open spec fn uncolored(s: Seq<char>) -> Seq<char>
    decreases s.len(),
{
    if s.len() == 0 {
        Seq::empty()
    } else if s.first() == esc() {
        proof {
            lemma_behind_escape_is_shorter(s.drop_first());
        }
        uncolored(behind_escape(s.drop_first()))
    } else {
        seq![s.first()] + uncolored(s.drop_first())
    }
}

/// Going behind an escape does not lengthen a text.
pub proof fn lemma_behind_escape_is_shorter(s: Seq<char>)
    ensures
        behind_escape(s).len() <= s.len(),
    decreases s.len(),
{
    if s.len() > 0 && s.first() != 'm' {
        lemma_behind_escape_is_shorter(s.drop_first());
    }
}

/// Whether `colored` is `plain` with whole escapes put into it, so that taking
/// the escapes out gives `plain` whatever follows.
pub open spec fn strips_to(colored: Seq<char>, plain: Seq<char>) -> bool {
    forall|rest: Seq<char>| #[trigger] uncolored(colored + rest) == plain + uncolored(rest)
}

/// The same of each line.
pub open spec fn lines_strip_to(colored: Seq<char>, plain: Seq<char>) -> bool {
    &&& lines(colored).len() == lines(plain).len()
    &&& forall|k: int|
        0 <= k < lines(plain).len() ==> strips_to(#[trigger] lines(colored)[k], lines(plain)[k])
}

/// A text that strips to another is that one without its escapes.
pub proof fn lemma_uncolored(colored: Seq<char>, plain: Seq<char>)
    requires
        strips_to(colored, plain),
    ensures
        uncolored(colored) == plain,
{
    assert(colored + Seq::<char>::empty() =~= colored);
    assert(uncolored(colored + Seq::<char>::empty()) == plain + uncolored(Seq::<char>::empty()));
    assert(plain + Seq::<char>::empty() =~= plain);
}

/// A text without escapes stays as it is.
pub proof fn lemma_escape_free(s: Seq<char>)
    requires
        escape_free(s),
    ensures
        strips_to(s, s),
    decreases s.len(),
{
    if s.len() == 0 {
        assert forall|rest: Seq<char>| #[trigger] uncolored(s + rest) == s + uncolored(rest) by {
            assert(s + rest =~= rest);
            assert(s + uncolored(rest) =~= uncolored(rest));
        }
    } else {
        let tail = s.drop_first();
        assert forall|i: int| 0 <= i < tail.len() implies tail[i] != esc() by {
            assert(s[i + 1] != esc());
        }
        lemma_escape_free(tail);
        assert forall|rest: Seq<char>| #[trigger] uncolored(s + rest) == s + uncolored(rest) by {
            assert((s + rest).drop_first() =~= tail + rest);
            assert(s[0] != esc());
            assert(uncolored(tail + rest) == tail + uncolored(rest));
            assert(seq![s.first()] + (tail + uncolored(rest)) =~= s + uncolored(rest));
        }
    }
}

/// Texts that strip to others do so one behind the other.
pub proof fn lemma_strips_concat(a: Seq<char>, pa: Seq<char>, b: Seq<char>, pb: Seq<char>)
    requires
        strips_to(a, pa),
        strips_to(b, pb),
    ensures
        strips_to(a + b, pa + pb),
{
    assert forall|rest: Seq<char>| #[trigger]
        uncolored((a + b) + rest) == (pa + pb) + uncolored(rest) by {
        assert((a + b) + rest =~= a + (b + rest));
        assert(uncolored(a + (b + rest)) == pa + uncolored(b + rest));
        assert(pa + (pb + uncolored(rest)) =~= (pa + pb) + uncolored(rest));
    }
}

/// Each line of a text without escapes is one without escapes.
pub proof fn lemma_lines_escape_free(s: Seq<char>)
    requires
        escape_free(s),
    ensures
        forall|k: int| 0 <= k < lines(s).len() ==> escape_free(#[trigger] lines(s)[k]),
        lines(s).len() >= 1,
    decreases s.len(),
{
    if s.len() > 0 {
        let rest = s.drop_last();
        assert forall|i: int| 0 <= i < rest.len() implies rest[i] != esc() by {
            assert(s[i] != esc());
        }
        lemma_lines_escape_free(rest);
        let front = lines(rest);
        assert(escape_free(front[front.len() - 1]));
        assert(s[s.len() - 1] != esc());
        assert forall|k: int| 0 <= k < lines(s).len() implies escape_free(
            #[trigger] lines(s)[k],
        ) by {
            if k < front.len() - 1 || (s.last() == '\n' && k == front.len() - 1) {
                assert(lines(s)[k] == front[k]);
            }
        }
    }
}

/// A text without escapes stays as it is, line by line.
pub proof fn lemma_lines_of_escape_free(s: Seq<char>)
    requires
        escape_free(s),
    ensures
        lines_strip_to(s, s),
{
    lemma_lines_escape_free(s);
    assert forall|k: int| 0 <= k < lines(s).len() implies strips_to(
        #[trigger] lines(s)[k],
        lines(s)[k],
    ) by {
        assert(escape_free(lines(s)[k]));
        lemma_escape_free(lines(s)[k]);
    }
}

/// An escape that is a single line strips to nothing, line by line.
pub proof fn lemma_lines_of_escape(e: Seq<char>)
    requires
        single_line(e),
        strips_to(e, Seq::empty()),
    ensures
        lines_strip_to(e, Seq::empty()),
{
    lemma_single_line(e);
}

/// Texts whose lines strip to those of others do so one behind the other.
pub proof fn lemma_lines_strip_concat(a: Seq<char>, pa: Seq<char>, b: Seq<char>, pb: Seq<char>)
    requires
        lines_strip_to(a, pa),
        lines_strip_to(b, pb),
    ensures
        lines_strip_to(a + b, pa + pb),
{
    lemma_lines_concat(a, b);
    lemma_lines_concat(pa, pb);
    let n = lines(pa).len() - 1;
    assert(strips_to(lines(a)[n], lines(pa)[n]));
    assert(strips_to(lines(b)[0], lines(pb)[0]));
    lemma_strips_concat(lines(a)[n], lines(pa)[n], lines(b)[0], lines(pb)[0]);
    assert forall|k: int| 0 <= k < lines(pa + pb).len() implies strips_to(
        #[trigger] lines(a + b)[k],
        lines(pa + pb)[k],
    ) by {
        if k < n {
            assert(lines(a + b)[k] == lines(a)[k]);
            assert(lines(pa + pb)[k] == lines(pa)[k]);
        } else if k == n {
            assert(lines(a + b)[k] == lines(a)[n] + lines(b)[0]);
            assert(lines(pa + pb)[k] == lines(pa)[n] + lines(pb)[0]);
        } else {
            assert(lines(a + b)[k] == lines(b)[k - n]);
            assert(lines(pa + pb)[k] == lines(pb)[k - n]);
        }
    }
}

} // verus!
