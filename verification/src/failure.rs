//! Failures of the outside world, and how they are told.

use vstd::prelude::*;

use crate::text::{occurs, occurs_at};

verus! {

/// Something that went wrong outside: what it says, and what each of its causes
/// says, from the nearest to the farthest.
#[derive(Debug)]
pub struct Failure {
    pub message: String,
    pub causes: Vec<String>,
}

/// A message followed by its causes, each behind a colon.
pub open spec fn chained(message: Seq<char>, causes: Seq<Seq<char>>) -> Seq<char>
    decreases causes.len(),
{
    if causes.len() == 0 {
        message
    } else {
        chained(message, causes.drop_last()) + ": "@ + causes.last()
    }
}

impl Failure {
    /// The failure in full, with its causes.
    pub open spec fn text(self) -> Seq<char> {
        chained(self.message@, self.causes.deep_view())
    }
}

/// The failure in full. The outermost message of a failed connection says
/// nothing about what actually went wrong, so the whole chain of causes is
/// spelled out.
pub fn error_chain(error: &Failure) -> (message: String)
    ensures
        message@ == error.text(),
{
    let mut message: String = error.message.clone();
    let ghost causes = error.causes.deep_view();
    let mut i: usize = 0;
    while i < error.causes.len()
        invariant
            i <= error.causes.len(),
            causes == error.causes.deep_view(),
            message@ == chained(error.message@, causes.take(i as int)),
        decreases error.causes.len() - i,
    {
        message.append(": ");
        message.append(error.causes[i].as_str());
        assert(causes.take(i + 1).drop_last() =~= causes.take(i as int));
        i = i + 1;
    }
    assert(causes.take(causes.len() as int) =~= causes);
    message
}

/// Telling a failure takes nothing away: its own message comes first, in full.
pub proof fn law_chain_starts_with_message(message: Seq<char>, causes: Seq<Seq<char>>)
    ensures
        message.is_prefix_of(chained(message, causes)),
    decreases causes.len(),
{
    if causes.len() > 0 {
        law_chain_starts_with_message(message, causes.drop_last());
    }
}

/// Telling a failure leaves no cause out.
pub proof fn law_chain_tells_every_cause(message: Seq<char>, causes: Seq<Seq<char>>, i: int)
    requires
        0 <= i < causes.len(),
    ensures
        occurs(chained(message, causes), ": "@ + causes[i]),
    decreases causes.len(),
{
    let rest = chained(message, causes.drop_last());
    let told = ": "@ + causes[i];
    if i == causes.len() - 1 {
        assert(chained(message, causes).subrange(
            rest.len() as int,
            (rest.len() + told.len()) as int,
        ) =~= told);
        assert(occurs_at(chained(message, causes), told, rest.len() as int));
    } else {
        law_chain_tells_every_cause(message, causes.drop_last(), i);
        let at = choose|at: int| occurs_at(rest, told, at);
        assert(chained(message, causes).subrange(at, at + told.len()) =~= rest.subrange(
            at,
            at + told.len(),
        ));
        assert(occurs_at(chained(message, causes), told, at));
    }
}

/// A failure without causes is told by its message alone.
pub proof fn law_failure_without_causes_is_its_message(failure: Failure)
    requires
        failure.causes@.len() == 0,
    ensures
        failure.text() == failure.message@,
{
}

/// One more cause is told behind all that was told without it, behind a colon and
/// a space.
pub proof fn law_one_more_cause_is_told_last(failure: Failure, shorter: Failure)
    requires
        failure.message@ == shorter.message@,
        failure.causes@.len() == shorter.causes@.len() + 1,
        forall|i: int|
            0 <= i < shorter.causes@.len() ==> (#[trigger] failure.causes@[i])@
                == shorter.causes@[i]@,
    ensures
        failure.text() == shorter.text() + ": "@ + failure.causes@.last()@,
{
    assert(failure.causes.deep_view().drop_last() =~= shorter.causes.deep_view());
}

} // verus!
