//! The count of one fan-out: how many instances agreed, and the errors of the others.

use crate::errors::{MultiError, RedsyncError};
use vstd::prelude::*;

verus! {

/// How many of `replies` are successes.
pub open spec fn votes_in(replies: Seq<Result<(), RedsyncError>>) -> nat
    decreases replies.len(),
{
    if replies.len() == 0 {
        0
    } else if replies.last() is Ok {
        votes_in(replies.drop_last()) + 1
    } else {
        votes_in(replies.drop_last())
    }
}

/// The errors among `replies`, in their order.
pub open spec fn errors_in(replies: Seq<Result<(), RedsyncError>>) -> Seq<RedsyncError>
    decreases replies.len(),
{
    if replies.len() == 0 {
        Seq::empty()
    } else {
        match replies.last() {
            Ok(_) => errors_in(replies.drop_last()),
            Err(e) => errors_in(replies.drop_last()).push(e),
        }
    }
}

/// Counts the successes among the answers of a fan-out, and collects the
/// errors in their order.
pub fn tally(replies: Vec<Result<(), RedsyncError>>) -> (count: (usize, MultiError))
    ensures
        count.0 == votes_in(replies@),
        count.1@ == errors_in(replies@),
{
    let ghost all = replies@;
    let mut votes: usize = 0;
    let mut errors = MultiError::new();
    proof {
        assert(all.len() == replies.len());
    }
    for reply in iter: replies
        invariant
            iter.seq() == all,
            all.len() <= usize::MAX,
            votes <= iter.index(),
            votes == votes_in(all.take(iter.index() as int)),
            errors@ == errors_in(all.take(iter.index() as int)),
    {
        proof {
            let more = all.take(iter.index() + 1);
            assert(more.drop_last() == all.take(iter.index() as int));
            assert(more.last() == reply);
        }
        match reply {
            Ok(_) => {
                votes = votes + 1;
            },
            Err(e) => {
                errors.push(e);
            },
        }
    }
    proof {
        assert(all.take(all.len() as int) == all);
    }
    (votes, errors)
}

/// When every answer is a success, every answer is a vote and there is no error.
pub proof fn lemma_all_successes(replies: Seq<Result<(), RedsyncError>>)
    requires
        forall|i: int| 0 <= i < replies.len() ==> (#[trigger] replies[i]) is Ok,
    ensures
        votes_in(replies) == replies.len(),
        errors_in(replies) == Seq::<RedsyncError>::empty(),
    decreases replies.len(),
{
    if replies.len() > 0 {
        assert forall|i: int| 0 <= i < replies.drop_last().len() implies (
        #[trigger] replies.drop_last()[i]) is Ok by {
            assert(replies.drop_last()[i] == replies[i]);
        }
        lemma_all_successes(replies.drop_last());
    }
}

/// Each answer is a vote or an error, never both.
pub proof fn lemma_votes_and_errors(replies: Seq<Result<(), RedsyncError>>)
    ensures
        votes_in(replies) + errors_in(replies).len() == replies.len(),
    decreases replies.len(),
{
    if replies.len() > 0 {
        lemma_votes_and_errors(replies.drop_last());
    }
}

} // verus!
