//! What holds of every run of the acquisition state machine.

use crate::errors::RedsyncError;
use crate::lease::{candidate_expiry, holds, lease_expiry, quorum_of};
use crate::tally::{errors_in, votes_in};
use crate::machine::{
    awaited, initial, next, pending, settled, wf, Action, Call, Event, Phase, State,
};
use vstd::prelude::*;

verus! {

/// The state reached from `s` after the events of `events`, in order.
pub open spec fn run(s: State, events: Seq<Event>) -> State
    decreases events.len(),
{
    if events.len() == 0 {
        s
    } else {
        next(run(s, events.drop_last()), events.last())
    }
}

/// Whether the event `e` makes the state `s` begin an attempt, that is, a
/// fan-out of `acquire` or `extend` over the cluster.
pub open spec fn begins_attempt(s: State, e: Event) -> bool {
    s.phase == Phase::Starting && e is Clock
}

/// Whether the event `e` makes the state `s` begin a pause.
pub open spec fn begins_pause(s: State, e: Event) -> bool {
    s.phase != Phase::Sleeping && next(s, e).phase == Phase::Sleeping
}

/// How many attempts begin while `events` are taken from `s`.
pub open spec fn attempts_begun(s: State, events: Seq<Event>) -> nat
    decreases events.len(),
{
    if events.len() == 0 {
        0
    } else {
        let earlier = attempts_begun(s, events.drop_last());
        if begins_attempt(run(s, events.drop_last()), events.last()) {
            earlier + 1
        } else {
            earlier
        }
    }
}

/// How many pauses begin while `events` are taken from `s`.
pub open spec fn pauses_begun(s: State, events: Seq<Event>) -> nat
    decreases events.len(),
{
    if events.len() == 0 {
        0
    } else {
        let earlier = pauses_begun(s, events.drop_last());
        if begins_pause(run(s, events.drop_last()), events.last()) {
            earlier + 1
        } else {
            earlier
        }
    }
}

/// The replies `replies`, as events.
pub open spec fn replies_as_events(replies: Seq<Result<(), RedsyncError>>) -> Seq<Event> {
    Seq::new(replies.len(), |i: int| Event::Reply(replies[i]))
}

/// The pauses that lie behind a state reached from the start of an operation.
pub open spec fn pauses_behind(s: State) -> nat {
    match s.phase {
        Phase::Starting => s.attempts,
        Phase::Sleeping => s.attempts,
        _ => if s.attempts == 0 {
            0
        } else {
            (s.attempts - 1) as nat
        },
    }
}

/// Every event leads from a well-formed state to a well-formed state, and the
/// configuration of the operation never changes.
pub proof fn lemma_next_preserves_wf(s: State, e: Event)
    requires
        wf(s),
    ensures
        wf(next(s, e)),
        next(s, e).call == s.call,
        next(s, e).nodes == s.nodes,
        next(s, e).quorum == s.quorum,
        next(s, e).retry_count == s.retry_count,
        next(s, e).ttl == s.ttl,
{
}

/// Every run leads from a well-formed state to a well-formed state, and the
/// configuration of the operation never changes.
pub proof fn lemma_run_preserves_wf(s: State, events: Seq<Event>)
    requires
        wf(s),
    ensures
        wf(run(s, events)),
        run(s, events).call == s.call,
        run(s, events).nodes == s.nodes,
        run(s, events).quorum == s.quorum,
        run(s, events).retry_count == s.retry_count,
        run(s, events).ttl == s.ttl,
    decreases events.len(),
{
    if events.len() > 0 {
        lemma_run_preserves_wf(s, events.drop_last());
        lemma_next_preserves_wf(run(s, events.drop_last()), events.last());
    }
}

/// Running one more event is taking one more step.
pub proof fn lemma_run_push(s: State, events: Seq<Event>, e: Event)
    ensures
        run(s, events.push(e)) == next(run(s, events), e),
{
    assert(events.push(e).drop_last() =~= events);
    assert(events.push(e).last() == e);
}

/// Running `a` and then `b` is running `a + b`.
pub proof fn lemma_run_append(s: State, a: Seq<Event>, b: Seq<Event>)
    ensures
        run(s, a + b) == run(run(s, a), b),
    decreases b.len(),
{
    if b.len() == 0 {
        assert(a + b == a);
    } else {
        assert((a + b).drop_last() == a + b.drop_last());
        assert((a + b).last() == b.last());
        lemma_run_append(s, a, b.drop_last());
    }
}

/// A run counts its attempts and its pauses in the state itself.
pub proof fn lemma_run_counts(s: State, events: Seq<Event>)
    requires
        wf(s),
    ensures
        run(s, events).attempts == s.attempts + attempts_begun(s, events),
        pauses_behind(run(s, events)) == pauses_behind(s) + pauses_begun(s, events),
    decreases events.len(),
{
    if events.len() > 0 {
        lemma_run_counts(s, events.drop_last());
        lemma_run_preserves_wf(s, events.drop_last());
    }
}

/// The retry bound. However the instances answer and whatever the clock
/// shows, an operation begins at most `retry_count` attempts, so it fans out
/// over the cluster at most `retry_count` times, and it pauses at most
/// `retry_count - 1` times.
pub proof fn lemma_retry_bound(
    call: Call,
    nodes: nat,
    retry_count: nat,
    ttl: nat,
    events: Seq<Event>,
)
    requires
        nodes <= usize::MAX,
        retry_count <= u32::MAX,
        ttl <= u64::MAX,
    ensures
        attempts_begun(initial(call, nodes, retry_count, ttl), events) <= retry_count,
        pauses_begun(initial(call, nodes, retry_count, ttl), events) + 1 <= retry_count
            || pauses_begun(initial(call, nodes, retry_count, ttl), events) == 0,
        retry_count >= 1 ==> pauses_begun(initial(call, nodes, retry_count, ttl), events)
            <= retry_count - 1,
{
    let s = initial(call, nodes, retry_count, ttl);
    lemma_run_counts(s, events);
    lemma_run_preserves_wf(s, events);
}

/// An operation that has ended in failure has begun exactly `retry_count`
/// attempts and paused between each two of them.
pub proof fn lemma_failure_uses_every_attempt(
    call: Call,
    nodes: nat,
    retry_count: nat,
    ttl: nat,
    events: Seq<Event>,
)
    requires
        nodes <= usize::MAX,
        retry_count <= u32::MAX,
        ttl <= u64::MAX,
        run(initial(call, nodes, retry_count, ttl), events).phase == Phase::Failed,
    ensures
        attempts_begun(initial(call, nodes, retry_count, ttl), events) == retry_count,
        retry_count >= 1 ==> pauses_begun(initial(call, nodes, retry_count, ttl), events)
            == retry_count - 1,
{
    let s = initial(call, nodes, retry_count, ttl);
    lemma_run_counts(s, events);
    lemma_run_preserves_wf(s, events);
}

/// Validity. An attempt is granted exactly when a quorum voted for it and its
/// expiry lies ahead of the clock reading taken after the last answer. The
/// lease then expires after that reading, and no later than `ttl` less the
/// drift after the start of the attempt.
pub proof fn lemma_granted_lease_is_valid(s: State, now: u64)
    requires
        wf(s),
        s.phase == Phase::Judging,
    ensures
        next(s, Event::Clock(now)).phase == Phase::Granted <==> holds(
            s.votes,
            s.quorum,
            s.expiry,
            now as nat,
        ),
        next(s, Event::Clock(now)).phase == Phase::Granted ==> {
            &&& next(s, Event::Clock(now)).expiry == s.expiry
            &&& s.votes >= s.nodes / 2 + 1
            &&& s.expiry > now
            &&& s.expiry <= s.started + s.ttl - s.ttl / 100 - 2
        },
{
    assert(s.expiry == candidate_expiry(s.started, s.ttl));
    assert(lease_expiry(s.started, s.ttl) == s.started + s.ttl - s.ttl / 100 - 2);
}

/// During a fan-out the instances are asked one after the other, in cluster
/// order, each exactly once: after `i` answers the machine waits for the
/// instance at index `i`, and after as many answers as there are instances
/// the fan-out is over.
pub proof fn lemma_fan_out_in_order(s: State, replies: Seq<Result<(), RedsyncError>>)
    requires
        wf(s),
        s.phase == Phase::Voting || s.phase == Phase::Releasing,
        s.index + replies.len() <= s.nodes,
    ensures
        run(s, replies_as_events(replies)).index == if s.index + replies.len() < s.nodes {
            s.index + replies.len()
        } else if s.phase == Phase::Voting {
            s.nodes
        } else {
            0
        },
        s.index + replies.len() < s.nodes ==> run(s, replies_as_events(replies)).phase
            == s.phase,
        s.index + replies.len() < s.nodes ==> pending(run(s, replies_as_events(replies)))
            == match s.phase {
            Phase::Voting => match s.call {
                Call::Lock => Action::Acquire((s.index + replies.len()) as usize),
                Call::Extend => Action::Extend((s.index + replies.len()) as usize),
            },
            _ => Action::Release((s.index + replies.len()) as usize),
        },
        s.index + replies.len() == s.nodes && s.phase == Phase::Voting ==> run(
            s,
            replies_as_events(replies),
        ).phase == Phase::Judging,
        s.index + replies.len() < s.nodes && s.phase == Phase::Releasing ==> run(
            s,
            replies_as_events(replies),
        ) == (State { index: s.index + replies.len(), ..s }),
        s.index + replies.len() == s.nodes && s.phase == Phase::Releasing ==> run(
            s,
            replies_as_events(replies),
        ) == settled(s),
        s.phase == Phase::Releasing ==> run(s, replies_as_events(replies)).errors == if s.index
            + replies.len() == s.nodes && s.attempts < s.retry_count {
            Seq::<RedsyncError>::empty()
        } else {
            s.errors
        },
    decreases replies.len(),
{
    let events = replies_as_events(replies);
    if replies.len() == 0 {
        assert(run(s, events) == s);
    } else {
        let shorter = replies.drop_last();
        assert(events.drop_last() == replies_as_events(shorter));
        assert(events.last() == Event::Reply(replies.last()));
        lemma_fan_out_in_order(s, shorter);
        lemma_run_preserves_wf(s, replies_as_events(shorter));
        let before = run(s, replies_as_events(shorter));
        assert(run(s, events) == next(before, events.last()));
        if s.phase == Phase::Releasing && s.index + replies.len() == s.nodes {
            assert(next(before, events.last()) == settled(before));
            assert(settled(before) == settled(s));
        }
    }
}

/// Clean-up after a failed attempt. When an attempt is judged and does not
/// hold, every instance of the cluster is told to release, in cluster order
/// and exactly once, before the operation pauses or ends: after `i` answers
/// the machine waits for the release of the instance at index `i`, and after
/// the last answer it pauses if an attempt remains and ends in failure if
/// none does. So each instance that voted for the attempt receives one
/// release.
pub proof fn lemma_failed_attempt_is_released(
    s: State,
    now: u64,
    replies: Seq<Result<(), RedsyncError>>,
)
    requires
        wf(s),
        s.phase == Phase::Judging,
        !holds(s.votes, s.quorum, s.expiry, now as nat),
        replies.len() <= s.nodes,
    ensures
        replies.len() < s.nodes ==> pending(
            run(next(s, Event::Clock(now)), replies_as_events(replies)),
        ) == Action::Release(replies.len() as usize),
        replies.len() == s.nodes ==> run(next(s, Event::Clock(now)), replies_as_events(replies))
            == settled(s),
        settled(s).phase == if s.attempts < s.retry_count {
            Phase::Sleeping
        } else {
            Phase::Failed
        },
{
    let judged = next(s, Event::Clock(now));
    lemma_next_preserves_wf(s, Event::Clock(now));
    if s.nodes == 0 {
        assert(replies_as_events(replies) =~= Seq::<Event>::empty());
        assert(run(judged, replies_as_events(replies)) == judged);
    } else {
        lemma_fan_out_in_order(judged, replies);
        assert(settled(judged) == settled(s));
    }
}

/// A healthy cluster grants at once. When every instance of a cluster that is
/// not empty answers `acquire` or `extend` with success, and the clock after
/// the last answer has not reached the candidate's expiry, the first attempt
/// is granted.
pub proof fn lemma_healthy_cluster_grants(
    call: Call,
    nodes: nat,
    retry_count: nat,
    ttl: nat,
    start: u64,
    replies: Seq<Result<(), RedsyncError>>,
    now: u64,
)
    requires
        1 <= nodes <= usize::MAX,
        1 <= retry_count <= u32::MAX,
        ttl <= u64::MAX,
        replies.len() == nodes,
        forall|i: int| 0 <= i < replies.len() ==> (#[trigger] replies[i]) is Ok,
        candidate_expiry(start as nat, ttl) > now,
    ensures
        run(
            initial(call, nodes, retry_count, ttl),
            seq![Event::Clock(start)] + replies_as_events(replies) + seq![Event::Clock(now)],
        ).phase == Phase::Granted,
        run(
            initial(call, nodes, retry_count, ttl),
            seq![Event::Clock(start)] + replies_as_events(replies) + seq![Event::Clock(now)],
        ).expiry == candidate_expiry(start as nat, ttl),
{
    let s0 = initial(call, nodes, retry_count, ttl);
    let first = seq![Event::Clock(start)];
    let last = seq![Event::Clock(now)];
    let s1 = next(s0, Event::Clock(start));
    assert(first.drop_last() =~= Seq::<Event>::empty());
    assert(run(s0, first.drop_last()) == s0);
    assert(run(s0, first) == s1);
    lemma_next_preserves_wf(s0, Event::Clock(start));
    lemma_all_votes(s1, replies);
    let s2 = run(s1, replies_as_events(replies));
    lemma_run_append(s0, first, replies_as_events(replies));
    lemma_run_append(s0, first + replies_as_events(replies), last);
    assert(last.drop_last() =~= Seq::<Event>::empty());
    assert(run(s2, last.drop_last()) == s2);
    assert(run(s2, last) == next(s2, Event::Clock(now)));
}

/// When every answer of a fan-out is a success, every answer is a vote and
/// no error is recorded.
pub proof fn lemma_all_votes(s: State, replies: Seq<Result<(), RedsyncError>>)
    requires
        wf(s),
        s.phase == Phase::Voting,
        s.index + replies.len() <= s.nodes,
        forall|i: int| 0 <= i < replies.len() ==> (#[trigger] replies[i]) is Ok,
    ensures
        run(s, replies_as_events(replies)).votes == s.votes + replies.len(),
        run(s, replies_as_events(replies)).errors == s.errors,
        run(s, replies_as_events(replies)).expiry == s.expiry,
        run(s, replies_as_events(replies)).started == s.started,
        run(s, replies_as_events(replies)).phase == if s.index + replies.len() == s.nodes {
            Phase::Judging
        } else {
            Phase::Voting
        },
        wf(run(s, replies_as_events(replies))),
    decreases replies.len(),
{
    let events = replies_as_events(replies);
    lemma_run_preserves_wf(s, events);
    lemma_fan_out_in_order(s, replies);
    if replies.len() == 0 {
        assert(run(s, events) == s);
    } else {
        let shorter = replies.drop_last();
        assert(events.drop_last() == replies_as_events(shorter));
        assert(events.last() == Event::Reply(replies.last()));
        assert(replies.last() is Ok);
        assert forall|i: int| 0 <= i < shorter.len() implies (#[trigger] shorter[i]) is Ok by {
            assert(shorter[i] == replies[i]);
        }
        lemma_all_votes(s, shorter);
        lemma_fan_out_in_order(s, shorter);
    }
}

/// A fan-out is tallied as it comes in: each success is a vote, and each
/// error is kept after those of the instances before it.
pub proof fn lemma_fan_out_tallies(s: State, replies: Seq<Result<(), RedsyncError>>)
    requires
        wf(s),
        s.phase == Phase::Voting,
        s.index + replies.len() <= s.nodes,
    ensures
        run(s, replies_as_events(replies)).votes == s.votes + votes_in(replies),
        run(s, replies_as_events(replies)).errors == s.errors + errors_in(replies),
    decreases replies.len(),
{
    let events = replies_as_events(replies);
    if replies.len() == 0 {
        assert(run(s, events) == s);
        assert(s.errors + errors_in(replies) =~= s.errors);
    } else {
        let shorter = replies.drop_last();
        assert(events.drop_last() == replies_as_events(shorter));
        assert(events.last() == Event::Reply(replies.last()));
        lemma_fan_out_tallies(s, shorter);
        lemma_fan_out_in_order(s, shorter);
        match replies.last() {
            Ok(_) => {},
            Err(e) => {
                assert(s.errors + errors_in(replies) =~= (s.errors + errors_in(shorter)).push(e));
            },
        }
    }
}

/// The errors that an operation holds are those of its last attempt alone.
/// Whatever lies behind an operation that is about to begin an attempt, once
/// the clock is read and every instance has answered, the votes are the
/// successes among those answers and the errors are the errors among them, in
/// cluster order.
pub proof fn lemma_errors_are_of_the_last_attempt(
    s: State,
    start: u64,
    replies: Seq<Result<(), RedsyncError>>,
)
    requires
        wf(s),
        s.phase == Phase::Starting,
        replies.len() == s.nodes,
    ensures
        run(next(s, Event::Clock(start)), replies_as_events(replies)).phase == Phase::Judging,
        run(next(s, Event::Clock(start)), replies_as_events(replies)).votes == votes_in(replies),
        run(next(s, Event::Clock(start)), replies_as_events(replies)).errors == errors_in(
            replies,
        ),
{
    let begun = next(s, Event::Clock(start));
    lemma_next_preserves_wf(s, Event::Clock(start));
    if s.nodes == 0 {
        assert(replies_as_events(replies) =~= Seq::<Event>::empty());
        assert(run(begun, replies_as_events(replies)) == begun);
    } else {
        lemma_fan_out_tallies(begun, replies);
        lemma_fan_out_in_order(begun, replies);
        assert(begun.errors + errors_in(replies) =~= errors_in(replies));
    }
}

/// How many answers an operation in the state `s` still takes, at most, before
/// it pauses or ends.
pub open spec fn remaining(s: State) -> nat {
    match s.phase {
        Phase::Starting => 2 * s.nodes + 3,
        Phase::Voting => ((s.nodes - s.index) + s.nodes + 2) as nat,
        Phase::Judging => s.nodes + 1,
        Phase::Releasing => (s.nodes - s.index) as nat,
        _ => 0,
    }
}

/// Progress. Between two pauses every awaited answer brings the operation
/// closer to its next pause or to its end, which therefore comes after at
/// most `2 * nodes + 3` answers.
pub proof fn lemma_awaited_event_makes_progress(s: State, e: Event)
    requires
        wf(s),
        awaited(s, e),
        s.phase != Phase::Sleeping,
    ensures
        remaining(next(s, e)) < remaining(s),
        remaining(s) <= 2 * s.nodes + 3,
{
}

/// An operation that has ended stays as it is, whatever it is told.
pub proof fn lemma_end_is_final(s: State, events: Seq<Event>)
    requires
        s.phase == Phase::Granted || s.phase == Phase::Failed,
    ensures
        run(s, events) == s,
    decreases events.len(),
{
    if events.len() > 0 {
        lemma_end_is_final(s, events.drop_last());
    }
}

/// Validity of every granted lease. A run that ends with the lease held has
/// judged it: at some event the operation stood with every answer in, read
/// the clock, found a quorum of votes and the expiry ahead of that reading,
/// and nothing changed afterwards. The proof function hands back the place of
/// that reading among the events. The expiry that the run ends with is ahead
/// of it, and no later than `ttl` less the drift after the start of the
/// attempt.
pub proof fn lemma_granted_run_was_judged(s: State, events: Seq<Event>) -> (k: int)
    requires
        wf(s),
        s.phase != Phase::Granted,
        run(s, events).phase == Phase::Granted,
    ensures
        0 <= k < events.len(),
        events[k] is Clock,
        run(s, events.take(k)).phase == Phase::Judging,
        run(s, events.take(k)).votes >= quorum_of(s.nodes),
        run(s, events) == run(s, events.take(k + 1)),
        run(s, events).expiry == run(s, events.take(k)).expiry,
        run(s, events).started == run(s, events.take(k)).started,
        run(s, events).expiry > events[k]->Clock_0,
        run(s, events).expiry <= run(s, events).started + s.ttl - s.ttl / 100 - 2,
    decreases events.len(),
{
    assert(events.len() > 0);
    let earlier = events.drop_last();
    let before = run(s, earlier);
    lemma_run_preserves_wf(s, earlier);
    if before.phase == Phase::Granted {
        let k = lemma_granted_run_was_judged(s, earlier);
        assert(earlier.take(k) == events.take(k));
        assert(earlier.take(k + 1) == events.take(k + 1));
        assert(earlier[k] == events[k]);
        assert(run(s, events) == before);
        k
    } else {
        let k = events.len() - 1;
        assert(events.take(k) == earlier);
        assert(events.take(k + 1) == events);
        assert(before.phase == Phase::Judging);
        lemma_granted_lease_is_valid(before, events[k]->Clock_0);
        k
    }
}

} // verus!
