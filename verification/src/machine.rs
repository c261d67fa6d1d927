//! The acquisition state machine: what an acquire or extend operation does
//! next, given what it has heard so far.
//!
//! The machine performs nothing itself. It names the next [`Action`], and is
//! told the answer as an [`Event`]. Whoever drives it reads the clock, calls
//! the instances and sleeps.

use crate::errors::{MultiError, RedsyncError};
use crate::lease::{candidate_expiry, expiry_of, holds, quorum, quorum_of};
use vstd::prelude::*;

verus! {

/// Which primitive an operation invokes on each instance.
#[derive(Clone, Copy, PartialEq, Eq, Structural, Debug)]
pub enum Call {
    Lock,
    Extend,
}

/// Where an operation stands.
#[derive(Clone, Copy, PartialEq, Eq, Structural, Debug)]
pub enum Phase {
    /// An attempt is about to begin: the clock is read for its start.
    Starting,
    /// The instances are being asked, one after the other.
    Voting,
    /// Every instance has answered: the clock is read to judge the attempt.
    Judging,
    /// The attempt failed: the instances are being told to release.
    Releasing,
    /// The attempt failed and another one remains: the operation pauses.
    Sleeping,
    /// The lease is held.
    Granted,
    /// No attempt remains.
    Failed,
}

/// What the driver does next on behalf of the operation.
#[derive(Clone, Copy, PartialEq, Eq, Structural, Debug)]
pub enum Action {
    /// Read the monotonic clock and answer with [`Event::Clock`].
    ReadClock,
    /// Invoke `acquire` on the instance at this index and answer with [`Event::Reply`].
    Acquire(usize),
    /// Invoke `extend` on the instance at this index and answer with [`Event::Reply`].
    Extend(usize),
    /// Invoke `release` on the instance at this index and answer with [`Event::Reply`].
    Release(usize),
    /// Sleep for a jittered retry delay and answer with [`Event::Resumed`].
    Sleep,
    /// Nothing more: the operation has ended.
    Finish,
}

/// What the driver reports back.
pub enum Event {
    /// A reading of the monotonic clock, in milliseconds.
    Clock(u64),
    /// The answer of the instance that was last contacted.
    Reply(Result<(), RedsyncError>),
    /// The pause has ended.
    Resumed,
}

/// The mathematical state of a [`Machine`].
pub struct State {
    pub call: Call,
    pub nodes: nat,
    pub quorum: nat,
    pub retry_count: nat,
    pub ttl: nat,
    pub phase: Phase,
    /// Attempts begun so far.
    pub attempts: nat,
    /// The instance whose answer is awaited.
    pub index: nat,
    /// Instances that granted the current attempt.
    pub votes: nat,
    /// The reading at which the current attempt began.
    pub started: nat,
    /// The expiry of the current attempt's candidate lease.
    pub expiry: nat,
    /// The errors of the current attempt, in cluster order.
    pub errors: Seq<RedsyncError>,
}

/// The state in which an operation begins.
pub open spec fn initial(call: Call, nodes: nat, retry_count: nat, ttl: nat) -> State {
    State {
        call,
        nodes,
        quorum: quorum_of(nodes),
        retry_count,
        ttl,
        phase: if retry_count == 0 {
            Phase::Failed
        } else {
            Phase::Starting
        },
        attempts: 0,
        index: 0,
        votes: 0,
        started: 0,
        expiry: 0,
        errors: Seq::empty(),
    }
}

/// The state after the clean-up of a failed attempt: a pause if an attempt
/// remains, and then the errors are forgotten; the end if none does, and then
/// they are kept.
pub open spec fn settled(s: State) -> State {
    if s.attempts < s.retry_count {
        State { phase: Phase::Sleeping, index: 0, errors: Seq::empty(), ..s }
    } else {
        State { phase: Phase::Failed, index: 0, ..s }
    }
}

/// The state that follows `s` on the event `e`. An event that the phase does
/// not await leaves the state as it is.
pub open spec fn next(s: State, e: Event) -> State {
    match (s.phase, e) {
        (Phase::Starting, Event::Clock(t)) => State {
            phase: if s.nodes == 0 {
                Phase::Judging
            } else {
                Phase::Voting
            },
            attempts: s.attempts + 1,
            index: 0,
            votes: 0,
            started: t as nat,
            expiry: candidate_expiry(t as nat, s.ttl),
            errors: Seq::empty(),
            ..s
        },
        (Phase::Voting, Event::Reply(r)) => State {
            phase: if s.index + 1 >= s.nodes {
                Phase::Judging
            } else {
                Phase::Voting
            },
            index: s.index + 1,
            votes: if r is Ok {
                s.votes + 1
            } else {
                s.votes
            },
            errors: match r {
                Ok(_) => s.errors,
                Err(e) => s.errors.push(e),
            },
            ..s
        },
        (Phase::Judging, Event::Clock(now)) => if holds(s.votes, s.quorum, s.expiry, now as nat) {
            State { phase: Phase::Granted, index: 0, ..s }
        } else if s.nodes == 0 {
            settled(s)
        } else {
            State { phase: Phase::Releasing, index: 0, ..s }
        },
        (Phase::Releasing, Event::Reply(_)) => if s.index + 1 >= s.nodes {
            settled(s)
        } else {
            State { index: s.index + 1, ..s }
        },
        (Phase::Sleeping, Event::Resumed) => State { phase: Phase::Starting, ..s },
        _ => s,
    }
}

/// The action that the state `s` waits for.
pub open spec fn pending(s: State) -> Action {
    match s.phase {
        Phase::Starting => Action::ReadClock,
        Phase::Voting => match s.call {
            Call::Lock => Action::Acquire(s.index as usize),
            Call::Extend => Action::Extend(s.index as usize),
        },
        Phase::Judging => Action::ReadClock,
        Phase::Releasing => Action::Release(s.index as usize),
        Phase::Sleeping => Action::Sleep,
        Phase::Granted => Action::Finish,
        Phase::Failed => Action::Finish,
    }
}

/// Whether the event `e` answers the action that `s` waits for.
pub open spec fn awaited(s: State, e: Event) -> bool {
    match (s.phase, e) {
        (Phase::Starting, Event::Clock(_)) => true,
        (Phase::Voting, Event::Reply(_)) => true,
        (Phase::Judging, Event::Clock(_)) => true,
        (Phase::Releasing, Event::Reply(_)) => true,
        (Phase::Sleeping, Event::Resumed) => true,
        _ => false,
    }
}

/// The states that an operation can be in.
pub open spec fn wf(s: State) -> bool {
    &&& s.nodes <= usize::MAX
    &&& s.retry_count <= u32::MAX
    &&& s.ttl <= u64::MAX
    &&& s.started <= u64::MAX
    &&& s.expiry <= u64::MAX
    &&& s.quorum == quorum_of(s.nodes)
    &&& s.attempts <= s.retry_count
    &&& s.index <= s.nodes
    &&& s.votes <= s.nodes
    &&& match s.phase {
        Phase::Starting => s.attempts < s.retry_count && s.errors.len() == 0 && s.index == 0,
        Phase::Voting => {
            &&& s.attempts >= 1
            &&& s.index < s.nodes
            &&& s.votes + s.errors.len() == s.index
            &&& s.expiry == candidate_expiry(s.started, s.ttl)
        },
        Phase::Judging => {
            &&& s.attempts >= 1
            &&& s.index == s.nodes
            &&& s.votes + s.errors.len() == s.nodes
            &&& s.expiry == candidate_expiry(s.started, s.ttl)
        },
        Phase::Releasing => {
            &&& s.attempts >= 1
            &&& s.index < s.nodes
            &&& s.votes + s.errors.len() == s.nodes
            &&& s.expiry == candidate_expiry(s.started, s.ttl)
        },
        Phase::Sleeping => {
            &&& s.attempts >= 1
            &&& s.attempts < s.retry_count
            &&& s.errors.len() == 0
            &&& s.index == 0
        },
        Phase::Granted => {
            &&& s.attempts >= 1
            &&& s.votes >= s.quorum
            &&& s.votes + s.errors.len() == s.nodes
            &&& s.expiry == candidate_expiry(s.started, s.ttl)
        },
        Phase::Failed => {
            &&& s.attempts == s.retry_count
            &&& s.retry_count >= 1 ==> s.votes + s.errors.len() == s.nodes
            &&& s.retry_count == 0 ==> s.errors.len() == 0
        },
    }
}

/// An operation in flight, as plain data.
pub struct Machine {
    call: Call,
    nodes: usize,
    quorum: usize,
    retry_count: u32,
    ttl: u64,
    phase: Phase,
    attempts: u32,
    index: usize,
    votes: usize,
    started: u64,
    expiry: u64,
    errors: MultiError,
}

impl View for Machine {
    type V = State;

    closed spec fn view(&self) -> State {
        State {
            call: self.call,
            nodes: self.nodes as nat,
            quorum: self.quorum as nat,
            retry_count: self.retry_count as nat,
            ttl: self.ttl as nat,
            phase: self.phase,
            attempts: self.attempts as nat,
            index: self.index as nat,
            votes: self.votes as nat,
            started: self.started as nat,
            expiry: self.expiry as nat,
            errors: self.errors@,
        }
    }
}

/// What an ended operation hands back: the expiry of the lease that it won,
/// or the error that names the operation and carries the last attempt's errors.
pub open spec fn is_outcome_of(s: State, r: Option<Result<u64, RedsyncError>>) -> bool {
    match s.phase {
        Phase::Granted => r == Some(Ok::<u64, RedsyncError>(s.expiry as u64)),
        Phase::Failed => match s.call {
            Call::Lock => r matches Some(Err(RedsyncError::LockRetriesExceeded(m))) && m@
                == s.errors,
            Call::Extend => r matches Some(Err(RedsyncError::ExtendRetriesExceeded(m))) && m@
                == s.errors,
        },
        _ => r is None,
    }
}

impl Machine {
    #[verifier::type_invariant]
    spec fn inv(self) -> bool {
        wf(self@)
    }

    /// Whether the machine is in a state that an operation can reach. Every
    /// machine is.
    pub open spec fn wf(&self) -> bool {
        wf(self@)
    }

    /// An operation of kind `call` on a cluster of `nodes` instances, with
    /// `retry_count` attempts at a lease of `ttl` milliseconds.
    pub fn new(call: Call, nodes: usize, retry_count: u32, ttl: u64) -> (m: Machine)
        ensures
            m@ == initial(call, nodes as nat, retry_count as nat, ttl as nat),
            m.wf(),
    {
        Machine {
            call,
            nodes,
            quorum: quorum(nodes),
            retry_count,
            ttl,
            phase: if retry_count == 0 {
                Phase::Failed
            } else {
                Phase::Starting
            },
            attempts: 0,
            index: 0,
            votes: 0,
            started: 0,
            expiry: 0,
            errors: MultiError::new(),
        }
    }

    /// What the driver does next.
    pub fn action(&self) -> (a: Action)
        ensures
            a == pending(self@),
    {
        match self.phase {
            Phase::Starting => Action::ReadClock,
            Phase::Voting => match self.call {
                Call::Lock => Action::Acquire(self.index),
                Call::Extend => Action::Extend(self.index),
            },
            Phase::Judging => Action::ReadClock,
            Phase::Releasing => Action::Release(self.index),
            Phase::Sleeping => Action::Sleep,
            Phase::Granted => Action::Finish,
            Phase::Failed => Action::Finish,
        }
    }

    fn settle(self) -> (m: Machine)
        requires
            self@.attempts >= 1,
            self@.votes + self@.errors.len() == self@.nodes,
            self@.phase == Phase::Judging || self@.phase == Phase::Releasing,
        ensures
            m@ == settled(self@),
            m.wf(),
    {
        proof {
            use_type_invariant(&self);
        }
        if self.attempts < self.retry_count {
            Machine { phase: Phase::Sleeping, index: 0, errors: MultiError::new(), ..self }
        } else {
            Machine { phase: Phase::Failed, index: 0, ..self }
        }
    }

    /// Takes the answer to the pending action and moves on.
    pub fn handle(self, event: Event) -> (m: Machine)
        ensures
            m@ == next(self@, event),
            self.wf(),
            m.wf(),
    {
        proof {
            use_type_invariant(&self);
        }
        match (self.phase, event) {
            (Phase::Starting, Event::Clock(t)) => Machine {
                phase: if self.nodes == 0 {
                    Phase::Judging
                } else {
                    Phase::Voting
                },
                attempts: self.attempts + 1,
                index: 0,
                votes: 0,
                started: t,
                expiry: expiry_of(t, self.ttl),
                errors: MultiError::new(),
                ..self
            },
            (Phase::Voting, Event::Reply(r)) => {
                let index: usize = self.index + 1;
                let phase = if index >= self.nodes {
                    Phase::Judging
                } else {
                    Phase::Voting
                };
                match r {
                    Ok(_) => Machine { phase, index, votes: self.votes + 1, ..self },
                    Err(e) => {
                        let mut errors = self.errors;
                        errors.push(e);
                        Machine { phase, index, errors, ..self }
                    },
                }
            },
            (Phase::Judging, Event::Clock(now)) => {
                if self.votes >= self.quorum && self.expiry > now {
                    Machine { phase: Phase::Granted, index: 0, ..self }
                } else if self.nodes == 0 {
                    self.settle()
                } else {
                    Machine { phase: Phase::Releasing, index: 0, ..self }
                }
            },
            (Phase::Releasing, Event::Reply(_)) => {
                if self.index + 1 >= self.nodes {
                    self.settle()
                } else {
                    Machine { index: self.index + 1, ..self }
                }
            },
            (Phase::Sleeping, Event::Resumed) => Machine { phase: Phase::Starting, ..self },
            _ => self,
        }
    }

    /// Ends the operation: the expiry of the lease that was won, the error if
    /// no attempt remains, and nothing while the operation is still under way.
    pub fn outcome(self) -> (r: Option<Result<u64, RedsyncError>>)
        ensures
            is_outcome_of(self@, r),
    {
        match self.phase {
            Phase::Granted => Some(Ok(self.expiry)),
            Phase::Failed => match self.call {
                Call::Lock => Some(Err(RedsyncError::LockRetriesExceeded(self.errors))),
                Call::Extend => Some(Err(RedsyncError::ExtendRetriesExceeded(self.errors))),
            },
            _ => None,
        }
    }

    /// The phase that the operation is in.
    pub fn phase(&self) -> (p: Phase)
        ensures
            p == self@.phase,
    {
        self.phase
    }

    /// The lease length of the operation, in milliseconds.
    pub fn ttl(&self) -> (t: u64)
        ensures
            t == self@.ttl,
    {
        self.ttl
    }

    /// The expiry of the current attempt's candidate lease.
    pub fn expiry(&self) -> (e: u64)
        ensures
            e == self@.expiry,
    {
        self.expiry
    }

    /// The number of attempts begun so far.
    pub fn attempts(&self) -> (n: u32)
        ensures
            n == self@.attempts,
    {
        self.attempts
    }

    /// The number of instances that granted the current attempt.
    pub fn votes(&self) -> (n: usize)
        ensures
            n == self@.votes,
    {
        self.votes
    }

    /// The errors of the current attempt, in cluster order.
    pub fn errors(&self) -> (e: &MultiError)
        ensures
            e@ == self@.errors,
    {
        &self.errors
    }
}

} // verus!
