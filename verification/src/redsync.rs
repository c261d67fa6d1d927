//! The manager: it owns the cluster and drives acquire, extend and release.

use crate::builder::{ConfigError, RedsyncBuilder};
use crate::clock::{is_reading_since, millis_since};
use crate::errors::RedsyncError;
use crate::instance::Instance;
use crate::lease::{holds, quorum, quorum_of, Lock};
use crate::machine::{
    initial, is_outcome_of, next, pending, Action, Call, Event, Machine, Phase, State,
};
use crate::random::{is_lock_id, jittered, random_lock_id, random_retry_delay, spread};
use crate::tally::{errors_in, lemma_all_successes, tally, votes_in};
use crate::trace::{lemma_run_preserves_wf, lemma_run_push, remaining, run};
use std::time::Instant;
use vstd::pervasive::unreached;
use vstd::prelude::*;

verus! {

/// A distributed lock manager over a cluster of instances.
pub struct Redsync<I: Instance> {
    cluster: Vec<I>,
    quorum: usize,
    retry_count: u32,
    retry_delay: u64,
    retry_jitter: u64,
    epoch: Instant,
}

/// The manager under the name of the algorithm that it implements.
pub type Redlock<I> = Redsync<I>;

/// The configuration of a manager, as plain numbers. Delays are in milliseconds.
pub struct Config {
    pub nodes: nat,
    pub quorum: nat,
    pub retry_count: nat,
    pub retry_delay: nat,
    pub retry_jitter: nat,
}

/// The configurations that a manager can have: a cluster that is not empty,
/// its majority as quorum, and one attempt at least.
pub open spec fn valid(c: Config) -> bool {
    &&& c.nodes >= 1
    &&& c.retry_count >= 1
    &&& c.quorum == quorum_of(c.nodes)
}

impl<I: Instance> View for Redsync<I> {
    type V = Config;

    closed spec fn view(&self) -> Config {
        Config {
            nodes: self.cluster@.len(),
            quorum: self.quorum as nat,
            retry_count: self.retry_count as nat,
            retry_delay: self.retry_delay as nat,
            retry_jitter: self.retry_jitter as nat,
        }
    }
}

/// Whether `outcome` is what a release that drew `replies` from the cluster
/// comes to: success when a quorum released, and else the failure that
/// carries the errors of the others.
pub open spec fn is_unlock_outcome(
    replies: Seq<Result<(), RedsyncError>>,
    quorum: nat,
    outcome: Result<(), RedsyncError>,
) -> bool {
    if votes_in(replies) >= quorum {
        outcome is Ok
    } else {
        outcome matches Err(RedsyncError::UnlockFailed(m)) && m@ == errors_in(replies)
    }
}

/// Comes to the outcome of a release from the answers of the instances, given
/// in cluster order.
pub fn unlock_outcome(replies: Vec<Result<(), RedsyncError>>, quorum: usize) -> (outcome: Result<
    (),
    RedsyncError,
>)
    ensures
        is_unlock_outcome(replies@, quorum as nat, outcome),
{
    let (votes, errors) = tally(replies);
    if votes < quorum {
        Err(RedsyncError::UnlockFailed(errors))
    } else {
        Ok(())
    }
}

/// A healthy cluster releases. When every instance of a cluster that is not
/// empty answers `release` with success, the release succeeds.
pub proof fn lemma_healthy_cluster_releases(
    replies: Seq<Result<(), RedsyncError>>,
    outcome: Result<(), RedsyncError>,
)
    requires
        replies.len() >= 1,
        forall|i: int| 0 <= i < replies.len() ==> (#[trigger] replies[i]) is Ok,
        is_unlock_outcome(replies, quorum_of(replies.len()), outcome),
    ensures
        outcome is Ok,
{
    lemma_all_successes(replies);
}

impl<I: Instance> Redsync<I> {
    #[verifier::type_invariant]
    spec fn inv(self) -> bool {
        &&& self.cluster@.len() >= 1
        &&& self.retry_count >= 1
        &&& self.quorum == quorum_of(self.cluster@.len())
    }

    /// The instances of the cluster, in their order.
    pub closed spec fn instances(&self) -> Seq<I> {
        self.cluster@
    }

    /// A manager over `cluster` with the default tuning. An empty cluster is rejected.
    pub fn new(cluster: Vec<I>) -> (r: Result<Redsync<I>, ConfigError>)
        ensures
            cluster@.len() == 0 <==> r == Err::<Redsync<I>, ConfigError>(ConfigError::EmptyCluster),
            cluster@.len() > 0 ==> r is Ok && r->Ok_0.instances() == cluster@ && r->Ok_0@ == (Config {
                nodes: cluster@.len(),
                quorum: quorum_of(cluster@.len()),
                retry_count: 3,
                retry_delay: 200,
                retry_jitter: 100,
            }),
    {
        RedsyncBuilder::new(cluster).build()
    }

    /// Puts a manager together from a validated configuration.
    pub(crate) fn assemble(
        cluster: Vec<I>,
        retry_count: u32,
        retry_delay: u64,
        retry_jitter: u64,
    ) -> (r: Redsync<I>)
        requires
            cluster@.len() >= 1,
            retry_count >= 1,
        ensures
            r.instances() == cluster@,
            r@ == (Config {
                nodes: cluster@.len(),
                quorum: quorum_of(cluster@.len()),
                retry_count: retry_count as nat,
                retry_delay: retry_delay as nat,
                retry_jitter: retry_jitter as nat,
            }),
            valid(r@),
    {
        let quorum: usize = quorum(cluster.len());
        Redsync { cluster, quorum, retry_count, retry_delay, retry_jitter, epoch: Instant::now() }
    }

    /// The number of instances in the cluster.
    pub fn nodes(&self) -> (n: usize)
        ensures
            n == self@.nodes,
            n >= 1,
    {
        proof {
            use_type_invariant(self);
        }
        self.cluster.len()
    }

    /// The number of instances that must agree: the majority of the cluster.
    pub fn quorum(&self) -> (q: usize)
        ensures
            q == self@.quorum,
            q == self@.nodes / 2 + 1,
            2 * q > self@.nodes,
            q <= self@.nodes,
    {
        proof {
            use_type_invariant(self);
        }
        self.quorum
    }

    /// The number of attempts that one operation makes.
    pub fn retry_count(&self) -> (n: u32)
        ensures
            n == self@.retry_count,
            n >= 1,
    {
        proof {
            use_type_invariant(self);
        }
        self.retry_count
    }

    /// The pause between two attempts, in milliseconds, before jitter.
    pub fn retry_delay(&self) -> (d: u64)
        ensures
            d == self@.retry_delay,
    {
        self.retry_delay
    }

    /// The most by which a pause differs from the retry delay, in milliseconds.
    pub fn retry_jitter(&self) -> (j: u64)
        ensures
            j == self@.retry_jitter,
    {
        self.retry_jitter
    }

    /// The reading of this manager's monotonic clock: the milliseconds since
    /// the manager was built. The expiry of a lease is such a reading.
    pub fn now(&self) -> (now: u64)
        ensures
            is_reading_since(self.epoch(), now),
    {
        millis_since(&self.epoch)
    }

    /// The instant from which the manager's clock counts: the one at which
    /// the manager was built.
    pub closed spec fn epoch(&self) -> Instant {
        self.epoch
    }

    /// A fresh owner value for a lease: twenty letters and digits, drawn at random.
    pub fn get_unique_lock_id(&self) -> (id: String)
        ensures
            is_lock_id(id@),
    {
        random_lock_id()
    }

    /// The next pause, in milliseconds: the retry delay, moved by a random
    /// whole offset from strictly inside the jitter, and never below zero.
    pub fn get_retry_delay(&self) -> (d: u64)
        ensures
            exists|offset: int|
                -spread(self@.retry_jitter) <= offset <= spread(self@.retry_jitter) && d
                    == jittered(self@.retry_delay, offset),
            self@.retry_delay - self@.retry_jitter <= d,
            d <= self@.retry_delay + self@.retry_jitter,
    {
        let d: u64 = random_retry_delay(self.retry_delay, self.retry_jitter);
        proof {
            let offset = choose|offset: int|
                -spread(self.retry_jitter as nat) <= offset <= spread(self.retry_jitter as nat)
                    && d == jittered(self.retry_delay as nat, offset);
            assert(d == jittered(self@.retry_delay, offset));
        }
        d
    }

    /// Begins to acquire `resource` for `ttl` milliseconds, under a fresh
    /// owner value. Nothing is sent before the operation is advanced.
    pub fn lock(&self, resource: &str, ttl: u64) -> (op: Operation<'_, I>)
        ensures
            op.wf(),
            op.manager() == *self,
            op.resource()@ == resource@,
            is_lock_id(op.value()@),
            op.state() == initial(Call::Lock, self@.nodes, self@.retry_count, ttl as nat),
    {
        proof {
            use_type_invariant(self);
        }
        let value = self.get_unique_lock_id();
        Operation {
            manager: self,
            resource: resource.to_owned(),
            value,
            machine: Machine::new(Call::Lock, self.cluster.len(), self.retry_count, ttl),
        }
    }

    /// Begins to extend the lease of `lock` to `ttl` milliseconds from now,
    /// under the owner value that `lock` carries. Nothing is sent before the
    /// operation is advanced.
    pub fn extend(&self, lock: &Lock, ttl: u64) -> (op: Operation<'_, I>)
        ensures
            op.wf(),
            op.manager() == *self,
            op.resource() == lock.resource,
            op.value() == lock.value,
            op.state() == initial(Call::Extend, self@.nodes, self@.retry_count, ttl as nat),
    {
        proof {
            use_type_invariant(self);
        }
        Operation {
            manager: self,
            resource: lock.resource.clone(),
            value: lock.value.clone(),
            machine: Machine::new(Call::Extend, self.cluster.len(), self.retry_count, ttl),
        }
    }

    /// Whether `replies` are answers of the cluster to the release of `lock`:
    /// one of each instance, in cluster order.
    pub open spec fn released_by(
        &self,
        lock: &Lock,
        replies: Seq<Result<(), RedsyncError>>,
    ) -> bool {
        &&& replies.len() == self.instances().len()
        &&& forall|i: int|
            0 <= i < replies.len() ==> call_ensures(
                I::release,
                (&self.instances()[i], lock),
                #[trigger] replies[i],
            )
    }

    /// Whether `event` answers `action`, taken on behalf of an operation that
    /// presents `lock`: a reading for the clock, the answer of the instance
    /// that the action names for a call, and the end of the pause for a pause.
    pub open spec fn answers(&self, action: Action, lock: &Lock, event: Event) -> bool {
        match action {
            Action::ReadClock => event is Clock,
            Action::Acquire(i) => {
                &&& i < self.instances().len()
                &&& event is Reply
                &&& call_ensures(I::acquire, (&self.instances()[i as int], lock), event->Reply_0)
            },
            Action::Extend(i) => {
                &&& i < self.instances().len()
                &&& event is Reply
                &&& call_ensures(I::extend, (&self.instances()[i as int], lock), event->Reply_0)
            },
            Action::Release(i) => {
                &&& i < self.instances().len()
                &&& event is Reply
                &&& call_ensures(I::release, (&self.instances()[i as int], lock), event->Reply_0)
            },
            Action::Sleep => event is Resumed,
            Action::Finish => false,
        }
    }

    /// Asks every instance, in cluster order and once, to release `lock`, and
    /// gives their answers in that order.
    pub fn release_all(&self, lock: &Lock) -> (replies: Vec<Result<(), RedsyncError>>)
        ensures
            self.released_by(lock, replies@),
    {
        let mut replies: Vec<Result<(), RedsyncError>> = Vec::new();
        let mut i: usize = 0;
        while i < self.cluster.len()
            invariant
                i <= self.cluster@.len(),
                replies@.len() == i,
                forall|j: int|
                    0 <= j < i ==> call_ensures(
                        I::release,
                        (&self.cluster@[j], lock),
                        #[trigger] replies@[j],
                    ),
            decreases self.cluster@.len() - i,
        {
            let reply = self.cluster[i].release(lock);
            replies.push(reply);
            i = i + 1;
        }
        replies
    }

    /// Releases `lock`: every instance is asked once, in cluster order, and the
    /// release succeeds when a quorum of them released. Nothing is retried.
    pub fn unlock(&self, lock: &Lock) -> (outcome: Result<(), RedsyncError>)
        ensures
            exists|replies: Seq<Result<(), RedsyncError>>|
                self.released_by(lock, replies) && #[trigger] is_unlock_outcome(
                    replies,
                    self@.quorum,
                    outcome,
                ),
            outcome is Err ==> outcome->Err_0 is UnlockFailed,
    {
        let replies = self.release_all(lock);
        let ghost answers = replies@;
        let outcome = unlock_outcome(replies, self.quorum);
        proof {
            assert(is_unlock_outcome(answers, self@.quorum, outcome));
        }
        outcome
    }
}

/// An acquire or an extend under way.
pub struct Operation<'a, I: Instance> {
    manager: &'a Redsync<I>,
    resource: String,
    value: String,
    machine: Machine,
}

/// How far an operation came when it was advanced.
pub enum Step<'a, I: Instance> {
    /// The attempt failed and another one remains: sleep for this many
    /// milliseconds, then advance the operation that is handed back.
    Sleep(u64, Operation<'a, I>),
    /// The lease is held.
    Granted(Lock),
    /// No attempt remains.
    Failed(RedsyncError),
}

impl<'a, I: Instance> Operation<'a, I> {
    #[verifier::type_invariant]
    spec fn inv(self) -> bool {
        &&& self.machine.wf()
        &&& self.machine@.nodes == self.manager@.nodes
        &&& self.machine@.retry_count == self.manager@.retry_count
        &&& self.machine@.phase == Phase::Starting || self.machine@.phase == Phase::Sleeping
    }

    /// Whether the operation is one that its manager runs: it rests before an
    /// attempt or in a pause, and counts the instances of its manager.
    pub closed spec fn wf(&self) -> bool {
        self.inv()
    }

    /// The manager that runs the operation.
    pub closed spec fn manager(&self) -> Redsync<I> {
        *self.manager
    }

    /// The resource that the operation is about.
    pub closed spec fn resource(&self) -> String {
        self.resource
    }

    /// The owner value that the operation presents.
    pub closed spec fn value(&self) -> String {
        self.value
    }

    /// The state of the operation.
    pub closed spec fn state(&self) -> State {
        self.machine@
    }

    /// The lease that the operation presents to the instances when it is in
    /// the state `s`: its resource and owner value, with the lease length and
    /// the candidate expiry of the state.
    pub open spec fn candidate(&self, s: State) -> Lock {
        Lock {
            resource: self.resource(),
            value: self.value(),
            ttl: s.ttl as u64,
            expiry: s.expiry as u64,
        }
    }

    /// Whether the event at the place `k` of `events` answers the action that
    /// was pending when the operation had heard the events before it, a call
    /// being made with the candidate lease of that moment.
    pub open spec fn heard_at(&self, events: Seq<Event>, k: int) -> bool {
        self.manager().answers(
            pending(run(self.state(), events.take(k))),
            &self.candidate(run(self.state(), events.take(k))),
            events[k],
        )
    }

    /// Whether `events` are what the operation heard, one after the other:
    /// each event answers the action that was pending when it came.
    pub open spec fn heard(&self, events: Seq<Event>) -> bool {
        forall|k: int| 0 <= k < events.len() ==> #[trigger] self.heard_at(events, k)
    }

    /// Whether `step` is what this operation hands back when it has come to
    /// the state `end`.
    pub open spec fn ends_in(&self, step: Step<'a, I>, end: State) -> bool {
        match step {
            Step::Sleep(delay, op) => {
                &&& end.phase == Phase::Sleeping
                &&& op.wf()
                &&& op.state() == end
                &&& op.manager() == self.manager()
                &&& op.resource() == self.resource()
                &&& op.value() == self.value()
                &&& self.manager()@.retry_delay - self.manager()@.retry_jitter <= delay
                &&& delay <= self.manager()@.retry_delay + self.manager()@.retry_jitter
            },
            Step::Granted(lock) => end.phase == Phase::Granted && lock == self.candidate(end),
            Step::Failed(e) => {
                &&& end.phase == Phase::Failed
                &&& is_outcome_of(end, Some(Err::<u64, RedsyncError>(e)))
            },
        }
    }

    /// Whether `step` is what this operation hands back after it has heard
    /// `events`. A lease that is handed back was judged on the last of them: a
    /// clock reading, which the expiry of the lease lies ahead of; and the
    /// expiry is no later than the lease length less the drift after the start
    /// of the attempt.
    pub open spec fn concludes(&self, step: Step<'a, I>, events: Seq<Event>) -> bool {
        &&& self.heard(events)
        &&& self.ends_in(step, run(self.state(), events))
        &&& step matches Step::Granted(lock) ==> {
            &&& events.len() > 0
            &&& events.last() is Clock
            &&& lock.expiry > events.last()->Clock_0
            &&& lock.expiry <= run(self.state(), events).started + lock.ttl - lock.ttl / 100 - 2
        }
    }

    /// Hearing one more event that answers the pending action.
    proof fn lemma_heard_push(&self, events: Seq<Event>, e: Event)
        requires
            self.heard(events),
            self.manager().answers(
                pending(run(self.state(), events)),
                &self.candidate(run(self.state(), events)),
                e,
            ),
        ensures
            self.heard(events.push(e)),
            run(self.state(), events.push(e)) == next(run(self.state(), events), e),
    {
        lemma_run_push(self.state(), events, e);
        let more = events.push(e);
        assert forall|k: int| 0 <= k < more.len() implies #[trigger] self.heard_at(more, k) by {
            if k < events.len() {
                assert(self.heard_at(events, k));
                assert(more.take(k) == events.take(k));
                assert(more[k] == events[k]);
            } else {
                assert(more.take(k) == events);
            }
        }
    }

    /// A fan-out reaches every instance. When an operation has heard
    /// `events`, and after `k` of them it began to ask the cluster, be it to
    /// acquire, to extend or to release, then the event `i` places later is the
    /// answer of the instance at index `i` to that call, made with the
    /// candidate lease of the attempt. So each instance is asked once per
    /// fan-out, in cluster order and with one and the same lease.
    pub proof fn lemma_fan_out_reaches_every_instance(&self, events: Seq<Event>, k: int, i: int)
        requires
            self.wf(),
            self.heard(events),
            0 <= k,
            0 <= i,
            k + i < events.len(),
            run(self.state(), events.take(k)).index == 0,
            run(self.state(), events.take(k)).phase == Phase::Voting || run(
                self.state(),
                events.take(k),
            ).phase == Phase::Releasing,
            i < self.manager().instances().len(),
        ensures
            run(self.state(), events.take(k + i)).phase == run(self.state(), events.take(k)).phase,
            run(self.state(), events.take(k + i)).index == i,
            self.candidate(run(self.state(), events.take(k + i))) == self.candidate(
                run(self.state(), events.take(k)),
            ),
            events[k + i] is Reply,
            self.manager().answers(
                match run(self.state(), events.take(k)).phase {
                    Phase::Voting => match self.state().call {
                        Call::Lock => Action::Acquire(i as usize),
                        Call::Extend => Action::Extend(i as usize),
                    },
                    _ => Action::Release(i as usize),
                },
                &self.candidate(run(self.state(), events.take(k))),
                events[k + i],
            ),
        decreases i,
    {
        let begin = self.state();
        lemma_run_preserves_wf(begin, events.take(k));
        lemma_run_preserves_wf(begin, events.take(k + i));
        if i > 0 {
            self.lemma_fan_out_reaches_every_instance(events, k, i - 1);
            let earlier = events.take(k + i - 1);
            assert(events.take(k + i) == earlier.push(events[k + i - 1]));
            lemma_run_push(begin, earlier, events[k + i - 1]);
        }
        assert(self.heard_at(events, k + i));
    }

    /// Clean-up reaches every instance. When an operation has heard `events`,
    /// and after `k` of them it judged an attempt on the clock reading that
    /// came next and the attempt did not hold, then each of the events that
    /// follow that reading is the answer of one instance to `release`, made
    /// with the lease of the failed attempt: the event `i` places later is
    /// that of the instance at index `i`. So every instance, and with them
    /// every one that had voted for the attempt, is told to release exactly
    /// once before the operation pauses or ends.
    pub proof fn lemma_failed_attempt_is_released_everywhere(
        &self,
        events: Seq<Event>,
        k: int,
        i: int,
    )
        requires
            self.wf(),
            self.heard(events),
            0 <= k,
            0 <= i < self.manager().instances().len(),
            k + 1 + i < events.len(),
            run(self.state(), events.take(k)).phase == Phase::Judging,
            events[k] is Clock,
            !holds(
                run(self.state(), events.take(k)).votes,
                run(self.state(), events.take(k)).quorum,
                run(self.state(), events.take(k)).expiry,
                events[k]->Clock_0 as nat,
            ),
        ensures
            events[k + 1 + i] is Reply,
            call_ensures(
                I::release,
                (
                    &self.manager().instances()[i],
                    &self.candidate(run(self.state(), events.take(k))),
                ),
                events[k + 1 + i]->Reply_0,
            ),
            pending(run(self.state(), events.take(k + 1 + i))) == Action::Release(i as usize),
    {
        let begin = self.state();
        let judging = events.take(k);
        lemma_run_preserves_wf(begin, judging);
        assert(events.take(k + 1) == judging.push(events[k]));
        lemma_run_push(begin, judging, events[k]);
        self.lemma_fan_out_reaches_every_instance(events, k + 1, i);
    }

    /// Carries the operation on until it holds the lease, has to pause, or
    /// has no attempt left. Each attempt reads the clock, asks every instance
    /// in cluster order, reads the clock again and judges; a failed attempt is
    /// released on every instance before the operation pauses or ends. An
    /// operation that was handed back with a pause takes the pause as over.
    ///
    /// Whatever the clock and the instances answer, the step is the one that
    /// the state machine comes to on their answers.
    pub fn advance(self) -> (step: Step<'a, I>)
        ensures
            exists|events: Seq<Event>| #[trigger] self.concludes(step, events),
            step matches Step::Granted(lock) ==> lock.resource == self.resource() && lock.value
                == self.value() && lock.ttl == self.state().ttl,
            step matches Step::Failed(e) ==> match self.state().call {
                Call::Lock => e is LockRetriesExceeded,
                Call::Extend => e is ExtendRetriesExceeded,
            },
    {
        proof {
            use_type_invariant(&self);
            use_type_invariant(self.manager);
        }
        let manager = self.manager;
        let ghost begin = self.machine@;
        let ghost mut events: Seq<Event> = Seq::empty();
        let mut machine = self.machine;
        let mut lock = Lock {
            resource: self.resource,
            value: self.value,
            ttl: machine.ttl(),
            expiry: machine.expiry(),
        };
        if machine.phase() == Phase::Sleeping {
            proof {
                self.lemma_heard_push(events, Event::Resumed);
                events = events.push(Event::Resumed);
            }
            machine = machine.handle(Event::Resumed);
        }
        loop
            invariant
                machine.wf(),
                machine@ == run(begin, events),
                machine@.nodes == manager.cluster@.len(),
                machine@.retry_count == manager.retry_count,
                machine@.call == begin.call,
                machine@.ttl == begin.ttl,
                machine@.phase != Phase::Sleeping || events.len() > 0,
                begin == self.state(),
                manager == self.manager,
                self.heard(events),
                lock == self.candidate(machine@),
                machine@.phase == Phase::Granted ==> {
                    &&& events.len() > 0
                    &&& events.last() is Clock
                    &&& machine@.expiry > events.last()->Clock_0
                    &&& machine@.expiry <= machine@.started + machine@.ttl - machine@.ttl / 100 - 2
                },
            decreases remaining(machine@),
        {
            match machine.action() {
                Action::ReadClock => {
                    let now: u64 = manager.now();
                    proof {
                        self.lemma_heard_push(events, Event::Clock(now));
                        events = events.push(Event::Clock(now));
                    }
                    machine = machine.handle(Event::Clock(now));
                    lock.expiry = machine.expiry();
                },
                Action::Acquire(i) => {
                    let reply = manager.cluster[i].acquire(&lock);
                    proof {
                        self.lemma_heard_push(events, Event::Reply(reply));
                        events = events.push(Event::Reply(reply));
                    }
                    machine = machine.handle(Event::Reply(reply));
                },
                Action::Extend(i) => {
                    let reply = manager.cluster[i].extend(&lock);
                    proof {
                        self.lemma_heard_push(events, Event::Reply(reply));
                        events = events.push(Event::Reply(reply));
                    }
                    machine = machine.handle(Event::Reply(reply));
                },
                Action::Release(i) => {
                    let reply = manager.cluster[i].release(&lock);
                    proof {
                        self.lemma_heard_push(events, Event::Reply(reply));
                        events = events.push(Event::Reply(reply));
                    }
                    machine = machine.handle(Event::Reply(reply));
                },
                Action::Sleep => {
                    let delay: u64 = manager.get_retry_delay();
                    let step = Step::Sleep(
                        delay,
                        Operation {
                            manager,
                            resource: lock.resource,
                            value: lock.value,
                            machine,
                        },
                    );
                    proof {
                        assert(self.concludes(step, events));
                    }
                    return step;
                },
                Action::Finish => {
                    let step = match machine.outcome() {
                        Some(Ok(_)) => Step::Granted(lock),
                        Some(Err(e)) => Step::Failed(e),
                        None => unreached(),
                    };
                    proof {
                        assert(self.concludes(step, events));
                    }
                    return step;
                },
            }
        }
    }

    /// The number of attempts that the operation has begun.
    pub fn attempts(&self) -> (n: u32)
        ensures
            n == self.state().attempts,
            n <= self.manager()@.retry_count,
    {
        proof {
            use_type_invariant(self);
        }
        self.machine.attempts()
    }
}

} // verus!
