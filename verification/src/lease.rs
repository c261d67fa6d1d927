//! The lease descriptor, and the arithmetic of quorum, drift and validity.

use vstd::prelude::*;

verus! {

/// The descriptor of a lease: which resource, under which owner value, for
/// how long, and until when the holder may rely on it.
///
/// `ttl` is in milliseconds. `expiry` is a reading of the local monotonic
/// clock, in milliseconds.
#[derive(Debug)]
pub struct Lock {
    pub resource: String,
    pub value: String,
    pub ttl: u64,
    pub expiry: u64,
}

/// The mathematical content of a [`Lock`].
pub struct LockView {
    pub resource: Seq<char>,
    pub value: Seq<char>,
    pub ttl: nat,
    pub expiry: nat,
}

impl View for Lock {
    type V = LockView;

    open spec fn view(&self) -> LockView {
        LockView {
            resource: self.resource@,
            value: self.value@,
            ttl: self.ttl as nat,
            expiry: self.expiry as nat,
        }
    }
}

/// The share of a lease that is held back for clock skew is one part in this
/// many: a drift factor of 0.01.
pub const DRIFT_DIVISOR: u64 = 100;

/// The milliseconds that are held back on top of that share, for rounding
/// and for the scheduler.
pub const DRIFT_MARGIN: u64 = 2;

/// The largest reading that the clock can give.
pub open spec fn clock_max() -> nat {
    u64::MAX as nat
}

/// The smallest number of instances that is more than half of `nodes`.
pub open spec fn quorum_of(nodes: nat) -> nat {
    nodes / 2 + 1
}

/// The part of a lease of `ttl` milliseconds that is held back for clock
/// skew: a hundredth of it, rounded down, and two milliseconds more.
pub open spec fn drift(ttl: nat) -> nat {
    ttl / (DRIFT_DIVISOR as nat) + (DRIFT_MARGIN as nat)
}

/// The instant until which a lease of `ttl` milliseconds, asked for at
/// `start`, can be relied on.
pub open spec fn lease_expiry(start: nat, ttl: nat) -> int {
    start + ttl - drift(ttl)
}

/// The clock reading nearest to the instant `t`.
pub open spec fn clock_reading(t: int) -> nat {
    if t < 0 {
        0
    } else if t > clock_max() {
        clock_max()
    } else {
        t as nat
    }
}

/// The expiry that a candidate lease carries: [`lease_expiry`], as a clock reading.
pub open spec fn candidate_expiry(start: nat, ttl: nat) -> nat {
    clock_reading(lease_expiry(start, ttl))
}

/// The quorum of a cluster of `nodes` instances.
pub fn quorum(nodes: usize) -> (q: usize)
    ensures
        q == quorum_of(nodes as nat),
        2 * q > nodes,
{
    nodes / 2 + 1
}

/// The drift reserved out of a lease of `ttl` milliseconds.
pub fn drift_of(ttl: u64) -> (d: u64)
    ensures
        d == drift(ttl as nat),
        d == ttl / 100 + 2,
{
    ttl / DRIFT_DIVISOR + DRIFT_MARGIN
}

/// The expiry of a candidate lease of `ttl` milliseconds whose attempt began at `start`.
pub fn expiry_of(start: u64, ttl: u64) -> (e: u64)
    ensures
        e == candidate_expiry(start as nat, ttl as nat),
        0 <= lease_expiry(start as nat, ttl as nat) <= clock_max() ==> e == lease_expiry(
            start as nat,
            ttl as nat,
        ),
{
    let end: u128 = start as u128 + ttl as u128;
    let reserve: u128 = drift_of(ttl) as u128;
    if end <= reserve {
        0
    } else if end - reserve > u64::MAX as u128 {
        u64::MAX
    } else {
        (end - reserve) as u64
    }
}

/// Whether an attempt that gathered `votes` and carries `expiry` holds at the reading `now`.
pub open spec fn holds(votes: nat, quorum: nat, expiry: nat, now: nat) -> bool {
    votes >= quorum && expiry > now
}

/// A quorum is a strict majority: more than half of the cluster, and the
/// least such number. So two quorums of one cluster always share an instance.
pub proof fn lemma_quorum_is_majority(nodes: nat)
    ensures
        quorum_of(nodes) == nodes / 2 + 1,
        2 * quorum_of(nodes) > nodes,
        2 * (quorum_of(nodes) - 1) <= nodes,
        nodes >= 1 ==> quorum_of(nodes) <= nodes,
{
}

/// Clamping to the clock never moves an expiry that lies ahead of a reading:
/// the candidate's expiry is ahead of `now` exactly when the lease's expiry is,
/// save at the last reading of the clock.
pub proof fn lemma_candidate_expiry_decides(start: nat, ttl: nat, now: nat)
    requires
        start <= clock_max(),
        ttl <= clock_max(),
        now < clock_max(),
    ensures
        candidate_expiry(start, ttl) > now <==> lease_expiry(start, ttl) > now,
        candidate_expiry(start, ttl) > now ==> candidate_expiry(start, ttl) <= lease_expiry(
            start,
            ttl,
        ),
{
}

} // verus!
