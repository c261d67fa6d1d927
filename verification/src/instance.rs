//! The contract that one backing server fulfils, and what an adapter over a
//! scripted key/value server sends and reads.

use crate::errors::{RedsyncError, Reply};
use crate::lease::Lock;
use vstd::prelude::*;

verus! {

/// An entity that can hold, prolong and give up a lease. Each operation is
/// atomic on the backing server, and answers with success or with the error of
/// that one instance.
pub trait Instance {
    /// Creates `resource -> value` if the resource is absent, to expire after `ttl`.
    fn acquire(&self, lock: &Lock) -> Result<(), RedsyncError>;

    /// Resets the expiry to `ttl` if the resource is held with `value`.
    fn extend(&self, lock: &Lock) -> Result<(), RedsyncError>;

    /// Deletes the resource if it is held with `value`.
    fn release(&self, lock: &Lock) -> Result<(), RedsyncError>;
}

/// The script that acquires: set if absent, with an expiry in milliseconds.
pub const LOCK_SCRIPT: &'static str =
    "return redis.call(\"set\", KEYS[1], ARGV[1], \"nx\", \"px\", ARGV[2])";

/// The script that releases: delete if the stored value is the owner's.
pub const UNLOCK_SCRIPT: &'static str =
    "if redis.call(\"get\", KEYS[1])==ARGV[1] then return redis.call(\"del\", KEYS[1]) else return 0 end";

/// The script that extends: reset the expiry if the stored value is the owner's.
pub const EXTEND_SCRIPT: &'static str =
    "if redis.call(\"get\", KEYS[1])==ARGV[1] then return redis.call(\"pexpire\", KEYS[1], ARGV[2]) else return 0 end";

/// One argument of a script.
#[derive(Debug, PartialEq)]
pub enum Arg {
    /// A string, sent as it is.
    Text(String),
    /// A number of milliseconds, sent in decimal.
    Millis(u64),
}

/// One evaluation of a script: its text, its keys and its arguments.
#[derive(Debug, PartialEq)]
pub struct Request {
    pub script: &'static str,
    pub keys: Vec<String>,
    pub args: Vec<Arg>,
}

/// The time allowed for reaching a server is one part in this many of the
/// lease: a connection timeout factor of 0.01.
pub const CONNECTION_TIMEOUT_DIVISOR: u64 = 100;

/// The time allowed for reaching a server on behalf of a lease of `ttl`
/// milliseconds: a hundredth of the lease, and one millisecond at least.
pub open spec fn timeout_of(ttl: nat) -> nat {
    if ttl / (CONNECTION_TIMEOUT_DIVISOR as nat) < 1 {
        1
    } else {
        ttl / (CONNECTION_TIMEOUT_DIVISOR as nat)
    }
}

/// The time, in milliseconds, allowed for reaching a server on behalf of a
/// lease of `ttl` milliseconds.
pub fn connection_timeout(ttl: u64) -> (timeout: u64)
    ensures
        timeout == timeout_of(ttl as nat),
        timeout >= 1,
{
    let share: u64 = ttl / CONNECTION_TIMEOUT_DIVISOR;
    if share < 1 {
        1
    } else {
        share
    }
}

/// What an adapter sends to acquire `lock`.
pub fn acquire_request(lock: &Lock) -> (request: Request)
    ensures
        request.script@ == LOCK_SCRIPT@,
        request.keys@ == seq![lock.resource],
        request.args@ == seq![Arg::Text(lock.value), Arg::Millis(lock.ttl)],
{
    let mut keys: Vec<String> = Vec::new();
    keys.push(lock.resource.clone());
    let mut args: Vec<Arg> = Vec::new();
    args.push(Arg::Text(lock.value.clone()));
    args.push(Arg::Millis(lock.ttl));
    proof {
        assert(keys@ =~= seq![lock.resource]);
        assert(args@ =~= seq![Arg::Text(lock.value), Arg::Millis(lock.ttl)]);
    }
    Request { script: LOCK_SCRIPT, keys, args }
}

/// What an adapter sends to extend `lock`.
pub fn extend_request(lock: &Lock) -> (request: Request)
    ensures
        request.script@ == EXTEND_SCRIPT@,
        request.keys@ == seq![lock.resource],
        request.args@ == seq![Arg::Text(lock.value), Arg::Millis(lock.ttl)],
{
    let mut keys: Vec<String> = Vec::new();
    keys.push(lock.resource.clone());
    let mut args: Vec<Arg> = Vec::new();
    args.push(Arg::Text(lock.value.clone()));
    args.push(Arg::Millis(lock.ttl));
    proof {
        assert(keys@ =~= seq![lock.resource]);
        assert(args@ =~= seq![Arg::Text(lock.value), Arg::Millis(lock.ttl)]);
    }
    Request { script: EXTEND_SCRIPT, keys, args }
}

/// What an adapter sends to release `lock`.
pub fn release_request(lock: &Lock) -> (request: Request)
    ensures
        request.script@ == UNLOCK_SCRIPT@,
        request.keys@ == seq![lock.resource],
        request.args@ == seq![Arg::Text(lock.value)],
{
    let mut keys: Vec<String> = Vec::new();
    keys.push(lock.resource.clone());
    let mut args: Vec<Arg> = Vec::new();
    args.push(Arg::Text(lock.value.clone()));
    proof {
        assert(keys@ =~= seq![lock.resource]);
        assert(args@ =~= seq![Arg::Text(lock.value)]);
    }
    Request { script: UNLOCK_SCRIPT, keys, args }
}

/// What the answer to the acquiring script means.
pub open spec fn acquired(answer: Result<Reply, String>) -> Result<(), RedsyncError> {
    match answer {
        Ok(Reply::Okay) => Ok(()),
        Ok(Reply::Nil) => Err(RedsyncError::ResourceLocked),
        Ok(reply) => Err(RedsyncError::UnexpectedResponse(reply)),
        Err(cause) => Err(RedsyncError::TransportError(cause)),
    }
}

/// What the answer to the extending or to the releasing script means.
pub open spec fn updated(answer: Result<Reply, String>) -> Result<(), RedsyncError> {
    match answer {
        Ok(Reply::Int(1)) => Ok(()),
        Ok(Reply::Int(0)) => Err(RedsyncError::InvalidLease),
        Ok(reply) => Err(RedsyncError::UnexpectedResponse(reply)),
        Err(cause) => Err(RedsyncError::TransportError(cause)),
    }
}

/// Reads the answer to the acquiring script: `OK` is success, nil means that
/// the resource is held, any other reply is unexpected, and a failure of the
/// exchange is a transport error.
pub fn acquire_outcome(answer: Result<Reply, String>) -> (outcome: Result<(), RedsyncError>)
    ensures
        outcome == acquired(answer),
{
    match answer {
        Ok(Reply::Okay) => Ok(()),
        Ok(Reply::Nil) => Err(RedsyncError::ResourceLocked),
        Ok(reply) => Err(RedsyncError::UnexpectedResponse(reply)),
        Err(cause) => Err(RedsyncError::TransportError(cause)),
    }
}

/// Reads the answer to the extending script: 1 is success, 0 means that the
/// lease is not held with this value, any other reply is unexpected, and a
/// failure of the exchange is a transport error.
pub fn extend_outcome(answer: Result<Reply, String>) -> (outcome: Result<(), RedsyncError>)
    ensures
        outcome == updated(answer),
{
    match answer {
        Ok(Reply::Int(1)) => Ok(()),
        Ok(Reply::Int(0)) => Err(RedsyncError::InvalidLease),
        Ok(reply) => Err(RedsyncError::UnexpectedResponse(reply)),
        Err(cause) => Err(RedsyncError::TransportError(cause)),
    }
}

/// Reads the answer to the releasing script: 1 is success, 0 means that the
/// lease is not held with this value, any other reply is unexpected, and a
/// failure of the exchange is a transport error.
pub fn release_outcome(answer: Result<Reply, String>) -> (outcome: Result<(), RedsyncError>)
    ensures
        outcome == updated(answer),
{
    match answer {
        Ok(Reply::Int(1)) => Ok(()),
        Ok(Reply::Int(0)) => Err(RedsyncError::InvalidLease),
        Ok(reply) => Err(RedsyncError::UnexpectedResponse(reply)),
        Err(cause) => Err(RedsyncError::TransportError(cause)),
    }
}

/// The classification never turns an answer into an error of a whole
/// operation, and it succeeds on exactly one reply: `OK` when acquiring, 1
/// when extending or releasing.
pub proof fn lemma_outcome_is_of_one_instance(answer: Result<Reply, String>)
    ensures
        acquired(answer) is Ok <==> answer == Ok::<Reply, String>(Reply::Okay),
        updated(answer) is Ok <==> answer == Ok::<Reply, String>(Reply::Int(1)),
        acquired(answer) is Err ==> acquired(answer)->Err_0.is_single(),
        updated(answer) is Err ==> updated(answer)->Err_0.is_single(),
{
}

} // verus!
