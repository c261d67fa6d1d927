//! The error model: one tagged error type, and the ordered aggregate that a
//! fan-out over the cluster collects.

use crate::text::{decimal, push_decimal, push_signed_decimal, signed_decimal};
use vstd::prelude::*;
use vstd::string::StringExecFns;

verus! {

/// What a server answered to one script, as far as the engine reads it.
#[derive(Debug, PartialEq)]
pub enum Reply {
    /// The status `OK`.
    Okay,
    /// The nil reply.
    Nil,
    /// An integer reply.
    Int(i64),
    /// Any other reply, kept as the text that describes it.
    Other(String),
}

/// Every error kind that the crate returns.
#[derive(Debug, PartialEq)]
pub enum RedsyncError {
    /// The server could not be reached or the exchange broke; the cause is kept as text.
    TransportError(String),
    /// The server answered with a reply that the script cannot give.
    UnexpectedResponse(Reply),
    /// The resource is held by another lease.
    ResourceLocked,
    /// The lease is not held with the presented value, or has expired.
    InvalidLease,
    /// Every attempt to acquire failed; the aggregate describes the last one.
    LockRetriesExceeded(MultiError),
    /// Every attempt to extend failed; the aggregate describes the last one.
    ExtendRetriesExceeded(MultiError),
    /// Fewer than a quorum of instances released the lease.
    UnlockFailed(MultiError),
}

/// The errors of one fan-out, in cluster order.
#[derive(Debug, PartialEq)]
pub struct MultiError(Vec<RedsyncError>);

/// The tag of an error, without its payload.
pub enum ErrorKind {
    TransportError,
    UnexpectedResponse,
    ResourceLocked,
    InvalidLease,
    LockRetriesExceeded,
    ExtendRetriesExceeded,
    UnlockFailed,
}

impl RedsyncError {
    /// The tag of this error.
    pub open spec fn kind(self) -> ErrorKind {
        match self {
            RedsyncError::TransportError(_) => ErrorKind::TransportError,
            RedsyncError::UnexpectedResponse(_) => ErrorKind::UnexpectedResponse,
            RedsyncError::ResourceLocked => ErrorKind::ResourceLocked,
            RedsyncError::InvalidLease => ErrorKind::InvalidLease,
            RedsyncError::LockRetriesExceeded(_) => ErrorKind::LockRetriesExceeded,
            RedsyncError::ExtendRetriesExceeded(_) => ErrorKind::ExtendRetriesExceeded,
            RedsyncError::UnlockFailed(_) => ErrorKind::UnlockFailed,
        }
    }

    /// Whether the error comes from a single instance rather than from a whole operation.
    pub open spec fn is_single(self) -> bool {
        match self {
            RedsyncError::TransportError(_) => true,
            RedsyncError::UnexpectedResponse(_) => true,
            RedsyncError::ResourceLocked => true,
            RedsyncError::InvalidLease => true,
            _ => false,
        }
    }

    /// Whether two errors carry the same tag, whatever their payloads.
    pub fn same_kind(&self, other: &RedsyncError) -> (r: bool)
        ensures
            r == (self.kind() == other.kind()),
    {
        match (self, other) {
            (RedsyncError::TransportError(_), RedsyncError::TransportError(_)) => true,
            (RedsyncError::UnexpectedResponse(_), RedsyncError::UnexpectedResponse(_)) => true,
            (RedsyncError::ResourceLocked, RedsyncError::ResourceLocked) => true,
            (RedsyncError::InvalidLease, RedsyncError::InvalidLease) => true,
            (RedsyncError::LockRetriesExceeded(_), RedsyncError::LockRetriesExceeded(_)) => true,
            (
                RedsyncError::ExtendRetriesExceeded(_),
                RedsyncError::ExtendRetriesExceeded(_),
            ) => true,
            (RedsyncError::UnlockFailed(_), RedsyncError::UnlockFailed(_)) => true,
            _ => false,
        }
    }
}

impl View for MultiError {
    type V = Seq<RedsyncError>;

    closed spec fn view(&self) -> Seq<RedsyncError> {
        self.0@
    }
}

/// How many entries of `errors` carry the tag `kind`.
pub open spec fn count_kind(errors: Seq<RedsyncError>, kind: ErrorKind) -> nat
    decreases errors.len(),
{
    if errors.len() == 0 {
        0
    } else {
        let rest = count_kind(errors.drop_last(), kind);
        if errors.last().kind() == kind {
            rest + 1
        } else {
            rest
        }
    }
}

impl MultiError {
    /// An empty aggregate.
    pub fn new() -> (r: MultiError)
        ensures
            r@ == Seq::<RedsyncError>::empty(),
    {
        MultiError(Vec::new())
    }

    /// Whether some entry carries the tag of `e`; payloads are not compared.
    pub fn includes(&self, e: RedsyncError) -> (r: bool)
        ensures
            r == (exists|i: int| 0 <= i < self@.len() && (#[trigger] self@[i]).kind() == e.kind()),
    {
        let mut i: usize = 0;
        while i < self.0.len()
            invariant
                i <= self@.len(),
                forall|j: int| 0 <= j < i ==> (#[trigger] self@[j]).kind() != e.kind(),
            decreases self@.len() - i,
        {
            if self.0[i].same_kind(&e) {
                return true;
            }
            i = i + 1;
        }
        false
    }

    /// Empties the aggregate.
    pub fn reset(&mut self)
        ensures
            final(self)@ == Seq::<RedsyncError>::empty(),
    {
        self.0.clear();
    }

    /// Appends one error after those already held.
    pub fn push(&mut self, e: RedsyncError)
        ensures
            final(self)@ == old(self)@.push(e),
    {
        self.0.push(e);
    }

    /// The number of entries.
    pub fn len(&self) -> (r: usize)
        ensures
            r == self@.len(),
    {
        self.0.len()
    }

    /// Whether the aggregate holds no entry.
    pub fn is_empty(&self) -> (r: bool)
        ensures
            r == (self@.len() == 0),
    {
        self.0.len() == 0
    }

    /// The entry at `index`, if there is one.
    pub fn get(&self, index: usize) -> (r: Option<&RedsyncError>)
        ensures
            index < self@.len() ==> r == Some(&self@[index as int]),
            index >= self@.len() ==> r is None,
    {
        if index < self.0.len() {
            Some(&self.0[index])
        } else {
            None
        }
    }

    /// How many entries carry the tag of `e`.
    pub fn count(&self, e: &RedsyncError) -> (r: usize)
        ensures
            r == count_kind(self@, e.kind()),
    {
        let mut n: usize = 0;
        let mut i: usize = 0;
        while i < self.0.len()
            invariant
                i <= self@.len(),
                n <= i,
                n == count_kind(self@.take(i as int), e.kind()),
            decreases self@.len() - i,
        {
            proof {
                assert(self@.take(i + 1).drop_last() == self@.take(i as int));
            }
            if self.0[i].same_kind(e) {
                n = n + 1;
            }
            i = i + 1;
        }
        proof {
            assert(self@.take(i as int) == self@);
        }
        n
    }
}

impl Reply {
    /// The text that describes the reply.
    pub open spec fn text(self) -> Seq<char> {
        match self {
            Reply::Okay => "ok"@,
            Reply::Nil => "nil"@,
            Reply::Int(n) => "int("@ + signed_decimal(n as int) + ")"@,
            Reply::Other(text) => text@,
        }
    }

    fn write_to(&self, out: &mut String)
        ensures
            final(out)@ == old(out)@ + self.text(),
    {
        match self {
            Reply::Okay => out.append("ok"),
            Reply::Nil => out.append("nil"),
            Reply::Int(n) => {
                out.append("int(");
                push_signed_decimal(out, *n);
                out.append(")");
                proof {
                    assert(final(out)@ =~= old(out)@ + self.text());
                }
            },
            Reply::Other(text) => out.append(text.as_str()),
        }
    }

    /// The text that describes the reply.
    pub fn to_string(&self) -> (r: String)
        ensures
            r@ == self.text(),
    {
        let mut out = String::new();
        self.write_to(&mut out);
        proof {
            assert(out@ =~= self.text());
        }
        out
    }
}

/// The message of an error.
pub open spec fn message(e: RedsyncError) -> Seq<char>
    decreases e,
{
    match e {
        RedsyncError::TransportError(cause) => cause@,
        RedsyncError::UnexpectedResponse(reply) => "unexpected response from Redis: "@
            + reply.text(),
        RedsyncError::ResourceLocked => "requested resource is current locked"@,
        RedsyncError::InvalidLease => "invalid or expired lease on lock"@,
        RedsyncError::LockRetriesExceeded(m) => "lock attempt failed: max retries exceeded: "@
            + listing(m@),
        RedsyncError::ExtendRetriesExceeded(m) => "extend attempt failed: max retries exceeded: "@
            + listing(m@),
        RedsyncError::UnlockFailed(m) => "unlock attempt failed: "@ + listing(m@),
    }
}

/// The message of an aggregate: the number of its entries, and then the
/// message of each entry on a line of its own.
pub open spec fn listing(errors: Seq<RedsyncError>) -> Seq<char>
    decreases errors, 1int,
{
    decimal(errors.len()) + " errors occurred:"@ + lines(errors)
}

/// The messages of `errors`, each on a line of its own.
pub open spec fn lines(errors: Seq<RedsyncError>) -> Seq<char>
    decreases errors, 0int,
{
    if errors.len() == 0 {
        Seq::empty()
    } else {
        lines(errors.drop_last()) + "\n\t * "@ + message(errors.last())
    }
}

impl RedsyncError {
    fn write_to(&self, out: &mut String)
        ensures
            final(out)@ == old(out)@ + message(*self),
        decreases self,
    {
        match self {
            RedsyncError::TransportError(cause) => out.append(cause.as_str()),
            RedsyncError::UnexpectedResponse(reply) => {
                out.append("unexpected response from Redis: ");
                reply.write_to(out);
            },
            RedsyncError::ResourceLocked => out.append("requested resource is current locked"),
            RedsyncError::InvalidLease => out.append("invalid or expired lease on lock"),
            RedsyncError::LockRetriesExceeded(m) => {
                out.append("lock attempt failed: max retries exceeded: ");
                m.write_to(out);
            },
            RedsyncError::ExtendRetriesExceeded(m) => {
                out.append("extend attempt failed: max retries exceeded: ");
                m.write_to(out);
            },
            RedsyncError::UnlockFailed(m) => {
                out.append("unlock attempt failed: ");
                m.write_to(out);
            },
        }
        proof {
            assert(final(out)@ =~= old(out)@ + message(*self));
        }
    }

    /// The message of the error.
    pub fn to_string(&self) -> (r: String)
        ensures
            r@ == message(*self),
    {
        let mut out = String::new();
        self.write_to(&mut out);
        proof {
            assert(out@ =~= message(*self));
        }
        out
    }
}

impl MultiError {
    fn write_to(&self, out: &mut String)
        ensures
            final(out)@ == old(out)@ + listing(self@),
        decreases self,
    {
        push_decimal(out, self.0.len() as u64);
        out.append(" errors occurred:");
        let ghost head = out@;
        let mut i: usize = 0;
        while i < self.0.len()
            invariant
                i <= self@.len(),
                out@ == head + lines(self@.take(i as int)),
            decreases self@.len() - i,
        {
            proof {
                assert(self@.take(i + 1).drop_last() == self@.take(i as int));
                assert(self@.take(i + 1).last() == self@[i as int]);
            }
            let ghost before = out@;
            out.append("\n\t * ");
            self.0[i].write_to(out);
            proof {
                assert(out@ =~= head + lines(self@.take(i + 1)));
            }
            i = i + 1;
        }
        proof {
            assert(self@.take(i as int) == self@);
            assert(final(out)@ =~= old(out)@ + listing(self@));
        }
    }

    /// The message of the aggregate: how many errors it holds, and the
    /// message of each of them.
    pub fn to_string(&self) -> (r: String)
        ensures
            r@ == listing(self@),
    {
        let mut out = String::new();
        self.write_to(&mut out);
        proof {
            assert(out@ =~= listing(self@));
        }
        out
    }
}

} // verus!
