//! Randomness: the owner value of a lease, and the jitter of a retry delay.

use rand::Rng;
use vstd::prelude::*;

verus! {

/// The length of the owner value of a lease.
pub const LOCK_ID_LEN: usize = 20;

/// Whether `b` is the ASCII code of a digit or of a letter.
pub open spec fn is_alphanumeric_byte(b: u8) -> bool {
    ||| 0x30 <= b <= 0x39
    ||| 0x41 <= b <= 0x5a
    ||| 0x61 <= b <= 0x7a
}

/// Whether `c` is one of `A`-`Z`, `a`-`z`, `0`-`9`.
pub open spec fn is_alphanumeric(c: char) -> bool {
    (c as u32) < 0x80 && is_alphanumeric_byte(c as u8)
}

/// Whether `s` has the shape of an owner value: twenty characters, each of
/// them a digit or a letter.
pub open spec fn is_lock_id(s: Seq<char>) -> bool {
    &&& s.len() == LOCK_ID_LEN
    &&& forall|i: int| 0 <= i < s.len() ==> is_alphanumeric(#[trigger] s[i])
}

/// The delay `delay + offset`, kept within what a delay in milliseconds can hold.
pub open spec fn jittered(delay: nat, offset: int) -> nat {
    if delay + offset < 0 {
        0
    } else if delay + offset > u64::MAX {
        u64::MAX as nat
    } else {
        (delay + offset) as nat
    }
}

/// `rand::Rng::sample` on the thread's generator with the distribution
/// `rand::distributions::Alphanumeric`. The distribution picks one byte out
/// of a table that holds the ASCII letters of both cases and the digits, so
/// the result is one of those.
#[verifier::external_body]
fn sample_alphanumeric() -> (b: u8)
    ensures
        is_alphanumeric_byte(b),
{
    rand::thread_rng().sample(rand::distributions::Alphanumeric)
}

/// `rand::Rng::gen_range` on the thread's generator with the inclusive range
/// from `low` to `high`. The call panics on an empty range, which the
/// precondition leaves out; its result lies in the range.
#[verifier::external_body]
fn sample_between(low: i128, high: i128) -> (r: i128)
    requires
        low <= high,
    ensures
        low <= r <= high,
{
    rand::thread_rng().gen_range(low..=high)
}

/// A fresh owner value: twenty characters drawn from the letters and digits.
pub fn random_lock_id() -> (id: String)
    ensures
        is_lock_id(id@),
{
    let mut id = String::new();
    let mut n: usize = 0;
    while n < LOCK_ID_LEN
        invariant
            n <= LOCK_ID_LEN,
            id@.len() == n,
            forall|i: int| 0 <= i < id@.len() ==> is_alphanumeric(#[trigger] id@[i]),
        decreases LOCK_ID_LEN - n,
    {
        let b: u8 = sample_alphanumeric();
        id.push(b as char);
        n = n + 1;
    }
    id
}

/// The retry delay `retry_delay` moved by `offset` milliseconds, never below zero.
pub fn delay_with_jitter(retry_delay: u64, offset: i128) -> (d: u64)
    ensures
        d == jittered(retry_delay as nat, offset as int),
{
    if offset >= 0 {
        if offset > (u64::MAX - retry_delay) as i128 {
            u64::MAX
        } else {
            retry_delay + offset as u64
        }
    } else if offset <= -(retry_delay as i128) {
        0
    } else {
        retry_delay - (-offset) as u64
    }
}

/// The largest whole number of milliseconds that lies strictly inside a
/// jitter of `jitter` milliseconds.
pub open spec fn spread(jitter: nat) -> nat {
    if jitter == 0 {
        0
    } else {
        (jitter - 1) as nat
    }
}

/// A retry delay drawn around `retry_delay`: a whole offset is drawn from
/// strictly inside the jitter, as likely below zero as above, and added.
pub fn random_retry_delay(retry_delay: u64, retry_jitter: u64) -> (d: u64)
    ensures
        exists|offset: int|
            -spread(retry_jitter as nat) <= offset <= spread(retry_jitter as nat) && d == jittered(
                retry_delay as nat,
                offset,
            ),
        retry_delay - retry_jitter <= d,
        d <= retry_delay + retry_jitter,
        retry_jitter > 0 && retry_delay + retry_jitter <= u64::MAX ==> d < retry_delay
            + retry_jitter,
        retry_jitter > 0 && retry_delay >= retry_jitter ==> retry_delay - retry_jitter < d,
{
    let bound: i128 = if retry_jitter == 0 {
        0
    } else {
        (retry_jitter - 1) as i128
    };
    let offset: i128 = sample_between(-bound, bound);
    delay_with_jitter(retry_delay, offset)
}

/// The jitter bound. A delay moved by an offset of at most `jitter` either
/// way lies between `delay - jitter`, or zero if that is negative, and
/// `delay + jitter`.
pub proof fn lemma_jitter_bound(delay: nat, jitter: nat, offset: int)
    requires
        delay <= u64::MAX,
        -jitter <= offset <= jitter,
    ensures
        jittered(delay, offset) >= 0,
        jittered(delay, offset) >= delay - jitter,
        jittered(delay, offset) <= delay + jitter,
        delay + offset >= 0 && delay + offset <= u64::MAX ==> jittered(delay, offset) == delay
            + offset,
{
}

/// Offsets that mirror each other move the delay by as much either way, as
/// long as neither end is cut off: the draw is symmetric about the delay.
pub proof fn lemma_jitter_is_symmetric(delay: nat, offset: int)
    requires
        delay - offset >= 0,
        delay + offset >= 0,
        delay - offset <= u64::MAX,
        delay + offset <= u64::MAX,
    ensures
        jittered(delay, offset) - delay == delay - jittered(delay, -offset),
{
}

} // verus!
