//! The builder: it takes the tuning of a manager, validates it and builds the manager.

use crate::instance::Instance;
use crate::lease::quorum_of;
use crate::redsync::{valid, Config, Redsync};
use vstd::prelude::*;

verus! {

/// The number of attempts of one operation, unless the builder is told otherwise.
pub const DEFAULT_RETRY_COUNT: u32 = 3;

/// The retry delay in milliseconds, unless the builder is told otherwise.
pub const DEFAULT_RETRY_DELAY: u64 = 200;

/// Why a manager cannot be built.
#[derive(Clone, Copy, PartialEq, Eq, Structural, Debug)]
pub enum ConfigError {
    /// The cluster holds no instance.
    EmptyCluster,
    /// The operations would make no attempt.
    NoAttempts,
}

/// Collects the tuning of a manager.
pub struct RedsyncBuilder<I: Instance> {
    cluster: Vec<I>,
    retry_count: u32,
    retry_delay: u64,
    retry_jitter: Option<u64>,
}

/// What a builder holds.
pub struct Tuning<I> {
    pub cluster: Seq<I>,
    pub retry_count: u32,
    pub retry_delay: u64,
    /// The jitter, where it was set; else it is half of the retry delay.
    pub retry_jitter: Option<u64>,
}

/// The jitter that a builder builds with: the one that was set, or half of
/// the retry delay.
pub open spec fn jitter_of(retry_delay: u64, retry_jitter: Option<u64>) -> nat {
    match retry_jitter {
        Some(jitter) => jitter as nat,
        None => (retry_delay / 2) as nat,
    }
}

impl<I: Instance> View for RedsyncBuilder<I> {
    type V = Tuning<I>;

    closed spec fn view(&self) -> Tuning<I> {
        Tuning {
            cluster: self.cluster@,
            retry_count: self.retry_count,
            retry_delay: self.retry_delay,
            retry_jitter: self.retry_jitter,
        }
    }
}

impl<I: Instance> RedsyncBuilder<I> {
    /// A builder over `cluster`, with three attempts, a retry delay of 200
    /// milliseconds and a jitter of half the retry delay.
    pub fn new(cluster: Vec<I>) -> (b: RedsyncBuilder<I>)
        ensures
            b@ == (Tuning {
                cluster: cluster@,
                retry_count: DEFAULT_RETRY_COUNT,
                retry_delay: DEFAULT_RETRY_DELAY,
                retry_jitter: None,
            }),
    {
        RedsyncBuilder {
            cluster,
            retry_count: DEFAULT_RETRY_COUNT,
            retry_delay: DEFAULT_RETRY_DELAY,
            retry_jitter: None,
        }
    }

    /// Sets the number of attempts that one operation makes.
    pub fn retry_count(self, retry_count: u32) -> (b: RedsyncBuilder<I>)
        ensures
            b@ == (Tuning { retry_count, ..self@ }),
    {
        RedsyncBuilder { retry_count, ..self }
    }

    /// Sets the pause between two attempts, in milliseconds.
    pub fn retry_delay(self, retry_delay: u64) -> (b: RedsyncBuilder<I>)
        ensures
            b@ == (Tuning { retry_delay, ..self@ }),
    {
        RedsyncBuilder { retry_delay, ..self }
    }

    /// Sets the most by which a pause differs from the retry delay, in milliseconds.
    pub fn retry_jitter(self, retry_jitter: u64) -> (b: RedsyncBuilder<I>)
        ensures
            b@ == (Tuning { retry_jitter: Some(retry_jitter), ..self@ }),
    {
        RedsyncBuilder { retry_jitter: Some(retry_jitter), ..self }
    }

    /// Builds the manager. An empty cluster is rejected, and so is a retry
    /// count of zero; the quorum is the majority of the cluster.
    pub fn build(self) -> (r: Result<Redsync<I>, ConfigError>)
        ensures
            self@.cluster.len() == 0 <==> r == Err::<Redsync<I>, ConfigError>(
                ConfigError::EmptyCluster,
            ),
            self@.cluster.len() > 0 && self@.retry_count == 0 <==> r == Err::<
                Redsync<I>,
                ConfigError,
            >(ConfigError::NoAttempts),
            self@.cluster.len() > 0 && self@.retry_count > 0 <==> r is Ok,
            r is Ok ==> {
                &&& r->Ok_0.instances() == self@.cluster
                &&& valid(r->Ok_0@)
                &&& r->Ok_0@ == (Config {
                    nodes: self@.cluster.len(),
                    quorum: quorum_of(self@.cluster.len()),
                    retry_count: self@.retry_count as nat,
                    retry_delay: self@.retry_delay as nat,
                    retry_jitter: jitter_of(self@.retry_delay, self@.retry_jitter),
                })
            },
    {
        if self.cluster.len() == 0 {
            return Err(ConfigError::EmptyCluster);
        }
        if self.retry_count == 0 {
            return Err(ConfigError::NoAttempts);
        }
        let retry_jitter: u64 = match self.retry_jitter {
            Some(jitter) => jitter,
            None => self.retry_delay / 2,
        };
        Ok(Redsync::assemble(self.cluster, self.retry_count, self.retry_delay, retry_jitter))
    }
}

} // verus!
