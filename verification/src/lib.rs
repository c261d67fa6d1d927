//! A client-side distributed lock manager that implements the Redlock
//! algorithm over independent key/value servers.
//!
//! A [`Redsync`] owns a cluster of [`Instance`]s. A lease on a resource is
//! acquired when a majority of them stored it and the time that the cluster
//! took to answer has left some of the lease. An acquire or an extend is an
//! [`Operation`]: it is advanced until it holds the lease or has no attempt
//! left, and between two attempts it asks its caller to sleep.
//!
//! - [`lease`]: the lease descriptor, the quorum, the drift and the expiry.
//! - [`errors`]: the error kinds and the aggregate of one fan-out.
//! - [`instance`]: the contract of one server, and what an adapter over a
//!   scripted server sends and reads.
//! - [`machine`]: the state machine that decides what an operation does next.
//! - [`trace`]: what holds of every run of that machine.
//! - [`tally`]: the count of one fan-out.
//! - [`redsync`]: the manager, and the operations that it drives.
//! - [`builder`]: the tuning of a manager.
//! - [`random`], [`clock`], [`text`]: owner values and jitter, the monotonic
//!   clock, numbers as text.
//!
//! All times are in milliseconds.

pub mod builder;
pub mod clock;
pub mod errors;
pub mod instance;
pub mod lease;
pub mod machine;
pub mod random;
pub mod redsync;
pub mod tally;
pub mod text;
pub mod trace;

pub use crate::builder::{ConfigError, RedsyncBuilder};
pub use crate::errors::{MultiError, RedsyncError, Reply};
pub use crate::instance::Instance;
pub use crate::lease::Lock;
pub use crate::redsync::{Operation, Redlock, Redsync, Step};
