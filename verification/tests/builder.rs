use redsync::builder::{DEFAULT_RETRY_COUNT, DEFAULT_RETRY_DELAY};
use redsync::lease::{drift_of, quorum, DRIFT_DIVISOR, DRIFT_MARGIN};
use redsync::{ConfigError, Instance, Lock, Redsync, RedsyncBuilder, RedsyncError};
use std::time::Duration;

struct IdleInstance;

impl Instance for IdleInstance {
    fn acquire(&self, _lock: &Lock) -> Result<(), RedsyncError> {
        Ok(())
    }

    fn extend(&self, _lock: &Lock) -> Result<(), RedsyncError> {
        Ok(())
    }

    fn release(&self, _lock: &Lock) -> Result<(), RedsyncError> {
        Ok(())
    }
}

fn cluster(nodes: usize) -> Vec<IdleInstance> {
    (0..nodes).map(|_| IdleInstance).collect()
}

fn millis(duration: Duration) -> u64 {
    duration.as_millis() as u64
}

#[test]
fn default() -> Result<(), ConfigError> {
    let redsync = RedsyncBuilder::new(cluster(1)).build()?;

    assert_eq!(redsync.nodes(), 1);
    assert_eq!(redsync.quorum(), 1);
    assert_eq!(redsync.retry_count(), 3);
    assert_eq!(redsync.retry_delay(), millis(Duration::from_millis(200)));
    assert_eq!(redsync.retry_jitter() as f64, 100.0);
    assert_eq!(1.0 / DRIFT_DIVISOR as f64, 0.01);

    Ok(())
}

#[test]
fn retry_count() -> Result<(), ConfigError> {
    let redsync = RedsyncBuilder::new(cluster(1)).retry_count(5).build()?;

    assert_eq!(redsync.nodes(), 1);
    assert_eq!(redsync.quorum(), 1);
    assert_eq!(redsync.retry_count(), 5);
    assert_eq!(redsync.retry_delay(), millis(Duration::from_millis(200)));
    assert_eq!(redsync.retry_jitter() as f64, 100.0);
    assert_eq!(1.0 / DRIFT_DIVISOR as f64, 0.01);

    Ok(())
}

#[test]
fn retry_delay() -> Result<(), ConfigError> {
    let redsync = RedsyncBuilder::new(cluster(1))
        .retry_delay(millis(Duration::from_millis(100)))
        .build()?;

    assert_eq!(redsync.nodes(), 1);
    assert_eq!(redsync.quorum(), 1);
    assert_eq!(redsync.retry_count(), 3);
    assert_eq!(redsync.retry_delay(), millis(Duration::from_millis(100)));
    assert_eq!(redsync.retry_jitter() as f64, 50.0);
    assert_eq!(1.0 / DRIFT_DIVISOR as f64, 0.01);

    Ok(())
}

#[test]
fn retry_jitter_overrides_the_default() {
    let redsync = RedsyncBuilder::new(cluster(3))
        .retry_jitter(7)
        .retry_delay(100)
        .build()
        .unwrap();
    assert_eq!(redsync.retry_delay(), 100);
    assert_eq!(redsync.retry_jitter(), 7);
}

#[test]
fn default_jitter_follows_the_delay_in_any_order() {
    let redsync = RedsyncBuilder::new(cluster(3))
        .retry_delay(1000)
        .retry_count(2)
        .retry_delay(31)
        .build()
        .unwrap();
    assert_eq!(redsync.retry_delay(), 31);
    assert_eq!(redsync.retry_jitter(), 15);
    assert_eq!(redsync.retry_count(), 2);
}

#[test]
fn defaults_are_named() {
    assert_eq!(DEFAULT_RETRY_COUNT, 3);
    assert_eq!(DEFAULT_RETRY_DELAY, 200);
    assert_eq!(DRIFT_DIVISOR, 100);
    assert_eq!(DRIFT_MARGIN, 2);
}

#[test]
fn empty_cluster_is_rejected() {
    let built = RedsyncBuilder::new(cluster(0)).build();
    assert!(matches!(built, Err(ConfigError::EmptyCluster)));
    let made = Redsync::new(cluster(0));
    assert!(matches!(made, Err(ConfigError::EmptyCluster)));
    // the empty cluster is named first
    let both = RedsyncBuilder::new(cluster(0)).retry_count(0).build();
    assert!(matches!(both, Err(ConfigError::EmptyCluster)));
}

#[test]
fn zero_retry_count_is_rejected() {
    let built = RedsyncBuilder::new(cluster(3)).retry_count(0).build();
    assert!(matches!(built, Err(ConfigError::NoAttempts)));
}

#[test]
fn quorum_is_the_majority() {
    for nodes in 1..=64usize {
        let q = quorum(nodes);
        assert_eq!(q, nodes / 2 + 1);
        assert!(2 * q > nodes);
        assert!(2 * (q - 1) <= nodes);
        let redsync = Redsync::new(cluster(nodes)).unwrap();
        assert_eq!(redsync.nodes(), nodes);
        assert_eq!(redsync.quorum(), q);
    }
    assert_eq!(quorum(0), 1);
    assert_eq!(quorum(3), 2);
    assert_eq!(quorum(4), 3);
    assert_eq!(quorum(5), 3);
    assert_eq!(quorum(usize::MAX), usize::MAX / 2 + 1);
}

#[test]
fn drift_is_a_hundredth_and_two() {
    assert_eq!(drift_of(0), 2);
    assert_eq!(drift_of(99), 2);
    assert_eq!(drift_of(100), 3);
    assert_eq!(drift_of(1000), 12);
    assert_eq!(drift_of(2000), 22);
    assert_eq!(drift_of(u64::MAX), u64::MAX / 100 + 2);
}
