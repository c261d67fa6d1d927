use redsync::redsync::unlock_outcome;
use redsync::tally::tally;
use redsync::{Instance, Lock, MultiError, Operation, Redsync, RedsyncBuilder, RedsyncError, Step};
use std::cell::{Cell, RefCell};
use std::collections::HashSet;
use std::time::{Duration, Instant};

struct FakeInstance {
    acquire: i32,
    extend: i32,
    release: i32,
}

impl FakeInstance {
    pub fn new(acquire: i32, extend: i32, release: i32) -> Self {
        Self {
            acquire,
            extend,
            release,
        }
    }
}

impl Instance for FakeInstance {
    fn acquire(&self, _lock: &Lock) -> Result<(), RedsyncError> {
        match self.acquire {
            1 => Ok(()),
            _ => Err(RedsyncError::ResourceLocked),
        }
    }

    fn extend(&self, _lock: &Lock) -> Result<(), RedsyncError> {
        match self.extend {
            1 => Ok(()),
            _ => Err(RedsyncError::InvalidLease),
        }
    }

    fn release(&self, _lock: &Lock) -> Result<(), RedsyncError> {
        match self.release {
            1 => Ok(()),
            _ => Err(RedsyncError::InvalidLease),
        }
    }
}

fn millis(duration: Duration) -> u64 {
    duration.as_millis() as u64
}

// Carries an operation to its end; the pauses are skipped.
fn finish<I: Instance>(operation: Operation<'_, I>) -> Result<Lock, RedsyncError> {
    let mut operation = operation;
    loop {
        match operation.advance() {
            Step::Sleep(_, next) => operation = next,
            Step::Granted(lock) => return Ok(lock),
            Step::Failed(error) => return Err(error),
        }
    }
}

#[test]
fn redsync_lock() {
    let dlm = Redsync::new(vec![
        FakeInstance::new(1, 1, 1),
        FakeInstance::new(1, 1, 1),
        FakeInstance::new(0, 1, 1),
    ])
    .unwrap();

    let attempt = finish(dlm.lock("test", millis(Duration::from_secs(1))));
    assert!(attempt.is_ok());

    let lock = attempt.unwrap();
    assert_eq!(lock.resource, "test");
    assert!(lock.value.len() > 0);
    assert_eq!(lock.ttl, millis(Duration::from_secs(1)));
}

#[test]
fn redsync_lock_error() {
    let dlm = Redsync::new(vec![
        FakeInstance::new(0, 1, 1),
        FakeInstance::new(0, 1, 1),
        FakeInstance::new(1, 1, 1),
    ])
    .unwrap();

    let attempt = finish(dlm.lock("test", millis(Duration::from_secs(1))));
    assert!(matches!(
        attempt,
        Err(RedsyncError::LockRetriesExceeded { .. })
    ));
}

#[test]
fn redsync_extend() -> Result<(), RedsyncError> {
    let dlm = Redsync::new(vec![
        FakeInstance::new(1, 1, 1),
        FakeInstance::new(1, 1, 1),
        FakeInstance::new(1, 0, 1),
    ])
    .unwrap();
    let lock = finish(dlm.lock("test", millis(Duration::from_secs(1))))?;

    let attempt = finish(dlm.extend(&lock, millis(Duration::from_secs(2))));
    assert!(attempt.is_ok());

    let lock = attempt.unwrap();
    assert_eq!(lock.resource, "test");
    assert!(lock.value.len() > 0);
    assert_eq!(lock.ttl, millis(Duration::from_secs(2)));

    Ok(())
}

#[test]
fn redsync_extend_error() -> Result<(), RedsyncError> {
    let dlm = Redsync::new(vec![
        FakeInstance::new(1, 0, 1),
        FakeInstance::new(1, 0, 1),
        FakeInstance::new(1, 1, 1),
    ])
    .unwrap();
    let lock = finish(dlm.lock("test", millis(Duration::from_secs(1))))?;

    let attempt = finish(dlm.extend(&lock, millis(Duration::from_secs(2))));
    assert!(matches!(
        attempt,
        Err(RedsyncError::ExtendRetriesExceeded { .. })
    ));

    Ok(())
}

#[test]
fn redsync_unlock() -> Result<(), RedsyncError> {
    let dlm = Redsync::new(vec![
        FakeInstance::new(1, 1, 1),
        FakeInstance::new(1, 1, 1),
        FakeInstance::new(1, 1, 0),
    ])
    .unwrap();
    let lock = finish(dlm.lock("test", millis(Duration::from_secs(1))))?;

    let attempt = dlm.unlock(&lock);
    assert!(attempt.is_ok());

    Ok(())
}

#[test]
fn redsync_unlock_error() -> Result<(), RedsyncError> {
    let dlm = Redsync::new(vec![
        FakeInstance::new(1, 1, 0),
        FakeInstance::new(1, 1, 0),
        FakeInstance::new(1, 1, 1),
    ])
    .unwrap();
    let lock = finish(dlm.lock("test", millis(Duration::from_secs(1))))?;

    let attempt = dlm.unlock(&lock);
    assert!(matches!(attempt, Err(RedsyncError::UnlockFailed { .. })));

    Ok(())
}

#[test]
fn redsync_get_unique_lock_id() {
    let cluster = vec![FakeInstance::new(1, 1, 1)];
    let dlm = Redsync::new(cluster).unwrap();

    let value = dlm.get_unique_lock_id();
    assert_eq!(value.len(), 20);
    assert!(value.is_ascii());
}

#[test]
fn redsync_get_retry_delay() {
    let cluster = vec![FakeInstance::new(1, 1, 1)];
    let dlm = Redsync::new(cluster).unwrap();

    let retry_delay = Duration::from_millis(dlm.get_retry_delay());
    let (min, max) = (Duration::from_millis(100), Duration::from_millis(300));
    assert!(
        min < retry_delay && retry_delay < max,
        "expected retry delay to be between {:?} and {:?}, but got {:?}",
        min,
        max,
        retry_delay,
    );
}

// An instance that counts what it is asked, and remembers the locks that it saw.
struct CountingInstance {
    grants: bool,
    acquires: Cell<u32>,
    extends: Cell<u32>,
    releases: Cell<u32>,
    seen: RefCell<Vec<(String, String, u64, u64)>>,
}

impl CountingInstance {
    fn new(grants: bool) -> Self {
        CountingInstance {
            grants,
            acquires: Cell::new(0),
            extends: Cell::new(0),
            releases: Cell::new(0),
            seen: RefCell::new(Vec::new()),
        }
    }

    fn see(&self, lock: &Lock) {
        self.seen.borrow_mut().push((
            lock.resource.clone(),
            lock.value.clone(),
            lock.ttl,
            lock.expiry,
        ));
    }
}

impl Instance for CountingInstance {
    fn acquire(&self, lock: &Lock) -> Result<(), RedsyncError> {
        self.acquires.set(self.acquires.get() + 1);
        self.see(lock);
        if self.grants {
            Ok(())
        } else {
            Err(RedsyncError::ResourceLocked)
        }
    }

    fn extend(&self, lock: &Lock) -> Result<(), RedsyncError> {
        self.extends.set(self.extends.get() + 1);
        self.see(lock);
        if self.grants {
            Ok(())
        } else {
            Err(RedsyncError::InvalidLease)
        }
    }

    fn release(&self, lock: &Lock) -> Result<(), RedsyncError> {
        self.releases.set(self.releases.get() + 1);
        self.see(lock);
        Ok(())
    }
}

// Carries an operation to its end and counts its pauses.
fn finish_counting<I: Instance>(operation: Operation<'_, I>) -> (Result<Lock, RedsyncError>, u32) {
    let mut operation = operation;
    let mut pauses = 0;
    loop {
        match operation.advance() {
            Step::Sleep(_, next) => {
                pauses += 1;
                operation = next;
            }
            Step::Granted(lock) => return (Ok(lock), pauses),
            Step::Failed(error) => return (Err(error), pauses),
        }
    }
}

fn is_lock_id(value: &str) -> bool {
    value.len() == 20 && value.chars().all(|c| c.is_ascii_alphanumeric())
}

#[test]
fn lock_returns_the_lease_that_was_asked_for() {
    let dlm = Redsync::new(vec![
        FakeInstance::new(1, 1, 1),
        FakeInstance::new(1, 1, 1),
        FakeInstance::new(0, 1, 1),
    ])
    .unwrap();

    let before = dlm.now();
    let lock = finish(dlm.lock("r", 1000)).unwrap();
    let after = dlm.now();
    assert_eq!(lock.resource, "r");
    assert_eq!(lock.ttl, 1000);
    assert_eq!(lock.value.len(), 20);
    assert!(is_lock_id(&lock.value));
    // validity: ahead of the clock, and at most ttl less the drift after the start
    assert!(lock.expiry > after);
    assert!(lock.expiry >= before + 1000 - 12);
    assert!(lock.expiry <= after + 1000 - 12);
}

#[test]
fn lock_error_carries_the_last_attempt() {
    let dlm = Redsync::new(vec![
        FakeInstance::new(0, 1, 1),
        FakeInstance::new(0, 1, 1),
        FakeInstance::new(1, 1, 1),
    ])
    .unwrap();

    match finish(dlm.lock("r", 1000)) {
        Err(RedsyncError::LockRetriesExceeded(errors)) => {
            assert_eq!(errors.len(), 2);
            assert_eq!(errors.count(&RedsyncError::ResourceLocked), 2);
            assert_eq!(errors.get(0), Some(&RedsyncError::ResourceLocked));
            assert_eq!(errors.get(1), Some(&RedsyncError::ResourceLocked));
            assert!(errors.includes(RedsyncError::ResourceLocked));
            assert!(!errors.includes(RedsyncError::InvalidLease));
        }
        other => panic!("unexpected result {:?}", other),
    }
}

#[test]
fn extend_keeps_the_owner_value() {
    let dlm = Redsync::new(vec![
        FakeInstance::new(1, 1, 1),
        FakeInstance::new(1, 1, 1),
        FakeInstance::new(1, 0, 1),
    ])
    .unwrap();
    let lock = finish(dlm.lock("r", 1000)).unwrap();

    let extended = finish(dlm.extend(&lock, 2000)).unwrap();
    assert_eq!(extended.ttl, 2000);
    assert_eq!(extended.resource, "r");
    assert_eq!(extended.value, lock.value);
    assert!(extended.expiry > dlm.now());
    assert!(extended.expiry <= dlm.now() + 2000 - 22);
}

#[test]
fn extend_error_carries_the_last_attempt() {
    let dlm = Redsync::new(vec![
        FakeInstance::new(1, 0, 1),
        FakeInstance::new(1, 0, 1),
        FakeInstance::new(1, 1, 1),
    ])
    .unwrap();
    let lock = finish(dlm.lock("r", 1000)).unwrap();

    match finish(dlm.extend(&lock, 2000)) {
        Err(RedsyncError::ExtendRetriesExceeded(errors)) => {
            assert_eq!(errors.len(), 2);
            assert_eq!(errors.count(&RedsyncError::InvalidLease), 2);
        }
        other => panic!("unexpected result {:?}", other),
    }
}

#[test]
fn unlock_error_carries_the_refusals() {
    let dlm = Redsync::new(vec![
        FakeInstance::new(1, 1, 0),
        FakeInstance::new(1, 1, 0),
        FakeInstance::new(1, 1, 1),
    ])
    .unwrap();
    let lock = finish(dlm.lock("r", 1000)).unwrap();

    match dlm.unlock(&lock) {
        Err(RedsyncError::UnlockFailed(errors)) => {
            assert_eq!(errors.len(), 2);
            assert_eq!(errors.count(&RedsyncError::InvalidLease), 2);
            assert!(errors.includes(RedsyncError::InvalidLease));
        }
        other => panic!("unexpected result {:?}", other),
    }
}

#[test]
fn lock_then_unlock_on_a_healthy_cluster() {
    for nodes in 1..=7 {
        let cluster: Vec<FakeInstance> = (0..nodes).map(|_| FakeInstance::new(1, 1, 1)).collect();
        let dlm = Redsync::new(cluster).unwrap();
        let (locked, pauses) = finish_counting(dlm.lock("r", 1000));
        assert_eq!(pauses, 0);
        let lock = locked.unwrap();
        assert!(dlm.unlock(&lock).is_ok());
    }
}

#[test]
fn unlock_outcome_counts_the_votes() {
    let denied = || Err(RedsyncError::InvalidLease);
    assert_eq!(unlock_outcome(vec![Ok(()), Ok(()), denied()], 2), Ok(()));
    assert_eq!(unlock_outcome(vec![Ok(()), Ok(()), Ok(())], 2), Ok(()));
    assert_eq!(unlock_outcome(vec![], 0), Ok(()));

    let mut two = MultiError::new();
    two.push(RedsyncError::InvalidLease);
    two.push(RedsyncError::TransportError(String::from("refused")));
    assert_eq!(
        unlock_outcome(
            vec![
                denied(),
                Ok(()),
                Err(RedsyncError::TransportError(String::from("refused")))
            ],
            2
        ),
        Err(RedsyncError::UnlockFailed(two))
    );
    assert_eq!(
        unlock_outcome(vec![], 1),
        Err(RedsyncError::UnlockFailed(MultiError::new()))
    );
}

#[test]
fn denied_lock_stays_within_the_retry_bound() {
    for retry_count in 1..=5u32 {
        let dlm = RedsyncBuilder::new(vec![
            CountingInstance::new(false),
            CountingInstance::new(false),
            CountingInstance::new(false),
        ])
        .retry_count(retry_count)
        .build()
        .unwrap();

        let mut operation = dlm.lock("r", 1000);
        assert_eq!(operation.attempts(), 0);
        let mut pauses = 0;
        let result = loop {
            match operation.advance() {
                Step::Sleep(delay, next) => {
                    pauses += 1;
                    assert!(100 < delay && delay < 300);
                    assert_eq!(next.attempts(), pauses);
                    operation = next;
                }
                Step::Granted(lock) => break Ok(lock),
                Step::Failed(error) => break Err(error),
            }
        };
        assert!(matches!(
            result,
            Err(RedsyncError::LockRetriesExceeded { .. })
        ));
        assert_eq!(pauses, retry_count - 1);
    }
}

// An instance that is lent to the manager, so that the test can still read it.
struct Shared<'a>(&'a CountingInstance);

impl Instance for Shared<'_> {
    fn acquire(&self, lock: &Lock) -> Result<(), RedsyncError> {
        self.0.acquire(lock)
    }

    fn extend(&self, lock: &Lock) -> Result<(), RedsyncError> {
        self.0.extend(lock)
    }

    fn release(&self, lock: &Lock) -> Result<(), RedsyncError> {
        self.0.release(lock)
    }
}

#[test]
fn failed_attempt_is_released_on_every_instance() {
    // one vote out of three: below the quorum of two
    let instances = [
        CountingInstance::new(true),
        CountingInstance::new(false),
        CountingInstance::new(false),
    ];
    let dlm = Redsync::new(instances.iter().map(Shared).collect()).unwrap();

    // up to the first pause: one attempt, and one release on each instance
    let next = match dlm.lock("r", 1000).advance() {
        Step::Sleep(_, next) => next,
        _ => panic!("the first attempt cannot hold"),
    };
    assert_eq!(next.attempts(), 1);
    for instance in &instances {
        assert_eq!(instance.acquires.get(), 1);
        assert_eq!(instance.releases.get(), 1);
    }

    // up to the second pause: the same again
    let next = match next.advance() {
        Step::Sleep(_, next) => next,
        _ => panic!("the second attempt cannot hold"),
    };
    for instance in &instances {
        assert_eq!(instance.acquires.get(), 2);
        assert_eq!(instance.releases.get(), 2);
    }

    // the last attempt is released before the error is returned
    assert!(matches!(
        next.advance(),
        Step::Failed(RedsyncError::LockRetriesExceeded { .. })
    ));
    for instance in &instances {
        assert_eq!(instance.acquires.get(), 3);
        assert_eq!(instance.releases.get(), 3);
    }
}

#[test]
fn every_call_of_one_operation_presents_the_same_lease() {
    let instances = [
        CountingInstance::new(true),
        CountingInstance::new(false),
        CountingInstance::new(false),
    ];
    let dlm = Redsync::new(instances.iter().map(Shared).collect()).unwrap();
    let (result, pauses) = finish_counting(dlm.lock("r", 1000));
    assert!(result.is_err());
    assert_eq!(pauses, 2);

    for instance in &instances {
        // three fan-outs, and one release after each failed attempt
        assert_eq!(instance.acquires.get(), 3);
        assert_eq!(instance.releases.get(), 3);
        assert_eq!(instance.extends.get(), 0);
        let seen = instance.seen.borrow();
        assert_eq!(seen.len(), 6);
        for (resource, value, ttl, _) in seen.iter() {
            assert_eq!(resource, "r");
            assert_eq!(value, &seen[0].1);
            assert!(is_lock_id(value));
            assert_eq!(*ttl, 1000);
        }
        // a release presents the lease of the attempt that it cleans up
        for attempt in 0..3 {
            assert_eq!(seen[2 * attempt].3, seen[2 * attempt + 1].3);
        }
    }

    let lock = Lock {
        resource: String::from("r"),
        value: String::from("owner"),
        ttl: 1000,
        expiry: 0,
    };
    let (result, _) = finish_counting(dlm.extend(&lock, 500));
    assert!(result.is_err());
    for instance in &instances {
        assert_eq!(instance.extends.get(), 3);
        assert_eq!(instance.releases.get(), 6);
        let seen = instance.seen.borrow();
        assert_eq!(seen.last().unwrap().1, "owner");
        assert_eq!(seen.last().unwrap().2, 500);
    }

    assert!(dlm.unlock(&lock).is_ok());
    for instance in &instances {
        assert_eq!(instance.releases.get(), 7);
    }
}

#[test]
fn lock_ids_are_alphanumeric_and_differ() {
    let dlm = Redsync::new(vec![FakeInstance::new(1, 1, 1)]).unwrap();
    let other = Redsync::new(vec![FakeInstance::new(1, 1, 1)]).unwrap();

    let mut seen = HashSet::new();
    for _ in 0..500 {
        let value = dlm.get_unique_lock_id();
        assert!(is_lock_id(&value));
        assert!(seen.insert(value));
        let value = other.get_unique_lock_id();
        assert!(is_lock_id(&value));
        assert!(seen.insert(value));
    }

    let first = finish(dlm.lock("a", 1000)).unwrap();
    let second = finish(dlm.lock("a", 1000)).unwrap();
    let third = finish(other.lock("b", 1000)).unwrap();
    assert_ne!(first.value, second.value);
    assert_ne!(first.value, third.value);
    assert_ne!(second.value, third.value);
}

#[test]
fn lock_ids_use_the_whole_alphabet() {
    let dlm = Redsync::new(vec![FakeInstance::new(1, 1, 1)]).unwrap();
    let mut seen = HashSet::new();
    for _ in 0..500 {
        seen.extend(dlm.get_unique_lock_id().chars());
    }
    assert_eq!(seen.len(), 62);
}

#[test]
fn jittered_retry_delay_stays_in_bounds() {
    let dlm = RedsyncBuilder::new(vec![FakeInstance::new(1, 1, 1)])
        .retry_delay(100)
        .retry_count(3)
        .build()
        .unwrap();

    let mut sum = 0.0;
    let mut low = u64::MAX;
    let mut high = 0;
    for _ in 0..1000 {
        let delay = dlm.get_retry_delay();
        assert!(0 < delay && delay < 300);
        assert!(50 <= delay && delay <= 150);
        sum += delay as f64;
        low = low.min(delay);
        high = high.max(delay);
    }
    let mean = sum / 1000.0;
    assert!((mean - 100.0).abs() < 10.0, "mean {}", mean);
    // the draw moves the delay both ways
    assert!(low < 100 && 100 < high);
}

#[test]
fn jitter_is_clamped_at_zero() {
    let dlm = RedsyncBuilder::new(vec![FakeInstance::new(1, 1, 1)])
        .retry_delay(10)
        .retry_jitter(1000)
        .build()
        .unwrap();
    let mut zeros = 0;
    for _ in 0..200 {
        let delay = dlm.get_retry_delay();
        assert!(delay < 1010);
        if delay == 0 {
            zeros += 1;
        }
    }
    assert!(zeros > 0);
}

#[test]
fn no_jitter_means_the_plain_delay() {
    let dlm = RedsyncBuilder::new(vec![FakeInstance::new(1, 1, 1)])
        .retry_delay(40)
        .retry_jitter(0)
        .build()
        .unwrap();
    for _ in 0..20 {
        assert_eq!(dlm.get_retry_delay(), 40);
    }
    let one = RedsyncBuilder::new(vec![FakeInstance::new(1, 1, 1)])
        .retry_delay(40)
        .retry_jitter(1)
        .build()
        .unwrap();
    for _ in 0..20 {
        assert_eq!(one.get_retry_delay(), 40);
    }
}

#[test]
fn clock_does_not_run_backwards() {
    let dlm = Redsync::new(vec![FakeInstance::new(1, 1, 1)]).unwrap();
    let mut last = dlm.now();
    for _ in 0..100 {
        let now = dlm.now();
        assert!(now >= last);
        last = now;
    }
}

fn wait(duration: Duration) {
    let start = Instant::now();
    while start.elapsed() < duration {}
}

#[test]
fn clock_counts_milliseconds() {
    let dlm = Redsync::new(vec![FakeInstance::new(1, 1, 1)]).unwrap();
    let before = dlm.now();
    wait(Duration::from_millis(30));
    let after = dlm.now();
    assert!(after >= before + 29);
    assert!(after < before + 5000);
}

// An instance that grants, but takes its time.
struct SlowInstance {
    delay: Duration,
}

impl Instance for SlowInstance {
    fn acquire(&self, _lock: &Lock) -> Result<(), RedsyncError> {
        wait(self.delay);
        Ok(())
    }

    fn extend(&self, _lock: &Lock) -> Result<(), RedsyncError> {
        wait(self.delay);
        Ok(())
    }

    fn release(&self, _lock: &Lock) -> Result<(), RedsyncError> {
        Ok(())
    }
}

#[test]
fn lease_that_ran_out_during_the_fan_out_is_not_handed_back() {
    // a lease of 10 ms holds for 10 - (0 + 2) = 8 ms; the cluster takes 15 ms
    let dlm = RedsyncBuilder::new(vec![SlowInstance {
        delay: Duration::from_millis(15),
    }])
    .retry_count(2)
    .build()
    .unwrap();

    let (result, pauses) = finish_counting(dlm.lock("r", 10));
    assert_eq!(pauses, 1);
    match result {
        Err(RedsyncError::LockRetriesExceeded(errors)) => assert!(errors.is_empty()),
        other => panic!("unexpected result {:?}", other),
    }

    // with time to spare the same cluster grants
    let lock = finish(dlm.lock("r", 2000)).unwrap();
    assert!(lock.expiry > dlm.now());
    let (extended, _) = finish_counting(dlm.extend(&lock, 10));
    assert!(matches!(
        extended,
        Err(RedsyncError::ExtendRetriesExceeded { .. })
    ));
}

#[test]
fn tally_counts_votes_and_keeps_errors_in_order() {
    let (votes, errors) = tally(vec![
        Ok(()),
        Err(RedsyncError::ResourceLocked),
        Ok(()),
        Err(RedsyncError::TransportError(String::from("refused"))),
    ]);
    assert_eq!(votes, 2);
    assert_eq!(errors.len(), 2);
    assert_eq!(errors.get(0), Some(&RedsyncError::ResourceLocked));
    assert_eq!(
        errors.get(1),
        Some(&RedsyncError::TransportError(String::from("refused")))
    );

    let (votes, errors) = tally(vec![]);
    assert_eq!(votes, 0);
    assert!(errors.is_empty());
}
