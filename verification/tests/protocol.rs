use std::sync::atomic::AtomicU32;
use std::sync::atomic::Ordering;

use rufutex::kernel::FutexCall;
use rufutex::protocol::{must_wake, Exchange, LockPhase};
use rufutex::rufutex::SharedFutex;
use rufutex::{LOCKED_NO_WAITERS, LOCKED_WAITERS, UNLOCKED};

fn wait_on_waiters() -> FutexCall {
    FutexCall { op: 0, value: 2, timeout: None, val2: 0, val3: 0 }
}

fn wake(count: u32) -> FutexCall {
    FutexCall { op: 1, value: count, timeout: None, val2: 0, val3: 0 }
}

#[test]
fn test_shared_lock_unlock() {
    let word = AtomicU32::new(0);
    let mut shared_futex = SharedFutex::new(&word);

    assert_eq!(shared_futex.lock(LockPhase::Start), (LockPhase::Acquired, None));
    assert_eq!(shared_futex.unlock(1), None);
    assert_eq!(shared_futex.lock(LockPhase::Start), (LockPhase::Acquired, None));
    assert_eq!(shared_futex.unlock(1), None);
}

#[test]
fn test_futex_lock_in_shared_memory() {
    let word = AtomicU32::new(0);
    word.store(LOCKED_NO_WAITERS, Ordering::SeqCst);
    let val = word.load(Ordering::SeqCst);
    assert_eq!(val, LOCKED_NO_WAITERS);

    let mut shared_futex = SharedFutex::new(&word);
    let mut other = SharedFutex::new(&word);

    // The other participant goes as far as it can while the lock is held.
    let mut phase = LockPhase::Start;
    let mut wait = None;
    while wait.is_none() {
        assert_ne!(phase, LockPhase::Acquired);
        (phase, wait) = other.lock(phase);
    }
    assert_eq!(wait, Some(wait_on_waiters()));

    let woken = shared_futex.unlock(1);
    assert_eq!(woken, Some(wake(1)));

    // Woken, it takes the lock.
    let (phase, wait) = other.lock(phase);
    assert_eq!(phase, LockPhase::Acquired);
    assert_eq!(wait, None);
    assert_ne!(word.load(Ordering::SeqCst), UNLOCKED);
}

#[test]
fn fast_path_takes_one_operation_each_way() {
    let word = AtomicU32::new(UNLOCKED);
    let mut futex = SharedFutex::new(&word);

    let (phase, wait) = futex.lock(LockPhase::Start);
    assert_eq!(phase, LockPhase::Acquired);
    assert_eq!(wait, None);
    assert_eq!(word.load(Ordering::SeqCst), LOCKED_NO_WAITERS);

    let wake = futex.unlock(1);
    assert_eq!(wake, None);
    assert_eq!(word.load(Ordering::SeqCst), UNLOCKED);
}

#[test]
fn contended_lock_parks_and_is_handed_over() {
    let word = AtomicU32::new(LOCKED_NO_WAITERS);
    let mut first = SharedFutex::new(&word);
    let mut second = SharedFutex::new(&word);

    let (phase, wait) = second.lock(LockPhase::Start);
    assert_eq!((phase, wait), (LockPhase::Announce, None));
    assert_eq!(word.load(Ordering::SeqCst), LOCKED_NO_WAITERS);

    let (phase, wait) = second.lock(phase);
    assert_eq!(phase, LockPhase::Parked);
    assert_eq!(wait, Some(wait_on_waiters()));
    assert_eq!(word.load(Ordering::SeqCst), LOCKED_WAITERS);

    assert_eq!(first.unlock(1), Some(wake(1)));
    assert_eq!(word.load(Ordering::SeqCst), UNLOCKED);

    let (phase, wait) = second.lock(phase);
    assert_eq!((phase, wait), (LockPhase::Acquired, None));
    let end = word.load(Ordering::SeqCst);
    assert!(end == LOCKED_NO_WAITERS || end == LOCKED_WAITERS);
    assert_eq!(end, LOCKED_WAITERS);
}

#[test]
fn a_wait_that_returns_early_parks_again() {
    let word = AtomicU32::new(LOCKED_WAITERS);
    let mut futex = SharedFutex::new(&word);

    let (phase, wait) = futex.lock(LockPhase::Start);
    assert_eq!((phase, wait), (LockPhase::Parked, Some(wait_on_waiters())));
    let (phase, wait) = futex.lock(phase);
    assert_eq!((phase, wait), (LockPhase::Parked, Some(wait_on_waiters())));
    let (phase, wait) = futex.lock(phase);
    assert_eq!((phase, wait), (LockPhase::Parked, Some(wait_on_waiters())));
    assert_eq!(word.load(Ordering::SeqCst), LOCKED_WAITERS);
}

#[test]
fn an_announcement_that_finds_the_lock_free_retries_at_once() {
    let word = AtomicU32::new(UNLOCKED);
    let mut futex = SharedFutex::new(&word);

    let (phase, wait) = futex.lock(LockPhase::Announce);
    assert_eq!((phase, wait), (LockPhase::Retry, None));
    assert_eq!(word.load(Ordering::SeqCst), UNLOCKED);

    let (phase, wait) = futex.lock(phase);
    assert_eq!((phase, wait), (LockPhase::Acquired, None));
    assert_eq!(word.load(Ordering::SeqCst), LOCKED_WAITERS);
}

#[test]
fn a_retry_that_loses_announces_again() {
    let word = AtomicU32::new(LOCKED_NO_WAITERS);
    let mut futex = SharedFutex::new(&word);
    let (phase, wait) = futex.lock(LockPhase::Retry);
    assert_eq!((phase, wait), (LockPhase::Announce, None));
    assert_eq!(word.load(Ordering::SeqCst), LOCKED_NO_WAITERS);
}

#[test]
fn a_step_from_acquired_does_nothing() {
    let word = AtomicU32::new(LOCKED_NO_WAITERS);
    let mut futex = SharedFutex::new(&word);
    assert_eq!(futex.lock(LockPhase::Acquired), (LockPhase::Acquired, None));
    assert_eq!(word.load(Ordering::SeqCst), LOCKED_NO_WAITERS);
    word.store(UNLOCKED, Ordering::SeqCst);
    assert_eq!(futex.lock(LockPhase::Acquired), (LockPhase::Acquired, None));
    assert_eq!(word.load(Ordering::SeqCst), UNLOCKED);
}

#[test]
fn contended_unlock_frees_the_word_and_wakes_the_hint() {
    let word = AtomicU32::new(LOCKED_WAITERS);
    let mut futex = SharedFutex::new(&word);
    assert_eq!(futex.unlock(3), Some(wake(3)));
    assert_eq!(word.load(Ordering::SeqCst), UNLOCKED);

    word.store(LOCKED_WAITERS, Ordering::SeqCst);
    assert_eq!(futex.unlock(0), Some(wake(0)));
    assert_eq!(word.load(Ordering::SeqCst), UNLOCKED);
}

#[test]
fn exchange_of_each_phase() {
    assert_eq!(
        LockPhase::Start.next_exchange(),
        Some(Exchange { expected: 0, desired: 1 })
    );
    assert_eq!(
        LockPhase::Announce.next_exchange(),
        Some(Exchange { expected: 1, desired: 2 })
    );
    assert_eq!(
        LockPhase::Parked.next_exchange(),
        Some(Exchange { expected: 0, desired: 2 })
    );
    assert_eq!(
        LockPhase::Retry.next_exchange(),
        Some(Exchange { expected: 0, desired: 2 })
    );
    assert_eq!(LockPhase::Acquired.next_exchange(), None);
}

#[test]
fn advance_of_each_phase() {
    for phase in [LockPhase::Start, LockPhase::Parked, LockPhase::Retry] {
        assert_eq!(phase.advance(0), LockPhase::Acquired);
        assert_eq!(phase.advance(1), LockPhase::Announce);
        assert_eq!(phase.advance(2), LockPhase::Parked);
        assert_eq!(phase.advance(3), LockPhase::Announce);
        assert_eq!(phase.advance(u32::MAX), LockPhase::Announce);
    }
    assert_eq!(LockPhase::Announce.advance(0), LockPhase::Retry);
    assert_eq!(LockPhase::Announce.advance(1), LockPhase::Parked);
    assert_eq!(LockPhase::Announce.advance(2), LockPhase::Parked);
    assert_eq!(LockPhase::Announce.advance(u32::MAX), LockPhase::Parked);
    for observed in [0, 1, 2, 3, u32::MAX] {
        assert_eq!(LockPhase::Acquired.advance(observed), LockPhase::Acquired);
    }
}

#[test]
fn must_wake_unless_nobody_waited() {
    assert!(!must_wake(LOCKED_NO_WAITERS));
    assert!(must_wake(LOCKED_WAITERS));
    assert!(must_wake(UNLOCKED));
    assert!(must_wake(3));
    assert!(must_wake(u32::MAX));
}

#[test]
fn a_second_lock_by_the_owner_never_succeeds() {
    let word = AtomicU32::new(UNLOCKED);
    let mut futex = SharedFutex::new(&word);
    assert_eq!(futex.lock(LockPhase::Start), (LockPhase::Acquired, None));

    let mut phase = LockPhase::Start;
    let mut waits = 0;
    for _ in 0..100 {
        let (next, wait) = futex.lock(phase);
        assert_ne!(next, LockPhase::Acquired);
        if wait.is_some() {
            waits += 1;
        }
        phase = next;
    }
    assert_eq!(waits, 99);
    assert_eq!(word.load(Ordering::SeqCst), LOCKED_WAITERS);
}

#[test]
fn a_lock_whose_owner_is_gone_stays_held() {
    let word = AtomicU32::new(UNLOCKED);
    {
        let mut owner = SharedFutex::new(&word);
        assert_eq!(owner.lock(LockPhase::Start), (LockPhase::Acquired, None));
    }
    assert_eq!(word.load(Ordering::SeqCst), LOCKED_NO_WAITERS);

    let mut other = SharedFutex::new(&word);
    let (phase, wait) = other.lock(LockPhase::Start);
    assert_eq!((phase, wait), (LockPhase::Announce, None));
    let (phase, wait) = other.lock(phase);
    assert_eq!((phase, wait), (LockPhase::Parked, Some(wait_on_waiters())));
    let (phase, _) = other.lock(phase);
    assert_eq!(phase, LockPhase::Parked);
}

#[test]
fn lock_on_a_word_that_announces_waiters_parks_at_once() {
    let word = AtomicU32::new(LOCKED_WAITERS);
    let mut futex = SharedFutex::new(&word);
    let (phase, wait) = futex.lock(LockPhase::Start);
    assert_eq!(phase, LockPhase::Parked);
    assert_eq!(wait, Some(FutexCall { op: 0, value: 2, timeout: None, val2: 0, val3: 0 }));
    assert_eq!(word.load(Ordering::SeqCst), LOCKED_WAITERS);
}

#[test]
fn two_waiters_are_handed_the_lock_one_after_the_other() {
    let word = AtomicU32::new(UNLOCKED);
    let mut first = SharedFutex::new(&word);
    let mut second = SharedFutex::new(&word);
    let mut third = SharedFutex::new(&word);

    assert_eq!(first.lock(LockPhase::Start).0, LockPhase::Acquired);
    assert_eq!(second.lock(LockPhase::Start).0, LockPhase::Announce);
    assert_eq!(second.lock(LockPhase::Announce).0, LockPhase::Parked);
    assert_eq!(third.lock(LockPhase::Start).0, LockPhase::Parked);
    assert_eq!(word.load(Ordering::SeqCst), LOCKED_WAITERS);

    assert_eq!(first.unlock(1), Some(wake(1)));
    assert_eq!(second.lock(LockPhase::Parked).0, LockPhase::Acquired);
    assert_eq!(word.load(Ordering::SeqCst), LOCKED_WAITERS);

    // The word still announces waiters, so this release wakes the third.
    assert_eq!(second.unlock(1), Some(wake(1)));
    assert_eq!(third.lock(LockPhase::Parked).0, LockPhase::Acquired);
    assert_eq!(third.unlock(1), Some(wake(1)));
    assert_eq!(word.load(Ordering::SeqCst), UNLOCKED);
}
