//! The handle that binds the lock operations to one word.

use std::sync::atomic::AtomicU32;
use std::sync::atomic::Ordering;
use vstd::prelude::*;
use crate::kernel::{futex_wait, futex_wake, wait_call, wake_call, FutexCall, Timeout};
use crate::protocol::{must_wake, release_request, LockPhase};
use crate::word::previous_value;
use crate::{LOCKED_WAITERS, UNLOCKED};

verus! {

/// A handle on a lock word.
///
/// The handle has no state of its own. Any number of handles, in one process
/// or in several, may be bound to the same word, and a handle may be dropped
/// at any time without effect on the lock. The word belongs to whoever set up
/// the shared memory; the handle only reads and writes it, always atomically
/// and with sequentially consistent ordering.
///
/// No operation of the handle enters the kernel. Where the protocol asks for a
/// wait or a wake, the operation returns the request as a [`FutexCall`], and
/// the caller issues it on the address of the word.
pub struct SharedFutex<'a> {
    /// The lock word.
    pub futex: &'a AtomicU32,
}

impl<'a> SharedFutex<'a> {
    /// Binds a handle to `futex`. The word is neither read nor written.
    pub fn new(futex: &'a AtomicU32) -> (handle: Self)
        ensures
            handle.futex == futex,
    {
        SharedFutex { futex }
    }

    /// Atomically stores `desired` in `atom` if it holds `expected`, and
    /// leaves it unchanged otherwise. Returns the value that `atom` held just
    /// before, which is `expected` exactly when the store took place.
    pub fn cmpxchg(atom: &AtomicU32, expected: u32, desired: u32) -> u32 {
        previous_value(atom.compare_exchange(expected, desired, Ordering::SeqCst, Ordering::SeqCst))
    }

    /// The futex call with operation `futex_op`, second argument `value` and
    /// last argument `val3`; no timeout, and zero for the fifth argument.
    pub fn syscall_futex(&mut self, futex_op: i32, value: u32, val3: u32) -> (call: FutexCall)
        ensures
            *final(self) == *old(self),
            call == (FutexCall { op: futex_op, value, timeout: None, val2: 0, val3 }),
    {
        FutexCall { op: futex_op, value, timeout: None, val2: 0, val3 }
    }

    /// The futex call with operation `futex_op`, second argument `value`,
    /// fifth argument `val2` and last argument `val3`; no timeout.
    pub fn syscall_futex3(
        &mut self,
        futex_op: i32,
        value: u32,
        val2: u32,
        val3: u32,
    ) -> (call: FutexCall)
        ensures
            *final(self) == *old(self),
            call == (FutexCall { op: futex_op, value, timeout: None, val2, val3 }),
    {
        FutexCall { op: futex_op, value, timeout: None, val2, val3 }
    }

    /// The request to wake up to `number_of_waiters` callers blocked on the
    /// word. The word is not touched.
    pub fn post(&mut self, number_of_waiters: u32) -> (call: FutexCall)
        ensures
            *final(self) == *old(self),
            call == wake_call(number_of_waiters),
    {
        self.syscall_futex(futex_wake(), number_of_waiters, 0)
    }

    /// Stores `value` in the word and returns the request to wake up to
    /// `number_of_waiters` callers blocked on it.
    ///
    /// The store and the wake are two steps: the new value is visible to
    /// everyone before the caller issues the wake. A participant that starts
    /// to wait in between is not lost, since the kernel blocks it only if the
    /// word still holds the value it waits on.
    pub fn post_with_value(&mut self, value: u32, number_of_waiters: u32) -> (call: FutexCall)
        ensures
            *final(self) == *old(self),
            call == wake_call(number_of_waiters),
    {
        self.futex.store(value, Ordering::SeqCst);
        self.post(number_of_waiters)
    }

    /// Stores `value` in the word. Nobody is woken.
    pub fn set_futex_value(&mut self, value: u32)
        ensures
            *final(self) == *old(self),
    {
        self.futex.store(value, Ordering::SeqCst);
    }

    /// The request to block while the word equals `wait_value`, with no limit
    /// of time. The word is not touched.
    ///
    /// The kernel may return at once, or wake the caller for no reason; a
    /// return says nothing of the word, which the caller reads again.
    pub fn wait(&mut self, wait_value: u32) -> (call: FutexCall)
        ensures
            *final(self) == *old(self),
            call == wait_call(wait_value, None),
    {
        self.syscall_futex(futex_wait(), wait_value, 0)
    }

    /// The request to block while the word equals `wait_value`, for `timeout`
    /// at most. The word is not touched.
    pub fn wait_with_timeout(&mut self, wait_value: u32, timeout: Timeout) -> (call: FutexCall)
        ensures
            *final(self) == *old(self),
            call == wait_call(wait_value, Some(timeout)),
    {
        FutexCall { op: futex_wait(), value: wait_value, timeout: Some(timeout), val2: 0, val3: 0 }
    }

    /// Takes one step of an acquisition that stands at `phase`: makes the
    /// compare-and-swap of that phase on the word and moves on by the value
    /// observed.
    ///
    /// Returns the phase reached and, when that phase is `Parked`, the wait
    /// that the caller has to issue before the next step. An acquisition
    /// starts at `Start` and is complete at `Acquired`; a step from `Acquired`
    /// does nothing. However the wait returns, the caller goes on with the
    /// next step: only that step finds out whether the lock is free.
    pub fn lock(&mut self, phase: LockPhase) -> (step: (LockPhase, Option<FutexCall>))
        ensures
            *final(self) == *old(self),
            exists|observed: u32| step.0 == #[trigger] phase.after(observed),
            step.1 == step.0.park_request(),
    {
        let next = match phase.next_exchange() {
            Some(exchange) => {
                let observed: u32 = Self::cmpxchg(self.futex, exchange.expected, exchange.desired);
                phase.advance(observed)
            },
            None => {
                assert(phase.after(UNLOCKED) == phase);
                phase
            },
        };
        match next {
            LockPhase::Parked => {
                let request = self.wait(LOCKED_WAITERS);
                (next, Some(request))
            },
            _ => (next, None),
        }
    }

    /// Releases the lock, which the caller must own: decrements the word and,
    /// if that met contention, stores the free word over it.
    ///
    /// Returns the wake of up to `how_may_waiters` waiters that the caller
    /// has to issue after a contended release, and `None` after an
    /// uncontended one.
    pub fn unlock(&mut self, how_may_waiters: u32) -> (wake: Option<FutexCall>)
        ensures
            *final(self) == *old(self),
            exists|previous: u32| wake == #[trigger] release_request(previous, how_may_waiters),
    {
        let previous: u32 = self.futex.fetch_sub(1, Ordering::SeqCst);
        let wake = if must_wake(previous) {
            self.futex.store(UNLOCKED, Ordering::SeqCst);
            Some(self.post(how_may_waiters))
        } else {
            None
        };
        assert(wake == release_request(previous, how_may_waiters));
        wake
    }
}

} // verus!
