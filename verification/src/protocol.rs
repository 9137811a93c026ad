//! The decisions of the lock protocol.
//!
//! An acquisition is a walk through [`LockPhase`]. In every phase but the last
//! the participant makes one compare-and-swap on the word, and the value that
//! the operation observed decides the next phase. A release is one atomic
//! decrement, and the value that it observed decides whether anybody has to be
//! woken. The functions here take the observed value as an argument, so they
//! say what the protocol does for every value that the word can hold.

use vstd::prelude::*;
use crate::kernel::{wait_call, wake_call, FutexCall};
use crate::word::{after_decrement, after_exchange};
use crate::{LOCKED_NO_WAITERS, LOCKED_WAITERS, UNLOCKED};

verus! {

/// The operands of one compare-and-swap.
#[derive(Clone, Copy, Debug, PartialEq, Eq, Hash, Structural)]
pub struct Exchange {
    /// The value that the word must hold for the swap to happen.
    pub expected: u32,
    /// The value that the swap stores.
    pub desired: u32,
}

/// Where an acquisition stands between two steps.
#[derive(Clone, Copy, Debug, PartialEq, Eq, Hash, Structural)]
pub enum LockPhase {
    /// Nothing was tried yet. The next step takes the lock if it is free, and
    /// leaves no sign of a waiter.
    Start,
    /// The lock was seen held with no waiter announced. The next step
    /// announces one.
    Announce,
    /// The lock is held and a waiter is announced. The participant blocks in
    /// the kernel for as long as the word says so, and then takes the next
    /// step, which tries for the lock again.
    Parked,
    /// The lock was seen free while a waiter was being announced. The next
    /// step tries for the lock again, at once.
    Retry,
    /// The participant owns the lock.
    Acquired,
}

impl LockPhase {
    /// The compare-and-swap that the step out of this phase makes; none once
    /// the lock is owned.
    pub open spec fn exchange(self) -> Option<Exchange> {
        match self {
            LockPhase::Start => Some(Exchange { expected: UNLOCKED, desired: LOCKED_NO_WAITERS }),
            LockPhase::Announce => Some(
                Exchange { expected: LOCKED_NO_WAITERS, desired: LOCKED_WAITERS },
            ),
            LockPhase::Parked | LockPhase::Retry => Some(
                Exchange { expected: UNLOCKED, desired: LOCKED_WAITERS },
            ),
            LockPhase::Acquired => None,
        }
    }

    /// The phase that follows this one when the compare-and-swap of the step
    /// observed `observed`.
    ///
    /// An attempt on the lock wins exactly when it observed the free word.
    /// When it loses to a word that already announces waiters the participant
    /// parks at once; when it loses to any other word it announces itself
    /// first. An announcement that finds the word free leads to a new attempt,
    /// every other one to parking.
    pub open spec fn after(self, observed: u32) -> LockPhase {
        match self {
            LockPhase::Start | LockPhase::Parked | LockPhase::Retry => {
                if observed == UNLOCKED {
                    LockPhase::Acquired
                } else if observed == LOCKED_WAITERS {
                    LockPhase::Parked
                } else {
                    LockPhase::Announce
                }
            },
            LockPhase::Announce => {
                if observed == UNLOCKED {
                    LockPhase::Retry
                } else {
                    LockPhase::Parked
                }
            },
            LockPhase::Acquired => LockPhase::Acquired,
        }
    }

    /// Whether the participant has to block in the kernel before the next
    /// step.
    pub open spec fn parks(self) -> bool {
        self is Parked
    }

    /// The request that a participant who reached this phase puts to the
    /// kernel before its next step: when parked, to block while the word still
    /// announces waiters, with no limit of time; otherwise none.
    pub open spec fn park_request(self) -> Option<FutexCall> {
        if self.parks() {
            Some(wait_call(LOCKED_WAITERS, None))
        } else {
            None
        }
    }

    /// Computes the compare-and-swap of the step out of this phase.
    pub fn next_exchange(self) -> (exchange: Option<Exchange>)
        ensures
            exchange == self.exchange(),
    {
        match self {
            LockPhase::Start => Some(Exchange { expected: UNLOCKED, desired: LOCKED_NO_WAITERS }),
            LockPhase::Announce => Some(
                Exchange { expected: LOCKED_NO_WAITERS, desired: LOCKED_WAITERS },
            ),
            LockPhase::Parked => Some(Exchange { expected: UNLOCKED, desired: LOCKED_WAITERS }),
            LockPhase::Retry => Some(Exchange { expected: UNLOCKED, desired: LOCKED_WAITERS }),
            LockPhase::Acquired => None,
        }
    }

    /// Computes the phase that follows this one from the value that the
    /// compare-and-swap of the step observed.
    pub fn advance(self, observed: u32) -> (next: LockPhase)
        ensures
            next == self.after(observed),
    {
        match self {
            LockPhase::Announce => {
                if observed == UNLOCKED {
                    LockPhase::Retry
                } else {
                    LockPhase::Parked
                }
            },
            LockPhase::Acquired => LockPhase::Acquired,
            _ => {
                if observed == UNLOCKED {
                    LockPhase::Acquired
                } else if observed == LOCKED_WAITERS {
                    LockPhase::Parked
                } else {
                    LockPhase::Announce
                }
            },
        }
    }
}

/// Whether a release whose decrement observed `previous` met contention: the
/// word did not say "held, nobody waiting", so the decrement alone did not
/// free the lock and somebody may be blocked.
pub open spec fn release_contended(previous: u32) -> bool {
    previous != LOCKED_NO_WAITERS
}

/// The request that a release puts to the kernel when its decrement observed
/// `previous`: under contention, to wake up to `count` waiters; otherwise none,
/// and the release has not entered the kernel at all.
pub open spec fn release_request(previous: u32, count: u32) -> Option<FutexCall> {
    if release_contended(previous) {
        Some(wake_call(count))
    } else {
        None
    }
}

/// Decides from the value that the decrement of a release observed whether the
/// release has to store the free word and wake waiters.
pub fn must_wake(previous: u32) -> (contended: bool)
    ensures
        contended == release_contended(previous),
{
    previous != LOCKED_NO_WAITERS
}

/// An acquisition is completed only by a step that observed the free word,
/// and that step has stored a locked word in its place.
pub proof fn acquired_only_from_free(phase: LockPhase, observed: u32)
    requires
        !(phase is Acquired),
        phase.after(observed) is Acquired,
    ensures
        observed == UNLOCKED,
        phase.exchange() matches Some(exchange) && exchange.expected == UNLOCKED
            && after_exchange(observed, exchange.expected, exchange.desired) != UNLOCKED,
{
}

/// On a word that holds one of the three states, a step leads to parking only
/// if it leaves the word announcing waiters: nobody blocks behind a word from
/// which a release could not tell that somebody may be blocked.
pub proof fn parked_only_behind_announcement(phase: LockPhase, word: u32)
    requires
        word <= LOCKED_WAITERS,
        phase.after(word) is Parked,
    ensures
        phase.exchange() matches Some(exchange) && after_exchange(
            word,
            exchange.expected,
            exchange.desired,
        ) == LOCKED_WAITERS,
{
}

/// A release asks nothing of the kernel exactly when its decrement observed
/// "held, nobody waiting", and that is exactly when the decrement alone has
/// left the free word.
pub proof fn uncontended_release_is_one_decrement(previous: u32, count: u32)
    ensures
        release_request(previous, count) is None <==> previous == LOCKED_NO_WAITERS,
        release_request(previous, count) is None <==> after_decrement(previous) == UNLOCKED,
        release_request(previous, count) is Some ==> release_request(previous, count) == Some(
            wake_call(count),
        ),
{
}

} // verus!
