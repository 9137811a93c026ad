//! The lock word: the values it takes, how they are encoded, and what the
//! atomic operations of the protocol do to it.

use vstd::prelude::*;
use crate::{LOCKED_NO_WAITERS, LOCKED_WAITERS, UNLOCKED};

verus! {

/// A state of the lock.
///
/// Every process that shares the word has to agree on the encoding, so it is
/// fixed: 0, 1 and 2, in the order of the variants.
#[derive(Clone, Copy, Debug, PartialEq, Eq, Hash, Structural)]
pub enum LockState {
    /// Free.
    Unlocked,
    /// Held, and nobody is blocked in the kernel.
    LockedNoWaiters,
    /// Held, and somebody may be blocked in the kernel.
    LockedWaiters,
}

impl LockState {
    /// The word that stands for this state.
    pub open spec fn word(self) -> u32 {
        match self {
            LockState::Unlocked => UNLOCKED,
            LockState::LockedNoWaiters => LOCKED_NO_WAITERS,
            LockState::LockedWaiters => LOCKED_WAITERS,
        }
    }

    /// The state that a word stands for, if it stands for one.
    pub open spec fn of_word(word: u32) -> Option<LockState> {
        if word == UNLOCKED {
            Some(LockState::Unlocked)
        } else if word == LOCKED_NO_WAITERS {
            Some(LockState::LockedNoWaiters)
        } else if word == LOCKED_WAITERS {
            Some(LockState::LockedWaiters)
        } else {
            None
        }
    }

    /// Encodes the state as the word that is stored in shared memory.
    pub fn encode(self) -> (word: u32)
        ensures
            word == self.word(),
    {
        match self {
            LockState::Unlocked => UNLOCKED,
            LockState::LockedNoWaiters => LOCKED_NO_WAITERS,
            LockState::LockedWaiters => LOCKED_WAITERS,
        }
    }

    /// Decodes a word read from shared memory; `None` for a word that the
    /// protocol never stores.
    pub fn decode(word: u32) -> (state: Option<LockState>)
        ensures
            state == Self::of_word(word),
    {
        if word == UNLOCKED {
            Some(LockState::Unlocked)
        } else if word == LOCKED_NO_WAITERS {
            Some(LockState::LockedNoWaiters)
        } else if word == LOCKED_WAITERS {
            Some(LockState::LockedWaiters)
        } else {
            None
        }
    }
}

/// The encoding is exactly 0, 1, 2, and decoding undoes it: every state is
/// recovered from its word, and a word decodes only if it is one of the three.
pub proof fn encoding_is_fixed(state: LockState, word: u32)
    ensures
        LockState::Unlocked.word() == 0,
        LockState::LockedNoWaiters.word() == 1,
        LockState::LockedWaiters.word() == 2,
        LockState::of_word(state.word()) == Some(state),
        LockState::of_word(word) is Some <==> word <= 2,
        LockState::of_word(word) matches Some(s) ==> s.word() == word,
{
}

/// What a compare-and-swap that expects `expected` hands back when it meets
/// `word`: `Ok` when it replaced the word, `Err` when it left it, and in both
/// cases the word that it met.
pub open spec fn exchange_outcome(word: u32, expected: u32) -> Result<u32, u32> {
    if word == expected {
        Ok(word)
    } else {
        Err(word)
    }
}

/// The word that a compare-and-swap of `expected` for `desired` leaves when it
/// meets `word`.
pub open spec fn after_exchange(word: u32, expected: u32, desired: u32) -> u32 {
    if word == expected {
        desired
    } else {
        word
    }
}

/// The word that an atomic decrement by one leaves when it meets `word`. Like
/// the hardware operation it wraps around at zero.
pub open spec fn after_decrement(word: u32) -> u32 {
    if word == 0 {
        u32::MAX
    } else {
        (word - 1) as u32
    }
}

/// The value that a compare-and-swap observed, whether or not it replaced it.
pub open spec fn previous(outcome: Result<u32, u32>) -> u32 {
    match outcome {
        Ok(word) => word,
        Err(word) => word,
    }
}

/// The value that a compare-and-swap observed before its attempt, taken from
/// what the atomic operation handed back.
pub fn previous_value(outcome: Result<u32, u32>) -> (word: u32)
    ensures
        word == previous(outcome),
{
    match outcome {
        Ok(word) => word,
        Err(word) => word,
    }
}

/// Compare-and-swap on a word equal to `expected` returns `expected` and leaves
/// `desired`; on any other word it returns that word and leaves it unchanged.
pub proof fn compare_and_swap_law(word: u32, expected: u32, desired: u32)
    ensures
        word == expected ==> previous(exchange_outcome(word, expected)) == expected
            && after_exchange(word, expected, desired) == desired,
        word != expected ==> previous(exchange_outcome(word, expected)) == word
            && after_exchange(word, expected, desired) == word,
        exchange_outcome(word, expected) is Ok <==> word == expected,
{
}

} // verus!
