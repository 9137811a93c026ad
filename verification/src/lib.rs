//! A mutual-exclusion lock whose state is one 32-bit word in memory shared
//! between processes, built on the wait and wake operations of the Linux
//! futex.
//!
//! An uncontended acquire or release is a single atomic operation on the word.
//! Under contention a participant announces itself in the word and asks the
//! kernel to block it; the releasing participant asks the kernel to wake it.
//! The lock is not reentrant, knows no fairness, and is not recovered when its
//! owner dies.
//!
//! This crate holds the protocol: every read and write of the word, every
//! decision taken on a value read from it, and every request that has to be
//! put to the kernel. Issuing a request is left to the caller, so that nothing
//! here blocks. To acquire, a caller starts at [`protocol::LockPhase::Start`]
//! and calls [`rufutex::SharedFutex::lock`] until it reaches `Acquired`,
//! issuing the wait that a step returns before it takes the next one. To
//! release it calls [`rufutex::SharedFutex::unlock`] once and issues the wake
//! that it returns, if any.
//!
//! - [`word`]: the states of the word and what the atomic operations do to it.
//! - [`protocol`]: the decisions of an acquisition and of a release.
//! - [`kernel`]: the requests to the kernel.
//! - [`rufutex`]: the handle that carries the protocol out on a word.
//! - [`exclusion`]: the proof that the protocol excludes.

use vstd::prelude::*;

pub mod exclusion;
pub mod kernel;
pub mod protocol;
pub mod rufutex;
pub mod word;

verus! {

/// The word of a free lock.
pub const UNLOCKED: u32 = 0;

/// The word of a lock that is held while nobody is blocked in the kernel.
pub const LOCKED_NO_WAITERS: u32 = 1;

/// The word of a lock that is held while somebody may be blocked in the kernel.
pub const LOCKED_WAITERS: u32 = 2;

} // verus!
