//! Requests to the kernel's wait and wake operations.
//!
//! A request is the list of arguments of one futex system call, all but the
//! number of the call and the address of the word, which the caller supplies.
//! Nothing in this module enters the kernel.

use vstd::prelude::*;

verus! {

/// The number of the wait operation on Linux.
pub open spec fn wait_operation() -> i32 {
    0
}

/// The number of the wake operation on Linux.
pub open spec fn wake_operation() -> i32 {
    1
}

/// An upper bound on the time spent blocked, relative to the moment of the
/// request: whole seconds and the nanoseconds beyond them.
#[derive(Clone, Copy, Debug, PartialEq, Eq, Hash, Structural)]
pub struct Timeout {
    pub seconds: i64,
    pub nanoseconds: i64,
}

/// The arguments of one futex system call on the lock word.
#[derive(Clone, Copy, Debug, PartialEq, Eq, Hash)]
pub struct FutexCall {
    /// The number of the operation.
    pub op: i32,
    /// For a wait the value that the word must still hold for the caller to
    /// block; for a wake the number of blocked callers to wake at most.
    pub value: u32,
    /// For a wait the longest time to stay blocked; `None` for no limit.
    pub timeout: Option<Timeout>,
    /// The fifth argument of the call, which wait and wake leave at zero.
    pub val2: u32,
    /// The sixth argument of the call, which wait and wake leave at zero.
    pub val3: u32,
}

/// The request to block while the word equals `expected`, for `timeout` at
/// most.
pub open spec fn wait_call(expected: u32, timeout: Option<Timeout>) -> FutexCall {
    FutexCall { op: wait_operation(), value: expected, timeout, val2: 0, val3: 0 }
}

/// The request to wake up to `count` callers blocked on the word.
pub open spec fn wake_call(count: u32) -> FutexCall {
    FutexCall { op: wake_operation(), value: count, timeout: None, val2: 0, val3: 0 }
}

/// The number of the wait operation, as `libc::FUTEX_WAIT` gives it. On Linux
/// the constant is 0; this is taken on trust from libc.
#[verifier::external_body]
pub(crate) fn futex_wait() -> (op: i32)
    ensures
        op == wait_operation(),
{
    libc::FUTEX_WAIT
}

/// The number of the wake operation, as `libc::FUTEX_WAKE` gives it. On Linux
/// the constant is 1; this is taken on trust from libc.
#[verifier::external_body]
pub(crate) fn futex_wake() -> (op: i32)
    ensures
        op == wake_operation(),
{
    libc::FUTEX_WAKE
}

} // verus!
