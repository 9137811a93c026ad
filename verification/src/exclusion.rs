//! Mutual exclusion.
//!
//! The protocol is modelled as a system of participants, threads of any number
//! of processes, that take turns on one word. A turn is one atomic operation
//! on the word together with the decision that the protocol takes on the value
//! observed: the compare-and-swap of one step of `SharedFutex::lock`, or the
//! decrement of `SharedFutex::unlock`, or the store that follows a contended
//! decrement. The turns of different participants interleave in any order.
//!
//! Waiting in the kernel is no turn of its own. The kernel may let a parked
//! participant go at any moment, so the model lets it take its next turn
//! whenever it is scheduled; what is proved of every order of turns holds of
//! the orders that the kernel allows.
//!
//! The model covers `lock` and `unlock` used as they must be: a participant
//! asks for the lock only while it does not own it, and only the owner
//! releases. Raw stores into the word are outside of it.

use vstd::prelude::*;
use crate::protocol::{release_contended, LockPhase};
use crate::word::{after_decrement, after_exchange, exchange_outcome, previous, LockState};
use crate::UNLOCKED;

verus! {

/// Where a participant stands.
pub enum Participant {
    /// Outside the lock: it neither owns it nor asks for it.
    Idle,
    /// Inside an acquisition, at this phase. At `Acquired` the acquisition is
    /// complete and the participant owns the lock.
    Locking(LockPhase),
    /// Inside a release that met contention: the participant has decremented
    /// the word and has yet to store the free word.
    Releasing,
}

impl Participant {
    /// Whether the participant owns the lock: from the turn that completes
    /// its acquisition to the turn of its release that frees the word.
    pub open spec fn owns(self) -> bool {
        self == Participant::Locking(LockPhase::Acquired) || self is Releasing
    }
}

/// The word and everybody who uses it.
pub struct System {
    pub word: u32,
    pub participants: Seq<Participant>,
}

/// One turn.
pub enum Turn {
    /// A new participant arrives, idle.
    Join,
    /// An idle participant calls `lock`.
    Begin(int),
    /// A participant inside an acquisition makes the compare-and-swap of its
    /// phase.
    Attempt(int),
    /// The owner calls `unlock` and decrements the word.
    Decrement(int),
    /// A participant inside a contended release stores the free word.
    Free(int),
}

impl System {
    /// Whether `i` is a participant that owns the lock.
    pub open spec fn owner(self, i: int) -> bool {
        0 <= i < self.participants.len() && self.participants[i].owns()
    }

    /// No two participants own the lock.
    pub open spec fn at_most_one_owner(self) -> bool {
        forall|i: int, j: int|
            #![trigger self.owner(i), self.owner(j)]
            self.owner(i) && self.owner(j) ==> i == j
    }

    /// Nobody owns the lock.
    pub open spec fn unowned(self) -> bool {
        forall|i: int| !#[trigger] self.owner(i)
    }

    /// No two participants own the lock, and nobody owns it while the word
    /// says it is free.
    pub open spec fn exclusive(self) -> bool {
        self.at_most_one_owner() && (self.word == UNLOCKED ==> self.unowned())
    }

    /// The word holds one of the three states, and it holds the free one
    /// exactly when nobody owns the lock.
    pub open spec fn coherent(self) -> bool {
        LockState::of_word(self.word) is Some && (self.word == UNLOCKED <==> self.unowned())
    }

    /// A system in which everybody is idle. The word may hold anything.
    pub open spec fn idle(self) -> bool {
        forall|i: int| 0 <= i < self.participants.len() ==> self.participants[i] is Idle
    }

    /// The system in which participant `i` stands at `to` and the word is
    /// `word`, all else as in this one.
    pub open spec fn with(self, i: int, to: Participant, word: u32) -> System {
        System { word, participants: self.participants.update(i, to) }
    }

    /// The system after `turn`, if `turn` can be taken in this one.
    pub open spec fn take(self, turn: Turn) -> Option<System> {
        match turn {
            Turn::Join => Some(
                System { word: self.word, participants: self.participants.push(Participant::Idle) },
            ),
            Turn::Begin(i) => {
                if 0 <= i < self.participants.len() && self.participants[i] is Idle {
                    Some(self.with(i, Participant::Locking(LockPhase::Start), self.word))
                } else {
                    None
                }
            },
            Turn::Attempt(i) => {
                if 0 <= i < self.participants.len() && self.participants[i] is Locking
                    && self.participants[i]->Locking_0.exchange() is Some {
                    let phase = self.participants[i]->Locking_0;
                    let exchange = phase.exchange()->Some_0;
                    let observed = previous(exchange_outcome(self.word, exchange.expected));
                    Some(
                        self.with(
                            i,
                            Participant::Locking(phase.after(observed)),
                            after_exchange(self.word, exchange.expected, exchange.desired),
                        ),
                    )
                } else {
                    None
                }
            },
            Turn::Decrement(i) => {
                if self.owner(i) && !(self.participants[i] is Releasing) {
                    let to = if release_contended(self.word) {
                        Participant::Releasing
                    } else {
                        Participant::Idle
                    };
                    Some(self.with(i, to, after_decrement(self.word)))
                } else {
                    None
                }
            },
            Turn::Free(i) => {
                if 0 <= i < self.participants.len() && self.participants[i] is Releasing {
                    Some(self.with(i, Participant::Idle, UNLOCKED))
                } else {
                    None
                }
            },
        }
    }

    /// Whether one turn leads from this system to `next`.
    pub open spec fn steps_to(self, next: System) -> bool {
        exists|turn: Turn| #[trigger] self.take(turn) == Some(next)
    }
}

/// A history of the system: it begins with everybody idle, and every state but
/// the first comes from the one before it by one turn.
pub open spec fn history(states: Seq<System>) -> bool {
    &&& states.len() > 0
    &&& states[0].idle()
    &&& forall|k: int| 0 < k < states.len() ==> (#[trigger] states[k - 1]).steps_to(states[k])
}

/// While everybody is idle nobody owns the lock, whatever the word holds.
pub proof fn idle_is_exclusive(system: System)
    requires
        system.idle(),
    ensures
        system.exclusive(),
        system.unowned(),
{
}

/// A turn keeps the lock exclusive.
pub proof fn turn_keeps_exclusive(before: System, turn: Turn)
    requires
        before.exclusive(),
        before.take(turn) is Some,
    ensures
        before.take(turn)->Some_0.exclusive(),
{
    let after = before.take(turn)->Some_0;
    match turn {
        Turn::Join => {
            assert forall|j: int| after.owner(j) implies before.owner(j) by {}
        },
        Turn::Begin(i) => {
            assert forall|j: int| after.owner(j) implies before.owner(j) by {}
        },
        Turn::Attempt(i) => {
            // Nobody but `i` changes, and `i` becomes the owner only on the
            // free word, which nobody owned.
            assert forall|j: int| j != i && after.owner(j) implies before.owner(j) by {}
        },
        Turn::Decrement(i) => {
            // `i` was the one owner. The word it found was not free, so the
            // decrement frees it only from "held, nobody waiting", and then
            // `i` is owner no more.
            assert(before.owner(i));
            assert forall|j: int| after.owner(j) implies before.owner(j) by {}
        },
        Turn::Free(i) => {
            // `i` was the one owner and is owner no more.
            assert(before.owner(i));
            assert forall|j: int| after.owner(j) implies before.owner(j) && j != i by {}
        },
    }
}

/// A turn keeps the word in step with ownership.
pub proof fn turn_keeps_coherent(before: System, turn: Turn)
    requires
        before.exclusive(),
        before.coherent(),
        before.take(turn) is Some,
    ensures
        before.take(turn)->Some_0.coherent(),
{
    let after = before.take(turn)->Some_0;
    turn_keeps_exclusive(before, turn);
    match turn {
        Turn::Join => {
            assert forall|i: int| after.owner(i) == before.owner(i) by {}
        },
        Turn::Begin(i) => {
            assert forall|j: int| after.owner(j) == before.owner(j) by {}
        },
        Turn::Attempt(i) => {
            if after.owner(i) && !before.owner(i) {
            } else {
                assert forall|j: int| after.owner(j) == before.owner(j) by {}
            }
        },
        Turn::Decrement(i) => {
            assert(before.owner(i));
            if release_contended(before.word) {
                assert(after.owner(i));
            }
        },
        Turn::Free(i) => {
            assert(before.owner(i));
        },
    }
}

/// Mutual exclusion: in every history, with any number of participants and
/// whatever the word held at the start, no two participants ever own the lock
/// at the same time.
pub proof fn mutual_exclusion(states: Seq<System>)
    requires
        history(states),
    ensures
        forall|k: int| 0 <= k < states.len() ==> (#[trigger] states[k]).at_most_one_owner(),
{
    assert forall|k: int| 0 <= k < states.len() implies (#[trigger] states[k]).at_most_one_owner() by {
        history_is_exclusive(states, k);
    }
}

/// Every state of a history is exclusive.
pub proof fn history_is_exclusive(states: Seq<System>, k: int)
    requires
        history(states),
        0 <= k < states.len(),
    ensures
        states[k].exclusive(),
    decreases k,
{
    if k == 0 {
        idle_is_exclusive(states[0]);
    } else {
        history_is_exclusive(states, k - 1);
        let before = states[k - 1];
        assert(before.steps_to(states[k]));
        let turn = choose|turn: Turn| #[trigger] before.take(turn) == Some(states[k]);
        turn_keeps_exclusive(before, turn);
    }
}

/// In every history that begins with the free word, the word only ever holds
/// one of the three states, and it holds the free one exactly when nobody owns
/// the lock.
pub proof fn word_tracks_ownership(states: Seq<System>)
    requires
        history(states),
        states[0].word == UNLOCKED,
    ensures
        forall|k: int| 0 <= k < states.len() ==> (#[trigger] states[k]).coherent(),
{
    assert forall|k: int| 0 <= k < states.len() implies (#[trigger] states[k]).coherent() by {
        history_is_coherent(states, k);
    }
}

/// Every state of a history that begins with the free word is coherent.
pub proof fn history_is_coherent(states: Seq<System>, k: int)
    requires
        history(states),
        states[0].word == UNLOCKED,
        0 <= k < states.len(),
    ensures
        states[k].coherent(),
    decreases k,
{
    if k == 0 {
        idle_is_exclusive(states[0]);
    } else {
        history_is_coherent(states, k - 1);
        history_is_exclusive(states, k - 1);
        let before = states[k - 1];
        assert(before.steps_to(states[k]));
        let turn = choose|turn: Turn| #[trigger] before.take(turn) == Some(states[k]);
        turn_keeps_coherent(before, turn);
    }
}

} // verus!
