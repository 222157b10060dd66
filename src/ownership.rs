use vstd::prelude::*;
use crate::blink::{Action, Event, Mode, next};

verus! {

/// Proof of exclusive ownership of a peripheral set. Only a guard hands one out.
#[derive(Debug)]
pub struct Token {
    granted: (),
}

/// The peripheral set was already taken in this boot; the firmware halts on it.
#[derive(Clone, Copy, Debug, PartialEq, Eq, Structural)]
pub struct AlreadyTaken;

/// A take-once guard over one peripheral set: the first `take` succeeds, every
/// later one fails.
#[derive(Debug)]
pub struct TakeOnce {
    taken: bool,
}

impl View for TakeOnce {
    /// Whether the token has been handed out.
    type V = bool;

    closed spec fn view(&self) -> bool {
        self.taken
    }
}

/// Outcome of a take on a guard in state `taken`: whether it succeeds, and
/// the state afterwards.
pub open spec fn take_outcome(taken: bool) -> (bool, bool) {
    (!taken, true)
}

impl TakeOnce {
    /// A guard at boot, its token not yet handed out.
    pub fn new() -> (r: TakeOnce)
        ensures
            r@ == false,
    {
        TakeOnce { taken: false }
    }

    /// Whether the token has been handed out.
    pub fn is_taken(&self) -> (r: bool)
        ensures
            r == self@,
    {
        self.taken
    }

    /// Hands out the token the first time, and fails on every later call.
    pub fn take(&mut self) -> (r: Result<Token, AlreadyTaken>)
        ensures
            r.is_ok() == take_outcome(old(self)@).0,
            final(self)@ == take_outcome(old(self)@).1,
    {
        if self.taken {
            Err(AlreadyTaken)
        } else {
            self.taken = true;
            Ok(Token { granted: () })
        }
    }
}

/// A token is handed out at most once per boot: a fresh guard grants the
/// first take, and after any take, whether it succeeded or not, the next one
/// fails; the controller answers such a failed acquisition by halting.
pub proof fn acquired_at_most_once(taken: bool, other: bool, delay_ms: u32)
    ensures
        take_outcome(false).0,
        !take_outcome(take_outcome(taken).1).0,
        next(Mode::Initializing, Event::Acquired { core: take_outcome(true).0, device: other }, delay_ms)
            == (Mode::Faulted, Action::Halt),
        next(Mode::Initializing, Event::Acquired { core: other, device: take_outcome(true).0 }, delay_ms)
            == (Mode::Faulted, Action::Halt),
{
}

} // verus!
