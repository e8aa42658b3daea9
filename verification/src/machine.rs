//! The unconstrained two-state machine: a current state plus an optional
//! caller-supplied transition handler per target state.

use vstd::prelude::*;
use crate::state::BangBangState;
use crate::state::BangBangError;

verus! {

/// A transition handler: a caller-supplied procedure invoked immediately
/// before a machine commits a transition to the state the handler is
/// registered for. Returning `Err(code)` aborts that transition.
///
/// Nothing is assumed of a handler beyond its signature: it may mutate its
/// own captured state and may answer differently on every call.
pub trait StateChangeHandler {
    /// Called before the machine commits to the handler's state. `Err(code)`
    /// aborts the transition, which is then reported as a rejection carrying
    /// `code`.
    fn handle(&mut self) -> Result<(), u8>;
}

/// A two-state machine with an optional transition handler per target state.
///
/// `set` consults the target state's handler (when one is registered) before
/// committing; a handler failure leaves the state unchanged.
pub struct OnOff<HOn, HOff> {
    state: BangBangState,
    handle_on: Option<HOn>,
    handle_off: Option<HOff>,
}

impl<HOn: StateChangeHandler, HOff: StateChangeHandler> OnOff<HOn, HOff> {
    /// The machine's current logical state.
    pub closed spec fn spec_state(&self) -> BangBangState {
        self.state
    }

    /// Whether a transition handler is registered for `target`.
    pub closed spec fn spec_has_handler(&self, target: BangBangState) -> bool {
        match target {
            BangBangState::A => self.handle_off is Some,
            BangBangState::B => self.handle_on is Some,
        }
    }

    /// Creates a machine in state `B` when `on` is true and `A` otherwise,
    /// holding the given handlers. No handler is invoked.
    pub fn new(on: bool, handle_on: Option<HOn>, handle_off: Option<HOff>) -> (machine: Self)
        ensures
            machine.spec_state() == (if on {
                BangBangState::B
            } else {
                BangBangState::A
            }),
            machine.spec_has_handler(BangBangState::B) == handle_on is Some,
            machine.spec_has_handler(BangBangState::A) == handle_off is Some,
    {
        OnOff {
            state: if on {
                BangBangState::B
            } else {
                BangBangState::A
            },
            handle_on,
            handle_off,
        }
    }

    /// Returns the current logical state. No side effects.
    pub fn state(&self) -> (s: BangBangState)
        ensures
            s == self.spec_state(),
    {
        self.state
    }

    /// Whether the machine is in state `B` ("on").
    pub fn is_on(&self) -> (r: bool)
        ensures
            r == (self.spec_state() == BangBangState::B),
    {
        match self.state {
            BangBangState::B => true,
            BangBangState::A => false,
        }
    }

    /// Whether the machine is in state `A` ("off").
    pub fn is_off(&self) -> (r: bool)
        ensures
            r == (self.spec_state() == BangBangState::A),
    {
        match self.state {
            BangBangState::B => false,
            BangBangState::A => true,
        }
    }

    /// Requests a transition to `new_state`: invokes the handler registered
    /// for `new_state` (when one is) and commits exactly when the handler
    /// does not report failure.
    pub fn set(&mut self, new_state: BangBangState) -> (r: Result<(), BangBangError>)
        ensures
            final(self).spec_has_handler(BangBangState::A)
                == old(self).spec_has_handler(BangBangState::A),
            final(self).spec_has_handler(BangBangState::B)
                == old(self).spec_has_handler(BangBangState::B),
            r is Ok ==> final(self).spec_state() == new_state,
            r is Err ==> final(self).spec_state() == old(self).spec_state(),
            r matches Err(e) ==> (e matches BangBangError::StateChangeRejected { .. })
                && old(self).spec_has_handler(new_state),
            !old(self).spec_has_handler(new_state) ==> r is Ok,
    {
        let outcome: Result<(), u8> = match new_state {
            BangBangState::B => {
                match self.handle_on.take() {
                    Option::Some(mut h) => {
                        let out = h.handle();
                        self.handle_on = Option::Some(h);
                        out
                    },
                    Option::None => Ok(()),
                }
            },
            BangBangState::A => {
                match self.handle_off.take() {
                    Option::Some(mut h) => {
                        let out = h.handle();
                        self.handle_off = Option::Some(h);
                        out
                    },
                    Option::None => Ok(()),
                }
            },
        };
        self.apply_handler_outcome(new_state, outcome)
    }

    /// Applies a handler's outcome to a transition request: success commits
    /// the machine to `new_state`, while `Err(code)` leaves the machine
    /// exactly as it was and reports a rejection carrying `code`.
    pub fn apply_handler_outcome(
        &mut self,
        new_state: BangBangState,
        outcome: Result<(), u8>,
    ) -> (r: Result<(), BangBangError>)
        ensures
            outcome is Ok ==> r is Ok && final(self).spec_state() == new_state
                && final(self).spec_has_handler(BangBangState::A) == old(self).spec_has_handler(
                BangBangState::A,
            ) && final(self).spec_has_handler(BangBangState::B) == old(self).spec_has_handler(
                BangBangState::B,
            ),
            outcome matches Err(code) ==> r == Err::<(), BangBangError>(
                BangBangError::StateChangeRejected { code },
            ) && *final(self) == *old(self),
    {
        match outcome {
            Ok(_) => {
                self.state = new_state;
                Ok(())
            },
            Err(code) => Err(BangBangError::StateChangeRejected { code }),
        }
    }
}

} // verus!
