//! The two logical states of the controller and the error values a
//! transition request can report.

use vstd::prelude::*;

verus! {

/// The two logical states of a bang-bang controller.
///
/// `A` is the "off" state and `B` is the "on" state; callers may attach any
/// binary meaning they like, as long as it is used consistently.
#[derive(Clone, Copy, Debug, PartialEq, Eq, Structural)]
pub enum BangBangState {
    /// The "off" state.
    A,
    /// The "on" state.
    B,
}

impl BangBangState {
    /// The state a toggle request moves towards: the one that is not `self`.
    pub open spec fn spec_opposite(self) -> BangBangState {
        match self {
            BangBangState::A => BangBangState::B,
            BangBangState::B => BangBangState::A,
        }
    }

    /// Returns the state that is not `self`.
    pub fn opposite(self) -> (r: BangBangState)
        ensures
            r == self.spec_opposite(),
    {
        match self {
            BangBangState::A => BangBangState::B,
            BangBangState::B => BangBangState::A,
        }
    }
}

/// Why a transition request failed.
///
/// Both conditions are recoverable: the controller is left exactly as it was
/// before the rejected request.
#[derive(Clone, Copy, Debug, PartialEq, Eq, Structural)]
pub enum BangBangError {
    /// The controller has not yet dwelt in its current state for the
    /// configured minimum time. Carries the state being left, the state that
    /// was requested, and a diagnostic code reserved for refinement.
    StateChangeTemporarilyConstrained {
        /// The state the controller was in when the request was rejected.
        from: BangBangState,
        /// The state the rejected request asked for.
        to: BangBangState,
        /// A diagnostic code; currently always zero.
        code: u8,
    },
    /// A transition handler reported failure, aborting the transition.
    /// Carries a code chosen by the handler.
    StateChangeRejected {
        /// A code chosen by the rejecting handler.
        code: u8,
    },
}

} // verus!
