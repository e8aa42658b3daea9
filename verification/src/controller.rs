//! The dwell-constrained controller: a two-state machine whose transitions
//! are additionally gated by a minimum dwell time per state.

use vstd::prelude::*;
use crate::state::BangBangState;
use crate::state::BangBangError;
use crate::machine::OnOff;
use crate::machine::StateChangeHandler;
use crate::timing::check_dwell;
use crate::timing::dwell_permits;

verus! {

/// A clock source: a caller-supplied reading of the current time as an
/// unsigned millisecond counter that may wrap around or be reset.
///
/// Nothing is assumed of the readings; the controller tolerates a counter
/// that wraps or moves backwards (see `timing::spec_assess`).
pub trait Clock {
    /// Returns the current time in milliseconds; the counter may wrap.
    fn now(&self) -> u32;
}

/// An on/off bang-bang controller that restricts how quickly its state can
/// be changed.
///
/// Each state may carry a minimum dwell time in milliseconds: a transition
/// away from a state is granted only once the time elapsed since the last
/// successful transition has reached the minimum configured for the state
/// being left. A granted request is then delegated to the underlying
/// two-state machine, whose target-state handler may still abort it.
pub struct TimeConstrainedOnOff<HOn, HOff, C> {
    bang_bang: OnOff<HOn, HOff>,
    minimum_on: Option<u64>,
    minimum_off: Option<u64>,
    last_changed: u32,
    now: C,
}

impl<HOn: StateChangeHandler, HOff: StateChangeHandler, C: Clock> TimeConstrainedOnOff<
    HOn,
    HOff,
    C,
> {
    /// The controller's current logical state.
    pub closed spec fn spec_state(&self) -> BangBangState {
        self.bang_bang.spec_state()
    }

    /// The minimum dwell time, in milliseconds, configured for state `s`:
    /// how long the controller must have remained in `s` before a request to
    /// leave it can be granted. `None` means no constraint.
    pub closed spec fn spec_minimum(&self, s: BangBangState) -> Option<u64> {
        match s {
            BangBangState::A => self.minimum_off,
            BangBangState::B => self.minimum_on,
        }
    }

    /// The clock reading recorded at the most recent successful transition
    /// (at construction, the reading taken then).
    pub closed spec fn spec_last_changed(&self) -> u32 {
        self.last_changed
    }

    /// Whether a transition handler is registered for `target`.
    pub closed spec fn spec_has_handler(&self, target: BangBangState) -> bool {
        self.bang_bang.spec_has_handler(target)
    }

    /// Creates a controller in state `B` ("on") when `on` is true and `A`
    /// ("off") otherwise, with an optional transition handler and an optional
    /// minimum dwell time (in milliseconds) per state, reading time from
    /// `now`. The clock is sampled once to start the first dwell window; no
    /// handler is invoked.
    pub fn new(
        on: bool,
        handle_on: Option<HOn>,
        handle_off: Option<HOff>,
        minimum_on: Option<u64>,
        minimum_off: Option<u64>,
        now: C,
    ) -> (controller: Self)
        ensures
            controller.spec_state() == (if on {
                BangBangState::B
            } else {
                BangBangState::A
            }),
            controller.spec_minimum(BangBangState::B) == minimum_on,
            controller.spec_minimum(BangBangState::A) == minimum_off,
            controller.spec_has_handler(BangBangState::B) == handle_on is Some,
            controller.spec_has_handler(BangBangState::A) == handle_off is Some,
    {
        let last_changed = now.now();
        TimeConstrainedOnOff {
            bang_bang: OnOff::new(on, handle_on, handle_off),
            minimum_on,
            minimum_off,
            last_changed,
            now,
        }
    }

    /// Returns the current logical state. No side effects.
    pub fn state(&self) -> (s: BangBangState)
        ensures
            s == self.spec_state(),
    {
        self.bang_bang.state()
    }

    /// Whether the controller is in the `on` state (`B`).
    pub fn is_on(&self) -> (r: bool)
        ensures
            r == (self.spec_state() == BangBangState::B),
    {
        self.bang_bang.is_on()
    }

    /// Whether the controller is in the `off` state (`A`).
    pub fn is_off(&self) -> (r: bool)
        ensures
            r == (self.spec_state() == BangBangState::A),
    {
        self.bang_bang.is_off()
    }

    /// Requests a transition to `new_state`.
    ///
    /// The controller samples its clock, assesses the time elapsed since the
    /// last successful transition, and rejects the request when a minimum
    /// dwell time is configured for the state being left and has not yet
    /// been reached — leaving the controller exactly as it was, with no
    /// handler invoked. Otherwise the request is delegated to the underlying
    /// machine, whose target-state handler may still abort it; on success
    /// the clock is sampled again and recorded as the new last-transition
    /// time, so that time spent in the handler counts against the next dwell
    /// window.
    pub fn set(&mut self, new_state: BangBangState) -> (r: Result<(), BangBangError>)
        ensures
            final(self).spec_minimum(BangBangState::A) == old(self).spec_minimum(
                BangBangState::A,
            ),
            final(self).spec_minimum(BangBangState::B) == old(self).spec_minimum(
                BangBangState::B,
            ),
            final(self).spec_has_handler(BangBangState::A) == old(self).spec_has_handler(
                BangBangState::A,
            ),
            final(self).spec_has_handler(BangBangState::B) == old(self).spec_has_handler(
                BangBangState::B,
            ),
            r is Ok ==> final(self).spec_state() == new_state,
            r is Err ==> final(self).spec_state() == old(self).spec_state()
                && final(self).spec_last_changed() == old(self).spec_last_changed(),
            r matches Err(BangBangError::StateChangeTemporarilyConstrained { from, to, code })
                ==> from == old(self).spec_state() && to == new_state && code == 0 && old(
                self,
            ).spec_minimum(old(self).spec_state()) is Some && *final(self) == *old(self),
            r matches Err(BangBangError::StateChangeRejected { .. }) ==> old(
                self,
            ).spec_has_handler(new_state),
            (forall|t: u32|
                dwell_permits(
                    old(self).spec_minimum(old(self).spec_state()),
                    old(self).spec_last_changed(),
                    t,
                )) && !old(self).spec_has_handler(new_state) ==> r is Ok,
    {
        let current_state = self.bang_bang.state();
        let t_now = self.now.now();
        let minimum = match current_state {
            BangBangState::A => self.minimum_off,
            BangBangState::B => self.minimum_on,
        };
        if !check_dwell(minimum, self.last_changed, t_now) {
            proof {
                // the sampled reading witnesses that the dwell minimum does
                // not permit leaving at every time
                assert(!dwell_permits(
                    old(self).spec_minimum(old(self).spec_state()),
                    old(self).spec_last_changed(),
                    t_now,
                ));
            }
            return Err(
                BangBangError::StateChangeTemporarilyConstrained {
                    from: current_state,
                    to: new_state,
                    code: 0,
                },
            );
        }
        match self.bang_bang.set(new_state) {
            Ok(_) => {
                self.last_changed = self.now.now();
                Ok(())
            },
            Err(e) => Err(e),
        }
    }

    /// Requests a toggle: a transition to the state that is not current.
    ///
    /// Equivalent to `set` with the opposite of the current state as target;
    /// all of `set`'s guarantees apply with that target.
    pub fn bang(&mut self) -> (r: Result<(), BangBangError>)
        ensures
            final(self).spec_minimum(BangBangState::A) == old(self).spec_minimum(
                BangBangState::A,
            ),
            final(self).spec_minimum(BangBangState::B) == old(self).spec_minimum(
                BangBangState::B,
            ),
            final(self).spec_has_handler(BangBangState::A) == old(self).spec_has_handler(
                BangBangState::A,
            ),
            final(self).spec_has_handler(BangBangState::B) == old(self).spec_has_handler(
                BangBangState::B,
            ),
            r is Ok ==> final(self).spec_state() == old(self).spec_state().spec_opposite(),
            r is Err ==> final(self).spec_state() == old(self).spec_state()
                && final(self).spec_last_changed() == old(self).spec_last_changed(),
            r matches Err(BangBangError::StateChangeTemporarilyConstrained { from, to, code })
                ==> from == old(self).spec_state() && to == old(
                self,
            ).spec_state().spec_opposite() && code == 0 && old(self).spec_minimum(
                old(self).spec_state(),
            ) is Some && *final(self) == *old(self),
            r matches Err(BangBangError::StateChangeRejected { .. }) ==> old(
                self,
            ).spec_has_handler(old(self).spec_state().spec_opposite()),
            (forall|t: u32|
                dwell_permits(
                    old(self).spec_minimum(old(self).spec_state()),
                    old(self).spec_last_changed(),
                    t,
                )) && !old(self).spec_has_handler(old(self).spec_state().spec_opposite())
                ==> r is Ok,
    {
        let target = self.bang_bang.state().opposite();
        self.set(target)
    }
}

/// The state reached after `n` successful toggle requests starting from
/// `initial`: each successful `bang` moves the state to the opposite of the
/// state before it (see `bang`'s guarantees).
pub open spec fn state_after_bangs(initial: BangBangState, n: nat) -> BangBangState
    decreases n,
{
    if n == 0 {
        initial
    } else {
        state_after_bangs(initial, (n - 1) as nat).spec_opposite()
    }
}

/// Law: the state strictly alternates over successful toggles, starting from
/// the constructed initial state — after an even number of toggles it is the
/// initial state, after an odd number its opposite, and every toggle changes
/// it. With no dwell minimum and no handler configured, every `bang` is
/// guaranteed to succeed (see `bang`'s contract), so the law then covers
/// every sequence of `bang` calls.
pub proof fn lemma_bang_alternates(initial: BangBangState, n: nat)
    ensures
        state_after_bangs(initial, n) == (if n % 2 == 0 {
            initial
        } else {
            initial.spec_opposite()
        }),
        n > 0 ==> state_after_bangs(initial, n) != state_after_bangs(initial, (n - 1) as nat),
    decreases n,
{
    if n > 0 {
        lemma_bang_alternates(initial, (n - 1) as nat);
    }
}

} // verus!
