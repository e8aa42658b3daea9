//! Wrap-tolerant elapsed-time assessment and the dwell-time decision.

use vstd::prelude::*;

verus! {

/// The elapsed time, in milliseconds, between two readings of a wrapping
/// millisecond counter.
///
/// When `later >= prior` this is the exact difference. When `later < prior`
/// the counter has wrapped (or was reset to a smaller value); the true wrap
/// width is not knowable from the two samples alone, so the elapsed time is
/// conservatively taken to be exactly `later`, as if the counter had most
/// recently restarted from zero.
pub open spec fn spec_assess(prior: u32, later: u32) -> int {
    if later < prior {
        later as int
    } else {
        later - prior
    }
}

/// Computes the elapsed time between two millisecond counter readings,
/// tolerating counter wraparound. Never fails.
pub fn assess_time_delta(prior_milliseconds: u32, later_milliseconds: u32) -> (delta: u32)
    ensures
        delta == spec_assess(prior_milliseconds, later_milliseconds),
{
    if later_milliseconds < prior_milliseconds {
        // the counter has wrapped or was reset: assume it restarted from
        // zero, so the delta can be only as large as the later reading
        return later_milliseconds;
    }
    later_milliseconds - prior_milliseconds
}

/// Whether a dwell minimum permits leaving the current state: `None` places
/// no constraint, and `Some(minimum)` permits leaving exactly when the time
/// elapsed since the last successful transition has reached `minimum`.
pub open spec fn dwell_permits(minimum: Option<u64>, last_changed: u32, t_now: u32) -> bool {
    match minimum {
        Option::None => true,
        Option::Some(m) => m <= spec_assess(last_changed, t_now),
    }
}

/// Decides whether the configured dwell minimum permits a transition, given
/// the last-transition timestamp and a fresh clock reading.
pub fn check_dwell(minimum: Option<u64>, last_changed: u32, t_now: u32) -> (permitted: bool)
    ensures
        permitted == dwell_permits(minimum, last_changed, t_now),
{
    match minimum {
        Option::None => true,
        Option::Some(m) => {
            let delta = assess_time_delta(last_changed, t_now);
            m <= delta as u64
        },
    }
}

/// Law: when the later reading is at least the prior one, the assessed
/// elapsed time is their exact difference.
pub proof fn lemma_assess_no_wrap(prior: u32, later: u32)
    requires
        later >= prior,
    ensures
        spec_assess(prior, later) == later - prior,
{
}

/// Law: when the later reading is below the prior one, the assessed elapsed
/// time is exactly the later reading (wraparound policy: assume the counter
/// restarted from zero).
pub proof fn lemma_assess_wraparound(prior: u32, later: u32)
    requires
        later < prior,
    ensures
        spec_assess(prior, later) == later,
{
}

/// Law: the dwell check is strict. Elapsed time exactly equal to the
/// configured minimum already permits the transition, while elapsed time
/// short of the minimum by any positive amount rejects it.
pub proof fn lemma_dwell_check_is_strict(minimum: u64, last_changed: u32, t_now: u32)
    ensures
        spec_assess(last_changed, t_now) == minimum
            ==> dwell_permits(Some(minimum), last_changed, t_now),
        spec_assess(last_changed, t_now) < minimum
            ==> !dwell_permits(Some(minimum), last_changed, t_now),
{
}

} // verus!
