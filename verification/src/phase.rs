//! The registration window: a phase derived from wall-clock time against two
//! configured instants, gating which registration actions are legal.

use vstd::prelude::*;

verus! {

/// The time-derived gate on registration: before the window, inside it, or
/// after it.  Never stored; always recomputed from the clock.
#[derive(Clone, Copy, PartialEq, Eq, Structural, Debug)]
pub enum RegistrationPhase {
    NotOpen,
    Open,
    Closed,
}

/// Numeric rank of a phase, in the order the phases occur over time.
pub open spec fn phase_rank(p: RegistrationPhase) -> int {
    match p {
        RegistrationPhase::NotOpen => 0,
        RegistrationPhase::Open => 1,
        RegistrationPhase::Closed => 2,
    }
}

/// The phase at instant `now` for a window opening at `open_at` and closing
/// at `close_at`, all in seconds since the Unix epoch.  The window is
/// half-open: registration is possible from `open_at` up to, but not
/// including, `close_at`.
pub open spec fn phase_of(now: int, open_at: int, close_at: int) -> RegistrationPhase {
    if now >= close_at {
        RegistrationPhase::Closed
    } else if now >= open_at {
        RegistrationPhase::Open
    } else {
        RegistrationPhase::NotOpen
    }
}

/// Computes the phase at a given instant.
pub fn phase_at(now: i64, open_at: i64, close_at: i64) -> (p: RegistrationPhase)
    ensures
        p == phase_of(now as int, open_at as int, close_at as int),
{
    if now >= close_at {
        RegistrationPhase::Closed
    } else if now >= open_at {
        RegistrationPhase::Open
    } else {
        RegistrationPhase::NotOpen
    }
}

/// Relies on chrono's `Utc::now`: the current wall-clock time, as seconds
/// since the Unix epoch.  Nothing can be promised of the value itself.
#[verifier::external_body]
fn now_timestamp() -> i64 {
    chrono::Utc::now().timestamp()
}

/// The phase at the moment of the call.  The clock is outside this crate's
/// control, so all that can be said is that the result is the phase of some
/// instant; callers that need exact reasoning take the instant as an
/// argument and use `phase_at`.
pub fn current_phase(open_at: i64, close_at: i64) -> (p: RegistrationPhase)
    ensures
        exists|now: int| p == phase_of(now, open_at as int, close_at as int),
{
    let now = now_timestamp();
    let p = phase_at(now, open_at, close_at);
    proof {
        assert(p == phase_of(now as int, open_at as int, close_at as int));
    }
    p
}

/// For a fixed window, the phase is monotone non-decreasing over time: it
/// moves only forward, `NotOpen` to `Open` to `Closed`, never back.
pub proof fn lemma_phase_monotonic(t1: int, t2: int, open_at: int, close_at: int)
    requires
        t1 <= t2,
    ensures
        phase_rank(phase_of(t1, open_at, close_at)) <= phase_rank(phase_of(t2, open_at, close_at)),
{
}

} // verus!
