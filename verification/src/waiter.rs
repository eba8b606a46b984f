//! The schema readiness waiter: what to do after each look at the control
//! plane's schema registry.
//!
//! The caller looks, tells the waiter what it saw and how long the wait has
//! lasted, and does what the waiter answers: sleep and look again, or stop.
//! The sleeps double from one look to the next up to a longest one, and none
//! reaches past the timeout.

use vstd::prelude::*;

verus! {

/// How long a wait for a schema lasts at most, in milliseconds.
pub const SCHEMA_TIMEOUT_MS: u64 = 10_000;

/// The sleep after the first look, in milliseconds.
pub const FIRST_DELAY_MS: u64 = 100;

/// The longest sleep between two looks, in milliseconds.
pub const LONGEST_DELAY_MS: u64 = 2_000;

/// How a wait ended.
#[derive(Clone, Copy, Debug, PartialEq, Eq)]
pub enum WaitOutcome {
    /// The schema is established.
    Ready,
    /// The timeout passed and the schema was not seen established.
    TimedOut,
}

/// What the caller does next.
#[derive(Clone, Copy, Debug, PartialEq, Eq)]
pub enum WaitAction {
    /// Sleep this many milliseconds, then look again.
    Sleep(u64),
    /// Stop waiting.
    Finish(WaitOutcome),
}

/// A wait in progress.
#[derive(Clone, Copy, Debug, PartialEq, Eq)]
pub struct WaitState {
    /// The time after which the wait gives up, in milliseconds.
    pub timeout_ms: u64,
    /// The sleep that the next look may be followed by, in milliseconds.
    pub delay_ms: u64,
}

/// The sleep that follows a look at `elapsed` milliseconds which did not
/// find the schema: the current delay, at least one millisecond, and no
/// more than what is left until the timeout.
pub open spec fn spec_sleep(state: WaitState, elapsed: nat) -> nat
    recommends
        elapsed < state.timeout_ms,
{
    let wanted: nat = if state.delay_ms == 0 {
        1
    } else {
        state.delay_ms as nat
    };
    let left = (state.timeout_ms - elapsed) as nat;
    if wanted <= left {
        wanted
    } else {
        left
    }
}

/// The delay after a sleep: twice the one before, up to the longest.
pub open spec fn spec_next_delay(delay: nat) -> nat {
    if delay == 0 {
        2
    } else if 2 * delay >= LONGEST_DELAY_MS {
        LONGEST_DELAY_MS as nat
    } else {
        2 * delay
    }
}

/// What a look decides: the action, and the wait after it.
pub open spec fn spec_wait_step(state: WaitState, established: bool, elapsed: nat) -> (
    WaitState,
    WaitAction,
) {
    if established {
        (state, WaitAction::Finish(WaitOutcome::Ready))
    } else if elapsed >= state.timeout_ms {
        (state, WaitAction::Finish(WaitOutcome::TimedOut))
    } else {
        (
            WaitState {
                timeout_ms: state.timeout_ms,
                delay_ms: spec_next_delay(state.delay_ms as nat) as u64,
            },
            WaitAction::Sleep(spec_sleep(state, elapsed) as u64),
        )
    }
}

/// A wait that has not looked yet.
pub fn begin_wait(timeout_ms: u64) -> (state: WaitState)
    ensures
        state == (WaitState { timeout_ms, delay_ms: FIRST_DELAY_MS }),
{
    WaitState { timeout_ms, delay_ms: FIRST_DELAY_MS }
}

/// Decides what follows a look. `established` is what the look saw,
/// `elapsed_ms` the time since the wait began.
///
/// A sleep is never empty and never reaches past the timeout, so a caller
/// that sleeps as long as it is told looks for the last time when the
/// timeout has passed by no more than one look takes.
pub fn wait_step(state: WaitState, established: bool, elapsed_ms: u64) -> (r: (WaitState, WaitAction))
    ensures
        r == spec_wait_step(state, established, elapsed_ms as nat),
        r.1 matches WaitAction::Sleep(ms) ==> 1 <= ms && elapsed_ms + ms <= state.timeout_ms,
        r.1 is Finish <==> established || elapsed_ms >= state.timeout_ms,
{
    if established {
        return (state, WaitAction::Finish(WaitOutcome::Ready));
    }
    if elapsed_ms >= state.timeout_ms {
        return (state, WaitAction::Finish(WaitOutcome::TimedOut));
    }
    let wanted: u64 = if state.delay_ms == 0 {
        1
    } else {
        state.delay_ms
    };
    let left: u64 = state.timeout_ms - elapsed_ms;
    let sleep: u64 = if wanted <= left {
        wanted
    } else {
        left
    };
    let next: u64 = if state.delay_ms == 0 {
        2
    } else if state.delay_ms >= LONGEST_DELAY_MS / 2 {
        LONGEST_DELAY_MS
    } else {
        2 * state.delay_ms
    };
    (WaitState { timeout_ms: state.timeout_ms, delay_ms: next }, WaitAction::Sleep(sleep))
}

/// The time that is left of a wait at `elapsed` milliseconds.
pub open spec fn spec_time_left(state: WaitState, elapsed: nat) -> nat {
    if elapsed >= state.timeout_ms {
        0
    } else {
        (state.timeout_ms - elapsed) as nat
    }
}

/// The time at which a wait ends that never finds the schema, where each
/// look takes `look` milliseconds and each sleep lasts as long as the
/// waiter said. `elapsed` is the time of the look that is decided next.
pub open spec fn spec_wait_end(state: WaitState, elapsed: nat, look: nat) -> nat
    decreases spec_time_left(state, elapsed),
{
    if elapsed >= state.timeout_ms {
        elapsed
    } else {
        let step = spec_wait_step(state, false, elapsed);
        spec_wait_end(step.0, elapsed + spec_sleep(state, elapsed) + look, look)
    }
}

/// A wait for a schema that is never established ends, and it ends no
/// later than one look after the timeout.
pub proof fn lemma_wait_is_bounded(state: WaitState, elapsed: nat, look: nat)
    requires
        elapsed <= state.timeout_ms + look,
    ensures
        spec_wait_end(state, elapsed, look) <= state.timeout_ms + look,
        spec_wait_step(state, false, spec_wait_end(state, elapsed, look)).1 == WaitAction::Finish(
            WaitOutcome::TimedOut,
        ),
    decreases spec_time_left(state, elapsed),
{
    if elapsed < state.timeout_ms {
        let step = spec_wait_step(state, false, elapsed);
        lemma_wait_is_bounded(step.0, elapsed + spec_sleep(state, elapsed) + look, look);
    }
}

} // verus!
