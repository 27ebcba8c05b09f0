//! The interruptible delay: a sleep that is taken in slices of at most one
//! second, so that a raised cancellation signal ends it within a slice.
//!
//! Times are in nanoseconds. The requested delay is signed: a delay of zero
//! or less is over before it starts.

use vstd::prelude::*;
use crate::cancel::CancelSignal;

verus! {

/// Nanoseconds in one second.
pub const NANOS_PER_SEC: u64 = 1_000_000_000;

/// The longest single sleep: one second.
pub const SLICE_NANOS: u64 = 1_000_000_000;

/// What a sleeping task does next.
#[derive(Clone, Copy, Debug, PartialEq, Eq, Structural)]
pub enum SleepStep {
    /// The delay is over, or was cancelled: return to the caller.
    Done,
    /// Sleep for `nanos`, then ask again.
    Sleep { nanos: u64 },
}

/// Why a sleeping task woke up.
#[derive(Clone, Copy, Debug, PartialEq, Eq, Structural)]
pub enum WakeEvent {
    /// The slice ran out.
    Elapsed,
    /// The operator interrupted the process.
    Interrupt,
}

/// The step of a task that asked for `delay` and has waited `elapsed` so far.
///
/// A delay that has run out ends without a look at the signal. Otherwise a
/// cancellable delay ends if the signal is raised, and any other sleeps for
/// what is left of the delay, but no longer than one slice.
pub open spec fn sleep_step(delay: int, elapsed: int, allow_cancel: bool, cancelled: bool) -> SleepStep {
    if elapsed >= delay {
        SleepStep::Done
    } else if allow_cancel && cancelled {
        SleepStep::Done
    } else if delay - elapsed < SLICE_NANOS {
        SleepStep::Sleep { nanos: (delay - elapsed) as u64 }
    } else {
        SleepStep::Sleep { nanos: SLICE_NANOS }
    }
}

/// When a task returns that asks for `delay` at time `now`, if every sleep
/// lasts exactly as long as requested and the signal is raised at
/// `cancel_at` (never, if that is `None`). Times count from the task's start.
pub open spec fn return_time(delay: int, now: int, allow_cancel: bool, cancel_at: Option<int>) -> int
    decreases delay - now,
{
    let cancelled = cancel_at matches Some(t) && t <= now;
    match sleep_step(delay, now, allow_cancel, cancelled) {
        SleepStep::Done => now,
        SleepStep::Sleep { nanos } => return_time(delay, now + nanos, allow_cancel, cancel_at),
    }
}

/// One decision of the interruptible sleep: what a task that asked to sleep
/// for `delay` nanoseconds does once `elapsed` nanoseconds have passed.
/// `signal` is only looked at when `allow_cancel` is set.
pub fn task_sleep(delay: i64, allow_cancel: bool, elapsed: u64, signal: &CancelSignal) -> (step: SleepStep)
    ensures
        step == sleep_step(delay as int, elapsed as int, allow_cancel, signal.cancelled()),
{
    if delay <= 0 {
        return SleepStep::Done;
    }
    let wanted: u64 = delay as u64;
    if elapsed >= wanted {
        return SleepStep::Done;
    }
    if allow_cancel && signal.is_cancelled() {
        return SleepStep::Done;
    }
    let remaining: u64 = wanted - elapsed;
    if remaining < SLICE_NANOS {
        SleepStep::Sleep { nanos: remaining }
    } else {
        SleepStep::Sleep { nanos: SLICE_NANOS }
    }
}

/// Takes note of why a sleeping task woke up: an operator interrupt raises
/// the signal, a slice that ran out changes nothing. Returns whether this
/// call raised the signal.
pub fn on_wake(event: WakeEvent, signal: &mut CancelSignal) -> (raised: bool)
    ensures
        final(signal).cancelled() == (old(signal).cancelled() || event is Interrupt),
        raised == (event is Interrupt && !old(signal).cancelled()),
{
    match event {
        WakeEvent::Elapsed => false,
        WakeEvent::Interrupt => signal.signal_cancel(),
    }
}

/// No sleep is longer than a slice, and none overshoots the delay.
pub proof fn lemma_sleep_is_bounded(delay: int, elapsed: int, allow_cancel: bool, cancelled: bool)
    requires
        0 <= elapsed,
    ensures
        sleep_step(delay, elapsed, allow_cancel, cancelled) matches SleepStep::Sleep { nanos } ==> {
            &&& 0 < nanos <= SLICE_NANOS
            &&& elapsed + nanos <= delay
        },
{
}

/// A delay that is not cancelled returns when it has run out, and not before.
pub proof fn lemma_uncancelled_delay_runs_out(delay: int, now: int, allow_cancel: bool)
    requires
        0 <= now,
    ensures
        return_time(delay, now, allow_cancel, None) == if now >= delay { now } else { delay },
    decreases delay - now,
{
    match sleep_step(delay, now, allow_cancel, false) {
        SleepStep::Done => {},
        SleepStep::Sleep { nanos } => {
            lemma_uncancelled_delay_runs_out(delay, now + nanos, allow_cancel);
        },
    }
}

/// A delay that may not be cancelled ignores the signal.
pub proof fn lemma_uncancellable_delay_ignores_signal(delay: int, now: int, cancel_at: Option<int>)
    requires
        0 <= now,
    ensures
        return_time(delay, now, false, cancel_at) == if now >= delay { now } else { delay },
    decreases delay - now,
{
    let cancelled = cancel_at matches Some(t) && t <= now;
    match sleep_step(delay, now, false, cancelled) {
        SleepStep::Done => {},
        SleepStep::Sleep { nanos } => {
            lemma_uncancellable_delay_ignores_signal(delay, now + nanos, cancel_at);
        },
    }
}

/// A cancellable delay of length `delay`, cancelled at a time `t` before it
/// runs out, returns at the first wake-up at or after `t`: no earlier than
/// `t`, less than one slice after it, and never later than the delay itself.
pub proof fn lemma_cancelled_delay_returns_within_slice(delay: int, now: int, t: int)
    requires
        0 <= now <= t < delay,
    ensures
        t <= return_time(delay, now, true, Some(t)) < t + SLICE_NANOS,
        return_time(delay, now, true, Some(t)) <= delay,
    decreases delay - now,
{
    if now < t {
        let nanos = sleep_step(delay, now, true, false)->nanos;
        let next = now + nanos;
        assert(return_time(delay, now, true, Some(t)) == return_time(delay, next, true, Some(t)));
        if next <= t {
            lemma_cancelled_delay_returns_within_slice(delay, next, t);
        } else {
            assert(sleep_step(delay, next, true, true) == SleepStep::Done);
        }
    }
}

} // verus!
