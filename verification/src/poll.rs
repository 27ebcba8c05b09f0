//! The background poll loop of one user.
//!
//! The loop calls the server's incremental sync again and again, each call
//! with the token that the last successful call returned. It looks at the
//! cancellation signal between two calls, never during one, and it is the
//! only one to end itself: `Idle → Syncing → Stopping → Stopped`.
//!
//! The sync call itself and the pause between calls are the caller's.

use vstd::prelude::*;
use crate::delay::NANOS_PER_SEC;

verus! {

/// The pause that keeps two polls apart when one follows the other within
/// a second: one second.
pub const MIN_POLL_INTERVAL_NANOS: u64 = NANOS_PER_SEC;

/// Where a poll loop stands.
#[derive(Clone, Copy, Debug, PartialEq, Eq, Structural)]
pub enum PollPhase {
    /// The loop has not started.
    Idle,
    /// The loop is polling.
    Syncing,
    /// The loop has seen the cancellation signal and is about to exit.
    Stopping,
    /// The loop has exited.
    Stopped,
}

/// The state of a poll loop, as a mathematical value.
pub struct PollState {
    pub phase: PollPhase,
    /// The continuation token for the next call.
    pub token: Option<Seq<char>>,
    /// When the loop last came to the end of an iteration.
    pub last_poll: Option<u64>,
}

/// The token that the loop holds after a call that returned `result`:
/// the new token after a success, the token it held after a failure.
pub open spec fn token_after_call(token: Option<Seq<char>>, result: Option<Seq<char>>) -> Option<Seq<char>> {
    match result {
        Some(next_batch) => Some(next_batch),
        None => token,
    }
}

/// The token that the loop holds after a series of calls, where
/// `results[k]` is the token that call `k` returned, or `None` if it failed.
pub open spec fn token_after(token: Option<Seq<char>>, results: Seq<Option<Seq<char>>>) -> Option<Seq<char>>
    decreases results.len(),
{
    if results.len() == 0 {
        token
    } else {
        token_after_call(token_after(token, results.drop_last()), results.last())
    }
}

/// The pause before the next poll, at time `now`: a second if the last
/// iteration ended no more than a second ago, and none otherwise.
pub open spec fn pause_before_poll(last_poll: Option<u64>, now: u64) -> u64 {
    match last_poll {
        Some(t) => if now <= t + MIN_POLL_INTERVAL_NANOS {
            MIN_POLL_INTERVAL_NANOS
        } else {
            0
        },
        None => 0,
    }
}

/// The state after a call returned `result`. Only a loop that is polling
/// takes a result.
pub open spec fn after_call(s: PollState, result: Option<Seq<char>>) -> PollState {
    if s.phase == PollPhase::Syncing {
        PollState { token: token_after_call(s.token, result), ..s }
    } else {
        s
    }
}

/// The state after the loop has looked at the signal at time `now`,
/// between two calls: with the signal raised a polling loop is stopping;
/// otherwise it goes on and notes the time.
pub open spec fn after_boundary(s: PollState, cancelled: bool, now: u64) -> PollState {
    if s.phase == PollPhase::Syncing {
        if cancelled {
            PollState { phase: PollPhase::Stopping, ..s }
        } else {
            PollState { last_poll: Some(now), ..s }
        }
    } else {
        s
    }
}

/// The poll loop of one user.
#[derive(Debug)]
pub struct PollLoop {
    phase: PollPhase,
    token: Option<String>,
    last_poll: Option<u64>,
}

impl View for PollLoop {
    type V = PollState;

    closed spec fn view(&self) -> PollState {
        PollState {
            phase: self.phase,
            token: match self.token {
                Some(t) => Some(t@),
                None => None,
            },
            last_poll: self.last_poll,
        }
    }
}

impl PollLoop {
    /// A loop that has not started: no token, no poll made.
    pub fn new() -> (poll: PollLoop)
        ensures
            poll@ == (PollState { phase: PollPhase::Idle, token: None, last_poll: None }),
    {
        PollLoop { phase: PollPhase::Idle, token: None, last_poll: None }
    }

    /// Where the loop stands.
    pub fn phase(&self) -> (phase: PollPhase)
        ensures
            phase == self@.phase,
    {
        self.phase
    }

    /// Whether the loop has exited.
    pub fn is_stopped(&self) -> (stopped: bool)
        ensures
            stopped == (self@.phase == PollPhase::Stopped),
    {
        match self.phase {
            PollPhase::Stopped => true,
            _ => false,
        }
    }

    /// The continuation token to make the next call with.
    pub fn token(&self) -> (token: Option<&String>)
        ensures
            match token {
                Some(t) => self@.token == Some(t@),
                None => self@.token is None,
            },
    {
        match &self.token {
            Some(t) => Some(t),
            None => None,
        }
    }

    /// Starts the loop. Returns whether it started: only a loop that has
    /// not started before does; any other is left as it is.
    pub fn start(&mut self) -> (started: bool)
        ensures
            started == (old(self)@.phase == PollPhase::Idle),
            started ==> final(self)@ == (PollState { phase: PollPhase::Syncing, ..old(self)@ }),
            !started ==> final(self)@ == old(self)@,
    {
        match self.phase {
            PollPhase::Idle => {
                self.phase = PollPhase::Syncing;
                true
            },
            _ => false,
        }
    }

    /// Takes the result of a call: the token that it returned, or `None`
    /// if it failed. A failure changes nothing, and the loop goes on.
    pub fn record_sync(&mut self, next_batch: Option<String>)
        ensures
            final(self)@ == after_call(
                old(self)@,
                match next_batch {
                    Some(t) => Some(t@),
                    None => None,
                },
            ),
    {
        match self.phase {
            PollPhase::Syncing => {
                match next_batch {
                    Some(t) => {
                        self.token = Some(t);
                    },
                    None => {},
                }
            },
            _ => {},
        }
    }

    /// The end of an iteration, at time `now`: looks at the signal, whose
    /// value is `cancelled`. Returns `None` if the loop is to exit, and
    /// else the pause to make before the next call.
    ///
    /// A loop that is polling exits if and only if the signal is raised.
    /// A loop that is not polling has no next call.
    pub fn boundary(&mut self, cancelled: bool, now: u64) -> (pause: Option<u64>)
        ensures
            final(self)@ == after_boundary(old(self)@, cancelled, now),
            pause == if old(self)@.phase == PollPhase::Syncing && !cancelled {
                Some(pause_before_poll(old(self)@.last_poll, now))
            } else {
                None
            },
    {
        match self.phase {
            PollPhase::Syncing => {
                if cancelled {
                    self.phase = PollPhase::Stopping;
                    None
                } else {
                    let pause = match self.last_poll {
                        Some(t) => if t > u64::MAX - MIN_POLL_INTERVAL_NANOS || now <= t + MIN_POLL_INTERVAL_NANOS {
                            MIN_POLL_INTERVAL_NANOS
                        } else {
                            0
                        },
                        None => 0,
                    };
                    self.last_poll = Some(now);
                    Some(pause)
                }
            },
            _ => None,
        }
    }

    /// Takes note that the loop has exited. Only a loop that is stopping
    /// exits; any other is left as it is.
    pub fn exited(&mut self)
        ensures
            final(self)@ == if old(self)@.phase == PollPhase::Stopping {
                PollState { phase: PollPhase::Stopped, ..old(self)@ }
            } else {
                old(self)@
            },
    {
        match self.phase {
            PollPhase::Stopping => {
                self.phase = PollPhase::Stopped;
            },
            _ => {},
        }
    }
}

/// The tokens chain: the token that the loop holds after call `k`, which is
/// the one that call `k + 1` is made with, is the token that call `k`
/// returned, for every call that succeeded.
pub proof fn lemma_token_chain(token: Option<Seq<char>>, results: Seq<Option<Seq<char>>>, k: int)
    requires
        0 <= k < results.len(),
        results[k] is Some,
    ensures
        token_after(token, results.take(k + 1)) == results[k],
{
    assert(results.take(k + 1).last() == results[k]);
}

/// A failed call leaves the token as it was: after any series of calls
/// the loop holds the token of the last call that succeeded, or the token
/// it started with if none did.
pub proof fn lemma_token_survives_failures(token: Option<Seq<char>>, results: Seq<Option<Seq<char>>>)
    ensures
        (forall|k: int| 0 <= k < results.len() ==> results[k] is None) ==> token_after(token, results) == token,
        forall|k: int|
            0 <= k < results.len() && results[k] is Some && (forall|m: int|
                k < m < results.len() ==> results[m] is None) ==> token_after(token, results) == results[k],
    decreases results.len(),
{
    if results.len() > 0 {
        let front = results.drop_last();
        lemma_token_survives_failures(token, front);
        assert(forall|k: int| 0 <= k < front.len() ==> front[k] == results[k]);
        assert forall|k: int|
            0 <= k < results.len() && results[k] is Some && (forall|m: int|
                k < m < results.len() ==> results[m] is None) implies token_after(token, results)
            == results[k] by {
            if k < results.len() - 1 {
                assert(results.last() is None);
                assert(forall|m: int| k < m < front.len() ==> front[m] is None);
            }
        }
    }
}

/// Only the signal stops a loop: a loop that is polling stays polling
/// through every result and every boundary at which the signal is not
/// raised, and is stopping after the first boundary at which it is.
pub proof fn lemma_only_the_signal_stops(s: PollState, result: Option<Seq<char>>, cancelled: bool, now: u64)
    requires
        s.phase == PollPhase::Syncing,
    ensures
        after_call(s, result).phase == PollPhase::Syncing,
        after_boundary(after_call(s, result), cancelled, now).phase == if cancelled {
            PollPhase::Stopping
        } else {
            PollPhase::Syncing
        },
        after_boundary(after_call(s, result), cancelled, now).token == token_after_call(s.token, result),
{
}

/// The pause between polls is never longer than a second.
pub proof fn lemma_pause_is_bounded(last_poll: Option<u64>, now: u64)
    ensures
        pause_before_poll(last_poll, now) <= MIN_POLL_INTERVAL_NANOS,
{
}

} // verus!
