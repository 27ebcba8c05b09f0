//! The life of one simulated user: login, the run, and the stop.
//!
//! A user that logs in gets an event handler, a poll loop and a place in
//! the schedule. A user that fails to log in gets none of them and takes
//! no further part in the run. The first user to reach the stop raises
//! the cancellation signal for the whole run, whether it logged in or
//! not. A user that has a poll loop then waits, a second at a time, until
//! the loop has exited by itself; the loop is never torn down from outside.

use vstd::prelude::*;
use crate::cancel::CancelSignal;
use crate::delay::NANOS_PER_SEC;

verus! {

/// How long a stopping user waits before it looks at its poll loop again:
/// one second.
pub const STOP_WAIT_NANOS: u64 = NANOS_PER_SEC;

/// Where a user stands.
#[derive(Clone, Copy, Debug, PartialEq, Eq, Structural)]
pub enum UserStatus {
    /// The user has not tried to log in.
    Created,
    /// The user is logged in; its poll loop runs.
    Active,
    /// The login failed.
    Failed,
    /// The user has raised the signal and waits for its poll loop to exit.
    Stopping,
    /// The user is done.
    Stopped,
}

/// What a stopping user does next.
#[derive(Clone, Copy, Debug, PartialEq, Eq, Structural)]
pub enum StopStep {
    /// Sleep for `nanos`, and do not let the signal cut the sleep short;
    /// then ask again.
    Wait { nanos: u64 },
    /// Return: the user's resources may be torn down.
    Return,
}

/// The status after the answer to a login attempt. Only a user that has
/// not tried before takes an answer.
pub open spec fn status_after_login(status: UserStatus, logged_in: bool) -> UserStatus {
    if status == UserStatus::Created {
        if logged_in {
            UserStatus::Active
        } else {
            UserStatus::Failed
        }
    } else {
        status
    }
}

/// Whether a user in this status has a poll loop to wait for.
pub open spec fn has_poll_loop(status: UserStatus) -> bool {
    status == UserStatus::Active || status == UserStatus::Stopping
}

/// The status after one step of the stop, where `poll_stopped` says
/// whether the user's poll loop has exited.
pub open spec fn status_after_stop(status: UserStatus, poll_stopped: bool) -> UserStatus {
    if has_poll_loop(status) && !poll_stopped {
        UserStatus::Stopping
    } else {
        UserStatus::Stopped
    }
}

/// What one step of the stop answers: a user with a poll loop waits
/// until the loop has exited; any other returns at once.
pub open spec fn stop_step(status: UserStatus, poll_stopped: bool) -> StopStep {
    if has_poll_loop(status) && !poll_stopped {
        StopStep::Wait { nanos: STOP_WAIT_NANOS }
    } else {
        StopStep::Return
    }
}

/// The status after a series of steps of the stop, where `observed[k]`
/// says whether the poll loop had exited at step `k`.
pub open spec fn status_after_stops(status: UserStatus, observed: Seq<bool>) -> UserStatus
    decreases observed.len(),
{
    if observed.len() == 0 {
        status
    } else {
        status_after_stop(status_after_stops(status, observed.drop_last()), observed.last())
    }
}

/// The lifecycle of one user.
#[derive(Debug)]
pub struct Lifecycle {
    status: UserStatus,
}

impl View for Lifecycle {
    type V = UserStatus;

    closed spec fn view(&self) -> UserStatus {
        self.status
    }
}

impl Lifecycle {
    /// A user that has not tried to log in.
    pub fn new() -> (user: Lifecycle)
        ensures
            user@ == UserStatus::Created,
    {
        Lifecycle { status: UserStatus::Created }
    }

    /// Where the user stands.
    pub fn status(&self) -> (status: UserStatus)
        ensures
            status == self@,
    {
        self.status
    }

    /// Whether the user takes part in the schedule: only a user that is
    /// logged in and has not begun to stop does.
    pub fn is_scheduled(&self) -> (scheduled: bool)
        ensures
            scheduled == (self@ == UserStatus::Active),
    {
        match self.status {
            UserStatus::Active => true,
            _ => false,
        }
    }

    /// Takes the answer to the login attempt. Returns whether to register
    /// the event handler and start the poll loop: only after the first
    /// attempt, and only if it succeeded.
    pub fn on_start(&mut self, logged_in: bool) -> (start_poll: bool)
        ensures
            final(self)@ == status_after_login(old(self)@, logged_in),
            start_poll == (old(self)@ == UserStatus::Created && logged_in),
    {
        match self.status {
            UserStatus::Created => {
                if logged_in {
                    self.status = UserStatus::Active;
                    true
                } else {
                    self.status = UserStatus::Failed;
                    false
                }
            },
            _ => false,
        }
    }

    /// One step of the stop, where `poll_stopped` says whether the user's
    /// poll loop has exited.
    ///
    /// Every user raises the signal, which changes it only for the first
    /// user of the run to get here. A user whose poll loop runs then waits
    /// until the loop has exited; a user without a poll loop returns at
    /// once.
    pub fn on_stop(&mut self, signal: &mut CancelSignal, poll_stopped: bool) -> (step: StopStep)
        ensures
            final(self)@ == status_after_stop(old(self)@, poll_stopped),
            step == stop_step(old(self)@, poll_stopped),
            final(signal).cancelled(),
    {
        signal.signal_cancel();
        let waits = match self.status {
            UserStatus::Active => !poll_stopped,
            UserStatus::Stopping => !poll_stopped,
            _ => false,
        };
        if waits {
            self.status = UserStatus::Stopping;
            StopStep::Wait { nanos: STOP_WAIT_NANOS }
        } else {
            self.status = UserStatus::Stopped;
            StopStep::Return
        }
    }
}

/// A user that failed to log in never gets a poll loop and is never
/// scheduled, whatever answers follow, and its stop returns at once.
pub proof fn lemma_failed_user_stays_out(logged_in: bool)
    ensures
        status_after_login(UserStatus::Failed, logged_in) == UserStatus::Failed,
        !has_poll_loop(UserStatus::Failed),
        stop_step(UserStatus::Failed, false) == StopStep::Return,
{
}

/// The stop does not return before the poll loop has exited: as long as
/// every look at the loop finds it running, a user that has a poll loop
/// keeps waiting.
pub proof fn lemma_stop_waits_for_poll_loop(status: UserStatus, observed: Seq<bool>)
    requires
        has_poll_loop(status),
        forall|k: int| 0 <= k < observed.len() ==> !observed[k],
    ensures
        has_poll_loop(status_after_stops(status, observed)),
        forall|exited: bool|
            stop_step(status_after_stops(status, observed), exited) is Return <==> exited,
    decreases observed.len(),
{
    if observed.len() > 0 {
        let front = observed.drop_last();
        assert(forall|k: int| 0 <= k < front.len() ==> front[k] == observed[k]);
        lemma_stop_waits_for_poll_loop(status, front);
    }
}

/// The stop returns with the first look that finds the poll loop exited,
/// and the user is stopped from then on.
pub proof fn lemma_stop_returns_when_poll_loop_exited(status: UserStatus)
    ensures
        stop_step(status, true) == StopStep::Return,
        status_after_stop(status, true) == UserStatus::Stopped,
        forall|exited: bool| status_after_stop(UserStatus::Stopped, exited) == UserStatus::Stopped,
{
}

} // verus!
