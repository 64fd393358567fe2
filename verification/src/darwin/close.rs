//! The close of a message channel, one step at a time.
//!
//! A close stops the admission of calls, waits until those that were admitted have returned,
//! and only then releases what the provider holds. Each step is taken with the channel's
//! lifecycle locked; what it asks for is done without the lock, except for a wait.

use vstd::prelude::*;

use crate::darwin::laws::forward;
use crate::darwin::{ActiveCalls, Lifecycle, ShutdownTiming};
use crate::time::{Duration, Instant};

verus! {

/// What a close does next.
#[derive(Clone, Copy, Debug, PartialEq, Eq)]
pub enum CloseAction<S, C> {
    /// Tell the session to exit.
    ExitSession(S),
    /// Wake a blocked receive.
    Interrupt(C),
    /// Take the next step at once.
    Recheck,
    /// Wait for a call to finish, but no longer than this.
    Wait(Duration),
    /// Detach the channel from its session.
    RemoveChannel(C),
    /// Destroy the session.
    DestroySession(S),
    /// Unmount what the channel serves.
    Unmount(C),
    /// Give up the channel's own reference.
    DestroyChannel(C),
    /// The channel is closed.
    Finished,
    /// Calls were still running at the deadline. Nothing was released.
    TimedOut,
}

/// How far a close has come.
#[derive(Clone, Copy, Debug, PartialEq, Eq)]
pub enum Closer<S, C> {
    /// Nothing was done.
    Begin,
    /// Calls may still be running.
    Drain,
    /// Calls were running; a blocked receive was woken.
    Wait,
    /// The channel was detached.
    Removed { session: S, channel: C },
    /// The session was destroyed.
    Destroyed { session: S, channel: C },
    /// The channel was unmounted.
    Unmounted { session: S, channel: C },
    /// Everything was released.
    Released { session: S, channel: C },
    /// The close has returned.
    Done,
}

/// One step of a close: where the close then stands, what the lifecycle then is, and what is to
/// be done.
pub struct Step<S, C> {
    pub closer: Closer<S, C>,
    pub lifecycle: Lifecycle<S, C>,
    pub action: CloseAction<S, C>,
}

/// The step of a close that stands at `closer` when it finds the channel in `lifecycle`.
pub open spec fn step_of<S, C>(
    closer: Closer<S, C>,
    lifecycle: Lifecycle<S, C>,
    now: Instant,
    deadline: Instant,
    timing: ShutdownTiming,
) -> Step<S, C> {
    match closer {
        Closer::Begin => match lifecycle {
            Lifecycle::Open { session, .. } => Step {
                closer: Closer::Drain,
                lifecycle: lifecycle.closing(),
                action: CloseAction::ExitSession(session),
            },
            Lifecycle::Closing { .. } => Step {
                closer: Closer::Drain,
                lifecycle,
                action: CloseAction::Recheck,
            },
            Lifecycle::Closed => Step {
                closer: Closer::Done,
                lifecycle,
                action: CloseAction::Finished,
            },
        },
        Closer::Drain => match lifecycle {
            Lifecycle::Closing { session, channel, active } => if active.none() {
                Step {
                    closer: Closer::Removed { session, channel },
                    lifecycle,
                    action: CloseAction::RemoveChannel(channel),
                }
            } else if now.nanos >= deadline.nanos {
                Step { closer: Closer::Done, lifecycle, action: CloseAction::TimedOut }
            } else if active.receives != 0 {
                Step { closer: Closer::Wait, lifecycle, action: CloseAction::Interrupt(channel) }
            } else {
                Step { closer: Closer::Wait, lifecycle, action: CloseAction::Recheck }
            },
            _ => Step { closer: Closer::Done, lifecycle, action: CloseAction::Finished },
        },
        Closer::Wait => match lifecycle {
            Lifecycle::Closing { active, .. } => if active.none() {
                Step { closer: Closer::Drain, lifecycle, action: CloseAction::Recheck }
            } else if deadline.since(now).nanos == 0 {
                Step { closer: Closer::Done, lifecycle, action: CloseAction::TimedOut }
            } else {
                Step {
                    closer: Closer::Drain,
                    lifecycle,
                    action: CloseAction::Wait(timing.wake_interval.shorter(deadline.since(now))),
                }
            },
            _ => Step { closer: Closer::Done, lifecycle, action: CloseAction::Finished },
        },
        Closer::Removed { session, channel } => Step {
            closer: Closer::Destroyed { session, channel },
            lifecycle,
            action: CloseAction::DestroySession(session),
        },
        Closer::Destroyed { session, channel } => Step {
            closer: Closer::Unmounted { session, channel },
            lifecycle,
            action: CloseAction::Unmount(channel),
        },
        Closer::Unmounted { session, channel } => Step {
            closer: Closer::Released { session, channel },
            lifecycle,
            action: CloseAction::DestroyChannel(channel),
        },
        Closer::Released { .. } => Step {
            closer: Closer::Done,
            lifecycle: Lifecycle::Closed,
            action: CloseAction::Finished,
        },
        Closer::Done => Step { closer, lifecycle, action: CloseAction::Finished },
    }
}

impl<S, C> Closer<S, C> {
    /// The lifecycle is one that a close that stands here can find: admission stays stopped once
    /// the close has begun, and while handles are being released no call runs.
    pub open spec fn agrees(self, lifecycle: Lifecycle<S, C>) -> bool {
        match self {
            Closer::Begin => true,
            Closer::Drain | Closer::Wait => !(lifecycle is Open),
            Closer::Removed { session, channel }
            | Closer::Destroyed { session, channel }
            | Closer::Unmounted { session, channel }
            | Closer::Released { session, channel } => {
                ||| lifecycle is Closed
                ||| lifecycle.drained() && (lifecycle matches Lifecycle::Closing {
                    session: s,
                    channel: c,
                    ..
                } && s == session && c == channel)
            },
            Closer::Done => false,
        }
    }
}

impl<S: Copy, C: Copy> Closer<S, C> {
    /// A close that has not begun.
    pub fn new() -> (r: Closer<S, C>)
        ensures
            r is Begin,
    {
        Closer::Begin
    }

    /// Takes the next step, and says what is to be done before the step after it. The close has
    /// to wake now and then, so the interval between wakes must not be empty.
    pub fn step(
        &mut self,
        lifecycle: &mut Lifecycle<S, C>,
        now: Instant,
        deadline: Instant,
        timing: ShutdownTiming,
    ) -> (r: CloseAction<S, C>)
        requires
            old(self).agrees(*old(lifecycle)),
            timing.wake_interval.nanos > 0,
        ensures
            ({
                let step = step_of(*old(self), *old(lifecycle), now, deadline, timing);
                &&& *final(self) == step.closer
                &&& *final(lifecycle) == step.lifecycle
                &&& r == step.action
            }),
            forward(*old(lifecycle), *final(lifecycle)),
    {
        match *self {
            Closer::Begin => {
                match lifecycle.begin_close() {
                    None => {
                        *self = Closer::Done;
                        CloseAction::Finished
                    },
                    Some((session, _, exit_session)) => {
                        *self = Closer::Drain;
                        if exit_session {
                            CloseAction::ExitSession(session)
                        } else {
                            CloseAction::Recheck
                        }
                    },
                }
            },
            Closer::Drain => {
                let (channel, active) = match lifecycle {
                    Lifecycle::Closing { channel, active, .. } => (*channel, *active),
                    _ => {
                        *self = Closer::Done;
                        return CloseAction::Finished;
                    },
                };
                if active.is_empty() {
                    let (session, channel) = lifecycle.drained_handles();
                    *self = Closer::Removed { session, channel };
                    return CloseAction::RemoveChannel(channel);
                }
                if now.nanos >= deadline.nanos {
                    *self = Closer::Done;
                    return CloseAction::TimedOut;
                }
                *self = Closer::Wait;
                if active.receives != 0 {
                    CloseAction::Interrupt(channel)
                } else {
                    CloseAction::Recheck
                }
            },
            Closer::Wait => {
                let active: ActiveCalls = match lifecycle {
                    Lifecycle::Closing { active, .. } => *active,
                    _ => {
                        *self = Closer::Done;
                        return CloseAction::Finished;
                    },
                };
                if active.is_empty() {
                    *self = Closer::Drain;
                    return CloseAction::Recheck;
                }
                let remaining = deadline.saturating_duration_since(now);
                if remaining.is_zero() {
                    *self = Closer::Done;
                    return CloseAction::TimedOut;
                }
                *self = Closer::Drain;
                CloseAction::Wait(timing.wake_interval.min(remaining))
            },
            Closer::Removed { session, channel } => {
                *self = Closer::Destroyed { session, channel };
                CloseAction::DestroySession(session)
            },
            Closer::Destroyed { session, channel } => {
                *self = Closer::Unmounted { session, channel };
                CloseAction::Unmount(channel)
            },
            Closer::Unmounted { session, channel } => {
                *self = Closer::Released { session, channel };
                CloseAction::DestroyChannel(channel)
            },
            Closer::Released { .. } => {
                lifecycle.mark_closed();
                *self = Closer::Done;
                CloseAction::Finished
            },
            Closer::Done => CloseAction::Finished,
        }
    }
}

} // verus!
