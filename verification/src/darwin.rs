//! The message channel of macFUSE: which calls may use it, and how it is closed. Its error codes
//! are those of macOS.

use vstd::pervasive::unreached;
use vstd::prelude::*;
use vstd::string::*;

use crate::darwin::laws::{call_began, call_finished, moved};
use crate::errno::{errno_from_raw, stands_for, Errno};
use crate::error::{custom, outcome, Error, ErrorKind, ErrorView};
use crate::target::Os;
use crate::text::{decimal, decimal_text, joined};
use crate::time::Duration;

pub mod close;
pub mod laws;
pub mod owner;

verus! {

/// The calls that are using the channel.
#[derive(Clone, Copy, Debug, PartialEq, Eq, Structural)]
pub struct ActiveCalls {
    pub receives: usize,
    pub sends: usize,
}

/// A kind of call.
#[derive(Clone, Copy, Debug, PartialEq, Eq, Structural)]
pub enum CallKind {
    Receive,
    Send,
}

/// How far a channel has come, with the provider's handles as long as it holds them.
#[derive(Debug)]
pub enum Lifecycle<S, C> {
    /// Calls are admitted.
    Open { session: S, channel: C, active: ActiveCalls },
    /// No further call is admitted; those that were are still running.
    Closing { session: S, channel: C, active: ActiveCalls },
    /// The provider's handles were released.
    Closed,
}

/// How often a close wakes to interrupt receives again.
#[derive(Clone, Copy, Debug, PartialEq, Eq, Structural)]
pub struct ShutdownTiming {
    pub wake_interval: Duration,
}

impl Default for ShutdownTiming {
    fn default() -> (r: ShutdownTiming)
        ensures
            r.wake_interval.nanos == 25_000_000,
    {
        ShutdownTiming { wake_interval: Duration::from_millis(25) }
    }
}

impl Default for ActiveCalls {
    fn default() -> (r: ActiveCalls)
        ensures
            r == (ActiveCalls { receives: 0, sends: 0 }),
    {
        ActiveCalls { receives: 0, sends: 0 }
    }
}

impl ActiveCalls {
    /// How many calls of a kind are active.
    pub open spec fn count(self, kind: CallKind) -> usize {
        match kind {
            CallKind::Receive => self.receives,
            CallKind::Send => self.sends,
        }
    }

    /// The calls with another count for one kind.
    pub open spec fn with(self, kind: CallKind, count: usize) -> ActiveCalls {
        match kind {
            CallKind::Receive => ActiveCalls { receives: count, sends: self.sends },
            CallKind::Send => ActiveCalls { receives: self.receives, sends: count },
        }
    }

    /// Whether no call is active.
    pub open spec fn none(self) -> bool {
        self.receives == 0 && self.sends == 0
    }

    /// Whether no call is active.
    pub fn is_empty(self) -> (r: bool)
        ensures
            r == self.none(),
    {
        self.receives == 0 && self.sends == 0
    }

    /// Counts one more call, unless the count is full.
    pub fn begin(&mut self, kind: CallKind) -> (r: Result<(), Error>)
        ensures
            old(self).count(kind) < usize::MAX ==> r is Ok && *final(self) == old(self).with(
                kind,
                (old(self).count(kind) + 1) as usize,
            ),
            old(self).count(kind) == usize::MAX ==> outcome(r) == Err::<(), ErrorView>(
                custom(ErrorKind::Other, "macFUSE active call count overflowed"@),
            ) && *final(self) == *old(self),
    {
        let active = match kind {
            CallKind::Receive => self.receives,
            CallKind::Send => self.sends,
        };
        match active.checked_add(1) {
            Some(count) => {
                match kind {
                    CallKind::Receive => self.receives = count,
                    CallKind::Send => self.sends = count,
                }
                Ok(())
            },
            None => Err(Error::other("macFUSE active call count overflowed")),
        }
    }

    /// Counts one call less.
    pub fn finish(&mut self, kind: CallKind)
        requires
            old(self).count(kind) > 0,
        ensures
            *final(self) == old(self).with(kind, (old(self).count(kind) - 1) as usize),
    {
        match kind {
            CallKind::Receive => self.receives = self.receives - 1,
            CallKind::Send => self.sends = self.sends - 1,
        }
    }
}

/// The error for a call on a channel that is closing.
pub open spec fn closing_error() -> ErrorView {
    custom(ErrorKind::NotConnected, "macFUSE channel is closing"@)
}

impl<S, C> Lifecycle<S, C> {
    /// The calls that are using the channel.
    pub open spec fn active(self) -> ActiveCalls {
        match self {
            Lifecycle::Open { active, .. } => active,
            Lifecycle::Closing { active, .. } => active,
            Lifecycle::Closed => ActiveCalls { receives: 0, sends: 0 },
        }
    }

    /// No further call is admitted, and none is running.
    pub open spec fn drained(self) -> bool {
        self matches Lifecycle::Closing { active, .. } && active.none()
    }

    /// The same channel with other active calls.
    pub open spec fn with_active(self, calls: ActiveCalls) -> Lifecycle<S, C> {
        match self {
            Lifecycle::Open { session, channel, .. } => Lifecycle::Open {
                session,
                channel,
                active: calls,
            },
            Lifecycle::Closing { session, channel, .. } => Lifecycle::Closing {
                session,
                channel,
                active: calls,
            },
            Lifecycle::Closed => Lifecycle::Closed,
        }
    }

    /// The channel once a close has begun.
    pub open spec fn closing(self) -> Lifecycle<S, C> {
        match self {
            Lifecycle::Open { session, channel, active } => Lifecycle::Closing {
                session,
                channel,
                active,
            },
            Lifecycle::Closing { .. } | Lifecycle::Closed => self,
        }
    }
}

impl<S: Copy, C: Copy> Lifecycle<S, C> {
    /// A channel that admits calls.
    pub fn new(session: S, channel: C) -> (r: Lifecycle<S, C>)
        ensures
            r == (Lifecycle::Open {
                session,
                channel,
                active: ActiveCalls { receives: 0, sends: 0 },
            }),
    {
        Lifecycle::Open { session, channel, active: ActiveCalls::default() }
    }

    /// The calls that are using the channel, until it is closed.
    pub fn active_mut(&mut self) -> (r: Option<&mut ActiveCalls>)
        ensures
            r is None <==> *old(self) is Closed,
            r matches Some(active) ==> *active == old(self).active() && *final(self)
                == old(self).with_active(*final(active)),
            r is None ==> *final(self) == *old(self),
    {
        match self {
            Lifecycle::Open { active, .. } => Some(active),
            Lifecycle::Closing { active, .. } => Some(active),
            Lifecycle::Closed => None,
        }
    }

    /// Admits a call, and gives the channel that it may use until it finishes.
    pub fn begin_call(&mut self, kind: CallKind) -> (r: Result<C, Error>)
        ensures
            match *old(self) {
                Lifecycle::Open { session, channel, active } => if active.count(kind)
                    < usize::MAX {
                    &&& r == Ok::<C, Error>(channel)
                    &&& *final(self) == old(self).with_active(
                        active.with(kind, (active.count(kind) + 1) as usize),
                    )
                } else {
                    &&& outcome(r) == Err::<C, ErrorView>(
                        custom(ErrorKind::Other, "macFUSE active call count overflowed"@),
                    )
                    &&& *final(self) == *old(self)
                },
                _ => {
                    &&& outcome(r) == Err::<C, ErrorView>(closing_error())
                    &&& *final(self) == *old(self)
                },
            },
            moved(*old(self), *final(self)),
    {
        match self {
            Lifecycle::Open { channel, active, .. } => {
                let channel = *channel;
                match active.begin(kind) {
                    Ok(()) => {
                        assert(call_began(*old(self), *self, kind));
                        Ok(channel)
                    },
                    Err(error) => Err(error),
                }
            },
            Lifecycle::Closing { .. } | Lifecycle::Closed => Err(
                Error::new(ErrorKind::NotConnected, "macFUSE channel is closing"),
            ),
        }
    }

    /// Admits a receive; where it is refused, the device is gone as far as the caller can tell.
    pub fn begin_receive(&mut self) -> (r: Result<C, Errno>)
        ensures
            match *old(self) {
                Lifecycle::Open { session, channel, active } => if active.receives < usize::MAX {
                    &&& r == Ok::<C, Errno>(channel)
                    &&& *final(self) == old(self).with_active(
                        active.with(CallKind::Receive, (active.receives + 1) as usize),
                    )
                } else {
                    r == Err::<C, Errno>(Errno::ENODEV) && *final(self) == *old(self)
                },
                _ => r == Err::<C, Errno>(Errno::ENODEV) && *final(self) == *old(self),
            },
            moved(*old(self), *final(self)),
    {
        match self.begin_call(CallKind::Receive) {
            Ok(channel) => Ok(channel),
            Err(error) => Err(io_error_to_errno(error)),
        }
    }

    /// Ends an admitted call.
    pub fn finish_call(&mut self, kind: CallKind)
        requires
            old(self).active().count(kind) > 0,
        ensures
            *final(self) == old(self).with_active(
                old(self).active().with(kind, (old(self).active().count(kind) - 1) as usize),
            ),
            moved(*old(self), *final(self)),
    {
        match self.active_mut() {
            Some(active) => active.finish(kind),
            None => {},
        }
        assert(call_finished(*old(self), *self, kind));
    }

    /// Stops the admission of calls. Gives the handles, and whether this was the call that
    /// stopped it, so that the session is told to exit once.
    pub fn begin_close(&mut self) -> (r: Option<(S, C, bool)>)
        ensures
            *final(self) == old(self).closing(),
            moved(*old(self), *final(self)),
            r == match *old(self) {
                Lifecycle::Open { session, channel, .. } => Some((session, channel, true)),
                Lifecycle::Closing { session, channel, .. } => Some((session, channel, false)),
                Lifecycle::Closed => None,
            },
    {
        match self {
            Lifecycle::Open { session, channel, active } => {
                let (session, channel, active) = (*session, *channel, *active);
                *self = Lifecycle::Closing { session, channel, active };
                Some((session, channel, true))
            },
            Lifecycle::Closing { session, channel, .. } => Some((*session, *channel, false)),
            Lifecycle::Closed => None,
        }
    }

    /// The handles of a channel that no call uses any more.
    pub fn drained_handles(&self) -> (r: (S, C))
        requires
            self.drained(),
        ensures
            self matches Lifecycle::Closing { session, channel, .. } && r == (*session, *channel),
    {
        match self {
            Lifecycle::Closing { session, channel, .. } => (*session, *channel),
            _ => unreached(),
        }
    }

    /// Gives the handles up, once they were released.
    pub fn mark_closed(&mut self)
        requires
            old(self).drained() || *old(self) is Closed,
        ensures
            *final(self) is Closed,
            moved(*old(self), *final(self)),
    {
        *self = Lifecycle::Closed;
    }
}

/// The errno of an I/O error: its own, or that of a device that is gone.
pub fn io_error_to_errno(error: Error) -> (r: Errno)
    ensures
        match error@ {
            ErrorView::Os(code) => stands_for(r, code, Os::Macos),
            ErrorView::Custom { .. } => r == Errno::ENODEV,
        },
{
    match error.raw_os_error() {
        Some(code) => errno_from_raw(code, Os::Macos),
        None => Errno::ENODEV,
    }
}

/// The error of a close that ran out of time.
pub fn drain_timeout_error() -> (r: Error)
    ensures
        r@ == custom(
            ErrorKind::TimedOut,
            "macFUSE channel calls did not drain before the deadline; provider state was retained"@,
        ),
{
    Error::new(
        ErrorKind::TimedOut,
        "macFUSE channel calls did not drain before the deadline; provider state was retained",
    )
}

/// The result of a receive: a message of no bytes tells that the device is gone.
pub open spec fn passed_on(result: Result<usize, Errno>) -> Result<usize, Errno> {
    if result == Ok::<usize, Errno>(0) {
        Err(Errno::ENODEV)
    } else {
        result
    }
}

/// The result of a receive: a message of no bytes tells that the device is gone.
pub fn received(result: Result<usize, Errno>) -> (r: Result<usize, Errno>)
    ensures
        r == passed_on(result),
{
    match result {
        Ok(0) => Err(Errno::ENODEV),
        result => result,
    }
}

/// `result` is what the status of the provider's receive call says.
pub open spec fn says_received(
    status: i32,
    same_channel: bool,
    capacity: usize,
    result: Result<usize, Errno>,
) -> bool {
    if status == i32::MIN {
        result == Err::<usize, Errno>(Errno::EIO)
    } else if status < 0 {
        result matches Err(errno) && stands_for(errno, (-status) as i32, Os::Macos)
    } else if same_channel && status <= capacity {
        result == Ok::<usize, Errno>(status as usize)
    } else {
        result == Err::<usize, Errno>(Errno::EIO)
    }
}

/// What the status of the provider's receive call says: a negative status is an error code. A
/// message has to come from the channel that was asked, and has to fit in the buffer.
pub fn receive_status(status: i32, same_channel: bool, capacity: usize) -> (r: Result<
    usize,
    Errno,
>)
    ensures
        says_received(status, same_channel, capacity, r),
{
    if status < 0 {
        if status == i32::MIN {
            Err(Errno::EIO)
        } else {
            Err(errno_from_raw(-status, Os::Macos))
        }
    } else if !same_channel || status as usize > capacity {
        Err(Errno::EIO)
    } else {
        Ok(status as usize)
    }
}

/// What the status of the provider's send call says.
pub open spec fn send_outcome(status: i32) -> Result<(), ErrorView> {
    if status == 0 {
        Ok(())
    } else if status == i32::MIN {
        Err(custom(ErrorKind::Other, "fuse_chan_send returned an invalid status"@))
    } else if status < 0 {
        Err(ErrorView::Os((-status) as i32))
    } else {
        Err(
            custom(
                ErrorKind::Other,
                "fuse_chan_send returned unexpected status "@ + decimal(status as nat),
            ),
        )
    }
}

/// What the status of the provider's send call says.
pub fn send_status(status: i32) -> (r: Result<(), Error>)
    ensures
        outcome(r) == send_outcome(status),
{
    if status == 0 {
        Ok(())
    } else if status == i32::MIN {
        Err(Error::other("fuse_chan_send returned an invalid status"))
    } else if status < 0 {
        Err(Error::Os(-status))
    } else {
        let number = decimal_text(status as u64);
        let message = joined("fuse_chan_send returned unexpected status ", number.as_str());
        Err(Error::other(message.as_str()))
    }
}

} // verus!
