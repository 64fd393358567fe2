//! The owner of a message channel, from before it is mounted until it is released.
//!
//! The owner takes each native object over as soon as it exists, so that whatever fails next,
//! what was acquired is still released.

use vstd::prelude::*;
use vstd::string::*;

use crate::darwin::close::CloseAction;
use crate::error::{custom, outcome, Error, ErrorKind, ErrorView};

verus! {

/// What the owner holds. `S` and `C` are the provider's handles of a session and a channel, `H`
/// is the shared channel that uses them.
#[derive(Debug)]
pub enum MountedChannelOwnerState<S, C, H> {
    Empty,
    Channel(C),
    UnattachedSession { session: S, channel: C },
    AttachedSession { session: S, channel: C },
    Mounted(H),
    Released,
}

/// The owner of a message channel.
#[derive(Debug)]
pub struct MountedChannelOwner<S, C, H> {
    pub state: MountedChannelOwnerState<S, C, H>,
}

/// The calls that release what the owner itself holds, in their order. A mounted channel is
/// released by its own close.
pub open spec fn owner_release<S, C, H>(state: MountedChannelOwnerState<S, C, H>) -> Seq<
    CloseAction<S, C>,
> {
    match state {
        MountedChannelOwnerState::Channel(channel) => seq![
            CloseAction::Unmount(channel),
            CloseAction::DestroyChannel(channel),
        ],
        MountedChannelOwnerState::UnattachedSession { session, channel } => seq![
            CloseAction::DestroySession(session),
            CloseAction::Unmount(channel),
            CloseAction::DestroyChannel(channel),
        ],
        MountedChannelOwnerState::AttachedSession { session, channel } => seq![
            CloseAction::RemoveChannel(channel),
            CloseAction::DestroySession(session),
            CloseAction::Unmount(channel),
            CloseAction::DestroyChannel(channel),
        ],
        _ => seq![],
    }
}

/// What to do after the attempt to make a session.
#[derive(Debug)]
pub enum SessionMade<S, C> {
    /// Attach the channel to the session.
    Attach { session: S, channel: C },
    /// Close the owner, and then return this error.
    CloseAndFail(Error),
}

/// The error of a native call that failed, by the system's error when it did: an error without
/// a code says nothing, and is replaced.
pub open spec fn native_error(error: ErrorView) -> ErrorView {
    match error {
        ErrorView::Os(code) if code != 0 => error,
        _ => custom(ErrorKind::Other, "libfuse returned no error detail"@),
    }
}

/// The error of a native call that failed, by the system's error when it did.
pub fn ensure_last_os_error(error: Error) -> (r: Error)
    ensures
        r@ == native_error(error@),
{
    match error.raw_os_error() {
        Some(0) | None => Error::other("libfuse returned no error detail"),
        Some(_) => error,
    }
}

impl<S: Copy, C: Copy, H> MountedChannelOwner<S, C, H> {
    /// An owner that holds nothing.
    pub fn new() -> (r: Self)
        ensures
            r.state is Empty,
    {
        MountedChannelOwner { state: MountedChannelOwnerState::Empty }
    }

    /// Whether a mount may begin: an owner mounts once.
    pub fn begin_mount(&self) -> (r: Result<(), Error>)
        ensures
            outcome(r) == (if self.state is Empty {
                Ok::<(), ErrorView>(())
            } else {
                Err(custom(ErrorKind::AlreadyExists, "macFUSE channel owner was already used"@))
            }),
    {
        match &self.state {
            MountedChannelOwnerState::Empty => Ok(()),
            _ => Err(
                Error::new(ErrorKind::AlreadyExists, "macFUSE channel owner was already used"),
            ),
        }
    }

    /// Takes over the channel that the mount call gave, if it gave one.
    pub fn channel_made(&mut self, channel: Option<C>, last_error: Error) -> (r: Result<C, Error>)
        requires
            old(self).state is Empty,
        ensures
            match channel {
                Some(channel) => r == Ok::<C, Error>(channel) && final(self).state
                    == MountedChannelOwnerState::<S, C, H>::Channel(channel),
                None => outcome(r) == Err::<C, ErrorView>(native_error(last_error@))
                    && *final(self) == *old(self),
            },
    {
        match channel {
            Some(channel) => {
                self.state = MountedChannelOwnerState::Channel(channel);
                Ok(channel)
            },
            None => Err(ensure_last_os_error(last_error)),
        }
    }

    /// Takes over the session that was made for the channel, if it was.
    pub fn session_made(&mut self, session: Option<S>, last_error: Error) -> (r: SessionMade<S, C>)
        requires
            old(self).state is Channel,
        ensures
            match session {
                Some(session) => {
                    &&& r == (SessionMade::<S, C>::Attach {
                        session,
                        channel: old(self).state->Channel_0,
                    })
                    &&& final(self).state == (MountedChannelOwnerState::<
                        S,
                        C,
                        H,
                    >::UnattachedSession { session, channel: old(self).state->Channel_0 })
                },
                None => {
                    &&& r matches SessionMade::CloseAndFail(error) && error@ == native_error(
                        last_error@,
                    )
                    &&& *final(self) == *old(self)
                },
            },
    {
        match session {
            Some(session) => {
                let channel = match &self.state {
                    MountedChannelOwnerState::Channel(channel) => *channel,
                    _ => vstd::pervasive::unreached(),
                };
                self.state = MountedChannelOwnerState::UnattachedSession { session, channel };
                SessionMade::Attach { session, channel }
            },
            None => SessionMade::CloseAndFail(ensure_last_os_error(last_error)),
        }
    }

    /// Records that the channel was attached to its session.
    pub fn attached(&mut self)
        requires
            old(self).state is UnattachedSession,
        ensures
            old(self).state matches MountedChannelOwnerState::UnattachedSession {
                session,
                channel,
            } && final(self).state == (MountedChannelOwnerState::<S, C, H>::AttachedSession {
                session,
                channel,
            }),
    {
        if let MountedChannelOwnerState::UnattachedSession { session, channel } = &self.state {
            let (session, channel) = (*session, *channel);
            self.state = MountedChannelOwnerState::AttachedSession { session, channel };
        }
    }

    /// Hands the native objects over to the shared channel.
    pub fn install(&mut self, shared: H)
        requires
            old(self).state is AttachedSession,
        ensures
            final(self).state == MountedChannelOwnerState::<S, C, H>::Mounted(shared),
    {
        self.state = MountedChannelOwnerState::Mounted(shared);
    }

    /// The calls that release what the owner itself holds, in their order.
    pub fn close_calls(&self) -> (r: Vec<CloseAction<S, C>>)
        ensures
            r@ == owner_release(self.state),
    {
        let r = match &self.state {
            MountedChannelOwnerState::Channel(channel) => vec![
                CloseAction::Unmount(*channel),
                CloseAction::DestroyChannel(*channel),
            ],
            MountedChannelOwnerState::UnattachedSession { session, channel } => vec![
                CloseAction::DestroySession(*session),
                CloseAction::Unmount(*channel),
                CloseAction::DestroyChannel(*channel),
            ],
            MountedChannelOwnerState::AttachedSession { session, channel } => vec![
                CloseAction::RemoveChannel(*channel),
                CloseAction::DestroySession(*session),
                CloseAction::Unmount(*channel),
                CloseAction::DestroyChannel(*channel),
            ],
            _ => vec![],
        };
        assert(r@ =~= owner_release(self.state));
        r
    }

    /// Records the end of a close: the calls that release what the owner holds were made, or the
    /// close of the shared channel gave `shared_close`. Where that failed, the owner keeps it.
    pub fn closed(&mut self, shared_close: Result<(), Error>) -> (r: Result<(), Error>)
        ensures
            old(self).state is Mounted && shared_close is Err ==> r == shared_close && *final(self)
                == *old(self),
            !(old(self).state is Mounted && shared_close is Err) ==> r == Ok::<(), Error>(())
                && final(self).state is Released,
    {
        if let MountedChannelOwnerState::Mounted(_) = &self.state {
            if shared_close.is_err() {
                return shared_close;
            }
        }
        self.state = MountedChannelOwnerState::Released;
        Ok(())
    }
}

/// The channel that an owner holds by itself.
pub open spec fn held_channel<S, C, H>(state: MountedChannelOwnerState<S, C, H>) -> Option<C> {
    match state {
        MountedChannelOwnerState::Channel(channel) => Some(channel),
        MountedChannelOwnerState::UnattachedSession { channel, .. } => Some(channel),
        MountedChannelOwnerState::AttachedSession { channel, .. } => Some(channel),
        _ => None,
    }
}

/// The session that an owner holds by itself.
pub open spec fn held_session<S, C, H>(state: MountedChannelOwnerState<S, C, H>) -> Option<S> {
    match state {
        MountedChannelOwnerState::UnattachedSession { session, .. } => Some(session),
        MountedChannelOwnerState::AttachedSession { session, .. } => Some(session),
        _ => None,
    }
}

/// An owner releases exactly what it holds: its channel is unmounted and then given up as the
/// last thing, its session is destroyed before, and what it does not hold is left alone.
pub proof fn law_owner_releases_what_it_holds<S, C, H>(state: MountedChannelOwnerState<S, C, H>)
    ensures
        ({
            let calls = owner_release(state);
            &&& held_channel(state) matches Some(channel) ==> calls.len() >= 2 && calls[calls.len()
                - 2] == CloseAction::<S, C>::Unmount(channel) && calls.last() == CloseAction::<
                S,
                C,
            >::DestroyChannel(channel)
            &&& held_session(state) matches Some(session) ==> calls.len() >= 3 && calls[calls.len()
                - 3] == CloseAction::<S, C>::DestroySession(session)
            &&& state is AttachedSession <==> calls.len() == 4 && calls[0] is RemoveChannel
            &&& held_channel(state) is None ==> calls.len() == 0
            &&& held_session(state) is None && held_channel(state) is Some ==> calls.len() == 2
        }),
{
}

/// The error of a native call is the system's where that has a code, and else one of no
/// particular category.
pub proof fn law_native_errors_say_something(error: ErrorView)
    ensures
        error matches ErrorView::Os(code) ==> (code != 0 ==> native_error(error) == error),
        error == ErrorView::Os(0) || error is Custom ==> (
        native_error(error) matches ErrorView::Custom { kind, .. } && kind == ErrorKind::Other),
{
}

/// An owner mounts once. It takes each native object over as it is made: it has a channel of its
/// own, then a session beside it, then both attached, and at last the shared channel in their
/// place. What was not made changes nothing.
pub proof fn law_owner_takes_over_what_is_made<S: Copy, C: Copy, H>(
    owner: MountedChannelOwner<S, C, H>,
    begun: Result<(), Error>,
    made: Option<C>,
    session: Option<S>,
    last_error: Error,
    shared: H,
)
    requires
        call_ensures(MountedChannelOwner::<S, C, H>::begin_mount, (&owner,), begun),
    ensures
        begun is Ok <==> owner.state is Empty,
        begun matches Err(error) ==> (error matches Error::Custom { kind, .. } && kind
            == ErrorKind::AlreadyExists),
        forall|before: &mut MountedChannelOwner<S, C, H>, r: Result<C, Error>| #[trigger]
            call_ensures(
                MountedChannelOwner::<S, C, H>::channel_made,
                (before, made, last_error),
                r,
            ) ==> {
                &&& made matches Some(channel) ==> r == Ok::<C, Error>(channel) && held_channel(
                    final(before).state,
                ) == made && held_session(final(before).state) is None
                &&& made is None ==> r is Err && final(before).state == before.state
            },
        forall|before: &mut MountedChannelOwner<S, C, H>, r: SessionMade<S, C>| #[trigger]
            call_ensures(
                MountedChannelOwner::<S, C, H>::session_made,
                (before, session, last_error),
                r,
            ) && before.state is Channel ==> {
                &&& held_channel(final(before).state) == held_channel(before.state)
                &&& held_session(final(before).state) == session
                &&& session is None <==> r is CloseAndFail
                &&& session is Some <==> final(before).state is UnattachedSession
                &&& r matches SessionMade::Attach { session: s, channel: c } ==> Some(s) == session
                    && Some(c) == held_channel(before.state)
            },
        forall|before: &mut MountedChannelOwner<S, C, H>| #[trigger]
            call_ensures(MountedChannelOwner::<S, C, H>::attached, (before,), ())
                && before.state is UnattachedSession ==> {
                &&& final(before).state is AttachedSession
                &&& held_channel(final(before).state) == held_channel(before.state)
                &&& held_session(final(before).state) == held_session(before.state)
            },
        forall|before: &mut MountedChannelOwner<S, C, H>| #[trigger]
            call_ensures(MountedChannelOwner::<S, C, H>::install, (before, shared), ()) ==> {
                &&& final(before).state == MountedChannelOwnerState::<S, C, H>::Mounted(shared)
            },
{
}

/// An owner is released unless it is mounted and the close of the shared channel failed: that
/// error is returned, and the owner keeps what it has.
pub proof fn law_failed_close_keeps_the_channel<S: Copy, C: Copy, H>(
    shared_close: Result<(), Error>,
)
    ensures
        forall|owner: &mut MountedChannelOwner<S, C, H>, r: Result<(), Error>| #[trigger]
            call_ensures(MountedChannelOwner::<S, C, H>::closed, (owner, shared_close), r) ==> {
                &&& r is Err <==> owner.state is Mounted && shared_close is Err
                &&& r is Err ==> r == shared_close && final(owner).state == owner.state
                &&& r is Ok ==> final(owner).state is Released
            },
{
}

} // verus!
