//! The construction of a background session, with an owner that can always be released.

use vstd::prelude::*;
use vstd::string::*;

use crate::acl::SessionACL;
use crate::background::BackgroundSession;
use crate::dispatch::{DispatchActivation, DispatchOwner, OwnerView};
use crate::error::{custom, outcome, Error, ErrorKind, ErrorView};
use crate::mount_options::{AclRequestIdentity, Config, MountOption};
use crate::session::{
    mounted_validation, validate_mounted_session_config, FilesystemHolder, Session, UmountOnDrop,
};
use crate::target::Target;

verus! {

/// How far a construction has come.
#[derive(Clone, Copy, Debug, PartialEq, Eq, Structural)]
pub enum SessionOwnerState {
    /// Nothing native was acquired.
    Prepared,
    /// The construction was begun, and has not succeeded.
    Constructing,
    /// Everything native was handed to a background session.
    Transferred,
    /// Everything native was released.
    Released,
}

/// Result of releasing a construction owner after construction did not finish.
#[derive(Debug)]
#[must_use]
pub enum SessionOwnerShutdown {
    /// Native release did not finish; the same owner remains retryable.
    Pending(Error),
    /// Every native owner held by the construction value was released.
    Complete,
}

/// Non-cloneable owner for recoverable native session construction.
///
/// [`SessionOwner::new`] performs validation and creates the owner before any
/// native mount call. [`SessionOwner::construct`] mutates it through a borrow,
/// so an error or caught unwind leaves the caller holding cleanup authority.
#[derive(Debug)]
pub struct SessionOwner<FS, C, M> {
    filesystem: Option<FS>,
    config: Config,
    acl_request_identity: AclRequestIdentity,
    session_owner: u32,
    mount: Option<UmountOnDrop<M>>,
    channel: Option<C>,
    session: Option<Option<Session<FS, C, M>>>,
    state: SessionOwnerState,
}

/// What a [`SessionOwner`] holds.
pub struct SessionOwnerView<FS, C, M> {
    pub filesystem: Option<FS>,
    pub config: Config,
    pub acl_request_identity: AclRequestIdentity,
    pub session_owner: u32,
    pub mount: Option<Option<M>>,
    pub channel: Option<C>,
    pub session: Option<Option<Session<FS, C, M>>>,
    pub state: SessionOwnerState,
}

impl<FS, C, M> View for SessionOwner<FS, C, M> {
    type V = SessionOwnerView<FS, C, M>;

    closed spec fn view(&self) -> SessionOwnerView<FS, C, M> {
        SessionOwnerView {
            filesystem: self.filesystem,
            config: self.config,
            acl_request_identity: self.acl_request_identity,
            session_owner: self.session_owner,
            mount: match self.mount {
                None => None,
                Some(owner) => Some(owner.mount),
            },
            channel: self.channel,
            session: self.session,
            state: self.state,
        }
    }
}

impl<FS, C, M> SessionOwnerView<FS, C, M> {
    /// The mount that the owner has to release.
    pub open spec fn retained(self) -> Option<M> {
        match (self.mount, self.session) {
            (Some(mount), _) => mount,
            (None, Some(Some(session))) => session.mount.mount,
            _ => None,
        }
    }

    /// The owner with another mount in the place of the one that it has to release.
    pub open spec fn with_retained(self, mount: Option<M>) -> SessionOwnerView<FS, C, M> {
        match (self.mount, self.session) {
            (Some(_), _) => SessionOwnerView { mount: Some(mount), ..self },
            (None, Some(Some(session))) => SessionOwnerView {
                session: Some(Some(Session { mount: UmountOnDrop { mount }, ..session })),
                ..self
            },
            _ => self,
        }
    }

    /// The session is the one that the owner makes of a channel and a mount.
    pub open spec fn makes(self, session: Session<FS, C, M>, channel: C, mount: M) -> bool {
        self.filesystem matches Some(filesystem) && session.fresh(
            filesystem,
            channel,
            Some(mount),
            self.config.acl,
            self.session_owner,
            self.acl_request_identity,
            self.config@,
        )
    }

    /// The owner holds nothing.
    pub open spec fn is_empty(self) -> bool {
        &&& self.filesystem is None
        &&& self.mount is None
        &&& self.channel is None
        &&& self.session is None
    }

    /// The owner holds what its state says. A construction in progress holds its mount, either
    /// itself or in the session that it has made; where the start of the thread unwound, the mount
    /// is all that is left.
    pub open spec fn well_formed(self) -> bool {
        &&& self.channel is None
        &&& match self.state {
            SessionOwnerState::Prepared => {
                &&& self.filesystem is Some
                &&& self.mount matches Some(Some(_))
                &&& self.session is None
            },
            SessionOwnerState::Constructing => {
                ||| self.filesystem is Some && self.mount is Some && self.session is None
                ||| self.filesystem is None && self.session matches Some(Some(_))
                ||| self.filesystem is None && self.mount is Some && self.session is None
            },
            _ => self.is_empty(),
        }
    }
}

impl<FS, C, M> SessionOwner<FS, C, M> {
    /// Prepare a recoverable construction owner without acquiring native state. `prepare` makes
    /// the mount owner, once the configuration is known to be valid.
    ///
    /// # Errors
    ///
    /// Returns an error when the configuration or mountpoint is invalid.
    pub fn new<F: FnOnce() -> Result<M, Error>>(
        filesystem: FS,
        options: &Config,
        target: Target,
        session_owner: u32,
        prepare: F,
    ) -> (r: Result<SessionOwner<FS, C, M>, Error>)
        requires
            mounted_validation(options@, target) is Ok ==> call_requires(prepare, ()),
        ensures
            match mounted_validation(options@, target) {
                Err(error) => outcome(r) == Err::<SessionOwner<FS, C, M>, ErrorView>(error),
                Ok(identity) => exists|prepared: Result<M, Error>|
                    {
                        &&& #[trigger] call_ensures(prepare, (), prepared)
                        &&& match prepared {
                            Err(error) => r == Err::<SessionOwner<FS, C, M>, Error>(error),
                            Ok(mount) => {
                                &&& r matches Ok(owner)
                                &&& owner@.well_formed()
                                &&& owner@.state == SessionOwnerState::Prepared
                                &&& owner@.filesystem == Some(filesystem)
                                &&& owner@.mount == Some(Some(mount))
                                &&& owner@.config@ == options@
                                &&& owner@.acl_request_identity == identity
                                &&& owner@.session_owner == session_owner
                            },
                        }
                    },
            },
    {
        let acl_request_identity = match validate_mounted_session_config(options, target) {
            Ok(identity) => identity,
            Err(error) => return Err(error),
        };
        match prepare() {
            Err(error) => Err(error),
            Ok(mount) => Ok(
                SessionOwner {
                    filesystem: Some(filesystem),
                    config: options.clone(),
                    acl_request_identity,
                    session_owner,
                    mount: Some(UmountOnDrop { mount: Some(mount) }),
                    channel: None,
                    session: None,
                    state: SessionOwnerState::Prepared,
                },
            ),
        }
    }

    /// Mounts, and makes a session of the channel that came of it. The session holds the
    /// filesystem and the mount from then on.
    fn acquire_and_install_session<
        F: FnOnce(&mut M, &Vec<MountOption>, SessionACL) -> Result<C, Error>,
    >(&mut self, mount: F) -> (r: Result<(), Error>)
        requires
            old(self)@.well_formed(),
            old(self)@.state == SessionOwnerState::Constructing,
            old(self)@.session is None,
            old(self)@.filesystem is Some,
            old(self)@.mount matches Some(Some(_)),
            forall|owner: &mut M|
                old(self)@.mount == Some(Some(*owner)) ==> call_requires(
                    mount,
                    (owner, &old(self)@.config.mount_options, old(self)@.config.acl),
                ),
        ensures
            final(self)@.well_formed(),
            exists|owner: &mut M, mounted: Result<C, Error>|
                {
                    &&& #[trigger] call_ensures(
                        mount,
                        (owner, &old(self)@.config.mount_options, old(self)@.config.acl),
                        mounted,
                    )
                    &&& old(self)@.mount == Some(Some(*owner))
                    &&& match mounted {
                        Err(error) => {
                            &&& r == Err::<(), Error>(error)
                            &&& final(self)@ == (SessionOwnerView {
                                mount: Some(Some(*final(owner))),
                                ..old(self)@
                            })
                        },
                        Ok(channel) => {
                            &&& r is Ok
                            &&& final(self)@.session matches Some(Some(session))
                            &&& old(self)@.makes(session, channel, *final(owner))
                            &&& final(self)@ == (SessionOwnerView {
                                filesystem: None,
                                mount: None,
                                session: final(self)@.session,
                                ..old(self)@
                            })
                        },
                    }
                },
    {
        let mounted = match self.mount.as_mut() {
            None => {
                return Err(Error::other("session construction has no prepared mount owner"));
            },
            Some(owner) => match owner.mount.as_mut() {
                None => {
                    return Err(Error::other("session construction mount owner was released"));
                },
                Some(owner) => mount(owner, &self.config.mount_options, self.config.acl),
            },
        };
        match mounted {
            Err(error) => return Err(error),
            Ok(channel) => {
                self.channel = Some(channel);
            },
        }
        let filesystem = match self.filesystem.take() {
            Some(filesystem) => filesystem,
            None => {
                return Err(Error::other("session construction lost its filesystem owner"));
            },
        };
        let ch = match self.channel.take() {
            Some(channel) => channel,
            None => {
                return Err(Error::other("session construction lost its channel owner"));
            },
        };
        let mount = match self.mount.take() {
            Some(mount) => mount,
            None => {
                return Err(Error::other("session construction lost its mount owner"));
            },
        };
        let session = Session {
            filesystem: FilesystemHolder { fs: Some(filesystem) },
            ch,
            mount,
            allowed: self.config.acl,
            session_owner: self.session_owner,
            acl_request_identity: self.acl_request_identity,
            proto_version: None,
            config: self.config.clone(),
        };
        self.session = Some(Some(session));
        Ok(())
    }

    /// Mount, complete INIT, and return a dispatch owner that is not active yet. `mount` mounts
    /// and gives the channel; `handshake` completes INIT over it; `sender` gives what sends
    /// notifications; and `start` starts a thread that waits for the command to run the session,
    /// or gives the session back with the reason.
    ///
    /// Call [`BackgroundSession::activate`] only after storing the returned
    /// owner. Before activation, the dispatch thread serves no ordinary
    /// filesystem requests.
    ///
    /// # Errors
    ///
    /// Returns a construction or thread-spawn error. The caller retains `self`
    /// and must drive [`SessionOwner::shutdown`] until it completes.
    pub fn construct<
        N,
        G,
        A,
        F: FnOnce(&mut M, &Vec<MountOption>, SessionACL) -> Result<C, Error>,
        H: FnOnce(&mut Session<FS, C, M>) -> Result<(), Error>,
        S: FnOnce(&C) -> N,
        T: FnOnce(Session<FS, C, M>) -> Result<(G, A), (Error, Session<FS, C, M>)>,
    >(&mut self, mount: F, handshake: H, sender: S, start: T) -> (r: Result<
        BackgroundSession<N, M, G, A>,
        Error,
    >)
        requires
            old(self)@.well_formed(),
            old(self)@.state == SessionOwnerState::Prepared ==> forall|owner: &mut M|
                old(self)@.mount == Some(Some(*owner)) ==> call_requires(
                    mount,
                    (owner, &old(self)@.config.mount_options, old(self)@.config.acl),
                ),
            old(self)@.state == SessionOwnerState::Prepared ==> forall|
                owner: &mut M,
                channel: C,
                session: &mut Session<FS, C, M>,
            |
                old(self)@.mount == Some(Some(*owner)) && #[trigger] call_ensures(
                    mount,
                    (owner, &old(self)@.config.mount_options, old(self)@.config.acl),
                    Ok(channel),
                ) && old(self)@.makes(*session, channel, *final(owner)) ==> #[trigger]
                    call_requires(handshake, (session,)),
            old(self)@.state == SessionOwnerState::Prepared ==> forall|
                session: &mut Session<FS, C, M>,
                shaken: Result<(), Error>,
            |
                #[trigger] call_ensures(handshake, (session,), shaken) && (
                session.mount.mount matches Some(owned) && old(self)@.makes(
                    *session,
                    session.ch,
                    owned,
                )) ==> {
                    &&& final(session).mount == session.mount
                    &&& shaken is Ok ==> call_requires(sender, (&final(session).ch,))
                    &&& shaken is Ok ==> call_requires(start, (final(session).unmounted(),))
                },
            old(self)@.state == SessionOwnerState::Prepared ==> forall|
                session: Session<FS, C, M>,
                error: Error,
                returned: Session<FS, C, M>,
            |
                session.mount.mount is None && #[trigger] call_ensures(
                    start,
                    (session,),
                    Err((error, returned)),
                ) ==> returned == session,
        ensures
            final(self)@.well_formed(),
            old(self)@.state != SessionOwnerState::Prepared ==> {
                &&& outcome(r) == Err::<BackgroundSession<N, M, G, A>, ErrorView>(
                    custom(
                        ErrorKind::AlreadyExists,
                        "session construction was already attempted"@,
                    ),
                )
                &&& final(self)@ == old(self)@
            },
            old(self)@.state == SessionOwnerState::Prepared ==> {
                &&& final(self)@.state == (if r is Ok {
                    SessionOwnerState::Transferred
                } else {
                    SessionOwnerState::Constructing
                })
                &&& r is Err ==> final(self)@.retained() is Some
                &&& r matches Ok(background) ==> background.mount.mount is Some
            },
            old(self)@.state == SessionOwnerState::Prepared ==> exists|
                owner: &mut M,
                mounted: Result<C, Error>,
            |
                {
                    &&& #[trigger] call_ensures(
                        mount,
                        (owner, &old(self)@.config.mount_options, old(self)@.config.acl),
                        mounted,
                    )
                    &&& old(self)@.mount == Some(Some(*owner))
                    &&& match mounted {
                        Err(error) => {
                            &&& r == Err::<BackgroundSession<N, M, G, A>, Error>(error)
                            &&& final(self)@ == (SessionOwnerView {
                                mount: Some(Some(*final(owner))),
                                state: SessionOwnerState::Constructing,
                                ..old(self)@
                            })
                        },
                        Ok(channel) => exists|
                            session: &mut Session<FS, C, M>,
                            shaken: Result<(), Error>,
                        |
                            {
                                &&& #[trigger] call_ensures(handshake, (session,), shaken)
                                &&& old(self)@.makes(*session, channel, *final(owner))
                                &&& match shaken {
                                    Err(error) => {
                                        &&& r == Err::<BackgroundSession<N, M, G, A>, Error>(error)
                                        &&& final(self)@ == (SessionOwnerView {
                                            filesystem: None,
                                            mount: None,
                                            session: Some(Some(*final(session))),
                                            state: SessionOwnerState::Constructing,
                                            ..old(self)@
                                        })
                                    },
                                    Ok(()) => exists|
                                        notifier: N,
                                        started: Result<(G, A), (Error, Session<FS, C, M>)>,
                                    |
                                        {
                                            &&& #[trigger] call_ensures(
                                                sender,
                                                (&final(session).ch,),
                                                notifier,
                                            )
                                            &&& #[trigger] call_ensures(
                                                start,
                                                (final(session).unmounted(),),
                                                started,
                                            )
                                            &&& match started {
                                                Err((error, _)) => {
                                                    &&& r == Err::<
                                                        BackgroundSession<N, M, G, A>,
                                                        Error,
                                                    >(error)
                                                    &&& final(self)@ == (SessionOwnerView {
                                                        filesystem: None,
                                                        mount: Some(final(session).mount.mount),
                                                        session: Some(
                                                            Some(final(session).unmounted()),
                                                        ),
                                                        state: SessionOwnerState::Constructing,
                                                        ..old(self)@
                                                    })
                                                },
                                                Ok((guard, activation)) => {
                                                    &&& r matches Ok(background)
                                                    &&& background.sender == notifier
                                                    &&& background.mount == final(session).mount
                                                    &&& background.dispatch@ == (OwnerView {
                                                        guard: Some(guard),
                                                        activation: DispatchActivation::Waiting(
                                                            activation,
                                                        ),
                                                        terminal: None,
                                                    })
                                                    &&& final(self)@ == (SessionOwnerView {
                                                        filesystem: None,
                                                        mount: None,
                                                        session: None,
                                                        state: SessionOwnerState::Transferred,
                                                        ..old(self)@
                                                    })
                                                },
                                            }
                                        },
                                }
                            },
                    }
                },
    {
        if self.state != SessionOwnerState::Prepared {
            return Err(
                Error::new(
                    ErrorKind::AlreadyExists,
                    "session construction was already attempted",
                ),
            );
        }
        self.state = SessionOwnerState::Constructing;
        if let Err(error) = self.acquire_and_install_session(mount) {
            return Err(error);
        }
        let (notifier, mount) = match self.session.as_mut() {
            None => {
                return Err(
                    Error::other("session construction did not install its session owner"),
                );
            },
            Some(slot) => match slot.as_mut() {
                None => {
                    return Err(Error::other("session construction lost its session owner"));
                },
                Some(session) => {
                    if let Err(error) = handshake(session) {
                        return Err(error);
                    }
                    let notifier = sender(&session.ch);
                    (notifier, session.take_mount())
                },
            },
        };
        self.mount = Some(mount);

        let dispatch_session = match self.session.take() {
            Some(Some(session)) => session,
            _ => {
                return Err(Error::other("session construction lost its session owner"));
            },
        };
        let (guard, activation) = match start(dispatch_session) {
            Ok(started) => started,
            Err((error, session)) => {
                self.session = Some(Some(session));
                return Err(error);
            },
        };
        let mount = match self.mount.take() {
            Some(mount) => mount,
            None => {
                return Err(Error::other("session construction lost its native mount owner"));
            },
        };
        self.state = SessionOwnerState::Transferred;
        Ok(
            BackgroundSession {
                sender: notifier,
                mount,
                dispatch: DispatchOwner::new(guard, activation),
            },
        )
    }

    /// Retry release of every native owner retained after failed construction.
    pub fn shutdown<F: FnOnce(&mut M) -> Result<(), Error>>(&mut self, umount: F) -> (r:
        SessionOwnerShutdown)
        requires
            old(self)@.well_formed(),
            forall|mount: &mut M|
                old(self)@.retained() == Some(*mount) ==> call_requires(umount, (mount,)),
        ensures
            final(self)@.well_formed(),
            r is Complete ==> final(self)@ == (SessionOwnerView {
                filesystem: None,
                mount: None,
                channel: None,
                session: None,
                state: SessionOwnerState::Released,
                ..old(self)@
            }),
            old(self)@.retained() is None ==> r is Complete,
            old(self)@.retained() matches Some(retained) ==> exists|
                mount: &mut M,
                released: Result<(), Error>,
            |
                {
                    &&& #[trigger] call_ensures(umount, (mount,), released)
                    &&& *mount == retained
                    &&& match released {
                        Ok(()) => r is Complete,
                        Err(error) => {
                            &&& r == SessionOwnerShutdown::Pending(error)
                            &&& final(self)@ == old(self)@.with_retained(Some(*final(mount)))
                        },
                    }
                },
    {
        let release = match self.mount.as_mut() {
            Some(mount) => mount.umount_until(umount),
            None => match self.session.as_mut() {
                Some(slot) => match slot.as_mut() {
                    Some(session) => session.mount.umount_until(umount),
                    None => Ok(()),
                },
                None => Ok(()),
            },
        };
        if let Err(error) = release {
            return SessionOwnerShutdown::Pending(error);
        }
        self.mount = None;
        self.channel = None;
        self.session = None;
        self.filesystem = None;
        self.state = SessionOwnerState::Released;
        SessionOwnerShutdown::Complete
    }
}

/// A release that failed can be tried again on the same owner: it holds the mount that is left,
/// and everything else as before.
pub proof fn law_failed_release_keeps_the_owner<FS, C, M>(
    owner: SessionOwnerView<FS, C, M>,
    mount: M,
)
    requires
        owner.well_formed(),
        owner.retained() is Some,
    ensures
        owner.with_retained(Some(mount)).retained() == Some(mount),
        owner.with_retained(Some(mount)).with_retained(owner.retained()) == owner,
        owner.with_retained(Some(mount)).well_formed(),
        owner.with_retained(Some(mount)).state == owner.state,
{
}

/// An owner whose construction was completed or released has nothing left to release, and one
/// whose construction has not begun has its mount.
pub proof fn law_state_says_what_is_held<FS, C, M>(owner: SessionOwnerView<FS, C, M>)
    requires
        owner.well_formed(),
    ensures
        owner.state == SessionOwnerState::Prepared ==> owner.retained() is Some,
        owner.state == SessionOwnerState::Transferred || owner.state
            == SessionOwnerState::Released ==> owner.is_empty() && owner.retained() is None,
{
}

/// An owner is prepared with what it was given, once its configuration was accepted and the mount
/// could be prepared; a refusal of the configuration comes first.
pub proof fn law_prepared_owner_holds_what_it_was_given<
    FS,
    C,
    M,
    F: FnOnce() -> Result<M, Error>,
>(
    filesystem: FS,
    options: Config,
    target: Target,
    session_owner: u32,
    prepare: F,
    r: Result<SessionOwner<FS, C, M>, Error>,
)
    requires
        call_ensures(
            SessionOwner::<FS, C, M>::new::<F>,
            (filesystem, &options, target, session_owner, prepare),
            r,
        ),
    ensures
        mounted_validation(options@, target) matches Err(error) ==> (r matches Err(refused)
            && refused@ == error),
        r matches Ok(owner) ==> {
            &&& owner@.state is Prepared
            &&& owner@.filesystem == Some(filesystem)
            &&& owner@.retained() is Some
            &&& owner@.session is None
            &&& owner@.channel is None
            &&& owner@.config@ == options@
            &&& owner@.session_owner == session_owner
            &&& Ok::<AclRequestIdentity, ErrorView>(owner@.acl_request_identity)
                == mounted_validation(options@, target)
        },
        mounted_validation(options@, target) is Ok && (forall|prepared: Result<M, Error>|
            #[trigger] call_ensures(prepare, (), prepared) ==> prepared is Ok) ==> r is Ok,
{
}

/// A construction is attempted once: a second attempt is refused and changes nothing. The first
/// hands everything to the background session that it gives, whose thread is not active yet, or
/// leaves the owner with a mount to release.
pub proof fn law_construction_is_attempted_once<
    FS,
    C,
    M,
    N,
    G,
    A,
    F: FnOnce(&mut M, &Vec<MountOption>, SessionACL) -> Result<C, Error>,
    H: FnOnce(&mut Session<FS, C, M>) -> Result<(), Error>,
    S: FnOnce(&C) -> N,
    T: FnOnce(Session<FS, C, M>) -> Result<(G, A), (Error, Session<FS, C, M>)>,
>(mount: F, handshake: H, sender: S, start: T)
    ensures
        forall|
            owner: &mut SessionOwner<FS, C, M>,
            r: Result<BackgroundSession<N, M, G, A>, Error>,
        | #[trigger]
            call_ensures(
                SessionOwner::<FS, C, M>::construct::<N, G, A, F, H, S, T>,
                (owner, mount, handshake, sender, start),
                r,
            ) ==> {
                &&& !(owner@.state is Prepared) ==> final(owner)@ == owner@ && (r matches Err(
                    Error::Custom { kind, .. },
                ) && kind == ErrorKind::AlreadyExists)
                &&& owner@.state is Prepared ==> {
                    &&& r is Ok <==> final(owner)@.state is Transferred
                    &&& r is Err <==> final(owner)@.state is Constructing
                    &&& r is Err ==> final(owner)@.retained() is Some
                    &&& r matches Ok(background) ==> {
                        &&& final(owner)@.is_empty()
                        &&& background.mount.mount is Some
                        &&& background.dispatch@.activation is Waiting
                        &&& background.dispatch@.guard is Some
                        &&& background.dispatch@.terminal is None
                    }
                    &&& final(owner)@.config == owner@.config
                    &&& final(owner)@.session_owner == owner@.session_owner
                }
            },
{
}

/// A release is complete exactly where nothing is left of what the owner held: it has failed while
/// the owner still has a mount, and the owner is otherwise as before.
pub proof fn law_release_is_complete_or_pending<FS, C, M, F: FnOnce(&mut M) -> Result<(), Error>>(
    umount: F,
)
    ensures
        forall|owner: &mut SessionOwner<FS, C, M>, r: SessionOwnerShutdown| #[trigger]
            call_ensures(SessionOwner::<FS, C, M>::shutdown::<F>, (owner, umount), r) ==> {
                &&& r is Complete ==> final(owner)@.is_empty() && final(owner)@.state is Released
                &&& r is Pending ==> {
                    &&& owner@.retained() is Some
                    &&& final(owner)@.retained() is Some
                    &&& final(owner)@.state == owner@.state
                    &&& final(owner)@.filesystem == owner@.filesystem
                    &&& final(owner)@.config == owner@.config
                }
                &&& owner@.retained() is None ==> r is Complete
            },
        (forall|mount: &mut M, released: Result<(), Error>|
            #[trigger] call_ensures(umount, (mount,), released) ==> released is Ok) ==> (forall|
            owner: &mut SessionOwner<FS, C, M>,
            r: SessionOwnerShutdown,
        | #[trigger]
            call_ensures(SessionOwner::<FS, C, M>::shutdown::<F>, (owner, umount), r)
                ==> r is Complete),
{
}

/// The mount that an owner has to release is the one that it holds itself, and else that of the
/// session that it has made. A session is made of all that the owner holds.
pub proof fn law_retained_mounts<FS, C, M>(
    owner: SessionOwnerView<FS, C, M>,
    session: Session<FS, C, M>,
    channel: C,
    mount: M,
)
    ensures
        owner.mount matches Some(held) ==> owner.retained() == held,
        owner.mount is None ==> (owner.session == Some(Some(session)) ==> owner.retained()
            == session.mount.mount),
        owner.mount is None && (owner.session is None || owner.session == Some(
            None::<Session<FS, C, M>>,
        )) ==> owner.retained() is None,
        owner.makes(session, channel, mount) ==> {
            &&& session.filesystem.fs == owner.filesystem
            &&& session.ch == channel
            &&& session.mount.mount == Some(mount)
            &&& session.allowed == owner.config.acl
            &&& session.session_owner == owner.session_owner
            &&& session.acl_request_identity == owner.acl_request_identity
            &&& session.config@ == owner.config@
            &&& session.proto_version is None
        },
{
}

/// A construction succeeds where the mount with the owner's options and users, the handshake and
/// the start of the thread do.
pub proof fn law_construction_succeeds_with_its_parts<
    FS,
    C,
    M,
    N,
    G,
    A,
    F: FnOnce(&mut M, &Vec<MountOption>, SessionACL) -> Result<C, Error>,
    H: FnOnce(&mut Session<FS, C, M>) -> Result<(), Error>,
    S: FnOnce(&C) -> N,
    T: FnOnce(Session<FS, C, M>) -> Result<(G, A), (Error, Session<FS, C, M>)>,
>(options: Vec<MountOption>, acl: SessionACL, mount: F, handshake: H, sender: S, start: T)
    requires
        forall|owner: &mut M, mounted: Result<C, Error>| #[trigger]
            call_ensures(mount, (owner, &options, acl), mounted) ==> mounted is Ok,
        forall|session: &mut Session<FS, C, M>, shaken: Result<(), Error>| #[trigger]
            call_ensures(handshake, (session,), shaken) ==> shaken is Ok,
        forall|
            session: Session<FS, C, M>,
            started: Result<(G, A), (Error, Session<FS, C, M>)>,
        | #[trigger] call_ensures(start, (session,), started) ==> started is Ok,
    ensures
        forall|
            owner: &mut SessionOwner<FS, C, M>,
            r: Result<BackgroundSession<N, M, G, A>, Error>,
        | #[trigger]
            call_ensures(
                SessionOwner::<FS, C, M>::construct::<N, G, A, F, H, S, T>,
                (owner, mount, handshake, sender, start),
                r,
            ) && owner@.state is Prepared && owner@.config.mount_options == options
                && owner@.config.acl == acl ==> r is Ok,
{
}

} // verus!
