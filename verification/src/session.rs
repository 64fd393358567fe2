//! Filesystem session
//!
//! A session runs a filesystem implementation while it is being mounted to a specific mount
//! point. A session begins by mounting the filesystem and ends by unmounting it. While the
//! filesystem is mounted, the session loop receives, dispatches and replies to kernel requests
//! for filesystem operations under its mount point.

use vstd::prelude::*;
use vstd::string::*;

use crate::acl::SessionACL;
use crate::error::{custom, outcome, Error, ErrorKind, ErrorView};
use crate::handshake::Version;
use crate::mount::release_retained;
use crate::mount_options::{
    contains_option, validate_config, validation, AclRequestIdentity, Config, ConfigView,
    MountOption, OptionView,
};
use crate::target::Target;

verus! {

/// The max size of write requests from the kernel. The absolute minimum is 4k,
/// FUSE recommends at least 128k, max 16M. The FUSE default is 16M on macOS
/// and 128k on other systems.
pub const MAX_WRITE_SIZE: usize = 16 * 1024 * 1024;

/// Holds a filesystem until it is destroyed.
#[derive(Debug)]
pub struct FilesystemHolder<FS> {
    pub fs: Option<FS>,
}

impl<FS> FilesystemHolder<FS> {
    /// What a holder hands over to be destroyed, and the holder that is left.
    pub open spec fn handed_over(self) -> (Option<FS>, FilesystemHolder<FS>) {
        (self.fs, FilesystemHolder { fs: None })
    }

    /// The holder after `n` calls of `destroy`.
    pub open spec fn after(self, n: nat) -> FilesystemHolder<FS>
        decreases n,
    {
        if n == 0 {
            self
        } else {
            self.after((n - 1) as nat).handed_over().1
        }
    }

    /// What call `i` of `destroy` hands over, counted from 0.
    pub open spec fn handed_by(self, i: nat) -> Option<FS> {
        self.after(i).handed_over().0
    }

    /// Destroys the filesystem, the first time. Dropping a holder is one more call.
    pub fn destroy<F: FnOnce(FS)>(&mut self, destroy: F)
        requires
            old(self).handed_over().0 matches Some(fs) ==> call_requires(destroy, (fs,)),
        ensures
            *final(self) == old(self).handed_over().1,
            old(self).handed_over().0 matches Some(fs) ==> call_ensures(destroy, (fs,), ()),
    {
        if let Some(fs) = self.fs.take() {
            destroy(fs);
        }
    }
}

/// A filesystem is destroyed exactly once over the life of its holder: however often `destroy` is
/// called before the holder is dropped, which calls it a last time, the first call alone hands
/// the filesystem over. After each call the holder is empty, and an empty holder hands over
/// nothing.
pub proof fn law_filesystem_is_destroyed_once<FS>(
    holder: FilesystemHolder<FS>,
    calls_before_drop: nat,
)
    ensures
        holder.handed_by(0) == holder.fs,
        forall|i: nat|
            0 < i <= calls_before_drop ==> #[trigger] holder.handed_by(i) is None
                && holder.after(i).fs is None,
        holder.after(calls_before_drop + 1).fs is None,
        holder.fs is None ==> forall|i: nat|
            i <= calls_before_drop ==> #[trigger] holder.handed_by(i) is None,
{
}

/// Holds a mount until it is unmounted.
#[derive(Debug)]
pub struct UmountOnDrop<M> {
    pub mount: Option<M>,
}

impl<M> UmountOnDrop<M> {
    /// Unmounts, unless that was done. A mount that fails to unmount is kept.
    pub fn umount_until<F: FnOnce(&mut M) -> Result<(), Error>>(&mut self, umount: F) -> (r: Result<
        (),
        Error,
    >)
        requires
            forall|mount: &mut M|
                old(self).mount == Some(*mount) ==> call_requires(umount, (mount,)),
        ensures
            old(self).mount is None ==> r is Ok && final(self).mount is None,
            old(self).mount matches Some(owned) ==> exists|mount: &mut M|
                {
                    &&& #[trigger] call_ensures(umount, (mount,), r)
                    &&& *mount == owned
                    &&& final(self).mount == (if r is Ok {
                        None
                    } else {
                        Some(*final(mount))
                    })
                },
    {
        release_retained(&mut self.mount, umount)
    }

    /// Holds nothing.
    pub fn empty() -> (r: UmountOnDrop<M>)
        ensures
            r.mount is None,
    {
        UmountOnDrop { mount: None }
    }
}

/// What the validation of a configuration for a session that mounts gives on a target.
pub open spec fn mounted_validation(config: ConfigView, target: Target) -> Result<
    AclRequestIdentity,
    ErrorView,
> {
    match validation(config.mount_options, target) {
        Err(error) => Err(error),
        Ok(identity) => if config.mount_options.contains(OptionView::AutoUnmount) && config.acl
            == SessionACL::Owner {
            Err(
                custom(
                    ErrorKind::InvalidInput,
                    "auto_unmount requires acl != Owner, got: Owner"@,
                ),
            )
        } else {
            Ok(identity)
        },
    }
}

/// Checks the configuration of a session that mounts.
pub fn validate_mounted_session_config(options: &Config, target: Target) -> (r: Result<
    AclRequestIdentity,
    Error,
>)
    ensures
        outcome(r) == mounted_validation(options@, target),
{
    match validate_config(options, target) {
        Err(error) => Err(error),
        Ok(identity) => {
            if contains_option(&options.mount_options, &MountOption::AutoUnmount) && options.acl
                == SessionACL::Owner {
                return Err(
                    Error::new(
                        ErrorKind::InvalidInput,
                        "auto_unmount requires acl != Owner, got: Owner",
                    ),
                );
            }
            Ok(identity)
        },
    }
}

/// The session data structure. `FS` is the filesystem, `C` the channel to the kernel driver, `M`
/// the mount.
#[derive(Debug)]
pub struct Session<FS, C, M> {
    /// Filesystem operation implementations. None after `destroy` called.
    pub filesystem: FilesystemHolder<FS>,
    /// Communication channel to the kernel driver
    pub ch: C,
    /// Handle to the mount.
    pub mount: UmountOnDrop<M>,
    /// Whether to restrict access to owner, root + owner, or unrestricted
    /// Used to implement `allow_root` and `auto_unmount`
    pub allowed: SessionACL,
    /// User that launched the fuser process
    pub session_owner: u32,
    /// How provider credentials are interpreted for owner-only ACL comparison.
    pub acl_request_identity: AclRequestIdentity,
    /// FUSE protocol version, as reported by the kernel.
    /// The field is set to `Some` when the init message is received.
    pub proto_version: Option<Version>,
    pub config: Config,
}

impl<FS, C, M> Session<FS, C, M> {
    /// The session is one that has just been made: nothing was exchanged with the kernel.
    pub open spec fn fresh(
        self,
        filesystem: FS,
        ch: C,
        mount: Option<M>,
        allowed: SessionACL,
        session_owner: u32,
        identity: AclRequestIdentity,
        config: ConfigView,
    ) -> bool {
        &&& self.filesystem.fs == Some(filesystem)
        &&& self.ch == ch
        &&& self.mount.mount == mount
        &&& self.allowed == allowed
        &&& self.session_owner == session_owner
        &&& self.acl_request_identity == identity
        &&& self.proto_version is None
        &&& self.config@ == config
    }

    /// Create a new session by mounting the given filesystem to the given mountpoint. `mount`
    /// mounts, once the options are known to be correct; `handshake` completes the handshake with
    /// the kernel.
    /// # Errors
    /// Returns an error if the options are incorrect, if the fuse device can't be mounted, or if
    /// the handshake fails.
    pub fn new<
        F: FnOnce(&Vec<MountOption>, SessionACL) -> Result<(C, M), Error>,
        H: FnOnce(&mut Session<FS, C, M>) -> Result<(), Error>,
    >(
        filesystem: FS,
        options: &Config,
        target: Target,
        session_owner: u32,
        mount: F,
        handshake: H,
    ) -> (r: Result<Session<FS, C, M>, Error>)
        requires
            mounted_validation(options@, target) is Ok ==> call_requires(
                mount,
                (&options.mount_options, options.acl),
            ),
            mounted_validation(options@, target) matches Ok(identity) ==> forall|
                ch: C,
                handle: M,
                session: &mut Session<FS, C, M>,
            |
                #[trigger] call_ensures(
                    mount,
                    (&options.mount_options, options.acl),
                    Ok((ch, handle)),
                ) && session.fresh(
                    filesystem,
                    ch,
                    Some(handle),
                    options.acl,
                    session_owner,
                    identity,
                    options@,
                ) ==> #[trigger] call_requires(handshake, (session,)),
        ensures
            match mounted_validation(options@, target) {
                Err(error) => outcome(r) == Err::<Session<FS, C, M>, ErrorView>(error),
                Ok(identity) => exists|mounted: Result<(C, M), Error>|
                    {
                        &&& #[trigger] call_ensures(
                            mount,
                            (&options.mount_options, options.acl),
                            mounted,
                        )
                        &&& match mounted {
                            Err(error) => r == Err::<Session<FS, C, M>, Error>(error),
                            Ok((ch, handle)) => exists|
                                session: &mut Session<FS, C, M>,
                                shaken: Result<(), Error>,
                            |
                                {
                                    &&& #[trigger] call_ensures(handshake, (session,), shaken)
                                    &&& session.fresh(
                                        filesystem,
                                        ch,
                                        Some(handle),
                                        options.acl,
                                        session_owner,
                                        identity,
                                        options@,
                                    )
                                    &&& r == match shaken {
                                        Ok(()) => Ok(*final(session)),
                                        Err(error) => Err(error),
                                    }
                                },
                        }
                    },
            },
    {
        let acl_request_identity = match validate_mounted_session_config(options, target) {
            Ok(identity) => identity,
            Err(error) => return Err(error),
        };
        let (ch, handle) = match mount(&options.mount_options, options.acl) {
            Ok(mounted) => mounted,
            Err(error) => return Err(error),
        };
        let mut session = Session {
            filesystem: FilesystemHolder { fs: Some(filesystem) },
            ch,
            mount: UmountOnDrop { mount: Some(handle) },
            allowed: options.acl,
            session_owner,
            acl_request_identity,
            proto_version: None,
            config: options.clone(),
        };
        match handshake(&mut session) {
            Ok(()) => Ok(session),
            Err(error) => Err(error),
        }
    }

    /// Wrap an existing /dev/fuse file descriptor. This doesn't mount the
    /// filesystem anywhere; that must be done separately. `open` makes the descriptor a channel,
    /// once the options are known to be correct; `handshake` completes the handshake with the
    /// kernel.
    pub fn from_fd<
        F: FnOnce() -> Result<C, Error>,
        H: FnOnce(&mut Session<FS, C, M>) -> Result<(), Error>,
    >(
        filesystem: FS,
        open: F,
        acl: SessionACL,
        config: Config,
        target: Target,
        session_owner: u32,
        handshake: H,
    ) -> (r: Result<Session<FS, C, M>, Error>)
        requires
            validation(config@.mount_options, target) is Ok ==> call_requires(open, ()),
            validation(config@.mount_options, target) matches Ok(identity) ==> forall|
                ch: C,
                session: &mut Session<FS, C, M>,
            |
                #[trigger] call_ensures(open, (), Ok(ch)) && session.fresh(
                    filesystem,
                    ch,
                    None,
                    acl,
                    session_owner,
                    identity,
                    config@,
                ) ==> #[trigger] call_requires(handshake, (session,)),
        ensures
            match validation(config@.mount_options, target) {
                Err(error) => outcome(r) == Err::<Session<FS, C, M>, ErrorView>(error),
                Ok(identity) => exists|opened: Result<C, Error>|
                    {
                        &&& #[trigger] call_ensures(open, (), opened)
                        &&& match opened {
                            Err(error) => r == Err::<Session<FS, C, M>, Error>(error),
                            Ok(ch) => exists|
                                session: &mut Session<FS, C, M>,
                                shaken: Result<(), Error>,
                            |
                                {
                                    &&& #[trigger] call_ensures(handshake, (session,), shaken)
                                    &&& session.fresh(
                                        filesystem,
                                        ch,
                                        None,
                                        acl,
                                        session_owner,
                                        identity,
                                        config@,
                                    )
                                    &&& r == match shaken {
                                        Ok(()) => Ok(*final(session)),
                                        Err(error) => Err(error),
                                    }
                                },
                        }
                    },
            },
    {
        let acl_request_identity = match validate_config(&config, target) {
            Ok(identity) => identity,
            Err(error) => return Err(error),
        };
        let ch = match open() {
            Ok(ch) => ch,
            Err(error) => return Err(error),
        };
        let mut session = Session {
            filesystem: FilesystemHolder { fs: Some(filesystem) },
            ch,
            mount: UmountOnDrop::empty(),
            allowed: acl,
            session_owner,
            acl_request_identity,
            proto_version: None,
            config,
        };
        match handshake(&mut session) {
            Ok(()) => Ok(session),
            Err(error) => Err(error),
        }
    }

    /// The session without its mount.
    pub open spec fn unmounted(self) -> Session<FS, C, M> {
        Session { mount: UmountOnDrop { mount: None }, ..self }
    }

    /// Takes the mount out of the session.
    pub fn take_mount(&mut self) -> (r: UmountOnDrop<M>)
        ensures
            r == old(self).mount,
            *final(self) == old(self).unmounted(),
    {
        UmountOnDrop { mount: self.mount.mount.take() }
    }

    /// Unmount the filesystem
    pub fn unmount<F: FnOnce(&mut M) -> Result<(), Error>>(&mut self, umount: F) -> (r: Result<
        (),
        Error,
    >)
        requires
            forall|mount: &mut M|
                old(self).mount.mount == Some(*mount) ==> call_requires(umount, (mount,)),
        ensures
            final(self).unmounted() == old(self).unmounted(),
            old(self).mount.mount is None ==> r is Ok && final(self).mount.mount is None,
            old(self).mount.mount matches Some(owned) ==> exists|mount: &mut M|
                {
                    &&& #[trigger] call_ensures(umount, (mount,), r)
                    &&& *mount == owned
                    &&& final(self).mount.mount == (if r is Ok {
                        None
                    } else {
                        Some(*final(mount))
                    })
                },
    {
        self.mount.umount_until(umount)
    }

    /// Returns the channel on which notifications can be sent to the kernel
    pub fn notifier(&self) -> (r: &C)
        ensures
            *r == self.ch,
    {
        &self.ch
    }
}

/// A session that mounts asks for more than one that does not, and otherwise for the same: an
/// automatic unmount has to be one that not only the owner can make.
pub proof fn law_mounted_validation_adds_one_rule(config: ConfigView, target: Target)
    ensures
        mounted_validation(config, target) is Ok <==> {
            &&& validation(config.mount_options, target) is Ok
            &&& config.mount_options.contains(OptionView::AutoUnmount) ==> config.acl
                != SessionACL::Owner
        },
        mounted_validation(config, target) is Ok ==> mounted_validation(config, target)
            == validation(config.mount_options, target),
{
}

/// A session that has just been made holds what it was made of, unchanged, and knows no version.
pub proof fn law_fresh_session_holds_what_it_was_given<FS, C, M>(
    session: Session<FS, C, M>,
    filesystem: FS,
    ch: C,
    mount: Option<M>,
    allowed: SessionACL,
    session_owner: u32,
    identity: AclRequestIdentity,
    config: ConfigView,
)
    requires
        session.fresh(filesystem, ch, mount, allowed, session_owner, identity, config),
    ensures
        session.filesystem.fs == Some(filesystem),
        session.ch == ch,
        session.mount.mount == mount,
        session.allowed == allowed,
        session.session_owner == session_owner,
        session.acl_request_identity == identity,
        session.proto_version is None,
        session.config@ == config,
        session.unmounted().mount.mount is None,
        session.unmounted().filesystem == session.filesystem,
        session.unmounted().ch == ch,
        session.unmounted().session_owner == session_owner,
{
}

/// A session that mounts is refused exactly where its options are, or where it asks for an
/// automatic unmount that only the owner could make; the second as invalid input.
pub proof fn law_auto_unmount_needs_others(config: ConfigView, target: Target)
    ensures
        validation(config.mount_options, target) matches Err(error) ==> mounted_validation(
            config,
            target,
        ) == Err::<AclRequestIdentity, ErrorView>(error),
        validation(config.mount_options, target) matches Ok(identity) ==> {
            let asked = config.mount_options.contains(OptionView::AutoUnmount);
            &&& !asked || config.acl is All || config.acl is RootAndOwner ==> mounted_validation(
                config,
                target,
            ) == Ok::<AclRequestIdentity, ErrorView>(identity)
            &&& asked && config.acl is Owner ==> (mounted_validation(config, target) matches Err(
                ErrorView::Custom { kind, .. },
            ) && kind == ErrorKind::InvalidInput)
        },
{
}

/// A mount goes with an unmount that succeeds, and stays with one that fails; the unmount is tried
/// on it, and its result is returned. A session without a mount has nothing to unmount, and an
/// unmount changes nothing of a session but its mount.
pub proof fn law_unmount_is_all_or_nothing<FS, C, M, F: FnOnce(&mut M) -> Result<(), Error>>(
    umount: F,
)
    ensures
        forall|owner: &mut UmountOnDrop<M>, r: Result<(), Error>| #[trigger]
            call_ensures(UmountOnDrop::<M>::umount_until::<F>, (owner, umount), r) ==> {
                &&& r is Ok ==> final(owner).mount is None
                &&& r is Err ==> owner.mount is Some && final(owner).mount is Some
                &&& owner.mount matches Some(owned) ==> exists|value: &mut M| #[trigger]
                    call_ensures(umount, (value,), r) && *value == owned
            },
        forall|session: &mut Session<FS, C, M>, r: Result<(), Error>| #[trigger]
            call_ensures(Session::<FS, C, M>::unmount::<F>, (session, umount), r) ==> {
                &&& r is Ok ==> final(session).mount.mount is None
                &&& r is Err ==> session.mount.mount is Some && final(session).mount.mount is Some
                &&& session.mount.mount matches Some(owned) ==> exists|value: &mut M| #[trigger]
                    call_ensures(umount, (value,), r) && *value == owned
                &&& final(session).filesystem == session.filesystem
                &&& final(session).ch == session.ch
                &&& final(session).allowed == session.allowed
                &&& final(session).session_owner == session.session_owner
                &&& final(session).proto_version == session.proto_version
            },
        forall|session: &mut Session<FS, C, M>, taken: UmountOnDrop<M>| #[trigger]
            call_ensures(Session::<FS, C, M>::take_mount, (session,), taken) ==> {
                &&& taken.mount == session.mount.mount
                &&& final(session).mount.mount is None
                &&& final(session).filesystem == session.filesystem
                &&& final(session).ch == session.ch
            },
        forall|empty: UmountOnDrop<M>|
            #[trigger] call_ensures(UmountOnDrop::<M>::empty, (), empty) ==> empty.mount is None,
{
    assert forall|session: &mut Session<FS, C, M>, r: Result<(), Error>| #[trigger]
        call_ensures(Session::<FS, C, M>::unmount::<F>, (session, umount), r) implies {
        &&& final(session).filesystem == session.filesystem
        &&& final(session).ch == session.ch
        &&& final(session).allowed == session.allowed
        &&& final(session).session_owner == session.session_owner
        &&& final(session).proto_version == session.proto_version
    } by {
        assert(session.unmounted() == final(session).unmounted());
        assert(session.unmounted().filesystem == session.filesystem);
    }
}

/// A session that mounts is made exactly of what was given, if its options are accepted, it could
/// be mounted and the handshake succeeded; and a refusal of its options comes first. What the
/// handshake leaves alone stays.
pub proof fn law_new_session_is_made_of_what_was_given<
    FS,
    C,
    M,
    F: FnOnce(&Vec<MountOption>, SessionACL) -> Result<(C, M), Error>,
    H: FnOnce(&mut Session<FS, C, M>) -> Result<(), Error>,
>(
    filesystem: FS,
    options: Config,
    target: Target,
    owner: u32,
    mount: F,
    handshake: H,
    r: Result<Session<FS, C, M>, Error>,
)
    requires
        call_ensures(
            Session::<FS, C, M>::new::<F, H>,
            (filesystem, &options, target, owner, mount, handshake),
            r,
        ),
        forall|session: &mut Session<FS, C, M>, shaken: Result<(), Error>|
            #[trigger] call_ensures(handshake, (session,), shaken) ==> {
                &&& final(session).filesystem == session.filesystem
                &&& final(session).mount == session.mount
                &&& final(session).allowed == session.allowed
                &&& final(session).session_owner == session.session_owner
                &&& final(session).acl_request_identity == session.acl_request_identity
            },
    ensures
        mounted_validation(options@, target) matches Err(error) ==> (r matches Err(refused)
            && refused@ == error),
        r matches Ok(session) ==> {
            &&& session.filesystem.fs == Some(filesystem)
            &&& session.mount.mount is Some
            &&& session.allowed == options.acl
            &&& session.session_owner == owner
            &&& Ok::<AclRequestIdentity, ErrorView>(session.acl_request_identity)
                == mounted_validation(options@, target)
        },
        mounted_validation(options@, target) is Ok && (forall|mounted: Result<(C, M), Error>|
            #[trigger] call_ensures(mount, (&options.mount_options, options.acl), mounted)
                ==> mounted is Ok) && (forall|
            session: &mut Session<FS, C, M>,
            shaken: Result<(), Error>,
        | #[trigger] call_ensures(handshake, (session,), shaken) ==> shaken is Ok) ==> r is Ok,
{
}

/// A session over a channel that is there already has no mount, and is otherwise made of what was
/// given, with the users that were named for it.
pub proof fn law_wrapped_session_has_no_mount<
    FS,
    C,
    M,
    F: FnOnce() -> Result<C, Error>,
    H: FnOnce(&mut Session<FS, C, M>) -> Result<(), Error>,
>(
    filesystem: FS,
    open: F,
    acl: SessionACL,
    config: Config,
    target: Target,
    owner: u32,
    handshake: H,
    r: Result<Session<FS, C, M>, Error>,
)
    requires
        call_ensures(
            Session::<FS, C, M>::from_fd::<F, H>,
            (filesystem, open, acl, config, target, owner, handshake),
            r,
        ),
        forall|session: &mut Session<FS, C, M>, shaken: Result<(), Error>|
            #[trigger] call_ensures(handshake, (session,), shaken) ==> {
                &&& final(session).filesystem == session.filesystem
                &&& final(session).mount == session.mount
                &&& final(session).allowed == session.allowed
                &&& final(session).session_owner == session.session_owner
            },
    ensures
        validation(config@.mount_options, target) matches Err(error) ==> (r matches Err(refused)
            && refused@ == error),
        r matches Ok(session) ==> {
            &&& session.filesystem.fs == Some(filesystem)
            &&& session.mount.mount is None
            &&& session.allowed == acl
            &&& session.session_owner == owner
        },
        validation(config@.mount_options, target) is Ok && (forall|opened: Result<C, Error>|
            #[trigger] call_ensures(open, (), opened) ==> opened is Ok) && (forall|
            session: &mut Session<FS, C, M>,
            shaken: Result<(), Error>,
        | #[trigger] call_ensures(handshake, (session,), shaken) ==> shaken is Ok) ==> r is Ok,
{
}

/// A filesystem that is held is handed to what destroys it, and the holder is empty from then on.
pub proof fn law_destroy_hands_the_filesystem_over<FS, F: FnOnce(FS)>(destroy: F)
    ensures
        forall|holder: &mut FilesystemHolder<FS>| #[trigger]
            call_ensures(FilesystemHolder::<FS>::destroy::<F>, (holder, destroy), ()) ==> {
                &&& final(holder).fs is None
                &&& holder.fs matches Some(fs) ==> call_ensures(destroy, (fs,), ())
            },
{
}

} // verus!
