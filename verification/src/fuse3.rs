//! A mount by libfuse, version 3.

pub mod laws;

use vstd::prelude::*;
use vstd::string::*;

use crate::errno::Errno;
use crate::error::{custom, outcome, Error, ErrorKind, ErrorView};
use crate::mount::{first_null, null_error, prepare_mountpoint};
use crate::target::Os;

verus! {

/// A mount point, and libfuse's session for it. `H` is the session's handle.
#[derive(Debug)]
pub struct MountImpl<H> {
    pub fuse_session: Option<H>,
    pub mountpoint: Vec<u8>,
    pub mounted: bool,
}

/// What a [`MountImpl`] holds.
pub struct MountView<H> {
    pub fuse_session: Option<H>,
    pub mountpoint: Seq<u8>,
    pub mounted: bool,
}

impl<H> View for MountImpl<H> {
    type V = MountView<H>;

    open spec fn view(&self) -> MountView<H> {
        MountView {
            fuse_session: self.fuse_session,
            mountpoint: self.mountpoint@,
            mounted: self.mounted,
        }
    }
}

/// Whether a mount is gone after the system call that unmounts. Where that was not permitted,
/// libfuse unmounts on Linux.
pub open spec fn unmounted_by(result: Result<(), Errno>, os: Os) -> bool {
    match result {
        Ok(()) => true,
        Err(errno) => errno == Errno::EPERM && os is Linux,
    }
}

impl<H> MountView<H> {
    /// A mount may begin: libfuse has made no session.
    pub open spec fn begins(self) -> bool {
        self.fuse_session is None
    }

    /// After libfuse was asked for a session.
    pub open spec fn asked(self, session: Option<H>) -> MountView<H> {
        match session {
            Some(_) => MountView { fuse_session: session, ..self },
            None => self,
        }
    }

    /// After the mount of the session returned this status.
    pub open spec fn mounted_by(self, status: i32) -> MountView<H> {
        MountView { mounted: self.mounted || status == 0, ..self }
    }

    /// How an unmount begins.
    pub open spec fn umount_start(self) -> UmountStart<H> {
        match self.fuse_session {
            None => UmountStart::Nothing,
            Some(session) => if self.mounted {
                UmountStart::Umount
            } else {
                UmountStart::Destroy(session)
            },
        }
    }

    /// After the system call that unmounts.
    pub open spec fn umounted(self, result: Result<(), Errno>, os: Os) -> MountView<H> {
        MountView { mounted: self.mounted && !unmounted_by(result, os), ..self }
    }

    /// After the session was destroyed.
    pub open spec fn released(self) -> MountView<H> {
        MountView { fuse_session: None, ..self }
    }
}

/// The error of a native call that failed, by the system's error when it did: one that says
/// success says nothing, and is replaced.
pub open spec fn native_error(error: ErrorView) -> ErrorView {
    if error == ErrorView::Os(0) {
        custom(ErrorKind::Other, "Unspecified Error"@)
    } else {
        error
    }
}

/// Ensures that an os error is never 0/Success
pub fn ensure_last_os_error(error: Error) -> (r: Error)
    ensures
        r@ == native_error(error@),
        error@ != ErrorView::Os(0) ==> r == error,
{
    match error.raw_os_error() {
        Some(0) => Error::new(ErrorKind::Other, "Unspecified Error"),
        _ => error,
    }
}

/// How an unmount begins.
#[derive(Clone, Copy, Debug, PartialEq, Eq)]
pub enum UmountStart<H> {
    /// There is nothing to release.
    Nothing,
    /// Make the system call that unmounts.
    Umount,
    /// Nothing is mounted: destroy the session.
    Destroy(H),
}

/// What to do after the system call that unmounts.
#[derive(Debug)]
pub enum UmountEnd<H> {
    /// Destroy the session.
    Destroy(H),
    /// Let libfuse unmount, with the rights that it has, and destroy the session.
    FuseUnmountAndDestroy(H),
    /// Return this error; the session and the mount stay.
    Fail(Error),
}

impl<H: Copy> MountImpl<H> {
    /// Prepares a mount.
    pub fn prepare(mountpoint: Vec<u8>) -> (r: Result<MountImpl<H>, Error>)
        ensures
            r matches Ok(mount) ==> mount@ == (MountView {
                fuse_session: None::<H>,
                mountpoint: mountpoint@,
                mounted: false,
            }) && !mountpoint@.contains(0),
            r matches Err(error) ==> exists|i: int|
                #[trigger] first_null(mountpoint@, i) && error@ == null_error(i as nat),
    {
        match prepare_mountpoint(mountpoint) {
            Ok(mountpoint) => Ok(MountImpl { fuse_session: None, mountpoint, mounted: false }),
            Err(error) => Err(error),
        }
    }

    /// Whether a mount may begin.
    pub fn begin_mount(&self) -> (r: Result<(), Error>)
        ensures
            outcome(r) == (if self@.begins() {
                Ok::<(), ErrorView>(())
            } else {
                Err(custom(ErrorKind::AlreadyExists, "libfuse3 mount owner was already used"@))
            }),
    {
        if self.fuse_session.is_some() {
            return Err(
                Error::new(ErrorKind::AlreadyExists, "libfuse3 mount owner was already used"),
            );
        }
        Ok(())
    }

    /// Takes over the session that libfuse made, if it made one.
    pub fn session_made(&mut self, session: Option<H>, last_error: Error) -> (r: Result<H, Error>)
        ensures
            final(self)@ == old(self)@.asked(session),
            r == match session {
                Some(session) => Ok::<H, Error>(session),
                None => Err(last_error),
            },
    {
        match session {
            Some(session) => {
                self.fuse_session = Some(session);
                Ok(session)
            },
            None => Err(last_error),
        }
    }

    /// Goes on from the mount of the session.
    pub fn mount_returned(&mut self, status: i32, last_error: Error) -> (r: Result<(), Error>)
        ensures
            final(self)@ == old(self)@.mounted_by(status),
            outcome(r) == (if status == 0 {
                Ok::<(), ErrorView>(())
            } else {
                Err(native_error(last_error@))
            }),
    {
        if status != 0 {
            return Err(ensure_last_os_error(last_error));
        }
        self.mounted = true;
        Ok(())
    }

    /// Goes on from the query for the session's descriptor.
    pub fn fd_returned(&self, fd: i32, last_error: Error) -> (r: Result<i32, Error>)
        ensures
            r == (if fd < 0 {
                Err::<i32, Error>(last_error)
            } else {
                Ok(fd)
            }),
    {
        if fd < 0 {
            Err(last_error)
        } else {
            Ok(fd)
        }
    }

    /// Begins an unmount.
    pub fn begin_umount(&self) -> (r: UmountStart<H>)
        ensures
            r == self@.umount_start(),
    {
        match self.fuse_session {
            None => UmountStart::Nothing,
            Some(session) => if self.mounted {
                UmountStart::Umount
            } else {
                UmountStart::Destroy(session)
            },
        }
    }

    /// Goes on from the system call that unmounts.
    ///
    /// Linux always returns EPERM for non-root users.  We have to let the
    /// library go through the setuid-root "fusermount -u" to unmount.
    pub fn umount_returned(&mut self, result: Result<(), Errno>, os: Os) -> (r: UmountEnd<H>)
        requires
            old(self).fuse_session is Some,
        ensures
            final(self)@ == old(self)@.umounted(result, os),
            match result {
                Ok(()) => r == UmountEnd::Destroy(old(self).fuse_session->0),
                Err(errno) => if unmounted_by(result, os) {
                    r == UmountEnd::FuseUnmountAndDestroy(old(self).fuse_session->0)
                } else {
                    r matches UmountEnd::Fail(error) && error@ == ErrorView::Os(errno.code(os))
                },
            },
    {
        let session = self.fuse_session.unwrap();
        match result {
            Ok(()) => {
                self.mounted = false;
                UmountEnd::Destroy(session)
            },
            Err(errno) => {
                if errno == Errno::EPERM && os == Os::Linux {
                    self.mounted = false;
                    UmountEnd::FuseUnmountAndDestroy(session)
                } else {
                    UmountEnd::Fail(errno.into_error(os))
                }
            },
        }
    }

    /// Records that the session was destroyed.
    pub fn destroyed(&mut self)
        ensures
            final(self)@ == old(self)@.released(),
    {
        self.fuse_session = None;
    }
}

} // verus!
