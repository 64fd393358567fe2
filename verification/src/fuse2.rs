//! A mount by libfuse, version 2, where it gives a device.

pub mod laws;

use vstd::prelude::*;
use vstd::string::*;

use crate::errno::Errno;
use crate::error::{custom, outcome, Error, ErrorKind, ErrorView};
use crate::mount::{first_null, null_error, prepare_mountpoint};
use crate::target::Os;

verus! {

/// A mount point, and whether libfuse has mounted there.
#[derive(Debug)]
pub struct MountImpl {
    pub mountpoint: Vec<u8>,
    pub mounted: bool,
}

/// What a [`MountImpl`] holds.
pub struct MountView {
    pub mountpoint: Seq<u8>,
    pub mounted: bool,
}

impl View for MountImpl {
    type V = MountView;

    open spec fn view(&self) -> MountView {
        MountView { mountpoint: self.mountpoint@, mounted: self.mounted }
    }
}

/// Whether a mount is gone after the system call that unmounts. Where that was not permitted,
/// libfuse unmounts, except on the BSDs.
pub open spec fn unmounted_by(result: Result<(), Errno>, os: Os) -> bool {
    match result {
        Ok(()) => true,
        Err(errno) => errno == Errno::EPERM && !os.bsd(),
    }
}

impl MountView {
    /// After the mount call gave this descriptor, or none.
    pub open spec fn mounted_by(self, fd: i32) -> MountView {
        MountView { mounted: self.mounted || fd >= 0, ..self }
    }

    /// After the system call that unmounts.
    pub open spec fn umounted(self, result: Result<(), Errno>, os: Os) -> MountView {
        MountView { mounted: self.mounted && !unmounted_by(result, os), ..self }
    }
}

/// The error of a native call that failed, by the system's error when it did: one that says
/// success says nothing, and is replaced.
pub open spec fn native_error(error: ErrorView) -> ErrorView {
    if error == ErrorView::Os(0) {
        custom(ErrorKind::Other, "libfuse returned no error detail"@)
    } else {
        error
    }
}

/// The error of a native call that failed, by the system's error when it did.
pub fn ensure_last_os_error(error: Error) -> (r: Error)
    ensures
        r@ == native_error(error@),
        error@ != ErrorView::Os(0) ==> r == error,
{
    match error.raw_os_error() {
        Some(0) => Error::other("libfuse returned no error detail"),
        _ => error,
    }
}

/// What to do after an attempt to unmount.
#[derive(Debug)]
pub enum UmountEnd {
    /// Return this.
    Return(Result<(), Error>),
    /// Let libfuse unmount, with the rights that it has; it reports nothing.
    FuseUnmount,
}

impl MountImpl {
    /// Prepares a mount.
    pub fn prepare(mountpoint: Vec<u8>) -> (r: Result<MountImpl, Error>)
        ensures
            r matches Ok(mount) ==> mount@ == (MountView {
                mountpoint: mountpoint@,
                mounted: false,
            }) && !mountpoint@.contains(0),
            r matches Err(error) ==> exists|i: int|
                #[trigger] first_null(mountpoint@, i) && error@ == null_error(i as nat),
    {
        match prepare_mountpoint(mountpoint) {
            Ok(mountpoint) => Ok(MountImpl { mountpoint, mounted: false }),
            Err(error) => Err(error),
        }
    }

    /// Whether a mount may begin.
    pub fn begin_mount(&self) -> (r: Result<(), Error>)
        ensures
            outcome(r) == (if self.mounted {
                Err(custom(ErrorKind::AlreadyExists, "libfuse2 mount owner is already mounted"@))
            } else {
                Ok::<(), ErrorView>(())
            }),
    {
        if self.mounted {
            return Err(
                Error::new(ErrorKind::AlreadyExists, "libfuse2 mount owner is already mounted"),
            );
        }
        Ok(())
    }

    /// Takes over what the mount call gave: the descriptor of the device, or none.
    pub fn mount_returned(&mut self, fd: i32, last_error: Error) -> (r: Result<i32, Error>)
        ensures
            final(self)@ == old(self)@.mounted_by(fd),
            outcome(r) == (if fd >= 0 {
                Ok::<i32, ErrorView>(fd)
            } else {
                Err(native_error(last_error@))
            }),
    {
        if fd < 0 {
            Err(ensure_last_os_error(last_error))
        } else {
            self.mounted = true;
            Ok(fd)
        }
    }

    /// Whether there is something to unmount.
    pub fn begin_umount(&self) -> (r: bool)
        ensures
            r == self.mounted,
    {
        self.mounted
    }

    /// Goes on from the system call that unmounts. Where it was not permitted, libfuse can still
    /// unmount, except on the BSDs.
    pub fn umount_returned(&mut self, result: Result<(), Errno>, os: Os) -> (r: UmountEnd)
        ensures
            final(self)@ == old(self)@.umounted(result, os),
            match result {
                Ok(()) => r == UmountEnd::Return(Ok(())),
                Err(errno) => if unmounted_by(result, os) {
                    r is FuseUnmount
                } else {
                    r matches UmountEnd::Return(Err(error)) && error@ == ErrorView::Os(
                        errno.code(os),
                    )
                },
            },
    {
        match result {
            Ok(()) => {
                self.mounted = false;
                UmountEnd::Return(Ok(()))
            },
            Err(errno) => {
                if errno == Errno::EPERM && !os.is_bsd() {
                    self.mounted = false;
                    UmountEnd::FuseUnmount
                } else {
                    UmountEnd::Return(Err(errno.into_error(os)))
                }
            },
        }
    }
}

} // verus!
