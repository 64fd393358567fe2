//! What holds of a mount over its whole life.

use vstd::prelude::*;

use crate::errno::Errno;
use crate::error::{Error, ErrorKind, ErrorView};
use crate::fuse2::{native_error, unmounted_by, MountImpl, MountView, UmountEnd};
use crate::target::Os;

verus! {

/// A call on a mount, with what libfuse or the system gave, as far as they were asked.
pub enum Call {
    /// Mounts. libfuse gave this descriptor, or none.
    Mount { fd: i32 },
    /// Unmounts. The system call gave this.
    Umount { result: Result<(), Errno> },
}

impl MountView {
    /// After a whole call.
    pub open spec fn called(self, call: Call, os: Os) -> MountView {
        match call {
            Call::Mount { fd } => if self.mounted {
                self
            } else {
                self.mounted_by(fd)
            },
            Call::Umount { result } => if self.mounted {
                self.umounted(result, os)
            } else {
                self
            },
        }
    }

    /// A call mounts.
    pub open spec fn mounts(self, call: Call) -> bool {
        !self.mounted && (call matches Call::Mount { fd } && fd >= 0)
    }

    /// A call unmounts what is mounted.
    pub open spec fn unmounts(self, call: Call, os: Os) -> bool {
        self.mounted && (call matches Call::Umount { result } && unmounted_by(result, os))
    }
}

/// The calls on a mount, in their order, from when it was prepared on.
pub struct Life {
    pub mountpoint: Seq<u8>,
    pub calls: Seq<Call>,
    pub os: Os,
}

impl Life {
    /// The mount before call `i`.
    pub open spec fn before(self, i: nat) -> MountView
        decreases i,
    {
        if i == 0 {
            MountView { mountpoint: self.mountpoint, mounted: false }
        } else {
            self.before((i - 1) as nat).called(self.calls[i - 1], self.os)
        }
    }

    /// Call `i` mounts.
    pub open spec fn mounts(self, i: nat) -> bool {
        self.before(i).mounts(self.calls[i as int])
    }

    /// Call `i` unmounts what is mounted.
    pub open spec fn unmounts(self, i: nat) -> bool {
        self.before(i).unmounts(self.calls[i as int], self.os)
    }
}

/// What was mounted stays so, however often an unmount fails, until one succeeds; and meanwhile
/// no second mount begins.
pub proof fn law_mount_is_kept(life: Life, i: nat, j: nat)
    requires
        i < j <= life.calls.len(),
        life.mounts(i),
        forall|k: nat| i < k < j ==> !(#[trigger] life.unmounts(k)),
    ensures
        forall|k: nat| i < k <= j ==> (#[trigger] life.before(k)).mounted,
        forall|k: nat| i < k < j ==> !(#[trigger] life.mounts(k)),
    decreases j,
{
    if j > i + 1 {
        let last = (j - 1) as nat;
        law_mount_is_kept(life, i, last);
        assert(!life.unmounts(last));
    }
}

/// What was mounted is unmounted by exactly one call: until something is mounted again, no call
/// after it unmounts anything.
pub proof fn law_mount_ends_once(life: Life, j: nat, later: nat)
    requires
        j < later < life.calls.len(),
        life.unmounts(j),
        forall|k: nat| j < k < later ==> !(#[trigger] life.mounts(k)),
    ensures
        !life.before(later).mounted,
        !life.unmounts(later),
    decreases later,
{
    if later > j + 1 {
        let last = (later - 1) as nat;
        law_mount_ends_once(life, j, last);
        assert(!life.mounts(last));
    }
}

/// Whatever is unmounted was mounted by a call before, and by no call since then unmounted.
pub proof fn law_what_is_unmounted_was_mounted(life: Life, j: nat)
    requires
        j < life.calls.len(),
        life.before(j).mounted,
    ensures
        exists|i: nat|
            i < j && #[trigger] life.mounts(i) && forall|k: nat|
                i < k < j ==> !(#[trigger] life.unmounts(k)),
    decreases j,
{
    if j > 0 {
        let last = (j - 1) as nat;
        if !life.mounts(last) {
            law_what_is_unmounted_was_mounted(life, last);
            assert(!life.unmounts(last));
            let i = choose|i: nat|
                i < last && #[trigger] life.mounts(i) && forall|k: nat|
                    i < k < last ==> !(#[trigger] life.unmounts(k));
            assert(life.mounts(i));
        }
    }
}

/// An unmount that does not succeed changes nothing, so that it can be tried again; and the mount
/// point stays.
pub proof fn law_failed_unmount_changes_nothing(life: Life, i: nat)
    requires
        i < life.calls.len(),
    ensures
        life.before(i).mountpoint == life.mountpoint,
        life.calls[i as int] is Umount && !life.unmounts(i) ==> life.before(i).called(
            life.calls[i as int],
            life.os,
        ) == life.before(i),
    decreases i,
{
    if i > 0 {
        law_failed_unmount_changes_nothing(life, (i - 1) as nat);
    }
}

/// A mount is there exactly once the mount call gave a descriptor, and gone once the system call
/// unmounted it, or libfuse where the call was not permitted, which it does on Linux and macOS;
/// any other error leaves it.
pub proof fn law_steps_of_a_mount(
    mount: MountView,
    fd: i32,
    result: Result<(), Errno>,
    os: Os,
)
    ensures
        fd >= 0 ==> mount.mounted_by(fd).mounted,
        fd < 0 ==> mount.mounted_by(fd) == mount,
        unmounted_by(result, os) <==> result is Ok || ((os is Linux || os is Macos) && result
            == Err::<(), Errno>(Errno::EPERM)),
        unmounted_by(result, os) ==> !mount.umounted(result, os).mounted,
        !unmounted_by(result, os) ==> mount.umounted(result, os) == mount,
        mount.mounted_by(fd).mountpoint == mount.mountpoint,
        mount.umounted(result, os).mountpoint == mount.mountpoint,
{
}

/// The error of a native call is the system's, unless that says success; then it is one of no
/// particular category.
pub proof fn law_native_errors_say_something(error: ErrorView)
    ensures
        error != ErrorView::Os(0) ==> native_error(error) == error,
        error == ErrorView::Os(0) ==> (native_error(error) matches ErrorView::Custom { kind, .. }
            && kind == ErrorKind::Other),
{
}

/// An owner that is mounted cannot mount again, and any other can. A mount gives the descriptor
/// that libfuse gave, or fails.
pub proof fn law_mounts_are_made_once(
    begun: Result<(), Error>,
    mount: MountImpl,
    fd: i32,
    last_error: Error,
)
    requires
        call_ensures(MountImpl::begin_mount, (&mount,), begun),
    ensures
        begun is Ok <==> !mount.mounted,
        begun matches Err(error) ==> (error matches Error::Custom { kind, .. } && kind
            == ErrorKind::AlreadyExists),
        forall|owner: &mut MountImpl, r: Result<i32, Error>| #[trigger]
            call_ensures(MountImpl::mount_returned, (owner, fd, last_error), r) ==> {
                &&& r is Ok <==> fd >= 0
                &&& r matches Ok(given) ==> given == fd && final(owner).mounted
                &&& r is Err ==> final(owner).mounted == owner.mounted
                &&& final(owner).mountpoint@ == owner.mountpoint@
            },
{
}

/// A prepared owner has its mount point and has not mounted.
pub proof fn law_prepared_owners_are_not_mounted(
    mountpoint: Vec<u8>,
    r: Result<MountImpl, Error>,
)
    requires
        call_ensures(MountImpl::prepare, (mountpoint,), r),
    ensures
        r is Err <==> mountpoint@.contains(0),
        r matches Ok(mount) ==> mount.mountpoint@ == mountpoint@ && !mount.mounted,
{
}

/// An unmount that succeeded is reported as such. One that was not permitted is left to libfuse on
/// Linux and macOS, and any other error is returned as it is, with the mount kept.
pub proof fn law_ends_of_an_unmount(result: Result<(), Errno>, os: Os)
    ensures
        forall|owner: &mut MountImpl, r: UmountEnd| #[trigger]
            call_ensures(MountImpl::umount_returned, (owner, result, os), r) ==> {
                let retry = (os is Linux || os is Macos) && result == Err::<(), Errno>(
                    Errno::EPERM,
                );
                &&& result is Ok ==> (r matches UmountEnd::Return(end) && end is Ok)
                &&& r is FuseUnmount <==> retry
                &&& result matches Err(errno) ==> (!retry ==> (r matches UmountEnd::Return(end)
                    && end == Err::<(), Error>(Error::Os(errno.code(os)))))
                &&& final(owner).mounted <==> owner.mounted && result is Err && !retry
                &&& final(owner).mountpoint@ == owner.mountpoint@
            },
{
}

} // verus!
