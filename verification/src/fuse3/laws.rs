//! What holds of a mount over its whole life.

use vstd::prelude::*;

use crate::errno::Errno;
use crate::error::{Error, ErrorKind, ErrorView};
use crate::fuse3::{
    native_error, unmounted_by, MountImpl, MountView, UmountEnd, UmountStart,
};
use crate::target::Os;

verus! {

/// A call on a mount, with what libfuse and the system gave on the way, as far as they were
/// asked.
pub enum Call<H> {
    /// Mounts. libfuse made a session or not, and mounted it with this status.
    Mount { made: Option<H>, status: i32 },
    /// Unmounts. The system call gave this.
    Umount { result: Result<(), Errno> },
}

impl<H> MountView<H> {
    /// After a whole call.
    pub open spec fn called(self, call: Call<H>, os: Os) -> MountView<H> {
        match call {
            Call::Mount { made, status } => if !self.begins() {
                self
            } else if made is Some {
                self.asked(made).mounted_by(status)
            } else {
                self.asked(made)
            },
            Call::Umount { result } => match self.umount_start() {
                UmountStart::Nothing => self,
                UmountStart::Destroy(_) => self.released(),
                UmountStart::Umount => if unmounted_by(result, os) {
                    self.umounted(result, os).released()
                } else {
                    self.umounted(result, os)
                },
            },
        }
    }

    /// The session that a call makes.
    pub open spec fn made_by(self, call: Call<H>) -> Option<H> {
        match call {
            Call::Mount { made, .. } => if self.begins() {
                made
            } else {
                None
            },
            Call::Umount { .. } => None,
        }
    }

    /// The session that a call hands out for destruction.
    pub open spec fn handed_out_by(self, call: Call<H>, os: Os) -> Option<H> {
        match call {
            Call::Mount { .. } => None,
            Call::Umount { result } => match self.umount_start() {
                UmountStart::Nothing => None,
                UmountStart::Destroy(session) => Some(session),
                UmountStart::Umount => if unmounted_by(result, os) {
                    self.fuse_session
                } else {
                    None
                },
            },
        }
    }
}

/// The calls on a mount, in their order, from when it was prepared on.
pub struct Life<H> {
    pub mountpoint: Seq<u8>,
    pub calls: Seq<Call<H>>,
    pub os: Os,
}

impl<H> Life<H> {
    /// The mount before call `i`.
    pub open spec fn before(self, i: nat) -> MountView<H>
        decreases i,
    {
        if i == 0 {
            MountView { fuse_session: None, mountpoint: self.mountpoint, mounted: false }
        } else {
            self.before((i - 1) as nat).called(self.calls[i - 1], self.os)
        }
    }

    /// The session that call `i` makes.
    pub open spec fn made(self, i: nat) -> Option<H> {
        self.before(i).made_by(self.calls[i as int])
    }

    /// The session that call `i` hands out for destruction.
    pub open spec fn handed_out(self, i: nat) -> Option<H> {
        self.before(i).handed_out_by(self.calls[i as int], self.os)
    }
}

/// A session that was made is kept, whatever its mount returned and however often an unmount
/// fails, until an unmount hands it out; and meanwhile no second mount begins.
pub proof fn law_session_is_kept<H>(life: Life<H>, i: nat, j: nat)
    requires
        i < j <= life.calls.len(),
        life.made(i) is Some,
        forall|k: nat| i < k < j ==> #[trigger] life.handed_out(k) is None,
    ensures
        life.before(j).fuse_session == life.made(i),
        forall|k: nat| i < k <= j ==> !(#[trigger] life.before(k)).begins(),
        forall|k: nat| i < k < j ==> #[trigger] life.made(k) is None,
    decreases j,
{
    if j > i + 1 {
        let last = (j - 1) as nat;
        law_session_is_kept(life, i, last);
        assert(life.handed_out(last) is None);
    }
}

/// A session that was made is handed out for destruction by exactly one unmount, the first one
/// that succeeds: that one hands out this session, and until another session is made, no call
/// after it hands out anything.
pub proof fn law_session_is_handed_out_once<H>(life: Life<H>, i: nat, j: nat)
    requires
        i < j < life.calls.len(),
        life.made(i) is Some,
        life.handed_out(j) is Some,
        forall|k: nat| i < k < j ==> #[trigger] life.handed_out(k) is None,
    ensures
        life.handed_out(j) == life.made(i),
        life.calls[j as int] is Umount,
        forall|later: nat|
            j < later < life.calls.len() && (forall|k: nat|
                j < k < later ==> #[trigger] life.made(k) is None)
                ==> #[trigger] life.handed_out(later) is None,
{
    law_session_is_kept(life, i, j);
    assert forall|later: nat|
        j < later < life.calls.len() && (forall|k: nat|
            j < k < later ==> #[trigger] life.made(k) is None)
    implies #[trigger] life.handed_out(later) is None by {
        lemma_nothing_is_left(life, j, later);
    }
}

proof fn lemma_nothing_is_left<H>(life: Life<H>, j: nat, later: nat)
    requires
        j < later < life.calls.len(),
        life.handed_out(j) is Some,
        forall|k: nat| j < k < later ==> #[trigger] life.made(k) is None,
    ensures
        life.before(later).fuse_session is None,
    decreases later,
{
    if later > j + 1 {
        let last = (later - 1) as nat;
        lemma_nothing_is_left(life, j, last);
        assert(life.made(last) is None);
    }
}

/// Every session that is handed out was made, and was handed out by no call before.
pub proof fn law_handed_out_sessions_were_made<H>(life: Life<H>, j: nat)
    requires
        j < life.calls.len(),
        life.handed_out(j) is Some,
    ensures
        exists|i: nat|
            i < j && #[trigger] life.made(i) == life.handed_out(j) && forall|k: nat|
                i < k < j ==> #[trigger] life.handed_out(k) is None,
{
    lemma_held_sessions_were_made(life, j);
    let i = choose|i: nat|
        i < j && #[trigger] life.made(i) == life.before(j).fuse_session && forall|k: nat|
            i < k < j ==> #[trigger] life.handed_out(k) is None;
    assert(life.made(i) == life.handed_out(j));
}

proof fn lemma_held_sessions_were_made<H>(life: Life<H>, j: nat)
    requires
        j < life.calls.len(),
        life.before(j).fuse_session is Some,
    ensures
        exists|i: nat|
            i < j && #[trigger] life.made(i) == life.before(j).fuse_session && forall|k: nat|
                i < k < j ==> #[trigger] life.handed_out(k) is None,
    decreases j,
{
    if j > 0 {
        let last = (j - 1) as nat;
        if life.made(last) is Some {
            assert(life.made(last) == life.before(j).fuse_session);
        } else {
            assert(life.handed_out(last) is None);
            lemma_held_sessions_were_made(life, last);
            let i = choose|i: nat|
                i < last && #[trigger] life.made(i) == life.before(last).fuse_session && forall|
                    k: nat,
                |
                    i < k < last ==> #[trigger] life.handed_out(k) is None;
            assert(life.made(i) == life.before(j).fuse_session);
        }
    }
}

/// An unmount hands out the session if there is one and nothing is left mounted; else it changes
/// nothing, so that it can be tried again. What is mounted has a session, and the mount point
/// stays.
pub proof fn law_failed_unmount_changes_nothing<H>(life: Life<H>, i: nat)
    requires
        i < life.calls.len(),
    ensures
        life.before(i).mounted ==> life.before(i).fuse_session is Some,
        life.before(i).mountpoint == life.mountpoint,
        life.calls[i as int] matches Call::Umount { result } ==> {
            let before = life.before(i);
            &&& life.handed_out(i) is Some <==> before.fuse_session is Some && (!before.mounted
                || unmounted_by(result, life.os))
            &&& life.handed_out(i) is None ==> before.called(life.calls[i as int], life.os)
                == before
        },
    decreases i,
{
    if i > 0 {
        law_failed_unmount_changes_nothing(life, (i - 1) as nat);
    }
}

/// A mount begins unless libfuse has a session for it, and mounts exactly with status 0. What is
/// not mounted is destroyed at once, and what is mounted is unmounted first; that succeeds with
/// the system call, or by libfuse where Linux did not permit the call, and in no other way.
pub proof fn law_steps_of_a_mount<H>(
    mount: MountView<H>,
    made: Option<H>,
    status: i32,
    result: Result<(), Errno>,
    os: Os,
)
    ensures
        mount.begins() <==> mount.fuse_session is None,
        made is Some ==> mount.asked(made).fuse_session == made,
        made is None ==> mount.asked(made) == mount,
        mount.asked(made).mounted == mount.mounted,
        status == 0 ==> mount.mounted_by(status).mounted,
        status != 0 ==> mount.mounted_by(status) == mount,
        mount.mounted_by(status).fuse_session == mount.fuse_session,
        mount.umount_start() is Nothing <==> mount.fuse_session is None,
        mount.umount_start() is Umount <==> mount.fuse_session is Some && mount.mounted,
        mount.umount_start() matches UmountStart::Destroy(session) ==> mount.fuse_session == Some(
            session,
        ) && !mount.mounted,
        unmounted_by(result, os) <==> result is Ok || (os is Linux && result == Err::<(), Errno>(
            Errno::EPERM,
        )),
        unmounted_by(result, os) ==> !mount.umounted(result, os).mounted,
        !unmounted_by(result, os) ==> mount.umounted(result, os) == mount,
        mount.umounted(result, os).fuse_session == mount.fuse_session,
        mount.released().fuse_session is None,
        mount.released().mounted == mount.mounted,
        mount.asked(made).mountpoint == mount.mountpoint && mount.mounted_by(status).mountpoint
            == mount.mountpoint && mount.umounted(result, os).mountpoint == mount.mountpoint
            && mount.released().mountpoint == mount.mountpoint,
{
}

/// The error of a native call is the system's, unless that says success; then it is one of no
/// particular category.
pub proof fn law_native_errors_say_something(error: ErrorView)
    ensures
        error != ErrorView::Os(0) ==> native_error(error) == error,
        error == ErrorView::Os(0) ==> (native_error(error) matches ErrorView::Custom { kind, .. }
            && kind == ErrorKind::Other),
{
}

/// An owner mounts once: it cannot begin once it has a session. It takes over the session that
/// libfuse made, has mounted it with status 0, and gives its descriptor unless that is negative.
pub proof fn law_mounts_are_made_once<H: Copy>(
    begun: Result<(), Error>,
    mount: MountImpl<H>,
    session: Option<H>,
    number: i32,
    last_error: Error,
    described: Result<i32, Error>,
)
    requires
        call_ensures(MountImpl::<H>::begin_mount, (&mount,), begun),
        call_ensures(MountImpl::<H>::fd_returned, (&mount, number, last_error), described),
    ensures
        begun is Ok <==> mount.fuse_session is None,
        begun matches Err(error) ==> (error matches Error::Custom { kind, .. } && kind
            == ErrorKind::AlreadyExists),
        number >= 0 ==> described == Ok::<i32, Error>(number),
        number < 0 ==> described == Err::<i32, Error>(last_error),
        forall|owner: &mut MountImpl<H>, r: Result<H, Error>| #[trigger]
            call_ensures(MountImpl::<H>::session_made, (owner, session, last_error), r) ==> {
                &&& session matches Some(made) ==> r == Ok::<H, Error>(made)
                    && final(owner).fuse_session == session
                &&& session is None ==> r == Err::<H, Error>(last_error)
                    && final(owner).fuse_session == owner.fuse_session
                &&& final(owner).mounted == owner.mounted
            },
        forall|owner: &mut MountImpl<H>, r: Result<(), Error>| #[trigger]
            call_ensures(MountImpl::<H>::mount_returned, (owner, number, last_error), r) ==> {
                &&& r is Ok <==> number == 0
                &&& r is Ok ==> final(owner).mounted
                &&& r is Err ==> final(owner).mounted == owner.mounted
                &&& final(owner).fuse_session == owner.fuse_session
            },
{
}

/// A prepared owner has its mount point, and neither a session nor a mount.
pub proof fn law_prepared_owners_are_not_mounted<H: Copy>(
    mountpoint: Vec<u8>,
    r: Result<MountImpl<H>, Error>,
)
    requires
        call_ensures(MountImpl::<H>::prepare, (mountpoint,), r),
    ensures
        r is Err <==> mountpoint@.contains(0),
        r matches Ok(mount) ==> mount.mountpoint@ == mountpoint@ && !mount.mounted
            && mount.fuse_session is None,
{
}

/// An unmount that succeeded is followed by the end of the session. One that was not permitted is
/// left to libfuse on Linux, and any other error is returned as it is, with the session and the
/// mount kept.
pub proof fn law_ends_of_an_unmount<H: Copy>(session: H, result: Result<(), Errno>, os: Os)
    ensures
        forall|owner: &mut MountImpl<H>, r: UmountEnd<H>| #[trigger]
            call_ensures(MountImpl::<H>::umount_returned, (owner, result, os), r)
                && owner.fuse_session == Some(session) ==> {
                let retry = os is Linux && result == Err::<(), Errno>(Errno::EPERM);
                &&& result is Ok ==> r == UmountEnd::Destroy(session)
                &&& retry ==> r == UmountEnd::FuseUnmountAndDestroy(session)
                &&& result matches Err(errno) ==> (!retry ==> r == UmountEnd::<H>::Fail(
                    Error::Os(errno.code(os)),
                ))
                &&& final(owner).mounted <==> owner.mounted && result is Err && !retry
                &&& final(owner).fuse_session == owner.fuse_session
            },
        forall|owner: &mut MountImpl<H>| #[trigger]
            call_ensures(MountImpl::<H>::destroyed, (owner,), ()) ==> final(owner).fuse_session is
                None && final(owner).mounted == owner.mounted,
{
}

} // verus!
