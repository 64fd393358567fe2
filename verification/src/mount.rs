//! Mounts and their release.

use vstd::prelude::*;
use vstd::string::*;

use crate::errno::Errno;
use crate::error::{custom, outcome, Error, ErrorKind, ErrorView};
use crate::target::{MountBackend, Os};
use crate::text::{decimal, decimal_text, joined, law_numbers_tell_texts_apart, number_of};

verus! {

/// Releases what is owned, if anything is. Where the release fails, the owner keeps it, as the
/// attempt left it, so that the release can be tried again.
pub fn release_retained<T, F: FnOnce(&mut T) -> Result<(), Error>>(
    owner: &mut Option<T>,
    release: F,
) -> (r: Result<(), Error>)
    requires
        forall|value: &mut T| *old(owner) == Some(*value) ==> call_requires(release, (value,)),
    ensures
        *old(owner) is None ==> r is Ok && *final(owner) is None,
        *old(owner) matches Some(owned) ==> exists|value: &mut T|
            {
                &&& #[trigger] call_ensures(release, (value,), r)
                &&& *value == owned
                &&& *final(owner) == (if r is Ok {
                    None
                } else {
                    Some(*final(value))
                })
            },
{
    let result = match owner.as_mut() {
        None => return Ok(()),
        Some(value) => release(value),
    };
    if result.is_ok() {
        *owner = None;
    }
    result
}

/// Owner of a mount, until it was unmounted.
#[derive(Debug)]
pub struct Mount<B> {
    pub mount_impl: Option<B>,
}

impl<B> Mount<B> {
    /// Owns the backend that was prepared for a mount point.
    pub fn prepare(prepared: Result<B, Error>) -> (r: Result<Mount<B>, Error>)
        ensures
            match prepared {
                Ok(backend) => r matches Ok(mount) && mount.mount_impl == Some(backend),
                Err(error) => r == Err::<Mount<B>, Error>(error),
            },
    {
        match prepared {
            Ok(backend) => Ok(Mount { mount_impl: Some(backend) }),
            Err(error) => Err(error),
        }
    }

    /// The backend that is to mount, unless it was released.
    pub fn mount(&mut self) -> (r: Result<&mut B, Error>)
        ensures
            match r {
                Ok(backend) => old(self).mount_impl == Some(*backend) && final(self).mount_impl
                    == Some(*final(backend)),
                Err(error) => {
                    &&& old(self).mount_impl is None
                    &&& *final(self) == *old(self)
                    &&& error@ == custom(
                        ErrorKind::NotConnected,
                        "mount owner was already released"@,
                    )
                },
            },
    {
        match self.mount_impl.as_mut() {
            Some(backend) => Ok(backend),
            None => Err(Error::new(ErrorKind::NotConnected, "mount owner was already released")),
        }
    }

    /// Unmounts, unless that was done. A backend that fails to unmount is kept.
    pub fn umount<F: FnOnce(&mut B) -> Result<(), Error>>(&mut self, release: F) -> (r: Result<
        (),
        Error,
    >)
        requires
            forall|backend: &mut B|
                old(self).mount_impl == Some(*backend) ==> call_requires(release, (backend,)),
        ensures
            old(self).mount_impl is None ==> r is Ok && final(self).mount_impl is None,
            old(self).mount_impl matches Some(owned) ==> exists|backend: &mut B|
                {
                    &&& #[trigger] call_ensures(release, (backend,), r)
                    &&& *backend == owned
                    &&& final(self).mount_impl == (if r is Ok {
                        None
                    } else {
                        Some(*final(backend))
                    })
                },
    {
        release_retained(&mut self.mount_impl, release)
    }
}

/// Whether a way to mount is there at all.
pub fn check_backend(backend: MountBackend) -> (r: Result<(), Error>)
    ensures
        outcome(r) == (if backend is MacosNoMount {
            Err(
                custom(
                    ErrorKind::Other,
                    "Mount is not enabled; this is test-only configuration"@,
                ),
            )
        } else {
            Ok::<(), ErrorView>(())
        }),
{
    match backend {
        MountBackend::MacosNoMount => Err(
            Error::other("Mount is not enabled; this is test-only configuration"),
        ),
        _ => Ok(()),
    }
}

/// The first null byte stands at `i`.
pub open spec fn first_null(bytes: Seq<u8>, i: int) -> bool {
    0 <= i < bytes.len() && bytes[i] == 0 && forall|k: int| 0 <= k < i ==> bytes[k] != 0
}

/// The error of a mount point with its first null byte at `i`.
pub open spec fn null_error(i: nat) -> ErrorView {
    custom(
        ErrorKind::InvalidInput,
        "mountpoint contains a null byte: nul byte found in provided data at position: "@
            + decimal(i),
    )
}

/// Checks that the path of a mount point can be handed to a native library: it holds no null
/// byte.
pub fn prepare_mountpoint(mountpoint: Vec<u8>) -> (r: Result<Vec<u8>, Error>)
    ensures
        r matches Ok(path) ==> path@ == mountpoint@ && !mountpoint@.contains(0),
        r matches Err(error) ==> exists|i: int|
            #[trigger] first_null(mountpoint@, i) && error@ == null_error(i as nat),
{
    let mut i: usize = 0;
    while i < mountpoint.len()
        invariant
            i <= mountpoint@.len(),
            forall|k: int| 0 <= k < i ==> mountpoint@[k] != 0,
        decreases mountpoint@.len() - i,
    {
        if mountpoint[i] == 0 {
            assert(first_null(mountpoint@, i as int));
            let position = decimal_text(i as u64);
            let message = joined(
                "mountpoint contains a null byte: nul byte found in provided data at position: ",
                position.as_str(),
            );
            return Err(Error::new(ErrorKind::InvalidInput, message.as_str()));
        }
        i = i + 1;
    }
    Ok(mountpoint)
}

/// The system call that unmounts.
#[derive(Clone, Copy, Debug, PartialEq, Eq, Structural)]
pub enum UmountCall {
    /// `unmount`, with flags.
    Unmount,
    /// `umount`, without.
    Umount,
}

/// The system call that unmounts on a system.
pub open spec fn umount_call(os: Os) -> UmountCall {
    if os is Linux {
        UmountCall::Umount
    } else {
        UmountCall::Unmount
    }
}

/// The system call that unmounts on a system.
pub fn libc_umount(os: Os) -> (r: UmountCall)
    ensures
        r == umount_call(os),
{
    match os {
        Os::Linux => UmountCall::Umount,
        _ => UmountCall::Unmount,
    }
}

/// `nix::poll::PollFlags::contains`, of the flag `POLLERR`, which is bit 3 on every system here.
#[verifier::external_body]
fn reports_error(revents: i16) -> (r: bool)
    ensures
        r == (revents & 8 == 8),
{
    nix::poll::PollFlags::from_bits_retain(revents).contains(nix::poll::PollFlags::POLLERR)
}

/// What a poll of the FUSE device says of its mount.
#[derive(Clone, Copy, Debug, PartialEq, Eq, Structural)]
pub enum MountProbe {
    Mounted(bool),
    /// The poll was interrupted: poll again.
    Again,
}

/// What a poll of the FUSE device says of its mount.
pub open spec fn probed(polled: Result<i32, Errno>, revents: Option<i16>) -> MountProbe {
    match polled {
        Err(_) => MountProbe::Again,
        Ok(ready) => MountProbe::Mounted(
            ready == 0 || (revents matches Some(bits) && bits & 8 == 8),
        ),
    }
}

/// Whether a filesystem is mounted, by the result of a poll of its device for nothing: how many
/// descriptors reported something, and what this one did.
///
/// Warning: This will be true if the filesystem has been detached (lazy unmounted), but not
/// yet destroyed by the kernel.
pub fn is_mounted(polled: Result<i32, Errno>, revents: Option<i16>) -> (r: MountProbe)
    requires
        polled matches Ok(ready) ==> ready == 0 || ready == 1,
        polled matches Err(errno) ==> errno == Errno::EINTR,
    ensures
        r == probed(polled, revents),
{
    match polled {
        Err(_) => MountProbe::Again,
        Ok(0) => MountProbe::Mounted(true),
        Ok(_) => match revents {
            Some(bits) => MountProbe::Mounted(reports_error(bits)),
            None => MountProbe::Mounted(false),
        },
    }
}

/// Linux has a system call of its own to unmount.
pub proof fn law_unmount_calls(os: Os)
    ensures
        umount_call(os) is Umount <==> os is Linux,
{
}

/// A device is mounted if it reports nothing, or an error among other things; and a poll that
/// failed says neither.
pub proof fn law_mounted_devices(polled: Result<i32, Errno>, revents: Option<i16>)
    ensures
        polled is Err <==> probed(polled, revents) is Again,
        polled matches Ok(ready) ==> {
            &&& ready == 0 ==> probed(polled, revents) == MountProbe::Mounted(true)
            &&& ready != 0 && revents is None ==> probed(polled, revents) == MountProbe::Mounted(
                false,
            )
            &&& revents matches Some(bits) ==> (ready != 0 ==> probed(polled, revents)
                == MountProbe::Mounted((bits >> 3) & 1 == 1))
        },
{
    if let Some(bits) = revents {
        assert(bits & 8 == 8 <==> (bits >> 3) & 1 == 1) by (bit_vector);
    }
}

/// A path has at most one first null byte, and has one exactly if it holds a null byte.
pub proof fn law_first_null_byte(bytes: Seq<u8>, i: int, j: int)
    ensures
        first_null(bytes, i) && first_null(bytes, j) ==> i == j,
        first_null(bytes, i) ==> bytes.contains(0),
        bytes.contains(0) ==> exists|k: int| first_null(bytes, k),
{
    if bytes.contains(0) {
        let at = choose|k: int| 0 <= k < bytes.len() && bytes[k] == 0;
        lemma_first_null(bytes, at);
    }
}

proof fn lemma_first_null(bytes: Seq<u8>, at: int)
    requires
        0 <= at < bytes.len(),
        bytes[at] == 0,
    ensures
        exists|k: int| first_null(bytes, k),
    decreases at,
{
    if !first_null(bytes, at) {
        let earlier = choose|k: int| 0 <= k < at && bytes[k] == 0;
        lemma_first_null(bytes, earlier);
    }
}

/// What is owned goes with a release that succeeds, and stays with one that fails; the release is
/// tried on it, and its result is returned. Where nothing is owned, nothing can fail.
pub proof fn law_release_is_all_or_nothing<T, F: FnOnce(&mut T) -> Result<(), Error>>(release: F)
    ensures
        forall|owner: &mut Option<T>, r: Result<(), Error>| #[trigger]
            call_ensures(release_retained::<T, F>, (owner, release), r) ==> {
                &&& r is Ok ==> *final(owner) is None
                &&& r is Err ==> *owner is Some && *final(owner) is Some
                &&& *owner matches Some(owned) ==> exists|value: &mut T| #[trigger]
                    call_ensures(release, (value,), r) && *value == owned
            },
        forall|mount: &mut Mount<T>, r: Result<(), Error>| #[trigger]
            call_ensures(Mount::<T>::umount::<F>, (mount, release), r) ==> {
                &&& r is Ok ==> final(mount).mount_impl is None
                &&& r is Err ==> mount.mount_impl is Some && final(mount).mount_impl is Some
                &&& mount.mount_impl matches Some(owned) ==> exists|value: &mut T| #[trigger]
                    call_ensures(release, (value,), r) && *value == owned
            },
{
}

/// A mount owns the backend that was prepared for it, and has none to mount with once it was
/// released.
pub proof fn law_mounts_own_their_backend<B>(
    prepared: Result<B, Error>,
    r: Result<Mount<B>, Error>,
)
    requires
        call_ensures(Mount::<B>::prepare, (prepared,), r),
    ensures
        prepared matches Ok(backend) ==> r == Ok::<Mount<B>, Error>(
            Mount { mount_impl: Some(backend) },
        ),
        prepared matches Err(error) ==> r == Err::<Mount<B>, Error>(error),
        forall|mount: &mut Mount<B>, given: Result<&mut B, Error>| #[trigger]
            call_ensures(Mount::<B>::mount, (mount,), given) ==> {
                &&& given is Err <==> mount.mount_impl is None
                &&& given matches Err(error) ==> (error matches Error::Custom { kind, .. } && kind
                    == ErrorKind::NotConnected)
            },
{
}

/// Every way to mount is there but the one that is for tests on macOS.
pub proof fn law_backends_are_there(backend: MountBackend, r: Result<(), Error>)
    requires
        call_ensures(check_backend, (backend,), r),
    ensures
        r is Err <==> backend is MacosNoMount,
{
}

/// A path is handed on unchanged, and exactly those with a null byte are refused, as invalid
/// input.
pub proof fn law_paths_without_null_bytes(mountpoint: Vec<u8>, r: Result<Vec<u8>, Error>)
    requires
        call_ensures(prepare_mountpoint, (mountpoint,), r),
    ensures
        r is Err <==> mountpoint@.contains(0),
        r matches Ok(path) ==> path@ == mountpoint@,
        r matches Err(error) ==> (error matches Error::Custom { kind, .. } && kind
            == ErrorKind::InvalidInput),
{
}

/// The error of a path names the place of its first null byte: it is another one for each place.
pub proof fn law_null_errors_name_the_place(i: nat, j: nat)
    ensures
        null_error(i) == null_error(j) ==> i == j,
        null_error(i) matches ErrorView::Custom { message, .. } && exists|at: int|
            0 <= at <= message.len() && number_of(#[trigger] message.skip(at)) == Some(i),
{
    let start =
        "mountpoint contains a null byte: nul byte found in provided data at position: "@;
    law_numbers_tell_texts_apart(start, i, j);
    match null_error(i) {
        ErrorView::Custom { message, .. } => {
            assert(message == start + decimal(i));
            assert(number_of(message.skip(start.len() as int)) == Some(i));
        },
        _ => {},
    }
}

} // verus!
