use fuser::errno::Errno;
use fuser::error::{Error, ErrorKind};
use fuser::fuse2;
use fuser::fuse3;
use fuser::mount::{
    check_backend, is_mounted, libc_umount, prepare_mountpoint, release_retained, Mount,
    MountProbe, UmountCall,
};
use fuser::target::{MountBackend, Os};

#[derive(Debug, Eq, PartialEq)]
struct Backend {
    attempts: usize,
}

#[test]
fn failed_unmount_retains_the_same_backend_for_retry() {
    let mut owner = Some(Backend { attempts: 0 });
    let first = release_retained(&mut owner, |backend: &mut Backend| {
        backend.attempts += 1;
        Err(Error::new(ErrorKind::PermissionDenied, "synthetic unmount failure"))
    });
    assert_eq!(first.unwrap_err().kind(), Some(ErrorKind::PermissionDenied));
    assert_eq!(owner, Some(Backend { attempts: 1 }));

    release_retained(&mut owner, |backend: &mut Backend| {
        backend.attempts += 1;
        Ok(())
    })
    .unwrap();
    assert_eq!(owner, None);
}

#[test]
fn nothing_is_released_twice() {
    let mut owner: Option<Backend> = None;
    assert_eq!(release_retained(&mut owner, |_: &mut Backend| unreachable!()), Ok(()));
}

#[test]
fn a_released_mount_owner_mounts_no_more() {
    let mut mount = Mount::prepare(Ok(Backend { attempts: 0 })).unwrap();
    mount.mount().unwrap().attempts += 1;
    assert_eq!(mount.mount_impl, Some(Backend { attempts: 1 }));
    assert_eq!(mount.umount(|_: &mut Backend| Err(Error::Os(16))), Err(Error::Os(16)));
    assert_eq!(mount.mount_impl, Some(Backend { attempts: 1 }));
    assert_eq!(mount.umount(|_: &mut Backend| Ok(())), Ok(()));
    assert_eq!(
        mount.mount().unwrap_err(),
        Error::new(ErrorKind::NotConnected, "mount owner was already released")
    );
    assert_eq!(mount.umount(|_: &mut Backend| unreachable!()), Ok(()));
}

#[test]
fn a_failed_preparation_is_passed_on() {
    let prepared: Result<Mount<Backend>, Error> = Mount::prepare(Err(Error::Os(2)));
    assert_eq!(prepared.unwrap_err(), Error::Os(2));
}

#[test]
fn no_backend_no_mount() {
    assert_eq!(check_backend(MountBackend::PureRust), Ok(()));
    assert_eq!(
        check_backend(MountBackend::MacosNoMount),
        Err(Error::other("Mount is not enabled; this is test-only configuration"))
    );
}

#[test]
fn mountpoints_hold_no_null_byte() {
    assert_eq!(prepare_mountpoint(b"/mnt/x".to_vec()), Ok(b"/mnt/x".to_vec()));
    assert_eq!(
        prepare_mountpoint(b"/mnt/\0/\0".to_vec()),
        Err(Error::new(
            ErrorKind::InvalidInput,
            "mountpoint contains a null byte: nul byte found in provided data at position: 5"
        ))
    );
}

#[test]
fn unmount_calls() {
    assert_eq!(libc_umount(Os::Linux), UmountCall::Umount);
    for os in [Os::Macos, Os::FreeBsd, Os::DragonFly, Os::OpenBsd, Os::NetBsd] {
        assert_eq!(libc_umount(os), UmountCall::Unmount);
    }
}

#[test]
fn a_poll_tells_whether_a_device_is_mounted() {
    let error = nix::poll::PollFlags::POLLERR.bits();
    let hang_up = nix::poll::PollFlags::POLLHUP.bits();
    assert_eq!(is_mounted(Ok(0), None), MountProbe::Mounted(true));
    assert_eq!(is_mounted(Ok(1), Some(error)), MountProbe::Mounted(true));
    assert_eq!(is_mounted(Ok(1), Some(error | hang_up)), MountProbe::Mounted(true));
    assert_eq!(is_mounted(Ok(1), Some(hang_up)), MountProbe::Mounted(false));
    assert_eq!(is_mounted(Ok(1), None), MountProbe::Mounted(false));
    assert_eq!(is_mounted(Err(Errno::EINTR), None), MountProbe::Again);
}

#[test]
fn libfuse2_mounts_once_and_unmounts() {
    let mut mount = fuse2::MountImpl::prepare(b"/mnt".to_vec()).unwrap();
    assert_eq!(mount.begin_mount(), Ok(()));
    assert_eq!(
        mount.mount_returned(-1, Error::Os(0)),
        Err(Error::other("libfuse returned no error detail"))
    );
    assert_eq!(mount.mount_returned(-1, Error::Os(13)), Err(Error::Os(13)));
    assert!(!mount.begin_umount());
    assert_eq!(mount.mount_returned(7, Error::Os(0)), Ok(7));
    assert_eq!(
        mount.begin_mount(),
        Err(Error::new(ErrorKind::AlreadyExists, "libfuse2 mount owner is already mounted"))
    );
    assert!(mount.begin_umount());
    assert!(matches!(
        mount.umount_returned(Err(Errno::Other(16)), Os::Linux),
        fuse2::UmountEnd::Return(Err(Error::Os(16)))
    ));
    assert!(matches!(
        mount.umount_returned(Err(Errno::EPERM), Os::FreeBsd),
        fuse2::UmountEnd::Return(Err(Error::Os(1)))
    ));
    assert!(mount.begin_umount());
    assert!(matches!(
        mount.umount_returned(Err(Errno::EPERM), Os::Linux),
        fuse2::UmountEnd::FuseUnmount
    ));
    assert!(!mount.begin_umount());
    mount.mounted = true;
    assert!(matches!(
        mount.umount_returned(Ok(()), Os::Linux),
        fuse2::UmountEnd::Return(Ok(()))
    ));
    assert!(!mount.mounted);
    assert!(fuse2::MountImpl::prepare(vec![0]).is_err());
}

#[test]
fn libfuse3_takes_each_thing_over_as_it_comes() {
    let mut mount: fuse3::MountImpl<u8> = fuse3::MountImpl::prepare(b"/mnt".to_vec()).unwrap();
    assert_eq!(mount.begin_mount(), Ok(()));
    assert_eq!(mount.begin_umount(), fuse3::UmountStart::Nothing);
    assert_eq!(mount.session_made(None, Error::Os(12)), Err(Error::Os(12)));
    assert_eq!(mount.session_made(Some(9), Error::Os(0)), Ok(9));
    assert_eq!(
        mount.begin_mount(),
        Err(Error::new(ErrorKind::AlreadyExists, "libfuse3 mount owner was already used"))
    );
    assert_eq!(
        mount.mount_returned(-1, Error::Os(0)),
        Err(Error::new(ErrorKind::Other, "Unspecified Error"))
    );
    assert_eq!(mount.mount_returned(-1, Error::Os(13)), Err(Error::Os(13)));
    assert_eq!(mount.begin_umount(), fuse3::UmountStart::Destroy(9));
    assert_eq!(mount.mount_returned(0, Error::Os(0)), Ok(()));
    assert_eq!(mount.fd_returned(-1, Error::Os(9)), Err(Error::Os(9)));
    assert_eq!(mount.fd_returned(4, Error::Os(0)), Ok(4));
    assert_eq!(mount.begin_umount(), fuse3::UmountStart::Umount);
    assert!(matches!(
        mount.umount_returned(Err(Errno::EPERM), Os::FreeBsd),
        fuse3::UmountEnd::Fail(Error::Os(1))
    ));
    assert!(matches!(
        mount.umount_returned(Err(Errno::Other(16)), Os::Linux),
        fuse3::UmountEnd::Fail(Error::Os(16))
    ));
    assert!(mount.mounted);
    assert!(matches!(
        mount.umount_returned(Err(Errno::EPERM), Os::Linux),
        fuse3::UmountEnd::FuseUnmountAndDestroy(9)
    ));
    assert!(!mount.mounted);
    mount.mounted = true;
    assert!(matches!(
        mount.umount_returned(Ok(()), Os::Linux),
        fuse3::UmountEnd::Destroy(9)
    ));
    mount.destroyed();
    assert_eq!(mount.fuse_session, None);
    assert_eq!(mount.begin_umount(), fuse3::UmountStart::Nothing);
}

#[test]
fn a_libfuse3_session_lives_until_one_unmount_hands_it_out() {
    let mut mount: fuse3::MountImpl<u8> = fuse3::MountImpl::prepare(b"/mnt".to_vec()).unwrap();
    mount.begin_mount().unwrap();
    mount.session_made(Some(3), Error::Os(0)).unwrap();
    mount.mount_returned(1, Error::Os(13)).unwrap_err();
    assert!(mount.begin_mount().is_err());
    assert_eq!(mount.begin_umount(), fuse3::UmountStart::Destroy(3));
    mount.destroyed();
    assert_eq!(mount.begin_umount(), fuse3::UmountStart::Nothing);

    mount.begin_mount().unwrap();
    mount.session_made(Some(4), Error::Os(0)).unwrap();
    mount.mount_returned(0, Error::Os(0)).unwrap();
    for _ in 0..2 {
        assert!(mount.begin_mount().is_err());
        assert_eq!(mount.begin_umount(), fuse3::UmountStart::Umount);
        assert!(matches!(
            mount.umount_returned(Err(Errno::Other(16)), Os::Linux),
            fuse3::UmountEnd::Fail(Error::Os(16))
        ));
        assert_eq!(mount.fuse_session, Some(4));
    }
    assert!(matches!(
        mount.umount_returned(Ok(()), Os::Linux),
        fuse3::UmountEnd::Destroy(4)
    ));
    mount.destroyed();
    assert_eq!(mount.begin_umount(), fuse3::UmountStart::Nothing);
    assert_eq!(mount.mountpoint, b"/mnt");
}

#[test]
fn a_libfuse2_mount_ends_once() {
    let mut mount = fuse2::MountImpl::prepare(b"/mnt".to_vec()).unwrap();
    mount.mount_returned(5, Error::Os(0)).unwrap();
    for _ in 0..2 {
        assert!(mount.begin_mount().is_err());
        assert!(mount.begin_umount());
        let failed = mount.umount_returned(Err(Errno::Other(16)), Os::Linux);
        assert!(matches!(failed, fuse2::UmountEnd::Return(Err(Error::Os(16)))));
    }
    let _ = mount.umount_returned(Ok(()), Os::Linux);
    assert!(!mount.begin_umount());
    assert!(mount.begin_mount().is_ok());
}
