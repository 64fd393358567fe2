use std::sync::Arc;

use fuser::channel::{
    channel_kind, device, disconnected_error, interrupts_receive, nonblocking_flags, open_backing,
    receive, receive_retrying, sent, with_nonblock, wrap_backing, ChannelKind, ReceiveAction, ReceiveEvent,
    ReceiveInterrupt,
};
use fuser::errno::{errno_from_raw, Errno};
use fuser::error::{Error, ErrorKind};
use fuser::target::{MountBackend, Os, Target};

#[test]
fn sender_does_not_retain_a_closed_device() {
    let channel = Arc::new("device");
    let sender = Arc::downgrade(&channel);
    drop(channel);

    let error = device(sender.upgrade()).expect_err("sender must not keep the device open");

    assert_eq!(error.kind(), Some(ErrorKind::NotConnected));
}

#[test]
fn closed_sender_wraps_an_inert_backing_id() {
    let channel = Arc::new("device");
    let sender = Arc::downgrade(&channel);
    drop(channel);

    let backing = wrap_backing(ChannelKind::Device, sender, 7);

    assert!(backing.channel.upgrade().is_none());
    assert_eq!(backing.backing_id, 7);
}

#[test]
fn an_open_device_is_used() {
    assert_eq!(device(Some(3)), Ok(3));
    assert_eq!(
        disconnected_error(),
        Error::Custom {
            kind: ErrorKind::NotConnected,
            message: "FUSE channel is closed".to_owned(),
        }
    );
}

#[test]
fn transient_errors_are_retried_alone() {
    for errno in [Errno::ENOENT, Errno::EINTR, Errno::EAGAIN] {
        assert_eq!(receive_retrying(Err(errno)), None);
    }
    for result in [Ok(0), Ok(80), Err(Errno::ENODEV), Err(Errno::EIO), Err(Errno::Other(75))] {
        assert_eq!(receive_retrying(result), Some(result));
    }
}

#[test]
fn a_stopped_receive_ends_without_a_read() {
    let mut interrupt = ReceiveInterrupt::new("writer");
    assert!(!interrupt.is_stopped());
    assert_eq!(
        receive(Os::Linux, interrupt.is_stopped(), ReceiveEvent::Begin),
        ReceiveAction::Read
    );
    assert_eq!(
        receive(Os::Linux, interrupt.is_stopped(), ReceiveEvent::Read(Err(Errno::EAGAIN))),
        ReceiveAction::Poll
    );
    assert_eq!(interrupt.stop(), Some("writer"));
    assert_eq!(interrupt.stop(), None);
    assert_eq!(
        receive(Os::Linux, interrupt.is_stopped(), ReceiveEvent::Polled(Ok(()))),
        ReceiveAction::Return(Err(Errno::ENODEV))
    );
    assert_eq!(
        receive(Os::Linux, interrupt.is_stopped(), ReceiveEvent::Begin),
        ReceiveAction::Return(Err(Errno::ENODEV))
    );
}

#[test]
fn a_receive_passes_on_what_the_device_gave() {
    for os in [Os::Linux, Os::Macos] {
        assert_eq!(
            receive(os, false, ReceiveEvent::Read(Ok(40))),
            ReceiveAction::Return(Ok(40))
        );
        assert_eq!(
            receive(os, false, ReceiveEvent::Read(Err(Errno::EIO))),
            ReceiveAction::Return(Err(Errno::EIO))
        );
    }
    assert_eq!(
        receive(Os::Macos, true, ReceiveEvent::Read(Err(Errno::EAGAIN))),
        ReceiveAction::Return(Err(Errno::EAGAIN))
    );
    assert_eq!(
        receive(Os::Linux, false, ReceiveEvent::Polled(Err(Errno::EINTR))),
        ReceiveAction::Return(Err(Errno::EINTR))
    );
}

#[test]
fn a_failed_write_is_reported_by_its_code() {
    for os in [Os::Linux, Os::Macos, Os::FreeBsd, Os::DragonFly, Os::OpenBsd, Os::NetBsd] {
        assert_eq!(sent(Ok(16), os), Ok(()));
        assert_eq!(sent(Err(Errno::ENODEV), os), Err(Error::Os(19)));
        assert_eq!(sent(Err(Errno::EPERM), os), Err(Error::Os(1)));
        assert_eq!(sent(Err(Errno::ENOENT), os), Err(Error::Os(2)));
        assert_eq!(sent(Err(Errno::EINTR), os), Err(Error::Os(4)));
        assert_eq!(sent(Err(Errno::EIO), os), Err(Error::Os(5)));
        assert_eq!(sent(Err(Errno::Other(32)), os), Err(Error::Os(32)));
        let again = if os == Os::Linux { 11 } else { 35 };
        assert_eq!(sent(Err(Errno::EAGAIN), os), Err(Error::Os(again)));
    }
}

#[test]
fn codes_are_those_of_the_system_they_run_on() {
    for errno in [
        nix::errno::Errno::EPERM,
        nix::errno::Errno::ENOENT,
        nix::errno::Errno::EINTR,
        nix::errno::Errno::EIO,
        nix::errno::Errno::EAGAIN,
        nix::errno::Errno::ENODEV,
    ] {
        let named = errno_from_raw(errno as i32, Os::Linux);
        assert!(!matches!(named, Errno::Other(_)));
        assert_eq!(named.into_error(Os::Linux), Error::Os(errno as i32));
    }
}

#[test]
fn codes_stand_for_error_numbers() {
    for raw in 1..=34 {
        for os in [Os::Linux, Os::Macos] {
            assert_eq!(errno_from_raw(raw, os).into_error(os), Error::Os(raw));
        }
    }
    assert_eq!(errno_from_raw(11, Os::Linux), Errno::EAGAIN);
    assert_eq!(errno_from_raw(11, Os::Macos), Errno::Other(11));
    assert_eq!(errno_from_raw(35, Os::Macos), Errno::EAGAIN);
    assert_eq!(errno_from_raw(22, Os::Linux), Errno::Other(22));
    assert_eq!(errno_from_raw(1_000_000, Os::Linux), Errno::Other(0));
    for raw in [0, -1, i32::MIN] {
        assert_eq!(errno_from_raw(raw, Os::Linux), Errno::Other(0));
    }
}

#[test]
fn a_device_is_made_nonblocking() {
    let nonblock = nix::fcntl::OFlag::O_NONBLOCK.bits();
    let read_write = nix::fcntl::OFlag::O_RDWR.bits();
    let append = nix::fcntl::OFlag::O_APPEND.bits();
    assert_eq!(nonblocking_flags(read_write), read_write | nonblock);
    assert_eq!(nonblocking_flags(read_write | append), read_write | append | nonblock);
    assert_eq!(nonblocking_flags(nonblock), nonblock);
    assert_ne!(nonblocking_flags(0), 0);
    assert_eq!(with_nonblock(0x402, 0x800), 0xc02);
    assert_eq!(with_nonblock(0x802, 0x800), 0x802);
}

#[test]
fn message_channels_have_no_backing_files() {
    assert_eq!(open_backing(ChannelKind::Device), Ok(()));
    assert_eq!(
        open_backing(ChannelKind::Darwin),
        Err(Error::new(
            ErrorKind::Unsupported,
            "backing IDs are unavailable on macFUSE's FSKit channel"
        ))
    );
}

#[test]
fn channel_kind_follows_the_target() {
    let target = |os: Os, backend: MountBackend| Target { os, backend };
    assert_eq!(channel_kind(target(Os::Macos, MountBackend::Libfuse2)), ChannelKind::Darwin);
    assert_eq!(channel_kind(target(Os::Macos, MountBackend::Libfuse3)), ChannelKind::Device);
    assert_eq!(channel_kind(target(Os::Linux, MountBackend::Libfuse2)), ChannelKind::Device);
    assert!(interrupts_receive(ChannelKind::Device, Os::Linux));
    assert!(!interrupts_receive(ChannelKind::Darwin, Os::Macos));
    assert!(!interrupts_receive(ChannelKind::Device, Os::FreeBsd));
}
