use std::cell::Cell;

use fuser::acl::SessionACL;
use fuser::dispatch::{DispatchActivation, DispatchCommand};
use fuser::errno::Errno;
use fuser::error::{Error, ErrorKind};
use fuser::handshake::{
    HandshakeEvent, HandshakeNext, HandshakeReply, HandshakeStep, ReplyErrno, Version,
};
use fuser::mount_options::{AclRequestIdentity, Config, MountOption};
use fuser::run::{
    event_loop, plan_run, thread_name, ChannelSource, LoopAction, LoopEvent, RunEnd, RunPlan,
    RunReply, ThreadExit,
};
use fuser::session::{FilesystemHolder, Session, UmountOnDrop, MAX_WRITE_SIZE};
use fuser::target::{MountBackend, Os, Target};
use fuser::time::{Duration, Instant};

const LINUX: Target = Target { os: Os::Linux, backend: MountBackend::PureRust };

type TestSession = Session<&'static str, u8, u16>;

fn session() -> TestSession {
    Session::new(
        "fs",
        &Config::default(),
        LINUX,
        501,
        |options: &Vec<MountOption>, acl: SessionACL| {
            assert!(options.is_empty());
            assert_eq!(acl, SessionACL::Owner);
            Ok((7, 70))
        },
        |_: &mut TestSession| Ok(()),
    )
    .unwrap()
}

#[test]
fn a_session_is_what_its_handshake_left() {
    let mount = |_: &Vec<MountOption>, _: SessionACL| Ok((7, 70));
    let session: TestSession =
        Session::new("fs", &Config::default(), LINUX, 501, mount, |session: &mut TestSession| {
            assert_eq!(session.mount.mount, Some(70));
            assert_eq!(session.proto_version, None);
            session.proto_version = Some(Version(7, 40));
            Ok(())
        })
        .unwrap();
    assert_eq!(session.proto_version, Some(Version(7, 40)));

    let failed: Result<TestSession, Error> =
        Session::new("fs", &Config::default(), LINUX, 501, mount, |_: &mut TestSession| {
            Err(Error::Os(71))
        });
    assert_eq!(failed.unwrap_err(), Error::Os(71));

    let failed: Result<TestSession, Error> = Session::from_fd(
        "fs",
        || Ok(3),
        SessionACL::All,
        Config::default(),
        LINUX,
        0,
        |session: &mut TestSession| {
            assert_eq!((session.ch, session.mount.mount), (3, None));
            Err(Error::Os(71))
        },
    );
    assert_eq!(failed.unwrap_err(), Error::Os(71));
}

#[test]
fn a_new_session_holds_what_was_mounted() {
    let session = session();
    assert_eq!(session.filesystem.fs, Some("fs"));
    assert_eq!(session.ch, 7);
    assert_eq!(session.mount.mount, Some(70));
    assert_eq!(session.allowed, SessionACL::Owner);
    assert_eq!(session.session_owner, 501);
    assert_eq!(session.acl_request_identity, AclRequestIdentity::Direct);
    assert_eq!(session.proto_version, None);
    assert_eq!(session.config, Config::default());
    assert_eq!(*session.notifier(), 7);
}

#[test]
fn wrong_options_mount_nothing() {
    let mut config = Config::default();
    config.mount_options = vec![MountOption::AutoUnmount];
    let result: Result<TestSession, Error> = Session::new(
        "fs",
        &config,
        LINUX,
        501,
        |_: &Vec<MountOption>, _: SessionACL| unreachable!(),
        |_: &mut TestSession| unreachable!(),
    );
    assert_eq!(result.unwrap_err().kind(), Some(ErrorKind::InvalidInput));

    let result: Result<TestSession, Error> = Session::new(
        "fs",
        &Config::default(),
        LINUX,
        501,
        |_: &Vec<MountOption>, _: SessionACL| Err(Error::Os(13)),
        |_: &mut TestSession| unreachable!(),
    );
    assert_eq!(result.unwrap_err(), Error::Os(13));
}

#[test]
fn a_session_over_a_descriptor_has_no_mount() {
    let mut config = Config::default();
    config.mount_options = vec![MountOption::AutoUnmount];
    let session: TestSession = Session::from_fd(
        "fs",
        || Ok(3),
        SessionACL::All,
        config.clone(),
        LINUX,
        0,
        |_: &mut TestSession| Ok(()),
    )
    .unwrap();
    assert_eq!(session.mount.mount, None);
    assert_eq!(session.allowed, SessionACL::All);
    assert_eq!(session.config, config);

    let failed: Result<TestSession, Error> = Session::from_fd(
        "fs",
        || Err(Error::Os(9)),
        SessionACL::All,
        config,
        LINUX,
        0,
        |_: &mut TestSession| unreachable!(),
    );
    assert_eq!(failed.unwrap_err(), Error::Os(9));

    let mut config = Config::default();
    config.mount_options = vec![MountOption::MacFsKit];
    let refused: Result<TestSession, Error> = Session::from_fd(
        "fs",
        || unreachable!(),
        SessionACL::All,
        config,
        LINUX,
        0,
        |_: &mut TestSession| unreachable!(),
    );
    assert!(refused.is_err());
}

#[test]
fn a_session_that_fails_to_unmount_keeps_its_mount() {
    let mut session = session();
    let failed = session.unmount(|mount: &mut u16| {
        *mount += 1;
        Err(Error::Os(16))
    });
    assert_eq!(failed, Err(Error::Os(16)));
    assert_eq!(session.mount.mount, Some(71));
    assert_eq!(session.unmount(|_: &mut u16| Ok(())), Ok(()));
    assert_eq!(session.mount.mount, None);
    assert_eq!(session.unmount(|_: &mut u16| unreachable!()), Ok(()));
}

#[test]
fn a_filesystem_is_destroyed_once() {
    let destroyed = Cell::new(0);
    let mut holder = FilesystemHolder { fs: Some("fs") };
    holder.destroy(|fs: &'static str| {
        assert_eq!(fs, "fs");
        destroyed.set(destroyed.get() + 1);
    });
    assert_eq!(destroyed.get(), 1);
    for _ in 0..3 {
        holder.destroy(|_: &'static str| unreachable!());
        assert_eq!(holder.fs, None);
    }
    assert_eq!(destroyed.get(), 1);
    assert_eq!(holder.fs, None);
}

#[test]
fn an_empty_mount_holder_has_nothing_to_unmount() {
    let mut empty: UmountOnDrop<u8> = UmountOnDrop::empty();
    assert_eq!(empty.umount_until(|_: &mut u8| unreachable!()), Ok(()));
    assert_eq!(MAX_WRITE_SIZE, 16_777_216);
    assert_eq!(
        Instant { nanos: 5 }.drop_deadline(),
        Instant { nanos: 5 + Duration::from_secs(2).nanos }
    );
}

#[test]
fn a_spawned_session_is_active() {
    let background = session()
        .spawn(
            |ch: &u8| {
                assert_eq!(*ch, 7);
                "sender"
            },
            |session: TestSession| {
                assert_eq!(session.mount.mount, None);
                Ok(("guard", "activation"))
            },
            |activation: &&str, command: DispatchCommand| {
                assert_eq!((*activation, command), ("activation", DispatchCommand::Activate));
                true
            },
        )
        .unwrap();
    assert_eq!(background.sender, "sender");
    assert_eq!(background.mount.mount, Some(70));
    assert_eq!(background.dispatch.guard, Some("guard"));
    assert!(matches!(background.dispatch.activation, DispatchActivation::Active));
}

#[test]
fn a_session_whose_thread_does_not_start_is_not_spawned() {
    let result = session().spawn(
        |_: &u8| "sender",
        |_: TestSession| Err::<(u8, u8), Error>(Error::Os(11)),
        |_: &u8, _: DispatchCommand| unreachable!(),
    );
    assert_eq!(result.unwrap_err(), Error::Os(11));

    let result = session().spawn(
        |_: &u8| "sender",
        |_: TestSession| Ok((1u8, 2u8)),
        |_: &u8, _: DispatchCommand| false,
    );
    assert_eq!(
        result.unwrap_err(),
        Error::new(
            ErrorKind::NotConnected,
            "filesystem dispatch thread exited before activation"
        )
    );
}

fn returned(step: HandshakeStep) -> (Option<(u64, HandshakeReply)>, Result<(), Error>) {
    match step.next {
        HandshakeNext::Return(result) => (step.reply, result),
        _ => panic!(),
    }
}

#[test]
fn a_handshake_begins_with_a_version_that_both_sides_know() {
    let mut session = session();
    let newer = session
        .handshake(HandshakeEvent::Init { unique: 1, version: Version(8, 0) }, 7, Os::Linux);
    assert_eq!(newer.reply, Some((1, HandshakeReply::VersionOnly)));
    assert!(matches!(newer.next, HandshakeNext::Receive));

    let init = session
        .handshake(HandshakeEvent::Init { unique: 2, version: Version(7, 31) }, 7, Os::Linux);
    assert_eq!(init.reply, None);
    assert!(matches!(
        init.next,
        HandshakeNext::InitFilesystem { unique: 2, version: Version(7, 31) }
    ));
    assert_eq!(session.proto_version, None);

    let ready = session.handshake(
        HandshakeEvent::FilesystemReady { unique: 2, version: Version(7, 31), result: Ok(()) },
        7,
        Os::Linux,
    );
    assert_eq!(returned(ready), (Some((2, HandshakeReply::Init)), Ok(())));
    assert_eq!(session.proto_version, Some(Version(7, 31)));
}

#[test]
fn an_old_kernel_is_refused() {
    let mut session = session();
    for version in [Version(7, 5), Version(6, 40)] {
        let step = session.handshake(HandshakeEvent::Init { unique: 3, version }, 7, Os::Linux);
        assert_eq!(
            returned(step),
            (
                Some((3, HandshakeReply::Errno(ReplyErrno::EPROTO))),
                Err(Error::new(
                    ErrorKind::Unsupported,
                    &format!("Unsupported FUSE ABI version {}.{}", version.0, version.1)
                ))
            )
        );
    }
    let oldest = session.handshake(
        HandshakeEvent::Init { unique: 3, version: Version(7, 6) },
        7,
        Os::Linux,
    );
    assert!(matches!(oldest.next, HandshakeNext::InitFilesystem { .. }));
}

#[test]
fn a_handshake_fails_as_it_should() {
    let mut session = session();
    let gone = session.handshake(HandshakeEvent::ReceiveFailed(Errno::ENODEV), 7, Os::Linux);
    assert_eq!(
        returned(gone),
        (
            None,
            Err(Error::new(
                ErrorKind::NotConnected,
                "FUSE device disconnected during handshake"
            ))
        )
    );
    let failed = session.handshake(HandshakeEvent::ReceiveFailed(Errno::EIO), 7, Os::Linux);
    assert_eq!(returned(failed), (None, Err(Error::Os(5))));
    let parse = session.handshake(HandshakeEvent::ParseFailed("short".to_owned()), 7, Os::Linux);
    assert_eq!(returned(parse), (None, Err(Error::new(ErrorKind::InvalidData, "short"))));
    let operation = session.handshake(HandshakeEvent::OperationFailed, 7, Os::Linux);
    assert_eq!(
        returned(operation),
        (None, Err(Error::new(ErrorKind::InvalidData, "Failed to parse FUSE operation")))
    );
    let other = session.handshake(HandshakeEvent::OtherOperation { unique: 4 }, 7, Os::Linux);
    assert_eq!(
        returned(other),
        (
            Some((4, HandshakeReply::Errno(ReplyErrno::EIO))),
            Err(Error::new(
                ErrorKind::InvalidData,
                "Received non-init FUSE operation during handshake"
            ))
        )
    );
    let refused = session.handshake(
        HandshakeEvent::FilesystemReady {
            unique: 5,
            version: Version(7, 31),
            result: Err(Error::Os(12)),
        },
        7,
        Os::Linux,
    );
    assert_eq!(
        returned(refused),
        (Some((5, HandshakeReply::Errno(ReplyErrno::Code(12)))), Err(Error::Os(12)))
    );
    let refused = session.handshake(
        HandshakeEvent::FilesystemReady {
            unique: 6,
            version: Version(7, 31),
            result: Err(Error::other("no")),
        },
        7,
        Os::Linux,
    );
    assert_eq!(
        returned(refused),
        (Some((6, HandshakeReply::Errno(ReplyErrno::Code(0)))), Err(Error::other("no")))
    );
    assert_eq!(session.proto_version, None);
    session.filesystem.fs = None;
    let missing = session.handshake(
        HandshakeEvent::Init { unique: 7, version: Version(7, 31) },
        7,
        Os::Linux,
    );
    assert_eq!(
        returned(missing),
        (
            None,
            Err(Error::new(
                ErrorKind::InvalidInput,
                "Bug: filesystem must be initialized during handshake"
            ))
        )
    );
}

#[test]
fn threads_are_planned_by_the_configuration() {
    let mut config = Config::default();
    assert_eq!(plan_run(&config, Os::Macos), Ok(RunPlan { n_threads: 1, clone_fd: false }));
    config.n_threads = Some(3);
    config.clone_fd = true;
    let plan = plan_run(&config, Os::Linux).unwrap();
    assert_eq!(plan.channel_source(0), ChannelSource::CloneFd);
    assert_eq!(plan.channel_source(1), ChannelSource::CloneFd);
    assert_eq!(plan.channel_source(2), ChannelSource::Own);
    config.clone_fd = false;
    assert_eq!(
        plan_run(&config, Os::Linux).unwrap().channel_source(0),
        ChannelSource::Share
    );
    assert_eq!(
        plan_run(&config, Os::FreeBsd),
        Err(Error::other("n_threads != 1 is only supported on Linux"))
    );
    config.n_threads = Some(0);
    assert_eq!(plan_run(&config, Os::Linux), Err(Error::other("n_threads")));
    assert_eq!(
        plan_run(&config, Os::Macos),
        Err(Error::other("n_threads != 1 is only supported on Linux"))
    );
    assert_eq!(thread_name(0), "fuser-0");
    assert_eq!(thread_name(107), "fuser-107");
}

#[test]
fn a_running_session_serves_what_it_held() {
    let mut many = session();
    many.config.n_threads = Some(2);
    let run = many.run(Os::Linux).unwrap();
    assert_eq!(run.plan, RunPlan { n_threads: 2, clone_fd: false });
    assert_eq!(run.filesystem.fs, Some("fs"));
    assert_eq!((run.ch, run.mount.mount, run.session_owner), (7, Some(70), 501));

    let mut none = session();
    none.config.n_threads = Some(0);
    assert_eq!(none.run(Os::Linux).unwrap_err(), Error::other("n_threads"));
}

#[test]
fn the_first_error_of_the_threads_is_returned() {
    let mut reply = RunReply::new();
    assert_eq!(reply.joined(ThreadExit::Returned(Ok(()))), None);
    assert_eq!(reply.joined(ThreadExit::Returned(Err(Error::Os(5)))), None);
    assert_eq!(reply.joined(ThreadExit::Returned(Err(Error::Os(6)))), None);
    assert_eq!(reply.joined(ThreadExit::Returned(Ok(()))), None);
    assert_eq!(
        reply.joined(ThreadExit::Panicked),
        Some(Error::other("event loop thread panicked"))
    );
    assert!(matches!(
        reply.finish(true),
        RunEnd::DestroyAndReturn(Err(Error::Os(5)))
    ));
    match RunReply::new().finish(false) {
        RunEnd::Fail(error) => {
            assert_eq!(error, Error::other("BUG: must have one refcount for filesystem"));
        }
        _ => panic!(),
    }
}

#[test]
fn an_event_loop_ends_with_the_device_or_on_request() {
    assert!(matches!(
        event_loop(LoopEvent::ReceiveFailed(Errno::ENODEV), Os::Linux),
        LoopAction::Return(Ok(()))
    ));
    assert!(matches!(
        event_loop(LoopEvent::ReceiveFailed(Errno::EIO), Os::Linux),
        LoopAction::Return(Err(Error::Os(5)))
    ));
    match event_loop(LoopEvent::Invalid, Os::Linux) {
        LoopAction::Return(Err(error)) => {
            assert_eq!(error, Error::new(ErrorKind::InvalidData, "Invalid request"));
        }
        _ => panic!(),
    }
    assert!(matches!(event_loop(LoopEvent::Destroy, Os::Linux), LoopAction::ReplyAndReturn));
    assert!(matches!(event_loop(LoopEvent::Request, Os::Linux), LoopAction::Dispatch));
}
