use fuser::acl::SessionACL;
use fuser::background::BackgroundSession;
use fuser::error::{Error, ErrorKind};
use fuser::mount_options::{Config, MountOption};
use fuser::owner::{SessionOwner, SessionOwnerShutdown};
use fuser::session::Session;
use fuser::target::{MountBackend, Os, Target};

const LINUX: Target = Target { os: Os::Linux, backend: MountBackend::PureRust };

/// A mount, and what was done to it.
#[derive(Debug, PartialEq)]
struct Native(Vec<&'static str>);

type TestSession = Session<&'static str, u8, Native>;
type TestOwner = SessionOwner<&'static str, u8, Native>;
type Background = BackgroundSession<&'static str, Native, &'static str, &'static str>;

fn owner() -> TestOwner {
    SessionOwner::new("fs", &Config::default(), LINUX, 501, || Ok(Native(vec!["prepared"])))
        .unwrap()
}

fn mount(native: &mut Native, options: &Vec<MountOption>, acl: SessionACL) -> Result<u8, Error> {
    assert!(options.is_empty());
    assert_eq!(acl, SessionACL::Owner);
    native.0.push("mounted");
    Ok(7)
}

fn handshake(session: &mut TestSession) -> Result<(), Error> {
    assert_eq!(session.filesystem.fs, Some("fs"));
    assert_eq!(session.ch, 7);
    assert_eq!(session.session_owner, 501);
    assert!(session.mount.mount.is_some());
    Ok(())
}

fn sender(ch: &u8) -> &'static str {
    assert_eq!(*ch, 7);
    "sender"
}

fn start(session: TestSession) -> Result<(&'static str, &'static str), (Error, TestSession)> {
    assert!(session.mount.mount.is_none());
    Ok(("guard", "activation"))
}

fn construct(owner: &mut TestOwner) -> Result<Background, Error> {
    owner.construct(mount, handshake, sender, start)
}

/// Shuts the owner down, with a release that fails once.
fn assert_retryable(owner: &mut TestOwner, history: &[&'static str]) {
    let pending = owner.shutdown(|native: &mut Native| {
        assert_eq!(native.0, history);
        native.0.push("failed");
        Err(Error::Os(16))
    });
    assert!(matches!(pending, SessionOwnerShutdown::Pending(Error::Os(16))));
    let complete = owner.shutdown(|native: &mut Native| {
        assert_eq!(native.0.last(), Some(&"failed"));
        assert_eq!(native.0.len(), history.len() + 1);
        Ok(())
    });
    assert!(matches!(complete, SessionOwnerShutdown::Complete));
    let again = owner.shutdown(|_: &mut Native| unreachable!());
    assert!(matches!(again, SessionOwnerShutdown::Complete));
}

fn assert_attempted(owner: &mut TestOwner) {
    assert_eq!(
        construct(owner).unwrap_err(),
        Error::new(ErrorKind::AlreadyExists, "session construction was already attempted")
    );
}

#[test]
fn a_construction_hands_everything_over() {
    let mut owner = owner();
    let background = construct(&mut owner).unwrap();
    assert_eq!(background.sender, "sender");
    assert_eq!(background.mount.mount, Some(Native(vec!["prepared", "mounted"])));
    assert_eq!(background.dispatch.guard, Some("guard"));
    assert!(background.dispatch.terminal.is_none());
    assert_attempted(&mut owner);
    let shutdown = owner.shutdown(|_: &mut Native| unreachable!());
    assert!(matches!(shutdown, SessionOwnerShutdown::Complete));
    assert_attempted(&mut owner);
}

#[test]
fn an_owner_that_did_not_construct_can_be_released() {
    assert_retryable(&mut owner(), &["prepared"]);
    let mut released = owner();
    let _ = released.shutdown(|_: &mut Native| Ok(()));
    assert_attempted(&mut released);
}

#[test]
fn a_failed_mount_keeps_the_mount_owner() {
    let mut owner = owner();
    let failed: Result<Background, Error> = owner.construct(
        |native: &mut Native, _: &Vec<MountOption>, _: SessionACL| {
            native.0.push("half mounted");
            Err(Error::Os(13))
        },
        |_: &mut TestSession| unreachable!(),
        |_: &u8| unreachable!(),
        |_: TestSession| unreachable!(),
    );
    assert_eq!(failed.unwrap_err(), Error::Os(13));
    assert_attempted(&mut owner);
    assert_retryable(&mut owner, &["prepared", "half mounted"]);
}

#[test]
fn a_failed_handshake_keeps_the_mount() {
    let mut owner = owner();
    let failed: Result<Background, Error> = owner.construct(
        mount,
        |_: &mut TestSession| Err(Error::other("no handshake")),
        |_: &u8| unreachable!(),
        |_: TestSession| unreachable!(),
    );
    assert_eq!(failed.unwrap_err(), Error::other("no handshake"));
    assert_attempted(&mut owner);
    assert_retryable(&mut owner, &["prepared", "mounted"]);
}

#[test]
fn a_thread_that_does_not_start_leaves_the_mount_and_the_session() {
    let mut owner = owner();
    let failed: Result<Background, Error> = owner.construct(
        mount,
        handshake,
        sender,
        |session: TestSession| Err((Error::Os(11), session)),
    );
    assert_eq!(failed.unwrap_err(), Error::Os(11));
    assert_attempted(&mut owner);
    assert_retryable(&mut owner, &["prepared", "mounted"]);
}

#[test]
fn an_owner_is_made_of_valid_options_alone() {
    let mut config = Config::default();
    config.mount_options = vec![MountOption::RO, MountOption::RW];
    let refused: Result<TestOwner, Error> =
        SessionOwner::new("fs", &config, LINUX, 501, || unreachable!());
    assert_eq!(refused.unwrap_err().kind(), Some(ErrorKind::InvalidInput));
    let failed: Result<TestOwner, Error> =
        SessionOwner::new("fs", &Config::default(), LINUX, 501, || Err(Error::Os(2)));
    assert_eq!(failed.unwrap_err(), Error::Os(2));
}
