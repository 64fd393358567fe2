use std::cell::RefCell;

use fuser::darwin::close::{CloseAction, Closer};
use fuser::darwin::owner::{
    ensure_last_os_error, MountedChannelOwner, MountedChannelOwnerState, SessionMade,
};
use fuser::darwin::{
    drain_timeout_error, io_error_to_errno, receive_status, received, send_status, ActiveCalls,
    CallKind, Lifecycle, ShutdownTiming,
};
use fuser::errno::Errno;
use fuser::error::{Error, ErrorKind};
use fuser::time::{Duration, Instant};

const SESSION: usize = 11;
const CHANNEL: usize = 29;

#[derive(Clone, Copy, Debug, Eq, PartialEq)]
enum UnmountMode {
    Synchronous,
    Asynchronous,
    WorkerCreationFailure,
}

#[derive(Clone, Copy, Debug, Eq, PartialEq)]
enum Event {
    ReceiveEntered,
    Send,
    SessionExit,
    Interrupt,
    SessionRemoveChannel,
    SessionDestroy,
    DarwinUnmount,
    ChannelRetain,
    ChannelRelease,
    ChannelDestroy,
}

/// A provider that records what is asked of it, and the channel over it. Time passes only in
/// waits.
struct Fake {
    events: RefCell<Vec<Event>>,
    sent: RefCell<Vec<Vec<Vec<u8>>>>,
    mode: UnmountMode,
    references: RefCell<usize>,
    attached: RefCell<bool>,
    lifecycle: RefCell<Lifecycle<usize, usize>>,
    timing: ShutdownTiming,
    now: RefCell<Instant>,
    interrupts: RefCell<usize>,
}

impl Fake {
    fn new(mode: UnmountMode, timing: ShutdownTiming) -> Fake {
        Fake {
            events: RefCell::new(Vec::new()),
            sent: RefCell::new(Vec::new()),
            mode,
            references: RefCell::new(1),
            attached: RefCell::new(true),
            lifecycle: RefCell::new(Lifecycle::new(SESSION, CHANNEL)),
            timing,
            now: RefCell::new(Instant { nanos: 1_000 }),
            interrupts: RefCell::new(0),
        }
    }

    fn record(&self, event: Event) {
        self.events.borrow_mut().push(event);
    }

    fn events(&self) -> Vec<Event> {
        self.events.borrow().clone()
    }

    fn references(&self) -> usize {
        *self.references.borrow()
    }

    fn deadline(&self, millis: u64) -> Instant {
        Instant { nanos: self.now.borrow().nanos + Duration::from_millis(millis).nanos }
    }

    fn enter_receive(&self) -> Result<(), Errno> {
        let channel = self.lifecycle.borrow_mut().begin_receive()?;
        assert_eq!(channel, CHANNEL);
        self.record(Event::ReceiveEntered);
        Ok(())
    }

    fn leave_receive(&self, result: Result<usize, Errno>) -> Result<usize, Errno> {
        self.lifecycle.borrow_mut().finish_call(CallKind::Receive);
        received(result)
    }

    fn enter_send(&self) -> Result<(), Error> {
        let channel = self.lifecycle.borrow_mut().begin_call(CallKind::Send)?;
        assert_eq!(channel, CHANNEL);
        self.record(Event::Send);
        Ok(())
    }

    fn leave_send(&self, buffers: &[&[u8]]) {
        self.sent.borrow_mut().push(buffers.iter().map(|buffer| buffer.to_vec()).collect());
        self.lifecycle.borrow_mut().finish_call(CallKind::Send);
    }

    fn perform(&self, action: CloseAction<usize, usize>) {
        match action {
            CloseAction::ExitSession(session) => {
                assert_eq!(session, SESSION);
                self.record(Event::SessionExit);
            }
            CloseAction::Interrupt(channel) => {
                assert_eq!(channel, CHANNEL);
                self.record(Event::Interrupt);
                *self.interrupts.borrow_mut() += 1;
            }
            CloseAction::Wait(duration) => {
                let nanos = self.now.borrow().nanos + duration.nanos;
                *self.now.borrow_mut() = Instant { nanos };
            }
            CloseAction::RemoveChannel(channel) => {
                assert_eq!(channel, CHANNEL);
                assert!(self.attached.replace(false));
                self.record(Event::SessionRemoveChannel);
            }
            CloseAction::DestroySession(session) => {
                assert_eq!(session, SESSION);
                assert!(!*self.attached.borrow());
                self.record(Event::SessionDestroy);
            }
            CloseAction::Unmount(channel) => {
                assert_eq!(channel, CHANNEL);
                assert!(!*self.attached.borrow());
                self.record(Event::DarwinUnmount);
                match self.mode {
                    UnmountMode::Synchronous => {}
                    UnmountMode::Asynchronous => {
                        *self.references.borrow_mut() += 1;
                        self.record(Event::ChannelRetain);
                    }
                    UnmountMode::WorkerCreationFailure => {
                        *self.references.borrow_mut() += 1;
                        self.record(Event::ChannelRetain);
                        *self.references.borrow_mut() -= 1;
                        self.record(Event::ChannelRelease);
                    }
                }
            }
            CloseAction::DestroyChannel(channel) => {
                assert_eq!(channel, CHANNEL);
                assert_ne!(self.references(), 0);
                *self.references.borrow_mut() -= 1;
                self.record(Event::ChannelDestroy);
            }
            CloseAction::Recheck | CloseAction::Finished | CloseAction::TimedOut => {}
        }
    }

    /// Closes the channel; `meanwhile` happens before every step.
    fn close_with(&self, deadline: Instant, meanwhile: impl Fn(&Fake)) -> Result<(), Error> {
        let mut closer = Closer::new();
        loop {
            meanwhile(self);
            let now = *self.now.borrow();
            let action =
                closer.step(&mut self.lifecycle.borrow_mut(), now, deadline, self.timing);
            self.perform(action);
            match action {
                CloseAction::Finished => return Ok(()),
                CloseAction::TimedOut => return Err(drain_timeout_error()),
                _ => {}
            }
        }
    }

    fn close(&self, deadline: Instant) -> Result<(), Error> {
        self.close_with(deadline, |_| {})
    }
}

fn lifecycle_events(events: &[Event]) -> Vec<Event> {
    events
        .iter()
        .copied()
        .filter(|event| {
            matches!(
                event,
                Event::SessionExit
                    | Event::SessionRemoveChannel
                    | Event::SessionDestroy
                    | Event::DarwinUnmount
                    | Event::ChannelDestroy
            )
        })
        .collect()
}

fn millis(millis: u64) -> ShutdownTiming {
    ShutdownTiming { wake_interval: Duration::from_millis(millis) }
}

fn assert_teardown(mode: UnmountMode) {
    let fake = Fake::new(mode, ShutdownTiming::default());

    fake.close(fake.deadline(1_000)).unwrap();
    fake.close(fake.deadline(1_000)).unwrap();
    if mode == UnmountMode::Asynchronous {
        assert_eq!(fake.references(), 1);
        *fake.references.borrow_mut() -= 1;
        fake.record(Event::ChannelRelease);
    }

    let expected = match mode {
        UnmountMode::Synchronous => vec![
            Event::SessionExit,
            Event::SessionRemoveChannel,
            Event::SessionDestroy,
            Event::DarwinUnmount,
            Event::ChannelDestroy,
        ],
        UnmountMode::Asynchronous => vec![
            Event::SessionExit,
            Event::SessionRemoveChannel,
            Event::SessionDestroy,
            Event::DarwinUnmount,
            Event::ChannelRetain,
            Event::ChannelDestroy,
            Event::ChannelRelease,
        ],
        UnmountMode::WorkerCreationFailure => vec![
            Event::SessionExit,
            Event::SessionRemoveChannel,
            Event::SessionDestroy,
            Event::DarwinUnmount,
            Event::ChannelRetain,
            Event::ChannelRelease,
            Event::ChannelDestroy,
        ],
    };
    assert_eq!(fake.events(), expected);
    assert_eq!(fake.references(), 0);
}

#[test]
fn production_shutdown_timing_is_bounded() {
    assert_eq!(
        ShutdownTiming::default(),
        ShutdownTiming {
            wake_interval: Duration::from_millis(25),
        }
    );
}

#[test]
fn vectored_reply_reaches_provider_as_one_message_with_original_segments() {
    let fake = Fake::new(UnmountMode::Synchronous, ShutdownTiming::default());

    // The admitted call hands the provider its buffers as they are, and the provider takes them.
    fake.enter_send().unwrap();
    fake.leave_send(&[b"header", b"payload"]);
    assert_eq!(send_status(0), Ok(()));

    assert_eq!(*fake.sent.borrow(), [vec![b"header".to_vec(), b"payload".to_vec()]]);
    assert_eq!(fake.events(), [Event::Send]);

    // The call has ended: nothing is left to wait for.
    let before = *fake.now.borrow();
    fake.close(fake.deadline(1_000)).unwrap();
    assert_eq!(*fake.now.borrow(), before);
}

#[test]
fn synchronous_teardown_releases_the_owner_reference_once() {
    assert_teardown(UnmountMode::Synchronous);
}

#[test]
fn asynchronous_teardown_preserves_and_releases_the_worker_reference() {
    assert_teardown(UnmountMode::Asynchronous);
}

#[test]
fn worker_creation_failure_releases_the_temporary_reference() {
    assert_teardown(UnmountMode::WorkerCreationFailure);
}

#[test]
fn repeated_interrupt_closes_pre_block_lost_wakeup() {
    let fake = Fake::new(UnmountMode::Synchronous, millis(5));
    fake.enter_receive().unwrap();

    let receiving = RefCell::new(true);
    fake.close_with(fake.deadline(1_000), |fake| {
        // The first wake is lost: the receive returns once a second one comes.
        if *receiving.borrow() && *fake.interrupts.borrow() >= 2 {
            receiving.replace(false);
            assert_eq!(fake.leave_receive(Ok(0)), Err(Errno::ENODEV));
        }
    })
    .unwrap();
    assert!(!*receiving.borrow());

    assert!(fake.events().iter().filter(|event| **event == Event::Interrupt).count() >= 2);
    assert_eq!(fake.references(), 0);
}

#[test]
fn close_waits_for_an_admitted_send_before_releasing_provider_state() {
    let fake = Fake::new(UnmountMode::Synchronous, ShutdownTiming::default());
    fake.enter_send().unwrap();

    let steps = RefCell::new(0);
    fake.close_with(fake.deadline(1_000), |fake| {
        *steps.borrow_mut() += 1;
        if *steps.borrow() == 6 {
            assert_eq!(lifecycle_events(&fake.events()), [Event::SessionExit]);
            fake.leave_send(&[b"reply"]);
        }
    })
    .unwrap();
    assert_eq!(
        lifecycle_events(&fake.events()),
        [
            Event::SessionExit,
            Event::SessionRemoveChannel,
            Event::SessionDestroy,
            Event::DarwinUnmount,
            Event::ChannelDestroy,
        ]
    );
    assert!(!fake.events().contains(&Event::Interrupt));
}

#[test]
fn drain_timeout_retains_pointers_for_successful_retry() {
    let fake = Fake::new(UnmountMode::Synchronous, millis(5));
    fake.enter_receive().unwrap();

    let error = fake.close(fake.deadline(30)).unwrap_err();
    assert_eq!(error.kind(), Some(ErrorKind::TimedOut));
    assert_eq!(fake.references(), 1);
    assert_eq!(
        lifecycle_events(&fake.events()),
        [Event::SessionExit],
        "timeout must not detach, destroy, or unmount"
    );
    let events_before_late_calls = fake.events();
    assert_eq!(fake.enter_send().unwrap_err().kind(), Some(ErrorKind::NotConnected));
    assert_eq!(fake.enter_receive(), Err(Errno::ENODEV));
    assert_eq!(fake.events(), events_before_late_calls);

    assert_eq!(fake.leave_receive(Ok(0)), Err(Errno::ENODEV));
    fake.close(fake.deadline(1_000)).unwrap();
    assert_eq!(fake.references(), 0);
    assert_eq!(
        lifecycle_events(&fake.events()),
        [
            Event::SessionExit,
            Event::SessionRemoveChannel,
            Event::SessionDestroy,
            Event::DarwinUnmount,
            Event::ChannelDestroy,
        ]
    );
    assert_eq!(
        fake.events().iter().filter(|event| **event == Event::SessionExit).count(),
        1
    );
}

#[test]
fn idle_sender_rejects_late_use_without_touching_provider() {
    let fake = Fake::new(UnmountMode::Synchronous, ShutdownTiming::default());

    fake.close(fake.deadline(1_000)).unwrap();
    assert_eq!(fake.enter_send().unwrap_err().kind(), Some(ErrorKind::NotConnected));
    assert!(!fake.events().contains(&Event::Send));
}

#[test]
fn waits_are_no_longer_than_the_interval_or_the_time_left() {
    let mut lifecycle = Lifecycle::new(SESSION, CHANNEL);
    lifecycle.begin_call(CallKind::Send).unwrap();
    let mut closer = Closer::new();
    let at = |nanos: u128| Instant { nanos };
    let deadline = at(7_000_000);
    assert_eq!(
        closer.step(&mut lifecycle, at(0), deadline, millis(5)),
        CloseAction::ExitSession(SESSION)
    );
    assert_eq!(
        closer.step(&mut lifecycle, at(0), deadline, millis(5)),
        CloseAction::Recheck
    );
    assert_eq!(
        closer.step(&mut lifecycle, at(0), deadline, millis(5)),
        CloseAction::Wait(Duration::from_millis(5))
    );
    assert_eq!(
        closer.step(&mut lifecycle, at(5_000_000), deadline, millis(5)),
        CloseAction::Recheck
    );
    assert_eq!(
        closer.step(&mut lifecycle, at(5_000_000), deadline, millis(5)),
        CloseAction::Wait(Duration::from_millis(2))
    );
    assert_eq!(
        closer.step(&mut lifecycle, at(7_000_000), deadline, millis(5)),
        CloseAction::TimedOut
    );
}

#[test]
fn call_counts_do_not_overflow() {
    let mut calls = ActiveCalls { receives: usize::MAX, sends: 0 };
    assert_eq!(
        calls.begin(CallKind::Receive),
        Err(Error::other("macFUSE active call count overflowed"))
    );
    assert_eq!(calls, ActiveCalls { receives: usize::MAX, sends: 0 });
    assert_eq!(calls.begin(CallKind::Send), Ok(()));
    calls.finish(CallKind::Receive);
    assert_eq!(calls, ActiveCalls { receives: usize::MAX - 1, sends: 1 });
    assert!(!calls.is_empty());
    assert!(ActiveCalls::default().is_empty());

    let mut lifecycle = Lifecycle::Open {
        session: SESSION,
        channel: CHANNEL,
        active: ActiveCalls { receives: usize::MAX, sends: 0 },
    };
    assert_eq!(lifecycle.begin_receive(), Err(Errno::ENODEV));
}

#[test]
fn a_closing_channel_refuses_calls() {
    let mut lifecycle = Lifecycle::new(SESSION, CHANNEL);
    assert_eq!(lifecycle.begin_close(), Some((SESSION, CHANNEL, true)));
    assert_eq!(lifecycle.begin_close(), Some((SESSION, CHANNEL, false)));
    assert_eq!(
        lifecycle.begin_call(CallKind::Send),
        Err(Error::new(ErrorKind::NotConnected, "macFUSE channel is closing"))
    );
    assert_eq!(lifecycle.drained_handles(), (SESSION, CHANNEL));
    lifecycle.mark_closed();
    assert_eq!(lifecycle.begin_close(), None);
    assert!(lifecycle.active_mut().is_none());
}

#[test]
fn receive_statuses() {
    assert_eq!(receive_status(-4, true, 64), Err(Errno::EINTR));
    assert_eq!(receive_status(-19, true, 64), Err(Errno::ENODEV));
    assert_eq!(receive_status(-22, true, 64), Err(Errno::Other(22)));
    assert_eq!(receive_status(-35, true, 64), Err(Errno::EAGAIN));
    assert_eq!(receive_status(-75, true, 64), Err(Errno::Other(75)));
    assert_eq!(receive_status(-1_000_000, true, 64), Err(Errno::Other(0)));
    assert_eq!(receive_status(i32::MIN, true, 64), Err(Errno::EIO));
    assert_eq!(receive_status(64, true, 64), Ok(64));
    assert_eq!(receive_status(65, true, 64), Err(Errno::EIO));
    assert_eq!(receive_status(8, false, 64), Err(Errno::EIO));
    assert_eq!(received(Ok(0)), Err(Errno::ENODEV));
    assert_eq!(received(Ok(1)), Ok(1));
    assert_eq!(received(Err(Errno::EIO)), Err(Errno::EIO));
}

#[test]
fn send_statuses() {
    assert_eq!(send_status(0), Ok(()));
    assert_eq!(send_status(-32), Err(Error::Os(32)));
    assert_eq!(
        send_status(i32::MIN),
        Err(Error::other("fuse_chan_send returned an invalid status"))
    );
    assert_eq!(
        send_status(120),
        Err(Error::other("fuse_chan_send returned unexpected status 120"))
    );
}

#[test]
fn errors_without_a_code_say_that_the_device_is_gone() {
    assert_eq!(io_error_to_errno(Error::Os(1)), Errno::EPERM);
    assert_eq!(io_error_to_errno(Error::Os(5)), Errno::EIO);
    assert_eq!(io_error_to_errno(Error::Os(22)), Errno::Other(22));
    assert_eq!(io_error_to_errno(Error::other("x")), Errno::ENODEV);
    assert_eq!(
        drain_timeout_error(),
        Error::new(
            ErrorKind::TimedOut,
            "macFUSE channel calls did not drain before the deadline; provider state was retained"
        )
    );
}

#[test]
fn an_owner_takes_over_and_releases_in_order() {
    type Owner = MountedChannelOwner<usize, usize, &'static str>;
    let mut owner = Owner::new();
    assert_eq!(owner.begin_mount(), Ok(()));
    assert!(owner.close_calls().is_empty());
    assert_eq!(
        owner.channel_made(None, Error::Os(0)),
        Err(Error::other("libfuse returned no error detail"))
    );
    assert_eq!(owner.channel_made(Some(CHANNEL), Error::Os(0)), Ok(CHANNEL));
    assert_eq!(
        owner.begin_mount(),
        Err(Error::new(ErrorKind::AlreadyExists, "macFUSE channel owner was already used"))
    );
    assert_eq!(
        owner.close_calls(),
        [CloseAction::Unmount(CHANNEL), CloseAction::DestroyChannel(CHANNEL)]
    );
    assert!(matches!(
        owner.session_made(None, Error::Os(12)),
        SessionMade::CloseAndFail(Error::Os(12))
    ));
    assert!(matches!(
        owner.session_made(Some(SESSION), Error::Os(0)),
        SessionMade::Attach { session: SESSION, channel: CHANNEL }
    ));
    assert_eq!(
        owner.close_calls(),
        [
            CloseAction::DestroySession(SESSION),
            CloseAction::Unmount(CHANNEL),
            CloseAction::DestroyChannel(CHANNEL),
        ]
    );
    owner.attached();
    assert_eq!(
        owner.close_calls(),
        [
            CloseAction::RemoveChannel(CHANNEL),
            CloseAction::DestroySession(SESSION),
            CloseAction::Unmount(CHANNEL),
            CloseAction::DestroyChannel(CHANNEL),
        ]
    );
    owner.install("shared");
    assert!(owner.close_calls().is_empty());
    assert_eq!(owner.closed(Err(drain_timeout_error())), Err(drain_timeout_error()));
    assert!(matches!(owner.state, MountedChannelOwnerState::Mounted("shared")));
    assert_eq!(owner.closed(Ok(())), Ok(()));
    assert!(matches!(owner.state, MountedChannelOwnerState::Released));
    assert_eq!(owner.closed(Ok(())), Ok(()));
}

#[test]
fn native_errors_always_say_something() {
    assert_eq!(
        ensure_last_os_error(Error::other("x")),
        Error::other("libfuse returned no error detail")
    );
    assert_eq!(ensure_last_os_error(Error::Os(13)), Error::Os(13));
}

#[test]
fn a_call_may_finish_before_any_step_of_a_close() {
    for last in 0..12 {
        let fake = Fake::new(UnmountMode::Synchronous, millis(5));
        fake.enter_receive().unwrap();
        let steps = RefCell::new(0);
        fake.close_with(fake.deadline(1_000), |fake| {
            if *steps.borrow() == last {
                assert_eq!(fake.leave_receive(Ok(8)), Ok(8));
            }
            *steps.borrow_mut() += 1;
        })
        .unwrap();
        assert_eq!(
            lifecycle_events(&fake.events()),
            [
                Event::SessionExit,
                Event::SessionRemoveChannel,
                Event::SessionDestroy,
                Event::DarwinUnmount,
                Event::ChannelDestroy,
            ]
        );
        assert_eq!(fake.references(), 0);
    }
}

#[derive(Clone, Copy, Debug, Eq, PartialEq)]
enum ParsedOperation {
    Init,
    GetAttr,
}

fn request_header(length: usize, opcode: u32, unique: u64) -> Vec<u8> {
    let mut bytes = Vec::with_capacity(length);
    bytes.extend_from_slice(&(length as u32).to_ne_bytes());
    bytes.extend_from_slice(&opcode.to_ne_bytes());
    bytes.extend_from_slice(&unique.to_ne_bytes());
    bytes.extend_from_slice(&1_u64.to_ne_bytes());
    bytes.extend_from_slice(&501_u32.to_ne_bytes());
    bytes.extend_from_slice(&20_u32.to_ne_bytes());
    bytes.extend_from_slice(&1234_u32.to_ne_bytes());
    bytes.extend_from_slice(&0_u32.to_ne_bytes());
    bytes
}

fn init_request() -> Vec<u8> {
    let mut bytes = request_header(104, 26, 1);
    bytes.extend_from_slice(&7_u32.to_ne_bytes());
    bytes.extend_from_slice(&31_u32.to_ne_bytes());
    bytes.extend_from_slice(&4096_u32.to_ne_bytes());
    bytes.extend_from_slice(&0_u32.to_ne_bytes());
    bytes.extend_from_slice(&0_u32.to_ne_bytes());
    for _ in 0..11 {
        bytes.extend_from_slice(&0_u32.to_ne_bytes());
    }
    assert_eq!(bytes.len(), 104);
    bytes
}

fn getattr_request() -> Vec<u8> {
    let mut bytes = request_header(56, 3, 2);
    bytes.extend_from_slice(&0_u32.to_ne_bytes());
    bytes.extend_from_slice(&0_u32.to_ne_bytes());
    bytes.extend_from_slice(&0_u64.to_ne_bytes());
    assert_eq!(bytes.len(), 56);
    bytes
}

fn parse_operation(message: &[u8]) -> ParsedOperation {
    let word = |at: usize| u32::from_ne_bytes(message[at..at + 4].try_into().unwrap());
    assert_eq!(word(0) as usize, message.len());
    match word(4) {
        26 => ParsedOperation::Init,
        3 => ParsedOperation::GetAttr,
        opcode => panic!("unexpected operation: {opcode}"),
    }
}

#[test]
fn distinct_init_and_getattr_messages_reach_parser_once_each() {
    let fake = Fake::new(UnmountMode::Synchronous, ShutdownTiming::default());
    let mut buffer = [0_u8; 128];
    let mut parsed = Vec::new();

    for message in [init_request(), getattr_request()] {
        fake.enter_receive().unwrap();
        buffer[..message.len()].copy_from_slice(&message);
        let status = receive_status(message.len() as i32, true, buffer.len());
        let size = fake.leave_receive(status).unwrap();
        parsed.push(parse_operation(&buffer[..size]));
    }

    assert_eq!(parsed, [ParsedOperation::Init, ParsedOperation::GetAttr]);
}

#[test]
fn a_running_receive_is_woken_before_every_wait() {
    let mut lifecycle = Lifecycle::new(SESSION, CHANNEL);
    lifecycle.begin_receive().unwrap();
    let mut closer = Closer::new();
    let mut now = Instant { nanos: 0 };
    let deadline = Instant { nanos: 100_000_000 };
    let mut last = CloseAction::Recheck;
    let mut waits = 0;
    loop {
        let action = closer.step(&mut lifecycle, now, deadline, millis(5));
        if let CloseAction::Wait(span) = action {
            assert_eq!(last, CloseAction::Interrupt(CHANNEL));
            now = Instant { nanos: now.nanos + span.nanos };
            waits += 1;
        }
        if action == CloseAction::TimedOut {
            break;
        }
        last = action;
    }
    assert_eq!(waits, 20);
}
