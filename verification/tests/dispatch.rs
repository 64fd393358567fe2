use std::cell::{Cell, RefCell};
use std::rc::Rc;

use fuser::background::BackgroundSession;
use fuser::dispatch::{
    run_after_activation, BackgroundSessionShutdown, DispatchActivation, DispatchCommand,
    DispatchExit, DispatchOutcome, DispatchOwner, DispatchTask, ShutdownAction,
};
use fuser::error::{Error, ErrorKind};
use fuser::session::UmountOnDrop;
use fuser::time::{Duration, Instant};

/// A dispatch thread that runs its task as soon as it has its command, unless it is held.
struct Worker {
    task: RefCell<Option<Box<dyn FnOnce() -> DispatchExit>>>,
    held: Cell<bool>,
    gone: Cell<bool>,
    exit: RefCell<Option<DispatchExit>>,
}

impl Worker {
    fn new(task: impl FnOnce() -> DispatchExit + 'static) -> Rc<Worker> {
        Rc::new(Worker {
            task: RefCell::new(Some(Box::new(task))),
            held: Cell::new(false),
            gone: Cell::new(false),
            exit: RefCell::new(None),
        })
    }

    fn command(&self, command: DispatchCommand) -> bool {
        if self.gone.get() {
            return false;
        }
        match command {
            DispatchCommand::Activate => {
                if !self.held.get() {
                    self.run();
                }
            }
            DispatchCommand::Stop => {
                self.exit.replace(Some(DispatchExit::Returned));
            }
        }
        true
    }

    fn run(&self) {
        let task = self.task.borrow_mut().take().unwrap();
        self.exit.replace(Some(task()));
    }

    fn is_finished(&self) -> bool {
        self.exit.borrow().is_some()
    }
}

type Owner = DispatchOwner<Rc<Worker>, Rc<Worker>>;

fn dispatch_owner(task: impl FnOnce() -> DispatchExit + 'static) -> (Owner, Rc<Worker>) {
    let worker = Worker::new(task);
    (DispatchOwner::new(worker.clone(), worker.clone()), worker)
}

fn activate(owner: &mut Owner) -> Result<(), Error> {
    owner.activate(|worker: &Rc<Worker>, command: DispatchCommand| worker.command(command))
}

fn shutdown_with(
    owner: &mut Owner,
    deadline: Instant,
    release_transport: impl FnOnce() -> Result<(), Error>,
) -> BackgroundSessionShutdown {
    let mut now = Instant { nanos: 0 };
    let mut action = owner.shutdown_with(release_transport);
    loop {
        match action {
            ShutdownAction::SendStop(worker) => {
                worker.command(DispatchCommand::Stop);
            }
            ShutdownAction::Poll => {}
            ShutdownAction::Park(duration) => {
                now = Instant { nanos: now.nanos + duration.nanos };
            }
            ShutdownAction::Join(worker) => {
                let exit = worker.exit.borrow_mut().take().unwrap();
                return owner.joined(exit);
            }
            ShutdownAction::Return(result) => return result,
        }
        let finished = owner.guard.as_ref().is_some_and(|worker| worker.is_finished());
        action = owner.polled(finished, now, deadline);
    }
}

const NOW: Instant = Instant { nanos: 0 };
const LATER: Instant = Instant { nanos: 1_000_000_000 };

#[test]
fn dispatch_does_not_run_before_explicit_activation() {
    let ran = Rc::new(Cell::new(false));
    let ran_in_dispatch = ran.clone();
    let (mut owner, _) = dispatch_owner(move || {
        ran_in_dispatch.set(true);
        DispatchExit::Returned
    });

    assert!(!ran.get());
    activate(&mut owner).unwrap();
    let result = shutdown_with(&mut owner, LATER, || Ok(()));

    assert!(ran.get());
    assert!(matches!(
        result,
        BackgroundSessionShutdown::Complete(DispatchOutcome::Succeeded)
    ));
}

#[test]
fn transport_error_retains_unstarted_dispatch_for_retry() {
    let (mut owner, _) = dispatch_owner(|| DispatchExit::Returned);

    let first = shutdown_with(&mut owner, NOW, || {
        Err(Error::new(ErrorKind::PermissionDenied, "synthetic Linux unmount failure"))
    });
    assert!(matches!(
        first,
        BackgroundSessionShutdown::TransportPending(error)
            if error.kind() == Some(ErrorKind::PermissionDenied)
    ));

    let second = shutdown_with(&mut owner, LATER, || Ok(()));
    assert!(matches!(
        second,
        BackgroundSessionShutdown::Complete(DispatchOutcome::Succeeded)
    ));
}

#[test]
fn released_transport_with_unfinished_dispatch_remains_retryable() {
    let (mut owner, worker) = dispatch_owner(|| DispatchExit::Returned);
    worker.held.set(true);
    activate(&mut owner).unwrap();

    let first = shutdown_with(&mut owner, NOW, || Ok(()));
    assert!(matches!(first, BackgroundSessionShutdown::DispatchPending));

    worker.run();
    let second = shutdown_with(&mut owner, LATER, || Ok(()));
    assert!(matches!(
        second,
        BackgroundSessionShutdown::Complete(DispatchOutcome::Succeeded)
    ));
}

#[test]
fn worker_unwind_is_reaped_after_transport_release() {
    let (mut owner, _) = dispatch_owner(|| DispatchExit::Panicked);
    activate(&mut owner).unwrap();

    let pending = shutdown_with(&mut owner, LATER, || {
        Err(Error::new(ErrorKind::WouldBlock, "synthetic retained transport"))
    });
    assert!(matches!(
        pending,
        BackgroundSessionShutdown::TransportPending(error)
            if error.kind() == Some(ErrorKind::WouldBlock)
    ));

    let result = shutdown_with(&mut owner, LATER, || Ok(()));

    assert!(matches!(
        result,
        BackgroundSessionShutdown::Complete(DispatchOutcome::Panicked)
    ));
}

#[test]
fn dispatch_io_error_is_preserved_as_terminal_outcome() {
    let (mut owner, _) = dispatch_owner(|| {
        DispatchExit::Failed(ErrorKind::InvalidData, "synthetic dispatch failure".to_owned())
    });
    activate(&mut owner).unwrap();

    let result = shutdown_with(&mut owner, LATER, || Ok(()));

    assert!(matches!(
        result,
        BackgroundSessionShutdown::Complete(DispatchOutcome::Failed {
            kind: ErrorKind::InvalidData,
            ref message,
        }) if message == "synthetic dispatch failure"
    ));
}

#[test]
fn dispatch_is_activated_once() {
    let (mut owner, _) = dispatch_owner(|| DispatchExit::Returned);
    assert_eq!(activate(&mut owner), Ok(()));
    assert_eq!(
        activate(&mut owner),
        Err(Error::new(ErrorKind::AlreadyExists, "filesystem dispatch is already active"))
    );
}

#[test]
fn stopped_dispatch_cannot_be_activated() {
    let (mut owner, _) = dispatch_owner(|| unreachable!());
    let _ = shutdown_with(&mut owner, NOW, || Ok(()));
    assert_eq!(
        activate(&mut owner),
        Err(Error::new(ErrorKind::NotConnected, "filesystem dispatch was stopped"))
    );
}

#[test]
fn a_thread_that_is_gone_is_not_activated() {
    let (mut owner, worker) = dispatch_owner(|| unreachable!());
    worker.gone.set(true);
    assert_eq!(
        activate(&mut owner),
        Err(Error::new(
            ErrorKind::NotConnected,
            "filesystem dispatch thread exited before activation"
        ))
    );
    assert!(matches!(owner.activation, DispatchActivation::Stopped));
}

#[test]
fn a_completed_shutdown_stays_completed() {
    let (mut owner, _) =
        dispatch_owner(|| DispatchExit::Failed(ErrorKind::Other, "once".to_owned()));
    activate(&mut owner).unwrap();
    for attempt in 0..3 {
        let result = shutdown_with(&mut owner, NOW, || {
            assert_eq!(attempt, 0);
            Ok(())
        });
        assert!(matches!(
            result,
            BackgroundSessionShutdown::Complete(DispatchOutcome::Failed { ref message, .. })
                if message == "once"
        ));
        assert!(owner.guard.is_none());
    }
}

#[test]
fn a_missing_guard_completes_the_shutdown() {
    let (mut owner, _) = dispatch_owner(|| DispatchExit::Returned);
    owner.guard = None;
    let result = shutdown_with(&mut owner, NOW, || Ok(()));
    assert!(matches!(
        result,
        BackgroundSessionShutdown::Complete(DispatchOutcome::Failed {
            kind: ErrorKind::Other,
            ref message,
        }) if message == "filesystem dispatch guard was missing"
    ));
}

#[test]
fn looks_at_the_thread_are_a_millisecond_apart_at_most() {
    let (mut owner, worker) = dispatch_owner(|| DispatchExit::Returned);
    worker.held.set(true);
    activate(&mut owner).unwrap();
    let deadline = Instant { nanos: 1_500_000 };
    assert!(matches!(owner.shutdown_with(|| Ok(())), ShutdownAction::Poll));
    assert!(matches!(
        owner.polled(false, NOW, deadline),
        ShutdownAction::Park(Duration { nanos: 1_000_000 })
    ));
    assert!(matches!(
        owner.polled(false, Instant { nanos: 1_000_000 }, deadline),
        ShutdownAction::Park(Duration { nanos: 500_000 })
    ));
    assert!(matches!(
        owner.polled(false, deadline, deadline),
        ShutdownAction::Return(BackgroundSessionShutdown::DispatchPending)
    ));
    assert!(owner.guard.is_some());
}

#[test]
fn a_dispatch_thread_runs_on_command_alone() {
    assert!(matches!(
        run_after_activation(Some(DispatchCommand::Activate), Some(5)),
        DispatchTask::Run(5)
    ));
    assert!(matches!(
        run_after_activation(Some(DispatchCommand::Stop), Some(5)),
        DispatchTask::Return(Ok(()))
    ));
    assert!(matches!(
        run_after_activation(None, Some(5)),
        DispatchTask::Return(Ok(()))
    ));
    for command in [Some(DispatchCommand::Activate), Some(DispatchCommand::Stop), None] {
        match run_after_activation::<u8>(command, None) {
            DispatchTask::Return(Err(error)) => {
                assert_eq!(error, Error::other("dispatch session owner was missing"));
            }
            _ => panic!(),
        }
    }
}

#[test]
fn a_background_session_releases_its_transport_first() {
    let worker = Worker::new(|| DispatchExit::Returned);
    let mut background = BackgroundSession {
        sender: "sender",
        mount: UmountOnDrop { mount: Some(1) },
        dispatch: DispatchOwner::new(worker.clone(), worker.clone()),
    };
    assert_eq!(*background.notifier(), "sender");
    background
        .activate(|worker: &Rc<Worker>, command: DispatchCommand| worker.command(command))
        .unwrap();

    let action = background.shutdown(
        |mount: &mut i32| {
            *mount += 1;
            Err(Error::Os(16))
        },
        |_: &&str| unreachable!(),
    );
    assert!(matches!(
        action,
        ShutdownAction::Return(BackgroundSessionShutdown::TransportPending(Error::Os(16)))
    ));
    assert_eq!(background.mount.mount, Some(2));
    assert!(background.dispatch.guard.is_some());

    let interrupted = Cell::new(0);
    let action = background.shutdown(
        |mount: &mut i32| {
            assert_eq!(*mount, 2);
            Ok(())
        },
        |sender: &&str| {
            assert_eq!(*sender, "sender");
            interrupted.set(interrupted.get() + 1);
        },
    );
    assert!(matches!(action, ShutdownAction::Poll));
    assert_eq!(background.mount.mount, None);
    assert_eq!(interrupted.get(), 1);

    match background.polled(true, NOW, NOW) {
        ShutdownAction::Join(joined) => {
            let exit = joined.exit.borrow_mut().take().unwrap();
            assert!(matches!(
                background.joined(exit),
                BackgroundSessionShutdown::Complete(DispatchOutcome::Succeeded)
            ));
        }
        _ => panic!(),
    }
    let action = background.shutdown(|_: &mut i32| unreachable!(), |_: &&str| unreachable!());
    assert!(matches!(
        action,
        ShutdownAction::Return(BackgroundSessionShutdown::Complete(DispatchOutcome::Succeeded))
    ));
}
