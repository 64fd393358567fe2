//! The background dispatch of a session, and its release.
//!
//! A dispatch thread waits for a command before it serves anything. Its owner can activate it,
//! and can shut it down in attempts: an attempt that does not complete leaves the owner with
//! everything that it needs for the next one.

pub mod laws;

use vstd::prelude::*;
use vstd::string::*;

use crate::error::{custom, outcome, Error, ErrorKind, ErrorView};
use crate::time::{Duration, Instant};

verus! {

/// A command to a dispatch thread.
#[derive(Clone, Copy, Debug, PartialEq, Eq, Structural)]
pub enum DispatchCommand {
    /// Run the session loop.
    Activate,
    /// End without having served anything.
    Stop,
}

/// What a dispatch thread does once it has its command.
#[derive(Debug)]
pub enum DispatchTask<S> {
    /// Run the loop of this session.
    Run(S),
    /// Return this.
    Return(Result<(), Error>),
}

/// What a dispatch thread does after its command.
pub open spec fn is_task<S>(
    command: Option<DispatchCommand>,
    session: Option<S>,
    task: DispatchTask<S>,
) -> bool {
    match session {
        None => task matches DispatchTask::Return(result) && outcome(result) == Err::<
            (),
            ErrorView,
        >(custom(ErrorKind::Other, "dispatch session owner was missing"@)),
        Some(session) => if command == Some(DispatchCommand::Activate) {
            task == DispatchTask::Run(session)
        } else {
            task == DispatchTask::<S>::Return(Ok(()))
        },
    }
}

/// What a dispatch thread does after the command that it received, with the session that it
/// found. A thread that can receive no command any more was stopped.
pub fn run_after_activation<S>(command: Option<DispatchCommand>, session: Option<S>) -> (r:
    DispatchTask<S>)
    ensures
        is_task(command, session, r),
{
    let command: DispatchCommand = match command {
        Some(command) => command,
        None => DispatchCommand::Stop,
    };
    match (command, session) {
        (DispatchCommand::Activate, Some(session)) => DispatchTask::Run(session),
        (DispatchCommand::Stop, Some(_)) => DispatchTask::Return(Ok(())),
        (_, None) => DispatchTask::Return(Err(Error::other("dispatch session owner was missing"))),
    }
}

/// Where a dispatch thread stands. `A` sends it its command.
#[derive(Debug)]
pub enum DispatchActivation<A> {
    /// No command was sent.
    Waiting(A),
    /// It was told to run.
    Active,
    /// It was told to end, or has ended without a command.
    Stopped,
}

impl<A> DispatchActivation<A> {
    /// Where the thread stands once its owner shuts it down.
    pub open spec fn stopped(self) -> DispatchActivation<A> {
        if self is Waiting {
            DispatchActivation::Stopped
        } else {
            self
        }
    }
}

/// Final result of the background dispatch thread.
#[derive(Debug, PartialEq, Eq)]
pub enum DispatchOutcome {
    /// The dispatch loop exited successfully.
    Succeeded,
    /// The dispatch loop returned an I/O error.
    Failed {
        /// Stable I/O error category.
        kind: ErrorKind,
        /// Error detail returned by the dispatch loop.
        message: String,
    },
    /// The dispatch thread unwound.
    Panicked,
}

/// What a [`DispatchOutcome`] says.
pub enum OutcomeView {
    Succeeded,
    Failed { kind: ErrorKind, message: Seq<char> },
    Panicked,
}

impl View for DispatchOutcome {
    type V = OutcomeView;

    open spec fn view(&self) -> OutcomeView {
        match self {
            DispatchOutcome::Succeeded => OutcomeView::Succeeded,
            DispatchOutcome::Failed { kind, message } => OutcomeView::Failed {
                kind: *kind,
                message: message@,
            },
            DispatchOutcome::Panicked => OutcomeView::Panicked,
        }
    }
}

impl Clone for DispatchOutcome {
    fn clone(&self) -> (r: DispatchOutcome)
        ensures
            r@ == self@,
    {
        match self {
            DispatchOutcome::Succeeded => DispatchOutcome::Succeeded,
            DispatchOutcome::Failed { kind, message } => DispatchOutcome::Failed {
                kind: *kind,
                message: message.clone(),
            },
            DispatchOutcome::Panicked => DispatchOutcome::Panicked,
        }
    }
}

/// Exhaustive result of one recoverable background-session shutdown attempt.
#[derive(Debug)]
#[must_use]
pub enum BackgroundSessionShutdown {
    /// The transport was retained after close or unmount did not complete.
    TransportPending(Error),
    /// The transport was released but the dispatch guard is not finished yet.
    DispatchPending,
    /// The transport was released and the dispatch guard was reaped.
    Complete(DispatchOutcome),
}

/// What a [`BackgroundSessionShutdown`] says.
pub enum ShutdownView {
    TransportPending(ErrorView),
    DispatchPending,
    Complete(OutcomeView),
}

impl View for BackgroundSessionShutdown {
    type V = ShutdownView;

    open spec fn view(&self) -> ShutdownView {
        match self {
            BackgroundSessionShutdown::TransportPending(error) => ShutdownView::TransportPending(
                error@,
            ),
            BackgroundSessionShutdown::DispatchPending => ShutdownView::DispatchPending,
            BackgroundSessionShutdown::Complete(outcome) => ShutdownView::Complete(outcome@),
        }
    }
}

/// How a dispatch thread ended.
#[derive(Debug)]
pub enum DispatchExit {
    /// It returned success.
    Returned,
    /// It returned an error of this category, with this text.
    Failed(ErrorKind, String),
    /// It unwound.
    Panicked,
}

/// The outcome of a dispatch thread that ended like this.
pub open spec fn outcome_of(exit: DispatchExit) -> OutcomeView {
    match exit {
        DispatchExit::Returned => OutcomeView::Succeeded,
        DispatchExit::Failed(kind, message) => OutcomeView::Failed { kind, message: message@ },
        DispatchExit::Panicked => OutcomeView::Panicked,
    }
}

/// What a shutdown attempt does next. `G` is the guard of the dispatch thread.
#[derive(Debug)]
pub enum ShutdownAction<G, A> {
    /// Send the thread its command to stop; see then whether it has finished.
    SendStop(A),
    /// See whether the thread has finished.
    Poll,
    /// Wait this long; see then whether the thread has finished.
    Park(Duration),
    /// Join the thread, which has finished.
    Join(G),
    /// Return this.
    Return(BackgroundSessionShutdown),
}

/// What a [`ShutdownAction`] says.
pub enum ActionView<G, A> {
    SendStop(A),
    Poll,
    Park(Duration),
    Join(G),
    Return(ShutdownView),
}

impl<G, A> View for ShutdownAction<G, A> {
    type V = ActionView<G, A>;

    open spec fn view(&self) -> ActionView<G, A> {
        match self {
            ShutdownAction::SendStop(activation) => ActionView::SendStop(*activation),
            ShutdownAction::Poll => ActionView::Poll,
            ShutdownAction::Park(duration) => ActionView::Park(*duration),
            ShutdownAction::Join(guard) => ActionView::Join(*guard),
            ShutdownAction::Return(result) => ActionView::Return(result@),
        }
    }
}

/// Owner of a background dispatch thread.
#[derive(Debug)]
pub struct DispatchOwner<G, A> {
    /// None once the thread was reaped.
    pub guard: Option<G>,
    pub activation: DispatchActivation<A>,
    /// Known once the thread was reaped.
    pub terminal: Option<DispatchOutcome>,
}

/// What a [`DispatchOwner`] holds.
pub struct OwnerView<G, A> {
    pub guard: Option<G>,
    pub activation: DispatchActivation<A>,
    pub terminal: Option<OutcomeView>,
}

impl<G, A> View for DispatchOwner<G, A> {
    type V = OwnerView<G, A>;

    open spec fn view(&self) -> OwnerView<G, A> {
        OwnerView {
            guard: self.guard,
            activation: self.activation,
            terminal: match self.terminal {
                None => None,
                Some(outcome) => Some(outcome@),
            },
        }
    }
}

/// The outcome where the guard was missing.
pub open spec fn missing_guard() -> OutcomeView {
    OutcomeView::Failed {
        kind: ErrorKind::Other,
        message: "filesystem dispatch guard was missing"@,
    }
}

/// An owner after an activation was sent, and what the activation returned; `delivered` says
/// whether the command reached the thread.
pub open spec fn after_activation<G, A>(owner: OwnerView<G, A>, delivered: bool) -> (
    OwnerView<G, A>,
    Result<(), ErrorView>,
) {
    match owner.activation {
        DispatchActivation::Waiting(_) => if delivered {
            (OwnerView { activation: DispatchActivation::Active, ..owner }, Ok(()))
        } else {
            (
                OwnerView { activation: DispatchActivation::Stopped, ..owner },
                Err(
                    custom(
                        ErrorKind::NotConnected,
                        "filesystem dispatch thread exited before activation"@,
                    ),
                ),
            )
        },
        DispatchActivation::Active => (
            owner,
            Err(custom(ErrorKind::AlreadyExists, "filesystem dispatch is already active"@)),
        ),
        DispatchActivation::Stopped => (
            owner,
            Err(custom(ErrorKind::NotConnected, "filesystem dispatch was stopped"@)),
        ),
    }
}

/// An owner after the transport's release was tried, and what the attempt does next.
pub open spec fn after_release<G, A>(
    owner: OwnerView<G, A>,
    released: Result<(), ErrorView>,
) -> (OwnerView<G, A>, ActionView<G, A>) {
    match released {
        Err(error) => (owner, ActionView::Return(ShutdownView::TransportPending(error))),
        Ok(()) => (
            OwnerView { activation: owner.activation.stopped(), ..owner },
            match owner.activation {
                DispatchActivation::Waiting(activation) => ActionView::SendStop(activation),
                _ => ActionView::Poll,
            },
        ),
    }
}

/// An owner after its thread was seen to have finished or not, and what the attempt does next.
pub open spec fn after_poll<G, A>(
    owner: OwnerView<G, A>,
    finished: bool,
    now: Instant,
    deadline: Instant,
) -> (OwnerView<G, A>, ActionView<G, A>) {
    match owner.guard {
        None => (
            OwnerView { terminal: Some(missing_guard()), ..owner },
            ActionView::Return(ShutdownView::Complete(missing_guard())),
        ),
        Some(guard) => if finished {
            (OwnerView { guard: None, ..owner }, ActionView::Join(guard))
        } else if deadline.since(now).nanos == 0 {
            (owner, ActionView::Return(ShutdownView::DispatchPending))
        } else {
            (owner, ActionView::Park(park_limit().shorter(deadline.since(now))))
        },
    }
}

/// An owner after its thread was joined.
pub open spec fn after_join<G, A>(owner: OwnerView<G, A>, exit: DispatchExit) -> OwnerView<G, A> {
    OwnerView { terminal: Some(outcome_of(exit)), ..owner }
}

/// The longest time between two looks at a dispatch thread.
pub open spec fn park_limit() -> Duration {
    Duration { nanos: 1_000_000 }
}

impl<G, A> DispatchOwner<G, A> {
    /// Owner of a thread that waits for its command.
    pub fn new(guard: G, activation: A) -> (r: DispatchOwner<G, A>)
        ensures
            r@ == (OwnerView {
                guard: Some(guard),
                activation: DispatchActivation::Waiting(activation),
                terminal: None,
            }),
    {
        DispatchOwner {
            guard: Some(guard),
            activation: DispatchActivation::Waiting(activation),
            terminal: None,
        }
    }

    /// Tells the thread to run. `send` sends it a command, and says whether that reached it.
    pub fn activate<F: FnOnce(&A, DispatchCommand) -> bool>(&mut self, send: F) -> (r: Result<
        (),
        Error,
    >)
        requires
            old(self).activation matches DispatchActivation::Waiting(activation) ==> call_requires(
                send,
                (&activation, DispatchCommand::Activate),
            ),
        ensures
            exists|delivered: bool|
                {
                    &&& (final(self)@, outcome(r)) == #[trigger] after_activation(
                        old(self)@,
                        delivered,
                    )
                    &&& old(self).activation matches DispatchActivation::Waiting(activation)
                        ==> call_ensures(
                        send,
                        (&activation, DispatchCommand::Activate),
                        delivered,
                    )
                },
    {
        let delivered: bool = match &self.activation {
            DispatchActivation::Waiting(activation) => send(activation, DispatchCommand::Activate),
            DispatchActivation::Active => {
                proof {
                    assert(after_activation(old(self)@, true).0 == self@);
                }
                return Err(
                    Error::new(ErrorKind::AlreadyExists, "filesystem dispatch is already active"),
                );
            },
            DispatchActivation::Stopped => {
                proof {
                    assert(after_activation(old(self)@, true).0 == self@);
                }
                return Err(Error::new(ErrorKind::NotConnected, "filesystem dispatch was stopped"));
            },
        };
        if delivered {
            self.activation = DispatchActivation::Active;
            proof {
                assert(after_activation(old(self)@, delivered).0 == self@);
            }
            Ok(())
        } else {
            self.activation = DispatchActivation::Stopped;
            proof {
                assert(after_activation(old(self)@, delivered).0 == self@);
            }
            Err(
                Error::new(
                    ErrorKind::NotConnected,
                    "filesystem dispatch thread exited before activation",
                ),
            )
        }
    }

    /// Begins a shutdown attempt: releases the transport, then stops the thread. Once the thread
    /// was reaped there is nothing left to do, and every attempt completes at once.
    pub fn shutdown_with<F: FnOnce() -> Result<(), Error>>(&mut self, release_transport: F) -> (r:
        ShutdownAction<G, A>)
        requires
            old(self).terminal is None ==> call_requires(release_transport, ()),
        ensures
            old(self)@.terminal matches Some(outcome) ==> {
                &&& *final(self) == *old(self)
                &&& r@ == ActionView::<G, A>::Return(ShutdownView::Complete(outcome))
            },
            old(self)@.terminal is None ==> exists|released: Result<(), Error>|
                {
                    &&& #[trigger] call_ensures(release_transport, (), released)
                    &&& (final(self)@, r@) == after_release(old(self)@, outcome(released))
                },
    {
        match self.begin_shutdown() {
            Some(action) => action,
            None => self.released(release_transport()),
        }
    }

    /// What a shutdown attempt returns at once, if the thread was reaped already.
    pub fn begin_shutdown(&self) -> (r: Option<ShutdownAction<G, A>>)
        ensures
            match self@.terminal {
                None => r is None,
                Some(outcome) => r matches Some(action) && action@ == ActionView::<G, A>::Return(
                    ShutdownView::Complete(outcome),
                ),
            },
    {
        match self.terminal.as_ref() {
            None => None,
            Some(outcome) => Some(
                ShutdownAction::Return(BackgroundSessionShutdown::Complete(outcome.clone())),
            ),
        }
    }

    /// Goes on with a shutdown attempt once the release of the transport was tried.
    pub fn released(&mut self, released: Result<(), Error>) -> (r: ShutdownAction<G, A>)
        ensures
            (final(self)@, r@) == after_release(old(self)@, outcome(released)),
    {
        if let Err(error) = released {
            return ShutdownAction::Return(BackgroundSessionShutdown::TransportPending(error));
        }
        let mut activation = DispatchActivation::Stopped;
        std::mem::swap(&mut activation, &mut self.activation);
        match activation {
            DispatchActivation::Waiting(activation) => ShutdownAction::SendStop(activation),
            activation => {
                self.activation = activation;
                ShutdownAction::Poll
            },
        }
    }

    /// Goes on with a shutdown attempt once it is known whether the thread has finished.
    pub fn polled(&mut self, finished: bool, now: Instant, deadline: Instant) -> (r: ShutdownAction<
        G,
        A,
    >)
        ensures
            (final(self)@, r@) == after_poll(old(self)@, finished, now, deadline),
    {
        if self.guard.is_none() {
            return ShutdownAction::Return(self.complete_missing_guard());
        }
        if !finished {
            let remaining = deadline.saturating_duration_since(now);
            if remaining.is_zero() {
                return ShutdownAction::Return(BackgroundSessionShutdown::DispatchPending);
            }
            return ShutdownAction::Park(Duration::from_millis(1).min(remaining));
        }
        match self.guard.take() {
            None => ShutdownAction::Return(self.complete_missing_guard()),
            Some(guard) => ShutdownAction::Join(guard),
        }
    }

    /// Ends a shutdown attempt whose thread was joined.
    pub fn joined(&mut self, exit: DispatchExit) -> (r: BackgroundSessionShutdown)
        ensures
            final(self)@ == after_join(old(self)@, exit),
            r@ == ShutdownView::Complete(outcome_of(exit)),
    {
        let outcome = match exit {
            DispatchExit::Returned => DispatchOutcome::Succeeded,
            DispatchExit::Failed(kind, message) => DispatchOutcome::Failed { kind, message },
            DispatchExit::Panicked => DispatchOutcome::Panicked,
        };
        self.terminal = Some(outcome.clone());
        BackgroundSessionShutdown::Complete(outcome)
    }

    /// Ends a shutdown attempt that has no thread to join.
    fn complete_missing_guard(&mut self) -> (r: BackgroundSessionShutdown)
        ensures
            final(self)@ == (OwnerView { terminal: Some(missing_guard()), ..old(self)@ }),
            r@ == ShutdownView::Complete(missing_guard()),
    {
        let outcome = DispatchOutcome::Failed {
            kind: ErrorKind::Other,
            message: "filesystem dispatch guard was missing".to_owned(),
        };
        self.terminal = Some(outcome.clone());
        BackgroundSessionShutdown::Complete(outcome)
    }
}

} // verus!
