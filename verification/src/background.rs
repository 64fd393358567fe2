//! A session that runs in the background.

use vstd::prelude::*;

use crate::dispatch::{
    after_activation, after_join, after_poll, after_release, outcome_of, ActionView,
    BackgroundSessionShutdown, DispatchActivation, DispatchCommand, DispatchExit, DispatchOwner,
    OwnerView, ShutdownAction, ShutdownView,
};
use crate::error::{outcome, Error, ErrorView};
use crate::session::{Session, UmountOnDrop};
use crate::time::Instant;

verus! {

/// Non-cloneable owner of a mounted transport and its background dispatch guard. `N` sends
/// notifications to the kernel, `M` is the mount, `G` the guard of the dispatch thread, and `A`
/// sends that thread its command.
#[derive(Debug)]
pub struct BackgroundSession<N, M, G, A> {
    pub sender: N,
    pub mount: UmountOnDrop<M>,
    pub dispatch: DispatchOwner<G, A>,
}

impl<N, M, G, A> BackgroundSession<N, M, G, A> {
    /// Admit ordinary filesystem requests after the caller has stored this owner. `send` sends
    /// the dispatch thread a command, and says whether that reached it.
    ///
    /// # Errors
    ///
    /// Returns an error if dispatch was already activated or its thread exited
    /// before activation. The session remains available for shutdown.
    pub fn activate<F: FnOnce(&A, DispatchCommand) -> bool>(&mut self, send: F) -> (r: Result<
        (),
        Error,
    >)
        requires
            old(self).dispatch.activation matches DispatchActivation::Waiting(activation)
                ==> call_requires(send, (&activation, DispatchCommand::Activate)),
        ensures
            final(self).sender == old(self).sender,
            final(self).mount == old(self).mount,
            exists|delivered: bool|
                {
                    &&& (final(self).dispatch@, outcome(r)) == #[trigger] after_activation(
                        old(self).dispatch@,
                        delivered,
                    )
                    &&& old(self).dispatch.activation matches DispatchActivation::Waiting(
                        activation,
                    ) ==> call_ensures(
                        send,
                        (&activation, DispatchCommand::Activate),
                        delivered,
                    )
                },
    {
        self.dispatch.activate(send)
    }

    /// Release the transport first, then reap dispatch within one shared deadline: this begins a
    /// shutdown attempt. `umount` unmounts, and `interrupt` wakes a receive that the dispatch
    /// thread may be blocked in: it can be called once nothing is mounted any more.
    ///
    /// A non-complete result consumes no native owner. Call this method again on
    /// the same value to resume shutdown.
    pub fn shutdown<F: FnOnce(&mut M) -> Result<(), Error>, I: FnOnce(&N)>(
        &mut self,
        umount: F,
        interrupt: I,
    ) -> (r: ShutdownAction<G, A>)
        requires
            old(self).dispatch.terminal is None && old(self).mount.mount is None ==> call_requires(
                interrupt,
                (&old(self).sender,),
            ),
            old(self).dispatch.terminal is None ==> forall|
                mount: &mut M,
                released: Result<(), Error>,
            | #[trigger]
                call_ensures(umount, (mount,), released) && old(self).mount.mount == Some(*mount)
                    && released is Ok ==> call_requires(interrupt, (&old(self).sender,)),
            old(self).dispatch.terminal is None ==> forall|mount: &mut M|
                old(self).mount.mount == Some(*mount) ==> call_requires(umount, (mount,)),
        ensures
            final(self).sender == old(self).sender,
            old(self).dispatch@.terminal matches Some(outcome) ==> {
                &&& *final(self) == *old(self)
                &&& r@ == ActionView::<G, A>::Return(ShutdownView::Complete(outcome))
            },
            old(self).dispatch@.terminal is None ==> exists|released: Result<(), Error>|
                {
                    &&& (final(self).dispatch@, r@) == #[trigger] after_release(
                        old(self).dispatch@,
                        outcome(released),
                    )
                    &&& released is Ok ==> call_ensures(interrupt, (&old(self).sender,), ())
                    &&& match old(self).mount.mount {
                        None => released is Ok && final(self).mount.mount is None,
                        Some(owned) => exists|mount: &mut M|
                            {
                                &&& #[trigger] call_ensures(umount, (mount,), released)
                                &&& *mount == owned
                                &&& final(self).mount.mount == (if released is Ok {
                                    None
                                } else {
                                    Some(*final(mount))
                                })
                            },
                    }
                },
    {
        if let Some(action) = self.dispatch.begin_shutdown() {
            return action;
        }
        let released = self.mount.umount_until(umount);
        if released.is_ok() {
            interrupt(&self.sender);
        }
        self.dispatch.released(released)
    }

    /// Goes on with a shutdown attempt once it is known whether the dispatch thread has finished.
    pub fn polled(&mut self, finished: bool, now: Instant, deadline: Instant) -> (r: ShutdownAction<
        G,
        A,
    >)
        ensures
            final(self).sender == old(self).sender,
            final(self).mount == old(self).mount,
            (final(self).dispatch@, r@) == after_poll(
                old(self).dispatch@,
                finished,
                now,
                deadline,
            ),
    {
        self.dispatch.polled(finished, now, deadline)
    }

    /// Ends a shutdown attempt whose dispatch thread was joined.
    pub fn joined(&mut self, exit: DispatchExit) -> (r: BackgroundSessionShutdown)
        ensures
            final(self).sender == old(self).sender,
            final(self).mount == old(self).mount,
            final(self).dispatch@ == after_join(old(self).dispatch@, exit),
            r@ == ShutdownView::Complete(outcome_of(exit)),
    {
        self.dispatch.joined(exit)
    }

    /// Returns what can be used to send notifications to the kernel.
    ///
    /// It does not extend the transport lifetime. Notifications sent after the session closes
    /// are refused, because there is no connection.
    pub fn notifier(&self) -> (r: &N)
        ensures
            *r == self.sender,
    {
        &self.sender
    }
}

impl<FS, C, M> Session<FS, C, M> {
    /// Run the session loop in a background thread. `sender` gives what sends notifications
    /// over a channel; `start` starts a thread that waits for the command to run the session; and
    /// `send` sends such a thread a command, and says whether that reached it.
    pub fn spawn<
        N,
        G,
        A,
        F: FnOnce(&C) -> N,
        T: FnOnce(Session<FS, C, M>) -> Result<(G, A), Error>,
        D: FnOnce(&A, DispatchCommand) -> bool,
    >(self, sender: F, start: T, send: D) -> (r: Result<BackgroundSession<N, M, G, A>, Error>)
        requires
            call_requires(sender, (&self.ch,)),
            call_requires(start, (self.unmounted(),)),
            forall|guard: G, activation: A|
                #[trigger] call_ensures(start, (self.unmounted(),), Ok((guard, activation)))
                    ==> call_requires(send, (&activation, DispatchCommand::Activate)),
        ensures
            exists|notifier: N, started: Result<(G, A), Error>|
                {
                    &&& #[trigger] call_ensures(sender, (&self.ch,), notifier)
                    &&& #[trigger] call_ensures(start, (self.unmounted(),), started)
                    &&& match started {
                        Err(error) => r == Err::<BackgroundSession<N, M, G, A>, Error>(error),
                        Ok((guard, activation)) => {
                            let waiting = OwnerView {
                                guard: Some(guard),
                                activation: DispatchActivation::Waiting(activation),
                                terminal: None,
                            };
                            exists|delivered: bool|
                                {
                                    &&& #[trigger] call_ensures(
                                        send,
                                        (&activation, DispatchCommand::Activate),
                                        delivered,
                                    )
                                    &&& match after_activation(waiting, delivered) {
                                        (_, Err(error)) => outcome(r) == Err::<
                                            BackgroundSession<N, M, G, A>,
                                            ErrorView,
                                        >(error),
                                        (active, Ok(())) => r matches Ok(background)
                                            && background.sender == notifier && background.mount
                                            == self.mount && background.dispatch@ == active,
                                    }
                                }
                        },
                    }
                },
    {
        let mut session = self;
        let notifier = sender(&session.ch);
        let mount = session.take_mount();
        match start(session) {
            Err(error) => Err(error),
            Ok((guard, activation)) => {
                let mut background = BackgroundSession {
                    sender: notifier,
                    mount,
                    dispatch: DispatchOwner::new(guard, activation),
                };
                match background.activate(send) {
                    Err(error) => Err(error),
                    Ok(()) => Ok(background),
                }
            },
        }
    }
}

/// A background session keeps its sender and its mount while it is activated and while its
/// dispatch thread is waited for.
pub proof fn law_dispatch_leaves_the_transport_alone<
    N,
    M,
    G,
    A,
    F: FnOnce(&A, DispatchCommand) -> bool,
>(send: F, finished: bool, now: Instant, deadline: Instant, exit: DispatchExit)
    ensures
        forall|session: &mut BackgroundSession<N, M, G, A>, r: Result<(), Error>| #[trigger]
            call_ensures(BackgroundSession::<N, M, G, A>::activate::<F>, (session, send), r)
                ==> final(session).sender == session.sender && final(session).mount
                == session.mount,
        forall|session: &mut BackgroundSession<N, M, G, A>, r: ShutdownAction<G, A>| #[trigger]
            call_ensures(
                BackgroundSession::<N, M, G, A>::polled,
                (session, finished, now, deadline),
                r,
            ) ==> final(session).sender == session.sender && final(session).mount == session.mount,
        forall|session: &mut BackgroundSession<N, M, G, A>, r: BackgroundSessionShutdown|
            #[trigger]
            call_ensures(BackgroundSession::<N, M, G, A>::joined, (session, exit), r) ==> {
                &&& final(session).sender == session.sender
                &&& final(session).mount == session.mount
                &&& r is Complete
                &&& final(session).dispatch@.terminal == Some(outcome_of(exit))
            },
{
}

/// A shutdown that is complete is answered by what it gave, again and again, and changes nothing.
/// Any other begins with the mount: while that is not released, the attempt returns the reason,
/// and goes on in no other way; and once the attempt goes on, there is no mount left, and a
/// blocked receive was woken.
pub proof fn law_shutdown_releases_the_mount_first<
    N,
    M,
    G,
    A,
    F: FnOnce(&mut M) -> Result<(), Error>,
    I: FnOnce(&N),
>(umount: F, interrupt: I)
    ensures
        forall|session: &mut BackgroundSession<N, M, G, A>, r: ShutdownAction<G, A>| #[trigger]
            call_ensures(
                BackgroundSession::<N, M, G, A>::shutdown::<F, I>,
                (session, umount, interrupt),
                r,
            ) ==> {
                &&& final(session).sender == session.sender
                &&& session.dispatch@.terminal matches Some(outcome) ==> r@ == ActionView::<
                    G,
                    A,
                >::Return(ShutdownView::Complete(outcome)) && *final(session) == *session
                &&& session.dispatch@.terminal is None ==> {
                    let refused = r@ matches ActionView::Return(ShutdownView::TransportPending(_));
                    &&& refused ==> session.mount.mount is Some && final(session).mount.mount is
                        Some && final(session).dispatch@ == session.dispatch@
                    &&& !refused ==> final(session).mount.mount is None
                    &&& session.mount.mount is None ==> !refused
                    &&& session.mount.mount matches Some(owned) ==> exists|
                        mount: &mut M,
                        released: Result<(), Error>,
                    | #[trigger]
                        call_ensures(umount, (mount,), released) && *mount == owned && (refused
                            <==> released is Err)
                    &&& !refused ==> call_ensures(interrupt, (&session.sender,), ())
                }
            },
{
}

/// A session that is spawned is activated: it has the mount of the session and a thread that
/// runs. The thread has everything of the session but the mount.
pub proof fn law_spawned_session_is_active<
    FS,
    C,
    M,
    N,
    G,
    A,
    F: FnOnce(&C) -> N,
    T: FnOnce(Session<FS, C, M>) -> Result<(G, A), Error>,
    D: FnOnce(&A, DispatchCommand) -> bool,
>(
    session: Session<FS, C, M>,
    sender: F,
    start: T,
    send: D,
    r: Result<BackgroundSession<N, M, G, A>, Error>,
)
    requires
        call_ensures(
            Session::<FS, C, M>::spawn::<N, G, A, F, T, D>,
            (session, sender, start, send),
            r,
        ),
    ensures
        r matches Ok(background) ==> {
            &&& background.mount == session.mount
            &&& background.dispatch@.activation is Active
            &&& background.dispatch@.guard is Some
            &&& background.dispatch@.terminal is None
            &&& call_ensures(sender, (&session.ch,), background.sender)
        },
        (forall|started: Result<(G, A), Error>|
            #[trigger] call_ensures(start, (session.unmounted(),), started) ==> started is Ok) && (
        forall|activation: A, delivered: bool| #[trigger]
            call_ensures(send, (&activation, DispatchCommand::Activate), delivered) ==> delivered)
            ==> r is Ok,
{
}

} // verus!
