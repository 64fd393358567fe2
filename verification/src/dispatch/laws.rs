//! What holds of a background dispatch over several calls.

use vstd::prelude::*;

use crate::dispatch::{
    after_activation, after_join, after_poll, after_release, is_task, outcome_of, park_limit,
    ActionView, DispatchActivation, DispatchCommand, DispatchExit, DispatchOwner, DispatchTask,
    OutcomeView, OwnerView, ShutdownAction, ShutdownView,
};
use crate::error::{Error, ErrorKind, ErrorView};
use crate::time::Instant;

verus! {

/// What a look at a dispatch thread showed, and when.
pub struct Look {
    pub finished: bool,
    pub now: Instant,
}

/// A shutdown attempt from the first look at the thread on: the owner after it, and what the
/// attempt returned, if it has returned after these looks.
pub open spec fn reaped<G, A>(
    owner: OwnerView<G, A>,
    looks: Seq<Look>,
    exit: DispatchExit,
    deadline: Instant,
) -> (OwnerView<G, A>, Option<ShutdownView>)
    decreases looks.len(),
{
    if looks.len() == 0 {
        (owner, None)
    } else {
        let (after, action) = after_poll(owner, looks[0].finished, looks[0].now, deadline);
        match action {
            ActionView::Return(result) => (after, Some(result)),
            ActionView::Join(_) => (
                after_join(after, exit),
                Some(ShutdownView::Complete(outcome_of(exit))),
            ),
            _ => reaped(after, looks.drop_first(), exit, deadline),
        }
    }
}

/// A whole shutdown attempt: the owner after it, and what it returned, if it has returned.
pub open spec fn attempt<G, A>(
    owner: OwnerView<G, A>,
    released: Result<(), ErrorView>,
    looks: Seq<Look>,
    exit: DispatchExit,
    deadline: Instant,
) -> (OwnerView<G, A>, Option<ShutdownView>) {
    match owner.terminal {
        Some(outcome) => (owner, Some(ShutdownView::Complete(outcome))),
        None => {
            let (after, action) = after_release(owner, released);
            match action {
                ActionView::Return(result) => (after, Some(result)),
                _ => reaped(after, looks, exit, deadline),
            }
        },
    }
}

/// A thread is activated at most once: a second activation is refused and changes nothing, and
/// so is one after the thread was stopped.
pub proof fn law_activated_once<G, A>(owner: OwnerView<G, A>, first: bool, second: bool)
    ensures
        ({
            let (after, result) = after_activation(owner, first);
            &&& result is Ok <==> owner.activation is Waiting && first
            &&& result is Ok ==> after.activation is Active
            &&& result is Err ==> !(after.activation is Waiting)
            &&& after_activation(after, second).0 == after
            &&& after_activation(after, second).1 is Err
        }),
{
}

/// An attempt whose transport was not released changes nothing at all. One that was left with
/// an unfinished thread, or has not returned yet, still has the guard of the thread, and knows
/// no outcome.
pub proof fn law_incomplete_shutdown_keeps_owners<G, A>(
    owner: OwnerView<G, A>,
    released: Result<(), ErrorView>,
    looks: Seq<Look>,
    exit: DispatchExit,
    deadline: Instant,
)
    ensures
        ({
            let (after, result) = attempt(owner, released, looks, exit, deadline);
            &&& result matches Some(ShutdownView::TransportPending(error)) ==> after == owner
                && released == Err::<(), ErrorView>(error)
            &&& result is None || result == Some(ShutdownView::DispatchPending) ==> after
                == (OwnerView { activation: owner.activation.stopped(), ..owner })
                && released is Ok && after.terminal is None && after.guard == owner.guard
        }),
{
    if owner.terminal is None && released is Ok {
        lemma_reaping_keeps_the_guard(after_release(owner, released).0, looks, exit, deadline);
    }
}

proof fn lemma_reaping_keeps_the_guard<G, A>(
    owner: OwnerView<G, A>,
    looks: Seq<Look>,
    exit: DispatchExit,
    deadline: Instant,
)
    ensures
        ({
            let (after, result) = reaped(owner, looks, exit, deadline);
            &&& result is None || result == Some(ShutdownView::DispatchPending) ==> after == owner
            &&& result matches Some(ShutdownView::Complete(outcome)) ==> after == (OwnerView {
                guard: None,
                terminal: Some(outcome),
                ..owner
            })
            &&& !(result matches Some(ShutdownView::TransportPending(_)))
        }),
    decreases looks.len(),
{
    if looks.len() > 0 {
        lemma_reaping_keeps_the_guard(owner, looks.drop_first(), exit, deadline);
    }
}

/// A completed shutdown stays completed, with the same outcome: no later attempt releases,
/// waits or changes anything.
pub proof fn law_completion_is_final<G, A>(
    owner: OwnerView<G, A>,
    released: Result<(), ErrorView>,
    looks: Seq<Look>,
    exit: DispatchExit,
    deadline: Instant,
    later_released: Result<(), ErrorView>,
    later_looks: Seq<Look>,
    later_exit: DispatchExit,
    later_deadline: Instant,
)
    ensures
        ({
            let (after, result) = attempt(owner, released, looks, exit, deadline);
            result matches Some(ShutdownView::Complete(outcome)) ==> {
                &&& after.terminal == Some(outcome)
                &&& attempt(after, later_released, later_looks, later_exit, later_deadline) == (
                    after,
                    Some(ShutdownView::Complete(outcome)),
                )
            }
        }),
{
    if owner.terminal is None && released is Ok {
        lemma_reaping_keeps_the_guard(after_release(owner, released).0, looks, exit, deadline);
    }
}

/// A first completion reaps the thread: the transport was released, the guard is gone, and the
/// outcome is how the thread ended.
pub proof fn law_completion_reaps<G, A>(
    owner: OwnerView<G, A>,
    released: Result<(), ErrorView>,
    looks: Seq<Look>,
    exit: DispatchExit,
    deadline: Instant,
)
    requires
        owner.terminal is None,
        owner.guard is Some,
    ensures
        ({
            let (after, result) = attempt(owner, released, looks, exit, deadline);
            result matches Some(ShutdownView::Complete(outcome)) ==> {
                &&& released is Ok
                &&& outcome == outcome_of(exit)
                &&& after == (OwnerView {
                    guard: None::<G>,
                    activation: owner.activation.stopped(),
                    terminal: Some(outcome),
                })
                &&& exists|i: int| 0 <= i < looks.len() && (#[trigger] looks[i]).finished
            }
        }),
{
    if released is Ok {
        let stopped = after_release(owner, released).0;
        lemma_reaping_keeps_the_guard(stopped, looks, exit, deadline);
        lemma_reaping_joins_what_finished(stopped, looks, exit, deadline);
    }
}

proof fn lemma_reaping_joins_what_finished<G, A>(
    owner: OwnerView<G, A>,
    looks: Seq<Look>,
    exit: DispatchExit,
    deadline: Instant,
)
    requires
        owner.guard is Some,
    ensures
        reaped(owner, looks, exit, deadline).1 matches Some(ShutdownView::Complete(outcome)) ==> {
            &&& outcome == outcome_of(exit)
            &&& exists|i: int| 0 <= i < looks.len() && (#[trigger] looks[i]).finished
        },
    decreases looks.len(),
{
    if looks.len() > 0 {
        if looks[0].finished {
        } else if deadline.since(looks[0].now).nanos > 0 {
            let rest = looks.drop_first();
            lemma_reaping_joins_what_finished(owner, rest, exit, deadline);
            if reaped(owner, rest, exit, deadline).1 matches Some(ShutdownView::Complete(_)) {
                let i = choose|i: int| 0 <= i < rest.len() && (#[trigger] rest[i]).finished;
                assert(looks[i + 1].finished);
            }
        }
    }
}

/// An attempt returns by its deadline: it does so at the first look that comes at the deadline or
/// later, and no wait between two looks is longer than the limit or reaches past the deadline.
pub proof fn law_shutdown_is_bounded<G, A>(
    owner: OwnerView<G, A>,
    released: Result<(), ErrorView>,
    looks: Seq<Look>,
    exit: DispatchExit,
    deadline: Instant,
    i: int,
    finished: bool,
    now: Instant,
)
    ensures
        0 <= i < looks.len() && looks[i].now.nanos >= deadline.nanos ==> attempt(
            owner,
            released,
            looks,
            exit,
            deadline,
        ).1 is Some,
        after_poll(owner, finished, now, deadline).1 matches ActionView::Park(wait) ==> {
            &&& 0 < wait.nanos <= park_limit().nanos
            &&& now.nanos + wait.nanos <= deadline.nanos
            &&& !finished
        },
{
    if 0 <= i < looks.len() && looks[i].now.nanos >= deadline.nanos && released is Ok {
        lemma_reaping_ends(after_release(owner, released).0, looks, exit, deadline, i);
    }
}

proof fn lemma_reaping_ends<G, A>(
    owner: OwnerView<G, A>,
    looks: Seq<Look>,
    exit: DispatchExit,
    deadline: Instant,
    i: int,
)
    requires
        0 <= i < looks.len(),
        looks[i].now.nanos >= deadline.nanos,
    ensures
        reaped(owner, looks, exit, deadline).1 is Some,
    decreases looks.len(),
{
    if i > 0 {
        lemma_reaping_ends(owner, looks.drop_first(), exit, deadline, i - 1);
    }
}

/// A thread that was never activated is told to stop by the first attempt that releases the
/// transport, and can be activated no more.
pub proof fn law_shutdown_stops_an_idle_thread<G, A>(
    owner: OwnerView<G, A>,
    activation: A,
    delivered: bool,
)
    requires
        owner.activation == DispatchActivation::Waiting(activation),
    ensures
        after_release(owner, Ok(())).1 == ActionView::<G, A>::SendStop(activation),
        after_activation(after_release(owner, Ok(())).0, delivered).1 is Err,
{
}

/// A look that finds the thread finished reaps it, whatever the time and the deadline are. Only a
/// thread that is not finished is waited for, and only until the deadline: at it or later the
/// attempt is left pending, and before it the thread is looked at again after a millisecond, or at
/// the deadline where that comes first.
pub proof fn law_finished_thread_is_reaped<G, A>(
    owner: OwnerView<G, A>,
    guard: G,
    finished: bool,
    now: Instant,
    deadline: Instant,
)
    requires
        owner.guard == Some(guard),
    ensures
        ({
            let (after, action) = after_poll(owner, finished, now, deadline);
            &&& finished ==> action == ActionView::<G, A>::Join(guard) && after.guard is None
            &&& after.activation == owner.activation && after.terminal == owner.terminal
            &&& !finished ==> after == owner
            &&& action == ActionView::<G, A>::Return(ShutdownView::DispatchPending) <==> !finished
                && now.nanos >= deadline.nanos
            &&& !finished && now.nanos < deadline.nanos ==> (action matches ActionView::Park(wait)
                && 0 < wait.nanos <= 1_000_000 && now.nanos + wait.nanos <= deadline.nanos && (
            wait.nanos == 1_000_000 || now.nanos + wait.nanos == deadline.nanos))
        }),
{
}

/// An attempt whose transport is released completes with how the thread ended, if one of its looks
/// finds the thread finished and none before that comes at the deadline.
pub proof fn law_attempt_completes_once_finished<G, A>(
    owner: OwnerView<G, A>,
    looks: Seq<Look>,
    exit: DispatchExit,
    deadline: Instant,
    i: int,
)
    requires
        owner.terminal is None,
        owner.guard is Some,
        0 <= i < looks.len(),
        looks[i].finished,
        forall|k: int| 0 <= k < i ==> (#[trigger] looks[k]).now.nanos < deadline.nanos,
    ensures
        attempt(owner, Ok(()), looks, exit, deadline).1 == Some(
            ShutdownView::Complete(outcome_of(exit)),
        ),
        attempt(owner, Ok(()), looks, exit, deadline).0.terminal == Some(outcome_of(exit)),
        attempt(owner, Ok(()), looks, exit, deadline).0.guard is None,
{
    lemma_reaping_completes(after_release(owner, Ok(())).0, looks, exit, deadline, i);
}

proof fn lemma_reaping_completes<G, A>(
    owner: OwnerView<G, A>,
    looks: Seq<Look>,
    exit: DispatchExit,
    deadline: Instant,
    i: int,
)
    requires
        owner.guard is Some,
        0 <= i < looks.len(),
        looks[i].finished,
        forall|k: int| 0 <= k < i ==> (#[trigger] looks[k]).now.nanos < deadline.nanos,
    ensures
        reaped(owner, looks, exit, deadline).1 == Some(ShutdownView::Complete(outcome_of(exit))),
        reaped(owner, looks, exit, deadline).0.terminal == Some(outcome_of(exit)),
        reaped(owner, looks, exit, deadline).0.guard is None,
    decreases i,
{
    if i > 0 && !looks[0].finished {
        let rest = looks.drop_first();
        assert(rest[i - 1] == looks[i]);
        assert forall|k: int| 0 <= k < i - 1 implies (#[trigger] rest[k]).now.nanos
            < deadline.nanos by {
            assert(rest[k] == looks[k + 1]);
        }
        lemma_reaping_completes(owner, rest, exit, deadline, i - 1);
    }
}

/// The outcome says how the thread ended: success, its error by category and text, or that it
/// unwound.
pub proof fn law_outcome_says_how_the_thread_ended(exit: DispatchExit)
    ensures
        outcome_of(exit) is Succeeded <==> exit is Returned,
        outcome_of(exit) is Panicked <==> exit is Panicked,
        exit matches DispatchExit::Failed(kind, message) ==> outcome_of(exit)
            == (OutcomeView::Failed { kind, message: message@ }),
{
}

/// A reaped thread leaves its outcome, and nothing else changes.
pub proof fn law_join_keeps_the_outcome<G, A>(owner: OwnerView<G, A>, exit: DispatchExit)
    ensures
        after_join(owner, exit).terminal == Some(outcome_of(exit)),
        after_join(owner, exit).guard == owner.guard,
        after_join(owner, exit).activation == owner.activation,
{
}

/// An owner without a guard completes with an error, which stays.
pub proof fn law_missing_guard_is_an_error<G, A>(
    owner: OwnerView<G, A>,
    finished: bool,
    now: Instant,
    deadline: Instant,
)
    requires
        owner.guard is None,
    ensures
        after_poll(owner, finished, now, deadline).1 matches ActionView::Return(
            ShutdownView::Complete(OutcomeView::Failed { kind, message }),
        ) && kind == ErrorKind::Other && after_poll(owner, finished, now, deadline).0.terminal
            == Some(OutcomeView::Failed { kind, message }),
{
}

/// A transport that was not released ends the attempt with its error and changes nothing. Once it
/// was released, a thread that waits for its command is told to stop, and one that was told before
/// is looked at as it is.
pub proof fn law_release_comes_first<G, A>(
    owner: OwnerView<G, A>,
    released: Result<(), ErrorView>,
)
    ensures
        ({
            let (after, action) = after_release(owner, released);
            &&& after.guard == owner.guard && after.terminal == owner.terminal
            &&& released matches Err(error) ==> after == owner && action == ActionView::<
                G,
                A,
            >::Return(ShutdownView::TransportPending(error))
            &&& released is Ok ==> !(after.activation is Waiting)
            &&& owner.activation is Active ==> after.activation is Active
            &&& owner.activation is Stopped ==> after.activation is Stopped
            &&& released is Ok ==> match owner.activation {
                DispatchActivation::Waiting(sender) => action == ActionView::<G, A>::SendStop(
                    sender,
                ) && after.activation is Stopped,
                _ => action is Poll,
            }
        }),
{
}

/// An activation touches neither the guard nor the outcome, and fails by where the thread stands:
/// it runs already, or cannot be reached.
pub proof fn law_activation_fails_by_state<G, A>(owner: OwnerView<G, A>, delivered: bool)
    ensures
        ({
            let (after, result) = after_activation(owner, delivered);
            &&& after.guard == owner.guard && after.terminal == owner.terminal
            &&& owner.activation is Waiting && !delivered ==> after.activation is Stopped
            &&& !(owner.activation is Waiting) ==> after == owner
            &&& result matches Err(error) ==> (error matches ErrorView::Custom { kind, .. } && kind
                == (if owner.activation is Active {
                ErrorKind::AlreadyExists
            } else {
                ErrorKind::NotConnected
            }))
        }),
{
}

/// A dispatch thread runs its session exactly where it was told to, and never otherwise: told to
/// stop or left without a command it ends with success, and without a session with an error.
pub proof fn law_dispatch_runs_only_when_activated<S>(
    command: Option<DispatchCommand>,
    session: Option<S>,
    task: DispatchTask<S>,
)
    requires
        is_task(command, session, task),
    ensures
        task is Run <==> session is Some && command == Some(DispatchCommand::Activate),
        task matches DispatchTask::Run(given) ==> session == Some(given),
        (task matches DispatchTask::Return(result) && result is Ok) <==> session is Some && command
            != Some(DispatchCommand::Activate),
        (task matches DispatchTask::Return(result) && result is Err) <==> session is None,
{
}

/// A dispatch that begins waits for its command with its guard, and knows no outcome; and a
/// shutdown of it begins. One that has ended is answered at once.
pub proof fn law_dispatch_begins_waiting<G, A>(
    guard: G,
    activation: A,
    fresh: DispatchOwner<G, A>,
    owner: DispatchOwner<G, A>,
    begun: Option<ShutdownAction<G, A>>,
)
    requires
        call_ensures(DispatchOwner::<G, A>::new, (guard, activation), fresh),
        call_ensures(DispatchOwner::<G, A>::begin_shutdown, (&owner,), begun),
    ensures
        fresh@.guard == Some(guard),
        fresh@.activation == DispatchActivation::Waiting(activation),
        fresh@.terminal is None,
        begun is None <==> owner@.terminal is None,
        begun matches Some(action) ==> (action@ matches ActionView::Return(
            ShutdownView::Complete(outcome),
        ) && owner@.terminal == Some(outcome)),
{
}

/// A thread that waits is told to run, and nothing else: it is active once that has reached it.
pub proof fn law_activation_reaches_the_thread<G, A, F: FnOnce(&A, DispatchCommand) -> bool>(
    send: F,
    activation: A,
)
    ensures
        forall|owner: &mut DispatchOwner<G, A>, r: Result<(), Error>| #[trigger]
            call_ensures(DispatchOwner::<G, A>::activate::<F>, (owner, send), r) ==> {
                &&& r is Ok ==> owner.activation is Waiting && final(owner).activation is Active
                &&& owner.activation == DispatchActivation::Waiting(activation) ==> call_ensures(
                    send,
                    (&activation, DispatchCommand::Activate),
                    r is Ok,
                )
                &&& final(owner).guard == owner.guard
            },
{
}

/// A shutdown that has not ended yet begins with the release of the transport, and says so where
/// that failed; one that has ended does not try it again.
pub proof fn law_shutdown_tries_the_release<G, A, F: FnOnce() -> Result<(), Error>>(release: F)
    ensures
        forall|owner: &mut DispatchOwner<G, A>, r: ShutdownAction<G, A>| #[trigger]
            call_ensures(DispatchOwner::<G, A>::shutdown_with::<F>, (owner, release), r) ==> {
                &&& owner@.terminal matches Some(outcome) ==> r@ == ActionView::<G, A>::Return(
                    ShutdownView::Complete(outcome),
                ) && *final(owner) == *owner
                &&& owner@.terminal is None ==> exists|released: Result<(), Error>| #[trigger]
                    call_ensures(release, (), released) && match released {
                        Err(error) => r@ == ActionView::<G, A>::Return(
                            ShutdownView::TransportPending(error@),
                        ) && final(owner)@ == owner@,
                        Ok(()) => r@ is SendStop || r@ is Poll,
                    }
            },
{
}

} // verus!
