//! What holds of a message channel however its users and its close interleave.

use vstd::prelude::*;

use crate::darwin::close::{step_of, CloseAction, Closer};
use crate::darwin::{
    drain_timeout_error, io_error_to_errno, passed_on, says_received, send_outcome, ActiveCalls,
    CallKind, Lifecycle, ShutdownTiming,
};
use crate::errno::Errno;
use crate::error::{Error, ErrorKind, ErrorView};
use crate::target::Os;
use crate::text::law_numbers_tell_texts_apart;
use crate::time::{Duration, Instant};

verus! {

/// A call was admitted.
pub open spec fn call_began<S, C>(
    before: Lifecycle<S, C>,
    after: Lifecycle<S, C>,
    kind: CallKind,
) -> bool {
    &&& before is Open
    &&& before.active().count(kind) < usize::MAX
    &&& after == before.with_active(
        before.active().with(kind, (before.active().count(kind) + 1) as usize),
    )
}

/// An admitted call finished.
pub open spec fn call_finished<S, C>(
    before: Lifecycle<S, C>,
    after: Lifecycle<S, C>,
    kind: CallKind,
) -> bool {
    &&& before.active().count(kind) > 0
    &&& after == before.with_active(
        before.active().with(kind, (before.active().count(kind) - 1) as usize),
    )
}

/// One operation on the channel: a call is admitted, refused or finished, a close begins, or the
/// handles of a drained channel are given up.
pub open spec fn moved<S, C>(before: Lifecycle<S, C>, after: Lifecycle<S, C>) -> bool {
    ||| after == before
    ||| exists|kind: CallKind| #[trigger] call_began(before, after, kind)
    ||| exists|kind: CallKind| #[trigger] call_finished(before, after, kind)
    ||| after == before.closing()
    ||| before.drained() && after is Closed
}

/// `after` can come of `before` by operations on the channel.
pub open spec fn forward<S, C>(before: Lifecycle<S, C>, after: Lifecycle<S, C>) -> bool {
    match (before, after) {
        (
            Lifecycle::Open { session: s, channel: c, .. },
            Lifecycle::Open { session, channel, .. },
        ) => s == session && c == channel,
        (
            Lifecycle::Open { session: s, channel: c, .. },
            Lifecycle::Closing { session, channel, .. },
        ) => s == session && c == channel,
        (
            Lifecycle::Closing { session: s, channel: c, active: a },
            Lifecycle::Closing { session, channel, active },
        ) => s == session && c == channel && active.receives <= a.receives && active.sends
            <= a.sends,
        (_, Lifecycle::Closed) => true,
        _ => false,
    }
}

/// A channel only moves forward: its handles never change, no call is admitted once a close has
/// begun, so that the number of running calls can only fall, and a closed channel stays closed.
pub proof fn law_channel_moves_forward<S, C>(
    a: Lifecycle<S, C>,
    b: Lifecycle<S, C>,
    c: Lifecycle<S, C>,
)
    requires
        forward(a, b),
        moved(b, c),
    ensures
        forward(a, a),
        forward(a, c),
{
}

/// No call is admitted once a close has begun.
pub proof fn law_no_call_after_close<S, C>(
    before: Lifecycle<S, C>,
    after: Lifecycle<S, C>,
    next: Lifecycle<S, C>,
    kind: CallKind,
)
    requires
        !(before is Open),
        forward(before, after),
    ensures
        !call_began(after, next, kind),
{
}

/// A close always finds the channel as it needs it, whatever the users of the channel did since
/// its last step.
pub proof fn law_close_keeps_pace<S, C>(
    closer: Closer<S, C>,
    lifecycle: Lifecycle<S, C>,
    found: Lifecycle<S, C>,
    now: Instant,
    deadline: Instant,
    timing: ShutdownTiming,
)
    requires
        closer.agrees(lifecycle),
    ensures
        forward(lifecycle, step_of(closer, lifecycle, now, deadline, timing).lifecycle),
        ({
            let step = step_of(closer, lifecycle, now, deadline, timing);
            forward(step.lifecycle, found) && !(step.closer is Done) ==> step.closer.agrees(found)
        }),
{
}

/// What a close found at each of its steps, and when.
pub struct Trace<S, C> {
    pub found: Seq<Lifecycle<S, C>>,
    pub now: Seq<Instant>,
    pub deadline: Instant,
    pub timing: ShutdownTiming,
}

impl<S, C> Trace<S, C> {
    /// Where the close stood before step `i`.
    pub open spec fn closer(self, i: nat) -> Closer<S, C>
        decreases i,
    {
        if i == 0 {
            Closer::Begin
        } else {
            step_of(
                self.closer((i - 1) as nat),
                self.found[i - 1],
                self.now[i - 1],
                self.deadline,
                self.timing,
            ).closer
        }
    }

    /// The lifecycle that step `i` left behind.
    pub open spec fn left(self, i: nat) -> Lifecycle<S, C> {
        step_of(
            self.closer(i),
            self.found[i as int],
            self.now[i as int],
            self.deadline,
            self.timing,
        ).lifecycle
    }

    /// What step `i` asked for.
    pub open spec fn action(self, i: nat) -> CloseAction<S, C> {
        step_of(
            self.closer(i),
            self.found[i as int],
            self.now[i as int],
            self.deadline,
            self.timing,
        ).action
    }

    /// The steps are those of one close: it went on until it returned, and between its steps
    /// others did what they could.
    pub open spec fn valid(self) -> bool {
        &&& self.found.len() == self.now.len()
        &&& forall|i: nat| i < self.found.len() ==> !(#[trigger] self.closer(i) is Done)
        &&& forall|i: nat|
            i + 1 < self.found.len() ==> forward(#[trigger] self.left(i), self.found[i as int + 1])
    }
}

/// Whether an action releases something that the provider holds.
pub open spec fn releases<S, C>(action: CloseAction<S, C>) -> bool {
    action is RemoveChannel || action is DestroySession || action is Unmount
        || action is DestroyChannel
}

proof fn lemma_agrees<S, C>(trace: Trace<S, C>, i: nat)
    requires
        trace.valid(),
        i < trace.found.len(),
    ensures
        trace.closer(i).agrees(trace.found[i as int]),
    decreases i,
{
    if i > 0 {
        let last = (i - 1) as nat;
        lemma_agrees(trace, last);
        assert(forward(trace.left(last), trace.found[last as int + 1]));
        assert(!(trace.closer(i) is Done));
        law_close_keeps_pace(
            trace.closer(last),
            trace.found[last as int],
            trace.found[i as int],
            trace.now[last as int],
            trace.deadline,
            trace.timing,
        );
    }
}

/// The provider's handles are released in one order, each once, and only when no call uses them:
/// the channel is detached when it is found drained, and then the session is destroyed, the
/// channel unmounted, and its reference given up, one right after the other.
pub proof fn law_release_order<S, C>(trace: Trace<S, C>, i: nat)
    requires
        trace.valid(),
        i < trace.found.len(),
    ensures
        trace.closer(i).agrees(trace.found[i as int]),
        trace.action(i) matches CloseAction::RemoveChannel(c) ==> (
        trace.found[i as int].drained() && (trace.found[i as int] matches Lifecycle::Closing {
            session,
            channel,
            ..
        } && c == channel && (i + 1 < trace.found.len() ==> trace.action((i + 1) as nat)
            == CloseAction::<S, C>::DestroySession(session)) && (i + 2 < trace.found.len()
            ==> trace.action((i + 2) as nat) == CloseAction::<S, C>::Unmount(channel)) && (i + 3
            < trace.found.len() ==> trace.action((i + 3) as nat)
            == CloseAction::<S, C>::DestroyChannel(channel)) && (i + 4 < trace.found.len()
            ==> trace.action((i + 4) as nat) == CloseAction::<S, C>::Finished && trace.left(
            (i + 4) as nat,
        ) is Closed) && trace.found.len() <= i + 5)),
        trace.action(i) is DestroySession ==> i >= 1 && trace.action(
            (i - 1) as nat,
        ) is RemoveChannel,
        trace.action(i) is Unmount ==> i >= 2 && trace.action((i - 2) as nat) is RemoveChannel,
        trace.action(i) is DestroyChannel ==> i >= 3 && trace.action(
            (i - 3) as nat,
        ) is RemoveChannel,
        trace.action(i) is ExitSession ==> i == 0 && trace.found[0] is Open,
{
    lemma_agrees(trace, i);
    reveal_with_fuel(Trace::closer, 6);
    if i + 5 < trace.found.len() {
        assert(!(trace.closer((i + 5) as nat) is Done));
    }
    if i >= 1 {
        lemma_agrees(trace, (i - 1) as nat);
    }
    if i >= 2 {
        lemma_agrees(trace, (i - 2) as nat);
    }
    if i >= 3 {
        lemma_agrees(trace, (i - 3) as nat);
    }
}

/// A close that runs out of time has released nothing, and leaves the handles in place for a
/// later one.
pub proof fn law_timeout_releases_nothing<S, C>(trace: Trace<S, C>, i: nat, j: nat)
    requires
        trace.valid(),
        i < trace.found.len(),
        trace.action(i) is TimedOut,
        j <= i,
    ensures
        !releases(trace.action(j)),
        trace.left(i) == trace.found[i as int],
        trace.found[i as int] is Closing,
        !trace.found[i as int].active().none(),
        trace.now[i as int].nanos >= trace.deadline.nanos,
{
    lemma_agrees(trace, i);
    lemma_releases_to_the_end(trace, j, i);
}

/// Once a close has released something it goes on to the end.
proof fn lemma_releases_to_the_end<S, C>(trace: Trace<S, C>, j: nat, i: nat)
    requires
        trace.valid(),
        j <= i < trace.found.len(),
    ensures
        releases(trace.action(j)) ==> !(trace.action(i) is TimedOut),
        releases(trace.action(j)) && i > j ==> {
            ||| trace.closer(i) is Removed
            ||| trace.closer(i) is Destroyed
            ||| trace.closer(i) is Unmounted
            ||| trace.closer(i) is Released
        },
    decreases i - j,
{
    lemma_agrees(trace, i);
    if i > j {
        lemma_releases_to_the_end(trace, j, (i - 1) as nat);
        lemma_agrees(trace, (i - 1) as nat);
        assert(!(trace.closer(i) is Done));
    }
}

/// However often a channel is closed, its session is told to exit once.
pub proof fn law_session_exits_once<S, C>(
    first: Lifecycle<S, C>,
    later: Lifecycle<S, C>,
    closer: Closer<S, C>,
    now: Instant,
    deadline: Instant,
    timing: ShutdownTiming,
    later_now: Instant,
    later_deadline: Instant,
    later_timing: ShutdownTiming,
)
    requires
        forward(step_of(Closer::Begin, first, now, deadline, timing).lifecycle, later),
        closer.agrees(later),
    ensures
        !(step_of(closer, later, later_now, later_deadline, later_timing).action is ExitSession),
{
}

/// A channel that no call uses is closed in one go, whatever the deadline: the session exits,
/// everything is released in order, and a second close does nothing.
pub proof fn law_idle_channel_closes<S, C>(trace: Trace<S, C>, session: S, channel: C)
    requires
        trace.valid(),
        trace.found.len() == 6,
        trace.found[0] == (Lifecycle::Open {
            session,
            channel,
            active: ActiveCalls { receives: 0, sends: 0 },
        }),
        forall|i: nat| i < 5 ==> #[trigger] trace.left(i) == trace.found[i as int + 1],
    ensures
        trace.action(0) == CloseAction::<S, C>::ExitSession(session),
        trace.action(1) == CloseAction::<S, C>::RemoveChannel(channel),
        trace.action(2) == CloseAction::<S, C>::DestroySession(session),
        trace.action(3) == CloseAction::<S, C>::Unmount(channel),
        trace.action(4) == CloseAction::<S, C>::DestroyChannel(channel),
        trace.action(5) == CloseAction::<S, C>::Finished,
        trace.left(5) is Closed,
        forall|now: Instant| #[trigger]
            step_of(Closer::Begin, trace.left(5), now, trace.deadline, trace.timing).action
                is Finished,
{
    reveal_with_fuel(Trace::closer, 7);
    assert(trace.left(0) == trace.found[1]);
    assert(trace.left(1) == trace.found[2]);
    assert(trace.left(2) == trace.found[3]);
    assert(trace.left(3) == trace.found[4]);
    assert(trace.left(4) == trace.found[5]);
}

/// A wake is never lost for good: right before every wait in which a receive is running, the
/// receive was woken again.
pub proof fn law_waits_follow_wakes<S, C>(trace: Trace<S, C>, i: nat)
    requires
        trace.valid(),
        i < trace.found.len(),
        trace.action(i) is Wait,
        trace.found[i as int].active().receives != 0,
    ensures
        i >= 1,
        trace.found[i as int] matches Lifecycle::Closing { channel, .. } && trace.action(
            (i - 1) as nat,
        ) == CloseAction::<S, C>::Interrupt(channel),
{
    lemma_agrees(trace, i);
    lemma_agrees(trace, (i - 1) as nat);
    assert(forward(trace.left((i - 1) as nat), trace.found[i - 1 + 1]));
}

/// A wait is never empty, never longer than the interval between wakes, and never reaches past
/// the deadline.
pub proof fn law_waits_are_bounded<S, C>(
    closer: Closer<S, C>,
    lifecycle: Lifecycle<S, C>,
    now: Instant,
    deadline: Instant,
    timing: ShutdownTiming,
)
    requires
        timing.wake_interval.nanos > 0,
    ensures
        step_of(closer, lifecycle, now, deadline, timing).action matches CloseAction::Wait(span)
            ==> {
            &&& 0 < span.nanos <= timing.wake_interval.nanos
            &&& now.nanos + span.nanos <= deadline.nanos
            &&& span.nanos == timing.wake_interval.nanos || now.nanos + span.nanos
                == deadline.nanos
        },
{
}

/// Calls are counted one by one, receives and sends apart, and nothing else of the channel
/// changes with them.
pub proof fn law_calls_are_counted<S, C>(
    before: Lifecycle<S, C>,
    after: Lifecycle<S, C>,
    kind: CallKind,
)
    ensures
        call_began(before, after, kind) ==> {
            &&& before matches Lifecycle::Open { session: s, channel: c, active: b }
                && after matches Lifecycle::Open { session, channel, active } && s == session && c
                == channel && counted(b, active, kind, 1)
        },
        call_finished(before, after, kind) ==> match (before, after) {
            (
                Lifecycle::Open { session: s, channel: c, active: b },
                Lifecycle::Open { session, channel, active },
            ) => s == session && c == channel && counted(b, active, kind, -1),
            (
                Lifecycle::Closing { session: s, channel: c, active: b },
                Lifecycle::Closing { session, channel, active },
            ) => s == session && c == channel && counted(b, active, kind, -1),
            _ => false,
        },
{
}

/// The number of calls of one kind changed by `change`, and that of the other kind did not.
pub open spec fn counted(
    before: ActiveCalls,
    after: ActiveCalls,
    kind: CallKind,
    change: int,
) -> bool {
    match kind {
        CallKind::Receive => after.receives == before.receives + change && after.sends
            == before.sends,
        CallKind::Send => after.sends == before.sends + change && after.receives
            == before.receives,
    }
}

/// A channel is drained exactly if a close has begun and neither a receive nor a send runs.
pub proof fn law_drained_channels_are_idle<S, C>(lifecycle: Lifecycle<S, C>)
    ensures
        lifecycle.drained() <==> (lifecycle matches Lifecycle::Closing { active, .. }
            && active.receives == 0 && active.sends == 0),
{
}

/// A close that begins stops the admission of calls and keeps everything else: the handles and
/// the calls that run. It tells the session to exit exactly if it is the first.
pub proof fn law_first_step_stops_admission<S, C>(trace: Trace<S, C>)
    requires
        trace.valid(),
        trace.found.len() > 0,
    ensures
        trace.action(0) is ExitSession <==> trace.found[0] is Open,
        trace.found[0] matches Lifecycle::Open { session, channel, active } ==> {
            &&& trace.action(0) == CloseAction::<S, C>::ExitSession(session)
            &&& trace.left(0) == (Lifecycle::Closing { session, channel, active })
        },
        !(trace.found[0] is Open) ==> trace.left(0) == trace.found[0],
        trace.found[0] is Closed ==> trace.action(0) is Finished,
{
}

/// A close that still finds calls running at its deadline or later gives up at that step.
pub proof fn law_close_gives_up_at_the_deadline<S, C>(trace: Trace<S, C>, i: nat)
    requires
        trace.valid(),
        1 <= i < trace.found.len(),
        trace.found[i as int] is Closing,
        trace.found[i as int].active().receives > 0 || trace.found[i as int].active().sends > 0,
        trace.now[i as int].nanos >= trace.deadline.nanos,
    ensures
        trace.action(i) is TimedOut,
{
    lemma_agrees(trace, i);
    lemma_begun(trace, i);
}

/// Before its deadline a close does not give up, and waits only while calls run.
pub proof fn law_close_waits_for_running_calls<S, C>(trace: Trace<S, C>, i: nat)
    requires
        trace.valid(),
        i < trace.found.len(),
    ensures
        trace.now[i as int].nanos < trace.deadline.nanos ==> !(trace.action(i) is TimedOut),
        trace.action(i) is Wait || trace.action(i) is TimedOut || trace.action(i) is Interrupt ==> (
        trace.found[i as int] matches Lifecycle::Closing { active, .. } && (active.receives > 0
            || active.sends > 0)),
        trace.action(i) matches CloseAction::Interrupt(woken) ==> (
        trace.found[i as int] matches Lifecycle::Closing { channel, active, .. } && woken == channel
            && active.receives > 0),
{
    lemma_agrees(trace, i);
}

/// A close that has begun is no longer at its beginning.
proof fn lemma_begun<S, C>(trace: Trace<S, C>, i: nat)
    requires
        trace.valid(),
        1 <= i < trace.found.len(),
    ensures
        !(trace.closer(i) is Begin),
    decreases i,
{
    let last = (i - 1) as nat;
    if last > 0 {
        lemma_begun(trace, last);
    }
}

/// A channel that is found drained is released, whatever the time is: at this step, or at the
/// next one, unless its release has begun already.
pub proof fn law_drained_channel_is_released<S, C>(trace: Trace<S, C>, i: nat)
    requires
        trace.valid(),
        1 <= i,
        i + 1 < trace.found.len(),
        trace.found[i as int].drained(),
        trace.found[i as int + 1].drained(),
        forall|j: nat| j < i ==> !(#[trigger] trace.action(j) is RemoveChannel),
    ensures
        trace.action(i) is RemoveChannel || trace.action((i + 1) as nat) is RemoveChannel,
{
    lemma_agrees(trace, i);
    lemma_begun(trace, i);
    lemma_nothing_removed(trace, i);
}

proof fn lemma_nothing_removed<S, C>(trace: Trace<S, C>, i: nat)
    requires
        trace.valid(),
        i < trace.found.len(),
        forall|j: nat| j < i ==> !(#[trigger] trace.action(j) is RemoveChannel),
    ensures
        trace.closer(i) is Begin || trace.closer(i) is Drain || trace.closer(i) is Wait,
    decreases i,
{
    if i > 0 {
        let last = (i - 1) as nat;
        lemma_nothing_removed(trace, last);
        assert(!(trace.action(last) is RemoveChannel));
        assert(!(trace.closer(i) is Done));
    }
}

/// A close that finishes leaves the channel closed. It was found closed, or everything that the
/// provider held was released in the four steps before.
pub proof fn law_finished_close_has_released<S, C>(trace: Trace<S, C>, i: nat)
    requires
        trace.valid(),
        i < trace.found.len(),
        trace.action(i) is Finished,
    ensures
        trace.left(i) is Closed,
        trace.found[i as int] is Closed || (i >= 4 && trace.action((i - 4) as nat) is RemoveChannel
            && trace.action((i - 3) as nat) is DestroySession && trace.action(
            (i - 2) as nat,
        ) is Unmount && trace.action((i - 1) as nat) is DestroyChannel),
{
    lemma_agrees(trace, i);
    assert(!(trace.closer(i) is Done));
    reveal_with_fuel(Trace::closer, 6);
    if trace.closer(i) is Released {
        assert(i >= 1);
        lemma_agrees(trace, (i - 1) as nat);
        assert(trace.closer((i - 1) as nat) is Unmounted);
        lemma_agrees(trace, (i - 2) as nat);
        assert(trace.closer((i - 2) as nat) is Destroyed);
        lemma_agrees(trace, (i - 3) as nat);
        assert(trace.closer((i - 3) as nat) is Removed);
        lemma_agrees(trace, (i - 4) as nat);
    }
}

/// A message of no bytes tells that the device is gone, and every other result is passed on.
pub proof fn law_empty_messages_end_receives(result: Result<usize, Errno>)
    ensures
        result matches Ok(size) ==> (size == 0 ==> passed_on(result) == Err::<usize, Errno>(
            Errno::ENODEV,
        )) && (size > 0 ==> passed_on(result) == Ok::<usize, Errno>(size)),
        result matches Err(errno) ==> passed_on(result) == Err::<usize, Errno>(errno),
{
}

/// A status that is not negative is the size of a message, which has to come from the channel
/// that was asked and to fit in the buffer; a negative one is an error, by its code on macOS.
pub proof fn law_receive_statuses(
    status: i32,
    same_channel: bool,
    capacity: usize,
    result: Result<usize, Errno>,
)
    requires
        says_received(status, same_channel, capacity, result),
    ensures
        result is Ok <==> 0 <= status <= capacity && same_channel,
        result matches Ok(size) ==> size == status,
        status >= 0 && result is Err ==> result == Err::<usize, Errno>(Errno::EIO),
        status == -1 ==> result == Err::<usize, Errno>(Errno::EPERM),
        status == -2 ==> result == Err::<usize, Errno>(Errno::ENOENT),
        status == -4 ==> result == Err::<usize, Errno>(Errno::EINTR),
        status == -19 ==> result == Err::<usize, Errno>(Errno::ENODEV),
        status == -35 ==> result == Err::<usize, Errno>(Errno::EAGAIN),
        -34 <= status < 0 ==> (result matches Err(errno) && errno.code(Os::Macos) == -status),
        status < -34 && status != -35 ==> (result matches Err(errno) && (errno is Other
            || status == i32::MIN)),
{
}

/// A send succeeds exactly with status 0. A negative status is the system's error with that code,
/// and every other one is an error of no particular category.
pub proof fn law_send_statuses(status: i32)
    ensures
        send_outcome(status) is Ok <==> status == 0,
        i32::MIN < status < 0 ==> (send_outcome(status) matches Err(ErrorView::Os(code)) && code
            == -status),
        status > 0 || status == i32::MIN ==> (send_outcome(status) matches Err(
            ErrorView::Custom { kind, .. },
        ) && kind == ErrorKind::Other),
{
}

/// An open channel admits every call that it can still count, and hands the call its channel. A
/// call that is refused changes nothing; where a close has begun, the error says that there is no
/// connection, and to a receive that the device is gone.
pub proof fn law_open_channels_admit_calls<S: Copy, C: Copy>(kind: CallKind)
    ensures
        forall|lifecycle: &mut Lifecycle<S, C>, r: Result<C, Error>| #[trigger]
            call_ensures(Lifecycle::<S, C>::begin_call, (lifecycle, kind), r) ==> {
                &&& *lifecycle matches Lifecycle::Open { channel, active, .. } ==> if running(
                    active,
                    kind,
                ) < usize::MAX {
                    r == Ok::<C, Error>(channel) && *final(lifecycle) is Open && counted(
                        active,
                        final(lifecycle).active(),
                        kind,
                        1,
                    )
                } else {
                    r is Err
                }
                &&& !(*lifecycle is Open) ==> (r matches Err(Error::Custom { kind: category, .. })
                    && category == ErrorKind::NotConnected)
                &&& r is Err ==> *final(lifecycle) == *lifecycle
            },
        forall|lifecycle: &mut Lifecycle<S, C>, r: Result<C, Errno>| #[trigger]
            call_ensures(Lifecycle::<S, C>::begin_receive, (lifecycle,), r) ==> {
                &&& *lifecycle matches Lifecycle::Open { channel, active, .. } ==> (active.receives
                    < usize::MAX ==> r == Ok::<C, Errno>(channel) && counted(
                    active,
                    final(lifecycle).active(),
                    CallKind::Receive,
                    1,
                ))
                &&& !(*lifecycle is Open) ==> r is Err
                &&& r matches Err(errno) ==> errno is ENODEV && *final(lifecycle) == *lifecycle
            },
{
}

/// The calls of a kind that are running.
pub open spec fn running(active: ActiveCalls, kind: CallKind) -> usize {
    match kind {
        CallKind::Receive => active.receives,
        CallKind::Send => active.sends,
    }
}

/// A call that finishes is counted no more, and the channel is otherwise as before.
pub proof fn law_finished_calls_are_counted_off<S: Copy, C: Copy>(kind: CallKind)
    ensures
        forall|lifecycle: &mut Lifecycle<S, C>| #[trigger]
            call_ensures(Lifecycle::<S, C>::finish_call, (lifecycle, kind), ()) && running(
                lifecycle.active(),
                kind,
            ) > 0 ==> {
                &&& counted(lifecycle.active(), final(lifecycle).active(), kind, -1)
                &&& *lifecycle is Open <==> *final(lifecycle) is Open
                &&& *lifecycle is Closing <==> *final(lifecycle) is Closing
                &&& forward(*lifecycle, *final(lifecycle))
            },
{
}

/// A close that begins stops the admission of calls and leaves the running ones alone. It is told
/// that it was the first exactly once, and finds the handles until the channel is closed.
pub proof fn law_close_begins_once<S: Copy, C: Copy>(session: S, channel: C, active: ActiveCalls)
    ensures
        forall|lifecycle: &mut Lifecycle<S, C>, r: Option<(S, C, bool)>| #[trigger]
            call_ensures(Lifecycle::<S, C>::begin_close, (lifecycle,), r) ==> {
                &&& *lifecycle == (Lifecycle::Open { session, channel, active }) ==> r == Some(
                    (session, channel, true),
                ) && *final(lifecycle) == (Lifecycle::Closing { session, channel, active })
                &&& *lifecycle == (Lifecycle::Closing { session, channel, active }) ==> r == Some(
                    (session, channel, false),
                ) && *final(lifecycle) == *lifecycle
                &&& *lifecycle is Closed ==> r is None && *final(lifecycle) is Closed
            },
        forall|lifecycle: &mut Lifecycle<S, C>| #[trigger]
            call_ensures(Lifecycle::<S, C>::mark_closed, (lifecycle,), ()) ==> {
                &&& *final(lifecycle) is Closed
            },
        forall|lifecycle: Lifecycle<S, C>|
            #[trigger] call_ensures(Lifecycle::<S, C>::new, (session, channel), lifecycle)
                ==> lifecycle == (Lifecycle::Open {
                session,
                channel,
                active: ActiveCalls { receives: 0, sends: 0 },
            }),
{
}

/// An I/O error that has no code says that the device is gone, and one with a code keeps it if
/// the system knows it.
pub proof fn law_errors_as_error_numbers(error: Error, errno: Errno, late: Error)
    requires
        call_ensures(io_error_to_errno, (error,), errno),
        call_ensures(drain_timeout_error, (), late),
    ensures
        error is Custom ==> errno is ENODEV,
        error matches Error::Os(code) ==> (1 <= code <= 34 ==> errno.code(Os::Macos) == code),
        error matches Error::Os(code) ==> errno.code(Os::Macos) == code || errno == Errno::Other(0),
        late matches Error::Custom { kind, .. } && kind == ErrorKind::TimedOut,
{
}

/// A close wakes forty times in a second unless it is told otherwise.
pub proof fn law_default_timing(timing: ShutdownTiming, second: Duration)
    requires
        call_ensures(ShutdownTiming::default, (), timing),
        call_ensures(Duration::from_secs, (1,), second),
    ensures
        40 * timing.wake_interval.nanos == second.nanos,
{
}

/// The error of a send with an unexpected status names the status.
pub proof fn law_unexpected_statuses_are_named(a: i32, b: i32)
    requires
        a > 0,
        b > 0,
        send_outcome(a) == send_outcome(b),
    ensures
        a == b,
{
    law_numbers_tell_texts_apart(
        "fuse_chan_send returned unexpected status "@,
        a as nat,
        b as nat,
    );
}

} // verus!
