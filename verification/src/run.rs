//! The session loop: the threads that run it, and what each of them does.

use vstd::prelude::*;
use vstd::string::*;

use crate::acl::SessionACL;
use crate::errno::Errno;
use crate::error::{custom, outcome, Error, ErrorKind, ErrorView};
use crate::mount_options::{AclRequestIdentity, Config, ConfigView};
use crate::session::{FilesystemHolder, Session, UmountOnDrop};
use crate::target::Os;
use crate::text::{decimal, decimal_text, joined, law_decimal_writes_the_number, number_of};

verus! {

/// Where the channel of an event loop thread comes from.
#[derive(Clone, Copy, Debug, PartialEq, Eq, Structural)]
pub enum ChannelSource {
    /// A clone of the session's device.
    CloneFd,
    /// The session's channel, shared.
    Share,
    /// The session's channel itself.
    Own,
}

/// How a session loop is run.
#[derive(Clone, Copy, Debug, PartialEq, Eq, Structural)]
pub struct RunPlan {
    /// Number of event loop threads, at least one.
    pub n_threads: usize,
    /// Whether each thread but the last gets a clone of the device.
    pub clone_fd: bool,
}

/// How a session loop is run on a system, by its configuration.
pub open spec fn plan_of(config: ConfigView, os: Os) -> Result<RunPlan, ErrorView> {
    let n_threads = match config.n_threads {
        Some(n) => n,
        None => 1,
    };
    if !(os is Linux) && n_threads != 1 {
        Err(custom(ErrorKind::Other, "n_threads != 1 is only supported on Linux"@))
    } else if n_threads == 0 {
        Err(custom(ErrorKind::Other, "n_threads"@))
    } else {
        Ok(RunPlan { n_threads, clone_fd: config.clone_fd })
    }
}

/// Decides how a session loop is run.
pub fn plan_run(config: &Config, os: Os) -> (r: Result<RunPlan, Error>)
    ensures
        outcome(r) == plan_of(config@, os),
{
    let n_threads: usize = config.n_threads.unwrap_or(1);
    if os != Os::Linux && n_threads != 1 {
        return Err(Error::other("n_threads != 1 is only supported on Linux"));
    }
    if n_threads == 0 {
        return Err(Error::other("n_threads"));
    }
    Ok(RunPlan { n_threads, clone_fd: config.clone_fd })
}

impl RunPlan {
    /// Where the channel of thread `i` comes from.
    pub open spec fn source_of(self, i: usize) -> ChannelSource {
        if i + 1 == self.n_threads {
            ChannelSource::Own
        } else if self.clone_fd {
            ChannelSource::CloneFd
        } else {
            ChannelSource::Share
        }
    }

    /// Where the channel of thread `i` comes from: the last thread takes the session's own.
    pub fn channel_source(&self, i: usize) -> (r: ChannelSource)
        requires
            i < self.n_threads,
        ensures
            r == self.source_of(i),
    {
        if i == self.n_threads - 1 {
            ChannelSource::Own
        } else if self.clone_fd {
            ChannelSource::CloneFd
        } else {
            ChannelSource::Share
        }
    }
}

/// A session loop about to run, with what its threads share. The mount is held until the loop has
/// ended.
#[derive(Debug)]
pub struct SessionRun<FS, C, M> {
    pub plan: RunPlan,
    pub filesystem: FilesystemHolder<FS>,
    pub ch: C,
    pub mount: UmountOnDrop<M>,
    pub allowed: SessionACL,
    pub session_owner: u32,
    pub acl_request_identity: AclRequestIdentity,
}

impl<FS, C, M> SessionRun<FS, C, M> {
    /// The loop serves what the session held.
    pub open spec fn serves(self, session: Session<FS, C, M>, plan: RunPlan) -> bool {
        &&& self.plan == plan
        &&& self.filesystem == session.filesystem
        &&& self.ch == session.ch
        &&& self.mount == session.mount
        &&& self.allowed == session.allowed
        &&& self.session_owner == session.session_owner
        &&& self.acl_request_identity == session.acl_request_identity
    }
}

impl<FS, C, M> Session<FS, C, M> {
    /// Begins the session loop that receives kernel requests and dispatches them to method
    /// calls into the filesystem.
    /// # Errors
    /// Returns an error if the configured number of threads cannot be run.
    pub fn run(self, os: Os) -> (r: Result<SessionRun<FS, C, M>, Error>)
        ensures
            match plan_of(self.config@, os) {
                Err(error) => outcome(r) == Err::<SessionRun<FS, C, M>, ErrorView>(error),
                Ok(plan) => r matches Ok(run) && run.serves(self, plan),
            },
    {
        let plan = match plan_run(&self.config, os) {
            Ok(plan) => plan,
            Err(error) => return Err(error),
        };
        Ok(
            SessionRun {
                plan,
                filesystem: self.filesystem,
                ch: self.ch,
                mount: self.mount,
                allowed: self.allowed,
                session_owner: self.session_owner,
                acl_request_identity: self.acl_request_identity,
            },
        )
    }
}

/// The name of event loop thread `i`.
pub fn thread_name(i: usize) -> (r: String)
    ensures
        r@ == "fuser-"@ + decimal(i as nat),
{
    let number = decimal_text(i as u64);
    joined("fuser-", number.as_str())
}

/// A system that is not Linux runs one thread with the session's own channel, so that it never
/// has to clone a device; and every plan has a thread.
pub proof fn law_only_linux_clones(config: ConfigView, os: Os)
    ensures
        plan_of(config, os) matches Ok(plan) ==> plan.n_threads >= 1 && (!(os is Linux)
            ==> plan.n_threads == 1),
        plan_of(config, os) is Ok <==> (match config.n_threads {
            None => true,
            Some(n) => n == 1 || (n > 1 && os is Linux),
        }),
{
}

/// How an event loop thread ended.
#[derive(Debug)]
pub enum ThreadExit {
    /// It returned.
    Returned(Result<(), Error>),
    /// It unwound.
    Panicked,
}

/// What a session loop will return, as far as its threads have ended.
#[derive(Debug)]
pub struct RunReply {
    pub reply: Result<(), Error>,
}

/// The end of a session loop.
#[derive(Debug)]
pub enum RunEnd {
    /// Return this error, and leave the filesystem as it is.
    Fail(Error),
    /// Destroy the filesystem, and return this.
    DestroyAndReturn(Result<(), Error>),
}

impl RunReply {
    /// How the session loop ends once all threads were joined.
    pub open spec fn ends(self, sole_owner: bool, end: RunEnd) -> bool {
        if sole_owner {
            end == RunEnd::DestroyAndReturn(self.reply)
        } else {
            end matches RunEnd::Fail(error) && error@ == custom(
                ErrorKind::Other,
                "BUG: must have one refcount for filesystem"@,
            )
        }
    }

    /// No thread has ended.
    pub fn new() -> (r: RunReply)
        ensures
            r.reply is Ok,
    {
        RunReply { reply: Ok(()) }
    }

    /// Takes note of the end of a thread; the threads are joined one after the other. A thread
    /// that unwound ends the session loop at once, with this error.
    pub fn joined(&mut self, exit: ThreadExit) -> (r: Option<Error>)
        ensures
            match exit {
                ThreadExit::Panicked => {
                    &&& r matches Some(error) && error@ == custom(
                        ErrorKind::Other,
                        "event loop thread panicked"@,
                    )
                    &&& *final(self) == *old(self)
                },
                ThreadExit::Returned(result) => {
                    &&& r is None
                    &&& final(self).reply == first_error(old(self).reply, result)
                },
            },
    {
        match exit {
            ThreadExit::Panicked => Some(Error::other("event loop thread panicked")),
            ThreadExit::Returned(result) => {
                if self.reply.is_ok() {
                    self.reply = result;
                }
                None
            },
        }
    }

    /// Ends the session loop once all threads were joined. By then no one else may use the
    /// filesystem.
    pub fn finish(self, sole_owner: bool) -> (r: RunEnd)
        ensures
            self.ends(sole_owner, r),
    {
        if !sole_owner {
            return RunEnd::Fail(Error::other("BUG: must have one refcount for filesystem"));
        }
        RunEnd::DestroyAndReturn(self.reply)
    }
}

/// The first of two results that is an error; else success.
pub open spec fn first_error(earlier: Result<(), Error>, later: Result<(), Error>) -> Result<
    (),
    Error,
> {
    if earlier is Err {
        earlier
    } else {
        later
    }
}

/// What a session loop will return once the first `n` threads have returned these results.
pub open spec fn reply_after(results: Seq<Result<(), Error>>, n: nat) -> Result<(), Error>
    decreases n,
{
    if n == 0 || n > results.len() {
        Ok(())
    } else {
        first_error(reply_after(results, (n - 1) as nat), results[n - 1])
    }
}

/// A session loop returns the first error that one of its threads returned, in the order of the
/// threads, and success if none did.
pub proof fn law_first_error_is_returned(results: Seq<Result<(), Error>>, n: nat)
    requires
        n <= results.len(),
    ensures
        reply_after(results, n) is Ok <==> forall|i: int|
            0 <= i < n ==> #[trigger] results[i] is Ok,
        reply_after(results, n) is Err ==> exists|i: int|
            0 <= i < n && #[trigger] results[i] == reply_after(results, n) && forall|k: int|
                0 <= k < i ==> #[trigger] results[k] is Ok,
    decreases n,
{
    if n > 0 {
        law_first_error_is_returned(results, (n - 1) as nat);
        let before = reply_after(results, (n - 1) as nat);
        if before is Ok && results[n - 1] is Err {
            assert(results[n - 1] == reply_after(results, n));
        }
    }
}

/// What an event loop has learned.
#[derive(Clone, Copy, Debug, PartialEq, Eq, Structural)]
pub enum LoopEvent {
    /// No request could be received.
    ReceiveFailed(Errno),
    /// What was received is no request.
    Invalid,
    /// The kernel asks to end the session.
    Destroy,
    /// Any other request.
    Request,
}

/// What an event loop does next.
#[derive(Debug)]
pub enum LoopAction {
    /// Dispatch the request to the filesystem, and receive the next one.
    Dispatch,
    /// Reply that the request was served, and return success.
    ReplyAndReturn,
    /// Return this.
    Return(Result<(), Error>),
}

/// What an event loop does next.
pub open spec fn is_loop_step(event: LoopEvent, os: Os, action: LoopAction) -> bool {
    match event {
        LoopEvent::ReceiveFailed(errno) => action matches LoopAction::Return(result) && outcome(
            result,
        ) == (if errno == Errno::ENODEV {
            Ok::<(), ErrorView>(())
        } else {
            Err(ErrorView::Os(errno.code(os)))
        }),
        LoopEvent::Invalid => action matches LoopAction::Return(result) && outcome(result) == Err::<
            (),
            ErrorView,
        >(custom(ErrorKind::InvalidData, "Invalid request"@)),
        LoopEvent::Destroy => action is ReplyAndReturn,
        LoopEvent::Request => action is Dispatch,
    }
}

/// What an event loop does next. It ends without an error when the device is gone or the kernel
/// asks for the end.
pub fn event_loop(event: LoopEvent, os: Os) -> (r: LoopAction)
    ensures
        is_loop_step(event, os, r),
{
    match event {
        LoopEvent::ReceiveFailed(Errno::ENODEV) => LoopAction::Return(Ok(())),
        LoopEvent::ReceiveFailed(errno) => LoopAction::Return(Err(errno.into_error(os))),
        LoopEvent::Invalid => LoopAction::Return(
            Err(Error::new(ErrorKind::InvalidData, "Invalid request")),
        ),
        LoopEvent::Destroy => LoopAction::ReplyAndReturn,
        LoopEvent::Request => LoopAction::Dispatch,
    }
}

/// A plan has exactly the threads that were configured, and one where the number is not
/// configured, and it clones the device exactly where that was configured. More threads than one
/// are refused off Linux, and none everywhere.
pub proof fn law_plan_has_the_configured_threads(config: ConfigView, os: Os)
    ensures
        plan_of(config, os) matches Ok(plan) ==> {
            &&& config.n_threads matches Some(n) ==> plan.n_threads == n
            &&& config.n_threads is None ==> plan.n_threads == 1
            &&& plan.clone_fd == config.clone_fd
        },
        config.n_threads is None ==> plan_of(config, os) is Ok,
        config.n_threads matches Some(n) ==> (plan_of(config, os) is Err <==> n == 0 || (n > 1
            && !(os is Linux))),
        plan_of(config, os) matches Err(error) ==> (error matches ErrorView::Custom { kind, .. }
            && kind == ErrorKind::Other),
{
}

/// Of the threads of a plan the last one alone takes the session's own channel. All others get a
/// clone of the device, if that was asked for, and else share the channel.
pub proof fn law_last_thread_owns_the_channel(plan: RunPlan, i: usize)
    requires
        i < plan.n_threads,
    ensures
        plan.source_of(i) is Own <==> i == plan.n_threads - 1,
        plan.source_of(i) is CloneFd <==> plan.clone_fd && i < plan.n_threads - 1,
        plan.source_of(i) is Share <==> !plan.clone_fd && i < plan.n_threads - 1,
{
}

/// An event loop goes on for every request but the one that ends the session, which it answers.
/// It returns success where the device is gone, every other error of the device as that error,
/// and an error where what it received is no request.
pub proof fn law_event_loop_serves_until_the_end(event: LoopEvent, os: Os, action: LoopAction)
    requires
        is_loop_step(event, os, action),
    ensures
        action is Dispatch <==> event is Request,
        action is ReplyAndReturn <==> event is Destroy,
        (action matches LoopAction::Return(result) && result is Ok) <==> event
            == LoopEvent::ReceiveFailed(Errno::ENODEV),
        event matches LoopEvent::ReceiveFailed(errno) ==> (errno != Errno::ENODEV ==> (
        action matches LoopAction::Return(Err(error)) && error@ == ErrorView::Os(errno.code(os)))),
        event is Invalid ==> (action matches LoopAction::Return(Err(error)) && (
        error@ matches ErrorView::Custom { kind, .. } && kind == ErrorKind::InvalidData)),
{
}

/// A session loop destroys the filesystem exactly where no one else uses it, and then returns
/// what its threads returned; else it fails.
pub proof fn law_end_destroys_a_filesystem_of_its_own(
    reply: RunReply,
    sole_owner: bool,
    end: RunEnd,
)
    requires
        reply.ends(sole_owner, end),
    ensures
        end is DestroyAndReturn <==> sole_owner,
        end matches RunEnd::DestroyAndReturn(result) ==> result == reply.reply,
        !sole_owner ==> end is Fail,
{
}

/// A session loop takes over everything that its session held, as it was.
pub proof fn law_loop_serves_its_session<FS, C, M>(
    run: SessionRun<FS, C, M>,
    session: Session<FS, C, M>,
    plan: RunPlan,
)
    requires
        run.serves(session, plan),
    ensures
        run.plan == plan,
        run.filesystem.fs == session.filesystem.fs,
        run.ch == session.ch,
        run.mount.mount == session.mount.mount,
        run.allowed == session.allowed,
        run.session_owner == session.session_owner,
        run.acl_request_identity == session.acl_request_identity,
{
}

/// The threads of a session loop are told apart by their names.
pub proof fn law_threads_have_names_of_their_own(i: usize, j: usize, a: String, b: String)
    requires
        call_ensures(thread_name, (i,), a),
        call_ensures(thread_name, (j,), b),
    ensures
        a@ == b@ ==> i == j,
        forall|k: int| 0 <= k < 6 ==> #[trigger] a@[k] == "fuser-"@[k],
        number_of(a@.subrange(6, a@.len() as int)) == Some(i as nat),
{
    reveal_strlit("fuser-");
    law_decimal_writes_the_number(i as nat);
    law_decimal_writes_the_number(j as nat);
    assert(a@.subrange(6, a@.len() as int) =~= decimal(i as nat));
    assert(b@.subrange(6, b@.len() as int) =~= decimal(j as nat));
}

/// A thread that returned never ends the loop, and the loop keeps the first error that it was
/// given; a thread that unwound ends the loop with an error, and the loop keeps what it has.
pub proof fn law_loop_keeps_the_first_error(exit: ThreadExit, fresh: RunReply)
    requires
        call_ensures(RunReply::new, (), fresh),
    ensures
        fresh.reply is Ok,
        forall|reply: &mut RunReply, r: Option<Error>| #[trigger]
            call_ensures(RunReply::joined, (reply, exit), r) ==> {
                &&& r is Some <==> exit is Panicked
                &&& reply.reply is Err || exit is Panicked ==> final(reply).reply == reply.reply
                &&& exit matches ThreadExit::Returned(result) ==> (reply.reply is Ok
                    ==> final(reply).reply == result)
            },
{
}

/// The default configuration asks for nothing: it has no options, serves the owner alone, and is
/// run by one thread on every system.
pub proof fn law_default_configuration_runs_everywhere(config: Config, os: Os)
    requires
        call_ensures(Config::default, (), config),
    ensures
        config@.mount_options.len() == 0,
        config.acl is Owner,
        plan_of(config@, os) == Ok::<RunPlan, ErrorView>(RunPlan { n_threads: 1, clone_fd: false }),
{
}

/// A session runs exactly where its threads can be run, and the loop takes its filesystem, its
/// channel, its mount and its users over.
pub proof fn law_session_runs_with_its_threads<FS, C, M>(
    session: Session<FS, C, M>,
    os: Os,
    r: Result<SessionRun<FS, C, M>, Error>,
)
    requires
        call_ensures(Session::<FS, C, M>::run, (session, os), r),
    ensures
        r is Ok <==> match session.config.n_threads {
            None => true,
            Some(n) => n == 1 || (n > 1 && os is Linux),
        },
        r matches Ok(run) ==> {
            &&& run.plan.n_threads == session.config.n_threads.unwrap_or(1)
            &&& run.plan.clone_fd == session.config.clone_fd
            &&& run.filesystem == session.filesystem
            &&& run.ch == session.ch
            &&& run.mount == session.mount
            &&& run.allowed == session.allowed
            &&& run.session_owner == session.session_owner
            &&& run.acl_request_identity == session.acl_request_identity
        },
{
}

} // verus!
