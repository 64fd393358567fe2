//! The exchange with the kernel by which a session begins.

use vstd::prelude::*;
use vstd::string::*;

use crate::errno::Errno;
use crate::error::{custom, outcome, Error, ErrorKind, ErrorView};
use crate::session::Session;
use crate::target::Os;
use crate::text::{decimal, decimal_text, joined, law_decimal_writes_the_number};

verus! {

/// A version of the FUSE ABI: major and minor.
#[derive(Clone, Copy, Debug, PartialEq, Eq, Structural)]
pub struct Version(pub u32, pub u32);

impl Version {
    /// Whether this version comes before another.
    pub open spec fn precedes(self, other: Version) -> bool {
        self.0 < other.0 || (self.0 == other.0 && self.1 < other.1)
    }

    /// Whether this version comes before another.
    pub fn is_before(self, other: Version) -> (r: bool)
        ensures
            r == self.precedes(other),
    {
        self.0 < other.0 || (self.0 == other.0 && self.1 < other.1)
    }

    /// The version as text.
    pub open spec fn text(self) -> Seq<char> {
        decimal(self.0 as nat) + "."@ + decimal(self.1 as nat)
    }

    /// The version as text.
    pub fn to_text(self) -> (r: String)
        ensures
            r@ == self.text(),
    {
        let major = decimal_text(self.0 as u64);
        let start = joined(major.as_str(), ".");
        let minor = decimal_text(self.1 as u64);
        joined(start.as_str(), minor.as_str())
    }
}

/// Whether a session can talk a version with the kernel: not one before 7.6, and none with a
/// newer major version than it supports.
pub open spec fn accepted(version: Version, supported_major: u32) -> bool {
    version.0 <= supported_major && !version.precedes(Version(7, 6))
}

/// What the handshake has learned.
#[derive(Debug)]
pub enum HandshakeEvent {
    /// No request could be received.
    ReceiveFailed(Errno),
    /// What was received is no request, as the text says.
    ParseFailed(String),
    /// The request's operation could not be read.
    OperationFailed,
    /// The request is not the first one that a kernel sends.
    OtherOperation { unique: u64 },
    /// The kernel asks to begin, with the version that it has.
    Init { unique: u64, version: Version },
    /// The filesystem was told to begin.
    FilesystemReady { unique: u64, version: Version, result: Result<(), Error> },
}

/// The error number of a reply.
#[derive(Clone, Copy, Debug, PartialEq, Eq, Structural)]
pub enum ReplyErrno {
    EIO,
    EPROTO,
    /// By its code, or 0 where the error has none.
    Code(i32),
}

/// A reply of the handshake.
#[derive(Clone, Copy, Debug, PartialEq, Eq, Structural)]
pub enum HandshakeReply {
    /// The version that the session supports, and nothing else.
    VersionOnly,
    /// An error.
    Errno(ReplyErrno),
    /// The version and the settings.
    Init,
}

/// How the handshake goes on.
#[derive(Debug)]
pub enum HandshakeNext {
    /// Receive the next request.
    Receive,
    /// Tell the filesystem to begin.
    InitFilesystem { unique: u64, version: Version },
    /// Return this.
    Return(Result<(), Error>),
}

/// One step of the handshake: a reply to a request, if one is due, and how it goes on.
#[derive(Debug)]
pub struct HandshakeStep {
    pub reply: Option<(u64, HandshakeReply)>,
    pub next: HandshakeNext,
}

impl HandshakeStep {
    /// The step ends the handshake with this result, after this reply.
    pub open spec fn ends(
        self,
        reply: Option<(u64, HandshakeReply)>,
        result: Result<(), ErrorView>,
    ) -> bool {
        &&& self.reply == reply
        &&& self.next matches HandshakeNext::Return(returned) && outcome(returned) == result
    }
}

/// The step of a handshake, by whether the session has its filesystem.
pub open spec fn is_step(
    event: HandshakeEvent,
    has_filesystem: bool,
    supported_major: u32,
    os: Os,
    step: HandshakeStep,
) -> bool {
    match event {
        HandshakeEvent::ReceiveFailed(errno) => step.ends(
            None,
            Err(
                if errno == Errno::ENODEV {
                    custom(
                        ErrorKind::NotConnected,
                        "FUSE device disconnected during handshake"@,
                    )
                } else {
                    ErrorView::Os(errno.code(os))
                },
            ),
        ),
        HandshakeEvent::ParseFailed(text) => step.ends(
            None,
            Err(custom(ErrorKind::InvalidData, text@)),
        ),
        HandshakeEvent::OperationFailed => step.ends(
            None,
            Err(custom(ErrorKind::InvalidData, "Failed to parse FUSE operation"@)),
        ),
        HandshakeEvent::OtherOperation { unique } => step.ends(
            Some((unique, HandshakeReply::Errno(ReplyErrno::EIO))),
            Err(
                custom(
                    ErrorKind::InvalidData,
                    "Received non-init FUSE operation during handshake"@,
                ),
            ),
        ),
        HandshakeEvent::Init { unique, version } => if version.0 > supported_major {
            &&& step.reply == Some((unique, HandshakeReply::VersionOnly))
            &&& step.next is Receive
        } else if version.precedes(Version(7, 6)) {
            step.ends(
                Some((unique, HandshakeReply::Errno(ReplyErrno::EPROTO))),
                Err(
                    custom(
                        ErrorKind::Unsupported,
                        "Unsupported FUSE ABI version "@ + version.text(),
                    ),
                ),
            )
        } else if !has_filesystem {
            step.ends(
                None,
                Err(
                    custom(
                        ErrorKind::InvalidInput,
                        "Bug: filesystem must be initialized during handshake"@,
                    ),
                ),
            )
        } else {
            &&& step.reply is None
            &&& step.next == (HandshakeNext::InitFilesystem { unique, version })
        },
        HandshakeEvent::FilesystemReady { unique, version, result } => match result {
            Ok(()) => step.ends(Some((unique, HandshakeReply::Init)), Ok(())),
            Err(error) => {
                &&& step.reply == Some(
                    (
                        unique,
                        HandshakeReply::Errno(
                            ReplyErrno::Code(
                                match error@ {
                                    ErrorView::Os(code) => code,
                                    ErrorView::Custom { .. } => 0,
                                },
                            ),
                        ),
                    ),
                )
                &&& step.next == HandshakeNext::Return(Err(error))
            },
        },
    }
}

/// The version that a session knows after a step of the handshake.
pub open spec fn version_after(event: HandshakeEvent, before: Option<Version>) -> Option<Version> {
    match event {
        HandshakeEvent::FilesystemReady { version, result: Ok(()), .. } => Some(version),
        _ => before,
    }
}

impl<FS, C, M> Session<FS, C, M> {
    /// Goes on with the handshake after an event. A kernel with a newer major version than
    /// `supported_major` is told that version, and may come back with a compatible one.
    pub fn handshake(&mut self, event: HandshakeEvent, supported_major: u32, os: Os) -> (r:
        HandshakeStep)
        ensures
            is_step(event, old(self).filesystem.fs is Some, supported_major, os, r),
            *final(self) == (Session {
                proto_version: version_after(event, old(self).proto_version),
                ..*old(self)
            }),
    {
        match event {
            HandshakeEvent::ReceiveFailed(errno) => {
                let error = match errno {
                    Errno::ENODEV => Error::new(
                        ErrorKind::NotConnected,
                        "FUSE device disconnected during handshake",
                    ),
                    errno => errno.into_error(os),
                };
                HandshakeStep { reply: None, next: HandshakeNext::Return(Err(error)) }
            },
            HandshakeEvent::ParseFailed(text) => {
                let error = Error::new(ErrorKind::InvalidData, text.as_str());
                HandshakeStep { reply: None, next: HandshakeNext::Return(Err(error)) }
            },
            HandshakeEvent::OperationFailed => {
                let error = Error::new(ErrorKind::InvalidData, "Failed to parse FUSE operation");
                HandshakeStep { reply: None, next: HandshakeNext::Return(Err(error)) }
            },
            HandshakeEvent::OtherOperation { unique } => {
                let error = Error::new(
                    ErrorKind::InvalidData,
                    "Received non-init FUSE operation during handshake",
                );
                HandshakeStep {
                    reply: Some((unique, HandshakeReply::Errno(ReplyErrno::EIO))),
                    next: HandshakeNext::Return(Err(error)),
                }
            },
            HandshakeEvent::Init { unique, version } => {
                if version.0 > supported_major {
                    return HandshakeStep {
                        reply: Some((unique, HandshakeReply::VersionOnly)),
                        next: HandshakeNext::Receive,
                    };
                }
                if version.is_before(Version(7, 6)) {
                    let text = version.to_text();
                    let message = joined("Unsupported FUSE ABI version ", text.as_str());
                    let error = Error::new(ErrorKind::Unsupported, message.as_str());
                    return HandshakeStep {
                        reply: Some((unique, HandshakeReply::Errno(ReplyErrno::EPROTO))),
                        next: HandshakeNext::Return(Err(error)),
                    };
                }
                if self.filesystem.fs.is_none() {
                    let error = Error::new(
                        ErrorKind::InvalidInput,
                        "Bug: filesystem must be initialized during handshake",
                    );
                    return HandshakeStep { reply: None, next: HandshakeNext::Return(Err(error)) };
                }
                HandshakeStep {
                    reply: None,
                    next: HandshakeNext::InitFilesystem { unique, version },
                }
            },
            HandshakeEvent::FilesystemReady { unique, version, result } => match result {
                Err(error) => {
                    let code: i32 = match error.raw_os_error() {
                        Some(code) => code,
                        None => 0,
                    };
                    HandshakeStep {
                        reply: Some((unique, HandshakeReply::Errno(ReplyErrno::Code(code)))),
                        next: HandshakeNext::Return(Err(error)),
                    }
                },
                Ok(()) => {
                    // Remember the ABI version supported by kernel and mark the session
                    // initialized.
                    self.proto_version = Some(version);
                    HandshakeStep {
                        reply: Some((unique, HandshakeReply::Init)),
                        next: HandshakeNext::Return(Ok(())),
                    }
                },
            },
        }
    }
}

/// A filesystem is told to begin only for a version that the session accepts.
pub proof fn law_only_accepted_versions_begin(
    event: HandshakeEvent,
    has_filesystem: bool,
    supported_major: u32,
    os: Os,
    step: HandshakeStep,
)
    requires
        is_step(event, has_filesystem, supported_major, os, step),
    ensures
        step.next matches HandshakeNext::InitFilesystem { unique, version } ==> has_filesystem
            && accepted(version, supported_major) && event == (HandshakeEvent::Init {
            unique,
            version,
        }),
{
}

/// Every request that the handshake refuses is answered with an error, and every request that it
/// answers it answers once, by the number that the request came with. A handshake succeeds only
/// with an answer that says so, and a kernel that is only told a version may ask again.
pub proof fn law_refusals_are_answered(
    event: HandshakeEvent,
    has_filesystem: bool,
    supported_major: u32,
    os: Os,
    step: HandshakeStep,
)
    requires
        is_step(event, has_filesystem, supported_major, os, step),
    ensures
        step.reply matches Some((unique, reply)) ==> match event {
            HandshakeEvent::OtherOperation { unique: asked } => asked == unique && reply is Errno,
            HandshakeEvent::Init { unique: asked, .. } => asked == unique && !(reply is Init),
            HandshakeEvent::FilesystemReady { unique: asked, .. } => asked == unique && !(
            reply is VersionOnly),
            _ => false,
        },
        event is OtherOperation ==> step.reply is Some,
        event matches HandshakeEvent::Init { version, .. } && !accepted(version, supported_major)
            ==> step.reply is Some,
        event is FilesystemReady ==> step.reply is Some,
        (step.next matches HandshakeNext::Return(result) && result is Ok) <==> (
        step.reply matches Some((_, reply)) && reply is Init),
        step.next is Receive <==> (step.reply matches Some((_, reply)) && reply is VersionOnly),
{
}

/// The events and steps of one handshake, each step by its event, each event as the step before
/// it asked: a request was received, or the filesystem was told to begin.
pub open spec fn exchange(
    events: Seq<HandshakeEvent>,
    steps: Seq<HandshakeStep>,
    has_filesystem: bool,
    supported_major: u32,
    os: Os,
) -> bool {
    &&& events.len() == steps.len()
    &&& forall|i: int|
        0 <= i < events.len() ==> #[trigger] is_step(
            events[i],
            has_filesystem,
            supported_major,
            os,
            steps[i],
        )
    &&& events.len() > 0 ==> !(events[0] is FilesystemReady)
    &&& forall|i: int|
        0 <= i < events.len() - 1 ==> match (#[trigger] steps[i]).next {
            HandshakeNext::Receive => !(events[i + 1] is FilesystemReady),
            HandshakeNext::InitFilesystem { unique, version } => events[i
                + 1] matches HandshakeEvent::FilesystemReady { unique: u, version: v, .. } && u
                == unique && v == version,
            HandshakeNext::Return(_) => false,
        }
}

/// The version that a session knows after the first `n` events.
pub open spec fn known_version(events: Seq<HandshakeEvent>, n: nat) -> Option<Version>
    decreases n,
{
    if n == 0 || n > events.len() {
        None
    } else {
        version_after(events[n - 1], known_version(events, (n - 1) as nat))
    }
}

/// Whether a step ends its handshake with success.
pub open spec fn returns_success(step: HandshakeStep) -> bool {
    step.next matches HandshakeNext::Return(result) && result is Ok
}

/// A session knows a version exactly when its handshake has succeeded, and then it is one that
/// it accepts.
pub proof fn law_success_fixes_an_accepted_version(
    events: Seq<HandshakeEvent>,
    steps: Seq<HandshakeStep>,
    has_filesystem: bool,
    supported_major: u32,
    os: Os,
)
    requires
        exchange(events, steps, has_filesystem, supported_major, os),
    ensures
        known_version(events, events.len()) matches Some(version) ==> accepted(
            version,
            supported_major,
        ),
        known_version(events, events.len()) is Some <==> (events.len() > 0
            && returns_success(steps.last())),
{
    lemma_known_version(events, steps, has_filesystem, supported_major, os, events.len());
}

proof fn lemma_known_version(
    events: Seq<HandshakeEvent>,
    steps: Seq<HandshakeStep>,
    has_filesystem: bool,
    supported_major: u32,
    os: Os,
    n: nat,
)
    requires
        exchange(events, steps, has_filesystem, supported_major, os),
        n <= events.len(),
    ensures
        known_version(events, n) matches Some(version) ==> accepted(version, supported_major),
        known_version(events, n) is Some <==> (n > 0 && returns_success(steps[n - 1])),
    decreases n,
{
    if n > 0 {
        lemma_known_version(events, steps, has_filesystem, supported_major, os, (n - 1) as nat);
        assert(is_step(events[n - 1], has_filesystem, supported_major, os, steps[n - 1]));
        if n > 1 {
            assert(is_step(events[n - 2], has_filesystem, supported_major, os, steps[n - 2]));
            assert(!(steps[n - 2].next is Return));
        }
    }
}

/// A kernel's first request is decided by its version alone, as long as the filesystem is there:
/// from 7.6 on every version with a supported major number begins, older ones are refused with
/// EPROTO, and one with a newer major number is told the supported one and may ask again.
pub proof fn law_first_request_is_decided_by_its_version(
    unique: u64,
    version: Version,
    has_filesystem: bool,
    supported_major: u32,
    os: Os,
    step: HandshakeStep,
)
    requires
        is_step(
            HandshakeEvent::Init { unique, version },
            has_filesystem,
            supported_major,
            os,
            step,
        ),
    ensures
        ({
            let newer = version.0 > supported_major;
            let older = version.0 < 7 || version.0 == 7 && version.1 < 6;
            &&& step.next is Receive <==> newer
            &&& step.reply == Some((unique, HandshakeReply::VersionOnly)) <==> newer
            &&& step.reply == Some((unique, HandshakeReply::Errno(ReplyErrno::EPROTO))) <==> !newer
                && older
            &&& step.reply is None <==> !newer && !older
            &&& step.next is InitFilesystem <==> has_filesystem && !newer && !older
            &&& step.next is InitFilesystem ==> step.next == (HandshakeNext::InitFilesystem {
                unique,
                version,
            })
            &&& !newer && older ==> fails_with(step, ErrorKind::Unsupported)
            &&& !newer && !older && !has_filesystem ==> fails_with(step, ErrorKind::InvalidInput)
        }),
{
}

/// A step ends its handshake with an error of this category.
pub open spec fn fails_with(step: HandshakeStep, expected: ErrorKind) -> bool {
    step.next matches HandshakeNext::Return(Err(error)) && (error@ matches ErrorView::Custom {
        kind,
        ..
    } && kind == expected)
}

/// What is no first request ends the handshake: a device that is gone as a lost connection, any
/// other error of the device as that error, and what cannot be read as invalid data. A request
/// of another kind is answered with EIO. A filesystem that begins is answered with the settings
/// and ends the handshake with success, and one that does not is answered with the code of its
/// error, or 0, and its error is returned as it is.
pub proof fn law_other_events_end_the_handshake(
    event: HandshakeEvent,
    has_filesystem: bool,
    supported_major: u32,
    os: Os,
    step: HandshakeStep,
)
    requires
        is_step(event, has_filesystem, supported_major, os, step),
    ensures
        !(event is Init) ==> step.next is Return,
        event matches HandshakeEvent::ReceiveFailed(errno) ==> {
            &&& step.reply is None
            &&& errno == Errno::ENODEV ==> fails_with(step, ErrorKind::NotConnected)
            &&& errno != Errno::ENODEV ==> (step.next matches HandshakeNext::Return(Err(error))
                && error@ == ErrorView::Os(errno.code(os)))
        },
        event matches HandshakeEvent::ParseFailed(text) ==> {
            &&& step.reply is None
            &&& step.next matches HandshakeNext::Return(Err(error)) && error@
                == (ErrorView::Custom { kind: ErrorKind::InvalidData, message: text@ })
        },
        event is OperationFailed ==> step.reply is None && fails_with(step, ErrorKind::InvalidData),
        event matches HandshakeEvent::OtherOperation { unique } ==> {
            &&& step.reply == Some((unique, HandshakeReply::Errno(ReplyErrno::EIO)))
            &&& fails_with(step, ErrorKind::InvalidData)
        },
        event matches HandshakeEvent::FilesystemReady { unique, result, .. } ==> {
            &&& result is Ok ==> returns_success(step) && step.reply == Some(
                (unique, HandshakeReply::Init),
            )
            &&& result matches Err(error) ==> step.next == HandshakeNext::Return(Err(error))
                && step.reply == Some(
                (
                    unique,
                    HandshakeReply::Errno(
                        ReplyErrno::Code(
                            match error {
                                Error::Os(code) => code,
                                Error::Custom { .. } => 0,
                            },
                        ),
                    ),
                ),
            )
        },
        returns_success(step) <==> (event matches HandshakeEvent::FilesystemReady { result, .. }
            && result is Ok),
{
}

/// A session learns a version exactly when its filesystem has begun, and never forgets it.
pub proof fn law_version_is_learned_once_ready(event: HandshakeEvent, before: Option<Version>)
    ensures
        event matches HandshakeEvent::FilesystemReady { version, result, .. } ==> (result is Ok
            ==> version_after(event, before) == Some(version)),
        !(event matches HandshakeEvent::FilesystemReady { result, .. } && result is Ok)
            ==> version_after(event, before) == before,
{
}

/// The version that a session knows after a handshake is the one that the kernel last asked for.
pub proof fn law_known_version_is_the_requested_one(
    events: Seq<HandshakeEvent>,
    steps: Seq<HandshakeStep>,
    has_filesystem: bool,
    supported_major: u32,
    os: Os,
)
    requires
        exchange(events, steps, has_filesystem, supported_major, os),
    ensures
        known_version(events, events.len()) matches Some(known) ==> {
            &&& events.len() >= 2
            &&& events[events.len() - 2] matches HandshakeEvent::Init { version, .. } && version
                == known
        },
{
    lemma_known_version(events, steps, has_filesystem, supported_major, os, events.len());
    if events.len() > 0 && known_version(events, events.len()) is Some {
        let n = events.len();
        assert(is_step(events[n - 1], has_filesystem, supported_major, os, steps[n - 1]));
        assert(events[n - 1] is FilesystemReady);
        assert(n >= 2);
        assert(is_step(events[n - 2], has_filesystem, supported_major, os, steps[n - 2]));
        lemma_known_version(events, steps, has_filesystem, supported_major, os, (n - 1) as nat);
        assert(steps[n - 2].next is InitFilesystem);
        assert(events[n - 2 + 1] is FilesystemReady);
    }
}

/// Versions come in the order of their numbers, the major one first.
pub proof fn law_versions_are_ordered(a: Version, b: Version)
    ensures
        a.0 < b.0 ==> a.precedes(b),
        a.0 == b.0 ==> (a.precedes(b) <==> a.1 < b.1),
        a.0 > b.0 ==> !a.precedes(b),
{
}

/// Versions are told apart by their texts.
pub proof fn law_versions_have_texts_of_their_own(a: Version, b: Version)
    requires
        a.text() == b.text(),
    ensures
        a == b,
{
    reveal_strlit(".");
    let (x, y) = (decimal(a.0 as nat), decimal(b.0 as nat));
    lemma_decimal_has_no_point(a.0 as nat);
    lemma_decimal_has_no_point(b.0 as nat);
    assert(a.text()[x.len() as int] == '.');
    assert(b.text()[y.len() as int] == '.');
    if x.len() < y.len() {
        assert(b.text()[x.len() as int] == y[x.len() as int]);
    }
    if y.len() < x.len() {
        assert(a.text()[y.len() as int] == x[y.len() as int]);
    }
    assert(x =~= a.text().subrange(0, x.len() as int));
    assert(y =~= b.text().subrange(0, y.len() as int));
    let (v, w) = (decimal(a.1 as nat), decimal(b.1 as nat));
    assert(v =~= a.text().subrange(x.len() as int + 1, a.text().len() as int));
    assert(w =~= b.text().subrange(y.len() as int + 1, b.text().len() as int));
    law_decimal_writes_the_number(a.0 as nat);
    law_decimal_writes_the_number(b.0 as nat);
    law_decimal_writes_the_number(a.1 as nat);
    law_decimal_writes_the_number(b.1 as nat);
}

proof fn lemma_decimal_has_no_point(n: nat)
    ensures
        forall|i: int| 0 <= i < decimal(n).len() ==> #[trigger] decimal(n)[i] != '.',
    decreases n,
{
    if n >= 10 {
        lemma_decimal_has_no_point(n / 10);
        let before = decimal(n / 10);
        assert forall|i: int| 0 <= i < decimal(n).len() implies #[trigger] decimal(n)[i] != '.' by {
            if i < before.len() {
                assert(decimal(n)[i] == before[i]);
            }
        }
    }
}

/// A refusal names the version that it refuses: it has another message for each version.
pub proof fn law_refusals_name_the_version(
    a: Version,
    b: Version,
    unique: u64,
    has_filesystem: bool,
    supported_major: u32,
    os: Os,
    first: HandshakeStep,
    second: HandshakeStep,
)
    requires
        is_step(
            HandshakeEvent::Init { unique, version: a },
            has_filesystem,
            supported_major,
            os,
            first,
        ),
        is_step(
            HandshakeEvent::Init { unique, version: b },
            has_filesystem,
            supported_major,
            os,
            second,
        ),
        fails_with(first, ErrorKind::Unsupported),
        fails_with(second, ErrorKind::Unsupported),
        first.next->Return_0->Err_0@ == second.next->Return_0->Err_0@,
    ensures
        a == b,
{
    let start = "Unsupported FUSE ABI version "@;
    assert((start + a.text()).skip(start.len() as int) =~= a.text());
    assert((start + b.text()).skip(start.len() as int) =~= b.text());
    law_versions_have_texts_of_their_own(a, b);
}

/// A step of the handshake changes nothing of a session but the version that it knows.
pub proof fn law_handshake_learns_the_version_alone<FS, C, M>(
    event: HandshakeEvent,
    supported_major: u32,
    os: Os,
)
    ensures
        forall|session: &mut Session<FS, C, M>, step: HandshakeStep| #[trigger]
            call_ensures(
                Session::<FS, C, M>::handshake,
                (session, event, supported_major, os),
                step,
            ) ==> {
                &&& final(session).filesystem == session.filesystem
                &&& final(session).ch == session.ch
                &&& final(session).mount == session.mount
                &&& final(session).allowed == session.allowed
                &&& final(session).session_owner == session.session_owner
                &&& final(session).acl_request_identity == session.acl_request_identity
                &&& final(session).config == session.config
                &&& !returns_success(step) ==> final(session).proto_version
                    == session.proto_version
                &&& returns_success(step) ==> final(session).proto_version is Some
            },
{
}

} // verus!
