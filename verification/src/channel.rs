//! The channel that carries requests from the kernel and replies to it.

use vstd::prelude::*;
use vstd::string::*;

use crate::errno::Errno;
use crate::error::{custom, outcome, Error, ErrorKind, ErrorView};
use crate::target::{Os, Target};

verus! {

/// What carries requests and replies.
#[derive(Clone, Copy, Debug, PartialEq, Eq, Structural)]
pub enum ChannelKind {
    /// A device that is read and written.
    Device,
    /// macFUSE's message channel.
    Darwin,
}

/// What carries requests and replies on a target.
pub fn channel_kind(target: Target) -> (r: ChannelKind)
    ensures
        r == (if target.darwin_channel() {
            ChannelKind::Darwin
        } else {
            ChannelKind::Device
        }),
{
    if target.has_darwin_channel() {
        ChannelKind::Darwin
    } else {
        ChannelKind::Device
    }
}

/// Stops the receives of a device. `W` is the end of a pipe whose other end they poll: dropping
/// it wakes them.
#[derive(Debug)]
pub struct ReceiveInterrupt<W> {
    pub stopped: bool,
    pub writer: Option<W>,
}

impl<W> ReceiveInterrupt<W> {
    /// Receives go on.
    pub fn new(writer: W) -> (r: ReceiveInterrupt<W>)
        ensures
            !r.stopped,
            r.writer == Some(writer),
    {
        ReceiveInterrupt { stopped: false, writer: Some(writer) }
    }

    /// Stops the receives for good. Gives the end of the pipe that is to be dropped, the first
    /// time.
    pub fn stop(&mut self) -> (r: Option<W>)
        ensures
            final(self).stopped,
            final(self).writer is None,
            r == old(self).writer,
    {
        self.stopped = true;
        self.writer.take()
    }

    /// Whether receives were stopped.
    pub fn is_stopped(&self) -> (r: bool)
        ensures
            r == self.stopped,
    {
        self.stopped
    }
}

/// What a receive has learned.
#[derive(Clone, Copy, Debug, PartialEq, Eq)]
pub enum ReceiveEvent {
    /// It begins.
    Begin,
    /// The device was read.
    Read(Result<usize, Errno>),
    /// The device and the interrupt were polled, and one of them reported something.
    Polled(Result<(), Errno>),
}

/// What a receive does next.
#[derive(Clone, Copy, Debug, PartialEq, Eq)]
pub enum ReceiveAction {
    /// Read the device.
    Read,
    /// Wait until the device or the interrupt reports something.
    Poll,
    /// Return this.
    Return(Result<usize, Errno>),
}

/// What a receive does next. On Linux the device does not block: where it has nothing, the
/// receive waits for it or for the interrupt, and the interrupt ends it. Elsewhere one read is
/// all.
pub open spec fn next_of_receive(os: Os, stopped: bool, event: ReceiveEvent) -> ReceiveAction {
    match event {
        ReceiveEvent::Begin => if os is Linux && stopped {
            ReceiveAction::Return(Err(Errno::ENODEV))
        } else {
            ReceiveAction::Read
        },
        ReceiveEvent::Read(result) => if os is Linux && result == Err::<usize, Errno>(
            Errno::EAGAIN,
        ) {
            ReceiveAction::Poll
        } else {
            ReceiveAction::Return(result)
        },
        ReceiveEvent::Polled(Err(errno)) => ReceiveAction::Return(Err(errno)),
        ReceiveEvent::Polled(Ok(())) => if os is Linux && stopped {
            ReceiveAction::Return(Err(Errno::ENODEV))
        } else {
            ReceiveAction::Read
        },
    }
}

/// What a receive from a device does next.
pub fn receive(os: Os, stopped: bool, event: ReceiveEvent) -> (r: ReceiveAction)
    ensures
        r == next_of_receive(os, stopped, event),
{
    let linux = os == Os::Linux;
    match event {
        ReceiveEvent::Read(result) => match result {
            Err(Errno::EAGAIN) if linux => ReceiveAction::Poll,
            result => ReceiveAction::Return(result),
        },
        ReceiveEvent::Polled(Err(errno)) => ReceiveAction::Return(Err(errno)),
        ReceiveEvent::Begin | ReceiveEvent::Polled(Ok(())) => if linux && stopped {
            ReceiveAction::Return(Err(Errno::ENODEV))
        } else {
            ReceiveAction::Read
        },
    }
}

/// Whether a receive that failed with this error is safe to retry.
///
/// - ENOENT: Operation interrupted. According to FUSE, this is safe to retry.
/// - EINTR: Interrupted system call, retry.
/// - EAGAIN: Explicitly instructed to try again.
pub open spec fn transient(errno: Errno) -> bool {
    errno is ENOENT || errno is EINTR || errno is EAGAIN
}

/// What to do with the result of a receive: `None` to receive again, else to return it.
pub open spec fn retried(result: Result<usize, Errno>) -> Option<Result<usize, Errno>> {
    if result matches Err(errno) && transient(errno) {
        None
    } else {
        Some(result)
    }
}

/// What to do with the result of a receive: `None` to receive again, else to return it.
pub fn receive_retrying(result: Result<usize, Errno>) -> (r: Option<Result<usize, Errno>>)
    ensures
        r == retried(result),
{
    match result {
        Ok(size) => Some(Ok(size)),
        Err(Errno::ENOENT) | Err(Errno::EINTR) | Err(Errno::EAGAIN) => None,
        Err(errno) => Some(Err(errno)),
    }
}

/// The error of a sender whose channel is closed.
pub open spec fn disconnected() -> ErrorView {
    custom(ErrorKind::NotConnected, "FUSE channel is closed"@)
}

/// The error of a sender whose channel is closed.
pub fn disconnected_error() -> (r: Error)
    ensures
        r@ == disconnected(),
{
    Error::new(ErrorKind::NotConnected, "FUSE channel is closed")
}

/// The device of a sender. A sender does not keep the device open: once the channel is closed,
/// there is none.
pub fn device<D>(open: Option<D>) -> (r: Result<D, Error>)
    ensures
        match open {
            Some(device) => r == Ok::<D, Error>(device),
            None => outcome(r) == Err::<D, ErrorView>(disconnected()),
        },
{
    match open {
        Some(device) => Ok(device),
        None => Err(disconnected_error()),
    }
}

/// The result of a reply that was written to the device.
pub open spec fn sending(written: Result<usize, Errno>, os: Os) -> Result<(), ErrorView> {
    match written {
        Ok(_) => Ok(()),
        Err(errno) => Err(ErrorView::Os(errno.code(os))),
    }
}

/// The result of a reply that was written to the device. Replies are written whole or not at
/// all, so how much was written says nothing.
pub fn sent(written: Result<usize, Errno>, os: Os) -> (r: Result<(), Error>)
    ensures
        outcome(r) == sending(written, os),
{
    match written {
        Ok(_) => Ok(()),
        Err(errno) => Err(errno.into_error(os)),
    }
}

/// Whether stopping the receives is up to the sender: a message channel stops them by its own
/// close.
pub fn interrupts_receive(kind: ChannelKind, os: Os) -> (r: bool)
    ensures
        r == (kind is Device && os is Linux),
{
    kind == ChannelKind::Device && os == Os::Linux
}

/// A file that the kernel serves in place of the filesystem, by its number, with the channel on
/// which it was registered.
#[derive(Debug)]
pub struct BackingId<W> {
    pub channel: W,
    pub backing_id: u32,
}

/// Whether a backing file can be registered on a channel.
pub fn open_backing(kind: ChannelKind) -> (r: Result<(), Error>)
    ensures
        outcome(r) == (if kind is Darwin {
            Err(
                custom(
                    ErrorKind::Unsupported,
                    "backing IDs are unavailable on macFUSE's FSKit channel"@,
                ),
            )
        } else {
            Ok::<(), ErrorView>(())
        }),
{
    match kind {
        ChannelKind::Device => Ok(()),
        ChannelKind::Darwin => Err(
            Error::new(
                ErrorKind::Unsupported,
                "backing IDs are unavailable on macFUSE's FSKit channel",
            ),
        ),
    }
}

/// Wraps the number of a backing file that is registered on a device.
pub fn wrap_backing<W>(kind: ChannelKind, channel: W, id: u32) -> (r: BackingId<W>)
    requires
        kind is Device,
    ensures
        r.channel == channel,
        r.backing_id == id,
{
    BackingId { channel, backing_id: id }
}

/// `nix::fcntl::OFlag::from_bits_truncate`: those bits of the flags that nix has a name for. The
/// bits of the access mode are among them; which of the others are depends on the system and the
/// machine.
#[verifier::external_body]
fn known_file_flags(flags: i32) -> (r: i32)
    ensures
        r & flags == r,
        r & 3 == flags & 3,
{
    nix::fcntl::OFlag::from_bits_truncate(flags).bits()
}

/// The bits of `nix::fcntl::OFlag::O_NONBLOCK`: one bit, by the system and the machine.
#[verifier::external_body]
fn nonblock_flag() -> (r: i32)
    ensures
        nonblock_bit(r),
{
    nix::fcntl::OFlag::O_NONBLOCK.bits()
}

/// The bit by which a system marks a file that does not block: macOS and the BSDs have one, and
/// Linux one of three, by its machine.
pub open spec fn nonblock_bit(bit: i32) -> bool {
    bit == 4 || bit == 0x80 || bit == 0x800 || bit == 0x4000
}

/// `kept` is what nix keeps of the flags where the library runs.
pub closed spec fn keeps_known(flags: i32, kept: i32) -> bool {
    call_ensures(known_file_flags, (flags,), kept)
}

/// `bit` is nix's flag for a file that does not block where the library runs.
pub closed spec fn marks_nonblocking(bit: i32) -> bool {
    call_ensures(nonblock_flag, (), bit)
}

/// Flags with the one added that makes a file one that does not block.
pub fn with_nonblock(kept: i32, bit: i32) -> (r: i32)
    ensures
        r == kept | bit,
{
    kept | bit
}

/// The flags that make a file with these flags one that does not block: those of the flags that
/// nix knows, the access mode among them, and the one that is asked for, by [`with_nonblock`].
pub fn nonblocking_flags(flags: i32) -> (r: i32)
    ensures
        exists|kept: i32, bit: i32|
            #![trigger kept | bit]
            {
                &&& keeps_known(flags, kept)
                &&& kept & flags == kept
                &&& kept & 3 == flags & 3
                &&& marks_nonblocking(bit)
                &&& nonblock_bit(bit)
                &&& r == kept | bit
            },
{
    let kept: i32 = known_file_flags(flags);
    let bit: i32 = nonblock_flag();
    with_nonblock(kept, bit)
}

/// Once receives are stopped, a receive that begins or that waited ends without a read, and the
/// retry passes its end on: a stopped loop does not go on.
pub proof fn law_stop_ends_receives(polled: Result<(), Errno>)
    ensures
        next_of_receive(Os::Linux, true, ReceiveEvent::Begin) == ReceiveAction::Return(
            Err(Errno::ENODEV),
        ),
        next_of_receive(Os::Linux, true, ReceiveEvent::Polled(polled)) is Return,
        polled is Ok ==> next_of_receive(Os::Linux, true, ReceiveEvent::Polled(polled))
            == ReceiveAction::Return(Err(Errno::ENODEV)),
        retried(Err(Errno::ENODEV)) == Some(Err::<usize, Errno>(Errno::ENODEV)),
{
}

/// A result that is passed on is never an error to retry, and nothing else is held back.
pub proof fn law_retry_hides_transient_errors_alone(result: Result<usize, Errno>)
    ensures
        retried(result) matches Some(passed) ==> passed == result && !(passed matches Err(errno)
            && transient(errno)),
        retried(result) is None <==> (result matches Err(errno) && transient(errno)),
{
}

/// A receive goes on to read the device when it begins and when its wait ended without an error,
/// as long as it was not stopped. It returns what the device gave, or the error of its wait, and
/// says that the device is gone of its own accord only where it was stopped, which only Linux
/// can do. It waits exactly where Linux's device has nothing.
pub proof fn law_receive_reads_unless_stopped(os: Os, stopped: bool, event: ReceiveEvent)
    ensures
        event is Begin || event == ReceiveEvent::Polled(Ok(())) ==> (next_of_receive(
            os,
            stopped,
            event,
        ) is Read <==> !(stopped && os is Linux)),
        next_of_receive(os, stopped, event) is Poll <==> os is Linux && event
            == ReceiveEvent::Read(Err(Errno::EAGAIN)),
        event matches ReceiveEvent::Read(result) ==> next_of_receive(os, stopped, event)
            == ReceiveAction::Return(result) || (os is Linux && result == Err::<usize, Errno>(
            Errno::EAGAIN,
        )),
        event matches ReceiveEvent::Polled(Err(errno)) ==> next_of_receive(os, stopped, event)
            == ReceiveAction::Return(Err(errno)),
        next_of_receive(os, stopped, event) matches ReceiveAction::Return(result) ==> {
            ||| event == ReceiveEvent::Read(result)
            ||| event matches ReceiveEvent::Polled(Err(errno)) && result == Err::<usize, Errno>(
                errno,
            )
            ||| stopped && os is Linux && !(event is Read) && result == Err::<usize, Errno>(
                Errno::ENODEV,
            )
        },
{
}

/// What a receive returns that is not stopped and whose waits end without an error, by what the
/// device gives to one read after the other.
pub open spec fn received_from(
    os: Os,
    reads: Seq<Result<usize, Errno>>,
    event: ReceiveEvent,
) -> Option<Result<usize, Errno>>
    decreases reads.len(), (if event is Read { 1int } else { 0 }),
{
    match next_of_receive(os, false, event) {
        ReceiveAction::Return(result) => Some(result),
        ReceiveAction::Poll => if event is Read {
            received_from(os, reads, ReceiveEvent::Polled(Ok(())))
        } else {
            None
        },
        ReceiveAction::Read => if reads.len() == 0 || event is Read {
            None
        } else {
            received_from(os, reads.drop_first(), ReceiveEvent::Read(reads[0]))
        },
    }
}

/// A receive that is not stopped returns the first thing that the device has for it, however
/// often it had to wait: on Linux the first result that is not EAGAIN, elsewhere the first.
pub proof fn law_receive_returns_the_first_result(os: Os, reads: Seq<Result<usize, Errno>>, k: int)
    requires
        0 <= k < reads.len(),
        os is Linux ==> reads[k] != Err::<usize, Errno>(Errno::EAGAIN),
        !(os is Linux) ==> k == 0,
        forall|i: int| 0 <= i < k ==> reads[i] == Err::<usize, Errno>(Errno::EAGAIN),
    ensures
        received_from(os, reads, ReceiveEvent::Begin) == Some(reads[k]),
        received_from(os, reads, ReceiveEvent::Polled(Ok(()))) == Some(reads[k]),
    decreases k,
{
    let rest = reads.drop_first();
    if k > 0 {
        assert(rest[k - 1] == reads[k]);
        law_receive_returns_the_first_result(os, rest, k - 1);
        assert(reads[0] == Err::<usize, Errno>(Errno::EAGAIN));
        assert(received_from(os, rest, ReceiveEvent::Read(reads[0])) == received_from(
            os,
            rest,
            ReceiveEvent::Polled(Ok(())),
        ));
    }
    assert(received_from(os, reads, ReceiveEvent::Begin) == received_from(
        os,
        rest,
        ReceiveEvent::Read(reads[0]),
    ));
    assert(received_from(os, reads, ReceiveEvent::Polled(Ok(()))) == received_from(
        os,
        rest,
        ReceiveEvent::Read(reads[0]),
    ));
}

/// Three errors are held back by a retry, and everything else is passed on as it is.
pub proof fn law_three_errors_are_retried(result: Result<usize, Errno>)
    ensures
        retried(result) is None <==> result == Err::<usize, Errno>(Errno::ENOENT) || result
            == Err::<usize, Errno>(Errno::EINTR) || result == Err::<usize, Errno>(Errno::EAGAIN),
        retried(result) is Some ==> retried(result) == Some(result),
{
}

/// A reply is sent exactly if it was written, however much that was; else its error is the
/// system's.
pub proof fn law_replies_are_sent_whole(written: Result<usize, Errno>, os: Os)
    ensures
        sending(written, os) is Ok <==> written is Ok,
        written matches Err(errno) ==> sending(written, os) == Err::<(), ErrorView>(
            ErrorView::Os(errno.code(os)),
        ),
{
}

/// Only macOS with libfuse 2 has a message channel. Such a channel has no numbers for files that
/// the kernel serves; a device has. Only the receives of a device on Linux are for the sender to
/// interrupt.
pub proof fn law_channels_of_targets(
    target: Target,
    kind: ChannelKind,
    interrupts: bool,
    backing: Result<(), Error>,
)
    requires
        call_ensures(channel_kind, (target,), kind),
        call_ensures(interrupts_receive, (kind, target.os), interrupts),
        call_ensures(open_backing, (kind,), backing),
    ensures
        kind is Darwin <==> target.os is Macos && target.backend is Libfuse2,
        interrupts <==> target.os is Linux,
        backing is Ok <==> kind is Device,
        backing matches Err(error) ==> (error matches Error::Custom { kind: category, .. }
            && category == ErrorKind::Unsupported),
{
}

/// A sender has its device as long as the channel has, and is refused once the channel is closed:
/// there is no connection.
pub proof fn law_closed_channels_refuse_senders<D>(open: Option<D>, r: Result<D, Error>)
    requires
        call_ensures(device::<D>, (open,), r),
    ensures
        open matches Some(opened) ==> r == Ok::<D, Error>(opened),
        open is None ==> (r matches Err(Error::Custom { kind, .. }) && kind
            == ErrorKind::NotConnected),
{
}

/// Receives go on until they are stopped, and are then stopped for good. The end of the pipe is
/// handed out by the first stop alone.
pub proof fn law_receives_are_stopped_once<W>(writer: W, fresh: ReceiveInterrupt<W>)
    requires
        call_ensures(ReceiveInterrupt::<W>::new, (writer,), fresh),
    ensures
        !fresh.stopped,
        forall|interrupt: &mut ReceiveInterrupt<W>, r: Option<W>| #[trigger]
            call_ensures(ReceiveInterrupt::<W>::stop, (interrupt,), r) ==> {
                &&& final(interrupt).stopped
                &&& final(interrupt).writer is None
                &&& *interrupt == fresh ==> r == Some(writer)
                &&& interrupt.writer is None ==> r is None
            },
{
}

/// The flags of a file stay as they are but for the one that is added.
pub proof fn law_nonblock_is_added(kept: i32, bit: i32, r: i32)
    requires
        call_ensures(with_nonblock, (kept, bit), r),
    ensures
        r & bit == bit,
        r & kept == kept,
        r & !bit == kept & !bit,
{
    assert((kept | bit) & bit == bit && (kept | bit) & kept == kept && (kept | bit) & !bit == kept
        & !bit) by (bit_vector);
}

/// A file that is registered is found by the number that the kernel gave it.
pub proof fn law_backing_files_keep_their_number<W>(
    kind: ChannelKind,
    channel: W,
    id: u32,
    r: BackingId<W>,
)
    requires
        kind is Device,
        call_ensures(wrap_backing::<W>, (kind, channel, id), r),
    ensures
        r == (BackingId { channel, backing_id: id }),
{
}

/// The flags that make a file one that does not block keep the access mode and ask for nothing
/// that was not asked for, but for one flag, which they hold.
pub proof fn law_nonblocking_flags_keep_the_access_mode(flags: i32, r: i32)
    requires
        call_ensures(nonblocking_flags, (flags,), r),
    ensures
        r & 3 == flags & 3,
        exists|bit: i32|
            (bit == 4 || bit == 0x80 || bit == 0x800 || bit == 0x4000) && #[trigger] (r & bit)
                == bit && r & !bit & !flags == 0,
{
    let (kept, bit) = choose|kept: i32, bit: i32|
        #![trigger kept | bit]
        {
            &&& keeps_known(flags, kept)
            &&& kept & flags == kept
            &&& kept & 3 == flags & 3
            &&& marks_nonblocking(bit)
            &&& nonblock_bit(bit)
            &&& r == kept | bit
        };
    assert(r & 3 == flags & 3 && r & bit == bit && r & !bit & !flags == 0) by (bit_vector)
        requires
            kept & flags == kept,
            kept & 3 == flags & 3,
            bit == 4 || bit == 0x80 || bit == 0x800 || bit == 0x4000,
            r == kept | bit,
    ;
}

} // verus!
