//! Errors that the library raises and passes on.

use vstd::prelude::*;
use vstd::string::*;

verus! {

/// Category of an I/O error, one for each stable category of the standard library.
#[derive(Clone, Copy, Debug, PartialEq, Eq, Structural)]
pub enum ErrorKind {
    NotFound,
    PermissionDenied,
    ConnectionRefused,
    ConnectionReset,
    HostUnreachable,
    NetworkUnreachable,
    ConnectionAborted,
    NotConnected,
    AddrInUse,
    AddrNotAvailable,
    NetworkDown,
    BrokenPipe,
    AlreadyExists,
    WouldBlock,
    NotADirectory,
    IsADirectory,
    DirectoryNotEmpty,
    ReadOnlyFilesystem,
    StaleNetworkFileHandle,
    InvalidInput,
    InvalidData,
    TimedOut,
    WriteZero,
    StorageFull,
    NotSeekable,
    QuotaExceeded,
    FileTooLarge,
    ResourceBusy,
    ExecutableFileBusy,
    Deadlock,
    TooManyLinks,
    ArgumentListTooLong,
    Interrupted,
    Unsupported,
    UnexpectedEof,
    OutOfMemory,
    Other,
    /// A category that the standard library does not name.
    Uncategorized,
}

/// An I/O error: a code of the operating system, or a category with a message.
#[derive(Debug, PartialEq, Eq)]
pub enum Error {
    /// The operating system's error code.
    Os(i32),
    /// An error that is not the operating system's.
    Custom {
        /// Its category.
        kind: ErrorKind,
        /// What went wrong.
        message: String,
    },
}

/// What an [`Error`] says.
pub enum ErrorView {
    Os(i32),
    Custom { kind: ErrorKind, message: Seq<char> },
}

impl View for Error {
    type V = ErrorView;

    open spec fn view(&self) -> ErrorView {
        match self {
            Error::Os(code) => ErrorView::Os(*code),
            Error::Custom { kind, message } => ErrorView::Custom { kind: *kind, message: message@ },
        }
    }
}

/// An error of the library: a category and a message.
pub open spec fn custom(kind: ErrorKind, message: Seq<char>) -> ErrorView {
    ErrorView::Custom { kind, message }
}

/// A result with its error by what the error says.
pub open spec fn outcome<T>(result: Result<T, Error>) -> Result<T, ErrorView> {
    match result {
        Ok(value) => Ok(value),
        Err(error) => Err(error@),
    }
}

impl Error {
    /// An error of the given category.
    pub fn new(kind: ErrorKind, message: &str) -> (r: Error)
        ensures
            r@ == custom(kind, message@),
    {
        Error::Custom { kind, message: message.to_owned() }
    }

    /// An error of no particular category.
    pub fn other(message: &str) -> (r: Error)
        ensures
            r@ == custom(ErrorKind::Other, message@),
    {
        Error::new(ErrorKind::Other, message)
    }

    /// The category; for an operating system's code only the system's own tables give one.
    pub fn kind(&self) -> (r: Option<ErrorKind>)
        ensures
            r == match self@ {
                ErrorView::Os(_) => None::<ErrorKind>,
                ErrorView::Custom { kind, .. } => Some(kind),
            },
    {
        match self {
            Error::Os(_) => None,
            Error::Custom { kind, .. } => Some(*kind),
        }
    }

    /// The operating system's code, if this is one of its errors.
    pub fn raw_os_error(&self) -> (r: Option<i32>)
        ensures
            r == match self@ {
                ErrorView::Os(code) => Some(code),
                ErrorView::Custom { .. } => None::<i32>,
            },
    {
        match self {
            Error::Os(code) => Some(*code),
            Error::Custom { .. } => None,
        }
    }
}

/// An error has either a category or a code of the system, and what it was made with is what it
/// says.
pub proof fn law_errors_keep_what_they_were_made_with(
    error: Error,
    kind: Option<ErrorKind>,
    code: Option<i32>,
)
    requires
        call_ensures(Error::kind, (&error,), kind),
        call_ensures(Error::raw_os_error, (&error,), code),
    ensures
        kind is Some <==> code is None,
        forall|wanted: ErrorKind, message: &str|
            #[trigger] call_ensures(Error::new, (wanted, message), error) ==> kind == Some(wanted)
                && (error matches Error::Custom { message: text, .. } && text@ == message@),
        forall|message: &str| #[trigger]
            call_ensures(Error::other, (message,), error) ==> kind == Some(ErrorKind::Other) && (
            error matches Error::Custom { message: text, .. } && text@ == message@),
        code matches Some(c) ==> error == Error::Os(c),
{
}

} // verus!
