//! Error numbers of the operating system, as far as the library tells them apart.

use vstd::prelude::*;

use crate::error::{Error, ErrorView};
use crate::target::Os;

verus! {

/// An error number. Those that decide something have a name of their own.
#[derive(Clone, Copy, Debug, PartialEq, Eq, Structural)]
pub enum Errno {
    EPERM,
    ENOENT,
    EINTR,
    EIO,
    EAGAIN,
    ENODEV,
    /// Any other error number, by its code.
    Other(i32),
}

/// The error number that has this code on a system, if it has a name here.
pub open spec fn named_by(code: i32, os: Os) -> Option<Errno> {
    if code == 1 {
        Some(Errno::EPERM)
    } else if code == 2 {
        Some(Errno::ENOENT)
    } else if code == 4 {
        Some(Errno::EINTR)
    } else if code == 5 {
        Some(Errno::EIO)
    } else if code == 19 {
        Some(Errno::ENODEV)
    } else if code == (if os is Linux { 11 } else { 35i32 }) {
        Some(Errno::EAGAIN)
    } else {
        None
    }
}

impl Errno {
    /// The code that a system gives the error number.
    pub open spec fn code(self, os: Os) -> i32 {
        match self {
            Errno::EPERM => 1,
            Errno::ENOENT => 2,
            Errno::EINTR => 4,
            Errno::EIO => 5,
            Errno::EAGAIN => if os is Linux { 11 } else { 35 },
            Errno::ENODEV => 19,
            Errno::Other(code) => code,
        }
    }

    /// An error number that has a name here goes by it.
    pub open spec fn proper(self, os: Os) -> bool {
        self matches Errno::Other(code) ==> named_by(code, os) is None
    }

    /// The error as the operating system's I/O error.
    pub fn into_error(self, os: Os) -> (r: Error)
        ensures
            r@ == ErrorView::Os(self.code(os)),
    {
        let code: i32 = match self {
            Errno::EPERM => 1,
            Errno::ENOENT => 2,
            Errno::EINTR => 4,
            Errno::EIO => 5,
            Errno::EAGAIN => if os == Os::Linux { 11 } else { 35 },
            Errno::ENODEV => 19,
            Errno::Other(code) => code,
        };
        Error::Os(code)
    }
}

/// `errno` is what the code `raw` stands for on a system: the error number with that code, if it
/// has a name here; else another one, whose code is the one that nix knows it by. That is `raw`
/// itself, or 0 where nix does not know the code: it knows the first 34, and none below them.
pub open spec fn stands_for(errno: Errno, raw: i32, os: Os) -> bool {
    match named_by(raw, os) {
        Some(named) => errno == named,
        None => errno matches Errno::Other(code) && {
            &&& known_as(raw, code)
            &&& code == raw || code == 0
            &&& 1 <= raw <= 34 ==> code == raw
            &&& raw < 1 ==> code == 0
        },
    }
}

/// `code` is the one that nix knows the code `raw` by where the library runs.
pub closed spec fn known_as(raw: i32, code: i32) -> bool {
    call_ensures(known_code, (raw,), code)
}

/// The code of `nix::errno::Errno::from_raw`: the code itself where nix's table for the system
/// holds it, else 0. The first 34 codes are in the table of each of the systems of [`Os`], and
/// none below them is; which of the others are is not stated.
#[verifier::external_body]
fn known_code(raw: i32) -> (r: i32)
    ensures
        r == raw || r == 0,
        1 <= raw <= 34 ==> r == raw,
        raw < 1 ==> r == 0,
{
    nix::errno::Errno::from_raw(raw) as i32
}

/// What a code stands for on a system.
pub fn errno_from_raw(raw: i32, os: Os) -> (r: Errno)
    ensures
        stands_for(r, raw, os),
{
    if raw == 1 {
        Errno::EPERM
    } else if raw == 2 {
        Errno::ENOENT
    } else if raw == 4 {
        Errno::EINTR
    } else if raw == 5 {
        Errno::EIO
    } else if raw == 19 {
        Errno::ENODEV
    } else if raw == (if os == Os::Linux { 11 } else { 35i32 }) {
        Errno::EAGAIN
    } else {
        Errno::Other(known_code(raw))
    }
}

/// What a code stands for goes by its name if it has one, and has that code again, unless the
/// system does not know the code.
pub proof fn law_codes_stand_for_error_numbers(errno: Errno, raw: i32, os: Os)
    requires
        stands_for(errno, raw, os),
    ensures
        errno.proper(os),
        errno.code(os) == raw || errno == Errno::Other(0),
        1 <= raw <= 34 ==> errno.code(os) == raw,
{
}

/// Error numbers that go by their names are told apart by their codes.
pub proof fn law_codes_tell_error_numbers_apart(a: Errno, b: Errno, os: Os)
    requires
        a.proper(os),
        b.proper(os),
        a.code(os) == b.code(os),
    ensures
        a == b,
{
}

/// A code names the error number that has it, on every system, and no other. All systems give the
/// named error numbers the same codes, but for EAGAIN, which is 11 on Linux and 35 elsewhere.
pub proof fn law_codes_and_names(errno: Errno, code: i32, os: Os)
    ensures
        named_by(code, os) == Some(errno) <==> !(errno is Other) && errno.code(os) == code,
        Errno::EPERM.code(os) == 1,
        Errno::ENOENT.code(os) == 2,
        Errno::EINTR.code(os) == 4,
        Errno::EIO.code(os) == 5,
        Errno::ENODEV.code(os) == 19,
        os is Linux ==> Errno::EAGAIN.code(os) == 11,
        !(os is Linux) ==> Errno::EAGAIN.code(os) == 35,
        Errno::Other(code).code(os) == code,
{
}

} // verus!
