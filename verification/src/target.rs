//! The system that a session runs on, and the way it mounts.

use vstd::prelude::*;

verus! {

/// Operating system.
#[derive(Clone, Copy, Debug, PartialEq, Eq, Structural)]
pub enum Os {
    Linux,
    Macos,
    FreeBsd,
    DragonFly,
    OpenBsd,
    NetBsd,
}

/// How a filesystem is mounted.
#[derive(Clone, Copy, Debug, PartialEq, Eq, Structural)]
pub enum MountBackend {
    /// Without a native library.
    PureRust,
    /// By libfuse, version 2.
    Libfuse2,
    /// By libfuse, version 3.
    Libfuse3,
    /// Not at all.
    MacosNoMount,
}

/// A system and the way it mounts.
#[derive(Clone, Copy, Debug, PartialEq, Eq, Structural)]
pub struct Target {
    pub os: Os,
    pub backend: MountBackend,
}

impl Os {
    /// Whether this is one of the BSDs.
    pub open spec fn bsd(self) -> bool {
        self is FreeBsd || self is DragonFly || self is OpenBsd || self is NetBsd
    }

    /// Whether this is one of the BSDs.
    pub fn is_bsd(self) -> (r: bool)
        ensures
            r == self.bsd(),
    {
        match self {
            Os::Linux | Os::Macos => false,
            Os::FreeBsd | Os::DragonFly | Os::OpenBsd | Os::NetBsd => true,
        }
    }
}

impl Target {
    /// Whether macFUSE's message channel carries the requests: macOS with libfuse 2.
    pub open spec fn darwin_channel(self) -> bool {
        self.os is Macos && self.backend is Libfuse2
    }

    /// Whether macFUSE's message channel carries the requests: macOS with libfuse 2.
    pub fn has_darwin_channel(self) -> (r: bool)
        ensures
            r == self.darwin_channel(),
    {
        match (self.os, self.backend) {
            (Os::Macos, MountBackend::Libfuse2) => true,
            _ => false,
        }
    }
}

/// The BSDs are four systems, and only macOS with libfuse 2 has a message channel.
pub proof fn law_kinds_of_targets(target: Target)
    ensures
        target.os.bsd() <==> !(target.os is Linux || target.os is Macos),
        target.darwin_channel() <==> target.os is Macos && target.backend is Libfuse2,
{
}

} // verus!
