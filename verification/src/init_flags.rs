//! Init request/reply flags.

use vstd::prelude::*;
use vstd::string::*;

use crate::target::Os;
use crate::text::{decimal, decimal_text, joined};

verus! {

/// Init request/reply flags.
///
/// The constants are the single flags. From bit 21 on macOS has a namespace of its own; the
/// other systems share Linux's.
#[derive(Clone, Copy, Debug, PartialEq, Eq, Hash, Structural)]
pub struct InitFlags {
    pub bits: u64,
}

impl InitFlags {
    /// asynchronous read requests
    pub const FUSE_ASYNC_READ: u64 = 1 << 0;

    /// remote locking for POSIX file locks
    pub const FUSE_POSIX_LOCKS: u64 = 1 << 1;

    /// kernel sends file handle for fstat, etc...
    pub const FUSE_FILE_OPS: u64 = 1 << 2;

    /// handles the O_TRUNC open flag in the filesystem
    pub const FUSE_ATOMIC_O_TRUNC: u64 = 1 << 3;

    /// filesystem handles lookups of "." and ".."
    pub const FUSE_EXPORT_SUPPORT: u64 = 1 << 4;

    /// filesystem can handle write size larger than 4kB
    pub const FUSE_BIG_WRITES: u64 = 1 << 5;

    /// don't apply umask to file mode on create operations
    pub const FUSE_DONT_MASK: u64 = 1 << 6;

    /// kernel supports splice write on the device
    pub const FUSE_SPLICE_WRITE: u64 = 1 << 7;

    /// kernel supports splice move on the device
    pub const FUSE_SPLICE_MOVE: u64 = 1 << 8;

    /// kernel supports splice read on the device
    pub const FUSE_SPLICE_READ: u64 = 1 << 9;

    /// remote locking for BSD style file locks
    pub const FUSE_FLOCK_LOCKS: u64 = 1 << 10;

    /// kernel supports ioctl on directories
    pub const FUSE_HAS_IOCTL_DIR: u64 = 1 << 11;

    /// automatically invalidate cached pages
    pub const FUSE_AUTO_INVAL_DATA: u64 = 1 << 12;

    /// do READDIRPLUS (READDIR+LOOKUP in one)
    pub const FUSE_DO_READDIRPLUS: u64 = 1 << 13;

    /// adaptive readdirplus
    pub const FUSE_READDIRPLUS_AUTO: u64 = 1 << 14;

    /// asynchronous direct I/O submission
    pub const FUSE_ASYNC_DIO: u64 = 1 << 15;

    /// use writeback cache for buffered writes
    pub const FUSE_WRITEBACK_CACHE: u64 = 1 << 16;

    /// kernel supports zero-message opens
    pub const FUSE_NO_OPEN_SUPPORT: u64 = 1 << 17;

    /// allow parallel lookups and readdir
    pub const FUSE_PARALLEL_DIROPS: u64 = 1 << 18;

    /// fs handles killing suid/sgid/cap on write/chown/trunc
    pub const FUSE_HANDLE_KILLPRIV: u64 = 1 << 19;

    /// filesystem supports posix acls
    pub const FUSE_POSIX_ACL: u64 = 1 << 20;

    // macOS

    /// reply buffer is backed by an FSKit payload buffer
    pub const FUSE_REPLY_BUF: u64 = 1 << 21;

    /// request payload is backed by an FSKit payload buffer
    pub const FUSE_PAYLOAD_BUF: u64 = 1 << 22;

    /// access requests carry extended information
    pub const FUSE_ACCESS_EXTENDED: u64 = 1 << 23;

    /// kernel supports per-node read/write locking
    pub const FUSE_NODE_RWLOCK: u64 = 1 << 24;

    /// kernel supports atomic rename swaps
    pub const FUSE_RENAME_SWAP: u64 = 1 << 25;

    /// kernel supports exclusive renames
    pub const FUSE_RENAME_EXCL: u64 = 1 << 26;

    /// pre-allocate space for a file
    pub const FUSE_ALLOCATE: u64 = 1 << 27;

    /// atomically exchange data between files
    pub const FUSE_EXCHANGE_DATA: u64 = 1 << 28;

    /// filesystem is case-insensitive
    pub const FUSE_CASE_INSENSITIVE: u64 = 1 << 29;

    /// filesystem supports volume renaming
    pub const FUSE_VOL_RENAME: u64 = 1 << 30;

    /// filesystem supports extended times (backup and creation times)
    pub const FUSE_XTIMES: u64 = 1 << 31;

    // every other system

    /// reading the device after abort returns ECONNABORTED
    pub const FUSE_ABORT_ERROR: u64 = 1 << 21;

    /// init_out.max_pages contains the max number of req pages
    pub const FUSE_MAX_PAGES: u64 = 1 << 22;

    /// cache READLINK responses
    pub const FUSE_CACHE_SYMLINKS: u64 = 1 << 23;

    /// kernel supports zero-message opendir
    pub const FUSE_NO_OPENDIR_SUPPORT: u64 = 1 << 24;

    /// only invalidate cached pages on explicit request
    pub const FUSE_EXPLICIT_INVAL_DATA: u64 = 1 << 25;

    /// map_alignment field is valid
    pub const FUSE_MAP_ALIGNMENT: u64 = 1 << 26;

    /// filesystem supports submounts
    pub const FUSE_SUBMOUNTS: u64 = 1 << 27;

    /// fs handles killing suid/sgid/cap on write/chown/trunc (v2)
    pub const FUSE_HANDLE_KILLPRIV_V2: u64 = 1 << 28;

    /// extended setxattr support
    pub const FUSE_SETXATTR_EXT: u64 = 1 << 29;

    /// extended fuse_init_in request
    pub const FUSE_INIT_EXT: u64 = 1 << 30;

    /// reserved, do not use
    pub const FUSE_INIT_RESERVED: u64 = 1 << 31;

    /// add security context to create/mkdir/symlink/mknod
    pub const FUSE_SECURITY_CTX: u64 = 1 << 32;

    /// filesystem supports per-inode DAX
    pub const FUSE_HAS_INODE_DAX: u64 = 1 << 33;

    /// create with supplementary group
    pub const FUSE_CREATE_SUPP_GROUP: u64 = 1 << 34;

    /// kernel supports expire-only invalidation
    pub const FUSE_HAS_EXPIRE_ONLY: u64 = 1 << 35;

    /// allow mmap for direct I/O files
    pub const FUSE_DIRECT_IO_ALLOW_MMAP: u64 = 1 << 36;

    /// filesystem wants to use passthrough files
    pub const FUSE_PASSTHROUGH: u64 = 1 << 37;

    /// filesystem does not support export
    pub const FUSE_NO_EXPORT_SUPPORT: u64 = 1 << 38;

    /// kernel supports resend requests
    pub const FUSE_HAS_RESEND: u64 = 1 << 39;

    /// allow idmapped mounts
    pub const FUSE_ALLOW_IDMAP: u64 = 1 << 40;

    /// kernel supports io_uring for communication
    pub const FUSE_OVER_IO_URING: u64 = 1 << 41;

    /// kernel supports request timeout
    pub const FUSE_REQUEST_TIMEOUT: u64 = 1 << 42;

    /// The flags with exactly these bits, known or not.
    pub fn from_bits_retain(bits: u64) -> (r: InitFlags)
        ensures
            r.bits == bits,
    {
        InitFlags { bits }
    }

    /// The bits of the flags.
    pub fn bits(self) -> (r: u64)
        ensures
            r == self.bits,
    {
        self.bits
    }

    /// Whether every flag of `other` is set.
    pub open spec fn includes(self, other: InitFlags) -> bool {
        self.bits & other.bits == other.bits
    }

    /// Whether every flag of `other` is set.
    pub fn contains(self, other: InitFlags) -> (r: bool)
        ensures
            r == self.includes(other),
    {
        self.bits & other.bits == other.bits
    }

    /// How many flags a system has names for: they are the lowest bits.
    pub open spec fn named(os: Os) -> u64 {
        if os is Macos {
            32
        } else {
            43
        }
    }

    /// Every flag that a system has a name for.
    pub fn all(os: Os) -> (r: InitFlags)
        ensures
            forall|bit: u64|
                bit < 64 ==> (#[trigger] r.includes(InitFlags { bits: 1u64 << bit }) <==> bit
                    < InitFlags::named(os)),
    {
        let r = match os {
            Os::Macos => InitFlags { bits: 0xffff_ffff },
            _ => InitFlags { bits: 0x7ff_ffff_ffff },
        };
        assert forall|bit: u64| bit < 64 implies (#[trigger] r.includes(
            InitFlags { bits: 1u64 << bit },
        ) <==> bit < InitFlags::named(os)) by {
            assert(0xffff_ffffu64 & (1u64 << bit) == 1u64 << bit <==> bit < 32) by (bit_vector)
                requires
                    bit < 64,
            ;
            assert(0x7ff_ffff_ffffu64 & (1u64 << bit) == 1u64 << bit <==> bit < 43) by (bit_vector)
                requires
                    bit < 64,
            ;
        }
        r
    }

    /// Returns the flags as a pair of (low, high) u32 values.
    /// The low value contains bits 0-31, the high value contains bits 32-63.
    pub fn pair(self) -> (r: (u32, u32))
        ensures
            r.0 == self.bits & 0xffff_ffff,
            r.1 == self.bits >> 32,
            r.0 + r.1 * 0x1_0000_0000 == self.bits,
    {
        let bits = self.bits;
        assert(bits as u32 == bits & 0xffff_ffff) by (bit_vector);
        assert((bits >> 32) as u32 == bits >> 32) by (bit_vector);
        assert((bits as u32) + ((bits >> 32) as u32) * 0x1_0000_0000 == bits) by (bit_vector);
        (bits as u32, (bits >> 32) as u32)
    }
}

/// The name of the flag with this bit on a system, if it has one.
pub open spec fn name_of(bit: u64, os: Os) -> Option<Seq<char>> {
    if bit <= 20 {
        shared_name(bit)
    } else if os is Macos {
        macos_name(bit)
    } else {
        standard_name(bit)
    }
}

/// The names that every system has.
pub open spec fn shared_name(bit: u64) -> Option<Seq<char>> {
    match bit {
        0 => Some("FUSE_ASYNC_READ"@),
        1 => Some("FUSE_POSIX_LOCKS"@),
        2 => Some("FUSE_FILE_OPS"@),
        3 => Some("FUSE_ATOMIC_O_TRUNC"@),
        4 => Some("FUSE_EXPORT_SUPPORT"@),
        5 => Some("FUSE_BIG_WRITES"@),
        6 => Some("FUSE_DONT_MASK"@),
        7 => Some("FUSE_SPLICE_WRITE"@),
        8 => Some("FUSE_SPLICE_MOVE"@),
        9 => Some("FUSE_SPLICE_READ"@),
        10 => Some("FUSE_FLOCK_LOCKS"@),
        11 => Some("FUSE_HAS_IOCTL_DIR"@),
        12 => Some("FUSE_AUTO_INVAL_DATA"@),
        13 => Some("FUSE_DO_READDIRPLUS"@),
        14 => Some("FUSE_READDIRPLUS_AUTO"@),
        15 => Some("FUSE_ASYNC_DIO"@),
        16 => Some("FUSE_WRITEBACK_CACHE"@),
        17 => Some("FUSE_NO_OPEN_SUPPORT"@),
        18 => Some("FUSE_PARALLEL_DIROPS"@),
        19 => Some("FUSE_HANDLE_KILLPRIV"@),
        20 => Some("FUSE_POSIX_ACL"@),
        _ => None,
    }
}

/// The names that macOS has besides.
pub open spec fn macos_name(bit: u64) -> Option<Seq<char>> {
    match bit {
        21 => Some("FUSE_REPLY_BUF"@),
        22 => Some("FUSE_PAYLOAD_BUF"@),
        23 => Some("FUSE_ACCESS_EXTENDED"@),
        24 => Some("FUSE_NODE_RWLOCK"@),
        25 => Some("FUSE_RENAME_SWAP"@),
        26 => Some("FUSE_RENAME_EXCL"@),
        27 => Some("FUSE_ALLOCATE"@),
        28 => Some("FUSE_EXCHANGE_DATA"@),
        29 => Some("FUSE_CASE_INSENSITIVE"@),
        30 => Some("FUSE_VOL_RENAME"@),
        31 => Some("FUSE_XTIMES"@),
        _ => None,
    }
}

/// The names that the other systems have besides.
pub open spec fn standard_name(bit: u64) -> Option<Seq<char>> {
    match bit {
        21 => Some("FUSE_ABORT_ERROR"@),
        22 => Some("FUSE_MAX_PAGES"@),
        23 => Some("FUSE_CACHE_SYMLINKS"@),
        24 => Some("FUSE_NO_OPENDIR_SUPPORT"@),
        25 => Some("FUSE_EXPLICIT_INVAL_DATA"@),
        26 => Some("FUSE_MAP_ALIGNMENT"@),
        27 => Some("FUSE_SUBMOUNTS"@),
        28 => Some("FUSE_HANDLE_KILLPRIV_V2"@),
        29 => Some("FUSE_SETXATTR_EXT"@),
        30 => Some("FUSE_INIT_EXT"@),
        31 => Some("FUSE_INIT_RESERVED"@),
        32 => Some("FUSE_SECURITY_CTX"@),
        33 => Some("FUSE_HAS_INODE_DAX"@),
        34 => Some("FUSE_CREATE_SUPP_GROUP"@),
        35 => Some("FUSE_HAS_EXPIRE_ONLY"@),
        36 => Some("FUSE_DIRECT_IO_ALLOW_MMAP"@),
        37 => Some("FUSE_PASSTHROUGH"@),
        38 => Some("FUSE_NO_EXPORT_SUPPORT"@),
        39 => Some("FUSE_HAS_RESEND"@),
        40 => Some("FUSE_ALLOW_IDMAP"@),
        41 => Some("FUSE_OVER_IO_URING"@),
        42 => Some("FUSE_REQUEST_TIMEOUT"@),
        _ => None,
    }
}

/// The text of a name, where there is one.
pub open spec fn text_of(name: Option<&str>) -> Option<Seq<char>> {
    match name {
        Some(name) => Some(name@),
        None => None,
    }
}

/// The name of the flag with this bit on a system, if it has one.
pub fn capability_name(bit: u64, os: Os) -> (r: Option<&'static str>)
    requires
        bit < 64,
    ensures
        r is Some <==> bit < InitFlags::named(os),
        text_of(r) == name_of(bit, os),
{
    let shared = match bit {
        0 => Some("FUSE_ASYNC_READ"),
        1 => Some("FUSE_POSIX_LOCKS"),
        2 => Some("FUSE_FILE_OPS"),
        3 => Some("FUSE_ATOMIC_O_TRUNC"),
        4 => Some("FUSE_EXPORT_SUPPORT"),
        5 => Some("FUSE_BIG_WRITES"),
        6 => Some("FUSE_DONT_MASK"),
        7 => Some("FUSE_SPLICE_WRITE"),
        8 => Some("FUSE_SPLICE_MOVE"),
        9 => Some("FUSE_SPLICE_READ"),
        10 => Some("FUSE_FLOCK_LOCKS"),
        11 => Some("FUSE_HAS_IOCTL_DIR"),
        12 => Some("FUSE_AUTO_INVAL_DATA"),
        13 => Some("FUSE_DO_READDIRPLUS"),
        14 => Some("FUSE_READDIRPLUS_AUTO"),
        15 => Some("FUSE_ASYNC_DIO"),
        16 => Some("FUSE_WRITEBACK_CACHE"),
        17 => Some("FUSE_NO_OPEN_SUPPORT"),
        18 => Some("FUSE_PARALLEL_DIROPS"),
        19 => Some("FUSE_HANDLE_KILLPRIV"),
        20 => Some("FUSE_POSIX_ACL"),
        _ => None,
    };
    if bit <= 20 {
        return shared;
    }
    match os {
        Os::Macos => match bit {
            21 => Some("FUSE_REPLY_BUF"),
            22 => Some("FUSE_PAYLOAD_BUF"),
            23 => Some("FUSE_ACCESS_EXTENDED"),
            24 => Some("FUSE_NODE_RWLOCK"),
            25 => Some("FUSE_RENAME_SWAP"),
            26 => Some("FUSE_RENAME_EXCL"),
            27 => Some("FUSE_ALLOCATE"),
            28 => Some("FUSE_EXCHANGE_DATA"),
            29 => Some("FUSE_CASE_INSENSITIVE"),
            30 => Some("FUSE_VOL_RENAME"),
            31 => Some("FUSE_XTIMES"),
            _ => None,
        },
        _ => match bit {
            21 => Some("FUSE_ABORT_ERROR"),
            22 => Some("FUSE_MAX_PAGES"),
            23 => Some("FUSE_CACHE_SYMLINKS"),
            24 => Some("FUSE_NO_OPENDIR_SUPPORT"),
            25 => Some("FUSE_EXPLICIT_INVAL_DATA"),
            26 => Some("FUSE_MAP_ALIGNMENT"),
            27 => Some("FUSE_SUBMOUNTS"),
            28 => Some("FUSE_HANDLE_KILLPRIV_V2"),
            29 => Some("FUSE_SETXATTR_EXT"),
            30 => Some("FUSE_INIT_EXT"),
            31 => Some("FUSE_INIT_RESERVED"),
            32 => Some("FUSE_SECURITY_CTX"),
            33 => Some("FUSE_HAS_INODE_DAX"),
            34 => Some("FUSE_CREATE_SUPP_GROUP"),
            35 => Some("FUSE_HAS_EXPIRE_ONLY"),
            36 => Some("FUSE_DIRECT_IO_ALLOW_MMAP"),
            37 => Some("FUSE_PASSTHROUGH"),
            38 => Some("FUSE_NO_EXPORT_SUPPORT"),
            39 => Some("FUSE_HAS_RESEND"),
            40 => Some("FUSE_ALLOW_IDMAP"),
            41 => Some("FUSE_OVER_IO_URING"),
            42 => Some("FUSE_REQUEST_TIMEOUT"),
            _ => None,
        },
    }
}

/// What a capability is called: by the name of its flag, or by its bit where that has none.
pub fn capability_label(bit: u64, os: Os) -> (r: String)
    requires
        bit < 64,
    ensures
        r@ == match name_of(bit, os) {
            Some(name) => name,
            None => "(1 << "@ + decimal(bit as nat) + ")"@,
        },
{
    match capability_name(bit, os) {
        Some(name) => name.to_owned(),
        None => {
            let number = decimal_text(bit);
            let start = joined("(1 << ", number.as_str());
            joined(start.as_str(), ")")
        },
    }
}

/// What became of one capability in the handshake.
#[derive(Clone, Copy, Debug, PartialEq, Eq, Structural)]
pub enum CapabilityStatus {
    Enabled,
    NotSupportedByKernel,
    NotRequestedByClient,
    NotSupportedNorRequested,
}

/// What became of the capability with this bit. There is nothing to tell of a bit that neither
/// side set and that has no name, nor of the bit that only announces the upper half.
pub open spec fn status_of(
    bit: u64,
    capabilities: InitFlags,
    requested: InitFlags,
    os: Os,
) -> Option<CapabilityStatus> {
    let flag = InitFlags { bits: 1u64 << bit };
    if !(os is Macos) && flag.bits == InitFlags::FUSE_INIT_EXT {
        None
    } else if requested.includes(flag) && capabilities.includes(flag) {
        Some(CapabilityStatus::Enabled)
    } else if requested.includes(flag) {
        Some(CapabilityStatus::NotSupportedByKernel)
    } else if capabilities.includes(flag) {
        Some(CapabilityStatus::NotRequestedByClient)
    } else if bit < InitFlags::named(os) {
        Some(CapabilityStatus::NotSupportedNorRequested)
    } else {
        None
    }
}

/// What became of the capability with this bit.
pub fn capability_status(
    bit: u64,
    capabilities: InitFlags,
    requested: InitFlags,
    os: Os,
) -> (r: Option<CapabilityStatus>)
    requires
        bit < 64,
    ensures
        r == status_of(bit, capabilities, requested, os),
{
    let flag = InitFlags::from_bits_retain(1u64 << bit);
    if os != Os::Macos && flag.bits() == InitFlags::FUSE_INIT_EXT {
        return None;
    }
    let known = InitFlags::all(os).contains(flag);
    let kernel_supports = capabilities.contains(flag);
    let we_requested = requested.contains(flag);
    if we_requested && kernel_supports {
        Some(CapabilityStatus::Enabled)
    } else if we_requested {
        Some(CapabilityStatus::NotSupportedByKernel)
    } else if kernel_supports {
        Some(CapabilityStatus::NotRequestedByClient)
    } else if known {
        Some(CapabilityStatus::NotSupportedNorRequested)
    } else {
        None
    }
}

/// macOS has names for 32 flags and the other systems for 43, the lowest ones. The first 21 names
/// are those of every system, and from there on all systems but macOS agree.
pub proof fn law_names_of_flags(bit: u64, os: Os, other: Os)
    ensures
        InitFlags::named(Os::Macos) == 32,
        !(os is Macos) ==> InitFlags::named(os) == 43,
        name_of(bit, os) is Some <==> bit < InitFlags::named(os),
        bit < 21 ==> name_of(bit, os) == name_of(bit, other),
        !(os is Macos) && !(other is Macos) ==> name_of(bit, os) == name_of(bit, other),
{
}

/// A flag is set exactly if its bit is.
pub proof fn law_single_flags(flags: InitFlags, bit: u64)
    requires
        bit < 64,
    ensures
        flags.includes(InitFlags { bits: 1u64 << bit }) <==> (flags.bits >> bit) & 1 == 1,
{
    let bits = flags.bits;
    assert(bits & (1u64 << bit) == 1u64 << bit <==> (bits >> bit) & 1 == 1) by (bit_vector)
        requires
            bit < 64,
    ;
}

/// A capability is enabled exactly if both sides have its bit. One that only one side has is
/// reported as missing on the other side, and one that neither side has only if it has a name.
/// Nothing is reported of the bit that announces the upper half, which macOS uses otherwise.
pub proof fn law_capabilities_need_both_sides(
    bit: u64,
    capabilities: InitFlags,
    requested: InitFlags,
    os: Os,
)
    requires
        bit < 64,
    ensures
        ({
            let offered = (capabilities.bits >> bit) & 1 == 1;
            let wanted = (requested.bits >> bit) & 1 == 1;
            let silent = bit == 30 && !(os is Macos);
            let status = status_of(bit, capabilities, requested, os);
            &&& status == Some(CapabilityStatus::Enabled) <==> offered && wanted && !silent
            &&& status == Some(CapabilityStatus::NotSupportedByKernel) <==> wanted && !offered
                && !silent
            &&& status == Some(CapabilityStatus::NotRequestedByClient) <==> offered && !wanted
                && !silent
            &&& status == Some(CapabilityStatus::NotSupportedNorRequested) <==> !offered && !wanted
                && !silent && bit < (if os is Macos {
                32u64
            } else {
                43
            })
        }),
{
    law_single_flags(capabilities, bit);
    law_single_flags(requested, bit);
    assert(1u64 << bit == 1u64 << 30 <==> bit == 30) by (bit_vector)
        requires
            bit < 64,
    ;
}

/// The two halves of the flags hold 32 bits each, and make up the flags again.
pub proof fn law_halves_make_up_the_flags(flags: InitFlags, bits: u64, halves: (u32, u32))
    requires
        call_ensures(InitFlags::bits, (flags,), bits),
        call_ensures(InitFlags::pair, (flags,), halves),
    ensures
        halves.0 + halves.1 * 0x1_0000_0000 == bits,
        forall|again: InitFlags|
            #[trigger] call_ensures(InitFlags::from_bits_retain, (bits,), again) ==> again == flags,
{
}

/// The flags that are known on a system are its lowest 32 or 43 bits.
pub proof fn law_known_flags(os: Os, flags: InitFlags, bit: u64)
    requires
        bit < 64,
        call_ensures(InitFlags::all, (os,), flags),
    ensures
        (flags.bits >> bit) & 1 == 1 <==> bit < (if os is Macos {
            32u64
        } else {
            43
        }),
{
    law_single_flags(flags, bit);
}

/// A capability goes by the name of its flag, and one that has none by its bit.
pub proof fn law_labels_of_capabilities(bit: u64, os: Os, label: String)
    requires
        bit < 64,
        call_ensures(capability_label, (bit, os), label),
    ensures
        name_of(bit, os) is Some ==> Some(label@) == name_of(bit, os),
        name_of(bit, os) is None ==> label@ == "(1 << "@ + decimal(bit as nat) + ")"@,
        name_of(bit, os) is None <==> bit >= (if os is Macos {
            32u64
        } else {
            43
        }),
{
}

/// Flags are told apart by their names on each system.
pub proof fn law_names_tell_flags_apart(a: u64, b: u64, os: Os)
    requires
        name_of(a, os) is Some,
        name_of(a, os) == name_of(b, os),
    ensures
        a == b,
{
    reveal_strlit("FUSE_ASYNC_READ");
    reveal_strlit("FUSE_POSIX_LOCKS");
    reveal_strlit("FUSE_FILE_OPS");
    reveal_strlit("FUSE_ATOMIC_O_TRUNC");
    reveal_strlit("FUSE_EXPORT_SUPPORT");
    reveal_strlit("FUSE_BIG_WRITES");
    reveal_strlit("FUSE_DONT_MASK");
    reveal_strlit("FUSE_SPLICE_WRITE");
    reveal_strlit("FUSE_SPLICE_MOVE");
    reveal_strlit("FUSE_SPLICE_READ");
    reveal_strlit("FUSE_FLOCK_LOCKS");
    reveal_strlit("FUSE_HAS_IOCTL_DIR");
    reveal_strlit("FUSE_AUTO_INVAL_DATA");
    reveal_strlit("FUSE_DO_READDIRPLUS");
    reveal_strlit("FUSE_READDIRPLUS_AUTO");
    reveal_strlit("FUSE_ASYNC_DIO");
    reveal_strlit("FUSE_WRITEBACK_CACHE");
    reveal_strlit("FUSE_NO_OPEN_SUPPORT");
    reveal_strlit("FUSE_PARALLEL_DIROPS");
    reveal_strlit("FUSE_HANDLE_KILLPRIV");
    reveal_strlit("FUSE_POSIX_ACL");
    reveal_strlit("FUSE_REPLY_BUF");
    reveal_strlit("FUSE_PAYLOAD_BUF");
    reveal_strlit("FUSE_ACCESS_EXTENDED");
    reveal_strlit("FUSE_NODE_RWLOCK");
    reveal_strlit("FUSE_RENAME_SWAP");
    reveal_strlit("FUSE_RENAME_EXCL");
    reveal_strlit("FUSE_ALLOCATE");
    reveal_strlit("FUSE_EXCHANGE_DATA");
    reveal_strlit("FUSE_CASE_INSENSITIVE");
    reveal_strlit("FUSE_VOL_RENAME");
    reveal_strlit("FUSE_XTIMES");
    reveal_strlit("FUSE_ABORT_ERROR");
    reveal_strlit("FUSE_MAX_PAGES");
    reveal_strlit("FUSE_CACHE_SYMLINKS");
    reveal_strlit("FUSE_NO_OPENDIR_SUPPORT");
    reveal_strlit("FUSE_EXPLICIT_INVAL_DATA");
    reveal_strlit("FUSE_MAP_ALIGNMENT");
    reveal_strlit("FUSE_SUBMOUNTS");
    reveal_strlit("FUSE_HANDLE_KILLPRIV_V2");
    reveal_strlit("FUSE_SETXATTR_EXT");
    reveal_strlit("FUSE_INIT_EXT");
    reveal_strlit("FUSE_INIT_RESERVED");
    reveal_strlit("FUSE_SECURITY_CTX");
    reveal_strlit("FUSE_HAS_INODE_DAX");
    reveal_strlit("FUSE_CREATE_SUPP_GROUP");
    reveal_strlit("FUSE_HAS_EXPIRE_ONLY");
    reveal_strlit("FUSE_DIRECT_IO_ALLOW_MMAP");
    reveal_strlit("FUSE_PASSTHROUGH");
    reveal_strlit("FUSE_NO_EXPORT_SUPPORT");
    reveal_strlit("FUSE_HAS_RESEND");
    reveal_strlit("FUSE_ALLOW_IDMAP");
    reveal_strlit("FUSE_OVER_IO_URING");
    reveal_strlit("FUSE_REQUEST_TIMEOUT");
    let x = name_of(a, os)->0;
    let y = name_of(b, os)->0;
    assert(x.len() == y.len());
    assert(x[6] == y[6]);
    assert(x[12] == y[12]);
}

} // verus!
