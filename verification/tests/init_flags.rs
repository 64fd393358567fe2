use fuser::init_flags::{
    capability_label, capability_name, capability_status, CapabilityStatus, InitFlags,
};
use fuser::target::Os;

#[test]
fn macos_extension_namespace_matches_macfuse() {
    assert_eq!(
        [
            InitFlags::FUSE_REPLY_BUF,
            InitFlags::FUSE_PAYLOAD_BUF,
            InitFlags::FUSE_ACCESS_EXTENDED,
            InitFlags::FUSE_NODE_RWLOCK,
            InitFlags::FUSE_RENAME_SWAP,
            InitFlags::FUSE_RENAME_EXCL,
            InitFlags::FUSE_ALLOCATE,
            InitFlags::FUSE_EXCHANGE_DATA,
            InitFlags::FUSE_CASE_INSENSITIVE,
            InitFlags::FUSE_VOL_RENAME,
            InitFlags::FUSE_XTIMES,
        ],
        [
            1 << 21,
            1 << 22,
            1 << 23,
            1 << 24,
            1 << 25,
            1 << 26,
            1 << 27,
            1 << 28,
            1 << 29,
            1 << 30,
            1 << 31,
        ]
    );
}

#[test]
fn standard_extension_namespace_matches_linux_uapi() {
    assert_eq!(
        [
            InitFlags::FUSE_ABORT_ERROR,
            InitFlags::FUSE_MAX_PAGES,
            InitFlags::FUSE_CACHE_SYMLINKS,
            InitFlags::FUSE_NO_OPENDIR_SUPPORT,
            InitFlags::FUSE_EXPLICIT_INVAL_DATA,
            InitFlags::FUSE_MAP_ALIGNMENT,
            InitFlags::FUSE_SUBMOUNTS,
            InitFlags::FUSE_HANDLE_KILLPRIV_V2,
            InitFlags::FUSE_SETXATTR_EXT,
            InitFlags::FUSE_INIT_EXT,
            InitFlags::FUSE_INIT_RESERVED,
            InitFlags::FUSE_SECURITY_CTX,
            InitFlags::FUSE_HAS_INODE_DAX,
            InitFlags::FUSE_CREATE_SUPP_GROUP,
            InitFlags::FUSE_HAS_EXPIRE_ONLY,
            InitFlags::FUSE_DIRECT_IO_ALLOW_MMAP,
            InitFlags::FUSE_PASSTHROUGH,
            InitFlags::FUSE_NO_EXPORT_SUPPORT,
            InitFlags::FUSE_HAS_RESEND,
            InitFlags::FUSE_ALLOW_IDMAP,
            InitFlags::FUSE_OVER_IO_URING,
            InitFlags::FUSE_REQUEST_TIMEOUT,
        ],
        [
            1 << 21,
            1 << 22,
            1 << 23,
            1 << 24,
            1 << 25,
            1 << 26,
            1 << 27,
            1 << 28,
            1 << 29,
            1 << 30,
            1 << 31,
            1 << 32,
            1 << 33,
            1 << 34,
            1 << 35,
            1 << 36,
            1 << 37,
            1 << 38,
            1 << 39,
            1 << 40,
            1 << 41,
            1 << 42,
        ]
    );
}

#[test]
fn flags_split_into_a_low_and_a_high_half() {
    let flags = InitFlags::from_bits_retain(InitFlags::FUSE_REQUEST_TIMEOUT | 1);
    assert_eq!(flags.pair(), (1, 1 << 10));
    assert_eq!(InitFlags::from_bits_retain(u64::MAX).pair(), (u32::MAX, u32::MAX));
    assert_eq!(flags.bits(), (1 << 42) | 1);
}

#[test]
fn every_system_knows_its_own_flags() {
    assert_eq!(InitFlags::all(Os::Macos).bits(), (1 << 32) - 1);
    assert_eq!(InitFlags::all(Os::Linux).bits(), (1 << 43) - 1);
    assert_eq!(InitFlags::all(Os::FreeBsd), InitFlags::all(Os::Linux));
}

#[test]
fn a_capability_is_enabled_when_both_sides_ask_for_it() {
    let kernel = InitFlags::from_bits_retain(0b0110);
    let client = InitFlags::from_bits_retain(0b1010);
    let status = |bit: u64| capability_status(bit, kernel, client, Os::Linux);
    assert_eq!(status(0), Some(CapabilityStatus::NotSupportedNorRequested));
    assert_eq!(status(1), Some(CapabilityStatus::Enabled));
    assert_eq!(status(2), Some(CapabilityStatus::NotRequestedByClient));
    assert_eq!(status(3), Some(CapabilityStatus::NotSupportedByKernel));
    assert_eq!(status(30), None);
    assert_eq!(status(63), None);
    let none = InitFlags::from_bits_retain(0);
    assert_eq!(
        capability_status(30, none, none, Os::Macos),
        Some(CapabilityStatus::NotSupportedNorRequested)
    );
}

const SHARED: [(&str, u64); 21] = [
    ("FUSE_ASYNC_READ", InitFlags::FUSE_ASYNC_READ),
    ("FUSE_POSIX_LOCKS", InitFlags::FUSE_POSIX_LOCKS),
    ("FUSE_FILE_OPS", InitFlags::FUSE_FILE_OPS),
    ("FUSE_ATOMIC_O_TRUNC", InitFlags::FUSE_ATOMIC_O_TRUNC),
    ("FUSE_EXPORT_SUPPORT", InitFlags::FUSE_EXPORT_SUPPORT),
    ("FUSE_BIG_WRITES", InitFlags::FUSE_BIG_WRITES),
    ("FUSE_DONT_MASK", InitFlags::FUSE_DONT_MASK),
    ("FUSE_SPLICE_WRITE", InitFlags::FUSE_SPLICE_WRITE),
    ("FUSE_SPLICE_MOVE", InitFlags::FUSE_SPLICE_MOVE),
    ("FUSE_SPLICE_READ", InitFlags::FUSE_SPLICE_READ),
    ("FUSE_FLOCK_LOCKS", InitFlags::FUSE_FLOCK_LOCKS),
    ("FUSE_HAS_IOCTL_DIR", InitFlags::FUSE_HAS_IOCTL_DIR),
    ("FUSE_AUTO_INVAL_DATA", InitFlags::FUSE_AUTO_INVAL_DATA),
    ("FUSE_DO_READDIRPLUS", InitFlags::FUSE_DO_READDIRPLUS),
    ("FUSE_READDIRPLUS_AUTO", InitFlags::FUSE_READDIRPLUS_AUTO),
    ("FUSE_ASYNC_DIO", InitFlags::FUSE_ASYNC_DIO),
    ("FUSE_WRITEBACK_CACHE", InitFlags::FUSE_WRITEBACK_CACHE),
    ("FUSE_NO_OPEN_SUPPORT", InitFlags::FUSE_NO_OPEN_SUPPORT),
    ("FUSE_PARALLEL_DIROPS", InitFlags::FUSE_PARALLEL_DIROPS),
    ("FUSE_HANDLE_KILLPRIV", InitFlags::FUSE_HANDLE_KILLPRIV),
    ("FUSE_POSIX_ACL", InitFlags::FUSE_POSIX_ACL),
];

const MACOS: [(&str, u64); 11] = [
    ("FUSE_REPLY_BUF", InitFlags::FUSE_REPLY_BUF),
    ("FUSE_PAYLOAD_BUF", InitFlags::FUSE_PAYLOAD_BUF),
    ("FUSE_ACCESS_EXTENDED", InitFlags::FUSE_ACCESS_EXTENDED),
    ("FUSE_NODE_RWLOCK", InitFlags::FUSE_NODE_RWLOCK),
    ("FUSE_RENAME_SWAP", InitFlags::FUSE_RENAME_SWAP),
    ("FUSE_RENAME_EXCL", InitFlags::FUSE_RENAME_EXCL),
    ("FUSE_ALLOCATE", InitFlags::FUSE_ALLOCATE),
    ("FUSE_EXCHANGE_DATA", InitFlags::FUSE_EXCHANGE_DATA),
    ("FUSE_CASE_INSENSITIVE", InitFlags::FUSE_CASE_INSENSITIVE),
    ("FUSE_VOL_RENAME", InitFlags::FUSE_VOL_RENAME),
    ("FUSE_XTIMES", InitFlags::FUSE_XTIMES),
];

const STANDARD: [(&str, u64); 22] = [
    ("FUSE_ABORT_ERROR", InitFlags::FUSE_ABORT_ERROR),
    ("FUSE_MAX_PAGES", InitFlags::FUSE_MAX_PAGES),
    ("FUSE_CACHE_SYMLINKS", InitFlags::FUSE_CACHE_SYMLINKS),
    ("FUSE_NO_OPENDIR_SUPPORT", InitFlags::FUSE_NO_OPENDIR_SUPPORT),
    ("FUSE_EXPLICIT_INVAL_DATA", InitFlags::FUSE_EXPLICIT_INVAL_DATA),
    ("FUSE_MAP_ALIGNMENT", InitFlags::FUSE_MAP_ALIGNMENT),
    ("FUSE_SUBMOUNTS", InitFlags::FUSE_SUBMOUNTS),
    ("FUSE_HANDLE_KILLPRIV_V2", InitFlags::FUSE_HANDLE_KILLPRIV_V2),
    ("FUSE_SETXATTR_EXT", InitFlags::FUSE_SETXATTR_EXT),
    ("FUSE_INIT_EXT", InitFlags::FUSE_INIT_EXT),
    ("FUSE_INIT_RESERVED", InitFlags::FUSE_INIT_RESERVED),
    ("FUSE_SECURITY_CTX", InitFlags::FUSE_SECURITY_CTX),
    ("FUSE_HAS_INODE_DAX", InitFlags::FUSE_HAS_INODE_DAX),
    ("FUSE_CREATE_SUPP_GROUP", InitFlags::FUSE_CREATE_SUPP_GROUP),
    ("FUSE_HAS_EXPIRE_ONLY", InitFlags::FUSE_HAS_EXPIRE_ONLY),
    ("FUSE_DIRECT_IO_ALLOW_MMAP", InitFlags::FUSE_DIRECT_IO_ALLOW_MMAP),
    ("FUSE_PASSTHROUGH", InitFlags::FUSE_PASSTHROUGH),
    ("FUSE_NO_EXPORT_SUPPORT", InitFlags::FUSE_NO_EXPORT_SUPPORT),
    ("FUSE_HAS_RESEND", InitFlags::FUSE_HAS_RESEND),
    ("FUSE_ALLOW_IDMAP", InitFlags::FUSE_ALLOW_IDMAP),
    ("FUSE_OVER_IO_URING", InitFlags::FUSE_OVER_IO_URING),
    ("FUSE_REQUEST_TIMEOUT", InitFlags::FUSE_REQUEST_TIMEOUT),
];

#[test]
fn every_flag_is_called_by_its_name() {
    for (os, own) in [(Os::Macos, &MACOS[..]), (Os::Linux, &STANDARD[..])] {
        for bit in 0..64 {
            let found = SHARED.iter().chain(own).find(|(_, flag)| *flag == 1 << bit);
            assert_eq!(capability_name(bit, os), found.map(|(name, _)| *name));
            let label = match found {
                Some((name, _)) => (*name).to_owned(),
                None => format!("(1 << {bit})"),
            };
            assert_eq!(capability_label(bit, os), label);
        }
    }
    assert_eq!(capability_name(30, Os::Macos), Some("FUSE_VOL_RENAME"));
    assert_eq!(capability_name(30, Os::FreeBsd), Some("FUSE_INIT_EXT"));
    assert_eq!(capability_label(63, Os::Linux), "(1 << 63)");
    assert_eq!(capability_label(32, Os::Macos), "(1 << 32)");
}
