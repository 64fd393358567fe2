//! Mount options: their text, their meaning, and which of them go together.

use vstd::prelude::*;
use vstd::string::*;

use crate::acl::SessionACL;
use crate::error::{custom, outcome, Error, ErrorKind, ErrorView};
use crate::target::{Os, Target};
use crate::text::{
    after_prefix, contains_piece, has_piece, joined, quote, quoted, starts_with, text_eq,
};

verus! {

/// Mount options accepted by the FUSE filesystem type
/// See 'man mount.fuse' for details
#[derive(Debug, PartialEq, Eq, Hash)]
pub enum MountOption {
    /// Set the name of the source in mtab
    FSName(String),
    /// Set the filesystem subtype in mtab
    Subtype(String),
    /// Allows passing an option which is not otherwise supported in these enums
    CUSTOM(String),
    /// Select macFUSE's FSKit backend.
    ///
    /// This option is accepted only by the macOS libfuse2 mount path. Use of
    /// `backend=fskit` through [`MountOption::CUSTOM`] is rejected.
    MacFsKit,
    /* Parameterless options */
    /// Automatically unmount when the mounting process exits
    ///
    /// `AutoUnmount` requires `AllowOther` or `AllowRoot`. If `AutoUnmount` is set and neither
    /// `Allow...` is set, the FUSE configuration must permit `allow_other`, otherwise mounting
    /// will fail.
    AutoUnmount,
    /// Enable permission checking in the kernel
    DefaultPermissions,
    /* Flags */
    /// Enable special character and block devices
    Dev,
    /// Disable special character and block devices
    NoDev,
    /// Honor set-user-id and set-groupd-id bits on files
    Suid,
    /// Don't honor set-user-id and set-groupd-id bits on files
    NoSuid,
    /// Read-only filesystem
    RO,
    /// Read-write filesystem
    RW,
    /// Allow execution of binaries
    Exec,
    /// Don't allow execution of binaries
    NoExec,
    /// Support inode access time
    Atime,
    /// Don't update inode access time
    NoAtime,
    /// All modifications to directories will be done synchronously
    DirSync,
    /// All I/O will be done synchronously
    Sync,
    /// All I/O will be done asynchronously
    Async,
}

/// What a [`MountOption`] says.
pub enum OptionView {
    FSName(Seq<char>),
    Subtype(Seq<char>),
    CUSTOM(Seq<char>),
    MacFsKit,
    AutoUnmount,
    DefaultPermissions,
    Dev,
    NoDev,
    Suid,
    NoSuid,
    RO,
    RW,
    Exec,
    NoExec,
    Atime,
    NoAtime,
    DirSync,
    Sync,
    Async,
}

impl View for MountOption {
    type V = OptionView;

    open spec fn view(&self) -> OptionView {
        match self {
            MountOption::FSName(name) => OptionView::FSName(name@),
            MountOption::Subtype(subtype) => OptionView::Subtype(subtype@),
            MountOption::CUSTOM(value) => OptionView::CUSTOM(value@),
            MountOption::MacFsKit => OptionView::MacFsKit,
            MountOption::AutoUnmount => OptionView::AutoUnmount,
            MountOption::DefaultPermissions => OptionView::DefaultPermissions,
            MountOption::Dev => OptionView::Dev,
            MountOption::NoDev => OptionView::NoDev,
            MountOption::Suid => OptionView::Suid,
            MountOption::NoSuid => OptionView::NoSuid,
            MountOption::RO => OptionView::RO,
            MountOption::RW => OptionView::RW,
            MountOption::Exec => OptionView::Exec,
            MountOption::NoExec => OptionView::NoExec,
            MountOption::Atime => OptionView::Atime,
            MountOption::NoAtime => OptionView::NoAtime,
            MountOption::DirSync => OptionView::DirSync,
            MountOption::Sync => OptionView::Sync,
            MountOption::Async => OptionView::Async,
        }
    }
}

/// What each of the options says.
pub open spec fn views(options: Seq<MountOption>) -> Seq<OptionView> {
    options.map_values(|option: MountOption| option@)
}

impl Clone for MountOption {
    fn clone(&self) -> (r: MountOption)
        ensures
            r@ == self@,
    {
        match self {
            MountOption::FSName(name) => MountOption::FSName(name.clone()),
            MountOption::Subtype(subtype) => MountOption::Subtype(subtype.clone()),
            MountOption::CUSTOM(value) => MountOption::CUSTOM(value.clone()),
            MountOption::MacFsKit => MountOption::MacFsKit,
            MountOption::AutoUnmount => MountOption::AutoUnmount,
            MountOption::DefaultPermissions => MountOption::DefaultPermissions,
            MountOption::Dev => MountOption::Dev,
            MountOption::NoDev => MountOption::NoDev,
            MountOption::Suid => MountOption::Suid,
            MountOption::NoSuid => MountOption::NoSuid,
            MountOption::RO => MountOption::RO,
            MountOption::RW => MountOption::RW,
            MountOption::Exec => MountOption::Exec,
            MountOption::NoExec => MountOption::NoExec,
            MountOption::Atime => MountOption::Atime,
            MountOption::NoAtime => MountOption::NoAtime,
            MountOption::DirSync => MountOption::DirSync,
            MountOption::Sync => MountOption::Sync,
            MountOption::Async => MountOption::Async,
        }
    }
}

/// Fuser session configuration, including mount options.
#[derive(Debug, PartialEq, Eq)]
#[non_exhaustive]
pub struct Config {
    /// Mount options.
    pub mount_options: Vec<MountOption>,
    /// Who can access the filesystem.
    pub acl: SessionACL,
    /// Number of event loop threads. If unspecified, one thread is used.
    pub n_threads: Option<usize>,
    /// Use `FUSE_DEV_IOC_CLONE` to give each worker thread its own fd.
    /// This enables more efficient request processing
    /// when multiple threads are used. Requires Linux 4.5+.
    pub clone_fd: bool,
}

/// What a [`Config`] says.
pub struct ConfigView {
    pub mount_options: Seq<OptionView>,
    pub acl: SessionACL,
    pub n_threads: Option<usize>,
    pub clone_fd: bool,
}

impl View for Config {
    type V = ConfigView;

    open spec fn view(&self) -> ConfigView {
        ConfigView {
            mount_options: views(self.mount_options@),
            acl: self.acl,
            n_threads: self.n_threads,
            clone_fd: self.clone_fd,
        }
    }
}

impl Default for Config {
    fn default() -> (r: Config)
        ensures
            r.mount_options@.len() == 0,
            r.acl == SessionACL::Owner,
            r.n_threads is None,
            !r.clone_fd,
    {
        Config {
            mount_options: Vec::new(),
            acl: SessionACL::Owner,
            n_threads: None,
            clone_fd: false,
        }
    }
}

impl Clone for Config {
    fn clone(&self) -> (r: Config)
        ensures
            r@ == self@,
    {
        let mount_options = self.mount_options.clone();
        assert(views(mount_options@) =~= views(self.mount_options@));
        Config {
            mount_options,
            acl: self.acl,
            n_threads: self.n_threads,
            clone_fd: self.clone_fd,
        }
    }
}

/// Who reads an option.
#[derive(Clone, Copy, Debug, PartialEq, Eq, Structural)]
pub enum MountOptionGroup {
    KernelOption,
    KernelFlag,
    Fusermount,
}

/// How provider credentials are interpreted for owner-only ACL comparison.
#[derive(Clone, Copy, Debug, PartialEq, Eq, Structural)]
pub enum AclRequestIdentity {
    Direct,
    MacFsKitRootProxy,
}

/// A flag of the mount system call.
#[derive(Clone, Copy, Debug, PartialEq, Eq, Structural)]
pub enum MountFlag {
    /// No flag at all: what the option asks for is the system's default.
    Empty,
    RdOnly,
    NoSuid,
    NoDev,
    NoExec,
    Synchronous,
    DirSync,
    NoAtime,
    Async,
}

// ---------------------------------------------------------------------------------------
// What options mean.

/// The text by which libfuse and the kernel know an option.
pub open spec fn option_text(option: OptionView) -> Seq<char> {
    match option {
        OptionView::FSName(name) => "fsname="@ + name,
        OptionView::Subtype(subtype) => "subtype="@ + subtype,
        OptionView::CUSTOM(value) => value,
        OptionView::MacFsKit => "backend=fskit"@,
        OptionView::AutoUnmount => "auto_unmount"@,
        OptionView::DefaultPermissions => "default_permissions"@,
        OptionView::Dev => "dev"@,
        OptionView::NoDev => "nodev"@,
        OptionView::Suid => "suid"@,
        OptionView::NoSuid => "nosuid"@,
        OptionView::RO => "ro"@,
        OptionView::RW => "rw"@,
        OptionView::Exec => "exec"@,
        OptionView::NoExec => "noexec"@,
        OptionView::Atime => "atime"@,
        OptionView::NoAtime => "noatime"@,
        OptionView::DirSync => "dirsync"@,
        OptionView::Sync => "sync"@,
        OptionView::Async => "async"@,
    }
}

/// The option that a text without a parameter stands for.
pub open spec fn keyword(text: Seq<char>) -> Option<OptionView> {
    if text == "auto_unmount"@ {
        Some(OptionView::AutoUnmount)
    } else if text == "default_permissions"@ {
        Some(OptionView::DefaultPermissions)
    } else if text == "dev"@ {
        Some(OptionView::Dev)
    } else if text == "nodev"@ {
        Some(OptionView::NoDev)
    } else if text == "suid"@ {
        Some(OptionView::Suid)
    } else if text == "nosuid"@ {
        Some(OptionView::NoSuid)
    } else if text == "ro"@ {
        Some(OptionView::RO)
    } else if text == "rw"@ {
        Some(OptionView::RW)
    } else if text == "exec"@ {
        Some(OptionView::Exec)
    } else if text == "noexec"@ {
        Some(OptionView::NoExec)
    } else if text == "atime"@ {
        Some(OptionView::Atime)
    } else if text == "noatime"@ {
        Some(OptionView::NoAtime)
    } else if text == "dirsync"@ {
        Some(OptionView::DirSync)
    } else if text == "sync"@ {
        Some(OptionView::Sync)
    } else if text == "async"@ {
        Some(OptionView::Async)
    } else if text == "backend=fskit"@ {
        Some(OptionView::MacFsKit)
    } else {
        None
    }
}

/// The option that a text stands for. A text that no other option has is a custom option.
pub open spec fn option_of_text(text: Seq<char>) -> OptionView {
    if keyword(text) is Some {
        keyword(text)->0
    } else if starts_with(text, "fsname="@) {
        OptionView::FSName(text.subrange(7, text.len() as int))
    } else if starts_with(text, "subtype="@) {
        OptionView::Subtype(text.subrange(8, text.len() as int))
    } else {
        OptionView::CUSTOM(text)
    }
}

/// The option that asks for the contrary.
pub open spec fn opposite(option: OptionView) -> Option<OptionView> {
    match option {
        OptionView::Dev => Some(OptionView::NoDev),
        OptionView::NoDev => Some(OptionView::Dev),
        OptionView::Suid => Some(OptionView::NoSuid),
        OptionView::NoSuid => Some(OptionView::Suid),
        OptionView::RO => Some(OptionView::RW),
        OptionView::RW => Some(OptionView::RO),
        OptionView::Exec => Some(OptionView::NoExec),
        OptionView::NoExec => Some(OptionView::Exec),
        OptionView::Atime => Some(OptionView::NoAtime),
        OptionView::NoAtime => Some(OptionView::Atime),
        OptionView::Sync => Some(OptionView::Async),
        OptionView::Async => Some(OptionView::Sync),
        _ => None,
    }
}

/// The options that an option cannot stand beside.
pub open spec fn conflicts(option: OptionView) -> Seq<OptionView> {
    match opposite(option) {
        Some(other) => seq![other],
        None => seq![],
    }
}

/// `option` is one of the options, and so is one that it cannot stand beside.
pub open spec fn in_conflict(options: Seq<OptionView>, option: OptionView) -> bool {
    &&& options.contains(option)
    &&& exists|i: int| 0 <= i < options.len() && conflicts(#[trigger] options[i]).contains(option)
}

/// Whether two of the options cannot stand beside each other.
pub open spec fn any_conflict(options: Seq<OptionView>) -> bool {
    exists|option: OptionView| #[trigger] in_conflict(options, option)
}

/// The options in conflict among the first `n`, each once, in the order in which they come.
pub open spec fn conflict_list(options: Seq<OptionView>, n: nat) -> Seq<OptionView>
    decreases n,
{
    if n == 0 || n > options.len() {
        seq![]
    } else {
        let before = conflict_list(options, (n - 1) as nat);
        let option = options[n - 1];
        if in_conflict(options, option) && !before.contains(option) {
            before.push(option)
        } else {
            before
        }
    }
}

/// Whether a custom option names the FSKit backend.
pub open spec fn fskit_by_text(options: Seq<OptionView>) -> bool {
    exists|i: int|
        0 <= i < options.len() && (#[trigger] options[i] matches OptionView::CUSTOM(value)
            && has_piece(value, ',', "backend=fskit"@))
}

/// The `{:?}` format of an option.
pub open spec fn debug_text(option: OptionView) -> Seq<char> {
    match option {
        OptionView::FSName(name) => "FSName("@ + quoted(name) + ")"@,
        OptionView::Subtype(subtype) => "Subtype("@ + quoted(subtype) + ")"@,
        OptionView::CUSTOM(value) => "CUSTOM("@ + quoted(value) + ")"@,
        OptionView::MacFsKit => "MacFsKit"@,
        OptionView::AutoUnmount => "AutoUnmount"@,
        OptionView::DefaultPermissions => "DefaultPermissions"@,
        OptionView::Dev => "Dev"@,
        OptionView::NoDev => "NoDev"@,
        OptionView::Suid => "Suid"@,
        OptionView::NoSuid => "NoSuid"@,
        OptionView::RO => "RO"@,
        OptionView::RW => "RW"@,
        OptionView::Exec => "Exec"@,
        OptionView::NoExec => "NoExec"@,
        OptionView::Atime => "Atime"@,
        OptionView::NoAtime => "NoAtime"@,
        OptionView::DirSync => "DirSync"@,
        OptionView::Sync => "Sync"@,
        OptionView::Async => "Async"@,
    }
}

/// The first `n` options in the `{:?}` format, with commas between them.
pub open spec fn debug_items(options: Seq<OptionView>, n: nat) -> Seq<char>
    decreases n,
{
    if n == 0 || n > options.len() {
        seq![]
    } else if n == 1 {
        debug_text(options[0])
    } else {
        debug_items(options, (n - 1) as nat) + ", "@ + debug_text(options[n - 1])
    }
}

/// The `{:?}` format of a list of options.
pub open spec fn debug_list(options: Seq<OptionView>) -> Seq<char> {
    "["@ + debug_items(options, options.len()) + "]"@
}

/// What the validation of mount options gives on a target.
pub open spec fn validation(options: Seq<OptionView>, target: Target) -> Result<
    AclRequestIdentity,
    ErrorView,
> {
    if any_conflict(options) {
        Err(
            custom(
                ErrorKind::InvalidInput,
                "Conflicting mount options found: "@ + debug_list(
                    conflict_list(options, options.len()),
                ),
            ),
        )
    } else if fskit_by_text(options) {
        Err(custom(ErrorKind::InvalidInput, "backend=fskit must use MountOption::MacFsKit"@))
    } else if !options.contains(OptionView::MacFsKit) {
        Ok(AclRequestIdentity::Direct)
    } else if target.darwin_channel() {
        Ok(AclRequestIdentity::MacFsKitRootProxy)
    } else {
        Err(
            custom(
                ErrorKind::InvalidInput,
                "MountOption::MacFsKit requires the macOS libfuse2 mount path"@,
            ),
        )
    }
}

/// Who reads an option.
pub open spec fn group_of(option: OptionView) -> MountOptionGroup {
    match option {
        OptionView::FSName(_) | OptionView::Subtype(_) | OptionView::AutoUnmount =>
            MountOptionGroup::Fusermount,
        OptionView::CUSTOM(_) | OptionView::MacFsKit | OptionView::DefaultPermissions =>
            MountOptionGroup::KernelOption,
        _ => MountOptionGroup::KernelFlag,
    }
}

/// The mount flag of an option on a system.
pub open spec fn flag_of(option: OptionView, os: Os) -> Result<MountFlag, ErrorView> {
    match option {
        OptionView::Dev | OptionView::Suid | OptionView::RW | OptionView::Exec
        | OptionView::Atime => Ok(MountFlag::Empty),
        OptionView::NoDev => if os is FreeBsd {
            Err(custom(ErrorKind::Unsupported, "NoDev option is not supported on FreeBSD"@))
        } else {
            Ok(MountFlag::NoDev)
        },
        OptionView::NoSuid => Ok(MountFlag::NoSuid),
        OptionView::RO => Ok(MountFlag::RdOnly),
        OptionView::NoExec => Ok(MountFlag::NoExec),
        OptionView::NoAtime => Ok(MountFlag::NoAtime),
        OptionView::Sync => Ok(MountFlag::Synchronous),
        OptionView::Async => Ok(if os.bsd() { MountFlag::Async } else { MountFlag::Empty }),
        OptionView::DirSync if os is Linux => Ok(MountFlag::DirSync),
        OptionView::DirSync if os.bsd() => Ok(MountFlag::Synchronous),
        _ => Err(
            custom(
                ErrorKind::InvalidInput,
                "Invalid mount option for flag conversion: "@ + debug_text(option),
            ),
        ),
    }
}

// ---------------------------------------------------------------------------------------
// The options at work.

/// Whether two options say the same.
pub fn same_option(a: &MountOption, b: &MountOption) -> (r: bool)
    ensures
        r == (a@ == b@),
{
    match (a, b) {
        (MountOption::FSName(x), MountOption::FSName(y)) => text_eq(x.as_str(), y.as_str()),
        (MountOption::Subtype(x), MountOption::Subtype(y)) => text_eq(x.as_str(), y.as_str()),
        (MountOption::CUSTOM(x), MountOption::CUSTOM(y)) => text_eq(x.as_str(), y.as_str()),
        (MountOption::MacFsKit, MountOption::MacFsKit) => true,
        (MountOption::AutoUnmount, MountOption::AutoUnmount) => true,
        (MountOption::DefaultPermissions, MountOption::DefaultPermissions) => true,
        (MountOption::Dev, MountOption::Dev) => true,
        (MountOption::NoDev, MountOption::NoDev) => true,
        (MountOption::Suid, MountOption::Suid) => true,
        (MountOption::NoSuid, MountOption::NoSuid) => true,
        (MountOption::RO, MountOption::RO) => true,
        (MountOption::RW, MountOption::RW) => true,
        (MountOption::Exec, MountOption::Exec) => true,
        (MountOption::NoExec, MountOption::NoExec) => true,
        (MountOption::Atime, MountOption::Atime) => true,
        (MountOption::NoAtime, MountOption::NoAtime) => true,
        (MountOption::DirSync, MountOption::DirSync) => true,
        (MountOption::Sync, MountOption::Sync) => true,
        (MountOption::Async, MountOption::Async) => true,
        _ => false,
    }
}

/// Whether one of the options says what `wanted` says.
pub fn contains_option(options: &Vec<MountOption>, wanted: &MountOption) -> (r: bool)
    ensures
        r == views(options@).contains(wanted@),
{
    let mut i: usize = 0;
    while i < options.len()
        invariant
            i <= options@.len(),
            forall|k: int| 0 <= k < i ==> views(options@)[k] != wanted@,
        decreases options@.len() - i,
    {
        if same_option(&options[i], wanted) {
            assert(views(options@)[i as int] == wanted@);
            return true;
        }
        i = i + 1;
    }
    false
}

impl MountOption {
    /// The option that a text stands for.
    pub fn from_str(s: &str) -> (r: MountOption)
        ensures
            r@ == option_of_text(s@),
    {
        proof {
            reveal_strlit("fsname=");
            reveal_strlit("subtype=");
        }
        if text_eq(s, "auto_unmount") {
            MountOption::AutoUnmount
        } else if text_eq(s, "default_permissions") {
            MountOption::DefaultPermissions
        } else if text_eq(s, "dev") {
            MountOption::Dev
        } else if text_eq(s, "nodev") {
            MountOption::NoDev
        } else if text_eq(s, "suid") {
            MountOption::Suid
        } else if text_eq(s, "nosuid") {
            MountOption::NoSuid
        } else if text_eq(s, "ro") {
            MountOption::RO
        } else if text_eq(s, "rw") {
            MountOption::RW
        } else if text_eq(s, "exec") {
            MountOption::Exec
        } else if text_eq(s, "noexec") {
            MountOption::NoExec
        } else if text_eq(s, "atime") {
            MountOption::Atime
        } else if text_eq(s, "noatime") {
            MountOption::NoAtime
        } else if text_eq(s, "dirsync") {
            MountOption::DirSync
        } else if text_eq(s, "sync") {
            MountOption::Sync
        } else if text_eq(s, "async") {
            MountOption::Async
        } else if text_eq(s, "backend=fskit") {
            MountOption::MacFsKit
        } else if let Some(name) = after_prefix(s, "fsname=") {
            MountOption::FSName(name)
        } else if let Some(subtype) = after_prefix(s, "subtype=") {
            MountOption::Subtype(subtype)
        } else {
            MountOption::CUSTOM(s.to_owned())
        }
    }
}

impl AclRequestIdentity {
    /// Whether a request from a user is one from the session's owner.
    pub open spec fn is_owner(self, request_uid: u32, session_owner: u32) -> bool {
        request_uid == session_owner || (self is MacFsKitRootProxy && request_uid == 0)
    }

    /// Whether a request from a user is one from the session's owner. Behind FSKit the kernel's
    /// requests come from root on behalf of the owner.
    pub fn matches_owner_acl(self, request_uid: u32, session_owner: u32) -> (r: bool)
        ensures
            r == self.is_owner(request_uid, session_owner),
    {
        request_uid == session_owner || (self == AclRequestIdentity::MacFsKitRootProxy && is_root(
            request_uid,
        ))
    }
}

/// `nix::unistd::Uid::is_root`: root is the user with number 0.
#[verifier::external_body]
fn is_root(uid: u32) -> (r: bool)
    ensures
        r == (uid == 0),
{
    nix::unistd::Uid::from_raw(uid).is_root()
}

/// The options that an option cannot stand beside.
pub fn conflicts_with(option: &MountOption) -> (r: Vec<MountOption>)
    ensures
        views(r@) == conflicts(option@),
{
    let r = match option {
        MountOption::FSName(_)
        | MountOption::Subtype(_)
        | MountOption::CUSTOM(_)
        | MountOption::MacFsKit
        | MountOption::DirSync
        | MountOption::AutoUnmount
        | MountOption::DefaultPermissions => vec![],
        MountOption::Dev => vec![MountOption::NoDev],
        MountOption::NoDev => vec![MountOption::Dev],
        MountOption::Suid => vec![MountOption::NoSuid],
        MountOption::NoSuid => vec![MountOption::Suid],
        MountOption::RO => vec![MountOption::RW],
        MountOption::RW => vec![MountOption::RO],
        MountOption::Exec => vec![MountOption::NoExec],
        MountOption::NoExec => vec![MountOption::Exec],
        MountOption::Atime => vec![MountOption::NoAtime],
        MountOption::NoAtime => vec![MountOption::Atime],
        MountOption::Sync => vec![MountOption::Async],
        MountOption::Async => vec![MountOption::Sync],
    };
    assert(views(r@) =~= conflicts(option@));
    r
}

/// Whether one of the options cannot stand beside `option`.
fn conflicts_with_any(options: &Vec<MountOption>, option: &MountOption) -> (r: bool)
    ensures
        r == exists|i: int|
            0 <= i < options@.len() && conflicts(#[trigger] views(options@)[i]).contains(option@),
{
    let mut i: usize = 0;
    while i < options.len()
        invariant
            i <= options@.len(),
            forall|k: int|
                0 <= k < i ==> !conflicts(#[trigger] views(options@)[k]).contains(option@),
        decreases options@.len() - i,
    {
        let excluded = conflicts_with(&options[i]);
        assert(views(excluded@) == conflicts(views(options@)[i as int]));
        if contains_option(&excluded, option) {
            return true;
        }
        i = i + 1;
    }
    false
}

/// The options in conflict, each once, in the order in which they come.
fn conflicting(options: &Vec<MountOption>) -> (r: Vec<MountOption>)
    ensures
        views(r@) == conflict_list(views(options@), options@.len()),
{
    let mut r: Vec<MountOption> = Vec::new();
    let ghost all = views(options@);
    assert(views(r@) =~= conflict_list(all, 0));
    let mut i: usize = 0;
    while i < options.len()
        invariant
            i <= options@.len(),
            all == views(options@),
            views(r@) == conflict_list(all, i as nat),
        decreases options@.len() - i,
    {
        let option = &options[i];
        assert(all[i as int] == option@);
        assert(all.contains(option@));
        if conflicts_with_any(options, option) && !contains_option(&r, option) {
            let ghost before = r@;
            r.push(option.clone());
            assert(views(r@) =~= views(before).push(option@));
        }
        i = i + 1;
    }
    r
}

/// The list of options in conflict is empty exactly where no two options are in conflict.
proof fn lemma_conflict_list(options: Seq<OptionView>, n: nat)
    requires
        n <= options.len(),
    ensures
        forall|i: int|
            0 <= i < n && in_conflict(options, #[trigger] options[i]) ==> conflict_list(
                options,
                n,
            ).contains(options[i]),
        forall|option: OptionView|
            conflict_list(options, n).contains(option) ==> in_conflict(options, option),
    decreases n,
{
    if n > 0 {
        lemma_conflict_list(options, (n - 1) as nat);
        let before = conflict_list(options, (n - 1) as nat);
        let last = options[n - 1];
        let list = conflict_list(options, n);
        assert forall|i: int|
            0 <= i < n && in_conflict(options, #[trigger] options[i]) implies list.contains(
            options[i],
        ) by {
            if i < n - 1 {
                assert(before.contains(options[i]));
                let k = choose|k: int| 0 <= k < before.len() && before[k] == options[i];
                assert(list[k] == options[i]);
            } else if !before.contains(last) {
                assert(list[before.len() as int] == last);
            }
        }
        assert forall|option: OptionView| list.contains(option) implies in_conflict(
            options,
            option,
        ) by {
            let k = choose|k: int| 0 <= k < list.len() && list[k] == option;
            if k < before.len() {
                assert(before[k] == option);
                assert(before.contains(option));
            }
        }
    }
}

/// An option in the `{:?}` format.
pub fn option_debug(option: &MountOption) -> (r: String)
    ensures
        r@ == debug_text(option@),
{
    match option {
        MountOption::FSName(name) => {
            let start = joined("FSName(", quote(name.as_str()).as_str());
            joined(start.as_str(), ")")
        },
        MountOption::Subtype(subtype) => {
            let start = joined("Subtype(", quote(subtype.as_str()).as_str());
            joined(start.as_str(), ")")
        },
        MountOption::CUSTOM(value) => {
            let start = joined("CUSTOM(", quote(value.as_str()).as_str());
            joined(start.as_str(), ")")
        },
        MountOption::MacFsKit => "MacFsKit".to_owned(),
        MountOption::AutoUnmount => "AutoUnmount".to_owned(),
        MountOption::DefaultPermissions => "DefaultPermissions".to_owned(),
        MountOption::Dev => "Dev".to_owned(),
        MountOption::NoDev => "NoDev".to_owned(),
        MountOption::Suid => "Suid".to_owned(),
        MountOption::NoSuid => "NoSuid".to_owned(),
        MountOption::RO => "RO".to_owned(),
        MountOption::RW => "RW".to_owned(),
        MountOption::Exec => "Exec".to_owned(),
        MountOption::NoExec => "NoExec".to_owned(),
        MountOption::Atime => "Atime".to_owned(),
        MountOption::NoAtime => "NoAtime".to_owned(),
        MountOption::DirSync => "DirSync".to_owned(),
        MountOption::Sync => "Sync".to_owned(),
        MountOption::Async => "Async".to_owned(),
    }
}

/// A list of options in the `{:?}` format.
fn options_debug(options: &Vec<MountOption>) -> (r: String)
    ensures
        r@ == debug_list(views(options@)),
{
    let ghost all = views(options@);
    let mut items = String::new();
    let mut i: usize = 0;
    assert(items@ =~= debug_items(all, 0));
    while i < options.len()
        invariant
            i <= options@.len(),
            all == views(options@),
            items@ == debug_items(all, i as nat),
        decreases options@.len() - i,
    {
        let text = option_debug(&options[i]);
        assert(all[i as int] == options@[i as int]@);
        if i > 0 {
            items.append(", ");
            items.append(text.as_str());
        } else {
            items = text;
        }
        i = i + 1;
    }
    let opened = joined("[", items.as_str());
    joined(opened.as_str(), "]")
}

/// Whether a custom option names the FSKit backend.
fn names_fskit(options: &Vec<MountOption>) -> (r: bool)
    ensures
        r == fskit_by_text(views(options@)),
{
    let ghost all = views(options@);
    let mut i: usize = 0;
    while i < options.len()
        invariant
            i <= options@.len(),
            all == views(options@),
            forall|k: int|
                0 <= k < i ==> !(#[trigger] all[k] matches OptionView::CUSTOM(value) && has_piece(
                    value,
                    ',',
                    "backend=fskit"@,
                )),
        decreases options@.len() - i,
    {
        assert(all[i as int] == options@[i as int]@);
        if let MountOption::CUSTOM(value) = &options[i] {
            if contains_piece(value.as_str(), ',', "backend=fskit") {
                return true;
            }
        }
        i = i + 1;
    }
    false
}

/// Checks that the mount options go together and can be had on the target, and says how the
/// credentials of requests are to be read.
pub fn validate_config(options: &Config, target: Target) -> (r: Result<AclRequestIdentity, Error>)
    ensures
        outcome(r) == validation(options@.mount_options, target),
{
    let ghost all = options@.mount_options;
    let conflicting = conflicting(&options.mount_options);
    proof {
        lemma_conflict_list(all, all.len());
    }
    if !conflicting.is_empty() {
        proof {
            let list = conflict_list(all, all.len());
            assert(list.contains(list[0]));
            assert(in_conflict(all, list[0]));
        }
        let found = options_debug(&conflicting);
        let message = joined("Conflicting mount options found: ", found.as_str());
        return Err(Error::new(ErrorKind::InvalidInput, message.as_str()));
    }
    assert(!any_conflict(all)) by {
        assert forall|option: OptionView| !#[trigger] in_conflict(all, option) by {
            if in_conflict(all, option) {
                let i = choose|i: int| 0 <= i < all.len() && all[i] == option;
                assert(in_conflict(all, all[i]));
            }
        }
    }
    if names_fskit(&options.mount_options) {
        return Err(
            Error::new(ErrorKind::InvalidInput, "backend=fskit must use MountOption::MacFsKit"),
        );
    }
    if contains_option(&options.mount_options, &MountOption::MacFsKit) {
        if !target.has_darwin_channel() {
            return Err(
                Error::new(
                    ErrorKind::InvalidInput,
                    "MountOption::MacFsKit requires the macOS libfuse2 mount path",
                ),
            );
        }
        return Ok(AclRequestIdentity::MacFsKitRootProxy);
    }
    Ok(AclRequestIdentity::Direct)
}

/// Format option to be passed to libfuse or kernel
pub fn option_to_string(option: &MountOption) -> (r: String)
    ensures
        r@ == option_text(option@),
{
    match option {
        MountOption::FSName(name) => joined("fsname=", name.as_str()),
        MountOption::Subtype(subtype) => joined("subtype=", subtype.as_str()),
        MountOption::CUSTOM(value) => value.clone(),
        MountOption::MacFsKit => "backend=fskit".to_owned(),
        MountOption::AutoUnmount => "auto_unmount".to_owned(),
        MountOption::DefaultPermissions => "default_permissions".to_owned(),
        MountOption::Dev => "dev".to_owned(),
        MountOption::NoDev => "nodev".to_owned(),
        MountOption::Suid => "suid".to_owned(),
        MountOption::NoSuid => "nosuid".to_owned(),
        MountOption::RO => "ro".to_owned(),
        MountOption::RW => "rw".to_owned(),
        MountOption::Exec => "exec".to_owned(),
        MountOption::NoExec => "noexec".to_owned(),
        MountOption::Atime => "atime".to_owned(),
        MountOption::NoAtime => "noatime".to_owned(),
        MountOption::DirSync => "dirsync".to_owned(),
        MountOption::Sync => "sync".to_owned(),
        MountOption::Async => "async".to_owned(),
    }
}

/// Who reads an option.
pub fn option_group(option: &MountOption) -> (r: MountOptionGroup)
    ensures
        r == group_of(option@),
{
    match option {
        MountOption::FSName(_) => MountOptionGroup::Fusermount,
        MountOption::Subtype(_) => MountOptionGroup::Fusermount,
        MountOption::CUSTOM(_) => MountOptionGroup::KernelOption,
        MountOption::MacFsKit => MountOptionGroup::KernelOption,
        MountOption::AutoUnmount => MountOptionGroup::Fusermount,
        MountOption::Dev => MountOptionGroup::KernelFlag,
        MountOption::NoDev => MountOptionGroup::KernelFlag,
        MountOption::Suid => MountOptionGroup::KernelFlag,
        MountOption::NoSuid => MountOptionGroup::KernelFlag,
        MountOption::RO => MountOptionGroup::KernelFlag,
        MountOption::RW => MountOptionGroup::KernelFlag,
        MountOption::Exec => MountOptionGroup::KernelFlag,
        MountOption::NoExec => MountOptionGroup::KernelFlag,
        MountOption::Atime => MountOptionGroup::KernelFlag,
        MountOption::NoAtime => MountOptionGroup::KernelFlag,
        MountOption::DirSync => MountOptionGroup::KernelFlag,
        MountOption::Sync => MountOptionGroup::KernelFlag,
        MountOption::Async => MountOptionGroup::KernelFlag,
        MountOption::DefaultPermissions => MountOptionGroup::KernelOption,
    }
}

/// The mount flag of an option on a system.
pub fn option_to_flag(option: &MountOption, os: Os) -> (r: Result<MountFlag, Error>)
    ensures
        outcome(r) == flag_of(option@, os),
{
    match option {
        // There is no option for dev. It's the absence of NoDev
        MountOption::Dev => Ok(MountFlag::Empty),
        MountOption::NoDev => match os {
            Os::FreeBsd => Err(
                Error::new(ErrorKind::Unsupported, "NoDev option is not supported on FreeBSD"),
            ),
            _ => Ok(MountFlag::NoDev),
        },
        MountOption::Suid => Ok(MountFlag::Empty),
        MountOption::NoSuid => Ok(MountFlag::NoSuid),
        MountOption::RW => Ok(MountFlag::Empty),
        MountOption::RO => Ok(MountFlag::RdOnly),
        MountOption::Exec => Ok(MountFlag::Empty),
        MountOption::NoExec => Ok(MountFlag::NoExec),
        MountOption::Atime => Ok(MountFlag::Empty),
        MountOption::NoAtime => Ok(MountFlag::NoAtime),
        MountOption::Async => if os.is_bsd() {
            Ok(MountFlag::Async)
        } else {
            Ok(MountFlag::Empty)
        },
        MountOption::Sync => Ok(MountFlag::Synchronous),
        MountOption::DirSync => match os {
            Os::Linux => Ok(MountFlag::DirSync),
            Os::Macos => Err(no_flag(option)),
            _ => Ok(MountFlag::Synchronous),
        },
        _ => Err(no_flag(option)),
    }
}

/// The error for an option that is no flag of the mount system call.
fn no_flag(option: &MountOption) -> (r: Error)
    ensures
        r@ == custom(
            ErrorKind::InvalidInput,
            "Invalid mount option for flag conversion: "@ + debug_text(option@),
        ),
{
    let text = option_debug(option);
    let message = joined("Invalid mount option for flag conversion: ", text.as_str());
    Error::new(ErrorKind::InvalidInput, message.as_str())
}

} // verus!
