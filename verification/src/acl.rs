//! Who may use a mounted filesystem.

use vstd::prelude::*;

verus! {

/// How requests should be filtered based on the calling UID.
#[derive(Clone, Copy, Debug, PartialEq, Eq, Structural)]
pub enum SessionACL {
    /// Allow requests from any user. Corresponds to the `allow_other` mount option.
    All,
    /// Allow requests from root. Corresponds to the `allow_root` mount option.
    RootAndOwner,
    /// Allow requests from the owning UID. This is FUSE's default mode of operation.
    Owner,
}

impl Default for SessionACL {
    fn default() -> (r: SessionACL)
        ensures
            r == SessionACL::Owner,
    {
        SessionACL::Owner
    }
}

impl SessionACL {
    /// Returns the mount option string for kernel/fusermount/libfuse paths.
    /// Both `All` and `RootAndOwner` map to `allow_other` - the kernel only
    /// understands `allow_other`, and fuser enforces the root-only restriction internally.
    pub fn to_mount_option(self) -> (r: Option<&'static str>)
        ensures
            r is Some <==> self != SessionACL::Owner,
            r matches Some(text) ==> text@ == "allow_other"@,
    {
        match self {
            SessionACL::All | SessionACL::RootAndOwner => Some("allow_other"),
            SessionACL::Owner => None,
        }
    }
}

/// The kernel has to let other users in unless the owner alone may use the filesystem; which of
/// them may, it is not told.
pub proof fn law_kernel_is_told_of_other_users(
    acl: SessionACL,
    other: SessionACL,
    r: Option<&'static str>,
    s: Option<&'static str>,
)
    requires
        call_ensures(SessionACL::to_mount_option, (acl,), r),
        call_ensures(SessionACL::to_mount_option, (other,), s),
    ensures
        r is None <==> acl is Owner,
        r matches Some(a) ==> (s matches Some(b) ==> a@ == b@),
{
}

} // verus!
