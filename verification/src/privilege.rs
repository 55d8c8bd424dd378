//! The calls that resolve names and set the process's identity.
//!
//! Nothing here is proved: each function hands one call to the system and
//! gives back what came of it. What a run does with the answer is decided,
//! and proved, in the machine.

use vstd::prelude::*;

verus! {

/// Calls `users::get_user_by_name` and gives the id of the user found.
///
/// The answer is that of the system's user database at the time of the
/// call: `None` where it holds no such name, or where the lookup failed.
/// Nothing is claimed of it.
#[verifier::external_body]
pub(crate) fn lookup_uid(name: &str) -> (found: Option<u32>) {
    users::get_user_by_name(name).map(|user| user.uid())
}

/// Calls `users::get_group_by_name` and gives the id of the group found.
///
/// The answer is that of the system's group database at the time of the
/// call: `None` where it holds no such name, or where the lookup failed.
/// Nothing is claimed of it.
#[verifier::external_body]
pub(crate) fn lookup_gid(name: &str) -> (found: Option<u32>) {
    users::get_group_by_name(name).map(|group| group.gid())
}

/// Calls `nix::unistd::setuid` with the given id.
///
/// Whether the call succeeds is the system's decision; on failure the
/// error number is handed back. Nothing is claimed of the outcome. A
/// change that succeeded lasts for the life of the process.
#[verifier::external_body]
pub(crate) fn set_uid(uid: u32) -> (outcome: Result<(), nix::errno::Errno>) {
    nix::unistd::setuid(nix::unistd::Uid::from_raw(uid))
}

/// Calls `nix::unistd::setgid` with the given id.
///
/// Whether the call succeeds is the system's decision; on failure the
/// error number is handed back. Nothing is claimed of the outcome. A
/// change that succeeded lasts for the life of the process.
#[verifier::external_body]
pub(crate) fn set_gid(gid: u32) -> (outcome: Result<(), nix::errno::Errno>) {
    nix::unistd::setgid(nix::unistd::Gid::from_raw(gid))
}

} // verus!
