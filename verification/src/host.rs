//! The host: the user that runs this process, and whether the process writes to
//! a terminal. The answers come from the operating system; nothing here is
//! proved, and nothing is claimed of the values that come back.

use vstd::prelude::*;

verus! {

/// The error number of a failed system call.
#[verifier::external_type_specification]
#[verifier::external_body]
pub struct ExErrno(nix::errno::Errno);

/// `nix::unistd::getuid`: the real user id of this process, as a plain number.
/// The call cannot fail. The contract says nothing of the number.
#[verifier::external_body]
pub(crate) fn getuid() -> u32 {
    nix::unistd::getuid().as_raw()
}

/// `nix::unistd::getgid`: the real group id of this process, as a plain number.
/// The call cannot fail. The contract says nothing of the number.
#[verifier::external_body]
pub(crate) fn getgid() -> u32 {
    nix::unistd::getgid().as_raw()
}

/// `nix::unistd::getgroups`: the supplementary group ids of this process, as
/// plain numbers in the order in which the system lists them, or the error
/// number of the system call. The contract says nothing of either.
#[verifier::external_body]
pub(crate) fn getgroups() -> Result<Vec<u32>, nix::errno::Errno> {
    nix::unistd::getgroups().map(|groups| groups.into_iter().map(|group| group.as_raw()).collect())
}

/// `nix::unistd::isatty` on the standard output of this process: whether it is
/// a terminal, or the error number where the system cannot tell. The contract
/// says nothing of either.
#[verifier::external_body]
pub(crate) fn isatty() -> Result<bool, nix::errno::Errno> {
    nix::unistd::isatty(nix::libc::STDOUT_FILENO)
}

/// The number of `errno`, as `nix::errno::Errno` defines it by its
/// representation. The contract says nothing of the number.
#[verifier::external_body]
pub(crate) fn errno_number(errno: nix::errno::Errno) -> i32 {
    errno as i32
}

} // verus!
