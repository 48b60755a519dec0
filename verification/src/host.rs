//! The host system's constants and its last-error indicator.
//!
//! Nothing here is proved: each function hands one item of `libc` or `errno`
//! to the verified code, under a contract that is taken on trust.
use vstd::prelude::*;

verus! {

/// `libc::PRIO_PROCESS`, the selector with which the host's priority
/// primitives address a single process. `libc` defines it as 0.
#[verifier::external_body]
pub(crate) fn prio_process() -> (c: u32)
    ensures
        c == 0,
{
    libc::PRIO_PROCESS as u32
}

/// `libc::PRIO_PGRP`, the selector with which the host's priority primitives
/// address a process group. `libc` defines it as 1.
#[verifier::external_body]
pub(crate) fn prio_pgrp() -> (c: u32)
    ensures
        c == 1,
{
    libc::PRIO_PGRP as u32
}

/// `libc::PRIO_USER`, the selector with which the host's priority primitives
/// address the processes of a user. `libc` defines it as 2.
#[verifier::external_body]
pub(crate) fn prio_user() -> (c: u32)
    ensures
        c == 2,
{
    libc::PRIO_USER as u32
}

/// `errno::set_errno`: stores `code` in the calling thread's last-error
/// indicator. It returns nothing, so the contract claims nothing.
#[verifier::external_body]
pub(crate) fn set_last_error(code: i32) {
    errno::set_errno(errno::Errno(code))
}

/// `errno::errno`: the code that the calling thread's last-error indicator
/// holds now. The value depends on what the host did before, so nothing is
/// claimed of it.
#[verifier::external_body]
pub(crate) fn last_error() -> (code: i32) {
    errno::errno().0
}

} // verus!
