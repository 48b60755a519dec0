//! The target selector, the calls that the host is asked to make, and the
//! meaning of what it answers.
use crate::host::{last_error, prio_pgrp, prio_process, prio_user, set_last_error};
use vstd::prelude::*;

verus! {

/// Says what kind of entity an identifier names.
#[derive(Clone, Copy, Debug, PartialEq, Eq, Structural)]
pub enum Which {
    /// A single process, named by its process id.
    Process,
    /// A process group, named by its group id.
    Group,
    /// Every process of a user, named by the user id.
    User,
}

impl Which {
    /// The number by which the host's primitives know this kind.
    pub open spec fn spec_selector(self) -> u32 {
        match self {
            Which::Process => 0,
            Which::Group => 1,
            Which::User => 2,
        }
    }

    /// The number by which the host's primitives know this kind.
    #[verifier::when_used_as_spec(spec_selector)]
    pub fn selector(self) -> (c: u32)
        ensures
            c == self.spec_selector(),
    {
        match self {
            Which::Process => prio_process(),
            Which::Group => prio_pgrp(),
            Which::User => prio_user(),
        }
    }
}

/// A failure that the host reported, with the code that its last-error
/// indicator held.
#[derive(Clone, Copy, Debug, PartialEq, Eq, Structural)]
pub struct OsError {
    /// The host's error code.
    pub code: i32,
}

/// One call of the host's primitive that writes a priority.
#[derive(Clone, Copy, Debug, PartialEq, Eq, Structural)]
pub struct SetCall {
    /// The selector of the target's kind.
    pub which: u32,
    /// The target's identifier, as the host takes it.
    pub who: u32,
    /// The priority to set, handed on as it came.
    pub priority: i32,
}

/// One call of the host's primitive that reads a priority.
#[derive(Clone, Copy, Debug, PartialEq, Eq, Structural)]
pub struct GetCall {
    /// The selector of the target's kind.
    pub which: u32,
    /// The target's identifier, as the host takes it.
    pub who: u32,
}

/// The identifier that the host receives for `who`: the same 32 bits read as
/// an unsigned number, so a negative `who` stands 2^32 higher.
pub open spec fn target_id_of(who: i32) -> u32 {
    if who >= 0 {
        who as u32
    } else {
        (who + 0x1_0000_0000) as u32
    }
}

/// The write that sets the priority of `(which, who)` to `priority`.
pub open spec fn set_call(which: Which, who: i32, priority: i32) -> SetCall {
    SetCall { which: which.spec_selector(), who: target_id_of(who), priority }
}

/// The write that sets the priority of the caller's own process, group or
/// user: the identifier is the reserved 0.
pub open spec fn self_set_call(which: Which, priority: i32) -> SetCall {
    SetCall { which: which.spec_selector(), who: 0, priority }
}

/// The read that asks for the priority of `(which, who)`.
pub open spec fn get_call(which: Which, who: i32) -> GetCall {
    GetCall { which: which.spec_selector(), who: target_id_of(who) }
}

/// The read that asks for the priority of the caller's own process, group or
/// user: the identifier is the reserved 0.
pub open spec fn self_get_call(which: Which) -> GetCall {
    GetCall { which: which.spec_selector(), who: 0 }
}

/// What a read means, given the number it returned and the code that the
/// last-error indicator held afterwards. The indicator alone decides: while it
/// is clear the number is the priority, whatever its sign.
pub open spec fn get_outcome_of(value: i32, indicator: i32) -> Result<i32, OsError> {
    if indicator == 0 {
        Ok(value)
    } else {
        Err(OsError { code: indicator })
    }
}

/// Converts a signed identifier to the unsigned one that the host takes.
pub fn target_id(who: i32) -> (id: u32)
    ensures
        id == target_id_of(who),
{
    let id: u32 = #[verifier::truncate] (who as u32);
    assert(who >= 0 ==> (who as u32) == who) by (bit_vector);
    assert(who < 0 ==> (who as u32) == who + 0x1_0000_0000) by (bit_vector);
    id
}

/// Prepares the write that sets the priority of the calling process's own
/// process, group or user.
///
/// Priorities are usually in the range of -20..19, dependent on the system;
/// the value is not checked here.
pub fn set_self_priority(which: Which, priority: i32) -> (call: SetCall)
    ensures
        call == self_set_call(which, priority),
{
    set_priority(which, 0, priority)
}

/// Prepares the write that sets the priority of the process, group or user
/// that `who` names.
///
/// Priorities are usually in the range of -20..19, dependent on the system;
/// the value is not checked here.
pub fn set_priority(which: Which, who: i32, priority: i32) -> (call: SetCall)
    ensures
        call == set_call(which, who, priority),
{
    SetCall { which: which.selector(), who: target_id(who), priority }
}

/// Prepares the read of the priority of the calling process's own process,
/// group or user, and clears the calling thread's last-error indicator.
pub fn get_self_priority(which: Which) -> (call: GetCall)
    ensures
        call == self_get_call(which),
{
    get_priority(which, 0)
}

/// Prepares the read of the priority of the process, group or user that `who`
/// names, and clears the calling thread's last-error indicator.
///
/// The host's read returns the priority itself, and a priority may be any
/// number, negative ones included. A failure shows only in the indicator, so
/// it has to be clear when the read begins: make the call on this thread,
/// with nothing between.
pub fn get_priority(which: Which, who: i32) -> (call: GetCall)
    ensures
        call == get_call(which, who),
{
    let call = GetCall { which: which.selector(), who: target_id(who) };
    set_last_error(0);
    call
}

/// Decides what a read means from the number it returned and the code that
/// the last-error indicator held afterwards.
pub fn get_outcome(value: i32, indicator: i32) -> (r: Result<i32, OsError>)
    ensures
        r == get_outcome_of(value, indicator),
{
    if indicator == 0 {
        Ok(value)
    } else {
        Err(OsError { code: indicator })
    }
}

impl SetCall {
    /// Turns the status that the host's write returned into the result of the
    /// operation. A status of 0 is success. Any other is a failure, and the
    /// error carries the code that the last-error indicator holds now.
    pub fn finish(self, status: i32) -> (r: Result<(), OsError>)
        ensures
            status == 0 ==> r == Ok::<(), OsError>(()),
            status != 0 ==> r is Err,
    {
        if status == 0 {
            Ok(())
        } else {
            Err(OsError { code: last_error() })
        }
    }
}

impl GetCall {
    /// Turns the number that the host's read returned into the result of the
    /// operation, by the code that the last-error indicator holds now.
    pub fn finish(self, value: i32) -> (r: Result<i32, OsError>)
        ensures
            exists|indicator: i32| r == get_outcome_of(value, indicator),
    {
        let indicator: i32 = last_error();
        get_outcome(value, indicator)
    }
}

/// The three kinds have three different selectors: a selector names its kind.
pub proof fn selector_names_its_kind(a: Which, b: Which)
    requires
        a.spec_selector() == b.spec_selector(),
    ensures
        a == b,
{
}

/// To set one's own priority is to set the priority of identifier 0.
pub proof fn self_set_is_set_of_zero(which: Which, priority: i32)
    ensures
        self_set_call(which, priority) == set_call(which, 0, priority),
{
}

/// To read one's own priority is to read the priority of identifier 0.
pub proof fn self_get_is_get_of_zero(which: Which)
    ensures
        self_get_call(which) == get_call(which, 0),
{
}

/// With the indicator clear a read succeeds with the number returned, be it
/// negative, zero or positive; with the indicator set it fails with the
/// indicator's code, whatever number was returned.
pub proof fn indicator_alone_decides(value: i32, indicator: i32)
    ensures
        indicator == 0 ==> get_outcome_of(value, indicator) == Ok::<i32, OsError>(value),
        indicator != 0 ==> (get_outcome_of(value, indicator) matches Err(e) && e.code == indicator),
{
}

} // verus!
