//! Reading and changing the scheduling priority ("nice" value) of a process,
//! a process group or a user's processes.
//!
//! The host offers two primitives: one writes a priority and returns a status,
//! the other reads a priority and reports failure only through the calling
//! thread's last-error indicator. Both are foreign functions, so the caller
//! makes the call itself. This library decides everything around it: which
//! arguments the primitive gets, and what its result means.
//!
//! A write goes `set_priority`, the host's call, `SetCall::finish`;
//! a read goes `get_priority`, the host's call, `GetCall::finish`.

mod host;
pub mod resource;

pub use resource::{
    get_outcome, get_priority, get_self_priority, set_priority, set_self_priority, target_id,
    GetCall, OsError, SetCall, Which,
};
