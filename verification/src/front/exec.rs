//! The kernel's task types.

use vstd::prelude::*;

verus! {

/// A queue of tasks waiting for an event, as the kernel hands it out.
pub struct WaitQueue(pub &'static ());

/// Identifies a task.
pub type TaskId = u64;

/// Identifies a process.
pub type ProcId = u32;

/// The priority of a task.
pub type Priority = i32;

/// The exit code of a task.
pub type ExitCode = i32;

} // verus!
