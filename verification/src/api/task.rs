//! Tasks and processes: identifiers, signals and the configuration of new
//! tasks.
//!
//! The kernel calls themselves are made by the caller; this module decides
//! what is asked of the kernel.

use vstd::prelude::*;
use crate::api::fs::ops::text;
use crate::raw::exec::{Priority, ProcId, TaskId};

pub use crate::raw::exec::{IntInfo, Sig};

verus! {

/// Identifies a process.
pub type PID = ProcId;

/// Identifies a task.
pub type TID = TaskId;

/// The identifier of the current process, from what the kernel reports:
/// zero when it reports none.
pub fn pid(process: Option<ProcId>) -> (p: PID)
    ensures
        p == match process {
            Some(x) => x,
            None => 0,
        },
{
    match process {
        Some(x) => x,
        None => 0,
    }
}

/// The number of milliseconds the kernel is asked to sleep for a duration
/// of `millis` milliseconds: its low 64 bits.
pub fn sleep_millis(millis: u128) -> (ms: u64)
    ensures
        ms == millis as u64,
{
    millis as u64
}

/// A signal to deliver to a task, with its data.
#[derive(Debug, Clone, Copy, PartialEq, Eq, Structural)]
pub struct Signal {
    pub tid: TID,
    pub sig: Sig,
    pub data: u64,
}

/// The delivery of `sig` with `data` to the task `tid`.
pub fn send_signal(tid: TID, sig: Sig, data: u64) -> (s: Signal)
    ensures
        s == (Signal { tid, sig, data }),
{
    Signal { tid, sig, data }
}

/// The delivery of `sig` with `data` to the current task, `current`.
pub fn raise(current: TID, sig: Sig, data: u64) -> (s: Signal)
    ensures
        s == (Signal { tid: current, sig, data }),
{
    send_signal(current, sig, data)
}

/// An interrupt for the task `tid`: `INTR` with data zero.
pub fn interrupt(tid: TID) -> (s: Signal)
    ensures
        s == (Signal { tid, sig: Sig::INTR, data: 0 }),
{
    send_signal(tid, Sig::INTR, 0)
}

/// A termination request for the task `tid`: `TERM` with data zero.
pub fn terminate(tid: TID) -> (s: Signal)
    ensures
        s == (Signal { tid, sig: Sig::TERM, data: 0 }),
{
    send_signal(tid, Sig::TERM, 0)
}

/// What a handle to a spawned task sends: nothing while the task has not
/// recorded its identifier (zero), else `sig` with `data` to it.
pub fn handle_signal(task: TID, sig: Sig, data: u64) -> (s: Option<Signal>)
    ensures
        s == if task == 0 {
            None
        } else {
            Some(Signal { tid: task, sig, data })
        },
{
    if task != 0 {
        Some(send_signal(task, sig, data))
    } else {
        None
    }
}

/// What a handle to a spawned task kills: nothing while the task has not
/// recorded its identifier (zero), else that task.
pub fn handle_kill(task: TID) -> (k: Option<TID>)
    ensures
        k == if task == 0 {
            None
        } else {
            Some(task)
        },
{
    if task != 0 {
        Some(task)
    } else {
        None
    }
}

/// The failure of a task.
#[derive(Debug, Clone, Copy)]
pub struct TaskError;

/// The configuration of a task to spawn: its name, priority and the CPU it
/// is bound to, each left to the default when not set.
pub struct Builder {
    name: Option<String>,
    priority: Option<Priority>,
    cpu_affinity: Option<usize>,
}

/// What a task is spawned with.
pub struct SpawnSettings {
    pub name: String,
    pub priority: Priority,
    pub cpu: Option<usize>,
}

impl Builder {
    /// The name set, if any.
    pub closed spec fn spec_name(&self) -> Option<Seq<char>> {
        match self.name {
            Some(n) => Some(n@),
            None => None,
        }
    }

    /// The priority set, if any.
    pub closed spec fn spec_priority(&self) -> Option<Priority> {
        self.priority
    }

    /// The CPU set, if any.
    pub closed spec fn spec_affinity(&self) -> Option<usize> {
        self.cpu_affinity
    }

    /// A builder with nothing set.
    pub fn new() -> (b: Builder)
        ensures
            b.spec_name() is None,
            b.spec_priority() is None,
            b.spec_affinity() is None,
    {
        Builder { name: None, priority: None, cpu_affinity: None }
    }

    /// Sets the name of the task.
    pub fn name(self, name: String) -> (b: Builder)
        ensures
            b.spec_name() == Some(name@),
            b.spec_priority() == self.spec_priority(),
            b.spec_affinity() == self.spec_affinity(),
    {
        Builder { name: Some(name), ..self }
    }

    /// Sets the priority of the task.
    pub fn priority(self, p: Priority) -> (b: Builder)
        ensures
            b.spec_priority() == Some(p),
            b.spec_name() == self.spec_name(),
            b.spec_affinity() == self.spec_affinity(),
    {
        Builder { priority: Some(p), ..self }
    }

    /// Binds the task to the CPU `cpu`.
    pub fn affinity(self, cpu: usize) -> (b: Builder)
        ensures
            b.spec_affinity() == Some(cpu),
            b.spec_name() == self.spec_name(),
            b.spec_priority() == self.spec_priority(),
    {
        Builder { cpu_affinity: Some(cpu), ..self }
    }

    /// What the task is spawned with: the name set or `spawned`, the
    /// priority set or zero, and the CPU set, if any.
    pub fn settings(self) -> (s: SpawnSettings)
        ensures
            s.name@ == match self.spec_name() {
                Some(n) => n,
                None => "spawned"@,
            },
            s.priority == match self.spec_priority() {
                Some(p) => p,
                None => 0,
            },
            s.cpu == self.spec_affinity(),
    {
        let name = match self.name {
            Some(n) => n,
            None => text("spawned"),
        };
        let priority = match self.priority {
            Some(p) => p,
            None => 0,
        };
        SpawnSettings { name, priority, cpu: self.cpu_affinity }
    }
}

impl Default for Builder {
    fn default() -> (b: Builder)
        ensures
            b.spec_name() is None,
            b.spec_priority() is None,
            b.spec_affinity() is None,
    {
        Builder::new()
    }
}

} // verus!
