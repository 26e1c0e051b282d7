//! Tasks and signals, as the library sees them.

use vstd::prelude::*;
use crate::front::arch::TrapFrame;

verus! {

/// A queue of tasks waiting for an event, as the kernel hands it out.
pub struct WaitQueue(pub &'static ());

/// Identifies a task.
pub type TaskId = u64;

/// Identifies a process.
pub type ProcId = u64;

/// The priority of a task.
pub type Priority = i32;

/// The exit code of a task.
pub type ExitCode = i32;

/// A signal delivered to a task. Each signal is one bit; the bits above
/// `RSVD` are reserved and zero.
#[non_exhaustive]
#[derive(Debug, Clone, Copy, PartialEq, Eq, Structural)]
pub enum Sig {
    /// A request to terminate.
    TERM,
    /// An interrupt.
    INTR,
    /// A processor exception.
    EXCP,
    /// User signal 0.
    USR0,
    /// User signal 1.
    USR1,
    /// User signal 2.
    USR2,
    /// User signal 3.
    USR3,
    /// Reserved.
    RSVD,
}

/// The bit that stands for `s`.
pub open spec fn sig_bits(s: Sig) -> u64 {
    match s {
        Sig::TERM => 1,
        Sig::INTR => 2,
        Sig::EXCP => 4,
        Sig::USR0 => 8,
        Sig::USR1 => 16,
        Sig::USR2 => 32,
        Sig::USR3 => 64,
        Sig::RSVD => 128,
    }
}

impl Sig {
    /// The bit that stands for the signal.
    pub fn bits(self) -> (b: u64)
        ensures
            b == sig_bits(self),
    {
        match self {
            Sig::TERM => 1,
            Sig::INTR => 2,
            Sig::EXCP => 4,
            Sig::USR0 => 8,
            Sig::USR1 => 16,
            Sig::USR2 => 32,
            Sig::USR3 => 64,
            Sig::RSVD => 128,
        }
    }
}

/// Each signal is a single bit at or below `RSVD`, and different signals
/// are different bits.
pub proof fn lemma_sig_bits(s: Sig, t: Sig)
    ensures
        sig_bits(s) & (sig_bits(s) - 1) as u64 == 0,
        0 < sig_bits(s) <= 128,
        s != t ==> sig_bits(s) & sig_bits(t) == 0,
{
    let b = sig_bits(s);
    let c = sig_bits(t);
    assert((b == 1 || b == 2 || b == 4 || b == 8 || b == 16 || b == 32 || b == 64 || b == 128)
        ==> b & ((b - 1) as u64) == 0) by (bit_vector);
    assert((b == 1 || b == 2 || b == 4 || b == 8 || b == 16 || b == 32 || b == 64 || b == 128)
        && (c == 1 || c == 2 || c == 4 || c == 8 || c == 16 || c == 32 || c == 64 || c == 128)
        && b != c ==> b & c == 0) by (bit_vector);
}

/// What a signal handler is given: the signal, its data, and the saved
/// state of the interrupted context.
pub struct IntInfo {
    pub sig: Sig,
    pub data: u64,
    pub frame: Box<TrapFrame>,
}

} // verus!
