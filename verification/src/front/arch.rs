//! The amd64 view of the processor: the saved state of an interrupted
//! context and the delivery modes of inter-processor interrupts.

use vstd::prelude::*;

verus! {

/// The state of the processor when an interrupt, exception or system call
/// was taken.
#[derive(Debug, Clone, Copy)]
pub struct TrapFrame {
    /// RAX, general-purpose; often the syscall number and return value.
    pub rax: u64,
    /// RBX, general-purpose; saved but not used for syscalls.
    pub rbx: u64,
    /// RCX, general-purpose; on `syscall` entry, the user return address.
    pub rcx: u64,
    /// RDX, general-purpose; often the third syscall argument.
    pub rdx: u64,
    /// RSI, general-purpose; the second syscall argument.
    pub rsi: u64,
    /// RDI, general-purpose; the first syscall argument.
    pub rdi: u64,
    /// RBP, the base pointer.
    pub rbp: u64,
    /// R8, general-purpose; the fifth syscall argument.
    pub r8: u64,
    /// R9, general-purpose; the sixth syscall argument.
    pub r9: u64,
    /// R10, general-purpose; the fourth syscall argument.
    pub r10: u64,
    /// R11, general-purpose; on `syscall` entry, the user RFLAGS.
    pub r11: u64,
    /// R12, general-purpose, callee-saved.
    pub r12: u64,
    /// R13, general-purpose, callee-saved.
    pub r13: u64,
    /// R14, general-purpose, callee-saved.
    pub r14: u64,
    /// R15, general-purpose, callee-saved.
    pub r15: u64,
    /// The instruction pointer to return to.
    pub rip: u64,
    /// The code segment selector, with the privilege level of the interrupted context.
    pub cs: u64,
    /// RFLAGS, the CPU flags.
    pub rflags: u64,
    /// The stack pointer at the time of the interrupt.
    pub rsp: u64,
    /// The stack segment selector.
    pub ss: u64,
}

/// How an inter-processor interrupt is delivered: the bits OR-ed into the
/// interrupt command register.
#[derive(Debug, Clone, Copy, PartialEq, Eq, Structural)]
pub enum DeliveryMode {
    /// To the target processors.
    Fixed,
    /// To the processor with the lowest priority.
    LowestPri,
    /// A system management interrupt.
    Smi,
    /// A non-maskable interrupt.
    Nmi,
    /// An INIT interrupt, which resets the target.
    Init,
    /// A startup interrupt, which boots an application processor.
    StartUp,
}

/// The command-register bits of `m`: its three-bit code shifted by 8.
pub open spec fn delivery_bits(m: DeliveryMode) -> u32 {
    match m {
        DeliveryMode::Fixed => 0x000,
        DeliveryMode::LowestPri => 0x100,
        DeliveryMode::Smi => 0x200,
        DeliveryMode::Nmi => 0x400,
        DeliveryMode::Init => 0x500,
        DeliveryMode::StartUp => 0x600,
    }
}

impl DeliveryMode {
    /// The command-register bits of the mode.
    pub fn bits(self) -> (b: u32)
        ensures
            b == delivery_bits(self),
    {
        match self {
            DeliveryMode::Fixed => 0x000,
            DeliveryMode::LowestPri => 0x100,
            DeliveryMode::Smi => 0x200,
            DeliveryMode::Nmi => 0x400,
            DeliveryMode::Init => 0x500,
            DeliveryMode::StartUp => 0x600,
        }
    }
}

/// The bits of a delivery mode lie in bits 8 to 10 of the command register,
/// and name the mode.
pub proof fn lemma_delivery_bits(m: DeliveryMode, n: DeliveryMode)
    ensures
        delivery_bits(m) & !0x700u32 == 0,
        delivery_bits(m) == delivery_bits(n) ==> m == n,
{
    let b = delivery_bits(m);
    assert(b == 0x000 || b == 0x100 || b == 0x200 || b == 0x400 || b == 0x500 || b == 0x600);
    assert((b == 0x000u32 || b == 0x100u32 || b == 0x200u32 || b == 0x400u32 || b == 0x500u32
        || b == 0x600u32) ==> b & !0x700u32 == 0) by (bit_vector);
}

} // verus!
