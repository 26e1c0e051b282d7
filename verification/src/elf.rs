//! ELF symbol-table entries.

use vstd::prelude::*;

verus! {

/// An entry of an ELF64 symbol table.
#[derive(Debug, Clone, Copy, PartialEq, Eq, Structural)]
pub struct ElfSym {
    pub st_name: u32,
    pub st_info: u8,
    pub st_other: u8,
    pub st_shndx: u16,
    pub st_value: u64,
    pub st_size: u64,
}

} // verus!
