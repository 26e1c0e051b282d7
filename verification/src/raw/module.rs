//! Modules loaded by the kernel, as the library sees them.

use vstd::prelude::*;

verus! {

/// A handle to a module loaded by the kernel.
#[derive(Clone, Copy)]
pub struct Module(pub usize);

} // verus!
