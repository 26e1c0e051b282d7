//! Modules the kernel loads and runs.

use vstd::prelude::*;

verus! {

/// A handle to a module loaded by the kernel.
#[derive(Clone, Copy)]
pub struct Module(pub usize);

} // verus!
