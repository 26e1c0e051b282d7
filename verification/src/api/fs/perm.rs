//! Permissions of a file-system object.

use vstd::prelude::*;

verus! {

/// Permissions of a file-system object.
#[derive(Debug, Clone, Copy, PartialEq, Eq)]
pub struct Permissions {
    pub(crate) ro: bool,
}

impl Permissions {
    /// Whether these permissions describe a read-only object.
    pub closed spec fn is_readonly(&self) -> bool {
        self.ro
    }

    /// Permissions with the given read-only flag.
    pub fn from_readonly(readonly: bool) -> (p: Permissions)
        ensures
            p.is_readonly() == readonly,
    {
        Permissions { ro: readonly }
    }

    /// Whether these permissions describe a read-only object.
    pub fn readonly(&self) -> (r: bool)
        ensures
            r == self.is_readonly(),
    {
        self.ro
    }

    /// Sets the read-only flag.
    pub fn set_readonly(&mut self, readonly: bool)
        ensures
            final(self).is_readonly() == readonly,
    {
        self.ro = readonly;
    }
}

} // verus!
