//! File timestamps.

use vstd::prelude::*;

verus! {

/// A 64-bit UNIX timestamp.
pub type Time = u64;

/// The timestamps to give a file.
#[derive(Debug, Clone, Copy, PartialEq, Eq)]
pub struct FileTimes {
    accessed: Option<Time>,
    modified: Option<Time>,
}

impl FileTimes {
    /// The access time to set, if any.
    pub closed spec fn accessed_time(&self) -> Option<Time> {
        self.accessed
    }

    /// The modification time to set, if any.
    pub closed spec fn modified_time(&self) -> Option<Time> {
        self.modified
    }

    /// Times with no value set.
    pub fn new() -> (t: FileTimes)
        ensures
            t.accessed_time() is None,
            t.modified_time() is None,
    {
        FileTimes { accessed: None, modified: None }
    }

    /// Sets the access time.
    pub fn set_accessed(&mut self, t: Time) -> (r: &mut FileTimes)
        ensures
            r.accessed_time() == Some(t),
            r.modified_time() == old(self).modified_time(),
            *final(self) == *final(r),
    {
        self.accessed = Some(t);
        self
    }

    /// Sets the modification time.
    pub fn set_modified(&mut self, t: Time) -> (r: &mut FileTimes)
        ensures
            r.modified_time() == Some(t),
            r.accessed_time() == old(self).accessed_time(),
            *final(self) == *final(r),
    {
        self.modified = Some(t);
        self
    }
}

impl Default for FileTimes {
    fn default() -> (t: FileTimes)
        ensures
            t.accessed_time() is None,
            t.modified_time() is None,
    {
        FileTimes::new()
    }
}

} // verus!
