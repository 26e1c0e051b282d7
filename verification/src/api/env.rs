//! The task's environment.

use vstd::prelude::*;
use crate::api::fs::ops::text;
use crate::api::path::PathBuf;
use crate::io::{Error, ErrorKind};

verus! {

/// The current directory, from what the kernel reports for the task: a
/// task the kernel does not know has none.
pub fn current_dir(pwd: Option<String>) -> (r: Result<PathBuf, Error>)
    ensures
        match pwd {
            Some(p) => r matches Ok(b) && b@ == p@,
            None => r matches Err(e) && e.spec_kind() == ErrorKind::InvalidData && e.spec_message()
                == "Unknown task"@,
        },
{
    match pwd {
        Some(p) => Ok(PathBuf::from_string(p)),
        None => Err(Error::new(ErrorKind::InvalidData, text("Unknown task"))),
    }
}

} // verus!
