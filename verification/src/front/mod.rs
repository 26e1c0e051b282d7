//! The kernel's side of the interface: the types it declares for devices,
//! memory, tasks, modules, file systems and the processor.

pub mod arch;
pub mod device;
pub mod exec;
pub mod mem;
pub mod module;
pub mod vfs;
