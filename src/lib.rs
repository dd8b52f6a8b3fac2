//! The core of a capability-based microkernel: the kernel object tables,
//! port-based message passing, the capability rules, and the system call
//! dispatch with its error discipline.

pub mod capability;
pub mod error;
pub mod globals;
pub mod interrupts;
pub mod ipc;
pub mod memory;
pub mod port;
pub mod syscall;
