//! Fixed sizes and addresses of the executor's memory layout.
use vstd::prelude::*;

verus! {

/// Size in bytes of the stack used while an application runs.
pub const USER_STACK_SIZE: usize = 4096 * 2;

/// Size in bytes of the stack used while the kernel runs.
pub const KERNEL_STACK_SIZE: usize = 4096 * 2;

/// Alignment in bytes of both stack regions.
pub const STACK_ALIGN: usize = 4096;

/// Largest number of applications the table may describe.
pub const MAX_APP_NUM: usize = 16;

/// Physical address at which every application is loaded and entered.
pub const APP_BASE_ADDRESS: usize = 0x80400000;

/// Capacity in bytes of the execution window.
pub const APP_SIZE_LIMIT: usize = 0x20000;

/// Number of system call counters kept per task.
pub const MAX_SYSCALL_NUM: usize = 500;

} // verus!
