//! The kernel-side logic of two ArceOS exercises: an early bump allocator and
//! the Linux system call layer for user programs.

pub mod align;
pub mod bump_allocator;
pub mod bump_laws;
pub mod context;
pub mod errno;
pub mod fd_table;
pub mod kernel;
pub mod machine;
pub mod mapping;
pub mod nums;
pub mod open_options;
pub mod path;
pub mod user_data;

pub use crate::bump_allocator::{AllocError, AllocResult, Allocation, EarlyAllocator, Layout};
pub use crate::context::{Arch, UserContext};
pub use crate::kernel::dispatch::{handle_syscall, resume};
pub use crate::kernel::Kernel;
