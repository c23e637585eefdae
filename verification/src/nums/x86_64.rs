//! System call numbers of x86_64.

use vstd::prelude::*;

verus! {

/// Legacy `open(2)`; musl may use this on x86_64 instead of `openat`.
pub const SYS_OPEN: usize = 2;

pub const SYS_IOCTL: usize = 16;

pub const SYS_WRITEV: usize = 20;

pub const SYS_READ: usize = 0;

pub const SYS_WRITE: usize = 1;

pub const SYS_OPENAT: usize = 257;

pub const SYS_CLOSE: usize = 3;

pub const SYS_EXIT: usize = 60;

pub const SYS_EXIT_GROUP: usize = 231;

pub const SYS_SET_TID_ADDRESS: usize = 218;

pub const SYS_MMAP: usize = 9;

pub const SYS_BRK: usize = 12;

pub const SYS_ARCH_PRCTL: usize = 158;

} // verus!
