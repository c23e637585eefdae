//! System call numbers of the architectures with the generic table.

use vstd::prelude::*;

verus! {

pub const SYS_IOCTL: usize = 29;

pub const SYS_WRITEV: usize = 66;

pub const SYS_READ: usize = 63;

pub const SYS_WRITE: usize = 64;

pub const SYS_OPENAT: usize = 56;

pub const SYS_CLOSE: usize = 57;

pub const SYS_EXIT: usize = 93;

pub const SYS_EXIT_GROUP: usize = 94;

pub const SYS_SET_TID_ADDRESS: usize = 96;

pub const SYS_MMAP: usize = 222;

pub const SYS_BRK: usize = 214;

pub const SYS_GETUID: usize = 174;

pub const SYS_GETEUID: usize = 175;

pub const SYS_GETGID: usize = 176;

pub const SYS_GETEGID: usize = 177;

pub const SYS_SET_ROBUST_LIST: usize = 99;

pub const SYS_UNAME: usize = 160;

pub const SYS_GETPID: usize = 172;

pub const SYS_GETTID: usize = 178;

pub const SYS_TGKILL: usize = 131;

pub const SYS_RT_SIGACTION: usize = 134;

pub const SYS_RT_SIGPROCMASK: usize = 135;

pub const SYS_CLOCK_GETTIME: usize = 113;

pub const SYS_MPROTECT: usize = 226;

pub const SYS_PRLIMIT64: usize = 261;

pub const SYS_GETRANDOM: usize = 278;

pub const SYS_READLINKAT: usize = 78;

} // verus!
