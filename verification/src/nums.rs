//! System calls and their numbers, which depend on the architecture.

pub mod generic;
pub mod x86_64;

use crate::context::Arch;
use vstd::prelude::*;

verus! {

/// The system calls that are known by number.
#[derive(Clone, Copy, Debug, PartialEq, Eq, Structural)]
pub enum Syscall {
    Ioctl,
    Writev,
    Read,
    Write,
    Openat,
    Close,
    Exit,
    ExitGroup,
    SetTidAddress,
    Mmap,
    Brk,
    Getuid,
    Geteuid,
    Getgid,
    Getegid,
    SetRobustList,
    Uname,
    Getpid,
    Gettid,
    Tgkill,
    RtSigaction,
    RtSigprocmask,
    ClockGettime,
    Mprotect,
    Prlimit64,
    Getrandom,
    Readlinkat,
    Open,
    ArchPrctl,
    /// A number without a system call.
    Unknown,
}

impl Syscall {
    /// The system call of a number in the generic table.
    pub open spec fn of_generic(num: usize) -> Syscall {
        if num == generic::SYS_IOCTL {
            Syscall::Ioctl
        } else if num == generic::SYS_WRITEV {
            Syscall::Writev
        } else if num == generic::SYS_READ {
            Syscall::Read
        } else if num == generic::SYS_WRITE {
            Syscall::Write
        } else if num == generic::SYS_OPENAT {
            Syscall::Openat
        } else if num == generic::SYS_CLOSE {
            Syscall::Close
        } else if num == generic::SYS_EXIT {
            Syscall::Exit
        } else if num == generic::SYS_EXIT_GROUP {
            Syscall::ExitGroup
        } else if num == generic::SYS_SET_TID_ADDRESS {
            Syscall::SetTidAddress
        } else if num == generic::SYS_MMAP {
            Syscall::Mmap
        } else if num == generic::SYS_BRK {
            Syscall::Brk
        } else if num == generic::SYS_GETUID {
            Syscall::Getuid
        } else if num == generic::SYS_GETEUID {
            Syscall::Geteuid
        } else if num == generic::SYS_GETGID {
            Syscall::Getgid
        } else if num == generic::SYS_GETEGID {
            Syscall::Getegid
        } else if num == generic::SYS_SET_ROBUST_LIST {
            Syscall::SetRobustList
        } else if num == generic::SYS_UNAME {
            Syscall::Uname
        } else if num == generic::SYS_GETPID {
            Syscall::Getpid
        } else if num == generic::SYS_GETTID {
            Syscall::Gettid
        } else if num == generic::SYS_TGKILL {
            Syscall::Tgkill
        } else if num == generic::SYS_RT_SIGACTION {
            Syscall::RtSigaction
        } else if num == generic::SYS_RT_SIGPROCMASK {
            Syscall::RtSigprocmask
        } else if num == generic::SYS_CLOCK_GETTIME {
            Syscall::ClockGettime
        } else if num == generic::SYS_MPROTECT {
            Syscall::Mprotect
        } else if num == generic::SYS_PRLIMIT64 {
            Syscall::Prlimit64
        } else if num == generic::SYS_GETRANDOM {
            Syscall::Getrandom
        } else if num == generic::SYS_READLINKAT {
            Syscall::Readlinkat
        } else {
            Syscall::Unknown
        }
    }

    /// The system call of a number on x86_64.
    pub open spec fn of_x86_64(num: usize) -> Syscall {
        if num == x86_64::SYS_OPEN {
            Syscall::Open
        } else if num == x86_64::SYS_IOCTL {
            Syscall::Ioctl
        } else if num == x86_64::SYS_WRITEV {
            Syscall::Writev
        } else if num == x86_64::SYS_READ {
            Syscall::Read
        } else if num == x86_64::SYS_WRITE {
            Syscall::Write
        } else if num == x86_64::SYS_OPENAT {
            Syscall::Openat
        } else if num == x86_64::SYS_CLOSE {
            Syscall::Close
        } else if num == x86_64::SYS_EXIT {
            Syscall::Exit
        } else if num == x86_64::SYS_EXIT_GROUP {
            Syscall::ExitGroup
        } else if num == x86_64::SYS_SET_TID_ADDRESS {
            Syscall::SetTidAddress
        } else if num == x86_64::SYS_MMAP {
            Syscall::Mmap
        } else if num == x86_64::SYS_BRK {
            Syscall::Brk
        } else if num == x86_64::SYS_ARCH_PRCTL {
            Syscall::ArchPrctl
        } else {
            Syscall::Unknown
        }
    }

    /// The system call of a number.
    pub open spec fn of(arch: Arch, num: usize) -> Syscall {
        if arch == Arch::X86_64 {
            Syscall::of_x86_64(num)
        } else {
            Syscall::of_generic(num)
        }
    }

    /// Looks a number up.
    pub fn decode(arch: Arch, num: usize) -> (r: Syscall)
        ensures
            r == Syscall::of(arch, num),
    {
        if arch == Arch::X86_64 {
            match num {
                x86_64::SYS_OPEN => Syscall::Open,
                x86_64::SYS_IOCTL => Syscall::Ioctl,
                x86_64::SYS_WRITEV => Syscall::Writev,
                x86_64::SYS_READ => Syscall::Read,
                x86_64::SYS_WRITE => Syscall::Write,
                x86_64::SYS_OPENAT => Syscall::Openat,
                x86_64::SYS_CLOSE => Syscall::Close,
                x86_64::SYS_EXIT => Syscall::Exit,
                x86_64::SYS_EXIT_GROUP => Syscall::ExitGroup,
                x86_64::SYS_SET_TID_ADDRESS => Syscall::SetTidAddress,
                x86_64::SYS_MMAP => Syscall::Mmap,
                x86_64::SYS_BRK => Syscall::Brk,
                x86_64::SYS_ARCH_PRCTL => Syscall::ArchPrctl,
                _ => Syscall::Unknown,
            }
        } else {
            match num {
                generic::SYS_IOCTL => Syscall::Ioctl,
                generic::SYS_WRITEV => Syscall::Writev,
                generic::SYS_READ => Syscall::Read,
                generic::SYS_WRITE => Syscall::Write,
                generic::SYS_OPENAT => Syscall::Openat,
                generic::SYS_CLOSE => Syscall::Close,
                generic::SYS_EXIT => Syscall::Exit,
                generic::SYS_EXIT_GROUP => Syscall::ExitGroup,
                generic::SYS_SET_TID_ADDRESS => Syscall::SetTidAddress,
                generic::SYS_MMAP => Syscall::Mmap,
                generic::SYS_BRK => Syscall::Brk,
                generic::SYS_GETUID => Syscall::Getuid,
                generic::SYS_GETEUID => Syscall::Geteuid,
                generic::SYS_GETGID => Syscall::Getgid,
                generic::SYS_GETEGID => Syscall::Getegid,
                generic::SYS_SET_ROBUST_LIST => Syscall::SetRobustList,
                generic::SYS_UNAME => Syscall::Uname,
                generic::SYS_GETPID => Syscall::Getpid,
                generic::SYS_GETTID => Syscall::Gettid,
                generic::SYS_TGKILL => Syscall::Tgkill,
                generic::SYS_RT_SIGACTION => Syscall::RtSigaction,
                generic::SYS_RT_SIGPROCMASK => Syscall::RtSigprocmask,
                generic::SYS_CLOCK_GETTIME => Syscall::ClockGettime,
                generic::SYS_MPROTECT => Syscall::Mprotect,
                generic::SYS_PRLIMIT64 => Syscall::Prlimit64,
                generic::SYS_GETRANDOM => Syscall::Getrandom,
                generic::SYS_READLINKAT => Syscall::Readlinkat,
                _ => Syscall::Unknown,
            }
        }
    }
}

/// No system call has two numbers on one architecture.
pub proof fn law_numbers_distinct(arch: Arch, m: usize, n: usize)
    requires
        Syscall::of(arch, m) == Syscall::of(arch, n),
        Syscall::of(arch, m) != Syscall::Unknown,
    ensures
        m == n,
{
}

/// The system call of every number: each call has exactly the number of its
/// table, or none there.
pub proof fn law_numbers(arch: Arch, num: usize)
    ensures
        arch == Arch::X86_64 ==> {
            let call = Syscall::of(arch, num);
            &&& call == Syscall::Read <==> num == 0
            &&& call == Syscall::Write <==> num == 1
            &&& call == Syscall::Open <==> num == 2
            &&& call == Syscall::Close <==> num == 3
            &&& call == Syscall::Mmap <==> num == 9
            &&& call == Syscall::Brk <==> num == 12
            &&& call == Syscall::Ioctl <==> num == 16
            &&& call == Syscall::Writev <==> num == 20
            &&& call == Syscall::Exit <==> num == 60
            &&& call == Syscall::ArchPrctl <==> num == 158
            &&& call == Syscall::SetTidAddress <==> num == 218
            &&& call == Syscall::ExitGroup <==> num == 231
            &&& call == Syscall::Openat <==> num == 257
            &&& call != Syscall::Getuid
            &&& call != Syscall::Geteuid
            &&& call != Syscall::Getgid
            &&& call != Syscall::Getegid
            &&& call != Syscall::SetRobustList
            &&& call != Syscall::Uname
            &&& call != Syscall::Getpid
            &&& call != Syscall::Gettid
            &&& call != Syscall::Tgkill
            &&& call != Syscall::RtSigaction
            &&& call != Syscall::RtSigprocmask
            &&& call != Syscall::ClockGettime
            &&& call != Syscall::Mprotect
            &&& call != Syscall::Prlimit64
            &&& call != Syscall::Getrandom
            &&& call != Syscall::Readlinkat
        },
        arch != Arch::X86_64 ==> {
            let call = Syscall::of(arch, num);
            &&& call == Syscall::Ioctl <==> num == 29
            &&& call == Syscall::Openat <==> num == 56
            &&& call == Syscall::Close <==> num == 57
            &&& call == Syscall::Read <==> num == 63
            &&& call == Syscall::Write <==> num == 64
            &&& call == Syscall::Writev <==> num == 66
            &&& call == Syscall::Readlinkat <==> num == 78
            &&& call == Syscall::Exit <==> num == 93
            &&& call == Syscall::ExitGroup <==> num == 94
            &&& call == Syscall::SetTidAddress <==> num == 96
            &&& call == Syscall::SetRobustList <==> num == 99
            &&& call == Syscall::ClockGettime <==> num == 113
            &&& call == Syscall::Tgkill <==> num == 131
            &&& call == Syscall::RtSigaction <==> num == 134
            &&& call == Syscall::RtSigprocmask <==> num == 135
            &&& call == Syscall::Uname <==> num == 160
            &&& call == Syscall::Getpid <==> num == 172
            &&& call == Syscall::Getuid <==> num == 174
            &&& call == Syscall::Geteuid <==> num == 175
            &&& call == Syscall::Getgid <==> num == 176
            &&& call == Syscall::Getegid <==> num == 177
            &&& call == Syscall::Gettid <==> num == 178
            &&& call == Syscall::Brk <==> num == 214
            &&& call == Syscall::Mmap <==> num == 222
            &&& call == Syscall::Mprotect <==> num == 226
            &&& call == Syscall::Prlimit64 <==> num == 261
            &&& call == Syscall::Getrandom <==> num == 278
            &&& call != Syscall::Open
            &&& call != Syscall::ArchPrctl
        },
{
}

} // verus!
