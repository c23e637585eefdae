//! From the registers of a user program to a system call and back.

use crate::context::{get_syscall_num, set_syscall_ret, Registers, UserContext};
use crate::errno::{neg_errno, LinuxError};
use crate::kernel::files::{
    resume_console_fetch, resume_open_path, resume_transfer, resume_writev_entry,
    resume_writev_fetch, resume_writev_print, sys_openat, sys_writev, AT_FDCWD,
};
use crate::kernel::info::{
    sys_arch_prctl, sys_clock_gettime, sys_getrandom, sys_prlimit64, sys_readlinkat, sys_uname,
};
use crate::kernel::memory::{
    resume_finish, resume_mmap_clear, resume_mmap_find, resume_mmap_read, sys_mprotect,
};
use crate::kernel::{Kernel, KernelState};
use crate::machine::{
    Env, Event, KernelEvent, KernelPending, KernelReply, KernelStep, Pending, Reply, SpecEvent,
    SpecPending, SpecReply, SpecStep, Step,
};
use crate::nums::Syscall;
use vstd::prelude::*;

verus! {

/// The next step after a reply.
pub open spec fn step_of(reply: SpecReply) -> SpecStep {
    match reply {
        Reply::Ret(_) => Step::Done,
        Reply::Ask(action, pending) => Step::Ask(action, pending),
    }
}

/// The registers after a reply: a result is stored, an action leaves them.
pub open spec fn regs_of(reply: SpecReply, regs: Registers) -> Registers {
    match reply {
        Reply::Ret(ret) => regs.with_ret(ret as usize),
        Reply::Ask(..) => regs,
    }
}

/// What a system call does: the next step, the state and the registers.
#[verifier::reject_recursive_types(T)]
pub struct Outcome<T> {
    pub step: SpecStep,
    pub state: KernelState<T>,
    pub regs: Registers,
}

/// The outcome of a reply.
pub open spec fn outcome<T>(
    reply: SpecReply,
    state: KernelState<T>,
    regs: Registers,
) -> Outcome<T> {
    Outcome { step: step_of(reply), state, regs: regs_of(reply, regs) }
}

impl<T> KernelState<T> {
    /// What the system call in the registers does.
    pub open spec fn call(self, env: Env, regs: Registers) -> Outcome<T> {
        let a = regs.args;
        match Syscall::of(regs.arch, regs.nr) {
            Syscall::Ioctl
            | Syscall::Getuid
            | Syscall::Geteuid
            | Syscall::Getgid
            | Syscall::Getegid
            | Syscall::SetRobustList
            | Syscall::RtSigaction
            | Syscall::RtSigprocmask
            | Syscall::Tgkill => outcome(Reply::Ret(0), self, regs),
            Syscall::Getpid => outcome(Reply::Ret(1), self, regs),
            Syscall::Gettid
            | Syscall::SetTidAddress => outcome(Reply::Ret(env.task_id as isize), self, regs),
            Syscall::Uname => outcome(
                crate::kernel::info::uname_start(env, regs.arch, a[0]),
                self,
                regs,
            ),
            Syscall::ClockGettime => outcome(
                crate::kernel::info::clock_gettime_start(env, a[1]),
                self,
                regs,
            ),
            Syscall::Mprotect => outcome(
                crate::kernel::memory::mprotect_start(env, a[0], a[1], a[2] as i32),
                self,
                regs,
            ),
            Syscall::Prlimit64 => outcome(
                crate::kernel::info::prlimit64_start(env, a[3]),
                self,
                regs,
            ),
            Syscall::Getrandom => outcome(
                crate::kernel::info::getrandom_start(env, a[0], a[1]),
                self,
                regs,
            ),
            Syscall::Readlinkat => outcome(crate::machine::fail(LinuxError::ENOENT), self, regs),
            Syscall::Brk => {
                let (reply, state) = self.brk_start(env, a[0]);
                outcome(reply, state, regs)
            },
            Syscall::Open => outcome(
                crate::kernel::files::openat_start(AT_FDCWD, a[0], a[1] as i32, a[2] as u32),
                self,
                regs,
            ),
            Syscall::Openat => outcome(
                crate::kernel::files::openat_start(a[0] as i32, a[1], a[2] as i32, a[3] as u32),
                self,
                regs,
            ),
            Syscall::Close => {
                let (ret, state) = self.close(a[0] as i32);
                outcome(Reply::Ret(ret), state, regs)
            },
            Syscall::Read => outcome(self.read_start(a[0] as i32, a[1], a[2]), self, regs),
            Syscall::Write => outcome(self.write_start(a[0] as i32, a[1], a[2]), self, regs),
            Syscall::Writev => outcome(
                crate::kernel::files::writev_start(a[0] as i32, a[1], a[2] as i32),
                self,
                regs,
            ),
            Syscall::Exit | Syscall::ExitGroup => Outcome {
                step: Step::Exit(a[0] as i32),
                state: self,
                regs,
            },
            Syscall::Mmap => outcome(
                self.mmap_start(
                    env,
                    a[0],
                    a[1],
                    a[2] as i32,
                    a[3] as i32,
                    a[4] as i32,
                    a[5] as isize,
                ),
                self,
                regs,
            ),
            Syscall::ArchPrctl => {
                let (ret, regs) = crate::kernel::info::arch_prctl(regs, a[0], a[1]);
                outcome(Reply::Ret(ret), self, regs)
            },
            Syscall::Unknown => outcome(crate::machine::fail(LinuxError::ENOSYS), self, regs),
        }
    }

    /// What a system call does after its action.
    pub open spec fn proceed(self, pending: SpecPending, ev: SpecEvent<T>) -> (
        SpecReply,
        KernelState<T>,
    ) {
        match (pending, ev) {
            (Pending::OpenPath { ptr, bytes, flags, mode }, Event::Byte(b)) => (
                crate::kernel::files::path_byte(ptr, bytes, flags, mode, b),
                self,
            ),
            (Pending::OpenFile, Event::Opened(r)) => self.opened(r),
            (Pending::Transfer, Event::Count(r)) => (crate::kernel::files::transferred(r), self),
            (Pending::ConsoleFetch { count }, Event::Bytes(bytes)) => (
                crate::kernel::files::console_fetched(count, bytes),
                self,
            ),
            (Pending::ConsolePrint { count }, Event::Done) => (Reply::Ret(count as isize), self),
            (Pending::WritevEntry(w), Event::IoVec(v)) => (
                crate::kernel::files::writev_entry(w, v),
                self,
            ),
            (Pending::WritevFetch(w, len), Event::Bytes(bytes)) => (
                crate::kernel::files::writev_fetched(w, len, bytes),
                self,
            ),
            (Pending::WritevPrint(w, len), Event::Done) => (
                crate::kernel::files::writev_printed(w, len),
                self,
            ),
            (Pending::BrkMap { addr, mapped_end }, Event::Status(status)) => self.brk_mapped(
                addr,
                mapped_end,
                status,
            ),
            (Pending::MmapFind(req), Event::Found(found)) => (
                crate::kernel::memory::mmap_found(req, found),
                self,
            ),
            (Pending::MmapClear(req, start), Event::Done) => (
                crate::kernel::memory::mmap_at(req, start),
                self,
            ),
            (Pending::MmapMap(req, start), Event::Status(status)) => self.mmap_mapped(
                req,
                start,
                status,
            ),
            (Pending::MmapRead(req, start), Event::Buffer(contents)) => (
                crate::kernel::memory::mmap_read(req, start, contents),
                self,
            ),
            (Pending::MmapStore(req, start), Event::Status(status)) => self.mmap_stored(
                req,
                start,
                status,
            ),
            (Pending::MmapUndo { ret }, Event::Done) => (Reply::Ret(ret), self),
            (Pending::Finish { ok }, Event::Status(status)) => (
                crate::kernel::memory::finish(ok, status),
                self,
            ),
            _ => (Reply::Ret(0), self),
        }
    }
}

/// Whether a system call can compute with its arguments.
pub open spec fn call_defined(env: Env, regs: Registers) -> bool {
    let a = regs.args;
    match Syscall::of(regs.arch, regs.nr) {
        Syscall::Mprotect => crate::kernel::memory::mprotect_defined(a[0], a[1], a[2] as i32),
        Syscall::Getrandom => crate::kernel::info::getrandom_defined(a[0], a[1]),
        Syscall::Brk => crate::kernel::memory::page_up_defined(a[0]),
        Syscall::Mmap => crate::kernel::memory::mmap_defined(
            env,
            a[1],
            a[2] as i32,
            a[3] as i32,
            a[5] as isize,
        ),
        _ => true,
    }
}

/// Turns a reply into the next step. A result goes to the registers.
fn finish_step(uctx: &mut UserContext, reply: KernelReply) -> (r: KernelStep)
    ensures
        r@ == step_of(reply@),
        final(uctx)@ == regs_of(reply@, old(uctx)@),
        reply@ matches Reply::Ret(ret) ==> final(uctx)@.ret() as isize == ret,
{
    match reply {
        Reply::Ret(ret) => {
            assert((ret as usize) as isize == ret) by (bit_vector);
            set_syscall_ret(uctx, ret as usize);
            Step::Done
        },
        Reply::Ask(action, pending) => Step::Ask(action, pending),
    }
}

impl SpecStep {
    /// A call that goes on keeps its bounds.
    pub open spec fn wf(self) -> bool {
        self matches Step::Ask(_, pending) ==> pending.wf()
    }
}

/// Handles a system call from user space, up to its first action.
pub fn handle_syscall<T>(kernel: &mut Kernel<T>, uctx: &mut UserContext, env: Env) -> (r:
    KernelStep)
    requires
        old(kernel).wf(),
        call_defined(env, old(uctx)@),
    ensures
        final(kernel).wf(),
        r@ == old(kernel)@.call(env, old(uctx)@).step,
        final(kernel)@ == old(kernel)@.call(env, old(uctx)@).state,
        final(uctx)@ == old(kernel)@.call(env, old(uctx)@).regs,
        r@.wf(),
{
    let syscall_num: usize = get_syscall_num(uctx);
    let args: [usize; 6] = uctx.args;
    let reply: KernelReply = match Syscall::decode(uctx.arch, syscall_num) {
        Syscall::Ioctl => Reply::Ret(0),
        Syscall::Getuid | Syscall::Geteuid | Syscall::Getgid | Syscall::Getegid => Reply::Ret(
            0,
        ),
        Syscall::SetRobustList
        | Syscall::RtSigaction
        | Syscall::RtSigprocmask
        | Syscall::Tgkill => Reply::Ret(0),
        Syscall::Getpid => Reply::Ret(1),
        Syscall::Gettid => Reply::Ret(env.task_id as isize),
        Syscall::Uname => sys_uname(env, uctx.arch, args[0]),
        Syscall::ClockGettime => sys_clock_gettime(env, args[0], args[1]),
        Syscall::Mprotect => sys_mprotect(env, args[0], args[1], args[2] as i32),
        Syscall::Prlimit64 => sys_prlimit64(env, args[0], args[1], args[2], args[3]),
        Syscall::Getrandom => sys_getrandom(env, args[0], args[1], args[2]),
        Syscall::Readlinkat => Reply::Ret(
            sys_readlinkat(args[0] as i32, args[1], args[2], args[3]),
        ),
        Syscall::SetTidAddress => Reply::Ret(env.task_id as isize),
        Syscall::Brk => kernel.sys_brk(env, args[0]),
        Syscall::Open => sys_openat(AT_FDCWD, args[0], args[1] as i32, args[2] as u32),
        Syscall::Openat => sys_openat(
            args[0] as i32,
            args[1],
            args[2] as i32,
            args[3] as u32,
        ),
        Syscall::Close => Reply::Ret(kernel.sys_close(args[0] as i32)),
        Syscall::Read => kernel.sys_read(args[0] as i32, args[1], args[2]),
        Syscall::Write => kernel.sys_write(args[0] as i32, args[1], args[2]),
        Syscall::Writev => sys_writev(args[0] as i32, args[1], args[2] as i32),
        Syscall::ExitGroup => {
            return Step::Exit(args[0] as i32);
        },
        Syscall::Exit => {
            return Step::Exit(args[0] as i32);
        },
        Syscall::Mmap => kernel.sys_mmap(
            env,
            args[0],
            args[1],
            args[2] as i32,
            args[3] as i32,
            args[4] as i32,
            args[5] as isize,
        ),
        Syscall::ArchPrctl => Reply::Ret(sys_arch_prctl(uctx, args[0], args[1])),
        Syscall::Unknown => Reply::Ret(neg_errno(LinuxError::ENOSYS)),
    };
    finish_step(uctx, reply)
}

/// Goes on with a system call after the action that it asked for.
pub fn resume<T>(
    kernel: &mut Kernel<T>,
    uctx: &mut UserContext,
    pending: KernelPending,
    ev: KernelEvent<T>,
) -> (r: KernelStep)
    requires
        old(kernel).wf(),
        pending@.wf(),
        pending@.accepts(ev@),
    ensures
        final(kernel).wf(),
        ({
            let (reply, state) = old(kernel)@.proceed(pending@, ev@);
            let o = outcome(reply, state, old(uctx)@);
            &&& r@ == o.step
            &&& final(kernel)@ == o.state
            &&& final(uctx)@ == o.regs
        }),
        r@.wf(),
        ev@.failed() ==> match r@ {
            Step::Done => crate::machine::is_error(final(uctx)@.ret() as isize),
            Step::Ask(_, Pending::MmapUndo { ret }) => crate::machine::is_error(ret),
            _ => false,
        },
{
    let reply: KernelReply = match (pending, ev) {
        (Pending::OpenPath { ptr, bytes, flags, mode }, Event::Byte(b)) => resume_open_path(
            ptr,
            bytes,
            flags,
            mode,
            b,
        ),
        (Pending::OpenFile, Event::Opened(r)) => kernel.resume_open_file(r),
        (Pending::Transfer, Event::Count(r)) => resume_transfer(r),
        (Pending::ConsoleFetch { count }, Event::Bytes(bytes)) => resume_console_fetch(
            count,
            bytes,
        ),
        (Pending::ConsolePrint { count }, Event::Done) => Reply::Ret(count as isize),
        (Pending::WritevEntry(w), Event::IoVec(v)) => resume_writev_entry(w, v),
        (Pending::WritevFetch(w, len), Event::Bytes(bytes)) => resume_writev_fetch(
            w,
            len,
            bytes,
        ),
        (Pending::WritevPrint(w, len), Event::Done) => resume_writev_print(w, len),
        (Pending::BrkMap { addr, mapped_end }, Event::Status(status)) => kernel.resume_brk(
            addr,
            mapped_end,
            status,
        ),
        (Pending::MmapFind(req), Event::Found(found)) => resume_mmap_find(req, found),
        (Pending::MmapClear(req, start), Event::Done) => resume_mmap_clear(req, start),
        (Pending::MmapMap(req, start), Event::Status(status)) => kernel.resume_mmap_map(
            req,
            start,
            status,
        ),
        (Pending::MmapRead(req, start), Event::Buffer(contents)) => resume_mmap_read(
            req,
            start,
            contents,
        ),
        (Pending::MmapStore(req, start), Event::Status(status)) => kernel.resume_mmap_store(
            req,
            start,
            status,
        ),
        (Pending::MmapUndo { ret }, Event::Done) => Reply::Ret(ret),
        (Pending::Finish { ok }, Event::Status(status)) => resume_finish(ok, status),
        _ => vstd::pervasive::unreached(),
    };
    finish_step(uctx, reply)
}

} // verus!
