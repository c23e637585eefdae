//! System calls that store a record into user memory, and the ones that need
//! no action at all.

use crate::context::{Arch, Registers, UserContext};
use crate::errno::{neg_errno, LinuxError};
use crate::machine::{Action, Env, KernelReply, Pending, Reply, SpecReply};
use crate::user_data::{rlimit_bytes, timespec_bytes, uts_bytes, zero_bytes, PAIR_LEN};
use vstd::prelude::*;

verus! {

/// The operation of `arch_prctl` that sets the base of the FS segment.
pub const ARCH_SET_FS: usize = 0x1002;

/// Stores bytes into user memory, after which the call returns `ok`.
pub open spec fn store_start(env: Env, addr: usize, bytes: Seq<u8>, ok: isize) -> SpecReply {
    if env.space is None {
        crate::machine::fail(LinuxError::EFAULT)
    } else {
        Reply::Ask(Action::Store { addr, bytes }, Pending::Finish { ok })
    }
}

/// `uname` describes the system.
pub open spec fn uname_start(env: Env, arch: Arch, buf: usize) -> SpecReply {
    if buf == 0 {
        crate::machine::fail(LinuxError::EFAULT)
    } else {
        store_start(env, buf, crate::user_data::uts_record(arch), 0)
    }
}

/// `clock_gettime` always tells the epoch.
pub open spec fn clock_gettime_start(env: Env, tp: usize) -> SpecReply {
    if tp == 0 {
        crate::machine::fail(LinuxError::EFAULT)
    } else {
        store_start(env, tp, crate::user_data::zeros(PAIR_LEN as int), 0)
    }
}

/// `prlimit64` tells that there are no limits, if it is asked.
pub open spec fn prlimit64_start(env: Env, old_limit: usize) -> SpecReply {
    if old_limit == 0 {
        Reply::Ret(0)
    } else {
        store_start(env, old_limit, Seq::new(PAIR_LEN as nat, |i: int| 0xffu8), 0)
    }
}

/// `getrandom` fills the buffer with zeros.
pub open spec fn getrandom_start(env: Env, buf: usize, len: usize) -> SpecReply {
    if buf == 0 {
        crate::machine::fail(LinuxError::EFAULT)
    } else {
        store_start(env, buf, crate::user_data::zeros(len as int), len as isize)
    }
}

/// Whether `getrandom` can make the bytes.
pub open spec fn getrandom_defined(buf: usize, len: usize) -> bool {
    buf != 0 ==> len <= isize::MAX
}

/// `arch_prctl` sets the base of the FS segment and knows no other operation.
pub open spec fn arch_prctl(regs: Registers, op: usize, addr: usize) -> (isize, Registers) {
    if op == ARCH_SET_FS {
        (0, Registers { fs_base: addr as u64, ..regs })
    } else {
        ((-LinuxError::EINVAL.number()) as isize, regs)
    }
}

/// Asks for bytes to be stored into user memory, after which the call returns
/// `ok`.
pub fn write_user_buf(env: Env, addr: usize, bytes: Vec<u8>, ok: isize) -> (r: KernelReply)
    ensures
        r@ == store_start(env, addr, bytes@, ok),
        r@.wf(),
{
    if env.space.is_none() {
        return Reply::Ret(neg_errno(LinuxError::EFAULT));
    }
    Reply::Ask(Action::Store { addr, bytes }, Pending::Finish { ok })
}

/// `uname`: describes the system.
pub fn sys_uname(env: Env, arch: Arch, buf: usize) -> (r: KernelReply)
    ensures
        r@ == uname_start(env, arch, buf),
        r@.wf(),
{
    if buf == 0 {
        return Reply::Ret(neg_errno(LinuxError::EFAULT));
    }
    write_user_buf(env, buf, uts_bytes(arch), 0)
}

/// `clock_gettime`: tells the time.
pub fn sys_clock_gettime(env: Env, _clockid: usize, tp: usize) -> (r: KernelReply)
    ensures
        r@ == clock_gettime_start(env, tp),
        r@.wf(),
{
    if tp == 0 {
        return Reply::Ret(neg_errno(LinuxError::EFAULT));
    }
    write_user_buf(env, tp, timespec_bytes(), 0)
}

/// `prlimit64`: tells a resource limit.
pub fn sys_prlimit64(
    env: Env,
    _pid: usize,
    _resource: usize,
    _new_limit: usize,
    old_limit: usize,
) -> (r: KernelReply)
    ensures
        r@ == prlimit64_start(env, old_limit),
        r@.wf(),
{
    if old_limit != 0 {
        return write_user_buf(env, old_limit, rlimit_bytes(), 0);
    }
    Reply::Ret(0)
}

/// `getrandom`: fills a buffer.
pub fn sys_getrandom(env: Env, buf: usize, len: usize, _flags: usize) -> (r: KernelReply)
    requires
        getrandom_defined(buf, len),
    ensures
        r@ == getrandom_start(env, buf, len),
        r@.wf(),
{
    if buf == 0 {
        return Reply::Ret(neg_errno(LinuxError::EFAULT));
    }
    write_user_buf(env, buf, zero_bytes(len), len as isize)
}

/// `readlinkat`: there are no symbolic links.
pub fn sys_readlinkat(_dirfd: i32, _path: usize, _buf: usize, _bufsiz: usize) -> (r: isize)
    ensures
        r == -LinuxError::ENOENT.number(),
{
    neg_errno(LinuxError::ENOENT)
}

/// `arch_prctl`: sets architecture-specific state of the program.
pub fn sys_arch_prctl(uctx: &mut UserContext, op: usize, addr: usize) -> (r: isize)
    ensures
        (r, final(uctx)@) == arch_prctl(old(uctx)@, op, addr),
{
    if op == ARCH_SET_FS {
        uctx.fs_base = addr as u64;
        0
    } else {
        neg_errno(LinuxError::EINVAL)
    }
}

} // verus!
