//! Tests of what a system call needs, for callers that cannot prove it.

use crate::align::PAGE_SIZE_4K;
use crate::context::UserContext;
use crate::errno::MAX_ERRNO;
use crate::machine::{Env, Event, KernelEvent, KernelPending, Pending};
use crate::mapping::{MmapFlags, MmapProt, MAP_FIXED, MAP_PRIVATE, MAP_SHARED};
use crate::nums::Syscall;
use vstd::prelude::*;

verus! {

fn can_page_up(n: usize) -> (r: bool)
    ensures
        r == crate::kernel::memory::page_up_defined(n),
{
    n <= usize::MAX - PAGE_SIZE_4K
}

fn can_mprotect(addr: usize, len: usize, prot: i32) -> (r: bool)
    ensures
        r == crate::kernel::memory::mprotect_defined(addr, len, prot),
{
    addr % PAGE_SIZE_4K != 0 || MmapProt::from_bits(prot).is_none() || can_page_up(len)
}

fn can_mmap(env: Env, length: usize, prot: i32, flags: i32, offset: isize) -> (r: bool)
    ensures
        r == crate::kernel::memory::mmap_defined(env, length, prot, flags, offset),
{
    if length == 0 || offset < 0 || offset as usize % PAGE_SIZE_4K != 0 {
        return true;
    }
    if MmapProt::from_bits(prot).is_none() {
        return true;
    }
    let flags = match MmapFlags::from_bits(flags) {
        Some(flags) => flags,
        None => return true,
    };
    if !flags.intersects(MAP_SHARED | MAP_PRIVATE) {
        return true;
    }
    if !can_page_up(length) {
        return false;
    }
    match env.space {
        Some(space) => flags.contains(MAP_FIXED) || space.base <= usize::MAX - space.size,
        None => true,
    }
}

/// Whether the system call in the registers can be handled. It cannot if a
/// number that it computes is too great.
pub fn can_handle(uctx: &UserContext, env: Env) -> (r: bool)
    ensures
        r == crate::kernel::dispatch::call_defined(env, uctx@),
{
    let args: [usize; 6] = uctx.args;
    match Syscall::decode(uctx.arch, uctx.nr) {
        Syscall::Mprotect => can_mprotect(args[0], args[1], args[2] as i32),
        Syscall::Getrandom => args[0] == 0 || args[1] <= isize::MAX as usize,
        Syscall::Brk => can_page_up(args[0]),
        Syscall::Mmap => can_mmap(
            env,
            args[1],
            args[2] as i32,
            args[3] as i32,
            args[5] as isize,
        ),
        _ => true,
    }
}

/// Whether a number is the code of an `AxError`.
pub fn is_ax_error(code: i32) -> (r: bool)
    ensures
        r == crate::errno::is_ax_code(code as int),
{
    (1 <= code && code <= 43) || (-MAX_ERRNO <= code && code < 0 && code != -41 && code != -58)
}

fn valid_status<A>(r: &Result<A, i32>) -> (b: bool)
    ensures
        b == (*r matches Err(code) ==> crate::errno::is_ax_code(code as int)),
{
    match r {
        Ok(_) => true,
        Err(code) => is_ax_error(*code),
    }
}

/// Whether a system call under way can go on with an event.
pub fn can_resume<T>(pending: &KernelPending, ev: &KernelEvent<T>) -> (r: bool)
    requires
        pending@.wf(),
    ensures
        r == pending@.accepts(ev@),
{
    match (pending, ev) {
        (Pending::OpenPath { .. }, Event::Byte(_)) => true,
        (Pending::OpenFile, Event::Opened(r)) => valid_status(r),
        (Pending::Transfer, Event::Count(r)) => valid_status(r),
        (Pending::ConsoleFetch { count }, Event::Bytes(bytes)) => bytes.len() == *count,
        (Pending::ConsolePrint { .. }, Event::Done) => true,
        (Pending::WritevEntry(w), Event::IoVec(v)) => v.iov_base == 0 || v.iov_len
            <= (isize::MAX - w.total) as usize,
        (Pending::WritevFetch(_, len), Event::Bytes(bytes)) => bytes.len() == *len,
        (Pending::WritevPrint(..), Event::Done) => true,
        (Pending::BrkMap { .. }, Event::Status(r)) => valid_status(r),
        (Pending::MmapFind(_), Event::Found(_)) => true,
        (Pending::MmapClear(..), Event::Done) => true,
        (Pending::MmapMap(req, start), Event::Status(r)) => match r {
            Ok(_) => if req.anonymous {
                *start <= usize::MAX - req.map_len
            } else {
                req.length <= isize::MAX as usize
            },
            Err(code) => is_ax_error(*code),
        },
        (Pending::MmapRead(req, _), Event::Buffer(r)) => match r {
            Ok(buf) => buf.len() == req.length,
            Err(code) => is_ax_error(*code),
        },
        (Pending::MmapStore(req, start), Event::Status(r)) => match r {
            Ok(_) => *start <= usize::MAX - req.map_len,
            Err(code) => is_ax_error(*code),
        },
        (Pending::MmapUndo { .. }, Event::Done) => true,
        (Pending::Finish { .. }, Event::Status(r)) => valid_status(r),
        _ => false,
    }
}

} // verus!
