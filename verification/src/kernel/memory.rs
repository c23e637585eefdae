//! `brk`, `mmap` and `mprotect`.

use crate::align::{page_align_down, page_align_up, PAGE_SIZE_4K};
use crate::errno::{neg_ax_error, neg_errno, LinuxError};
use crate::kernel::{Kernel, KernelState};
use crate::machine::{
    Action, AddrRange, Env, KernelReply, MmapRequest, Pending, Reply, SpecReply, UserSpace,
};
use crate::mapping::{
    MappingFlags, MmapFlags, MmapProt, MAP_ALL, MAP_ANONYMOUS, MAP_FIXED, MAP_PRIVATE, MAP_SHARED,
    PROT_ALL,
};
use crate::user_data::zero_bytes;
use vstd::prelude::*;

verus! {

/// The access that a user program has to its heap.
pub open spec fn heap_flags() -> MappingFlags {
    MappingFlags { read: true, write: true, execute: false, user: true }
}

/// An address or a size, rounded up to whole pages.
pub open spec fn page_up(n: usize) -> usize {
    crate::align::up(n as int, PAGE_SIZE_4K as int) as usize
}

/// Whether a number can be rounded up to whole pages.
pub open spec fn page_up_defined(n: usize) -> bool {
    n + PAGE_SIZE_4K <= usize::MAX
}

impl<T> KernelState<T> {
    /// `brk` moves the program break at once if the heap is mapped that far,
    /// and asks for the missing pages otherwise.
    pub open spec fn brk_start(self, env: Env, addr: usize) -> (SpecReply, KernelState<T>) {
        if addr == 0 {
            (Reply::Ret(self.brk as isize), self)
        } else if page_up(addr) <= self.mapped {
            (Reply::Ret(addr as isize), KernelState { brk: addr, ..self })
        } else if env.space is None {
            (crate::machine::fail(LinuxError::EFAULT), self)
        } else {
            (
                Reply::Ask(
                    Action::MapAlloc {
                        start: self.mapped,
                        size: (page_up(addr) - self.mapped) as usize,
                        flags: heap_flags(),
                    },
                    Pending::BrkMap { addr, mapped_end: page_up(addr) },
                ),
                self,
            )
        }
    }

    /// `brk` after the pages were mapped, or were not.
    pub open spec fn brk_mapped(
        self,
        addr: usize,
        mapped_end: usize,
        status: Result<(), i32>,
    ) -> (SpecReply, KernelState<T>) {
        match status {
            Ok(_) => (
                Reply::Ret(addr as isize),
                KernelState { brk: addr, mapped: mapped_end, ..self },
            ),
            Err(code) => (crate::machine::fail_ax(code), self),
        }
    }

    /// `mmap` checks its arguments, then searches for an address. A fixed
    /// address is taken whether or not it is available: what is mapped there
    /// is removed, unless the file to map is not open and the call has to fail.
    pub open spec fn mmap_start(
        self,
        env: Env,
        addr: usize,
        length: usize,
        prot: i32,
        flags: i32,
        fd: i32,
        offset: isize,
    ) -> SpecReply {
        if !mmap_valid(length, prot, flags, offset) {
            crate::machine::fail(LinuxError::EINVAL)
        } else {
            let req = mmap_request(length, prot, flags, fd, offset);
            match env.space {
                None => crate::machine::fail(LinuxError::EFAULT),
                Some(space) => if crate::mapping::has_bits(flags, MAP_FIXED) {
                    if addr == 0 || addr % PAGE_SIZE_4K != 0 {
                        crate::machine::fail(LinuxError::EINVAL)
                    } else {
                        if req.anonymous || crate::fd_table::is_open(self.fds, fd as int) {
                            mmap_clear(req, addr)
                        } else {
                            mmap_at(req, addr)
                        }
                    }
                } else {
                    Reply::Ask(
                        Action::FindFreeArea {
                            hint: if addr == 0 {
                                self.next_mmap
                            } else {
                                crate::align::down(addr as int, PAGE_SIZE_4K as int) as usize
                            },
                            size: req.map_len,
                            limit: AddrRange {
                                start: space.base,
                                end: (space.base + space.size) as usize,
                            },
                        },
                        Pending::MmapFind(req),
                    )
                },
            }
        }
    }

    /// `mmap` after the memory was mapped, or was not. A file is read into the
    /// mapping before the call returns.
    pub open spec fn mmap_mapped(
        self,
        req: MmapRequest,
        start: usize,
        status: Result<(), i32>,
    ) -> (SpecReply, KernelState<T>) {
        match status {
            Err(code) => (crate::machine::fail_ax(code), self),
            Ok(_) => if req.anonymous {
                self.mmap_done(req, start)
            } else if crate::fd_table::is_open(self.fds, req.fd as int) {
                (
                    Reply::Ask(
                        Action::ReadFileAt {
                            fd: req.fd,
                            offset: req.offset,
                            buf: crate::user_data::zeros(req.length as int),
                        },
                        Pending::MmapRead(req, start),
                    ),
                    self,
                )
            } else {
                (mmap_undo(req, start, crate::machine::fail(LinuxError::EBADF)), self)
            },
        }
    }

    /// `mmap` after the contents of the file were stored, or were not.
    pub open spec fn mmap_stored(
        self,
        req: MmapRequest,
        start: usize,
        status: Result<(), i32>,
    ) -> (SpecReply, KernelState<T>) {
        match status {
            Err(code) => (mmap_undo(req, start, crate::machine::fail_ax(code)), self),
            Ok(_) => self.mmap_done(req, start),
        }
    }

    /// `mmap` succeeds: the next search begins after the new mapping.
    pub open spec fn mmap_done(self, req: MmapRequest, start: usize) -> (
        SpecReply,
        KernelState<T>,
    ) {
        (
            Reply::Ret(start as isize),
            KernelState { next_mmap: (start + req.map_len) as usize, ..self },
        )
    }
}

/// Whether the arguments of `mmap` are acceptable, apart from the address.
pub open spec fn mmap_valid(length: usize, prot: i32, flags: i32, offset: isize) -> bool {
    &&& length != 0
    &&& offset >= 0
    &&& offset as usize % PAGE_SIZE_4K == 0
    &&& crate::mapping::known_bits(prot, PROT_ALL)
    &&& crate::mapping::known_bits(flags, MAP_ALL)
    &&& flags & (MAP_SHARED | MAP_PRIVATE) != 0
}

/// Whether `mmap` can compute with its arguments.
pub open spec fn mmap_defined(
    env: Env,
    length: usize,
    prot: i32,
    flags: i32,
    offset: isize,
) -> bool {
    mmap_valid(length, prot, flags, offset) ==> {
        &&& page_up_defined(length)
        &&& crate::mapping::has_bits(flags, MAP_FIXED) || (env.space matches Some(space)
            ==> space.valid())
    }
}

/// What valid arguments of `mmap` ask for.
pub open spec fn mmap_request(
    length: usize,
    prot: i32,
    flags: i32,
    fd: i32,
    offset: isize,
) -> MmapRequest {
    MmapRequest {
        length,
        map_len: page_up(length),
        access: crate::mapping::flags_of_prot(prot),
        anonymous: crate::mapping::has_bits(flags, MAP_ANONYMOUS),
        fd,
        offset: offset as u64,
    }
}

/// `mmap` makes an address available.
pub open spec fn mmap_clear(req: MmapRequest, start: usize) -> SpecReply {
    Reply::Ask(
        Action::Unmap { start, size: req.map_len },
        Pending::MmapClear(req, start),
    )
}

/// `mmap` maps memory at an address.
pub open spec fn mmap_at(req: MmapRequest, start: usize) -> SpecReply {
    Reply::Ask(
        Action::MapAlloc { start, size: req.map_len, flags: req.access },
        Pending::MmapMap(req, start),
    )
}

/// `mmap` after the search.
pub open spec fn mmap_found(req: MmapRequest, found: Option<usize>) -> SpecReply {
    match found {
        Some(start) => mmap_at(req, start),
        None => crate::machine::fail(LinuxError::ENOMEM),
    }
}

/// `mmap` after the file was read, or was not.
pub open spec fn mmap_read(
    req: MmapRequest,
    start: usize,
    contents: Result<Seq<u8>, i32>,
) -> SpecReply {
    match contents {
        Ok(bytes) => Reply::Ask(
            Action::Store { addr: start, bytes },
            Pending::MmapStore(req, start),
        ),
        Err(code) => mmap_undo(req, start, crate::machine::fail_ax(code)),
    }
}

/// `mmap` fails after it mapped memory: the mapping is removed first.
pub open spec fn mmap_undo(req: MmapRequest, start: usize, failure: SpecReply) -> SpecReply {
    Reply::Ask(
        Action::Unmap { start, size: req.map_len },
        Pending::MmapUndo { ret: failure->Ret_0 },
    )
}

/// `mprotect` checks its arguments and asks for the change.
pub open spec fn mprotect_start(env: Env, addr: usize, len: usize, prot: i32) -> SpecReply {
    if addr % PAGE_SIZE_4K != 0 || len == 0 || !crate::mapping::known_bits(prot, PROT_ALL) {
        crate::machine::fail(LinuxError::EINVAL)
    } else if env.space is None {
        crate::machine::fail(LinuxError::EFAULT)
    } else {
        Reply::Ask(
            Action::Protect {
                start: addr,
                size: page_up(len),
                flags: crate::mapping::flags_of_prot(prot),
            },
            Pending::Finish { ok: 0 },
        )
    }
}

/// Whether `mprotect` can compute with its arguments.
pub open spec fn mprotect_defined(addr: usize, len: usize, prot: i32) -> bool {
    addr % PAGE_SIZE_4K == 0 && crate::mapping::known_bits(prot, PROT_ALL) ==> page_up_defined(len)
}

/// A system call that ends with an action returns `ok`, unless the action
/// failed.
pub open spec fn finish(ok: isize, status: Result<(), i32>) -> SpecReply {
    match status {
        Ok(_) => Reply::Ret(ok),
        Err(code) => crate::machine::fail_ax(code),
    }
}

/// `memory_addr::VirtAddrRange::from_start_size`, the range that begins at
/// `start` and has the given size. It panics if the end overflows.
#[verifier::external_body]
fn range_from_start_size(start: usize, size: usize) -> (r: AddrRange)
    requires
        start + size <= usize::MAX,
    ensures
        r.start == start,
        r.end == start + size,
{
    let start = memory_addr::VirtAddr::from(start);
    let range = memory_addr::VirtAddrRange::from_start_size(start, size);
    AddrRange { start: range.start.as_usize(), end: range.end.as_usize() }
}

fn map_at(req: MmapRequest, start: usize) -> (r: KernelReply)
    ensures
        r@ == mmap_at(req, start),
        r@.wf(),
{
    Reply::Ask(
        Action::MapAlloc { start, size: req.map_len, flags: req.access },
        Pending::MmapMap(req, start),
    )
}

fn undo(req: MmapRequest, start: usize, ret: isize) -> (r: KernelReply)
    ensures
        r@ == mmap_undo(req, start, Reply::Ret(ret)),
        r@.wf(),
{
    Reply::Ask(Action::Unmap { start, size: req.map_len }, Pending::MmapUndo { ret })
}

/// Goes on with `mmap` after the fixed address was cleared.
pub fn resume_mmap_clear(req: MmapRequest, start: usize) -> (r: KernelReply)
    ensures
        r@ == mmap_at(req, start),
        r@.wf(),
{
    map_at(req, start)
}

/// Goes on with `mmap` after the search for addresses.
pub fn resume_mmap_find(req: MmapRequest, found: Option<usize>) -> (r: KernelReply)
    ensures
        r@ == mmap_found(req, found),
        r@.wf(),
{
    match found {
        Some(start) => map_at(req, start),
        None => Reply::Ret(neg_errno(LinuxError::ENOMEM)),
    }
}

/// Goes on with `mmap` after the file was read.
pub fn resume_mmap_read(
    req: MmapRequest,
    start: usize,
    contents: Result<Vec<u8>, i32>,
) -> (r: KernelReply)
    requires
        contents matches Err(code) ==> crate::errno::is_ax_code(code as int),
    ensures
        r@ == mmap_read(req, start, match contents {
            Ok(bytes) => Ok(bytes@),
            Err(code) => Err(code),
        }),
        r@.wf(),
        contents is Err ==> r@.fails(),
{
    match contents {
        Ok(bytes) => Reply::Ask(
            Action::Store { addr: start, bytes },
            Pending::MmapStore(req, start),
        ),
        Err(code) => undo(req, start, neg_ax_error(code)),
    }
}

/// `mprotect`: changes the access to mapped memory.
pub fn sys_mprotect(env: Env, addr: usize, len: usize, prot: i32) -> (r: KernelReply)
    requires
        mprotect_defined(addr, len, prot),
    ensures
        r@ == mprotect_start(env, addr, len, prot),
        r@.wf(),
{
    if addr % PAGE_SIZE_4K != 0 || len == 0 {
        return Reply::Ret(neg_errno(LinuxError::EINVAL));
    }
    let prot = match MmapProt::from_bits(prot) {
        Some(bits) => bits,
        None => return Reply::Ret(neg_errno(LinuxError::EINVAL)),
    };
    let len: usize = page_align_up(len);
    if env.space.is_none() {
        return Reply::Ret(neg_errno(LinuxError::EFAULT));
    }
    Reply::Ask(
        Action::Protect { start: addr, size: len, flags: MappingFlags::from_prot(prot) },
        Pending::Finish { ok: 0 },
    )
}

/// Ends a system call after its last action.
pub fn resume_finish(ok: isize, status: Result<(), i32>) -> (r: KernelReply)
    requires
        status matches Err(code) ==> crate::errno::is_ax_code(code as int),
    ensures
        r@ == finish(ok, status),
        r@.wf(),
        status is Err ==> r@.fails(),
{
    match status {
        Ok(_) => Reply::Ret(ok),
        Err(code) => Reply::Ret(neg_ax_error(code)),
    }
}

impl<T> Kernel<T> {
    /// `brk`: moves the program break. The heap is mapped on demand.
    pub fn sys_brk(&mut self, env: Env, addr: usize) -> (r: KernelReply)
        requires
            old(self).wf(),
            page_up_defined(addr),
        ensures
            final(self).wf(),
            (r@, final(self)@) == old(self)@.brk_start(env, addr),
            r@.wf(),
    {
        let cur: usize = self.program_brk;
        if addr == 0 {
            return Reply::Ret(cur as isize);
        }
        let mapped_end: usize = self.program_brk_mapped;
        let new_mapped_end: usize = page_align_up(addr);
        if new_mapped_end > mapped_end {
            if env.space.is_none() {
                return Reply::Ret(neg_errno(LinuxError::EFAULT));
            }
            let flags = MappingFlags { read: true, write: true, execute: false, user: true };
            return Reply::Ask(
                Action::MapAlloc { start: mapped_end, size: new_mapped_end - mapped_end, flags },
                Pending::BrkMap { addr, mapped_end: new_mapped_end },
            );
        }
        self.program_brk = addr;
        Reply::Ret(addr as isize)
    }

    /// Goes on with `brk` after the heap was mapped.
    pub fn resume_brk(&mut self, addr: usize, mapped_end: usize, status: Result<(), i32>) -> (r:
        KernelReply)
        requires
            old(self).wf(),
            addr <= mapped_end,
            mapped_end % PAGE_SIZE_4K == 0,
            status matches Err(code) ==> crate::errno::is_ax_code(code as int),
        ensures
            final(self).wf(),
            (r@, final(self)@) == old(self)@.brk_mapped(addr, mapped_end, status),
            r@.wf(),
            status is Err ==> r@.fails(),
    {
        match status {
            Err(code) => Reply::Ret(neg_ax_error(code)),
            Ok(_) => {
                self.program_brk_mapped = mapped_end;
                self.program_brk = addr;
                Reply::Ret(addr as isize)
            },
        }
    }

    /// `mmap`: maps fresh memory, and the contents of a file into it unless
    /// the mapping is anonymous.
    pub fn sys_mmap(
        &self,
        env: Env,
        addr: usize,
        length: usize,
        prot: i32,
        flags: i32,
        fd: i32,
        offset: isize,
    ) -> (r: KernelReply)
        requires
            mmap_defined(env, length, prot, flags, offset),
        ensures
            r@ == self@.mmap_start(env, addr, length, prot, flags, fd, offset),
            r@.wf(),
    {
        if length == 0 || offset < 0 || offset as usize % PAGE_SIZE_4K != 0 {
            return Reply::Ret(neg_errno(LinuxError::EINVAL));
        }
        let prot = match MmapProt::from_bits(prot) {
            Some(bits) => bits,
            None => return Reply::Ret(neg_errno(LinuxError::EINVAL)),
        };
        let flags = match MmapFlags::from_bits(flags) {
            Some(bits) => bits,
            None => return Reply::Ret(neg_errno(LinuxError::EINVAL)),
        };
        if !flags.intersects(MAP_SHARED | MAP_PRIVATE) {
            return Reply::Ret(neg_errno(LinuxError::EINVAL));
        }
        let req = MmapRequest {
            length,
            map_len: page_align_up(length),
            access: MappingFlags::from_prot(prot),
            anonymous: flags.contains(MAP_ANONYMOUS),
            fd,
            offset: offset as u64,
        };
        let space: UserSpace = match env.space {
            Some(space) => space,
            None => return Reply::Ret(neg_errno(LinuxError::EFAULT)),
        };
        if flags.contains(MAP_FIXED) {
            if addr == 0 || addr % PAGE_SIZE_4K != 0 {
                return Reply::Ret(neg_errno(LinuxError::EINVAL));
            }
            if !req.anonymous && self.fd_table.check_fd(fd).is_err() {
                return map_at(req, addr);
            }
            Reply::Ask(
                Action::Unmap { start: addr, size: req.map_len },
                Pending::MmapClear(req, addr),
            )
        } else {
            let hint: usize = if addr == 0 { self.next_mmap_addr } else { page_align_down(addr) };
            let limit = range_from_start_size(space.base, space.size);
            Reply::Ask(
                Action::FindFreeArea { hint, size: req.map_len, limit },
                Pending::MmapFind(req),
            )
        }
    }

    /// Goes on with `mmap` after the memory was mapped.
    pub fn resume_mmap_map(
        &mut self,
        req: MmapRequest,
        start: usize,
        status: Result<(), i32>,
    ) -> (r: KernelReply)
        requires
            old(self).wf(),
            status matches Err(code) ==> crate::errno::is_ax_code(code as int),
            status is Ok && req.anonymous ==> start + req.map_len <= usize::MAX,
            status is Ok && !req.anonymous ==> req.length <= isize::MAX,
        ensures
            final(self).wf(),
            (r@, final(self)@) == old(self)@.mmap_mapped(req, start, status),
            r@.wf(),
            status is Err ==> r@.fails(),
    {
        match status {
            Err(code) => Reply::Ret(neg_ax_error(code)),
            Ok(_) => {
                if req.anonymous {
                    self.next_mmap_addr = start + req.map_len;
                    return Reply::Ret(start as isize);
                }
                match self.fd_table.check_fd(req.fd) {
                    Ok(_) => Reply::Ask(
                        Action::ReadFileAt {
                            fd: req.fd,
                            offset: req.offset,
                            buf: zero_bytes(req.length),
                        },
                        Pending::MmapRead(req, start),
                    ),
                    Err(e) => undo(req, start, neg_errno(e)),
                }
            },
        }
    }

    /// Goes on with `mmap` after the contents of the file were stored.
    pub fn resume_mmap_store(
        &mut self,
        req: MmapRequest,
        start: usize,
        status: Result<(), i32>,
    ) -> (r: KernelReply)
        requires
            old(self).wf(),
            status matches Err(code) ==> crate::errno::is_ax_code(code as int),
            status is Ok ==> start + req.map_len <= usize::MAX,
        ensures
            final(self).wf(),
            (r@, final(self)@) == old(self)@.mmap_stored(req, start, status),
            r@.wf(),
            status is Err ==> r@.fails(),
    {
        match status {
            Err(code) => undo(req, start, neg_ax_error(code)),
            Ok(_) => {
                self.next_mmap_addr = start + req.map_len;
                Reply::Ret(start as isize)
            },
        }
    }
}

} // verus!
