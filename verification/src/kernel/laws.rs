//! What the system calls promise, over several steps and several calls.

use crate::align::PAGE_SIZE_4K;
use crate::context::{Arch, Registers};
use crate::errno::{LinuxError, MAX_ERRNO};
use crate::kernel::files::{STDERR, STDOUT};
use crate::kernel::KernelState;
use crate::machine::{
    Action, Env, Event, MmapRequest, OpenedFile, Pending, Reply, SpecAction, SpecEvent,
    SpecPending, Step,
};
use crate::mapping::MAP_FIXED;
use crate::nums::Syscall;
use crate::path::MAX_PATH_LEN;
use vstd::prelude::*;

verus! {

/// Every call, and every step of a call, keeps the invariant of the state, and
/// the bounds that the steps after it rely on.
pub proof fn law_invariant<T>(
    s: KernelState<T>,
    env: Env,
    regs: Registers,
    pending: SpecPending,
    ev: SpecEvent<T>,
)
    requires
        s.wf(),
        regs.args.len() == 6,
        crate::kernel::dispatch::call_defined(env, regs),
        pending.wf(),
        pending.accepts(ev),
    ensures
        s.call(env, regs).state.wf(),
        s.call(env, regs).step matches Step::Ask(_, p) ==> p.wf(),
        s.proceed(pending, ev).1.wf(),
        s.proceed(pending, ev).0 matches Reply::Ask(_, p) ==> p.wf(),
{
    lemma_page_up(regs.args[0]);
}

proof fn lemma_page_up(n: usize)
    ensures
        crate::kernel::memory::page_up_defined(n) ==> {
            &&& n <= crate::kernel::memory::page_up(n) < n + PAGE_SIZE_4K
            &&& crate::kernel::memory::page_up(n) % PAGE_SIZE_4K == 0
        },
{
    crate::align::lemma_page_size_pow2();
    crate::align::lemma_round_multiple(n as int, PAGE_SIZE_4K as int);
}

/// The number of actions that a call under way asks for at most, before it
/// returns.
pub open spec fn actions_left(pending: SpecPending) -> int {
    match pending {
        Pending::OpenPath { bytes, .. } => MAX_PATH_LEN + 2 - bytes.len(),
        Pending::ConsoleFetch { .. } => 2,
        Pending::WritevEntry(w) => 3 * (w.count - w.index),
        Pending::WritevFetch(w, _) => 3 * (w.count - w.index) - 1,
        Pending::WritevPrint(w, _) => 3 * (w.count - w.index) - 2,
        Pending::MmapFind(_) => 5,
        Pending::MmapClear(..) => 5,
        Pending::MmapMap(..) => 4,
        Pending::MmapRead(..) => 3,
        Pending::MmapStore(..) => 2,
        _ => 1,
    }
}

/// Every call returns: each step leaves fewer actions than the one before.
pub proof fn law_calls_end<T>(s: KernelState<T>, pending: SpecPending, ev: SpecEvent<T>)
    requires
        pending.wf(),
        pending.accepts(ev),
    ensures
        actions_left(pending) >= 1,
        s.proceed(pending, ev).0 matches Reply::Ask(_, p) ==> 1 <= actions_left(p) < actions_left(
            pending,
        ),
{
}

/// The result of a call that fails with an error of its own is the negated
/// number of the error.
pub proof fn law_errors_negative(e: LinuxError)
    ensures
        crate::machine::fail(e) matches Reply::Ret(r) && -MAX_ERRNO <= r < 0 && r == -e.number(),
{
}

/// The result of a call is what the user program finds in the result register,
/// and no other register changes.
pub proof fn law_result_register(regs: Registers, ret: isize)
    requires
        regs.args.len() == 6,
    ensures
        regs.with_ret(ret as usize).ret() as isize == ret,
        regs.with_ret(ret as usize).arch == regs.arch,
        regs.with_ret(ret as usize).fs_base == regs.fs_base,
        forall|i: int|
            1 <= i < 6 ==> #[trigger] regs.with_ret(ret as usize).args[i] == regs.args[i],
        regs.arch == Arch::X86_64 ==> regs.with_ret(ret as usize).args == regs.args,
        regs.arch != Arch::X86_64 ==> regs.with_ret(ret as usize).nr == regs.nr,
{
    assert((ret as usize) as isize == ret) by (bit_vector);
}

/// An unknown number is answered with `ENOSYS` and changes nothing else.
pub proof fn law_unknown_syscall<T>(s: KernelState<T>, env: Env, regs: Registers)
    requires
        Syscall::of(regs.arch, regs.nr) == Syscall::Unknown,
    ensures
        s.call(env, regs).step is Done,
        s.call(env, regs).state == s,
        s.call(env, regs).regs == regs.with_ret((-LinuxError::ENOSYS.number()) as isize as usize),
{
}

/// `exit` and `exit_group` end the program with their argument as the code, and
/// leave the registers alone.
pub proof fn law_exit<T>(s: KernelState<T>, env: Env, regs: Registers)
    requires
        Syscall::of(regs.arch, regs.nr) == Syscall::Exit || Syscall::of(regs.arch, regs.nr)
            == Syscall::ExitGroup,
    ensures
        s.call(env, regs).step == Step::<Seq<char>, Seq<u8>, Seq<char>>::Exit(
            regs.args[0] as i32,
        ),
        s.call(env, regs).state == s,
        s.call(env, regs).regs == regs,
{
}

/// An opened file gets a descriptor that was free, the lowest one, and no other
/// file is touched.
pub proof fn law_open_descriptor<T>(s: KernelState<T>, f: OpenedFile<T>)
    requires
        f.is_dir != Some(true),
        crate::fd_table::free_slot(s.fds) <= i32::MAX,
    ensures
        ({
            let (reply, t) = s.opened(Ok(f));
            let fd = crate::fd_table::free_slot(s.fds);
            &&& reply == Reply::<Seq<char>, Seq<u8>, Seq<char>>::Ret(fd as isize)
            &&& fd as isize == fd
            &&& 0 <= fd
            &&& !crate::fd_table::is_open(s.fds, fd)
            &&& forall|i: int| 0 <= i < fd ==> #[trigger] crate::fd_table::is_open(s.fds, i)
            &&& crate::fd_table::is_open(t.fds, fd)
            &&& t.fds[fd] == Some(f.file)
            &&& forall|i: int|
                i != fd ==> #[trigger] crate::fd_table::is_open(t.fds, i)
                    == crate::fd_table::is_open(s.fds, i)
            &&& forall|i: int|
                i != fd && crate::fd_table::is_open(s.fds, i) ==> #[trigger] t.fds[i] == s.fds[i]
            &&& t == (KernelState { fds: t.fds, ..s })
        }),
{
    crate::fd_table::law_free_slot_is_lowest(s.fds);
}

/// Closing a descriptor right after it was opened brings back the open files.
pub proof fn law_open_close<T>(s: KernelState<T>, f: OpenedFile<T>)
    requires
        f.is_dir != Some(true),
        crate::fd_table::free_slot(s.fds) <= i32::MAX,
    ensures
        ({
            let fd = crate::fd_table::free_slot(s.fds);
            let (ret, t) = s.opened(Ok(f)).1.close(fd as i32);
            &&& ret == 0
            &&& forall|i: int|
                #[trigger] crate::fd_table::is_open(t.fds, i) == crate::fd_table::is_open(s.fds, i)
            &&& forall|i: int|
                crate::fd_table::is_open(s.fds, i) ==> #[trigger] t.fds[i] == s.fds[i]
        }),
{
    law_open_descriptor(s, f);
    let fd = crate::fd_table::free_slot(s.fds);
    assert((fd as i32) as int == fd);
}

/// A closed descriptor is not open: it cannot be closed, read or written again,
/// and nothing else changed.
pub proof fn law_closed<T>(s: KernelState<T>, fd: i32, buf: usize, count: usize)
    requires
        crate::fd_table::is_open(s.fds, fd as int),
        buf != 0,
    ensures
        ({
            let t = s.close(fd).1;
            let bad = crate::machine::fail(LinuxError::EBADF);
            &&& s.close(fd).0 == 0
            &&& t.close(fd).0 == -LinuxError::EBADF.number()
            &&& t.read_start(fd, buf, count) == bad
            &&& fd != STDOUT && fd != STDERR ==> t.write_start(fd, buf, count) == bad
            &&& t.fds.len() == s.fds.len()
            &&& forall|i: int|
                0 <= i < s.fds.len() && i != fd ==> #[trigger] t.fds[i] == s.fds[i]
            &&& t == (KernelState { fds: t.fds, ..s })
        }),
{
}

/// A closed descriptor is used again by the next open, unless a lower one is
/// free.
pub proof fn law_descriptor_reused<T>(s: KernelState<T>, fd: i32)
    requires
        crate::fd_table::is_open(s.fds, fd as int),
    ensures
        ({
            let before = crate::fd_table::free_slot(s.fds);
            crate::fd_table::free_slot(s.close(fd).1.fds) == (if before < fd {
                before
            } else {
                fd as int
            })
        }),
{
    let a = crate::fd_table::free_slot(s.fds);
    let b = crate::fd_table::free_slot(s.close(fd).1.fds);
    crate::fd_table::law_free_slot_is_lowest(s.fds);
    crate::fd_table::law_free_slot_is_lowest(s.close(fd).1.fds);
    if b < a {
        assert(crate::fd_table::is_open(s.fds, b));
    }
    if fd < b {
        assert(crate::fd_table::is_open(s.close(fd).1.fds, fd as int));
    }
    if a < b {
        assert(crate::fd_table::is_open(s.close(fd).1.fds, a));
    }
}

/// `brk` of zero reports the program break and changes nothing.
pub proof fn law_brk_query<T>(s: KernelState<T>, env: Env)
    ensures
        s.brk_start(env, 0) == (
            Reply::<Seq<char>, Seq<u8>, Seq<char>>::Ret(s.brk as isize),
            s,
        ),
{
}

/// `brk` returns the new program break when it succeeds, at once or after the
/// heap was mapped, and the break is then what `brk` of zero reports.
pub proof fn law_brk_moves<T>(s: KernelState<T>, env: Env, addr: usize)
    requires
        addr != 0,
        crate::kernel::memory::page_up_defined(addr),
    ensures
        s.brk_start(env, addr).0 matches Reply::Ret(r) ==> {
            ||| r == addr as isize && s.brk_start(env, addr).1.brk == addr
            ||| env.space is None && r == -LinuxError::EFAULT.number() && s.brk_start(env, addr).1
                == s
        },
        s.brk_start(env, addr).0 matches Reply::Ask(
            _,
            Pending::BrkMap { addr: a, mapped_end },
        ) ==> {
            let (reply, t) = s.brk_mapped(a, mapped_end, Ok(()));
            &&& reply == Reply::<Seq<char>, Seq<u8>, Seq<char>>::Ret(addr as isize)
            &&& t.brk == addr
            &&& t.mapped == mapped_end
        },
{
}

/// The heap grows by whole pages, right at its end and as far as the new break
/// needs, and never shrinks.
pub proof fn law_brk_grows<T>(s: KernelState<T>, env: Env, addr: usize)
    requires
        s.wf(),
        crate::kernel::memory::page_up_defined(addr),
    ensures
        s.brk_start(env, addr).1.mapped == s.mapped,
        s.brk_start(env, addr).0 matches Reply::Ask(action, pending) ==> {
            &&& action matches Action::MapAlloc { start, size, flags } && pending
                matches Pending::BrkMap { addr: a, mapped_end } && {
                &&& start == s.mapped
                &&& size > 0 && size % PAGE_SIZE_4K == 0
                &&& start + size == mapped_end
                &&& addr <= mapped_end < addr + PAGE_SIZE_4K
                &&& a == addr
                &&& flags == crate::kernel::memory::heap_flags()
            }
        },
{
    lemma_page_up(addr);
}

/// The mapped size of a request is the least whole number of pages that holds
/// the bytes asked for.
pub proof fn law_mmap_size(length: usize, prot: i32, flags: i32, fd: i32, offset: isize)
    requires
        length > 0,
        crate::kernel::memory::page_up_defined(length),
    ensures
        ({
            let req = crate::kernel::memory::mmap_request(length, prot, flags, fd, offset);
            &&& req.map_len % PAGE_SIZE_4K == 0
            &&& req.map_len >= PAGE_SIZE_4K
            &&& req.map_len - PAGE_SIZE_4K < length <= req.map_len
        }),
{
    lemma_page_up(length);
}

/// A mapping at a fixed address is asked for at exactly that address, if a page
/// starts there, whether or not the address is available: what is mapped in the
/// way is removed first. For a file that is not open nothing is removed.
pub proof fn law_mmap_fixed<T>(
    s: KernelState<T>,
    env: Env,
    addr: usize,
    length: usize,
    prot: i32,
    flags: i32,
    fd: i32,
    offset: isize,
)
    requires
        crate::kernel::memory::mmap_valid(length, prot, flags, offset),
        crate::mapping::has_bits(flags, MAP_FIXED),
        env.space is Some,
    ensures
        s.mmap_start(env, addr, length, prot, flags, fd, offset) == (if addr != 0 && addr
            % PAGE_SIZE_4K == 0 {
            let req = crate::kernel::memory::mmap_request(length, prot, flags, fd, offset);
            if req.anonymous || crate::fd_table::is_open(s.fds, fd as int) {
                Reply::Ask(
                    Action::Unmap { start: addr, size: req.map_len },
                    Pending::MmapClear(req, addr),
                )
            } else {
                Reply::Ask(
                    Action::MapAlloc { start: addr, size: req.map_len, flags: req.access },
                    Pending::MmapMap(req, addr),
                )
            }
        } else {
            crate::machine::fail(LinuxError::EINVAL)
        }),
        ({
            let req = crate::kernel::memory::mmap_request(length, prot, flags, fd, offset);
            s.proceed(Pending::MmapClear(req, addr), Event::Done) == (
                Reply::<Seq<char>, Seq<u8>, Seq<char>>::Ask(
                    Action::MapAlloc { start: addr, size: req.map_len, flags: req.access },
                    Pending::MmapMap(req, addr),
                ),
                s,
            )
        }),
{
}

/// A file is mapped by these actions, in this order: map the pages, read the
/// file from the offset on into a zeroed buffer of the length asked for, store
/// what the buffer then holds at the start of the mapping. The call returns the
/// start of the mapping, and the next search begins right after it.
pub proof fn law_mmap_file<T>(s: KernelState<T>, req: MmapRequest, start: usize, contents: Seq<u8>)
    requires
        !req.anonymous,
        crate::fd_table::is_open(s.fds, req.fd as int),
        contents.len() == req.length,
        start + req.map_len <= usize::MAX,
    ensures
        crate::kernel::memory::mmap_found(req, Some(start)) == Reply::<
            Seq<char>,
            Seq<u8>,
            Seq<char>,
        >::Ask(
            Action::MapAlloc { start, size: req.map_len, flags: req.access },
            Pending::MmapMap(req, start),
        ),
        s.proceed(Pending::MmapMap(req, start), Event::Status(Ok(()))) == (
            Reply::<Seq<char>, Seq<u8>, Seq<char>>::Ask(
                Action::ReadFileAt {
                    fd: req.fd,
                    offset: req.offset,
                    buf: crate::user_data::zeros(req.length as int),
                },
                Pending::MmapRead(req, start),
            ),
            s,
        ),
        s.proceed(Pending::MmapRead(req, start), Event::Buffer(Ok(contents))) == (
            Reply::<Seq<char>, Seq<u8>, Seq<char>>::Ask(
                Action::Store { addr: start, bytes: contents },
                Pending::MmapStore(req, start),
            ),
            s,
        ),
        s.proceed(Pending::MmapStore(req, start), Event::Status(Ok(()))).0 == Reply::<
            Seq<char>,
            Seq<u8>,
            Seq<char>,
        >::Ret(start as isize),
        s.proceed(Pending::MmapStore(req, start), Event::Status(Ok(()))).1 == (KernelState {
            next_mmap: (start + req.map_len) as usize,
            ..s
        }),
{
}

/// An anonymous mapping is done as soon as the pages are mapped. No file is
/// read, whatever the descriptor.
pub proof fn law_mmap_anonymous<T>(s: KernelState<T>, req: MmapRequest, start: usize)
    requires
        req.anonymous,
        start + req.map_len <= usize::MAX,
    ensures
        s.proceed(Pending::MmapMap(req, start), Event::Status(Ok(()))) == (
            Reply::<Seq<char>, Seq<u8>, Seq<char>>::Ret(start as isize),
            KernelState { next_mmap: (start + req.map_len) as usize, ..s },
        ),
{
}

/// After a successful mapping, a search without a wish for an address begins
/// right after that mapping.
pub proof fn law_mmap_next_search<T>(
    s: KernelState<T>,
    req: MmapRequest,
    start: usize,
    env: Env,
    length: usize,
    prot: i32,
    flags: i32,
    fd: i32,
    offset: isize,
)
    requires
        start + req.map_len <= usize::MAX,
        crate::kernel::memory::mmap_valid(length, prot, flags, offset),
        !crate::mapping::has_bits(flags, MAP_FIXED),
        env.space is Some,
    ensures
        s.mmap_done(req, start).1.mmap_start(env, 0, length, prot, flags, fd, offset)
            matches Reply::Ask(Action::FindFreeArea { hint, .. }, _) && hint == start
            + req.map_len,
{
}

/// Once `mmap` mapped memory, it either returns the start of the mapping or
/// removes exactly that mapping before it fails. A failure changes no state.
pub proof fn law_mmap_failure_undone<T>(
    s: KernelState<T>,
    req: MmapRequest,
    start: usize,
    pending: SpecPending,
    ev: SpecEvent<T>,
)
    requires
        pending == SpecPending::MmapMap(req, start) && ev == SpecEvent::<T>::Status(Ok(()))
            || pending == SpecPending::MmapRead(req, start) || pending == SpecPending::MmapStore(
            req,
            start,
        ),
        pending.accepts(ev),
    ensures
        match s.proceed(pending, ev) {
            (Reply::Ret(r), t) => r == start as isize && t == (KernelState {
                next_mmap: (start + req.map_len) as usize,
                ..s
            }),
            (Reply::Ask(action, p), t) => t == s && match p {
                Pending::MmapUndo { ret } => action == SpecAction::Unmap {
                    start,
                    size: req.map_len,
                } && s.proceed(p, Event::Done) == (
                    Reply::<Seq<char>, Seq<u8>, Seq<char>>::Ret(ret),
                    s,
                ),
                Pending::MmapRead(r, a) => r == req && a == start,
                Pending::MmapStore(r, a) => r == req && a == start,
                _ => false,
            },
        },
{
}

/// A mapping that failed before any memory was mapped changes no state.
pub proof fn law_mmap_refused<T>(s: KernelState<T>, req: MmapRequest, start: usize, code: i32)
    ensures
        s.proceed(Pending::MmapMap(req, start), Event::Status(Err(code))) == (
            crate::machine::fail_ax(code),
            s,
        ),
        s.proceed(Pending::MmapFind(req), Event::Found(None)) == (
            crate::machine::fail(LinuxError::ENOMEM),
            s,
        ),
{
}

/// Writing to the console prints one character for every byte, in order, and
/// returns the number of bytes.
pub proof fn law_console_write<T>(
    s: KernelState<T>,
    fd: i32,
    buf: usize,
    count: usize,
    bytes: Seq<u8>,
)
    requires
        fd == STDOUT || fd == STDERR,
        buf != 0,
        bytes.len() == count,
    ensures
        s.write_start(fd, buf, count) == Reply::<Seq<char>, Seq<u8>, Seq<char>>::Ask(
            Action::FetchBytes { addr: buf, len: count },
            Pending::ConsoleFetch { count },
        ),
        s.proceed(Pending::ConsoleFetch { count }, Event::Bytes(bytes)) == (
            Reply::<Seq<char>, Seq<u8>, Seq<char>>::Ask(
                Action::Print { text: crate::kernel::files::console_chars(bytes) },
                Pending::ConsolePrint { count },
            ),
            s,
        ),
        s.proceed(Pending::ConsolePrint { count }, Event::Done) == (
            Reply::<Seq<char>, Seq<u8>, Seq<char>>::Ret(count as isize),
            s,
        ),
{
}

/// Whether an event is of the kind that an action yields, with as many bytes as
/// were asked for.
pub open spec fn yields<T>(action: SpecAction, ev: SpecEvent<T>) -> bool {
    match action {
        Action::FetchByte { .. } => ev is Byte,
        Action::FetchBytes { len, .. } => ev matches Event::Bytes(bytes) && bytes.len() == len,
        Action::FetchIoVec { .. } => ev is IoVec,
        Action::Open { .. } => ev is Opened,
        Action::ReadFile { .. } => ev is Count,
        Action::WriteFile { .. } => ev is Count,
        Action::ReadFileAt { buf, .. } => ev matches Event::Buffer(r) && (r matches Ok(b)
            ==> b.len() == buf.len()),
        Action::Print { .. } => ev is Done,
        Action::FindFreeArea { .. } => ev is Found,
        Action::MapAlloc { .. } => ev is Status,
        Action::Protect { .. } => ev is Status,
        Action::Store { .. } => ev is Status,
        Action::Unmap { .. } => ev is Done,
    }
}

/// Whether an event keeps the numbers of a call in range.
pub open spec fn in_range<T>(pending: SpecPending, ev: SpecEvent<T>) -> bool {
    match (pending, ev) {
        (Pending::WritevEntry(w), Event::IoVec(v)) => v.iov_base == 0 || w.total + v.iov_len
            <= isize::MAX,
        (Pending::MmapMap(req, start), Event::Status(Ok(_))) => if req.anonymous {
            start + req.map_len <= usize::MAX
        } else {
            req.length <= isize::MAX
        },
        (Pending::MmapStore(req, start), Event::Status(Ok(_))) => start + req.map_len
            <= usize::MAX,
        _ => true,
    }
}

/// A call never waits for what its action does not yield: whatever the action
/// of a call brings, the call can go on, unless its numbers get out of range.
pub proof fn law_protocol<T>(
    s: KernelState<T>,
    env: Env,
    regs: Registers,
    pending: SpecPending,
    ev: SpecEvent<T>,
    next: SpecEvent<T>,
)
    requires
        regs.args.len() == 6,
        pending.wf(),
        pending.accepts(ev),
        next.valid(),
    ensures
        s.call(env, regs).step matches Step::Ask(action, p) ==> yields(action, next) && in_range(
            p,
            next,
        ) ==> p.accepts(next),
        s.proceed(pending, ev).0 matches Reply::Ask(action, p) ==> yields(action, next)
            && in_range(p, next) ==> p.accepts(next),
{
    lemma_call_protocol(s, env, regs, next);
    lemma_proceed_protocol(s, pending, ev, next);
}

proof fn lemma_call_protocol<T>(
    s: KernelState<T>,
    env: Env,
    regs: Registers,
    next: SpecEvent<T>,
)
    requires
        next.valid(),
    ensures
        s.call(env, regs).step matches Step::Ask(action, p) ==> yields(action, next) && in_range(
            p,
            next,
        ) ==> p.accepts(next),
{
}

proof fn lemma_proceed_protocol<T>(
    s: KernelState<T>,
    pending: SpecPending,
    ev: SpecEvent<T>,
    next: SpecEvent<T>,
)
    requires
        pending.accepts(ev),
        next.valid(),
    ensures
        s.proceed(pending, ev).0 matches Reply::Ask(action, p) ==> yields(action, next)
            && in_range(p, next) ==> p.accepts(next),
{
}

} // verus!
