//! What the system calls promise when they are followed from beginning to end,
//! and over any number of calls.

use crate::align::PAGE_SIZE_4K;
use crate::context::Registers;
use crate::errno::LinuxError;
use crate::kernel::dispatch::Outcome;
use crate::kernel::files::{AT_FDCWD, STDERR, STDOUT};
use crate::kernel::KernelState;
use crate::machine::{
    Action, Env, Event, IoVec, MmapRequest, Pending, Reply, SpecAction, SpecEvent, SpecPending,
    Step, WritevState,
};
use crate::mapping::{MAP_ANONYMOUS, MAP_FIXED};
use crate::nums::Syscall;
use crate::path::MAX_PATH_LEN;
use vstd::prelude::*;

verus! {

/// A system call with what its actions yield, one after another.
#[verifier::reject_recursive_types(T)]
pub struct UserCall<T> {
    pub env: Env,
    pub regs: Registers,
    pub events: Seq<SpecEvent<T>>,
}

/// Follows a call as far as there are events: the actions that it asks for, in
/// order, and the outcome.
pub open spec fn run<T>(o: Outcome<T>, events: Seq<SpecEvent<T>>) -> (Seq<SpecAction>, Outcome<T>)
    decreases events.len(),
{
    match o.step {
        Step::Ask(action, pending) => if events.len() == 0 {
            (seq![action], o)
        } else {
            let (reply, state) = o.state.proceed(pending, events[0]);
            let (actions, end) = run(
                crate::kernel::dispatch::outcome(reply, state, o.regs),
                events.drop_first(),
            );
            (seq![action] + actions, end)
        },
        _ => (Seq::empty(), o),
    }
}

/// Follows a call from its registers.
pub open spec fn run_call<T>(s: KernelState<T>, c: UserCall<T>) -> (Seq<SpecAction>, Outcome<T>) {
    run(s.call(c.env, c.regs), c.events)
}

/// The state after several calls.
pub open spec fn after_calls<T>(s: KernelState<T>, calls: Seq<UserCall<T>>) -> KernelState<T>
    decreases calls.len(),
{
    if calls.len() == 0 {
        s
    } else {
        after_calls(run_call(s, calls[0]).1.state, calls.drop_first())
    }
}

/// Whether all calls can compute with their arguments.
pub open spec fn all_defined<T>(calls: Seq<UserCall<T>>) -> bool {
    forall|i: int|
        0 <= i < calls.len() ==> crate::kernel::dispatch::call_defined(
            (#[trigger] calls[i]).env,
            calls[i].regs,
        )
}

/// Whether a call maps an address for the heap.
pub open spec fn maps_for_heap<T>(s: KernelState<T>, c: UserCall<T>, addr: int) -> bool {
    match s.call(c.env, c.regs).step {
        Step::Ask(Action::MapAlloc { start, size, .. }, Pending::BrkMap { .. }) => {
            &&& c.events.len() > 0
            &&& c.events[0] matches Event::Status(Ok(_))
            &&& start <= addr < start + size
        },
        _ => false,
    }
}

/// How often the calls map an address for the heap.
pub open spec fn times_mapped<T>(s: KernelState<T>, calls: Seq<UserCall<T>>, addr: int) -> int
    decreases calls.len(),
{
    if calls.len() == 0 {
        0
    } else {
        (if maps_for_heap(s, calls[0], addr) {
            1int
        } else {
            0
        }) + times_mapped(run_call(s, calls[0]).1.state, calls.drop_first(), addr)
    }
}

/// Over any calls the heap never shrinks, keeps holding the program break, and
/// each of its addresses beyond the old end was mapped exactly once. No other
/// address was mapped for it.
pub proof fn law_heap_mapped_once<T>(s: KernelState<T>, calls: Seq<UserCall<T>>, addr: int)
    requires
        s.wf(),
        all_defined(calls),
    ensures
        after_calls(s, calls).wf(),
        s.mapped <= after_calls(s, calls).mapped,
        times_mapped(s, calls, addr) == (if s.mapped <= addr < after_calls(s, calls).mapped {
            1int
        } else {
            0
        }),
    decreases calls.len(),
{
    if calls.len() > 0 {
        let rest = calls.drop_first();
        assert forall|i: int| 0 <= i < rest.len() implies crate::kernel::dispatch::call_defined(
            (#[trigger] rest[i]).env,
            rest[i].regs,
        ) by {
            assert(rest[i] == calls[i + 1]);
        }
        lemma_call_and_heap(s, calls[0], addr);
        law_heap_mapped_once(run_call(s, calls[0]).1.state, rest, addr);
    }
}

proof fn lemma_call_and_heap<T>(s: KernelState<T>, c: UserCall<T>, addr: int)
    requires
        s.wf(),
        crate::kernel::dispatch::call_defined(c.env, c.regs),
    ensures
        ({
            let t = run_call(s, c).1.state;
            &&& t.wf()
            &&& s.mapped <= t.mapped
            &&& maps_for_heap(s, c, addr) <==> s.mapped <= addr < t.mapped
        }),
{
    let o = s.call(c.env, c.regs);
    lemma_call_start(s, c.env, c.regs);
    match o.step {
        Step::Ask(action, Pending::BrkMap { addr: a, mapped_end }) => {
            if c.events.len() > 0 {
                let (reply, t) = s.proceed(o.step->Ask_1, c.events[0]);
                assert(reply is Ret);
                lemma_run_keeps_heap(
                    crate::kernel::dispatch::outcome(reply, t, o.regs),
                    c.events.drop_first(),
                );
            }
        },
        _ => {
            lemma_run_keeps_heap(o, c.events);
        },
    }
}

proof fn lemma_call_start<T>(s: KernelState<T>, env: Env, regs: Registers)
    requires
        s.wf(),
        crate::kernel::dispatch::call_defined(env, regs),
    ensures
        ({
            let o = s.call(env, regs);
            &&& o.state.wf()
            &&& o.state.mapped == s.mapped
            &&& o.step matches Step::Ask(action, Pending::BrkMap { addr, mapped_end }) ==> {
                &&& o.state == s
                &&& addr <= mapped_end && mapped_end % PAGE_SIZE_4K == 0
                &&& action matches Action::MapAlloc { start, size, .. } && start == s.mapped
                    && size > 0 && start + size == mapped_end
            }
        }),
{
    if Syscall::of(regs.arch, regs.nr) == Syscall::Brk {
        crate::align::lemma_page_size_pow2();
        crate::align::lemma_round_multiple(
            regs.args[0] as int,
            PAGE_SIZE_4K as int,
        );
    }
}

/// A call that is past `brk` leaves the heap alone.
proof fn lemma_run_keeps_heap<T>(o: Outcome<T>, events: Seq<SpecEvent<T>>)
    requires
        !(o.step matches Step::Ask(_, Pending::BrkMap { .. })),
    ensures
        run(o, events).1.state.brk == o.state.brk,
        run(o, events).1.state.mapped == o.state.mapped,
    decreases events.len(),
{
    if let Step::Ask(action, pending) = o.step {
        if events.len() > 0 {
            let (reply, state) = o.state.proceed(pending, events[0]);
            lemma_run_keeps_heap(
                crate::kernel::dispatch::outcome(reply, state, o.regs),
                events.drop_first(),
            );
        }
    }
}

/// Whether the registers ask for a mapping at a fixed address that can be had.
pub open spec fn asks_for_fixed(env: Env, regs: Registers) -> bool {
    let a = regs.args;
    &&& a.len() == 6
    &&& Syscall::of(regs.arch, regs.nr) == Syscall::Mmap
    &&& crate::kernel::memory::mmap_valid(a[1], a[2] as i32, a[3] as i32, a[5] as isize)
    &&& crate::mapping::has_bits(a[3] as i32, MAP_FIXED)
    &&& env.space is Some
    &&& a[0] != 0 && a[0] % PAGE_SIZE_4K == 0
}

/// A mapping at a fixed address is there, no matter what was mapped before: the
/// call removes it, maps the pages and returns the address. For a file, it also
/// stores what was read from it.
pub proof fn law_mmap_fixed_run<T>(
    s: KernelState<T>,
    env: Env,
    regs: Registers,
    contents: Seq<u8>,
)
    requires
        asks_for_fixed(env, regs),
    ensures
        ({
            let a = regs.args;
            let req = crate::kernel::memory::mmap_request(
                a[1],
                a[2] as i32,
                a[3] as i32,
                a[4] as i32,
                a[5] as isize,
            );
            let unmap = SpecAction::Unmap { start: a[0], size: req.map_len };
            let map = SpecAction::MapAlloc { start: a[0], size: req.map_len, flags: req.access };
            let read = SpecAction::ReadFileAt {
                fd: req.fd,
                offset: req.offset,
                buf: crate::user_data::zeros(req.length as int),
            };
            let store = SpecAction::Store { addr: a[0], bytes: contents };
            let end = Outcome {
                step: Step::Done,
                state: KernelState { next_mmap: (a[0] + req.map_len) as usize, ..s },
                regs: regs.with_ret(a[0]),
            };
            let mapped = seq![SpecEvent::<T>::Done, SpecEvent::<T>::Status(Ok(()))];
            let stored = mapped + seq![
                SpecEvent::<T>::Buffer(Ok(contents)),
                SpecEvent::<T>::Status(Ok(())),
            ];
            &&& req.anonymous ==> run_call(s, UserCall { env, regs, events: mapped }) == (
                seq![unmap, map],
                end,
            )
            &&& !req.anonymous && crate::fd_table::is_open(s.fds, req.fd as int) ==> run_call(
                s,
                UserCall { env, regs, events: stored },
            ) == (seq![unmap, map, read, store], end)
        }),
{
    let a = regs.args;
    let ok = SpecEvent::<T>::Status(Ok(()));
    let buffer = SpecEvent::<T>::Buffer(Ok(contents));
    let mapped = seq![SpecEvent::<T>::Done, ok];
    let stored = mapped + seq![buffer, ok];
    assert((a[0] as isize) as usize == a[0]) by {
        let addr = a[0];
        assert((addr as isize) as usize == addr) by (bit_vector);
    }
    reveal_with_fuel(run, 5);
    assert(mapped.drop_first() =~= seq![ok]);
    assert(seq![ok].drop_first() =~= Seq::empty());
    assert(stored.drop_first() =~= seq![ok, buffer, ok]);
    assert(stored.drop_first().drop_first() =~= seq![buffer, ok]);
    assert(stored.drop_first().drop_first().drop_first() =~= seq![ok]);
    let req = crate::kernel::memory::mmap_request(
        a[1],
        a[2] as i32,
        a[3] as i32,
        a[4] as i32,
        a[5] as isize,
    );
    if req.anonymous {
        assert(run_call(s, UserCall { env, regs, events: mapped }).0 =~= seq![
            SpecAction::Unmap { start: a[0], size: req.map_len },
            SpecAction::MapAlloc { start: a[0], size: req.map_len, flags: req.access },
        ]);
    } else if crate::fd_table::is_open(s.fds, req.fd as int) {
        assert(run_call(s, UserCall { env, regs, events: stored }).0 =~= seq![
            SpecAction::Unmap { start: a[0], size: req.map_len },
            SpecAction::MapAlloc { start: a[0], size: req.map_len, flags: req.access },
            SpecAction::ReadFileAt {
                fd: req.fd,
                offset: req.offset,
                buf: crate::user_data::zeros(req.length as int),
            },
            SpecAction::Store { addr: a[0], bytes: contents },
        ]);
    }
}

/// A fixed address for a file that is not open is left alone: nothing is removed
/// but what the call itself mapped, and the call fails.
pub proof fn law_mmap_fixed_not_open<T>(s: KernelState<T>, env: Env, regs: Registers, code: i32)
    requires
        asks_for_fixed(env, regs),
        !crate::mapping::has_bits(regs.args[3] as i32, MAP_ANONYMOUS),
        !crate::fd_table::is_open(s.fds, (regs.args[4] as i32) as int),
    ensures
        ({
            let a = regs.args;
            let req = crate::kernel::memory::mmap_request(
                a[1],
                a[2] as i32,
                a[3] as i32,
                a[4] as i32,
                a[5] as isize,
            );
            let map = SpecAction::MapAlloc { start: a[0], size: req.map_len, flags: req.access };
            let unmap = SpecAction::Unmap { start: a[0], size: req.map_len };
            let refused = seq![SpecEvent::<T>::Status(Err(code))];
            let mapped = seq![SpecEvent::<T>::Status(Ok(())), SpecEvent::<T>::Done];
            &&& run_call(s, UserCall { env, regs, events: refused }) == (
                seq![map],
                crate::kernel::dispatch::outcome(crate::machine::fail_ax(code), s, regs),
            )
            &&& run_call(s, UserCall { env, regs, events: mapped }) == (
                seq![map, unmap],
                crate::kernel::dispatch::outcome(
                    crate::machine::fail(LinuxError::EBADF),
                    s,
                    regs,
                ),
            )
        }),
{
    let a = regs.args;
    let req = crate::kernel::memory::mmap_request(
        a[1],
        a[2] as i32,
        a[3] as i32,
        a[4] as i32,
        a[5] as isize,
    );
    let map = SpecAction::MapAlloc { start: a[0], size: req.map_len, flags: req.access };
    let unmap = SpecAction::Unmap { start: a[0], size: req.map_len };
    let refused = seq![SpecEvent::<T>::Status(Err(code))];
    let mapped = seq![SpecEvent::<T>::Status(Ok(())), SpecEvent::<T>::Done];
    reveal_with_fuel(run, 3);
    assert(mapped.drop_first() =~= seq![SpecEvent::<T>::Done]);
    assert(run_call(s, UserCall { env, regs, events: refused }).0 =~= seq![map]);
    assert(run_call(s, UserCall { env, regs, events: mapped }).0 =~= seq![map, unmap]);
}

/// The registers with another descriptor for `mmap`.
pub open spec fn with_mmap_fd(regs: Registers, fd: usize) -> Registers {
    Registers { args: regs.args.update(4, fd), ..regs }
}

/// An anonymous mapping does not use a file: with any other descriptor, `mmap`
/// asks for the same actions, whatever they yield, and leaves the same state and
/// the same result.
pub proof fn law_mmap_anonymous_fd<T>(s: KernelState<T>, c: UserCall<T>, fd: usize)
    requires
        c.regs.args.len() == 6,
        Syscall::of(c.regs.arch, c.regs.nr) == Syscall::Mmap,
        crate::mapping::has_bits(c.regs.args[3] as i32, MAP_ANONYMOUS),
    ensures
        ({
            let (actions, end) = run_call(s, c);
            let (other_actions, other_end) = run_call(
                s,
                UserCall { regs: with_mmap_fd(c.regs, fd), ..c },
            );
            &&& other_actions == actions
            &&& other_end.state == end.state
            &&& other_end.step is Done <==> end.step is Done
            &&& other_end.regs == with_mmap_fd(end.regs, fd)
            &&& other_end.regs.ret() == end.regs.ret()
        }),
{
    let other = with_mmap_fd(c.regs, fd);
    assert(other.args[0] == c.regs.args[0] && other.args[1] == c.regs.args[1]);
    assert(other.args[2] == c.regs.args[2] && other.args[3] == c.regs.args[3]);
    assert(other.args[5] == c.regs.args[5]);
    lemma_same_with_ret(c.regs, fd);
    lemma_anonymous_run(s.call(c.env, c.regs), s.call(c.env, other), fd, c.events);
}

proof fn lemma_same_with_ret(regs: Registers, fd: usize)
    requires
        regs.args.len() == 6,
    ensures
        forall|ret: usize| #[trigger]
            with_mmap_fd(regs, fd).with_ret(ret) == with_mmap_fd(regs.with_ret(ret), fd),
{
    assert forall|ret: usize| #[trigger]
        with_mmap_fd(regs, fd).with_ret(ret) == with_mmap_fd(regs.with_ret(ret), fd) by {
        assert(with_mmap_fd(regs, fd).with_ret(ret).args =~= with_mmap_fd(
            regs.with_ret(ret),
            fd,
        ).args);
    }
}

/// Whether two requests are anonymous and the same but for the descriptor.
spec fn same_anonymous(a: MmapRequest, b: MmapRequest) -> bool {
    a.anonymous && b == (MmapRequest { fd: b.fd, ..a })
}

/// Whether two anonymous mappings go on in the same way.
spec fn same_pending(a: SpecPending, b: SpecPending) -> bool {
    match (a, b) {
        (Pending::MmapFind(p), Pending::MmapFind(q)) => same_anonymous(p, q),
        (Pending::MmapClear(p, i), Pending::MmapClear(q, j)) => same_anonymous(p, q) && i == j,
        (Pending::MmapMap(p, i), Pending::MmapMap(q, j)) => same_anonymous(p, q) && i == j,
        _ => false,
    }
}

proof fn lemma_anonymous_run<T>(
    a: Outcome<T>,
    b: Outcome<T>,
    fd: usize,
    events: Seq<SpecEvent<T>>,
)
    requires
        a.regs.args.len() == 6,
        b.regs == with_mmap_fd(a.regs, fd),
        b.state == a.state,
        match (a.step, b.step) {
            (Step::Done, Step::Done) => true,
            (Step::Ask(x, p), Step::Ask(y, q)) => x == y && same_pending(p, q),
            _ => false,
        },
    ensures
        run(b, events).0 == run(a, events).0,
        run(b, events).1.state == run(a, events).1.state,
        run(b, events).1.step is Done <==> run(a, events).1.step is Done,
        run(b, events).1.regs == with_mmap_fd(run(a, events).1.regs, fd),
        run(b, events).1.regs.ret() == run(a, events).1.regs.ret(),
    decreases events.len(),
{
    if let Step::Ask(x, p) = a.step {
        if events.len() > 0 {
            let q = b.step->Ask_1;
            let (reply_a, state_a) = a.state.proceed(p, events[0]);
            let (reply_b, state_b) = b.state.proceed(q, events[0]);
            lemma_same_with_ret(a.regs, fd);
            lemma_anonymous_run(
                crate::kernel::dispatch::outcome(reply_a, state_a, a.regs),
                crate::kernel::dispatch::outcome(reply_b, state_b, b.regs),
                fd,
                events.drop_first(),
            );
        }
    }
}

/// The bytes of user memory from an address on.
pub open spec fn mem_bytes(mem: spec_fn(usize) -> u8, ptr: usize, len: nat) -> Seq<u8> {
    Seq::new(len, |i: int| mem(ptr.wrapping_add(i as usize)))
}

/// The arguments of a call that opens a file: the directory, the address of the
/// path name, the flags and the mode.
pub open spec fn open_args(regs: Registers) -> (i32, usize, i32, u32) {
    let a = regs.args;
    if Syscall::of(regs.arch, regs.nr) == Syscall::Open {
        (AT_FDCWD, a[0], a[1] as i32, a[2] as u32)
    } else {
        (a[0] as i32, a[1], a[2] as i32, a[3] as u32)
    }
}

/// Whether the registers ask to open a file whose path name has an address.
pub open spec fn asks_to_open(regs: Registers) -> bool {
    &&& Syscall::of(regs.arch, regs.nr) == Syscall::Open || Syscall::of(regs.arch, regs.nr)
        == Syscall::Openat
    &&& open_args(regs).0 == AT_FDCWD
    &&& open_args(regs).1 != 0
}

/// What reading these bytes of user memory yields, byte by byte.
pub open spec fn byte_events<T>(bytes: Seq<u8>) -> Seq<SpecEvent<T>> {
    Seq::new(bytes.len(), |i: int| Event::Byte(bytes[i]))
}

/// The actions that read `len` bytes of user memory, byte by byte.
pub open spec fn byte_fetches(ptr: usize, len: nat) -> Seq<SpecAction> {
    Seq::new(len, |i: int| Action::FetchByte { addr: ptr.wrapping_add(i as usize) })
}

/// A call that opens a file reads the zero-terminated string at its address, and
/// no byte more, and goes on with the path that the string spells.
pub proof fn law_open_reads_string<T>(
    s: KernelState<T>,
    env: Env,
    regs: Registers,
    mem: spec_fn(usize) -> u8,
    n: nat,
    rest: Seq<SpecEvent<T>>,
)
    requires
        asks_to_open(regs),
        n <= MAX_PATH_LEN,
        mem_bytes(mem, open_args(regs).1, n + 1)[n as int] == 0,
        forall|i: int|
            0 <= i < n ==> #[trigger] mem_bytes(mem, open_args(regs).1, n + 1)[i] != 0,
    ensures
        ({
            let (_, ptr, flags, _) = open_args(regs);
            let events = byte_events::<T>(mem_bytes(mem, ptr, n + 1)) + rest;
            let (actions, end) = run(
                crate::kernel::dispatch::outcome(
                    crate::kernel::files::path_known(mem_bytes(mem, ptr, n), flags as u32),
                    s,
                    regs,
                ),
                rest,
            );
            run_call(s, UserCall { env, regs, events }) == (
                byte_fetches(ptr, n + 1) + actions,
                end,
            )
        }),
{
    let (_, ptr, flags, mode) = open_args(regs);
    let bytes = mem_bytes(mem, ptr, n + 1);
    lemma_read_path(s, regs, ptr, flags as u32, mode, bytes, 0, rest);
    assert(bytes.take(0) =~= Seq::empty());
    assert(bytes.skip(0) =~= bytes);
    assert(byte_fetches(ptr, n + 1).skip(0) =~= byte_fetches(ptr, n + 1));
    assert(bytes.drop_last() =~= mem_bytes(mem, ptr, n));
}

/// A path name without a zero in the bytes that are read is too long, and no
/// byte more is read.
pub proof fn law_open_path_too_long<T>(
    s: KernelState<T>,
    env: Env,
    regs: Registers,
    mem: spec_fn(usize) -> u8,
    rest: Seq<SpecEvent<T>>,
)
    requires
        asks_to_open(regs),
        forall|i: int|
            0 <= i <= MAX_PATH_LEN ==> #[trigger] mem_bytes(
                mem,
                open_args(regs).1,
                (MAX_PATH_LEN + 1) as nat,
            )[i] != 0,
    ensures
        ({
            let ptr = open_args(regs).1;
            let len = (MAX_PATH_LEN + 1) as nat;
            let events = byte_events::<T>(mem_bytes(mem, ptr, len)) + rest;
            run_call(s, UserCall { env, regs, events }) == (
                byte_fetches(ptr, len),
                crate::kernel::dispatch::outcome(
                    crate::machine::fail(LinuxError::ENAMETOOLONG),
                    s,
                    regs,
                ),
            )
        }),
{
    let (_, ptr, flags, mode) = open_args(regs);
    let bytes = mem_bytes(mem, ptr, (MAX_PATH_LEN + 1) as nat);
    lemma_read_path(s, regs, ptr, flags as u32, mode, bytes, 0, rest);
    assert(bytes.take(0) =~= Seq::empty());
    assert(bytes.skip(0) =~= bytes);
    assert(byte_fetches(ptr, bytes.len()).skip(0) + Seq::empty() =~= byte_fetches(
        ptr,
        bytes.len(),
    ));
}

/// Reading a path name from the byte at `k` on, where a zero or the limit comes
/// with the last of `bytes`.
proof fn lemma_read_path<T>(
    s: KernelState<T>,
    regs: Registers,
    ptr: usize,
    flags: u32,
    mode: u32,
    bytes: Seq<u8>,
    k: int,
    rest: Seq<SpecEvent<T>>,
)
    requires
        0 <= k < bytes.len() <= MAX_PATH_LEN + 1,
        forall|i: int| 0 <= i < bytes.len() - 1 ==> #[trigger] bytes[i] != 0,
        bytes.last() == 0 || bytes.len() == MAX_PATH_LEN + 1,
    ensures
        ({
            let o = crate::kernel::dispatch::outcome(
                crate::kernel::files::path_ask(ptr, bytes.take(k), flags, mode),
                s,
                regs,
            );
            let (actions, end) = run(
                crate::kernel::dispatch::outcome(
                    if bytes.last() == 0 {
                        crate::kernel::files::path_known(bytes.drop_last(), flags)
                    } else {
                        crate::machine::fail(LinuxError::ENAMETOOLONG)
                    },
                    s,
                    regs,
                ),
                rest,
            );
            run(o, byte_events::<T>(bytes.skip(k)) + rest) == (
                byte_fetches(ptr, bytes.len()).skip(k) + actions,
                end,
            )
        }),
    decreases bytes.len() - k,
{
    let events = byte_events::<T>(bytes.skip(k)) + rest;
    let fetches = byte_fetches(ptr, bytes.len());
    assert(events[0] == SpecEvent::<T>::Byte(bytes[k]));
    assert(events.drop_first() =~= byte_events::<T>(bytes.skip(k + 1)) + rest);
    assert(fetches.skip(k) =~= seq![fetches[k]] + fetches.skip(k + 1));
    if k + 1 < bytes.len() {
        assert(bytes.take(k).push(bytes[k]) =~= bytes.take(k + 1));
        lemma_read_path(s, regs, ptr, flags, mode, bytes, k + 1, rest);
        let tail = run(
            crate::kernel::dispatch::outcome(
                crate::kernel::files::path_ask(ptr, bytes.take(k + 1), flags, mode),
                s,
                regs,
            ),
            events.drop_first(),
        );
        let o = crate::kernel::dispatch::outcome(
            crate::kernel::files::path_ask(ptr, bytes.take(k), flags, mode),
            s,
            regs,
        );
        assert(run(o, events) == (seq![fetches[k]] + tail.0, tail.1));
        let actions = run(
            crate::kernel::dispatch::outcome(
                if bytes.last() == 0 {
                    crate::kernel::files::path_known(bytes.drop_last(), flags)
                } else {
                    crate::machine::fail(LinuxError::ENAMETOOLONG)
                },
                s,
                regs,
            ),
            rest,
        ).0;
        assert(seq![fetches[k]] + (fetches.skip(k + 1) + actions) =~= fetches.skip(k) + actions);
    } else {
        assert(bytes.take(k) =~= bytes.drop_last());
        assert(byte_events::<T>(bytes.skip(k + 1)) + rest =~= rest);
        assert(fetches.skip(k) =~= seq![fetches[k]]);
    }
}

/// The number of bytes in the buffers of a vectored write, from `index` on.
/// Buffers without an address do not count.
pub open spec fn writev_sum(iovs: Seq<IoVec>, index: int) -> int
    decreases iovs.len() - index,
{
    if index < 0 || index >= iovs.len() {
        0
    } else {
        (if iovs[index].iov_base == 0 {
            0
        } else {
            iovs[index].iov_len as int
        }) + writev_sum(iovs, index + 1)
    }
}

/// The text in the buffers of a vectored write, from `index` on.
pub open spec fn writev_text(mem: spec_fn(usize) -> u8, iovs: Seq<IoVec>, index: int) -> Seq<char>
    decreases iovs.len() - index,
{
    if index < 0 || index >= iovs.len() {
        Seq::empty()
    } else {
        (if iovs[index].iov_base == 0 {
            Seq::empty()
        } else {
            crate::kernel::files::console_chars(
                mem_bytes(mem, iovs[index].iov_base, iovs[index].iov_len as nat),
            )
        }) + writev_text(mem, iovs, index + 1)
    }
}

/// What the actions of a vectored write yield, from the buffer at `index` on,
/// when the user memory is `mem` and the buffers are `iovs`.
pub open spec fn writev_events<T>(
    mem: spec_fn(usize) -> u8,
    iovs: Seq<IoVec>,
    index: int,
) -> Seq<SpecEvent<T>>
    decreases iovs.len() - index,
{
    if index < 0 || index >= iovs.len() {
        Seq::empty()
    } else {
        let v = iovs[index];
        (if v.iov_base == 0 || v.iov_len == 0 {
            seq![Event::IoVec(v)]
        } else {
            seq![
                Event::IoVec(v),
                Event::Bytes(mem_bytes(mem, v.iov_base, v.iov_len as nat)),
                Event::Done,
            ]
        }) + writev_events(mem, iovs, index + 1)
    }
}

/// The text that actions print, in order.
pub open spec fn printed(actions: Seq<SpecAction>) -> Seq<char>
    decreases actions.len(),
{
    if actions.len() == 0 {
        Seq::empty()
    } else {
        (match actions[0] {
            Action::Print { text } => text,
            _ => Seq::empty(),
        }) + printed(actions.drop_first())
    }
}

/// A vectored write to the console prints all its buffers in order, one
/// character for every byte, and returns the number of bytes.
pub proof fn law_writev<T>(
    s: KernelState<T>,
    env: Env,
    regs: Registers,
    mem: spec_fn(usize) -> u8,
    iovs: Seq<IoVec>,
)
    requires
        Syscall::of(regs.arch, regs.nr) == Syscall::Writev,
        regs.args[0] as i32 == STDOUT || regs.args[0] as i32 == STDERR,
        iovs.len() == (regs.args[2] as i32) as usize,
        writev_sum(iovs, 0) <= isize::MAX,
    ensures
        ({
            let events = writev_events::<T>(mem, iovs, 0);
            let (actions, end) = run_call(s, UserCall { env, regs, events });
            &&& printed(actions) == writev_text(mem, iovs, 0)
            &&& end == crate::kernel::dispatch::outcome(
                Reply::Ret(writev_sum(iovs, 0) as isize),
                s,
                regs,
            )
        }),
{
    let w = WritevState {
        iov: regs.args[1],
        count: (regs.args[2] as i32) as usize,
        index: 0,
        total: 0,
    };
    lemma_writev_run(s, regs, mem, iovs, w);
}

proof fn lemma_writev_run<T>(
    s: KernelState<T>,
    regs: Registers,
    mem: spec_fn(usize) -> u8,
    iovs: Seq<IoVec>,
    w: WritevState,
)
    requires
        iovs.len() == w.count,
        w.index <= w.count,
        0 <= w.total,
        w.total + writev_sum(iovs, w.index as int) <= isize::MAX,
    ensures
        ({
            let o = crate::kernel::dispatch::outcome(
                crate::kernel::files::writev_next(w),
                s,
                regs,
            );
            let (actions, end) = run(o, writev_events::<T>(mem, iovs, w.index as int));
            &&& printed(actions) == writev_text(mem, iovs, w.index as int)
            &&& end == crate::kernel::dispatch::outcome(
                Reply::Ret((w.total + writev_sum(iovs, w.index as int)) as isize),
                s,
                regs,
            )
        }),
    decreases w.count - w.index,
{
    if w.index < w.count {
        let i = w.index as int;
        let v = iovs[i];
        let events = writev_events::<T>(mem, iovs, i);
        let rest = writev_events::<T>(mem, iovs, i + 1);
        let o = crate::kernel::dispatch::outcome(
            crate::kernel::files::writev_next(w),
            s,
            regs,
        );
        let fetch = SpecAction::FetchIoVec { iov: w.iov, index: w.index };
        lemma_writev_sum(iovs, i + 1);
        assert(events[0] == SpecEvent::<T>::IoVec(v));
        if v.iov_base == 0 || v.iov_len == 0 {
            let next = crate::kernel::files::writev_advance(w, 0);
            assert(events.drop_first() =~= rest);
            lemma_writev_run(s, regs, mem, iovs, next);
            let tail = run(
                crate::kernel::dispatch::outcome(
                    crate::kernel::files::writev_next(next),
                    s,
                    regs,
                ),
                rest,
            );
            assert(run(o, events) == (seq![fetch] + tail.0, tail.1));
            lemma_printed_one(fetch, tail.0);
            assert(mem_bytes(mem, v.iov_base, 0) =~= Seq::empty());
            assert(crate::kernel::files::console_chars(Seq::empty()) =~= Seq::empty());
            assert(writev_text(mem, iovs, i) =~= writev_text(mem, iovs, i + 1));
            assert(printed(seq![fetch] + tail.0) =~= printed(tail.0));
        } else {
            let next = crate::kernel::files::writev_advance(w, v.iov_len);
            let bytes = mem_bytes(mem, v.iov_base, v.iov_len as nat);
            let text = crate::kernel::files::console_chars(bytes);
            let read = SpecAction::FetchBytes { addr: v.iov_base, len: v.iov_len };
            let print = SpecAction::Print { text };
            let o1 = crate::kernel::dispatch::outcome(
                crate::kernel::files::writev_entry(w, v),
                s,
                regs,
            );
            let o2 = crate::kernel::dispatch::outcome(
                crate::kernel::files::writev_fetched(w, v.iov_len, bytes),
                s,
                regs,
            );
            assert(events.drop_first() =~= seq![
                SpecEvent::<T>::Bytes(bytes),
                SpecEvent::<T>::Done,
            ] + rest);
            assert(events.drop_first().drop_first() =~= seq![SpecEvent::<T>::Done] + rest);
            assert(events.drop_first().drop_first().drop_first() =~= rest);
            lemma_writev_run(s, regs, mem, iovs, next);
            let tail = run(
                crate::kernel::dispatch::outcome(
                    crate::kernel::files::writev_next(next),
                    s,
                    regs,
                ),
                rest,
            );
            let run2 = run(o2, events.drop_first().drop_first());
            assert(run2 == (seq![print] + tail.0, tail.1));
            let run1 = run(o1, events.drop_first());
            assert(run1 == (seq![read] + run2.0, run2.1));
            assert(run(o, events) == (seq![fetch] + run1.0, run1.1));
            lemma_printed_one(fetch, run1.0);
            lemma_printed_one(read, run2.0);
            lemma_printed_one(print, tail.0);
            assert(printed(seq![fetch] + run1.0) =~= text + printed(tail.0));
        }
    }
}

proof fn lemma_printed_one(action: SpecAction, rest: Seq<SpecAction>)
    ensures
        printed(seq![action] + rest) == (match action {
            Action::Print { text } => text,
            _ => Seq::empty(),
        }) + printed(rest),
{
    assert((seq![action] + rest).drop_first() =~= rest);
}

/// The number of bytes in buffers is not negative.
pub proof fn lemma_writev_sum(iovs: Seq<IoVec>, index: int)
    ensures
        writev_sum(iovs, index) >= 0,
    decreases iovs.len() - index,
{
    if 0 <= index < iovs.len() {
        lemma_writev_sum(iovs, index + 1);
    }
}

} // verus!
