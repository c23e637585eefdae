//! The system calls as a user program sees them: from the registers, and from
//! what the world outside yields, to the actions, the result and the state.
//!
//! Numbers, bits and offsets are written out here, so that the laws hold the
//! rest of the kernel to the binary interface.

use crate::context::{Arch, Registers};
use crate::kernel::dispatch::Outcome;
use crate::kernel::runs::UserCall;
use crate::kernel::KernelState;
use crate::machine::{
    Action, AddrRange, Env, Event, IoVec, OpenedFile, SpecAction, SpecEvent, Step,
};
use crate::mapping::MappingFlags;
use crate::open_options::OpenOptions;
use vstd::prelude::*;
use vstd::utf8::*;

verus! {

/// Whether the registers hold the number that a call has in the generic table,
/// or on x86_64. A negative number stands for a call that does not exist there.
pub open spec fn calls(regs: Registers, generic: int, x86_64: int) -> bool {
    &&& regs.args.len() == 6
    &&& regs.nr == (if regs.arch == Arch::X86_64 {
        x86_64
    } else {
        generic
    })
}

/// The registers of a call that returned: `rax` holds the result on x86_64, the
/// first argument register elsewhere.
pub open spec fn returned(regs: Registers, ret: usize) -> Registers {
    if regs.arch == Arch::X86_64 {
        Registers { arch: regs.arch, nr: ret, args: regs.args, fs_base: regs.fs_base }
    } else {
        Registers {
            arch: regs.arch,
            nr: regs.nr,
            args: regs.args.update(0, ret),
            fs_base: regs.fs_base,
        }
    }
}

/// The result that stands for an error number.
pub open spec fn error(number: int) -> usize {
    ((-number) as isize) as usize
}

/// The result that stands for the failure of an action.
pub open spec fn outside_error(code: i32) -> usize {
    error(crate::errno::linux_code_of_ax(code) as int)
}

/// Whether the call in the registers asks for exactly these actions when they
/// yield these events, leaves the state `t` and returns `ret`.
pub open spec fn call_gives<T>(
    s: KernelState<T>,
    env: Env,
    regs: Registers,
    events: Seq<SpecEvent<T>>,
    actions: Seq<SpecAction>,
    t: KernelState<T>,
    ret: usize,
) -> bool {
    crate::kernel::runs::run_call(s, UserCall { env, regs, events }) == (
        actions,
        Outcome { step: Step::Done, state: t, regs: returned(regs, ret) },
    )
}

/// The least number of bytes in whole pages that holds `n` bytes.
pub open spec fn whole_pages(n: int) -> int {
    (n + 4095) / 4096 * 4096
}

/// The access that protection bits grant to a user program.
pub open spec fn access(prot: i32) -> MappingFlags {
    MappingFlags {
        read: prot & 1 != 0,
        write: prot & 2 != 0,
        execute: prot & 4 != 0,
        user: true,
    }
}

/// Whether a descriptor stands for an open file.
pub open spec fn open_file<T>(s: KernelState<T>, fd: i32) -> bool {
    0 <= fd < s.fds.len() && s.fds[fd as int] is Some
}

/// A buffer of zeros.
pub open spec fn zeroed(len: int) -> Seq<u8> {
    Seq::new(len as nat, |i: int| 0u8)
}

proof fn lemma_bits(x: usize)
    ensures
        (x as isize) as usize == x,
{
    assert((x as isize) as usize == x) by (bit_vector);
}

proof fn lemma_pages(n: usize)
    requires
        n + 4096 <= usize::MAX,
    ensures
        crate::kernel::memory::page_up(n) == whole_pages(n as int),
        n <= whole_pages(n as int) < n + 4096,
        whole_pages(n as int) % 4096 == 0,
{
    crate::align::lemma_page_size_pow2();
    crate::align::lemma_round_multiple(n as int, 4096);
}

proof fn lemma_access(prot: i32)
    ensures
        crate::mapping::flags_of_prot(prot) == access(prot),
{
    assert((prot & 1 == 1) == (prot & 1 != 0) && (prot & 2 == 2) == (prot & 2 != 0) && (prot & 4
        == 4) == (prot & 4 != 0)) by (bit_vector);
}

proof fn lemma_drop_first<T>(a: SpecEvent<T>, b: SpecEvent<T>, c: SpecEvent<T>, d: SpecEvent<T>)
    ensures
        seq![a].drop_first() == Seq::<SpecEvent<T>>::empty(),
        seq![a, b].drop_first() == seq![b],
        seq![a, b, c].drop_first() == seq![b, c],
        seq![a, b, c, d].drop_first() == seq![b, c, d],
{
    assert(seq![a].drop_first() =~= Seq::<SpecEvent<T>>::empty());
    assert(seq![a, b].drop_first() =~= seq![b]);
    assert(seq![a, b, c].drop_first() =~= seq![b, c]);
    assert(seq![a, b, c, d].drop_first() =~= seq![b, c, d]);
}

/// Calls that are accepted and do nothing return zero: `ioctl`, and in the
/// generic table `getuid`, `geteuid`, `getgid`, `getegid`, `set_robust_list`,
/// `rt_sigaction`, `rt_sigprocmask` and `tgkill`.
pub proof fn law_ignored<T>(s: KernelState<T>, env: Env, regs: Registers)
    requires
        calls(regs, 29, 16) || calls(regs, 174, -1) || calls(regs, 175, -1) || calls(regs, 176, -1)
            || calls(regs, 177, -1) || calls(regs, 99, -1) || calls(regs, 134, -1) || calls(
            regs,
            135,
            -1,
        ) || calls(regs, 131, -1),
    ensures
        call_gives(s, env, regs, Seq::empty(), Seq::empty(), s, 0),
{
}

/// The process is number one. A thread has the number of its task, which
/// `gettid` and `set_tid_address` return.
pub proof fn law_identity<T>(s: KernelState<T>, env: Env, regs: Registers)
    ensures
        calls(regs, 172, -1) ==> call_gives(s, env, regs, Seq::empty(), Seq::empty(), s, 1),
        calls(regs, 178, -1) || calls(regs, 96, 218) ==> call_gives(
            s,
            env,
            regs,
            Seq::empty(),
            Seq::empty(),
            s,
            (env.task_id as isize) as usize,
        ),
{
}

/// `exit` and `exit_group` end the program with the code in the first argument.
pub proof fn law_exits<T>(s: KernelState<T>, env: Env, regs: Registers, events: Seq<SpecEvent<T>>)
    requires
        calls(regs, 93, 60) || calls(regs, 94, 231),
    ensures
        crate::kernel::runs::run_call(s, UserCall { env, regs, events }) == (
            Seq::<SpecAction>::empty(),
            Outcome { step: Step::Exit(regs.args[0] as i32), state: s, regs },
        ),
{
}

/// Every number that no call has is refused with `ENOSYS`.
pub proof fn law_no_such_call<T>(s: KernelState<T>, env: Env, regs: Registers)
    requires
        regs.args.len() == 6,
        regs.arch == Arch::X86_64 ==> {
            &&& regs.nr > 3 && regs.nr != 9 && regs.nr != 12 && regs.nr != 16 && regs.nr != 20
            &&& regs.nr != 60 && regs.nr != 158 && regs.nr != 218 && regs.nr != 231
            &&& regs.nr != 257
        },
        regs.arch != Arch::X86_64 ==> {
            &&& regs.nr != 29 && regs.nr != 56 && regs.nr != 57 && regs.nr != 63 && regs.nr != 64
            &&& regs.nr != 66 && regs.nr != 78 && regs.nr != 93 && regs.nr != 94 && regs.nr != 96
            &&& regs.nr != 99 && regs.nr != 113 && regs.nr != 131 && regs.nr != 134
            &&& regs.nr != 135 && regs.nr != 160 && regs.nr != 172 && regs.nr != 174
            &&& regs.nr != 175 && regs.nr != 176 && regs.nr != 177 && regs.nr != 178
            &&& regs.nr != 214 && regs.nr != 222 && regs.nr != 226 && regs.nr != 261
            &&& regs.nr != 278
        },
    ensures
        call_gives(s, env, regs, Seq::empty(), Seq::empty(), s, error(38)),
{
}

/// `readlinkat` finds no symbolic link.
pub proof fn law_readlinkat<T>(s: KernelState<T>, env: Env, regs: Registers)
    requires
        calls(regs, 78, -1),
    ensures
        call_gives(s, env, regs, Seq::empty(), Seq::empty(), s, error(2)),
{
}

/// `arch_prctl` on x86_64 sets the base of the FS segment by the operation
/// 0x1002, and refuses every other operation.
pub proof fn law_arch_prctl<T>(s: KernelState<T>, env: Env, regs: Registers)
    requires
        calls(regs, -1, 158),
    ensures
        ({
            let set = Registers { fs_base: regs.args[1] as u64, ..regs };
            let (actions, end) = crate::kernel::runs::run_call(
                s,
                UserCall { env, regs, events: Seq::empty() },
            );
            &&& actions == Seq::<SpecAction>::empty()
            &&& end == (Outcome {
                step: Step::Done,
                state: s,
                regs: if regs.args[0] == 0x1002 {
                    returned(set, 0)
                } else {
                    returned(regs, error(22))
                },
            })
        }),
{
}

/// A record is stored where the user program wants it. Without an address, or
/// without an address space, the call fails with `EFAULT`. A failed store is the
/// failure of the call.
pub open spec fn stores<T>(
    s: KernelState<T>,
    env: Env,
    regs: Registers,
    addr: usize,
    bytes: Seq<u8>,
    ret: usize,
    code: i32,
) -> bool {
    let none = Seq::<SpecEvent<T>>::empty();
    let store = seq![SpecAction::Store { addr, bytes }];
    if addr == 0 || env.space is None {
        call_gives(s, env, regs, none, Seq::empty(), s, error(14))
    } else {
        &&& call_gives(s, env, regs, seq![SpecEvent::<T>::Status(Ok(()))], store, s, ret)
        &&& call_gives(
            s,
            env,
            regs,
            seq![SpecEvent::<T>::Status(Err(code))],
            store,
            s,
            outside_error(code),
        )
    }
}

proof fn lemma_stores<T>(
    s: KernelState<T>,
    env: Env,
    regs: Registers,
    addr: usize,
    bytes: Seq<u8>,
    ok: isize,
    code: i32,
)
    requires
        s.call(env, regs) == crate::kernel::dispatch::outcome(
            if addr == 0 {
                crate::machine::fail(crate::errno::LinuxError::EFAULT)
            } else {
                crate::kernel::info::store_start(env, addr, bytes, ok)
            },
            s,
            regs,
        ),
    ensures
        stores(s, env, regs, addr, bytes, ok as usize, code),
{
    reveal_with_fuel(crate::kernel::runs::run, 2);
    let ok = SpecEvent::<T>::Status(Ok(()));
    let failed = SpecEvent::<T>::Status(Err(code));
    lemma_drop_first(ok, ok, ok, ok);
    lemma_drop_first(failed, ok, ok, ok);
    let store = SpecAction::Store { addr, bytes };
    assert(seq![store] + Seq::empty() =~= seq![store]);
}

/// `uname` stores six fields of 65 bytes: `Linux`, `arceos`, `6.1.0`, `ArceOS`,
/// the name of the machine and `localdomain`, each filled up with zeros.
pub proof fn law_uname<T>(s: KernelState<T>, env: Env, regs: Registers, code: i32)
    requires
        calls(regs, 160, -1),
    ensures
        stores(
            s,
            env,
            regs,
            regs.args[0],
            crate::user_data::uts_literal(regs.arch),
            0,
            code,
        ),
{
    crate::user_data::law_uts_record(regs.arch);
    lemma_stores(s, env, regs, regs.args[0], crate::user_data::uts_record(regs.arch), 0, code);
}

/// `clock_gettime` stores sixteen zero bytes at its second argument.
pub proof fn law_clock_gettime<T>(s: KernelState<T>, env: Env, regs: Registers, code: i32)
    requires
        calls(regs, 113, -1),
    ensures
        stores(s, env, regs, regs.args[1], zeroed(16), 0, code),
{
    assert(crate::user_data::zeros(16) =~= zeroed(16));
    lemma_stores(s, env, regs, regs.args[1], zeroed(16), 0, code);
}

/// `prlimit64` stores two limits of all ones at its fourth argument, unless that
/// is zero.
pub proof fn law_prlimit64<T>(s: KernelState<T>, env: Env, regs: Registers, code: i32)
    requires
        calls(regs, 261, -1),
    ensures
        regs.args[3] == 0 ==> call_gives(s, env, regs, Seq::empty(), Seq::empty(), s, 0),
        regs.args[3] != 0 ==> stores(
            s,
            env,
            regs,
            regs.args[3],
            Seq::new(16, |i: int| 255u8),
            0,
            code,
        ),
{
    if regs.args[3] != 0 {
        lemma_stores(s, env, regs, regs.args[3], Seq::new(16, |i: int| 255u8), 0, code);
    }
}

/// `getrandom` fills the whole buffer with zeros and returns its length.
pub proof fn law_getrandom<T>(s: KernelState<T>, env: Env, regs: Registers, code: i32)
    requires
        calls(regs, 278, -1),
    ensures
        stores(s, env, regs, regs.args[0], zeroed(regs.args[1] as int), regs.args[1], code),
{
    let len = regs.args[1];
    lemma_bits(len);
    assert(crate::user_data::zeros(len as int) =~= zeroed(len as int));
    lemma_stores(s, env, regs, regs.args[0], zeroed(len as int), len as isize, code);
}

/// `mprotect` changes whole pages from its first argument on, to exactly the
/// access that the bits of its third argument grant.
pub proof fn law_mprotect<T>(s: KernelState<T>, env: Env, regs: Registers, code: i32)
    requires
        calls(regs, 226, -1),
        regs.args[1] + 4096 <= usize::MAX,
    ensures
        ({
            let a = regs.args;
            let prot = a[2] as i32;
            let none = Seq::<SpecEvent<T>>::empty();
            let protect = seq![
                SpecAction::Protect {
                    start: a[0],
                    size: whole_pages(a[1] as int) as usize,
                    flags: access(prot),
                },
            ];
            if a[0] % 4096 != 0 || a[1] == 0 || prot & !7 != 0 {
                call_gives(s, env, regs, none, Seq::empty(), s, error(22))
            } else if env.space is None {
                call_gives(s, env, regs, none, Seq::empty(), s, error(14))
            } else {
                &&& call_gives(s, env, regs, seq![SpecEvent::<T>::Status(Ok(()))], protect, s, 0)
                &&& call_gives(
                    s,
                    env,
                    regs,
                    seq![SpecEvent::<T>::Status(Err(code))],
                    protect,
                    s,
                    outside_error(code),
                )
            }
        }),
{
    reveal_with_fuel(crate::kernel::runs::run, 2);
    let ok = SpecEvent::<T>::Status(Ok(()));
    let failed = SpecEvent::<T>::Status(Err(code));
    lemma_drop_first(ok, ok, ok, ok);
    lemma_drop_first(failed, ok, ok, ok);
    lemma_pages(regs.args[1]);
    lemma_access(regs.args[2] as i32);
    let protect = SpecAction::Protect {
        start: regs.args[0],
        size: whole_pages(regs.args[1] as int) as usize,
        flags: access(regs.args[2] as i32),
    };
    assert(seq![protect] + Seq::empty() =~= seq![protect]);
}

/// `brk` of zero returns the program break. Any other address becomes the break
/// and is returned, at once if the heap reaches that far. Otherwise the missing
/// whole pages are mapped right after the heap, readable and writable, and if
/// that fails nothing changes.
pub proof fn law_brk<T>(s: KernelState<T>, env: Env, regs: Registers, code: i32)
    requires
        calls(regs, 214, 12),
        s.wf(),
        regs.args[0] + 4096 <= usize::MAX,
    ensures
        ({
            let addr = regs.args[0];
            let none = Seq::<SpecEvent<T>>::empty();
            let end = whole_pages(addr as int) as usize;
            let map = seq![
                SpecAction::MapAlloc {
                    start: s.mapped,
                    size: (end - s.mapped) as usize,
                    flags: MappingFlags { read: true, write: true, execute: false, user: true },
                },
            ];
            if addr == 0 {
                call_gives(s, env, regs, none, Seq::empty(), s, s.brk)
            } else if addr <= s.mapped {
                call_gives(s, env, regs, none, Seq::empty(), KernelState { brk: addr, ..s }, addr)
            } else if env.space is None {
                call_gives(s, env, regs, none, Seq::empty(), s, error(14))
            } else {
                &&& call_gives(
                    s,
                    env,
                    regs,
                    seq![SpecEvent::<T>::Status(Ok(()))],
                    map,
                    KernelState { brk: addr, mapped: end, ..s },
                    addr,
                )
                &&& call_gives(
                    s,
                    env,
                    regs,
                    seq![SpecEvent::<T>::Status(Err(code))],
                    map,
                    s,
                    outside_error(code),
                )
            }
        }),
{
    reveal_with_fuel(crate::kernel::runs::run, 2);
    let addr = regs.args[0];
    let ok = SpecEvent::<T>::Status(Ok(()));
    let failed = SpecEvent::<T>::Status(Err(code));
    lemma_drop_first(ok, ok, ok, ok);
    lemma_drop_first(failed, ok, ok, ok);
    lemma_pages(addr);
    lemma_bits(addr);
    lemma_bits(s.brk);
    let map = SpecAction::MapAlloc {
        start: s.mapped,
        size: (whole_pages(addr as int) as usize - s.mapped) as usize,
        flags: MappingFlags { read: true, write: true, execute: false, user: true },
    };
    assert(seq![map] + Seq::empty() =~= seq![map]);
    assert(addr <= s.mapped <==> whole_pages(addr as int) <= s.mapped);
}

/// `close` frees the descriptor of an open file and touches no other. Any other
/// descriptor is refused.
pub proof fn law_close<T>(s: KernelState<T>, env: Env, regs: Registers)
    requires
        calls(regs, 57, 3),
    ensures
        ({
            let fd = regs.args[0] as i32;
            let t = KernelState { fds: s.fds.update(fd as int, None), ..s };
            if open_file(s, fd) {
                call_gives(s, env, regs, Seq::empty(), Seq::empty(), t, 0)
            } else {
                call_gives(s, env, regs, Seq::empty(), Seq::empty(), s, error(9))
            }
        }),
{
}

/// `read` transfers from an open file to the address and for the length in the
/// registers, and `write` in the other direction. The call returns the number of
/// bytes that were transferred.
pub proof fn law_read_write<T>(s: KernelState<T>, env: Env, regs: Registers, n: usize, code: i32)
    requires
        calls(regs, 63, 0) || calls(regs, 64, 1) && regs.args[0] as i32 != 1 && regs.args[0] as i32
            != 2,
    ensures
        ({
            let a = regs.args;
            let fd = a[0] as i32;
            let none = Seq::<SpecEvent<T>>::empty();
            let transfer = seq![
                if calls(regs, 63, 0) {
                    SpecAction::ReadFile { fd, addr: a[1], len: a[2] }
                } else {
                    SpecAction::WriteFile { fd, addr: a[1], len: a[2] }
                },
            ];
            if a[1] == 0 {
                call_gives(s, env, regs, none, Seq::empty(), s, error(14))
            } else if !open_file(s, fd) {
                call_gives(s, env, regs, none, Seq::empty(), s, error(9))
            } else {
                &&& call_gives(s, env, regs, seq![SpecEvent::<T>::Count(Ok(n))], transfer, s, n)
                &&& call_gives(
                    s,
                    env,
                    regs,
                    seq![SpecEvent::<T>::Count(Err(code))],
                    transfer,
                    s,
                    outside_error(code),
                )
            }
        }),
{
    reveal_with_fuel(crate::kernel::runs::run, 2);
    let ok = SpecEvent::<T>::Count(Ok(n));
    let failed = SpecEvent::<T>::Count(Err(code));
    lemma_drop_first(ok, ok, ok, ok);
    lemma_drop_first(failed, ok, ok, ok);
    lemma_bits(n);
    let a = regs.args;
    let read = SpecAction::ReadFile { fd: a[0] as i32, addr: a[1], len: a[2] };
    let write = SpecAction::WriteFile { fd: a[0] as i32, addr: a[1], len: a[2] };
    assert(seq![read] + Seq::empty() =~= seq![read]);
    assert(seq![write] + Seq::empty() =~= seq![write]);
}

/// The text of bytes on the console: the character of each byte.
pub open spec fn chars_of(bytes: Seq<u8>) -> Seq<char> {
    Seq::new(bytes.len(), |i: int| bytes[i] as char)
}

/// `write` to the descriptors one and two reads the bytes at the address in the
/// registers, prints them one character per byte, and returns their number.
pub proof fn law_write_console<T>(s: KernelState<T>, env: Env, regs: Registers, bytes: Seq<u8>)
    requires
        calls(regs, 64, 1),
        regs.args[0] as i32 == 1 || regs.args[0] as i32 == 2,
        bytes.len() == regs.args[2],
    ensures
        ({
            let a = regs.args;
            if a[1] == 0 {
                call_gives(s, env, regs, Seq::empty(), Seq::empty(), s, error(14))
            } else {
                call_gives(
                    s,
                    env,
                    regs,
                    seq![SpecEvent::<T>::Bytes(bytes), SpecEvent::<T>::Done],
                    seq![
                        SpecAction::FetchBytes { addr: a[1], len: a[2] },
                        SpecAction::Print { text: chars_of(bytes) },
                    ],
                    s,
                    a[2],
                )
            }
        }),
{
    reveal_with_fuel(crate::kernel::runs::run, 3);
    let fetched = SpecEvent::<T>::Bytes(bytes);
    let done = SpecEvent::<T>::Done;
    lemma_drop_first(fetched, done, done, done);
    lemma_drop_first(done, done, done, done);
    lemma_bits(regs.args[2]);
    assert(crate::kernel::files::console_chars(bytes) =~= chars_of(bytes));
    let fetch = SpecAction::FetchBytes { addr: regs.args[1], len: regs.args[2] };
    let print = SpecAction::Print { text: chars_of(bytes) };
    assert(seq![fetch] + (seq![print] + Seq::empty()) =~= seq![fetch, print]);
}

/// Whether the arguments of `mmap` are acceptable, apart from the address: some
/// length, a page-aligned offset that is not negative, no unknown bits, and at
/// least one of shared and private.
pub open spec fn mmap_args_ok(a: Seq<usize>) -> bool {
    &&& a[1] != 0
    &&& a[5] as isize >= 0
    &&& a[5] % 4096 == 0
    &&& (a[2] as i32) & !7 == 0
    &&& (a[3] as i32) & !0x24033 == 0
    &&& (a[3] as i32) & 3 != 0
}

/// Whether the mapping has to be at the given address.
pub open spec fn mmap_fixed(a: Seq<usize>) -> bool {
    (a[3] as i32) & 0x10 != 0
}

/// Whether no file is mapped.
pub open spec fn mmap_anonymous(a: Seq<usize>) -> bool {
    (a[3] as i32) & 0x20 != 0
}

proof fn lemma_mmap_args(a: Seq<usize>)
    requires
        a.len() == 6,
    ensures
        mmap_args_ok(a) == crate::kernel::memory::mmap_valid(
            a[1],
            a[2] as i32,
            a[3] as i32,
            a[5] as isize,
        ),
        mmap_fixed(a) == crate::mapping::has_bits(a[3] as i32, crate::mapping::MAP_FIXED),
        mmap_anonymous(a) == crate::mapping::has_bits(a[3] as i32, crate::mapping::MAP_ANONYMOUS),
        a[5] as isize >= 0 ==> (a[5] as isize) as u64 == a[5],
{
    lemma_bits(a[5]);
    let flags = a[3] as i32;
    assert((flags & 0x10 == 0x10) == (flags & 0x10 != 0) && (flags & 0x20 == 0x20) == (flags & 0x20
        != 0) && (1i32 | 2i32 == 3)) by (bit_vector);
    let offset = a[5];
    assert(offset as isize >= 0 ==> offset as isize == offset) by (bit_vector);
}

/// `mmap` refuses bad arguments, a program without an address space, and a fixed
/// address that is zero or inside a page.
pub proof fn law_mmap_arguments<T>(s: KernelState<T>, env: Env, regs: Registers)
    requires
        calls(regs, 222, 9),
        !mmap_args_ok(regs.args) || env.space is None || mmap_fixed(regs.args) && (regs.args[0] == 0
            || regs.args[0] % 4096 != 0),
    ensures
        call_gives(
            s,
            env,
            regs,
            Seq::empty(),
            Seq::empty(),
            s,
            if mmap_args_ok(regs.args) && env.space is None {
                error(14)
            } else {
                error(22)
            },
        ),
{
    lemma_mmap_args(regs.args);
}

/// Whether `mmap` looks for an address.
pub open spec fn mmap_searches(env: Env, a: Seq<usize>) -> bool {
    mmap_args_ok(a) && env.space is Some && !mmap_fixed(a)
}

/// The search of `mmap`: for whole pages inside the address space, from the
/// wish of the program or from the end of the last mapping on.
pub open spec fn mmap_search<T>(s: KernelState<T>, env: Env, a: Seq<usize>) -> SpecAction {
    let space = env.space->Some_0;
    Action::FindFreeArea {
        hint: if a[0] == 0 {
            s.next_mmap
        } else {
            (a[0] - a[0] % 4096) as usize
        },
        size: whole_pages(a[1] as int) as usize,
        limit: AddrRange { start: space.base, end: (space.base + space.size) as usize },
    }
}

/// `mmap` fails with `ENOMEM` if the search finds nothing.
pub proof fn law_mmap_nothing_found<T>(s: KernelState<T>, env: Env, regs: Registers)
    requires
        calls(regs, 222, 9),
        mmap_searches(env, regs.args),
        regs.args[1] + 4096 <= usize::MAX,
    ensures
        call_gives(
            s,
            env,
            regs,
            seq![SpecEvent::<T>::Found(None)],
            seq![mmap_search(s, env, regs.args)],
            s,
            error(12),
        ),
{
    reveal_with_fuel(crate::kernel::runs::run, 2);
    lemma_mmap_begins(s, env, regs, 0, Seq::empty());
    let none = SpecEvent::<T>::Found(None);
    lemma_drop_first(none, none, none, none);
    let search = mmap_search(s, env, regs.args);
    assert(seq![search] + Seq::empty() =~= seq![search]);
}

/// Whether `mmap` gets as far as to map memory at `start`: at the fixed address,
/// or where the search found it.
pub open spec fn mmap_maps_at(env: Env, a: Seq<usize>, start: usize) -> bool {
    &&& mmap_args_ok(a)
    &&& env.space is Some
    &&& mmap_fixed(a) ==> start == a[0] && a[0] != 0 && a[0] % 4096 == 0
}

/// What happens before `mmap` maps memory at `start`: the search, or the removal
/// of what is in the way of a fixed mapping. Nothing is removed for a file that
/// is not open.
pub open spec fn mmap_before<T>(s: KernelState<T>, env: Env, a: Seq<usize>, start: usize) -> (
    Seq<SpecEvent<T>>,
    Seq<SpecAction>,
) {
    if !mmap_fixed(a) {
        (seq![Event::Found(Some(start))], seq![mmap_search(s, env, a)])
    } else if mmap_anonymous(a) || open_file(s, a[4] as i32) {
        (
            seq![Event::Done],
            seq![Action::Unmap { start, size: whole_pages(a[1] as int) as usize }],
        )
    } else {
        (Seq::empty(), Seq::empty())
    }
}

/// The request that the arguments of `mmap` make.
spec fn request_of(a: Seq<usize>) -> crate::machine::MmapRequest {
    crate::kernel::memory::mmap_request(
        a[1],
        a[2] as i32,
        a[3] as i32,
        a[4] as i32,
        a[5] as isize,
    )
}

proof fn lemma_mmap_begins<T>(
    s: KernelState<T>,
    env: Env,
    regs: Registers,
    start: usize,
    rest: Seq<SpecEvent<T>>,
)
    requires
        calls(regs, 222, 9),
        regs.args[1] + 4096 <= usize::MAX,
    ensures
        mmap_searches(env, regs.args) ==> s.call(env, regs) == crate::kernel::dispatch::outcome(
            crate::machine::Reply::Ask(
                mmap_search(s, env, regs.args),
                crate::machine::Pending::MmapFind(request_of(regs.args)),
            ),
            s,
            regs,
        ),
        mmap_maps_at(env, regs.args, start) ==> ({
            let (events, actions) = mmap_before(s, env, regs.args, start);
            let (more, end) = crate::kernel::runs::run(
                crate::kernel::dispatch::outcome(
                    crate::kernel::memory::mmap_at(request_of(regs.args), start),
                    s,
                    regs,
                ),
                rest,
            );
            crate::kernel::runs::run_call(s, UserCall { env, regs, events: events + rest }) == (
                actions + more,
                end,
            )
        }),
{
    let a = regs.args;
    lemma_mmap_args(a);
    lemma_pages(a[1]);
    crate::align::lemma_page_size_pow2();
    crate::align::lemma_round_multiple(a[0] as int, 4096);
    if mmap_maps_at(env, a, start) {
        let (events, actions) = mmap_before(s, env, a, start);
        if events.len() == 0 {
            assert(events + rest =~= rest);
        } else {
            assert((events + rest).drop_first() =~= rest);
            assert((events + rest)[0] == events[0]);
        }
        let (more, end) = crate::kernel::runs::run(
            crate::kernel::dispatch::outcome(
                crate::kernel::memory::mmap_at(request_of(a), start),
                s,
                regs,
            ),
            rest,
        );
        assert(Seq::<SpecAction>::empty() + more =~= more);
    }
}

/// Whether `mmap`, once it begins to map memory at `start`, goes on with these
/// actions when they yield these events, leaves `t` and returns `ret`.
pub open spec fn mmap_goes_on<T>(
    s: KernelState<T>,
    env: Env,
    regs: Registers,
    start: usize,
    events: Seq<SpecEvent<T>>,
    actions: Seq<SpecAction>,
    t: KernelState<T>,
    ret: usize,
) -> bool {
    let before = mmap_before(s, env, regs.args, start);
    call_gives(s, env, regs, before.0 + events, before.1 + actions, t, ret)
}

/// Memory is mapped in whole pages that hold the length asked for, and grants
/// read, write and execute access exactly if the bits 1, 2 and 4 of the third
/// argument are set. If the mapping fails the call fails and nothing changes. An
/// anonymous mapping is done then: the call returns its address, and the next
/// search begins after it.
pub proof fn law_mmap_maps<T>(
    s: KernelState<T>,
    env: Env,
    regs: Registers,
    start: usize,
    code: i32,
)
    requires
        calls(regs, 222, 9),
        mmap_maps_at(env, regs.args, start),
        regs.args[1] + 4096 <= usize::MAX,
    ensures
        ({
            let a = regs.args;
            let size = whole_pages(a[1] as int) as usize;
            let map = seq![SpecAction::MapAlloc { start, size, flags: access(a[2] as i32) }];
            let mapped = seq![SpecEvent::<T>::Status(Ok(()))];
            let refused = seq![SpecEvent::<T>::Status(Err(code))];
            &&& mmap_goes_on(s, env, regs, start, refused, map, s, outside_error(code))
            &&& mmap_anonymous(a) && start + size <= usize::MAX ==> mmap_goes_on(
                s,
                env,
                regs,
                start,
                mapped,
                map,
                KernelState { next_mmap: (start + size) as usize, ..s },
                start,
            )
        }),
{
    let a = regs.args;
    lemma_mmap_args(a);
    lemma_pages(a[1]);
    lemma_access(a[2] as i32);
    lemma_bits(start);
    let ok = SpecEvent::<T>::Status(Ok(()));
    let failed = SpecEvent::<T>::Status(Err(code));
    lemma_drop_first(ok, ok, ok, ok);
    lemma_drop_first(failed, ok, ok, ok);
    lemma_mmap_begins(s, env, regs, start, seq![ok]);
    lemma_mmap_begins(s, env, regs, start, seq![failed]);
    reveal_with_fuel(crate::kernel::runs::run, 2);
    let map = SpecAction::MapAlloc {
        start,
        size: whole_pages(a[1] as int) as usize,
        flags: access(a[2] as i32),
    };
    assert(seq![map] + Seq::empty() =~= seq![map]);
}

/// A file is mapped: after the memory, a zeroed buffer of the length asked for
/// is read from the file at the offset, and what it then holds is stored at the
/// start of the mapping. The call returns that address, and the next search
/// begins after the mapping. If the file is not open, cannot be read, or its
/// contents cannot be stored, the mapping is removed before the call fails, and
/// nothing changes.
pub proof fn law_mmap_maps_file<T>(
    s: KernelState<T>,
    env: Env,
    regs: Registers,
    start: usize,
    contents: Seq<u8>,
    code: i32,
)
    requires
        calls(regs, 222, 9),
        mmap_maps_at(env, regs.args, start),
        !mmap_anonymous(regs.args),
        regs.args[1] + 4096 <= usize::MAX,
    ensures
        ({
            let a = regs.args;
            let fd = a[4] as i32;
            let size = whole_pages(a[1] as int) as usize;
            let map = SpecAction::MapAlloc { start, size, flags: access(a[2] as i32) };
            let unmap = SpecAction::Unmap { start, size };
            let read = SpecAction::ReadFileAt {
                fd,
                offset: a[5] as u64,
                buf: zeroed(a[1] as int),
            };
            let store = SpecAction::Store { addr: start, bytes: contents };
            let ok = SpecEvent::<T>::Status(Ok(()));
            let bad = SpecEvent::<T>::Status(Err(code));
            let done = SpecEvent::<T>::Done;
            let good_read = SpecEvent::<T>::Buffer(Ok(contents));
            let bad_read = SpecEvent::<T>::Buffer(Err(code));
            if open_file(s, fd) {
                &&& start + size <= usize::MAX ==> mmap_goes_on(
                    s,
                    env,
                    regs,
                    start,
                    seq![ok, good_read, ok],
                    seq![map, read, store],
                    KernelState { next_mmap: (start + size) as usize, ..s },
                    start,
                )
                &&& mmap_goes_on(
                    s,
                    env,
                    regs,
                    start,
                    seq![ok, bad_read, done],
                    seq![map, read, unmap],
                    s,
                    outside_error(code),
                )
                &&& mmap_goes_on(
                    s,
                    env,
                    regs,
                    start,
                    seq![ok, good_read, bad, done],
                    seq![map, read, store, unmap],
                    s,
                    outside_error(code),
                )
            } else {
                mmap_goes_on(
                    s,
                    env,
                    regs,
                    start,
                    seq![ok, done],
                    seq![map, unmap],
                    s,
                    error(9),
                )
            }
        }),
{
    let a = regs.args;
    let fd = a[4] as i32;
    let size = whole_pages(a[1] as int) as usize;
    let map = SpecAction::MapAlloc { start, size, flags: access(a[2] as i32) };
    let unmap = SpecAction::Unmap { start, size };
    let read = SpecAction::ReadFileAt { fd, offset: a[5] as u64, buf: zeroed(a[1] as int) };
    let store = SpecAction::Store { addr: start, bytes: contents };
    let ok = SpecEvent::<T>::Status(Ok(()));
    let bad = SpecEvent::<T>::Status(Err(code));
    let done = SpecEvent::<T>::Done;
    let good_read = SpecEvent::<T>::Buffer(Ok(contents));
    let bad_read = SpecEvent::<T>::Buffer(Err(code));
    lemma_mmap_args(a);
    lemma_pages(a[1]);
    lemma_access(a[2] as i32);
    lemma_bits(start);
    assert(crate::user_data::zeros(a[1] as int) =~= zeroed(a[1] as int));
    let req = request_of(a);
    if open_file(s, fd) {
        lemma_mmap_begins(s, env, regs, start, seq![ok, good_read, ok]);
        lemma_mmap_begins(s, env, regs, start, seq![ok, bad_read, done]);
        lemma_mmap_begins(s, env, regs, start, seq![ok, good_read, bad, done]);
        lemma_file_mapped(s, regs, req, start, contents);
        lemma_file_unread(s, regs, req, start, code);
        lemma_file_unstored(s, regs, req, start, contents, code);
    } else {
        lemma_mmap_begins(s, env, regs, start, seq![ok, done]);
        lemma_file_missing(s, regs, req, start);
    }
}

/// A file mapping that has begun.
spec fn begun<T>(
    s: KernelState<T>,
    regs: Registers,
    req: crate::machine::MmapRequest,
    start: usize,
) -> Outcome<T> {
    crate::kernel::dispatch::outcome(crate::kernel::memory::mmap_at(req, start), s, regs)
}

proof fn lemma_file_mapped<T>(
    s: KernelState<T>,
    regs: Registers,
    req: crate::machine::MmapRequest,
    start: usize,
    contents: Seq<u8>,
)
    requires
        !req.anonymous,
        crate::fd_table::is_open(s.fds, req.fd as int),
    ensures
        crate::kernel::runs::run(
            begun(s, regs, req, start),
            seq![
                SpecEvent::<T>::Status(Ok(())),
                SpecEvent::<T>::Buffer(Ok(contents)),
                SpecEvent::<T>::Status(Ok(())),
            ],
        ) == (
            seq![
                SpecAction::MapAlloc { start, size: req.map_len, flags: req.access },
                SpecAction::ReadFileAt {
                    fd: req.fd,
                    offset: req.offset,
                    buf: crate::user_data::zeros(req.length as int),
                },
                SpecAction::Store { addr: start, bytes: contents },
            ],
            crate::kernel::dispatch::outcome(
                crate::machine::Reply::Ret(start as isize),
                KernelState { next_mmap: (start + req.map_len) as usize, ..s },
                regs,
            ),
        ),
{
    let ok = SpecEvent::<T>::Status(Ok(()));
    let read = SpecEvent::<T>::Buffer(Ok(contents));
    lemma_drop_first(ok, read, ok, ok);
    lemma_drop_first(read, ok, ok, ok);
    lemma_drop_first(ok, ok, ok, ok);
    reveal_with_fuel(crate::kernel::runs::run, 4);
    assert(crate::kernel::runs::run(begun(s, regs, req, start), seq![ok, read, ok]).0 =~= seq![
        SpecAction::MapAlloc { start, size: req.map_len, flags: req.access },
        SpecAction::ReadFileAt {
            fd: req.fd,
            offset: req.offset,
            buf: crate::user_data::zeros(req.length as int),
        },
        SpecAction::Store { addr: start, bytes: contents },
    ]);
}

proof fn lemma_file_unread<T>(
    s: KernelState<T>,
    regs: Registers,
    req: crate::machine::MmapRequest,
    start: usize,
    code: i32,
)
    requires
        !req.anonymous,
        crate::fd_table::is_open(s.fds, req.fd as int),
    ensures
        crate::kernel::runs::run(
            begun(s, regs, req, start),
            seq![
                SpecEvent::<T>::Status(Ok(())),
                SpecEvent::<T>::Buffer(Err(code)),
                SpecEvent::<T>::Done,
            ],
        ) == (
            seq![
                SpecAction::MapAlloc { start, size: req.map_len, flags: req.access },
                SpecAction::ReadFileAt {
                    fd: req.fd,
                    offset: req.offset,
                    buf: crate::user_data::zeros(req.length as int),
                },
                SpecAction::Unmap { start, size: req.map_len },
            ],
            crate::kernel::dispatch::outcome(crate::machine::fail_ax(code), s, regs),
        ),
{
    let ok = SpecEvent::<T>::Status(Ok(()));
    let read = SpecEvent::<T>::Buffer(Err(code));
    let done = SpecEvent::<T>::Done;
    lemma_drop_first(ok, read, done, ok);
    lemma_drop_first(read, done, ok, ok);
    lemma_drop_first(done, ok, ok, ok);
    reveal_with_fuel(crate::kernel::runs::run, 4);
    assert(crate::kernel::runs::run(begun(s, regs, req, start), seq![ok, read, done]).0 =~= seq![
        SpecAction::MapAlloc { start, size: req.map_len, flags: req.access },
        SpecAction::ReadFileAt {
            fd: req.fd,
            offset: req.offset,
            buf: crate::user_data::zeros(req.length as int),
        },
        SpecAction::Unmap { start, size: req.map_len },
    ]);
}

proof fn lemma_file_unstored<T>(
    s: KernelState<T>,
    regs: Registers,
    req: crate::machine::MmapRequest,
    start: usize,
    contents: Seq<u8>,
    code: i32,
)
    requires
        !req.anonymous,
        crate::fd_table::is_open(s.fds, req.fd as int),
    ensures
        crate::kernel::runs::run(
            begun(s, regs, req, start),
            seq![
                SpecEvent::<T>::Status(Ok(())),
                SpecEvent::<T>::Buffer(Ok(contents)),
                SpecEvent::<T>::Status(Err(code)),
                SpecEvent::<T>::Done,
            ],
        ) == (
            seq![
                SpecAction::MapAlloc { start, size: req.map_len, flags: req.access },
                SpecAction::ReadFileAt {
                    fd: req.fd,
                    offset: req.offset,
                    buf: crate::user_data::zeros(req.length as int),
                },
                SpecAction::Store { addr: start, bytes: contents },
                SpecAction::Unmap { start, size: req.map_len },
            ],
            crate::kernel::dispatch::outcome(crate::machine::fail_ax(code), s, regs),
        ),
{
    let ok = SpecEvent::<T>::Status(Ok(()));
    let read = SpecEvent::<T>::Buffer(Ok(contents));
    let bad = SpecEvent::<T>::Status(Err(code));
    let done = SpecEvent::<T>::Done;
    lemma_drop_first(ok, read, bad, done);
    lemma_drop_first(read, bad, done, ok);
    lemma_drop_first(bad, done, ok, ok);
    lemma_drop_first(done, ok, ok, ok);
    reveal_with_fuel(crate::kernel::runs::run, 5);
    assert(crate::kernel::runs::run(begun(s, regs, req, start), seq![ok, read, bad, done]).0
        =~= seq![
        SpecAction::MapAlloc { start, size: req.map_len, flags: req.access },
        SpecAction::ReadFileAt {
            fd: req.fd,
            offset: req.offset,
            buf: crate::user_data::zeros(req.length as int),
        },
        SpecAction::Store { addr: start, bytes: contents },
        SpecAction::Unmap { start, size: req.map_len },
    ]);
}

proof fn lemma_file_missing<T>(
    s: KernelState<T>,
    regs: Registers,
    req: crate::machine::MmapRequest,
    start: usize,
)
    requires
        !req.anonymous,
        !crate::fd_table::is_open(s.fds, req.fd as int),
    ensures
        crate::kernel::runs::run(
            begun(s, regs, req, start),
            seq![SpecEvent::<T>::Status(Ok(())), SpecEvent::<T>::Done],
        ) == (
            seq![
                SpecAction::MapAlloc { start, size: req.map_len, flags: req.access },
                SpecAction::Unmap { start, size: req.map_len },
            ],
            crate::kernel::dispatch::outcome(
                crate::machine::fail(crate::errno::LinuxError::EBADF),
                s,
                regs,
            ),
        ),
{
    let ok = SpecEvent::<T>::Status(Ok(()));
    let done = SpecEvent::<T>::Done;
    lemma_drop_first(ok, done, ok, ok);
    lemma_drop_first(done, ok, ok, ok);
    reveal_with_fuel(crate::kernel::runs::run, 3);
    assert(crate::kernel::runs::run(begun(s, regs, req, start), seq![ok, done]).0 =~= seq![
        SpecAction::MapAlloc { start, size: req.map_len, flags: req.access },
        SpecAction::Unmap { start, size: req.map_len },
    ]);
}

/// Where the path name of a call that opens a file lies, and its flags: `open`
/// on x86_64 has them in its first two arguments, `openat` in the second and
/// third, after the descriptor of a directory.
pub open spec fn open_request(regs: Registers) -> (usize, u32) {
    if calls(regs, -1, 2) {
        (regs.args[0], (regs.args[1] as i32) as u32)
    } else {
        (regs.args[1], (regs.args[2] as i32) as u32)
    }
}

/// Whether a call opens a file in the working directory.
pub open spec fn opens(regs: Registers) -> bool {
    calls(regs, -1, 2) || calls(regs, 56, 257) && regs.args[0] as i32 == -100
}

/// `openat` in another directory is refused, and so is a path name without an
/// address.
pub proof fn law_open_refused<T>(s: KernelState<T>, env: Env, regs: Registers)
    ensures
        calls(regs, 56, 257) && regs.args[0] as i32 != -100 ==> call_gives(
            s,
            env,
            regs,
            Seq::empty(),
            Seq::empty(),
            s,
            error(22),
        ),
        opens(regs) && open_request(regs).0 == 0 ==> call_gives(
            s,
            env,
            regs,
            Seq::empty(),
            Seq::empty(),
            s,
            error(14),
        ),
{
}

/// The options that open flags ask for, each by its own bits. A file can be read
/// in the modes 0 and 2, and written in the modes 1 and 2.
pub open spec fn options_of(flags: u32) -> OpenOptions {
    OpenOptions {
        read: flags & 3 == 0 || flags & 3 == 2,
        write: flags & 3 == 1 || flags & 3 == 2,
        append: flags & 0o2000 != 0,
        truncate: flags & 0o1000 != 0,
        create: flags & 0o100 != 0,
        create_new: flags & 0o200 != 0,
    }
}

/// The path with a slash in front, unless it begins with one.
pub open spec fn rooted(path: Seq<char>) -> Seq<char> {
    if path.len() > 0 && path[0] == '/' {
        path
    } else {
        seq!['/'] + path
    }
}

/// A call that opens a file reads the string at its address up to the zero. It
/// refuses a string that is not UTF-8 and the access mode 3. Otherwise it opens
/// the file with the options that the flags ask for. A directory is refused. Any
/// other file goes to the lowest descriptor `k` that is free, which the call
/// returns.
pub proof fn law_open<T>(
    s: KernelState<T>,
    env: Env,
    regs: Registers,
    mem: spec_fn(usize) -> u8,
    n: nat,
    file: T,
    is_dir: Option<bool>,
    code: i32,
    k: int,
)
    requires
        opens(regs),
        open_request(regs).0 != 0,
        n <= 4096,
        forall|i: int|
            0 <= i < n ==> mem(#[trigger] open_request(regs).0.wrapping_add(i as usize)) != 0,
        mem(open_request(regs).0.wrapping_add(n as usize)) == 0,
        0 <= k <= s.fds.len(),
        k <= i32::MAX,
        forall|i: int| 0 <= i < k ==> (#[trigger] s.fds[i]) is Some,
        k < s.fds.len() ==> s.fds[k] is None,
    ensures
        ({
            let (ptr, flags) = open_request(regs);
            let bytes = Seq::new(n, |i: int| mem(ptr.wrapping_add(i as usize)));
            let read = Seq::new(
                n + 1,
                |i: int| SpecEvent::<T>::Byte(mem(ptr.wrapping_add(i as usize))),
            );
            let fetch = Seq::new(
                n + 1,
                |i: int| SpecAction::FetchByte { addr: ptr.wrapping_add(i as usize) },
            );
            let open = seq![
                SpecAction::Open { path: rooted(decode_utf8(bytes)), options: options_of(flags) },
            ];
            let opened = seq![SpecEvent::<T>::Opened(Ok(OpenedFile { file, is_dir }))];
            let refused = seq![SpecEvent::<T>::Opened(Err(code))];
            let t = KernelState {
                fds: if k < s.fds.len() {
                    s.fds.update(k, Some(file))
                } else {
                    s.fds.push(Some(file))
                },
                ..s
            };
            if !valid_utf8(bytes) || flags & 3 == 3 {
                call_gives(s, env, regs, read, fetch, s, error(22))
            } else {
                &&& call_gives(
                    s,
                    env,
                    regs,
                    read + refused,
                    fetch + open,
                    s,
                    outside_error(code),
                )
                &&& is_dir == Some(true) ==> call_gives(
                    s,
                    env,
                    regs,
                    read + opened,
                    fetch + open,
                    s,
                    error(21),
                )
                &&& is_dir != Some(true) ==> call_gives(
                    s,
                    env,
                    regs,
                    read + opened,
                    fetch + open,
                    t,
                    k as usize,
                )
            }
        }),
{
    let (ptr, flags) = open_request(regs);
    let bytes = Seq::new(n, |i: int| mem(ptr.wrapping_add(i as usize)));
    let read = Seq::new(n + 1, |i: int| SpecEvent::<T>::Byte(mem(ptr.wrapping_add(i as usize))));
    let fetch = Seq::new(
        n + 1,
        |i: int| SpecAction::FetchByte { addr: ptr.wrapping_add(i as usize) },
    );
    let opened = seq![SpecEvent::<T>::Opened(Ok(OpenedFile { file, is_dir }))];
    let refused = seq![SpecEvent::<T>::Opened(Err(code))];
    let read_bytes = crate::kernel::runs::mem_bytes(mem, ptr, n + 1);
    assert forall|i: int| 0 <= i < n implies #[trigger] read_bytes[i] != 0 by {
        assert(mem(ptr.wrapping_add(i as usize)) != 0);
    }
    assert(read_bytes[n as int] == 0);
    assert(crate::kernel::runs::mem_bytes(mem, ptr, n) =~= bytes);
    assert(crate::kernel::runs::byte_events::<T>(read_bytes) =~= read);
    assert(crate::kernel::runs::byte_fetches(ptr, n + 1) =~= fetch);
    crate::kernel::runs::law_open_reads_string(s, env, regs, mem, n, Seq::empty());
    crate::kernel::runs::law_open_reads_string(s, env, regs, mem, n, opened);
    crate::kernel::runs::law_open_reads_string(s, env, regs, mem, n, refused);
    assert(read + Seq::empty() =~= read);
    assert(fetch + Seq::empty() =~= fetch);
    lemma_path_known(s, regs, bytes, flags, file, is_dir, code, k);
}

proof fn lemma_path_known<T>(
    s: KernelState<T>,
    regs: Registers,
    bytes: Seq<u8>,
    flags: u32,
    file: T,
    is_dir: Option<bool>,
    code: i32,
    k: int,
)
    requires
        0 <= k <= s.fds.len(),
        k <= i32::MAX,
        forall|i: int| 0 <= i < k ==> (#[trigger] s.fds[i]) is Some,
        k < s.fds.len() ==> s.fds[k] is None,
    ensures
        ({
            let o = crate::kernel::dispatch::outcome(
                crate::kernel::files::path_known(bytes, flags),
                s,
                regs,
            );
            let open = seq![
                SpecAction::Open { path: rooted(decode_utf8(bytes)), options: options_of(flags) },
            ];
            let opened = seq![SpecEvent::<T>::Opened(Ok(OpenedFile { file, is_dir }))];
            let refused = seq![SpecEvent::<T>::Opened(Err(code))];
            let t = KernelState {
                fds: if k < s.fds.len() {
                    s.fds.update(k, Some(file))
                } else {
                    s.fds.push(Some(file))
                },
                ..s
            };
            if !valid_utf8(bytes) || flags & 3 == 3 {
                crate::kernel::runs::run(o, Seq::empty()) == (
                    Seq::<SpecAction>::empty(),
                    Outcome { step: Step::Done, state: s, regs: returned(regs, error(22)) },
                )
            } else {
                &&& crate::kernel::runs::run(o, refused) == (
                    open,
                    Outcome {
                        step: Step::Done,
                        state: s,
                        regs: returned(regs, outside_error(code)),
                    },
                )
                &&& crate::kernel::runs::run(o, opened) == (
                    open,
                    if is_dir == Some(true) {
                        Outcome { step: Step::Done, state: s, regs: returned(regs, error(21)) }
                    } else {
                        Outcome { step: Step::Done, state: t, regs: returned(regs, k as usize) }
                    },
                )
            }
        }),
{
    let opened = seq![SpecEvent::<T>::Opened(Ok(OpenedFile { file, is_dir }))];
    let refused = seq![SpecEvent::<T>::Opened(Err(code))];
    crate::open_options::law_open_options(flags);
    crate::path::law_absolute(decode_utf8(bytes));
    crate::fd_table::law_free_slot(s.fds, k);
    lemma_bits(k as usize);
    reveal_with_fuel(crate::kernel::runs::run, 2);
    let open = SpecAction::Open {
        path: rooted(decode_utf8(bytes)),
        options: options_of(flags),
    };
    assert(opened.drop_first() =~= Seq::empty());
    assert(refused.drop_first() =~= Seq::empty());
    assert(seq![open] + Seq::empty() =~= seq![open]);
}

/// A path name without a zero among its first 4097 bytes is refused with
/// `ENAMETOOLONG`.
pub proof fn law_open_too_long<T>(
    s: KernelState<T>,
    env: Env,
    regs: Registers,
    mem: spec_fn(usize) -> u8,
)
    requires
        opens(regs),
        open_request(regs).0 != 0,
        forall|i: int|
            0 <= i <= 4096 ==> mem(#[trigger] open_request(regs).0.wrapping_add(i as usize)) != 0,
    ensures
        ({
            let ptr = open_request(regs).0;
            call_gives(
                s,
                env,
                regs,
                Seq::new(
                    4097,
                    |i: int| SpecEvent::<T>::Byte(mem(ptr.wrapping_add(i as usize))),
                ),
                Seq::new(
                    4097,
                    |i: int| SpecAction::FetchByte { addr: ptr.wrapping_add(i as usize) },
                ),
                s,
                error(36),
            )
        }),
{
    let ptr = open_request(regs).0;
    let read_bytes = crate::kernel::runs::mem_bytes(mem, ptr, 4097);
    assert forall|i: int| 0 <= i <= 4096 implies #[trigger] read_bytes[i] != 0 by {
        assert(mem(ptr.wrapping_add(i as usize)) != 0);
    }
    crate::kernel::runs::law_open_path_too_long(s, env, regs, mem, Seq::<SpecEvent<T>>::empty());
    assert(crate::kernel::runs::byte_events::<T>(read_bytes) + Seq::empty() =~= Seq::new(
        4097,
        |i: int| SpecEvent::<T>::Byte(mem(ptr.wrapping_add(i as usize))),
    ));
    assert(crate::kernel::runs::byte_fetches(ptr, 4097) =~= Seq::new(
        4097,
        |i: int| SpecAction::FetchByte { addr: ptr.wrapping_add(i as usize) },
    ));
}

/// The bytes that a buffer of a vectored write holds.
pub open spec fn buffer_of(mem: spec_fn(usize) -> u8, v: IoVec) -> Seq<u8> {
    Seq::new(v.iov_len as nat, |i: int| mem(v.iov_base.wrapping_add(i as usize)))
}

/// What a vectored write does for one buffer: it reads the address and length at
/// the index, then reads and prints the bytes, unless the buffer is empty or has
/// no address.
pub open spec fn buffer_actions(
    mem: spec_fn(usize) -> u8,
    iov: usize,
    index: int,
    v: IoVec,
) -> Seq<SpecAction> {
    let entry = SpecAction::FetchIoVec { iov, index: index as usize };
    if v.iov_base == 0 || v.iov_len == 0 {
        seq![entry]
    } else {
        seq![
            entry,
            Action::FetchBytes { addr: v.iov_base, len: v.iov_len },
            Action::Print { text: chars_of(buffer_of(mem, v)) },
        ]
    }
}

/// What the actions for one buffer yield.
pub open spec fn buffer_events<T>(mem: spec_fn(usize) -> u8, v: IoVec) -> Seq<SpecEvent<T>> {
    if v.iov_base == 0 || v.iov_len == 0 {
        seq![Event::IoVec(v)]
    } else {
        seq![Event::IoVec(v), Event::Bytes(buffer_of(mem, v)), Event::Done]
    }
}

/// The actions for the buffers from `index` on.
pub open spec fn all_actions(
    mem: spec_fn(usize) -> u8,
    iov: usize,
    iovs: Seq<IoVec>,
    index: int,
) -> Seq<SpecAction>
    decreases iovs.len() - index,
{
    if index < 0 || index >= iovs.len() {
        Seq::empty()
    } else {
        buffer_actions(mem, iov, index, iovs[index]) + all_actions(mem, iov, iovs, index + 1)
    }
}

/// What the actions for the buffers from `index` on yield.
pub open spec fn all_events<T>(
    mem: spec_fn(usize) -> u8,
    iovs: Seq<IoVec>,
    index: int,
) -> Seq<SpecEvent<T>>
    decreases iovs.len() - index,
{
    if index < 0 || index >= iovs.len() {
        Seq::empty()
    } else {
        buffer_events::<T>(mem, iovs[index]) + all_events::<T>(mem, iovs, index + 1)
    }
}

/// `writev` to the descriptors one and two takes its buffers in order, as many
/// as its third argument says, prints every one, and returns the number of bytes
/// in those that have an address. Any other descriptor is refused.
pub proof fn law_writev_buffers<T>(
    s: KernelState<T>,
    env: Env,
    regs: Registers,
    mem: spec_fn(usize) -> u8,
    iovs: Seq<IoVec>,
)
    requires
        calls(regs, 66, 20),
        iovs.len() == (regs.args[2] as i32) as usize,
        crate::kernel::runs::writev_sum(iovs, 0) <= isize::MAX,
    ensures
        regs.args[0] as i32 != 1 && regs.args[0] as i32 != 2 ==> call_gives(
            s,
            env,
            regs,
            Seq::empty(),
            Seq::empty(),
            s,
            error(9),
        ),
        regs.args[0] as i32 == 1 || regs.args[0] as i32 == 2 ==> call_gives(
            s,
            env,
            regs,
            all_events::<T>(mem, iovs, 0),
            all_actions(mem, regs.args[1], iovs, 0),
            s,
            crate::kernel::runs::writev_sum(iovs, 0) as usize,
        ),
{
    if regs.args[0] as i32 == 1 || regs.args[0] as i32 == 2 {
        let w = crate::machine::WritevState {
            iov: regs.args[1],
            count: (regs.args[2] as i32) as usize,
            index: 0,
            total: 0,
        };
        crate::kernel::runs::lemma_writev_sum(iovs, 0);
        lemma_bits(crate::kernel::runs::writev_sum(iovs, 0) as usize);
        lemma_writev_buffers(s, regs, mem, iovs, w);
    }
}

proof fn lemma_writev_buffers<T>(
    s: KernelState<T>,
    regs: Registers,
    mem: spec_fn(usize) -> u8,
    iovs: Seq<IoVec>,
    w: crate::machine::WritevState,
)
    requires
        iovs.len() == w.count,
        w.index <= w.count,
        0 <= w.total,
        w.total + crate::kernel::runs::writev_sum(iovs, w.index as int) <= isize::MAX,
    ensures
        crate::kernel::runs::run(
            crate::kernel::dispatch::outcome(crate::kernel::files::writev_next(w), s, regs),
            all_events::<T>(mem, iovs, w.index as int),
        ) == (
            all_actions(mem, w.iov, iovs, w.index as int),
            crate::kernel::dispatch::outcome(
                crate::machine::Reply::Ret(
                    (w.total + crate::kernel::runs::writev_sum(iovs, w.index as int)) as isize,
                ),
                s,
                regs,
            ),
        ),
    decreases w.count - w.index,
{
    if w.index < w.count {
        let i = w.index as int;
        let v = iovs[i];
        let len: usize = if v.iov_base == 0 {
            0
        } else {
            v.iov_len
        };
        let events = all_events::<T>(mem, iovs, i);
        let rest = all_events::<T>(mem, iovs, i + 1);
        let after = all_actions(mem, w.iov, iovs, i + 1);
        let bytes = buffer_of(mem, v);
        let done = SpecEvent::<T>::Done;
        let entry = SpecAction::FetchIoVec { iov: w.iov, index: w.index };
        crate::kernel::runs::lemma_writev_sum(iovs, i + 1);
        lemma_writev_buffers(
            s,
            regs,
            mem,
            iovs,
            crate::kernel::files::writev_advance(w, len),
        );
        let o = crate::kernel::dispatch::outcome(crate::kernel::files::writev_next(w), s, regs);
        let tail = crate::kernel::runs::run(
            crate::kernel::dispatch::outcome(
                crate::kernel::files::writev_next(crate::kernel::files::writev_advance(w, len)),
                s,
                regs,
            ),
            rest,
        );
        assert(events[0] == SpecEvent::<T>::IoVec(v));
        if v.iov_base == 0 || v.iov_len == 0 {
            assert(events.drop_first() =~= rest);
            assert(crate::kernel::runs::run(o, events) == (seq![entry] + tail.0, tail.1));
        } else {
            let read = SpecAction::FetchBytes { addr: v.iov_base, len: v.iov_len };
            let print = SpecAction::Print { text: chars_of(bytes) };
            let o1 = crate::kernel::dispatch::outcome(
                crate::kernel::files::writev_entry(w, v),
                s,
                regs,
            );
            let o2 = crate::kernel::dispatch::outcome(
                crate::kernel::files::writev_fetched(w, v.iov_len, bytes),
                s,
                regs,
            );
            let events1 = events.drop_first();
            let events2 = events1.drop_first();
            assert(crate::kernel::files::console_chars(bytes) =~= chars_of(bytes));
            assert(events1 =~= seq![SpecEvent::<T>::Bytes(bytes), done] + rest);
            assert(events2 =~= seq![done] + rest);
            assert(events2.drop_first() =~= rest);
            let run2 = crate::kernel::runs::run(o2, events2);
            assert(run2 == (seq![print] + tail.0, tail.1));
            let run1 = crate::kernel::runs::run(o1, events1);
            assert(run1 == (seq![read] + run2.0, run2.1));
            assert(crate::kernel::runs::run(o, events) == (seq![entry] + run1.0, run1.1));
            assert(seq![entry] + (seq![read] + (seq![print] + after)) =~= seq![entry, read, print]
                + after);
        }
    }
}

/// The text of bytes on the console has one character for each of them, the one
/// with the number of the byte.
pub proof fn law_console_text(bytes: Seq<u8>, i: int)
    requires
        0 <= i < bytes.len(),
    ensures
        crate::kernel::files::console_chars(bytes).len() == bytes.len(),
        crate::kernel::files::console_chars(bytes)[i] as int == bytes[i],
{
}

/// A system call can compute with its arguments unless a number gets too great:
/// the pages of `brk`, `mmap` and `mprotect`, the end of the address space for a
/// search, or the buffer of `getrandom`.
pub proof fn law_call_defined(env: Env, regs: Registers)
    requires
        regs.args.len() == 6,
    ensures
        ({
            let a = regs.args;
            crate::kernel::dispatch::call_defined(env, regs) == (if calls(regs, 214, 12) {
                a[0] + 4096 <= usize::MAX
            } else if calls(regs, 222, 9) {
                mmap_args_ok(a) ==> {
                    &&& a[1] + 4096 <= usize::MAX
                    &&& mmap_fixed(a) || env.space is None || env.space->Some_0.base
                        + env.space->Some_0.size <= usize::MAX
                }
            } else if calls(regs, 226, -1) {
                a[0] % 4096 != 0 || (a[2] as i32) & !7 != 0 || a[1] + 4096 <= usize::MAX
            } else if calls(regs, 278, -1) {
                a[0] == 0 || a[1] <= isize::MAX
            } else {
                true
            })
        }),
{
    lemma_mmap_args(regs.args);
}

} // verus!
