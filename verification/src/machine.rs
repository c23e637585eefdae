//! How a system call proceeds: a call either returns, or asks for one action
//! on the world outside (user memory, files, the address space, the console)
//! and goes on with the event that the action yields.
//!
//! The types are generic in the way they hold texts and bytes: in vectors and
//! strings when they run, in sequences when they are reasoned about.

use crate::errno::{LinuxError, MAX_ERRNO};
use crate::mapping::MappingFlags;
use crate::open_options::OpenOptions;
use vstd::prelude::*;

verus! {

/// The extent of the user address space.
#[derive(Clone, Copy, Debug, PartialEq, Eq, Structural)]
pub struct UserSpace {
    pub base: usize,
    pub size: usize,
}

/// What a system call is told about its surroundings.
#[derive(Clone, Copy, Debug, PartialEq, Eq, Structural)]
pub struct Env {
    /// The user address space, once there is one.
    pub space: Option<UserSpace>,
    /// The identifier of the current task.
    pub task_id: u64,
}

/// One buffer of a vectored write.
#[derive(Clone, Copy, Debug, PartialEq, Eq, Structural)]
pub struct IoVec {
    pub iov_base: usize,
    pub iov_len: usize,
}

/// The addresses from `start` up to, but not with, `end`.
#[derive(Clone, Copy, Debug, PartialEq, Eq, Structural)]
pub struct AddrRange {
    pub start: usize,
    pub end: usize,
}

/// A request to the world outside. `P` holds a path, `B` bytes, `C` text for
/// the console.
#[derive(Debug, PartialEq, Eq)]
pub enum Action<P, B, C> {
    /// Read one byte of user memory. Yields [`Event::Byte`].
    FetchByte { addr: usize },
    /// Read user memory. Yields [`Event::Bytes`].
    FetchBytes { addr: usize, len: usize },
    /// Read an element of an array of [`IoVec`] in user memory. Yields
    /// [`Event::IoVec`].
    FetchIoVec { iov: usize, index: usize },
    /// Open a file. Yields [`Event::Opened`].
    Open { path: P, options: OpenOptions },
    /// Read an open file into user memory. Yields [`Event::Count`].
    ReadFile { fd: i32, addr: usize, len: usize },
    /// Write user memory to an open file. Yields [`Event::Count`].
    WriteFile { fd: i32, addr: usize, len: usize },
    /// Read an open file into the buffer. Yields [`Event::Buffer`].
    ReadFileAt { fd: i32, offset: u64, buf: B },
    /// Print to the console. Yields [`Event::Done`].
    Print { text: C },
    /// Search for unused addresses. Yields [`Event::Found`].
    FindFreeArea { hint: usize, size: usize, limit: AddrRange },
    /// Map fresh memory, populated at once. Yields [`Event::Status`].
    MapAlloc { start: usize, size: usize, flags: MappingFlags },
    /// Change the access to mapped memory. Yields [`Event::Status`].
    Protect { start: usize, size: usize, flags: MappingFlags },
    /// Write to mapped memory. Yields [`Event::Status`].
    Store { addr: usize, bytes: B },
    /// Remove whatever is mapped in a range, whether or not that succeeds.
    /// Yields [`Event::Done`].
    Unmap { start: usize, size: usize },
}

/// A file that was opened, and whether its attributes tell a directory. They
/// are absent if they could not be read.
#[derive(Debug, PartialEq, Eq)]
pub struct OpenedFile<T> {
    pub file: T,
    pub is_dir: Option<bool>,
}

/// What an action yields. Failures are codes of `AxError`.
#[derive(Debug, PartialEq, Eq)]
pub enum Event<T, B> {
    Byte(u8),
    Bytes(B),
    IoVec(IoVec),
    Opened(Result<OpenedFile<T>, i32>),
    Count(Result<usize, i32>),
    Buffer(Result<B, i32>),
    Found(Option<usize>),
    Status(Result<(), i32>),
    Done,
}

/// A vectored write that is under way: `index` buffers of `count` are done,
/// `total` bytes are written.
#[derive(Clone, Copy, Debug, PartialEq, Eq, Structural)]
pub struct WritevState {
    pub iov: usize,
    pub count: usize,
    pub index: usize,
    pub total: isize,
}

/// A valid request to map memory.
#[derive(Clone, Copy, Debug, PartialEq, Eq, Structural)]
pub struct MmapRequest {
    /// The number of bytes asked for.
    pub length: usize,
    /// The number of bytes that are mapped: whole pages.
    pub map_len: usize,
    pub access: MappingFlags,
    pub anonymous: bool,
    pub fd: i32,
    pub offset: u64,
}

/// Where a system call goes on after its action.
#[derive(Debug, PartialEq, Eq)]
pub enum Pending<B> {
    /// `openat` reads the path name, of which `bytes` is known.
    OpenPath { ptr: usize, bytes: B, flags: u32, mode: u32 },
    /// `openat` opens the file.
    OpenFile,
    /// `read` or `write` transfers to or from a file.
    Transfer,
    /// `write` reads the bytes for the console.
    ConsoleFetch { count: usize },
    /// `write` prints them.
    ConsolePrint { count: usize },
    /// `writev` reads a buffer's address and size.
    WritevEntry(WritevState),
    /// `writev` reads a buffer of the given size.
    WritevFetch(WritevState, usize),
    /// `writev` prints it.
    WritevPrint(WritevState, usize),
    /// `brk` maps memory up to `mapped_end`.
    BrkMap { addr: usize, mapped_end: usize },
    /// `mmap` searches for addresses.
    MmapFind(MmapRequest),
    /// `mmap` clears the given address for a mapping that has to be there.
    MmapClear(MmapRequest, usize),
    /// `mmap` maps memory at the given address.
    MmapMap(MmapRequest, usize),
    /// `mmap` reads the file.
    MmapRead(MmapRequest, usize),
    /// `mmap` stores the contents of the file.
    MmapStore(MmapRequest, usize),
    /// `mmap` removes the mapping before it fails with `ret`.
    MmapUndo { ret: isize },
    /// A last action, after which the call returns `ok` unless the action
    /// failed.
    Finish { ok: isize },
}

/// What a system call answers: its result, or an action and where to go on.
#[derive(Debug, PartialEq, Eq)]
pub enum Reply<P, B, C> {
    Ret(isize),
    Ask(Action<P, B, C>, Pending<B>),
}

/// What is to be done next for a system call.
#[derive(Debug, PartialEq, Eq)]
pub enum Step<P, B, C> {
    /// The call returned: its result is in the registers.
    Done,
    /// The program exits with this code.
    Exit(i32),
    /// Perform an action and resume.
    Ask(Action<P, B, C>, Pending<B>),
}

pub type KernelAction = Action<String, Vec<u8>, Vec<char>>;

pub type KernelPending = Pending<Vec<u8>>;

pub type KernelEvent<T> = Event<T, Vec<u8>>;

pub type KernelReply = Reply<String, Vec<u8>, Vec<char>>;

pub type KernelStep = Step<String, Vec<u8>, Vec<char>>;

pub type SpecAction = Action<Seq<char>, Seq<u8>, Seq<char>>;

pub type SpecPending = Pending<Seq<u8>>;

pub type SpecEvent<T> = Event<T, Seq<u8>>;

pub type SpecReply = Reply<Seq<char>, Seq<u8>, Seq<char>>;

pub type SpecStep = Step<Seq<char>, Seq<u8>, Seq<char>>;

impl View for KernelAction {
    type V = SpecAction;

    open spec fn view(&self) -> SpecAction {
        match *self {
            Action::FetchByte { addr } => Action::FetchByte { addr },
            Action::FetchBytes { addr, len } => Action::FetchBytes { addr, len },
            Action::FetchIoVec { iov, index } => Action::FetchIoVec { iov, index },
            Action::Open { path, options } => Action::Open { path: path@, options },
            Action::ReadFile { fd, addr, len } => Action::ReadFile { fd, addr, len },
            Action::WriteFile { fd, addr, len } => Action::WriteFile { fd, addr, len },
            Action::ReadFileAt { fd, offset, buf } => Action::ReadFileAt { fd, offset, buf: buf@ },
            Action::Print { text } => Action::Print { text: text@ },
            Action::FindFreeArea { hint, size, limit } => Action::FindFreeArea {
                hint,
                size,
                limit,
            },
            Action::MapAlloc { start, size, flags } => Action::MapAlloc { start, size, flags },
            Action::Protect { start, size, flags } => Action::Protect { start, size, flags },
            Action::Store { addr, bytes } => Action::Store { addr, bytes: bytes@ },
            Action::Unmap { start, size } => Action::Unmap { start, size },
        }
    }
}

impl View for KernelPending {
    type V = SpecPending;

    open spec fn view(&self) -> SpecPending {
        match *self {
            Pending::OpenPath { ptr, bytes, flags, mode } => Pending::OpenPath {
                ptr,
                bytes: bytes@,
                flags,
                mode,
            },
            Pending::OpenFile => Pending::OpenFile,
            Pending::Transfer => Pending::Transfer,
            Pending::ConsoleFetch { count } => Pending::ConsoleFetch { count },
            Pending::ConsolePrint { count } => Pending::ConsolePrint { count },
            Pending::WritevEntry(w) => Pending::WritevEntry(w),
            Pending::WritevFetch(w, len) => Pending::WritevFetch(w, len),
            Pending::WritevPrint(w, len) => Pending::WritevPrint(w, len),
            Pending::BrkMap { addr, mapped_end } => Pending::BrkMap { addr, mapped_end },
            Pending::MmapFind(req) => Pending::MmapFind(req),
            Pending::MmapClear(req, start) => Pending::MmapClear(req, start),
            Pending::MmapMap(req, start) => Pending::MmapMap(req, start),
            Pending::MmapRead(req, start) => Pending::MmapRead(req, start),
            Pending::MmapStore(req, start) => Pending::MmapStore(req, start),
            Pending::MmapUndo { ret } => Pending::MmapUndo { ret },
            Pending::Finish { ok } => Pending::Finish { ok },
        }
    }
}

impl<T> View for KernelEvent<T> {
    type V = SpecEvent<T>;

    open spec fn view(&self) -> SpecEvent<T> {
        match *self {
            Event::Byte(b) => Event::Byte(b),
            Event::Bytes(bytes) => Event::Bytes(bytes@),
            Event::IoVec(v) => Event::IoVec(v),
            Event::Opened(r) => Event::Opened(r),
            Event::Count(r) => Event::Count(r),
            Event::Buffer(Ok(buf)) => Event::Buffer(Ok(buf@)),
            Event::Buffer(Err(e)) => Event::Buffer(Err(e)),
            Event::Found(r) => Event::Found(r),
            Event::Status(r) => Event::Status(r),
            Event::Done => Event::Done,
        }
    }
}

impl View for KernelReply {
    type V = SpecReply;

    open spec fn view(&self) -> SpecReply {
        match *self {
            Reply::Ret(ret) => Reply::Ret(ret),
            Reply::Ask(action, pending) => Reply::Ask(action@, pending@),
        }
    }
}

impl View for KernelStep {
    type V = SpecStep;

    open spec fn view(&self) -> SpecStep {
        match *self {
            Step::Done => Step::Done,
            Step::Exit(code) => Step::Exit(code),
            Step::Ask(action, pending) => Step::Ask(action@, pending@),
        }
    }
}

impl UserSpace {
    /// Whether the extent can be written as a range.
    pub open spec fn valid(self) -> bool {
        self.base + self.size <= usize::MAX
    }
}

/// Whether a result tells an error: it is a negated error number.
pub open spec fn is_error(ret: isize) -> bool {
    -MAX_ERRNO <= ret < 0
}

/// The result of a call that fails with an error of its own.
pub open spec fn fail(e: LinuxError) -> SpecReply {
    Reply::Ret((-e.number()) as isize)
}

/// The result of a call that fails because an action did.
pub open spec fn fail_ax(code: i32) -> SpecReply {
    Reply::Ret((-crate::errno::linux_code_of_ax(code)) as isize)
}

impl<T> SpecEvent<T> {
    /// Whether a failure carries the code of an `AxError`.
    pub open spec fn valid(self) -> bool {
        match self {
            Event::Opened(Err(code)) => crate::errno::is_ax_code(code as int),
            Event::Count(Err(code)) => crate::errno::is_ax_code(code as int),
            Event::Buffer(Err(code)) => crate::errno::is_ax_code(code as int),
            Event::Status(Err(code)) => crate::errno::is_ax_code(code as int),
            _ => true,
        }
    }

    /// Whether the action failed.
    pub open spec fn failed(self) -> bool {
        match self {
            Event::Opened(r) => r is Err,
            Event::Count(r) => r is Err,
            Event::Buffer(r) => r is Err,
            Event::Status(r) => r is Err,
            _ => false,
        }
    }
}

impl SpecPending {
    /// The bounds that a system call under way keeps.
    pub open spec fn wf(self) -> bool {
        match self {
            Pending::OpenPath { ptr, bytes, flags, mode } => bytes.len()
                <= crate::path::MAX_PATH_LEN,
            Pending::BrkMap { addr, mapped_end } => addr <= mapped_end && mapped_end
                % crate::align::PAGE_SIZE_4K == 0,
            Pending::WritevEntry(w) => w.index < w.count && 0 <= w.total,
            Pending::WritevFetch(w, len) => w.index < w.count && 0 <= w.total && w.total + len
                <= isize::MAX,
            Pending::WritevPrint(w, len) => w.index < w.count && 0 <= w.total && w.total + len
                <= isize::MAX,
            _ => true,
        }
    }

    /// Whether an event is the one that this system call waits for, and does
    /// not take it out of the range of its numbers.
    pub open spec fn accepts<T>(self, ev: SpecEvent<T>) -> bool {
        &&& ev.valid()
        &&& match (self, ev) {
            (Pending::OpenPath { .. }, Event::Byte(_)) => true,
            (Pending::OpenFile, Event::Opened(_)) => true,
            (Pending::Transfer, Event::Count(_)) => true,
            (Pending::ConsoleFetch { count }, Event::Bytes(bytes)) => bytes.len() == count,
            (Pending::ConsolePrint { .. }, Event::Done) => true,
            (Pending::WritevEntry(w), Event::IoVec(v)) => v.iov_base == 0 || w.total + v.iov_len
                <= isize::MAX,
            (Pending::WritevFetch(w, len), Event::Bytes(bytes)) => bytes.len() == len,
            (Pending::WritevPrint(..), Event::Done) => true,
            (Pending::BrkMap { .. }, Event::Status(_)) => true,
            (Pending::MmapFind(_), Event::Found(_)) => true,
            (Pending::MmapClear(..), Event::Done) => true,
            (Pending::MmapMap(req, start), Event::Status(Ok(_))) => if req.anonymous {
                start + req.map_len <= usize::MAX
            } else {
                req.length <= isize::MAX
            },
            (Pending::MmapMap(..), Event::Status(Err(_))) => true,
            (Pending::MmapRead(req, start), Event::Buffer(Ok(buf))) => buf.len() == req.length,
            (Pending::MmapRead(..), Event::Buffer(Err(_))) => true,
            (Pending::MmapStore(req, start), Event::Status(Ok(_))) => start + req.map_len
                <= usize::MAX,
            (Pending::MmapStore(..), Event::Status(Err(_))) => true,
            (Pending::MmapUndo { .. }, Event::Done) => true,
            (Pending::Finish { .. }, Event::Status(_)) => true,
            _ => false,
        }
    }
}

impl SpecReply {
    /// A call that goes on keeps its bounds.
    pub open spec fn wf(self) -> bool {
        self matches Reply::Ask(_, pending) ==> pending.wf()
    }

    /// Whether the call returns an error, at once or after it removed a mapping.
    pub open spec fn fails(self) -> bool {
        match self {
            Reply::Ret(ret) => is_error(ret),
            Reply::Ask(_, Pending::MmapUndo { ret }) => is_error(ret),
            _ => false,
        }
    }
}

/// What is reasoned about is what is done: an action has the numbers, the access
/// and the options that its view has, and the characters of its text and path and
/// the bytes of its buffer.
pub proof fn law_action_view(action: KernelAction)
    ensures
        match (action, action@) {
            (Action::FetchByte { addr }, Action::FetchByte { addr: a }) => addr == a,
            (Action::FetchBytes { addr, len }, Action::FetchBytes { addr: a, len: l }) => addr == a
                && len == l,
            (Action::FetchIoVec { iov, index }, Action::FetchIoVec { iov: v, index: i }) => iov == v
                && index == i,
            (Action::Open { path, options }, Action::Open { path: p, options: o }) => path@ == p
                && options == o,
            (
                Action::ReadFile { fd, addr, len },
                Action::ReadFile { fd: f, addr: a, len: l },
            ) => fd == f && addr == a && len == l,
            (
                Action::WriteFile { fd, addr, len },
                Action::WriteFile { fd: f, addr: a, len: l },
            ) => fd == f && addr == a && len == l,
            (
                Action::ReadFileAt { fd, offset, buf },
                Action::ReadFileAt { fd: f, offset: o, buf: b },
            ) => fd == f && offset == o && buf@ == b,
            (Action::Print { text }, Action::Print { text: t }) => text@ == t,
            (
                Action::FindFreeArea { hint, size, limit },
                Action::FindFreeArea { hint: h, size: s, limit: l },
            ) => hint == h && size == s && limit == l,
            (
                Action::MapAlloc { start, size, flags },
                Action::MapAlloc { start: a, size: s, flags: f },
            ) => start == a && size == s && flags == f,
            (
                Action::Protect { start, size, flags },
                Action::Protect { start: a, size: s, flags: f },
            ) => start == a && size == s && flags == f,
            (Action::Store { addr, bytes }, Action::Store { addr: a, bytes: b }) => addr == a
                && bytes@ == b,
            (Action::Unmap { start, size }, Action::Unmap { start: a, size: s }) => start == a
                && size == s,
            _ => false,
        },
{
}

/// An event has the values that its view has, and the bytes of its buffer.
pub proof fn law_event_view<T>(ev: KernelEvent<T>)
    ensures
        match (ev, ev@) {
            (Event::Byte(x), Event::Byte(y)) => x == y,
            (Event::Bytes(x), Event::Bytes(y)) => x@ == y,
            (Event::IoVec(x), Event::IoVec(y)) => x == y,
            (Event::Opened(x), Event::Opened(y)) => x == y,
            (Event::Count(x), Event::Count(y)) => x == y,
            (Event::Buffer(Ok(x)), Event::Buffer(Ok(y))) => x@ == y,
            (Event::Buffer(Err(x)), Event::Buffer(Err(y))) => x == y,
            (Event::Found(x), Event::Found(y)) => x == y,
            (Event::Status(x), Event::Status(y)) => x == y,
            (Event::Done, Event::Done) => true,
            _ => false,
        },
{
}

/// A step has the exit code, the action and the rest of the call that its view
/// has.
pub proof fn law_step_view(step: KernelStep)
    ensures
        match (step, step@) {
            (Step::Done, Step::Done) => true,
            (Step::Exit(x), Step::Exit(y)) => x == y,
            (Step::Ask(a, p), Step::Ask(b, q)) => a@ == b && p@ == q,
            _ => false,
        },
{
}

/// A failure is valid exactly if it carries the code of an `AxError`, and every
/// event without a failure is.
pub proof fn law_event_valid<T>(ev: SpecEvent<T>, code: i32)
    ensures
        !ev.failed() ==> ev.valid(),
        SpecEvent::<T>::Opened(Err(code)).valid() == crate::errno::is_ax_code(code as int),
        SpecEvent::<T>::Count(Err(code)).valid() == crate::errno::is_ax_code(code as int),
        SpecEvent::<T>::Buffer(Err(code)).valid() == crate::errno::is_ax_code(code as int),
        SpecEvent::<T>::Status(Err(code)).valid() == crate::errno::is_ax_code(code as int),
        ev.failed() <==> match ev {
            Event::Opened(Err(_)) => true,
            Event::Count(Err(_)) => true,
            Event::Buffer(Err(_)) => true,
            Event::Status(Err(_)) => true,
            _ => false,
        },
{
}

} // verus!
