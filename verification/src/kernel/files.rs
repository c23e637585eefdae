//! `openat`, `close`, `read`, `write` and `writev`.

use crate::errno::{neg_ax_error, neg_errno, LinuxError};
use crate::kernel::{Kernel, KernelState};
use crate::machine::{
    Action, IoVec, KernelReply, OpenedFile, Pending, Reply, SpecReply, WritevState,
};
use crate::open_options::linux_flags_to_open_options;
use crate::path::{c_str_to_string, normalize_path, MAX_PATH_LEN};
use vstd::prelude::*;
use vstd::utf8::*;

verus! {

/// The directory descriptor that stands for the working directory.
pub const AT_FDCWD: i32 = -100;

/// The descriptor of the standard output.
pub const STDOUT: i32 = 1;

/// The descriptor of the standard error output.
pub const STDERR: i32 = 2;

/// The text that bytes stand for on the console: every byte is one character.
pub open spec fn console_chars(bytes: Seq<u8>) -> Seq<char> {
    Seq::new(bytes.len(), |i: int| bytes[i] as char)
}

/// `openat` begins to read the path name.
pub open spec fn openat_start(dfd: i32, fname: usize, flags: i32, mode: u32) -> SpecReply {
    if dfd != AT_FDCWD {
        crate::machine::fail(LinuxError::EINVAL)
    } else if fname == 0 {
        crate::machine::fail(LinuxError::EFAULT)
    } else {
        path_ask(fname, Seq::empty(), flags as u32, mode)
    }
}

/// `openat` asks for the byte of the path name after the known ones.
pub open spec fn path_ask(ptr: usize, bytes: Seq<u8>, flags: u32, mode: u32) -> SpecReply {
    Reply::Ask(
        Action::FetchByte { addr: ptr.wrapping_add(bytes.len() as usize) },
        Pending::OpenPath { ptr, bytes, flags, mode },
    )
}

/// `openat` after one more byte of the path name: a zero ends the name.
pub open spec fn path_byte(
    ptr: usize,
    bytes: Seq<u8>,
    flags: u32,
    mode: u32,
    b: u8,
) -> SpecReply {
    if b == 0 {
        path_known(bytes, flags)
    } else if bytes.len() + 1 > MAX_PATH_LEN {
        crate::machine::fail(LinuxError::ENAMETOOLONG)
    } else {
        path_ask(ptr, bytes.push(b), flags, mode)
    }
}

/// `openat` opens the file, once the path name is known.
pub open spec fn path_known(bytes: Seq<u8>, flags: u32) -> SpecReply {
    if !valid_utf8(bytes) {
        crate::machine::fail(LinuxError::EINVAL)
    } else {
        match crate::open_options::open_options(flags) {
            Err(e) => crate::machine::fail(e),
            Ok(options) => Reply::Ask(
                Action::Open { path: crate::path::absolute(decode_utf8(bytes)), options },
                Pending::OpenFile,
            ),
        }
    }
}

/// `read` or `write` after the transfer.
pub open spec fn transferred(r: Result<usize, i32>) -> SpecReply {
    match r {
        Ok(n) => Reply::Ret(n as isize),
        Err(code) => crate::machine::fail_ax(code),
    }
}

/// `write` prints the bytes that it read.
pub open spec fn console_fetched(count: usize, bytes: Seq<u8>) -> SpecReply {
    Reply::Ask(Action::Print { text: console_chars(bytes) }, Pending::ConsolePrint { count })
}

/// `writev` begins with the first buffer.
pub open spec fn writev_start(fd: i32, iov: usize, iovcnt: i32) -> SpecReply {
    if fd != STDOUT && fd != STDERR {
        crate::machine::fail(LinuxError::EBADF)
    } else {
        writev_next(WritevState { iov, count: iovcnt as usize, index: 0, total: 0 })
    }
}

/// `writev` asks for the next buffer, or returns the number of bytes written.
pub open spec fn writev_next(w: WritevState) -> SpecReply {
    if w.index < w.count {
        Reply::Ask(
            Action::FetchIoVec { iov: w.iov, index: w.index },
            Pending::WritevEntry(w),
        )
    } else {
        Reply::Ret(w.total)
    }
}

/// `writev` after `len` bytes of the current buffer.
pub open spec fn writev_advance(w: WritevState, len: usize) -> WritevState {
    WritevState { index: (w.index + 1) as usize, total: (w.total + len) as isize, ..w }
}

/// `writev` reads a buffer, and skips one that is empty or has no address.
pub open spec fn writev_entry(w: WritevState, v: IoVec) -> SpecReply {
    if v.iov_len == 0 || v.iov_base == 0 {
        writev_next(writev_advance(w, 0))
    } else {
        Reply::Ask(
            Action::FetchBytes { addr: v.iov_base, len: v.iov_len },
            Pending::WritevFetch(w, v.iov_len),
        )
    }
}

/// `writev` prints a buffer.
pub open spec fn writev_fetched(w: WritevState, len: usize, bytes: Seq<u8>) -> SpecReply {
    Reply::Ask(Action::Print { text: console_chars(bytes) }, Pending::WritevPrint(w, len))
}

/// `writev` after a buffer was printed.
pub open spec fn writev_printed(w: WritevState, len: usize) -> SpecReply {
    writev_next(writev_advance(w, len))
}

impl<T> KernelState<T> {
    /// `openat` after the file was opened, or was not. A directory is refused,
    /// any other file gets the lowest free descriptor.
    pub open spec fn opened(self, r: Result<OpenedFile<T>, i32>) -> (SpecReply, KernelState<T>) {
        match r {
            Err(code) => (crate::machine::fail_ax(code), self),
            Ok(f) => if f.is_dir == Some(true) {
                (crate::machine::fail(LinuxError::EISDIR), self)
            } else {
                let slot = crate::fd_table::free_slot(self.fds);
                (
                    Reply::Ret((slot as i32) as isize),
                    KernelState {
                        fds: crate::fd_table::with_file(self.fds, slot, f.file),
                        ..self
                    },
                )
            },
        }
    }

    /// `close` frees the descriptor.
    pub open spec fn close(self, fd: i32) -> (isize, KernelState<T>) {
        if crate::fd_table::is_open(self.fds, fd as int) {
            (0, KernelState { fds: self.fds.update(fd as int, None), ..self })
        } else {
            ((-LinuxError::EBADF.number()) as isize, self)
        }
    }

    /// `read` from an open file.
    pub open spec fn read_start(self, fd: i32, buf: usize, count: usize) -> SpecReply {
        if buf == 0 {
            crate::machine::fail(LinuxError::EFAULT)
        } else if !crate::fd_table::is_open(self.fds, fd as int) {
            crate::machine::fail(LinuxError::EBADF)
        } else {
            Reply::Ask(Action::ReadFile { fd, addr: buf, len: count }, Pending::Transfer)
        }
    }

    /// `write` to the console or to an open file.
    pub open spec fn write_start(self, fd: i32, buf: usize, count: usize) -> SpecReply {
        if buf == 0 {
            crate::machine::fail(LinuxError::EFAULT)
        } else if fd == STDOUT || fd == STDERR {
            Reply::Ask(
                Action::FetchBytes { addr: buf, len: count },
                Pending::ConsoleFetch { count },
            )
        } else if !crate::fd_table::is_open(self.fds, fd as int) {
            crate::machine::fail(LinuxError::EBADF)
        } else {
            Reply::Ask(Action::WriteFile { fd, addr: buf, len: count }, Pending::Transfer)
        }
    }
}

/// The text that bytes stand for on the console.
pub fn console_text(bytes: &Vec<u8>) -> (r: Vec<char>)
    ensures
        r@ == console_chars(bytes@),
{
    let mut text: Vec<char> = Vec::new();
    let mut i: usize = 0;
    while i < bytes.len()
        invariant
            i <= bytes.len(),
            text@ =~= console_chars(bytes@.take(i as int)),
        decreases bytes.len() - i,
    {
        text.push(bytes[i] as char);
        i += 1;
    }
    proof {
        assert(bytes@.take(i as int) =~= bytes@);
    }
    text
}

/// `openat`: opens the file that a path name in user memory stands for.
pub fn sys_openat(dfd: i32, fname: usize, flags: i32, mode: u32) -> (r: KernelReply)
    ensures
        r@ == openat_start(dfd, fname, flags, mode),
        r@.wf(),
{
    if dfd != AT_FDCWD {
        return Reply::Ret(neg_errno(LinuxError::EINVAL));
    }
    if fname == 0 {
        return Reply::Ret(neg_errno(LinuxError::EFAULT));
    }
    ask_path(fname, Vec::new(), flags as u32, mode)
}

fn ask_path(ptr: usize, bytes: Vec<u8>, flags: u32, mode: u32) -> (r: KernelReply)
    requires
        bytes.len() <= MAX_PATH_LEN,
    ensures
        r@ == path_ask(ptr, bytes@, flags, mode),
        r@.wf(),
{
    Reply::Ask(
        Action::FetchByte { addr: ptr.wrapping_add(bytes.len()) },
        Pending::OpenPath { ptr, bytes, flags, mode },
    )
}

/// Goes on with `openat` after one more byte of the path name.
pub fn resume_open_path(ptr: usize, bytes: Vec<u8>, flags: u32, mode: u32, b: u8) -> (r:
    KernelReply)
    requires
        bytes.len() <= MAX_PATH_LEN,
    ensures
        r@ == path_byte(ptr, bytes@, flags, mode, b),
        r@.wf(),
{
    if b != 0 {
        if bytes.len() + 1 > MAX_PATH_LEN {
            return Reply::Ret(neg_errno(LinuxError::ENAMETOOLONG));
        }
        let mut bytes = bytes;
        bytes.push(b);
        return ask_path(ptr, bytes, flags, mode);
    }
    let path = match c_str_to_string(bytes.as_slice()) {
        Ok(s) => normalize_path(s.as_str()),
        Err(e) => return Reply::Ret(neg_errno(e)),
    };
    match linux_flags_to_open_options(flags, mode) {
        Ok(options) => Reply::Ask(Action::Open { path, options }, Pending::OpenFile),
        Err(e) => Reply::Ret(neg_errno(e)),
    }
}

/// Goes on with `read` or `write` after the transfer.
pub fn resume_transfer(r: Result<usize, i32>) -> (reply: KernelReply)
    requires
        r matches Err(code) ==> crate::errno::is_ax_code(code as int),
    ensures
        reply@ == transferred(r),
        reply@.wf(),
        r is Err ==> reply@.fails(),
{
    match r {
        Ok(n) => Reply::Ret(n as isize),
        Err(code) => Reply::Ret(neg_ax_error(code)),
    }
}

/// Goes on with `write` after the bytes for the console were read.
pub fn resume_console_fetch(count: usize, bytes: Vec<u8>) -> (r: KernelReply)
    ensures
        r@ == console_fetched(count, bytes@),
        r@.wf(),
{
    Reply::Ask(Action::Print { text: console_text(&bytes) }, Pending::ConsolePrint { count })
}

/// `writev`: prints several buffers to the console.
pub fn sys_writev(fd: i32, iov: usize, iovcnt: i32) -> (r: KernelReply)
    ensures
        r@ == writev_start(fd, iov, iovcnt),
        r@.wf(),
{
    if fd != STDOUT && fd != STDERR {
        return Reply::Ret(neg_errno(LinuxError::EBADF));
    }
    next_writev(WritevState { iov, count: iovcnt as usize, index: 0, total: 0 })
}

fn next_writev(w: WritevState) -> (r: KernelReply)
    requires
        0 <= w.total,
    ensures
        r@ == writev_next(w),
        r@.wf(),
{
    if w.index < w.count {
        Reply::Ask(Action::FetchIoVec { iov: w.iov, index: w.index }, Pending::WritevEntry(w))
    } else {
        Reply::Ret(w.total)
    }
}

/// Goes on with `writev` after the address and size of a buffer were read.
pub fn resume_writev_entry(w: WritevState, v: IoVec) -> (r: KernelReply)
    requires
        w.index < w.count,
        0 <= w.total,
        v.iov_base == 0 || w.total + v.iov_len <= isize::MAX,
    ensures
        r@ == writev_entry(w, v),
        r@.wf(),
{
    if v.iov_len == 0 || v.iov_base == 0 {
        return next_writev(
            WritevState { iov: w.iov, count: w.count, index: w.index + 1, total: w.total },
        );
    }
    Reply::Ask(
        Action::FetchBytes { addr: v.iov_base, len: v.iov_len },
        Pending::WritevFetch(w, v.iov_len),
    )
}

/// Goes on with `writev` after a buffer was read.
pub fn resume_writev_fetch(w: WritevState, len: usize, bytes: Vec<u8>) -> (r: KernelReply)
    requires
        w.index < w.count,
        0 <= w.total,
        w.total + len <= isize::MAX,
    ensures
        r@ == writev_fetched(w, len, bytes@),
        r@.wf(),
{
    Reply::Ask(Action::Print { text: console_text(&bytes) }, Pending::WritevPrint(w, len))
}

/// Goes on with `writev` after a buffer was printed.
pub fn resume_writev_print(w: WritevState, len: usize) -> (r: KernelReply)
    requires
        w.index < w.count,
        0 <= w.total,
        w.total + len <= isize::MAX,
    ensures
        r@ == writev_printed(w, len),
        r@.wf(),
{
    next_writev(
        WritevState {
            iov: w.iov,
            count: w.count,
            index: w.index + 1,
            total: w.total + len as isize,
        },
    )
}

impl<T> Kernel<T> {
    /// Goes on with `openat` after the file was opened.
    pub fn resume_open_file(&mut self, r: Result<OpenedFile<T>, i32>) -> (reply: KernelReply)
        requires
            r matches Err(code) ==> crate::errno::is_ax_code(code as int),
        ensures
            (reply@, final(self)@) == old(self)@.opened(r),
            reply@.wf(),
            r is Err ==> reply@.fails(),
    {
        match r {
            Err(code) => Reply::Ret(neg_ax_error(code)),
            Ok(f) => {
                let is_dir: bool = match f.is_dir {
                    Some(is_dir) => is_dir,
                    None => false,
                };
                if is_dir {
                    Reply::Ret(neg_errno(LinuxError::EISDIR))
                } else {
                    Reply::Ret(self.fd_table.fd_alloc(f.file) as isize)
                }
            },
        }
    }

    /// `close`: frees a descriptor.
    pub fn sys_close(&mut self, fd: i32) -> (r: isize)
        ensures
            (r, final(self)@) == old(self)@.close(fd),
    {
        match self.fd_table.fd_take(fd) {
            Ok(_file) => 0,
            Err(e) => neg_errno(e),
        }
    }

    /// `read`: reads an open file into user memory.
    pub fn sys_read(&self, fd: i32, buf: usize, count: usize) -> (r: KernelReply)
        ensures
            r@ == self@.read_start(fd, buf, count),
            r@.wf(),
    {
        if buf == 0 {
            return Reply::Ret(neg_errno(LinuxError::EFAULT));
        }
        match self.fd_table.check_fd(fd) {
            Ok(_) => Reply::Ask(Action::ReadFile { fd, addr: buf, len: count }, Pending::Transfer),
            Err(e) => Reply::Ret(neg_errno(e)),
        }
    }

    /// `write`: writes user memory to the console or to an open file.
    pub fn sys_write(&self, fd: i32, buf: usize, count: usize) -> (r: KernelReply)
        ensures
            r@ == self@.write_start(fd, buf, count),
            r@.wf(),
    {
        if fd == STDOUT || fd == STDERR {
            if buf == 0 {
                return Reply::Ret(neg_errno(LinuxError::EFAULT));
            }
            return Reply::Ask(
                Action::FetchBytes { addr: buf, len: count },
                Pending::ConsoleFetch { count },
            );
        }
        if buf == 0 {
            return Reply::Ret(neg_errno(LinuxError::EFAULT));
        }
        match self.fd_table.check_fd(fd) {
            Ok(_) => Reply::Ask(Action::WriteFile { fd, addr: buf, len: count }, Pending::Transfer),
            Err(e) => Reply::Ret(neg_errno(e)),
        }
    }

    /// Calls `f` on an open file and returns what it returns.
    pub fn with_file_fd<R, F: FnOnce(&mut T) -> Result<R, LinuxError>>(
        &mut self,
        fd: i32,
        f: F,
    ) -> (r: Result<R, LinuxError>)
        requires
            crate::fd_table::is_open(old(self)@.fds, fd as int) ==> forall|file: &mut T|
                old(self)@.fds[fd as int] == Some(*file) ==> #[trigger] call_requires(f, (file,)),
        ensures
            final(self)@ == (KernelState { fds: final(self)@.fds, ..old(self)@ }),
            !crate::fd_table::is_open(old(self)@.fds, fd as int) ==> {
                &&& r matches Err(e) && e == LinuxError::EBADF
                &&& final(self)@ == old(self)@
            },
            crate::fd_table::is_open(old(self)@.fds, fd as int) ==> {
                &&& crate::fd_table::is_open(final(self)@.fds, fd as int)
                &&& final(self)@.fds == old(self)@.fds.update(
                    fd as int,
                    final(self)@.fds[fd as int],
                )
                &&& exists|file: &mut T|
                    {
                        &&& #[trigger] call_ensures(f, (file,), r)
                        &&& *file == old(self)@.fds[fd as int]->Some_0
                        &&& *final(file) == final(self)@.fds[fd as int]->Some_0
                    }
            },
    {
        self.fd_table.with_file_fd(fd, f)
    }
}

} // verus!
