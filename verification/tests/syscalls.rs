use std::collections::BTreeMap;

use arceos_exercises::errno::neg_ax_error;
use arceos_exercises::kernel::guard::{can_handle, can_resume, is_ax_error};
use arceos_exercises::machine::{
    Action, AddrRange, Env, Event, IoVec, KernelAction, KernelEvent, MmapRequest, OpenedFile,
    Pending, Reply, Step, UserSpace,
};
use arceos_exercises::mapping::MappingFlags;
use arceos_exercises::open_options::OpenOptions;
use arceos_exercises::{handle_syscall, resume, Arch, Kernel, UserContext};

const ENOENT: isize = -2;
const EBADF: isize = -9;
const ENOMEM: isize = -12;
const EFAULT: isize = -14;
const EISDIR: isize = -21;
const EINVAL: isize = -22;
const ENAMETOOLONG: isize = -36;
const ENOSYS: isize = -38;

const OPENAT: usize = 56;
const CLOSE: usize = 57;
const READ: usize = 63;
const WRITE: usize = 64;
const WRITEV: usize = 66;
const BRK: usize = 214;
const MMAP: usize = 222;
const MPROTECT: usize = 226;
const CWD: usize = (-100i32) as usize;

struct File {
    path: String,
    pos: usize,
    append: bool,
}

/// A file system, an address space and a console, all in memory.
struct Host {
    kernel: Kernel<File>,
    files: BTreeMap<String, Vec<u8>>,
    dirs: Vec<String>,
    /// Mapped areas by start, with their bytes and access.
    maps: BTreeMap<usize, (Vec<u8>, MappingFlags)>,
    console: String,
    trace: Vec<String>,
    space: Option<UserSpace>,
    arch: Arch,
    fail_store: bool,
    fail_map: bool,
    full: bool,
}

const USER_BASE: usize = 0x10_0000;

impl Host {
    fn new() -> Host {
        let mut host = Host {
            kernel: Kernel::new(),
            files: BTreeMap::new(),
            dirs: vec![String::from("/dir")],
            maps: BTreeMap::new(),
            console: String::new(),
            trace: Vec::new(),
            space: Some(UserSpace { base: 0x1000, size: 0x7fff_f000 }),
            arch: Arch::Riscv64,
            fail_store: false,
            fail_map: false,
            full: false,
        };
        let access = MappingFlags { read: true, write: true, execute: false, user: true };
        host.maps.insert(USER_BASE, (vec![0; 0x4000], access));
        host
    }

    fn area(&mut self, addr: usize, len: usize) -> Option<&mut [u8]> {
        let (start, area) = self.maps.range_mut(..=addr).next_back()?;
        area.0.get_mut(addr - start..addr - start + len)
    }

    fn poke(&mut self, addr: usize, bytes: &[u8]) {
        self.area(addr, bytes.len()).unwrap().copy_from_slice(bytes);
    }

    fn peek(&mut self, addr: usize, len: usize) -> Vec<u8> {
        self.area(addr, len).unwrap().to_vec()
    }

    fn perform(&mut self, action: KernelAction) -> KernelEvent<File> {
        match action {
            Action::FetchByte { addr } => Event::Byte(self.peek(addr, 1)[0]),
            Action::FetchBytes { addr, len } => Event::Bytes(self.peek(addr, len)),
            Action::FetchIoVec { iov, index } => {
                let bytes = self.peek(iov + 16 * index, 16);
                Event::IoVec(IoVec {
                    iov_base: usize::from_le_bytes(bytes[..8].try_into().unwrap()),
                    iov_len: usize::from_le_bytes(bytes[8..].try_into().unwrap()),
                })
            }
            Action::Open { path, options } => {
                self.trace.push(format!("open {}", path));
                Event::Opened(self.open(path, options))
            }
            Action::ReadFile { fd, addr, len } => {
                let (path, pos) = self.kernel.with_file_fd(fd, |f: &mut File| {
                    Ok((f.path.clone(), f.pos))
                }).unwrap();
                let data: Vec<u8> = self.files[&path].iter().skip(pos).take(len).copied().collect();
                self.poke(addr, &data);
                let n = data.len();
                self.kernel.with_file_fd(fd, |f: &mut File| Ok(f.pos += n)).unwrap();
                Event::Count(Ok(n))
            }
            Action::WriteFile { fd, addr, len } => {
                let data = self.peek(addr, len);
                let (path, append) = self.kernel.with_file_fd(fd, |f: &mut File| {
                    Ok((f.path.clone(), f.append))
                }).unwrap();
                if append {
                    return Event::Count(Err(axerrno::AxError::StorageFull.code()));
                }
                self.files.get_mut(&path).unwrap().extend_from_slice(&data);
                Event::Count(Ok(len))
            }
            Action::ReadFileAt { fd, offset, buf } => {
                assert!(buf.iter().all(|b| *b == 0));
                let path = self.kernel.with_file_fd(fd, |f: &mut File| {
                    Ok(f.path.clone())
                }).unwrap();
                let mut buf = buf;
                let file = &self.files[&path];
                if offset as usize > file.len() {
                    return Event::Buffer(Err(axerrno::AxError::UnexpectedEof.code()));
                }
                for (d, s) in buf.iter_mut().zip(file[offset as usize..].iter()) {
                    *d = *s;
                }
                Event::Buffer(Ok(buf))
            }
            Action::Print { text } => {
                self.console.extend(text);
                Event::Done
            }
            Action::FindFreeArea { hint, size, limit } => {
                let AddrRange { start, end } = limit;
                let line = format!("find {:#x} {:#x} in {:#x}..{:#x}", hint, size, start, end);
                self.trace.push(line);
                Event::Found(if self.full { None } else { Some(hint) })
            }
            Action::MapAlloc { start, size, flags } => {
                self.trace.push(format!("map {:#x} {:#x}", start, size));
                if self.fail_map {
                    return Event::Status(Err(axerrno::AxError::NoMemory.code()));
                }
                let end = start + size;
                if self.maps.iter().any(|(s, area)| *s < end && start < *s + area.0.len()) {
                    return Event::Status(Err(axerrno::AxError::AlreadyExists.code()));
                }
                self.maps.insert(start, (vec![0; size], flags));
                Event::Status(Ok(()))
            }
            Action::Protect { start, size, flags } => {
                self.trace.push(format!("protect {:#x} {:#x}", start, size));
                match self.maps.get_mut(&start) {
                    Some(area) => {
                        area.1 = flags;
                        Event::Status(Ok(()))
                    }
                    None => Event::Status(Err(axerrno::AxError::InvalidInput.code())),
                }
            }
            Action::Store { addr, bytes } => {
                if self.fail_store || self.area(addr, bytes.len()).is_none() {
                    return Event::Status(Err(axerrno::AxError::BadAddress.code()));
                }
                self.poke(addr, &bytes);
                Event::Status(Ok(()))
            }
            Action::Unmap { start, size } => {
                self.trace.push(format!("unmap {:#x} {:#x}", start, size));
                let end = start + size;
                for (s, (bytes, flags)) in std::mem::take(&mut self.maps) {
                    let e = s + bytes.len();
                    if s < start {
                        self.maps.insert(s, (bytes[..e.min(start) - s].to_vec(), flags));
                    }
                    if e > end {
                        let from = s.max(end);
                        self.maps.insert(from, (bytes[from - s..].to_vec(), flags));
                    }
                }
                Event::Done
            }
        }
    }

    fn open(&mut self, path: String, options: OpenOptions) -> Result<OpenedFile<File>, i32> {
        if self.dirs.contains(&path) {
            let file = File { path, pos: 0, append: false };
            return Ok(OpenedFile { file, is_dir: Some(true) });
        }
        if !self.files.contains_key(&path) {
            if !options.create {
                return Err(axerrno::AxError::NotFound.code());
            }
            self.files.insert(path.clone(), Vec::new());
        }
        let file = File { path, pos: 0, append: options.append };
        Ok(OpenedFile { file, is_dir: None })
    }

    fn run(&mut self, nr: usize, args: &[usize]) -> Result<isize, i32> {
        let mut regs = [0usize; 6];
        regs[..args.len()].copy_from_slice(args);
        let mut uctx = UserContext { arch: self.arch, nr, args: regs, fs_base: 0 };
        let env = Env { space: self.space, task_id: 42 };
        assert!(can_handle(&uctx, env));
        let mut step = handle_syscall(&mut self.kernel, &mut uctx, env);
        loop {
            match step {
                Step::Done => {
                    let ret = if self.arch == Arch::X86_64 { uctx.nr } else { uctx.args[0] };
                    return Ok(ret as isize);
                }
                Step::Exit(code) => return Err(code),
                Step::Ask(action, pending) => {
                    let ev = self.perform(action);
                    assert!(can_resume(&pending, &ev));
                    step = resume(&mut self.kernel, &mut uctx, pending, ev);
                }
            }
        }
    }

    fn call(&mut self, nr: usize, args: &[usize]) -> isize {
        self.run(nr, args).unwrap()
    }

    fn open_path(&mut self, path: &[u8], flags: usize) -> isize {
        self.poke(USER_BASE, path);
        self.poke(USER_BASE + path.len(), &[0]);
        self.call(OPENAT, &[CWD, USER_BASE, flags, 0])
    }
}

const BUF: usize = USER_BASE + 0x2000;

/// Writes a file, maps it, and reads it back through the mapping.
#[test]
fn map_file() {
    let mut h = Host::new();
    assert_eq!(h.open_path(b"test_file", 0o101), 0);
    h.poke(BUF, b"hello, arceos!");
    assert_eq!(h.call(WRITE, &[0, BUF, 14]), 14);
    assert_eq!(h.call(CLOSE, &[0]), 0);
    assert_eq!(h.open_path(b"test_file", 0), 0);
    let addr = h.call(MMAP, &[0, 32, 1, 2, 0, 0]);
    assert_eq!(addr, 0x1000_0000);
    let mut expected = b"hello, arceos!".to_vec();
    expected.resize(32, 0);
    assert_eq!(h.peek(addr as usize, 32), expected);
    assert_eq!(h.files["/test_file"], b"hello, arceos!");
    assert_eq!(
        h.trace,
        vec![
            "open /test_file",
            "open /test_file",
            "find 0x10000000 0x1000 in 0x1000..0x80000000",
            "map 0x10000000 0x1000"
        ]
    );
    let access = MappingFlags { read: true, write: false, execute: false, user: true };
    assert_eq!(h.maps[&0x1000_0000].1, access);
    // The next search begins after the mapping.
    assert_eq!(h.call(MMAP, &[0, 0x1001, 3, 0x22, usize::MAX, 0]), 0x1000_1000);
    assert_eq!(h.call(MMAP, &[0, 1, 3, 0x22, usize::MAX, 0]), 0x1000_3000);
}

#[test]
fn map_at_a_hint_or_a_fixed_address() {
    let mut h = Host::new();
    assert_eq!(h.call(MMAP, &[0x2000_0123, 1, 3, 0x21, 0, 0]), 0x2000_0000);
    assert_eq!(h.call(MMAP, &[0x3000_0000, 1, 3, 0x31, 0, 0]), 0x3000_0000);
    assert_eq!(h.call(MMAP, &[0x3000_0001, 1, 3, 0x31, 0, 0]), EINVAL);
    assert_eq!(h.call(MMAP, &[0, 1, 3, 0x31, 0, 0]), EINVAL);
}

/// A fixed address is taken from whatever is mapped there.
#[test]
fn a_fixed_mapping_replaces_others() {
    let mut h = Host::new();
    assert_eq!(h.call(MMAP, &[0x3000_0000, 0x3000, 3, 0x32, 0, 0]), 0x3000_0000);
    for page in 0..3 {
        h.poke(0x3000_0000 + 0x1000 * page, &[7]);
    }
    h.trace.clear();
    assert_eq!(h.call(MMAP, &[0x3000_1000, 1, 1, 0x32, usize::MAX, 0]), 0x3000_1000);
    assert_eq!(h.trace, ["unmap 0x30001000 0x1000", "map 0x30001000 0x1000"]);
    assert_eq!(h.peek(0x3000_0000, 1), [7]);
    assert_eq!(h.peek(0x3000_1000, 1), [0]);
    assert_eq!(h.peek(0x3000_2000, 1), [7]);
    assert!(!h.maps[&0x3000_1000].1.write);
    // A file, over the end of one mapping and the whole of another.
    h.files.insert(String::from("/f"), b"contents".to_vec());
    assert_eq!(h.open_path(b"/f", 0), 0);
    assert_eq!(h.call(MMAP, &[0x3000_1000, 0x3000, 1, 0x12, 0, 0]), 0x3000_1000);
    assert_eq!(h.peek(0x3000_1000, 9), b"contents\0");
    assert_eq!(h.peek(0x3000_0000, 1), [7]);
    // For a file that is not open, nothing is replaced.
    h.trace.clear();
    assert_eq!(h.call(MMAP, &[0x3000_1000, 1, 3, 0x12, 9, 0]), -17);
    assert_eq!(h.trace, ["map 0x30001000 0x1000"]);
    assert_eq!(h.peek(0x3000_1000, 9), b"contents\0");
    h.trace.clear();
    assert_eq!(h.call(MMAP, &[0x5000_0000, 1, 3, 0x12, 9, 0]), EBADF);
    assert_eq!(h.trace, ["map 0x50000000 0x1000", "unmap 0x50000000 0x1000"]);
    // Without the flag, memory that is in use is not replaced.
    assert_eq!(h.call(MMAP, &[0x3000_1000, 1, 3, 0x22, 0, 0]), -17);
    assert_eq!(h.peek(0x3000_1000, 9), b"contents\0");
}

/// An anonymous mapping is the same with any descriptor.
#[test]
fn an_anonymous_mapping_uses_no_file() {
    let mut traces = Vec::new();
    for fd in [usize::MAX, 0, 1, 77] {
        let mut h = Host::new();
        h.files.insert(String::from("/f"), b"contents".to_vec());
        assert_eq!(h.open_path(b"/f", 0), 0);
        assert_eq!(h.call(MMAP, &[0, 9, 3, 0x22, fd, 0]), 0x1000_0000);
        assert_eq!(h.call(MMAP, &[0x4000_0000, 9, 3, 0x31, fd, 0]), 0x4000_0000);
        assert_eq!(h.peek(0x1000_0000, 9), [0; 9]);
        traces.push(h.trace);
    }
    assert!(traces.iter().all(|t| *t == traces[0]));
}

/// Every failure of an action makes a negated error number.
#[test]
fn failed_actions_make_errors() {
    let req = MmapRequest {
        length: 1,
        map_len: 4096,
        access: MappingFlags { read: true, write: false, execute: false, user: true },
        anonymous: false,
        fd: 0,
        offset: 0,
    };
    for code in (-133..=43).filter(|c| is_ax_error(*c)) {
        let expected = neg_ax_error(code);
        assert!(-133 <= expected && expected < 0);
        let run = |pending, ev: KernelEvent<File>| {
            let mut kernel = Kernel::new();
            let args = [5; 6];
            let mut uctx = UserContext { arch: Arch::Riscv64, nr: MMAP, args, fs_base: 0 };
            assert!(can_resume(&pending, &ev));
            match resume(&mut kernel, &mut uctx, pending, ev) {
                Step::Done => uctx.args[0] as isize,
                Step::Ask(Action::Unmap { .. }, Pending::MmapUndo { ret }) => ret,
                _ => panic!("no failure"),
            }
        };
        assert_eq!(run(Pending::Finish { ok: 0 }, Event::Status(Err(code))), expected);
        assert_eq!(run(Pending::Transfer, Event::Count(Err(code))), expected);
        assert_eq!(run(Pending::OpenFile, Event::Opened(Err(code))), expected);
        let brk = Pending::BrkMap { addr: 1, mapped_end: 4096 };
        assert_eq!(run(brk, Event::Status(Err(code))), expected);
        assert_eq!(run(Pending::MmapMap(req, 4096), Event::Status(Err(code))), expected);
        assert_eq!(run(Pending::MmapRead(req, 4096), Event::Buffer(Err(code))), expected);
        assert_eq!(run(Pending::MmapStore(req, 4096), Event::Status(Err(code))), expected);
    }
}

/// The heap grows page by page and no page is mapped twice.
#[test]
fn heap_pages_are_mapped_once() {
    let mut h = Host::new();
    let mut pages = BTreeMap::new();
    for brk in [0x0300_0010, 0x0300_2000, 0x0300_0001, 0x0300_5001, 0x0300_5002, 0x0300_3000] {
        h.trace.clear();
        assert_eq!(h.call(BRK, &[brk]), brk as isize);
        for line in &h.trace {
            let words: Vec<&str> = line.split(' ').collect();
            let number = |s: &str| usize::from_str_radix(&s[2..], 16).unwrap();
            let (start, size) = (number(words[1]), number(words[2]));
            for page in (start..start + size).step_by(4096) {
                *pages.entry(page).or_insert(0) += 1;
            }
        }
    }
    let expected: BTreeMap<usize, i32> = (0..6).map(|i| (0x0300_0000 + 4096 * i, 1)).collect();
    assert_eq!(pages, expected);
}

#[test]
fn bad_mappings_are_refused() {
    let mut h = Host::new();
    assert_eq!(h.call(MMAP, &[0, 0, 3, 0x22, 0, 0]), EINVAL);
    assert_eq!(h.call(MMAP, &[0, 1, 3, 0x22, 0, 1]), EINVAL);
    assert_eq!(h.call(MMAP, &[0, 1, 3, 0x22, 0, usize::MAX - 4095]), EINVAL);
    assert_eq!(h.call(MMAP, &[0, 1, 8, 0x22, 0, 0]), EINVAL);
    assert_eq!(h.call(MMAP, &[0, 1, 3, 0x26, 0, 0]), EINVAL);
    assert_eq!(h.call(MMAP, &[0, 1, 3, 0x20, 0, 0]), EINVAL);
    h.full = true;
    assert_eq!(h.call(MMAP, &[0, 1, 3, 0x22, 0, 0]), ENOMEM);
    h.full = false;
    h.fail_map = true;
    assert_eq!(h.call(MMAP, &[0, 1, 3, 0x22, 0, 0]), ENOMEM);
    h.space = None;
    assert_eq!(h.call(MMAP, &[0, 1, 3, 0x22, 0, 0]), EFAULT);
    h.trace.clear();
    h.space = Some(UserSpace { base: 0x1000, size: 0x1000 });
    h.fail_map = false;
    assert_eq!(h.call(MMAP, &[0, 1, 3, 0x22, 0, 0]), 0x1000_0000);
}

#[test]
fn a_failed_file_mapping_is_removed() {
    let mut h = Host::new();
    assert_eq!(h.call(MMAP, &[0, 0x1234, 1, 2, 7, 0]), EBADF);
    assert_eq!(h.trace[1..], ["map 0x10000000 0x2000", "unmap 0x10000000 0x2000"]);
    h.files.insert(String::from("/f"), vec![1, 2, 3]);
    assert_eq!(h.open_path(b"/f", 0), 0);
    let areas = h.maps.len();
    assert_eq!(h.call(MMAP, &[0, 16, 1, 2, 0, 4096]), -5);
    assert_eq!(h.maps.len(), areas);
    h.fail_store = true;
    assert_eq!(h.call(MMAP, &[0, 16, 1, 2, 0, 0]), EFAULT);
    assert_eq!(h.maps.len(), areas);
    h.fail_store = false;
    assert_eq!(h.call(MMAP, &[0, 16, 1, 2, 0, 0]), 0x1000_0000);
    assert_eq!(h.peek(0x1000_0000, 4), vec![1, 2, 3, 0]);
}

#[test]
fn program_break() {
    let mut h = Host::new();
    assert_eq!(h.call(BRK, &[0]), 0x0300_0000);
    assert_eq!(h.call(BRK, &[0x0300_0001]), 0x0300_0001);
    assert_eq!(h.call(BRK, &[0]), 0x0300_0001);
    assert_eq!(h.call(BRK, &[0x0300_1000]), 0x0300_1000);
    assert_eq!(h.call(BRK, &[0x0300_3001]), 0x0300_3001);
    assert_eq!(h.trace, ["map 0x3000000 0x1000", "map 0x3001000 0x3000"]);
    // The break can go down; the heap stays mapped.
    assert_eq!(h.call(BRK, &[0x0200_0000]), 0x0200_0000);
    assert_eq!(h.call(BRK, &[0x0300_4000]), 0x0300_4000);
    assert_eq!(h.trace.len(), 2);
    h.fail_map = true;
    assert_eq!(h.call(BRK, &[0x0300_4001]), ENOMEM);
    h.space = None;
    assert_eq!(h.call(BRK, &[0x0300_4001]), EFAULT);
    assert_eq!(h.call(BRK, &[0]), 0x0300_4000);
    let access = MappingFlags { read: true, write: true, execute: false, user: true };
    assert_eq!(h.maps[&0x0300_0000].1, access);
}

#[test]
fn opening_files() {
    let mut h = Host::new();
    assert_eq!(h.open_path(b"/no", 0), ENOENT);
    assert_eq!(h.open_path(b"/dir", 0), EISDIR);
    assert_eq!(h.open_path(b"a", 0o100), 0);
    assert_eq!(h.open_path(b"b", 0o101), 1);
    assert_eq!(h.open_path(b"c", 0o102), 2);
    assert_eq!(h.call(CLOSE, &[1]), 0);
    assert_eq!(h.call(CLOSE, &[1]), EBADF);
    assert_eq!(h.open_path(b"d", 0o101), 1);
    assert_eq!(h.open_path(b"e", 0o3), EINVAL);
    assert_eq!(h.open_path(&[0xff], 0), EINVAL);
    assert_eq!(h.call(OPENAT, &[3, USER_BASE, 0, 0]), EINVAL);
    assert_eq!(h.call(OPENAT, &[CWD, 0, 0, 0]), EFAULT);
    let long = vec![b'x'; 4096];
    assert_eq!(h.open_path(&long, 0o100), 3);
    let longer = vec![b'x'; 4097];
    assert_eq!(h.open_path(&longer, 0o100), ENAMETOOLONG);
    assert_eq!(h.call(CLOSE, &[usize::MAX]), EBADF);
}

#[test]
fn reading_and_writing_files() {
    let mut h = Host::new();
    h.files.insert(String::from("/in"), b"0123456789".to_vec());
    assert_eq!(h.open_path(b"in", 0), 0);
    assert_eq!(h.call(READ, &[0, BUF, 4]), 4);
    assert_eq!(h.call(READ, &[0, BUF + 4, 100]), 6);
    assert_eq!(h.peek(BUF, 10), b"0123456789");
    assert_eq!(h.call(READ, &[0, BUF, 4]), 0);
    assert_eq!(h.call(READ, &[0, 0, 4]), EFAULT);
    assert_eq!(h.call(READ, &[5, 0, 4]), EFAULT);
    assert_eq!(h.call(READ, &[5, BUF, 4]), EBADF);
    assert_eq!(h.call(WRITE, &[5, BUF, 4]), EBADF);
    assert_eq!(h.call(WRITE, &[0, 0, 4]), EFAULT);
    assert_eq!(h.open_path(b"log", 0o2101), 1);
    assert_eq!(h.open_path(b"log", 0o2101), 2);
    assert_eq!(h.open_path(b"log", 0o2101), 3);
    assert_eq!(h.call(WRITE, &[3, BUF, 4]), neg_ax_error(axerrno::AxError::StorageFull.code()));
}

#[test]
fn the_console() {
    let mut h = Host::new();
    h.poke(BUF, b"MapFile ok!\n\xe9");
    assert_eq!(h.call(WRITE, &[1, BUF, 12]), 12);
    assert_eq!(h.call(WRITE, &[2, BUF + 12, 1]), 1);
    assert_eq!(h.call(WRITE, &[1, 0, 12]), EFAULT);
    assert_eq!(h.console, "MapFile ok!\n\u{e9}");
}

#[test]
fn vectored_writes() {
    let mut h = Host::new();
    h.poke(BUF, b"Read back content");
    let entries = [(BUF, 5usize), (0, 9), (BUF + 5, 0), (BUF + 4, 5), (BUF + 9, 8)];
    for (i, (base, len)) in entries.iter().enumerate() {
        h.poke(USER_BASE + 16 * i, &base.to_le_bytes());
        h.poke(USER_BASE + 16 * i + 8, &len.to_le_bytes());
    }
    assert_eq!(h.call(WRITEV, &[1, USER_BASE, 5]), 18);
    assert_eq!(h.console, "Read  back content");
    assert_eq!(h.call(WRITEV, &[2, USER_BASE, 0]), 0);
    assert_eq!(h.call(WRITEV, &[0, USER_BASE, 5]), EBADF);
}

#[test]
fn protecting_memory() {
    let mut h = Host::new();
    assert_eq!(h.call(MPROTECT, &[USER_BASE, 0x1001, 1]), 0);
    assert!(!h.maps[&USER_BASE].1.write);
    assert_eq!(h.trace, ["protect 0x100000 0x2000"]);
    assert_eq!(h.call(MPROTECT, &[USER_BASE + 1, 1, 1]), EINVAL);
    assert_eq!(h.call(MPROTECT, &[USER_BASE, 0, 1]), EINVAL);
    assert_eq!(h.call(MPROTECT, &[USER_BASE, 1, 16]), EINVAL);
    assert_eq!(h.call(MPROTECT, &[0x5000_0000, 1, 1]), EINVAL);
    h.space = None;
    assert_eq!(h.call(MPROTECT, &[USER_BASE, 1, 1]), EFAULT);
}

#[test]
fn records_in_user_memory() {
    let mut h = Host::new();
    assert_eq!(h.call(160, &[BUF]), 0);
    assert_eq!(h.peek(BUF, 6), b"Linux\0");
    assert_eq!(h.peek(BUF + 260, 8), b"riscv64\0");
    assert_eq!(h.call(160, &[0]), EFAULT);
    h.poke(BUF, &[7; 17]);
    assert_eq!(h.call(113, &[0, BUF]), 0);
    assert_eq!(h.peek(BUF, 17), [vec![0; 16], vec![7]].concat());
    assert_eq!(h.call(113, &[0, 0]), EFAULT);
    assert_eq!(h.call(261, &[0, 0, 0, BUF]), 0);
    assert_eq!(h.peek(BUF, 17), [vec![0xff; 16], vec![7]].concat());
    assert_eq!(h.call(261, &[0, 0, 0, 0]), 0);
    assert_eq!(h.call(278, &[BUF, 5, 0]), 5);
    assert_eq!(h.peek(BUF, 6), [vec![0; 5], vec![0xff]].concat());
    assert_eq!(h.call(278, &[0, 5, 0]), EFAULT);
    h.fail_store = true;
    assert_eq!(h.call(278, &[BUF, 5, 0]), EFAULT);
    assert_eq!(h.call(261, &[0, 0, 0, BUF]), EFAULT);
    h.space = None;
    assert_eq!(h.call(160, &[BUF]), EFAULT);
}

#[test]
fn calls_without_action() {
    let mut h = Host::new();
    for nr in [29, 174, 175, 176, 177, 99, 134, 135, 131] {
        assert_eq!(h.call(nr, &[9, 9, 9]), 0);
    }
    assert_eq!(h.call(172, &[]), 1);
    assert_eq!(h.call(178, &[]), 42);
    assert_eq!(h.call(96, &[0]), 42);
    assert_eq!(h.call(78, &[0, 0, 0, 0]), ENOENT);
    assert_eq!(h.call(999, &[]), ENOSYS);
    assert_eq!(h.run(93, &[3]), Err(3));
    assert_eq!(h.run(94, &[usize::MAX]), Err(-1));
}

#[test]
fn calls_on_x86_64() {
    let mut h = Host::new();
    h.arch = Arch::X86_64;
    h.poke(USER_BASE, b"f\0");
    assert_eq!(h.call(2, &[USER_BASE, 0o101, 0]), 0);
    assert_eq!(h.trace, ["open /f"]);
    assert_eq!(h.call(9, &[0, 1, 3, 0x22, 0, 0]), 0x1000_0000);
    assert_eq!(h.call(12, &[0]), 0x0300_0000);
    assert_eq!(h.call(158, &[0x1002, 5]), 0);
    assert_eq!(h.call(158, &[0x1003, 5]), EINVAL);
    assert_eq!(h.call(218, &[]), 42);
    assert_eq!(h.call(172, &[]), ENOSYS);
    assert_eq!(h.run(231, &[7]), Err(7));
}

#[test]
fn numbers_out_of_range_are_told() {
    let env = Env { space: Some(UserSpace { base: 0x1000, size: 0x1000 }), task_id: 1 };
    let arch = Arch::Riscv64;
    let ctx = |nr: usize, args: [usize; 6]| UserContext { arch, nr, args, fs_base: 0 };
    let max = usize::MAX;
    assert!(!can_handle(&ctx(BRK, [max, 0, 0, 0, 0, 0]), env));
    assert!(can_handle(&ctx(BRK, [max - 4096, 0, 0, 0, 0, 0]), env));
    assert!(!can_handle(&ctx(MMAP, [0, max, 3, 0x22, 0, 0]), env));
    assert!(can_handle(&ctx(MMAP, [0, max, 3, 0x20, 0, 0]), env));
    assert!(!can_handle(&ctx(MPROTECT, [0, max, 3, 0, 0, 0]), env));
    assert!(can_handle(&ctx(MPROTECT, [1, max, 3, 0, 0, 0]), env));
    assert!(!can_handle(&ctx(278, [1, max, 0, 0, 0, 0]), env));
    let bad = Env { space: Some(UserSpace { base: max, size: 1 }), task_id: 1 };
    assert!(!can_handle(&ctx(MMAP, [0, 1, 3, 0x22, 0, 0]), bad));
    assert!(can_handle(&ctx(MMAP, [0x1000, 1, 3, 0x32, 0, 0]), bad));
    let ok: KernelEvent<File> = Event::Status(Ok(()));
    assert!(can_resume(&Pending::Finish { ok: 0 }, &ok));
    assert!(!can_resume(&Pending::Transfer, &ok));
    let strange: KernelEvent<File> = Event::Status(Err(0));
    assert!(!can_resume(&Pending::Finish { ok: 0 }, &strange));
}

#[test]
fn a_search_is_limited_to_the_address_space() {
    let kernel = Kernel::<File>::new();
    let env = Env { space: Some(UserSpace { base: 0x4000, size: 0x6000 }), task_id: 1 };
    match kernel.sys_mmap(env, 0, 1, 1, 0x21, 0, 0) {
        Reply::Ask(Action::FindFreeArea { limit, .. }, _) => {
            assert_eq!(limit, AddrRange { start: 0x4000, end: 0xa000 });
        }
        _ => panic!("no search"),
    }
}
