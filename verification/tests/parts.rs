use arceos_exercises::align::{page_align_down, page_align_up, PAGE_SIZE_4K};
use arceos_exercises::context::{get_syscall_num, set_syscall_ret};
use arceos_exercises::errno::{neg_ax_error, neg_code, neg_errno, LinuxError};
use arceos_exercises::fd_table::FdTable;
use arceos_exercises::kernel::files::console_text;
use arceos_exercises::kernel::guard::is_ax_error;
use arceos_exercises::kernel::info::{sys_arch_prctl, ARCH_SET_FS};
use arceos_exercises::mapping::{
    MappingFlags, MmapFlags, MmapProt, MAP_ANONYMOUS, MAP_FIXED, MAP_NORESERVE, MAP_PRIVATE,
    MAP_SHARED, MAP_STACK, PROT_EXEC, PROT_READ, PROT_WRITE,
};
use arceos_exercises::nums::Syscall;
use arceos_exercises::open_options::{linux_flags_to_open_options, OpenOptions};
use arceos_exercises::path::{c_str_to_string, normalize_path};
use arceos_exercises::user_data::{
    rlimit_bytes, timespec_bytes, uts_bytes, write_c_field, zero_bytes,
};
use arceos_exercises::{Arch, UserContext};

#[test]
fn page_rounding() {
    assert_eq!(PAGE_SIZE_4K, memory_addr::PAGE_SIZE_4K);
    for x in [0, 1, 4095, 4096, 4097, 0x12345678] {
        assert_eq!(page_align_up(x), memory_addr::align_up_4k(x));
        assert_eq!(page_align_down(x), memory_addr::align_down_4k(x));
    }
    assert_eq!(page_align_up(4097), 8192);
    assert_eq!(page_align_down(4097), 4096);
}

#[test]
fn error_numbers() {
    assert_eq!(neg_errno(LinuxError::ENOENT), -2);
    assert_eq!(neg_errno(LinuxError::EBADF), -9);
    assert_eq!(neg_errno(LinuxError::ENOMEM), -12);
    assert_eq!(neg_errno(LinuxError::EFAULT), -14);
    assert_eq!(neg_errno(LinuxError::EISDIR), -21);
    assert_eq!(neg_errno(LinuxError::EINVAL), -22);
    assert_eq!(neg_errno(LinuxError::ENAMETOOLONG), -36);
    assert_eq!(neg_errno(LinuxError::ENOSYS), -38);
    assert_eq!(neg_code(5), -5);
}

#[test]
fn ax_errors() {
    assert_eq!(neg_ax_error(axerrno::AxError::NoMemory.code()), -12);
    assert_eq!(neg_ax_error(axerrno::AxError::NotFound.code()), -2);
    assert_eq!(neg_ax_error(axerrno::AxError::from(axerrno::LinuxError::EBADF).code()), -9);
    for code in -200..200 {
        let e = axerrno::AxError::try_from(code);
        assert_eq!(is_ax_error(code), e.is_ok(), "{}", code);
        if let Ok(e) = e {
            let expected = -(axerrno::LinuxError::from(e).code() as isize);
            assert_eq!(neg_ax_error(code), expected);
        }
    }
}

#[test]
fn paths_are_made_absolute() {
    assert_eq!(normalize_path("a/b"), "/a/b");
    assert_eq!(normalize_path("/a/b"), "/a/b");
    assert_eq!(normalize_path(""), "/");
    assert_eq!(normalize_path("\u{e9}"), "/\u{e9}");
}

#[test]
fn c_strings() {
    assert_eq!(c_str_to_string(b"test_file").unwrap(), "test_file");
    assert_eq!(c_str_to_string("\u{4e2d}".as_bytes()).unwrap(), "\u{4e2d}");
    assert_eq!(c_str_to_string(b"").unwrap(), "");
    assert_eq!(c_str_to_string(&[0x61, 0xff]), Err(LinuxError::EINVAL));
    assert_eq!(c_str_to_string(&[0xed, 0xa0, 0x80]), Err(LinuxError::EINVAL));
}

fn options(flags: u32) -> OpenOptions {
    linux_flags_to_open_options(flags, 0).unwrap()
}

#[test]
fn open_flags() {
    let none = OpenOptions {
        read: false,
        write: false,
        append: false,
        truncate: false,
        create: false,
        create_new: false,
    };
    assert_eq!(options(0), OpenOptions { read: true, ..none });
    assert_eq!(options(1), OpenOptions { write: true, ..none });
    assert_eq!(options(2), OpenOptions { read: true, write: true, ..none });
    assert_eq!(
        options(0o1 | 0o2000),
        OpenOptions { write: true, append: true, ..none }
    );
    assert_eq!(
        options(0o1 | 0o1100),
        OpenOptions { write: true, truncate: true, create: true, ..none }
    );
    assert_eq!(
        options(0o302),
        OpenOptions { read: true, write: true, create: true, create_new: true, ..none }
    );
    assert_eq!(linux_flags_to_open_options(3, 0), Err(LinuxError::EINVAL));
    assert_eq!(linux_flags_to_open_options(0o103, 0), Err(LinuxError::EINVAL));
}

#[test]
fn descriptors() {
    let mut t = FdTable::new();
    assert_eq!(t.fd_alloc("a"), 0);
    assert_eq!(t.fd_alloc("b"), 1);
    assert_eq!(t.fd_alloc("c"), 2);
    assert_eq!(t.fd_take(1), Ok("b"));
    assert_eq!(t.fd_take(1), Err(LinuxError::EBADF));
    assert_eq!(t.fd_take(-1), Err(LinuxError::EBADF));
    assert_eq!(t.fd_take(3), Err(LinuxError::EBADF));
    assert_eq!(t.check_fd(1), Err(LinuxError::EBADF));
    assert_eq!(t.check_fd(2), Ok(()));
    assert_eq!(t.fd_alloc("d"), 1);
    assert_eq!(t.fd_alloc("e"), 3);
    assert_eq!(t.fd_take(0), Ok("a"));
    assert_eq!(t.fd_take(2), Ok("c"));
    assert_eq!(t.fd_alloc("f"), 0);
    assert_eq!(t.fd_take(1), Ok("d"));
}

#[test]
fn files_are_changed_in_place() {
    let mut t = FdTable::new();
    t.fd_alloc(vec![1u8]);
    let n = t.with_file_fd(0, |f: &mut Vec<u8>| {
        f.push(2);
        Ok(f.len())
    });
    assert_eq!(n, Ok(2));
    let failed: Result<(), LinuxError> = t.with_file_fd(0, |_| Err(LinuxError::EISDIR));
    assert_eq!(failed, Err(LinuxError::EISDIR));
    assert_eq!(t.with_file_fd(1, |f: &mut Vec<u8>| Ok(f.len())), Err(LinuxError::EBADF));
    assert_eq!(t.with_file_fd(-5, |f: &mut Vec<u8>| Ok(f.len())), Err(LinuxError::EBADF));
    assert_eq!(t.fd_take(0), Ok(vec![1, 2]));
    assert_eq!(t.with_file_fd(0, |f: &mut Vec<u8>| Ok(f.len())), Err(LinuxError::EBADF));
}

#[test]
fn protections() {
    for bits in 0..8 {
        let flags = MappingFlags::from_prot(MmapProt::from_bits(bits).unwrap());
        assert!(flags.user);
        assert_eq!(flags.read, bits & PROT_READ != 0);
        assert_eq!(flags.write, bits & PROT_WRITE != 0);
        assert_eq!(flags.execute, bits & PROT_EXEC != 0);
    }
    assert_eq!(MmapProt::from_bits(8), None);
    assert_eq!(MmapProt::from_bits(-1), None);
}

#[test]
fn mapping_flags() {
    let all = MAP_SHARED | MAP_PRIVATE | MAP_FIXED | MAP_ANONYMOUS | MAP_NORESERVE | MAP_STACK;
    let flags = MmapFlags::from_bits(all).unwrap();
    assert!(flags.contains(MAP_FIXED | MAP_STACK));
    assert!(MmapFlags::from_bits(all | 4).is_none());
    assert!(MmapFlags::from_bits(i32::MIN).is_none());
    let private = MmapFlags::from_bits(MAP_PRIVATE).unwrap();
    assert!(private.intersects(MAP_SHARED | MAP_PRIVATE));
    assert!(!private.contains(MAP_SHARED | MAP_PRIVATE));
    assert!(!MmapFlags::from_bits(MAP_FIXED).unwrap().intersects(MAP_SHARED | MAP_PRIVATE));
}

#[test]
fn system_call_numbers() {
    assert_eq!(Syscall::decode(Arch::Riscv64, 222), Syscall::Mmap);
    assert_eq!(Syscall::decode(Arch::Aarch64, 56), Syscall::Openat);
    assert_eq!(Syscall::decode(Arch::Loongarch64, 94), Syscall::ExitGroup);
    assert_eq!(Syscall::decode(Arch::Riscv64, 9), Syscall::Unknown);
    assert_eq!(Syscall::decode(Arch::X86_64, 9), Syscall::Mmap);
    assert_eq!(Syscall::decode(Arch::X86_64, 2), Syscall::Open);
    assert_eq!(Syscall::decode(Arch::X86_64, 158), Syscall::ArchPrctl);
    assert_eq!(Syscall::decode(Arch::X86_64, 222), Syscall::Unknown);
    for arch in [Arch::X86_64, Arch::Riscv32] {
        let mut known = Vec::new();
        for num in 0..1000 {
            let call = Syscall::decode(arch, num);
            if call != Syscall::Unknown {
                assert!(!known.contains(&call));
                known.push(call);
            }
        }
        assert_eq!(known.len(), if arch == Arch::X86_64 { 13 } else { 27 });
    }
}

#[test]
fn registers() {
    let mut x86 = UserContext { arch: Arch::X86_64, nr: 9, args: [1, 2, 3, 4, 5, 6], fs_base: 0 };
    assert_eq!(get_syscall_num(&x86), 9);
    set_syscall_ret(&mut x86, 77);
    assert_eq!((x86.nr, x86.args), (77, [1, 2, 3, 4, 5, 6]));
    assert_eq!(sys_arch_prctl(&mut x86, ARCH_SET_FS, 0x5000), 0);
    assert_eq!(x86.fs_base, 0x5000);
    assert_eq!(sys_arch_prctl(&mut x86, 0x1003, 0x6000), -22);
    assert_eq!(x86.fs_base, 0x5000);
    let mut rv = UserContext { arch: Arch::Riscv64, nr: 64, args: [1, 2, 3, 4, 5, 6], fs_base: 0 };
    set_syscall_ret(&mut rv, 77);
    assert_eq!((rv.nr, rv.args), (64, [77, 2, 3, 4, 5, 6]));
}

#[test]
fn text_fields() {
    let mut field = [0xaau8; 65];
    write_c_field(&mut field, "Linux");
    assert_eq!(&field[..6], b"Linux\0");
    assert!(field[6..].iter().all(|b| *b == 0xaa));
    let long = "x".repeat(100);
    write_c_field(&mut field, &long);
    assert!(field[..64].iter().all(|b| *b == b'x'));
    assert_eq!(field[64], 0);
}

#[test]
fn records() {
    let uts = uts_bytes(Arch::Riscv64);
    assert_eq!(uts.len(), 390);
    let texts = ["Linux", "arceos", "6.1.0", "ArceOS", "riscv64", "localdomain"];
    for (i, text) in texts.iter().enumerate() {
        let field = &uts[i * 65..(i + 1) * 65];
        assert_eq!(&field[..text.len()], text.as_bytes());
        assert!(field[text.len()..].iter().all(|b| *b == 0));
    }
    assert_eq!(&uts_bytes(Arch::Aarch64)[260..268], b"aarch64\0");
    assert_eq!(&uts_bytes(Arch::Loongarch64)[260..272], b"loongarch64\0");
    assert_eq!(&uts_bytes(Arch::X86_64)[260..267], b"x86_64\0");
    assert!(uts_bytes(Arch::Riscv32)[260..325].iter().all(|b| *b == 0));
    assert_eq!(timespec_bytes(), vec![0; 16]);
    assert_eq!(rlimit_bytes(), vec![0xff; 16]);
    assert_eq!(zero_bytes(3), vec![0, 0, 0]);
}

#[test]
fn console_characters() {
    assert_eq!(console_text(&b"hi\n".to_vec()), vec!['h', 'i', '\n']);
    assert_eq!(console_text(&vec![0xe9]), vec!['\u{e9}']);
    assert_eq!(console_text(&Vec::new()), Vec::<char>::new());
}
