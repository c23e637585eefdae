//! The records that system calls store into user memory.

use crate::context::Arch;
use vstd::prelude::*;
use vstd::string::*;
use vstd::utf8::*;

verus! {

/// The size of a text field of `struct utsname`, with the terminating zero.
pub const UTS_FIELD_LEN: usize = 65;

/// A sequence of zero bytes.
pub open spec fn zeros(len: int) -> Seq<u8> {
    Seq::new(len as nat, |i: int| 0u8)
}

/// The bytes of a text that fit into a field.
pub open spec fn field_text(text: Seq<char>) -> Seq<u8> {
    let bytes = encode_utf8(text);
    if bytes.len() < UTS_FIELD_LEN {
        bytes
    } else {
        bytes.take(UTS_FIELD_LEN - 1)
    }
}

/// A field that holds a text, filled up with zeros.
pub open spec fn c_field(text: Seq<char>) -> Seq<u8> {
    field_text(text) + zeros(UTS_FIELD_LEN - field_text(text).len())
}

/// The machine name of an architecture.
pub open spec fn machine_name(arch: Arch) -> Seq<char> {
    match arch {
        Arch::X86_64 => "x86_64"@,
        Arch::Aarch64 => "aarch64"@,
        Arch::Riscv64 => "riscv64"@,
        Arch::Loongarch64 => "loongarch64"@,
        Arch::Riscv32 => Seq::empty(),
    }
}

/// The contents of `struct utsname`.
pub open spec fn uts_record(arch: Arch) -> Seq<u8> {
    c_field("Linux"@) + c_field("arceos"@) + c_field("6.1.0"@) + c_field("ArceOS"@) + c_field(
        machine_name(arch),
    ) + c_field("localdomain"@)
}

/// A vector of zero bytes.
pub fn zero_bytes(len: usize) -> (r: Vec<u8>)
    requires
        len <= isize::MAX,
    ensures
        r@ == zeros(len as int),
{
    vec![0u8; len]
}

/// Stores a text into a field, cut to the size of the field, and a terminating
/// zero after it.
pub fn write_c_field(dst: &mut [u8; 65], value: &str)
    ensures
        final(dst)@ == field_text(value@) + seq![0u8] + old(dst)@.skip(
            field_text(value@).len() as int + 1,
        ),
{
    let bytes = value.as_bytes();
    let len: usize = if bytes.len() < 64 { bytes.len() } else { 64 };
    let mut i: usize = 0;
    while i < len
        invariant
            i <= len,
            len == field_text(value@).len(),
            len <= 64,
            len <= bytes@.len(),
            bytes@ == encode_utf8(value@),
            dst@ =~= bytes@.take(i as int) + old(dst)@.skip(i as int),
        decreases len - i,
    {
        dst[i] = bytes[i];
        i += 1;
    }
    dst[len] = 0;
    proof {
        assert(bytes@.take(len as int) =~= field_text(value@));
        assert(dst@ =~= field_text(value@) + seq![0u8] + old(dst)@.skip(len + 1));
    }
}

/// The record that `uname(2)` stores.
pub struct UtsName {
    pub sysname: [u8; 65],
    pub nodename: [u8; 65],
    pub release: [u8; 65],
    pub version: [u8; 65],
    pub machine: [u8; 65],
    pub domainname: [u8; 65],
}

/// A field that holds a text.
fn new_c_field(value: &str) -> (r: [u8; 65])
    ensures
        r@ == c_field(value@),
{
    let mut field: [u8; 65] = [0u8; 65];
    write_c_field(&mut field, value);
    proof {
        assert(field@ =~= c_field(value@));
    }
    field
}

/// Describes the system.
pub fn uts_name(arch: Arch) -> (r: UtsName)
    ensures
        r.sysname@ == c_field("Linux"@),
        r.nodename@ == c_field("arceos"@),
        r.release@ == c_field("6.1.0"@),
        r.version@ == c_field("ArceOS"@),
        r.machine@ == c_field(machine_name(arch)),
        r.domainname@ == c_field("localdomain"@),
{
    let machine: &str = match arch {
        Arch::X86_64 => "x86_64",
        Arch::Aarch64 => "aarch64",
        Arch::Riscv64 => "riscv64",
        Arch::Loongarch64 => "loongarch64",
        Arch::Riscv32 => "",
    };
    proof {
        reveal_strlit("");
        assert(machine@ =~= machine_name(arch));
    }
    UtsName {
        sysname: new_c_field("Linux"),
        nodename: new_c_field("arceos"),
        release: new_c_field("6.1.0"),
        version: new_c_field("ArceOS"),
        machine: new_c_field(machine),
        domainname: new_c_field("localdomain"),
    }
}

/// The record of `uname(2)` as it lies in memory: its fields in order.
pub fn uts_bytes(arch: Arch) -> (r: Vec<u8>)
    ensures
        r@ == uts_record(arch),
{
    let uts = uts_name(arch);
    let mut bytes: Vec<u8> = Vec::new();
    bytes.extend_from_slice(&uts.sysname);
    bytes.extend_from_slice(&uts.nodename);
    bytes.extend_from_slice(&uts.release);
    bytes.extend_from_slice(&uts.version);
    bytes.extend_from_slice(&uts.machine);
    bytes.extend_from_slice(&uts.domainname);
    bytes
}

/// The size of the records of `clock_gettime(2)` and of `prlimit64(2)`: two
/// words of eight bytes.
pub const PAIR_LEN: usize = 16;

/// The record of `clock_gettime(2)`: no seconds and no nanoseconds.
pub fn timespec_bytes() -> (r: Vec<u8>)
    ensures
        r@ == zeros(PAIR_LEN as int),
{
    zero_bytes(PAIR_LEN)
}

/// The record of `prlimit64(2)`: both limits are the greatest 64-bit number.
pub fn rlimit_bytes() -> (r: Vec<u8>)
    ensures
        r@ == Seq::new(PAIR_LEN as nat, |i: int| 0xffu8),
{
    vec![0xffu8; PAIR_LEN]
}

/// A field always ends in a zero, and a text that fits is stored whole.
pub proof fn law_c_field(text: Seq<char>)
    ensures
        c_field(text).len() == UTS_FIELD_LEN,
        c_field(text)[UTS_FIELD_LEN - 1] == 0,
        encode_utf8(text).len() < UTS_FIELD_LEN ==> c_field(text).take(
            encode_utf8(text).len() as int,
        ) == encode_utf8(text),
{
    if encode_utf8(text).len() < UTS_FIELD_LEN {
        assert(c_field(text).take(encode_utf8(text).len() as int) =~= encode_utf8(text));
    }
}

/// A field of 65 bytes that begins with the given ones and is zero after them.
pub open spec fn field_of(bytes: Seq<u8>) -> Seq<u8> {
    Seq::new(
        65,
        |i: int|
            if i < bytes.len() {
                bytes[i]
            } else {
                0u8
            },
    )
}

/// The bytes of the machine name: `x86_64`, `aarch64`, `riscv64` or
/// `loongarch64`. On the remaining architecture there is none.
pub open spec fn machine_literal(arch: Arch) -> Seq<u8> {
    match arch {
        Arch::X86_64 => seq![120u8, 56, 54, 95, 54, 52],
        Arch::Aarch64 => seq![97u8, 97, 114, 99, 104, 54, 52],
        Arch::Riscv64 => seq![114u8, 105, 115, 99, 118, 54, 52],
        Arch::Loongarch64 => seq![108u8, 111, 111, 110, 103, 97, 114, 99, 104, 54, 52],
        Arch::Riscv32 => Seq::empty(),
    }
}

/// The record of `uname(2)`, byte by byte.
pub open spec fn uts_literal(arch: Arch) -> Seq<u8> {
    field_of(seq![76u8, 105, 110, 117, 120]) + field_of(seq![97u8, 114, 99, 101, 111, 115])
        + field_of(seq![54u8, 46, 49, 46, 48]) + field_of(seq![65u8, 114, 99, 101, 79, 83])
        + field_of(machine_literal(arch)) + field_of(
        seq![108u8, 111, 99, 97, 108, 100, 111, 109, 97, 105, 110],
    )
}

/// A field holds the bytes of its text, as many as leave room for a zero, and
/// zeros after them.
pub proof fn law_field_bytes(text: Seq<char>, i: int)
    requires
        0 <= i < 65,
    ensures
        c_field(text).len() == 65,
        c_field(text)[i] == (if i < encode_utf8(text).len() && i < 64 {
            encode_utf8(text)[i]
        } else {
            0
        }),
        field_text(text).len() == (if encode_utf8(text).len() < 64 {
            encode_utf8(text).len()
        } else {
            64
        }),
        i < field_text(text).len() ==> field_text(text)[i] == encode_utf8(text)[i],
{
}

proof fn lemma_ascii_field(text: Seq<char>, bytes: Seq<u8>)
    requires
        text.len() == bytes.len() <= 64,
        forall|i: int| 0 <= i < text.len() ==> #[trigger] text[i] as int == bytes[i] < 128,
    ensures
        c_field(text) == field_of(bytes),
{
    assert(is_ascii_chars(text)) by {
        assert forall|i: int| 0 <= i < text.len() implies 0 <= (#[trigger] text[i]) as int
            <= 127 by {}
    }
    is_ascii_chars_encode_utf8(text);
    assert(encode_utf8(text) =~= bytes);
    assert(c_field(text) =~= field_of(bytes));
}

/// The record of `uname(2)` holds its six fields in order.
pub proof fn law_uts_record(arch: Arch)
    ensures
        uts_record(arch) == uts_literal(arch),
{
    reveal_strlit("Linux");
    reveal_strlit("arceos");
    reveal_strlit("6.1.0");
    reveal_strlit("ArceOS");
    reveal_strlit("localdomain");
    reveal_strlit("x86_64");
    reveal_strlit("aarch64");
    reveal_strlit("riscv64");
    reveal_strlit("loongarch64");
    lemma_ascii_field("Linux"@, seq![76u8, 105, 110, 117, 120]);
    lemma_ascii_field("arceos"@, seq![97u8, 114, 99, 101, 111, 115]);
    lemma_ascii_field("6.1.0"@, seq![54u8, 46, 49, 46, 48]);
    lemma_ascii_field("ArceOS"@, seq![65u8, 114, 99, 101, 79, 83]);
    lemma_ascii_field(machine_name(arch), machine_literal(arch));
    lemma_ascii_field(
        "localdomain"@,
        seq![108u8, 111, 99, 97, 108, 100, 111, 109, 97, 105, 110],
    );
}

/// A sequence of zero bytes holds nothing else.
pub proof fn law_zeros(len: int, i: int)
    requires
        0 <= i < len,
    ensures
        zeros(len).len() == len,
        zeros(len)[i] == 0,
{
}

} // verus!
