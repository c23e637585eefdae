//! The flags of `open(2)`.

use crate::errno::LinuxError;
use vstd::prelude::*;

verus! {

/// The bits that select the access mode.
pub const O_ACCMODE: u32 = 0o3;

pub const O_RDONLY: u32 = 0o0;

pub const O_WRONLY: u32 = 0o1;

pub const O_RDWR: u32 = 0o2;

pub const O_CREAT: u32 = 0o100;

pub const O_EXCL: u32 = 0o200;

pub const O_TRUNC: u32 = 0o1000;

pub const O_APPEND: u32 = 0o2000;

/// How the file system is asked to open a file.
#[derive(Clone, Copy, Debug, PartialEq, Eq, Structural)]
pub struct OpenOptions {
    pub read: bool,
    pub write: bool,
    pub append: bool,
    pub truncate: bool,
    pub create: bool,
    pub create_new: bool,
}

/// The options that open flags stand for. The access mode must be one of the
/// three known ones.
pub open spec fn open_options(flags: u32) -> Result<OpenOptions, LinuxError> {
    let mode = flags & O_ACCMODE;
    if mode == O_RDONLY || mode == O_WRONLY || mode == O_RDWR {
        Ok(
            OpenOptions {
                read: mode != O_WRONLY,
                write: mode != O_RDONLY,
                append: flags & O_APPEND != 0,
                truncate: flags & O_TRUNC != 0,
                create: flags & O_CREAT != 0,
                create_new: flags & O_EXCL != 0,
            },
        )
    } else {
        Err(LinuxError::EINVAL)
    }
}

/// Translates the flags of `open(2)`.
pub fn linux_flags_to_open_options(flags: u32, _mode: u32) -> (r: Result<OpenOptions, LinuxError>)
    ensures
        r == open_options(flags),
{
    let acc: u32 = flags & O_ACCMODE;
    let mut opts = OpenOptions {
        read: false,
        write: false,
        append: false,
        truncate: false,
        create: false,
        create_new: false,
    };
    if acc == O_RDONLY {
        opts.read = true;
    } else if acc == O_WRONLY {
        opts.write = true;
    } else if acc == O_RDWR {
        opts.read = true;
        opts.write = true;
    } else {
        return Err(LinuxError::EINVAL);
    }
    if flags & O_APPEND != 0 {
        opts.append = true;
    }
    if flags & O_TRUNC != 0 {
        opts.truncate = true;
    }
    if flags & O_CREAT != 0 {
        opts.create = true;
    }
    if flags & O_EXCL != 0 {
        opts.create_new = true;
    }
    Ok(opts)
}

/// The only rejected access mode is the one with both mode bits set.
pub proof fn law_open_flags_rejected(flags: u32)
    ensures
        open_options(flags) is Err <==> flags & O_ACCMODE == O_ACCMODE,
{
    assert(flags & 3 == 0 || flags & 3 == 1 || flags & 3 == 2 || flags & 3 == 3) by (bit_vector);
}

/// Each option depends on its own bits only. Reading and writing go by the
/// access mode in the lowest two bits: 0 reads, 1 writes, 2 does both, 3 is
/// rejected. Bit 0o100 creates, 0o200 insists on that, 0o1000 truncates and
/// 0o2000 appends, in every mode.
pub proof fn law_open_options(flags: u32)
    ensures
        flags & 3 == 3 ==> open_options(flags) == Err::<OpenOptions, LinuxError>(
            LinuxError::EINVAL,
        ),
        flags & 3 != 3 ==> {
            &&& open_options(flags) matches Ok(o) && {
                &&& o.read == (flags & 3 == 0 || flags & 3 == 2)
                &&& o.write == (flags & 3 == 1 || flags & 3 == 2)
                &&& o.append == (flags & 0o2000 != 0)
                &&& o.truncate == (flags & 0o1000 != 0)
                &&& o.create == (flags & 0o100 != 0)
                &&& o.create_new == (flags & 0o200 != 0)
            }
        },
{
    assert(flags & 3 == 0 || flags & 3 == 1 || flags & 3 == 2 || flags & 3 == 3) by (bit_vector);
}

} // verus!
