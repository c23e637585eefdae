//! Linux error numbers, and how a system call reports them.

use vstd::prelude::*;

verus! {

/// The errors that the system calls themselves report.
#[derive(Clone, Copy, Debug, PartialEq, Eq, Structural)]
pub enum LinuxError {
    /// No such file or directory.
    ENOENT,
    /// Bad file number.
    EBADF,
    /// Out of memory.
    ENOMEM,
    /// Bad address.
    EFAULT,
    /// Is a directory.
    EISDIR,
    /// Invalid argument.
    EINVAL,
    /// File name too long.
    ENAMETOOLONG,
    /// Invalid system call number.
    ENOSYS,
}

impl LinuxError {
    /// The number of the error in the Linux ABI.
    pub open spec fn number(self) -> int {
        match self {
            LinuxError::ENOENT => 2,
            LinuxError::EBADF => 9,
            LinuxError::ENOMEM => 12,
            LinuxError::EFAULT => 14,
            LinuxError::EISDIR => 21,
            LinuxError::EINVAL => 22,
            LinuxError::ENAMETOOLONG => 36,
            LinuxError::ENOSYS => 38,
        }
    }
}

/// The greatest error number of the Linux ABI.
pub const MAX_ERRNO: i32 = 133;

/// Whether a number encodes an `axerrno::AxError`: one of its 43 error kinds,
/// or a negated Linux error number, of which 41 and 58 are not assigned.
pub open spec fn is_ax_code(code: int) -> bool {
    ||| 1 <= code <= 43
    ||| -MAX_ERRNO <= code < 0 && code != -41 && code != -58
}

/// The number of the Linux error that `axerrno` converts an error to.
pub uninterp spec fn linux_code_of_ax(code: i32) -> i32;

/// `axerrno::LinuxError::code`, which is the number that `errno.h` gives the
/// error.
#[verifier::external_body]
fn linux_error_code(e: LinuxError) -> (r: i32)
    ensures
        r == e.number(),
{
    let e = match e {
        LinuxError::ENOENT => axerrno::LinuxError::ENOENT,
        LinuxError::EBADF => axerrno::LinuxError::EBADF,
        LinuxError::ENOMEM => axerrno::LinuxError::ENOMEM,
        LinuxError::EFAULT => axerrno::LinuxError::EFAULT,
        LinuxError::EISDIR => axerrno::LinuxError::EISDIR,
        LinuxError::EINVAL => axerrno::LinuxError::EINVAL,
        LinuxError::ENAMETOOLONG => axerrno::LinuxError::ENAMETOOLONG,
        LinuxError::ENOSYS => axerrno::LinuxError::ENOSYS,
    };
    e.code()
}

/// `axerrno::LinuxError::from` on the `axerrno::AxError` that has the given
/// code. The result is named, not spelled out. An error that carries a Linux
/// error number keeps it, and every result is such a number.
#[verifier::external_body]
fn ax_to_linux(code: i32) -> (r: Option<i32>)
    requires
        code > i32::MIN,
    ensures
        r is Some <==> is_ax_code(code as int),
        r matches Some(n) ==> {
            &&& n == linux_code_of_ax(code)
            &&& 1 <= n <= MAX_ERRNO
            &&& code < 0 ==> n == -code
        },
{
    let e = axerrno::AxError::try_from(code).ok();
    e.map(|e| axerrno::LinuxError::from(e).code())
}

/// The value that a system call returns for an error number.
pub fn neg_code(number: i32) -> (r: isize)
    requires
        number > i32::MIN,
    ensures
        r == -number,
{
    -(number as isize)
}

/// The value that a system call returns for an error.
pub fn neg_errno(e: LinuxError) -> (r: isize)
    ensures
        r == -e.number(),
        -MAX_ERRNO <= r < 0,
{
    neg_code(linux_error_code(e))
}

/// The value that a system call returns when the file system or the address
/// space failed with the given `AxError` code.
pub fn neg_ax_error(code: i32) -> (r: isize)
    requires
        is_ax_code(code as int),
    ensures
        r == -linux_code_of_ax(code),
        code < 0 ==> r == code,
        -MAX_ERRNO <= r < 0,
{
    match ax_to_linux(code) {
        Some(number) => neg_code(number),
        None => vstd::pervasive::unreached(),
    }
}

/// The errors have the numbers that the Linux ABI gives them.
pub proof fn law_error_numbers()
    ensures
        LinuxError::ENOENT.number() == 2,
        LinuxError::EBADF.number() == 9,
        LinuxError::ENOMEM.number() == 12,
        LinuxError::EFAULT.number() == 14,
        LinuxError::EISDIR.number() == 21,
        LinuxError::EINVAL.number() == 22,
        LinuxError::ENAMETOOLONG.number() == 36,
        LinuxError::ENOSYS.number() == 38,
{
}

/// Every error kind and every negated error number is the code of an `AxError`,
/// but for the two numbers that are not assigned. Nothing else is.
pub proof fn law_ax_codes(code: int)
    ensures
        code > 43 || code == 0 || code < -133 ==> !is_ax_code(code),
        1 <= code <= 43 ==> is_ax_code(code),
        -133 <= code < 0 ==> (is_ax_code(code) <==> code != -41 && code != -58),
{
}

} // verus!
