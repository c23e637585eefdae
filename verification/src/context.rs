//! What a system call sees of the processor: its architecture and the
//! registers that carry the number, the arguments and the result.

use vstd::prelude::*;

verus! {

/// The processor architectures that user programs run on.
#[derive(Clone, Copy, Debug, PartialEq, Eq, Structural)]
pub enum Arch {
    X86_64,
    Aarch64,
    Riscv64,
    Riscv32,
    Loongarch64,
}

/// The registers of a user program at a system call.
#[derive(Clone, Copy, Debug, PartialEq, Eq)]
pub struct UserContext {
    pub arch: Arch,
    /// The register that holds the number of the system call: `rax`, `x8` or
    /// `a7`.
    pub nr: usize,
    /// The registers that hold the arguments, in the order of the ABI.
    pub args: [usize; 6],
    /// The base of the FS segment, which exists on x86_64 only.
    pub fs_base: u64,
}

/// The mathematical state of a [`UserContext`].
#[verifier::ext_equal]
pub struct Registers {
    pub arch: Arch,
    pub nr: usize,
    pub args: Seq<usize>,
    pub fs_base: u64,
}

impl View for UserContext {
    type V = Registers;

    open spec fn view(&self) -> Registers {
        Registers { arch: self.arch, nr: self.nr, args: self.args@, fs_base: self.fs_base }
    }
}

impl Registers {
    /// The registers after the result of a system call was stored. On x86_64
    /// the result replaces the number, elsewhere it replaces the first argument.
    pub open spec fn with_ret(self, ret: usize) -> Registers {
        if self.arch == Arch::X86_64 {
            Registers { nr: ret, ..self }
        } else {
            Registers { args: self.args.update(0, ret), ..self }
        }
    }

    /// The register that holds the result of a system call.
    pub open spec fn ret(self) -> usize {
        if self.arch == Arch::X86_64 {
            self.nr
        } else {
            self.args[0]
        }
    }
}

/// The number of the system call.
pub fn get_syscall_num(uctx: &UserContext) -> (r: usize)
    ensures
        r == uctx@.nr,
{
    uctx.nr
}

/// Stores the result of a system call.
pub fn set_syscall_ret(uctx: &mut UserContext, ret: usize)
    ensures
        final(uctx)@ == old(uctx)@.with_ret(ret),
{
    if uctx.arch == Arch::X86_64 {
        uctx.nr = ret;
    } else {
        uctx.args[0] = ret;
    }
}

/// The registers are seen as they are. A result goes to the register of the
/// number on x86_64 and to that of the first argument elsewhere, and no other
/// register changes.
pub proof fn law_registers(uctx: UserContext, regs: Registers, ret: usize)
    requires
        regs.args.len() == 6,
    ensures
        uctx@.arch == uctx.arch,
        uctx@.nr == uctx.nr,
        uctx@.args == uctx.args@,
        uctx@.fs_base == uctx.fs_base,
        regs.arch == Arch::X86_64 ==> {
            &&& regs.with_ret(ret).nr == ret
            &&& regs.with_ret(ret).args == regs.args
            &&& regs.ret() == regs.nr
        },
        regs.arch != Arch::X86_64 ==> {
            &&& regs.with_ret(ret).nr == regs.nr
            &&& regs.with_ret(ret).args == regs.args.update(0, ret)
            &&& regs.ret() == regs.args[0]
        },
        regs.with_ret(ret).arch == regs.arch,
        regs.with_ret(ret).fs_base == regs.fs_base,
{
}

} // verus!
