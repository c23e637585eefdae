//! Linux system call emulation for user programs.

pub mod abi;
pub mod files;
pub mod dispatch;
pub mod guard;
pub mod info;
pub mod laws;
pub mod memory;
pub mod runs;

use crate::align::PAGE_SIZE_4K;
use crate::fd_table::FdTable;
use vstd::prelude::*;

verus! {

/// Where the heap of a user program begins.
pub const INITIAL_BRK: usize = 0x0300_0000;

/// Where the search for addresses to map begins at first.
pub const INITIAL_MMAP_ADDR: usize = 0x1000_0000;

/// The mathematical state of a [`Kernel`].
#[verifier::reject_recursive_types(T)]
#[verifier::ext_equal]
pub struct KernelState<T> {
    /// The program break.
    pub brk: usize,
    /// The end of the memory that is mapped for the heap.
    pub mapped: usize,
    /// Where the next search for addresses to map begins.
    pub next_mmap: usize,
    /// The open files.
    pub fds: Seq<Option<T>>,
}

impl<T> KernelState<T> {
    /// The state before the first system call.
    pub open spec fn initial() -> KernelState<T> {
        KernelState {
            brk: INITIAL_BRK,
            mapped: INITIAL_BRK,
            next_mmap: INITIAL_MMAP_ADDR,
            fds: Seq::empty(),
        }
    }

    /// The heap is mapped in whole pages, at least up to the program break.
    pub open spec fn wf(self) -> bool {
        &&& self.brk <= self.mapped
        &&& self.mapped % PAGE_SIZE_4K == 0
    }
}

/// The state that system calls share. `T` is the type of an open file.
#[verifier::reject_recursive_types(T)]
pub struct Kernel<T> {
    program_brk: usize,
    program_brk_mapped: usize,
    next_mmap_addr: usize,
    fd_table: FdTable<T>,
}

impl<T> View for Kernel<T> {
    type V = KernelState<T>;

    closed spec fn view(&self) -> KernelState<T> {
        KernelState {
            brk: self.program_brk,
            mapped: self.program_brk_mapped,
            next_mmap: self.next_mmap_addr,
            fds: self.fd_table@,
        }
    }
}

impl<T> Kernel<T> {
    pub open spec fn wf(&self) -> bool {
        self@.wf()
    }

    /// The state before the first system call.
    pub fn new() -> (r: Self)
        ensures
            r.wf(),
            r@ == KernelState::<T>::initial(),
    {
        Kernel {
            program_brk: INITIAL_BRK,
            program_brk_mapped: INITIAL_BRK,
            next_mmap_addr: INITIAL_MMAP_ADDR,
            fd_table: FdTable::new(),
        }
    }
}

/// Before the first system call the heap is empty and begins at 0x300_0000, the
/// first search for addresses begins at 0x1000_0000, and no file is open.
pub proof fn law_initial_state<T>()
    ensures
        KernelState::<T>::initial().brk == 0x300_0000,
        KernelState::<T>::initial().mapped == 0x300_0000,
        KernelState::<T>::initial().next_mmap == 0x1000_0000,
        KernelState::<T>::initial().fds.len() == 0,
{
}

} // verus!
