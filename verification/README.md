# arceos_exercises

The kernel-side logic of two ArceOS exercises, verified with Verus.

- `src/bump_allocator.rs`: an early allocator that hands out bytes from the low
  end of a memory range and pages from its high end. `src/bump_laws.rs` proves
  that what it hands out never overlaps.
- `src/kernel.rs`: Linux system calls for user programs (`openat`, `read`,
  `write`, `brk`, `mmap` and others). A call is a sequence of steps. Each step
  either ends the call or asks for one action on files, memory or the console,
  and the call goes on with what that action yields. `src/kernel/laws.rs` proves
  what holds over several steps, `src/kernel/runs.rs` what holds of whole calls
  and of any number of them.
- `app/`: the allocator behind the traits of `axallocator`, and the loop that
  performs the actions on ArceOS.
- `tests/`: the library on concrete values, with an in-memory host.
