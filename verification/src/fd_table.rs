//! The table of open files.

use crate::errno::LinuxError;
use vstd::prelude::*;

verus! {

/// Open files by file descriptor. A closed descriptor leaves an empty slot,
/// which a later open uses again.
pub struct FdTable<T> {
    slots: Vec<Option<T>>,
}

impl<T> View for FdTable<T> {
    type V = Seq<Option<T>>;

    closed spec fn view(&self) -> Seq<Option<T>> {
        self.slots@
    }
}

/// The first empty slot at or after `from`, or the end of the table.
pub open spec fn free_slot_from<T>(slots: Seq<Option<T>>, from: int) -> int
    decreases slots.len() - from,
{
    if from < 0 || from >= slots.len() || slots[from] is None {
        from
    } else {
        free_slot_from(slots, from + 1)
    }
}

/// The slot that the next open file gets.
pub open spec fn free_slot<T>(slots: Seq<Option<T>>) -> int {
    free_slot_from(slots, 0)
}

/// The table with a file in the given slot, which may be the one past the end.
pub open spec fn with_file<T>(slots: Seq<Option<T>>, slot: int, file: T) -> Seq<Option<T>> {
    if slot < slots.len() {
        slots.update(slot, Some(file))
    } else {
        slots.push(Some(file))
    }
}

/// Whether a descriptor stands for an open file.
pub open spec fn is_open<T>(slots: Seq<Option<T>>, fd: int) -> bool {
    0 <= fd < slots.len() && slots[fd] is Some
}

/// The free slot is the lowest one: all slots below it are in use.
pub proof fn law_free_slot_is_lowest<T>(slots: Seq<Option<T>>)
    ensures
        0 <= free_slot(slots) <= slots.len(),
        !is_open(slots, free_slot(slots)),
        forall|i: int| 0 <= i < free_slot(slots) ==> #[trigger] is_open(slots, i),
{
    lemma_free_slot_from(slots, 0);
}

/// The free slot is the one that is empty, or past the end, and has only full
/// slots before it. A file that goes there changes no other slot.
pub proof fn law_free_slot<T>(slots: Seq<Option<T>>, k: int)
    requires
        0 <= k <= slots.len(),
        forall|i: int| 0 <= i < k ==> (#[trigger] slots[i]) is Some,
        k < slots.len() ==> slots[k] is None,
    ensures
        free_slot(slots) == k,
        forall|file: T| #[trigger]
            with_file(slots, k, file) == (if k < slots.len() {
                slots.update(k, Some(file))
            } else {
                slots.push(Some(file))
            }),
{
    law_free_slot_is_lowest(slots);
    let j = free_slot(slots);
    if k < j {
        assert(is_open(slots, k));
    }
    if j < k {
        assert(slots[j] is Some);
    }
}

/// A descriptor stands for an open file exactly if it is the index of a full
/// slot.
pub proof fn law_is_open<T>(slots: Seq<Option<T>>, fd: int)
    ensures
        fd < 0 || fd >= slots.len() ==> !is_open(slots, fd),
        0 <= fd < slots.len() ==> (is_open(slots, fd) <==> slots[fd] is Some),
{
}

proof fn lemma_free_slot_from<T>(slots: Seq<Option<T>>, from: int)
    requires
        0 <= from <= slots.len(),
    ensures
        from <= free_slot_from(slots, from) <= slots.len(),
        !is_open(slots, free_slot_from(slots, from)),
        forall|i: int| from <= i < free_slot_from(slots, from) ==> #[trigger] is_open(slots, i),
    decreases slots.len() - from,
{
    if from < slots.len() && slots[from] is Some {
        lemma_free_slot_from(slots, from + 1);
    }
}

impl<T> FdTable<T> {
    /// A table without open files.
    pub fn new() -> (r: Self)
        ensures
            r@ == Seq::<Option<T>>::empty(),
    {
        FdTable { slots: Vec::new() }
    }

    /// Puts a file into the lowest free slot and returns its descriptor.
    pub fn fd_alloc(&mut self, file: T) -> (fd: i32)
        ensures
            fd == free_slot(old(self)@) as i32,
            final(self)@ == with_file(old(self)@, free_slot(old(self)@), file),
    {
        let mut i: usize = 0;
        while i < self.slots.len()
            invariant
                i <= self.slots.len(),
                self.slots == old(self).slots,
                free_slot(self.slots@) == free_slot_from(self.slots@, i as int),
            decreases self.slots.len() - i,
        {
            if self.slots[i].is_none() {
                self.slots.set(i, Some(file));
                return i as i32;
            }
            i += 1;
        }
        self.slots.push(Some(file));
        (self.slots.len() - 1) as i32
    }

    /// Takes a file out of the table.
    pub fn fd_take(&mut self, fd: i32) -> (r: Result<T, LinuxError>)
        ensures
            is_open(old(self)@, fd as int) ==> {
                &&& r matches Ok(file) && old(self)@[fd as int] == Some(file)
                &&& final(self)@ == old(self)@.update(fd as int, None)
            },
            !is_open(old(self)@, fd as int) ==> {
                &&& r matches Err(e) && e == LinuxError::EBADF
                &&& final(self)@ == old(self)@
            },
    {
        if fd < 0 {
            return Err(LinuxError::EBADF);
        }
        let i: usize = fd as usize;
        if i >= self.slots.len() {
            return Err(LinuxError::EBADF);
        }
        match self.slots[i].take() {
            Some(file) => Ok(file),
            None => Err(LinuxError::EBADF),
        }
    }

    /// Whether a descriptor stands for an open file, as an error if not.
    pub fn check_fd(&self, fd: i32) -> (r: Result<(), LinuxError>)
        ensures
            r == (if is_open(self@, fd as int) {
                Ok::<(), LinuxError>(())
            } else {
                Err(LinuxError::EBADF)
            }),
    {
        if fd < 0 {
            return Err(LinuxError::EBADF);
        }
        let i: usize = fd as usize;
        if i < self.slots.len() && self.slots[i].is_some() {
            Ok(())
        } else {
            Err(LinuxError::EBADF)
        }
    }

    /// Calls `f` on an open file and returns what it returns. The table changes
    /// in nothing but that file.
    pub fn with_file_fd<R, F: FnOnce(&mut T) -> Result<R, LinuxError>>(
        &mut self,
        fd: i32,
        f: F,
    ) -> (r: Result<R, LinuxError>)
        requires
            is_open(old(self)@, fd as int) ==> forall|file: &mut T|
                old(self)@[fd as int] == Some(*file) ==> #[trigger] call_requires(f, (file,)),
        ensures
            !is_open(old(self)@, fd as int) ==> {
                &&& r matches Err(e) && e == LinuxError::EBADF
                &&& final(self)@ == old(self)@
            },
            is_open(old(self)@, fd as int) ==> {
                &&& is_open(final(self)@, fd as int)
                &&& final(self)@ == old(self)@.update(fd as int, final(self)@[fd as int])
                &&& exists|file: &mut T|
                    {
                        &&& #[trigger] call_ensures(f, (file,), r)
                        &&& *file == old(self)@[fd as int]->Some_0
                        &&& *final(file) == final(self)@[fd as int]->Some_0
                    }
            },
    {
        if fd < 0 {
            return Err(LinuxError::EBADF);
        }
        let i: usize = fd as usize;
        if i >= self.slots.len() {
            return Err(LinuxError::EBADF);
        }
        match &mut self.slots[i] {
            Some(file) => {
                let ghost before = *file;
                let res = f(file);
                proof {
                    assert(exists|g: &mut T|
                        #[trigger] call_ensures(f, (g,), res) && *g == before && *final(g)
                            == *file);
                    assert(final(self)@ == old(self)@.update(fd as int, Some(*file)));
                }
                res
            }
            None => Err(LinuxError::EBADF),
        }
    }
}

} // verus!
