//! An early memory allocator, for use before the formal byte and page
//! allocators can work.

use vstd::arithmetic::power2::*;
use vstd::prelude::*;

verus! {

/// Why an allocator refused a request.
#[derive(Clone, Copy, Debug, PartialEq, Eq, Structural)]
pub enum AllocError {
    /// The size, the alignment or the position is not acceptable.
    InvalidParam,
    /// The memory to add overlaps memory that is managed already.
    MemoryOverlap,
    /// There is not enough memory left.
    NoMemory,
    /// The memory to free was not allocated.
    NotAllocated,
}

/// The result of a request to an allocator.
pub type AllocResult<T> = Result<T, AllocError>;

/// Where a block of bytes was placed.
#[derive(Clone, Copy, Debug, PartialEq, Eq, Structural)]
pub enum Allocation {
    /// A request for no bytes has no place: any dangling pointer will do.
    Dangling,
    /// The block starts at this address.
    At(usize),
}

/// The size and alignment of a block of memory. The alignment is a power of
/// two, and the size does not exceed `isize::MAX` when rounded up to it.
#[derive(Clone, Copy, Debug, PartialEq, Eq)]
pub struct Layout {
    size: usize,
    align: usize,
}

impl Layout {
    /// Whether a size and an alignment make a layout.
    pub open spec fn valid(size: int, align: int) -> bool {
        is_pow2(align) && size + (align - 1) <= isize::MAX
    }

    #[verifier::type_invariant]
    spec fn inv(self) -> bool {
        Layout::valid(self.size as int, self.align as int)
    }

    /// The size in bytes.
    pub closed spec fn spec_size(self) -> int {
        self.size as int
    }

    /// The alignment in bytes.
    pub closed spec fn spec_align(self) -> int {
        self.align as int
    }

    /// Makes a layout, unless the size and alignment are not valid.
    pub fn from_size_align(size: usize, align: usize) -> (r: Option<Layout>)
        ensures
            r is Some <==> Layout::valid(size as int, align as int),
            r matches Some(l) ==> l.spec_size() == size && l.spec_align() == align,
    {
        let limit: usize = isize::MAX as usize;
        if !align.is_power_of_two() {
            return None;
        }
        proof {
            crate::align::lemma_pow2_positive(align as int);
        }
        if align - 1 <= limit && size <= limit - (align - 1) {
            Some(Layout { size, align })
        } else {
            None
        }
    }

    /// The size in bytes.
    pub fn size(&self) -> (r: usize)
        ensures
            r == self.spec_size(),
            Layout::valid(self.spec_size(), self.spec_align()),
    {
        proof {
            use_type_invariant(self);
        }
        self.size
    }

    /// The alignment in bytes.
    pub fn align(&self) -> (r: usize)
        ensures
            r == self.spec_align(),
            Layout::valid(self.spec_size(), self.spec_align()),
    {
        proof {
            use_type_invariant(self);
        }
        self.align
    }
}

/// The mathematical state of an [`EarlyAllocator`].
pub struct BumpState {
    pub start: int,
    pub end: int,
    pub b_pos: int,
    pub p_pos: int,
    pub count: int,
}

impl BumpState {
    /// The bytes in use lie below the free area, the pages in use above it.
    /// Every counted allocation holds at least one byte, and the bytes area is
    /// empty as soon as none is counted.
    pub open spec fn wf(self) -> bool {
        &&& 0 <= self.start <= self.b_pos <= self.p_pos <= self.end <= usize::MAX
        &&& 0 <= self.count <= self.b_pos - self.start
        &&& self.count == 0 ==> self.b_pos == self.start
    }

    /// Whether memory was given to the allocator.
    pub open spec fn initialized(self) -> bool {
        self.end > self.start
    }

    /// A fresh allocator over `[start, start + size)`.
    pub open spec fn initial(start: int, size: int) -> BumpState {
        BumpState { start, end: start + size, b_pos: start, p_pos: start + size, count: 0 }
    }

    /// The size of the managed memory.
    pub open spec fn total_bytes(self) -> int {
        self.end - self.start
    }

    /// The size of the bytes area.
    pub open spec fn used_bytes(self) -> int {
        self.b_pos - self.start
    }

    /// The size of the free area.
    pub open spec fn available_bytes(self) -> int {
        self.p_pos - self.b_pos
    }

    /// The size of the pages area.
    pub open spec fn page_bytes(self) -> int {
        self.end - self.p_pos
    }

    /// What adding `[start, start + size)` answers, and the state it leaves.
    pub open spec fn add_memory(self, start: int, size: int) -> (AllocResult<()>, BumpState) {
        let end = start + size;
        if size == 0 {
            (Ok(()), self)
        } else if end > usize::MAX {
            (Err(AllocError::InvalidParam), self)
        } else if !self.initialized() {
            (Ok(()), BumpState::initial(start, size))
        } else if end == self.start {
            // The new memory lies right below: an empty bytes area moves down.
            (Ok(()), BumpState {
                start,
                b_pos: if self.count == 0 { start } else { self.b_pos },
                ..self
            })
        } else if start == self.end {
            // The new memory lies right above: an empty pages area moves up.
            (Ok(()), BumpState {
                end,
                p_pos: if self.p_pos == self.end { end } else { self.p_pos },
                ..self
            })
        } else if end < self.start || self.end < start {
            (Err(AllocError::InvalidParam), self)
        } else {
            (Err(AllocError::MemoryOverlap), self)
        }
    }

    /// Where the next block of bytes with this alignment starts.
    pub open spec fn byte_block(self, align: int) -> int {
        crate::align::up(self.b_pos, align)
    }

    /// Whether a block of bytes fits in the free area.
    pub open spec fn bytes_fit(self, size: int, align: int) -> bool {
        self.byte_block(align) + size <= self.p_pos
    }

    /// Whether the place of a block of bytes can be computed, and is not the
    /// null address.
    pub open spec fn bytes_placeable(self, size: int, align: int) -> bool {
        size != 0 ==> {
            &&& self.b_pos + align <= usize::MAX
            &&& self.bytes_fit(size, align) ==> self.byte_block(align) != 0
        }
    }

    /// The state after a block of bytes that fits was placed.
    pub open spec fn with_bytes(self, size: int, align: int) -> BumpState {
        BumpState {
            b_pos: self.byte_block(align) + size,
            count: self.count + 1,
            ..self
        }
    }

    /// The state after a block of this size was taken back.
    pub open spec fn without_bytes(self, size: int) -> BumpState {
        if size == 0 || self.count == 0 {
            self
        } else if self.count == 1 {
            BumpState { b_pos: self.start, count: 0, ..self }
        } else {
            BumpState { count: self.count - 1, ..self }
        }
    }

    /// Where the next `num_pages` pages start, if they fit.
    pub open spec fn page_block(self, page_size: int, num_pages: int, align: int) -> int {
        crate::align::down(self.p_pos - num_pages * page_size, align)
    }

    /// Whether `num_pages` pages fit in the free area.
    pub open spec fn pages_fit(self, page_size: int, num_pages: int, align: int) -> bool {
        &&& num_pages * page_size <= self.p_pos
        &&& self.b_pos <= self.page_block(page_size, num_pages, align)
    }
}

/// The alignment that a request for pages is held to.
pub open spec fn page_align(page_size: int, align_pow2: int) -> int {
    if align_pow2 > page_size {
        align_pow2
    } else {
        page_size
    }
}

/// A request to the allocator.
pub enum Request {
    AllocBytes { size: int, align: int },
    DeallocBytes { size: int },
    AllocPages { num_pages: int, align_pow2: int },
    AllocPagesAt { base: int, num_pages: int, align_pow2: int },
    DeallocPages,
    AddMemory { start: int, size: int },
}

impl Request {
    /// Whether the numbers of the request are ones that a caller can pass.
    pub open spec fn valid(self) -> bool {
        match self {
            Request::AllocBytes { size, align } => 0 <= size && is_pow2(align),
            Request::DeallocBytes { size } => 0 <= size,
            Request::AllocPages { num_pages, .. } => 0 <= num_pages,
            Request::AllocPagesAt { base, num_pages, .. } => 0 <= base && 0 <= num_pages,
            Request::DeallocPages => true,
            Request::AddMemory { start, size } => 0 <= start && 0 <= size,
        }
    }
}

impl BumpState {
    /// The state after a request, which may have been refused.
    pub open spec fn after(self, page_size: int, request: Request) -> BumpState {
        match request {
            Request::AllocBytes { size, align } => if size != 0 && self.bytes_fit(size, align) {
                self.with_bytes(size, align)
            } else {
                self
            },
            Request::DeallocBytes { size } => self.without_bytes(size),
            Request::AllocPages { num_pages, align_pow2 } => {
                let align = page_align(page_size, align_pow2);
                if num_pages != 0 && is_pow2(align_pow2) && self.pages_fit(
                    page_size,
                    num_pages,
                    align,
                ) {
                    BumpState { p_pos: self.page_block(page_size, num_pages, align), ..self }
                } else {
                    self
                }
            },
            Request::AllocPagesAt { base, num_pages, align_pow2 } => {
                let align = page_align(page_size, align_pow2);
                if num_pages != 0 && is_pow2(align_pow2) && base == crate::align::down(base, align)
                    && base + num_pages * page_size == self.p_pos && self.b_pos <= base {
                    BumpState { p_pos: base, ..self }
                } else {
                    self
                }
            },
            Request::DeallocPages => self,
            Request::AddMemory { start, size } => self.add_memory(start, size).1,
        }
    }
}

/// Early memory allocator: a memory range that is used from both ends. Bytes
/// are allocated forward, pages are allocated backward.
///
/// ```text
/// [ bytes-used | avail-area | pages-used ]
/// |            | -->    <-- |            |
/// start       b_pos        p_pos       end
/// ```
///
/// For the bytes area, `count` is the number of live allocations: when it goes
/// down to zero, the bytes area is free again. The pages area is never freed.
pub struct EarlyAllocator<const PAGE_SIZE: usize> {
    start: usize,
    end: usize,
    b_pos: usize,
    p_pos: usize,
    count: usize,
}

impl<const PAGE_SIZE: usize> View for EarlyAllocator<PAGE_SIZE> {
    type V = BumpState;

    closed spec fn view(&self) -> BumpState {
        BumpState {
            start: self.start as int,
            end: self.end as int,
            b_pos: self.b_pos as int,
            p_pos: self.p_pos as int,
            count: self.count as int,
        }
    }
}

impl<const PAGE_SIZE: usize> EarlyAllocator<PAGE_SIZE> {
    pub open spec fn wf(&self) -> bool {
        self@.wf()
    }

    /// An allocator without memory.
    pub fn new() -> (r: Self)
        ensures
            r.wf(),
            !r@.initialized(),
            r@ == BumpState::initial(0, 0),
    {
        Self { start: 0, end: 0, b_pos: 0, p_pos: 0, count: 0 }
    }

    /// Rounds up to an alignment.
    pub fn align_up(pos: usize, align: usize) -> (r: usize)
        requires
            align > 0,
            pos + align <= usize::MAX,
        ensures
            r == crate::align::up(pos as int, align as int),
    {
        proof {
            crate::align::lemma_down((pos + align - 1) as usize, align);
        }
        (pos + align - 1) & !(align - 1)
    }

    /// Rounds down to an alignment.
    pub fn align_down(pos: usize, align: usize) -> (r: usize)
        requires
            align > 0,
        ensures
            r == crate::align::down(pos as int, align as int),
            r <= pos,
    {
        proof {
            crate::align::lemma_down(pos, align);
        }
        pos & !(align - 1)
    }

    /// Whether memory was given to the allocator.
    pub fn is_initialized(&self) -> (r: bool)
        ensures
            r == self@.initialized(),
    {
        self.end > self.start
    }

    /// Gives the bytes area up when nothing is allocated in it.
    fn reset_bytes_if_empty(&mut self)
        ensures
            final(self)@ == (if old(self)@.count == 0 {
                (BumpState { b_pos: old(self)@.start, ..old(self)@ })
            } else {
                old(self)@
            }),
    {
        if self.count == 0 {
            self.b_pos = self.start;
        }
    }

    /// Starts over with the memory `[start, start + size)`.
    pub fn init(&mut self, start: usize, size: usize)
        requires
            size > 0,
            start + size <= usize::MAX,
        ensures
            final(self).wf(),
            final(self)@ == BumpState::initial(start as int, size as int),
    {
        self.start = start;
        self.end = start + size;
        self.b_pos = start;
        self.p_pos = self.end;
        self.count = 0;
    }

    /// Adds the memory `[start, start + size)`, which has to adjoin the managed
    /// memory if there is any.
    pub fn add_memory(&mut self, start: usize, size: usize) -> (r: AllocResult<()>)
        requires
            old(self).wf(),
        ensures
            final(self).wf(),
            (r, final(self)@) == old(self)@.add_memory(start as int, size as int),
            final(self)@ == old(self)@.after(
                PAGE_SIZE as int,
                Request::AddMemory { start: start as int, size: size as int },
            ),
    {
        if size == 0 {
            return Ok(());
        }
        let end: usize = match start.checked_add(size) {
            Some(end) => end,
            None => return Err(AllocError::InvalidParam),
        };
        if !self.is_initialized() {
            self.init(start, size);
            return Ok(());
        }
        if end <= self.start {
            if end == self.start {
                self.start = start;
                self.reset_bytes_if_empty();
                return Ok(());
            }
            return Err(AllocError::InvalidParam);
        }
        if start >= self.end {
            if start == self.end {
                self.end = end;
                if self.p_pos == start {
                    self.p_pos = end;
                }
                return Ok(());
            }
            return Err(AllocError::InvalidParam);
        }
        Err(AllocError::MemoryOverlap)
    }

    /// Whether [`EarlyAllocator::alloc_bytes`] may be called: computing the address
    /// must not overflow, and a block must not start at the null address.
    pub fn can_place(&self, layout: Layout) -> (r: bool)
        requires
            self.wf(),
        ensures
            r == self@.bytes_placeable(layout.spec_size(), layout.spec_align()),
    {
        if layout.size() == 0 {
            return true;
        }
        let align: usize = layout.align();
        if align > usize::MAX - self.b_pos {
            return false;
        }
        proof {
            crate::align::lemma_round_multiple(self.b_pos as int, align as int);
        }
        let start: usize = Self::align_up(self.b_pos, align);
        start != 0 || layout.size() > self.p_pos
    }

    /// Allocates a block of bytes right after the ones in use, if it fits below
    /// the pages in use.
    pub fn alloc_bytes(&mut self, layout: Layout) -> (r: AllocResult<Allocation>)
        requires
            old(self).wf(),
            old(self)@.bytes_placeable(layout.spec_size(), layout.spec_align()),
        ensures
            final(self).wf(),
            layout.spec_size() == 0 ==> {
                &&& r == Ok::<Allocation, AllocError>(Allocation::Dangling)
                &&& final(self)@ == old(self)@
            },
            layout.spec_size() != 0 && !old(self)@.bytes_fit(
                layout.spec_size(),
                layout.spec_align(),
            ) ==> {
                &&& r == Err::<Allocation, AllocError>(AllocError::NoMemory)
                &&& final(self)@ == old(self)@
            },
            layout.spec_size() != 0 && old(self)@.bytes_fit(
                layout.spec_size(),
                layout.spec_align(),
            ) ==> {
                &&& r matches Ok(Allocation::At(a)) && a == old(self)@.byte_block(
                    layout.spec_align(),
                )
                &&& final(self)@ == old(self)@.with_bytes(layout.spec_size(), layout.spec_align())
            },
            final(self)@ == old(self)@.after(
                PAGE_SIZE as int,
                Request::AllocBytes { size: layout.spec_size(), align: layout.spec_align() },
            ),
    {
        if layout.size() == 0 {
            return Ok(Allocation::Dangling);
        }
        proof {
            crate::align::lemma_pow2_positive(layout.spec_align());
            crate::align::lemma_round_multiple(self.b_pos as int, layout.spec_align());
        }
        let start: usize = Self::align_up(self.b_pos, layout.align());
        let end: usize = match start.checked_add(layout.size()) {
            Some(end) => end,
            None => return Err(AllocError::NoMemory),
        };
        if end > self.p_pos {
            return Err(AllocError::NoMemory);
        }
        self.b_pos = end;
        self.count += 1;
        Ok(Allocation::At(start))
    }

    /// Takes back a block of bytes. Only the number of live blocks is kept: the
    /// bytes area is given up as a whole once that is zero.
    pub fn dealloc(&mut self, _pos: Allocation, layout: Layout)
        requires
            old(self).wf(),
        ensures
            final(self).wf(),
            final(self)@ == old(self)@.without_bytes(layout.spec_size()),
            final(self)@ == old(self)@.after(
                PAGE_SIZE as int,
                Request::DeallocBytes { size: layout.spec_size() },
            ),
    {
        if layout.size() == 0 || self.count == 0 {
            return;
        }
        self.count -= 1;
        self.reset_bytes_if_empty();
    }

    /// The size of the managed memory.
    pub fn total_bytes(&self) -> (r: usize)
        requires
            self.wf(),
        ensures
            r == self@.total_bytes(),
    {
        self.end.saturating_sub(self.start)
    }

    /// The size of the bytes area.
    pub fn used_bytes(&self) -> (r: usize)
        requires
            self.wf(),
        ensures
            r == self@.used_bytes(),
    {
        if self.count == 0 {
            0
        } else {
            self.b_pos.saturating_sub(self.start)
        }
    }

    /// The size of the free area.
    pub fn available_bytes(&self) -> (r: usize)
        requires
            self.wf(),
        ensures
            r == self@.available_bytes(),
    {
        self.p_pos.saturating_sub(self.b_pos)
    }

    /// Allocates pages right before the ones in use. The address is rounded down
    /// to `align_pow2` or to the page size, whichever is greater.
    pub fn alloc_pages(&mut self, num_pages: usize, align_pow2: usize) -> (r: AllocResult<usize>)
        requires
            old(self).wf(),
        ensures
            final(self).wf(),
            ({
                let align = page_align(PAGE_SIZE as int, align_pow2 as int);
                let s = old(self)@;
                if num_pages == 0 || !is_pow2(align_pow2 as int) {
                    &&& r == Err::<usize, AllocError>(AllocError::InvalidParam)
                    &&& final(self)@ == s
                } else if !s.pages_fit(PAGE_SIZE as int, num_pages as int, align) {
                    &&& r == Err::<usize, AllocError>(AllocError::NoMemory)
                    &&& final(self)@ == s
                } else {
                    let base = s.page_block(PAGE_SIZE as int, num_pages as int, align);
                    &&& r matches Ok(a) && a == base
                    &&& final(self)@ == (BumpState { p_pos: base, ..s })
                }
            }),
            final(self)@ == old(self)@.after(
                PAGE_SIZE as int,
                Request::AllocPages { num_pages: num_pages as int, align_pow2: align_pow2 as int },
            ),
    {
        if num_pages == 0 || !align_pow2.is_power_of_two() {
            return Err(AllocError::InvalidParam);
        }
        proof {
            crate::align::lemma_pow2_positive(align_pow2 as int);
        }
        let size: usize = match num_pages.checked_mul(PAGE_SIZE) {
            Some(size) => size,
            None => return Err(AllocError::NoMemory),
        };
        let align: usize = if align_pow2 > PAGE_SIZE { align_pow2 } else { PAGE_SIZE };
        let start: usize = match self.p_pos.checked_sub(size) {
            Some(start) => start,
            None => return Err(AllocError::NoMemory),
        };
        let aligned: usize = Self::align_down(start, align);
        if aligned < self.b_pos {
            return Err(AllocError::NoMemory);
        }
        self.p_pos = aligned;
        Ok(aligned)
    }

    /// Pages are never taken back.
    pub fn dealloc_pages(&mut self, _pos: usize, _num_pages: usize)
        ensures
            final(self)@ == old(self)@,
            final(self)@ == old(self)@.after(PAGE_SIZE as int, Request::DeallocPages),
    {
    }

    /// Allocates pages at a given address, which has to be the one right before
    /// the pages in use.
    pub fn alloc_pages_at(&mut self, base: usize, num_pages: usize, align_pow2: usize) -> (r:
        AllocResult<usize>)
        requires
            old(self).wf(),
        ensures
            final(self).wf(),
            ({
                let align = page_align(PAGE_SIZE as int, align_pow2 as int);
                let s = old(self)@;
                let size = num_pages * PAGE_SIZE;
                if num_pages == 0 || !is_pow2(align_pow2 as int) {
                    &&& r == Err::<usize, AllocError>(AllocError::InvalidParam)
                    &&& final(self)@ == s
                } else if size <= usize::MAX && base != crate::align::down(base as int, align) {
                    &&& r == Err::<usize, AllocError>(AllocError::InvalidParam)
                    &&& final(self)@ == s
                } else if base + size != s.p_pos || base < s.b_pos {
                    &&& r == Err::<usize, AllocError>(AllocError::NoMemory)
                    &&& final(self)@ == s
                } else {
                    &&& r == Ok::<usize, AllocError>(base)
                    &&& final(self)@ == (BumpState { p_pos: base as int, ..s })
                }
            }),
            final(self)@ == old(self)@.after(
                PAGE_SIZE as int,
                Request::AllocPagesAt {
                    base: base as int,
                    num_pages: num_pages as int,
                    align_pow2: align_pow2 as int,
                },
            ),
    {
        if num_pages == 0 || !align_pow2.is_power_of_two() {
            return Err(AllocError::InvalidParam);
        }
        proof {
            crate::align::lemma_pow2_positive(align_pow2 as int);
        }
        let size: usize = match num_pages.checked_mul(PAGE_SIZE) {
            Some(size) => size,
            None => return Err(AllocError::NoMemory),
        };
        let align: usize = if align_pow2 > PAGE_SIZE { align_pow2 } else { PAGE_SIZE };
        if base != Self::align_down(base, align) {
            return Err(AllocError::InvalidParam);
        }
        let end: usize = match base.checked_add(size) {
            Some(end) => end,
            None => return Err(AllocError::NoMemory),
        };
        if end != self.p_pos || base < self.b_pos {
            return Err(AllocError::NoMemory);
        }
        self.p_pos = base;
        Ok(base)
    }

    /// The number of whole pages in the managed memory.
    pub fn total_pages(&self) -> (r: usize)
        requires
            self.wf(),
            PAGE_SIZE > 0,
        ensures
            r == self@.total_bytes() / PAGE_SIZE as int,
    {
        self.total_bytes() / PAGE_SIZE
    }

    /// The number of whole pages in the pages area.
    pub fn used_pages(&self) -> (r: usize)
        requires
            self.wf(),
            PAGE_SIZE > 0,
        ensures
            r == self@.page_bytes() / PAGE_SIZE as int,
    {
        self.end.saturating_sub(self.p_pos) / PAGE_SIZE
    }

    /// The number of whole pages in the free area.
    pub fn available_pages(&self) -> (r: usize)
        requires
            self.wf(),
            PAGE_SIZE > 0,
        ensures
            r == self@.available_bytes() / PAGE_SIZE as int,
    {
        self.available_bytes() / PAGE_SIZE
    }
}

} // verus!
