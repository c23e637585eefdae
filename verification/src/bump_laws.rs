//! What the early allocator promises over several calls.

use crate::bump_allocator::{BumpState, Request};
use vstd::arithmetic::power2::*;
use vstd::prelude::*;

verus! {

/// A block of memory: the addresses from `start` up to, but not with, `end`.
pub struct Block {
    pub start: int,
    pub end: int,
}

impl Block {
    /// Whether the block has an address, and all its addresses are in the area.
    pub open spec fn within(self, start: int, end: int) -> bool {
        start <= self.start < self.end <= end
    }

    /// Whether one block ends before the other starts.
    pub open spec fn disjoint(self, other: Block) -> bool {
        self.end <= other.start || other.end <= self.start
    }
}

/// Whether blocks lie in an area and do not overlap.
pub open spec fn packed(blocks: Seq<Block>, start: int, end: int) -> bool {
    &&& forall|i: int| 0 <= i < blocks.len() ==> (#[trigger] blocks[i]).within(start, end)
    &&& forall|i: int, j: int|
        0 <= i < j < blocks.len() ==> (#[trigger] blocks[i]).disjoint(#[trigger] blocks[j])
}

/// Whether these are blocks that the allocator gave out: bytes in the bytes
/// area, pages in the pages area, none of them overlapping another.
pub open spec fn holds(s: BumpState, bytes: Seq<Block>, pages: Seq<Block>) -> bool {
    &&& packed(bytes, s.start, s.b_pos)
    &&& packed(pages, s.p_pos, s.end)
}

/// The block of bytes that an allocation places.
pub open spec fn bytes_block(s: BumpState, size: int, align: int) -> Block {
    Block { start: s.byte_block(align), end: s.byte_block(align) + size }
}

/// The block that an allocation of pages places.
pub open spec fn pages_block(s: BumpState, page_size: int, num_pages: int, align: int) -> Block {
    let base = s.page_block(page_size, num_pages, align);
    Block { start: base, end: base + num_pages * page_size }
}

/// A block of bytes has the alignment asked for, lies in the free area, and
/// the free area no longer holds any of it.
pub proof fn law_bytes_block(s: BumpState, size: int, align: int)
    requires
        s.wf(),
        is_pow2(align),
        size > 0,
        s.bytes_fit(size, align),
    ensures
        s.with_bytes(size, align).wf(),
        bytes_block(s, size, align).start % align == 0,
        bytes_block(s, size, align).within(s.b_pos, s.p_pos),
        bytes_block(s, size, align).end == s.with_bytes(size, align).b_pos,
{
    crate::align::lemma_round_multiple(s.b_pos, align);
}

/// A block of bytes starts less than one alignment after the bytes in use:
/// nothing more is wasted.
pub proof fn law_bytes_tight(s: BumpState, align: int)
    requires
        s.wf(),
        is_pow2(align),
    ensures
        s.b_pos <= s.byte_block(align) < s.b_pos + align,
{
    crate::align::lemma_round_multiple(s.b_pos, align);
}

/// A block of pages lies in the free area, and the free area no longer holds
/// any of it. Its address is a multiple of the alignment and of the page size,
/// where that is a power of two. For another page size, it is a multiple of an
/// alignment that is greater than a page.
pub proof fn law_pages_block(s: BumpState, page_size: int, num_pages: int, align_pow2: int)
    requires
        s.wf(),
        page_size > 0,
        is_pow2(align_pow2),
        num_pages > 0,
        s.pages_fit(
            page_size,
            num_pages,
            crate::bump_allocator::page_align(page_size, align_pow2),
        ),
    ensures
        ({
            let align = crate::bump_allocator::page_align(page_size, align_pow2);
            let block = pages_block(s, page_size, num_pages, align);
            &&& block.within(s.b_pos, s.p_pos)
            &&& (BumpState { p_pos: block.start, ..s }).wf()
            &&& is_pow2(page_size) || align_pow2 > page_size ==> block.start % align_pow2 == 0
            &&& is_pow2(page_size) ==> block.start % page_size == 0
        }),
{
    let align = crate::bump_allocator::page_align(page_size, align_pow2);
    let base = s.page_block(page_size, num_pages, align);
    assert(num_pages * page_size >= page_size) by (nonlinear_arith)
        requires
            num_pages > 0,
            page_size > 0,
    ;
    let pos = s.p_pos - num_pages * page_size;
    crate::align::lemma_down_bounds(pos, align);
    if is_pow2(align) {
        crate::align::lemma_round_multiple(pos, align);
    }
    if is_pow2(page_size) {
        if align_pow2 > page_size {
            crate::align::lemma_pow2_divides(page_size, align_pow2);
            crate::align::lemma_multiple_of_multiple(base, align_pow2, page_size);
        } else {
            crate::align::lemma_pow2_divides(align_pow2, page_size);
            crate::align::lemma_multiple_of_multiple(base, page_size, align_pow2);
        }
    }
}

/// Pages that are granted at a chosen address are the ones that would be
/// granted without choosing.
pub proof fn law_pages_at(
    s: BumpState,
    page_size: int,
    num_pages: int,
    align_pow2: int,
    base: int,
)
    requires
        s.wf(),
        ({
            let align = crate::bump_allocator::page_align(page_size, align_pow2);
            base == crate::align::down(base, align)
        }),
        base + num_pages * page_size == s.p_pos,
        s.b_pos <= base,
    ensures
        ({
            let align = crate::bump_allocator::page_align(page_size, align_pow2);
            &&& s.pages_fit(page_size, num_pages, align)
            &&& s.page_block(page_size, num_pages, align) == base
        }),
{
}

/// Allocating bytes keeps every block that was given out apart from the new
/// one and from all others.
pub proof fn law_alloc_bytes_disjoint(
    s: BumpState,
    bytes: Seq<Block>,
    pages: Seq<Block>,
    size: int,
    align: int,
)
    requires
        s.wf(),
        is_pow2(align),
        size > 0,
        s.bytes_fit(size, align),
        holds(s, bytes, pages),
    ensures
        holds(s.with_bytes(size, align), bytes.push(bytes_block(s, size, align)), pages),
{
    law_bytes_block(s, size, align);
}

/// Allocating pages keeps every block that was given out apart from the new
/// one and from all others.
pub proof fn law_alloc_pages_disjoint(
    s: BumpState,
    bytes: Seq<Block>,
    pages: Seq<Block>,
    page_size: int,
    num_pages: int,
    align_pow2: int,
)
    requires
        s.wf(),
        page_size > 0,
        is_pow2(align_pow2),
        num_pages > 0,
        s.pages_fit(
            page_size,
            num_pages,
            crate::bump_allocator::page_align(page_size, align_pow2),
        ),
        holds(s, bytes, pages),
    ensures
        ({
            let align = crate::bump_allocator::page_align(page_size, align_pow2);
            let block = pages_block(s, page_size, num_pages, align);
            holds(BumpState { p_pos: block.start, ..s }, bytes, pages.push(block))
        }),
{
    law_pages_block(s, page_size, num_pages, align_pow2);
}

/// No block of bytes overlaps a block of pages.
pub proof fn law_bytes_and_pages_disjoint(
    s: BumpState,
    bytes: Seq<Block>,
    pages: Seq<Block>,
    i: int,
    j: int,
)
    requires
        s.wf(),
        holds(s, bytes, pages),
        0 <= i < bytes.len(),
        0 <= j < pages.len(),
    ensures
        bytes[i].disjoint(pages[j]),
{
}

/// Taking back one of several blocks of bytes leaves all blocks in place. Taking
/// back the only one gives the whole bytes area up and leaves the pages.
pub proof fn law_dealloc(s: BumpState, bytes: Seq<Block>, pages: Seq<Block>, size: int)
    requires
        s.wf(),
        size > 0,
        holds(s, bytes, pages),
    ensures
        s.without_bytes(size).wf(),
        s.count > 1 ==> holds(s.without_bytes(size), bytes, pages),
        s.count == 1 ==> {
            &&& holds(s.without_bytes(size), Seq::empty(), pages)
            &&& s.without_bytes(size).b_pos == s.start
            &&& s.without_bytes(size).p_pos == s.p_pos
        },
{
}

impl BumpState {
    /// The state after several requests.
    pub open spec fn after_all(self, page_size: int, requests: Seq<Request>) -> BumpState
        decreases requests.len(),
    {
        if requests.len() == 0 {
            self
        } else {
            self.after(page_size, requests[0]).after_all(page_size, requests.drop_first())
        }
    }

    /// How many blocks of bytes the requests were granted, less those that they
    /// took back.
    pub open spec fn granted(self, page_size: int, requests: Seq<Request>) -> int
        decreases requests.len(),
    {
        if requests.len() == 0 {
            0
        } else {
            (match requests[0] {
                Request::AllocBytes { size, align } => if size != 0 && self.bytes_fit(
                    size,
                    align,
                ) {
                    1int
                } else {
                    0
                },
                Request::DeallocBytes { size } => if size != 0 {
                    -1
                } else {
                    0
                },
                _ => 0,
            }) + self.after(page_size, requests[0]).granted(page_size, requests.drop_first())
        }
    }

    /// Whether the requests never take back more blocks of bytes than are live.
    pub open spec fn only_live_freed(self, page_size: int, requests: Seq<Request>) -> bool
        decreases requests.len(),
    {
        requests.len() == 0 || {
            &&& match requests[0] {
                Request::DeallocBytes { size } => size == 0 || self.count > 0,
                _ => true,
            }
            &&& self.after(page_size, requests[0]).only_live_freed(
                page_size,
                requests.drop_first(),
            )
        }
    }
}

/// The invariant holds after any requests in any order, for pages of any size.
/// Pages stay in use, and memory that was given to the allocator stays with it.
pub proof fn law_requests(s: BumpState, page_size: int, requests: Seq<Request>)
    requires
        s.wf(),
        0 <= page_size <= usize::MAX,
        forall|i: int| 0 <= i < requests.len() ==> (#[trigger] requests[i]).valid(),
    ensures
        s.after_all(page_size, requests).wf(),
        s.after_all(page_size, requests).page_bytes() >= s.page_bytes(),
        s.after_all(page_size, requests).total_bytes() >= s.total_bytes(),
    decreases requests.len(),
{
    if requests.len() > 0 {
        lemma_request(s, page_size, requests[0]);
        law_requests(s.after(page_size, requests[0]), page_size, requests.drop_first());
    }
}

proof fn lemma_request(s: BumpState, page_size: int, request: Request)
    requires
        s.wf(),
        0 <= page_size <= usize::MAX,
        request.valid(),
    ensures
        s.after(page_size, request).wf(),
        s.after(page_size, request).page_bytes() >= s.page_bytes(),
        s.after(page_size, request).total_bytes() >= s.total_bytes(),
        !(request is AddMemory) ==> {
            &&& s.after(page_size, request).start == s.start
            &&& s.after(page_size, request).end == s.end
        },
{
    match request {
        Request::AllocBytes { size, align } => {
            if size != 0 && s.bytes_fit(size, align) {
                law_bytes_block(s, size, align);
            }
        },
        Request::AllocPages { num_pages, align_pow2 } => {
            let align = crate::bump_allocator::page_align(page_size, align_pow2);
            if num_pages != 0 && is_pow2(align_pow2) && s.pages_fit(page_size, num_pages, align) {
                crate::align::lemma_pow2_positive(align_pow2);
                assert(num_pages * page_size >= 0) by (nonlinear_arith)
                    requires
                        num_pages >= 0,
                        page_size >= 0,
                ;
                crate::align::lemma_down_bounds(s.p_pos - num_pages * page_size, align);
            }
        },
        Request::AllocPagesAt { base, num_pages, align_pow2 } => {
            assert(num_pages * page_size >= 0) by (nonlinear_arith)
                requires
                    num_pages >= 0,
                    page_size >= 0,
            ;
        },
        _ => {},
    }
}

impl BumpState {
    /// The blocks of bytes after a request, out of those before. A granted block
    /// joins them. Once the bytes area is given up there are none.
    pub open spec fn bytes_after(self, bytes: Seq<Block>, request: Request) -> Seq<Block> {
        match request {
            Request::AllocBytes { size, align } => if size != 0 && self.bytes_fit(size, align) {
                bytes.push(bytes_block(self, size, align))
            } else {
                bytes
            },
            Request::DeallocBytes { size } => if size != 0 && self.count == 1 {
                Seq::empty()
            } else {
                bytes
            },
            _ => bytes,
        }
    }

    /// The blocks of pages after a request, out of those before. A granted block
    /// joins them, unless it has no address.
    pub open spec fn pages_after(
        self,
        pages: Seq<Block>,
        page_size: int,
        request: Request,
    ) -> Seq<Block> {
        match request {
            Request::AllocPages { num_pages, align_pow2 } => {
                let align = crate::bump_allocator::page_align(page_size, align_pow2);
                if page_size != 0 && num_pages != 0 && is_pow2(align_pow2) && self.pages_fit(
                    page_size,
                    num_pages,
                    align,
                ) {
                    pages.push(pages_block(self, page_size, num_pages, align))
                } else {
                    pages
                }
            },
            Request::AllocPagesAt { base, num_pages, align_pow2 } => {
                let align = crate::bump_allocator::page_align(page_size, align_pow2);
                if page_size != 0 && num_pages != 0 && is_pow2(align_pow2) && base
                    == crate::align::down(base, align) && base + num_pages * page_size
                    == self.p_pos && self.b_pos <= base {
                    pages.push(Block { start: base, end: base + num_pages * page_size })
                } else {
                    pages
                }
            },
            _ => pages,
        }
    }

    /// The blocks of bytes after several requests.
    pub open spec fn bytes_after_all(
        self,
        bytes: Seq<Block>,
        page_size: int,
        requests: Seq<Request>,
    ) -> Seq<Block>
        decreases requests.len(),
    {
        if requests.len() == 0 {
            bytes
        } else {
            self.after(page_size, requests[0]).bytes_after_all(
                self.bytes_after(bytes, requests[0]),
                page_size,
                requests.drop_first(),
            )
        }
    }

    /// The blocks of pages after several requests.
    pub open spec fn pages_after_all(
        self,
        pages: Seq<Block>,
        page_size: int,
        requests: Seq<Request>,
    ) -> Seq<Block>
        decreases requests.len(),
    {
        if requests.len() == 0 {
            pages
        } else {
            self.after(page_size, requests[0]).pages_after_all(
                self.pages_after(pages, page_size, requests[0]),
                page_size,
                requests.drop_first(),
            )
        }
    }
}

/// Whether blocks lie one after another, each above the ones before.
pub open spec fn ascending(blocks: Seq<Block>) -> bool {
    forall|i: int, j: int|
        0 <= i < j < blocks.len() ==> (#[trigger] blocks[i]).end <= (#[trigger] blocks[j]).start
}

/// Whether blocks lie one after another, each below the ones before.
pub open spec fn descending(blocks: Seq<Block>) -> bool {
    forall|i: int, j: int|
        0 <= i < j < blocks.len() ==> (#[trigger] blocks[j]).end <= (#[trigger] blocks[i]).start
}

/// What the allocator hands out never overlaps, over any requests in any order:
/// no two blocks of bytes since the bytes area was last empty, no two blocks of
/// pages, and no block of bytes and block of pages. Bytes go upward, pages go
/// downward, and all bytes lie below all pages.
pub proof fn law_never_overlap(
    s: BumpState,
    bytes: Seq<Block>,
    pages: Seq<Block>,
    page_size: int,
    requests: Seq<Request>,
)
    requires
        s.wf(),
        0 <= page_size <= usize::MAX,
        forall|i: int| 0 <= i < requests.len() ==> (#[trigger] requests[i]).valid(),
        holds(s, bytes, pages),
        ascending(bytes),
        descending(pages),
    ensures
        ({
            let t = s.after_all(page_size, requests);
            let b = s.bytes_after_all(bytes, page_size, requests);
            let p = s.pages_after_all(pages, page_size, requests);
            &&& holds(t, b, p)
            &&& ascending(b)
            &&& descending(p)
            &&& forall|i: int, j: int|
                0 <= i < b.len() && 0 <= j < p.len() ==> (#[trigger] b[i]).end <= (
                #[trigger] p[j]).start
        }),
    decreases requests.len(),
{
    if requests.len() > 0 {
        let rest = requests.drop_first();
        lemma_request(s, page_size, requests[0]);
        lemma_request_blocks(s, bytes, pages, page_size, requests[0]);
        law_never_overlap(
            s.after(page_size, requests[0]),
            s.bytes_after(bytes, requests[0]),
            s.pages_after(pages, page_size, requests[0]),
            page_size,
            rest,
        );
    }
}

proof fn lemma_request_blocks(
    s: BumpState,
    bytes: Seq<Block>,
    pages: Seq<Block>,
    page_size: int,
    request: Request,
)
    requires
        s.wf(),
        0 <= page_size <= usize::MAX,
        request.valid(),
        holds(s, bytes, pages),
        ascending(bytes),
        descending(pages),
    ensures
        holds(
            s.after(page_size, request),
            s.bytes_after(bytes, request),
            s.pages_after(pages, page_size, request),
        ),
        ascending(s.bytes_after(bytes, request)),
        descending(s.pages_after(pages, page_size, request)),
{
    match request {
        Request::AllocBytes { size, align } => {
            if size != 0 && s.bytes_fit(size, align) {
                law_bytes_block(s, size, align);
            }
        },
        Request::AllocPages { num_pages, align_pow2 } => {
            let align = crate::bump_allocator::page_align(page_size, align_pow2);
            if num_pages != 0 && is_pow2(align_pow2) && s.pages_fit(page_size, num_pages, align) {
                if page_size != 0 {
                    law_pages_block(s, page_size, num_pages, align_pow2);
                } else {
                    crate::align::lemma_pow2_positive(align_pow2);
                    crate::align::lemma_down_bounds(s.p_pos, align);
                }
            }
        },
        Request::AllocPagesAt { base, num_pages, align_pow2 } => {
            assert(num_pages * page_size >= 0) by (nonlinear_arith)
                requires
                    num_pages >= 0,
                    page_size >= 0,
            ;
            if page_size != 0 && num_pages != 0 {
                assert(num_pages * page_size > 0) by (nonlinear_arith)
                    requires
                        num_pages > 0,
                        page_size > 0,
                ;
            }
        },
        Request::AddMemory { start, size } => {
            if s.initialized() && size > 0 {
                law_add_memory(s, bytes, pages, start, size);
            } else {
                assert(!s.initialized() ==> bytes.len() == 0 && pages.len() == 0) by {
                    if bytes.len() > 0 {
                        assert(bytes[0].within(s.start, s.b_pos));
                    }
                    if pages.len() > 0 {
                        assert(pages[0].within(s.p_pos, s.end));
                    }
                }
            }
        },
        _ => {},
    }
}

/// Once as many blocks of bytes were taken back as were granted, the bytes area
/// is free again, whatever the order, and whatever requests for pages and memory
/// came in between. Without new memory, only the pages area has changed.
pub proof fn law_bytes_freed(s: BumpState, page_size: int, requests: Seq<Request>)
    requires
        s.wf(),
        s.count == 0,
        0 <= page_size <= usize::MAX,
        forall|i: int| 0 <= i < requests.len() ==> (#[trigger] requests[i]).valid(),
        s.only_live_freed(page_size, requests),
        s.granted(page_size, requests) == 0,
    ensures
        ({
            let t = s.after_all(page_size, requests);
            &&& t.count == 0
            &&& t.used_bytes() == 0
            &&& t.available_bytes() == t.total_bytes() - t.page_bytes()
            &&& (forall|i: int|
                0 <= i < requests.len() ==> !((#[trigger] requests[i]) is AddMemory)) ==> t == (
            BumpState { p_pos: t.p_pos, ..s })
        }),
{
    law_requests(s, page_size, requests);
    lemma_count(s, page_size, requests);
}

proof fn lemma_count(s: BumpState, page_size: int, requests: Seq<Request>)
    requires
        s.wf(),
        0 <= page_size <= usize::MAX,
        forall|i: int| 0 <= i < requests.len() ==> (#[trigger] requests[i]).valid(),
        s.only_live_freed(page_size, requests),
    ensures
        s.after_all(page_size, requests).count == s.count + s.granted(page_size, requests),
        (forall|i: int| 0 <= i < requests.len() ==> !((#[trigger] requests[i]) is AddMemory))
            ==> {
            &&& s.after_all(page_size, requests).start == s.start
            &&& s.after_all(page_size, requests).end == s.end
        },
    decreases requests.len(),
{
    if requests.len() > 0 {
        let rest = requests.drop_first();
        lemma_request(s, page_size, requests[0]);
        assert(forall|i: int| 0 <= i < rest.len() ==> #[trigger] rest[i] == requests[i + 1]);
        lemma_count(s.after(page_size, requests[0]), page_size, rest);
    }
}

/// The bytes in use, the free area and the pages in use make up the memory.
pub proof fn law_areas_partition(s: BumpState)
    requires
        s.wf(),
    ensures
        0 <= s.used_bytes(),
        0 <= s.available_bytes(),
        0 <= s.page_bytes(),
        s.used_bytes() + s.available_bytes() + s.page_bytes() == s.total_bytes(),
{
}

/// Counted in whole pages, what is in use and what is available never exceed
/// the memory.
pub proof fn law_page_counts(s: BumpState, page_size: int)
    requires
        s.wf(),
        page_size > 0,
    ensures
        s.page_bytes() / page_size + s.available_bytes() / page_size <= s.total_bytes()
            / page_size,
{
    let a = s.page_bytes();
    let b = s.available_bytes();
    let c = s.used_bytes();
    assert(a / page_size + b / page_size <= (a + b + c) / page_size) by (nonlinear_arith)
        requires
            page_size > 0,
            a >= 0,
            b >= 0,
            c >= 0,
    ;
}

/// Memory that is added to an allocator in use never moves what was given out:
/// the free area only grows, by nothing but the new memory.
pub proof fn law_add_memory(
    s: BumpState,
    bytes: Seq<Block>,
    pages: Seq<Block>,
    start: int,
    size: int,
)
    requires
        s.wf(),
        s.initialized(),
        0 <= start,
        0 < size,
        holds(s, bytes, pages),
    ensures
        ({
            let t = s.add_memory(start, size).1;
            &&& t.wf()
            &&& holds(t, bytes, pages)
            &&& t.b_pos <= s.b_pos && s.p_pos <= t.p_pos
            &&& t.b_pos < s.b_pos ==> t.b_pos == start && s.b_pos == start + size
            &&& s.p_pos < t.p_pos ==> s.p_pos == start && t.p_pos == start + size
            &&& s.add_memory(start, size).0 is Err ==> t == s
            &&& s.add_memory(start, size).0 is Ok ==> t.end - t.start == s.end - s.start + size
        }),
{
}

/// Memory is refused as overlapping exactly if it shares an address with the
/// managed memory.
pub proof fn law_add_memory_overlap(s: BumpState, start: int, size: int)
    requires
        s.wf(),
        s.initialized(),
        0 <= start,
        0 < size,
        start + size <= usize::MAX,
    ensures
        s.add_memory(start, size).0 == Err::<(), crate::bump_allocator::AllocError>(
            crate::bump_allocator::AllocError::MemoryOverlap,
        ) <==> !(Block { start, end: start + size }).disjoint(
            Block { start: s.start, end: s.end },
        ),
{
}

/// Pages are never given back: what happens to the bytes area leaves the pages
/// area alone, and a request for pages only adds to it.
pub proof fn law_pages_kept(
    s: BumpState,
    size: int,
    align: int,
    page_size: int,
    num_pages: int,
    align_pow2: int,
)
    requires
        s.wf(),
        page_size > 0,
        num_pages > 0,
        is_pow2(align_pow2),
    ensures
        s.with_bytes(size, align).p_pos == s.p_pos,
        s.with_bytes(size, align).end == s.end,
        s.without_bytes(size).p_pos == s.p_pos,
        s.without_bytes(size).end == s.end,
        ({
            let page_align = crate::bump_allocator::page_align(page_size, align_pow2);
            s.pages_fit(page_size, num_pages, page_align) ==> s.page_block(
                page_size,
                num_pages,
                page_align,
            ) < s.p_pos
        }),
{
    if s.pages_fit(
        page_size,
        num_pages,
        crate::bump_allocator::page_align(page_size, align_pow2),
    ) {
        law_pages_block(s, page_size, num_pages, align_pow2);
    }
}

/// A fresh allocator has all of its memory free: no bytes at the low end, no
/// pages at the high end.
pub proof fn law_fresh(start: int, size: int)
    ensures
        ({
            let s = BumpState::initial(start, size);
            &&& s.start == start
            &&& s.end == start + size
            &&& s.b_pos == start
            &&& s.p_pos == start + size
            &&& s.count == 0
            &&& s.initialized() <==> size > 0
        }),
{
}

/// What is reported of the memory: its size, and the sizes of the areas between
/// the start, the end of the bytes, the first page and the end.
pub proof fn law_amounts(s: BumpState)
    ensures
        s.total_bytes() == s.end - s.start,
        s.used_bytes() == s.b_pos - s.start,
        s.available_bytes() == s.p_pos - s.b_pos,
        s.page_bytes() == s.end - s.p_pos,
        s.initialized() <==> s.start < s.end,
{
}

/// A request for bytes is granted whenever there is room for it: an address `a`
/// of the right alignment, from which on the bytes lie between those in use and
/// the pages in use. The block is placed at the lowest such address, the bytes in
/// use reach to its end, and nothing else changes but the number of blocks.
pub proof fn law_bytes_granted(s: BumpState, page_size: int, size: int, align: int, a: int)
    requires
        s.wf(),
        is_pow2(align),
        size > 0,
        a % align == 0,
        s.b_pos <= a,
        a + size <= s.p_pos,
    ensures
        s.bytes_fit(size, align),
        s.b_pos <= s.byte_block(align) <= a,
        s.byte_block(align) % align == 0,
        s.after(page_size, Request::AllocBytes { size, align }) == (BumpState {
            start: s.start,
            end: s.end,
            b_pos: s.byte_block(align) + size,
            p_pos: s.p_pos,
            count: s.count + 1,
        }),
{
    crate::align::lemma_round_multiple(s.b_pos, align);
    if a < s.byte_block(align) {
        crate::align::lemma_multiples_apart(a, s.byte_block(align), align);
    }
}

/// A request for bytes is refused only if there is no room for it at any address,
/// and then nothing changes. A request for no bytes changes nothing either.
pub proof fn law_bytes_refused(s: BumpState, page_size: int, size: int, align: int)
    requires
        s.wf(),
        is_pow2(align),
        size >= 0,
        size == 0 || !s.bytes_fit(size, align),
    ensures
        s.after(page_size, Request::AllocBytes { size, align }) == s,
        size > 0 ==> forall|a: int|
            #![trigger a % align]
            a % align == 0 && s.b_pos <= a ==> s.p_pos < a + size,
{
    if size > 0 {
        assert forall|a: int|
            #![trigger a % align]
            a % align == 0 && s.b_pos <= a implies s.p_pos < a + size by {
            if a + size <= s.p_pos {
                law_bytes_granted(s, page_size, size, align, a);
            }
        }
    }
}

/// A block of bytes has a place that can be computed, unless the alignment takes
/// the end of the bytes in use out of the range of addresses, or the block would
/// begin at the null address.
pub proof fn law_bytes_placeable(s: BumpState, size: int, align: int)
    requires
        s.wf(),
        is_pow2(align),
        size >= 0,
    ensures
        size == 0 ==> s.bytes_placeable(size, align),
        size > 0 && s.b_pos + align > usize::MAX ==> !s.bytes_placeable(size, align),
        size > 0 && s.b_pos + align <= usize::MAX && s.b_pos > 0 ==> s.bytes_placeable(size, align),
        size > 0 && align <= usize::MAX && s.b_pos == 0 ==> (s.bytes_placeable(size, align)
            <==> size > s.p_pos),
{
    crate::align::lemma_round_multiple(s.b_pos, align);
    vstd::arithmetic::div_mod::lemma_small_mod(0, align as nat);
}

/// Taking back a block of bytes lowers the number of live blocks by one, if there
/// is any. With the last one the bytes area becomes empty. Nothing else changes.
pub proof fn law_bytes_taken_back(s: BumpState, page_size: int, size: int)
    requires
        s.wf(),
        size > 0,
    ensures
        s.after(page_size, Request::DeallocBytes { size: 0 }) == s,
        s.after(page_size, Request::DeallocBytes { size }) == s.without_bytes(size),
        s.without_bytes(0) == s,
        s.without_bytes(size) == (BumpState {
            start: s.start,
            end: s.end,
            b_pos: if s.count <= 1 {
                s.start
            } else {
                s.b_pos
            },
            p_pos: s.p_pos,
            count: if s.count == 0 {
                0
            } else {
                s.count - 1
            },
        }),
{
}

/// Pages of a power of two are granted whenever there is room for them: an
/// address `a` that is a multiple of the page size and of the alignment, from
/// which on they lie between the bytes and the pages in use. They are placed at
/// the highest such address, which becomes the first page in use.
pub proof fn law_pages_granted(
    s: BumpState,
    page_size: int,
    num_pages: int,
    align_pow2: int,
    a: int,
)
    requires
        s.wf(),
        is_pow2(page_size),
        is_pow2(align_pow2),
        num_pages > 0,
        a % page_size == 0,
        a % align_pow2 == 0,
        s.b_pos <= a,
        a + num_pages * page_size <= s.p_pos,
    ensures
        ({
            let align = crate::bump_allocator::page_align(page_size, align_pow2);
            let base = s.page_block(page_size, num_pages, align);
            &&& s.pages_fit(page_size, num_pages, align)
            &&& a <= base
            &&& base + num_pages * page_size <= s.p_pos
            &&& base % page_size == 0
            &&& base % align_pow2 == 0
            &&& s.after(page_size, Request::AllocPages { num_pages, align_pow2 }) == (BumpState {
                start: s.start,
                end: s.end,
                b_pos: s.b_pos,
                p_pos: base,
                count: s.count,
            })
        }),
{
    let align = crate::bump_allocator::page_align(page_size, align_pow2);
    let base = s.page_block(page_size, num_pages, align);
    crate::align::lemma_pow2_positive(page_size);
    assert(num_pages * page_size >= 0) by (nonlinear_arith)
        requires
            num_pages > 0,
            page_size > 0,
    ;
    crate::align::lemma_round_multiple(s.p_pos - num_pages * page_size, align);
    if base < a {
        crate::align::lemma_multiples_apart(base, a, align);
    }
    law_pages_block(s, page_size, num_pages, align_pow2);
}

/// Where pages of any size are placed: as far below the pages in use as they
/// need, with the bits below the greater of the alignment and the page size taken
/// away. They are granted exactly if that is not among the bytes in use.
pub proof fn law_pages_place(s: BumpState, page_size: usize, num_pages: int, align_pow2: usize)
    requires
        s.wf(),
        is_pow2(align_pow2 as int),
        num_pages > 0,
    ensures
        ({
            let align = if align_pow2 > page_size {
                align_pow2
            } else {
                page_size
            };
            let end = s.p_pos - num_pages * page_size;
            let base = end - (end as usize & ((align - 1) as usize));
            &&& crate::bump_allocator::page_align(page_size as int, align_pow2 as int) == align
            &&& s.pages_fit(page_size as int, num_pages, align as int) <==> 0 <= end && s.b_pos
                <= base
            &&& 0 <= end ==> s.page_block(page_size as int, num_pages, align as int) == base
        }),
{
    crate::align::lemma_pow2_positive(align_pow2 as int);
    assert(num_pages * page_size >= 0) by (nonlinear_arith)
        requires
            num_pages > 0,
            page_size >= 0,
    ;
    let align = if align_pow2 > page_size {
        align_pow2
    } else {
        page_size
    };
    let end = s.p_pos - num_pages * page_size;
    if 0 <= end {
        crate::align::law_rounding(end as usize, align);
    }
}

/// Pages at a chosen address are granted exactly if they end where the pages in
/// use begin, do not reach into the bytes in use, and have no bits below the
/// greater of the alignment and the page size. That address becomes the first
/// page in use. Otherwise nothing changes, as with pages that are given back.
pub proof fn law_pages_chosen(
    s: BumpState,
    page_size: usize,
    base: usize,
    num_pages: int,
    align_pow2: usize,
)
    requires
        s.wf(),
        is_pow2(align_pow2 as int),
        num_pages > 0,
    ensures
        ({
            let align = if align_pow2 > page_size {
                align_pow2
            } else {
                page_size
            };
            let t = s.after(
                page_size as int,
                Request::AllocPagesAt {
                    base: base as int,
                    num_pages,
                    align_pow2: align_pow2 as int,
                },
            );
            if base & ((align - 1) as usize) == 0 && base + num_pages * page_size == s.p_pos
                && s.b_pos <= base {
                t == (BumpState {
                    start: s.start,
                    end: s.end,
                    b_pos: s.b_pos,
                    p_pos: base as int,
                    count: s.count,
                })
            } else {
                t == s
            }
        }),
        s.after(page_size as int, Request::DeallocPages) == s,
{
    crate::align::lemma_pow2_positive(align_pow2 as int);
    let align = if align_pow2 > page_size {
        align_pow2
    } else {
        page_size
    };
    crate::align::law_rounding(base, align);
}

/// Adding no memory does nothing, and memory that reaches beyond the range of
/// addresses is refused. An allocator without memory starts over with the new
/// one. Memory right below extends the bytes end, and memory right above extends
/// the pages end, without moving what is in use. Memory apart from the managed
/// one is refused, and so is memory that overlaps it.
pub proof fn law_memory_added(s: BumpState, start: int, size: int)
    requires
        s.wf(),
        0 <= start,
        0 <= size,
    ensures
        ({
            let (answer, t) = s.add_memory(start, size);
            let end = start + size;
            &&& size == 0 ==> answer is Ok && t == s
            &&& size > 0 && end > usize::MAX ==> answer == Err::<
                (),
                crate::bump_allocator::AllocError,
            >(crate::bump_allocator::AllocError::InvalidParam) && t == s
            &&& size > 0 && end <= usize::MAX && s.start == s.end ==> answer is Ok && t == (
            BumpState { start, end, b_pos: start, p_pos: end, count: 0 })
            &&& size > 0 && s.start < s.end && end == s.start ==> answer is Ok && t == (BumpState {
                start,
                end: s.end,
                b_pos: if s.b_pos == s.start {
                    start
                } else {
                    s.b_pos
                },
                p_pos: s.p_pos,
                count: s.count,
            })
            &&& size > 0 && end <= usize::MAX && s.start < s.end == start ==> answer is Ok && t == (
            BumpState {
                start: s.start,
                end,
                b_pos: s.b_pos,
                p_pos: if s.p_pos == s.end {
                    end
                } else {
                    s.p_pos
                },
                count: s.count,
            })
            &&& size > 0 && end <= usize::MAX && s.start < s.end && (end < s.start || s.end < start)
                ==> answer == Err::<(), crate::bump_allocator::AllocError>(
                crate::bump_allocator::AllocError::InvalidParam,
            ) && t == s
            &&& size > 0 && end <= usize::MAX && s.start < s.end && start < s.end && s.start < end
                ==> answer == Err::<(), crate::bump_allocator::AllocError>(
                crate::bump_allocator::AllocError::MemoryOverlap,
            ) && t == s
        }),
{
}

/// A layout has a power of two as its alignment, and its size does not exceed
/// `isize::MAX` when it is rounded up to that.
pub proof fn law_layout(size: int, align: int)
    ensures
        crate::bump_allocator::Layout::valid(size, align) <==> is_pow2(align) && size <= isize::MAX
            + 1 - align,
{
}

} // verus!
