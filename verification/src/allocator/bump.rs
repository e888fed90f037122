//! A bump allocator with a count of live blocks.
//!
//! Blocks are carved off the heap region front to back. A freed block is
//! won back when the last live block is freed: the whole region is then free
//! again.

use vstd::prelude::*;

verus! {

/// A block handed out by the allocator.
#[derive(Debug, Clone, Copy, PartialEq, Eq, Structural)]
pub struct Block {
    /// Address of the first byte.
    pub start: u64,
    /// Number of bytes.
    pub size: u64,
    /// Alignment that was asked for.
    pub align: u64,
}

/// What the allocator knows: the heap region `start..end`, the first address
/// not yet handed out, and the blocks that are live.
pub struct HeapState {
    pub start: u64,
    pub end: u64,
    pub next: u64,
    pub live: Seq<Block>,
}

/// Two blocks share no byte.
pub open spec fn blocks_disjoint(a: Block, b: Block) -> bool {
    a.start + a.size <= b.start || b.start + b.size <= a.start
}

/// The block starts at a multiple of its alignment.
pub open spec fn block_aligned(b: Block) -> bool {
    b.align > 0 && b.start % b.align == 0
}

/// The invariant of the heap: every live block is aligned as asked, lies in
/// the used part of the region and overlaps no other live block; with no
/// live block the whole region is free, and a heap without a region has no
/// live block.
pub open spec fn heap_wf(s: HeapState) -> bool {
    &&& s.start <= s.next <= s.end
    &&& s.live.len() == 0 ==> s.next == s.start
    &&& !heap_ready(s) ==> s.live.len() == 0
    &&& forall|i: int|
        0 <= i < s.live.len() ==> block_aligned(#[trigger] s.live[i]) && s.start
            <= s.live[i].start && s.live[i].start + s.live[i].size <= s.next
    &&& forall|i: int, j: int|
        0 <= i < j < s.live.len() ==> blocks_disjoint(#[trigger] s.live[i], #[trigger] s.live[j])
}

/// The heap has been given a region that is not empty.
pub open spec fn heap_ready(s: HeapState) -> bool {
    s.start < s.end
}

/// `addr` rounded up to the next multiple of `align`.
pub open spec fn align_up(addr: int, align: int) -> int {
    if addr % align == 0 {
        addr
    } else {
        addr - addr % align + align
    }
}

/// A block of this size and alignment fits into what is left of the region,
/// and the count of live blocks has room for one more.
pub open spec fn can_allocate(s: HeapState, size: u64, align: u64) -> bool {
    &&& heap_ready(s)
    &&& s.live.len() < u64::MAX
    &&& align_up(s.next as int, align as int) + size <= s.end
}

/// The heap after a block of this size and alignment has been carved off.
pub open spec fn after_allocate(s: HeapState, size: u64, align: u64) -> HeapState {
    let start = align_up(s.next as int, align as int) as u64;
    HeapState {
        start: s.start,
        end: s.end,
        next: (start + size) as u64,
        live: s.live.push(Block { start, size, align }),
    }
}

/// The heap after live block `i` has been freed.
pub open spec fn after_deallocate(s: HeapState, i: int) -> HeapState {
    HeapState {
        start: s.start,
        end: s.end,
        next: if s.live.len() == 1 {
            s.start
        } else {
            s.next
        },
        live: s.live.remove(i),
    }
}

proof fn lemma_align_up(addr: int, align: int)
    requires
        0 <= addr,
        0 < align,
    ensures
        addr <= align_up(addr, align) < addr + align,
        align_up(addr, align) % align == 0,
{
    if addr % align != 0 {
        let r = addr % align;
        let q = addr / align;
        assert(addr == q * align + r) by (nonlinear_arith)
            requires
                q == addr / align,
                r == addr % align,
                align > 0,
        ;
        assert(addr - r + align == (q + 1) * align) by (nonlinear_arith)
            requires
                addr == q * align + r,
        ;
        assert(((q + 1) * align) % align == 0) by (nonlinear_arith)
            requires
                align > 0,
        ;
    }
}

/// Heap allocation correctness, first half: carving off a block keeps the
/// invariant, so the new block is aligned as asked and overlaps no block
/// that is live.
pub proof fn lemma_allocate_keeps_heap_wf(s: HeapState, size: u64, align: u64)
    requires
        heap_wf(s),
        align > 0,
        can_allocate(s, size, align),
    ensures
        heap_wf(after_allocate(s, size, align)),
        after_allocate(s, size, align).live.last().start % align == 0,
{
    lemma_align_up(s.next as int, align as int);
    let t = after_allocate(s, size, align);
    assert forall|i: int, j: int| 0 <= i < j < t.live.len() implies blocks_disjoint(
        #[trigger] t.live[i],
        #[trigger] t.live[j],
    ) by {
        if j < s.live.len() {
            assert(blocks_disjoint(s.live[i], s.live[j]));
        } else {
            assert(t.live[i] == s.live[i]);
        }
    }
    assert forall|i: int| 0 <= i < t.live.len() implies block_aligned(#[trigger] t.live[i])
        && t.start <= t.live[i].start && t.live[i].start + t.live[i].size <= t.next by {
        if i < s.live.len() {
            assert(t.live[i] == s.live[i]);
        }
    }
}

/// Heap allocation correctness, second half: freeing a live block keeps the
/// invariant for the blocks that stay live.
pub proof fn lemma_deallocate_keeps_heap_wf(s: HeapState, i: int)
    requires
        heap_wf(s),
        0 <= i < s.live.len(),
    ensures
        heap_wf(after_deallocate(s, i)),
{
    let t = after_deallocate(s, i);
    assert forall|a: int, b: int| 0 <= a < b < t.live.len() implies blocks_disjoint(
        #[trigger] t.live[a],
        #[trigger] t.live[b],
    ) by {
        let a0 = if a < i { a } else { a + 1 };
        let b0 = if b < i { b } else { b + 1 };
        assert(t.live[a] == s.live[a0]);
        assert(t.live[b] == s.live[b0]);
        assert(blocks_disjoint(s.live[a0], s.live[b0]));
    }
    assert forall|a: int| 0 <= a < t.live.len() implies block_aligned(#[trigger] t.live[a])
        && t.start <= t.live[a].start && t.live[a].start + t.live[a].size <= t.next by {
        let a0 = if a < i { a } else { a + 1 };
        assert(t.live[a] == s.live[a0]);
    }
}

/// Reuse: on a heap without live blocks, allocating a block and freeing it
/// again leaves the heap exactly as it was, so the same allocation succeeds
/// again, any number of times.
pub proof fn lemma_allocate_then_free_restores(s: HeapState, size: u64, align: u64)
    requires
        heap_wf(s),
        s.live.len() == 0,
        align > 0,
        can_allocate(s, size, align),
    ensures
        after_deallocate(after_allocate(s, size, align), 0) == s,
{
    let t = after_allocate(s, size, align);
    assert(t.live.remove(0) =~= s.live);
}

/// A block that is allocated and freed again leaves the live blocks, and so
/// their count, as they were, whatever else is live meanwhile.
pub proof fn lemma_allocate_then_free_keeps_count(s: HeapState, size: u64, align: u64)
    requires
        heap_wf(s),
        can_allocate(s, size, align),
    ensures
        after_deallocate(after_allocate(s, size, align), s.live.len() as int).live == s.live,
{
    let t = after_allocate(s, size, align);
    assert(t.live.remove(s.live.len() as int) =~= s.live);
}

/// Why a heap region was not taken.
#[derive(Debug, Clone, Copy, PartialEq, Eq, Structural)]
pub enum InitError {
    /// The allocator already has a region.
    AlreadyInitialized,
    /// The region does not end within the address space.
    InvalidRegion,
}

/// The bump allocator.
pub struct BumpAllocator {
    heap_start: u64,
    heap_end: u64,
    next: u64,
    allocations: u64,
    live: Ghost<Seq<Block>>,
}

impl View for BumpAllocator {
    type V = HeapState;

    closed spec fn view(&self) -> HeapState {
        HeapState { start: self.heap_start, end: self.heap_end, next: self.next, live: self.live@ }
    }
}

impl BumpAllocator {
    /// The counter of live blocks is the number of live blocks.
    pub closed spec fn counter_matches(&self) -> bool {
        self.allocations == self.live@.len()
    }

    /// The heap invariant holds and the counter is right.
    pub open spec fn wf(&self) -> bool {
        &&& heap_wf(self@)
        &&& self.counter_matches()
    }

    /// Creates an allocator without a region: every allocation fails until
    /// `init` has given it one.
    pub fn new() -> (heap: BumpAllocator)
        ensures
            heap.wf(),
            heap@ == (HeapState { start: 0, end: 0, next: 0, live: Seq::empty() }),
            !heap_ready(heap@),
    {
        BumpAllocator {
            heap_start: 0,
            heap_end: 0,
            next: 0,
            allocations: 0,
            live: Ghost(Seq::empty()),
        }
    }

    /// Gives the allocator its region, once. The caller vouches that the
    /// region is mapped and used for nothing else.
    pub fn init(&mut self, heap_start: u64, heap_size: u64) -> (done: Result<(), InitError>)
        requires
            old(self).wf(),
        ensures
            final(self).wf(),
            done == if heap_ready(old(self)@) {
                Err::<(), InitError>(InitError::AlreadyInitialized)
            } else if heap_start + heap_size > u64::MAX {
                Err::<(), InitError>(InitError::InvalidRegion)
            } else {
                Ok::<(), InitError>(())
            },
            done is Err ==> final(self)@ == old(self)@,
            done is Ok ==> final(self)@ == (HeapState {
                start: heap_start,
                end: (heap_start + heap_size) as u64,
                next: heap_start,
                live: Seq::empty(),
            }),
    {
        if self.heap_start < self.heap_end {
            return Err(InitError::AlreadyInitialized);
        }
        if heap_size > u64::MAX - heap_start {
            return Err(InitError::InvalidRegion);
        }
        self.heap_start = heap_start;
        self.heap_end = heap_start + heap_size;
        self.next = heap_start;
        assert(self@.live =~= Seq::empty());
        Ok(())
    }

    /// Returns the number of live blocks.
    pub fn get_allocations(&self) -> (count: u64)
        requires
            self.wf(),
        ensures
            count == self@.live.len(),
    {
        self.allocations
    }

    /// Carves a block of `size` bytes, aligned to `align`, off the free part
    /// of the region. Returns its address, or `None` when the heap has no
    /// region yet or the block does not fit.
    pub fn allocate(&mut self, size: u64, align: u64) -> (block: Option<u64>)
        requires
            old(self).wf(),
            align > 0,
        ensures
            final(self).wf(),
            can_allocate(old(self)@, size, align) ==> block == Some(
                align_up(old(self)@.next as int, align as int) as u64,
            ) && final(self)@ == after_allocate(old(self)@, size, align),
            !can_allocate(old(self)@, size, align) ==> block is None && final(self)@ == old(self)@,
    {
        proof {
            lemma_align_up(self.next as int, align as int);
        }
        if self.heap_start >= self.heap_end || self.allocations == u64::MAX {
            return None;
        }
        let rem = self.next % align;
        let pad = if rem == 0 {
            0
        } else {
            align - rem
        };
        if pad > self.heap_end - self.next {
            return None;
        }
        let start = self.next + pad;
        if size > self.heap_end - start {
            return None;
        }
        proof {
            lemma_allocate_keeps_heap_wf(self@, size, align);
        }
        self.next = start + size;
        self.allocations += 1;
        self.live = Ghost(self.live@.push(Block { start, size, align }));
        Some(start)
    }

    /// Takes back a live block. When it was the last live block, the whole
    /// region is free again.
    pub fn deallocate(&mut self, addr: u64, size: u64, align: u64)
        requires
            old(self).wf(),
            old(self)@.live.contains(Block { start: addr, size, align }),
        ensures
            final(self).wf(),
            exists|i: int|
                0 <= i < old(self)@.live.len() && old(self)@.live[i] == (Block {
                    start: addr,
                    size,
                    align,
                }) && final(self)@ == after_deallocate(old(self)@, i),
    {
        let ghost block = Block { start: addr, size, align };
        let ghost i = choose|i: int| 0 <= i < self@.live.len() && self@.live[i] == block;
        proof {
            lemma_deallocate_keeps_heap_wf(self@, i);
        }
        self.allocations -= 1;
        if self.allocations == 0 {
            self.next = self.heap_start;
        }
        self.live = Ghost(self.live@.remove(i));
        assert(self@ == after_deallocate(old(self)@, i));
    }
}

} // verus!
