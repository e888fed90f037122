//! The kernel heap: one fixed virtual address range and the bookkeeping of
//! the blocks handed out from it.

use crate::paging::PAGE_SIZE;
use vstd::prelude::*;

pub mod bump;
pub mod dummy;

verus! {

/// Virtual address at which the heap region starts.
pub const HEAP_START: u64 = 0x4444_4444_0000;

/// Size of the heap region in bytes.
pub const HEAP_SIZE: u64 = 102400;

/// Start address of the first page of the heap region.
pub open spec fn first_heap_page() -> int {
    HEAP_START - HEAP_START % PAGE_SIZE
}

/// Number of pages that the heap region touches.
pub open spec fn heap_page_total() -> int {
    (HEAP_START + HEAP_SIZE - 1 - first_heap_page()) / (PAGE_SIZE as int) + 1
}

/// Returns the number of pages that must be mapped before the heap is used.
pub fn heap_page_count() -> (count: u64)
    ensures
        count == heap_page_total(),
{
    let first: u64 = HEAP_START - HEAP_START % PAGE_SIZE;
    (HEAP_START + HEAP_SIZE - 1 - first) / PAGE_SIZE + 1
}

/// Returns the start address of the heap page with the given index, counted
/// from the page that holds the start of the heap, or `None` past the last
/// page of the heap.
pub fn heap_page(index: u64) -> (page: Option<u64>)
    ensures
        page == if index < heap_page_total() {
            Some((first_heap_page() + index * PAGE_SIZE) as u64)
        } else {
            None
        },
{
    if index < heap_page_count() {
        let first: u64 = HEAP_START - HEAP_START % PAGE_SIZE;
        Some(first + index * PAGE_SIZE)
    } else {
        None
    }
}

/// Every byte of the heap region lies in one of the heap pages, and every
/// heap page is aligned to the page size.
pub proof fn lemma_heap_pages_cover_heap(addr: int)
    requires
        HEAP_START <= addr < HEAP_START + HEAP_SIZE,
    ensures
        first_heap_page() % (PAGE_SIZE as int) == 0,
        0 <= (addr - first_heap_page()) / (PAGE_SIZE as int) < heap_page_total(),
{
}

} // verus!
