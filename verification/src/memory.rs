//! Physical frame allocation over the firmware memory map.
//!
//! A frame is a 4096-byte unit of physical memory, named by its start
//! address. The allocator hands out the frames of the usable regions of the
//! memory map in map order, one per call, and never takes one back.

use bootloader::bootinfo::{FrameRange, MemoryMap, MemoryRegion, MemoryRegionType};
use vstd::prelude::*;
use x86_64::structures::paging::{PhysFrame, Size4KiB};
use x86_64::PhysAddr;

verus! {

/// Size of a physical frame in bytes.
pub const FRAME_SIZE: u64 = 4096;

/// Number of frames below the end of the 52-bit physical address space.
pub const MAX_FRAME_NUMBER: u64 = 0x100_0000_0000;

/// `bootloader::bootinfo::MemoryMap`, carried through as an opaque value.
#[verifier::external_type_specification]
#[verifier::external_body]
pub struct ExMemoryMap(MemoryMap);

/// `bootloader::bootinfo::MemoryRegion`: a frame range and its type.
#[verifier::external_type_specification]
pub struct ExMemoryRegion(MemoryRegion);

/// `bootloader::bootinfo::FrameRange`: first frame number and the one past the last.
#[verifier::external_type_specification]
pub struct ExFrameRange(FrameRange);

/// `bootloader::bootinfo::MemoryRegionType`.
#[verifier::external_type_specification]
pub struct ExMemoryRegionType(MemoryRegionType);

/// The regions that a memory map holds, in the order in which it hands them out.
pub uninterp spec fn memory_regions(map: MemoryMap) -> Seq<MemoryRegion>;

/// Trusted: the length of the slice that `MemoryMap` dereferences to is the
/// number of regions in the map.
#[verifier::external_body]
fn region_count(map: &MemoryMap) -> (n: usize)
    ensures
        n == memory_regions(*map).len(),
{
    map.len()
}

/// Trusted: indexing the slice that `MemoryMap` dereferences to yields the
/// region at that position. The index must be in bounds, else the slice
/// access panics.
#[verifier::external_body]
fn region_at(map: &MemoryMap, index: usize) -> (region: MemoryRegion)
    requires
        index < memory_regions(*map).len(),
    ensures
        region == memory_regions(*map)[index as int],
{
    map[index]
}

/// Trusted: `PhysFrame::containing_address` of `PhysAddr::new(addr)` is the
/// frame whose start is `addr` rounded down to a multiple of the frame size.
/// `PhysAddr::new` panics when a bit from 52 upwards is set, so such
/// addresses are left out.
#[verifier::external_body]
fn containing_frame_start(addr: u64) -> (start: u64)
    requires
        addr < 0x10_0000_0000_0000,
    ensures
        start == addr - addr % 4096,
{
    PhysFrame::<Size4KiB>::containing_address(PhysAddr::new(addr)).start_address().as_u64()
}

/// Returns the start address of the frame that holds the physical address
/// `addr`, or `None` for an address beyond the 52-bit physical address space.
pub fn frame_containing(addr: u64) -> (frame: Option<u64>)
    ensures
        frame == if addr < MAX_FRAME_NUMBER * FRAME_SIZE {
            Some((addr - addr % FRAME_SIZE) as u64)
        } else {
            None
        },
{
    if addr < MAX_FRAME_NUMBER * FRAME_SIZE {
        Some(containing_frame_start(addr))
    } else {
        None
    }
}

/// A region counts as usable when the firmware marked it so.
pub open spec fn is_usable(region: MemoryRegion) -> bool {
    region.region_type == MemoryRegionType::Usable
}

/// Number of frames that a region contributes: none unless it is usable and
/// its range is not empty.
pub open spec fn frame_count(region: MemoryRegion) -> nat {
    if is_usable(region) && region.range.start_frame_number < region.range.end_frame_number {
        (region.range.end_frame_number - region.range.start_frame_number) as nat
    } else {
        0
    }
}

/// Start addresses of the frames of one region, ascending.
pub open spec fn region_frames(region: MemoryRegion) -> Seq<int> {
    Seq::new(frame_count(region), |i: int| (region.range.start_frame_number + i) * 4096)
}

/// Start addresses of all usable frames, region after region in map order.
pub open spec fn usable_frames(regions: Seq<MemoryRegion>) -> Seq<int>
    decreases regions.len(),
{
    if regions.len() == 0 {
        Seq::empty()
    } else {
        region_frames(regions[0]) + usable_frames(regions.skip(1))
    }
}

/// The frame at position `n` of the usable frames, if there are that many.
pub open spec fn nth_usable_frame(regions: Seq<MemoryRegion>, n: int) -> Option<u64> {
    if 0 <= n < usable_frames(regions).len() {
        Some(usable_frames(regions)[n] as u64)
    } else {
        None
    }
}

/// Every usable region ends within the 52-bit physical address space.
pub open spec fn valid_regions(regions: Seq<MemoryRegion>) -> bool {
    forall|k: int|
        0 <= k < regions.len() && is_usable(#[trigger] regions[k])
            ==> regions[k].range.end_frame_number <= MAX_FRAME_NUMBER
}

/// No two usable regions share a frame.
pub open spec fn disjoint_usable_regions(regions: Seq<MemoryRegion>) -> bool {
    forall|a: int, b: int|
        0 <= a < b < regions.len() && frame_count(#[trigger] regions[a]) > 0 && frame_count(
            #[trigger] regions[b],
        ) > 0 ==> regions[a].range.end_frame_number <= regions[b].range.start_frame_number
            || regions[b].range.end_frame_number <= regions[a].range.start_frame_number
}

/// Frame `addr` lies in region `k`, which is usable.
pub open spec fn frame_in_region(regions: Seq<MemoryRegion>, k: int, addr: int) -> bool {
    &&& 0 <= k < regions.len()
    &&& is_usable(regions[k])
    &&& regions[k].range.start_frame_number * 4096 <= addr
    &&& addr + 4096 <= regions[k].range.end_frame_number * 4096
}

fn region_is_usable(region: &MemoryRegion) -> (b: bool)
    ensures
        b == is_usable(*region),
{
    match region.region_type {
        MemoryRegionType::Usable => true,
        _ => false,
    }
}

fn region_frame_count(region: &MemoryRegion) -> (n: u64)
    ensures
        n == frame_count(*region),
{
    if region_is_usable(region) && region.range.start_frame_number
        < region.range.end_frame_number {
        region.range.end_frame_number - region.range.start_frame_number
    } else {
        0
    }
}

/// Tells whether every usable region of the map ends within the physical
/// address space.
pub fn memory_map_is_valid(map: &MemoryMap) -> (ok: bool)
    ensures
        ok == valid_regions(memory_regions(*map)),
{
    let n = region_count(map);
    let mut i: usize = 0;
    while i < n
        invariant
            n == memory_regions(*map).len(),
            i <= n,
            forall|k: int|
                0 <= k < i && is_usable(#[trigger] memory_regions(*map)[k]) ==> memory_regions(
                    *map,
                )[k].range.end_frame_number <= MAX_FRAME_NUMBER,
        decreases n - i,
    {
        let region = region_at(map, i);
        if region_is_usable(&region) && region.range.end_frame_number > MAX_FRAME_NUMBER {
            return false;
        }
        i += 1;
    }
    true
}

proof fn lemma_usable_frames_step(regions: Seq<MemoryRegion>, i: int, n: int)
    requires
        0 <= i < regions.len(),
        0 <= n,
    ensures
        n < frame_count(regions[i]) ==> nth_usable_frame(regions.skip(i), n) == Some(
            ((regions[i].range.start_frame_number + n) * 4096) as u64,
        ),
        n >= frame_count(regions[i]) ==> nth_usable_frame(regions.skip(i), n) == nth_usable_frame(
            regions.skip(i + 1),
            n - frame_count(regions[i]),
        ),
{
    let tail = regions.skip(i);
    assert(tail[0] == regions[i]);
    assert(tail.skip(1) =~= regions.skip(i + 1));
    assert(usable_frames(tail) == region_frames(regions[i]) + usable_frames(regions.skip(i + 1)));
}

/// Where usable frame `n` comes from: the index of its region and the
/// frame's offset within that region.
spec fn frame_origin(regions: Seq<MemoryRegion>, n: int) -> (int, int)
    decreases regions.len(),
{
    if regions.len() == 0 {
        (0, 0)
    } else if n < frame_count(regions[0]) {
        (0, n)
    } else {
        let rest = frame_origin(regions.skip(1), n - frame_count(regions[0]));
        (rest.0 + 1, rest.1)
    }
}

proof fn lemma_frame_origin(regions: Seq<MemoryRegion>, n: int)
    requires
        0 <= n < usable_frames(regions).len(),
    ensures
        0 <= frame_origin(regions, n).0 < regions.len(),
        0 <= frame_origin(regions, n).1 < frame_count(regions[frame_origin(regions, n).0]),
        usable_frames(regions)[n] == (regions[frame_origin(
            regions,
            n,
        ).0].range.start_frame_number + frame_origin(regions, n).1) * 4096,
    decreases regions.len(),
{
    if n >= frame_count(regions[0]) {
        let rest = regions.skip(1);
        lemma_frame_origin(rest, n - frame_count(regions[0]));
        assert(rest[frame_origin(rest, n - frame_count(regions[0])).0] == regions[frame_origin(
            regions,
            n,
        ).0]);
    }
}

proof fn lemma_frame_origin_ordered(regions: Seq<MemoryRegion>, i: int, j: int)
    requires
        0 <= i < j < usable_frames(regions).len(),
    ensures
        frame_origin(regions, i).0 < frame_origin(regions, j).0 || (frame_origin(regions, i).0
            == frame_origin(regions, j).0 && frame_origin(regions, i).1 < frame_origin(
            regions,
            j,
        ).1),
    decreases regions.len(),
{
    let c = frame_count(regions[0]);
    if i >= c {
        lemma_frame_origin_ordered(regions.skip(1), i - c, j - c);
    } else if j >= c {
        lemma_frame_origin(regions.skip(1), j - c);
    }
}

/// Every usable frame is aligned to the frame size and lies wholly inside a
/// region that the map marks usable; in a valid map its address fits the
/// physical address space.
pub proof fn lemma_frame_aligned_in_usable_region(regions: Seq<MemoryRegion>, i: int)
    requires
        0 <= i < usable_frames(regions).len(),
    ensures
        usable_frames(regions)[i] >= 0,
        usable_frames(regions)[i] % 4096 == 0,
        exists|k: int| frame_in_region(regions, k, usable_frames(regions)[i]),
        valid_regions(regions) ==> usable_frames(regions)[i] + 4096 <= 0x10_0000_0000_0000,
{
    lemma_frame_origin(regions, i);
    let k = frame_origin(regions, i).0;
    assert(frame_in_region(regions, k, usable_frames(regions)[i]));
}

/// Frame monotonicity: when no two usable regions of the map overlap, two
/// different positions of the usable frames hold frames that do not overlap,
/// so any run of allocations yields pairwise distinct frames.
pub proof fn lemma_frames_do_not_overlap(regions: Seq<MemoryRegion>, i: int, j: int)
    requires
        disjoint_usable_regions(regions),
        0 <= i < usable_frames(regions).len(),
        0 <= j < usable_frames(regions).len(),
        i != j,
    ensures
        usable_frames(regions)[i] + 4096 <= usable_frames(regions)[j] || usable_frames(regions)[j]
            + 4096 <= usable_frames(regions)[i],
{
    lemma_frame_origin(regions, i);
    lemma_frame_origin(regions, j);
    if i < j {
        lemma_frame_origin_ordered(regions, i, j);
    } else {
        lemma_frame_origin_ordered(regions, j, i);
    }
    let a = frame_origin(regions, i).0;
    let b = frame_origin(regions, j).0;
    if a < b {
        assert(frame_count(regions[a]) > 0 && frame_count(regions[b]) > 0);
    } else if b < a {
        assert(frame_count(regions[b]) > 0 && frame_count(regions[a]) > 0);
    }
}

/// Frame monotonicity in terms of the allocator's calls: on a valid memory
/// map whose usable regions do not overlap, the frame given by a later call
/// and the frame given by any earlier call are both aligned and do not
/// overlap; the earlier call did give a frame.
pub proof fn lemma_allocations_distinct(regions: Seq<MemoryRegion>, earlier: int, later: int)
    requires
        valid_regions(regions),
        disjoint_usable_regions(regions),
        0 <= earlier < later,
        nth_usable_frame(regions, later) is Some,
    ensures
        nth_usable_frame(regions, earlier) is Some,
        nth_usable_frame(regions, earlier)->0 % FRAME_SIZE == 0,
        nth_usable_frame(regions, later)->0 % FRAME_SIZE == 0,
        nth_usable_frame(regions, earlier)->0 + FRAME_SIZE <= nth_usable_frame(regions, later)->0
            || nth_usable_frame(regions, later)->0 + FRAME_SIZE <= nth_usable_frame(
            regions,
            earlier,
        )->0,
{
    lemma_frame_aligned_in_usable_region(regions, earlier);
    lemma_frame_aligned_in_usable_region(regions, later);
    lemma_frames_do_not_overlap(regions, earlier, later);
}

/// A frame allocator that never has a frame to give.
pub struct EmptyFrameAllocator;

impl EmptyFrameAllocator {
    /// Always reports that no frame is left.
    pub fn allocate_frame(&mut self) -> (frame: Option<u64>)
        ensures
            frame is None,
    {
        None
    }
}

/// Hands out the usable frames of the firmware memory map, the n-th frame on
/// the n-th call.
pub struct BootInfoFrameAllocator {
    memory_map: &'static MemoryMap,
    next: usize,
}

impl BootInfoFrameAllocator {
    /// The regions of the memory map that the allocator draws from.
    pub closed spec fn regions(&self) -> Seq<MemoryRegion> {
        memory_regions(*self.memory_map)
    }

    /// Number of calls of `allocate_frame` so far.
    pub closed spec fn next_index(&self) -> nat {
        self.next as nat
    }

    /// The memory map is one whose usable frames all have valid addresses.
    pub open spec fn wf(&self) -> bool {
        valid_regions(self.regions())
    }

    /// Creates an allocator over a memory map whose usable regions are valid.
    /// The caller vouches that the frames marked usable are really unused.
    pub fn init(memory_map: &'static MemoryMap) -> (allocator: Self)
        requires
            valid_regions(memory_regions(*memory_map)),
        ensures
            allocator.wf(),
            allocator.regions() == memory_regions(*memory_map),
            allocator.next_index() == 0,
    {
        BootInfoFrameAllocator { memory_map, next: 0 }
    }

    /// Creates an allocator over the memory map if the map is valid.
    pub fn try_init(memory_map: &'static MemoryMap) -> (allocator: Option<Self>)
        ensures
            allocator is Some <==> valid_regions(memory_regions(*memory_map)),
            allocator matches Some(a) ==> a.wf() && a.regions() == memory_regions(*memory_map)
                && a.next_index() == 0,
    {
        if memory_map_is_valid(memory_map) {
            Some(Self::init(memory_map))
        } else {
            None
        }
    }

    /// Returns the start address of the next unused frame, or `None` once the
    /// usable frames are used up. Each call moves on by one frame.
    pub fn allocate_frame(&mut self) -> (frame: Option<u64>)
        requires
            old(self).wf(),
        ensures
            final(self).wf(),
            final(self).regions() == old(self).regions(),
            final(self).next_index() == if old(self).next_index() < usize::MAX {
                old(self).next_index() + 1
            } else {
                old(self).next_index()
            },
            frame == nth_usable_frame(old(self).regions(), old(self).next_index() as int),
    {
        let ghost regions = self.regions();
        let n = region_count(self.memory_map);
        let mut remaining: u64 = self.next as u64;
        let mut found: Option<u64> = None;
        let mut i: usize = 0;
        proof {
            assert(regions.skip(0) =~= regions);
        }
        while i < n && found.is_none()
            invariant
                regions == memory_regions(*self.memory_map),
                valid_regions(regions),
                n == regions.len(),
                i <= n,
                found is None ==> nth_usable_frame(regions, self.next as int) == nth_usable_frame(
                    regions.skip(i as int),
                    remaining as int,
                ),
                found is Some ==> found == nth_usable_frame(regions, self.next as int),
            decreases n - i, if found is None { 1int } else { 0int },
        {
            let region = region_at(self.memory_map, i);
            let count = region_frame_count(&region);
            proof {
                lemma_usable_frames_step(regions, i as int, remaining as int);
            }
            if remaining < count {
                let addr = (region.range.start_frame_number + remaining) * FRAME_SIZE;
                found = Some(containing_frame_start(addr));
            } else {
                remaining -= count;
                i += 1;
            }
        }
        proof {
            if found is None {
                assert(regions.skip(n as int) =~= Seq::<MemoryRegion>::empty());
            }
        }
        if self.next < usize::MAX {
            self.next += 1;
        }
        found
    }
}

} // verus!
