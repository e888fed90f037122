//! Address translation through the 4-level page table.
//!
//! The page table lives in physical memory; reading its entries is left to
//! the caller. This module holds what the walk decides: which entry to read
//! next, and what an entry that was read means for the translation.

use vstd::prelude::*;

verus! {

/// Size of a page and of a frame in bytes.
pub const PAGE_SIZE: u64 = 4096;

/// Number of entries in a page table.
pub const ENTRY_COUNT: u64 = 512;

/// Size of a page table entry in bytes.
pub const ENTRY_SIZE: u64 = 8;

/// End of the 52-bit physical address space.
pub const PHYS_ADDR_END: u64 = 0x10_0000_0000_0000;

/// Result of translating a virtual address.
#[derive(Debug, Clone, Copy, PartialEq, Eq, Structural)]
pub enum Translation {
    /// The address is mapped to this physical address.
    Mapped(u64),
    /// An entry on the way is marked not present.
    NotMapped,
    /// An entry on the way maps a huge page, which this kernel does not use.
    HugePage,
}

/// What a page table entry points to.
#[derive(Debug, Clone, Copy, PartialEq, Eq, Structural)]
pub enum EntryTarget {
    /// The entry is marked not present.
    NotPresent,
    /// The entry maps a huge page.
    HugePage,
    /// The entry points to the frame with this start address.
    Frame(u64),
}

/// A 4096-byte-aligned address within the physical address space.
pub open spec fn is_frame_address(addr: u64) -> bool {
    addr % PAGE_SIZE == 0 && addr < PHYS_ADDR_END
}

/// Bytes of virtual memory that one entry of a table of the given level
/// covers: a page at level 1, 512 times as much at each level above.
pub open spec fn level_span(level: int) -> int {
    if level == 1 {
        0x1000
    } else if level == 2 {
        0x20_0000
    } else if level == 3 {
        0x4000_0000
    } else {
        0x80_0000_0000
    }
}

/// Index of the entry that a virtual address selects in a table of the given
/// level: nine bits of the address, starting at bit 12 for level 1.
pub open spec fn table_index(virt: u64, level: int) -> int {
    (virt as int / level_span(level)) % 512
}

/// Offset of a virtual address within its page.
pub open spec fn page_offset(virt: u64) -> int {
    virt as int % 4096
}

/// Reading of an entry: bit 0 marks it present, bit 7 marks a huge page,
/// bits 12 to 51 hold the frame address.
pub open spec fn entry_target(entry: u64) -> EntryTarget {
    if entry % 2 == 0 {
        EntryTarget::NotPresent
    } else if (entry / 128) % 2 == 1 {
        EntryTarget::HugePage
    } else {
        EntryTarget::Frame((entry % PHYS_ADDR_END - entry % PAGE_SIZE) as u64)
    }
}

/// Physical address of the entry that a virtual address selects in the table
/// of the given level that starts at `table`.
pub open spec fn entry_address(table: u64, virt: u64, level: int) -> int {
    table + table_index(virt, level) * ENTRY_SIZE
}

/// Translation of `virt` by the tables found in physical memory `mem`,
/// starting at the table of the given level at `table`; at level 0 `table` is
/// the frame that the address is mapped to.
pub open spec fn translate_from(mem: spec_fn(int) -> u64, table: u64, virt: u64, level: nat)
    -> Translation
    decreases level,
{
    if level == 0 {
        Translation::Mapped((table + page_offset(virt)) as u64)
    } else {
        match entry_target(mem(entry_address(table, virt, level as int))) {
            EntryTarget::NotPresent => Translation::NotMapped,
            EntryTarget::HugePage => Translation::HugePage,
            EntryTarget::Frame(next) => translate_from(mem, next, virt, (level - 1) as nat),
        }
    }
}

/// Translation of `virt` by the page table whose level 4 table starts at
/// `level_4_table`.
pub open spec fn translate(mem: spec_fn(int) -> u64, level_4_table: u64, virt: u64)
    -> Translation {
    translate_from(mem, level_4_table, virt, 4)
}

/// The tables in `mem` lead from the table of the given level at `table`
/// down to `frame` for the page that holds `virt`, through entries that are
/// present and map no huge page.
pub open spec fn maps_from(
    mem: spec_fn(int) -> u64,
    table: u64,
    virt: u64,
    level: nat,
    frame: u64,
) -> bool
    decreases level,
{
    if level == 0 {
        table == frame
    } else {
        match entry_target(mem(entry_address(table, virt, level as int))) {
            EntryTarget::Frame(next) => maps_from(mem, next, virt, (level - 1) as nat, frame),
            _ => false,
        }
    }
}

/// The page table maps the page at `page` to the frame at `frame`.
pub open spec fn maps_page(mem: spec_fn(int) -> u64, level_4_table: u64, page: u64, frame: u64)
    -> bool {
    page % PAGE_SIZE == 0 && maps_from(mem, level_4_table, page, 4, frame)
}

proof fn lemma_same_page_same_walk(
    mem: spec_fn(int) -> u64,
    table: u64,
    page: u64,
    offset: u64,
    level: nat,
    frame: u64,
)
    requires
        level <= 4,
        page % PAGE_SIZE == 0,
        offset < PAGE_SIZE,
        page + offset <= u64::MAX,
        maps_from(mem, table, page, level, frame),
    ensures
        translate_from(mem, table, (page + offset) as u64, level) == Translation::Mapped(
            (frame + offset) as u64,
        ),
    decreases level,
{
    let virt = (page + offset) as u64;
    if level > 0 {
        assert(table_index(virt, level as int) == table_index(page, level as int));
        match entry_target(mem(entry_address(table, page, level as int))) {
            EntryTarget::Frame(next) => {
                lemma_same_page_same_walk(mem, next, page, offset, (level - 1) as nat, frame);
            },
            _ => {},
        }
    }
}

/// Round trip: where the page table maps a page to a frame, every address of
/// that page translates to the frame's address plus the address's offset in
/// the page.
pub proof fn lemma_translate_round_trip(
    mem: spec_fn(int) -> u64,
    level_4_table: u64,
    page: u64,
    frame: u64,
    offset: u64,
)
    requires
        maps_page(mem, level_4_table, page, frame),
        offset < PAGE_SIZE,
        page + offset <= u64::MAX,
    ensures
        translate(mem, level_4_table, (page + offset) as u64) == Translation::Mapped(
            (frame + offset) as u64,
        ),
{
    lemma_same_page_same_walk(mem, level_4_table, page, offset, 4, frame);
}

/// Returns the index of the entry that `virt` selects in a table of the given
/// level.
pub fn index_of(virt: u64, level: u8) -> (index: u64)
    requires
        1 <= level <= 4,
    ensures
        index == table_index(virt, level as int),
        index < ENTRY_COUNT,
{
    let span: u64 = if level == 1 {
        0x1000
    } else if level == 2 {
        0x20_0000
    } else if level == 3 {
        0x4000_0000
    } else {
        0x80_0000_0000
    };
    (virt / span) % ENTRY_COUNT
}

/// Reads a page table entry.
pub fn target_of(entry: u64) -> (target: EntryTarget)
    ensures
        target == entry_target(entry),
        target matches EntryTarget::Frame(frame) ==> is_frame_address(frame),
{
    if entry % 2 == 0 {
        EntryTarget::NotPresent
    } else if (entry / 128) % 2 == 1 {
        EntryTarget::HugePage
    } else {
        EntryTarget::Frame(entry % PHYS_ADDR_END - entry % PAGE_SIZE)
    }
}

/// A translation under way: the address being translated, and the table
/// that the next entry is to be read from.
#[derive(Debug, Clone, Copy, PartialEq, Eq, Structural)]
pub struct Walk {
    virt: u64,
    level: u8,
    table: u64,
}

/// How a walk goes on after an entry has been read.
#[derive(Debug, Clone, Copy, PartialEq, Eq, Structural)]
pub enum WalkStep {
    /// Another entry is to be read.
    Next(Walk),
    /// The translation is known.
    Done(Translation),
}

impl Walk {
    /// The virtual address being translated.
    pub closed spec fn virt(self) -> u64 {
        self.virt
    }

    /// Level of the table that the next entry is read from, 4 down to 1.
    pub closed spec fn level(self) -> int {
        self.level as int
    }

    /// Start address of that table.
    pub closed spec fn table(self) -> u64 {
        self.table
    }

    /// The level is one of the four and the table is a frame.
    pub open spec fn wf(self) -> bool {
        1 <= self.level() <= 4 && is_frame_address(self.table())
    }

    /// What the walk will come to in memory `mem`.
    pub open spec fn outcome(self, mem: spec_fn(int) -> u64) -> Translation {
        translate_from(mem, self.table(), self.virt(), self.level() as nat)
    }

    /// Starts the translation of `virt` at the level 4 table, whose frame
    /// address the processor holds.
    pub fn start(virt: u64, level_4_table: u64) -> (walk: Walk)
        requires
            is_frame_address(level_4_table),
        ensures
            walk.wf(),
            walk.virt() == virt,
            walk.level() == 4,
            walk.table() == level_4_table,
            forall|mem: spec_fn(int) -> u64| #[trigger]
                walk.outcome(mem) == translate(mem, level_4_table, virt),
    {
        Walk { virt, level: 4, table: level_4_table }
    }

    /// Returns the physical address of the entry to read next.
    pub fn next_entry(&self) -> (addr: u64)
        requires
            self.wf(),
        ensures
            addr == entry_address(self.table(), self.virt(), self.level()),
            addr < PHYS_ADDR_END,
    {
        self.table + index_of(self.virt, self.level) * ENTRY_SIZE
    }

    /// Goes on with the entry that was read at `next_entry`: the walk ends
    /// at an entry that is not present or maps a huge page, and after the
    /// level 1 entry, which gives the frame.
    pub fn advance(self, entry: u64) -> (step: WalkStep)
        requires
            self.wf(),
        ensures
            step matches WalkStep::Next(walk) ==> walk.wf() && walk.virt() == self.virt()
                && walk.level() == self.level() - 1,
            forall|mem: spec_fn(int) -> u64|
                mem(entry_address(self.table(), self.virt(), self.level())) == entry ==> match step {
                    WalkStep::Next(walk) => walk.outcome(mem) == #[trigger] self.outcome(mem),
                    WalkStep::Done(translation) => translation == self.outcome(mem),
                },
            entry_target(entry) == EntryTarget::NotPresent ==> step == WalkStep::Done(
                Translation::NotMapped,
            ),
            entry_target(entry) == EntryTarget::HugePage ==> step == WalkStep::Done(
                Translation::HugePage,
            ),
            entry_target(entry) matches EntryTarget::Frame(frame) ==> if self.level() == 1 {
                step == WalkStep::Done(
                    Translation::Mapped((frame + page_offset(self.virt())) as u64),
                )
            } else {
                step matches WalkStep::Next(walk) && walk.table() == frame
            },
    {
        match target_of(entry) {
            EntryTarget::NotPresent => WalkStep::Done(Translation::NotMapped),
            EntryTarget::HugePage => WalkStep::Done(Translation::HugePage),
            EntryTarget::Frame(frame) => {
                if self.level == 1 {
                    assert forall|mem: spec_fn(int) -> u64|
                        mem(entry_address(self.table(), self.virt(), self.level()))
                            == entry implies Translation::Mapped(
                        (frame + page_offset(self.virt())) as u64,
                    ) == #[trigger] self.outcome(mem) by {
                        assert(translate_from(mem, frame, self.virt, 0) == Translation::Mapped(
                            (frame + page_offset(self.virt)) as u64,
                        ));
                    }
                    WalkStep::Done(Translation::Mapped(frame + self.virt % PAGE_SIZE))
                } else {
                    WalkStep::Next(Walk { virt: self.virt, level: self.level - 1, table: frame })
                }
            },
        }
    }
}

/// `read_entry` reads physical memory `mem` through the mapping of all
/// physical memory at `physical_memory_offset`: what it returns for the
/// virtual address `physical_memory_offset + p` is the entry at physical
/// address `p`.
pub open spec fn reads_memory<F: Fn(u64) -> u64>(
    read_entry: F,
    physical_memory_offset: u64,
    mem: spec_fn(int) -> u64,
) -> bool {
    forall|addr: u64, entry: u64| #[trigger]
        read_entry.ensures((addr,), entry) ==> mem(addr - physical_memory_offset) == entry
}

/// Translates a virtual address by walking the four levels of the page
/// table, reading each entry through `read_entry` at the place where the
/// mapping of physical memory shows it. Returns `NotMapped` as soon as an
/// entry is not present.
pub fn translate_addr<F: Fn(u64) -> u64>(
    virt: u64,
    level_4_table: u64,
    physical_memory_offset: u64,
    read_entry: F,
) -> (translation: Translation)
    requires
        is_frame_address(level_4_table),
        physical_memory_offset <= u64::MAX - PHYS_ADDR_END,
        forall|addr: u64| #[trigger] read_entry.requires((addr,)),
    ensures
        forall|mem: spec_fn(int) -> u64|
            reads_memory(read_entry, physical_memory_offset, mem) ==> translation
                == #[trigger] translate(mem, level_4_table, virt),
{
    let mut walk = Walk::start(virt, level_4_table);
    loop
        invariant
            walk.wf(),
            physical_memory_offset <= u64::MAX - PHYS_ADDR_END,
            forall|addr: u64| #[trigger] read_entry.requires((addr,)),
            forall|mem: spec_fn(int) -> u64|
                reads_memory(read_entry, physical_memory_offset, mem) ==> walk.outcome(mem)
                    == #[trigger] translate(mem, level_4_table, virt),
        decreases walk.level(),
    {
        let addr = walk.next_entry();
        let entry = read_entry(physical_memory_offset + addr);
        let step = walk.advance(entry);
        assert forall|mem: spec_fn(int) -> u64|
            reads_memory(read_entry, physical_memory_offset, mem) implies mem(
            entry_address(walk.table(), walk.virt(), walk.level()),
        ) == entry by {
            assert(read_entry.ensures(((physical_memory_offset + addr) as u64,), entry));
        }
        match step {
            WalkStep::Next(next) => {
                assert forall|mem: spec_fn(int) -> u64|
                    reads_memory(read_entry, physical_memory_offset, mem) implies next.outcome(mem)
                    == #[trigger] translate(mem, level_4_table, virt) by {
                    assert(next.outcome(mem) == walk.outcome(mem));
                }
                walk = next;
            },
            WalkStep::Done(translation) => {
                assert forall|mem: spec_fn(int) -> u64|
                    reads_memory(read_entry, physical_memory_offset, mem) implies translation
                    == #[trigger] translate(mem, level_4_table, virt) by {
                    assert(translation == walk.outcome(mem));
                }
                return translation;
            },
        }
    }
}

} // verus!
