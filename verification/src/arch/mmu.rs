//! MMU set-up: memory attributes, translation control, block descriptors
//! and the identity-mapped page tables (first GiB normal memory, fourth
//! GiB device memory). Writing the system registers is the caller's.
use vstd::prelude::*;

verus! {

/// Memory attribute slots of MAIR_EL1.
#[derive(Debug, Clone, Copy, PartialEq, Eq, Structural)]
pub enum MemoryAttribute {
    /// Attribute 0: device nGnRnE.
    Device,
    /// Attribute 1: normal, write-back.
    Normal,
}

/// MAIR_EL1: attribute 1 normal write-back (0xFF), attribute 0 device
/// nGnRnE (0x00).
pub const MAIR_VALUE: u64 = 0xFF << 8;

/// TCR_EL1: 39-bit addresses in both ranges, inner shareable write-back
/// walks, 4 KiB granule for the upper range, 40-bit physical addresses.
pub const TCR_VALUE: u64 = 25 | (0b11 << 12) | (0b01 << 10) | (0b01 << 8) | (25 << 16) | (0b10 << 30) | (0b010 << 32);

/// Descriptor types.
pub const DESCRIPTOR_INVALID: u64 = 0b00;
pub const DESCRIPTOR_BLOCK: u64 = 0b01;
pub const DESCRIPTOR_TABLE: u64 = 0b11;
pub const DESCRIPTOR_PAGE: u64 = 0b11;
/// Access flag.
pub const DESCRIPTOR_AF: u64 = 0x400;
/// Shareability.
pub const DESCRIPTOR_SH_INNER_SHAREABLE: u64 = 0x300;

/// Entries per translation table.
pub const TABLE_ENTRIES: usize = 512;

/// Size of a level-2 block.
pub const BLOCK_SIZE: u64 = 0x20_0000;

/// Start of the device memory range mapped (3 GiB).
pub const MMIO_RANGE_BASE: u64 = 0xC000_0000;

/// SCTLR_EL1 bits: MMU, data cache, instruction cache.
pub const SCTLR_MMU_CACHES: u64 = (1 << 0) | (1 << 2) | (1 << 12);

/// The attribute index field of a descriptor for `attr`.
pub open spec fn spec_attr_index(attr: MemoryAttribute) -> u64 {
    match attr {
        MemoryAttribute::Device => 0u64,
        MemoryAttribute::Normal => 4u64,
    }
}

/// The attribute index field of a descriptor for `attr` (slot << 2).
pub fn attr_index(attr: MemoryAttribute) -> (r: u64)
    ensures
        r == spec_attr_index(attr),
{
    match attr {
        MemoryAttribute::Device => 0,
        MemoryAttribute::Normal => 4,
    }
}

/// The descriptor type for a level: page at level 3, block otherwise.
pub open spec fn spec_desc_type(level: usize) -> u64 {
    if level == 3 { DESCRIPTOR_PAGE } else { DESCRIPTOR_BLOCK }
}

/// A device-memory descriptor: non-shareable, EL1 read-write, attribute 0.
pub open spec fn spec_device_descriptor(addr: u64, level: usize) -> u64 {
    addr | spec_desc_type(level) | DESCRIPTOR_AF | spec_attr_index(MemoryAttribute::Device)
}

/// A normal-memory descriptor: inner shareable, EL1 read-write,
/// attribute 1.
pub open spec fn spec_normal_descriptor(addr: u64, level: usize) -> u64 {
    addr | spec_desc_type(level) | DESCRIPTOR_AF | DESCRIPTOR_SH_INNER_SHAREABLE | spec_attr_index(MemoryAttribute::Normal)
}

/// A device-memory descriptor for `addr` at `level`.
pub fn device_descriptor(addr: u64, level: usize) -> (d: u64)
    ensures
        d == spec_device_descriptor(addr, level),
{
    let desc_type = if level == 3 { DESCRIPTOR_PAGE } else { DESCRIPTOR_BLOCK };
    addr | desc_type | DESCRIPTOR_AF | attr_index(MemoryAttribute::Device)
}

/// A normal-memory descriptor for `addr` at `level`.
pub fn normal_descriptor(addr: u64, level: usize) -> (d: u64)
    ensures
        d == spec_normal_descriptor(addr, level),
{
    let desc_type = if level == 3 { DESCRIPTOR_PAGE } else { DESCRIPTOR_BLOCK };
    addr | desc_type | DESCRIPTOR_AF | DESCRIPTOR_SH_INNER_SHAREABLE | attr_index(MemoryAttribute::Normal)
}

/// A descriptor pointing to the next-level table at `table_addr`.
pub fn table_descriptor(table_addr: u64) -> (d: u64)
    ensures
        d == table_addr | DESCRIPTOR_TABLE,
{
    table_addr | DESCRIPTOR_TABLE
}

/// A translation table of 512 descriptors.
pub struct TranslationTable {
    entries: Vec<u64>,
}

impl TranslationTable {
    /// The descriptors.
    pub closed spec fn view(&self) -> Seq<u64> {
        self.entries@
    }

    /// A table of invalid descriptors.
    pub fn new() -> (t: Self)
        ensures
            t@ == Seq::new(TABLE_ENTRIES as nat, |i: int| DESCRIPTOR_INVALID),
    {
        let t = TranslationTable { entries: vec![DESCRIPTOR_INVALID; TABLE_ENTRIES] };
        assert(t@ =~= Seq::new(TABLE_ENTRIES as nat, |i: int| DESCRIPTOR_INVALID));
        t
    }

    /// Set descriptor `index`.
    pub fn set_entry(&mut self, index: usize, value: u64)
        requires
            index < old(self)@.len(),
        ensures
            final(self)@ == old(self)@.update(index as int, value),
    {
        self.entries.set(index, value);
    }

    /// The descriptors.
    pub fn entries(&self) -> (e: &[u64])
        ensures
            e@ == self@,
    {
        self.entries.as_slice()
    }
}

/// The page tables: a level-1 table whose entry 0 points to the table of
/// the first GiB (2 MiB normal-memory blocks, identity-mapped) and whose
/// entry 3 points to the table of the fourth GiB (2 MiB device-memory
/// blocks, identity-mapped), given where those two tables will live.
pub fn setup_page_tables(l2_low_addr: u64, l2_mmio_addr: u64) -> (r: (TranslationTable, TranslationTable, TranslationTable))
    ensures
        r.0@ == Seq::new(TABLE_ENTRIES as nat, |i: int| DESCRIPTOR_INVALID).update(0, l2_low_addr | DESCRIPTOR_TABLE).update(3, l2_mmio_addr | DESCRIPTOR_TABLE),
        r.1@.len() == TABLE_ENTRIES,
        forall|i: int| 0 <= i < TABLE_ENTRIES ==> #[trigger] r.1@[i] == spec_normal_descriptor((i * BLOCK_SIZE) as u64, 2),
        r.2@.len() == TABLE_ENTRIES,
        forall|i: int| 0 <= i < TABLE_ENTRIES ==> #[trigger] r.2@[i] == spec_device_descriptor((MMIO_RANGE_BASE + i * BLOCK_SIZE) as u64, 2),
{
    let mut l1 = TranslationTable::new();
    l1.set_entry(0, table_descriptor(l2_low_addr));
    l1.set_entry(3, table_descriptor(l2_mmio_addr));
    let mut low = TranslationTable::new();
    let mut mmio = TranslationTable::new();
    let mut i: usize = 0;
    while i < TABLE_ENTRIES
        invariant
            0 <= i <= TABLE_ENTRIES,
            low@.len() == TABLE_ENTRIES,
            mmio@.len() == TABLE_ENTRIES,
            forall|j: int| 0 <= j < i ==> #[trigger] low@[j] == spec_normal_descriptor((j * BLOCK_SIZE) as u64, 2),
            forall|j: int| 0 <= j < i ==> #[trigger] mmio@[j] == spec_device_descriptor((MMIO_RANGE_BASE + j * BLOCK_SIZE) as u64, 2),
        decreases TABLE_ENTRIES - i,
    {
        low.set_entry(i, normal_descriptor((i as u64) * BLOCK_SIZE, 2));
        mmio.set_entry(i, device_descriptor(MMIO_RANGE_BASE + (i as u64) * BLOCK_SIZE, 2));
        i = i + 1;
    }
    (l1, low, mmio)
}

/// SCTLR_EL1 with the MMU and both caches enabled.
pub fn enable_mmu(sctlr: u64) -> (r: u64)
    ensures
        r == sctlr | SCTLR_MMU_CACHES,
{
    sctlr | SCTLR_MMU_CACHES
}

/// Whether an SCTLR_EL1 value has the MMU on.
pub fn is_enabled(sctlr: u64) -> (b: bool)
    ensures
        b == (sctlr & 1 != 0),
{
    sctlr & 1 != 0
}

/// A block descriptor keeps its output address: for a 2 MiB-aligned
/// address below 2^48 the address bits of the descriptor (47..21) are the
/// address, so the mapping is the identity.
pub proof fn lemma_block_maps_address(addr: u64)
    requires
        addr % 0x20_0000 == 0,
        addr < 0x1_0000_0000_0000,
    ensures
        spec_normal_descriptor(addr, 2) & 0xFFFF_FFE0_0000 == addr,
        spec_device_descriptor(addr, 2) & 0xFFFF_FFE0_0000 == addr,
{
    assert(addr % 0x20_0000 == 0 && addr < 0x1_0000_0000_0000 ==> (addr | 1u64 | 0x400u64 | 0x300u64 | 4u64) & 0xFFFF_FFE0_0000u64 == addr) by (bit_vector);
    assert(addr % 0x20_0000 == 0 && addr < 0x1_0000_0000_0000 ==> (addr | 1u64 | 0x400u64 | 0u64) & 0xFFFF_FFE0_0000u64 == addr) by (bit_vector);
}

} // verus!
