//! Device tree: the checks on the blob the firmware hands over, the
//! device facts taken from it, and the translation of bus addresses. The
//! blob itself is walked by the caller with the device-tree parser.
use vstd::prelude::*;
use vstd::string::StrSliceExecFns;

verus! {

/// Magic number at the start of a device tree blob (big-endian).
pub const DTB_MAGIC: u32 = 0xd00d_feed;

/// The big-endian word in four bytes.
pub open spec fn spec_be32(b: [u8; 4]) -> u32 {
    (b[0] as int * 0x100_0000 + b[1] as int * 0x1_0000 + b[2] as int * 0x100 + b[3] as int) as u32
}

/// The device tree blob handed over by the firmware.
pub struct HardwareInfo {
    dtb_addr: usize,
    dtb_size: usize,
}

impl HardwareInfo {
    pub closed spec fn spec_addr(&self) -> usize {
        self.dtb_addr
    }

    pub closed spec fn spec_size(&self) -> usize {
        self.dtb_size
    }

    /// Accept the blob at `dtb_addr` whose first four bytes are `magic`
    /// and whose header gives `totalsize` (`None` when the parser could
    /// not read it): refused when the address is 0, the magic number is
    /// wrong, or the size is unreadable, in that order.
    pub fn from_firmware(dtb_addr: usize, magic: [u8; 4], totalsize: Option<usize>) -> (r: Result<Self, &'static str>)
        ensures
            dtb_addr == 0 ==> r == Err::<Self, &'static str>("DTB pointer is null"),
            dtb_addr != 0 && spec_be32(magic) != DTB_MAGIC ==> r == Err::<Self, &'static str>("Invalid DTB magic number"),
            dtb_addr != 0 && spec_be32(magic) == DTB_MAGIC && totalsize is None ==> r == Err::<Self, &'static str>("Failed to read DTB size"),
            dtb_addr != 0 && spec_be32(magic) == DTB_MAGIC && totalsize is Some ==>
                (r matches Ok(h) && h.spec_addr() == dtb_addr && h.spec_size() == totalsize->Some_0),
    {
        if dtb_addr == 0 {
            return Err("DTB pointer is null");
        }
        let m = ((magic[0] as u32) << 24u32) | ((magic[1] as u32) << 16u32) | ((magic[2] as u32) << 8u32) | (magic[3] as u32);
        proof {
            let (b0, b1, b2, b3) = (magic[0], magic[1], magic[2], magic[3]);
            assert(((b0 as u32) << 24u32) | ((b1 as u32) << 16u32) | ((b2 as u32) << 8u32) | (b3 as u32)
                == b0 as u32 * 0x100_0000 + b1 as u32 * 0x1_0000 + b2 as u32 * 0x100 + b3 as u32) by (bit_vector);
        }
        if m != DTB_MAGIC {
            return Err("Invalid DTB magic number");
        }
        match totalsize {
            None => Err("Failed to read DTB size"),
            Some(size) => Ok(HardwareInfo { dtb_addr, dtb_size: size }),
        }
    }

    /// Address of the blob.
    pub fn addr(&self) -> (a: usize)
        ensures
            a == self.spec_addr(),
    {
        self.dtb_addr
    }

    /// Size of the blob in bytes.
    pub fn size(&self) -> (n: usize)
        ensures
            n == self.spec_size(),
    {
        self.dtb_size
    }
}

/// Whether a `reg` cell is a peripheral bus address this kernel maps:
/// 0x7C000000..=0x7FFFFFFF or 0x40000000..=0x407FFFFF.
pub open spec fn spec_peripheral_bus_addr(a: u32) -> bool {
    (0x7C00_0000 <= a <= 0x7FFF_FFFF) || (0x4000_0000 <= a <= 0x407F_FFFF)
}

/// The base address from a `reg` property, given its cells 1 and 0
/// (`None` when missing): the first of them that is a peripheral bus
/// address.
pub fn extract_base_address(cell1: Option<u32>, cell0: Option<u32>) -> (r: Option<usize>)
    ensures
        r == (if cell1 matches Some(a) && spec_peripheral_bus_addr(a) { Some(cell1->Some_0 as usize) }
            else if cell0 matches Some(a) && spec_peripheral_bus_addr(a) { Some(cell0->Some_0 as usize) }
            else { None }),
{
    if let Some(a) = cell1 {
        if (0x7C00_0000 <= a && a <= 0x7FFF_FFFF) || (0x4000_0000 <= a && a <= 0x407F_FFFF) {
            return Some(a as usize);
        }
    }
    if let Some(a) = cell0 {
        if (0x7C00_0000 <= a && a <= 0x7FFF_FFFF) || (0x4000_0000 <= a && a <= 0x407F_FFFF) {
            return Some(a as usize);
        }
    }
    None
}

/// The readable cells of an `interrupts` property, in order.
pub open spec fn spec_present(cells: Seq<Option<u32>>) -> Seq<u32>
    decreases cells.len(),
{
    if cells.len() == 0 {
        Seq::empty()
    } else {
        spec_present(cells.drop_last()) + match cells.last() {
            Some(v) => seq![v],
            None => Seq::empty(),
        }
    }
}

/// The interrupt numbers from the cells of an `interrupts` property
/// (`None` for a cell that could not be read), in order.
pub fn extract_interrupts(cells: &[Option<u32>]) -> (r: Vec<u32>)
    ensures
        r@ == spec_present(cells@),
{
    let mut out: Vec<u32> = Vec::new();
    let mut i: usize = 0;
    while i < cells.len()
        invariant
            0 <= i <= cells@.len(),
            out@ == spec_present(cells@.take(i as int)),
        decreases cells@.len() - i,
    {
        proof {
            assert(cells@.take(i as int + 1).drop_last() =~= cells@.take(i as int));
        }
        if let Some(v) = cells[i] {
            out.push(v);
        }
        i = i + 1;
    }
    assert(cells@.take(cells@.len() as int) =~= cells@);
    out
}

/// A device found in the tree.
pub struct DeviceNode {
    name: String,
    base_addr: Option<usize>,
    interrupts: Vec<u32>,
    clock_freq: Option<u32>,
}

impl DeviceNode {
    pub closed spec fn spec_name(&self) -> Seq<char> {
        self.name@
    }

    pub closed spec fn spec_base_addr(&self) -> Option<usize> {
        self.base_addr
    }

    pub closed spec fn spec_interrupts(&self) -> Seq<u32> {
        self.interrupts@
    }

    pub closed spec fn spec_clock_freq(&self) -> Option<u32> {
        self.clock_freq
    }

    /// A device with these facts.
    pub fn new(name: String, base_addr: Option<usize>, interrupts: Vec<u32>, clock_freq: Option<u32>) -> (d: Self)
        ensures
            d.spec_name() == name@,
            d.spec_base_addr() == base_addr,
            d.spec_interrupts() == interrupts@,
            d.spec_clock_freq() == clock_freq,
    {
        DeviceNode { name, base_addr, interrupts, clock_freq }
    }

    /// The node's name.
    pub fn name(&self) -> (s: &str)
        ensures
            s@ == self.spec_name(),
    {
        self.name.as_str()
    }

    /// The base address, if the node has one this kernel maps.
    pub fn base_address(&self) -> (a: Option<usize>)
        ensures
            a == self.spec_base_addr(),
    {
        self.base_addr
    }

    /// The interrupt numbers; `None` when there are none.
    pub fn interrupts(&self) -> (r: Option<&[u32]>)
        ensures
            self.spec_interrupts().len() == 0 ==> r is None,
            self.spec_interrupts().len() > 0 ==> (r matches Some(s) && s@ == self.spec_interrupts()),
    {
        if self.interrupts.len() == 0 {
            None
        } else {
            Some(self.interrupts.as_slice())
        }
    }

    /// A numeric property: only `clock-frequency` is kept.
    pub fn property_u32(&self, name: &str) -> (r: Option<u32>)
        ensures
            name@ == "clock-frequency"@ ==> r == self.spec_clock_freq(),
            name@ != "clock-frequency"@ ==> r is None,
    {
        if str_eq(name, "clock-frequency") {
            self.clock_freq
        } else {
            None
        }
    }
}

/// Whether two strings are equal.
fn str_eq(a: &str, b: &str) -> (r: bool)
    ensures
        r == (a@ == b@),
{
    let n = a.unicode_len();
    if n != b.unicode_len() {
        return false;
    }
    let mut i: usize = 0;
    while i < n
        invariant
            n == a@.len(),
            n == b@.len(),
            0 <= i <= n,
            forall|j: int| 0 <= j < i ==> #[trigger] a@[j] == b@[j],
        decreases n - i,
    {
        if a.get_char(i) != b.get_char(i) {
            return false;
        }
        i = i + 1;
    }
    assert(a@ =~= b@);
    true
}

/// The ARM physical address of a VideoCore bus address: the main
/// peripherals (0x7E000000..0x7F800000) and the second block
/// (0x7C000000..0x7E000000) move up by 0x80000000, the local peripherals
/// (0x40000000..0x40800000) by 0xBF800000; other addresses are already
/// physical.
pub fn bus_to_physical(bus_addr: usize) -> (p: usize)
    ensures
        0x7C00_0000 <= bus_addr < 0x7F80_0000 ==> p == bus_addr + 0x8000_0000,
        0x4000_0000 <= bus_addr < 0x4080_0000 ==> p == bus_addr + 0xBF80_0000,
        !(0x7C00_0000 <= bus_addr < 0x7F80_0000) && !(0x4000_0000 <= bus_addr < 0x4080_0000) ==> p == bus_addr,
{
    if 0x7E00_0000 <= bus_addr && bus_addr < 0x7F80_0000 {
        bus_addr + 0x8000_0000
    } else if 0x7C00_0000 <= bus_addr && bus_addr < 0x7E00_0000 {
        bus_addr + 0x8000_0000
    } else if 0x4000_0000 <= bus_addr && bus_addr < 0x4080_0000 {
        bus_addr + 0xBF80_0000
    } else {
        bus_addr
    }
}

} // verus!
