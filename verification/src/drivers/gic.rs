//! GIC-400 interrupt controller (distributor and CPU interface): which
//! registers to write to set it up, to enable, disable, acknowledge and
//! complete interrupts.
use vstd::prelude::*;
use super::mmio::RegOp;

verus! {

/// Physical base address of the distributor (GICD).
pub const GICD_BASE: u64 = 0xFF84_1000;

/// Physical base address of the CPU interface (GICC).
pub const GICC_BASE: u64 = 0xFF84_2000;

/// Distributor control register.
pub const GICD_CTLR: u64 = 0x000;
/// Interrupt controller type register.
pub const GICD_TYPER: u64 = 0x004;
/// Interrupt group registers.
pub const GICD_IGROUPR: u64 = 0x080;
/// Interrupt set-enable registers.
pub const GICD_ISENABLER: u64 = 0x100;
/// Interrupt clear-enable registers.
pub const GICD_ICENABLER: u64 = 0x180;
/// Interrupt priority registers (one byte per interrupt).
pub const GICD_IPRIORITYR: u64 = 0x400;
/// Interrupt target registers (one byte per interrupt).
pub const GICD_ITARGETSR: u64 = 0x800;
/// Interrupt configuration registers (two bits per interrupt).
pub const GICD_ICFGR: u64 = 0xC00;

/// CPU interface control register.
pub const GICC_CTLR: u64 = 0x000;
/// Priority mask register.
pub const GICC_PMR: u64 = 0x004;
/// Binary point register.
pub const GICC_BPR: u64 = 0x008;
/// Interrupt acknowledge register.
pub const GICC_IAR: u64 = 0x00C;
/// End of interrupt register.
pub const GICC_EOIR: u64 = 0x010;

/// Group 0 and group 1 enable bits of the control registers.
pub const ENABLE_GRP0_GRP1: u32 = 0b11;

/// Level-sensitive configuration code.
pub const LEVEL_SENSITIVE: u32 = 0b00;

/// Edge-triggered configuration code.
pub const EDGE_TRIGGERED: u32 = 0b10;

/// Priority given to every shared interrupt at setup.
pub const DEFAULT_PRIORITY: u8 = 0xA0;

/// Interrupt ID read from the acknowledge register when none is pending.
pub const SPURIOUS_INTERRUPT: u32 = 1023;

/// UART0 (PL011) interrupt ID (shared interrupt 121).
pub const IRQ_UART0: u32 = 153;

/// GENET interrupt 0 ID (shared interrupt 157).
pub const IRQ_GENET_0: u32 = 189;

/// GENET interrupt 1 ID (shared interrupt 158).
pub const IRQ_GENET_1: u32 = 190;

/// Number of interrupt lines the distributor reports in TYPER: 32 times
/// one more than bits [4:0].
pub open spec fn spec_num_interrupts(typer: u32) -> u32 {
    (32 * ((typer & 0x1Fu32) + 1)) as u32
}

/// The group register access putting `int_id` in group 0.
pub open spec fn spec_group0_op(gicd: u64, int_id: u32) -> RegOp {
    RegOp::Modify { addr: (gicd + GICD_IGROUPR + 4 * (int_id / 32)) as u64, mask: 1u32 << (int_id % 32), value: 0 }
}

/// The priority write for `int_id`.
pub open spec fn spec_priority_op(gicd: u64, int_id: u32, priority: u8) -> RegOp {
    RegOp::Write8 { addr: (gicd + GICD_IPRIORITYR + int_id) as u64, value: priority }
}

/// The target write for `int_id`.
pub open spec fn spec_target_op(gicd: u64, int_id: u32, cpu_mask: u8) -> RegOp {
    RegOp::Write8 { addr: (gicd + GICD_ITARGETSR + int_id) as u64, value: cpu_mask }
}

/// The configuration access for `int_id`.
pub open spec fn spec_config_op(gicd: u64, int_id: u32, config: u32) -> RegOp {
    RegOp::Modify {
        addr: (gicd + GICD_ICFGR + 4 * (int_id / 16)) as u64,
        mask: 3u32 << ((int_id % 16) * 2),
        value: config << ((int_id % 16) * 2),
    }
}

/// Setup of one shared interrupt: group 0, default priority, CPU 0,
/// level-sensitive.
pub open spec fn spec_spi_setup(gicd: u64, int_id: u32) -> Seq<RegOp> {
    seq![
        spec_group0_op(gicd, int_id),
        spec_priority_op(gicd, int_id, DEFAULT_PRIORITY),
        spec_target_op(gicd, int_id, 1u8),
        spec_config_op(gicd, int_id, LEVEL_SENSITIVE),
    ]
}

/// Setup of the shared interrupts `lo..hi`, in order.
pub open spec fn spec_spis_setup(gicd: u64, lo: u32, hi: u32) -> Seq<RegOp>
    decreases hi - lo,
{
    if hi <= lo {
        Seq::empty()
    } else {
        spec_spis_setup(gicd, lo, (hi - 1) as u32) + spec_spi_setup(gicd, (hi - 1) as u32)
    }
}

/// Enabling both groups in the distributor and the CPU interface, with
/// every priority accepted and all priority bits used for preemption.
pub open spec fn spec_enable_ops(gicd: u64, gicc: u64) -> Seq<RegOp> {
    seq![
        RegOp::Write32 { addr: (gicd + GICD_CTLR) as u64, value: ENABLE_GRP0_GRP1 },
        RegOp::Write32 { addr: (gicc + GICC_PMR) as u64, value: 0xFFu32 },
        RegOp::Write32 { addr: (gicc + GICC_BPR) as u64, value: 0u32 },
        RegOp::Write32 { addr: (gicc + GICC_CTLR) as u64, value: ENABLE_GRP0_GRP1 },
    ]
}

/// The GIC-400 driver.
pub struct Gic {
    gicd_base: u64,
    gicc_base: u64,
    initialized: bool,
}

impl Gic {
    pub closed spec fn spec_gicd_base(&self) -> u64 {
        self.gicd_base
    }

    pub closed spec fn spec_gicc_base(&self) -> u64 {
        self.gicc_base
    }

    /// Whether `init` has run.
    pub closed spec fn spec_initialized(&self) -> bool {
        self.initialized
    }

    /// At the BCM2711 addresses.
    pub open spec fn wf(&self) -> bool {
        self.spec_gicd_base() == GICD_BASE && self.spec_gicc_base() == GICC_BASE
    }

    /// A driver for the GIC at the BCM2711 addresses, not yet set up.
    pub fn new() -> (g: Self)
        ensures
            g.wf(),
            !g.spec_initialized(),
    {
        Gic { gicd_base: GICD_BASE, gicc_base: GICC_BASE, initialized: false }
    }

    /// First step of setup: disable the distributor. The caller then reads
    /// TYPER (at `typer_addr`) and calls `init` with its value.
    pub fn disable_distributor(&self) -> (op: RegOp)
        requires
            self.wf(),
        ensures
            op == (RegOp::Write32 { addr: (GICD_BASE + GICD_CTLR) as u64, value: 0u32 }),
    {
        RegOp::Write32 { addr: self.gicd_base + GICD_CTLR, value: 0 }
    }

    /// Address of the distributor's type register.
    pub fn typer_addr(&self) -> (a: u64)
        requires
            self.wf(),
        ensures
            a == GICD_BASE + GICD_TYPER,
    {
        self.gicd_base + GICD_TYPER
    }

    /// Set up the controller, given the TYPER value: every shared
    /// interrupt (32 up to the number TYPER reports) goes to group 0 with
    /// priority 0xA0, CPU 0 and level sensitivity; then both groups are
    /// enabled in the distributor and the CPU interface. Returns the
    /// register accesses in order.
    pub fn init(&mut self, typer: u32) -> (ops: Vec<RegOp>)
        requires
            old(self).wf(),
        ensures
            final(self).wf(),
            final(self).spec_initialized(),
            ops@ == spec_spis_setup(GICD_BASE, 32, spec_num_interrupts(typer)) + spec_enable_ops(GICD_BASE, GICC_BASE),
    {
        let it_lines = typer & 0x1F;
        assert(typer & 0x1Fu32 <= 31) by (bit_vector);
        let num_interrupts = 32 * (it_lines + 1);
        let mut ops: Vec<RegOp> = Vec::new();
        let mut int_id: u32 = 32;
        while int_id < num_interrupts
            invariant
                self.wf(),
                num_interrupts == spec_num_interrupts(typer),
                num_interrupts <= 1024,
                32 <= int_id <= num_interrupts || (int_id == 32 && num_interrupts == 32),
                ops@ == spec_spis_setup(GICD_BASE, 32, int_id),
            decreases num_interrupts - int_id,
        {
            let g = self.set_group(int_id, 0);
            let p = self.set_priority(int_id, DEFAULT_PRIORITY);
            let t = match self.set_target(int_id, 0x01) {
                Some(op) => op,
                None => {
                    assert(false);
                    RegOp::Write8 { addr: 0, value: 0 }
                },
            };
            let c = self.set_config(int_id, LEVEL_SENSITIVE);
            ops.push(g);
            ops.push(p);
            ops.push(t);
            ops.push(c);
            proof {
                assert(spec_spis_setup(GICD_BASE, 32, (int_id + 1) as u32) =~= spec_spis_setup(GICD_BASE, 32, int_id) + spec_spi_setup(GICD_BASE, int_id));
            }
            int_id = int_id + 1;
        }
        proof {
            assert(int_id == num_interrupts);
        }
        let ghost spis = ops@;
        ops.push(RegOp::Write32 { addr: self.gicd_base + GICD_CTLR, value: ENABLE_GRP0_GRP1 });
        ops.push(RegOp::Write32 { addr: self.gicc_base + GICC_PMR, value: 0xFF });
        ops.push(RegOp::Write32 { addr: self.gicc_base + GICC_BPR, value: 0 });
        ops.push(RegOp::Write32 { addr: self.gicc_base + GICC_CTLR, value: ENABLE_GRP0_GRP1 });
        self.initialized = true;
        assert(ops@ =~= spis + spec_enable_ops(GICD_BASE, GICC_BASE));
        ops
    }

    /// Enable interrupt `int_id` (the controller must be set up): write
    /// its bit to set-enable register `int_id / 32`.
    pub fn enable_interrupt(&self, int_id: u32) -> (op: RegOp)
        requires
            self.wf(),
            self.spec_initialized(),
        ensures
            op == (RegOp::Write32 { addr: (GICD_BASE + GICD_ISENABLER + 4 * (int_id / 32)) as u64, value: 1u32 << (int_id % 32) }),
    {
        RegOp::Write32 { addr: self.gicd_base + GICD_ISENABLER + (int_id / 32) as u64 * 4, value: 1u32 << (int_id % 32) }
    }

    /// Disable interrupt `int_id` (the controller must be set up): write
    /// its bit to clear-enable register `int_id / 32`.
    pub fn disable_interrupt(&self, int_id: u32) -> (op: RegOp)
        requires
            self.wf(),
            self.spec_initialized(),
        ensures
            op == (RegOp::Write32 { addr: (GICD_BASE + GICD_ICENABLER + 4 * (int_id / 32)) as u64, value: 1u32 << (int_id % 32) }),
    {
        RegOp::Write32 { addr: self.gicd_base + GICD_ICENABLER + (int_id / 32) as u64 * 4, value: 1u32 << (int_id % 32) }
    }

    /// Address of the acknowledge register; reading it yields the ID of
    /// the highest-priority pending interrupt, `SPURIOUS_INTERRUPT` when
    /// none.
    pub fn acknowledge_interrupt(&self) -> (a: u64)
        requires
            self.wf(),
        ensures
            a == GICC_BASE + GICC_IAR,
    {
        self.gicc_base + GICC_IAR
    }

    /// Signal the end of handling interrupt `int_id`.
    pub fn end_of_interrupt(&self, int_id: u32) -> (op: RegOp)
        requires
            self.wf(),
        ensures
            op == (RegOp::Write32 { addr: (GICC_BASE + GICC_EOIR) as u64, value: int_id }),
    {
        RegOp::Write32 { addr: self.gicc_base + GICC_EOIR, value: int_id }
    }

    /// Priority of `int_id` (0 highest).
    fn set_priority(&self, int_id: u32, priority: u8) -> (op: RegOp)
        requires
            self.wf(),
            int_id < 1024,
        ensures
            op == spec_priority_op(GICD_BASE, int_id, priority),
    {
        RegOp::Write8 { addr: self.gicd_base + GICD_IPRIORITYR + int_id as u64, value: priority }
    }

    /// Group of `int_id`: 1 (non-secure) sets its bit, anything else
    /// clears it (group 0, secure).
    fn set_group(&self, int_id: u32, group: u32) -> (op: RegOp)
        requires
            self.wf(),
        ensures
            group != 1 ==> op == spec_group0_op(GICD_BASE, int_id),
            group == 1 ==> op == (RegOp::Modify { addr: (GICD_BASE + GICD_IGROUPR + 4 * (int_id / 32)) as u64, mask: 1u32 << (int_id % 32), value: 1u32 << (int_id % 32) }),
    {
        let bit = 1u32 << (int_id % 32);
        let value = if group == 1 { bit } else { 0 };
        RegOp::Modify { addr: self.gicd_base + GICD_IGROUPR + (int_id / 32) as u64 * 4, mask: bit, value }
    }

    /// Target CPUs of `int_id`; `None` for IDs below 32, whose targets
    /// are fixed.
    fn set_target(&self, int_id: u32, cpu_mask: u8) -> (op: Option<RegOp>)
        requires
            self.wf(),
            int_id < 1024,
        ensures
            int_id < 32 ==> op is None,
            int_id >= 32 ==> op == Some(spec_target_op(GICD_BASE, int_id, cpu_mask)),
    {
        if int_id < 32 {
            return None;
        }
        Some(RegOp::Write8 { addr: self.gicd_base + GICD_ITARGETSR + int_id as u64, value: cpu_mask })
    }

    /// Trigger configuration of `int_id` (`LEVEL_SENSITIVE` or
    /// `EDGE_TRIGGERED`).
    fn set_config(&self, int_id: u32, config: u32) -> (op: RegOp)
        requires
            self.wf(),
        ensures
            op == spec_config_op(GICD_BASE, int_id, config),
    {
        let shift = (int_id % 16) * 2;
        RegOp::Modify { addr: self.gicd_base + GICD_ICFGR + (int_id / 16) as u64 * 4, mask: 3u32 << shift, value: config << shift }
    }
}

impl Default for Gic {
    fn default() -> (g: Self)
        ensures
            g.wf(),
            !g.spec_initialized(),
    {
        Gic::new()
    }
}

/// Whether an acknowledged ID means that no interrupt was pending.
pub fn is_spurious(int_id: u32) -> (b: bool)
    ensures
        b == (int_id == SPURIOUS_INTERRUPT),
{
    int_id == SPURIOUS_INTERRUPT
}

/// Setup touches four registers for each shared interrupt and then four
/// control registers.
pub proof fn lemma_init_length(typer: u32)
    ensures
        (spec_spis_setup(GICD_BASE, 32, spec_num_interrupts(typer)) + spec_enable_ops(GICD_BASE, GICC_BASE)).len()
            == 4 * (spec_num_interrupts(typer) - 32) + 4,
{
    assert(typer & 0x1Fu32 <= 31) by (bit_vector);
    lemma_spis_setup_len(GICD_BASE, 32, spec_num_interrupts(typer));
}

proof fn lemma_spis_setup_len(gicd: u64, lo: u32, hi: u32)
    requires
        lo <= hi,
    ensures
        spec_spis_setup(gicd, lo, hi).len() == 4 * (hi - lo),
    decreases hi - lo,
{
    if hi > lo {
        lemma_spis_setup_len(gicd, lo, (hi - 1) as u32);
    }
}

} // verus!
