//! Early GENET probe: detects the controller by its version register and
//! talks to the PHY over MDIO, for hardware diagnostics.
use vstd::prelude::*;
use super::genet::{spec_mdio_read_cmd, spec_mdio_write_cmd, GENET_BASE, SYS_REV_CTRL, UMAC_MDIO_CMD, MDIO_START_BUSY, MDIO_READ_FAIL};

verus! {

/// Expected PHY identifier (BCM54213PE).
pub const PHY_ID_BCM54213PE: u32 = 0x600D_84A2;

/// MDIO address of the PHY.
pub const PHY_ADDR: u8 = 0x01;

/// Basic mode control register and its auto-negotiation enable bit.
pub const MII_BMCR: u8 = 0x00;
pub const BMCR_ANENABLE: u16 = 1 << 12;
/// Basic mode status register and its bits.
pub const MII_BMSR: u8 = 0x01;
pub const BMSR_LSTATUS: u16 = 1 << 2;
pub const BMSR_ANEGCOMPLETE: u16 = 1 << 5;
/// PHY identifier registers.
pub const MII_PHYSID1: u8 = 0x02;
pub const MII_PHYSID2: u8 = 0x03;
/// Other PHY registers.
pub const MII_ADVERTISE: u8 = 0x04;
pub const MII_LPA: u8 = 0x05;
pub const MII_CTRL1000: u8 = 0x09;
pub const MII_STAT1000: u8 = 0x0A;

/// What one poll of an MDIO read found.
#[derive(Debug, Clone, Copy, PartialEq, Eq, Structural)]
pub enum MdioPoll {
    /// Still busy.
    Busy,
    /// Done: the value, or `None` when the read failed.
    Done(Option<u16>),
}

/// The GENET controller seen by the probe.
pub struct GenetController {
    base_addr: u64,
}

impl GenetController {
    pub closed spec fn spec_base(&self) -> u64 {
        self.base_addr
    }

    /// The controller at `GENET_BASE`.
    pub fn new() -> (g: Self)
        ensures
            g.spec_base() == GENET_BASE,
    {
        GenetController { base_addr: GENET_BASE }
    }

    /// Address of the version register.
    pub fn get_version(&self) -> (a: u64)
        requires
            self.spec_base() == GENET_BASE,
        ensures
            a == GENET_BASE + SYS_REV_CTRL,
    {
        self.base_addr + SYS_REV_CTRL
    }

    /// Whether the version register shows major version 5 (bits 31..16).
    pub fn is_present(version: u32) -> (b: bool)
        ensures
            b == ((version >> 16u32) & 0xFFFF == 5),
    {
        (version >> 16) & 0xFFFF == 0x0005
    }

    /// Major, minor and patch numbers of a version register value.
    pub fn version_parts(version: u32) -> (r: (u32, u32, u32))
        ensures
            r == ((version >> 16u32) & 0xFFFF, (version >> 8u32) & 0xFF, version & 0xFF),
    {
        ((version >> 16) & 0xFFFF, (version >> 8) & 0xFF, version & 0xFF)
    }

    /// Start reading register `reg_addr` of PHY `phy_addr`: the command
    /// to write to the MDIO command register, and that register's
    /// address. Then poll with `mdio_poll_read` (at most 1000 times, 1 µs
    /// apart).
    pub fn mdio_read(&self, phy_addr: u8, reg_addr: u8) -> (r: (u64, u32))
        requires
            self.spec_base() == GENET_BASE,
        ensures
            r == ((GENET_BASE + UMAC_MDIO_CMD) as u64, spec_mdio_read_cmd(phy_addr as u32, reg_addr as u32)),
    {
        (self.base_addr + UMAC_MDIO_CMD, super::genet::mdio_read_cmd(phy_addr as u32, reg_addr as u32))
    }

    /// Start writing `value` to register `reg_addr` of PHY `phy_addr`:
    /// the command to write and the register's address. Then poll with
    /// `mdio_poll_write` (at most 1000 times, 1 µs apart).
    pub fn mdio_write(&self, phy_addr: u8, reg_addr: u8, value: u16) -> (r: (u64, u32))
        requires
            self.spec_base() == GENET_BASE,
        ensures
            r == ((GENET_BASE + UMAC_MDIO_CMD) as u64, spec_mdio_write_cmd(phy_addr as u32, reg_addr as u32, value)),
    {
        (self.base_addr + UMAC_MDIO_CMD, super::genet::mdio_write_cmd(phy_addr as u32, reg_addr as u32, value))
    }

    /// One poll of a read: busy, or done with the value (low 16 bits) or
    /// `None` when the read failed.
    pub fn mdio_poll_read(status: u32) -> (r: MdioPoll)
        ensures
            status & MDIO_START_BUSY != 0 ==> r == MdioPoll::Busy,
            status & MDIO_START_BUSY == 0 && status & MDIO_READ_FAIL != 0 ==> r == MdioPoll::Done(None),
            status & MDIO_START_BUSY == 0 && status & MDIO_READ_FAIL == 0 ==> r == MdioPoll::Done(Some((status & 0xFFFFu32) as u16)),
    {
        if !super::genet::mdio_idle(status) {
            return MdioPoll::Busy;
        }
        MdioPoll::Done(super::genet::mdio_result(status))
    }

    /// One poll of a write: whether it is done.
    pub fn mdio_poll_write(status: u32) -> (b: bool)
        ensures
            b == (status & MDIO_START_BUSY == 0),
    {
        super::genet::mdio_idle(status)
    }

    /// The PHY identifier from the two identifier reads; `None` when
    /// either failed.
    pub fn read_phy_id(id1: Option<u16>, id2: Option<u16>) -> (r: Option<u32>)
        ensures
            match (id1, id2) {
                (Some(a), Some(b)) => r == Some((a as int * 0x10000 + b as int) as u32),
                _ => r is None,
            },
    {
        match (id1, id2) {
            (Some(a), Some(b)) => Some(super::genet::phy_id(a, b)),
            _ => None,
        }
    }

    /// Whether the controller and PHY checks pass: the version register
    /// shows GENET v5 and both PHY identifier reads succeeded. An
    /// identifier other than the expected one does not fail them.
    pub fn diagnostic_passes(version: u32, id1: Option<u16>, id2: Option<u16>) -> (b: bool)
        ensures
            b == ((version >> 16u32) & 0xFFFF == 5 && id1 is Some && id2 is Some),
    {
        Self::is_present(version) && id1.is_some() && id2.is_some()
    }

    /// Whether the identifier is the expected PHY's.
    pub fn is_expected_phy(id: u32) -> (b: bool)
        ensures
            b == (id == PHY_ID_BCM54213PE),
    {
        id == PHY_ID_BCM54213PE
    }

    /// Link up and auto-negotiation complete, from the status register.
    pub fn link_status(bmsr: u16) -> (r: (bool, bool))
        ensures
            r == (bmsr & BMSR_LSTATUS != 0, bmsr & BMSR_ANEGCOMPLETE != 0),
    {
        (bmsr & BMSR_LSTATUS != 0, bmsr & BMSR_ANEGCOMPLETE != 0)
    }

    /// Whether the control register has auto-negotiation enabled.
    pub fn autoneg_enabled(bmcr: u16) -> (b: bool)
        ensures
            b == (bmcr & BMCR_ANENABLE != 0),
    {
        bmcr & BMCR_ANENABLE != 0
    }
}

/// The read command carries the start bit, the read opcode and the PHY
/// and register addresses in their fields.
pub proof fn lemma_mdio_read_cmd_fields(phy: u8, reg: u8)
    requires
        phy < 32,
        reg < 32,
    ensures
        spec_mdio_read_cmd(phy as u32, reg as u32) & MDIO_START_BUSY == MDIO_START_BUSY,
        spec_mdio_read_cmd(phy as u32, reg as u32) & (3u32 << 26u32) == super::genet::MDIO_RD,
        (spec_mdio_read_cmd(phy as u32, reg as u32) >> 21u32) & 0x1F == phy as u32,
        (spec_mdio_read_cmd(phy as u32, reg as u32) >> 16u32) & 0x1F == reg as u32,
{
    let p = phy as u32;
    let r = reg as u32;
    assert(((1u32 << 29u32) | (2u32 << 26u32) | (p << 21u32) | (r << 16u32)) & (1u32 << 29u32) == (1u32 << 29u32)) by (bit_vector)
        requires p < 32, r < 32;
    assert(((1u32 << 29u32) | (2u32 << 26u32) | (p << 21u32) | (r << 16u32)) & (3u32 << 26u32) == (2u32 << 26u32)) by (bit_vector)
        requires p < 32, r < 32;
    assert((((1u32 << 29u32) | (2u32 << 26u32) | (p << 21u32) | (r << 16u32)) >> 21u32) & 0x1F == p) by (bit_vector)
        requires p < 32, r < 32;
    assert((((1u32 << 29u32) | (2u32 << 26u32) | (p << 21u32) | (r << 16u32)) >> 16u32) & 0x1F == r) by (bit_vector)
        requires p < 32, r < 32;
}

} // verus!
