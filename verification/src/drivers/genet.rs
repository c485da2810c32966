//! Broadcom GENET v5 Ethernet controller (BCM2711): register layout,
//! setup sequence, PHY (MDIO) commands, link decoding, DMA descriptors and
//! the ring bookkeeping of transmit and receive. The register accesses,
//! cache maintenance and DMA memory are the caller's; this driver says
//! what to write, decides on what was read and keeps the ring indices.
use vstd::prelude::*;
use super::mmio::RegOp;
use super::netdev::NetworkError;
use super::property::PropertyError;
use crate::net::ethernet::MacAddress;

verus! {

/// Physical base address of the controller.
pub const GENET_BASE: u64 = 0xFD58_0000;

/// Descriptors per DMA ring.
pub const RING_SIZE: usize = 256;
/// Bytes per DMA descriptor (length/status, address low, address high).
pub const DMA_DESC_SIZE: usize = 12;
/// Largest frame the MAC accepts (its frame-length register).
pub const MAX_FRAME_SIZE: usize = 1536;
/// Smallest frame accepted on receive (without CRC).
pub const MIN_FRAME_SIZE: usize = 60;
/// Smallest frame that may be sent: the minimum Ethernet frame.
pub const TX_MIN_FRAME_SIZE: usize = 64;
/// Largest frame that may be sent: header and a 1500-byte payload.
pub const TX_MAX_FRAME_SIZE: usize = 1514;
/// Bytes per receive buffer.
pub const RX_BUF_LENGTH: usize = 2048;
/// Padding the controller puts before each received frame.
pub const RX_BUF_OFFSET: usize = 2;

/// Revision register.
pub const SYS_REV_CTRL: u64 = 0x0000;
/// Port control register.
pub const SYS_PORT_CTRL: u64 = 0x0004;
/// Receive buffer flush control register.
pub const SYS_RBUF_FLUSH_CTRL: u64 = 0x0008;
/// External GPHY port mode.
pub const PORT_MODE_EXT_GPHY: u32 = 3;
/// Receive buffer flush reset bit.
pub const SYS_RBUF_FLUSH_RESET: u32 = 1 << 1;

/// Power management register.
pub const EXT_PWR_MGMT: u64 = 0x0080;
/// RGMII out-of-band control register.
pub const EXT_RGMII_OOB_CTRL: u64 = 0x008C;
/// Power-down bits (PHY, DLL, bias) and energy-detect mask, all cleared
/// to power up.
pub const EXT_PWR_DOWN_BITS: u32 = (1 << 0) | (1 << 1) | (1 << 2) | (0x1F << 4);
/// RGMII bits set at setup: ID mode disable, RGMII mode enable, OOB
/// disable.
pub const EXT_RGMII_OOB_BITS: u32 = (1 << 16) | (1 << 6) | (1 << 5);

/// Receive buffer control register.
pub const RBUF_CTRL: u64 = 0x0300;
/// Receive buffer size control register.
pub const RBUF_TBUF_SIZE_CTRL: u64 = 0x03B4;
/// Two-byte alignment of received frames.
pub const RBUF_ALIGN_2B: u32 = 1 << 1;

/// Interrupt controller 0 and 1 blocks.
pub const INTRL2_0_OFF: u64 = 0x0200;
pub const INTRL2_1_OFF: u64 = 0x0240;
/// Interrupt clear and mask-set registers, within a block.
pub const INTRL2_CPU_CLEAR: u64 = 0x04;
pub const INTRL2_CPU_MASK_SET: u64 = 0x10;

/// UniMAC command register.
pub const UMAC_CMD: u64 = 0x0808;
/// UniMAC address registers.
pub const UMAC_MAC0: u64 = 0x080C;
pub const UMAC_MAC1: u64 = 0x0810;
/// UniMAC maximum frame length register.
pub const UMAC_MAX_FRAME_LEN: u64 = 0x0814;
/// UniMAC mode register.
pub const UMAC_MODE: u64 = 0x0844;
/// UniMAC counter control register.
pub const UMAC_MIB_CTRL: u64 = 0x0D80;
/// UniMAC MDIO command register.
pub const UMAC_MDIO_CMD: u64 = 0x0E14;

/// Command bits.
pub const CMD_TX_EN: u32 = 1 << 0;
pub const CMD_RX_EN: u32 = 1 << 1;
pub const CMD_SPEED_10: u32 = 0 << 2;
pub const CMD_SPEED_100: u32 = 1 << 2;
pub const CMD_SPEED_1000: u32 = 2 << 2;
pub const CMD_SW_RESET: u32 = 1 << 13;
pub const CMD_LCL_LOOP_EN: u32 = 1 << 15;
/// Full-duplex mode bit.
pub const MODE_FULL_DUPLEX: u32 = 1 << 0;
/// Counter reset bits (RX, runt, TX).
pub const MIB_RESET_ALL: u32 = (1 << 0) | (1 << 1) | (1 << 2);

/// Packet counters.
pub const MIB_TX_GOOD_PKTS: u64 = 0x0CA8;
pub const MIB_TX_GOOD_OCTETS: u64 = 0x0CC0;
pub const MIB_TX_MCAST_PKTS: u64 = 0x0CAC;
pub const MIB_TX_BCAST_PKTS: u64 = 0x0CB0;
pub const MIB_RX_GOOD_PKTS: u64 = 0x0C08;
pub const MIB_RX_GOOD_OCTETS: u64 = 0x0CC0;
pub const MIB_RX_UCAST_PKTS: u64 = 0x0CD0;
pub const MIB_RX_MCAST_PKTS: u64 = 0x0C0C;
pub const MIB_RX_BCAST_PKTS: u64 = 0x0C10;
pub const MIB_RX_FCS_ERR: u64 = 0x0C28;
pub const MIB_RX_ALIGN_ERR: u64 = 0x0C30;

/// MDIO command bits.
pub const MDIO_START_BUSY: u32 = 1 << 29;
pub const MDIO_READ_FAIL: u32 = 1 << 28;
pub const MDIO_RD: u32 = 2 << 26;
pub const MDIO_WR: u32 = 1 << 26;
pub const MDIO_PMD_SHIFT: u32 = 21;
pub const MDIO_REG_SHIFT: u32 = 16;

/// MDIO address of the PHY.
pub const PHY_ADDR: u32 = 1;
/// PHY registers.
pub const MII_BMCR: u32 = 0x00;
pub const MII_BMSR: u32 = 0x01;
pub const MII_PHYSID1: u32 = 0x02;
pub const MII_PHYSID2: u32 = 0x03;
pub const MII_LPA: u32 = 0x05;
pub const MII_STAT1000: u32 = 0x0A;
/// Status bits.
pub const BMSR_LSTATUS: u16 = 1 << 2;
pub const BMSR_ANEGCOMPLETE: u16 = 1 << 5;
/// Link partner ability bits.
pub const LPA_10HALF: u16 = 1 << 5;
pub const LPA_10FULL: u16 = 1 << 6;
pub const LPA_100HALF: u16 = 1 << 7;
pub const LPA_100FULL: u16 = 1 << 8;
pub const LPA_1000FULL: u16 = 1 << 11;

/// The default descriptor ring.
pub const DESC_INDEX: u32 = 16;
/// Transmit ring 16 registers.
pub const TDMA_RING16_READ_PTR: u64 = 0x5000;
pub const TDMA_RING16_CONS_INDEX: u64 = 0x5008;
pub const TDMA_RING16_PROD_INDEX: u64 = 0x500C;
pub const TDMA_RING16_SIZE: u64 = 0x5010;
pub const TDMA_RING16_START_ADDR: u64 = 0x5014;
pub const TDMA_RING16_END_ADDR: u64 = 0x501C;
pub const TDMA_RING16_MBUF_DONE_THRESH: u64 = 0x5024;
pub const TDMA_RING16_FLOW_PERIOD: u64 = 0x5028;
pub const TDMA_RING16_WRITE_PTR: u64 = 0x502C;
/// Receive ring 16 registers.
pub const RDMA_RING16_WRITE_PTR: u64 = 0x3000;
pub const RDMA_RING16_PROD_INDEX: u64 = 0x3008;
pub const RDMA_RING16_CONS_INDEX: u64 = 0x300C;
pub const RDMA_RING16_SIZE: u64 = 0x3010;
pub const RDMA_RING16_START_ADDR: u64 = 0x3014;
pub const RDMA_RING16_END_ADDR: u64 = 0x301C;
pub const RDMA_RING16_XON_XOFF_THRESH: u64 = 0x3028;
pub const RDMA_RING16_READ_PTR: u64 = 0x302C;
/// DMA control registers.
pub const TDMA_RING_CFG: u64 = 0x5040;
pub const TDMA_CTRL: u64 = 0x5044;
pub const TDMA_SCB_BURST_SIZE: u64 = 0x504C;
pub const RDMA_RING_CFG: u64 = 0x3040;
pub const RDMA_CTRL: u64 = 0x3044;
pub const RDMA_SCB_BURST_SIZE: u64 = 0x304C;
/// DMA enable bit.
pub const DMA_CTRL_EN: u32 = 1 << 0;
/// DMA enable and ring 16 buffer enable.
pub const DMA_CTRL_RING16: u32 = (1 << 0) | (1 << 17);
/// Burst length.
pub const DMA_MAX_BURST_LENGTH: u32 = 0x08;
/// Descriptor areas of the transmit and receive rings.
pub const TDMA_DESC_OFF: u64 = 0x4000;
pub const RDMA_DESC_OFF: u64 = 0x2000;
/// Descriptor fields.
pub const DMA_DESC_LENGTH_STATUS: u64 = 0x00;
pub const DMA_DESC_ADDRESS_LO: u64 = 0x04;
pub const DMA_DESC_ADDRESS_HI: u64 = 0x08;
pub const DMA_BUFLENGTH_SHIFT: u32 = 16;
pub const DMA_BUFLENGTH_MASK: u32 = 0x0FFF;
pub const DMA_OWN: u32 = 0x8000;
pub const DMA_EOP: u32 = 0x4000;
pub const DMA_SOP: u32 = 0x2000;
pub const DMA_TX_APPEND_CRC: u32 = 0x0040;
pub const DMA_TX_QTAG_SHIFT: u32 = 7;
/// Last descriptor word of a ring: 256 descriptors of 3 words.
pub const RING_END_ADDR: u32 = 767;
/// Ring size register value: 256 descriptors of 2048-byte buffers.
pub const RING_BUF_SIZE: u32 = (256 << 16) | 2048;
/// Receive flow control thresholds.
pub const RX_XON_XOFF_THRESH: u32 = (5 << 16) | 16;

/// Link speed.
#[derive(Debug, Clone, Copy, PartialEq, Eq, Structural)]
pub enum LinkSpeed {
    Speed10,
    Speed100,
    Speed1000,
}

/// Duplex mode.
#[derive(Debug, Clone, Copy, PartialEq, Eq, Structural)]
pub enum DuplexMode {
    Half,
    Full,
}

/// Negotiated link parameters.
#[derive(Debug, Clone, Copy, PartialEq, Eq, Structural)]
pub struct LinkParams {
    pub speed: LinkSpeed,
    pub duplex: DuplexMode,
}

/// Counters of the controller.
#[derive(Debug, Clone, Copy, PartialEq, Eq, Structural)]
pub struct PacketStats {
    pub tx_packets: u32,
    pub tx_bytes: u32,
    pub tx_broadcast: u32,
    pub tx_multicast: u32,
    pub rx_packets: u32,
    pub rx_bytes: u32,
    pub rx_unicast: u32,
    pub rx_broadcast: u32,
    pub rx_multicast: u32,
    pub rx_fcs_errors: u32,
    pub rx_align_errors: u32,
}

/// The MDIO command reading register `reg` of PHY `phy`.
pub open spec fn spec_mdio_read_cmd(phy: u32, reg: u32) -> u32 {
    MDIO_START_BUSY | MDIO_RD | (phy << MDIO_PMD_SHIFT) | (reg << MDIO_REG_SHIFT)
}

/// The MDIO command writing `value` to register `reg` of PHY `phy`.
pub open spec fn spec_mdio_write_cmd(phy: u32, reg: u32, value: u16) -> u32 {
    MDIO_START_BUSY | MDIO_WR | (phy << MDIO_PMD_SHIFT) | (reg << MDIO_REG_SHIFT) | (value as u32)
}

/// The MDIO command reading register `reg` of PHY `phy`.
pub fn mdio_read_cmd(phy: u32, reg: u32) -> (c: u32)
    ensures
        c == spec_mdio_read_cmd(phy, reg),
{
    MDIO_START_BUSY | MDIO_RD | (phy << MDIO_PMD_SHIFT) | (reg << MDIO_REG_SHIFT)
}

/// The MDIO command writing `value` to register `reg` of PHY `phy`.
pub fn mdio_write_cmd(phy: u32, reg: u32, value: u16) -> (c: u32)
    ensures
        c == spec_mdio_write_cmd(phy, reg, value),
{
    MDIO_START_BUSY | MDIO_WR | (phy << MDIO_PMD_SHIFT) | (reg << MDIO_REG_SHIFT) | (value as u32)
}

/// The MDIO command register once the controller is idle: the value read
/// (low 16 bits) unless the read failed.
pub fn mdio_result(status: u32) -> (r: Option<u16>)
    ensures
        status & MDIO_READ_FAIL != 0 ==> r is None,
        status & MDIO_READ_FAIL == 0 ==> r == Some((status & 0xFFFFu32) as u16),
{
    if status & MDIO_READ_FAIL != 0 {
        None
    } else {
        Some((status & 0xFFFF) as u16)
    }
}

/// Whether the MDIO controller is idle.
pub fn mdio_idle(status: u32) -> (b: bool)
    ensures
        b == (status & MDIO_START_BUSY == 0),
{
    status & MDIO_START_BUSY == 0
}

/// The 32-bit PHY identifier from its two halves.
pub fn phy_id(id1: u16, id2: u16) -> (id: u32)
    ensures
        id == id1 as int * 0x10000 + id2 as int,
{
    let id = ((id1 as u32) << 16u32) | (id2 as u32);
    assert(((id1 as u32) << 16u32) | (id2 as u32) == id1 as u32 * 0x10000u32 + id2 as u32) by (bit_vector);
    id
}

/// The negotiated link from the PHY's status (BMSR), 1000BASE-T status
/// and link partner ability registers, each `None` when its read failed:
/// no link without a readable status showing the link up; 1000 Mbit/s
/// full duplex when the partner offers it; else the best of 100 full,
/// 100 half, 10 full, 10 half that the partner offers; else none.
pub open spec fn spec_link_params(bmsr: Option<u16>, stat1000: Option<u16>, lpa: Option<u16>) -> Option<LinkParams> {
    match bmsr {
        None => None,
        Some(b) => if b & BMSR_LSTATUS == 0 {
            None
        } else if stat1000 matches Some(s) && s & LPA_1000FULL != 0 {
            Some(LinkParams { speed: LinkSpeed::Speed1000, duplex: DuplexMode::Full })
        } else {
            match lpa {
                None => None,
                Some(l) => if l & LPA_100FULL != 0 {
                    Some(LinkParams { speed: LinkSpeed::Speed100, duplex: DuplexMode::Full })
                } else if l & LPA_100HALF != 0 {
                    Some(LinkParams { speed: LinkSpeed::Speed100, duplex: DuplexMode::Half })
                } else if l & LPA_10FULL != 0 {
                    Some(LinkParams { speed: LinkSpeed::Speed10, duplex: DuplexMode::Full })
                } else if l & LPA_10HALF != 0 {
                    Some(LinkParams { speed: LinkSpeed::Speed10, duplex: DuplexMode::Half })
                } else {
                    None
                },
            }
        },
    }
}

/// Computes `spec_link_params`.
pub fn read_link_params(bmsr: Option<u16>, stat1000: Option<u16>, lpa: Option<u16>) -> (r: Option<LinkParams>)
    ensures
        r == spec_link_params(bmsr, stat1000, lpa),
{
    let b = match bmsr {
        None => return None,
        Some(b) => b,
    };
    if b & BMSR_LSTATUS == 0 {
        return None;
    }
    if let Some(s) = stat1000 {
        if s & LPA_1000FULL != 0 {
            return Some(LinkParams { speed: LinkSpeed::Speed1000, duplex: DuplexMode::Full });
        }
    }
    match lpa {
        None => None,
        Some(l) => {
            if l & LPA_100FULL != 0 {
                Some(LinkParams { speed: LinkSpeed::Speed100, duplex: DuplexMode::Full })
            } else if l & LPA_100HALF != 0 {
                Some(LinkParams { speed: LinkSpeed::Speed100, duplex: DuplexMode::Half })
            } else if l & LPA_10FULL != 0 {
                Some(LinkParams { speed: LinkSpeed::Speed10, duplex: DuplexMode::Full })
            } else if l & LPA_10HALF != 0 {
                Some(LinkParams { speed: LinkSpeed::Speed10, duplex: DuplexMode::Half })
            } else {
                None
            }
        },
    }
}

/// Whether a status (BMSR) read shows the link up with negotiation done.
pub fn link_ready(bmsr: Option<u16>) -> (b: bool)
    ensures
        b == (bmsr matches Some(v) && v & BMSR_LSTATUS != 0 && v & BMSR_ANEGCOMPLETE != 0),
{
    match bmsr {
        Some(v) => v & BMSR_LSTATUS != 0 && v & BMSR_ANEGCOMPLETE != 0,
        None => false,
    }
}

/// The speed bits of the command register for a link.
pub open spec fn spec_cmd_speed(speed: LinkSpeed) -> u32 {
    match speed {
        LinkSpeed::Speed10 => CMD_SPEED_10,
        LinkSpeed::Speed100 => CMD_SPEED_100,
        LinkSpeed::Speed1000 => CMD_SPEED_1000,
    }
}

/// The length/status word of a transmit descriptor for a frame of `len`
/// bytes: length, queue tag 0x3F, append CRC, start and end of packet.
pub open spec fn spec_tx_len_status(len: u32) -> u32 {
    (len << DMA_BUFLENGTH_SHIFT) | (0x3Fu32 << DMA_TX_QTAG_SHIFT) | DMA_TX_APPEND_CRC | DMA_SOP | DMA_EOP
}

/// The first bytes of the UniMAC address registers: bytes 0..4 (MAC0)
/// and 4..6 (MAC1), most significant first.
pub open spec fn spec_mac_regs(b: [u8; 6]) -> (u32, u32) {
    (
        ((b[0] as u32) << 24u32) | ((b[1] as u32) << 16u32) | ((b[2] as u32) << 8u32) | (b[3] as u32),
        ((b[4] as u32) << 8u32) | (b[5] as u32),
    )
}

/// The register writes of the receive ring setup after the producer
/// index read gave `prod`.
pub open spec fn spec_rx_ring_ops(prod: u32) -> Seq<RegOp> {
    seq![
        RegOp::Write32 { addr: (GENET_BASE + RDMA_RING16_START_ADDR) as u64, value: 0u32 },
        RegOp::Write32 { addr: (GENET_BASE + RDMA_RING16_READ_PTR) as u64, value: 0u32 },
        RegOp::Write32 { addr: (GENET_BASE + RDMA_RING16_WRITE_PTR) as u64, value: 0u32 },
        RegOp::Write32 { addr: (GENET_BASE + RDMA_RING16_END_ADDR) as u64, value: RING_END_ADDR },
        RegOp::Write32 { addr: (GENET_BASE + RDMA_RING16_SIZE) as u64, value: RING_BUF_SIZE },
        RegOp::Write32 { addr: (GENET_BASE + RDMA_RING16_CONS_INDEX) as u64, value: prod },
        RegOp::Write32 { addr: (GENET_BASE + RDMA_RING16_XON_XOFF_THRESH) as u64, value: RX_XON_XOFF_THRESH },
        RegOp::Write32 { addr: (GENET_BASE + RDMA_RING_CFG) as u64, value: 1u32 << DESC_INDEX },
    ]
}

/// The register writes of the transmit ring setup after the consumer
/// index read gave `cons`.
pub open spec fn spec_tx_ring_ops(cons: u32) -> Seq<RegOp> {
    seq![
        RegOp::Write32 { addr: (GENET_BASE + TDMA_RING16_START_ADDR) as u64, value: 0u32 },
        RegOp::Write32 { addr: (GENET_BASE + TDMA_RING16_READ_PTR) as u64, value: 0u32 },
        RegOp::Write32 { addr: (GENET_BASE + TDMA_RING16_WRITE_PTR) as u64, value: 0u32 },
        RegOp::Write32 { addr: (GENET_BASE + TDMA_RING16_END_ADDR) as u64, value: RING_END_ADDR },
        RegOp::Write32 { addr: (GENET_BASE + TDMA_RING16_SIZE) as u64, value: RING_BUF_SIZE },
        RegOp::Write32 { addr: (GENET_BASE + TDMA_RING16_PROD_INDEX) as u64, value: cons },
        RegOp::Write32 { addr: (GENET_BASE + TDMA_RING16_MBUF_DONE_THRESH) as u64, value: 1u32 },
        RegOp::Write32 { addr: (GENET_BASE + TDMA_RING16_FLOW_PERIOD) as u64, value: 0u32 },
        RegOp::Write32 { addr: (GENET_BASE + TDMA_RING_CFG) as u64, value: 1u32 << DESC_INDEX },
    ]
}

/// The three writes setting receive descriptor `i` to own the buffer at
/// bus address `addr`.
pub open spec fn spec_rx_desc_ops(i: int, addr: u32) -> Seq<RegOp> {
    let d = GENET_BASE + RDMA_DESC_OFF + i * 12;
    seq![
        RegOp::Write32 { addr: (d + DMA_DESC_ADDRESS_LO) as u64, value: addr },
        RegOp::Write32 { addr: (d + DMA_DESC_ADDRESS_HI) as u64, value: 0u32 },
        RegOp::Write32 { addr: (d + DMA_DESC_LENGTH_STATUS) as u64, value: ((2048u32 << DMA_BUFLENGTH_SHIFT) | DMA_OWN) as u32 },
    ]
}

/// The writes of the first `n` receive descriptors, buffer `i` at
/// `base + i * 2048`, of which the descriptor holds the low 32 bits.
pub open spec fn spec_rx_descs_ops(base: u64, n: int) -> Seq<RegOp>
    decreases n,
{
    if n <= 0 {
        Seq::empty()
    } else {
        spec_rx_descs_ops(base, n - 1) + spec_rx_desc_ops(n - 1, ((base + (n - 1) * 2048) % 0x1_0000_0000) as u32)
    }
}

/// What the receive side found.
#[derive(Debug, Clone, Copy, PartialEq, Eq, Structural)]
pub enum RxPoll {
    /// Nothing new (or not set up).
    Empty,
    /// A descriptor is ready: read its length/status word at this
    /// address and pass it to `rx_descriptor`.
    Ready(u64),
}

/// What to do with a ready receive descriptor.
#[derive(Debug, Clone, Copy, PartialEq, Eq, Structural)]
pub enum RxFrame {
    /// Bad length: the descriptor was given back; write this consumer
    /// index register value.
    Skipped(u32),
    /// A frame lies at these byte offsets of the receive buffer area
    /// (after the 2-byte padding); give it back with `free_rx_buffer`
    /// once used.
    Frame { start: usize, end: usize },
}

/// The GENET controller's driver state.
pub struct GenetController {
    tx_index: usize,
    tx_prod_index: u32,
    rx_index: usize,
    rx_c_index: usize,
    mac_address: MacAddress,
    initialized: bool,
}

impl GenetController {
    pub closed spec fn spec_tx_index(&self) -> usize {
        self.tx_index
    }

    pub closed spec fn spec_tx_prod_index(&self) -> u32 {
        self.tx_prod_index
    }

    pub closed spec fn spec_rx_index(&self) -> usize {
        self.rx_index
    }

    pub closed spec fn spec_rx_c_index(&self) -> usize {
        self.rx_c_index
    }

    pub closed spec fn spec_mac(&self) -> MacAddress {
        self.mac_address
    }

    pub closed spec fn spec_initialized(&self) -> bool {
        self.initialized
    }

    /// Ring indices within the ring.
    pub closed spec fn wf(&self) -> bool {
        self.tx_index < RING_SIZE && self.rx_index < RING_SIZE && self.rx_c_index < RING_SIZE
    }

    /// A controller not yet set up, indices at 0, MAC all zero.
    pub fn new() -> (g: Self)
        ensures
            g.wf(),
            !g.spec_initialized(),
            g.spec_tx_index() == 0 && g.spec_tx_prod_index() == 0,
            g.spec_rx_index() == 0 && g.spec_rx_c_index() == 0,
            g.spec_mac().0@ == seq![0u8, 0u8, 0u8, 0u8, 0u8, 0u8],
    {
        let g = GenetController {
            tx_index: 0,
            tx_prod_index: 0,
            rx_index: 0,
            rx_c_index: 0,
            mac_address: MacAddress::new([0, 0, 0, 0, 0, 0]),
            initialized: false,
        };
        assert(g.mac_address.0@ =~= seq![0u8, 0u8, 0u8, 0u8, 0u8, 0u8]);
        g
    }

    /// Whether the revision register shows GENET v5, v6 or v7 (major
    /// version in bits 27..24).
    pub fn is_present(rev: u32) -> (b: bool)
        ensures
            b == ((rev >> 24u32) & 0x0F == 5 || (rev >> 24u32) & 0x0F == 6 || (rev >> 24u32) & 0x0F == 7),
    {
        let major = (rev >> 24) & 0x0F;
        major == 5 || major == 6 || major == 7
    }

    /// The MAC address in use.
    pub fn mac_address(&self) -> (m: MacAddress)
        ensures
            m == self.spec_mac(),
    {
        self.mac_address
    }

    /// Whether setup has completed.
    pub fn is_initialized(&self) -> (b: bool)
        ensures
            b == self.spec_initialized(),
    {
        self.initialized
    }

    /// First step of setup, given the revision register: fails with
    /// `HardwareNotPresent` unless a GENET v5..v7 is there.
    pub fn begin_initialize(rev: u32) -> (r: Result<(), NetworkError>)
        ensures
            r is Ok <==> ((rev >> 24u32) & 0x0F == 5 || (rev >> 24u32) & 0x0F == 6 || (rev >> 24u32) & 0x0F == 7),
            r is Err ==> r == Err::<(), NetworkError>(NetworkError::HardwareNotPresent),
    {
        if !Self::is_present(rev) {
            return Err(NetworkError::HardwareNotPresent);
        }
        Ok(())
    }

    /// Setup once the controller is known to be present
    /// (`begin_initialize`), given what the firmware answered for the MAC
    /// address. Without an address it fails with `HardwareNotPresent`,
    /// changing nothing. With one, it records the address and returns the
    /// register accesses: mask and clear all interrupts, select the
    /// external PHY, power up, enable RGMII, reset the UniMAC (flush the
    /// receive buffer, soft reset, counter reset, maximum frame length,
    /// 2-byte receive alignment, buffer size), program the MAC address and
    /// stop DMA. The controller counts as set up only once
    /// `finish_initialize` has run.
    pub fn initialize(&mut self, firmware_mac: Result<[u8; 6], PropertyError>) -> (r: Result<Vec<RegOp>, NetworkError>)
        requires
            old(self).wf(),
        ensures
            final(self).wf(),
            final(self).spec_initialized() == old(self).spec_initialized(),
            final(self).spec_tx_index() == old(self).spec_tx_index(),
            final(self).spec_rx_index() == old(self).spec_rx_index(),
            final(self).spec_rx_c_index() == old(self).spec_rx_c_index(),
            final(self).spec_tx_prod_index() == old(self).spec_tx_prod_index(),
            firmware_mac is Err ==> r == Err::<Vec<RegOp>, NetworkError>(NetworkError::HardwareNotPresent)
                && *final(self) == *old(self),
            firmware_mac matches Ok(m) ==> r matches Ok(ops) && ops@ == spec_setup_ops(m)
                && final(self).spec_mac() == MacAddress(m),
    {
        let mac = match firmware_mac {
            Ok(m) => MacAddress::new(m),
            Err(_) => return Err(NetworkError::HardwareNotPresent),
        };
        let (mac0, mac1) = mac_registers(&mac);
        let ops = vec![
            RegOp::Write32 { addr: GENET_BASE + INTRL2_0_OFF + INTRL2_CPU_MASK_SET, value: 0xFFFF_FFFF },
            RegOp::Write32 { addr: GENET_BASE + INTRL2_1_OFF + INTRL2_CPU_MASK_SET, value: 0xFFFF_FFFF },
            RegOp::Write32 { addr: GENET_BASE + INTRL2_0_OFF + INTRL2_CPU_CLEAR, value: 0xFFFF_FFFF },
            RegOp::Write32 { addr: GENET_BASE + INTRL2_1_OFF + INTRL2_CPU_CLEAR, value: 0xFFFF_FFFF },
            RegOp::Write32 { addr: GENET_BASE + SYS_PORT_CTRL, value: PORT_MODE_EXT_GPHY },
            RegOp::DelayUs { us: 10 },
            RegOp::Modify { addr: GENET_BASE + EXT_PWR_MGMT, mask: EXT_PWR_DOWN_BITS, value: 0 },
            RegOp::DelayUs { us: 10 },
            RegOp::Modify { addr: GENET_BASE + EXT_RGMII_OOB_CTRL, mask: EXT_RGMII_OOB_BITS, value: EXT_RGMII_OOB_BITS },
            RegOp::Modify { addr: GENET_BASE + SYS_RBUF_FLUSH_CTRL, mask: SYS_RBUF_FLUSH_RESET, value: SYS_RBUF_FLUSH_RESET },
            RegOp::DelayUs { us: 10 },
            RegOp::Modify { addr: GENET_BASE + SYS_RBUF_FLUSH_CTRL, mask: SYS_RBUF_FLUSH_RESET, value: 0 },
            RegOp::DelayUs { us: 10 },
            RegOp::Write32 { addr: GENET_BASE + SYS_RBUF_FLUSH_CTRL, value: 0 },
            RegOp::DelayUs { us: 10 },
            RegOp::Write32 { addr: GENET_BASE + UMAC_CMD, value: 0 },
            RegOp::Write32 { addr: GENET_BASE + UMAC_CMD, value: CMD_SW_RESET | CMD_LCL_LOOP_EN },
            RegOp::DelayUs { us: 2 },
            RegOp::Write32 { addr: GENET_BASE + UMAC_CMD, value: 0 },
            RegOp::Write32 { addr: GENET_BASE + UMAC_MIB_CTRL, value: MIB_RESET_ALL },
            RegOp::Write32 { addr: GENET_BASE + UMAC_MIB_CTRL, value: 0 },
            RegOp::Write32 { addr: GENET_BASE + UMAC_MAX_FRAME_LEN, value: 1536 },
            RegOp::Modify { addr: GENET_BASE + RBUF_CTRL, mask: RBUF_ALIGN_2B, value: RBUF_ALIGN_2B },
            RegOp::Write32 { addr: GENET_BASE + RBUF_TBUF_SIZE_CTRL, value: 1 },
            RegOp::Write32 { addr: GENET_BASE + UMAC_MAC0, value: mac0 },
            RegOp::Write32 { addr: GENET_BASE + UMAC_MAC1, value: mac1 },
            RegOp::Modify { addr: GENET_BASE + TDMA_CTRL, mask: DMA_CTRL_EN, value: 0 },
            RegOp::Modify { addr: GENET_BASE + RDMA_CTRL, mask: DMA_CTRL_EN, value: 0 },
        ];
        self.mac_address = mac;
        Ok(ops)
    }

    /// Receive ring setup, given the producer index register: the
    /// consumer index starts there (low 16 bits, within the ring).
    pub fn rx_ring_init(&mut self, prod_index: u32) -> (ops: Vec<RegOp>)
        requires
            old(self).wf(),
        ensures
            final(self).wf(),
            ops@ == spec_rx_ring_ops(prod_index),
            final(self).spec_rx_index() == (prod_index & 0xFFFFu32) as int % 256,
            final(self).spec_rx_c_index() == final(self).spec_rx_index(),
            final(self).spec_tx_index() == old(self).spec_tx_index(),
            final(self).spec_tx_prod_index() == old(self).spec_tx_prod_index(),
            final(self).spec_mac() == old(self).spec_mac(),
            final(self).spec_initialized() == old(self).spec_initialized(),
    {
        let ops = vec![
            RegOp::Write32 { addr: GENET_BASE + RDMA_RING16_START_ADDR, value: 0 },
            RegOp::Write32 { addr: GENET_BASE + RDMA_RING16_READ_PTR, value: 0 },
            RegOp::Write32 { addr: GENET_BASE + RDMA_RING16_WRITE_PTR, value: 0 },
            RegOp::Write32 { addr: GENET_BASE + RDMA_RING16_END_ADDR, value: RING_END_ADDR },
            RegOp::Write32 { addr: GENET_BASE + RDMA_RING16_SIZE, value: RING_BUF_SIZE },
            RegOp::Write32 { addr: GENET_BASE + RDMA_RING16_CONS_INDEX, value: prod_index },
            RegOp::Write32 { addr: GENET_BASE + RDMA_RING16_XON_XOFF_THRESH, value: RX_XON_XOFF_THRESH },
            RegOp::Write32 { addr: GENET_BASE + RDMA_RING_CFG, value: 1u32 << DESC_INDEX },
        ];
        let idx = ((prod_index & 0xFFFF) as usize) % RING_SIZE;
        self.rx_index = idx;
        self.rx_c_index = idx;
        ops
    }

    /// Receive descriptor setup: descriptor `i` owns the buffer at
    /// address `rx_buffers_base + i * 2048`; the descriptor's address
    /// field takes the low 32 bits of it.
    pub fn rx_descs_init(rx_buffers_base: u64) -> (ops: Vec<RegOp>)
        requires
            rx_buffers_base + 256 * 2048 <= u64::MAX,
        ensures
            ops@ == spec_rx_descs_ops(rx_buffers_base, 256),
    {
        let mut ops: Vec<RegOp> = Vec::new();
        let mut i: usize = 0;
        while i < RING_SIZE
            invariant
                0 <= i <= RING_SIZE,
                rx_buffers_base + 256 * 2048 <= u64::MAX,
                ops@ == spec_rx_descs_ops(rx_buffers_base, i as int),
            decreases RING_SIZE - i,
        {
            let full = rx_buffers_base + (i as u64) * 2048;
            let buffer_addr = (full & 0xFFFF_FFFF) as u32;
            proof {
                assert(full & 0xFFFF_FFFFu64 == full % 0x1_0000_0000) by (bit_vector);
            }
            let desc = GENET_BASE + RDMA_DESC_OFF + (i as u64) * 12;
            ops.push(RegOp::Write32 { addr: desc + DMA_DESC_ADDRESS_LO, value: buffer_addr });
            ops.push(RegOp::Write32 { addr: desc + DMA_DESC_ADDRESS_HI, value: 0 });
            ops.push(RegOp::Write32 { addr: desc + DMA_DESC_LENGTH_STATUS, value: (2048u32 << DMA_BUFLENGTH_SHIFT) | DMA_OWN });
            proof {
                assert(spec_rx_descs_ops(rx_buffers_base, i as int + 1) =~= spec_rx_descs_ops(rx_buffers_base, i as int) + spec_rx_desc_ops(i as int, buffer_addr));
            }
            i = i + 1;
        }
        ops
    }

    /// Transmit ring setup, given the consumer index register: the
    /// producer index starts there.
    pub fn tx_ring_init(&mut self, cons_index: u32) -> (ops: Vec<RegOp>)
        requires
            old(self).wf(),
        ensures
            final(self).wf(),
            ops@ == spec_tx_ring_ops(cons_index),
            final(self).spec_tx_index() == (cons_index & 0xFFFFu32) as int % 256,
            final(self).spec_tx_prod_index() == cons_index,
            final(self).spec_rx_index() == old(self).spec_rx_index(),
            final(self).spec_rx_c_index() == old(self).spec_rx_c_index(),
            final(self).spec_mac() == old(self).spec_mac(),
            final(self).spec_initialized() == old(self).spec_initialized(),
    {
        let ops = vec![
            RegOp::Write32 { addr: GENET_BASE + TDMA_RING16_START_ADDR, value: 0 },
            RegOp::Write32 { addr: GENET_BASE + TDMA_RING16_READ_PTR, value: 0 },
            RegOp::Write32 { addr: GENET_BASE + TDMA_RING16_WRITE_PTR, value: 0 },
            RegOp::Write32 { addr: GENET_BASE + TDMA_RING16_END_ADDR, value: RING_END_ADDR },
            RegOp::Write32 { addr: GENET_BASE + TDMA_RING16_SIZE, value: RING_BUF_SIZE },
            RegOp::Write32 { addr: GENET_BASE + TDMA_RING16_PROD_INDEX, value: cons_index },
            RegOp::Write32 { addr: GENET_BASE + TDMA_RING16_MBUF_DONE_THRESH, value: 1 },
            RegOp::Write32 { addr: GENET_BASE + TDMA_RING16_FLOW_PERIOD, value: 0 },
            RegOp::Write32 { addr: GENET_BASE + TDMA_RING_CFG, value: 1u32 << DESC_INDEX },
        ];
        self.tx_index = ((cons_index & 0xFFFF) as usize) % RING_SIZE;
        self.tx_prod_index = cons_index;
        ops
    }

    /// Start DMA: burst sizes, transmit control, and the enable bits
    /// added to the receive control register.
    pub fn enable_dma() -> (ops: Vec<RegOp>)
        ensures
            ops@ == seq![
                RegOp::Write32 { addr: (GENET_BASE + TDMA_SCB_BURST_SIZE) as u64, value: DMA_MAX_BURST_LENGTH },
                RegOp::Write32 { addr: (GENET_BASE + RDMA_SCB_BURST_SIZE) as u64, value: DMA_MAX_BURST_LENGTH },
                RegOp::Write32 { addr: (GENET_BASE + TDMA_CTRL) as u64, value: DMA_CTRL_RING16 },
                RegOp::Modify { addr: (GENET_BASE + RDMA_CTRL) as u64, mask: DMA_CTRL_RING16, value: DMA_CTRL_RING16 },
            ],
    {
        vec![
            RegOp::Write32 { addr: GENET_BASE + TDMA_SCB_BURST_SIZE, value: DMA_MAX_BURST_LENGTH },
            RegOp::Write32 { addr: GENET_BASE + RDMA_SCB_BURST_SIZE, value: DMA_MAX_BURST_LENGTH },
            RegOp::Write32 { addr: GENET_BASE + TDMA_CTRL, value: DMA_CTRL_RING16 },
            RegOp::Modify { addr: GENET_BASE + RDMA_CTRL, mask: DMA_CTRL_RING16, value: DMA_CTRL_RING16 },
        ]
    }

    /// Last step of setup: program the link (1000 Mbit/s full duplex when
    /// it could not be read), enable transmit and receive, and mark the
    /// controller set up.
    pub fn finish_initialize(&mut self, link: Option<LinkParams>) -> (ops: Vec<RegOp>)
        requires
            old(self).wf(),
        ensures
            final(self).wf(),
            final(self).spec_initialized(),
            final(self).spec_tx_index() == old(self).spec_tx_index(),
            final(self).spec_tx_prod_index() == old(self).spec_tx_prod_index(),
            final(self).spec_rx_index() == old(self).spec_rx_index(),
            final(self).spec_rx_c_index() == old(self).spec_rx_c_index(),
            final(self).spec_mac() == old(self).spec_mac(),
            ({
                let p = match link {
                    Some(p) => p,
                    None => LinkParams { speed: LinkSpeed::Speed1000, duplex: DuplexMode::Full },
                };
                ops@ == seq![
                    RegOp::Write32 { addr: (GENET_BASE + UMAC_CMD) as u64, value: spec_cmd_speed(p.speed) },
                    RegOp::Write32 { addr: (GENET_BASE + UMAC_MODE) as u64, value: if p.duplex == DuplexMode::Full { MODE_FULL_DUPLEX } else { 0u32 } },
                    RegOp::Modify { addr: (GENET_BASE + UMAC_CMD) as u64, mask: CMD_TX_EN | CMD_RX_EN, value: CMD_TX_EN | CMD_RX_EN },
                ]
            }),
    {
        let params = match link {
            Some(p) => p,
            None => LinkParams { speed: LinkSpeed::Speed1000, duplex: DuplexMode::Full },
        };
        let cmd_speed = match params.speed {
            LinkSpeed::Speed10 => CMD_SPEED_10,
            LinkSpeed::Speed100 => CMD_SPEED_100,
            LinkSpeed::Speed1000 => CMD_SPEED_1000,
        };
        let mode = match params.duplex {
            DuplexMode::Full => MODE_FULL_DUPLEX,
            DuplexMode::Half => 0,
        };
        self.initialized = true;
        vec![
            RegOp::Write32 { addr: GENET_BASE + UMAC_CMD, value: cmd_speed },
            RegOp::Write32 { addr: GENET_BASE + UMAC_MODE, value: mode },
            RegOp::Modify { addr: GENET_BASE + UMAC_CMD, mask: CMD_TX_EN | CMD_RX_EN, value: CMD_TX_EN | CMD_RX_EN },
        ]
    }

    /// Addresses of the transmit producer and consumer index registers.
    pub fn read_dma_indices() -> (r: (u64, u64))
        ensures
            r == ((GENET_BASE + TDMA_RING16_PROD_INDEX) as u64, (GENET_BASE + TDMA_RING16_CONS_INDEX) as u64),
    {
        (GENET_BASE + TDMA_RING16_PROD_INDEX, GENET_BASE + TDMA_RING16_CONS_INDEX)
    }

    /// Addresses of the counters, in the order of `PacketStats`' fields.
    pub fn stats_registers() -> (r: [u64; 11])
        ensures
            r@ == seq![
                (GENET_BASE + MIB_TX_GOOD_PKTS) as u64, (GENET_BASE + MIB_TX_GOOD_OCTETS) as u64,
                (GENET_BASE + MIB_TX_BCAST_PKTS) as u64, (GENET_BASE + MIB_TX_MCAST_PKTS) as u64,
                (GENET_BASE + MIB_RX_GOOD_PKTS) as u64, (GENET_BASE + MIB_RX_GOOD_OCTETS) as u64,
                (GENET_BASE + MIB_RX_UCAST_PKTS) as u64, (GENET_BASE + MIB_RX_BCAST_PKTS) as u64,
                (GENET_BASE + MIB_RX_MCAST_PKTS) as u64, (GENET_BASE + MIB_RX_FCS_ERR) as u64,
                (GENET_BASE + MIB_RX_ALIGN_ERR) as u64,
            ],
    {
        let r = [
            GENET_BASE + MIB_TX_GOOD_PKTS, GENET_BASE + MIB_TX_GOOD_OCTETS,
            GENET_BASE + MIB_TX_BCAST_PKTS, GENET_BASE + MIB_TX_MCAST_PKTS,
            GENET_BASE + MIB_RX_GOOD_PKTS, GENET_BASE + MIB_RX_GOOD_OCTETS,
            GENET_BASE + MIB_RX_UCAST_PKTS, GENET_BASE + MIB_RX_BCAST_PKTS,
            GENET_BASE + MIB_RX_MCAST_PKTS, GENET_BASE + MIB_RX_FCS_ERR,
            GENET_BASE + MIB_RX_ALIGN_ERR,
        ];
        assert(r@ =~= seq![
            (GENET_BASE + MIB_TX_GOOD_PKTS) as u64, (GENET_BASE + MIB_TX_GOOD_OCTETS) as u64,
            (GENET_BASE + MIB_TX_BCAST_PKTS) as u64, (GENET_BASE + MIB_TX_MCAST_PKTS) as u64,
            (GENET_BASE + MIB_RX_GOOD_PKTS) as u64, (GENET_BASE + MIB_RX_GOOD_OCTETS) as u64,
            (GENET_BASE + MIB_RX_UCAST_PKTS) as u64, (GENET_BASE + MIB_RX_BCAST_PKTS) as u64,
            (GENET_BASE + MIB_RX_MCAST_PKTS) as u64, (GENET_BASE + MIB_RX_FCS_ERR) as u64,
            (GENET_BASE + MIB_RX_ALIGN_ERR) as u64,
        ]);
        r
    }

    /// The counters from the values read at `stats_registers`.
    pub fn read_stats(values: &[u32; 11]) -> (s: PacketStats)
        ensures
            s == (PacketStats {
                tx_packets: values@[0], tx_bytes: values@[1], tx_broadcast: values@[2], tx_multicast: values@[3],
                rx_packets: values@[4], rx_bytes: values@[5], rx_unicast: values@[6], rx_broadcast: values@[7],
                rx_multicast: values@[8], rx_fcs_errors: values@[9], rx_align_errors: values@[10],
            }),
    {
        PacketStats {
            tx_packets: values[0], tx_bytes: values[1], tx_broadcast: values[2], tx_multicast: values[3],
            rx_packets: values[4], rx_bytes: values[5], rx_unicast: values[6], rx_broadcast: values[7],
            rx_multicast: values[8], rx_fcs_errors: values[9], rx_align_errors: values[10],
        }
    }

    /// Check a frame for sending: `NotInitialized` before setup,
    /// `FrameTooSmall` below 64 bytes, `FrameTooLarge` above 1514 bytes.
    /// Else the descriptor to
    /// fill: its address and its length/status word (the frame itself
    /// goes to the transmit buffer, whose bus address the caller writes
    /// to the descriptor's address field).
    pub fn transmit_frame(&self, frame_len: usize) -> (r: Result<(u64, u32), NetworkError>)
        requires
            self.wf(),
        ensures
            !self.spec_initialized() ==> r == Err::<(u64, u32), NetworkError>(NetworkError::NotInitialized),
            self.spec_initialized() && frame_len < TX_MIN_FRAME_SIZE ==> r == Err::<(u64, u32), NetworkError>(NetworkError::FrameTooSmall),
            self.spec_initialized() && frame_len > TX_MAX_FRAME_SIZE ==> r == Err::<(u64, u32), NetworkError>(NetworkError::FrameTooLarge),
            self.spec_initialized() && TX_MIN_FRAME_SIZE <= frame_len <= TX_MAX_FRAME_SIZE ==>
                r == Ok::<(u64, u32), NetworkError>(((GENET_BASE + TDMA_DESC_OFF + self.spec_tx_index() * 12) as u64, spec_tx_len_status(frame_len as u32))),
    {
        if !self.initialized {
            return Err(NetworkError::NotInitialized);
        }
        if frame_len < TX_MIN_FRAME_SIZE {
            return Err(NetworkError::FrameTooSmall);
        }
        if frame_len > TX_MAX_FRAME_SIZE {
            return Err(NetworkError::FrameTooLarge);
        }
        let len_status = ((frame_len as u32) << DMA_BUFLENGTH_SHIFT) | (0x3Fu32 << DMA_TX_QTAG_SHIFT) | DMA_TX_APPEND_CRC | DMA_SOP | DMA_EOP;
        Ok((GENET_BASE + TDMA_DESC_OFF + (self.tx_index as u64) * 12, len_status))
    }

    /// After writing the descriptor's length/status word `written` and
    /// reading back `readback`: a mismatch is `TransmitTimeout`; else the
    /// next descriptor becomes current and the new producer index (the
    /// one read, `prod_read`, plus one) is returned for writing.
    pub fn descriptor_written(&mut self, written: u32, readback: u32, prod_read: u32) -> (r: Result<u32, NetworkError>)
        requires
            old(self).wf(),
        ensures
            final(self).wf(),
            final(self).spec_initialized() == old(self).spec_initialized(),
            final(self).spec_mac() == old(self).spec_mac(),
            final(self).spec_rx_index() == old(self).spec_rx_index(),
            final(self).spec_rx_c_index() == old(self).spec_rx_c_index(),
            readback != written ==> r == Err::<u32, NetworkError>(NetworkError::TransmitTimeout) && *final(self) == *old(self),
            readback == written ==> {
                let p = if prod_read == u32::MAX { 0u32 } else { (prod_read + 1) as u32 };
                &&& r == Ok::<u32, NetworkError>(p)
                &&& final(self).spec_tx_index() == (old(self).spec_tx_index() + 1) % 256
                &&& final(self).spec_tx_prod_index() == p
            },
    {
        if readback != written {
            return Err(NetworkError::TransmitTimeout);
        }
        self.tx_index = (self.tx_index + 1) % RING_SIZE;
        let prod = prod_read.wrapping_add(1);
        self.tx_prod_index = prod;
        Ok(prod)
    }

    /// Whether the transmitted frame has been consumed: the consumer index
    /// read (low 16 bits) has reached the producer index.
    pub fn transmit_done(&self, cons: u32) -> (b: bool)
        ensures
            b == (cons & 0xFFFFu32 >= self.spec_tx_prod_index() & 0xFFFFu32),
    {
        (cons & 0xFFFF) >= (self.tx_prod_index & 0xFFFF)
    }

    /// Look for a received frame, given the producer index register.
    pub fn receive_frame(&self, prod_reg: u32) -> (r: RxPoll)
        requires
            self.wf(),
        ensures
            !self.spec_initialized() ==> r == RxPoll::Empty,
            self.spec_initialized() && (prod_reg & 0xFFFFu32) as int == self.spec_rx_c_index() ==> r == RxPoll::Empty,
            self.spec_initialized() && (prod_reg & 0xFFFFu32) as int != self.spec_rx_c_index() ==>
                r == RxPoll::Ready((GENET_BASE + RDMA_DESC_OFF + self.spec_rx_index() * 12 + DMA_DESC_LENGTH_STATUS) as u64),
    {
        if !self.initialized {
            return RxPoll::Empty;
        }
        let prod = (prod_reg & 0xFFFF) as usize;
        if prod == self.rx_c_index {
            return RxPoll::Empty;
        }
        RxPoll::Ready(GENET_BASE + RDMA_DESC_OFF + (self.rx_index as u64) * 12 + DMA_DESC_LENGTH_STATUS)
    }

    /// Decide on a ready descriptor from its length/status word: a length
    /// outside 60..=2048 gives the descriptor back at once (the indices
    /// advance); else the frame's byte range in the buffer area.
    pub fn rx_descriptor(&mut self, length_status: u32) -> (r: RxFrame)
        requires
            old(self).wf(),
        ensures
            final(self).wf(),
            final(self).spec_initialized() == old(self).spec_initialized(),
            final(self).spec_mac() == old(self).spec_mac(),
            final(self).spec_tx_index() == old(self).spec_tx_index(),
            final(self).spec_tx_prod_index() == old(self).spec_tx_prod_index(),
            ({
                let len = (length_status >> DMA_BUFLENGTH_SHIFT) & DMA_BUFLENGTH_MASK;
                if len < MIN_FRAME_SIZE || len > RX_BUF_LENGTH {
                    &&& final(self).spec_rx_index() == (old(self).spec_rx_index() + 1) % 256
                    &&& final(self).spec_rx_c_index() == (old(self).spec_rx_c_index() + 1) % 256
                    &&& r == RxFrame::Skipped(final(self).spec_rx_c_index() as u32)
                } else {
                    &&& *final(self) == *old(self)
                    &&& r == (RxFrame::Frame {
                        start: (old(self).spec_rx_index() * 2048 + RX_BUF_OFFSET) as usize,
                        end: (old(self).spec_rx_index() * 2048 + len) as usize,
                    })
                }
            }),
    {
        let len = ((length_status >> DMA_BUFLENGTH_SHIFT) & DMA_BUFLENGTH_MASK) as usize;
        if len < MIN_FRAME_SIZE || len > RX_BUF_LENGTH {
            self.rx_index = (self.rx_index + 1) % RING_SIZE;
            self.rx_c_index = (self.rx_c_index + 1) % RING_SIZE;
            return RxFrame::Skipped(self.rx_c_index as u32);
        }
        let offset = self.rx_index * RX_BUF_LENGTH;
        RxFrame::Frame { start: offset + RX_BUF_OFFSET, end: offset + len }
    }

    /// Give the current receive buffer back: the indices advance; returns
    /// the buffer's byte offset in the buffer area (for cache maintenance)
    /// and the consumer index register value to write.
    pub fn free_rx_buffer(&mut self) -> (r: (usize, u32))
        requires
            old(self).wf(),
        ensures
            final(self).wf(),
            final(self).spec_initialized() == old(self).spec_initialized(),
            final(self).spec_mac() == old(self).spec_mac(),
            final(self).spec_tx_index() == old(self).spec_tx_index(),
            final(self).spec_tx_prod_index() == old(self).spec_tx_prod_index(),
            final(self).spec_rx_index() == (old(self).spec_rx_index() + 1) % 256,
            final(self).spec_rx_c_index() == (old(self).spec_rx_c_index() + 1) % 256,
            r == ((old(self).spec_rx_index() * 2048) as usize, final(self).spec_rx_c_index() as u32),
    {
        let offset = self.rx_index * RX_BUF_LENGTH;
        self.rx_index = (self.rx_index + 1) % RING_SIZE;
        self.rx_c_index = (self.rx_c_index + 1) % RING_SIZE;
        (offset, self.rx_c_index as u32)
    }
}

/// The UniMAC address registers for a MAC address.
pub fn mac_registers(mac: &MacAddress) -> (r: (u32, u32))
    ensures
        r == spec_mac_regs(mac.0),
{
    let b = mac.as_bytes();
    let mac0 = ((b[0] as u32) << 24u32) | ((b[1] as u32) << 16u32) | ((b[2] as u32) << 8u32) | (b[3] as u32);
    let mac1 = ((b[4] as u32) << 8u32) | (b[5] as u32);
    (mac0, mac1)
}

/// The register accesses of `GenetController::initialize` for a MAC
/// address.
pub open spec fn spec_setup_ops(mac: [u8; 6]) -> Seq<RegOp> {
    seq![
        RegOp::Write32 { addr: (GENET_BASE + INTRL2_0_OFF + INTRL2_CPU_MASK_SET) as u64, value: 0xFFFF_FFFFu32 },
        RegOp::Write32 { addr: (GENET_BASE + INTRL2_1_OFF + INTRL2_CPU_MASK_SET) as u64, value: 0xFFFF_FFFFu32 },
        RegOp::Write32 { addr: (GENET_BASE + INTRL2_0_OFF + INTRL2_CPU_CLEAR) as u64, value: 0xFFFF_FFFFu32 },
        RegOp::Write32 { addr: (GENET_BASE + INTRL2_1_OFF + INTRL2_CPU_CLEAR) as u64, value: 0xFFFF_FFFFu32 },
        RegOp::Write32 { addr: (GENET_BASE + SYS_PORT_CTRL) as u64, value: PORT_MODE_EXT_GPHY },
        RegOp::DelayUs { us: 10u64 },
        RegOp::Modify { addr: (GENET_BASE + EXT_PWR_MGMT) as u64, mask: EXT_PWR_DOWN_BITS, value: 0u32 },
        RegOp::DelayUs { us: 10u64 },
        RegOp::Modify { addr: (GENET_BASE + EXT_RGMII_OOB_CTRL) as u64, mask: EXT_RGMII_OOB_BITS, value: EXT_RGMII_OOB_BITS },
        RegOp::Modify { addr: (GENET_BASE + SYS_RBUF_FLUSH_CTRL) as u64, mask: SYS_RBUF_FLUSH_RESET, value: SYS_RBUF_FLUSH_RESET },
        RegOp::DelayUs { us: 10u64 },
        RegOp::Modify { addr: (GENET_BASE + SYS_RBUF_FLUSH_CTRL) as u64, mask: SYS_RBUF_FLUSH_RESET, value: 0u32 },
        RegOp::DelayUs { us: 10u64 },
        RegOp::Write32 { addr: (GENET_BASE + SYS_RBUF_FLUSH_CTRL) as u64, value: 0u32 },
        RegOp::DelayUs { us: 10u64 },
        RegOp::Write32 { addr: (GENET_BASE + UMAC_CMD) as u64, value: 0u32 },
        RegOp::Write32 { addr: (GENET_BASE + UMAC_CMD) as u64, value: CMD_SW_RESET | CMD_LCL_LOOP_EN },
        RegOp::DelayUs { us: 2u64 },
        RegOp::Write32 { addr: (GENET_BASE + UMAC_CMD) as u64, value: 0u32 },
        RegOp::Write32 { addr: (GENET_BASE + UMAC_MIB_CTRL) as u64, value: MIB_RESET_ALL },
        RegOp::Write32 { addr: (GENET_BASE + UMAC_MIB_CTRL) as u64, value: 0u32 },
        RegOp::Write32 { addr: (GENET_BASE + UMAC_MAX_FRAME_LEN) as u64, value: 1536u32 },
        RegOp::Modify { addr: (GENET_BASE + RBUF_CTRL) as u64, mask: RBUF_ALIGN_2B, value: RBUF_ALIGN_2B },
        RegOp::Write32 { addr: (GENET_BASE + RBUF_TBUF_SIZE_CTRL) as u64, value: 1u32 },
        RegOp::Write32 { addr: (GENET_BASE + UMAC_MAC0) as u64, value: spec_mac_regs(mac).0 },
        RegOp::Write32 { addr: (GENET_BASE + UMAC_MAC1) as u64, value: spec_mac_regs(mac).1 },
        RegOp::Modify { addr: (GENET_BASE + TDMA_CTRL) as u64, mask: DMA_CTRL_EN, value: 0u32 },
        RegOp::Modify { addr: (GENET_BASE + RDMA_CTRL) as u64, mask: DMA_CTRL_EN, value: 0u32 },
    ]
}

/// What a bounded wait decides after each poll.
#[derive(Debug, Clone, Copy, PartialEq, Eq, Structural)]
pub enum WaitPoll {
    /// The condition holds.
    Done,
    /// Not yet: wait and poll again.
    Again,
    /// The polls are used up.
    GaveUp,
}

/// A wait of at most `limit` polls.
#[derive(Debug, Clone, Copy)]
pub struct BoundedWait {
    pub polls: u32,
    pub limit: u32,
}

impl BoundedWait {
    /// A wait of at most `limit` polls.
    pub fn new(limit: u32) -> (w: Self)
        ensures
            w.polls == 0,
            w.limit == limit,
    {
        BoundedWait { polls: 0, limit }
    }

    /// Record one poll whose condition was `ready`.
    pub fn poll(&mut self, ready: bool) -> (r: WaitPoll)
        requires
            old(self).polls < old(self).limit,
        ensures
            final(self).limit == old(self).limit,
            final(self).polls == old(self).polls + 1,
            ready ==> r == WaitPoll::Done,
            !ready && final(self).polls < final(self).limit ==> r == WaitPoll::Again,
            !ready && final(self).polls == final(self).limit ==> r == WaitPoll::GaveUp,
    {
        self.polls = self.polls + 1;
        if ready {
            WaitPoll::Done
        } else if self.polls < self.limit {
            WaitPoll::Again
        } else {
            WaitPoll::GaveUp
        }
    }
}

/// Polls of the MDIO controller before giving up.
pub const MDIO_POLLS: u32 = 1000;
/// Polls of the transmit consumer index before giving up.
pub const TX_POLLS: u32 = 100;
/// Polls of the link status before going on without link.
pub const LINK_POLLS: u32 = 50;

/// The outcome of the whole setup, run as its steps go: the presence
/// check on the revision register `rev`, then `initialize` with the
/// firmware's MAC answer, the ring setups and `finish_initialize`.
/// Without a GENET v5..v7 setup stops with `HardwareNotPresent` before
/// the firmware is asked; without a MAC address it stops with
/// `HardwareNotPresent` leaving the controller as it was; otherwise the
/// controller ends up set up, with the firmware's address.
pub proof fn lemma_setup_outcome(
    rev: u32,
    firmware_mac: Result<[u8; 6], PropertyError>,
    c0: GenetController,
    c1: GenetController,
    c2: GenetController,
    c3: GenetController,
    c4: GenetController,
)
    requires
        c0.wf(),
        // `initialize` after a successful presence check
        ((rev >> 24u32) & 0x0F == 5 || (rev >> 24u32) & 0x0F == 6 || (rev >> 24u32) & 0x0F == 7),
        firmware_mac is Err ==> c1 == c0,
        firmware_mac matches Ok(m) ==> c1.spec_mac() == MacAddress(m) && c1.spec_initialized() == c0.spec_initialized(),
        // `rx_ring_init` and `tx_ring_init`
        c2.spec_mac() == c1.spec_mac() && c2.spec_initialized() == c1.spec_initialized(),
        c3.spec_mac() == c2.spec_mac() && c3.spec_initialized() == c2.spec_initialized(),
        // `finish_initialize`
        c4.spec_initialized() && c4.spec_mac() == c3.spec_mac(),
    ensures
        firmware_mac is Err ==> c1.spec_initialized() == c0.spec_initialized() && c1.spec_mac() == c0.spec_mac(),
        firmware_mac matches Ok(m) ==> c4.spec_initialized() && c4.spec_mac() == MacAddress(m),
{
}

/// A received frame's length field never exceeds the buffer it lies in:
/// a frame handed out lies within its receive buffer and the buffer area.
pub proof fn lemma_rx_frame_in_buffer(rx_index: usize, len: u32)
    requires
        rx_index < RING_SIZE,
        MIN_FRAME_SIZE <= len <= RX_BUF_LENGTH,
    ensures
        rx_index * 2048 + RX_BUF_OFFSET < rx_index * 2048 + len <= (rx_index + 1) * 2048,
        (rx_index + 1) * 2048 <= RING_SIZE * RX_BUF_LENGTH,
{
}

} // verus!
