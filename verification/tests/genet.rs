use daedalus::drivers::genet::GenetController as GenetDriver;
use daedalus::drivers::mmio::RegOp;
use daedalus::drivers::netdev::NetworkError;
use daedalus::drivers::property::PropertyError;
use daedalus::drivers::genet::{
    mdio_idle, mdio_read_cmd, mdio_result, mdio_write_cmd, phy_id, MDIO_PMD_SHIFT, MDIO_RD, MDIO_READ_FAIL,
    MDIO_REG_SHIFT, MDIO_START_BUSY, MDIO_WR, SYS_REV_CTRL, UMAC_CMD, UMAC_MAC0, UMAC_MAC1, UMAC_MDIO_CMD,
};
use daedalus::drivers::genet_probe::{
    GenetController, MdioPoll, MII_ADVERTISE, MII_BMCR, MII_BMSR, MII_LPA, MII_PHYSID1, MII_PHYSID2, PHY_ADDR,
    PHY_ID_BCM54213PE,
};

#[test]
fn test_genet_register_offsets() {
    assert_eq!(SYS_REV_CTRL, 0x0000);
    assert_eq!(UMAC_CMD, 0x0808);
    assert_eq!(UMAC_MAC0, 0x080C);
    assert_eq!(UMAC_MAC1, 0x0810);
    assert_eq!(UMAC_MDIO_CMD, 0x0E14);
}

#[test]
fn test_mdio_command_encoding() {
    let phy_addr = 0x01u8;
    let reg_addr = 0x02u8;

    let cmd = mdio_read_cmd(phy_addr as u32, reg_addr as u32);

    assert_eq!(cmd & MDIO_START_BUSY, MDIO_START_BUSY);
    assert_eq!(cmd & (0b11 << 26), MDIO_RD);
    assert_eq!((cmd >> MDIO_PMD_SHIFT) & 0x1F, phy_addr as u32);
    assert_eq!((cmd >> MDIO_REG_SHIFT) & 0x1F, reg_addr as u32);

    let w = mdio_write_cmd(1, 4, 0x01E1);
    assert_eq!(w & (0b11 << 26), MDIO_WR);
    assert_eq!(w & 0xFFFF, 0x01E1);
    assert_eq!(w, 0x2000_0000 | 0x0400_0000 | (1 << 21) | (4 << 16) | 0x01E1);

    let g = GenetController::new();
    let (addr, legacy) = g.mdio_read(phy_addr, reg_addr);
    assert_eq!(legacy, cmd);
    assert_eq!(addr, 0xFD58_0000 + UMAC_MDIO_CMD);
}

#[test]
fn mdio_status_decoding() {
    assert!(!mdio_idle(MDIO_START_BUSY));
    assert!(mdio_idle(0x1234));
    assert_eq!(mdio_result(0xABCD_1234 & !MDIO_READ_FAIL & !MDIO_START_BUSY), Some(0x1234));
    assert_eq!(mdio_result(MDIO_READ_FAIL | 0x55), None);
    assert_eq!(GenetController::mdio_poll_read(MDIO_START_BUSY), MdioPoll::Busy);
    assert_eq!(GenetController::mdio_poll_read(0x0000_796D), MdioPoll::Done(Some(0x796D)));
    assert_eq!(GenetController::mdio_poll_read(MDIO_READ_FAIL), MdioPoll::Done(None));
    assert!(GenetController::mdio_poll_write(0));
    assert!(!GenetController::mdio_poll_write(MDIO_START_BUSY));
}

#[test]
fn test_phy_id_constants() {
    assert_eq!(PHY_ID_BCM54213PE, 0x600D84A2);
    assert_eq!(PHY_ADDR, 0x01);
    assert_eq!(phy_id(0x600D, 0x84A2), PHY_ID_BCM54213PE);
    assert_eq!(GenetController::read_phy_id(Some(0x600D), Some(0x84A2)), Some(PHY_ID_BCM54213PE));
    assert_eq!(GenetController::read_phy_id(None, Some(0x84A2)), None);
    assert!(GenetController::is_expected_phy(0x600D84A2));
    assert!(!GenetController::is_expected_phy(0x600D84A3));
}

#[test]
fn test_mii_register_addresses() {
    assert_eq!(MII_BMCR, 0x00);
    assert_eq!(MII_BMSR, 0x01);
    assert_eq!(MII_PHYSID1, 0x02);
    assert_eq!(MII_PHYSID2, 0x03);
    assert_eq!(MII_ADVERTISE, 0x04);
    assert_eq!(MII_LPA, 0x05);
}

#[test]
fn genet_version_checks() {
    assert!(GenetController::is_present(0x0005_0002));
    assert!(!GenetController::is_present(0x0006_0000));
    assert!(!GenetController::is_present(0));
    assert_eq!(GenetController::version_parts(0x0006_0102), (0x0006, 0x01, 0x02));
    assert_eq!(GenetController::link_status(0b10_0100), (true, true));
    assert_eq!(GenetController::link_status(0), (false, false));
    assert!(GenetController::autoneg_enabled(1 << 12));
}

#[test]
fn transmit_frame_size_limits() {

    let idle = GenetDriver::new();
    assert_eq!(idle.transmit_frame(64), Err(NetworkError::NotInitialized));

    let mut ctrl = GenetDriver::new();
    ctrl.finish_initialize(None);
    assert!(ctrl.is_initialized());
    assert_eq!(ctrl.transmit_frame(50), Err(NetworkError::FrameTooSmall));
    assert_eq!(ctrl.transmit_frame(63), Err(NetworkError::FrameTooSmall));
    assert!(ctrl.transmit_frame(64).is_ok());
    assert!(ctrl.transmit_frame(1514).is_ok());
    assert_eq!(ctrl.transmit_frame(1515), Err(NetworkError::FrameTooLarge));
    assert_eq!(ctrl.transmit_frame(1530), Err(NetworkError::FrameTooLarge));
    let (desc, len_status) = ctrl.transmit_frame(64).unwrap();
    assert_eq!(desc, 0xFD58_0000 + 0x4000);
    assert_eq!(len_status >> 16, 64);
}

#[test]
fn initialize_needs_the_firmware_mac() {

    assert_eq!(GenetDriver::begin_initialize(0x0500_0000), Ok(()));
    assert_eq!(GenetDriver::begin_initialize(0x0400_0000), Err(NetworkError::HardwareNotPresent));

    let mut ctrl = GenetDriver::new();
    assert_eq!(ctrl.initialize(Err(PropertyError::ResponseFailed)), Err(NetworkError::HardwareNotPresent));
    assert_eq!(ctrl.mac_address().0, [0u8; 6]);
    assert!(!ctrl.is_initialized());

    let ops = ctrl.initialize(Ok([0xDC, 0xA6, 0x32, 0x01, 0x02, 0x03])).unwrap();
    assert_eq!(ctrl.mac_address().0, [0xDC, 0xA6, 0x32, 0x01, 0x02, 0x03]);
    assert!(!ctrl.is_initialized());
    assert!(ops.contains(&RegOp::Write32 { addr: 0xFD58_0000 + UMAC_MAC0, value: 0xDCA6_3201 }));
    assert!(ops.contains(&RegOp::Write32 { addr: 0xFD58_0000 + UMAC_MAC1, value: 0x0203 }));

    ctrl.finish_initialize(None);
    assert!(ctrl.is_initialized());
}

#[test]
fn rx_descriptors_take_low_address_bits() {

    let ops = GenetDriver::rx_descs_init(0x1_0000_1000);
    assert_eq!(ops.len(), 256 * 3);
    assert_eq!(ops[0], RegOp::Write32 { addr: 0xFD58_0000 + 0x2000 + 0x04, value: 0x0000_1000 });
    assert_eq!(ops[3], RegOp::Write32 { addr: 0xFD58_0000 + 0x2000 + 12 + 0x04, value: 0x0000_1800 });
}

#[test]
fn genet_diagnostic_verdict() {
    assert!(GenetController::diagnostic_passes(0x0005_0000, Some(0x600D), Some(0x84A2)));
    assert!(GenetController::diagnostic_passes(0x0005_0102, Some(0x1234), Some(0x5678)));
    assert!(!GenetController::diagnostic_passes(0x0006_0000, Some(0x600D), Some(0x84A2)));
    assert!(!GenetController::diagnostic_passes(0x0005_0000, None, Some(0x84A2)));
    assert!(!GenetController::diagnostic_passes(0x0005_0000, Some(0x600D), None));
}
