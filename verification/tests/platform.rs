use daedalus::arch::exceptions::{
    current_el, exception_action, recover_probe, route_irq, ExceptionAction, ExceptionContext, ExceptionSyndrome,
    ExceptionType, IrqRoute,
};
use daedalus::arch::mmu::{
    attr_index, device_descriptor, enable_mmu, is_enabled, normal_descriptor, setup_page_tables, table_descriptor,
    MemoryAttribute, BLOCK_SIZE, DESCRIPTOR_INVALID, MMIO_RANGE_BASE, TABLE_ENTRIES,
};
use daedalus::dt::{bus_to_physical, extract_base_address, extract_interrupts, DeviceNode, HardwareInfo};
use daedalus::net::arp_diag::{
    counter_delta, is_arp_reply, probe_frame, verdict, FrameAction, ProbeMonitor, ProbeVerdict, FRAMES_PER_ITERATION,
    PROBE_FRAME_SIZE, PROBE_ITERATIONS,
};
use daedalus::net::arp::ArpPacket;
use daedalus::net::ethernet::{EthernetFrame, MacAddress, ETHERTYPE_ARP};
use daedalus::net::http::{get_binary, HttpError};
use daedalus::qemu::{exit_block, length_result, open_result, read_result, ExitCode, SemihostingError};

#[test]
fn exception_decoding() {
    assert_eq!(ExceptionType::from_u64(0), ExceptionType::Synchronous);
    assert_eq!(ExceptionType::from_u64(1), ExceptionType::Irq);
    assert_eq!(ExceptionType::from_u64(2), ExceptionType::Fiq);
    assert_eq!(ExceptionType::from_u64(3), ExceptionType::SError);
    assert_eq!(ExceptionType::from_u64(9), ExceptionType::Synchronous);

    let s = ExceptionSyndrome::from_esr(0x9600_0010);
    assert_eq!(s.ec, 0x25);
    assert_eq!(s.iss, 0x10);
    assert_eq!(s.exception_class_str(), "Data Abort (same EL)");
    assert_eq!(ExceptionSyndrome::from_esr(0x5600_0000).exception_class_str(), "SVC instruction (AArch64)");
    assert_eq!(ExceptionSyndrome::from_esr(0xF200_0000).exception_class_str(), "BRK instruction (AArch64)");
    assert_eq!(ExceptionSyndrome::from_esr(0x0A00_0000).exception_class_str(), "Reserved/Unknown");
    assert_eq!(current_el(0b1000), 2);
    assert_eq!(current_el(0b0100), 1);
}

#[test]
fn test_exception_vectors_installed() {
    assert_eq!(route_irq(1023), IrqRoute::Spurious);
    assert_eq!(route_irq(153), IrqRoute::Uart);
    assert_eq!(route_irq(189), IrqRoute::Genet);
    assert_eq!(route_irq(190), IrqRoute::Genet);
    assert_eq!(route_irq(30), IrqRoute::Unknown);

    let abort = 0x25u64 << 26;
    assert_eq!(exception_action(ExceptionType::Irq, false, 0), ExceptionAction::HandleIrq);
    assert_eq!(exception_action(ExceptionType::Synchronous, true, abort), ExceptionAction::RecoverProbe);
    assert_eq!(exception_action(ExceptionType::Synchronous, false, abort), ExceptionAction::Fatal);
    assert_eq!(exception_action(ExceptionType::Synchronous, true, 0x24u64 << 26), ExceptionAction::Fatal);
    assert_eq!(exception_action(ExceptionType::SError, true, abort), ExceptionAction::Fatal);
}

fn zero_context() -> ExceptionContext {
    ExceptionContext {
        elr_el1: 0,
        x30: 0,
        spsr_el1: 0,
        x28: 0,
        x29: 0,
        x26: 0,
        x27: 0,
        x24: 0,
        x25: 0,
        x22: 0,
        x23: 0,
        x20: 0,
        x21: 0,
        x18: 0,
        x19: 0,
        x16: 0,
        x17: 0,
        x14: 0,
        x15: 0,
        x12: 0,
        x13: 0,
        x10: 0,
        x11: 0,
        x8: 0,
        x9: 0,
        x6: 0,
        x7: 0,
        x4: 0,
        x5: 0,
        x2: 0,
        x3: 0,
        x0: 0,
        x1: 0,
    }
}

#[test]
fn probe_recovery_skips_the_instruction() {
    let mut ctx = zero_context();
    ctx.elr_el1 = 0x8_1000;
    ctx.x0 = 0xDEAD;
    ctx.x1 = 7;
    recover_probe(&mut ctx);
    assert_eq!(ctx.elr_el1, 0x8_1004);
    assert_eq!(ctx.x0, 0);
    assert_eq!(ctx.x1, 7);
}

#[test]
fn page_tables_identity_map() {
    assert_eq!(attr_index(MemoryAttribute::Device), 0);
    assert_eq!(attr_index(MemoryAttribute::Normal), 4);
    assert_eq!(table_descriptor(0x9_0000), 0x9_0003);
    assert_eq!(normal_descriptor(0x20_0000, 2), 0x20_0000 | 0x1 | 0x400 | 0x300 | 4);
    assert_eq!(device_descriptor(0xFE00_0000, 2), 0xFE00_0000 | 0x1 | 0x400);

    let (l1, low, mmio) = setup_page_tables(0x10_0000, 0x10_1000);
    assert_eq!(l1.entries().len(), TABLE_ENTRIES);
    assert_eq!(l1.entries()[0], 0x10_0003);
    assert_eq!(l1.entries()[3], 0x10_1003);
    assert!(l1.entries().iter().enumerate().all(|(i, d)| i == 0 || i == 3 || *d == DESCRIPTOR_INVALID));
    for (i, d) in low.entries().iter().enumerate() {
        assert_eq!(d & 0xFFFF_FFE0_0000, i as u64 * BLOCK_SIZE);
    }
    for (i, d) in mmio.entries().iter().enumerate() {
        assert_eq!(d & 0xFFFF_FFE0_0000, MMIO_RANGE_BASE + i as u64 * BLOCK_SIZE);
    }
    let on = enable_mmu(0x30D0_0800);
    assert!(is_enabled(on));
    assert_eq!(on & 0x1005, 0x1005);
    assert!(!is_enabled(0x30D0_0800));
}

#[test]
fn device_tree_checks() {
    let ok = HardwareInfo::from_firmware(0x2EFF_0000, [0xD0, 0x0D, 0xFE, 0xED], Some(0x1_2345)).ok().unwrap();
    assert_eq!(ok.addr(), 0x2EFF_0000);
    assert_eq!(ok.size(), 0x1_2345);
    assert_eq!(HardwareInfo::from_firmware(0, [0xD0, 0x0D, 0xFE, 0xED], Some(1)).err(), Some("DTB pointer is null"));
    assert_eq!(HardwareInfo::from_firmware(8, [0xED, 0xFE, 0x0D, 0xD0], Some(1)).err(), Some("Invalid DTB magic number"));
    assert_eq!(HardwareInfo::from_firmware(8, [0xD0, 0x0D, 0xFE, 0xED], None).err(), Some("Failed to read DTB size"));

    assert_eq!(extract_base_address(Some(0x7E20_1000), Some(0)), Some(0x7E20_1000));
    assert_eq!(extract_base_address(Some(0), Some(0x4004_0000)), Some(0x4004_0000));
    assert_eq!(extract_base_address(Some(0x1000), None), None);
    assert_eq!(extract_interrupts(&[Some(0), None, Some(153), Some(4)]), vec![0, 153, 4]);
    assert_eq!(bus_to_physical(0x7E20_1000), 0xFE20_1000);
    assert_eq!(bus_to_physical(0x7C00_0000), 0xFC00_0000);
    assert_eq!(bus_to_physical(0x4004_0000), 0xFF80_0000 + 0x4_0000);
    assert_eq!(bus_to_physical(0x1000), 0x1000);

    let node = DeviceNode::new("serial@7e201000".to_string(), Some(0xFE20_1000), vec![153], Some(48_000_000));
    assert_eq!(node.name(), "serial@7e201000");
    assert_eq!(node.base_address(), Some(0xFE20_1000));
    assert_eq!(node.interrupts(), Some(&[153u32][..]));
    assert_eq!(node.property_u32("clock-frequency"), Some(48_000_000));
    assert_eq!(node.property_u32("reg"), None);
    let bare = DeviceNode::new("gpio".to_string(), None, vec![], None);
    assert_eq!(bare.interrupts(), None);
}

#[test]
fn semihosting_results() {
    assert_eq!(exit_block(ExitCode::Success), (0x20026, 0));
    assert_eq!(exit_block(ExitCode::Failed), (0x20026, 1));
    assert_eq!(open_result(3), Ok(3));
    assert_eq!(open_result(-1), Err(SemihostingError::OpenFailed));
    assert_eq!(length_result(-1), Err(SemihostingError::ReadFailed));
    assert_eq!(length_result(10 * 1024 * 1024), Ok(10 * 1024 * 1024));
    assert_eq!(length_result(10 * 1024 * 1024 + 1), Err(SemihostingError::FileTooLarge));
    // The read call reports how many bytes it did not read.
    assert_eq!(read_result(0, 100), Ok(()));
    assert_eq!(read_result(0, 0), Ok(()));
    assert_eq!(read_result(100, 100), Err(SemihostingError::ReadFailed));
    assert_eq!(read_result(1, 100), Err(SemihostingError::ReadFailed));
    assert_eq!(read_result(-1, 100), Err(SemihostingError::ReadFailed));
}

#[test]
fn arp_probe_frame_and_replies() {
    let mac = MacAddress::new([0xB8, 0x27, 0xEB, 0x12, 0x34, 0x56]);
    let frame = probe_frame(mac, [10, 42, 10, 42], [10, 42, 10, 1]);
    assert_eq!(frame.len(), PROBE_FRAME_SIZE);
    let eth = EthernetFrame::parse(&frame).unwrap();
    assert_eq!(eth.dest_mac, MacAddress::broadcast());
    assert_eq!(eth.src_mac, mac);
    assert_eq!(eth.ethertype, ETHERTYPE_ARP);
    let arp = ArpPacket::parse(eth.payload).unwrap();
    assert_eq!(arp.sender_ip, [10, 42, 10, 42]);
    assert_eq!(arp.target_ip, [10, 42, 10, 1]);
    assert!(frame[42..].iter().all(|b| *b == 0));
    assert!(!is_arp_reply(&frame));

    let reply = ArpPacket::reply(MacAddress::new([2, 0, 0, 0, 0, 1]), [10, 42, 10, 1], mac, [10, 42, 10, 42]);
    let mut arp_bytes = [0u8; 28];
    reply.write_to(&mut arp_bytes).unwrap();
    let reply_frame = EthernetFrame::new(mac, MacAddress::new([2, 0, 0, 0, 0, 1]), ETHERTYPE_ARP, &arp_bytes);
    let mut buf = [0u8; 60];
    reply_frame.write_to(&mut buf).unwrap();
    assert!(is_arp_reply(&buf));
    assert!(!is_arp_reply(&buf[..20]));
}

#[test]
fn arp_probe_monitor() {
    let mut m = ProbeMonitor::new();
    let junk = [0u8; 60];
    for _ in 0..FRAMES_PER_ITERATION {
        assert_eq!(m.on_frame(&junk), FrameAction::Release);
    }
    assert_eq!(m.on_frame(&junk), FrameAction::StopPoll);
    assert!(m.watchdog);
    assert!(m.end_iteration());
    assert_eq!(m.in_iteration, 0);
    for _ in 1..(PROBE_ITERATIONS - 1) {
        assert!(m.end_iteration());
    }
    assert!(!m.end_iteration());
    assert_eq!(m.total, FRAMES_PER_ITERATION + 1);

    assert_eq!(verdict(true, 0, 0, 0), ProbeVerdict::Passed);
    assert_eq!(verdict(false, 3, 0, 0), ProbeVerdict::ReceivedNoReply);
    assert_eq!(verdict(false, 0, 5, 6), ProbeVerdict::TxOnly);
    assert_eq!(verdict(false, 0, 6, 6), ProbeVerdict::Failed);
    assert_eq!(counter_delta(10, 4), 6);
    assert_eq!(counter_delta(4, 10), 0);
}

#[test]
fn http_reports_network_not_ready() {
    assert_eq!(get_binary([10, 0, 0, 1], 80, "/kernel8.img"), Err(HttpError::NetworkNotReady));
}
