use daedalus::arch::cache::{cache_lines, CACHE_LINE_SIZE};
use daedalus::drivers::gic::{
    is_spurious, Gic, GICC_BASE, GICC_EOIR, GICC_IAR, GICD_BASE, GICD_CTLR, GICD_ICENABLER, GICD_ISENABLER,
    GICD_TYPER, IRQ_GENET_0, IRQ_UART0, SPURIOUS_INTERRUPT,
};
use daedalus::drivers::gpio::{Function, Gpio, Pull, GPIO_BASE};
use daedalus::drivers::mailbox::{
    CallPhase, Mailbox, MailboxAction, MailboxError, STATUS0_OFFSET, STATUS1_OFFSET, STATUS_READ_EMPTY,
    STATUS_WRITE_FULL, TIMEOUT_US,
};
use daedalus::drivers::mmio::{modify, RegOp};
use daedalus::drivers::property::{PropertyError, PropertyMailbox, PropertyTag, MESSAGE_WORDS};

#[test]
fn gpio_register_operations() {
    let gpio = Gpio::new();
    // Pin 42: function-select register 4, bits 6..9.
    assert_eq!(
        gpio.set_function(42, Function::Output),
        RegOp::Modify { addr: GPIO_BASE + 0x10, mask: 0b111 << 6, value: 0b001 << 6 }
    );
    assert_eq!(
        gpio.set_function(14, Function::Alt0),
        RegOp::Modify { addr: GPIO_BASE + 0x04, mask: 0b111 << 12, value: 0b100 << 12 }
    );
    // Pin 17: pull register 1, bits 2..4.
    assert_eq!(gpio.set_pull(17, Pull::Up), RegOp::Modify { addr: GPIO_BASE + 0xE8, mask: 0b11 << 2, value: 0b01 << 2 });
    assert_eq!(gpio.set(42), RegOp::Write32 { addr: GPIO_BASE + 0x20, value: 1 << 10 });
    assert_eq!(gpio.clear(3), RegOp::Write32 { addr: GPIO_BASE + 0x28, value: 1 << 3 });
    assert_eq!(gpio.write(3, true), gpio.set(3));
    assert_eq!(gpio.write(3, false), gpio.clear(3));
    assert_eq!(gpio.toggle(3, true), gpio.clear(3));
    assert_eq!(gpio.toggle(3, false), gpio.set(3));
    let t = gpio.read(33);
    assert_eq!((t.addr, t.mask), (GPIO_BASE + 0x38, 1 << 1));
    assert!(t.is_set(0b10));
    assert!(!t.is_set(0b01));
}

#[test]
fn read_modify_write_replaces_only_the_field() {
    let gpio = Gpio::new();
    if let RegOp::Modify { mask, value, .. } = gpio.set_function(42, Function::Alt3) {
        let before = 0xFFFF_FFFFu32;
        let after = modify(before, mask, value);
        assert_eq!(after & !mask, before & !mask);
        assert_eq!((after >> 6) & 0b111, 0b111);
        let after = modify(0, mask, value);
        assert_eq!(after, 0b111 << 6);
    } else {
        panic!("expected a read-modify-write");
    }
}

#[test]
fn gic_setup_and_interrupts() {
    let mut gic = Gic::new();
    assert_eq!(gic.disable_distributor(), RegOp::Write32 { addr: GICD_BASE + GICD_CTLR, value: 0 });
    assert_eq!(gic.typer_addr(), GICD_BASE + GICD_TYPER);
    // TYPER.ITLinesNumber = 0: only the 32 private interrupts, no shared ones.
    let ops = gic.init(0);
    assert!(!ops.is_empty());
    assert_eq!(ops.last(), Some(&RegOp::Write32 { addr: GICC_BASE, value: 0b11 }));
    // One more line: 32 shared interrupts, four writes each.
    let mut gic2 = Gic::new();
    let ops2 = gic2.init(1);
    assert_eq!(ops2.len(), ops.len() + 32 * 4);

    assert_eq!(
        gic.enable_interrupt(IRQ_UART0),
        RegOp::Write32 { addr: GICD_BASE + GICD_ISENABLER + 4 * 4, value: 1 << (153 % 32) }
    );
    assert_eq!(
        gic.disable_interrupt(IRQ_GENET_0),
        RegOp::Write32 { addr: GICD_BASE + GICD_ICENABLER + 4 * 5, value: 1 << (189 % 32) }
    );
    assert_eq!(gic.acknowledge_interrupt(), GICC_BASE + GICC_IAR);
    assert_eq!(gic.end_of_interrupt(153), RegOp::Write32 { addr: GICC_BASE + GICC_EOIR, value: 153 });
    assert!(is_spurious(SPURIOUS_INTERRUPT));
    assert!(!is_spurious(153));
}

#[test]
fn mailbox_pack_and_unpack() {
    assert_eq!(Mailbox::pack(8, 0x3B40_0000), 0x3B40_0008);
    assert_eq!(Mailbox::unpack_channel(0x3B40_0008), 8);
    assert_eq!(Mailbox::unpack_data(0x3B40_0008), 0x3B40_0000);
    let mb = Mailbox::new();
    assert_eq!(mb.call(8, 0x1234_5671, 0).map(|_| ()), Err(MailboxError::InvalidData));
}

#[test]
fn mailbox_call_state_machine() {
    let mb = Mailbox::new();
    let mut call = mb.call(8, 0xC000_1000, 100).unwrap();
    assert_eq!(call.first_action(), MailboxAction::ReadStatus(STATUS0_OFFSET));
    // A stale response is discarded, then mailbox 0 is empty.
    assert_eq!(call.on_status(0, 150), MailboxAction::Discard);
    assert_eq!(call.on_status(STATUS_READ_EMPTY, 200), MailboxAction::ReadStatus(STATUS1_OFFSET));
    assert_eq!(call.phase, CallPhase::WaitSend);
    // Full, then room: send.
    assert_eq!(call.on_status(STATUS_WRITE_FULL, 300), MailboxAction::ReadStatus(STATUS1_OFFSET));
    assert_eq!(call.on_status(0, 400), MailboxAction::Send(0xC000_1008));
    // Empty, then the response is there.
    assert_eq!(call.on_status(STATUS_READ_EMPTY, 500), MailboxAction::ReadStatus(STATUS0_OFFSET));
    assert_eq!(call.on_status(0, 600), MailboxAction::ReadResponse);
    assert_eq!(call.on_response(0xC000_1008), Ok(0xC000_1000));
    assert_eq!(call.phase, CallPhase::Finished);

    let mut wrong = mb.call(8, 0, 0).unwrap();
    wrong.on_status(STATUS_READ_EMPTY, 0);
    wrong.on_status(0, 0);
    wrong.on_status(0, 0);
    assert_eq!(wrong.on_response(0x0000_0009), Err(MailboxError::ChannelMismatch));
}

#[test]
fn mailbox_call_timeouts() {
    let mb = Mailbox::new();
    let mut drain = mb.call(8, 0, 0).unwrap();
    assert_eq!(drain.on_status(0, TIMEOUT_US), MailboxAction::Discard);
    assert_eq!(drain.on_status(0, TIMEOUT_US + 1), MailboxAction::Failed(MailboxError::DrainTimeout));

    let mut send = mb.call(8, 0, 0).unwrap();
    send.on_status(STATUS_READ_EMPTY, 10);
    assert_eq!(send.on_status(STATUS_WRITE_FULL, 10 + TIMEOUT_US + 1), MailboxAction::Failed(MailboxError::SendTimeout));

    let mut recv = mb.call(8, 0, 0).unwrap();
    recv.on_status(STATUS_READ_EMPTY, 0);
    recv.on_status(0, 50);
    assert_eq!(
        recv.on_status(STATUS_READ_EMPTY, 50 + TIMEOUT_US + 1),
        MailboxAction::Failed(MailboxError::ReceiveTimeout)
    );
}

fn answered(words: &mut [u32; 16]) {
    words[1] = 0x8000_0000;
    words[4] = 0x8000_0006;
}

#[test]
fn property_requests_and_answers() {
    let req = PropertyMailbox::request(PropertyTag::GetMacAddress, 8);
    assert_eq!(req.len(), MESSAGE_WORDS);
    assert_eq!(&req[..5], &[64, 0, 0x0001_0003, 8, 0]);
    assert!(req[5..].iter().all(|w| *w == 0));
    assert_eq!(PropertyTag::GetFirmwareRevision.id(), 1);

    assert_eq!(PropertyMailbox::bus_address(0x0008_0000), Ok(0xC008_0000));
    assert_eq!(PropertyMailbox::bus_address(0x0008_0004), Err(PropertyError::NotAligned));

    let pm = PropertyMailbox::new();
    let mut words = [0u32; 16];
    answered(&mut words);
    words[5] = 0x12EB_27B8;
    words[6] = 0x0000_5634;
    assert_eq!(pm.get_mac_address(0xC000_1000, Ok(0xC000_1000), &words), Ok([0xB8, 0x27, 0xEB, 0x12, 0x34, 0x56]));
    words[7] = 0x1;
    assert_eq!(pm.get_board_serial(0xC000_1000, Ok(0xC000_1000), &words), Ok(0x1_0000_5634));
    assert_eq!(pm.get_firmware_revision(0xC000_1000, Ok(0xC000_1000), &words), Ok(0x12EB_27B8));

    assert_eq!(
        pm.get_mac_address(0xC000_1000, Err(MailboxError::ReceiveTimeout), &words),
        Err(PropertyError::Mailbox(MailboxError::ReceiveTimeout))
    );
    assert_eq!(pm.get_mac_address(0xC000_1000, Ok(0xC000_2000), &words), Err(PropertyError::ResponseFailed));
    let mut failed = words;
    failed[1] = 0x8000_0001;
    assert_eq!(pm.get_board_serial(0xC000_1000, Ok(0xC000_1000), &failed), Err(PropertyError::ResponseFailed));
    let mut silent = words;
    silent[4] = 6;
    assert_eq!(pm.get_firmware_revision(0xC000_1000, Ok(0xC000_1000), &silent), Err(PropertyError::TagNotResponded));
}

#[test]
fn cache_lines_cover_the_range() {
    assert_eq!(CACHE_LINE_SIZE, 64);
    assert_eq!(cache_lines(0x1000, 64), vec![0x1000]);
    assert_eq!(cache_lines(0x1010, 64), vec![0x1000, 0x1040]);
    assert_eq!(cache_lines(0x103F, 2), vec![0x1000, 0x1040]);
    assert_eq!(cache_lines(0x1040, 0), Vec::<u64>::new());
    assert_eq!(cache_lines(0x1041, 0), vec![0x1040]);
    let lines = cache_lines(0x2000_0002, 2048);
    assert_eq!(lines.len(), 33);
    assert_eq!(lines[0], 0x2000_0000);
    assert_eq!(*lines.last().unwrap(), 0x2000_0800);
}
