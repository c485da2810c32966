use daedalus::allocator::BumpAllocator;
use daedalus::drivers::pl011::{
    handle_interrupt, read_rx_byte, rx_byte, rx_ready, tx_ready, write_string, RxRingBuffer, FR_RXFE, FR_TXFF,
};

#[test]
fn test_allocator_stats() {
    let mut a = BumpAllocator::new();
    a.init(0x80_0000, 0x100_0000);
    assert_eq!(a.heap_size(), 8 * 1024 * 1024);
    let used_before = a.used();
    let block = a.allocate(1024, 1).unwrap();
    assert_eq!(block, 0x80_0000);
    let used_after = a.used();
    assert!(used_after > used_before);
    assert_eq!(a.free(), 8 * 1024 * 1024 - 1024);
}

#[test]
fn allocator_alignment_and_exhaustion() {
    let mut a = BumpAllocator::new();
    a.init(0x1000, 0x1000 + 4096);
    assert_eq!(a.allocate(3, 1), Some(0x1000));
    assert_eq!(a.allocate(8, 16), Some(0x1010));
    assert_eq!(a.used(), 0x18);
    assert_eq!(a.allocate(4096, 8), None);
    assert_eq!(a.used(), 0x18);
    let rest = a.free();
    assert_eq!(a.allocate(rest, 1), Some(0x1018));
    assert_eq!(a.free(), 0);
    assert_eq!(a.allocate(1, 1), None);
    assert_eq!(a.allocate(0, 1), Some(0x1000 + 4096));

}

#[test]
fn test_uart_newline_handling() {
    assert_eq!(write_string(b"Line1\nLine2\n"), b"Line1\r\nLine2\r\n".to_vec());
    assert_eq!(write_string(b"UART test string\n"), b"UART test string\r\n".to_vec());
    assert_eq!(write_string(b""), Vec::<u8>::new());
    assert_eq!(write_string(b"\r"), b"\r".to_vec());
}

#[test]
fn test_uart_write_byte() {
    assert!(tx_ready(0));
    assert!(!tx_ready(FR_TXFF));
    assert!(rx_ready(0));
    assert!(!rx_ready(FR_RXFE));
    assert_eq!(rx_byte(0x0000_0F41), b'A');
}

#[test]
fn uart_receive_buffer() {
    let mut buf = RxRingBuffer::new();
    assert!(buf.is_empty());
    assert_eq!(read_rx_byte(&mut buf), None);
    let dropped = handle_interrupt(&mut buf, &[0x41, 0x142, 0x43]);
    assert_eq!(dropped, 0);
    assert_eq!(read_rx_byte(&mut buf), Some(b'A'));
    assert_eq!(read_rx_byte(&mut buf), Some(b'B'));
    assert_eq!(read_rx_byte(&mut buf), Some(b'C'));
    assert_eq!(read_rx_byte(&mut buf), None);

    let many: Vec<u32> = (0..600u32).map(|i| i % 256).collect();
    let dropped = handle_interrupt(&mut buf, &many);
    assert_eq!(dropped, 600 - (RxRingBuffer::CAPACITY - 1));
    assert_eq!(read_rx_byte(&mut buf), Some(0));
}
