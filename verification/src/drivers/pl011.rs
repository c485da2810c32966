//! PL011 UART: the receive ring filled from the interrupt handler and
//! drained by readers, the register settings of the line, and the byte
//! stream sent for a string. The register accesses are the caller's.
use vstd::prelude::*;
use super::mmio::RegOp;
use crate::ring::RingBuffer;

verus! {

/// Physical base address of UART0.
pub const UART_BASE: u64 = 0xFE20_1000;

/// Register offsets.
pub const UART_DR: u64 = 0x00;
pub const UART_FR: u64 = 0x18;
pub const UART_IBRD: u64 = 0x24;
pub const UART_FBRD: u64 = 0x28;
pub const UART_LCRH: u64 = 0x2C;
pub const UART_CR: u64 = 0x30;
pub const UART_IFLS: u64 = 0x34;
pub const UART_IMSC: u64 = 0x38;
pub const UART_MIS: u64 = 0x40;
pub const UART_ICR: u64 = 0x44;

/// Flag register: transmit FIFO full, receive FIFO empty.
pub const FR_TXFF: u32 = 1 << 5;
pub const FR_RXFE: u32 = 1 << 4;
/// Line control: FIFO enable and 8-bit words.
pub const LCRH_FEN: u32 = 1 << 4;
pub const LCRH_WLEN_8BIT: u32 = 0b11 << 5;
/// Control: UART, transmit and receive enable.
pub const CR_UARTEN: u32 = 1 << 0;
pub const CR_TXE: u32 = 1 << 8;
pub const CR_RXE: u32 = 1 << 9;
/// Data bits of the data register.
pub const DR_DATA_MASK: u32 = 0xFF;
/// Receive and receive-timeout interrupt bits (mask and clear).
pub const RX_INTERRUPTS: u32 = (1 << 4) | (1 << 6);
/// Clear every interrupt.
pub const ICR_ALL: u32 = 0x7FF;
/// Interrupt at 1/8 full receive FIFO and 1/8 full transmit FIFO.
pub const IFLS_RX_1_8: u32 = 0;
/// Baud rate divisors for 115200 baud at 48 MHz.
pub const IBRD_115200: u32 = 26;
pub const FBRD_115200: u32 = 3;
/// Function-select register of GPIO 10..19 and the Alt0 setting of GPIO
/// 14 and 15 (TXD0, RXD0).
pub const GPFSEL1_ADDR: u64 = 0xFE20_0004;
pub const GPIO14_15_MASK: u32 = (0b111 << 12) | (0b111 << 15);
pub const GPIO14_15_ALT0: u32 = (0b100 << 12) | (0b100 << 15);

/// Receive ring of bytes: 512 slots, at most 511 bytes.
pub struct RxRingBuffer {
    ring: RingBuffer<u8>,
}

impl RxRingBuffer {
    /// Number of slots.
    pub const CAPACITY: usize = 512;

    /// The buffered bytes, oldest first.
    pub closed spec fn view(&self) -> Seq<u8> {
        self.ring@
    }

    pub closed spec fn wf(&self) -> bool {
        self.ring.wf() && self.ring.spec_capacity() == Self::CAPACITY
    }

    /// At most `CAPACITY - 1` bytes are buffered.
    pub proof fn lemma_len_bound(&self)
        requires
            self.wf(),
        ensures
            self@.len() < Self::CAPACITY,
    {
        self.ring.lemma_len_bound();
    }

    /// An empty ring.
    pub fn new() -> (r: Self)
        ensures
            r.wf(),
            r@ == Seq::<u8>::empty(),
    {
        RxRingBuffer { ring: RingBuffer::new(Self::CAPACITY) }
    }

    /// Append a byte; `false`, dropping it, when 511 bytes are buffered.
    pub fn enqueue(&mut self, byte: u8) -> (ok: bool)
        requires
            old(self).wf(),
        ensures
            final(self).wf(),
            ok == (old(self)@.len() < Self::CAPACITY - 1),
            ok ==> final(self)@ == old(self)@.push(byte),
            !ok ==> final(self)@ == old(self)@,
    {
        proof {
            self.ring.lemma_len_bound();
        }
        self.ring.enqueue(byte).is_ok()
    }

    /// Take the oldest byte.
    pub fn dequeue(&mut self) -> (r: Option<u8>)
        requires
            old(self).wf(),
        ensures
            final(self).wf(),
            old(self)@.len() == 0 ==> r is None && final(self)@ == old(self)@,
            old(self)@.len() > 0 ==> r == Some(old(self)@[0]) && final(self)@ == old(self)@.drop_first(),
    {
        self.ring.dequeue()
    }

    /// Whether no byte is buffered.
    pub fn is_empty(&self) -> (b: bool)
        requires
            self.wf(),
        ensures
            b == (self@.len() == 0),
    {
        self.ring.is_empty()
    }
}

/// The next received byte, if any.
pub fn read_rx_byte(buffer: &mut RxRingBuffer) -> (r: Option<u8>)
    requires
        old(buffer).wf(),
    ensures
        final(buffer).wf(),
        old(buffer)@.len() == 0 ==> r is None && final(buffer)@ == old(buffer)@,
        old(buffer)@.len() > 0 ==> r == Some(old(buffer)@[0]) && final(buffer)@ == old(buffer)@.drop_first(),
{
    buffer.dequeue()
}

/// Interrupt handling: buffer each byte drained from the receive FIFO
/// (the caller reads the data register while the flag register shows
/// data); returns the number of bytes dropped because the ring was full.
pub fn handle_interrupt(buffer: &mut RxRingBuffer, data_regs: &[u32]) -> (dropped: usize)
    requires
        old(buffer).wf(),
    ensures
        final(buffer).wf(),
        dropped <= data_regs@.len(),
        final(buffer)@ == old(buffer)@ + spec_rx_bytes(data_regs@).take(
            if old(buffer)@.len() + data_regs@.len() <= RxRingBuffer::CAPACITY - 1 { data_regs@.len() as int }
            else { RxRingBuffer::CAPACITY - 1 - old(buffer)@.len() }
        ),
        old(buffer)@.len() + data_regs@.len() <= RxRingBuffer::CAPACITY - 1 ==> dropped == 0,
        old(buffer)@.len() + data_regs@.len() > RxRingBuffer::CAPACITY - 1 ==> dropped == old(buffer)@.len() + data_regs@.len() - (RxRingBuffer::CAPACITY - 1),
{
    let mut dropped: usize = 0;
    let mut i: usize = 0;
    let ghost start = buffer@;
    proof {
        buffer.lemma_len_bound();
    }
    let n = data_regs.len();
    while i < n
        invariant
            n == data_regs@.len(),
            0 <= i <= n,
            buffer.wf(),
            start.len() <= RxRingBuffer::CAPACITY - 1,
            buffer@.len() <= RxRingBuffer::CAPACITY - 1,
            buffer@.len() == if start.len() + i <= RxRingBuffer::CAPACITY - 1 { start.len() + i } else { RxRingBuffer::CAPACITY - 1 },
            buffer@ == start + spec_rx_bytes(data_regs@).take(buffer@.len() - start.len()),
            dropped == start.len() + i - buffer@.len(),
        decreases n - i,
    {
        let byte = rx_byte(data_regs[i]);
        let ghost before = buffer@;
        let ok = buffer.enqueue(byte);
        proof {
            if ok {
                assert(spec_rx_bytes(data_regs@).take(buffer@.len() - start.len()) =~= spec_rx_bytes(data_regs@).take(before.len() - start.len()).push(byte));
            }
        }
        if !ok {
            dropped = dropped + 1;
        }
        i = i + 1;
    }
    dropped
}

/// The bytes in a sequence of data register values.
pub open spec fn spec_rx_bytes(regs: Seq<u32>) -> Seq<u8> {
    regs.map_values(|r: u32| (r & DR_DATA_MASK) as u8)
}

/// The received byte in a data register value.
pub fn rx_byte(dr: u32) -> (b: u8)
    ensures
        b == (dr & DR_DATA_MASK) as u8,
{
    (dr & DR_DATA_MASK) as u8
}

/// Whether the transmit FIFO has room.
pub fn tx_ready(fr: u32) -> (b: bool)
    ensures
        b == (fr & FR_TXFF == 0),
{
    fr & FR_TXFF == 0
}

/// Whether the receive FIFO holds data.
pub fn rx_ready(fr: u32) -> (b: bool)
    ensures
        b == (fr & FR_RXFE == 0),
{
    fr & FR_RXFE == 0
}

/// The bytes sent for a string: each newline preceded by a carriage
/// return.
pub open spec fn spec_serial_bytes(s: Seq<u8>) -> Seq<u8>
    decreases s.len(),
{
    if s.len() == 0 {
        Seq::empty()
    } else {
        spec_serial_bytes(s.drop_last()) + if s.last() == 10u8 { seq![13u8, 10u8] } else { seq![s.last()] }
    }
}

/// The bytes sent for `s` (see `spec_serial_bytes`).
pub fn write_string(s: &[u8]) -> (out: Vec<u8>)
    ensures
        out@ == spec_serial_bytes(s@),
{
    let mut out: Vec<u8> = Vec::new();
    let mut i: usize = 0;
    while i < s.len()
        invariant
            0 <= i <= s@.len(),
            out@ == spec_serial_bytes(s@.take(i as int)),
        decreases s@.len() - i,
    {
        let b = s[i];
        if b == 10u8 {
            out.push(13u8);
        }
        out.push(b);
        proof {
            assert(s@.take(i as int + 1).drop_last() =~= s@.take(i as int));
        }
        i = i + 1;
    }
    assert(s@.take(s@.len() as int) =~= s@);
    out
}

/// The register accesses that set the UART up: GPIO 14 and 15 to Alt0,
/// UART off, interrupts masked and cleared, 115200 baud, 8-bit words with
/// FIFOs, then UART, transmit and receive on. `pause_us` is the settling
/// time between steps.
pub fn init_ops(pause_us: u64) -> (ops: Vec<RegOp>)
    ensures
        ops@ == seq![
            RegOp::Modify { addr: GPFSEL1_ADDR, mask: GPIO14_15_MASK, value: GPIO14_15_ALT0 },
            RegOp::Write32 { addr: (UART_BASE + UART_CR) as u64, value: 0u32 },
            RegOp::DelayUs { us: pause_us },
            RegOp::Write32 { addr: (UART_BASE + UART_IMSC) as u64, value: 0u32 },
            RegOp::Write32 { addr: (UART_BASE + UART_ICR) as u64, value: ICR_ALL },
            RegOp::DelayUs { us: pause_us },
            RegOp::Write32 { addr: (UART_BASE + UART_IBRD) as u64, value: IBRD_115200 },
            RegOp::Write32 { addr: (UART_BASE + UART_FBRD) as u64, value: FBRD_115200 },
            RegOp::Write32 { addr: (UART_BASE + UART_LCRH) as u64, value: LCRH_FEN | LCRH_WLEN_8BIT },
            RegOp::DelayUs { us: pause_us },
            RegOp::Write32 { addr: (UART_BASE + UART_CR) as u64, value: CR_UARTEN | CR_TXE | CR_RXE },
            RegOp::DelayUs { us: pause_us },
        ],
{
    vec![
        RegOp::Modify { addr: GPFSEL1_ADDR, mask: GPIO14_15_MASK, value: GPIO14_15_ALT0 },
        RegOp::Write32 { addr: UART_BASE + UART_CR, value: 0 },
        RegOp::DelayUs { us: pause_us },
        RegOp::Write32 { addr: UART_BASE + UART_IMSC, value: 0 },
        RegOp::Write32 { addr: UART_BASE + UART_ICR, value: ICR_ALL },
        RegOp::DelayUs { us: pause_us },
        RegOp::Write32 { addr: UART_BASE + UART_IBRD, value: IBRD_115200 },
        RegOp::Write32 { addr: UART_BASE + UART_FBRD, value: FBRD_115200 },
        RegOp::Write32 { addr: UART_BASE + UART_LCRH, value: LCRH_FEN | LCRH_WLEN_8BIT },
        RegOp::DelayUs { us: pause_us },
        RegOp::Write32 { addr: UART_BASE + UART_CR, value: CR_UARTEN | CR_TXE | CR_RXE },
        RegOp::DelayUs { us: pause_us },
    ]
}

/// Unmask (`enable`) or mask the receive interrupts.
pub fn rx_interrupt_op(enable: bool) -> (op: RegOp)
    ensures
        op == (RegOp::Modify { addr: (UART_BASE + UART_IMSC) as u64, mask: RX_INTERRUPTS, value: if enable { RX_INTERRUPTS } else { 0u32 } }),
{
    RegOp::Modify { addr: UART_BASE + UART_IMSC, mask: RX_INTERRUPTS, value: if enable { RX_INTERRUPTS } else { 0 } }
}

/// Clear the receive interrupts.
pub fn clear_rx_interrupts_op() -> (op: RegOp)
    ensures
        op == (RegOp::Write32 { addr: (UART_BASE + UART_ICR) as u64, value: RX_INTERRUPTS }),
{
    RegOp::Write32 { addr: UART_BASE + UART_ICR, value: RX_INTERRUPTS }
}

/// Receive interrupt at 1/8 full FIFO.
pub fn rx_fifo_threshold_op() -> (op: RegOp)
    ensures
        op == (RegOp::Write32 { addr: (UART_BASE + UART_IFLS) as u64, value: IFLS_RX_1_8 }),
{
    RegOp::Write32 { addr: UART_BASE + UART_IFLS, value: IFLS_RX_1_8 }
}

} // verus!
