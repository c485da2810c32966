//! VideoCore mailbox: 32-bit messages between the ARM cores and the GPU
//! firmware, the low 4 bits naming the channel. A call drains stale
//! responses, waits for room, sends, waits for the response and checks
//! its channel; each wait gives up after one second. The register reads
//! and writes and the clock are the caller's: a call is a state machine
//! fed with what the caller reads.
use vstd::prelude::*;

verus! {

/// Physical base address of the mailbox registers.
pub const MAILBOX_BASE: u64 = 0xFE00_B880;

/// Offset of the read register (mailbox 0).
pub const READ_OFFSET: u64 = 0x00;

/// Offset of the status register of mailbox 0 (responses).
pub const STATUS0_OFFSET: u64 = 0x18;

/// Offset of the write register (mailbox 1).
pub const WRITE_OFFSET: u64 = 0x20;

/// Offset of the status register of mailbox 1 (requests).
pub const STATUS1_OFFSET: u64 = 0x38;

/// Status bit: nothing to read.
pub const STATUS_READ_EMPTY: u32 = 0x4000_0000;

/// Status bit: no room to write.
pub const STATUS_WRITE_FULL: u32 = 0x8000_0000;

/// The channel bits of a mailbox value.
pub const CHANNEL_MASK: u32 = 0xF;

/// How long each wait may take, in microseconds.
pub const TIMEOUT_US: u64 = 1_000_000;

/// Mailbox errors.
#[derive(Debug, Clone, Copy, PartialEq, Eq, Structural)]
pub enum MailboxError {
    /// Stale responses kept coming for longer than the timeout.
    DrainTimeout,
    /// No room to send within the timeout.
    SendTimeout,
    /// No response within the timeout.
    ReceiveTimeout,
    /// The response came on another channel.
    ChannelMismatch,
    /// The data has some of its low 4 bits set.
    InvalidData,
}

/// The value sent for `data` on `channel`: the data's upper 28 bits and
/// the channel's lower 4.
pub open spec fn spec_pack(channel: u32, data: u32) -> u32 {
    (data & !CHANNEL_MASK) | (channel & CHANNEL_MASK)
}

/// Where a call stands.
#[derive(Debug, Clone, Copy, PartialEq, Eq, Structural)]
pub enum CallPhase {
    /// Discarding stale responses until mailbox 0 is empty.
    Drain,
    /// Waiting for room in mailbox 1.
    WaitSend,
    /// Waiting for the response in mailbox 0.
    WaitResponse,
    /// The response is there to be read.
    ReadResponse,
    /// The call is over.
    Finished,
}

/// What the caller does next for a call.
#[derive(Debug, Clone, Copy, PartialEq, Eq, Structural)]
pub enum MailboxAction {
    /// Read the status register at this offset and feed it, with the
    /// time, to `on_status`.
    ReadStatus(u64),
    /// Read the read register and discard the value, then read the
    /// status register of mailbox 0 again.
    Discard,
    /// Write this value to the write register, then read the status
    /// register of mailbox 0.
    Send(u32),
    /// Read the read register and feed the value to `on_response`.
    ReadResponse,
    /// The call failed.
    Failed(MailboxError),
}

/// One mailbox call in progress.
#[derive(Debug, Clone, Copy)]
pub struct MailboxCall {
    pub channel: u32,
    pub data: u32,
    pub phase: CallPhase,
    /// When the current wait began, in microseconds.
    pub start_us: u64,
}

/// The mailbox.
pub struct Mailbox {
    base_addr: u64,
}

impl Mailbox {
    pub closed spec fn spec_base(&self) -> u64 {
        self.base_addr
    }

    /// The mailbox at `MAILBOX_BASE`.
    pub fn new() -> (m: Self)
        ensures
            m.spec_base() == MAILBOX_BASE,
    {
        Mailbox { base_addr: MAILBOX_BASE }
    }

    /// Address of the register at `offset`.
    pub fn reg_addr(&self, offset: u64) -> (a: u64)
        requires
            self.spec_base() == MAILBOX_BASE,
            offset <= STATUS1_OFFSET + 8,
        ensures
            a == MAILBOX_BASE + offset,
    {
        self.base_addr + offset
    }

    /// The value sent for `data` on `channel`.
    pub fn pack(channel: u32, data: u32) -> (v: u32)
        ensures
            v == spec_pack(channel, data),
    {
        (data & !CHANNEL_MASK) | (channel & CHANNEL_MASK)
    }

    /// The channel of a received value.
    pub fn unpack_channel(value: u32) -> (c: u32)
        ensures
            c == value & CHANNEL_MASK,
    {
        value & CHANNEL_MASK
    }

    /// The data of a received value.
    pub fn unpack_data(value: u32) -> (d: u32)
        ensures
            d == value & !CHANNEL_MASK,
    {
        value & !CHANNEL_MASK
    }

    /// Begin a call sending `data` on `channel` at time `now_us`: fails
    /// with `InvalidData` when the data's low 4 bits are not zero, else
    /// starts draining stale responses (read status register 0 first).
    pub fn call(&self, channel: u32, data: u32, now_us: u64) -> (r: Result<MailboxCall, MailboxError>)
        ensures
            data & CHANNEL_MASK != 0 ==> r == Err::<MailboxCall, MailboxError>(MailboxError::InvalidData),
            data & CHANNEL_MASK == 0 ==> r == Ok::<MailboxCall, MailboxError>(MailboxCall { channel, data, phase: CallPhase::Drain, start_us: now_us }),
    {
        if data & CHANNEL_MASK != 0 {
            return Err(MailboxError::InvalidData);
        }
        Ok(MailboxCall { channel, data, phase: CallPhase::Drain, start_us: now_us })
    }
}

impl MailboxCall {
    /// The first access of a call: read status register 0.
    pub fn first_action(&self) -> (a: MailboxAction)
        ensures
            a == MailboxAction::ReadStatus(STATUS0_OFFSET),
    {
        MailboxAction::ReadStatus(STATUS0_OFFSET)
    }

    /// Feed the status read as asked, at time `now_us` (not before the
    /// current wait began). Draining: once mailbox 0 is empty, wait for
    /// room (from now); else time out after `TIMEOUT_US` or discard one
    /// value. Waiting for room: once there is, send and wait for the
    /// response (from now); else time out or read again. Waiting for the
    /// response: once it is there, read it; else time out or read again.
    pub fn on_status(&mut self, status: u32, now_us: u64) -> (a: MailboxAction)
        requires
            old(self).phase == CallPhase::Drain || old(self).phase == CallPhase::WaitSend || old(self).phase == CallPhase::WaitResponse,
            now_us >= old(self).start_us,
        ensures
            final(self).channel == old(self).channel,
            final(self).data == old(self).data,
            ({
                let timed_out = now_us - old(self).start_us > TIMEOUT_US;
                match old(self).phase {
                    CallPhase::Drain => if status & STATUS_READ_EMPTY != 0 {
                        a == MailboxAction::ReadStatus(STATUS1_OFFSET) && final(self).phase == CallPhase::WaitSend && final(self).start_us == now_us
                    } else if timed_out {
                        a == MailboxAction::Failed(MailboxError::DrainTimeout) && final(self).phase == CallPhase::Finished
                    } else {
                        a == MailboxAction::Discard && *final(self) == *old(self)
                    },
                    CallPhase::WaitSend => if status & STATUS_WRITE_FULL == 0 {
                        a == MailboxAction::Send(spec_pack(old(self).channel, old(self).data))
                            && final(self).phase == CallPhase::WaitResponse && final(self).start_us == now_us
                    } else if timed_out {
                        a == MailboxAction::Failed(MailboxError::SendTimeout) && final(self).phase == CallPhase::Finished
                    } else {
                        a == MailboxAction::ReadStatus(STATUS1_OFFSET) && *final(self) == *old(self)
                    },
                    _ => if status & STATUS_READ_EMPTY == 0 {
                        a == MailboxAction::ReadResponse && final(self).phase == CallPhase::ReadResponse && final(self).start_us == old(self).start_us
                    } else if timed_out {
                        a == MailboxAction::Failed(MailboxError::ReceiveTimeout) && final(self).phase == CallPhase::Finished
                    } else {
                        a == MailboxAction::ReadStatus(STATUS0_OFFSET) && *final(self) == *old(self)
                    },
                }
            }),
    {
        let timed_out = now_us - self.start_us > TIMEOUT_US;
        match self.phase {
            CallPhase::Drain => {
                if status & STATUS_READ_EMPTY != 0 {
                    self.phase = CallPhase::WaitSend;
                    self.start_us = now_us;
                    MailboxAction::ReadStatus(STATUS1_OFFSET)
                } else if timed_out {
                    self.phase = CallPhase::Finished;
                    MailboxAction::Failed(MailboxError::DrainTimeout)
                } else {
                    MailboxAction::Discard
                }
            },
            CallPhase::WaitSend => {
                if status & STATUS_WRITE_FULL == 0 {
                    self.phase = CallPhase::WaitResponse;
                    self.start_us = now_us;
                    MailboxAction::Send(Mailbox::pack(self.channel, self.data))
                } else if timed_out {
                    self.phase = CallPhase::Finished;
                    MailboxAction::Failed(MailboxError::SendTimeout)
                } else {
                    MailboxAction::ReadStatus(STATUS1_OFFSET)
                }
            },
            _ => {
                if status & STATUS_READ_EMPTY == 0 {
                    self.phase = CallPhase::ReadResponse;
                    MailboxAction::ReadResponse
                } else if timed_out {
                    self.phase = CallPhase::Finished;
                    MailboxAction::Failed(MailboxError::ReceiveTimeout)
                } else {
                    MailboxAction::ReadStatus(STATUS0_OFFSET)
                }
            },
        }
    }

    /// Feed the response read: its data when it came on the call's
    /// channel, else `ChannelMismatch`. The call is then over.
    pub fn on_response(&mut self, response: u32) -> (r: Result<u32, MailboxError>)
        requires
            old(self).phase == CallPhase::ReadResponse,
        ensures
            final(self).phase == CallPhase::Finished,
            response & CHANNEL_MASK == old(self).channel ==> r == Ok::<u32, MailboxError>(response & !CHANNEL_MASK),
            response & CHANNEL_MASK != old(self).channel ==> r == Err::<u32, MailboxError>(MailboxError::ChannelMismatch),
    {
        self.phase = CallPhase::Finished;
        if Mailbox::unpack_channel(response) != self.channel {
            return Err(MailboxError::ChannelMismatch);
        }
        Ok(Mailbox::unpack_data(response))
    }
}

/// Packing data whose low 4 bits are clear with a channel below 16 and
/// unpacking gives both back.
pub proof fn lemma_pack_unpack(channel: u32, data: u32)
    requires
        channel < 16,
        data & CHANNEL_MASK == 0,
    ensures
        spec_pack(channel, data) & CHANNEL_MASK == channel,
        spec_pack(channel, data) & !CHANNEL_MASK == data,
{
    assert(((data & !0xFu32) | (channel & 0xFu32)) & 0xFu32 == channel) by (bit_vector)
        requires channel < 16;
    assert(((data & !0xFu32) | (channel & 0xFu32)) & !0xFu32 == data) by (bit_vector)
        requires data & 0xFu32 == 0;
}

} // verus!
