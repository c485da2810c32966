//! Property channel of the VideoCore mailbox: requests are 64-byte
//! message buffers (header, one tag, end tag) that the firmware fills in
//! with its answer. This module lays out the requests, turns the buffer's
//! address into the one to send, and reads the answers back out.
use vstd::prelude::*;
use super::mailbox::{Mailbox, MailboxError};

verus! {

/// The property channel.
pub const PROPERTY_CHANNEL: u32 = 8;

/// Header code of a request.
pub const REQUEST_CODE: u32 = 0x0000_0000;

/// Header code of a successful response.
pub const RESPONSE_CODE_SUCCESS: u32 = 0x8000_0000;

/// Bit of a tag's value length set by the firmware when it answered.
pub const TAG_RESPONSE_BIT: u32 = 0x8000_0000;

/// Size of a message buffer in bytes (one cache line).
pub const MESSAGE_SIZE: u32 = 64;

/// Words in a message buffer.
pub const MESSAGE_WORDS: usize = 16;

/// Where the VideoCore sees the ARM's memory.
pub const BUS_ADDRESS_BASE: u32 = 0xC000_0000;

/// Property tags.
#[derive(Debug, Clone, Copy, PartialEq, Eq, Structural)]
pub enum PropertyTag {
    GetMacAddress,
    GetBoardSerial,
    GetArmMemory,
    GetFirmwareRevision,
}

/// The tag's ID.
pub open spec fn spec_tag_id(tag: PropertyTag) -> u32 {
    match tag {
        PropertyTag::GetMacAddress => 0x0001_0003,
        PropertyTag::GetBoardSerial => 0x0001_0004,
        PropertyTag::GetArmMemory => 0x0001_0005,
        PropertyTag::GetFirmwareRevision => 0x0000_0001,
    }
}

/// Each tag carries the firmware's property tag ID (MAC address
/// 0x00010003, board serial 0x00010004, ARM memory 0x00010005, firmware
/// revision 0x00000001), so different tags ask for different things, and
/// a request names its tag's ID in its third word.
pub proof fn lemma_tag_ids(a: PropertyTag, b: PropertyTag, value_size: u32)
    ensures
        spec_tag_id(PropertyTag::GetMacAddress) == 0x0001_0003,
        spec_tag_id(PropertyTag::GetBoardSerial) == 0x0001_0004,
        spec_tag_id(PropertyTag::GetArmMemory) == 0x0001_0005,
        spec_tag_id(PropertyTag::GetFirmwareRevision) == 0x0000_0001,
        spec_tag_id(a) == spec_tag_id(b) ==> a == b,
        spec_request(a, value_size)[2] == spec_tag_id(a),
{
}

impl PropertyTag {
    /// The tag's ID.
    pub fn id(&self) -> (r: u32)
        ensures
            r == spec_tag_id(*self),
    {
        match self {
            PropertyTag::GetMacAddress => 0x0001_0003,
            PropertyTag::GetBoardSerial => 0x0001_0004,
            PropertyTag::GetArmMemory => 0x0001_0005,
            PropertyTag::GetFirmwareRevision => 0x0000_0001,
        }
    }
}

/// Property errors.
#[derive(Debug, Clone, Copy, PartialEq, Eq, Structural)]
pub enum PropertyError {
    /// The mailbox call failed.
    Mailbox(MailboxError),
    /// The firmware answered for another buffer, or reported failure.
    ResponseFailed,
    /// The firmware did not answer the tag.
    TagNotResponded,
    /// The buffer is not 16-byte aligned.
    NotAligned,
}

/// A request: buffer size, request code, tag ID, the tag's value buffer
/// size, request length 0, and zeros up to the end.
pub open spec fn spec_request(tag: PropertyTag, value_size: u32) -> Seq<u32> {
    seq![MESSAGE_SIZE, REQUEST_CODE, spec_tag_id(tag), value_size, 0u32].add(Seq::new(11, |i: int| 0u32))
}

/// Byte `k` (0 lowest) of a word.
pub open spec fn spec_byte(w: u32, k: u32) -> u8 {
    ((w >> (8 * k)) & 0xFFu32) as u8
}

/// The property mailbox.
pub struct PropertyMailbox {
    mbox: Mailbox,
}

impl PropertyMailbox {
    /// The mailbox that property calls go through.
    pub closed spec fn spec_mailbox(&self) -> Mailbox {
        self.mbox
    }

    /// A property mailbox over the mailbox at its base address.
    pub fn new() -> (p: Self)
        ensures
            p.spec_mailbox().spec_base() == super::mailbox::MAILBOX_BASE,
    {
        PropertyMailbox { mbox: Mailbox::new() }
    }

    /// The mailbox calls go through.
    pub fn mailbox(&self) -> (m: &Mailbox)
        ensures
            *m == self.spec_mailbox(),
    {
        &self.mbox
    }

    /// The request for `tag`, whose value buffer is `value_size` bytes.
    pub fn request(tag: PropertyTag, value_size: u32) -> (words: Vec<u32>)
        ensures
            words@ == spec_request(tag, value_size),
    {
        let mut words: Vec<u32> = vec![MESSAGE_SIZE, REQUEST_CODE, tag.id(), value_size, 0];
        let mut i: usize = 5;
        while i < MESSAGE_WORDS
            invariant
                5 <= i <= MESSAGE_WORDS,
                words@ == seq![MESSAGE_SIZE, REQUEST_CODE, spec_tag_id(tag), value_size, 0u32].add(Seq::new((i - 5) as nat, |j: int| 0u32)),
            decreases MESSAGE_WORDS - i,
        {
            words.push(0);
            i = i + 1;
        }
        words
    }

    /// The address to send for a buffer at ARM physical address
    /// `buffer_phys`: its VideoCore bus address; `NotAligned` when the
    /// buffer is not 16-byte aligned.
    pub fn bus_address(buffer_phys: u32) -> (r: Result<u32, PropertyError>)
        ensures
            buffer_phys & 0xF != 0 ==> r == Err::<u32, PropertyError>(PropertyError::NotAligned),
            buffer_phys & 0xF == 0 ==> r == Ok::<u32, PropertyError>(BUS_ADDRESS_BASE | buffer_phys),
    {
        if buffer_phys & 0xF != 0 {
            return Err(PropertyError::NotAligned);
        }
        Ok(BUS_ADDRESS_BASE | buffer_phys)
    }

    /// Check the outcome of a property call that sent `sent_addr` and got
    /// `reply`, the buffer then holding `words`: a failed call is
    /// `Mailbox`; an answer for another address, or a header code other
    /// than success, is `ResponseFailed`; a tag without its response bit
    /// is `TagNotResponded`.
    pub fn check_response(sent_addr: u32, reply: Result<u32, MailboxError>, words: &[u32]) -> (r: Result<(), PropertyError>)
        requires
            words@.len() == MESSAGE_WORDS,
        ensures
            r == spec_check_response(sent_addr, reply, words@),
    {
        match reply {
            Err(e) => Err(PropertyError::Mailbox(e)),
            Ok(addr) => {
                if addr != sent_addr {
                    Err(PropertyError::ResponseFailed)
                } else if words[1] != RESPONSE_CODE_SUCCESS {
                    Err(PropertyError::ResponseFailed)
                } else if words[4] & TAG_RESPONSE_BIT == 0 {
                    Err(PropertyError::TagNotResponded)
                } else {
                    Ok(())
                }
            },
        }
    }

    /// The board's MAC address from a `GetMacAddress` call (see
    /// `check_response`): bytes 20..26 of the buffer.
    pub fn get_mac_address(&self, sent_addr: u32, reply: Result<u32, MailboxError>, words: &[u32]) -> (r: Result<[u8; 6], PropertyError>)
        requires
            words@.len() == MESSAGE_WORDS,
        ensures
            match spec_check_response(sent_addr, reply, words@) {
                Err(e) => r == Err::<[u8; 6], PropertyError>(e),
                Ok(()) => r matches Ok(mac) && mac@ == seq![
                    spec_byte(words@[5], 0), spec_byte(words@[5], 1), spec_byte(words@[5], 2), spec_byte(words@[5], 3),
                    spec_byte(words@[6], 0), spec_byte(words@[6], 1),
                ],
            },
    {
        match Self::check_response(sent_addr, reply, words) {
            Err(e) => Err(e),
            Ok(()) => {
                let w5 = words[5];
                let w6 = words[6];
                let mac = [byte_of(w5, 0), byte_of(w5, 1), byte_of(w5, 2), byte_of(w5, 3), byte_of(w6, 0), byte_of(w6, 1)];
                assert(mac@ =~= seq![
                    spec_byte(words@[5], 0), spec_byte(words@[5], 1), spec_byte(words@[5], 2), spec_byte(words@[5], 3),
                    spec_byte(words@[6], 0), spec_byte(words@[6], 1),
                ]);
                Ok(mac)
            },
        }
    }

    /// The board serial number from a `GetBoardSerial` call (see
    /// `check_response`): the 64-bit value at bytes 24..32 of the buffer.
    pub fn get_board_serial(&self, sent_addr: u32, reply: Result<u32, MailboxError>, words: &[u32]) -> (r: Result<u64, PropertyError>)
        requires
            words@.len() == MESSAGE_WORDS,
        ensures
            match spec_check_response(sent_addr, reply, words@) {
                Err(e) => r == Err::<u64, PropertyError>(e),
                Ok(()) => r == Ok::<u64, PropertyError>((words@[7] as int * 0x1_0000_0000 + words@[6] as int) as u64),
            },
    {
        match Self::check_response(sent_addr, reply, words) {
            Err(e) => Err(e),
            Ok(()) => {
                let lo = words[6];
                let hi = words[7];
                let v = ((hi as u64) << 32u64) | (lo as u64);
                assert(((hi as u64) << 32u64) | (lo as u64) == hi as u64 * 0x1_0000_0000u64 + lo as u64) by (bit_vector);
                assert(hi as int * 0x1_0000_0000 + lo as int <= u64::MAX) by (nonlinear_arith)
                    requires hi <= u32::MAX, lo <= u32::MAX;
                Ok(v)
            },
        }
    }

    /// The firmware revision from a `GetFirmwareRevision` call (see
    /// `check_response`): the word at bytes 20..24 of the buffer.
    pub fn get_firmware_revision(&self, sent_addr: u32, reply: Result<u32, MailboxError>, words: &[u32]) -> (r: Result<u32, PropertyError>)
        requires
            words@.len() == MESSAGE_WORDS,
        ensures
            match spec_check_response(sent_addr, reply, words@) {
                Err(e) => r == Err::<u32, PropertyError>(e),
                Ok(()) => r == Ok::<u32, PropertyError>(words@[5]),
            },
    {
        match Self::check_response(sent_addr, reply, words) {
            Err(e) => Err(e),
            Ok(()) => Ok(words[5]),
        }
    }
}

/// What `check_response` decides.
pub open spec fn spec_check_response(sent_addr: u32, reply: Result<u32, MailboxError>, words: Seq<u32>) -> Result<(), PropertyError> {
    match reply {
        Err(e) => Err(PropertyError::Mailbox(e)),
        Ok(addr) => if addr != sent_addr {
            Err(PropertyError::ResponseFailed)
        } else if words[1] != RESPONSE_CODE_SUCCESS {
            Err(PropertyError::ResponseFailed)
        } else if words[4] & TAG_RESPONSE_BIT == 0 {
            Err(PropertyError::TagNotResponded)
        } else {
            Ok(())
        },
    }
}

/// Byte `k` (0 lowest, below 4) of a word.
fn byte_of(w: u32, k: u32) -> (b: u8)
    requires
        k < 4,
    ensures
        b == spec_byte(w, k),
{
    ((w >> (8 * k)) & 0xFF) as u8
}

} // verus!
