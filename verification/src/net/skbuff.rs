//! Socket buffers: packet data with movable header offsets, after
//! Linux's sk_buff.
use vstd::prelude::*;
use std::sync::Arc;
use vstd::slice::slice_to_vec;
use crate::net::ethernet::MacAddress;
use crate::net::socket::types::Protocol;

verus! {

/// Largest packet an sk_buff accepts.
pub const MAX_PACKET_SIZE: usize = 2048;

/// Header offsets into the packet data.
#[derive(Debug, Clone)]
struct SkBuffHeaders {
    head: usize,
    data: usize,
    tail: usize,
    mac_header: Option<usize>,
    network_header: Option<usize>,
    transport_header: Option<usize>,
}

/// Metadata filled in as a packet moves up the stack.
#[derive(Debug, Clone)]
pub struct PacketMetadata {
    pub protocol: Protocol,
    pub src_mac: Option<MacAddress>,
    pub dst_mac: Option<MacAddress>,
    pub src_ip: Option<[u8; 4]>,
    pub dst_ip: Option<[u8; 4]>,
    pub src_port: Option<u16>,
    pub dst_port: Option<u16>,
    /// Receive time in microseconds since boot.
    pub timestamp_us: u64,
}

/// Errors of sk_buff operations.
#[derive(Debug, Clone, Copy, PartialEq, Eq, Structural)]
pub enum SkBuffError {
    AllocationFailed,
    PacketTooLarge,
    InvalidPacket,
    InsufficientHeadroom,
    InsufficientData,
}

impl SkBuffError {
    /// The text that describes the error.
    pub open spec fn spec_message(self) -> Seq<char> {
        match self {
            SkBuffError::AllocationFailed => "heap allocation failed"@,
            SkBuffError::PacketTooLarge => "packet exceeds maximum size"@,
            SkBuffError::InvalidPacket => "invalid packet data"@,
            SkBuffError::InsufficientHeadroom => "insufficient headroom for header"@,
            SkBuffError::InsufficientData => "insufficient data to pull header"@,
        }
    }

    /// A short description of the error.
    pub fn message(&self) -> (s: &'static str)
        ensures
            s@ == self.spec_message(),
    {
        match self {
            SkBuffError::AllocationFailed => "heap allocation failed",
            SkBuffError::PacketTooLarge => "packet exceeds maximum size",
            SkBuffError::InvalidPacket => "invalid packet data",
            SkBuffError::InsufficientHeadroom => "insufficient headroom for header",
            SkBuffError::InsufficientData => "insufficient data to pull header",
        }
    }
}

/// A packet: owned bytes, the offset where the current layer starts, the
/// recorded header offsets, and metadata.
#[derive(Debug)]
pub struct SkBuff {
    core: PacketBytes,
    metadata: PacketMetadata,
}

/// The bytes of a packet with their header offsets.
#[derive(Debug)]
struct PacketBytes {
    data: Vec<u8>,
    headers: SkBuffHeaders,
}

impl PacketBytes {
    /// Head at 0, the data offset within the packet, the tail at the end
    /// of the bytes.
    #[verifier::type_invariant]
    closed spec fn wf(&self) -> bool {
        &&& self.headers.head == 0
        &&& self.headers.data <= self.headers.tail
        &&& self.headers.tail == self.data@.len()
    }

    fn data(&self) -> (r: &[u8])
        ensures
            self.headers.data <= self.data@.len(),
            r@ == self.data@.subrange(self.headers.data as int, self.data@.len() as int),
    {
        proof {
            use_type_invariant(self);
        }
        &self.data.as_slice()[self.headers.data..self.headers.tail]
    }

    fn pull(&mut self, size: usize) -> (r: Result<(), SkBuffError>)
        ensures
            final(self).data@ == old(self).data@,
            final(self).headers.mac_header == old(self).headers.mac_header,
            final(self).headers.network_header == old(self).headers.network_header,
            final(self).headers.transport_header == old(self).headers.transport_header,
            old(self).headers.data + size > old(self).data@.len() <==> r == Err::<(), SkBuffError>(SkBuffError::InsufficientData),
            old(self).headers.data + size <= old(self).data@.len() ==> r == Ok::<(), SkBuffError>(()),
            r is Ok ==> final(self).headers.data == old(self).headers.data + size,
            r is Err ==> final(self).headers.data == old(self).headers.data,
            final(self).headers.data <= final(self).data@.len(),
    {
        proof {
            use_type_invariant(&*self);
        }
        if size > self.headers.tail - self.headers.data {
            return Err(SkBuffError::InsufficientData);
        }
        self.headers.data = self.headers.data + size;
        Ok(())
    }

    fn push(&mut self, header: &[u8]) -> (r: Result<(), SkBuffError>)
        ensures
            (old(self).headers.data < header@.len()) <==> r is Err,
            r is Err ==> r == Err::<(), SkBuffError>(SkBuffError::InsufficientHeadroom)
                && final(self).data@ == old(self).data@ && final(self).headers == old(self).headers,
            r is Ok ==> {
                let start = old(self).headers.data - header@.len();
                &&& final(self).headers.data == start
                &&& final(self).data@ == old(self).data@.subrange(0, start) + header@
                    + old(self).data@.subrange(old(self).headers.data as int, old(self).data@.len() as int)
            },
            final(self).headers.mac_header == old(self).headers.mac_header,
            final(self).headers.network_header == old(self).headers.network_header,
            final(self).headers.transport_header == old(self).headers.transport_header,
            final(self).headers.data <= final(self).data@.len(),
    {
        proof {
            use_type_invariant(&*self);
        }
        let size = header.len();
        if self.headers.data < size {
            return Err(SkBuffError::InsufficientHeadroom);
        }
        let start = self.headers.data - size;
        let len = self.data.len();
        let mut bytes: Vec<u8> = Vec::with_capacity(len);
        let mut k: usize = 0;
        while k < len
            invariant
                size == header@.len(),
                start + size == self.headers.data,
                len == self.data@.len(),
                0 <= k <= len,
                bytes@.len() == k,
                forall|j: int| 0 <= j < k ==> #[trigger] bytes@[j] == if start <= j < start + size {
                    header@[j - start]
                } else {
                    self.data@[j]
                },
            decreases len - k,
        {
            let b = if start <= k && k < start + size { header[k - start] } else { self.data[k] };
            bytes.push(b);
            k = k + 1;
        }
        self.data = bytes;
        self.headers.data = start;
        assert(self.data@ =~= old(self).data@.subrange(0, start as int) + header@
            + old(self).data@.subrange(old(self).headers.data as int, old(self).data@.len() as int));
        Ok(())
    }

    fn len(&self) -> (n: usize)
        ensures
            n == self.data@.len(),
    {
        proof {
            use_type_invariant(self);
        }
        self.headers.tail - self.headers.head
    }

    fn as_bytes(&self) -> (r: &[u8])
        ensures
            r@ == self.data@,
    {
        proof {
            use_type_invariant(self);
        }
        let r = &self.data.as_slice()[self.headers.head..self.headers.tail];
        assert(r@ =~= self.data@);
        r
    }

    spec fn data_offset(&self) -> nat {
        self.headers.data as nat
    }

    fn offset_in_range(&self)
        ensures
            self.headers.data <= self.data@.len(),
    {
        proof {
            use_type_invariant(self);
        }
    }
}

impl SkBuff {
    /// All bytes of the packet.
    pub closed spec fn spec_bytes(&self) -> Seq<u8> {
        self.core.data@
    }

    /// Offset of the current layer's data.
    pub closed spec fn spec_data_offset(&self) -> nat {
        self.core.headers.data as nat
    }

    /// The current layer's data: from the data offset to the end.
    pub open spec fn spec_data(&self) -> Seq<u8> {
        self.spec_bytes().subrange(self.spec_data_offset() as int, self.spec_bytes().len() as int)
    }

    pub closed spec fn spec_mac_header(&self) -> Option<usize> {
        self.core.headers.mac_header
    }

    pub closed spec fn spec_network_header(&self) -> Option<usize> {
        self.core.headers.network_header
    }

    pub closed spec fn spec_transport_header(&self) -> Option<usize> {
        self.core.headers.transport_header
    }

    pub closed spec fn spec_metadata(&self) -> PacketMetadata {
        self.metadata
    }

    /// A new sk_buff for `frame` received at `timestamp_us`: the frame's
    /// bytes, data offset 0, no header marked, protocol `NoProtocol`, no
    /// addresses or ports, that receive time.
    pub open spec fn spec_is_fresh(&self, frame: Seq<u8>, timestamp_us: u64) -> bool {
        &&& self.spec_bytes() == frame
        &&& self.spec_data_offset() == 0
        &&& self.spec_mac_header() is None
        &&& self.spec_network_header() is None
        &&& self.spec_transport_header() is None
        &&& self.spec_metadata().protocol == Protocol::NoProtocol
        &&& self.spec_metadata().src_mac is None
        &&& self.spec_metadata().dst_mac is None
        &&& self.spec_metadata().src_ip is None
        &&& self.spec_metadata().dst_ip is None
        &&& self.spec_metadata().src_port is None
        &&& self.spec_metadata().dst_port is None
        &&& self.spec_metadata().timestamp_us == timestamp_us
    }

    /// Copy a received frame into a new sk_buff. Fails with
    /// `PacketTooLarge` when the frame is longer than `MAX_PACKET_SIZE`.
    /// The data offset starts at 0, no header is marked, the protocol is
    /// `NoProtocol` and the receive time is `timestamp_us`.
    pub fn from_dma(frame_data: &[u8], timestamp_us: u64) -> (r: Result<Arc<Self>, SkBuffError>)
        ensures
            frame_data@.len() > MAX_PACKET_SIZE <==> r == Err::<Arc<Self>, SkBuffError>(SkBuffError::PacketTooLarge),
            frame_data@.len() <= MAX_PACKET_SIZE <==> r is Ok,
            r is Ok ==> (*r->Ok_0).spec_is_fresh(frame_data@, timestamp_us),
    {
        if frame_data.len() > MAX_PACKET_SIZE {
            return Err(SkBuffError::PacketTooLarge);
        }
        let data = slice_to_vec(frame_data);
        let len = data.len();
        let headers = SkBuffHeaders {
            head: 0,
            data: 0,
            tail: len,
            mac_header: None,
            network_header: None,
            transport_header: None,
        };
        let metadata = PacketMetadata {
            protocol: Protocol::NoProtocol,
            src_mac: None,
            dst_mac: None,
            src_ip: None,
            dst_ip: None,
            src_port: None,
            dst_port: None,
            timestamp_us,
        };
        Ok(Arc::new(SkBuff { core: PacketBytes { data, headers }, metadata }))
    }

    /// The current layer's data.
    pub fn data(&self) -> (r: &[u8])
        ensures
            self.spec_data_offset() <= self.spec_bytes().len(),
            r@ == self.spec_data(),
    {
        self.core.data()
    }

    /// Strip `size` bytes of header: move the data offset forward.
    /// Fails with `InsufficientData`, changing nothing, when fewer than
    /// `size` bytes of data remain.
    pub fn pull_header(&mut self, size: usize) -> (r: Result<(), SkBuffError>)
        ensures
            final(self).spec_bytes() == old(self).spec_bytes(),
            final(self).spec_mac_header() == old(self).spec_mac_header(),
            final(self).spec_network_header() == old(self).spec_network_header(),
            final(self).spec_transport_header() == old(self).spec_transport_header(),
            final(self).spec_metadata() == old(self).spec_metadata(),
            old(self).spec_data_offset() + size > old(self).spec_bytes().len() <==> r == Err::<(), SkBuffError>(SkBuffError::InsufficientData),
            old(self).spec_data_offset() + size <= old(self).spec_bytes().len() ==> r == Ok::<(), SkBuffError>(()),
            r is Ok ==> final(self).spec_data_offset() == old(self).spec_data_offset() + size,
            r is Err ==> final(self).spec_data_offset() == old(self).spec_data_offset(),
            final(self).spec_data_offset() <= final(self).spec_bytes().len(),
    {
        self.core.pull(size)
    }

    /// Prepend a header in front of the current data: move the data
    /// offset back by `header.len()` and copy `header` into the bytes
    /// uncovered. Fails with `InsufficientHeadroom`, changing nothing, when
    /// the data offset is below the header's length.
    pub fn push_header(&mut self, header: &[u8]) -> (r: Result<(), SkBuffError>)
        ensures
            (old(self).spec_data_offset() < header@.len()) <==> r is Err,
            r is Err ==> r == Err::<(), SkBuffError>(SkBuffError::InsufficientHeadroom)
                && final(self).spec_bytes() == old(self).spec_bytes()
                && final(self).spec_data_offset() == old(self).spec_data_offset(),
            r is Ok ==> {
                let start = old(self).spec_data_offset() - header@.len();
                &&& final(self).spec_data_offset() == start
                &&& final(self).spec_bytes() == old(self).spec_bytes().subrange(0, start) + header@
                    + old(self).spec_bytes().subrange(old(self).spec_data_offset() as int, old(self).spec_bytes().len() as int)
                &&& final(self).spec_data() == header@ + old(self).spec_data()
            },
            final(self).spec_mac_header() == old(self).spec_mac_header(),
            final(self).spec_network_header() == old(self).spec_network_header(),
            final(self).spec_transport_header() == old(self).spec_transport_header(),
            final(self).spec_metadata() == old(self).spec_metadata(),
            final(self).spec_data_offset() <= final(self).spec_bytes().len(),
    {
        self.core.offset_in_range();
        let r = self.core.push(header);
        proof {
            if r is Ok {
                let start = old(self).spec_data_offset() - header@.len();
                assert(self.spec_data() =~= header@ + old(self).spec_data());
            }
        }
        r
    }

    /// Record the offset of the MAC header.
    pub fn set_mac_header(&mut self, offset: usize)
        ensures
            final(self).spec_mac_header() == Some(offset),
            final(self).spec_network_header() == old(self).spec_network_header(),
            final(self).spec_transport_header() == old(self).spec_transport_header(),
            final(self).spec_bytes() == old(self).spec_bytes(),
            final(self).spec_data_offset() == old(self).spec_data_offset(),
            final(self).spec_metadata() == old(self).spec_metadata(),
    {
        self.core.set_header_offsets(Some(offset), self.core.headers.network_header, self.core.headers.transport_header);
    }

    /// Record the offset of the network header.
    pub fn set_network_header(&mut self, offset: usize)
        ensures
            final(self).spec_network_header() == Some(offset),
            final(self).spec_mac_header() == old(self).spec_mac_header(),
            final(self).spec_transport_header() == old(self).spec_transport_header(),
            final(self).spec_bytes() == old(self).spec_bytes(),
            final(self).spec_data_offset() == old(self).spec_data_offset(),
            final(self).spec_metadata() == old(self).spec_metadata(),
    {
        self.core.set_header_offsets(self.core.headers.mac_header, Some(offset), self.core.headers.transport_header);
    }

    /// Record the offset of the transport header.
    pub fn set_transport_header(&mut self, offset: usize)
        ensures
            final(self).spec_transport_header() == Some(offset),
            final(self).spec_mac_header() == old(self).spec_mac_header(),
            final(self).spec_network_header() == old(self).spec_network_header(),
            final(self).spec_bytes() == old(self).spec_bytes(),
            final(self).spec_data_offset() == old(self).spec_data_offset(),
            final(self).spec_metadata() == old(self).spec_metadata(),
    {
        self.core.set_header_offsets(self.core.headers.mac_header, self.core.headers.network_header, Some(offset));
    }

    /// Offset of the MAC header, if recorded.
    pub fn mac_header(&self) -> (r: Option<usize>)
        ensures
            r == self.spec_mac_header(),
    {
        self.core.headers.mac_header
    }

    /// Offset of the network header, if recorded.
    pub fn network_header(&self) -> (r: Option<usize>)
        ensures
            r == self.spec_network_header(),
    {
        self.core.headers.network_header
    }

    /// Offset of the transport header, if recorded.
    pub fn transport_header(&self) -> (r: Option<usize>)
        ensures
            r == self.spec_transport_header(),
    {
        self.core.headers.transport_header
    }

    /// Mutable access to the metadata; nothing else changes.
    pub fn metadata_mut(&mut self) -> (r: &mut PacketMetadata)
        ensures
            *r == old(self).spec_metadata(),
            final(self).spec_metadata() == *final(r),
            final(self).spec_bytes() == old(self).spec_bytes(),
            final(self).spec_data_offset() == old(self).spec_data_offset(),
            final(self).spec_mac_header() == old(self).spec_mac_header(),
            final(self).spec_network_header() == old(self).spec_network_header(),
            final(self).spec_transport_header() == old(self).spec_transport_header(),
    {
        &mut self.metadata
    }

    /// The metadata.
    pub fn metadata(&self) -> (r: &PacketMetadata)
        ensures
            *r == self.spec_metadata(),
    {
        &self.metadata
    }

    /// Total packet length (all headers and payload).
    pub fn len(&self) -> (n: usize)
        ensures
            n == self.spec_bytes().len(),
    {
        self.core.len()
    }

    /// Whether the packet has no bytes.
    pub fn is_empty(&self) -> (b: bool)
        ensures
            b == (self.spec_bytes().len() == 0),
    {
        self.len() == 0
    }

    /// All bytes of the packet, from head to tail.
    pub fn as_bytes(&self) -> (r: &[u8])
        ensures
            r@ == self.spec_bytes(),
    {
        self.core.as_bytes()
    }
}

impl PacketBytes {
    fn set_header_offsets(&mut self, mac: Option<usize>, network: Option<usize>, transport: Option<usize>)
        ensures
            final(self).data@ == old(self).data@,
            final(self).headers.data == old(self).headers.data,
            final(self).headers.mac_header == mac,
            final(self).headers.network_header == network,
            final(self).headers.transport_header == transport,
    {
        proof {
            use_type_invariant(&*self);
        }
        self.headers.mac_header = mac;
        self.headers.network_header = network;
        self.headers.transport_header = transport;
    }
}

/// Pulling `size` bytes of header off an sk_buff and pushing those same
/// bytes back gives the packet back: the same bytes and the same data
/// offset, so the same current data. `pulled` is the sk_buff as
/// `pull_header(size)` leaves it when it succeeds, `restored` as
/// `push_header` then leaves it when given the pulled bytes.
pub proof fn lemma_pull_push_restores(before: SkBuff, pulled: SkBuff, restored: SkBuff, size: nat)
    requires
        before.spec_data_offset() + size <= before.spec_bytes().len(),
        pulled.spec_bytes() == before.spec_bytes(),
        pulled.spec_data_offset() == before.spec_data_offset() + size,
        restored.spec_data_offset() == pulled.spec_data_offset() - size,
        restored.spec_bytes() == pulled.spec_bytes().subrange(0, restored.spec_data_offset() as int)
            + before.spec_data().subrange(0, size as int)
            + pulled.spec_bytes().subrange(pulled.spec_data_offset() as int, pulled.spec_bytes().len() as int),
    ensures
        restored.spec_bytes() == before.spec_bytes(),
        restored.spec_data_offset() == before.spec_data_offset(),
        restored.spec_data() == before.spec_data(),
{
    let bytes = before.spec_bytes();
    let offset = before.spec_data_offset() as int;
    assert(before.spec_data().subrange(0, size as int) =~= bytes.subrange(offset, offset + size));
    assert(bytes.subrange(0, offset) + bytes.subrange(offset, offset + size)
        + bytes.subrange(offset + size, bytes.len() as int) =~= bytes);
}

} // verus!
