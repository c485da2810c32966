//! ARP (RFC 826) packets for Ethernet and IPv4.
use vstd::prelude::*;
use vstd::string::StringExecFns;
use crate::render::{push_ipv4, spec_ipv4_text};
use super::ethernet::{MacAddress, spec_mac_text, be16_bytes, be16_value, u16_from_be, u16_to_be, lemma_be16_roundtrip};

verus! {

/// ARP operation codes.
#[derive(Copy, Clone, Debug, PartialEq, Eq, Structural)]
pub enum ArpOperation {
    /// Who has this IP address?
    Request,
    /// This IP address is at this MAC address.
    Reply,
}

/// The operation code carried on the wire for `op`.
pub open spec fn spec_op_code(op: ArpOperation) -> u16 {
    match op {
        ArpOperation::Request => 1,
        ArpOperation::Reply => 2,
    }
}

impl ArpOperation {
    /// Decode an operation code: 1 is a request, 2 a reply, anything else `None`.
    pub fn from_be(value: u16) -> (r: Option<Self>)
        ensures
            value == 1 ==> r == Some(ArpOperation::Request),
            value == 2 ==> r == Some(ArpOperation::Reply),
            value != 1 && value != 2 ==> r is None,
    {
        match value {
            1 => Some(ArpOperation::Request),
            2 => Some(ArpOperation::Reply),
            _ => None,
        }
    }

    /// The operation code of this operation.
    pub fn to_be(self) -> (v: u16)
        ensures
            v == spec_op_code(self),
    {
        match self {
            ArpOperation::Request => 1,
            ArpOperation::Reply => 2,
        }
    }
}

/// Ethernet hardware type.
pub const ARP_HARDWARE_ETHERNET: u16 = 1;

/// IPv4 protocol type.
pub const ARP_PROTOCOL_IPV4: u16 = 0x0800;

/// ARP packet for Ethernet and IPv4 (28 bytes on the wire).
#[derive(Copy, Clone, Debug)]
pub struct ArpPacket {
    pub hardware_type: u16,
    pub protocol_type: u16,
    pub hw_addr_len: u8,
    pub proto_addr_len: u8,
    pub operation: ArpOperation,
    pub sender_mac: MacAddress,
    pub sender_ip: [u8; 4],
    pub target_mac: MacAddress,
    pub target_ip: [u8; 4],
}

impl ArpPacket {
    /// The summary line: `ARP <Request|Reply> - Who has <target IP>? Tell
    /// <sender IP> (<sender MAC>)`.
    pub open spec fn spec_text(&self) -> Seq<char> {
        "ARP "@ + (if self.operation == ArpOperation::Request { "Request"@ } else { "Reply"@ })
            + " - Who has "@ + spec_ipv4_text(self.target_ip@) + "? Tell "@
            + spec_ipv4_text(self.sender_ip@) + " ("@ + spec_mac_text(self.sender_mac.0@) + ")"@
    }

    /// The summary line of this packet (see `spec_text`).
    pub fn to_string(&self) -> (r: String)
        ensures
            r@ == self.spec_text(),
    {
        let mut out = String::from_str("ARP ");
        match self.operation {
            ArpOperation::Request => out.append("Request"),
            ArpOperation::Reply => out.append("Reply"),
        }
        out.append(" - Who has ");
        push_ipv4(&mut out, &self.target_ip);
        out.append("? Tell ");
        push_ipv4(&mut out, &self.sender_ip);
        out.append(" (");
        let mac = self.sender_mac.to_string();
        out.append(mac.as_str());
        out.append(")");
        out
    }
}

/// An ARP packet as plain values: hardware type, protocol type, the two
/// address lengths, operation, sender MAC, sender IP, target MAC, target IP.
pub type ArpFields = (u16, u16, u8, u8, ArpOperation, Seq<u8>, Seq<u8>, Seq<u8>, Seq<u8>);

/// The 28 bytes of an ARP packet with the given fields.
pub open spec fn spec_arp_bytes(f: ArpFields) -> Seq<u8> {
    be16_bytes(f.0) + be16_bytes(f.1) + seq![f.2, f.3] + be16_bytes(spec_op_code(f.4)) + f.5 + f.6 + f.7 + f.8
}

/// What parsing `buf` yields: `None` when it is shorter than 28 bytes,
/// is not Ethernet/IPv4 with address lengths 6 and 4, or carries an
/// unknown operation; else the fields read from its first 28 bytes.
pub open spec fn spec_parse_arp(buf: Seq<u8>) -> Option<ArpFields> {
    if buf.len() < 28 {
        None
    } else {
        let hw = be16_value(buf[0], buf[1]);
        let proto = be16_value(buf[2], buf[3]);
        let op = be16_value(buf[6], buf[7]);
        if hw != 1 || proto != 0x0800 || buf[4] != 6 || buf[5] != 4 || (op != 1 && op != 2) {
            None
        } else {
            Some((hw, proto, buf[4], buf[5],
                if op == 1 { ArpOperation::Request } else { ArpOperation::Reply },
                buf.subrange(8, 14), buf.subrange(14, 18), buf.subrange(18, 24), buf.subrange(24, 28)))
        }
    }
}

impl ArpPacket {
    /// Size of an ARP packet in bytes.
    pub const SIZE: usize = 28;

    /// This packet as plain values.
    pub open spec fn spec_fields(&self) -> ArpFields {
        (self.hardware_type, self.protocol_type, self.hw_addr_len, self.proto_addr_len, self.operation,
            self.sender_mac.0@, self.sender_ip@, self.target_mac.0@, self.target_ip@)
    }

    /// Ethernet/IPv4 packet with the standard address lengths.
    pub open spec fn spec_is_ethernet_ipv4(&self) -> bool {
        &&& self.hardware_type == 1
        &&& self.protocol_type == 0x0800
        &&& self.hw_addr_len == 6
        &&& self.proto_addr_len == 4
    }

    /// Create an Ethernet/IPv4 ARP packet.
    pub fn new(operation: ArpOperation, sender_mac: MacAddress, sender_ip: [u8; 4], target_mac: MacAddress, target_ip: [u8; 4]) -> (p: Self)
        ensures
            p.spec_is_ethernet_ipv4(),
            p.operation == operation,
            p.sender_mac == sender_mac,
            p.sender_ip == sender_ip,
            p.target_mac == target_mac,
            p.target_ip == target_ip,
    {
        ArpPacket {
            hardware_type: ARP_HARDWARE_ETHERNET,
            protocol_type: ARP_PROTOCOL_IPV4,
            hw_addr_len: 6,
            proto_addr_len: 4,
            operation,
            sender_mac,
            sender_ip,
            target_mac,
            target_ip,
        }
    }

    /// A request "who has target_ip? tell sender_ip": target MAC all zero.
    pub fn request(sender_mac: MacAddress, sender_ip: [u8; 4], target_ip: [u8; 4]) -> (p: Self)
        ensures
            p.spec_is_ethernet_ipv4(),
            p.operation == ArpOperation::Request,
            p.sender_mac == sender_mac,
            p.sender_ip == sender_ip,
            p.target_mac.0@ == seq![0u8, 0u8, 0u8, 0u8, 0u8, 0u8],
            p.target_ip == target_ip,
    {
        Self::new(ArpOperation::Request, sender_mac, sender_ip, MacAddress::zero(), target_ip)
    }

    /// A reply "target_ip is at target_mac".
    pub fn reply(sender_mac: MacAddress, sender_ip: [u8; 4], target_mac: MacAddress, target_ip: [u8; 4]) -> (p: Self)
        ensures
            p.spec_is_ethernet_ipv4(),
            p.operation == ArpOperation::Reply,
            p.sender_mac == sender_mac,
            p.sender_ip == sender_ip,
            p.target_mac == target_mac,
            p.target_ip == target_ip,
    {
        Self::new(ArpOperation::Reply, sender_mac, sender_ip, target_mac, target_ip)
    }

    /// Parse an ARP packet from the first 28 bytes of `buffer`.
    pub fn parse(buffer: &[u8]) -> (r: Option<Self>)
        ensures
            match r {
                Some(p) => spec_parse_arp(buffer@) == Some(p.spec_fields()),
                None => spec_parse_arp(buffer@) is None,
            },
    {
        if buffer.len() < Self::SIZE {
            return None;
        }
        let hardware_type = u16_from_be(buffer[0], buffer[1]);
        let protocol_type = u16_from_be(buffer[2], buffer[3]);
        let hw_addr_len = buffer[4];
        let proto_addr_len = buffer[5];
        if hardware_type != ARP_HARDWARE_ETHERNET || protocol_type != ARP_PROTOCOL_IPV4 || hw_addr_len != 6
            || proto_addr_len != 4 {
            return None;
        }
        let operation = match ArpOperation::from_be(u16_from_be(buffer[6], buffer[7])) {
            Some(op) => op,
            None => return None,
        };
        let sender_mac = MacAddress([buffer[8], buffer[9], buffer[10], buffer[11], buffer[12], buffer[13]]);
        let sender_ip = [buffer[14], buffer[15], buffer[16], buffer[17]];
        let target_mac = MacAddress([buffer[18], buffer[19], buffer[20], buffer[21], buffer[22], buffer[23]]);
        let target_ip = [buffer[24], buffer[25], buffer[26], buffer[27]];
        let p = ArpPacket {
            hardware_type,
            protocol_type,
            hw_addr_len,
            proto_addr_len,
            operation,
            sender_mac,
            sender_ip,
            target_mac,
            target_ip,
        };
        assert(p.sender_mac.0@ =~= buffer@.subrange(8, 14));
        assert(p.sender_ip@ =~= buffer@.subrange(14, 18));
        assert(p.target_mac.0@ =~= buffer@.subrange(18, 24));
        assert(p.target_ip@ =~= buffer@.subrange(24, 28));
        Some(p)
    }

    /// Write the packet to the first 28 bytes of `buffer`; `None`, with
    /// the buffer untouched, when it is shorter than 28 bytes.
    #[verifier::spinoff_prover]
    pub fn write_to(&self, buffer: &mut [u8]) -> (r: Option<usize>)
        ensures
            final(buffer)@.len() == old(buffer)@.len(),
            match r {
                Some(n) => {
                    &&& n == 28
                    &&& final(buffer)@ == spec_arp_bytes(self.spec_fields()) + old(buffer)@.subrange(28, old(buffer)@.len() as int)
                },
                None => {
                    &&& old(buffer)@.len() < 28
                    &&& final(buffer)@ == old(buffer)@
                },
            },
    {
        if buffer.len() < Self::SIZE {
            return None;
        }
        let hw = u16_to_be(self.hardware_type);
        let pr = u16_to_be(self.protocol_type);
        let op = u16_to_be(self.operation.to_be());
        buffer[0] = hw[0];
        buffer[1] = hw[1];
        buffer[2] = pr[0];
        buffer[3] = pr[1];
        buffer[4] = self.hw_addr_len;
        buffer[5] = self.proto_addr_len;
        buffer[6] = op[0];
        buffer[7] = op[1];
        buffer[8] = self.sender_mac.0[0];
        buffer[9] = self.sender_mac.0[1];
        buffer[10] = self.sender_mac.0[2];
        buffer[11] = self.sender_mac.0[3];
        buffer[12] = self.sender_mac.0[4];
        buffer[13] = self.sender_mac.0[5];
        buffer[14] = self.sender_ip[0];
        buffer[15] = self.sender_ip[1];
        buffer[16] = self.sender_ip[2];
        buffer[17] = self.sender_ip[3];
        buffer[18] = self.target_mac.0[0];
        buffer[19] = self.target_mac.0[1];
        buffer[20] = self.target_mac.0[2];
        buffer[21] = self.target_mac.0[3];
        buffer[22] = self.target_mac.0[4];
        buffer[23] = self.target_mac.0[5];
        buffer[24] = self.target_ip[0];
        buffer[25] = self.target_ip[1];
        buffer[26] = self.target_ip[2];
        buffer[27] = self.target_ip[3];
        assert(buffer@ =~= spec_arp_bytes(self.spec_fields()) + old(buffer)@.subrange(28, old(buffer)@.len() as int));
        Some(Self::SIZE)
    }
}

/// Round trip: the bytes written for an Ethernet/IPv4 ARP packet parse
/// back to the same fields.
pub proof fn lemma_arp_roundtrip(p: ArpPacket)
    requires
        p.spec_is_ethernet_ipv4(),
    ensures
        spec_parse_arp(spec_arp_bytes(p.spec_fields())) == Some(p.spec_fields()),
{
    let f = p.spec_fields();
    let b = spec_arp_bytes(f);
    lemma_be16_roundtrip(f.0);
    lemma_be16_roundtrip(f.1);
    lemma_be16_roundtrip(spec_op_code(f.4));
    assert(b[0] == be16_bytes(f.0)[0] && b[1] == be16_bytes(f.0)[1]);
    assert(b[2] == be16_bytes(f.1)[0] && b[3] == be16_bytes(f.1)[1]);
    assert(b[4] == f.2 && b[5] == f.3);
    assert(b[6] == be16_bytes(spec_op_code(f.4))[0] && b[7] == be16_bytes(spec_op_code(f.4))[1]);
    assert(b.subrange(8, 14) =~= f.5);
    assert(b.subrange(14, 18) =~= f.6);
    assert(b.subrange(18, 24) =~= f.7);
    assert(b.subrange(24, 28) =~= f.8);
}

/// ARP operation codes on the wire: a request is 1 and a reply 2, so the
/// two are never confused.
pub proof fn lemma_op_codes(a: ArpOperation, b: ArpOperation)
    ensures
        spec_op_code(ArpOperation::Request) == 1,
        spec_op_code(ArpOperation::Reply) == 2,
        spec_op_code(a) == spec_op_code(b) ==> a == b,
{
}

} // verus!
