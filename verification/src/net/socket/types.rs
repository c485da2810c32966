//! Socket types: address families, socket types, protocols, addresses,
//! options and errors.
use vstd::prelude::*;
use crate::drivers::netdev::NetworkError;
use crate::net::ethernet::{MacAddress, spec_mac_text};
use crate::render::{push_decimal, push_hex_u16, push_ipv4, spec_decimal, spec_hex_u16, spec_ipv4_text};
use vstd::string::StringExecFns;

verus! {

/// Socket address family.
#[derive(Debug, Clone, Copy, PartialEq, Eq, Hash, Structural)]
pub enum AddressFamily {
    /// Raw Ethernet frames (layer 2).
    Packet,
    /// Internet protocols (layer 3 and up).
    Inet,
}

/// Socket type.
#[derive(Debug, Clone, Copy, PartialEq, Eq, Hash, Structural)]
pub enum SocketType {
    Raw,
    Dgram,
    Stream,
}

/// Protocols a socket can carry.
#[derive(Debug, Clone, Copy, PartialEq, Eq, Hash, PartialOrd, Ord, Structural)]
pub enum Protocol {
    NoProtocol,
    Arp,
    Ipv4,
    Icmp,
    Udp,
    Tcp,
}

/// The EtherType of a protocol: ARP 0x0806, the IPv4 family 0x0800,
/// none for `Protocol::NoProtocol`.
pub open spec fn spec_ethertype(p: Protocol) -> Option<u16> {
    match p {
        Protocol::Arp => Some(0x0806u16),
        Protocol::Ipv4 | Protocol::Icmp | Protocol::Udp | Protocol::Tcp => Some(0x0800u16),
        Protocol::NoProtocol => None,
    }
}

/// The IP protocol number: ICMP 1, UDP 17, TCP 6, none otherwise.
pub open spec fn spec_ip_proto(p: Protocol) -> Option<u8> {
    match p {
        Protocol::Icmp => Some(1u8),
        Protocol::Udp => Some(17u8),
        Protocol::Tcp => Some(6u8),
        _ => None,
    }
}

/// The wire numbers of the protocols: ARP frames carry EtherType 0x0806
/// and the IP protocols 0x0800; the IP protocol numbers are ICMP 1, TCP 6
/// and UDP 17, different for different protocols; only the IP protocols
/// have one.
pub proof fn lemma_protocol_numbers(p: Protocol, q: Protocol)
    ensures
        spec_ethertype(Protocol::Arp) == Some(0x0806u16),
        spec_ethertype(Protocol::Ipv4) == Some(0x0800u16),
        spec_ethertype(Protocol::Icmp) == Some(0x0800u16),
        spec_ethertype(Protocol::Udp) == Some(0x0800u16),
        spec_ethertype(Protocol::Tcp) == Some(0x0800u16),
        spec_ethertype(Protocol::NoProtocol) is None,
        spec_ip_proto(Protocol::Icmp) == Some(1u8),
        spec_ip_proto(Protocol::Tcp) == Some(6u8),
        spec_ip_proto(Protocol::Udp) == Some(17u8),
        spec_ip_proto(p) is Some && spec_ip_proto(p) == spec_ip_proto(q) ==> p == q,
        spec_ip_proto(p) is Some <==> (p == Protocol::Icmp || p == Protocol::Udp || p == Protocol::Tcp),
{
}

impl Protocol {
    /// EtherType of this protocol, if it has one.
    pub fn ethertype(&self) -> (r: Option<u16>)
        ensures
            r == spec_ethertype(*self),
    {
        match self {
            Protocol::Arp => Some(crate::net::ethernet::ETHERTYPE_ARP),
            Protocol::Ipv4 | Protocol::Icmp | Protocol::Udp | Protocol::Tcp => Some(crate::net::ethernet::ETHERTYPE_IPV4),
            Protocol::NoProtocol => None,
        }
    }

    /// IP protocol number of this protocol, if it has one.
    pub fn ip_proto(&self) -> (r: Option<u8>)
        ensures
            r == spec_ip_proto(*self),
    {
        match self {
            Protocol::Icmp => Some(1),
            Protocol::Udp => Some(17),
            Protocol::Tcp => Some(6),
            _ => None,
        }
    }
}

/// Socket address for binding or sending.
#[derive(Debug, Clone, PartialEq, Eq)]
pub enum SocketAddr {
    /// Raw Ethernet address: optional interface MAC filter and EtherType
    /// (0 for all EtherTypes).
    Packet { interface: Option<MacAddress>, protocol: u16 },
    /// IPv4 address and port; 0.0.0.0 is the wildcard address.
    Inet { ip: [u8; 4], port: u16 },
}

impl SocketAddr {
    /// AF_PACKET address for an EtherType, on any interface.
    pub fn packet(protocol: u16) -> (a: Self)
        ensures
            a matches SocketAddr::Packet { interface: None, protocol: p } && p == protocol,
    {
        SocketAddr::Packet { interface: None, protocol }
    }

    /// AF_INET address with the wildcard IP 0.0.0.0.
    pub fn inet_any(port: u16) -> (a: Self)
        ensures
            a matches SocketAddr::Inet { ip, port: p } && ip@ == seq![0u8, 0u8, 0u8, 0u8] && p == port,
    {
        SocketAddr::Inet { ip: [0, 0, 0, 0], port }
    }

    /// AF_INET address with the given IP and port.
    pub fn inet(ip: [u8; 4], port: u16) -> (a: Self)
        ensures
            a matches SocketAddr::Inet { ip: i, port: p } && i == ip && p == port,
    {
        SocketAddr::Inet { ip, port }
    }
}

impl SocketAddr {
    /// The text form: `MAC:0xPPPP` (`*` for any interface) for a packet
    /// address, `a.b.c.d:port` for an IPv4 address.
    pub open spec fn spec_text(&self) -> Seq<char> {
        match self {
            SocketAddr::Packet { interface: Some(mac), protocol } =>
                spec_mac_text(mac.0@) + ":0x"@ + spec_hex_u16(*protocol),
            SocketAddr::Packet { interface: None, protocol } => "*:0x"@ + spec_hex_u16(*protocol),
            SocketAddr::Inet { ip, port } => spec_ipv4_text(ip@) + seq![':'] + spec_decimal(*port as nat),
        }
    }

    /// The text form of this address (see `spec_text`).
    pub fn to_string(&self) -> (r: String)
        ensures
            r@ == self.spec_text(),
    {
        match self {
            SocketAddr::Packet { interface: Some(mac), protocol } => {
                let mut out = mac.to_string();
                out.append(":0x");
                push_hex_u16(&mut out, *protocol);
                out
            },
            SocketAddr::Packet { interface: None, protocol } => {
                let mut out = String::from_str("*:0x");
                push_hex_u16(&mut out, *protocol);
                out
            },
            SocketAddr::Inet { ip, port } => {
                proof {
                    reveal_strlit(":");
                }
                let mut out = String::new();
                push_ipv4(&mut out, ip);
                out.append(":");
                push_decimal(&mut out, *port as u64);
                out
            },
        }
    }
}

/// Socket handle: an index into the socket table.
#[derive(Debug, Clone, Copy, PartialEq, Eq, Hash, Structural)]
pub struct Socket(pub usize);

impl Socket {
    /// Handle for the socket with the given table index.
    pub fn from_id(id: usize) -> (s: Self)
        ensures
            s.0 == id,
    {
        Socket(id)
    }
}

/// Options for receiving.
#[derive(Debug, Clone, Copy)]
pub struct SocketOptions {
    /// Return `WouldBlock` at once when nothing is queued.
    pub non_blocking: bool,
    /// Timeout in milliseconds for blocking receives (None = forever).
    pub timeout_ms: Option<u32>,
}

impl Default for SocketOptions {
    fn default() -> (o: Self)
        ensures
            !o.non_blocking,
            o.timeout_ms is None,
    {
        SocketOptions { non_blocking: false, timeout_ms: None }
    }
}

impl SocketOptions {
    /// Blocking, no timeout.
    pub fn blocking() -> (o: Self)
        ensures
            !o.non_blocking,
            o.timeout_ms is None,
    {
        SocketOptions { non_blocking: false, timeout_ms: None }
    }

    /// Non-blocking.
    pub fn non_blocking() -> (o: Self)
        ensures
            o.non_blocking,
            o.timeout_ms is None,
    {
        SocketOptions { non_blocking: true, timeout_ms: None }
    }

    /// Blocking with a timeout in milliseconds.
    pub fn with_timeout(timeout_ms: u32) -> (o: Self)
        ensures
            !o.non_blocking,
            o.timeout_ms == Some(timeout_ms),
    {
        SocketOptions { non_blocking: false, timeout_ms: Some(timeout_ms) }
    }
}

/// A received packet and its source address.
#[derive(Debug, Clone, PartialEq)]
pub struct RecvFrom {
    pub addr: SocketAddr,
    pub data: Vec<u8>,
}

/// Socket errors.
#[derive(Debug, Clone, Copy, PartialEq, Eq, Structural)]
pub enum SocketError {
    InvalidAddressFamily,
    InvalidSocketType,
    ProtocolNotSupported,
    WouldBlock,
    BufferTooSmall,
    NotBound,
    AddressInUse,
    NetworkUnavailable,
    NetworkError(NetworkError),
    InvalidArgument,
    InvalidSocket,
    ConnectionRefused,
    ConnectionReset,
    Timeout,
    OutOfMemory,
    TooManySockets,
    AlreadyConnected,
    NotConnected,
}

impl SocketError {
    /// The text that describes the error.
    pub open spec fn spec_message(self) -> Seq<char> {
        match self {
            SocketError::InvalidAddressFamily => "Invalid address family"@,
            SocketError::InvalidSocketType => "Invalid socket type"@,
            SocketError::ProtocolNotSupported => "Protocol not supported"@,
            SocketError::WouldBlock => "Operation would block"@,
            SocketError::BufferTooSmall => "Buffer too small"@,
            SocketError::NotBound => "Socket not bound"@,
            SocketError::AddressInUse => "Address already in use"@,
            SocketError::NetworkUnavailable => "Network unavailable"@,
            SocketError::NetworkError(e) => "Network error: "@ + e.spec_message(),
            SocketError::InvalidArgument => "Invalid argument"@,
            SocketError::InvalidSocket => "Invalid socket"@,
            SocketError::ConnectionRefused => "Connection refused"@,
            SocketError::ConnectionReset => "Connection reset"@,
            SocketError::Timeout => "Timeout"@,
            SocketError::OutOfMemory => "Out of memory"@,
            SocketError::TooManySockets => "Too many sockets"@,
            SocketError::AlreadyConnected => "Already connected"@,
            SocketError::NotConnected => "Not connected"@,
        }
    }

    /// A description of the error.
    pub fn to_string(&self) -> (r: String)
        ensures
            r@ == self.spec_message(),
    {
        let text = match self {
            SocketError::InvalidAddressFamily => "Invalid address family",
            SocketError::InvalidSocketType => "Invalid socket type",
            SocketError::ProtocolNotSupported => "Protocol not supported",
            SocketError::WouldBlock => "Operation would block",
            SocketError::BufferTooSmall => "Buffer too small",
            SocketError::NotBound => "Socket not bound",
            SocketError::AddressInUse => "Address already in use",
            SocketError::NetworkUnavailable => "Network unavailable",
            SocketError::NetworkError(e) => {
                return String::from_str("Network error: ").concat(e.message());
            },
            SocketError::InvalidArgument => "Invalid argument",
            SocketError::InvalidSocket => "Invalid socket",
            SocketError::ConnectionRefused => "Connection refused",
            SocketError::ConnectionReset => "Connection reset",
            SocketError::Timeout => "Timeout",
            SocketError::OutOfMemory => "Out of memory",
            SocketError::TooManySockets => "Too many sockets",
            SocketError::AlreadyConnected => "Already connected",
            SocketError::NotConnected => "Not connected",
        };
        String::from_str(text)
    }
}

impl From<NetworkError> for SocketError {
    fn from(e: NetworkError) -> (r: Self) {
        SocketError::NetworkError(e)
    }
}

impl vstd::std_specs::convert::FromSpecImpl<NetworkError> for SocketError {
    open spec fn obeys_from_spec() -> bool {
        true
    }

    open spec fn from_spec(e: NetworkError) -> Self {
        SocketError::NetworkError(e)
    }
}

} // verus!
