//! Network protocol implementations: Ethernet, ARP, socket buffers,
//! sockets, the protocol registry and the packet router.

pub mod arp;
pub mod arp_diag;
pub mod ethernet;
pub mod http;
pub mod packet_pool;
pub mod protocol;
pub mod protocols;
pub mod router;
pub mod skbuff;
pub mod socket;
