//! Protocol handlers.

pub mod arp;

pub use arp::{arp_rx_count, ArpProtocol};
