//! Boot mode: a kernel running from the network kernel's area was loaded
//! over the network; anywhere else it booted from the SD card.
use vstd::prelude::*;
use crate::arch::kexec::{NETWORK_KERNEL_BASE, NETWORK_KERNEL_END};

verus! {

/// How the running kernel was loaded.
#[derive(Debug, Clone, Copy, PartialEq, Eq, Structural)]
pub enum BootMode {
    /// Booted from the SD card by the firmware.
    Bootstrap,
    /// Loaded over the network by the bootstrap kernel.
    Network,
}

impl BootMode {
    /// The mode of a kernel executing at `pc` (the caller reads the
    /// program counter).
    pub fn detect(pc: usize) -> (m: Self)
        ensures
            m == (if NETWORK_KERNEL_BASE <= pc < NETWORK_KERNEL_END { BootMode::Network } else { BootMode::Bootstrap }),
    {
        Self::from_address(pc)
    }

    /// `Network` for addresses in the network kernel's area, else
    /// `Bootstrap`.
    pub fn from_address(addr: usize) -> (m: Self)
        ensures
            m == (if NETWORK_KERNEL_BASE <= addr < NETWORK_KERNEL_END { BootMode::Network } else { BootMode::Bootstrap }),
    {
        if NETWORK_KERNEL_BASE <= addr && addr < NETWORK_KERNEL_END {
            BootMode::Network
        } else {
            BootMode::Bootstrap
        }
    }

    /// Whether booted from the SD card.
    pub fn is_bootstrap(self) -> (b: bool)
        ensures
            b == (self == BootMode::Bootstrap),
    {
        match self {
            BootMode::Bootstrap => true,
            BootMode::Network => false,
        }
    }

    /// Whether loaded over the network.
    pub fn is_network(self) -> (b: bool)
        ensures
            b == (self == BootMode::Network),
    {
        match self {
            BootMode::Bootstrap => false,
            BootMode::Network => true,
        }
    }

    /// A description of the mode.
    pub fn description(self) -> (s: &'static str)
        ensures
            self == BootMode::Bootstrap ==> s == "Bootstrap (SD card)",
            self == BootMode::Network ==> s == "Network (remote loaded)",
    {
        match self {
            BootMode::Bootstrap => "Bootstrap (SD card)",
            BootMode::Network => "Network (remote loaded)",
        }
    }
}

} // verus!
