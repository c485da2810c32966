//! Network device errors and the interface of network device drivers.
use vstd::prelude::*;
use crate::net::ethernet::MacAddress;

verus! {

/// Errors reported by a network device.
#[derive(Debug, Clone, Copy, PartialEq, Eq, Structural)]
pub enum NetworkError {
    HardwareNotPresent,
    NotInitialized,
    TxBufferFull,
    FrameTooLarge,
    FrameTooSmall,
    HardwareError,
    Timeout,
    TransmitTimeout,
    InvalidConfiguration,
}

impl NetworkError {
    /// The text that describes the error.
    pub open spec fn spec_message(self) -> Seq<char> {
        match self {
            NetworkError::HardwareNotPresent => "Hardware not present"@,
            NetworkError::NotInitialized => "Device not initialized"@,
            NetworkError::TxBufferFull => "Transmit buffer full"@,
            NetworkError::FrameTooLarge => "Frame too large"@,
            NetworkError::FrameTooSmall => "Frame too small"@,
            NetworkError::HardwareError => "Hardware error"@,
            NetworkError::Timeout => "Operation timeout"@,
            NetworkError::TransmitTimeout => "Transmit timeout"@,
            NetworkError::InvalidConfiguration => "Invalid configuration"@,
        }
    }

    /// A short description of the error.
    pub fn message(&self) -> (s: &'static str)
        ensures
            s@ == self.spec_message(),
    {
        match self {
            NetworkError::HardwareNotPresent => "Hardware not present",
            NetworkError::NotInitialized => "Device not initialized",
            NetworkError::TxBufferFull => "Transmit buffer full",
            NetworkError::FrameTooLarge => "Frame too large",
            NetworkError::FrameTooSmall => "Frame too small",
            NetworkError::HardwareError => "Hardware error",
            NetworkError::Timeout => "Operation timeout",
            NetworkError::TransmitTimeout => "Transmit timeout",
            NetworkError::InvalidConfiguration => "Invalid configuration",
        }
    }
}

/// A network device: detection, setup, sending and receiving frames.
pub trait NetworkDevice {
    /// Whether the hardware is there.
    fn is_present(&self) -> bool;

    /// Set the device up.
    fn init(&mut self) -> Result<(), NetworkError>;

    /// Send one Ethernet frame.
    fn transmit(&mut self, frame: &[u8]) -> Result<(), NetworkError>;

    /// The next received frame, if any; give it back with
    /// `free_rx_buffer` once used.
    fn receive(&mut self) -> Option<&[u8]>;

    /// The device's MAC address.
    fn mac_address(&self) -> MacAddress;

    /// Whether the link is up; unknown (false) unless the device says.
    fn link_up(&self) -> (b: bool)
        default_ensures
            !b,
    {
        false
    }

    /// Give back the buffer of the frame last received.
    fn free_rx_buffer(&mut self);
}

} // verus!
