//! Driver-side logic: register encodings, decoding of hardware values and
//! the decisions the drivers take. Register reads and writes themselves
//! are performed by the application around this library.

pub mod genet;
pub mod genet_probe;
pub mod gic;
pub mod gpio;
pub mod mailbox;
pub mod mmio;
pub mod netdev;
pub mod pl011;
pub mod property;
pub mod timer;
