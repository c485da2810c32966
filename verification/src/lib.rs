//! DaedalusOS kernel library: the verified core.
//!
//! Packet formats, the socket layer, the packet router, buffer pools and
//! the register-level decisions of the drivers live here with their
//! contracts. Hardware access itself (MMIO, system registers) is done by
//! the surrounding application, which hands values in and out.

pub mod drivers;
pub mod net;
pub mod ring;
pub mod shell;
pub mod arch;
pub mod boot_mode;
pub mod allocator;
pub mod qemu;
pub mod dt;
pub mod dev_server;
pub mod text;
pub mod render;
