//! AArch64 support: exception decoding, kernel hand-over checks and the
//! MMU's page tables.

pub mod exceptions;
pub mod kexec;
pub mod cache;
pub mod mmu;
