//! Hand-over to a second kernel loaded over the network: where it lives
//! and the checks before jumping to it.
use vstd::prelude::*;

verus! {

/// Load address of the kernel booted from the SD card.
pub const BOOTSTRAP_KERNEL_BASE: usize = 0x0008_0000;

/// Load address of a kernel loaded over the network.
pub const NETWORK_KERNEL_BASE: usize = 0x0100_0000;

/// Largest kernel loaded over the network.
pub const NETWORK_KERNEL_MAX_SIZE: usize = 0x0100_0000;

/// End of the network kernel's area.
pub const NETWORK_KERNEL_END: usize = 0x0200_0000;

/// Why a hand-over was refused.
#[derive(Debug, Clone, Copy, PartialEq, Eq, Structural)]
pub enum KexecError {
    /// The kernel is larger than its area.
    KernelTooLarge { size: usize, max_size: usize },
    /// The kernel is not at the network kernel's address.
    InvalidAddress { addr: usize },
    /// No device tree.
    InvalidDtb { dtb_ptr: usize },
}

/// Check a hand-over to the kernel at `kernel_addr` of `kernel_size`
/// bytes with the device tree at `dtb_ptr`: the size first, then the
/// address, then the device tree pointer.
pub fn validate_kexec(kernel_addr: usize, kernel_size: usize, dtb_ptr: usize) -> (r: Result<(), KexecError>)
    ensures
        kernel_size > NETWORK_KERNEL_MAX_SIZE ==> r == Err::<(), KexecError>(KexecError::KernelTooLarge { size: kernel_size, max_size: NETWORK_KERNEL_MAX_SIZE }),
        kernel_size <= NETWORK_KERNEL_MAX_SIZE && kernel_addr != NETWORK_KERNEL_BASE ==> r == Err::<(), KexecError>(KexecError::InvalidAddress { addr: kernel_addr }),
        kernel_size <= NETWORK_KERNEL_MAX_SIZE && kernel_addr == NETWORK_KERNEL_BASE && dtb_ptr == 0 ==> r == Err::<(), KexecError>(KexecError::InvalidDtb { dtb_ptr }),
        kernel_size <= NETWORK_KERNEL_MAX_SIZE && kernel_addr == NETWORK_KERNEL_BASE && dtb_ptr != 0 ==> r is Ok,
{
    if kernel_size > NETWORK_KERNEL_MAX_SIZE {
        return Err(KexecError::KernelTooLarge { size: kernel_size, max_size: NETWORK_KERNEL_MAX_SIZE });
    }
    if kernel_addr != NETWORK_KERNEL_BASE {
        return Err(KexecError::InvalidAddress { addr: kernel_addr });
    }
    if dtb_ptr == 0 {
        return Err(KexecError::InvalidDtb { dtb_ptr });
    }
    Ok(())
}

/// Where a downloaded kernel of `kernel_size` bytes is copied: the network
/// kernel's address; `KernelTooLarge` when it does not fit.
pub fn stage_kernel(kernel_size: usize) -> (r: Result<usize, KexecError>)
    ensures
        kernel_size > NETWORK_KERNEL_MAX_SIZE ==> r == Err::<usize, KexecError>(KexecError::KernelTooLarge { size: kernel_size, max_size: NETWORK_KERNEL_MAX_SIZE }),
        kernel_size <= NETWORK_KERNEL_MAX_SIZE ==> r == Ok::<usize, KexecError>(NETWORK_KERNEL_BASE),
{
    if kernel_size > NETWORK_KERNEL_MAX_SIZE {
        return Err(KexecError::KernelTooLarge { size: kernel_size, max_size: NETWORK_KERNEL_MAX_SIZE });
    }
    Ok(NETWORK_KERNEL_BASE)
}

/// A staged kernel passes the hand-over checks at the address staging
/// gave, given a device tree.
pub proof fn lemma_staged_kernel_valid(kernel_size: usize, dtb_ptr: usize)
    requires
        kernel_size <= NETWORK_KERNEL_MAX_SIZE,
        dtb_ptr != 0,
    ensures
        NETWORK_KERNEL_BASE + kernel_size <= NETWORK_KERNEL_END,
{
}

} // verus!
