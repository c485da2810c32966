use daedalus::arch::kexec::{
    stage_kernel, validate_kexec, KexecError, BOOTSTRAP_KERNEL_BASE, NETWORK_KERNEL_BASE, NETWORK_KERNEL_END,
    NETWORK_KERNEL_MAX_SIZE,
};
use daedalus::boot_mode::BootMode;

#[test]
fn test_bootstrap_mode_detection() {
    assert_eq!(BootMode::from_address(0x00080000), BootMode::Bootstrap);
    assert_eq!(BootMode::from_address(0x00100000), BootMode::Bootstrap);
    assert_eq!(BootMode::from_address(0x04000000), BootMode::Bootstrap);
}

#[test]
fn test_network_mode_detection() {
    assert_eq!(BootMode::from_address(0x01000000), BootMode::Network);
    assert_eq!(BootMode::from_address(0x01500000), BootMode::Network);
    assert_eq!(BootMode::from_address(0x01FFFFFF), BootMode::Network);
}

#[test]
fn test_boundary_conditions() {
    assert_eq!(BootMode::from_address(0x00FFFFFF), BootMode::Bootstrap);
    assert_eq!(BootMode::from_address(0x01000000), BootMode::Network);
    assert_eq!(BootMode::from_address(0x01FFFFFF), BootMode::Network);
    assert_eq!(BootMode::from_address(0x02000000), BootMode::Bootstrap);
    assert_eq!(BootMode::detect(NETWORK_KERNEL_BASE + 0x40), BootMode::Network);
    assert_eq!(BootMode::detect(BOOTSTRAP_KERNEL_BASE + 0x40), BootMode::Bootstrap);
}

#[test]
fn test_boot_mode_predicates() {
    assert!(BootMode::Bootstrap.is_bootstrap());
    assert!(!BootMode::Bootstrap.is_network());

    assert!(!BootMode::Network.is_bootstrap());
    assert!(BootMode::Network.is_network());
}

#[test]
fn test_boot_mode_display() {
    assert_eq!(BootMode::Bootstrap.description(), "Bootstrap (SD card)");
    assert_eq!(BootMode::Network.description(), "Network (remote loaded)");
}

#[test]
fn test_validate_kexec_valid() {
    let result = validate_kexec(NETWORK_KERNEL_BASE, 1024 * 1024, 0x100);
    assert!(result.is_ok());
    assert!(validate_kexec(NETWORK_KERNEL_BASE, NETWORK_KERNEL_MAX_SIZE, 0x100).is_ok());
}

#[test]
fn test_validate_kexec_kernel_too_large() {
    let result = validate_kexec(NETWORK_KERNEL_BASE, NETWORK_KERNEL_MAX_SIZE + 1, 0x100);
    assert!(matches!(result, Err(KexecError::KernelTooLarge { .. })));
    assert_eq!(
        result,
        Err(KexecError::KernelTooLarge { size: NETWORK_KERNEL_MAX_SIZE + 1, max_size: NETWORK_KERNEL_MAX_SIZE })
    );
}

#[test]
fn test_validate_kexec_invalid_address() {
    let result = validate_kexec(0xDEADBEEF, 1024, 0x100);
    assert!(matches!(result, Err(KexecError::InvalidAddress { .. })));
    assert_eq!(result, Err(KexecError::InvalidAddress { addr: 0xDEADBEEF }));
}

#[test]
fn test_validate_kexec_invalid_dtb() {
    let result = validate_kexec(NETWORK_KERNEL_BASE, 1024, 0x0);
    assert!(matches!(result, Err(KexecError::InvalidDtb { .. })));
}

#[test]
fn validate_kexec_checks_size_first() {
    // Every check fails: the size is reported.
    assert!(matches!(validate_kexec(0, usize::MAX, 0), Err(KexecError::KernelTooLarge { .. })));
    // Address and device tree wrong: the address is reported.
    assert!(matches!(validate_kexec(0, 16, 0), Err(KexecError::InvalidAddress { .. })));
}

#[test]
fn staged_kernel_passes_validation() {
    for size in [0usize, 1, 4096, NETWORK_KERNEL_MAX_SIZE] {
        let addr = stage_kernel(size).unwrap();
        assert_eq!(addr, NETWORK_KERNEL_BASE);
        assert!(addr + size <= NETWORK_KERNEL_END);
        assert!(validate_kexec(addr, size, 0x2EFF_0000).is_ok());
    }
    assert!(matches!(stage_kernel(NETWORK_KERNEL_MAX_SIZE + 1), Err(KexecError::KernelTooLarge { .. })));
}
