use devenv::error::Error;
use devenv::kernel::kernel_compatibility;
use devenv::kernel::kernel_warning;
use devenv::kernel::KernelVersion;
use devenv::kernel::KERNEL_WARNING;

fn version(major: u64, minor: u64, patch: u64, pre: &str) -> KernelVersion {
    KernelVersion { major, minor, patch, pre: pre.to_string() }
}

#[test]
fn greater_numbers_are_at_least() {
    assert!(version(4, 0, 0, "").at_least(3, 18, 0));
    assert!(version(3, 19, 0, "").at_least(3, 18, 0));
    assert!(version(3, 18, 1, "").at_least(3, 18, 0));
    assert!(version(4, 0, 0, "rc1").at_least(3, 18, 0));
}

#[test]
fn smaller_numbers_are_not_at_least() {
    assert!(!version(2, 99, 99, "").at_least(3, 18, 0));
    assert!(!version(3, 17, 99, "").at_least(3, 18, 0));
    assert!(!version(3, 18, 0, "").at_least(3, 18, 1));
}

#[test]
fn same_numbers_are_at_least_unless_pre_release() {
    assert!(version(3, 18, 0, "").at_least(3, 18, 0));
    assert!(!version(3, 18, 0, "rc1").at_least(3, 18, 0));
}

#[test]
fn earlier_number_decides_before_later() {
    assert!(version(4, 0, 0, "").at_least(3, 99, 99));
    assert!(!version(3, 99, 99, "").at_least(4, 0, 0));
}

#[test]
fn compatibility_of_what_was_parsed() {
    assert_eq!(kernel_compatibility(Some(version(5, 4, 0, "generic"))).unwrap(), true);
    assert_eq!(kernel_compatibility(Some(version(3, 2, 0, ""))).unwrap(), false);
    assert_eq!(kernel_compatibility(None).unwrap_err().message(), "Could not parse the kernel version");
}

#[test]
fn warning_unless_compatible() {
    assert_eq!(kernel_warning(&Ok(true)), None);
    assert_eq!(kernel_warning(&Ok(false)), Some(KERNEL_WARNING.to_string()));
    assert_eq!(kernel_warning(&Err(Error::new("x"))), Some(KERNEL_WARNING.to_string()));
}
