use reaboot::platform::Platform;
use reaboot::reaper_platform::{ReaperOs, ReaperPlatform, ReaperTargetOrFamily};
use reaboot::reaper_target::{ReaperTarget, ReaperTargetFamily};

#[test]
fn platform_from_build() {
    assert_eq!(ReaperPlatform::from_reaboot_build_checked("macos", "aarch64"), Some(ReaperPlatform::MacOsArm64));
    assert_eq!(ReaperPlatform::from_reaboot_build_checked("windows", "x86_64"), Some(ReaperPlatform::WindowsX64));
    assert_eq!(ReaperPlatform::from_reaboot_build_checked("linux", "arm"), Some(ReaperPlatform::LinuxArmv7l));
    assert_eq!(ReaperPlatform::from_reaboot_build_checked("freebsd", "x86_64"), None);
    assert_eq!(ReaperPlatform::from_reaboot_build("linux", "x86_64"), ReaperPlatform::LinuxX86_64);
    assert_eq!(ReaperTarget::from_reaboot_build("linux", "x86"), Some(ReaperTarget::LinuxI686));
    assert_eq!(ReaperTarget::from_reaboot_build("windows", "aarch64"), None);
}

#[test]
fn families() {
    assert_eq!(ReaperPlatform::MacOsI386.family(), ReaperOs::MacOs);
    assert_eq!(ReaperPlatform::WindowsX86.family(), ReaperOs::Windows);
    assert_eq!(ReaperPlatform::LinuxAarch64.family(), ReaperOs::Linux);
    assert_eq!(ReaperTarget::MacOsX86_64.family(), ReaperTargetFamily::MacOs);
    assert_eq!(ReaperTarget::MacOsAarch64.to_platform(), ReaperPlatform::MacOsArm64);
}

#[test]
fn reapack_platform_compatibility() {
    assert!(ReaperPlatform::WindowsX64.is_compatible_with_reapack_platform(Platform::All));
    assert!(ReaperPlatform::WindowsX64.is_compatible_with_reapack_platform(Platform::Windows));
    assert!(ReaperPlatform::WindowsX64.is_compatible_with_reapack_platform(Platform::Win64));
    assert!(!ReaperPlatform::WindowsX64.is_compatible_with_reapack_platform(Platform::Win32));
    assert!(!ReaperPlatform::WindowsX64.is_compatible_with_reapack_platform(Platform::Linux));
    assert!(ReaperPlatform::MacOsArm64.is_compatible_with_reapack_platform(Platform::DarwinArm64));
    assert!(ReaperTarget::LinuxArmv7l.is_compatible_with_reapack_platform(Platform::LinuxArmv7l));
    assert!(!ReaperTarget::LinuxArmv7l.is_compatible_with_reapack_platform(Platform::LinuxAarch64));
    assert!(matches!(
        ReaperTargetOrFamily::from_reapack_platform(Platform::Darwin),
        Some(ReaperTargetOrFamily::Os(ReaperOs::MacOs))
    ));
    assert!(matches!(
        ReaperTargetOrFamily::from_reapack_platform(Platform::Win32),
        Some(ReaperTargetOrFamily::Platform(ReaperPlatform::WindowsX86))
    ));
    assert!(ReaperTargetOrFamily::from_reapack_platform(Platform::All).is_none());
    assert_eq!(Platform::default(), Platform::All);
}
