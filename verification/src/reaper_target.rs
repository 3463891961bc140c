//! REAPER targets (operating system plus architecture) and their relation to ReaPack platforms.

use vstd::prelude::*;

use crate::platform::Platform;
use crate::reaper_platform::{spec_platform_for_build, ReaperPlatform};
use crate::text::str_eq;

verus! {

/// A target (operating system plus architecture) for which REAPER is available.
///
/// Variants follow Rust's `target_os`/`target_arch` naming (macos/x86 is `MacOsX86`, linux/arm is `LinuxArmv7l`).
#[derive(Copy, Clone, PartialEq, Eq, Structural, Debug)]
pub enum ReaperTarget {
    MacOsAarch64,
    MacOsX86,
    MacOsX86_64,
    WindowsX86,
    WindowsX64,
    LinuxAarch64,
    LinuxArmv7l,
    LinuxI686,
    LinuxX86_64,
}

/// Operating system family of a [`ReaperTarget`].
#[derive(Copy, Clone, PartialEq, Eq, Structural, Debug)]
pub enum ReaperTargetFamily {
    MacOs,
    Windows,
    Linux,
}

/// What a ReaPack platform (other than `All`) restricts a source to: one specific REAPER
/// platform or a whole operating system.
#[derive(Copy, Clone, PartialEq, Eq, Structural, Debug)]
pub enum ReaperTargetOrFamily {
    Target(ReaperTarget),
    Family(ReaperTargetFamily),
}

/// The REAPER platform matching the operating system and architecture names that Rust uses
/// (`target_os` and `target_arch`), if REAPER supports that combination.
pub open spec fn spec_target_for_build(os: Seq<char>, arch: Seq<char>) -> Option<ReaperTarget> {
    if os == "macos"@ {
        if arch == "aarch64"@ {
            Some(ReaperTarget::MacOsAarch64)
        } else if arch == "x86"@ {
            Some(ReaperTarget::MacOsX86)
        } else if arch == "x86_64"@ {
            Some(ReaperTarget::MacOsX86_64)
        } else {
            None
        }
    } else if os == "windows"@ {
        if arch == "x86"@ {
            Some(ReaperTarget::WindowsX86)
        } else if arch == "x86_64"@ {
            Some(ReaperTarget::WindowsX64)
        } else {
            None
        }
    } else if os == "linux"@ {
        if arch == "aarch64"@ {
            Some(ReaperTarget::LinuxAarch64)
        } else if arch == "x86"@ {
            Some(ReaperTarget::LinuxI686)
        } else if arch == "x86_64"@ {
            Some(ReaperTarget::LinuxX86_64)
        } else if arch == "arm"@ {
            Some(ReaperTarget::LinuxArmv7l)
        } else {
            None
        }
    } else {
        None
    }
}

/// Operating system family of a REAPER platform.
pub open spec fn spec_target_family(p: ReaperTarget) -> ReaperTargetFamily {
    match p {
        ReaperTarget::MacOsAarch64 | ReaperTarget::MacOsX86 | ReaperTarget::MacOsX86_64 => ReaperTargetFamily::MacOs,
        ReaperTarget::WindowsX86 | ReaperTarget::WindowsX64 => ReaperTargetFamily::Windows,
        _ => ReaperTargetFamily::Linux,
    }
}

/// What a ReaPack platform restricts a source to (`None` for `All`).
pub open spec fn spec_target_from_reapack_platform(platform: Platform) -> Option<ReaperTargetOrFamily> {
    match platform {
        Platform::All => None,
        Platform::Darwin => Some(ReaperTargetOrFamily::Family(ReaperTargetFamily::MacOs)),
        Platform::Darwin32 => Some(ReaperTargetOrFamily::Target(ReaperTarget::MacOsX86)),
        Platform::Darwin64 => Some(ReaperTargetOrFamily::Target(ReaperTarget::MacOsX86_64)),
        Platform::DarwinArm64 => Some(ReaperTargetOrFamily::Target(ReaperTarget::MacOsAarch64)),
        Platform::Linux => Some(ReaperTargetOrFamily::Family(ReaperTargetFamily::Linux)),
        Platform::Linux32 => Some(ReaperTargetOrFamily::Target(ReaperTarget::LinuxI686)),
        Platform::Linux64 => Some(ReaperTargetOrFamily::Target(ReaperTarget::LinuxX86_64)),
        Platform::LinuxArmv7l => Some(ReaperTargetOrFamily::Target(ReaperTarget::LinuxArmv7l)),
        Platform::LinuxAarch64 => Some(ReaperTargetOrFamily::Target(ReaperTarget::LinuxAarch64)),
        Platform::Windows => Some(ReaperTargetOrFamily::Family(ReaperTargetFamily::Windows)),
        Platform::Win32 => Some(ReaperTargetOrFamily::Target(ReaperTarget::WindowsX86)),
        Platform::Win64 => Some(ReaperTargetOrFamily::Target(ReaperTarget::WindowsX64)),
    }
}

/// Whether a package source for ReaPack platform `platform` can be installed for REAPER
/// platform `p`.
pub open spec fn spec_target_is_compatible(p: ReaperTarget, platform: Platform) -> bool {
    match spec_target_from_reapack_platform(platform) {
        None => true,
        Some(ReaperTargetOrFamily::Target(t)) => p == t,
        Some(ReaperTargetOrFamily::Family(f)) => spec_target_family(p) == f,
    }
}

/// The REAPER platform that corresponds to each target.
pub open spec fn spec_target_platform(t: ReaperTarget) -> ReaperPlatform {
    match t {
        ReaperTarget::MacOsAarch64 => ReaperPlatform::MacOsArm64,
        ReaperTarget::MacOsX86 => ReaperPlatform::MacOsI386,
        ReaperTarget::MacOsX86_64 => ReaperPlatform::MacOsX86_64,
        ReaperTarget::WindowsX86 => ReaperPlatform::WindowsX86,
        ReaperTarget::WindowsX64 => ReaperPlatform::WindowsX64,
        ReaperTarget::LinuxAarch64 => ReaperPlatform::LinuxAarch64,
        ReaperTarget::LinuxArmv7l => ReaperPlatform::LinuxArmv7l,
        ReaperTarget::LinuxI686 => ReaperPlatform::LinuxI686,
        ReaperTarget::LinuxX86_64 => ReaperPlatform::LinuxX86_64,
    }
}

impl ReaperTarget {
    /// The REAPER platform that corresponds to this target.
    pub fn to_platform(&self) -> (r: ReaperPlatform)
        ensures
            r == spec_target_platform(*self),
    {
        match self {
            ReaperTarget::MacOsAarch64 => ReaperPlatform::MacOsArm64,
            ReaperTarget::MacOsX86 => ReaperPlatform::MacOsI386,
            ReaperTarget::MacOsX86_64 => ReaperPlatform::MacOsX86_64,
            ReaperTarget::WindowsX86 => ReaperPlatform::WindowsX86,
            ReaperTarget::WindowsX64 => ReaperPlatform::WindowsX64,
            ReaperTarget::LinuxAarch64 => ReaperPlatform::LinuxAarch64,
            ReaperTarget::LinuxArmv7l => ReaperPlatform::LinuxArmv7l,
            ReaperTarget::LinuxI686 => ReaperPlatform::LinuxI686,
            ReaperTarget::LinuxX86_64 => ReaperPlatform::LinuxX86_64,
        }
    }

    /// The REAPER platform for the operating system and architecture (as named by Rust's
    /// `target_os` and `target_arch`) for which ReaBoot was built, if REAPER supports it.
    pub fn from_reaboot_build(os: &str, arch: &str) -> (r: Option<Self>)
        ensures
            r == spec_target_for_build(os@, arch@),
    {
        if str_eq(os, "macos") {
            if str_eq(arch, "aarch64") {
                Some(ReaperTarget::MacOsAarch64)
            } else if str_eq(arch, "x86") {
                Some(ReaperTarget::MacOsX86)
            } else if str_eq(arch, "x86_64") {
                Some(ReaperTarget::MacOsX86_64)
            } else {
                None
            }
        } else if str_eq(os, "windows") {
            if str_eq(arch, "x86") {
                Some(ReaperTarget::WindowsX86)
            } else if str_eq(arch, "x86_64") {
                Some(ReaperTarget::WindowsX64)
            } else {
                None
            }
        } else if str_eq(os, "linux") {
            if str_eq(arch, "aarch64") {
                Some(ReaperTarget::LinuxAarch64)
            } else if str_eq(arch, "x86") {
                Some(ReaperTarget::LinuxI686)
            } else if str_eq(arch, "x86_64") {
                Some(ReaperTarget::LinuxX86_64)
            } else if str_eq(arch, "arm") {
                Some(ReaperTarget::LinuxArmv7l)
            } else {
                None
            }
        } else {
            None
        }
    }

    /// Operating system family of this platform.
    pub fn family(&self) -> (r: ReaperTargetFamily)
        ensures
            r == spec_target_family(*self),
    {
        match self {
            ReaperTarget::MacOsAarch64 | ReaperTarget::MacOsX86 | ReaperTarget::MacOsX86_64 => ReaperTargetFamily::MacOs,
            ReaperTarget::WindowsX86 | ReaperTarget::WindowsX64 => ReaperTargetFamily::Windows,
            ReaperTarget::LinuxAarch64 | ReaperTarget::LinuxArmv7l | ReaperTarget::LinuxI686
            | ReaperTarget::LinuxX86_64 => ReaperTargetFamily::Linux,
        }
    }

    /// Whether a package source declared for ReaPack platform `platform` fits this platform.
    pub fn is_compatible_with_reapack_platform(&self, platform: Platform) -> (r: bool)
        ensures
            r == spec_target_is_compatible(*self, platform),
    {
        match ReaperTargetOrFamily::from_reapack_platform(platform) {
            None => true,
            Some(ReaperTargetOrFamily::Target(t)) => *self == t,
            Some(ReaperTargetOrFamily::Family(f)) => self.family() == f,
        }
    }
}

impl ReaperTargetOrFamily {
    /// What a ReaPack platform restricts a source to; `None` for `All`.
    pub fn from_reapack_platform(platform: Platform) -> (r: Option<Self>)
        ensures
            r == spec_target_from_reapack_platform(platform),
    {
        match platform {
            Platform::All => None,
            Platform::Darwin => Some(ReaperTargetOrFamily::Family(ReaperTargetFamily::MacOs)),
            Platform::Darwin32 => Some(ReaperTargetOrFamily::Target(ReaperTarget::MacOsX86)),
            Platform::Darwin64 => Some(ReaperTargetOrFamily::Target(ReaperTarget::MacOsX86_64)),
            Platform::DarwinArm64 => Some(ReaperTargetOrFamily::Target(ReaperTarget::MacOsAarch64)),
            Platform::Linux => Some(ReaperTargetOrFamily::Family(ReaperTargetFamily::Linux)),
            Platform::Linux32 => Some(ReaperTargetOrFamily::Target(ReaperTarget::LinuxI686)),
            Platform::Linux64 => Some(ReaperTargetOrFamily::Target(ReaperTarget::LinuxX86_64)),
            Platform::LinuxArmv7l => Some(ReaperTargetOrFamily::Target(ReaperTarget::LinuxArmv7l)),
            Platform::LinuxAarch64 => Some(ReaperTargetOrFamily::Target(ReaperTarget::LinuxAarch64)),
            Platform::Windows => Some(ReaperTargetOrFamily::Family(ReaperTargetFamily::Windows)),
            Platform::Win32 => Some(ReaperTargetOrFamily::Target(ReaperTarget::WindowsX86)),
            Platform::Win64 => Some(ReaperTargetOrFamily::Target(ReaperTarget::WindowsX64)),
        }
    }
}


/// The REAPER targets of the builds that REAPER supports, by Rust's names for operating system
/// and architecture.
pub proof fn lemma_targets_for_builds()
    ensures
        spec_target_for_build("macos"@, "aarch64"@) == Some(ReaperTarget::MacOsAarch64),
        spec_target_for_build("macos"@, "x86"@) == Some(ReaperTarget::MacOsX86),
        spec_target_for_build("macos"@, "x86_64"@) == Some(ReaperTarget::MacOsX86_64),
        spec_target_for_build("windows"@, "x86"@) == Some(ReaperTarget::WindowsX86),
        spec_target_for_build("windows"@, "x86_64"@) == Some(ReaperTarget::WindowsX64),
        spec_target_for_build("linux"@, "aarch64"@) == Some(ReaperTarget::LinuxAarch64),
        spec_target_for_build("linux"@, "arm"@) == Some(ReaperTarget::LinuxArmv7l),
        spec_target_for_build("linux"@, "x86"@) == Some(ReaperTarget::LinuxI686),
        spec_target_for_build("linux"@, "x86_64"@) == Some(ReaperTarget::LinuxX86_64),
{
    reveal_strlit("macos");
    reveal_strlit("windows");
    reveal_strlit("linux");
    reveal_strlit("aarch64");
    reveal_strlit("x86");
    reveal_strlit("x86_64");
    reveal_strlit("arm");
    assert("x86"@.len() != "aarch64"@.len());
    assert("x86_64"@.len() != "aarch64"@.len());
    assert("x86_64"@.len() != "x86"@.len());
    assert("arm"@[0] != "x86"@[0]);
    assert("macos"@[0] != "windows"@[0]);
    assert("linux"@[0] != "windows"@[0]);
    assert("linux"@[0] != "macos"@[0]);
}

/// A source declared for an architecture-specific ReaPack platform fits exactly the REAPER
/// target of a build for that operating system and architecture (in Rust's names): `darwin32`
/// is 32-bit Intel macOS, `darwin64` 64-bit Intel macOS, `darwin-arm64` ARM macOS, `linux32`
/// 32-bit Intel Linux, `linux64` 64-bit Intel Linux, `linux-armv7l` 32-bit ARM Linux,
/// `linux-aarch64` 64-bit ARM Linux, `win32` 32-bit Windows and `win64` 64-bit Windows.
pub proof fn law_specific_platform_fits_its_build_target(t: ReaperTarget)
    ensures
        spec_target_is_compatible(t, Platform::Darwin32) <==> spec_target_for_build("macos"@, "x86"@) == Some(t),
        spec_target_is_compatible(t, Platform::Darwin64) <==> spec_target_for_build("macos"@, "x86_64"@) == Some(t),
        spec_target_is_compatible(t, Platform::DarwinArm64) <==> spec_target_for_build("macos"@, "aarch64"@) == Some(t),
        spec_target_is_compatible(t, Platform::Linux32) <==> spec_target_for_build("linux"@, "x86"@) == Some(t),
        spec_target_is_compatible(t, Platform::Linux64) <==> spec_target_for_build("linux"@, "x86_64"@) == Some(t),
        spec_target_is_compatible(t, Platform::LinuxArmv7l) <==> spec_target_for_build("linux"@, "arm"@) == Some(t),
        spec_target_is_compatible(t, Platform::LinuxAarch64) <==> spec_target_for_build("linux"@, "aarch64"@) == Some(t),
        spec_target_is_compatible(t, Platform::Win32) <==> spec_target_for_build("windows"@, "x86"@) == Some(t),
        spec_target_is_compatible(t, Platform::Win64) <==> spec_target_for_build("windows"@, "x86_64"@) == Some(t),
{
    lemma_targets_for_builds();
}

/// A target and its REAPER platform come from the same builds.
pub proof fn law_target_platform_matches_build(os: Seq<char>, arch: Seq<char>)
    ensures
        match spec_target_for_build(os, arch) {
            Some(t) => spec_platform_for_build(os, arch) == Some(spec_target_platform(t)),
            None => spec_platform_for_build(os, arch) is None,
        },
{
}

} // verus!
