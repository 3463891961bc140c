//! REAPER platforms (operating system plus architecture) and their relation to ReaPack platforms.

use vstd::prelude::*;

use crate::platform::Platform;
use crate::text::str_eq;

verus! {

/// A platform for which REAPER is available.
///
/// - `MacOsArm64`: REAPER installer `_universal.dmg`, ReaPack lib `-arm64.dylib`, Rust macos/aarch64
/// - `MacOsI386`: REAPER installer `_i386.dmg`, ReaPack lib `-i386.dylib`, Rust macos/x86
/// - `MacOsX86_64`: REAPER installer `_universal.dmg`, ReaPack lib `-x86_64.dylib`, Rust macos/x86_64
/// - `WindowsX86`: REAPER installer `-install.exe`, ReaPack lib `-x86.dll`, Rust windows/x86
/// - `WindowsX64`: REAPER installer `_x64-install.exe`, ReaPack lib `-x64.dll`, Rust windows/x86_64
/// - `LinuxAarch64`: REAPER installer `_linux_aarch64.tar.xz`, ReaPack lib `-aarch64.so`, Rust linux/aarch64
/// - `LinuxArmv7l`: REAPER installer `_linux_armv7l.tar.xz`, ReaPack lib `-armv7l.so`, Rust linux/arm
/// - `LinuxI686`: REAPER installer `_linux_i686.tar.xz`, ReaPack lib `-i686.so`, Rust linux/x86
/// - `LinuxX86_64`: REAPER installer `_linux_x86_64.tar.xz`, ReaPack lib `-x86_64.so`, Rust linux/x86_64
#[derive(Copy, Clone, PartialEq, Eq, Structural, Debug)]
pub enum ReaperPlatform {
    MacOsArm64,
    MacOsI386,
    MacOsX86_64,
    WindowsX86,
    WindowsX64,
    LinuxAarch64,
    LinuxArmv7l,
    LinuxI686,
    LinuxX86_64,
}

/// Operating system family of a [`ReaperPlatform`].
#[derive(Copy, Clone, PartialEq, Eq, Structural, Debug)]
pub enum ReaperOs {
    MacOs,
    Windows,
    Linux,
}

/// What a ReaPack platform (other than `All`) restricts a source to: one specific REAPER
/// platform or a whole operating system.
#[derive(Copy, Clone, PartialEq, Eq, Structural, Debug)]
pub enum ReaperTargetOrFamily {
    Platform(ReaperPlatform),
    Os(ReaperOs),
}

/// The REAPER platform matching the operating system and architecture names that Rust uses
/// (`target_os` and `target_arch`), if REAPER supports that combination.
pub open spec fn spec_platform_for_build(os: Seq<char>, arch: Seq<char>) -> Option<ReaperPlatform> {
    if os == "macos"@ {
        if arch == "aarch64"@ {
            Some(ReaperPlatform::MacOsArm64)
        } else if arch == "x86"@ {
            Some(ReaperPlatform::MacOsI386)
        } else if arch == "x86_64"@ {
            Some(ReaperPlatform::MacOsX86_64)
        } else {
            None
        }
    } else if os == "windows"@ {
        if arch == "x86"@ {
            Some(ReaperPlatform::WindowsX86)
        } else if arch == "x86_64"@ {
            Some(ReaperPlatform::WindowsX64)
        } else {
            None
        }
    } else if os == "linux"@ {
        if arch == "aarch64"@ {
            Some(ReaperPlatform::LinuxAarch64)
        } else if arch == "x86"@ {
            Some(ReaperPlatform::LinuxI686)
        } else if arch == "x86_64"@ {
            Some(ReaperPlatform::LinuxX86_64)
        } else if arch == "arm"@ {
            Some(ReaperPlatform::LinuxArmv7l)
        } else {
            None
        }
    } else {
        None
    }
}

/// Operating system family of a REAPER platform.
pub open spec fn spec_family(p: ReaperPlatform) -> ReaperOs {
    match p {
        ReaperPlatform::MacOsArm64 | ReaperPlatform::MacOsI386 | ReaperPlatform::MacOsX86_64 => ReaperOs::MacOs,
        ReaperPlatform::WindowsX86 | ReaperPlatform::WindowsX64 => ReaperOs::Windows,
        _ => ReaperOs::Linux,
    }
}

/// What a ReaPack platform restricts a source to (`None` for `All`).
pub open spec fn spec_from_reapack_platform(platform: Platform) -> Option<ReaperTargetOrFamily> {
    match platform {
        Platform::All => None,
        Platform::Darwin => Some(ReaperTargetOrFamily::Os(ReaperOs::MacOs)),
        Platform::Darwin32 => Some(ReaperTargetOrFamily::Platform(ReaperPlatform::MacOsI386)),
        Platform::Darwin64 => Some(ReaperTargetOrFamily::Platform(ReaperPlatform::MacOsX86_64)),
        Platform::DarwinArm64 => Some(ReaperTargetOrFamily::Platform(ReaperPlatform::MacOsArm64)),
        Platform::Linux => Some(ReaperTargetOrFamily::Os(ReaperOs::Linux)),
        Platform::Linux32 => Some(ReaperTargetOrFamily::Platform(ReaperPlatform::LinuxI686)),
        Platform::Linux64 => Some(ReaperTargetOrFamily::Platform(ReaperPlatform::LinuxX86_64)),
        Platform::LinuxArmv7l => Some(ReaperTargetOrFamily::Platform(ReaperPlatform::LinuxArmv7l)),
        Platform::LinuxAarch64 => Some(ReaperTargetOrFamily::Platform(ReaperPlatform::LinuxAarch64)),
        Platform::Windows => Some(ReaperTargetOrFamily::Os(ReaperOs::Windows)),
        Platform::Win32 => Some(ReaperTargetOrFamily::Platform(ReaperPlatform::WindowsX86)),
        Platform::Win64 => Some(ReaperTargetOrFamily::Platform(ReaperPlatform::WindowsX64)),
    }
}

/// Whether a package source for ReaPack platform `platform` can be installed for REAPER
/// platform `p`.
pub open spec fn spec_is_compatible(p: ReaperPlatform, platform: Platform) -> bool {
    match spec_from_reapack_platform(platform) {
        None => true,
        Some(ReaperTargetOrFamily::Platform(t)) => p == t,
        Some(ReaperTargetOrFamily::Os(f)) => spec_family(p) == f,
    }
}

impl ReaperPlatform {
    /// The REAPER platform for the operating system and architecture (as named by Rust's
    /// `target_os` and `target_arch`) for which ReaBoot was built, if REAPER supports it.
    pub fn from_reaboot_build_checked(os: &str, arch: &str) -> (r: Option<Self>)
        ensures
            r == spec_platform_for_build(os@, arch@),
    {
        if str_eq(os, "macos") {
            if str_eq(arch, "aarch64") {
                Some(ReaperPlatform::MacOsArm64)
            } else if str_eq(arch, "x86") {
                Some(ReaperPlatform::MacOsI386)
            } else if str_eq(arch, "x86_64") {
                Some(ReaperPlatform::MacOsX86_64)
            } else {
                None
            }
        } else if str_eq(os, "windows") {
            if str_eq(arch, "x86") {
                Some(ReaperPlatform::WindowsX86)
            } else if str_eq(arch, "x86_64") {
                Some(ReaperPlatform::WindowsX64)
            } else {
                None
            }
        } else if str_eq(os, "linux") {
            if str_eq(arch, "aarch64") {
                Some(ReaperPlatform::LinuxAarch64)
            } else if str_eq(arch, "x86") {
                Some(ReaperPlatform::LinuxI686)
            } else if str_eq(arch, "x86_64") {
                Some(ReaperPlatform::LinuxX86_64)
            } else if str_eq(arch, "arm") {
                Some(ReaperPlatform::LinuxArmv7l)
            } else {
                None
            }
        } else {
            None
        }
    }

    /// Like [`Self::from_reaboot_build_checked`] for a build on a platform that REAPER supports.
    pub fn from_reaboot_build(os: &str, arch: &str) -> (r: Self)
        requires
            spec_platform_for_build(os@, arch@) is Some,
        ensures
            spec_platform_for_build(os@, arch@) == Some(r),
    {
        match Self::from_reaboot_build_checked(os, arch) {
            Some(p) => p,
            None => ReaperPlatform::LinuxX86_64,
        }
    }

    /// Operating system family of this platform.
    pub fn family(&self) -> (r: ReaperOs)
        ensures
            r == spec_family(*self),
    {
        match self {
            ReaperPlatform::MacOsArm64 | ReaperPlatform::MacOsI386 | ReaperPlatform::MacOsX86_64 => ReaperOs::MacOs,
            ReaperPlatform::WindowsX86 | ReaperPlatform::WindowsX64 => ReaperOs::Windows,
            ReaperPlatform::LinuxAarch64 | ReaperPlatform::LinuxArmv7l | ReaperPlatform::LinuxI686
            | ReaperPlatform::LinuxX86_64 => ReaperOs::Linux,
        }
    }

    /// Whether a package source declared for ReaPack platform `platform` fits this platform.
    pub fn is_compatible_with_reapack_platform(&self, platform: Platform) -> (r: bool)
        ensures
            r == spec_is_compatible(*self, platform),
    {
        match ReaperTargetOrFamily::from_reapack_platform(platform) {
            None => true,
            Some(ReaperTargetOrFamily::Platform(t)) => *self == t,
            Some(ReaperTargetOrFamily::Os(f)) => self.family() == f,
        }
    }
}

impl ReaperTargetOrFamily {
    /// What a ReaPack platform restricts a source to; `None` for `All`.
    pub fn from_reapack_platform(platform: Platform) -> (r: Option<Self>)
        ensures
            r == spec_from_reapack_platform(platform),
    {
        match platform {
            Platform::All => None,
            Platform::Darwin => Some(ReaperTargetOrFamily::Os(ReaperOs::MacOs)),
            Platform::Darwin32 => Some(ReaperTargetOrFamily::Platform(ReaperPlatform::MacOsI386)),
            Platform::Darwin64 => Some(ReaperTargetOrFamily::Platform(ReaperPlatform::MacOsX86_64)),
            Platform::DarwinArm64 => Some(ReaperTargetOrFamily::Platform(ReaperPlatform::MacOsArm64)),
            Platform::Linux => Some(ReaperTargetOrFamily::Os(ReaperOs::Linux)),
            Platform::Linux32 => Some(ReaperTargetOrFamily::Platform(ReaperPlatform::LinuxI686)),
            Platform::Linux64 => Some(ReaperTargetOrFamily::Platform(ReaperPlatform::LinuxX86_64)),
            Platform::LinuxArmv7l => Some(ReaperTargetOrFamily::Platform(ReaperPlatform::LinuxArmv7l)),
            Platform::LinuxAarch64 => Some(ReaperTargetOrFamily::Platform(ReaperPlatform::LinuxAarch64)),
            Platform::Windows => Some(ReaperTargetOrFamily::Os(ReaperOs::Windows)),
            Platform::Win32 => Some(ReaperTargetOrFamily::Platform(ReaperPlatform::WindowsX86)),
            Platform::Win64 => Some(ReaperTargetOrFamily::Platform(ReaperPlatform::WindowsX64)),
        }
    }
}

/// Operating system of a ReaPack platform other than `All`.
pub open spec fn reapack_platform_os(platform: Platform) -> Option<ReaperOs> {
    match spec_from_reapack_platform(platform) {
        None => None,
        Some(ReaperTargetOrFamily::Platform(t)) => Some(spec_family(t)),
        Some(ReaperTargetOrFamily::Os(f)) => Some(f),
    }
}

/// Sources for ReaPack platform `All` fit every REAPER platform.
pub proof fn law_all_platforms_compatible(p: ReaperPlatform)
    ensures
        spec_is_compatible(p, Platform::All),
{
}

/// A REAPER platform only accepts sources declared for its own operating system (or for all
/// platforms).
pub proof fn law_compatible_means_same_os(p: ReaperPlatform, platform: Platform)
    requires
        spec_is_compatible(p, platform),
        platform != Platform::All,
    ensures
        reapack_platform_os(platform) == Some(spec_family(p)),
{
}

/// Every REAPER platform accepts sources declared for its operating system as a whole.
pub proof fn law_os_wide_sources_compatible(p: ReaperPlatform)
    ensures
        spec_is_compatible(p, Platform::Darwin) <==> spec_family(p) == ReaperOs::MacOs,
        spec_is_compatible(p, Platform::Windows) <==> spec_family(p) == ReaperOs::Windows,
        spec_is_compatible(p, Platform::Linux) <==> spec_family(p) == ReaperOs::Linux,
{
}

/// Every REAPER platform has exactly one architecture-specific ReaPack platform that it accepts.
pub proof fn law_exactly_one_specific_platform(p: ReaperPlatform)
    ensures
        exists|q: Platform| #[trigger] spec_from_reapack_platform(q) == Some(ReaperTargetOrFamily::Platform(p)),
        forall|q1: Platform, q2: Platform|
            spec_from_reapack_platform(q1) == Some(ReaperTargetOrFamily::Platform(p))
                && spec_from_reapack_platform(q2) == Some(ReaperTargetOrFamily::Platform(p))
                ==> q1 == q2,
{
    let q = match p {
        ReaperPlatform::MacOsArm64 => Platform::DarwinArm64,
        ReaperPlatform::MacOsI386 => Platform::Darwin32,
        ReaperPlatform::MacOsX86_64 => Platform::Darwin64,
        ReaperPlatform::WindowsX86 => Platform::Win32,
        ReaperPlatform::WindowsX64 => Platform::Win64,
        ReaperPlatform::LinuxAarch64 => Platform::LinuxAarch64,
        ReaperPlatform::LinuxArmv7l => Platform::LinuxArmv7l,
        ReaperPlatform::LinuxI686 => Platform::Linux32,
        ReaperPlatform::LinuxX86_64 => Platform::Linux64,
    };
    assert(spec_from_reapack_platform(q) == Some(ReaperTargetOrFamily::Platform(p)));
}


/// The REAPER platforms of the builds that REAPER supports, by Rust's names for operating system
/// and architecture.
pub proof fn lemma_platforms_for_builds()
    ensures
        spec_platform_for_build("macos"@, "aarch64"@) == Some(ReaperPlatform::MacOsArm64),
        spec_platform_for_build("macos"@, "x86"@) == Some(ReaperPlatform::MacOsI386),
        spec_platform_for_build("macos"@, "x86_64"@) == Some(ReaperPlatform::MacOsX86_64),
        spec_platform_for_build("windows"@, "x86"@) == Some(ReaperPlatform::WindowsX86),
        spec_platform_for_build("windows"@, "x86_64"@) == Some(ReaperPlatform::WindowsX64),
        spec_platform_for_build("linux"@, "aarch64"@) == Some(ReaperPlatform::LinuxAarch64),
        spec_platform_for_build("linux"@, "arm"@) == Some(ReaperPlatform::LinuxArmv7l),
        spec_platform_for_build("linux"@, "x86"@) == Some(ReaperPlatform::LinuxI686),
        spec_platform_for_build("linux"@, "x86_64"@) == Some(ReaperPlatform::LinuxX86_64),
{
    reveal_strlit("macos");
    reveal_strlit("windows");
    reveal_strlit("linux");
    reveal_strlit("aarch64");
    reveal_strlit("x86");
    reveal_strlit("x86_64");
    reveal_strlit("arm");
    assert("x86"@.len() != "aarch64"@.len());
    assert("x86_64"@.len() != "aarch64"@.len());
    assert("x86_64"@.len() != "x86"@.len());
    assert("arm"@[0] != "x86"@[0]);
    assert("macos"@[0] != "windows"@[0]);
    assert("linux"@[0] != "windows"@[0]);
    assert("linux"@[0] != "macos"@[0]);
}

/// A source declared for an architecture-specific ReaPack platform fits exactly the REAPER
/// platform of a build for that operating system and architecture (in Rust's names): `darwin32`
/// is 32-bit Intel macOS, `darwin64` 64-bit Intel macOS, `darwin-arm64` ARM macOS, `linux32`
/// 32-bit Intel Linux, `linux64` 64-bit Intel Linux, `linux-armv7l` 32-bit ARM Linux,
/// `linux-aarch64` 64-bit ARM Linux, `win32` 32-bit Windows and `win64` 64-bit Windows.
pub proof fn law_specific_platform_fits_its_build(p: ReaperPlatform)
    ensures
        spec_is_compatible(p, Platform::Darwin32) <==> spec_platform_for_build("macos"@, "x86"@) == Some(p),
        spec_is_compatible(p, Platform::Darwin64) <==> spec_platform_for_build("macos"@, "x86_64"@) == Some(p),
        spec_is_compatible(p, Platform::DarwinArm64) <==> spec_platform_for_build("macos"@, "aarch64"@) == Some(p),
        spec_is_compatible(p, Platform::Linux32) <==> spec_platform_for_build("linux"@, "x86"@) == Some(p),
        spec_is_compatible(p, Platform::Linux64) <==> spec_platform_for_build("linux"@, "x86_64"@) == Some(p),
        spec_is_compatible(p, Platform::LinuxArmv7l) <==> spec_platform_for_build("linux"@, "arm"@) == Some(p),
        spec_is_compatible(p, Platform::LinuxAarch64) <==> spec_platform_for_build("linux"@, "aarch64"@) == Some(p),
        spec_is_compatible(p, Platform::Win32) <==> spec_platform_for_build("windows"@, "x86"@) == Some(p),
        spec_is_compatible(p, Platform::Win64) <==> spec_platform_for_build("windows"@, "x86_64"@) == Some(p),
{
    lemma_platforms_for_builds();
}

/// Of two REAPER platforms of one operating system with different architectures, neither accepts
/// the other's architecture-specific sources: a source for a build's architecture is taken for
/// that build only.
pub proof fn law_build_sources_fit_only_their_build(os: Seq<char>, arch1: Seq<char>, arch2: Seq<char>, q: Platform)
    requires
        spec_platform_for_build(os, arch1) is Some,
        spec_platform_for_build(os, arch2) is Some,
        arch1 != arch2,
        spec_from_reapack_platform(q) is Some,
        spec_from_reapack_platform(q)->0 is Platform,
        spec_is_compatible(spec_platform_for_build(os, arch1)->0, q),
    ensures
        !spec_is_compatible(spec_platform_for_build(os, arch2)->0, q),
{
}


/// How ReaPack and REAPER spell an architecture in file names, given Rust's names for operating
/// system and architecture: as Rust does, except `arm64` and `i386` on macOS, `x64` on Windows,
/// and `armv7l` and `i686` on Linux.
pub open spec fn reapack_arch_name(os: Seq<char>, arch: Seq<char>) -> Seq<char> {
    if os == "macos"@ && arch == "aarch64"@ {
        "arm64"@
    } else if os == "macos"@ && arch == "x86"@ {
        "i386"@
    } else if os == "windows"@ && arch == "x86_64"@ {
        "x64"@
    } else if os == "linux"@ && arch == "arm"@ {
        "armv7l"@
    } else if os == "linux"@ && arch == "x86"@ {
        "i686"@
    } else {
        arch
    }
}

/// The file ending of a shared library on an operating system (in Rust's name).
pub open spec fn shared_lib_ending(os: Seq<char>) -> Seq<char> {
    if os == "macos"@ {
        ".dylib"@
    } else if os == "windows"@ {
        ".dll"@
    } else {
        ".so"@
    }
}

} // verus!
