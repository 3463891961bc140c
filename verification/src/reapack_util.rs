//! Locations and names of the ReaPack shared library.

use vstd::prelude::*;

use crate::path::{law_parent_of_joined_name, path_join, spec_parent, spec_path_join};
use crate::reaper_platform::{lemma_platforms_for_builds, reapack_arch_name, shared_lib_ending, spec_platform_for_build, ReaperPlatform};
use crate::reaper_resource_dir::ReaperResourceDir;
use crate::text::{has_prefix, starts_with, str_eq};

verus! {

/// File name of the ReaPack shared library built for a REAPER platform.
pub open spec fn spec_reapack_file_name(p: ReaperPlatform) -> Seq<char> {
    match p {
        ReaperPlatform::MacOsArm64 => "reaper_reapack-arm64.dylib"@,
        ReaperPlatform::MacOsI386 => "reaper_reapack-i386.dylib"@,
        ReaperPlatform::MacOsX86_64 => "reaper_reapack-x86_64.dylib"@,
        ReaperPlatform::WindowsX86 => "reaper_reapack-x86.dll"@,
        ReaperPlatform::WindowsX64 => "reaper_reapack-x64.dll"@,
        ReaperPlatform::LinuxAarch64 => "reaper_reapack-aarch64.so"@,
        ReaperPlatform::LinuxArmv7l => "reaper_reapack-armv7l.so"@,
        ReaperPlatform::LinuxI686 => "reaper_reapack-i686.so"@,
        ReaperPlatform::LinuxX86_64 => "reaper_reapack-x86_64.so"@,
    }
}

/// Every ReaPack shared library file name starts with this.
pub open spec fn reapack_lib_prefix() -> Seq<char> {
    "reaper_reapack"@
}

/// File name of the ReaPack shared library for the given platform.
pub fn get_os_specific_reapack_file_name(reaper_target: ReaperPlatform) -> (r: &'static str)
    ensures
        r@ == spec_reapack_file_name(reaper_target),
{
    match reaper_target {
        ReaperPlatform::MacOsArm64 => "reaper_reapack-arm64.dylib",
        ReaperPlatform::MacOsI386 => "reaper_reapack-i386.dylib",
        ReaperPlatform::MacOsX86_64 => "reaper_reapack-x86_64.dylib",
        ReaperPlatform::WindowsX86 => "reaper_reapack-x86.dll",
        ReaperPlatform::WindowsX64 => "reaper_reapack-x64.dll",
        ReaperPlatform::LinuxAarch64 => "reaper_reapack-aarch64.so",
        ReaperPlatform::LinuxArmv7l => "reaper_reapack-armv7l.so",
        ReaperPlatform::LinuxI686 => "reaper_reapack-i686.so",
        ReaperPlatform::LinuxX86_64 => "reaper_reapack-x86_64.so",
    }
}

/// The expected platform-specific location of the ReaPack shared library.
pub fn get_default_reapack_shared_lib_file(
    reaper_resource_dir: &ReaperResourceDir,
    reaper_target: ReaperPlatform,
) -> (r: String)
    ensures
        r@ == spec_path_join(spec_path_join(reaper_resource_dir@, "UserPlugins"@), spec_reapack_file_name(reaper_target)),
{
    let file_name = get_os_specific_reapack_file_name(reaper_target);
    let dir = reaper_resource_dir.user_plugins_dir();
    path_join(dir.as_str(), file_name)
}

/// Whether a directory entry name (`None` if not valid UTF-8) is that of a ReaPack shared
/// library.
pub open spec fn is_reapack_lib_name(name: Option<String>) -> bool {
    name matches Some(n) && has_prefix(n@, reapack_lib_prefix())
}

/// Position of the first entry that is a ReaPack shared library (a file name starting with
/// `reaper_reapack`); `None` entries stand for names that are not valid UTF-8.
pub open spec fn is_first_reapack_lib_entry(names: Seq<Option<String>>, i: int) -> bool {
    &&& 0 <= i < names.len()
    &&& is_reapack_lib_name(names[i])
    &&& forall|j: int| 0 <= j < i ==> !is_reapack_lib_name(#[trigger] names[j])
}

/// The first existing ReaPack shared library, no matter the platform it was built for, among
/// the entries of the `UserPlugins` directory (whose file names are given in directory order;
/// `None` for names that are not valid UTF-8).
pub fn find_reapack_shared_lib_file(
    reaper_resource_dir: &ReaperResourceDir,
    user_plugins_entry_names: &Vec<Option<String>>,
) -> (r: Option<String>)
    ensures
        r is None <==> forall|i: int| 0 <= i < user_plugins_entry_names@.len() ==>
            !is_reapack_lib_name(#[trigger] user_plugins_entry_names@[i]),
        r matches Some(p) ==> exists|i: int|
            is_first_reapack_lib_entry(user_plugins_entry_names@, i)
                && p@ == spec_path_join(spec_path_join(reaper_resource_dir@, "UserPlugins"@), user_plugins_entry_names@[i]->0@),
{
    let names = user_plugins_entry_names;
    let mut i: usize = 0;
    while i < names.len()
        invariant
            names == user_plugins_entry_names,
            forall|j: int| 0 <= j < i ==> !is_reapack_lib_name(#[trigger] names@[j]),
        decreases names.len() - i,
    {
        if let Some(name) = &names[i] {
            assert(names@[i as int] == Some(*name));
            if starts_with(name.as_str(), "reaper_reapack") {
                let dir = reaper_resource_dir.user_plugins_dir();
                let p = path_join(dir.as_str(), name.as_str());
                assert(is_first_reapack_lib_entry(names@, i as int));
                return Some(p);
            }
        }
        i = i + 1;
    }
    None
}

/// Position of the release asset that holds the ReaPack shared library for the given platform.
pub fn get_correct_reapack_asset(asset_names: &Vec<String>, reaper_target: ReaperPlatform) -> (r: Option<usize>)
    ensures
        r matches Some(i) ==> i < asset_names@.len() && asset_names@[i as int]@ == spec_reapack_file_name(reaper_target)
            && forall|j: int| 0 <= j < i ==> asset_names@[j]@ != spec_reapack_file_name(reaper_target),
        r is None ==> forall|j: int| 0 <= j < asset_names@.len() ==> asset_names@[j]@ != spec_reapack_file_name(reaper_target),
{
    let file_name = get_os_specific_reapack_file_name(reaper_target);
    let mut i: usize = 0;
    while i < asset_names.len()
        invariant
            file_name@ == spec_reapack_file_name(reaper_target),
            forall|j: int| 0 <= j < i ==> asset_names@[j]@ != spec_reapack_file_name(reaper_target),
        decreases asset_names.len() - i,
    {
        if str_eq(asset_names[i].as_str(), file_name) {
            return Some(i);
        }
        i = i + 1;
    }
    None
}

/// Every platform's ReaPack library is found by the search for any ReaPack library.
pub proof fn law_default_lib_name_has_reapack_prefix(p: ReaperPlatform)
    ensures
        has_prefix(spec_reapack_file_name(p), reapack_lib_prefix()),
{
    reveal_strlit("reaper_reapack");
    reveal_strlit("reaper_reapack-arm64.dylib");
    reveal_strlit("reaper_reapack-i386.dylib");
    reveal_strlit("reaper_reapack-x86_64.dylib");
    reveal_strlit("reaper_reapack-x86.dll");
    reveal_strlit("reaper_reapack-x64.dll");
    reveal_strlit("reaper_reapack-aarch64.so");
    reveal_strlit("reaper_reapack-armv7l.so");
    reveal_strlit("reaper_reapack-i686.so");
    reveal_strlit("reaper_reapack-x86_64.so");
    assert(spec_reapack_file_name(p).subrange(0, 14) =~= reapack_lib_prefix());
}

/// Different platforms have different ReaPack library file names.
pub proof fn law_reapack_file_names_distinct(p: ReaperPlatform, q: ReaperPlatform)
    requires
        p != q,
    ensures
        spec_reapack_file_name(p) != spec_reapack_file_name(q),
{
    reveal_strlit("reaper_reapack-arm64.dylib");
    reveal_strlit("reaper_reapack-i386.dylib");
    reveal_strlit("reaper_reapack-x86_64.dylib");
    reveal_strlit("reaper_reapack-x86.dll");
    reveal_strlit("reaper_reapack-x64.dll");
    reveal_strlit("reaper_reapack-aarch64.so");
    reveal_strlit("reaper_reapack-armv7l.so");
    reveal_strlit("reaper_reapack-i686.so");
    reveal_strlit("reaper_reapack-x86_64.so");
    let a = spec_reapack_file_name(p);
    let b = spec_reapack_file_name(q);
    if a == b {
        assert(a.len() == b.len());
        assert(a[15] == b[15]);
        assert(a[16] == b[16]);
        assert(a[17] == b[17]);
        assert(a[a.len() - 1] == b[b.len() - 1]);
    }
}

/// A ReaPack library found among the entries of `UserPlugins` lies directly in the `UserPlugins`
/// directory: its parent is that directory (an entry name is a single path component).
pub proof fn law_reapack_lib_in_user_plugins(reaper_resource_dir: Seq<char>, entry_name: Seq<char>)
    requires
        entry_name.len() > 0,
        !entry_name.contains('/'),
    ensures
        spec_parent(spec_path_join(spec_path_join(reaper_resource_dir, "UserPlugins"@), entry_name)) == Some(
            spec_path_join(reaper_resource_dir, "UserPlugins"@),
        ),
{
    reveal_strlit("UserPlugins");
    let dir = spec_path_join(reaper_resource_dir, "UserPlugins"@);
    assert(dir.last() == 's');
    law_parent_of_joined_name(dir, entry_name);
}


/// The ReaPack library for the REAPER platform of a build names that build's architecture and
/// carries the operating system's library ending: `reaper_reapack-`, the architecture (see
/// [`reapack_arch_name`]), then `.dylib`, `.dll` or `.so`.
pub proof fn law_reapack_library_names_build_architecture(os: Seq<char>, arch: Seq<char>)
    requires
        spec_platform_for_build(os, arch) is Some,
    ensures
        spec_reapack_file_name(spec_platform_for_build(os, arch)->0) == "reaper_reapack-"@ + reapack_arch_name(os, arch)
            + shared_lib_ending(os),
{
    lemma_platforms_for_builds();
    reveal_strlit("macos");
    reveal_strlit("windows");
    reveal_strlit("linux");
    reveal_strlit("aarch64");
    reveal_strlit("x86");
    reveal_strlit("x86_64");
    reveal_strlit("arm");
    reveal_strlit("arm64");
    reveal_strlit("i386");
    reveal_strlit("x64");
    reveal_strlit("armv7l");
    reveal_strlit("i686");
    reveal_strlit(".dylib");
    reveal_strlit(".dll");
    reveal_strlit(".so");
    reveal_strlit("reaper_reapack-");
    reveal_strlit("reaper_reapack-arm64.dylib");
    reveal_strlit("reaper_reapack-i386.dylib");
    reveal_strlit("reaper_reapack-x86_64.dylib");
    reveal_strlit("reaper_reapack-x86.dll");
    reveal_strlit("reaper_reapack-x64.dll");
    reveal_strlit("reaper_reapack-aarch64.so");
    reveal_strlit("reaper_reapack-armv7l.so");
    reveal_strlit("reaper_reapack-i686.so");
    reveal_strlit("reaper_reapack-x86_64.so");
    assert("x86"@.len() != "aarch64"@.len());
    assert("x86_64"@.len() != "aarch64"@.len());
    assert("x86_64"@.len() != "x86"@.len());
    assert("arm"@[0] != "x86"@[0]);
    assert("arm"@ != "aarch64"@);
    assert("macos"@[0] != "windows"@[0]);
    assert("linux"@[0] != "windows"@[0]);
    assert("linux"@[0] != "macos"@[0]);
    let name = spec_reapack_file_name(spec_platform_for_build(os, arch)->0);
    let built = "reaper_reapack-"@ + reapack_arch_name(os, arch) + shared_lib_ending(os);
    assert(name =~= built);
}

} // verus!
