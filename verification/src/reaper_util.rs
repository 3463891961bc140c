//! Where REAPER lives and how its installers are named and unpacked.

use vstd::prelude::*;

use crate::path::{path_join, spec_path_join};
use crate::reaper_platform::{reapack_arch_name, ReaperOs};
use crate::reaper_target::{lemma_targets_for_builds, spec_target_for_build, ReaperTarget};
use crate::text::{find_char, str_eq};
use crate::version::VersionName;

verus! {

/// `dirs::config_dir`: the user's configuration directory, if it can be found. It depends on
/// the environment, so nothing is claimed about it. A path that is not valid UTF-8 is given as
/// `None`.
#[verifier::external_body]
fn config_dir() -> Option<String> {
    match dirs::config_dir() {
        Some(p) => p.to_str().map(String::from),
        None => None,
    }
}

/// The expected location of the resource directory of the main REAPER installation, whether
/// or not it exists: `REAPER` in the user's configuration directory. `None` if that
/// directory cannot be found.
pub fn get_default_main_reaper_resource_dir() -> (r: Option<String>)
    ensures
        r matches Some(d) ==> exists|c: Seq<char>| d@ == #[trigger] spec_path_join(c, "REAPER"@),
{
    match config_dir() {
        Some(c) => Some(path_join(c.as_str(), "REAPER")),
        None => None,
    }
}

/// `s` without its `.` characters.
pub open spec fn spec_without_dots(s: Seq<char>) -> Seq<char>
    decreases s.len(),
{
    if s.len() == 0 {
        s
    } else if s.last() == '.' {
        spec_without_dots(s.drop_last())
    } else {
        spec_without_dots(s.drop_last()).push(s.last())
    }
}

/// Removes all `.` characters from `s`.
pub fn without_dots(s: &str) -> (r: String)
    ensures
        r@ == spec_without_dots(s@),
{
    let n = s.unicode_len();
    let mut r = String::new();
    let mut i: usize = 0;
    while i < n
        invariant
            n == s@.len(),
            i <= n,
            r@ == spec_without_dots(s@.take(i as int)),
        decreases n - i,
    {
        assert(s@.take(i + 1).drop_last() =~= s@.take(i as int));
        let c = s.get_char(i);
        if c != '.' {
            let piece = s.substring_char(i, i + 1);
            r = r.concat(piece);
            assert(piece@ =~= seq![c]);
        }
        assert(r@ =~= spec_without_dots(s@.take(i + 1)));
        i = i + 1;
    }
    assert(s@.take(n as int) =~= s@);
    r
}

/// The end of the installer's file name for each target.
pub open spec fn spec_installer_suffix(t: ReaperTarget) -> Seq<char> {
    match t {
        ReaperTarget::MacOsAarch64 | ReaperTarget::MacOsX86_64 => "_universal.dmg"@,
        ReaperTarget::MacOsX86 => "_i386.dmg"@,
        ReaperTarget::WindowsX86 => "-install.exe"@,
        ReaperTarget::WindowsX64 => "_x64-install.exe"@,
        ReaperTarget::LinuxAarch64 => "_linux_aarch64.tar.xz"@,
        ReaperTarget::LinuxArmv7l => "_linux_armv7l.tar.xz"@,
        ReaperTarget::LinuxI686 => "_linux_i686.tar.xz"@,
        ReaperTarget::LinuxX86_64 => "_linux_x86_64.tar.xz"@,
    }
}

fn installer_suffix(t: ReaperTarget) -> (r: &'static str)
    ensures
        r@ == spec_installer_suffix(t),
{
    match t {
        ReaperTarget::MacOsAarch64 | ReaperTarget::MacOsX86_64 => "_universal.dmg",
        ReaperTarget::MacOsX86 => "_i386.dmg",
        ReaperTarget::WindowsX86 => "-install.exe",
        ReaperTarget::WindowsX64 => "_x64-install.exe",
        ReaperTarget::LinuxAarch64 => "_linux_aarch64.tar.xz",
        ReaperTarget::LinuxArmv7l => "_linux_armv7l.tar.xz",
        ReaperTarget::LinuxI686 => "_linux_i686.tar.xz",
        ReaperTarget::LinuxX86_64 => "_linux_x86_64.tar.xz",
    }
}

/// File name of the REAPER installer of `version` for `reaper_target`: `reaper`, the version
/// without dots, then a target-specific ending (for example `reaper711_x64-install.exe`).
pub fn get_os_specific_reaper_installer_file_name(reaper_target: ReaperTarget, version: &VersionName) -> (r: String)
    ensures
        r@ == "reaper"@ + spec_without_dots(version@) + spec_installer_suffix(reaper_target),
{
    let v = without_dots(version.as_str());
    let s = "reaper".to_owned();
    let s = s.concat(v.as_str());
    s.concat(installer_suffix(reaper_target))
}


/// What `Path::extension` gives for `path`: the part of the file name after its last `.`
/// (none for a name without a dot or with only a leading one).
pub uninterp spec fn spec_path_extension(path: Seq<char>) -> Option<Seq<char>>;

/// The view of an optional string.
pub open spec fn opt_string_view(s: Option<String>) -> Option<Seq<char>> {
    match s {
        Some(s) => Some(s@),
        None => None,
    }
}

/// `Path::extension` of `path`. The result is claimed to be [`spec_path_extension`] of
/// `path`, and nothing more. (The extension of a UTF-8 path is itself UTF-8, so `to_str`
/// loses nothing here.)
#[verifier::external_body]
fn path_extension(path: &str) -> (r: Option<String>)
    ensures
        opt_string_view(r) == spec_path_extension(path@),
{
    match std::path::Path::new(path).extension() {
        Some(e) => e.to_str().map(String::from),
        None => None,
    }
}

/// The kinds of REAPER installers, told apart by their file extension.
#[derive(Copy, Clone, PartialEq, Eq, Structural, Debug)]
pub enum InstallerKind {
    /// `.dmg`, for macOS.
    MacOsDmg,
    /// `.exe`, for Windows.
    WindowsExe,
    /// `.xz` (a `.tar.xz` archive), for Linux.
    LinuxTarXz,
}

/// Why REAPER could not be unpacked.
#[derive(Clone, Debug)]
pub enum ExtractReaperError {
    /// The installer's file name has no extension.
    MissingExtension,
    /// The installer's file name has this extension, which is none of `dmg`, `exe`, `xz`.
    UnsupportedExtension(String),
    /// The installer is for another operating system than the one this runs on.
    WrongHostOs,
    /// Unpacking failed, with this message.
    Extraction(String),
}

/// The installer kind that an extension names, if any.
pub open spec fn spec_installer_kind(ext: Seq<char>) -> Option<InstallerKind> {
    if ext == "dmg"@ {
        Some(InstallerKind::MacOsDmg)
    } else if ext == "exe"@ {
        Some(InstallerKind::WindowsExe)
    } else if ext == "xz"@ {
        Some(InstallerKind::LinuxTarXz)
    } else {
        None
    }
}

/// The installer kind for the extension `ext` of an installer's file name.
pub fn installer_kind(ext: Option<String>) -> (r: Result<InstallerKind, ExtractReaperError>)
    ensures
        ext is None ==> r matches Err(ExtractReaperError::MissingExtension),
        ext matches Some(e) ==> match spec_installer_kind(e@) {
            Some(k) => r == Ok::<InstallerKind, ExtractReaperError>(k),
            None => r matches Err(ExtractReaperError::UnsupportedExtension(x)) && x@ == e@,
        },
{
    match ext {
        None => Err(ExtractReaperError::MissingExtension),
        Some(e) => {
            if str_eq(e.as_str(), "dmg") {
                Ok(InstallerKind::MacOsDmg)
            } else if str_eq(e.as_str(), "exe") {
                Ok(InstallerKind::WindowsExe)
            } else if str_eq(e.as_str(), "xz") {
                Ok(InstallerKind::LinuxTarXz)
            } else {
                Err(ExtractReaperError::UnsupportedExtension(e))
            }
        },
    }
}

/// Unpacks a macOS REAPER installer (`.dmg`) into `dest_dir`, which only works on macOS.
/// `extract` does the unpacking and gives the path of the unpacked `REAPER.app`.
pub fn extract_reaper_for_macos_to_dir<M: FnOnce(&str, &str, &str) -> Result<String, String>>(
    dmg_path: &str,
    dest_dir: &str,
    temp_dir: &str,
    host_os: ReaperOs,
    extract: M,
) -> (r: Result<String, ExtractReaperError>)
    requires
        extract.requires((dmg_path, dest_dir, temp_dir)),
    ensures
        host_os != ReaperOs::MacOs ==> r matches Err(ExtractReaperError::WrongHostOs),
        host_os == ReaperOs::MacOs ==> match r {
            Ok(p) => extract.ensures((dmg_path, dest_dir, temp_dir), Ok::<String, String>(p)),
            Err(ExtractReaperError::Extraction(m)) => extract.ensures((dmg_path, dest_dir, temp_dir), Err::<String, String>(m)),
            Err(_) => false,
        },
{
    if host_os != ReaperOs::MacOs {
        return Err(ExtractReaperError::WrongHostOs);
    }
    match extract(dmg_path, dest_dir, temp_dir) {
        Ok(p) => Ok(p),
        Err(m) => Err(ExtractReaperError::Extraction(m)),
    }
}

/// Unpacking a Windows REAPER installer is only possible on Windows; elsewhere this fails.
/// On Windows it is not done yet (the silent install is missing), so it must not be asked
/// for there.
pub fn extract_reaper_for_windows_to_dir(reaper_installer_exe: &str, dest_dir: &str, host_os: ReaperOs) -> (r: Result<String, ExtractReaperError>)
    requires
        host_os != ReaperOs::Windows,
    ensures
        r matches Err(ExtractReaperError::WrongHostOs),
{
    Err(ExtractReaperError::WrongHostOs)
}

/// Unpacks the REAPER installer `installer_asset` into `dest_dir`, choosing the way by the
/// installer's file extension: `dmg` (macOS, unpacked by `extract_macos`), `exe` (Windows).
/// Unpacking `xz` archives (Linux) and unpacking on Windows are not done yet, so they must
/// not be asked for.
pub fn extract_reaper_to_portable_dir<M: FnOnce(&str, &str, &str) -> Result<String, String>>(
    installer_asset: &str,
    dest_dir: &str,
    temp_dir: &str,
    host_os: ReaperOs,
    extract_macos: M,
) -> (r: Result<String, ExtractReaperError>)
    requires
        extract_macos.requires((installer_asset, dest_dir, temp_dir)),
        spec_path_extension(installer_asset@) != Some("xz"@),
        host_os == ReaperOs::Windows ==> spec_path_extension(installer_asset@) != Some("exe"@),
    ensures
        spec_path_extension(installer_asset@) is None ==> r matches Err(ExtractReaperError::MissingExtension),
        spec_path_extension(installer_asset@) matches Some(e) ==> match spec_installer_kind(e) {
            None => r matches Err(ExtractReaperError::UnsupportedExtension(x)) && x@ == e,
            Some(InstallerKind::WindowsExe) => r matches Err(ExtractReaperError::WrongHostOs),
            Some(_) => if host_os != ReaperOs::MacOs {
                r matches Err(ExtractReaperError::WrongHostOs)
            } else {
                match r {
                    Ok(p) => extract_macos.ensures((installer_asset, dest_dir, temp_dir), Ok::<String, String>(p)),
                    Err(ExtractReaperError::Extraction(m)) => extract_macos.ensures(
                        (installer_asset, dest_dir, temp_dir),
                        Err::<String, String>(m),
                    ),
                    Err(_) => false,
                }
            },
        },
{
    let ext = path_extension(installer_asset);
    let kind = installer_kind(ext);
    match kind {
        Err(e) => Err(e),
        Ok(InstallerKind::MacOsDmg) => extract_reaper_for_macos_to_dir(installer_asset, dest_dir, temp_dir, host_os, extract_macos),
        Ok(InstallerKind::WindowsExe) => {
            proof {
                reveal_strlit("exe");
                reveal_strlit("dmg");
            }
            extract_reaper_for_windows_to_dir(installer_asset, dest_dir, host_os)
        },
        Ok(InstallerKind::LinuxTarXz) => {
            proof {
                reveal_strlit("xz");
                reveal_strlit("exe");
                reveal_strlit("dmg");
            }
            Err(ExtractReaperError::WrongHostOs)
        },
    }
}


/// [`extract_reaper_to_portable_dir`] where it can be done: `None` for a Linux installer
/// (`xz`), and for a Windows installer (`exe`) on Windows, whose unpacking is not done yet.
pub fn try_extract_reaper_to_portable_dir<M: FnOnce(&str, &str, &str) -> Result<String, String>>(
    installer_asset: &str,
    dest_dir: &str,
    temp_dir: &str,
    host_os: ReaperOs,
    extract_macos: M,
) -> (r: Option<Result<String, ExtractReaperError>>)
    requires
        extract_macos.requires((installer_asset, dest_dir, temp_dir)),
    ensures
        r is None <==> (spec_path_extension(installer_asset@) == Some("xz"@) || (host_os == ReaperOs::Windows
            && spec_path_extension(installer_asset@) == Some("exe"@))),
        r matches Some(Ok(p)) ==> extract_macos.ensures((installer_asset, dest_dir, temp_dir), Ok::<String, String>(p)),
{
    let ext = path_extension(installer_asset);
    let unsupported = match &ext {
        Some(e) => str_eq(e.as_str(), "xz") || (host_os == ReaperOs::Windows && str_eq(e.as_str(), "exe")),
        None => false,
    };
    if unsupported {
        return None;
    }
    Some(extract_reaper_to_portable_dir(installer_asset, dest_dir, temp_dir, host_os, extract_macos))
}


/// `i` is the position of the first line feed in `body`.
pub open spec fn is_first_newline(body: Seq<char>, i: int) -> bool {
    0 <= i < body.len() && body[i] == '\n' && forall|j: int| 0 <= j < i ==> body[j] != '\n'
}

/// `s` without a carriage return at its end.
pub open spec fn without_cr(s: Seq<char>) -> Seq<char> {
    if s.len() > 0 && s.last() == '\r' {
        s.drop_last()
    } else {
        s
    }
}

/// `line` is the first line of the non-empty text `body` as `str::lines` gives it: the text up
/// to the first line feed, without a carriage return right before it, or all of `body` if it
/// has no line feed.
pub open spec fn is_first_line(body: Seq<char>, line: Seq<char>) -> bool {
    ||| (forall|j: int| 0 <= j < body.len() ==> body[j] != '\n') && line == body
    ||| exists|i: int| #[trigger] is_first_newline(body, i) && line == without_cr(body.take(i))
}

/// The first line of `body` (see [`is_first_line`]); `None` for an empty text, which has no
/// lines.
pub fn first_line(body: &str) -> (r: Option<&str>)
    ensures
        r is None <==> body@.len() == 0,
        r matches Some(l) ==> is_first_line(body@, l@),
{
    let n = body.unicode_len();
    if n == 0 {
        return None;
    }
    match find_char(body, '\n') {
        None => Some(body),
        Some(i) => {
            assert(is_first_newline(body@, i as int));
            if i > 0 && body.get_char(i - 1) == '\r' {
                let l = body.substring_char(0, i - 1);
                assert(l@ =~= without_cr(body@.take(i as int)));
                Some(l)
            } else {
                let l = body.substring_char(0, i);
                assert(l@ =~= without_cr(body@.take(i as int)));
                Some(l)
            }
        },
    }
}

/// Why no REAPER version could be read from the answer of REAPER's website.
#[derive(Copy, Clone, PartialEq, Eq, Structural, Debug)]
pub enum ReaperVersionLookupError {
    /// The answer is empty, so it has no line with a version.
    NoVersionLine,
    /// The line of the pre-release notes does not start with `v`.
    MissingVersionPrefix,
    /// The line of the pre-release notes has no space after the version.
    MissingSpaceAfterVersion,
    /// The version is empty.
    InvalidVersion,
}

/// Reads the latest stable REAPER version from the answer of REAPER's version file: its first
/// line is the version.
pub fn parse_stable_reaper_version(body: &str) -> (r: Result<VersionName, ReaperVersionLookupError>)
    ensures
        match r {
            Ok(v) => v@.len() > 0 && is_first_line(body@, v@),
            Err(ReaperVersionLookupError::NoVersionLine) => body@.len() == 0,
            Err(ReaperVersionLookupError::InvalidVersion) => body@.len() > 0 && is_first_line(body@, Seq::empty()),
            Err(_) => false,
        },
{
    let line = match first_line(body) {
        Some(l) => l,
        None => return Err(ReaperVersionLookupError::NoVersionLine),
    };
    match VersionName::parse(line) {
        Ok(v) => Ok(v),
        Err(_) => {
            assert(line@ =~= Seq::<char>::empty());
            Err(ReaperVersionLookupError::InvalidVersion)
        },
    }
}

/// `v` is the version in the line `line` of the pre-release notes: `v`, the version, a space.
pub open spec fn is_notes_version(line: Seq<char>, version: Seq<char>) -> bool {
    &&& line.len() > 0 && line[0] == 'v'
    &&& exists|i: int|
        #![trigger line.drop_first().take(i)]
        0 <= i < line.len() - 1 && line.drop_first()[i] == ' ' && (forall|j: int|
            0 <= j < i ==> line.drop_first()[j] != ' ') && version == line.drop_first().take(i)
}

/// Reads the latest REAPER pre-release version from the answer of REAPER's pre-release notes:
/// their first line is `v`, the version, a space and more.
pub fn parse_unstable_reaper_version(body: &str) -> (r: Result<VersionName, ReaperVersionLookupError>)
    ensures
        match r {
            Ok(v) => v@.len() > 0 && exists|l: Seq<char>| #[trigger] is_first_line(body@, l) && is_notes_version(l, v@),
            Err(ReaperVersionLookupError::NoVersionLine) => body@.len() == 0,
            Err(ReaperVersionLookupError::MissingVersionPrefix) => body@.len() > 0 && exists|l: Seq<char>|
                #[trigger] is_first_line(body@, l) && !(l.len() > 0 && l[0] == 'v'),
            Err(ReaperVersionLookupError::MissingSpaceAfterVersion) => body@.len() > 0 && exists|l: Seq<char>|
                #[trigger] is_first_line(body@, l) && l.len() > 0 && l[0] == 'v' && !l.drop_first().contains(' '),
            Err(ReaperVersionLookupError::InvalidVersion) => body@.len() > 0 && exists|l: Seq<char>|
                #[trigger] is_first_line(body@, l) && is_notes_version(l, Seq::empty()),
        },
{
    let line = match first_line(body) {
        Some(l) => l,
        None => return Err(ReaperVersionLookupError::NoVersionLine),
    };
    let n = line.unicode_len();
    if n == 0 || line.get_char(0) != 'v' {
        return Err(ReaperVersionLookupError::MissingVersionPrefix);
    }
    let rest = line.substring_char(1, n);
    assert(rest@ =~= line@.drop_first());
    let i = match find_char(rest, ' ') {
        Some(i) => i,
        None => {
            assert(!line@.drop_first().contains(' '));
            return Err(ReaperVersionLookupError::MissingSpaceAfterVersion);
        },
    };
    let raw = rest.substring_char(0, i);
    assert(raw@ =~= line@.drop_first().take(i as int));
    match VersionName::parse(raw) {
        Ok(v) => {
            assert(is_notes_version(line@, v@));
            Ok(v)
        },
        Err(_) => {
            assert(raw@ =~= Seq::<char>::empty());
            assert(is_notes_version(line@, Seq::empty()));
            Err(ReaperVersionLookupError::InvalidVersion)
        },
    }
}


/// The REAPER installer for the target of a build names that build's architecture where REAPER
/// has an installer per architecture: on Linux `_linux_`, the architecture (see
/// [`reapack_arch_name`]) and `.tar.xz`; on 64-bit Windows `_x64-install.exe` and on 32-bit
/// Windows `-install.exe`; on 32-bit Intel macOS `_i386.dmg`, on other macOS builds the
/// universal `_universal.dmg`.
pub proof fn law_installer_names_build_architecture(os: Seq<char>, arch: Seq<char>)
    requires
        spec_target_for_build(os, arch) is Some,
    ensures
        os == "linux"@ ==> spec_installer_suffix(spec_target_for_build(os, arch)->0) == "_linux_"@ + reapack_arch_name(
            os,
            arch,
        ) + ".tar.xz"@,
        os == "windows"@ && arch == "x86_64"@ ==> spec_installer_suffix(spec_target_for_build(os, arch)->0) == "_"@
            + reapack_arch_name(os, arch) + "-install.exe"@,
        os == "windows"@ && arch == "x86"@ ==> spec_installer_suffix(spec_target_for_build(os, arch)->0)
            == "-install.exe"@,
        os == "macos"@ && arch == "x86"@ ==> spec_installer_suffix(spec_target_for_build(os, arch)->0) == "_"@
            + reapack_arch_name(os, arch) + ".dmg"@,
        os == "macos"@ && arch != "x86"@ ==> spec_installer_suffix(spec_target_for_build(os, arch)->0)
            == "_universal.dmg"@,
{
    lemma_targets_for_builds();
    reveal_strlit("macos");
    reveal_strlit("windows");
    reveal_strlit("linux");
    reveal_strlit("aarch64");
    reveal_strlit("x86");
    reveal_strlit("x86_64");
    reveal_strlit("arm");
    reveal_strlit("arm64");
    reveal_strlit("i386");
    reveal_strlit("x64");
    reveal_strlit("armv7l");
    reveal_strlit("i686");
    reveal_strlit("_linux_");
    reveal_strlit(".tar.xz");
    reveal_strlit("_");
    reveal_strlit("-install.exe");
    reveal_strlit(".dmg");
    reveal_strlit("_i386.dmg");
    reveal_strlit("_x64-install.exe");
    reveal_strlit("_linux_aarch64.tar.xz");
    reveal_strlit("_linux_armv7l.tar.xz");
    reveal_strlit("_linux_i686.tar.xz");
    reveal_strlit("_linux_x86_64.tar.xz");
    assert("x86"@.len() != "aarch64"@.len());
    assert("x86_64"@.len() != "aarch64"@.len());
    assert("x86_64"@.len() != "x86"@.len());
    assert("arm"@[0] != "x86"@[0]);
    assert("arm"@ != "aarch64"@);
    assert("macos"@[0] != "windows"@[0]);
    assert("linux"@[0] != "windows"@[0]);
    assert("linux"@[0] != "macos"@[0]);
    let t = spec_target_for_build(os, arch)->0;
    if os == "linux"@ {
        assert(spec_installer_suffix(t) =~= "_linux_"@ + reapack_arch_name(os, arch) + ".tar.xz"@);
    }
    if os == "windows"@ && arch == "x86_64"@ {
        assert(spec_installer_suffix(t) =~= "_"@ + reapack_arch_name(os, arch) + "-install.exe"@);
    }
    if os == "macos"@ && arch == "x86"@ {
        assert(spec_installer_suffix(t) =~= "_"@ + reapack_arch_name(os, arch) + ".dmg"@);
    }
}

} // verus!
