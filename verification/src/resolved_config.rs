//! Resolving the installer configuration, and where an installation starts off.

use vstd::prelude::*;

use crate::file_util::{file_or_dir_is_writable_or_creatable, path_exists};
use crate::path::{is_proper_ancestor, spec_path_join};
use crate::installation_stage::{
    counts_addable, multi_download_text, spec_multi_download_text, DownloadInfo, InstallationStage, MultiDownloadInfo, PackageInfo,
};
use crate::package_url::{
    error_kind, latest_model, spec_parse_package_url, PackagePath, PackageUrl, PackageVersionRef, ParsePackageUrlError,
};
use crate::reapack_util::get_default_reapack_shared_lib_file;
use crate::reaper_platform::ReaperPlatform;
use crate::reaper_resource_dir::{is_valid_reaper_resource_dir, ReaperResourceDir};
use crate::reaper_target::ReaperTarget;
use crate::reaper_util::get_default_main_reaper_resource_dir;
use crate::database::{complain_if_reapack_db_too_new, spec_compatibility_info, CompatibilityInfo, DbUserVersion};
use crate::install_args::{reaper_is_installable, InstallerConfig};
use crate::recipe::{features_well_ordered, strings_view, Recipe};
use crate::reaper_resource_dir::ResourceDirError;
use crate::version::{version_ref_model, VersionRef};

verus! {

/// Information that the backend gathers independently of any configuration.
#[derive(Clone, Debug)]
pub struct ReabootBackendInfo {
    /// Resource directory of the main REAPER installation, if it could be determined.
    pub main_reaper_resource_dir: Option<String>,
    /// Whether `reaper.ini` exists in that directory.
    pub main_reaper_ini_exists: bool,
    /// The executable of the main REAPER installation.
    pub main_reaper_exe: String,
    /// Whether that executable exists.
    pub main_reaper_exe_exists: bool,
    /// The REAPER platform of the system ReaBoot was built for.
    pub inherent_reaper_platform: ReaperPlatform,
}

/// Gathers what the backend knows before any configuration: the main REAPER resource directory
/// (`REAPER` in the user's configuration directory, if that can be found) and whether it holds
/// `reaper.ini`, the main REAPER executable `main_reaper_exe` of `inherent_reaper_platform` and
/// whether it exists. Whether files exist depends on the file system, so nothing is claimed
/// about the two flags beyond that there is no `reaper.ini` without a directory.
pub fn collect_backend_info(inherent_reaper_platform: ReaperPlatform, main_reaper_exe: String) -> (r: ReabootBackendInfo)
    ensures
        r.inherent_reaper_platform == inherent_reaper_platform,
        r.main_reaper_exe@ == main_reaper_exe@,
        match r.main_reaper_resource_dir {
            Some(d) => exists|c: Seq<char>| d@ == #[trigger] spec_path_join(c, "REAPER"@),
            None => !r.main_reaper_ini_exists,
        },
{
    let (main_reaper_resource_dir, main_reaper_ini_exists) = match get_default_main_reaper_resource_dir() {
        Some(dir) => {
            let resource_dir = ReaperResourceDir::from(dir);
            let ini_exists = resource_dir.contains_reaper_ini();
            (Some(resource_dir.into_inner()), ini_exists)
        },
        None => (None, false),
    };
    let main_reaper_exe_exists = path_exists(main_reaper_exe.as_str());
    ReabootBackendInfo {
        main_reaper_resource_dir,
        main_reaper_ini_exists,
        main_reaper_exe,
        main_reaper_exe_exists,
        inherent_reaper_platform,
    }
}

/// The installer configuration, resolved.
#[derive(Debug)]
pub struct ResolvedInstallerConfig {
    pub reaper_resource_dir: ReaperResourceDir,
    /// The REAPER executable of this installation.
    pub reaper_exe: String,
    /// Whether the resource directory exists and holds `reaper.ini`.
    pub reaper_ini_exists: bool,
    /// Whether the REAPER executable exists.
    pub reaper_exe_exists: bool,
    /// Whether this is a portable installation (not the main one).
    pub portable: bool,
    /// Whether ReaBoot could install REAPER by itself.
    pub reaper_is_installable: bool,
    pub platform: ReaperPlatform,
    /// The packages to install: configured ones, those installed anyway, and those of the
    /// selected features.
    pub package_urls: Vec<PackageUrl>,
    /// Where backups of modified configuration files go.
    pub backup_dir: String,
    pub num_download_retries: u32,
    pub temp_parent_dir: String,
    pub keep_temp_dir: bool,
    pub concurrent_downloads: u32,
    pub dry_run: bool,
    pub reaper_version: VersionRef,
    pub skip_failed_packages: bool,
    pub install_reaper: bool,
    pub update_reaper: bool,
    pub install_reapack: bool,
    pub recipe: Option<Recipe>,
}

/// Where an installation starts off: nothing is installed without REAPER; with REAPER and
/// packages to install, after the REAPER part; with nothing to install, it is finished.
pub fn determine_initial_installation_stage(resolved_config: &ResolvedInstallerConfig) -> (r: InstallationStage)
    ensures
        !resolved_config.reaper_exe_exists ==> r is NothingInstalled,
        resolved_config.reaper_exe_exists && resolved_config.package_urls.len() > 0 ==> r is InstalledReaper,
        resolved_config.reaper_exe_exists && resolved_config.package_urls.len() == 0 ==> r is Finished,
{
    if !resolved_config.reaper_exe_exists {
        return InstallationStage::NothingInstalled;
    }
    if resolved_config.package_urls.len() > 0 {
        return InstallationStage::InstalledReaper;
    }
    InstallationStage::Finished
}

/// Where the installation process stands (in the earlier form of the installer, where ReaPack
/// was installed as a tool of its own).
#[derive(Clone, Debug)]
pub enum InstallationStatus {
    Initial,
    CheckingLatestReaperVersion,
    DownloadingReaper { download: DownloadInfo },
    InstalledReaper,
    CheckingLatestReaPackVersion,
    DownloadingReaPack { download: DownloadInfo },
    InstalledReaPack,
    DownloadingRepositoryIndexes { download: MultiDownloadInfo },
    ParsingRepositoryIndexes,
    PreparingPackageDownloading,
    DownloadingPackageFiles { download: MultiDownloadInfo },
    InstallingPackage { package: PackageInfo },
    Done,
}

/// The short name of each status.
pub open spec fn spec_status_name(s: InstallationStatus) -> Seq<char> {
    match s {
        InstallationStatus::Initial => "Nothing is installed yet"@,
        InstallationStatus::CheckingLatestReaperVersion => "Checking latest REAPER version"@,
        InstallationStatus::DownloadingReaper { .. } => "Downloading REAPER"@,
        InstallationStatus::InstalledReaper => "REAPER is installed, ReaPack not yet"@,
        InstallationStatus::CheckingLatestReaPackVersion => "Checking latest ReaPack version"@,
        InstallationStatus::DownloadingReaPack { .. } => "Download ReaPack"@,
        InstallationStatus::InstalledReaPack => "REAPER and ReaPack are installed"@,
        InstallationStatus::DownloadingRepositoryIndexes { .. } => "Downloading repository indexes"@,
        InstallationStatus::ParsingRepositoryIndexes => "Parsing repository indexes"@,
        InstallationStatus::PreparingPackageDownloading => "Preparing package downloading"@,
        InstallationStatus::DownloadingPackageFiles { .. } => "Downloading package files"@,
        InstallationStatus::InstallingPackage { .. } => "Installing package"@,
        InstallationStatus::Done => "Done"@,
    }
}

/// The text shown for a status: download progress for the downloads of indexes and package
/// files, nothing while a package is installed, else the short name.
pub open spec fn spec_status_text(s: InstallationStatus) -> Seq<char> {
    match s {
        InstallationStatus::DownloadingRepositoryIndexes { download } => spec_multi_download_text(spec_status_name(s), download),
        InstallationStatus::DownloadingPackageFiles { download } => spec_multi_download_text(spec_status_name(s), download),
        InstallationStatus::InstallingPackage { .. } => Seq::empty(),
        _ => spec_status_name(s),
    }
}

impl InstallationStatus {
    /// The short name of this status.
    pub fn name(&self) -> (r: &'static str)
        ensures
            r@ == spec_status_name(*self),
    {
        match self {
            InstallationStatus::Initial => "Nothing is installed yet",
            InstallationStatus::CheckingLatestReaperVersion => "Checking latest REAPER version",
            InstallationStatus::DownloadingReaper { .. } => "Downloading REAPER",
            InstallationStatus::InstalledReaper => "REAPER is installed, ReaPack not yet",
            InstallationStatus::CheckingLatestReaPackVersion => "Checking latest ReaPack version",
            InstallationStatus::DownloadingReaPack { .. } => "Download ReaPack",
            InstallationStatus::InstalledReaPack => "REAPER and ReaPack are installed",
            InstallationStatus::DownloadingRepositoryIndexes { .. } => "Downloading repository indexes",
            InstallationStatus::ParsingRepositoryIndexes => "Parsing repository indexes",
            InstallationStatus::PreparingPackageDownloading => "Preparing package downloading",
            InstallationStatus::DownloadingPackageFiles { .. } => "Downloading package files",
            InstallationStatus::InstallingPackage { .. } => "Installing package",
            InstallationStatus::Done => "Done",
        }
    }

    /// The text shown for this status; download counts must add up within `u32`.
    pub fn to_display_string(&self) -> (r: String)
        requires
            *self matches InstallationStatus::DownloadingRepositoryIndexes { download } ==> counts_addable(download),
            *self matches InstallationStatus::DownloadingPackageFiles { download } ==> counts_addable(download),
        ensures
            r@ == spec_status_text(*self),
    {
        let name = self.name();
        match self {
            InstallationStatus::DownloadingRepositoryIndexes { download } => multi_download_text(name, *download),
            InstallationStatus::DownloadingPackageFiles { download } => multi_download_text(name, *download),
            InstallationStatus::InstallingPackage { .. } => String::new(),
            _ => name.to_owned(),
        }
    }
}

/// The status for what is installed already: nothing without REAPER, then REAPER alone, then
/// REAPER and ReaPack.
pub fn installation_status_from(reaper_installed: bool, reapack_installed: bool) -> (r: InstallationStatus)
    ensures
        !reaper_installed ==> r is Initial,
        reaper_installed && !reapack_installed ==> r is InstalledReaper,
        reaper_installed && reapack_installed ==> r is InstalledReaPack,
{
    if !reaper_installed {
        return InstallationStatus::Initial;
    }
    if !reapack_installed {
        return InstallationStatus::InstalledReaper;
    }
    InstallationStatus::InstalledReaPack
}

/// Where an installation into `reaper_resource_dir` starts off: whether REAPER is installed
/// there (`reaper.ini` exists) and, if so, whether the ReaPack library for `reaper_target`
/// exists in its `UserPlugins` directory. The answers depend on the file system.
pub fn determine_initial_installation_status(reaper_resource_dir: &str, reaper_target: ReaperTarget) -> (r: InstallationStatus)
    ensures
        r is Initial || r is InstalledReaper || r is InstalledReaPack,
{
    let reaper_installed = is_valid_reaper_resource_dir(reaper_resource_dir);
    if !reaper_installed {
        return installation_status_from(false, false);
    }
    let dir = ReaperResourceDir::from(reaper_resource_dir.to_owned());
    let lib = get_default_reapack_shared_lib_file(&dir, reaper_target.to_platform());
    let reapack_installed = path_exists(lib.as_str());
    installation_status_from(true, reapack_installed)
}

/// The configuration that the frontend sends.
#[derive(Clone, Debug)]
pub struct ReabootConfig {
    /// A custom REAPER resource directory, likely of a portable installation; `None` means the
    /// main installation.
    pub custom_reaper_resource_dir: Option<String>,
    /// Packages to install in addition.
    pub package_urls: Vec<String>,
    /// A custom REAPER target.
    pub custom_reaper_target: Option<ReaperTarget>,
}

/// The configuration, resolved.
#[derive(Clone, Debug)]
pub struct ResolvedReabootConfig {
    /// The REAPER resource directory to install into.
    pub reaper_resource_dir: String,
    /// Whether that is a portable installation (not the main one).
    pub portable: bool,
    pub reaper_target: ReaperTarget,
}

/// Why the configuration could not be resolved.
#[derive(Copy, Clone, PartialEq, Eq, Structural, Debug)]
pub enum ResolveConfigError {
    /// The home directory (and so the main resource directory) is unknown.
    UnableToIdentifyHomeDir,
    /// ReaBoot runs on a platform that REAPER does not support, and no target was chosen.
    RequireCustomReaperTarget,
}

/// Whether `Path` compares the two paths equal (component by component).
pub uninterp spec fn spec_paths_equal(a: Seq<char>, b: Seq<char>) -> bool;

/// `Path::eq`. Claims only that the result is [`spec_paths_equal`] of the two paths.
#[verifier::external_body]
fn paths_equal(a: &str, b: &str) -> (r: bool)
    ensures
        r == spec_paths_equal(a@, b@),
{
    std::path::Path::new(a) == std::path::Path::new(b)
}

/// Resolves `config`, given the main resource directory (`None` if unknown) and the target of
/// the build (`None` if REAPER does not support it): the custom directory if there is one
/// (portable unless it is the main directory), else the main one; the custom target if
/// there is one, else that of the build.
pub fn resolve_config_with(
    config: &ReabootConfig,
    main_reaper_resource_dir: Option<String>,
    build_target: Option<ReaperTarget>,
) -> (r: Result<ResolvedReabootConfig, ResolveConfigError>)
    ensures
        main_reaper_resource_dir is None ==> r == Err::<ResolvedReabootConfig, ResolveConfigError>(
            ResolveConfigError::UnableToIdentifyHomeDir,
        ),
        main_reaper_resource_dir is Some && config.custom_reaper_target is None && build_target is None ==> r == Err::<
            ResolvedReabootConfig,
            ResolveConfigError,
        >(ResolveConfigError::RequireCustomReaperTarget),
        r matches Ok(c) ==> main_reaper_resource_dir is Some && c.reaper_target == match config.custom_reaper_target {
            Some(t) => t,
            None => build_target->0,
        } && match config.custom_reaper_resource_dir {
            None => c.reaper_resource_dir@ == main_reaper_resource_dir->0@ && !c.portable,
            Some(d) => c.reaper_resource_dir@ == d@ && c.portable == !spec_paths_equal(d@, main_reaper_resource_dir->0@),
        },
        main_reaper_resource_dir is Some && (config.custom_reaper_target is Some || build_target is Some) ==> r is Ok,
{
    let main = match main_reaper_resource_dir {
        Some(m) => m,
        None => {
            return Err(ResolveConfigError::UnableToIdentifyHomeDir);
        },
    };
    let reaper_target = match config.custom_reaper_target {
        Some(t) => t,
        None => match build_target {
            Some(t) => t,
            None => {
                return Err(ResolveConfigError::RequireCustomReaperTarget);
            },
        },
    };
    match &config.custom_reaper_resource_dir {
        None => Ok(ResolvedReabootConfig { reaper_resource_dir: main, portable: false, reaper_target }),
        Some(dir) => {
            let portable = !paths_equal(dir.as_str(), main.as_str());
            Ok(ResolvedReabootConfig { reaper_resource_dir: dir.clone(), portable, reaper_target })
        },
    }
}

/// Whether the resource directory `dir` is a portable installation: whether it is another
/// path than the main resource directory `main_dir`, as `Path` compares them.
pub fn is_portable(dir: &str, main_dir: &str) -> (r: bool)
    ensures
        r == !spec_paths_equal(dir@, main_dir@),
{
    !paths_equal(dir, main_dir)
}

/// Resolves `config` for the build target `build_target`, looking up the main resource
/// directory (`REAPER` in the user's configuration directory). Whether that directory can be
/// found depends on the environment; otherwise resolving fails only for want of a target.
pub fn resolve_config(config: &ReabootConfig, build_target: Option<ReaperTarget>) -> (r: Result<ResolvedReabootConfig, ResolveConfigError>)
    ensures
        r matches Ok(c) ==> c.reaper_target == match config.custom_reaper_target {
            Some(t) => t,
            None => build_target->0,
        },
        config.custom_reaper_target is None && build_target is None ==> r is Err,
        (config.custom_reaper_target is Some || build_target is Some) ==> (r is Ok || r == Err::<
            ResolvedReabootConfig,
            ResolveConfigError,
        >(ResolveConfigError::UnableToIdentifyHomeDir)),
        r matches Ok(c) ==> exists|home: Seq<char>|
            match config.custom_reaper_resource_dir {
                None => c.reaper_resource_dir@ == #[trigger] spec_path_join(home, "REAPER"@) && !c.portable,
                Some(d) => c.reaper_resource_dir@ == d@ && c.portable == !spec_paths_equal(
                    d@,
                    spec_path_join(home, "REAPER"@),
                ),
            },
{
    let main = get_default_main_reaper_resource_dir();
    resolve_config_with(config, main, build_target)
}


/// The package URL of ReaPack itself, which every installation includes: good for updates from
/// within REAPER, and needed for scripts to be registered at runtime.
pub fn create_reapack_package_url() -> (r: PackageUrl)
    ensures
        r@ == create_reapack_package_url_view(),
{
    let path = PackagePath::from_parts("Extensions".to_owned(), "ReaPack.ext".to_owned());
    let version_ref = PackageVersionRef::from_parts(path, VersionRef::Latest);
    PackageUrl::from_parts("https://reapack.com/index.xml".to_owned(), version_ref)
}

/// `input` reads as a package URL.
pub open spec fn reads_as_package_url(input: Seq<char>) -> bool {
    spec_parse_package_url(input) matches Some(Ok(_))
}

/// Reading `input` as a package URL fails with `e`.
pub open spec fn package_url_fails_with(input: Seq<char>, e: ParsePackageUrlError) -> bool {
    match e {
        ParsePackageUrlError::InvalidUrl(_) => spec_parse_package_url(input) is None,
        _ => spec_parse_package_url(input) == Some(
            Err::<(Seq<char>, ((Seq<char>, Seq<char>), (int, Seq<char>))), int>(error_kind(e)),
        ),
    }
}

/// `v` holds the readings of all of `urls`, in order.
pub open spec fn all_read(urls: Seq<String>, v: Seq<PackageUrl>) -> bool {
    &&& v.len() == urls.len()
    &&& forall|i: int| 0 <= i < urls.len() ==> spec_parse_package_url(#[trigger] urls[i]@) == Some(Ok::<_, int>(v[i]@))
}

/// `e` is how the first unreadable one of `urls` fails.
pub open spec fn first_failure(urls: Seq<String>, e: ParsePackageUrlError) -> bool {
    exists|i: int|
        0 <= i < urls.len() && (forall|j: int| 0 <= j < i ==> reads_as_package_url(#[trigger] urls[j]@))
            && package_url_fails_with(#[trigger] urls[i]@, e)
}

/// Reads each of `urls` as package URL, in order; the first one that cannot be read ends the
/// reading with its error.
pub fn parse_package_urls(urls: &Vec<String>) -> (r: Result<Vec<PackageUrl>, ParsePackageUrlError>)
    ensures
        match r {
            Ok(v) => all_read(urls@, v@),
            Err(e) => first_failure(urls@, e),
        },
{
    let mut out: Vec<PackageUrl> = Vec::new();
    let mut i: usize = 0;
    while i < urls.len()
        invariant
            i <= urls.len(),
            all_read(urls@.take(i as int), out@),
        decreases urls.len() - i,
    {
        match PackageUrl::parse(urls[i].as_str()) {
            Ok(u) => {
                out.push(u);
                proof {
                    assert forall|k: int| 0 <= k < i + 1 implies spec_parse_package_url(#[trigger] urls@.take(i + 1)[k]@)
                        == Some(Ok::<_, int>(out@[k]@)) by {
                        if k < i {
                            assert(urls@.take(i + 1)[k] == urls@.take(i as int)[k]);
                        }
                    }
                }
            },
            Err(e) => {
                proof {
                    assert forall|j: int| 0 <= j < i implies reads_as_package_url(#[trigger] urls@[j]@) by {
                        assert(urls@.take(i as int)[j] == urls@[j]);
                    }
                    assert(package_url_fails_with(urls@[i as int]@, e));
                }
                return Err(e);
            },
        }
        i = i + 1;
    }
    assert(urls@.take(urls.len() as int) =~= urls@);
    Ok(out)
}

/// Which list of package URLs held one that could not be read.
#[derive(Debug)]
pub enum PackageUrlsError {
    /// One of the package URLs that the user provided.
    UserProvided(ParsePackageUrlError),
    /// One of the package URLs of the recipe.
    Recipe(ParsePackageUrlError),
}

/// The package URLs to install: those the user provided, then ReaPack itself, then those of the
/// recipe, if any. An unreadable URL among the user's is reported before one of the recipe.
pub fn resolve_package_urls(user_urls: &Vec<String>, recipe_urls: Option<&Vec<String>>) -> (r: Result<
    Vec<PackageUrl>,
    PackageUrlsError,
>)
    ensures
        match r {
            Ok(v) => {
                let n = user_urls@.len() as int;
                &&& all_read(user_urls@, v@.take(n))
                &&& v@[n]@ == create_reapack_package_url_view()
                &&& match recipe_urls {
                    None => v@.len() == n + 1,
                    Some(ru) => all_read(ru@, v@.skip(n + 1)),
                }
            },
            Err(PackageUrlsError::UserProvided(e)) => first_failure(user_urls@, e),
            Err(PackageUrlsError::Recipe(e)) => (exists|v: Seq<PackageUrl>| all_read(user_urls@, v)) && match recipe_urls {
                Some(ru) => first_failure(ru@, e),
                None => false,
            },
        },
{
    let mut urls = match parse_package_urls(user_urls) {
        Ok(v) => v,
        Err(e) => return Err(PackageUrlsError::UserProvided(e)),
    };
    let ghost user = urls@;
    urls.push(create_reapack_package_url());
    match recipe_urls {
        None => {
            assert(urls@.take(user_urls@.len() as int) =~= user);
            Ok(urls)
        },
        Some(ru) => match parse_package_urls(ru) {
            Ok(mut more) => {
                let ghost extra = more@;
                let ghost with_reapack = urls@;
                urls.append(&mut more);
                proof {
                    assert(urls@.take(user_urls@.len() as int) =~= user);
                    assert(urls@.skip(user_urls@.len() as int + 1) =~= extra);
                    assert(urls@[user_urls@.len() as int] == with_reapack[user_urls@.len() as int]);
                }
                Ok(urls)
            },
            Err(e) => Err(PackageUrlsError::Recipe(e)),
        },
    }
}

/// The abstract value of ReaPack's own package URL.
pub open spec fn create_reapack_package_url_view() -> (Seq<char>, ((Seq<char>, Seq<char>), (int, Seq<char>))) {
    ("https://reapack.com/index.xml"@, (("Extensions"@, "ReaPack.ext"@), latest_model()))
}

/// Why no directory for temporary files could be chosen.
#[derive(Copy, Clone, PartialEq, Eq, Structural, Debug)]
pub enum TempParentDirError {
    /// The directory the user asked for is neither writable nor creatable.
    CustomNotWritable,
}

/// What [`resolve_temp_parent_dir`] decides once it knows whether its candidate is usable
/// (writable or creatable): the candidate is the directory the user asked for, where there is
/// one, and `temp_reaboot_dir` otherwise. A directory the user asked for is taken if usable and
/// refused otherwise; without one, `temp_reaboot_dir` is taken if usable and `os_temp_dir`
/// otherwise.
pub fn temp_parent_dir_verdict(
    custom: Option<String>,
    temp_reaboot_dir: String,
    os_temp_dir: String,
    candidate_usable: bool,
) -> (r: Result<String, TempParentDirError>)
    ensures
        match custom {
            Some(d) => if candidate_usable {
                r matches Ok(t) && t@ == d@
            } else {
                r == Err::<String, TempParentDirError>(TempParentDirError::CustomNotWritable)
            },
            None => if candidate_usable {
                r matches Ok(t) && t@ == temp_reaboot_dir@
            } else {
                r matches Ok(t) && t@ == os_temp_dir@
            },
        },
{
    match custom {
        Some(d) => if candidate_usable {
            Ok(d)
        } else {
            Err(TempParentDirError::CustomNotWritable)
        },
        None => if candidate_usable {
            Ok(temp_reaboot_dir)
        } else {
            Ok(os_temp_dir)
        },
    }
}

/// Chooses the parent directory of all temporary files. A directory the user asked for must be
/// writable or creatable. Otherwise the `temp_reaboot_dir` inside the REAPER resource directory
/// is preferred, so that the final moves are cheap renames on the same mount; where that is not
/// writable or creatable, the operating system's temporary directory `os_temp_dir` is taken.
/// `existing_is_writable` answers for an existing path; [`temp_parent_dir_verdict`] decides.
pub fn resolve_temp_parent_dir<F: Fn(&str) -> bool>(
    custom: Option<String>,
    temp_reaboot_dir: String,
    os_temp_dir: String,
    existing_is_writable: F,
) -> (r: Result<String, TempParentDirError>)
    requires
        forall|p: &str| existing_is_writable.requires((p,)),
    ensures
        match custom {
            Some(d) => match r {
                Ok(t) => t@ == d@ && exists|p: &str| #[trigger] existing_is_writable.ensures((p,), true) && (p@ == d@
                    || is_proper_ancestor(d@, p@)),
                Err(e) => e == TempParentDirError::CustomNotWritable,
            },
            None => match r {
                Ok(t) => t@ == os_temp_dir@ || (t@ == temp_reaboot_dir@ && exists|p: &str| #[trigger] existing_is_writable.ensures((p,), true)
                    && (p@ == temp_reaboot_dir@ || is_proper_ancestor(temp_reaboot_dir@, p@))),
                Err(_) => false,
            },
        },
{
    let usable = match &custom {
        Some(d) => file_or_dir_is_writable_or_creatable(d.as_str(), existing_is_writable),
        None => file_or_dir_is_writable_or_creatable(temp_reaboot_dir.as_str(), existing_is_writable),
    };
    temp_parent_dir_verdict(custom, temp_reaboot_dir, os_temp_dir, usable)
}


/// Why the installer configuration could not be resolved.
#[derive(Debug)]
pub enum ResolveInstallerConfigError {
    /// The home directory (and so the main resource directory) is unknown.
    UnableToIdentifyHomeDir,
    /// ReaBoot runs on a platform that REAPER does not support, and no platform was chosen.
    RequireCustomPlatform,
    /// The recipe's features are not in ascending order of id, each id once.
    RecipeFeaturesNotOrdered,
    /// The custom resource directory cannot be used.
    ResourceDir(ResourceDirError),
    /// The installed ReaPack database is too new; the message says what to do.
    ReapackDbTooNew(String),
    /// The custom directory for temporary files cannot be used.
    TempParentDir(TempParentDirError),
    /// A package URL could not be read.
    PackageUrls(PackageUrlsError),
}

/// The number of download retries when none is configured.
pub const DEFAULT_NUM_DOWNLOAD_RETRIES: u32 = 3;

/// The number of concurrent downloads when none is configured.
pub const DEFAULT_CONCURRENT_DOWNLOADS: u32 = 5;

/// Resolves the installer configuration `config`, filling in the defaults: 3 download retries,
/// 5 concurrent downloads, the latest REAPER version, the platform of the build, REAPER and
/// ReaPack to be installed, and the ReaPack package among the packages.
///
/// What the environment and the file system answer comes in as arguments:
/// `main_reaper_resource_dir` (the main resource directory, if the home directory is known),
/// `build_platform`, `host_os_is_macos`, `generated_installation_id` (used for the backup
/// directory when `config` gives no installation ID), `os_temp_dir`, the functions that
/// [`ReaperResourceDir::new`] takes, `reaper_exe_for` (the REAPER executable of a resource
/// directory, portable or not, for a platform), `read_db_user_version` (the user version of the
/// ReaPack database at a path, if there is a readable one) and `existing_is_writable`.
///
/// The steps, in order: the main resource directory, the platform, the recipe's shape, the
/// resource directory and whether it is portable, the REAPER executable, the ReaPack database
/// check, the directory for temporary files ([`resolve_temp_parent_dir`]), and the package URLs
/// ([`resolve_package_urls`] with the recipe's packages for the selected features).
pub fn resolve_installer_config<E, C, D, X, V, F>(
    config: InstallerConfig,
    main_reaper_resource_dir: Option<String>,
    build_platform: Option<ReaperPlatform>,
    host_os_is_macos: bool,
    generated_installation_id: String,
    os_temp_dir: String,
    dir_is_empty: E,
    canonicalize: C,
    current_dir: D,
    reaper_exe_for: X,
    read_db_user_version: V,
    existing_is_writable: F,
) -> (r: Result<ResolvedInstallerConfig, ResolveInstallerConfigError>)
    where
        E: FnOnce(&str) -> bool,
        C: FnOnce(String) -> Result<String, String>,
        D: FnOnce() -> Result<String, String>,
        X: FnOnce(String, bool, ReaperPlatform) -> String,
        V: FnOnce(String) -> Option<DbUserVersion>,
        F: Fn(&str) -> bool,
    requires
        forall|p: &str| dir_is_empty.requires((p,)),
        forall|d: String| canonicalize.requires((d,)),
        current_dir.requires(()),
        forall|d: String, portable: bool, platform: ReaperPlatform| reaper_exe_for.requires((d, portable, platform)),
        forall|f: String| read_db_user_version.requires((f,)),
        forall|p: &str| existing_is_writable.requires((p,)),
    ensures
        main_reaper_resource_dir is None ==> r matches Err(ResolveInstallerConfigError::UnableToIdentifyHomeDir),
        main_reaper_resource_dir is Some && config.custom_platform is None && build_platform is None ==> r matches Err(
            ResolveInstallerConfigError::RequireCustomPlatform,
        ),
        main_reaper_resource_dir is Some && (config.custom_platform is Some || build_platform is Some) && (
        config.recipe matches Some(rc) && rc.features matches Some(f) && !features_well_ordered(f@)) ==> r matches Err(
            ResolveInstallerConfigError::RecipeFeaturesNotOrdered,
        ),
        r matches Err(ResolveInstallerConfigError::ResourceDir(_)) ==> config.custom_reaper_resource_dir is Some,
        r matches Err(ResolveInstallerConfigError::ReapackDbTooNew(m)) ==> m@ == crate::database::db_too_new_message()
            && exists|f: String, v: DbUserVersion|
            #[trigger] read_db_user_version.ensures((f,), Some(v)) && spec_compatibility_info(v) == CompatibilityInfo::DbTooNew,
        r matches Err(ResolveInstallerConfigError::TempParentDir(_)) ==> config.temp_parent_dir is Some,
        r matches Err(ResolveInstallerConfigError::PackageUrls(PackageUrlsError::UserProvided(e))) ==> first_failure(
            config.package_urls@,
            e,
        ),
        r matches Ok(c) ==> {
            &&& main_reaper_resource_dir is Some
            &&& c.platform == match config.custom_platform {
                Some(p) => p,
                None => build_platform->0,
            }
            &&& match config.custom_reaper_resource_dir {
                None => c.reaper_resource_dir@ == main_reaper_resource_dir->0@ && !c.portable,
                Some(_) => c.portable == !spec_paths_equal(c.reaper_resource_dir@, main_reaper_resource_dir->0@),
            }
            &&& c.reaper_is_installable == (c.portable || !host_os_is_macos)
            &&& exists|d: String| d@ == c.reaper_resource_dir@ && #[trigger] reaper_exe_for.ensures(
                (d, c.portable, c.platform),
                c.reaper_exe,
            )
            &&& c.backup_dir@ == spec_path_join(
                spec_path_join(spec_path_join(c.reaper_resource_dir@, "ReaBoot"@), "backups"@),
                match config.installation_id {
                    Some(i) => i@,
                    None => generated_installation_id@,
                },
            )
            &&& match config.temp_parent_dir {
                Some(d) => c.temp_parent_dir@ == d@,
                None => c.temp_parent_dir@ == os_temp_dir@ || c.temp_parent_dir@ == spec_path_join(
                    c.reaper_resource_dir@,
                    "ReaBoot"@,
                ),
            }
            &&& all_read(config.package_urls@, c.package_urls@.take(config.package_urls@.len() as int))
            &&& c.package_urls@[config.package_urls@.len() as int]@ == create_reapack_package_url_view()
            &&& match config.recipe {
                None => c.package_urls@.len() == config.package_urls@.len() + 1,
                Some(rc) => exists|ru: Seq<String>|
                    #[trigger] strings_view(ru) == rc.all_packages(strings_view(config.selected_features@)) && all_read(
                        ru,
                        c.package_urls@.skip(config.package_urls@.len() as int + 1),
                    ),
            }
            &&& c.num_download_retries == match config.num_download_retries {
                Some(n) => n,
                None => 3u32,
            }
            &&& c.concurrent_downloads == match config.concurrent_downloads {
                Some(n) => n,
                None => 5u32,
            }
            &&& version_ref_model(c.reaper_version) == match config.reaper_version {
                Some(v) => version_ref_model(v),
                None => latest_model(),
            }
            &&& c.keep_temp_dir == config.keep_temp_dir
            &&& c.dry_run == config.dry_run
            &&& c.skip_failed_packages == config.skip_failed_packages
            &&& c.install_reaper == match config.install_reaper {
                Some(b) => b,
                None => true,
            }
            &&& c.update_reaper == config.update_reaper
            &&& c.install_reapack == match config.install_reapack {
                Some(b) => b,
                None => true,
            }
            &&& c.recipe == config.recipe
        },
{
    let main = match main_reaper_resource_dir {
        Some(m) => m,
        None => return Err(ResolveInstallerConfigError::UnableToIdentifyHomeDir),
    };
    let platform = match config.custom_platform {
        Some(p) => p,
        None => match build_platform {
            Some(p) => p,
            None => return Err(ResolveInstallerConfigError::RequireCustomPlatform),
        },
    };
    if let Some(rc) = &config.recipe {
        if !rc.has_well_ordered_features() {
            return Err(ResolveInstallerConfigError::RecipeFeaturesNotOrdered);
        }
    }
    let InstallerConfig {
        custom_reaper_resource_dir,
        custom_platform: _,
        package_urls,
        num_download_retries,
        temp_parent_dir,
        installation_id,
        keep_temp_dir,
        concurrent_downloads,
        dry_run,
        reaper_version,
        skip_failed_packages,
        recipe,
        selected_features,
        install_reaper,
        update_reaper,
        install_reapack,
    } = config;
    let (reaper_resource_dir, portable) = match custom_reaper_resource_dir {
        None => (ReaperResourceDir::from(main), false),
        Some(d) => match ReaperResourceDir::new(d, dir_is_empty, canonicalize, current_dir) {
            Ok(dir) => {
                let portable = !paths_equal(dir.get(), main.as_str());
                (dir, portable)
            },
            Err(e) => return Err(ResolveInstallerConfigError::ResourceDir(e)),
        },
    };
    let dir_text = reaper_resource_dir.get().to_owned();
    let ghost dt = dir_text;
    let reaper_exe = reaper_exe_for(dir_text, portable, platform);
    assert(dt@ == reaper_resource_dir@ && reaper_exe_for.ensures((dt, portable, platform), reaper_exe));
    let db_file = reaper_resource_dir.reapack_registry_db_file();
    let db_version = read_db_user_version(db_file);
    match complain_if_reapack_db_too_new(db_version) {
        Ok(()) => {},
        Err(m) => return Err(ResolveInstallerConfigError::ReapackDbTooNew(m)),
    }
    let temp_parent_dir = match resolve_temp_parent_dir(
        temp_parent_dir,
        reaper_resource_dir.temp_reaboot_dir(),
        os_temp_dir,
        existing_is_writable,
    ) {
        Ok(t) => t,
        Err(e) => return Err(ResolveInstallerConfigError::TempParentDir(e)),
    };
    let recipe_urls = match &recipe {
        Some(rc) => Some(rc.resolve_all_packages(&selected_features)),
        None => None,
    };
    let package_urls = match resolve_package_urls(&package_urls, recipe_urls.as_ref()) {
        Ok(u) => u,
        Err(e) => return Err(ResolveInstallerConfigError::PackageUrls(e)),
    };
    let id = match installation_id {
        Some(i) => i,
        None => generated_installation_id,
    };
    let backup_dir = crate::path::path_join(reaper_resource_dir.backup_parent_dir().as_str(), id.as_str());
    let reaper_ini_exists = reaper_resource_dir.contains_reaper_ini();
    let reaper_exe_exists = path_exists(reaper_exe.as_str());
    let resolved = ResolvedInstallerConfig {
        reaper_resource_dir,
        reaper_exe,
        reaper_ini_exists,
        reaper_exe_exists,
        portable,
        reaper_is_installable: reaper_is_installable(portable, host_os_is_macos),
        platform,
        package_urls,
        backup_dir,
        num_download_retries: match num_download_retries {
            Some(n) => n,
            None => DEFAULT_NUM_DOWNLOAD_RETRIES,
        },
        temp_parent_dir,
        keep_temp_dir,
        concurrent_downloads: match concurrent_downloads {
            Some(n) => n,
            None => DEFAULT_CONCURRENT_DOWNLOADS,
        },
        dry_run,
        reaper_version: match reaper_version {
            Some(v) => v,
            None => VersionRef::Latest,
        },
        skip_failed_packages,
        install_reaper: match install_reaper {
            Some(b) => b,
            None => true,
        },
        update_reaper,
        install_reapack: match install_reapack {
            Some(b) => b,
            None => true,
        },
        recipe,
    };
    assert(dt@ == resolved.reaper_resource_dir@ && reaper_exe_for.ensures(
        (dt, resolved.portable, resolved.platform),
        resolved.reaper_exe,
    ));
    Ok(resolved)
}

} // verus!
