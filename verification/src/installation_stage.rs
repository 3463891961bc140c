//! Stages of the installation process and how they are shown.

use vstd::prelude::*;

use crate::reapack_util::get_default_reapack_shared_lib_file;
use crate::reaper_resource_dir::is_valid_reaper_resource_dir;
use crate::reaper_target::ReaperTarget;
use crate::file_util::path_exists;
use crate::text::{concat2, concat3, decimal, spec_decimal};

verus! {

/// A file download in progress.
#[derive(Clone, Debug)]
pub struct DownloadInfo {
    /// A label for people.
    pub label: String,
    /// Where the file comes from.
    pub url: String,
    /// Where the file goes on the local file system.
    pub file: String,
}

/// Progress of several downloads at once.
#[derive(Copy, Clone, PartialEq, Eq, Structural, Debug)]
pub struct MultiDownloadInfo {
    pub in_progress_count: u32,
    pub success_count: u32,
    pub error_count: u32,
    pub total_count: u32,
}

/// Basic information about a package.
#[derive(Clone, Debug)]
pub struct PackageInfo {
    pub name: String,
}

/// A question to the user.
#[derive(Clone, Debug)]
pub struct ConfirmationRequest {
    pub message: String,
    pub yes_label: String,
    pub no_label: Option<String>,
}

/// An error as shown to the user.
#[derive(Clone, Debug)]
pub struct ReabootError {
    pub display_msg: String,
}

/// Where the installation process stands.
#[derive(Clone, Debug)]
pub enum InstallationStage {
    NothingInstalled,
    CheckingLatestReaperVersion,
    DownloadingReaper { download: DownloadInfo },
    PreparingReaper,
    InstalledReaper,
    PreparingTempDirectory,
    DownloadingRepositoryIndexes { download: MultiDownloadInfo },
    ParsingRepositoryIndexes,
    PreparingPackageDownloading,
    DownloadingPackageFiles { download: MultiDownloadInfo },
    PreparingReaPackState,
    InstallingReaper,
    ApplyingReaPackState,
    InstallingPackage { package: PackageInfo },
    Failed { display_msg: String },
    Finished,
}

/// The short name of each stage.
pub open spec fn spec_stage_name(s: InstallationStage) -> Seq<char> {
    match s {
        InstallationStage::NothingInstalled => "Nothing is installed yet"@,
        InstallationStage::CheckingLatestReaperVersion => "Checking latest REAPER version"@,
        InstallationStage::DownloadingReaper { .. } => "Downloading REAPER"@,
        InstallationStage::PreparingReaper => "Preparing REAPER"@,
        InstallationStage::InstalledReaper => "REAPER is installed, ReaPack not yet"@,
        InstallationStage::PreparingTempDirectory => "Preparing temporary directory"@,
        InstallationStage::DownloadingRepositoryIndexes { .. } => "Downloading repository indexes"@,
        InstallationStage::ParsingRepositoryIndexes => "Parsing repository indexes"@,
        InstallationStage::PreparingPackageDownloading => "Preparing package downloading"@,
        InstallationStage::DownloadingPackageFiles { .. } => "Downloading package files"@,
        InstallationStage::PreparingReaPackState => "Updating ReaPack state"@,
        InstallationStage::InstallingReaper => "Installing REAPER"@,
        InstallationStage::ApplyingReaPackState => "Applying ReaPack state"@,
        InstallationStage::InstallingPackage { .. } => "Installing package"@,
        InstallationStage::Failed { .. } => "Installation failed"@,
        InstallationStage::Finished => "Finished successfully"@,
    }
}

/// The position of each stage in the order of the process.
pub open spec fn spec_stage_rank(s: InstallationStage) -> int {
    match s {
        InstallationStage::NothingInstalled => 0,
        InstallationStage::CheckingLatestReaperVersion => 1,
        InstallationStage::DownloadingReaper { .. } => 2,
        InstallationStage::PreparingReaper => 3,
        InstallationStage::InstalledReaper => 4,
        InstallationStage::PreparingTempDirectory => 5,
        InstallationStage::DownloadingRepositoryIndexes { .. } => 6,
        InstallationStage::ParsingRepositoryIndexes => 7,
        InstallationStage::PreparingPackageDownloading => 8,
        InstallationStage::DownloadingPackageFiles { .. } => 9,
        InstallationStage::PreparingReaPackState => 10,
        InstallationStage::InstallingReaper => 11,
        InstallationStage::ApplyingReaPackState => 12,
        InstallationStage::InstallingPackage { .. } => 13,
        InstallationStage::Failed { .. } => 14,
        InstallationStage::Finished => 15,
    }
}

/// `Name: Downloaded {done} of {total}`, followed by ` ({errors} errors)` if there are any;
/// done downloads are the successful and the failed ones.
pub open spec fn spec_multi_download_text(name: Seq<char>, d: MultiDownloadInfo) -> Seq<char> {
    name + ": Downloaded "@ + spec_decimal((d.success_count + d.error_count) as nat) + " of "@ + spec_decimal(
        d.total_count as nat,
    ) + if d.error_count > 0 {
        " ("@ + spec_decimal(d.error_count as nat) + " errors)"@
    } else {
        Seq::empty()
    }
}

/// What the `Debug` form of `Path::file_name` gives for a path: the file name quoted and
/// escaped, or nothing where the path has no file name.
pub uninterp spec fn spec_debug_file_name(file: Seq<char>) -> Option<Seq<char>>;

/// `Path::file_name`, formatted with `Debug`. Claims only that the result is
/// [`spec_debug_file_name`] of the path.
#[verifier::external_body]
fn debug_file_name(file: &str) -> (r: Option<String>)
    ensures
        match r {
            Some(s) => spec_debug_file_name(file@) == Some(s@),
            None => spec_debug_file_name(file@) is None,
        },
{
    match std::path::Path::new(file).file_name() {
        Some(n) => Some(format!("{:?}", n)),
        None => None,
    }
}

/// The text shown for a stage, where the file being downloaded has a name: the short name,
/// with details for downloads, the package being installed and failures.
pub open spec fn spec_stage_text(s: InstallationStage, debug_file_name: Seq<char>) -> Seq<char> {
    let name = spec_stage_name(s);
    match s {
        InstallationStage::DownloadingReaper { download } => name + " "@ + download.label@ + " ("@ + debug_file_name + ")"@,
        InstallationStage::DownloadingRepositoryIndexes { download } => spec_multi_download_text(name, download),
        InstallationStage::DownloadingPackageFiles { download } => spec_multi_download_text(name, download),
        InstallationStage::InstallingPackage { package } => name + ": "@ + package.name@,
        InstallationStage::Failed { display_msg } => name + ": "@ + display_msg@,
        _ => name,
    }
}

/// Whether the counts of a download can be added up without overflow.
pub open spec fn counts_addable(d: MultiDownloadInfo) -> bool {
    d.success_count + d.error_count <= u32::MAX
}

pub(crate) fn multi_download_text(name: &str, d: MultiDownloadInfo) -> (r: String)
    requires
        counts_addable(d),
    ensures
        r@ == spec_multi_download_text(name@, d),
{
    let done = decimal((d.success_count + d.error_count) as usize);
    let total = decimal(d.total_count as usize);
    let a = concat3(name, ": Downloaded ", done.as_str());
    let mut r = concat3(a.as_str(), " of ", total.as_str());
    if d.error_count > 0 {
        let e = decimal(d.error_count as usize);
        let tail = concat3(" (", e.as_str(), " errors)");
        r = r.concat(tail.as_str());
    }
    r
}

impl InstallationStage {
    /// The short name of this stage.
    pub fn name(&self) -> (r: &'static str)
        ensures
            r@ == spec_stage_name(*self),
    {
        match self {
            InstallationStage::NothingInstalled => "Nothing is installed yet",
            InstallationStage::CheckingLatestReaperVersion => "Checking latest REAPER version",
            InstallationStage::DownloadingReaper { .. } => "Downloading REAPER",
            InstallationStage::PreparingReaper => "Preparing REAPER",
            InstallationStage::InstalledReaper => "REAPER is installed, ReaPack not yet",
            InstallationStage::PreparingTempDirectory => "Preparing temporary directory",
            InstallationStage::DownloadingRepositoryIndexes { .. } => "Downloading repository indexes",
            InstallationStage::ParsingRepositoryIndexes => "Parsing repository indexes",
            InstallationStage::PreparingPackageDownloading => "Preparing package downloading",
            InstallationStage::DownloadingPackageFiles { .. } => "Downloading package files",
            InstallationStage::PreparingReaPackState => "Updating ReaPack state",
            InstallationStage::InstallingReaper => "Installing REAPER",
            InstallationStage::ApplyingReaPackState => "Applying ReaPack state",
            InstallationStage::InstallingPackage { .. } => "Installing package",
            InstallationStage::Failed { .. } => "Installation failed",
            InstallationStage::Finished => "Finished successfully",
        }
    }

    /// The position of this stage in the order of the process (stages compare by it).
    pub fn rank(&self) -> (r: u32)
        ensures
            r == spec_stage_rank(*self),
    {
        match self {
            InstallationStage::NothingInstalled => 0,
            InstallationStage::CheckingLatestReaperVersion => 1,
            InstallationStage::DownloadingReaper { .. } => 2,
            InstallationStage::PreparingReaper => 3,
            InstallationStage::InstalledReaper => 4,
            InstallationStage::PreparingTempDirectory => 5,
            InstallationStage::DownloadingRepositoryIndexes { .. } => 6,
            InstallationStage::ParsingRepositoryIndexes => 7,
            InstallationStage::PreparingPackageDownloading => 8,
            InstallationStage::DownloadingPackageFiles { .. } => 9,
            InstallationStage::PreparingReaPackState => 10,
            InstallationStage::InstallingReaper => 11,
            InstallationStage::ApplyingReaPackState => 12,
            InstallationStage::InstallingPackage { .. } => 13,
            InstallationStage::Failed { .. } => 14,
            InstallationStage::Finished => 15,
        }
    }

    /// The text shown for this stage. A REAPER download must go to a path with a file name,
    /// and the download counts must add up within `u32`.
    pub fn to_display_string(&self) -> (r: String)
        requires
            *self matches InstallationStage::DownloadingReaper { download } ==> spec_debug_file_name(download.file@) is Some,
            *self matches InstallationStage::DownloadingRepositoryIndexes { download } ==> counts_addable(download),
            *self matches InstallationStage::DownloadingPackageFiles { download } ==> counts_addable(download),
        ensures
            r@ == spec_stage_text(
                *self,
                match *self {
                    InstallationStage::DownloadingReaper { download } => spec_debug_file_name(download.file@)->0,
                    _ => Seq::empty(),
                },
            ),
    {
        let name = self.name();
        match self {
            InstallationStage::DownloadingReaper { download } => {
                let file_name = debug_file_name(download.file.as_str()).unwrap();
                let a = concat3(name, " ", download.label.as_str());
                concat3(a.as_str(), " (", file_name.as_str()).concat(")")
            },
            InstallationStage::DownloadingRepositoryIndexes { download } => multi_download_text(name, *download),
            InstallationStage::DownloadingPackageFiles { download } => multi_download_text(name, *download),
            InstallationStage::InstallingPackage { package } => concat3(name, ": ", package.name.as_str()),
            InstallationStage::Failed { display_msg } => concat3(name, ": ", display_msg.as_str()),
            _ => name.to_owned(),
        }
    }

    /// The text shown for this stage, or `None` where it cannot be made: a REAPER download
    /// to a path without file name, or download counts that do not add up within `u32`.
    pub fn try_to_display_string(&self) -> (r: Option<String>)
        ensures
            match *self {
                InstallationStage::DownloadingReaper { download } => match spec_debug_file_name(download.file@) {
                    Some(f) => r matches Some(t) && t@ == spec_stage_text(*self, f),
                    None => r is None,
                },
                InstallationStage::DownloadingRepositoryIndexes { download } => if counts_addable(download) {
                    r matches Some(t) && t@ == spec_stage_text(*self, Seq::empty())
                } else {
                    r is None
                },
                InstallationStage::DownloadingPackageFiles { download } => if counts_addable(download) {
                    r matches Some(t) && t@ == spec_stage_text(*self, Seq::empty())
                } else {
                    r is None
                },
                _ => r matches Some(t) && t@ == spec_stage_text(*self, Seq::empty()),
            },
    {
        match self {
            InstallationStage::DownloadingReaper { download } => {
                if debug_file_name(download.file.as_str()).is_none() {
                    return None;
                }
            },
            InstallationStage::DownloadingRepositoryIndexes { download } => {
                if download.success_count > u32::MAX - download.error_count {
                    return None;
                }
            },
            InstallationStage::DownloadingPackageFiles { download } => {
                if download.success_count > u32::MAX - download.error_count {
                    return None;
                }
            },
            _ => {},
        }
        Some(self.to_display_string())
    }
}

} // verus!
