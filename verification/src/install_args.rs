//! The command line of the installer and the configuration it makes.

use vstd::prelude::*;

use crate::reaper_platform::ReaperPlatform;
use crate::recipe::Recipe;
use crate::version::{spec_parse_version_ref, version_ref_model, VersionRef};

verus! {

/// Arguments of the `install` command.
#[derive(Clone, Debug)]
pub struct InstallArgs {
    /// Custom REAPER resource directory as destination (a portable installation).
    pub reaper_resource_dir: Option<String>,
    /// Custom directory in which the temporary download directory is made.
    pub temp_parent_dir: Option<String>,
    /// Whether to keep the temporary directory afterwards.
    pub keep_temp_dir: bool,
    /// Maximum number of concurrent downloads.
    pub concurrent_downloads: u32,
    /// Whether to stop before actually moving anything to the destination.
    pub dry_run: bool,
    /// Whether to skip all license prompts.
    pub accept_licenses: bool,
    /// Whether to prompt for nothing (which for now means accepting licenses).
    pub non_interactive: bool,
    /// Whether packages that fail are skipped rather than failing the installation.
    pub skip_failed_packages: bool,
    /// REAPER version to install if REAPER is missing: a version, `latest` or `latest-pre`.
    pub reaper_version: String,
    /// Whether to update REAPER to the latest version.
    pub update_reaper: bool,
    /// URLs of ReaPack packages to install.
    pub package_url: Option<Vec<String>>,
}

/// The commands of the installer.
#[derive(Clone, Debug)]
pub enum Command {
    Install(InstallArgs),
}

/// The installer's command line.
#[derive(Clone, Debug)]
pub struct App {
    pub command: Command,
}

/// Configuration of the installer.
#[derive(Clone, Debug)]
pub struct InstallerConfig {
    /// Custom REAPER resource directory; `None` means the main one of the current user.
    pub custom_reaper_resource_dir: Option<String>,
    /// Platform to install for; `None` means that of the build.
    pub custom_platform: Option<ReaperPlatform>,
    /// Package URLs to install, in addition to those that are installed anyway.
    pub package_urls: Vec<String>,
    /// Maximum number of retries of a failing download.
    pub num_download_retries: Option<u32>,
    /// Directory for the temporary directory; `None` means `ReaBoot` in the resource directory.
    pub temp_parent_dir: Option<String>,
    /// ID of this installation, used for a unique backup directory.
    pub installation_id: Option<String>,
    pub keep_temp_dir: bool,
    pub concurrent_downloads: Option<u32>,
    pub dry_run: bool,
    /// REAPER version to install if it is missing.
    pub reaper_version: Option<VersionRef>,
    pub skip_failed_packages: bool,
    pub recipe: Option<Recipe>,
    /// Ids of the recipe features to install.
    pub selected_features: Vec<String>,
    /// Whether to install REAPER if it is missing (default: yes).
    pub install_reaper: Option<bool>,
    pub update_reaper: bool,
    /// Whether to install ReaPack (default: yes).
    pub install_reapack: Option<bool>,
}

/// Why the arguments make no configuration.
#[derive(Copy, Clone, PartialEq, Eq, Structural, Debug)]
pub enum InstallArgsError {
    /// The REAPER version is neither a version name nor `latest` or `latest-pre`.
    InvalidReaperVersion,
}

/// The package URLs of the arguments; none if absent.
pub open spec fn package_urls_of(args: InstallArgs) -> Seq<Seq<char>> {
    match args.package_url {
        Some(v) => v@.map_values(|s: String| s@),
        None => Seq::empty(),
    }
}

fn copy_strings(v: &Vec<String>) -> (r: Vec<String>)
    ensures
        r@.map_values(|s: String| s@) == v@.map_values(|s: String| s@),
{
    let mut r: Vec<String> = Vec::new();
    let mut i: usize = 0;
    while i < v.len()
        invariant
            i <= v.len(),
            r@.map_values(|s: String| s@) == v@.take(i as int).map_values(|s: String| s@),
        decreases v.len() - i,
    {
        let s = v[i].clone();
        let ghost before = r@;
        r.push(s);
        assert(r@.map_values(|s: String| s@) =~= before.map_values(|s: String| s@).push(v@[i as int]@));
        assert(v@.take(i + 1) =~= v@.take(i as int).push(v@[i as int]));
        assert(r@.map_values(|s: String| s@) =~= v@.take(i + 1).map_values(|s: String| s@));
        i = i + 1;
    }
    assert(v@.take(v.len() as int) =~= v@);
    r
}

impl InstallArgs {
    /// The installer configuration these arguments ask for: the REAPER version must be
    /// readable; retries, platform, installation id, recipe and features stay unset.
    pub fn to_installer_config(&self) -> (r: Result<InstallerConfig, InstallArgsError>)
        ensures
            r is Err <==> spec_parse_version_ref(self.reaper_version@) is None,
            r matches Ok(c) ==> {
                &&& c.reaper_version matches Some(v) && spec_parse_version_ref(self.reaper_version@) == Some(version_ref_model(v))
                &&& c.custom_reaper_resource_dir == self.reaper_resource_dir
                &&& c.temp_parent_dir == self.temp_parent_dir
                &&& c.custom_platform is None
                &&& c.package_urls@.map_values(|s: String| s@) == package_urls_of(*self)
                &&& c.num_download_retries is None
                &&& c.installation_id is None
                &&& c.keep_temp_dir == self.keep_temp_dir
                &&& c.concurrent_downloads == Some(self.concurrent_downloads)
                &&& c.dry_run == self.dry_run
                &&& c.update_reaper == self.update_reaper
                &&& c.skip_failed_packages == self.skip_failed_packages
                &&& c.recipe is None
                &&& c.selected_features@.len() == 0
                &&& c.install_reaper is None
                &&& c.install_reapack is None
            },
    {
        let reaper_version = match VersionRef::parse(self.reaper_version.as_str()) {
            Ok(v) => v,
            Err(_) => {
                return Err(InstallArgsError::InvalidReaperVersion);
            },
        };
        let package_urls = match &self.package_url {
            Some(v) => copy_strings(v),
            None => Vec::new(),
        };
        Ok(
            InstallerConfig {
                custom_reaper_resource_dir: self.reaper_resource_dir.clone(),
                custom_platform: None,
                package_urls,
                num_download_retries: None,
                temp_parent_dir: self.temp_parent_dir.clone(),
                installation_id: None,
                keep_temp_dir: self.keep_temp_dir,
                concurrent_downloads: Some(self.concurrent_downloads),
                dry_run: self.dry_run,
                reaper_version: Some(reaper_version),
                skip_failed_packages: self.skip_failed_packages,
                recipe: None,
                selected_features: Vec::new(),
                install_reaper: None,
                update_reaper: self.update_reaper,
                install_reapack: None,
            },
        )
    }

    /// Whether the user must agree to the REAPER license first: unless prompts are skipped
    /// (`accept_licenses` or `non_interactive`), when REAPER is going to be installed, which
    /// happens where ReaBoot can install it and it is missing.
    pub fn needs_license_confirmation(&self, reaper_is_installable: bool, reaper_exe_exists: bool) -> (r: bool)
        ensures
            r == (!(self.non_interactive || self.accept_licenses) && reaper_is_installable && !reaper_exe_exists),
    {
        let skip_license_prompts = self.non_interactive || self.accept_licenses;
        !skip_license_prompts && reaper_is_installable && !reaper_exe_exists
    }
}

/// Whether ReaBoot can install REAPER by itself: for a portable installation, or anywhere but
/// on macOS.
pub fn reaper_is_installable(portable: bool, host_os_is_macos: bool) -> (r: bool)
    ensures
        r == (portable || !host_os_is_macos),
{
    portable || !host_os_is_macos
}

} // verus!
