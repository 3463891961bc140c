use reaboot::database::{reapack_db_user_version, DbUserVersion};
use reaboot::install_args::InstallerConfig;
use reaboot::installer::{
    done_report_markdown, finish_after_preparation, installation_done_parts, report_contains_donation_links, InstallError,
    InstallationOutcome, NextStep,
};
use reaboot::preparation_report::{PreDownloadFailures, PreparationReport};
use reaboot::reaper_platform::ReaperPlatform;
use reaboot::resolved_config::{resolve_installer_config, ResolveInstallerConfigError, ResolvedInstallerConfig};
use reaboot::version::{VersionName, VersionRef};

fn bare_config() -> InstallerConfig {
    InstallerConfig {
        custom_reaper_resource_dir: None,
        custom_platform: None,
        package_urls: vec![],
        num_download_retries: None,
        temp_parent_dir: None,
        installation_id: None,
        keep_temp_dir: false,
        concurrent_downloads: None,
        dry_run: false,
        reaper_version: None,
        skip_failed_packages: false,
        recipe: None,
        selected_features: vec![],
        install_reaper: None,
        update_reaper: false,
        install_reapack: None,
    }
}

fn resolve(
    config: InstallerConfig,
    main: Option<&str>,
    build: Option<ReaperPlatform>,
    db: Option<DbUserVersion>,
) -> Result<ResolvedInstallerConfig, ResolveInstallerConfigError> {
    resolve_installer_config(
        config,
        main.map(|m| m.to_string()),
        build,
        false,
        "generated".to_string(),
        "/tmp".to_string(),
        |_| true,
        |d| Ok(d),
        || Ok("/".to_string()),
        |d, _, _| format!("{d}/reaper"),
        move |_| db,
        |_| false,
    )
}

const MAIN: &str = "/reaboot-test-missing-dir/REAPER";

#[test]
fn defaults_are_filled_in() {
    let c = resolve(bare_config(), Some(MAIN), Some(ReaperPlatform::LinuxX86_64), None).unwrap();
    assert_eq!(c.num_download_retries, 3);
    assert_eq!(c.concurrent_downloads, 5);
    assert!(matches!(c.reaper_version, VersionRef::Latest));
    assert_eq!(c.platform, ReaperPlatform::LinuxX86_64);
    assert_eq!(c.package_urls.len(), 1);
    assert_eq!(c.package_urls[0].repository_url(), "https://reapack.com/index.xml");
    assert_eq!(c.package_urls[0].package_name(), "ReaPack.ext");
    assert_eq!(c.reaper_resource_dir.get(), MAIN);
    assert!(!c.portable);
    assert!(c.reaper_is_installable);
    assert_eq!(c.reaper_exe, "/reaboot-test-missing-dir/REAPER/reaper");
    assert!(!c.reaper_exe_exists);
    assert!(!c.reaper_ini_exists);
    assert_eq!(c.backup_dir, "/reaboot-test-missing-dir/REAPER/ReaBoot/backups/generated");
    // The directory in the resource directory is not writable here, so the OS one is taken.
    assert_eq!(c.temp_parent_dir, "/tmp");
    assert!(c.install_reaper);
    assert!(c.install_reapack);
    assert!(!c.update_reaper);
    assert!(!c.dry_run);
}

#[test]
fn configured_values_win() {
    let config = InstallerConfig {
        custom_platform: Some(ReaperPlatform::WindowsX64),
        package_urls: vec!["https://a.org/index.xml#p=X/one.lua&v=1.0".to_string()],
        num_download_retries: Some(7),
        concurrent_downloads: Some(2),
        reaper_version: Some(VersionRef::Specific(VersionName::parse("7.22").unwrap())),
        installation_id: Some("test".to_string()),
        install_reaper: Some(false),
        dry_run: true,
        ..bare_config()
    };
    let c = resolve(config, Some(MAIN), None, None).unwrap();
    assert_eq!(c.num_download_retries, 7);
    assert_eq!(c.concurrent_downloads, 2);
    assert!(matches!(&c.reaper_version, VersionRef::Specific(v) if v.as_str() == "7.22"));
    assert_eq!(c.platform, ReaperPlatform::WindowsX64);
    assert_eq!(c.package_urls.len(), 2);
    assert_eq!(c.package_urls[0].package_name(), "one.lua");
    assert_eq!(c.package_urls[1].package_name(), "ReaPack.ext");
    assert_eq!(c.backup_dir, "/reaboot-test-missing-dir/REAPER/ReaBoot/backups/test");
    assert!(!c.install_reaper);
    assert!(c.dry_run);
}

#[test]
fn resolving_fails_where_it_must() {
    assert!(matches!(
        resolve(bare_config(), None, Some(ReaperPlatform::LinuxX86_64), None),
        Err(ResolveInstallerConfigError::UnableToIdentifyHomeDir)
    ));
    assert!(matches!(
        resolve(bare_config(), Some(MAIN), None, None),
        Err(ResolveInstallerConfigError::RequireCustomPlatform)
    ));
    assert!(matches!(
        resolve(bare_config(), Some(MAIN), Some(ReaperPlatform::LinuxX86_64), Some(DbUserVersion { major: 1, minor: 0 })),
        Err(ResolveInstallerConfigError::ReapackDbTooNew(_))
    ));
    assert!(resolve(bare_config(), Some(MAIN), Some(ReaperPlatform::LinuxX86_64), Some(reapack_db_user_version())).is_ok());
    let custom_temp = InstallerConfig { temp_parent_dir: Some("/reaboot-test-missing-dir/temp".to_string()), ..bare_config() };
    assert!(matches!(
        resolve(custom_temp, Some(MAIN), Some(ReaperPlatform::LinuxX86_64), None),
        Err(ResolveInstallerConfigError::TempParentDir(_))
    ));
    let bad_url = InstallerConfig { package_urls: vec!["no url".to_string()], ..bare_config() };
    assert!(matches!(
        resolve(bad_url, Some(MAIN), Some(ReaperPlatform::LinuxX86_64), None),
        Err(ResolveInstallerConfigError::PackageUrls(_))
    ));
}

fn empty_report() -> PreparationReport {
    let failures = PreDownloadFailures {
        package_descriptors_with_failures: vec![],
        version_conflicts: vec![],
        incompatible_versions: vec![],
        recipe_file_conflicts: vec![],
        conflicts_with_already_installed_files: vec![],
    };
    PreparationReport::new(vec![], failures, vec![], vec![], vec![], vec![])
}

#[test]
fn finishing_after_the_report() {
    match finish_after_preparation(NextStep::ReportOnly, empty_report()) {
        Some(Ok(o)) => {
            assert!(!o.actually_installed_things);
            assert!(o.manual_reaper_install_path.is_none());
            assert!(o.preparation_report.package_preparation_outcomes.is_empty());
        }
        _ => panic!("a dry run ends with the report"),
    }
    assert!(matches!(
        finish_after_preparation(NextStep::FailBecausePackagesFailed, empty_report()),
        Some(Err(InstallError::SomePackagesFailed(_)))
    ));
    assert!(finish_after_preparation(NextStep::ApplyChanges, empty_report()).is_none());
}

#[test]
fn installation_done_parts_and_report() {
    let (report, installed, manual) = installation_done_parts(Ok(InstallationOutcome {
        preparation_report: empty_report(),
        actually_installed_things: true,
        manual_reaper_install_path: Some("/tmp/reaper.dmg".to_string()),
    }));
    assert!(report.is_some());
    assert!(installed);
    assert_eq!(manual, Some("/tmp/reaper.dmg".to_string()));
    let (report, installed, manual) = installation_done_parts(Err(InstallError::SomePackagesFailed(empty_report())));
    assert!(report.is_some() && !installed && manual.is_none());
    let (report, installed, manual) = installation_done_parts(Err(InstallError::Other("boom".to_string())));
    assert!(report.is_none() && !installed && manual.is_none());
    let r = empty_report();
    assert!(!report_contains_donation_links(&r));
    let (md, donations) = done_report_markdown(&r, true);
    assert_eq!(md, "No changes were necessary.");
    assert!(!donations);
}
