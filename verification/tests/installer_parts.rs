use reaboot::reaper_util::{first_line, parse_stable_reaper_version, parse_unstable_reaper_version, ReaperVersionLookupError};
use reaboot::resolved_config::{resolve_temp_parent_dir, TempParentDirError};
use reaboot::display_util::Separated;
use reaboot::file_util::{
    first_existing, first_existing_parent_dir_verdict, proper_ancestors, writable_or_creatable_verdict,
    dry_move_file, dry_move_verdict, dry_remove_file, dry_remove_verdict, file_or_dir_is_writable_or_creatable,
    find_first_existing_parent, get_first_existing_parent_dir, removal_failure_message, DryRunError,
    FirstExistingParentError,
};
use reaboot::installation_stage::{DownloadInfo, InstallationStage, MultiDownloadInfo, PackageInfo};
use reaboot::reapack_util::{
    find_reapack_shared_lib_file, get_correct_reapack_asset, get_default_reapack_shared_lib_file,
    get_os_specific_reapack_file_name,
};
use reaboot::reaper_platform::{ReaperOs, ReaperPlatform};
use reaboot::reaper_resource_dir::{
    resource_dir_verdict, ResourceDirVerdict,
    contains_reaper_ini_or_is_empty, is_valid_reaper_resource_dir, ReaperResourceDir, ResourceDirError,
};
use reaboot::reaper_target::ReaperTarget;
use reaboot::reaper_util::{
    extract_reaper_for_macos_to_dir, extract_reaper_for_windows_to_dir, extract_reaper_to_portable_dir,
    get_default_main_reaper_resource_dir, get_os_specific_reaper_installer_file_name, installer_kind,
    try_extract_reaper_to_portable_dir, without_dots, ExtractReaperError, InstallerKind,
};
use reaboot::recipe::{contains_string, Feature, Recipe};
use reaboot::resolved_config::{
    determine_initial_installation_status, installation_status_from, resolve_config_with, InstallationStatus,
    ReabootConfig, ResolveConfigError,
};
use reaboot::version::VersionName;

fn feature(name: &str, packages: Option<Vec<&str>>) -> Feature {
    Feature {
        name: name.to_string(),
        default: None,
        description: None,
        packages: packages.map(|v| v.into_iter().map(|s| s.to_string()).collect()),
    }
}

fn recipe() -> Recipe {
    Recipe {
        name: "Test".to_string(),
        description: None,
        author: None,
        website: None,
        skip_additional_packages: None,
        required_packages: Some(vec!["req1".to_string(), "req2".to_string()]),
        features: Some(vec![
            ("a".to_string(), feature("A", Some(vec!["a1", "a2"]))),
            ("b".to_string(), feature("B", None)),
            ("c".to_string(), feature("C", Some(vec!["c1"]))),
        ]),
    }
}

#[test]
fn recipe_packages() {
    let r = recipe();
    let selected = vec!["c".to_string(), "a".to_string(), "unknown".to_string()];
    assert_eq!(r.resolve_all_packages(&selected), vec!["req1", "req2", "a1", "a2", "c1"]);
    assert_eq!(r.resolve_all_packages(&vec![]), vec!["req1", "req2"]);
    assert_eq!(r.resolve_all_packages(&vec!["b".to_string()]), vec!["req1", "req2"]);
    let bare = Recipe { required_packages: None, features: None, ..recipe() };
    assert!(bare.resolve_all_packages(&selected).is_empty());
    assert!(contains_string(&selected, "a"));
    assert!(!contains_string(&selected, "b"));
    assert!(r.has_well_ordered_features());
    assert!(bare.has_well_ordered_features());
    let unordered = Recipe {
        features: Some(vec![
            ("b".to_string(), feature("B", None)),
            ("a".to_string(), feature("A", None)),
        ]),
        ..recipe()
    };
    assert!(!unordered.has_well_ordered_features());
    let twice = Recipe {
        features: Some(vec![("a".to_string(), feature("A", None)), ("a".to_string(), feature("A", None))]),
        ..recipe()
    };
    assert!(!twice.has_well_ordered_features());
    assert!(reaboot::recipe::str_less("ab", "b"));
    assert!(reaboot::recipe::str_less("a", "ab"));
    assert!(!reaboot::recipe::str_less("ab", "ab"));
    assert!(reaboot::recipe::str_less("Z", "a"));
}

#[test]
fn separated_values() {
    let s = Separated::new(vec!["1.0".to_string(), "1.1".to_string(), "2.0".to_string()], ",");
    assert_eq!(s.to_display_string(), "1.0,1.1,2.0");
    assert_eq!(Separated::new(Vec::<String>::new(), ", ").to_display_string(), "");
    assert_eq!(Separated::new(vec!["x".to_string()], ", ").to_display_string(), "x");
}

#[test]
fn reapack_files() {
    assert_eq!(get_os_specific_reapack_file_name(ReaperPlatform::WindowsX64), "reaper_reapack-x64.dll");
    assert_eq!(get_os_specific_reapack_file_name(ReaperPlatform::MacOsArm64), "reaper_reapack-arm64.dylib");
    let dir = ReaperResourceDir::from("/home/me/.config/REAPER".to_string());
    assert_eq!(
        get_default_reapack_shared_lib_file(&dir, ReaperPlatform::LinuxX86_64),
        "/home/me/.config/REAPER/UserPlugins/reaper_reapack-x86_64.so"
    );
    let names = vec![Some("readme.txt".to_string()), None, Some("reaper_reapack-arm64.dylib".to_string())];
    assert_eq!(
        find_reapack_shared_lib_file(&dir, &names),
        Some("/home/me/.config/REAPER/UserPlugins/reaper_reapack-arm64.dylib".to_string())
    );
    assert_eq!(find_reapack_shared_lib_file(&dir, &vec![Some("other.so".to_string())]), None);
    let assets = vec!["reaper_reapack-x86.dll".to_string(), "reaper_reapack-x64.dll".to_string()];
    assert_eq!(get_correct_reapack_asset(&assets, ReaperPlatform::WindowsX64), Some(1));
    assert_eq!(get_correct_reapack_asset(&assets, ReaperPlatform::LinuxI686), None);
}

#[test]
fn resource_dir_locations() {
    let dir = ReaperResourceDir::from("/r".to_string());
    assert_eq!(dir.reaper_ini_file(), "/r/reaper.ini");
    assert_eq!(dir.reaper_install_rev_file(), "/r/reaper-install-rev.txt");
    assert_eq!(dir.user_plugins_dir(), "/r/UserPlugins");
    assert_eq!(dir.reapack_dir(), "/r/ReaPack");
    assert_eq!(dir.reapack_cache_dir(), "/r/ReaPack/Cache");
    assert_eq!(dir.reapack_registry_db_file(), "/r/ReaPack/registry.db");
    assert_eq!(dir.reapack_ini_file(), "/r/reapack.ini");
    assert_eq!(dir.temp_reaboot_dir(), "/r/ReaBoot");
    assert_eq!(dir.backup_parent_dir(), "/r/ReaBoot/backups");
    assert_eq!(dir.join("x"), "/r/x");
    assert_eq!(dir.get(), "/r");
    assert_eq!(dir.into_inner(), "/r");
}

const MISSING: &str = "/nonexistent-reaboot-test-dir";

#[test]
fn resource_dir_checks_on_disk() {
    let is_empty_yes = |_: &str| true;
    let is_empty_no = |_: &str| false;
    let canonicalize = |d: String| Ok::<String, String>(format!("{d}canonical"));
    let cwd = || Ok::<String, String>("/work".to_string());

    assert!(!is_valid_reaper_resource_dir(MISSING));
    assert!(!ReaperResourceDir::from(MISSING.to_string()).contains_reaper_ini());
    assert!(!ReaperResourceDir::from(MISSING.to_string()).is_valid());
    assert!(contains_reaper_ini_or_is_empty(MISSING, is_empty_yes));
    assert!(!contains_reaper_ini_or_is_empty(MISSING, is_empty_no));

    // "/" exists and is a directory.
    assert_eq!(ReaperResourceDir::new("/".to_string(), is_empty_yes, canonicalize, cwd).unwrap().get(), "/canonical");
    assert!(matches!(
        ReaperResourceDir::new("/".to_string(), is_empty_no, canonicalize, cwd),
        Err(ResourceDirError::NotAPortableInstallation)
    ));
    let failing_canonicalize = |_: String| Err::<String, String>("denied".to_string());
    assert!(matches!(
        ReaperResourceDir::new("/".to_string(), is_empty_yes, failing_canonicalize, cwd),
        Err(ResourceDirError::Io(_))
    ));
    let missing = format!("{MISSING}/not/yet");
    assert_eq!(ReaperResourceDir::new(missing.clone(), is_empty_yes, canonicalize, cwd).unwrap().get(), missing);
    let relative = ReaperResourceDir::new("reaboot-surely-missing-dir".to_string(), is_empty_yes, canonicalize, cwd).unwrap();
    assert_eq!(relative.get(), "/work/reaboot-surely-missing-dir");

    assert_eq!(find_first_existing_parent(format!("{missing}/deeper")), Some("/".to_string()));
    assert_eq!(get_first_existing_parent_dir(format!("{missing}/deeper")), Ok("/".to_string()));
    let writable = |_: &str| true;
    let read_only = |_: &str| false;
    assert!(file_or_dir_is_writable_or_creatable(&missing, writable));
    assert!(!file_or_dir_is_writable_or_creatable(&missing, read_only));
    assert!(!file_or_dir_is_writable_or_creatable("/", read_only));
    if std::path::Path::new("/etc/passwd").is_file() {
        assert!(matches!(
            ReaperResourceDir::new("/etc/passwd".to_string(), is_empty_yes, canonicalize, cwd),
            Err(ResourceDirError::IsAFile)
        ));
        assert_eq!(
            get_first_existing_parent_dir("/etc/passwd/below".to_string()),
            Err(reaboot::file_util::FirstExistingParentError::ParentIsNotDirectory)
        );
        assert!(!file_or_dir_is_writable_or_creatable("/etc/passwd/below", writable));
    }
}

#[test]
fn installer_file_names() {
    let v = VersionName::parse("7.11").unwrap();
    assert_eq!(get_os_specific_reaper_installer_file_name(ReaperTarget::MacOsAarch64, &v), "reaper711_universal.dmg");
    assert_eq!(get_os_specific_reaper_installer_file_name(ReaperTarget::MacOsX86, &v), "reaper711_i386.dmg");
    assert_eq!(get_os_specific_reaper_installer_file_name(ReaperTarget::WindowsX86, &v), "reaper711-install.exe");
    assert_eq!(get_os_specific_reaper_installer_file_name(ReaperTarget::WindowsX64, &v), "reaper711_x64-install.exe");
    assert_eq!(
        get_os_specific_reaper_installer_file_name(ReaperTarget::LinuxX86_64, &v),
        "reaper711_linux_x86_64.tar.xz"
    );
    assert_eq!(without_dots("7.1.2rc3"), "712rc3");
    assert_eq!(without_dots("..."), "");
    let home = get_default_main_reaper_resource_dir();
    if let Some(h) = home {
        assert!(h.ends_with("/REAPER"));
    }
}

#[test]
fn installer_kinds_and_extraction() {
    assert_eq!(installer_kind(Some("dmg".to_string())).unwrap(), InstallerKind::MacOsDmg);
    assert_eq!(installer_kind(Some("exe".to_string())).unwrap(), InstallerKind::WindowsExe);
    assert_eq!(installer_kind(Some("xz".to_string())).unwrap(), InstallerKind::LinuxTarXz);
    assert!(matches!(installer_kind(None), Err(ExtractReaperError::MissingExtension)));
    match installer_kind(Some("zip".to_string())) {
        Err(ExtractReaperError::UnsupportedExtension(e)) => assert_eq!(e, "zip"),
        _ => panic!("expected an unsupported extension"),
    }
    let extract = |_: &str, dest: &str, _: &str| Ok::<String, String>(format!("{dest}/REAPER.app"));
    assert_eq!(
        extract_reaper_to_portable_dir("/tmp/reaper711_universal.dmg", "/dest", "/tmp", ReaperOs::MacOs, extract).unwrap(),
        "/dest/REAPER.app"
    );
    assert!(matches!(
        extract_reaper_to_portable_dir("/tmp/reaper711_universal.dmg", "/dest", "/tmp", ReaperOs::Linux, extract),
        Err(ExtractReaperError::WrongHostOs)
    ));
    assert!(matches!(
        extract_reaper_to_portable_dir("/tmp/reaper711-install.exe", "/dest", "/tmp", ReaperOs::Linux, extract),
        Err(ExtractReaperError::WrongHostOs)
    ));
    assert!(matches!(
        extract_reaper_to_portable_dir("/tmp/reaper", "/dest", "/tmp", ReaperOs::MacOs, extract),
        Err(ExtractReaperError::MissingExtension)
    ));
    assert!(try_extract_reaper_to_portable_dir("/tmp/r.tar.xz", "/dest", "/tmp", ReaperOs::Linux, extract).is_none());
    assert!(try_extract_reaper_to_portable_dir("/tmp/r.exe", "/dest", "/tmp", ReaperOs::Windows, extract).is_none());
    assert!(try_extract_reaper_to_portable_dir("/tmp/r.dmg", "/dest", "/tmp", ReaperOs::MacOs, extract).is_some());
    let failing = |_: &str, _: &str, _: &str| Err::<String, String>("mount failed".to_string());
    match extract_reaper_for_macos_to_dir("/tmp/r.dmg", "/dest", "/tmp", ReaperOs::MacOs, failing) {
        Err(ExtractReaperError::Extraction(m)) => assert_eq!(m, "mount failed"),
        _ => panic!("expected an extraction error"),
    }
    assert!(matches!(
        extract_reaper_for_windows_to_dir("/tmp/r.exe", "/dest", ReaperOs::MacOs),
        Err(ExtractReaperError::WrongHostOs)
    ));
}

#[test]
fn stage_texts() {
    assert_eq!(InstallationStage::NothingInstalled.to_display_string(), "Nothing is installed yet");
    assert_eq!(InstallationStage::PreparingReaPackState.to_display_string(), "Updating ReaPack state");
    let d = MultiDownloadInfo { in_progress_count: 1, success_count: 3, error_count: 2, total_count: 10 };
    assert_eq!(
        InstallationStage::DownloadingPackageFiles { download: d }.to_display_string(),
        "Downloading package files: Downloaded 5 of 10 (2 errors)"
    );
    let ok = MultiDownloadInfo { in_progress_count: 0, success_count: 4, error_count: 0, total_count: 4 };
    assert_eq!(
        InstallationStage::DownloadingRepositoryIndexes { download: ok }.to_display_string(),
        "Downloading repository indexes: Downloaded 4 of 4"
    );
    let reaper = DownloadInfo { label: "REAPER 7.11".to_string(), url: "https://x".to_string(), file: "/tmp/reaper.dmg".to_string() };
    assert_eq!(
        InstallationStage::DownloadingReaper { download: reaper }.to_display_string(),
        "Downloading REAPER REAPER 7.11 (\"reaper.dmg\")"
    );
    assert_eq!(
        InstallationStage::InstallingPackage { package: PackageInfo { name: "ReaPack".to_string() } }.to_display_string(),
        "Installing package: ReaPack"
    );
    assert_eq!(
        InstallationStage::Failed { display_msg: "boom".to_string() }.to_display_string(),
        "Installation failed: boom"
    );
    let no_name = DownloadInfo { label: "x".to_string(), url: String::new(), file: "/".to_string() };
    assert!(InstallationStage::DownloadingReaper { download: no_name }.try_to_display_string().is_none());
    let huge = MultiDownloadInfo { in_progress_count: 0, success_count: u32::MAX, error_count: 1, total_count: 0 };
    assert!(InstallationStage::DownloadingPackageFiles { download: huge }.try_to_display_string().is_none());
    assert_eq!(InstallationStage::Finished.try_to_display_string().unwrap(), "Finished successfully");
    assert!(InstallationStage::NothingInstalled.rank() < InstallationStage::InstalledReaper.rank());
    assert!(InstallationStage::InstalledReaper.rank() < InstallationStage::Finished.rank());
}

#[test]
fn statuses() {
    assert!(matches!(installation_status_from(false, true), InstallationStatus::Initial));
    assert!(matches!(installation_status_from(true, false), InstallationStatus::InstalledReaper));
    assert!(matches!(installation_status_from(true, true), InstallationStatus::InstalledReaPack));
    assert_eq!(InstallationStatus::InstalledReaPack.to_display_string(), "REAPER and ReaPack are installed");
    assert_eq!(InstallationStatus::DownloadingReaPack { download: DownloadInfo { label: String::new(), url: String::new(), file: String::new() } }.to_display_string(), "Download ReaPack");
    assert_eq!(InstallationStatus::InstallingPackage { package: PackageInfo { name: "p".to_string() } }.to_display_string(), "");
    assert!(matches!(determine_initial_installation_status(MISSING, ReaperTarget::LinuxX86_64), InstallationStatus::Initial));
}

#[test]
fn resolving_config() {
    let config = ReabootConfig { custom_reaper_resource_dir: None, package_urls: vec![], custom_reaper_target: None };
    assert!(matches!(resolve_config_with(&config, None, Some(ReaperTarget::LinuxX86_64)), Err(ResolveConfigError::UnableToIdentifyHomeDir)));
    assert!(matches!(resolve_config_with(&config, Some("/home/REAPER".to_string()), None), Err(ResolveConfigError::RequireCustomReaperTarget)));
    let main = resolve_config_with(&config, Some("/home/REAPER".to_string()), Some(ReaperTarget::LinuxX86_64)).unwrap();
    assert_eq!(main.reaper_resource_dir, "/home/REAPER");
    assert!(!main.portable);
    assert_eq!(main.reaper_target, ReaperTarget::LinuxX86_64);
    let custom = ReabootConfig {
        custom_reaper_resource_dir: Some("/home/REAPER/".to_string()),
        package_urls: vec![],
        custom_reaper_target: Some(ReaperTarget::WindowsX64),
    };
    let same = resolve_config_with(&custom, Some("/home/REAPER".to_string()), None).unwrap();
    // The paths name the same directory.
    assert!(!same.portable);
    assert_eq!(same.reaper_target, ReaperTarget::WindowsX64);
    let other = ReabootConfig { custom_reaper_resource_dir: Some("/portable".to_string()), ..custom };
    assert!(resolve_config_with(&other, Some("/home/REAPER".to_string()), None).unwrap().portable);
}

#[test]
fn dry_remove_fails_only_for_existing_unwritable_files() {
    assert_eq!(dry_remove_verdict(true, false), Err(DryRunError::RemovalWouldFail));
    assert_eq!(dry_remove_verdict(true, true), Ok(()));
    assert_eq!(dry_remove_verdict(false, false), Ok(()));
    // A missing file can always be "removed"; the writability check is not even asked.
    assert_eq!(dry_remove_file("/reaboot-test-missing-dir/file.txt", |_| false), Ok(()));
}

#[test]
fn removal_failure_message_mentions_running_reaper_on_windows() {
    assert_eq!(removal_failure_message(false), "Removing the file would not work.");
    assert_eq!(
        removal_failure_message(true),
        "Removing the file would not work. Is REAPER running already? If yes, exit REAPER and try again."
    );
}

#[test]
fn dry_move_checks_in_order() {
    assert_eq!(dry_move_verdict(false, true, true, true, Ok(()), true), Err(DryRunError::SourceMissing));
    assert_eq!(dry_move_verdict(true, true, true, true, Ok(()), true), Err(DryRunError::DestinationExists));
    assert_eq!(dry_move_verdict(true, true, false, false, Ok(()), true), Err(DryRunError::DestinationNotWritable));
    // An existing file that no installed package owns is taken over.
    assert_eq!(dry_move_verdict(true, true, false, true, Ok(()), true), Ok(()));
    assert_eq!(
        dry_move_verdict(true, false, false, true, Err(FirstExistingParentError::ParentIsNotDirectory), true),
        Err(DryRunError::NoUsableParent(FirstExistingParentError::ParentIsNotDirectory))
    );
    assert_eq!(dry_move_verdict(true, false, false, true, Ok(()), false), Err(DryRunError::ParentNotWritable));
    assert_eq!(dry_move_verdict(true, false, false, true, Ok(()), true), Ok(()));
    assert_eq!(
        dry_move_file("/reaboot-test-missing-dir/src.txt", "/reaboot-test-missing-dir/dest.txt".to_string(), false, |_| true),
        Err(DryRunError::SourceMissing)
    );
}

#[test]
fn temp_parent_dir_choice() {
    let custom = Some("/reaboot-test-missing-dir/temp".to_string());
    // A custom directory that is neither writable nor creatable is refused.
    assert_eq!(
        resolve_temp_parent_dir(custom.clone(), "/res/ReaBoot".to_string(), "/tmp".to_string(), |_| false),
        Err(TempParentDirError::CustomNotWritable)
    );
    // Its existing parent (the root) answers as writable here, so it is taken.
    assert_eq!(
        resolve_temp_parent_dir(custom, "/res/ReaBoot".to_string(), "/tmp".to_string(), |_| true),
        Ok("/reaboot-test-missing-dir/temp".to_string())
    );
    // Without a custom directory, the one in the resource directory is preferred ...
    assert_eq!(
        resolve_temp_parent_dir(None, "/reaboot-test-missing-dir/ReaBoot".to_string(), "/tmp".to_string(), |_| true),
        Ok("/reaboot-test-missing-dir/ReaBoot".to_string())
    );
    // ... and the OS temp directory is the fallback.
    assert_eq!(
        resolve_temp_parent_dir(None, "/reaboot-test-missing-dir/ReaBoot".to_string(), "/tmp".to_string(), |_| false),
        Ok("/tmp".to_string())
    );
}

#[test]
fn backend_info_reports_missing_executable() {
    let info = reaboot::resolved_config::collect_backend_info(ReaperPlatform::LinuxX86_64, "/reaboot-test-missing-dir/reaper".to_string());
    assert_eq!(info.inherent_reaper_platform, ReaperPlatform::LinuxX86_64);
    assert_eq!(info.main_reaper_exe, "/reaboot-test-missing-dir/reaper");
    assert!(!info.main_reaper_exe_exists);
    match info.main_reaper_resource_dir {
        Some(d) => assert!(d.ends_with("REAPER")),
        None => assert!(!info.main_reaper_ini_exists),
    }
}

#[test]
fn reaper_versions_from_website_answers() {
    assert_eq!(first_line(""), None);
    assert_eq!(first_line("7.22\r\nmore"), Some("7.22"));
    assert_eq!(first_line("7.22"), Some("7.22"));
    assert_eq!(first_line("\nrest"), Some(""));
    assert_eq!(first_line("a\rb"), Some("a\rb"));
    assert_eq!(parse_stable_reaper_version("7.22\n").unwrap().as_str(), "7.22");
    assert_eq!(parse_stable_reaper_version("").unwrap_err(), ReaperVersionLookupError::NoVersionLine);
    assert_eq!(parse_stable_reaper_version("\n7.22").unwrap_err(), ReaperVersionLookupError::InvalidVersion);
    assert_eq!(
        parse_unstable_reaper_version("v7.23+dev1010 - October 10 2024\n  + fix").unwrap().as_str(),
        "7.23+dev1010"
    );
    assert_eq!(parse_unstable_reaper_version("").unwrap_err(), ReaperVersionLookupError::NoVersionLine);
    assert_eq!(parse_unstable_reaper_version("7.23 x").unwrap_err(), ReaperVersionLookupError::MissingVersionPrefix);
    assert_eq!(parse_unstable_reaper_version("v7.23").unwrap_err(), ReaperVersionLookupError::MissingSpaceAfterVersion);
    assert_eq!(parse_unstable_reaper_version("v 7.23").unwrap_err(), ReaperVersionLookupError::InvalidVersion);
}

#[test]
fn ancestors_and_first_existing() {
    assert_eq!(proper_ancestors("/a/b/c"), vec!["/a/b", "/a", "/"]);
    assert!(proper_ancestors("/").is_empty());
    assert_eq!(first_existing(&vec![false, true, true]), Some(1));
    assert_eq!(first_existing(&vec![false, false]), None);
    assert_eq!(first_existing(&vec![]), None);
    // The root always exists, so it is the nearest existing parent of a missing path below it.
    assert_eq!(find_first_existing_parent("/reaboot-test-missing-dir/a".to_string()), Some("/".to_string()));
    assert_eq!(find_first_existing_parent("/".to_string()), None);
}

#[test]
fn parent_dir_and_writability_verdicts() {
    assert_eq!(first_existing_parent_dir_verdict(None, true), Err(FirstExistingParentError::NoExistingParent));
    assert_eq!(
        first_existing_parent_dir_verdict(Some("/a".to_string()), false),
        Err(FirstExistingParentError::ParentIsNotDirectory)
    );
    assert_eq!(first_existing_parent_dir_verdict(Some("/a".to_string()), true), Ok("/a".to_string()));
    assert!(writable_or_creatable_verdict(Some(true), true, false, false));
    assert!(!writable_or_creatable_verdict(Some(true), false, true, true));
    assert!(writable_or_creatable_verdict(Some(false), false, true, true));
    assert!(!writable_or_creatable_verdict(Some(false), true, false, true));
    assert!(!writable_or_creatable_verdict(None, true, true, true));
    // A missing relative path has no parent to ask.
    assert!(!file_or_dir_is_writable_or_creatable("reaboot-test-missing-relative/x", |_| true));
}

#[test]
fn resource_dir_verdicts() {
    assert_eq!(resource_dir_verdict(true, false, true, true), ResourceDirVerdict::IsAFile);
    assert_eq!(resource_dir_verdict(true, true, false, true), ResourceDirVerdict::NotAPortableInstallation);
    assert_eq!(resource_dir_verdict(true, true, true, false), ResourceDirVerdict::Canonicalize);
    assert_eq!(resource_dir_verdict(false, false, false, true), ResourceDirVerdict::CheckParent);
    assert_eq!(resource_dir_verdict(false, false, false, false), ResourceDirVerdict::JoinOntoCurrentDir);
}
