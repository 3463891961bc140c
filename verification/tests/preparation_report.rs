use reaboot::installation_stage::InstallationStage;
use reaboot::installer::{
    final_installation_stage, install_reaper, next_step_after_preparation, reaper_needs_preparation,
    reaper_tooling_changes, InstallError, NextStep, ReaperInstallAction, ReaperPreparationOutcome,
};
use reaboot::installed_package::{InstalledPackage, InstalledPackageType, InstalledVersionName, PackageType};
use reaboot::package_id::PackageId;
use reaboot::package_url::PackageUrl;
use reaboot::preparation_report::{
    Download, InstalledFileConflict, PackageDescError, PackageDownloadFailure, PackagePrepStatus, PackageStatusCategory,
    PackageUrlFailure, PreDownloadFailures, PreparationReport, RecipeFileConflict, SinglePackageInstallationPlan,
    TempInstallFailure, ToolDownload, ToolingChange, VersionConflict,
};
use reaboot::report_markdown::{PreparationReportAsMarkdown, PreparationReportMarkdownOptions};
use reaboot::version::{VersionName, VersionRef};
use reaboot::version_id::VersionId;

fn pid(category: &str, package: &str) -> PackageId {
    PackageId { remote: "ReaTeam".to_string(), category: category.to_string(), package: package.to_string() }
}

fn vid(category: &str, package: &str, version: &str) -> VersionId {
    VersionId { package_id: pid(category, package), version: VersionName::parse(version).unwrap() }
}

fn no_failures() -> PreDownloadFailures {
    PreDownloadFailures {
        package_descriptors_with_failures: vec![],
        version_conflicts: vec![],
        incompatible_versions: vec![],
        recipe_file_conflicts: vec![],
        conflicts_with_already_installed_files: vec![],
    }
}

fn plan(package: &str, version: &str, old: Option<&str>, donation: Option<&str>) -> SinglePackageInstallationPlan {
    SinglePackageInstallationPlan {
        version_id: vid("Scripts", package, version),
        to_be_removed: old.map(|s| s.to_string()),
        donation_url: donation.map(|s| s.to_string()),
    }
}

fn version_text(v: &Option<VersionRef>) -> Option<String> {
    v.as_ref().map(|v| v.to_text())
}

#[test]
fn status_categories() {
    assert_eq!(PackagePrepStatus::ToBeAdded.category(), PackageStatusCategory::Addition);
    assert_eq!(
        PackagePrepStatus::ToBeReplaced { old_version: "1.0".to_string() }.category(),
        PackageStatusCategory::Replacement
    );
    assert_eq!(PackagePrepStatus::Incompatible.category(), PackageStatusCategory::Failure);
    assert_eq!(PackagePrepStatus::DownloadFailed("x".to_string()).category(), PackageStatusCategory::Failure);
}

#[test]
fn status_texts() {
    assert_eq!(
        PackagePrepStatus::NotFoundInRepo(PackageDescError::PackageNotFound).to_display_string(),
        "Desired package was not found"
    );
    assert_eq!(PackageDescError::RepositoryIndexUnavailable.message(), "Repository is unavailable");
    let versions = vec![VersionName::parse("1.0").unwrap(), VersionName::parse("2.0").unwrap()];
    assert_eq!(
        PackagePrepStatus::VersionConflict(versions).to_display_string(),
        "Competing version requirements: 1.0,2.0"
    );
    assert_eq!(PackagePrepStatus::Incompatible.to_display_string(), "Incompatible with operating system or ReaBoot");
    assert_eq!(
        PackagePrepStatus::ConflictWithOtherPackagesToBeInstalled { relative_path: "Scripts/a.lua".to_string() }
            .to_display_string(),
        "File conflict with other package to be installed: Scripts/a.lua"
    );
    assert_eq!(
        PackagePrepStatus::ConflictWithAlreadyInstalledFiles {
            relative_path: "Scripts/a.lua".to_string(),
            installed_package_id: pid("Scripts", "old.lua"),
        }
        .to_display_string(),
        "File `Scripts/a.lua` conflicts with already installed package `old.lua`"
    );
    assert_eq!(PackagePrepStatus::DownloadFailed("timeout".to_string()).to_display_string(), "Download error: timeout");
    assert_eq!(
        PackagePrepStatus::TempInstallFailed("disk full".to_string()).to_display_string(),
        "Simulated installation failed: disk full"
    );
    assert_eq!(PackagePrepStatus::ToBeAdded.to_display_string(), "Addition");
    assert_eq!(
        PackagePrepStatus::ToBeReplaced { old_version: "0.9".to_string() }.to_display_string(),
        "Replacement of 0.9"
    );
}

#[test]
fn outcomes_come_in_order_of_their_source() {
    let failures = PreDownloadFailures {
        package_descriptors_with_failures: vec![
            PackageUrlFailure {
                remote: None,
                package_url: PackageUrl::parse("https://example.org/index.xml#p=Cat/missing.lua").unwrap(),
                error: PackageDescError::RepositoryIndexUnavailable,
            },
            PackageUrlFailure {
                remote: Some("Repo".to_string()),
                package_url: PackageUrl::parse("https://example.org/index.xml#p=Cat/gone.lua&v=2.0").unwrap(),
                error: PackageDescError::PackageNotFound,
            },
        ],
        version_conflicts: vec![VersionConflict {
            package_id: pid("Scripts", "conflict.lua"),
            conflicting_versions: vec![VersionName::parse("1.0").unwrap(), VersionName::parse("1.1").unwrap()],
        }],
        incompatible_versions: vec![vid("Scripts", "win-only.lua", "3.0")],
        recipe_file_conflicts: vec![RecipeFileConflict {
            relative_path: "Scripts/same.lua".to_string(),
            conflicting_files: vec![vid("Scripts", "one.lua", "1.0"), vid("Scripts", "two.lua", "2.0")],
        }],
        conflicts_with_already_installed_files: vec![InstalledFileConflict {
            new_file: vid("Scripts", "new.lua", "1.0"),
            relative_path: "Scripts/taken.lua".to_string(),
            installed_package_id: pid("Scripts", "installed.lua"),
        }],
    };
    let report = PreparationReport::new(
        vec![],
        failures,
        vec![PackageDownloadFailure { version_id: vid("Scripts", "dl.lua", "1.0"), error: "404".to_string() }],
        vec![TempInstallFailure { version_id: vid("Scripts", "tmp.lua", "1.0"), error: "locked".to_string() }],
        vec![],
        vec![plan("added.lua", "1.0", None, Some("https://donate.example.org")), plan("replaced.lua", "2.0", Some("1.0"), Some("https://ignored"))],
    );
    let o = &report.package_preparation_outcomes;
    assert_eq!(o.len(), 11);
    // Unresolvable URLs: the remote is the repository URL where no index was available.
    assert_eq!(o[0].package_id.remote, "https://example.org/index.xml");
    assert_eq!(o[0].package_id.category, "Cat");
    assert_eq!(o[0].package_id.package, "missing.lua");
    assert_eq!(version_text(&o[0].version), Some("latest".to_string()));
    assert!(matches!(o[0].status, PackagePrepStatus::NotFoundInRepo(PackageDescError::RepositoryIndexUnavailable)));
    assert_eq!(o[1].package_id.remote, "Repo");
    assert_eq!(version_text(&o[1].version), Some("2.0".to_string()));
    assert_eq!(o[2].package_id.package, "conflict.lua");
    assert!(o[2].version.is_none());
    assert!(matches!(o[3].status, PackagePrepStatus::Incompatible));
    assert_eq!(version_text(&o[3].version), Some("3.0".to_string()));
    assert_eq!(o[4].package_id.package, "one.lua");
    assert_eq!(o[5].package_id.package, "two.lua");
    match &o[5].status {
        PackagePrepStatus::ConflictWithOtherPackagesToBeInstalled { relative_path } => {
            assert_eq!(relative_path, "Scripts/same.lua")
        }
        _ => panic!("expected a file conflict"),
    }
    assert_eq!(o[6].package_id.package, "new.lua");
    assert!(matches!(o[7].status, PackagePrepStatus::DownloadFailed(_)));
    assert!(matches!(o[8].status, PackagePrepStatus::TempInstallFailed(_)));
    assert!(matches!(o[9].status, PackagePrepStatus::ToBeAdded));
    assert_eq!(o[9].package_id.package, "added.lua");
    assert!(matches!(o[10].status, PackagePrepStatus::ToBeReplaced { .. }));
    let summary = report.summary();
    assert_eq!(summary.failures, 9);
    assert_eq!(summary.additions, 1);
    assert_eq!(summary.replacements, 1);
}

#[test]
fn ready_packages_and_donations() {
    let report = PreparationReport::new(
        vec![],
        no_failures(),
        vec![],
        vec![],
        vec![],
        vec![plan("added.lua", "1.0", None, Some("https://donate.example.org")), plan("replaced.lua", "2.0", Some("1.0"), Some("https://ignored"))],
    );
    let o = &report.package_preparation_outcomes;
    assert_eq!(o.len(), 2);
    assert!(matches!(o[0].status, PackagePrepStatus::ToBeAdded));
    assert_eq!(o[0].donation_url.as_deref(), Some("https://donate.example.org"));
    match &o[1].status {
        PackagePrepStatus::ToBeReplaced { old_version } => assert_eq!(old_version, "1.0"),
        _ => panic!("expected a replacement"),
    }
    // Replacements carry no donation URL.
    assert!(o[1].donation_url.is_none());
    let summary = report.summary();
    assert_eq!(summary.failures, 0);
    assert_eq!(summary.additions, 1);
    assert_eq!(summary.replacements, 1);
}

fn options(donations: bool, installed: bool, termimad: bool) -> PreparationReportMarkdownOptions {
    PreparationReportMarkdownOptions {
        include_main_heading: true,
        include_donation_links: donations,
        actually_installed_things: installed,
        optimize_for_termimad: termimad,
    }
}

#[test]
fn markdown_nothing_to_do() {
    let report = PreparationReport::new(vec![], no_failures(), vec![], vec![], vec![], vec![]);
    let md = PreparationReportAsMarkdown::new(&report, options(false, true, false)).to_display_string();
    assert_eq!(md, "\n# Installation report\nNo changes were necessary.");
}

#[test]
fn markdown_additions_as_list() {
    let report = PreparationReport::new(vec![], no_failures(), vec![], vec![], vec![], vec![plan("added.lua", "1.0", None, None)]);
    let mut opts = options(false, true, false);
    opts.include_main_heading = false;
    let md = PreparationReportAsMarkdown::new(&report, opts).to_display_string();
    assert_eq!(md, "\n## 1 package addition\n- **added.lua** 1.0 (Scripts)\n");
}

#[test]
fn markdown_full_report() {
    let tool = ToolingChange::new(
        "REAPER".to_string(),
        ToolDownload::new(
            "7.11".to_string(),
            Download::new("https://example.org/reaper.dmg".to_string(), "/tmp/reaper.dmg".to_string(), None),
        ),
    );
    let removal = InstalledPackage {
        remote: "ReaTeam".to_string(),
        category: "Scripts".to_string(),
        package: "old.lua".to_string(),
        desc: String::new(),
        typ: InstalledPackageType::Known(PackageType::Script),
        version: InstalledVersionName::Valid(VersionName::parse("0.5").unwrap()),
        author: String::new(),
        files: vec![],
    };
    let report = PreparationReport::new(
        vec![tool],
        PreDownloadFailures { incompatible_versions: vec![vid("Scripts", "bad.lua", "3.0")], ..no_failures() },
        vec![],
        vec![],
        vec![removal],
        vec![plan("added.lua", "1.0", None, Some("https://donate.example.org")), plan("replaced.lua", "2.0", Some("1.0"), None)],
    );
    let md = PreparationReportAsMarkdown::new(&report, options(true, false, false)).to_display_string();
    let expected = "\n# Installation report\n\
\n## 1 package failure\n|**Package**|**Version**|**Error**\n|:-|:-|:-\n| bad.lua | 3.0 | Incompatible with operating system or ReaBoot\n\
\n## 1 tooling change **[SKIPPED]**\n- **REAPER** 7.11\n\
\n## 1 package removal **[SKIPPED]**\n- **old.lua** 0.5 (Scripts)\n\
\n## 1 package replacement **[SKIPPED]**\n|**Package**|**Version**|**Replaces previously installed version**\n|:-|:-|:-\n| replaced.lua | 2.0 | 1.0\n\
\n## 1 package addition **[SKIPPED]**\n|**Package**|**Version**|**Donate**\n|:-|:-|:-\n| bad.lua | 3.0 | \n| added.lua | 1.0 | <a href=\"https://donate.example.org\" target=\"_blank\">Donate</a>\n| replaced.lua | 2.0 | \n";
    assert_eq!(md, expected);
}

#[test]
fn markdown_termimad_and_plural() {
    let report = PreparationReport::new(
        vec![],
        PreDownloadFailures {
            incompatible_versions: vec![vid("Scripts", "a.lua", "1"), vid("Scripts", "b.lua", "2")],
            ..no_failures()
        },
        vec![],
        vec![],
        vec![],
        vec![],
    );
    let mut opts = options(false, true, true);
    opts.include_main_heading = false;
    let md = PreparationReportAsMarkdown::new(&report, opts).to_display_string();
    let expected = "\n## 2 package failures\n|:-|:-|:-\n|**Package**|**Version**|**Error**\n|:-|:-|:-\n\
| a.lua | 1 | Incompatible with operating system or ReaBoot\n|-|-|-\n\
| b.lua | 2 | Incompatible with operating system or ReaBoot\n|-|-|-\n";
    assert_eq!(md, expected);
}

fn tool(file: &str) -> ToolDownload {
    ToolDownload::new(
        "7.22".to_string(),
        Download::new("https://www.reaper.fm/files/7.x/reaper722_x64-install.exe".to_string(), file.to_string(), None),
    )
}

#[test]
fn installer_decisions() {
    assert!(reaper_needs_preparation(&InstallationStage::NothingInstalled));
    assert!(!reaper_needs_preparation(&InstallationStage::InstalledReaper));
    assert!(!reaper_needs_preparation(&InstallationStage::Finished));

    let via_installer = ReaperPreparationOutcome::InstallMainViaInstaller(tool("/tmp/reaper-install.exe"));
    let changes = reaper_tooling_changes(Some(&via_installer));
    assert_eq!(changes.len(), 1);
    assert_eq!(changes[0].name, "REAPER");
    assert_eq!(changes[0].download.version, "7.22");
    assert!(reaper_tooling_changes(Some(&ReaperPreparationOutcome::InstallManually(tool("/tmp/x.dmg")))).is_empty());
    assert!(reaper_tooling_changes(None).is_empty());

    let clean = PreparationReport::new(vec![], no_failures(), vec![], vec![], vec![], vec![]);
    let failed = PreparationReport::new(
        vec![],
        PreDownloadFailures { incompatible_versions: vec![vid("Scripts", "bad.lua", "3.0")], ..no_failures() },
        vec![],
        vec![],
        vec![],
        vec![],
    );
    assert_eq!(next_step_after_preparation(true, false, &failed), NextStep::ReportOnly);
    assert_eq!(next_step_after_preparation(false, false, &failed), NextStep::FailBecausePackagesFailed);
    assert_eq!(next_step_after_preparation(false, true, &failed), NextStep::ApplyChanges);
    assert_eq!(next_step_after_preparation(false, false, &clean), NextStep::ApplyChanges);

    // Manual installation needs no work and hands out the installer.
    let manual = ReaperPreparationOutcome::InstallManually(tool("/tmp/reaper.dmg"));
    assert_eq!(install_reaper(&manual, false, |_| Err("never called".to_string())), Some("/tmp/reaper.dmg".to_string()));
    // The Windows installer runs; if it fails, the user gets it to run by hand.
    assert_eq!(install_reaper(&via_installer, false, |_| Ok(())), None);
    assert_eq!(install_reaper(&via_installer, false, |_| Err("denied".to_string())), Some("/tmp/reaper-install.exe".to_string()));
    let extracted = ReaperPreparationOutcome::InstallByMovingFromExtractedReaper {
        download: tool("/tmp/reaper.tar.xz"),
        dir_containing_reaper: "/tmp/extracted".to_string(),
    };
    let portable_only = |a: &ReaperInstallAction| match a {
        ReaperInstallAction::MovePortable(d) if d == "/tmp/extracted" => Ok(()),
        _ => Err("unexpected".to_string()),
    };
    assert_eq!(install_reaper(&extracted, true, portable_only), None);
    assert_eq!(install_reaper(&extracted, false, portable_only), Some("/tmp/reaper.tar.xz".to_string()));

    match final_installation_stage(&Err(InstallError::SomePackagesFailed(failed))) {
        InstallationStage::Failed { display_msg } => {
            assert_eq!(display_msg, "ReaBoot didn't install anything because some packages failed.")
        }
        other => panic!("unexpected stage {other:?}"),
    }
    match final_installation_stage(&Err(InstallError::Other("disk full".to_string()))) {
        InstallationStage::Failed { display_msg } => assert_eq!(display_msg, "disk full"),
        other => panic!("unexpected stage {other:?}"),
    }
}
