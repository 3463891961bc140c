use reaboot::installation_model::{
    get_platform_compatible_sources, identify_incomplete_versions, remove_incomplete_versions, weed_out_conflicting_files_with_already_installed_packages,
};
use reaboot::installed_package::{InstalledFile, InstalledPackage, InstalledPackageType, InstalledVersionName, PackageType};
use reaboot::package_id::PackageId;
use reaboot::platform::Platform;
use reaboot::reaper_platform::ReaperPlatform;
use reaboot::preparation_report::RecipeFileConflict;
use reaboot::version::VersionName;
use reaboot::version_id::VersionId;

fn vid(package: &str, version: &str) -> VersionId {
    VersionId {
        package_id: PackageId {
            remote: "ReaTeam Scripts".to_string(),
            category: "Various".to_string(),
            package: package.to_string(),
        },
        version: VersionName::parse(version).unwrap(),
    }
}

fn installed(package: &str, paths: &[&str]) -> InstalledPackage {
    InstalledPackage {
        remote: "ReaTeam Scripts".to_string(),
        category: "Various".to_string(),
        package: package.to_string(),
        desc: String::new(),
        typ: InstalledPackageType::Known(PackageType::Script),
        version: InstalledVersionName::Valid(VersionName::parse("1.0").unwrap()),
        author: String::new(),
        files: paths
            .iter()
            .map(|p| InstalledFile { path: p.to_string(), sections: None, typ: None })
            .collect(),
    }
}

#[test]
fn files_clashing_with_installed_packages_are_set_aside_in_order() {
    let installed = vec![installed("a.lua", &["Scripts/a.lua", "Scripts/a-helper.lua"]), installed("b.lua", &["Scripts/b.lua"])];
    let files = vec![
        ("Scripts/new.lua".to_string(), 1),
        ("Scripts/b.lua".to_string(), 2),
        ("Scripts/other.lua".to_string(), 3),
        ("Scripts/a-helper.lua".to_string(), 4),
    ];
    let (kept, conflicting) = weed_out_conflicting_files_with_already_installed_packages(files, &installed);
    assert_eq!(kept.iter().map(|f| f.1).collect::<Vec<_>>(), vec![1, 3]);
    assert_eq!(conflicting.iter().map(|f| f.1).collect::<Vec<_>>(), vec![2, 4]);
    let (kept, conflicting) = weed_out_conflicting_files_with_already_installed_packages(
        vec![("Scripts/a.lua".to_string(), ())],
        &vec![],
    );
    assert_eq!(kept.len(), 1);
    assert!(conflicting.is_empty());
}

#[test]
fn versions_with_clashing_files_are_dropped_entirely() {
    let conflicts = vec![RecipeFileConflict {
        relative_path: "Scripts/common.lua".to_string(),
        conflicting_files: vec![vid("x.lua", "1.0"), vid("y.lua", "2.0")],
    }];
    let incomplete = identify_incomplete_versions(&conflicts);
    assert_eq!(incomplete.len(), 2);
    let mut sources = vec![
        (vid("x.lua", "1.0"), "Scripts/x.lua"),
        (vid("z.lua", "1.0"), "Scripts/z.lua"),
        (vid("y.lua", "2.0"), "Scripts/y-data.txt"),
        // Another version of a package with an incomplete version stays.
        (vid("x.lua", "1.1"), "Scripts/x-new.lua"),
        (vid("z.lua", "1.0"), "Scripts/z-data.txt"),
    ];
    remove_incomplete_versions(&mut sources, &conflicts);
    assert_eq!(sources.iter().map(|s| s.1).collect::<Vec<_>>(), vec!["Scripts/z.lua", "Scripts/x-new.lua", "Scripts/z-data.txt"]);
    let mut untouched = vec![(vid("x.lua", "1.0"), 1)];
    remove_incomplete_versions(&mut untouched, &vec![]);
    assert_eq!(untouched.len(), 1);
}

#[test]
fn only_sources_for_the_target_platform_remain() {
    let sources = vec![
        (Some(Platform::All), "all"),
        (Some(Platform::Darwin), "mac"),
        (None, "unknown"),
        (Some(Platform::Win64), "win64"),
        (Some(Platform::Windows), "windows"),
        (Some(Platform::Win32), "win32"),
    ];
    let r = get_platform_compatible_sources(sources, ReaperPlatform::WindowsX64);
    assert_eq!(r.iter().map(|s| s.1).collect::<Vec<_>>(), vec!["all", "win64", "windows"]);
}
