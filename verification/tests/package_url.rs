use reaboot::resolved_config::{parse_package_urls, resolve_package_urls, PackageUrlsError};
use reaboot::package_url::{PackagePath, PackageUrl, PackageVersionRef, ParsePackageUrlError};
use reaboot::version::VersionRef;

#[test]
fn parse_package_url_with_version() {
    let url = PackageUrl::parse(
        "https://github.com/ReaTeam/ReaScripts/raw/master/index.xml#p=Various/rodilab_Color%20palette.lua&v=1.2.3-pre",
    )
    .unwrap();
    assert_eq!(url.repository_url(), "https://github.com/ReaTeam/ReaScripts/raw/master/index.xml");
    assert_eq!(url.category(), "Various");
    assert_eq!(url.package_name(), "rodilab_Color palette.lua");
    match url.version_ref() {
        VersionRef::Specific(v) => assert_eq!(v.as_str(), "1.2.3-pre"),
        _ => panic!("expected a specific version"),
    }
}

#[test]
fn parse_package_url_without_version_means_latest() {
    let url =
        PackageUrl::parse("https://github.com/helgoboss/reaper-packages/raw/master/index.xml#p=Extensions/Helgobox-x64")
            .unwrap();
    assert_eq!(url.repository_url(), "https://github.com/helgoboss/reaper-packages/raw/master/index.xml");
    assert_eq!(url.category(), "Extensions");
    assert_eq!(url.package_name(), "Helgobox-x64");
    assert!(matches!(url.version_ref(), VersionRef::Latest));
}

#[test]
fn parse_package_url_latest_pre_and_order() {
    let url = PackageUrl::parse("https://example.org/index.xml#v=latest-pre&p=Cat/Name").unwrap();
    assert!(matches!(url.version_ref(), VersionRef::LatestPre));
    assert_eq!(url.category(), "Cat");
    assert_eq!(url.package_name(), "Name");
}

#[test]
fn parse_package_url_errors() {
    assert!(matches!(PackageUrl::parse("not a url"), Err(ParsePackageUrlError::InvalidUrl(_))));
    assert!(matches!(
        PackageUrl::parse("https://example.org/index.xml"),
        Err(ParsePackageUrlError::MissingFragmentIdentifier)
    ));
    assert!(matches!(
        PackageUrl::parse("https://example.org/index.xml#v=1.0"),
        Err(ParsePackageUrlError::MissingPackagePath)
    ));
    assert!(matches!(
        PackageUrl::parse("https://example.org/index.xml#p=NoSlash"),
        Err(ParsePackageUrlError::InvalidPackagePath)
    ));
    assert!(matches!(
        PackageUrl::parse("https://example.org/index.xml#p=A/B&v="),
        Err(ParsePackageUrlError::InvalidVersionRef)
    ));
}

#[test]
fn package_path_splits_at_last_slash() {
    let path = PackagePath::parse("A/B/C").unwrap();
    assert_eq!(path.category(), "A/B");
    assert_eq!(path.package_name(), "C");
}

#[test]
fn package_version_ref_parse() {
    let r = PackageVersionRef::parse("p=Various/x.lua&v=2.0").unwrap();
    assert_eq!(r.category(), "Various");
    assert_eq!(r.package_name(), "x.lua");
    match r.version_ref() {
        VersionRef::Specific(v) => assert_eq!(v.as_str(), "2.0"),
        _ => panic!("expected a specific version"),
    }
}

#[test]
fn package_url_from_parts() {
    let path = PackagePath::from_parts("Extensions".to_string(), "ReaPack.ext".to_string());
    let vref = PackageVersionRef::from_parts(path, VersionRef::Latest);
    let url = PackageUrl::from_parts("https://reapack.com/index.xml".to_string(), vref);
    assert_eq!(url.repository_url(), "https://reapack.com/index.xml");
    assert_eq!(url.package_name(), "ReaPack.ext");
}

#[test]
fn reapack_package_url() {
    let u = reaboot::resolved_config::create_reapack_package_url();
    assert_eq!(u.repository_url(), "https://reapack.com/index.xml");
    assert_eq!(u.category(), "Extensions");
    assert_eq!(u.package_name(), "ReaPack.ext");
    assert!(matches!(u.version_ref(), VersionRef::Latest));
}

#[test]
fn package_urls_are_user_then_reapack_then_recipe() {
    let user = vec!["https://github.com/helgoboss/reaper-packages/raw/master/index.xml#p=Extensions/ReaLearn-x64&v=latest".to_string()];
    let recipe = vec![
        "https://github.com/ReaTeam/ReaScripts/raw/master/index.xml#p=Various/rodilab_Color%20palette.lua".to_string(),
    ];
    let urls = resolve_package_urls(&user, Some(&recipe)).unwrap();
    assert_eq!(urls.len(), 3);
    assert_eq!(urls[0].package_name(), "ReaLearn-x64");
    assert_eq!(urls[1].package_name(), "ReaPack.ext");
    assert_eq!(urls[2].package_name(), "rodilab_Color palette.lua");
    let only_user = resolve_package_urls(&user, None).unwrap();
    assert_eq!(only_user.len(), 2);
    assert_eq!(only_user[1].repository_url(), "https://reapack.com/index.xml");
    // The first unreadable URL ends the reading.
    let broken = vec!["https://example.org/index.xml".to_string(), "no url".to_string()];
    assert!(matches!(parse_package_urls(&broken), Err(ParsePackageUrlError::MissingFragmentIdentifier)));
    assert!(matches!(
        resolve_package_urls(&broken, Some(&recipe)),
        Err(PackageUrlsError::UserProvided(ParsePackageUrlError::MissingFragmentIdentifier))
    ));
    let bad_recipe = vec!["https://example.org/index.xml#v=latest".to_string()];
    assert!(matches!(
        resolve_package_urls(&user, Some(&bad_recipe)),
        Err(PackageUrlsError::Recipe(ParsePackageUrlError::MissingPackagePath))
    ));
    assert_eq!(parse_package_urls(&vec![]).unwrap().len(), 0);
}

#[test]
fn index_downloads_once_per_repository() {
    let urls: Vec<PackageUrl> = [
        "https://a.org/index.xml#p=X/one.lua",
        "https://b.org/index.xml#p=Y/two.lua",
        "https://a.org/index.xml#p=X/three.lua",
    ]
    .iter()
    .map(|u| PackageUrl::parse(u).unwrap())
    .collect();
    let downloads = reaboot::installer::repository_index_downloads(&urls, "/tmp/cache");
    assert_eq!(
        downloads,
        vec![
            ("https://a.org/index.xml".to_string(), "/tmp/cache/0".to_string()),
            ("https://b.org/index.xml".to_string(), "/tmp/cache/1".to_string()),
        ]
    );
}

#[test]
fn first_index_of_a_name_wins() {
    let results = vec![
        ("https://a.org/index.xml".to_string(), Some("ReaTeam".to_string())),
        ("https://b.org/index.xml".to_string(), None),
        ("https://c.org/index.xml".to_string(), Some("ReaTeam".to_string())),
        ("https://d.org/index.xml".to_string(), Some("Other".to_string())),
    ];
    assert_eq!(
        reaboot::installer::select_downloaded_indexes(&results),
        vec![
            ("https://a.org/index.xml".to_string(), "ReaTeam".to_string(), "ReaTeam.xml".to_string()),
            ("https://d.org/index.xml".to_string(), "Other".to_string(), "Other.xml".to_string()),
        ]
    );
}
