use reaboot::database::{
    convert_db_entry_to_model, convert_db_file_to_model, convert_db_package_type_to_model, convert_db_sections_to_model,
    convert_db_version_name_to_model, convert_model_package_type_to_db, convert_model_sections_to_db,
    convert_model_version_name_to_db, migration_steps, reapack_db_user_version, uninitialized_db_user_version,
    complain_if_reapack_db_too_new, CompatibilityInfo, DbEntry, DbFile, DbUserVersion, MigrationAction, MigrationStep,
};
use reaboot::installed_package::{InstalledPackageType, InstalledVersionName, PackageType};
use reaboot::package_id::{LightPackageId, PackageId};
use reaboot::section::{Section, SectionSet};
use reaboot::version::{VersionName, VersionRef};
use reaboot::version_id::VersionId;

#[test]
fn user_version_raw() {
    assert_eq!(DbUserVersion::from_raw(6), DbUserVersion { major: 0, minor: 6 });
    assert_eq!(DbUserVersion::from_raw(0x10006), DbUserVersion { major: 1, minor: 6 });
    assert_eq!(DbUserVersion { major: 1, minor: 6 }.to_raw(), 0x10006);
    assert_eq!(DbUserVersion { major: 0, minor: -1 }.to_raw(), -1);
    assert_eq!(DbUserVersion::from_raw(-1), DbUserVersion { major: -1, minor: -1 });
    assert_eq!(reapack_db_user_version(), DbUserVersion { major: 0, minor: 6 });
    assert_eq!(uninitialized_db_user_version(), DbUserVersion { major: 0, minor: 0 });
}

#[test]
fn compatibility() {
    assert_eq!(DbUserVersion { major: 0, minor: 6 }.compatibility_info(), CompatibilityInfo::PerfectlyCompatible);
    assert_eq!(DbUserVersion { major: 0, minor: 3 }.compatibility_info(), CompatibilityInfo::CompatibleButNeedsMigration);
    assert_eq!(DbUserVersion { major: 0, minor: 7 }.compatibility_info(), CompatibilityInfo::DbNewerButCompatible);
    assert_eq!(DbUserVersion { major: 1, minor: 0 }.compatibility_info(), CompatibilityInfo::DbTooNew);
}

#[test]
fn migrations() {
    assert_eq!(DbUserVersion { major: 0, minor: 7 }.migration_action(), MigrationAction::LeaveAlone);
    assert_eq!(DbUserVersion { major: 0, minor: 0 }.migration_action(), MigrationAction::Initialize);
    assert_eq!(
        DbUserVersion { major: 0, minor: 4 }.migration_action(),
        MigrationAction::MigrateFrom(DbUserVersion { major: 0, minor: 4 })
    );
    assert_eq!(
        migration_steps(DbUserVersion { major: 0, minor: 4 }),
        vec![MigrationStep::ConvertImplicitSections, MigrationStep::RenamePinnedToFlags]
    );
    assert_eq!(migration_steps(DbUserVersion { major: 0, minor: 6 }), vec![]);
    assert_eq!(migration_steps(DbUserVersion { major: 0, minor: 1 }).len(), 5);
    assert_eq!(MigrationStep::ConvertImplicitSections.sql(), None);
    assert_eq!(
        MigrationStep::RenamePinnedToFlags.sql(),
        Some("ALTER TABLE entries RENAME COLUMN pinned TO flags;")
    );
}

#[test]
fn package_types_and_versions() {
    assert_eq!(convert_db_package_type_to_model(2), InstalledPackageType::Known(PackageType::Extension));
    assert_eq!(convert_db_package_type_to_model(99), InstalledPackageType::Unknown(99));
    assert_eq!(convert_model_package_type_to_db(InstalledPackageType::Known(PackageType::Theme)), 5);
    assert_eq!(convert_model_package_type_to_db(InstalledPackageType::Unknown(-3)), -3);
    assert_eq!(PackageType::AutomationItem.code(), 11);
    assert_eq!(PackageType::from_code(1), Some(PackageType::Script));
    assert_eq!(PackageType::from_code(0), None);
    assert!(matches!(convert_db_version_name_to_model("1.0".to_string()), InstalledVersionName::Valid(_)));
    assert!(matches!(convert_db_version_name_to_model(String::new()), InstalledVersionName::Invalid(_)));
    assert_eq!(convert_model_version_name_to_db(InstalledVersionName::Invalid("x".to_string())), "x");
    assert_eq!(InstalledVersionName::Valid(VersionName::parse("2.1").unwrap()).to_display_string(), "2.1");
}

#[test]
fn sections() {
    let mut set = SectionSet::new();
    set.insert(Section::Main);
    set.insert(Section::MediaExplorer);
    assert_eq!(set.as_u32(), 0b10001);
    assert_eq!(convert_model_sections_to_db(Some(set)), 17);
    assert_eq!(convert_model_sections_to_db(None), -1);
    assert!(convert_db_sections_to_model(-1).is_none());
    assert_eq!(convert_db_sections_to_model(0b110).unwrap().as_u32(), 0b110);
    assert_eq!(convert_db_sections_to_model(0xff).unwrap().as_u32(), 0b11111);
    assert_eq!(Section::MidiEditor.name(), "midi_editor");
    assert_eq!(Section::from_index(4), Some(Section::MediaExplorer));
    assert_eq!(Section::from_index(5), None);
    assert_eq!(Section::MidiInlineEditor.index(), 2);
    assert_eq!(Section::detect_from_first_component("MIDI Editor"), Section::MidiEditor);
    assert_eq!(Section::detect_from_first_component("Various"), Section::Main);
    assert_eq!(Section::detect_from_category_legacy("MIDI Editor/Tools"), Section::MidiEditor);
    assert_eq!(Section::detect_from_category_legacy("Items/Tools"), Section::Main);
    assert_eq!(Section::detect_from_category_legacy(""), Section::Main);
    assert_eq!(Section::detect_from_category_legacy("midi editor"), Section::MidiEditor);
    assert_eq!(Section::detect_from_category_legacy("./MIDI Editor"), Section::Main);
}

#[test]
fn db_rows_to_model() {
    let file = DbFile { id: 1, entry: 7, path: "Scripts/a.lua".to_string(), main: -1, typ: 0 };
    let f = convert_db_file_to_model(file);
    assert_eq!(f.path, "Scripts/a.lua");
    assert!(f.sections.is_none());
    assert!(f.typ.is_none());
    let entry = DbEntry {
        id: 7,
        remote: "ReaTeam".to_string(),
        category: "Scripts".to_string(),
        package: "a.lua".to_string(),
        desc: "An A".to_string(),
        typ: 1,
        version: "1.0".to_string(),
        author: "me".to_string(),
        flags: Some(0),
    };
    let files = vec![DbFile { id: 2, entry: 7, path: "Scripts/b.lua".to_string(), main: 1, typ: 3 }];
    let p = convert_db_entry_to_model(entry, files);
    assert_eq!(p.package, "a.lua");
    assert_eq!(p.typ, InstalledPackageType::Known(PackageType::Script));
    assert_eq!(p.files.len(), 1);
    assert_eq!(p.files[0].path, "Scripts/b.lua");
    assert_eq!(p.files[0].typ, Some(InstalledPackageType::Known(PackageType::Effect)));
    assert_eq!(p.to_display_string(), "a.lua 1.0");
    let id = p.package_id();
    assert_eq!((id.remote, id.category, id.package), ("ReaTeam", "Scripts", "a.lua"));
}

#[test]
fn versions_and_ids() {
    assert!(VersionName::parse("").is_err());
    assert_eq!(VersionName::parse("1.0").unwrap().as_str(), "1.0");
    assert!(matches!(VersionRef::parse("latest"), Ok(VersionRef::Latest)));
    assert!(matches!(VersionRef::parse("latest-pre"), Ok(VersionRef::LatestPre)));
    assert!(VersionRef::parse("").is_err());
    assert_eq!(VersionRef::parse("1.2").unwrap().to_text(), "1.2");
    assert_eq!(VersionRef::LatestPre.to_text(), "latest-pre");
    assert!(VersionRef::default() == VersionRef::Latest);
    assert!(VersionRef::from(VersionName::parse("3").unwrap()) == VersionRef::parse("3").unwrap());
    let id = PackageId { remote: "r".to_string(), category: "c".to_string(), package: "p".to_string() };
    // The borrowed form holds the same three parts.
    let light = id.to_borrowed();
    assert_eq!((light.remote, light.category, light.package), ("r", "c", "p"));
    assert!(light.to_owned() == id);
    let owned = LightPackageId { remote: "r", category: "c", package: "p" }.to_owned();
    assert!(owned == id);
    let vid = VersionId { package_id: id, version: VersionName::parse("1.0").unwrap() };
    assert_eq!(vid.to_display_string(), "p 1.0");
    assert_eq!(vid.borrowed().version.as_str(), "1.0");
}

fn entry(id: i32, package: &str) -> DbEntry {
    DbEntry {
        id,
        remote: "r".to_string(),
        category: "c".to_string(),
        package: package.to_string(),
        desc: String::new(),
        typ: 1,
        version: "1.0".to_string(),
        author: String::new(),
        flags: None,
    }
}

fn file(id: i32, entry: i32, path: &str) -> DbFile {
    DbFile { id, entry, path: path.to_string(), main: 0, typ: 0 }
}

#[test]
fn installed_packages_group_files_by_entry() {
    let entries = vec![entry(1, "a"), entry(2, "b"), entry(1, "dup")];
    let files = vec![file(10, 2, "f1"), file(11, 1, "f2"), file(12, 3, "f3"), file(13, 1, "f4")];
    let packages = reaboot::database::installed_packages_from_rows(entries, files);
    assert_eq!(packages.len(), 3);
    let paths = |i: usize| packages[i].files.iter().map(|f| f.path.clone()).collect::<Vec<_>>();
    assert_eq!(packages[0].package, "a");
    assert_eq!(paths(0), vec!["f2", "f4"]);
    assert_eq!(paths(1), vec!["f1"]);
    // A second entry with the same id gets no files: the first one took them.
    assert_eq!(packages[2].package, "dup");
    assert!(paths(2).is_empty());
    assert!(packages[0].files[0].sections.is_some());
}

#[test]
fn only_a_too_new_reapack_db_is_refused() {
    assert_eq!(complain_if_reapack_db_too_new(None), Ok(()));
    assert_eq!(complain_if_reapack_db_too_new(Some(reapack_db_user_version())), Ok(()));
    assert_eq!(complain_if_reapack_db_too_new(Some(DbUserVersion { major: 0, minor: 3 })), Ok(()));
    assert_eq!(complain_if_reapack_db_too_new(Some(DbUserVersion { major: 0, minor: 9 })), Ok(()));
    let err = complain_if_reapack_db_too_new(Some(DbUserVersion { major: 1, minor: 0 })).unwrap_err();
    assert!(err.starts_with("This ReaBoot version is too old to handle your installed ReaPack database."));
}

#[test]
fn index_sections_keep_known_ones() {
    assert!(reaboot::section::convert_index_section_to_model(&None).is_none());
    let set = reaboot::section::convert_index_section_to_model(&Some(vec![
        Some(Section::Main),
        None,
        Some(Section::MediaExplorer),
        Some(Section::Main),
    ]))
    .unwrap();
    assert_eq!(set.as_u32(), 0b10001);
    let empty = reaboot::section::convert_index_section_to_model(&Some(vec![None])).unwrap();
    assert_eq!(empty.as_u32(), 0);
}

#[test]
fn added_package_rows_read_back() {
    let mut sections = SectionSet::new();
    sections.insert(Section::MidiEditor);
    let package = reaboot::installed_package::InstalledPackage {
        remote: "ReaTeam Scripts".to_string(),
        category: "MIDI Editor".to_string(),
        package: "tool.lua".to_string(),
        desc: "A tool".to_string(),
        typ: InstalledPackageType::Known(PackageType::Script),
        version: InstalledVersionName::Valid(VersionName::parse("1.2").unwrap()),
        author: "someone".to_string(),
        files: vec![
            reaboot::installed_package::InstalledFile { path: "Scripts/tool.lua".to_string(), sections: Some(sections), typ: None },
            reaboot::installed_package::InstalledFile {
                path: "Data/tool.dat".to_string(),
                sections: None,
                typ: Some(InstalledPackageType::Known(PackageType::Data)),
            },
        ],
    };
    let (entry, files) = reaboot::database::add_package_rows(package, 42);
    assert_eq!(entry.typ, 1);
    assert_eq!(entry.version, "1.2");
    assert_eq!(entry.flags, Some(0));
    assert_eq!(files.len(), 2);
    assert_eq!((files[0].entry, files[0].main, files[0].typ), (42, 2, 0));
    assert_eq!((files[1].entry, files[1].main, files[1].typ), (42, -1, 4));
    let db_entry = DbEntry {
        id: 42,
        remote: entry.remote,
        category: entry.category,
        package: entry.package,
        desc: entry.desc,
        typ: entry.typ,
        version: entry.version,
        author: entry.author,
        flags: entry.flags,
    };
    let db_files = files
        .into_iter()
        .enumerate()
        .map(|(i, f)| DbFile { id: i as i32, entry: f.entry, path: f.path, main: f.main, typ: f.typ })
        .collect();
    let back = convert_db_entry_to_model(db_entry, db_files);
    assert_eq!(back.package, "tool.lua");
    assert_eq!(back.files[0].path, "Scripts/tool.lua");
    assert_eq!(back.files[0].sections.map(|s| s.as_u32()), Some(2));
    assert!(back.files[0].typ.is_none());
    assert!(back.files[1].sections.is_none());
    assert_eq!(back.files[1].typ, Some(InstalledPackageType::Known(PackageType::Data)));
}

#[test]
fn migration_raises_the_user_version() {
    let current = reapack_db_user_version();
    assert_eq!(DbUserVersion { major: 0, minor: 4 }.version_after_migration(), current);
    assert_eq!(uninitialized_db_user_version().version_after_migration(), current);
    assert_eq!(current.version_after_migration(), current);
    assert_eq!(DbUserVersion { major: 0, minor: 7 }.version_after_migration(), DbUserVersion { major: 0, minor: 7 });
}

#[test]
fn installed_package_record_of_a_version() {
    let vid = VersionId {
        package_id: PackageId { remote: "ReaTeam".to_string(), category: "Various".to_string(), package: "tool.lua".to_string() },
        version: VersionName::parse("2.1").unwrap(),
    };
    let record = reaboot::installer::installed_package_record(
        &vid,
        None,
        PackageType::Script,
        Some("someone".to_string()),
        vec![
            ("Scripts/ReaTeam/Various/tool.lua".to_string(), None, None),
            ("Data/tool.dat".to_string(), Some(vec![Some(Section::MidiEditor), None]), Some(PackageType::Data)),
        ],
    );
    assert_eq!((record.remote.as_str(), record.category.as_str(), record.package.as_str()), ("ReaTeam", "Various", "tool.lua"));
    assert_eq!(record.desc, "");
    assert_eq!(record.author, "someone");
    assert_eq!(record.typ, InstalledPackageType::Known(PackageType::Script));
    assert!(matches!(&record.version, InstalledVersionName::Valid(v) if v.as_str() == "2.1"));
    assert_eq!(record.files.len(), 2);
    assert!(record.files[0].sections.is_none());
    assert_eq!(record.files[1].sections.map(|s| s.as_u32()), Some(2));
    assert_eq!(record.files[1].typ, Some(InstalledPackageType::Known(PackageType::Data)));
}
