use reaboot::reapack_config::{
    encoding_for_code_page, get_os_encoding, Config, Remote, RemoteParseError, TextEncoding, REAPACK_CONFIG_VERSION,
};

fn remote(name: &str, url: &str, enabled: bool, auto_install: Option<bool>) -> Remote {
    Remote { name: name.to_string(), url: url.to_string(), enabled, auto_install }
}

#[test]
fn remote_from_full_ini_value() {
    let r = Remote::from_ini_value("ReaPack|https://reapack.com/index.xml|1|0").unwrap();
    assert_eq!(r.name, "ReaPack");
    assert_eq!(r.url, "https://reapack.com/index.xml");
    assert!(r.enabled);
    assert_eq!(r.auto_install, Some(false));
}

#[test]
fn remote_from_short_ini_value() {
    let r = Remote::from_ini_value("Mine|https://example.org/index.xml").unwrap();
    assert_eq!(r.name, "Mine");
    assert!(r.enabled);
    assert_eq!(r.auto_install, None);
    let r = Remote::from_ini_value("Mine|https://example.org/index.xml|0|2").unwrap();
    assert!(!r.enabled);
    assert_eq!(r.auto_install, None);
    let r = Remote::from_ini_value("Mine|https://example.org/index.xml|yes|1").unwrap();
    assert!(!r.enabled);
    assert_eq!(r.auto_install, Some(true));
}

#[test]
fn remote_url_is_normalized() {
    let r = Remote::from_ini_value("X|HTTPS://Example.org").unwrap();
    assert_eq!(r.url, "https://example.org/");
}

#[test]
fn remote_errors() {
    assert!(matches!(Remote::from_ini_value("just a name"), Err(RemoteParseError::MissingUrl)));
    assert!(matches!(Remote::from_ini_value("n|not a url"), Err(RemoteParseError::InvalidUrl(_))));
}

#[test]
fn remote_to_ini_value() {
    assert_eq!(
        remote("ReaPack", "https://reapack.com/index.xml", true, None).to_ini_value(),
        "ReaPack|https://reapack.com/index.xml|1|2"
    );
    assert_eq!(remote("A", "https://a.org/", false, Some(true)).to_ini_value(), "A|https://a.org/|0|1");
    assert_eq!(remote("A", "https://a.org/", true, Some(false)).to_ini_value(), "A|https://a.org/|1|0");
}

#[test]
fn remote_ini_roundtrip() {
    let original = remote("ReaTeam Scripts", "https://github.com/ReaTeam/ReaScripts/raw/master/index.xml", false, Some(true));
    let back = Remote::from_ini_value(&original.to_ini_value()).unwrap();
    assert_eq!(back.name, original.name);
    assert_eq!(back.url, original.url);
    assert_eq!(back.enabled, original.enabled);
    assert_eq!(back.auto_install, original.auto_install);
}

#[test]
fn code_pages() {
    assert_eq!(encoding_for_code_page(1252), TextEncoding::Windows1252);
    assert_eq!(encoding_for_code_page(28591), TextEncoding::Windows1252);
    assert_eq!(encoding_for_code_page(28599), TextEncoding::Windows1254);
    assert_eq!(encoding_for_code_page(38598), TextEncoding::Iso8859_8);
    assert_eq!(encoding_for_code_page(50221), TextEncoding::Iso2022Jp);
    assert_eq!(encoding_for_code_page(20866), TextEncoding::Koi8R);
    assert_eq!(encoding_for_code_page(65001), TextEncoding::Utf8);
    assert_eq!(get_os_encoding(None), TextEncoding::Utf8);
    assert_eq!(get_os_encoding(Some(1251)), TextEncoding::Windows1251);
}

fn names(config: &Config) -> Vec<String> {
    config.remote_by_name.keys().cloned().collect()
}

#[test]
fn defaults() {
    let config = Config::with_defaults(TextEncoding::Utf8);
    assert_eq!(config.general_version, REAPACK_CONFIG_VERSION);
    assert_eq!(config.general_version, 4);
    assert_eq!(
        names(&config),
        vec![
            "ReaPack",
            "ReaTeam Scripts",
            "ReaTeam JSFX",
            "ReaTeam Themes",
            "ReaTeam LangPacks",
            "ReaTeam Extensions",
            "MPL Scripts",
            "X-Raym Scripts"
        ]
    );
    assert_eq!(config.remote_by_name["ReaPack"].url, "https://reapack.com/index.xml");
    assert!(config.remote_by_name.values().all(|r| r.enabled && r.auto_install.is_none()));
}

#[test]
fn add_remote_replaces_in_place() {
    let mut config = Config::with_defaults(TextEncoding::Utf8);
    config.add_remote(remote("ReaTeam JSFX", "https://example.org/jsfx.xml", false, None));
    config.add_remote(remote("Mine", "https://example.org/mine.xml", true, Some(true)));
    let n = names(&config);
    assert_eq!(n.len(), 9);
    assert_eq!(n[2], "ReaTeam JSFX");
    assert_eq!(n[8], "Mine");
    assert_eq!(config.remote_by_name["ReaTeam JSFX"].url, "https://example.org/jsfx.xml");
    assert!(!config.remote_by_name["ReaTeam JSFX"].enabled);
}

#[test]
fn migrate_old_config() {
    let mut ini = ini::Ini::new();
    ini.with_section(Some("general")).set("version", "3");
    ini.with_section(Some("remotes"))
        .set("size", "1")
        .set("remote0", "ReaPack|https://reapack.com/index.xml|0|2");
    let mut config = Config::from_ini(&ini, TextEncoding::Utf8);
    assert_eq!(config.general_version, 3);
    assert!(!config.remote_by_name["ReaPack"].enabled);
    assert!(config.migrate());
    assert_eq!(config.general_version, 4);
    assert!(config.remote_by_name["ReaPack"].enabled);
    assert_eq!(names(&config).len(), 8);
    // A second migration does nothing.
    assert!(!config.migrate());
}

#[test]
fn migrate_current_config_does_nothing() {
    let mut ini = ini::Ini::new();
    ini.with_section(Some("general")).set("version", "4");
    let mut config = Config::from_ini(&ini, TextEncoding::Utf8);
    assert!(!config.migrate());
    assert!(names(&config).is_empty());
}

#[test]
fn from_ini_skips_broken_remotes_and_defaults_to_zero() {
    let mut ini = ini::Ini::new();
    ini.with_section(Some("general")).set("version", "x");
    ini.with_section(Some("remotes"))
        .set("size", "4")
        .set("remote0", "A|https://a.org/")
        .set("remote1", "broken")
        .set("remote3", "C|https://c.org/")
        .set("remote4", "D|https://d.org/");
    let config = Config::from_ini(&ini, TextEncoding::Windows1252);
    assert_eq!(config.general_version, 0);
    assert_eq!(config.encoding, TextEncoding::Windows1252);
    assert_eq!(names(&config), vec!["A", "C"]);
}

#[test]
fn apply_to_ini_and_read_back() {
    let mut config = Config::with_defaults(TextEncoding::Utf8);
    config.add_remote(remote("Mine", "https://example.org/mine.xml", false, Some(true)));
    let mut ini = ini::Ini::new();
    ini.with_section(Some("general")).set("other", "kept");
    ini.with_section(Some("remotes")).set("remote42", "gone");
    ini.with_section(Some("elsewhere")).set("key", "kept too");
    config.apply_to_ini(&mut ini);
    assert_eq!(ini.get_from(Some("general"), "version"), Some("4"));
    assert_eq!(ini.get_from(Some("general"), "other"), Some("kept"));
    assert_eq!(ini.get_from(Some("elsewhere"), "key"), Some("kept too"));
    assert_eq!(ini.get_from(Some("remotes"), "size"), Some("9"));
    assert_eq!(ini.get_from(Some("remotes"), "remote42"), None);
    assert_eq!(ini.get_from(Some("remotes"), "remote0"), Some("ReaPack|https://reapack.com/index.xml|1|2"));
    assert_eq!(ini.get_from(Some("remotes"), "remote8"), Some("Mine|https://example.org/mine.xml|0|1"));
    let back = Config::from_ini(&ini, TextEncoding::Utf8);
    assert_eq!(back.general_version, config.general_version);
    assert_eq!(names(&back), names(&config));
    assert!(!back.remote_by_name["Mine"].enabled);
    assert_eq!(back.remote_by_name["Mine"].auto_install, Some(true));
}

#[test]
fn downloaded_indexes_become_enabled_remotes() {
    let mut config = Config::with_defaults(TextEncoding::Utf8);
    // Disable a default remote that an index will register again.
    config.add_remote(remote("ReaTeam Scripts", "https://example.org/old.xml", false, Some(false)));
    let indexes = vec![
        ("Helgoboss Projects".to_string(), "https://github.com/helgoboss/reaper-packages/raw/master/index.xml".to_string()),
        ("ReaTeam Scripts".to_string(), "https://github.com/ReaTeam/ReaScripts/raw/master/index.xml".to_string()),
    ];
    config.add_index_remotes(&indexes);
    let n = names(&config);
    assert_eq!(n.len(), 9);
    assert_eq!(n[1], "ReaTeam Scripts");
    assert_eq!(n[8], "Helgoboss Projects");
    let scripts = &config.remote_by_name["ReaTeam Scripts"];
    assert_eq!(scripts.url, "https://github.com/ReaTeam/ReaScripts/raw/master/index.xml");
    assert!(scripts.enabled);
    assert_eq!(scripts.auto_install, None);
    let helgoboss = &config.remote_by_name["Helgoboss Projects"];
    assert!(helgoboss.enabled);
    assert_eq!(helgoboss.url, "https://github.com/helgoboss/reaper-packages/raw/master/index.xml");
    // Names that no index takes keep their remotes.
    assert_eq!(config.remote_by_name["ReaPack"].url, "https://reapack.com/index.xml");
}
