use reaboot::recipe_id_extractor::extract;

#[test]
fn basics() {
    assert_eq!(extract("reaboot-helgobox-installer.exe"), Some("helgobox"));
    assert_eq!(
        extract("blub-helgobox-playtime-installer.exe"),
        Some("blub-helgobox-playtime")
    );
    assert_eq!(extract("helgobox-installer.exe"), Some("helgobox"));
    assert_eq!(
        extract("reaboot-helgobox-playtime-installer.exe"),
        Some("helgobox-playtime")
    );
    assert_eq!(
        extract("helgobox-playtime-installer.exe"),
        Some("helgobox-playtime")
    );
    assert_eq!(
        extract("helgobox-playtime-installer"),
        Some("helgobox-playtime")
    );
    assert_eq!(
        extract("reaboot-helgobox-playtime-installer"),
        Some("helgobox-playtime")
    );
    assert_eq!(
        extract("reaboot-helgobox-playtime-installer (2).exe"),
        Some("helgobox-playtime")
    );
    assert_eq!(
        extract("helgobox-playtime-installer (1).exe"),
        Some("helgobox-playtime")
    );
    assert_eq!(extract("reaboot-helgobox-playtime.exe"), None);
    assert_eq!(extract("helgobox-playtime.exe"), None);
}

#[test]
fn extract_keeps_unicode_before_marker() {
    assert_eq!(extract("reaboot-müsik-installer.exe"), Some("müsik"));
}

#[test]
fn extract_empty_id() {
    assert_eq!(extract("reaboot--installer.exe"), Some(""));
    assert_eq!(extract("-installer"), Some(""));
    assert_eq!(extract(""), None);
}

#[test]
fn extract_first_marker_wins() {
    assert_eq!(extract("a-installer-b-installer"), Some("a"));
}
