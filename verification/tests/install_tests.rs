use devstore_sdk::install::{render_manifest, MANIFEST_FILE_NAME, UPDATE_DIR_NAME};

#[test]
fn manifest_records_the_install_directory() {
    assert_eq!(
        render_manifest("/home/u/prefs/update"),
        "{\"path\":\"/home/u/prefs/update\"}"
    );
}

#[test]
fn manifest_escapes_quotes_and_backslashes() {
    assert_eq!(
        render_manifest("C:\\Games\\update"),
        "{\"path\":\"C:\\\\Games\\\\update\"}"
    );
    assert_eq!(render_manifest("a\"b"), "{\"path\":\"a\\\"b\"}");
    assert_eq!(render_manifest("a\tb"), "{\"path\":\"a b\"}");
}

#[test]
fn manifest_parses_back_as_json() {
    let text = render_manifest("C:\\Games\\update dir");
    let doc: serde_json::Value = serde_json::from_str(&text).unwrap();
    assert_eq!(doc.get("path").unwrap().as_str().unwrap(), "C:\\Games\\update dir");
}

#[test]
fn install_names_are_fixed() {
    assert_eq!(UPDATE_DIR_NAME, "update");
    assert_eq!(MANIFEST_FILE_NAME, "current_version.json");
}
