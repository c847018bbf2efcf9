use devstore_sdk::cache::{load_cache, render_cache, DedupCache};

#[test]
fn load_on_missing_file_is_empty() {
    let c = load_cache(None);
    assert!(c.ids().is_empty());
}

#[test]
fn load_on_corrupt_text_is_empty() {
    assert!(load_cache(Some("definitely not json")).ids().is_empty());
    assert!(load_cache(Some("{\"shown_ids\":")).ids().is_empty());
    assert!(load_cache(Some("")).ids().is_empty());
}

#[test]
fn load_on_wrong_shape_is_empty() {
    assert!(load_cache(Some("{}")).ids().is_empty());
    assert!(load_cache(Some("{\"shown_ids\":5}")).ids().is_empty());
    assert!(load_cache(Some("[1,2,3]")).ids().is_empty());
    assert!(load_cache(Some("{\"shown_ids\":[1,\"x\"]}")).ids().is_empty());
}

#[test]
fn load_on_out_of_range_identifier_is_empty() {
    assert!(load_cache(Some("{\"shown_ids\":[1,4294967296]}")).ids().is_empty());
    assert!(load_cache(Some("{\"shown_ids\":[-3]}")).ids().is_empty());
}

#[test]
fn load_reads_identifiers_back() {
    let c = load_cache(Some("{\"shown_ids\":[7,42,4294967295]}"));
    assert_eq!(c.ids(), &vec![7, 42, u32::MAX]);
    assert!(c.contains(42));
    assert!(!c.contains(8));
}

#[test]
fn insert_holds_each_identifier_once() {
    let mut c = DedupCache::empty();
    c.insert(5);
    c.insert(9);
    c.insert(5);
    assert_eq!(c.ids(), &vec![5, 9]);
}

#[test]
fn render_writes_the_persisted_document_pretty_printed() {
    let mut c = DedupCache::empty();
    c.insert(5);
    assert_eq!(render_cache(&c), "{\n  \"shown_ids\": [\n    5\n  ]\n}");
    c.insert(77);
    assert_eq!(render_cache(&c), "{\n  \"shown_ids\": [\n    5,\n    77\n  ]\n}");
    assert_eq!(render_cache(&DedupCache::empty()), "{\n  \"shown_ids\": []\n}");
}

#[test]
fn rendered_document_matches_the_reference_pretty_printer() {
    let mut c = DedupCache::empty();
    c.insert(5);
    c.insert(77);
    let doc: serde_json::Value = serde_json::from_str("{\"shown_ids\":[5,77]}").unwrap();
    assert_eq!(render_cache(&c), serde_json::to_string_pretty(&doc).unwrap());

    let empty_doc: serde_json::Value = serde_json::from_str("{\"shown_ids\":[]}").unwrap();
    assert_eq!(
        render_cache(&DedupCache::empty()),
        serde_json::to_string_pretty(&empty_doc).unwrap()
    );
}

#[test]
fn rendered_document_loads_back() {
    let mut c = DedupCache::empty();
    c.insert(3);
    c.insert(123456789);
    c.insert(0);
    let text = render_cache(&c);
    let back = load_cache(Some(text.as_str()));
    assert_eq!(back.ids(), c.ids());
}
