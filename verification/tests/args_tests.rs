use devstore_sdk::args::{require_text, ForeignText};
use devstore_sdk::envelope::Status;

#[test]
fn absent_argument_is_missing_parameter() {
    let r = require_text("package_id", ForeignText::Absent);
    let e = r.err().unwrap();
    assert_eq!(e.status, Status::Error);
    assert_eq!(e.message, "Error: Missing package_id parameter");
}

#[test]
fn undecodable_argument_is_invalid_parameter() {
    let r = require_text("user_secret", ForeignText::Invalid);
    let e = r.err().unwrap();
    assert_eq!(e.status, Status::Error);
    assert_eq!(e.message, "Error: Invalid user_secret parameter");
}

#[test]
fn empty_argument_is_invalid_parameter() {
    let r = require_text("extract_path", ForeignText::Present(String::new()));
    let e = r.err().unwrap();
    assert_eq!(e.status, Status::Error);
    assert_eq!(e.message, "Error: Invalid extract_path parameter");
}

#[test]
fn decoded_nonempty_argument_passes_through() {
    let r = require_text("product_id", ForeignText::Present("com.example.game".to_string()));
    assert_eq!(r.ok().unwrap(), "com.example.game");
}
