use devstore_sdk::envelope::{Envelope, Status};

#[test]
fn build_keeps_status_code_and_text() {
    let e = Envelope::build(Status::Warning, 503, "Service is temporarily unavailable");
    assert_eq!(e.status, Status::Warning);
    assert_eq!(e.code, 503);
    assert_eq!(e.message, "Service is temporarily unavailable");
}

#[test]
fn build_replaces_embedded_nuls_with_spaces() {
    let e = Envelope::build(Status::Info, 0, "a\0b\0");
    assert_eq!(e.message, "a b ");
    assert!(!e.message.contains('\0'));
}

#[test]
fn build_leaves_clean_text_alone() {
    let e = Envelope::build(Status::Error, 0, "plain text, no surprises");
    assert_eq!(e.message, "plain text, no surprises");
}

#[test]
fn sanitized_message_still_terminates_cleanly() {
    // The boundary layer NUL-terminates the payload; a payload with no
    // embedded NUL never truncates, and its length is the text's length.
    let e = Envelope::build(Status::Success, 0, "head\0tail");
    assert_eq!(e.message, "head tail");
    assert_eq!(e.message.len(), "head\0tail".len());
    assert_eq!(e.message.bytes().filter(|b| *b == 0).count(), 0);
}

#[test]
fn convenience_constructors_fix_code_zero() {
    assert_eq!(Envelope::info("i").status, Status::Info);
    assert_eq!(Envelope::success("s").status, Status::Success);
    assert_eq!(Envelope::warning("w").status, Status::Warning);
    assert_eq!(Envelope::error("e").status, Status::Error);
    assert_eq!(Envelope::info("i").code, 0);
    assert_eq!(Envelope::success("s").code, 0);
    assert_eq!(Envelope::warning("w").code, 0);
    assert_eq!(Envelope::error("e").code, 0);
}
