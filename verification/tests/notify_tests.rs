use devstore_sdk::cache::{load_cache, render_cache, DedupCache};
use devstore_sdk::envelope::Status;
use devstore_sdk::notify::{
    check_notification_response, dedup_decide, loop_started_envelope, notify_envelope,
    BackendOutcome, NotifAction,
};
use devstore_sdk::ops::FetchOutcome;

const SERVER_BODY: &str = "{\"notification_id\":5,\"title\":\"Hi\",\"message\":\"Hello\"}";

#[test]
fn first_fetch_shows_and_persists_then_second_is_deduplicated() {
    // First call: nothing cached, the notification is shown and recorded.
    let mut cache = load_cache(None);
    let outcome = FetchOutcome::Response { status: 200, body: SERVER_BODY.to_string() };
    let (action, envelope) = check_notification_response(&outcome, &mut cache);
    match action {
        NotifAction::Show { title, body } => {
            assert_eq!(title, "Hi");
            assert_eq!(body, "Hello");
        },
        NotifAction::Skip => panic!("first sighting must be shown"),
    }
    assert_eq!(envelope.status, Status::Success);
    assert_eq!(envelope.message, "Notification shown.");
    let persisted = render_cache(&cache);
    assert_eq!(persisted, "{\n  \"shown_ids\": [\n    5\n  ]\n}");

    // Second call, same server answer, cache reloaded from what was
    // persisted: nothing is displayed again.
    let mut cache2 = load_cache(Some(persisted.as_str()));
    let (action2, envelope2) = check_notification_response(&outcome, &mut cache2);
    assert!(matches!(action2, NotifAction::Skip));
    assert_eq!(envelope2.status, Status::Info);
    assert_eq!(envelope2.message, "Notification already shown.");
    assert_eq!(render_cache(&cache2), "{\n  \"shown_ids\": [\n    5\n  ]\n}");
}

#[test]
fn zero_identifier_or_empty_message_shows_nothing() {
    let mut cache = DedupCache::empty();
    let (a1, e1) = dedup_decide(0, "t".to_string(), "body".to_string(), &mut cache);
    assert!(matches!(a1, NotifAction::Skip));
    assert_eq!(e1.message, "No notification to show.");

    let (a2, e2) = dedup_decide(9, "t".to_string(), String::new(), &mut cache);
    assert!(matches!(a2, NotifAction::Skip));
    assert_eq!(e2.message, "No notification to show.");
    assert!(cache.ids().is_empty());
}

#[test]
fn missing_fields_default_before_the_decision() {
    let mut cache = DedupCache::empty();
    let outcome = FetchOutcome::Response {
        status: 200,
        body: "{\"notification_id\":3,\"message\":\"text\"}".to_string(),
    };
    let (action, _) = check_notification_response(&outcome, &mut cache);
    match action {
        NotifAction::Show { title, body } => {
            assert_eq!(title, "Notification");
            assert_eq!(body, "text");
        },
        NotifAction::Skip => panic!("a fresh notification must be shown"),
    }
}

#[test]
fn unsuccessful_answer_shows_nothing() {
    let mut cache = DedupCache::empty();
    let outcome = FetchOutcome::Response { status: 404, body: String::new() };
    let (action, envelope) = check_notification_response(&outcome, &mut cache);
    assert!(matches!(action, NotifAction::Skip));
    assert_eq!(envelope.status, Status::Info);
    assert_eq!(envelope.message, "No notification returned from server.");
    assert!(cache.ids().is_empty());
}

#[test]
fn transport_failure_shows_nothing() {
    let mut cache = DedupCache::empty();
    let outcome = FetchOutcome::Failure("boom".to_string());
    let (action, envelope) = check_notification_response(&outcome, &mut cache);
    assert!(matches!(action, NotifAction::Skip));
    assert_eq!(envelope.status, Status::Error);
    assert_eq!(envelope.message, "HTTP request failed: boom");
}

#[test]
fn unparseable_answer_is_its_own_error() {
    let mut cache = DedupCache::empty();
    let outcome = FetchOutcome::Response { status: 200, body: "not json".to_string() };
    let (action, envelope) = check_notification_response(&outcome, &mut cache);
    assert!(matches!(action, NotifAction::Skip));
    assert_eq!(envelope.status, Status::Error);
    assert_eq!(envelope.message, "Failed to parse notification JSON");
}

#[test]
fn backend_outcomes_map_to_their_envelopes() {
    let shown = notify_envelope("Hi", "Hello", &BackendOutcome::Shown);
    assert_eq!(shown.status, Status::Success);
    assert_eq!(shown.message, "Notification sent: Hi - Hello");

    let unavailable = notify_envelope("t", "b", &BackendOutcome::Unavailable);
    assert_eq!(unavailable.status, Status::Warning);
    assert_eq!(
        unavailable.message,
        "SDL2 is not available on this platform or the SDL2 library not found."
    );

    let init = notify_envelope("t", "b", &BackendOutcome::InitFailed("no display".to_string()));
    assert_eq!(init.status, Status::Error);
    assert_eq!(init.message, "SDL2 init failed: no display");

    let show = notify_envelope("t", "b", &BackendOutcome::ShowFailed("closed".to_string()));
    assert_eq!(show.status, Status::Error);
    assert_eq!(show.message, "SDL2 messagebox failed: closed");
}

#[test]
fn loop_start_reports_success() {
    let e = loop_started_envelope();
    assert_eq!(e.status, Status::Success);
    assert_eq!(e.message, "Background notification loop started.");
}
