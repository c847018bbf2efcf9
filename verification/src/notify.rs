//! The notification cycle's decisions: whether a fetched notification is
//! shown or skipped, what the dedup cache becomes, and the envelope each
//! outcome reports. The boundary layer fetches, displays and persists;
//! every decision between those steps is verified here.

use vstd::prelude::*;

use crate::cache::DedupCache;
use crate::envelope::{sanitized, Envelope, Status};
use crate::json::{json_ok, json_str_field, json_u64_field, parse_json, text_field_string,
    text_field_u64};
use crate::ops::{http_success, is_http_success, FetchOutcome};

verus! {

/// What the caller must do after one notification decision: nothing, or
/// show the given title and body through the notification backend.
pub enum NotifAction {
    Skip,
    Show { title: String, body: String },
}

/// What one dedup decision must yield for a notification's fields and
/// the cache as it stood: an empty message or a zero identifier is
/// nothing to show; an identifier already in the cache is not shown
/// again; anything else is shown once and recorded.
pub open spec fn dedup_outcome(
    id: u32,
    title: Seq<char>,
    message: Seq<char>,
    prior: Seq<u32>,
    action: NotifAction,
    e: Envelope,
    now: Seq<u32>,
) -> bool {
    if message.len() == 0 || id == 0 {
        action is Skip && now == prior && e.status == Status::Info && e.code == 0 && e.message@
            == sanitized("No notification to show."@)
    } else if prior.contains(id) {
        action is Skip && now == prior && e.status == Status::Info && e.code == 0 && e.message@
            == sanitized("Notification already shown."@)
    } else {
        (action matches NotifAction::Show { title: t, body: b } && t@ == title && b@ == message)
            && now == prior.push(id) && e.status == Status::Success && e.code == 0 && e.message@
            == sanitized("Notification shown."@)
    }
}

/// One dedup decision: the body of a poll cycle after the fetch.
pub fn dedup_decide(id: u32, title: String, message: String, cache: &mut DedupCache) -> (r: (
    NotifAction,
    Envelope,
))
    requires
        old(cache).wf(),
    ensures
        final(cache).wf(),
        dedup_outcome(id, title@, message@, old(cache)@, r.0, r.1, final(cache)@),
{
    if message.as_str().unicode_len() == 0 || id == 0 {
        return (NotifAction::Skip, Envelope::info("No notification to show."));
    }
    if cache.contains(id) {
        return (NotifAction::Skip, Envelope::info("Notification already shown."));
    }
    cache.insert(id);
    (NotifAction::Show { title, body: message }, Envelope::success("Notification shown."))
}

/// One whole poll cycle's decision from the raw transport outcome: a
/// transport failure or an unsuccessful answer shows nothing; a
/// successful answer's body is read as JSON for the notification's
/// identifier (`notification_id`, truncated to 32 bits as stored), title
/// (`title`, with a fixed fallback) and text (`message`, empty when
/// absent), and the dedup decision is made on those.
pub fn check_notification_response(outcome: &FetchOutcome, cache: &mut DedupCache) -> (r: (
    NotifAction,
    Envelope,
))
    requires
        old(cache).wf(),
    ensures
        final(cache).wf(),
        final(cache)@ == old(cache)@ || (exists|id: u32|
            final(cache)@ == old(cache)@.push(id) && !old(cache)@.contains(id)),
        outcome matches FetchOutcome::Failure(d) ==> r.0 is Skip && final(cache)@ == old(cache)@
            && r.1.status == Status::Error && r.1.code == 0 && r.1.message@ == sanitized(
            "HTTP request failed: "@ + d@,
        ),
        outcome matches FetchOutcome::Response { status, body } ==> {
            &&& !is_http_success(*status) ==> r.0 is Skip && final(cache)@ == old(cache)@
                && r.1.status == Status::Info && r.1.code == *status as u32 && r.1.message@
                == sanitized("No notification returned from server."@)
            &&& is_http_success(*status) && !json_ok(body@) ==> r.0 is Skip && final(cache)@ == old(
                cache)@ && r.1.status == Status::Error && r.1.code == *status as u32
                && r.1.message@ == sanitized("Failed to parse notification JSON"@)
            &&& is_http_success(*status) && json_ok(body@) ==> {
                let raw = match json_u64_field(body@, "notification_id"@) {
                    Some(x) => x,
                    None => 0u64,
                };
                let id = (raw % 0x1_0000_0000) as u32;
                let title = match json_str_field(body@, "title"@) {
                    Some(t) => t,
                    None => "Notification"@,
                };
                let message = match json_str_field(body@, "message"@) {
                    Some(m) => m,
                    None => Seq::<char>::empty(),
                };
                dedup_outcome(id, title, message, old(cache)@, r.0, r.1, final(cache)@)
            }
        },
{
    match outcome {
        FetchOutcome::Failure(detail) => {
            let mut m = String::from_str("HTTP request failed: ");
            m.append(detail.as_str());
            (NotifAction::Skip, Envelope::error(m.as_str()))
        },
        FetchOutcome::Response { status, body } => {
            if !http_success(*status) {
                return (
                    NotifAction::Skip,
                    Envelope::build(
                        Status::Info,
                        *status as u32,
                        "No notification returned from server.",
                    ),
                );
            }
            if parse_json(body.as_str()).is_none() {
                return (
                    NotifAction::Skip,
                    Envelope::build(
                        Status::Error,
                        *status as u32,
                        "Failed to parse notification JSON",
                    ),
                );
            }
            let raw_id = match text_field_u64(body.as_str(), "notification_id") {
                Some(x) => x,
                None => 0,
            };
            let id = (raw_id % 0x1_0000_0000) as u32;
            let title = match text_field_string(body.as_str(), "title") {
                Some(t) => t,
                None => String::from_str("Notification"),
            };
            let message = match text_field_string(body.as_str(), "message") {
                Some(m) => m,
                None => String::new(),
            };
            dedup_decide(id, title, message, cache)
        },
    }
}

/// What the notification backend reported when asked to display a dialog.
pub enum BackendOutcome {
    /// No notification subsystem is available on this machine.
    Unavailable,
    /// The subsystem exists but could not be initialized.
    InitFailed(String),
    /// The dialog was shown.
    Shown,
    /// The subsystem refused to show the dialog.
    ShowFailed(String),
}

/// The envelope a direct show-notification operation returns for each
/// backend outcome.
pub fn notify_envelope(title: &str, body: &str, outcome: &BackendOutcome) -> (e: Envelope)
    ensures
        e.code == 0,
        outcome is Unavailable ==> e.status == Status::Warning && e.message@ == sanitized(
            "SDL2 is not available on this platform or the SDL2 library not found."@,
        ),
        outcome matches BackendOutcome::InitFailed(d) ==> e.status == Status::Error && e.message@
            == sanitized("SDL2 init failed: "@ + d@),
        outcome is Shown ==> e.status == Status::Success && e.message@ == sanitized(
            "Notification sent: "@ + title@ + " - "@ + body@,
        ),
        outcome matches BackendOutcome::ShowFailed(d) ==> e.status == Status::Error && e.message@
            == sanitized("SDL2 messagebox failed: "@ + d@),
{
    match outcome {
        BackendOutcome::Unavailable => Envelope::warning(
            "SDL2 is not available on this platform or the SDL2 library not found.",
        ),
        BackendOutcome::InitFailed(detail) => {
            let mut m = String::from_str("SDL2 init failed: ");
            m.append(detail.as_str());
            Envelope::error(m.as_str())
        },
        BackendOutcome::Shown => {
            let mut m = String::from_str("Notification sent: ");
            m.append(title);
            m.append(" - ");
            m.append(body);
            Envelope::success(m.as_str())
        },
        BackendOutcome::ShowFailed(detail) => {
            let mut m = String::from_str("SDL2 messagebox failed: ");
            m.append(detail.as_str());
            Envelope::error(m.as_str())
        },
    }
}

/// The envelope a loop start returns once its background task is running.
pub fn loop_started_envelope() -> (e: Envelope)
    ensures
        e.status == Status::Success,
        e.code == 0,
        e.message@ == sanitized("Background notification loop started."@),
{
    Envelope::success("Background notification loop started.")
}

} // verus!
