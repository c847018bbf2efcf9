//! What each networked operation returns, as a function of what came back
//! from the transport. The boundary layer performs the request and hands
//! the plain outcome here; every branch below is verified against the
//! exact envelope it must produce.

use vstd::prelude::*;

use crate::envelope::{sanitized, Envelope, Status};
use crate::json::{
    json_ok, json_rendered_field, json_str_field, parse_json, text_field_rendered,
    text_field_string,
};
use crate::strutil::{dec_rep, push_dec};

verus! {

/// One transport round trip's outcome: the request never completed, or
/// the server answered with a status code and a body.
pub enum FetchOutcome {
    Failure(String),
    Response { status: u16, body: String },
}

/// The success range of HTTP-like status codes.
pub open spec fn is_http_success(status: u16) -> bool {
    200 <= status < 300
}

/// Decides `is_http_success`.
pub fn http_success(status: u16) -> (r: bool)
    ensures
        r == is_http_success(status),
{
    200 <= status && status < 300
}

/// The envelope reporting that a request never completed.
pub fn transport_error_envelope(detail: &str) -> (e: Envelope)
    ensures
        e.status == Status::Error,
        e.code == 0,
        e.message@ == sanitized("Request error: "@ + detail@),
{
    let mut m = String::from_str("Request error: ");
    m.append(detail);
    Envelope::error(m.as_str())
}

/// The service-status probe's envelope: 200 means online, 503 means the
/// service is down for the moment, any other answer is reported with its
/// code, and no answer at all is an error.
pub fn service_status_envelope(status: Option<u16>) -> (e: Envelope)
    ensures
        status is None ==> e.status == Status::Error && e.code == 0 && e.message@ == sanitized(
            "Error: Could not reach the service"@,
        ),
        status matches Some(s) ==> {
            &&& e.code == s as u32
            &&& s == 200 ==> e.status == Status::Success && e.message@ == sanitized(
                "Service is online"@,
            )
            &&& s == 503 ==> e.status == Status::Warning && e.message@ == sanitized(
                "Service is temporarily unavailable"@,
            )
            &&& s != 200 && s != 503 ==> e.status == Status::Warning && e.message@ == sanitized(
                "Service returned status "@ + dec_rep(s as nat),
            )
        },
{
    match status {
        None => Envelope::error("Error: Could not reach the service"),
        Some(200u16) => Envelope::build(Status::Success, 200, "Service is online"),
        Some(503u16) => Envelope::build(Status::Warning, 503, "Service is temporarily unavailable"),
        Some(s) => {
            let mut m = String::from_str("Service returned status ");
            push_dec(s as u32, &mut m);
            Envelope::build(Status::Warning, s as u32, m.as_str())
        },
    }
}

/// Where the path handed to an upload points.
#[derive(Clone, Copy, PartialEq, Eq, Structural, Debug)]
pub enum PathKind {
    /// Nothing exists at the path.
    Missing,
    /// A regular file.
    File,
    /// A directory.
    Dir,
    /// Something else (a device, a dangling link, ...).
    Other,
}

/// Whether an upload may proceed for what its path points to: only a file
/// or a directory can be packed; anything else is rejected before any
/// archive is built or any request is made.
pub fn upload_precheck(kind: PathKind) -> (r: Result<(), Envelope>)
    ensures
        kind == PathKind::File || kind == PathKind::Dir <==> r is Ok,
        kind == PathKind::Missing ==> (r matches Err(e) && e.status == Status::Error && e.code == 0
            && e.message@ == sanitized("Error: File or folder does not exist"@)),
        kind == PathKind::Other ==> (r matches Err(e) && e.status == Status::Error && e.code == 0
            && e.message@ == sanitized("Error: Path is neither a file nor a directory"@)),
{
    match kind {
        PathKind::File => Ok(()),
        PathKind::Dir => Ok(()),
        PathKind::Missing => Err(Envelope::error("Error: File or folder does not exist")),
        PathKind::Other => Err(Envelope::error("Error: Path is neither a file nor a directory")),
    }
}

/// The upload's envelope once the server answered: a success carries the
/// server's `message` field when its body has one, else the raw body; a
/// failure status reports the body.
pub fn upload_envelope_from(status: u16, body: &str, message_field: Option<&String>) -> (e:
    Envelope)
    ensures
        e.code == status as u32,
        message_field matches Some(m) ==> (is_http_success(status) ==> e.status == Status::Success
            && e.message@ == sanitized("Upload successful: "@ + m@)),
        is_http_success(status) && message_field is None ==> e.status == Status::Success
            && e.message@ == sanitized("Upload successful: "@ + body@),
        !is_http_success(status) ==> e.status == Status::Error && e.message@ == sanitized(
            "Upload failed: "@ + body@,
        ),
{
    if http_success(status) {
        let mut m = String::from_str("Upload successful: ");
        match message_field {
            Some(msg) => m.append(msg.as_str()),
            None => m.append(body),
        }
        Envelope::build(Status::Success, status as u32, m.as_str())
    } else {
        let mut m = String::from_str("Upload failed: ");
        m.append(body);
        Envelope::build(Status::Error, status as u32, m.as_str())
    }
}

/// The upload's envelope for a whole transport outcome; a successful
/// answer's body is read as JSON and its `message` field, when present,
/// is what the envelope carries.
pub fn upload_response_envelope(outcome: &FetchOutcome) -> (e: Envelope)
    ensures
        outcome matches FetchOutcome::Failure(d) ==> e.status == Status::Error && e.code == 0
            && e.message@ == sanitized("Request error: "@ + d@),
        outcome matches FetchOutcome::Response { status, body } ==> {
            &&& e.code == *status as u32
            &&& !is_http_success(*status) ==> e.status == Status::Error && e.message@ == sanitized(
                "Upload failed: "@ + body@,
            )
            &&& is_http_success(*status) ==> e.status == Status::Success && e.message@ == (
            match json_rendered_field(body@, "message"@) {
                Some(m) => sanitized("Upload successful: "@ + m),
                None => sanitized("Upload successful: "@ + body@),
            })
        },
{
    match outcome {
        FetchOutcome::Failure(detail) => transport_error_envelope(detail.as_str()),
        FetchOutcome::Response { status, body } => {
            let message_field = text_field_rendered(body.as_str(), "message");
            match &message_field {
                Some(m) => upload_envelope_from(*status, body.as_str(), Some(m)),
                None => upload_envelope_from(*status, body.as_str(), None),
            }
        },
    }
}

/// The download's terminal envelope once every entry is on disk.
pub fn download_complete_envelope() -> (e: Envelope)
    ensures
        e.status == Status::Success,
        e.code == 0,
        e.message@ == sanitized("Download and extraction successful."@),
{
    Envelope::success("Download and extraction successful.")
}

/// The download's envelope when the server refused.
pub fn download_failed_envelope(status: u16, body: &str) -> (e: Envelope)
    ensures
        e.status == Status::Error,
        e.code == status as u32,
        e.message@ == sanitized("Download failed: "@ + body@),
{
    let mut m = String::from_str("Download failed: ");
    m.append(body);
    Envelope::build(Status::Error, status as u32, m.as_str())
}

/// How fetching a byte payload failed, when it did: the request never
/// completed, the server refused with this status and body, or the
/// answer arrived but its bytes could not be read.
pub enum BytesFetchError {
    Transport(String),
    Refused { status: u16, body: String },
    BodyRead(String),
}

/// The save download's envelope for each way its fetch can fail.
pub fn download_fetch_error_envelope(err: &BytesFetchError) -> (e: Envelope)
    ensures
        e.status == Status::Error,
        err matches BytesFetchError::Transport(d) ==> e.code == 0 && e.message@ == sanitized(
            "Request error: "@ + d@,
        ),
        err matches BytesFetchError::Refused { status, body } ==> e.code == *status as u32
            && e.message@ == sanitized("Download failed: "@ + body@),
        err matches BytesFetchError::BodyRead(d) ==> e.code == 0 && e.message@ == sanitized(
            "Error: Failed to read response bytes: "@ + d@,
        ),
{
    match err {
        BytesFetchError::Transport(detail) => transport_error_envelope(detail.as_str()),
        BytesFetchError::Refused { status, body } => download_failed_envelope(
            *status,
            body.as_str(),
        ),
        BytesFetchError::BodyRead(detail) => {
            let mut m = String::from_str("Error: Failed to read response bytes: ");
            m.append(detail.as_str());
            Envelope::error(m.as_str())
        },
    }
}

/// The update fetch's envelope for each way its fetch can fail; the
/// update operation keeps its own texts.
pub fn update_fetch_error_envelope(err: &BytesFetchError) -> (e: Envelope)
    ensures
        e.status == Status::Error,
        err matches BytesFetchError::Transport(d) ==> e.code == 0 && e.message@ == sanitized(
            "Error: Network error: "@ + d@,
        ),
        err matches BytesFetchError::Refused { status, body } ==> e.code == *status as u32
            && e.message@ == sanitized("Error: Request failed: "@ + body@),
        err matches BytesFetchError::BodyRead(d) ==> e.code == 0 && e.message@ == sanitized(
            "Error: Failed to read response bytes: "@ + d@,
        ),
{
    match err {
        BytesFetchError::Transport(detail) => {
            let mut m = String::from_str("Error: Network error: ");
            m.append(detail.as_str());
            Envelope::error(m.as_str())
        },
        BytesFetchError::Refused { status, body } => {
            let mut m = String::from_str("Error: Request failed: ");
            m.append(body.as_str());
            Envelope::build(Status::Error, *status as u32, m.as_str())
        },
        BytesFetchError::BodyRead(detail) => {
            let mut m = String::from_str("Error: Failed to read response bytes: ");
            m.append(detail.as_str());
            Envelope::error(m.as_str())
        },
    }
}

/// The envelope for an archive that could not be packed, read or safely
/// unpacked; each failure keeps its own text.
pub fn archive_error_envelope(err: crate::archive::ArchiveError) -> (e: Envelope)
    ensures
        e.status == Status::Error,
        e.code == 0,
        err == crate::archive::ArchiveError::EntryWrite ==> e.message@ == sanitized(
            "Error: Failed to write file data to zip"@,
        ),
        err == crate::archive::ArchiveError::Finish ==> e.message@ == sanitized(
            "Error: Failed to finish zip archive"@,
        ),
        err == crate::archive::ArchiveError::Open ==> e.message@ == sanitized(
            "Error: Failed to open zip archive"@,
        ),
        err == crate::archive::ArchiveError::EntryRead ==> e.message@ == sanitized(
            "Error: Failed to access file in zip"@,
        ),
        err == crate::archive::ArchiveError::UnsafeEntryName ==> e.message@ == sanitized(
            "Error: Archive entry escapes the destination"@,
        ),
{
    match err {
        crate::archive::ArchiveError::EntryWrite => Envelope::error(
            "Error: Failed to write file data to zip",
        ),
        crate::archive::ArchiveError::Finish => Envelope::error(
            "Error: Failed to finish zip archive",
        ),
        crate::archive::ArchiveError::Open => Envelope::error("Error: Failed to open zip archive"),
        crate::archive::ArchiveError::EntryRead => Envelope::error(
            "Error: Failed to access file in zip",
        ),
        crate::archive::ArchiveError::UnsafeEntryName => Envelope::error(
            "Error: Archive entry escapes the destination",
        ),
    }
}

/// The version lookup's envelope once the server answered: a success
/// carries the `version` field rendered as JSON when the body has one,
/// else the raw body behind `Response: `; a failure status reports the
/// body.
pub fn version_envelope_from(status: u16, body: &str, version_field: Option<&String>) -> (e:
    Envelope)
    ensures
        e.code == status as u32,
        version_field matches Some(v) ==> (is_http_success(status) ==> e.status == Status::Success
            && e.message@ == sanitized(v@)),
        is_http_success(status) && version_field is None ==> e.status == Status::Info && e.message@
            == sanitized("Response: "@ + body@),
        !is_http_success(status) ==> e.status == Status::Error && e.message@ == sanitized(
            "Request failed: "@ + body@,
        ),
{
    if http_success(status) {
        match version_field {
            Some(v) => Envelope::build(Status::Success, status as u32, v.as_str()),
            None => {
                let mut m = String::from_str("Response: ");
                m.append(body);
                Envelope::build(Status::Info, status as u32, m.as_str())
            },
        }
    } else {
        let mut m = String::from_str("Request failed: ");
        m.append(body);
        Envelope::build(Status::Error, status as u32, m.as_str())
    }
}

/// The version lookup's envelope for a whole transport outcome; a
/// successful answer's body is read as JSON for its `version` field.
pub fn version_response_envelope(outcome: &FetchOutcome) -> (e: Envelope)
    ensures
        outcome matches FetchOutcome::Failure(d) ==> e.status == Status::Error && e.code == 0
            && e.message@ == sanitized("Request error: "@ + d@),
        outcome matches FetchOutcome::Response { status, body } ==> {
            &&& e.code == *status as u32
            &&& !is_http_success(*status) ==> e.status == Status::Error && e.message@ == sanitized(
                "Request failed: "@ + body@,
            )
            &&& is_http_success(*status) ==> (match json_rendered_field(body@, "version"@) {
                Some(v) => e.status == Status::Success && e.message@ == sanitized(v),
                None => e.status == Status::Info && e.message@ == sanitized(
                    "Response: "@ + body@,
                ),
            })
        },
{
    match outcome {
        FetchOutcome::Failure(detail) => transport_error_envelope(detail.as_str()),
        FetchOutcome::Response { status, body } => {
            let version_field = text_field_rendered(body.as_str(), "version");
            match &version_field {
                Some(v) => version_envelope_from(*status, body.as_str(), Some(v)),
                None => version_envelope_from(*status, body.as_str(), None),
            }
        },
    }
}

/// What the username lookup's envelope must be for the fields read out
/// of the server's document.
pub open spec fn username_outcome(
    code: u32,
    status_field: Option<Seq<char>>,
    username: Option<Seq<char>>,
    message: Option<Seq<char>>,
    e: Envelope,
) -> bool {
    &&& e.code == code
    &&& match status_field {
        None => e.status == Status::Error && e.message@ == sanitized(
            "Error: Missing status in response"@,
        ),
        Some(s) => {
            if s == "success"@ {
                match username {
                    Some(u) => e.status == Status::Success && e.message@ == sanitized(u),
                    None => e.status == Status::Error && e.message@ == sanitized(
                        "Error: Username missing in response"@,
                    ),
                }
            } else if s == "error"@ {
                match message {
                    Some(m) => e.status == Status::Error && e.message@ == sanitized(
                        "Error: Server error: "@ + m,
                    ),
                    None => e.status == Status::Error && e.message@ == sanitized(
                        "Error: Server error: Unknown error"@,
                    ),
                }
            } else {
                e.status == Status::Error && e.message@ == sanitized(
                    "Error: Unexpected status in response: "@ + s,
                )
            }
        },
    }
}

/// A borrowed optional text as the optional text it views.
pub open spec fn opt_text(o: Option<&String>) -> Option<Seq<char>> {
    match o {
        Some(s) => Some(s@),
        None => None,
    }
}

/// The username lookup's envelope once the server's document was read:
/// the server reports its own `status` field, and only `success` with a
/// `username` yields one.
pub fn username_envelope_from(
    code: u32,
    status_field: Option<&String>,
    username: Option<&String>,
    message: Option<&String>,
) -> (e: Envelope)
    ensures
        username_outcome(
            code,
            opt_text(status_field),
            opt_text(username),
            opt_text(message),
            e,
        ),
{
    proof {
        reveal_strlit("success");
        reveal_strlit("error");
        assert("success"@.len() == 7);
        assert("error"@.len() == 5);
    }
    let success_word = String::from_str("success");
    let error_word = String::from_str("error");
    match status_field {
        None => Envelope::build(Status::Error, code, "Error: Missing status in response"),
        Some(s) => {
            if String::eq(s, &success_word) {
                match username {
                    Some(u) => Envelope::build(Status::Success, code, u.as_str()),
                    None => Envelope::build(
                        Status::Error,
                        code,
                        "Error: Username missing in response",
                    ),
                }
            } else if String::eq(s, &error_word) {
                match message {
                    Some(detail) => {
                        let mut m = String::from_str("Error: Server error: ");
                        m.append(detail.as_str());
                        Envelope::build(Status::Error, code, m.as_str())
                    },
                    None => Envelope::build(
                        Status::Error,
                        code,
                        "Error: Server error: Unknown error",
                    ),
                }
            } else {
                let mut m = String::from_str("Error: Unexpected status in response: ");
                m.append(s.as_str());
                Envelope::build(Status::Error, code, m.as_str())
            }
        },
    }
}

/// The username lookup's envelope for a whole transport outcome: a
/// failure status embeds the numeric code in the text, an unparseable
/// body is its own error, and a parsed document is read for its `status`,
/// `username` and `message` fields.
pub fn username_response_envelope(outcome: &FetchOutcome) -> (e: Envelope)
    ensures
        outcome matches FetchOutcome::Failure(d) ==> e.status == Status::Error && e.code == 0
            && e.message@ == sanitized("Error: Network error: "@ + d@),
        outcome matches FetchOutcome::Response { status, body } ==> {
            &&& !is_http_success(*status) ==> e.status == Status::Error && e.code == *status as u32
                && e.message@ == sanitized(
                "Error: Request failed (status "@ + dec_rep(*status as nat) + "): "@ + body@,
            )
            &&& is_http_success(*status) && !json_ok(body@) ==> e.status == Status::Error && e.code
                == *status as u32 && e.message@ == sanitized(
                "Error: Failed to parse response JSON"@,
            )
            &&& is_http_success(*status) && json_ok(body@) ==> username_outcome(
                *status as u32,
                json_str_field(body@, "status"@),
                json_str_field(body@, "username"@),
                json_str_field(body@, "message"@),
                e,
            )
        },
{
    match outcome {
        FetchOutcome::Failure(detail) => {
            let mut m = String::from_str("Error: Network error: ");
            m.append(detail.as_str());
            Envelope::error(m.as_str())
        },
        FetchOutcome::Response { status, body } => {
            if !http_success(*status) {
                let mut m = String::from_str("Error: Request failed (status ");
                push_dec(*status as u32, &mut m);
                m.append("): ");
                m.append(body.as_str());
                Envelope::build(Status::Error, *status as u32, m.as_str())
            } else {
                match parse_json(body.as_str()) {
                    None => Envelope::build(
                        Status::Error,
                        *status as u32,
                        "Error: Failed to parse response JSON",
                    ),
                    Some(_) => {
                        let status_field = text_field_string(body.as_str(), "status");
                        let username = text_field_string(body.as_str(), "username");
                        let message = text_field_string(body.as_str(), "message");
                        username_envelope_from(
                            *status as u32,
                            status_field.as_ref(),
                            username.as_ref(),
                            message.as_ref(),
                        )
                    },
                }
            }
        },
    }
}

/// The download-verification envelope and whether the host should also be
/// shown a notification: the server reporting `success` in its answer's
/// `status` field verifies the download; any other server answer is a
/// failure the user is told about; a transport failure shows nothing.
pub fn verify_download_response(outcome: &FetchOutcome) -> (r: (Envelope, bool))
    ensures
        outcome matches FetchOutcome::Failure(d) ==> r.0.status == Status::Error && r.0.code == 0
            && r.0.message@ == sanitized("Request error: "@ + d@) && r.1 == false,
        outcome matches FetchOutcome::Response { status, body } ==> {
            &&& r.0.code == *status as u32
            &&& !is_http_success(*status) ==> r.0.status == Status::Error && r.0.message@
                == sanitized("Error: Verification failed: "@ + body@) && r.1 == true
            &&& is_http_success(*status) ==> {
                if json_str_field(body@, "status"@) == Some("success"@) {
                    r.0.status == Status::Success && r.0.message@ == sanitized(
                        "Download verified."@,
                    ) && r.1 == false
                } else {
                    r.0.status == Status::Error && r.0.message@ == sanitized(
                        "Error: Verification failed: "@ + body@,
                    ) && r.1 == true
                }
            }
        },
{
    match outcome {
        FetchOutcome::Failure(detail) => (transport_error_envelope(detail.as_str()), false),
        FetchOutcome::Response { status, body } => {
            if !http_success(*status) {
                let mut m = String::from_str("Error: Verification failed: ");
                m.append(body.as_str());
                return (Envelope::build(Status::Error, *status as u32, m.as_str()), true);
            }
            let verified = match text_field_string(body.as_str(), "status") {
                Some(s) => String::eq(&s, &String::from_str("success")),
                None => false,
            };
            if verified {
                (Envelope::build(Status::Success, *status as u32, "Download verified."), false)
            } else {
                let mut m = String::from_str("Error: Verification failed: ");
                m.append(body.as_str());
                (Envelope::build(Status::Error, *status as u32, m.as_str()), true)
            }
        },
    }
}

/// The update install's terminal envelope.
pub fn update_complete_envelope() -> (e: Envelope)
    ensures
        e.status == Status::Success,
        e.code == 0,
        e.message@ == sanitized("Update downloaded and extracted successfully."@),
{
    Envelope::success("Update downloaded and extracted successfully.")
}

} // verus!
