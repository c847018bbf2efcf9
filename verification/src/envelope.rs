//! The message envelope: the result value that every exported operation
//! hands back across the language boundary. Its text payload is encoded
//! as a NUL-terminated string at the edge, so the payload itself must
//! never contain an embedded NUL; `build` replaces each one with a space.

use vstd::prelude::*;

use crate::strutil::push_char;

verus! {

/// Severity of an operation's outcome; a closed set, not free text.
#[derive(Clone, Copy, PartialEq, Eq, Structural, Debug)]
pub enum Status {
    Info,
    Success,
    Warning,
    Error,
}

/// The text payload with every embedded NUL replaced by a space.
pub open spec fn sanitized(text: Seq<char>) -> Seq<char> {
    text.map(|_i: int, c: char| if c == '\0' { ' ' } else { c })
}

/// One operation's outcome, ready to cross the boundary: a status, an
/// optional numeric code (an HTTP-like status where one was observed),
/// and a NUL-free text payload.
pub struct Envelope {
    pub status: Status,
    pub code: u32,
    pub message: String,
}

impl Envelope {
    /// The payload can be NUL-terminated without truncation.
    pub open spec fn wf(&self) -> bool {
        forall|i: int| 0 <= i < self.message@.len() ==> self.message@[i] != '\0'
    }

    /// General constructor: keeps status and code, sanitizes the text.
    pub fn build(status: Status, code: u32, text: &str) -> (e: Envelope)
        ensures
            e.status == status,
            e.code == code,
            e.message@ == sanitized(text@),
            e.wf(),
    {
        let mut out = String::new();
        let n = text.unicode_len();
        let mut i: usize = 0;
        while i < n
            invariant
                n == text@.len(),
                i <= n,
                out@ == sanitized(text@.subrange(0, i as int)),
            decreases n - i,
        {
            let c = text.get_char(i);
            let kept = if c == '\0' {
                ' '
            } else {
                c
            };
            push_char(&mut out, kept);
            proof {
                assert(out@ =~= sanitized(text@.subrange(0, i + 1 as int)));
            }
            i = i + 1;
        }
        proof {
            assert(text@.subrange(0, n as int) =~= text@);
        }
        Envelope { status, code, message: out }
    }

    /// Informational outcome with code 0.
    pub fn info(text: &str) -> (e: Envelope)
        ensures
            e.status == Status::Info,
            e.code == 0,
            e.message@ == sanitized(text@),
            e.wf(),
    {
        Envelope::build(Status::Info, 0, text)
    }

    /// Successful outcome with code 0.
    pub fn success(text: &str) -> (e: Envelope)
        ensures
            e.status == Status::Success,
            e.code == 0,
            e.message@ == sanitized(text@),
            e.wf(),
    {
        Envelope::build(Status::Success, 0, text)
    }

    /// Warning outcome with code 0.
    pub fn warning(text: &str) -> (e: Envelope)
        ensures
            e.status == Status::Warning,
            e.code == 0,
            e.message@ == sanitized(text@),
            e.wf(),
    {
        Envelope::build(Status::Warning, 0, text)
    }

    /// Error outcome with code 0.
    pub fn error(text: &str) -> (e: Envelope)
        ensures
            e.status == Status::Error,
            e.code == 0,
            e.message@ == sanitized(text@),
            e.wf(),
    {
        Envelope::build(Status::Error, 0, text)
    }
}

} // verus!
