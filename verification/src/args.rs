//! Foreign-argument validation, shared by every exported operation.
//! The boundary layer decodes each foreign string argument into a
//! `ForeignText` before the operation runs; a missing or undecodable
//! argument turns into the one fixed `Error` envelope for its label.

use vstd::prelude::*;

use crate::envelope::{sanitized, Envelope, Status};

verus! {

/// One foreign string argument as the boundary layer saw it: absent (a
/// null reference), present but not valid UTF-8, or decoded text.
pub enum ForeignText {
    Absent,
    Invalid,
    Present(String),
}

/// The message reporting an absent argument.
pub open spec fn missing_param_msg(label: Seq<char>) -> Seq<char> {
    "Error: Missing "@ + label + " parameter"@
}

/// The message reporting an undecodable or empty argument.
pub open spec fn invalid_param_msg(label: Seq<char>) -> Seq<char> {
    "Error: Invalid "@ + label + " parameter"@
}

/// Accepts exactly the decoded, non-empty arguments. An absent argument
/// is rejected as missing; an undecodable or empty one as invalid. The
/// rejection envelope's text names the argument by `label`.
pub fn require_text(label: &str, arg: ForeignText) -> (r: Result<String, Envelope>)
    ensures
        match arg {
            ForeignText::Present(s) => {
                if s@.len() > 0 {
                    r matches Ok(t) && t@ == s@
                } else {
                    r matches Err(e) && e.status == Status::Error && e.code == 0 && e.message@
                        == sanitized(invalid_param_msg(label@))
                }
            },
            ForeignText::Absent => r matches Err(e) && e.status == Status::Error && e.code == 0
                && e.message@ == sanitized(missing_param_msg(label@)),
            ForeignText::Invalid => r matches Err(e) && e.status == Status::Error && e.code == 0
                && e.message@ == sanitized(invalid_param_msg(label@)),
        },
{
    match arg {
        ForeignText::Present(s) => {
            if s.as_str().unicode_len() > 0 {
                Ok(s)
            } else {
                let mut m = String::from_str("Error: Invalid ");
                m.append(label);
                m.append(" parameter");
                Err(Envelope::error(m.as_str()))
            }
        },
        ForeignText::Absent => {
            let mut m = String::from_str("Error: Missing ");
            m.append(label);
            m.append(" parameter");
            Err(Envelope::error(m.as_str()))
        },
        ForeignText::Invalid => {
            let mut m = String::from_str("Error: Invalid ");
            m.append(label);
            m.append(" parameter");
            Err(Envelope::error(m.as_str()))
        },
    }
}

} // verus!
