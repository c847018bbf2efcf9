//! The update install's persisted record: the manifest document
//! `{"path":"..."}` that names the active install directory, and the
//! fixed directory name each install reuses. One install policy is kept:
//! a pre-existing `update` directory is removed and the same name is used
//! again, so disk use stays bounded and the manifest never goes stale.

use vstd::prelude::*;

use crate::strutil::push_char;

verus! {

/// The directory under the preferences directory that an update is
/// unpacked into.
pub const UPDATE_DIR_NAME: &'static str = "update";

/// The file the manifest is written to.
pub const MANIFEST_FILE_NAME: &'static str = "current_version.json";

/// One character as it appears inside a JSON string: quotes and
/// backslashes are escaped, control characters become spaces (no path
/// written by this library holds one), anything else stands as is.
pub open spec fn esc_char(c: char) -> Seq<char> {
    if c == '"' {
        seq!['\\', '"']
    } else if c == '\\' {
        seq!['\\', '\\']
    } else if (c as u32) < 32 {
        seq![' ']
    } else {
        seq![c]
    }
}

/// A text as it appears inside a JSON string.
pub open spec fn json_escaped(s: Seq<char>) -> Seq<char>
    decreases s.len(),
{
    if s.len() == 0 {
        Seq::<char>::empty()
    } else {
        json_escaped(s.drop_last()) + esc_char(s.last())
    }
}

/// The manifest document recording an install directory.
pub open spec fn manifest_json(path: Seq<char>) -> Seq<char> {
    "{\"path\":\""@ + json_escaped(path) + "\"}"@
}

/// Renders the manifest document for an install directory.
pub fn render_manifest(path: &str) -> (s: String)
    ensures
        s@ == manifest_json(path@),
{
    let n = path.unicode_len();
    let mut s = String::from_str("{\"path\":\"");
    let mut i: usize = 0;
    while i < n
        invariant
            n == path@.len(),
            i <= n,
            s@ == "{\"path\":\""@ + json_escaped(path@.take(i as int)),
        decreases n - i,
    {
        let c = path.get_char(i);
        if c == '"' {
            push_char(&mut s, '\\');
            push_char(&mut s, '"');
        } else if c == '\\' {
            push_char(&mut s, '\\');
            push_char(&mut s, '\\');
        } else if (c as u32) < 32 {
            push_char(&mut s, ' ');
        } else {
            push_char(&mut s, c);
        }
        proof {
            assert(path@.take(i + 1 as int).drop_last() =~= path@.take(i as int));
            assert(path@.take(i + 1 as int).last() == path@[i as int]);
            assert(s@ =~= "{\"path\":\""@ + json_escaped(path@.take(i + 1 as int)));
        }
        i = i + 1;
    }
    proof {
        assert(path@.take(n as int) =~= path@);
    }
    s.append("\"}");
    proof {
        assert(s@ =~= manifest_json(path@));
    }
    s
}

} // verus!
