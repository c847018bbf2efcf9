//! Path text handling: the entry-naming rule for packing (a single file
//! goes under its base name, a walked file under its path relative to the
//! walk root), the join rule for unpacking into a destination, and the
//! hardening predicate that keeps an archive entry from escaping the
//! destination. Paths here are plain text with `/` separators.

use vstd::prelude::*;

verus! {

/// The characters after the last `/`; the whole text when it has none.
pub open spec fn after_last_slash(s: Seq<char>) -> Seq<char>
    decreases s.len(),
{
    if s.len() == 0 {
        s
    } else if s.last() == '/' {
        Seq::<char>::empty()
    } else {
        after_last_slash(s.drop_last()).push(s.last())
    }
}

/// The name a single packed file is stored under: what follows the last
/// `/`, or the fixed name `file` where that is empty.
pub open spec fn base_name_spec(path: Seq<char>) -> Seq<char> {
    if after_last_slash(path).len() == 0 {
        "file"@
    } else {
        after_last_slash(path)
    }
}

proof fn lemma_after_last_slash(s: Seq<char>, start: int)
    requires
        0 <= start <= s.len(),
        start == 0 || s[start - 1] == '/',
        forall|j: int| start <= j < s.len() ==> s[j] != '/',
    ensures
        after_last_slash(s) == s.subrange(start, s.len() as int),
    decreases s.len(),
{
    if s.len() == 0 {
        assert(after_last_slash(s) =~= s.subrange(start, s.len() as int));
    } else if s.last() == '/' {
        assert(start == s.len());
        assert(after_last_slash(s) =~= s.subrange(start, s.len() as int));
    } else {
        assert(start < s.len());
        lemma_after_last_slash(s.drop_last(), start);
        assert(after_last_slash(s) =~= s.subrange(start, s.len() as int));
    }
}

/// The stored name for a single packed file.
pub fn base_name(path: &str) -> (r: String)
    ensures
        r@ == base_name_spec(path@),
{
    let n = path.unicode_len();
    let mut start: usize = 0;
    let mut i: usize = 0;
    while i < n
        invariant
            n == path@.len(),
            start <= i <= n,
            start == 0 || path@[start - 1] == '/',
            forall|j: int| start <= j < i ==> path@[j] != '/',
        decreases n - i,
    {
        if path.get_char(i) == '/' {
            start = i + 1;
        }
        i = i + 1;
    }
    proof {
        lemma_after_last_slash(path@, start as int);
    }
    if start == n {
        String::from_str("file")
    } else {
        path.substring_char(start, n).to_owned()
    }
}

/// Whether `full` lies under the directory `root`: it extends `root` past
/// a separator.
pub open spec fn rooted(root: Seq<char>, full: Seq<char>) -> bool {
    &&& full.len() > root.len()
    &&& full.subrange(0, root.len() as int) == root
    &&& ((root.len() > 0 && root.last() == '/') || full[root.len() as int] == '/')
}

/// The path of `full` relative to the directory `root`.
pub open spec fn rel_of(root: Seq<char>, full: Seq<char>) -> Seq<char> {
    if root.len() > 0 && root.last() == '/' {
        full.subrange(root.len() as int, full.len() as int)
    } else {
        full.subrange(root.len() as int + 1, full.len() as int)
    }
}

/// The name a walked file is stored under: its path relative to the walk
/// root, or nothing when it does not lie under the root.
pub fn relative_name(root: &str, full: &str) -> (r: Option<String>)
    ensures
        r is Some <==> rooted(root@, full@),
        r matches Some(s) ==> s@ == rel_of(root@, full@),
{
    let rn = root.unicode_len();
    let fn_ = full.unicode_len();
    if fn_ <= rn {
        proof {
            assert(!rooted(root@, full@));
        }
        return None;
    }
    let mut i: usize = 0;
    while i < rn
        invariant
            rn == root@.len(),
            fn_ == full@.len(),
            fn_ > rn,
            i <= rn,
            forall|j: int| 0 <= j < i ==> full@[j] == root@[j],
        decreases rn - i,
    {
        if full.get_char(i) != root.get_char(i) {
            proof {
                assert(full@.subrange(0, root@.len() as int)[i as int] != root@[i as int]);
            }
            return None;
        }
        i = i + 1;
    }
    proof {
        assert(full@.subrange(0, root@.len() as int) =~= root@);
    }
    if rn > 0 && root.get_char(rn - 1) == '/' {
        Some(full.substring_char(rn, fn_).to_owned())
    } else if full.get_char(rn) == '/' {
        Some(full.substring_char(rn + 1, fn_).to_owned())
    } else {
        None
    }
}

/// A destination directory joined with a relative entry name: a `/` is
/// put between them unless the destination already ends with one.
pub open spec fn joined(dest: Seq<char>, name: Seq<char>) -> Seq<char> {
    if dest.len() > 0 && dest.last() == '/' {
        dest + name
    } else {
        dest + seq!['/'] + name
    }
}

/// Joins a destination directory and a relative entry name.
pub fn join_path(dest: &str, name: &str) -> (r: String)
    ensures
        r@ == joined(dest@, name@),
{
    let n = dest.unicode_len();
    let mut r = dest.to_owned();
    if n == 0 || dest.get_char(n - 1) != '/' {
        crate::strutil::push_char(&mut r, '/');
    }
    r.append(name);
    proof {
        assert(r@ =~= joined(dest@, name@));
    }
    r
}

/// Law: joining a destination with a relative path and taking the result
/// relative to the destination gives back exactly the relative path — an
/// unpacked file keeps the relative path it was packed under.
pub proof fn lemma_join_then_relative(dest: Seq<char>, name: Seq<char>)
    requires
        name.len() > 0,
    ensures
        rooted(dest, joined(dest, name)),
        rel_of(dest, joined(dest, name)) == name,
{
    let full = joined(dest, name);
    if dest.len() > 0 && dest.last() == '/' {
        assert(full.subrange(0, dest.len() as int) =~= dest);
        assert(rel_of(dest, full) =~= name);
    } else {
        assert(full.subrange(0, dest.len() as int) =~= dest);
        assert(full[dest.len() as int] == '/');
        assert(rel_of(dest, full) =~= name);
    }
}

/// A base name never names a directory: it is non-empty and does not end
/// with `/`.
pub proof fn lemma_base_name_not_dir(path: Seq<char>)
    ensures
        base_name_spec(path).len() > 0,
        base_name_spec(path).last() != '/',
{
    lemma_after_last_slash_no_slash(path);
    if after_last_slash(path).len() == 0 {
        reveal_strlit("file");
        assert(base_name_spec(path).last() == 'e');
    }
}

proof fn lemma_after_last_slash_no_slash(s: Seq<char>)
    ensures
        forall|j: int| 0 <= j < after_last_slash(s).len() ==> after_last_slash(s)[j] != '/',
    decreases s.len(),
{
    if s.len() == 0 {
    } else if s.last() == '/' {
    } else {
        lemma_after_last_slash_no_slash(s.drop_last());
        let r = after_last_slash(s);
        let r0 = after_last_slash(s.drop_last());
        assert forall|j: int| 0 <= j < r.len() implies r[j] != '/' by {
            if j < r0.len() {
                assert(r[j] == r0[j]);
            } else {
                assert(r[j] == s.last());
            }
        }
    }
}

/// A `..` path component starts at `i`.
pub open spec fn dotdot_at(s: Seq<char>, i: int) -> bool {
    &&& 0 <= i
    &&& i + 2 <= s.len()
    &&& s[i] == '.'
    &&& s[i + 1] == '.'
    &&& (i == 0 || s[i - 1] == '/')
    &&& (i + 2 == s.len() || s[i + 2] == '/')
}

/// The path has a `..` component somewhere.
pub open spec fn has_dotdot(s: Seq<char>) -> bool {
    exists|i: int| dotdot_at(s, i)
}

/// An entry name that cannot escape the destination it is unpacked into:
/// non-empty, relative (no leading `/`), with no `\` (so no separator
/// survives as text on any platform) and no `..` component.
pub open spec fn safe_entry_name(s: Seq<char>) -> bool {
    &&& s.len() > 0
    &&& s[0] != '/'
    &&& !s.contains('\\')
    &&& !has_dotdot(s)
}

/// Decides `safe_entry_name`.
pub fn is_safe_entry_name(name: &str) -> (r: bool)
    ensures
        r == safe_entry_name(name@),
{
    let n = name.unicode_len();
    if n == 0 {
        return false;
    }
    if name.get_char(0) == '/' {
        return false;
    }
    let mut j: usize = 0;
    while j < n
        invariant
            n == name@.len(),
            j <= n,
            forall|k: int| 0 <= k < j ==> name@[k] != '\\',
            forall|k: int| 0 <= k < j ==> !dotdot_at(name@, k),
        decreases n - j,
    {
        let c = name.get_char(j);
        if c == '\\' {
            return false;
        }
        if c == '.' && n - j >= 2 && name.get_char(j + 1) == '.' && (j == 0 || name.get_char(j - 1)
            == '/') && (j + 2 == n || name.get_char(j + 2) == '/') {
            proof {
                assert(dotdot_at(name@, j as int));
            }
            return false;
        }
        proof {
            assert(!dotdot_at(name@, j as int));
        }
        j = j + 1;
    }
    proof {
        assert forall|k: int| !dotdot_at(name@, k) by {
            if 0 <= k && k + 2 <= name@.len() {
                assert(k < n);
            }
        }
    }
    true
}

} // verus!
