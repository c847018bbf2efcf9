//! The notification dedup cache: the identifiers already shown to the
//! user, persisted as the JSON document `{"shown_ids":[...]}`. Loading
//! tolerates a missing or corrupt file — it yields the empty cache, never
//! a failure — and saving is best-effort, so the boundary layer only
//! writes the rendered document out.

use vstd::prelude::*;

use crate::json::json_ok;
use crate::strutil::{dec_rep, push_dec};

verus! {

/// The identifiers already shown, in insertion order, each held once.
pub struct DedupCache {
    pub ids: Vec<u32>,
}

impl View for DedupCache {
    type V = Seq<u32>;

    open spec fn view(&self) -> Seq<u32> {
        self.ids@
    }
}

impl DedupCache {
    /// No identifier is held twice.
    pub open spec fn wf(&self) -> bool {
        forall|i: int, j: int| 0 <= i < j < self@.len() ==> self@[i] != self@[j]
    }

    pub fn empty() -> (c: DedupCache)
        ensures
            c.wf(),
            c@ == Seq::<u32>::empty(),
    {
        DedupCache { ids: Vec::new() }
    }

    /// Whether `id` was already shown.
    pub fn contains(&self, id: u32) -> (r: bool)
        ensures
            r == self@.contains(id),
    {
        let mut i: usize = 0;
        while i < self.ids.len()
            invariant
                i <= self@.len(),
                forall|k: int| 0 <= k < i ==> self@[k] != id,
            decreases self@.len() - i,
        {
            if self.ids[i] == id {
                return true;
            }
            i = i + 1;
        }
        false
    }

    /// Record `id` as shown; recording an already-held identifier changes
    /// nothing.
    pub fn insert(&mut self, id: u32)
        requires
            old(self).wf(),
        ensures
            final(self).wf(),
            final(self)@ == if old(self)@.contains(id) {
                old(self)@
            } else {
                old(self)@.push(id)
            },
    {
        if !self.contains(id) {
            self.ids.push(id);
        }
    }

    /// The identifiers, oldest first.
    pub fn ids(&self) -> (v: &Vec<u32>)
        ensures
            v@ == self@,
    {
        &self.ids
    }
}

/// Builds a cache from raw integers read out of a document: rejects the
/// batch if any does not fit an identifier, and drops repeats.
pub fn cache_from_raw(raw: &Vec<u64>) -> (r: Option<DedupCache>)
    ensures
        r is Some <==> (forall|k: int| 0 <= k < raw@.len() ==> raw@[k] <= u32::MAX),
        r matches Some(c) ==> c.wf() && (forall|x: u32|
            c@.contains(x) <==> raw@.contains(x as u64)),
{
    let mut c = DedupCache::empty();
    let mut i: usize = 0;
    while i < raw.len()
        invariant
            i <= raw@.len(),
            c.wf(),
            forall|k: int| 0 <= k < i ==> raw@[k] <= u32::MAX,
            forall|x: u32| c@.contains(x) <==> raw@.take(i as int).contains(x as u64),
        decreases raw@.len() - i,
    {
        let x = raw[i];
        if x > 0xffff_ffff {
            return None;
        }
        let id = x as u32;
        let ghost prev = c@;
        c.insert(id);
        proof {
            broadcast use vstd::seq_lib::group_seq_properties;

            assert(raw@.take(i + 1 as int) =~= raw@.take(i as int).push(raw@[i as int]));
            assert forall|y: u32| #[trigger] c@.contains(y) implies raw@.take(
                i + 1 as int,
            ).contains(y as u64) by {
                if y == id {
                    assert(raw@.take(i + 1 as int)[i as int] == y as u64);
                } else {
                    let j = c@.lemma_contains_to_index(y);
                    assert(prev[j] == y);
                    let k = prev.lemma_contains_to_index(y);
                    let k2 = raw@.take(i as int).lemma_contains_to_index(y as u64);
                    assert(raw@.take(i + 1 as int)[k2] == y as u64);
                }
            }
            assert forall|y: u32| raw@.take(i + 1 as int).contains(y as u64) implies #[trigger] c@
                .contains(y) by {
                let k = raw@.take(i + 1 as int).lemma_contains_to_index(y as u64);
                if k < i {
                    assert(raw@.take(i as int)[k] == y as u64);
                    let j = prev.lemma_contains_to_index(y);
                    assert(c@[j] == y);
                } else {
                    assert(y == id) by {
                        assert(raw@[i as int] == id as u64);
                    }
                    if prev.contains(id) {
                        let j = prev.lemma_contains_to_index(id);
                        assert(c@[j] == id);
                    } else {
                        assert(c@[prev.len() as int] == id);
                    }
                }
            }
        }
        i = i + 1;
    }
    proof {
        assert(raw@.take(raw@.len() as int) =~= raw@);
    }
    Some(c)
}

/// The `shown_ids` array of a persisted cache document: the integers it
/// holds, `Some` exactly when the text is a JSON document whose
/// `shown_ids` field is an array of unsigned 64-bit integers. A function
/// of the text alone.
pub uninterp spec fn shown_ids_of(s: Seq<char>) -> Option<Seq<u64>>;

/// What reading a text that is this crate's own rendered cache document
/// must give: `cache_json` renders an object whose `shown_ids` array
/// holds decimal 32-bit integers, and the read yields exactly those.
pub open spec fn reads_back_rendered(s: Seq<char>, r: Option<Vec<u64>>) -> bool {
    forall|ids: Seq<u32>|
        s == #[trigger] cache_json(ids) ==> (r matches Some(v) && v@ == ids.map(
            |_k: int, x: u32| x as u64,
        ))
}

/// Relies on `serde_json::from_str`, `Value::get`, `Value::as_array` and
/// `Value::as_u64`: reads the persisted document's `shown_ids` array. In
/// particular, on this crate's own rendered document the parser reads
/// back exactly the rendered identifiers (`reads_back_rendered`).
#[verifier::external_body]
fn parse_shown_ids(s: &str) -> (r: Option<Vec<u64>>)
    ensures
        r matches Some(v) ==> shown_ids_of(s@) == Some(v@),
        r is None ==> shown_ids_of(s@) is None,
        !json_ok(s@) ==> r is None,
        reads_back_rendered(s@, r),
{
    let doc: serde_json::Value = serde_json::from_str(s).ok()?;
    let array = doc.get("shown_ids")?.as_array()?;
    let mut out: Vec<u64> = Vec::with_capacity(array.len());
    for element in array {
        out.push(element.as_u64()?);
    }
    Some(out)
}

/// Loads the cache from a file's content: `None` stands for a file that
/// could not be read at all. A well-formed document gives back exactly
/// the identifiers it lists — in particular, loading a document that
/// `render_cache` produced gives back exactly the rendered identifiers
/// (save then load is the identity on the set of shown identifiers). Any
/// failure — unreadable file, text that is not JSON, a document without
/// a well-formed `shown_ids` array, an integer that does not fit an
/// identifier — yields the empty cache.
pub fn load_cache(content: Option<&str>) -> (c: DedupCache)
    ensures
        c.wf(),
        content is None ==> c@ == Seq::<u32>::empty(),
        content matches Some(s) && !json_ok(s@) ==> c@ == Seq::<u32>::empty(),
        content matches Some(s) ==> match shown_ids_of(s@) {
            Some(raw) => {
                if forall|k: int| 0 <= k < raw.len() ==> raw[k] <= u32::MAX {
                    forall|x: u32| c@.contains(x) <==> raw.contains(x as u64)
                } else {
                    c@ == Seq::<u32>::empty()
                }
            },
            None => c@ == Seq::<u32>::empty(),
        },
        content matches Some(s) ==> (forall|ids: Seq<u32>|
            s@ == #[trigger] cache_json(ids) ==> (forall|x: u32|
                c@.contains(x) <==> ids.contains(x))),
{
    let text = match content {
        Some(s) => s,
        None => {
            return DedupCache::empty();
        },
    };
    let parsed = parse_shown_ids(text);
    let raw = match parsed {
        Some(v) => v,
        None => {
            proof {
                assert forall|ids: Seq<u32>| text@ == #[trigger] cache_json(ids) implies false by {}
            }
            return DedupCache::empty();
        },
    };
    let built = cache_from_raw(&raw);
    match built {
        Some(c) => {
            proof {
                assert forall|ids: Seq<u32>| text@ == #[trigger] cache_json(ids) implies (
                forall|x: u32| c@.contains(x) <==> ids.contains(x)) by {
                    assert(raw@ == ids.map(|_k: int, x: u32| x as u64));
                    assert forall|x: u32| c@.contains(x) <==> ids.contains(x) by {
                        if raw@.contains(x as u64) {
                            let k = raw@.lemma_contains_to_index(x as u64);
                            assert(ids[k] == x);
                            assert(ids.contains(x));
                        }
                        if ids.contains(x) {
                            let k = ids.lemma_contains_to_index(x);
                            assert(raw@[k] == x as u64);
                            assert(raw@.contains(x as u64));
                        }
                    }
                }
            }
            c
        },
        None => {
            proof {
                assert forall|ids: Seq<u32>| text@ == #[trigger] cache_json(ids) implies false by {
                    assert(raw@ == ids.map(|_k: int, x: u32| x as u64));
                    assert forall|k: int| 0 <= k < raw@.len() implies raw@[k] <= u32::MAX by {
                        assert(raw@[k] == ids[k] as u64);
                    }
                }
            }
            DedupCache::empty()
        },
    }
}

/// The identifiers as a pretty-printed JSON array body: each number on
/// its own line, indented one level deeper than the array.
pub open spec fn ids_json(ids: Seq<u32>) -> Seq<char>
    decreases ids.len(),
{
    if ids.len() == 0 {
        Seq::<char>::empty()
    } else if ids.len() == 1 {
        "\n    "@ + dec_rep(ids[0] as nat)
    } else {
        ids_json(ids.drop_last()) + ",\n    "@ + dec_rep(ids.last() as nat)
    }
}

/// The persisted document for a set of identifiers, pretty-printed with
/// two-space indentation (the same text `serde_json` pretty-prints for
/// it).
pub open spec fn cache_json(ids: Seq<u32>) -> Seq<char> {
    if ids.len() == 0 {
        "{\n  \"shown_ids\": []\n}"@
    } else {
        "{\n  \"shown_ids\": ["@ + ids_json(ids) + "\n  ]\n}"@
    }
}

/// Renders the document that `load_cache` reads back.
pub fn render_cache(c: &DedupCache) -> (s: String)
    ensures
        s@ == cache_json(c@),
{
    if c.ids.len() == 0 {
        return String::from_str("{\n  \"shown_ids\": []\n}");
    }
    let mut s = String::from_str("{\n  \"shown_ids\": [");
    let mut i: usize = 0;
    while i < c.ids.len()
        invariant
            c@.len() > 0,
            i <= c@.len(),
            s@ == "{\n  \"shown_ids\": ["@ + ids_json(c@.take(i as int)),
        decreases c@.len() - i,
    {
        if i > 0 {
            s.append(",\n    ");
        } else {
            s.append("\n    ");
        }
        push_dec(c.ids[i], &mut s);
        proof {
            assert(c@.take(i + 1 as int).drop_last() =~= c@.take(i as int));
            assert(c@.take(i + 1 as int).last() == c@[i as int]);
            assert(s@ =~= "{\n  \"shown_ids\": ["@ + ids_json(c@.take(i + 1 as int)));
        }
        i = i + 1;
    }
    proof {
        assert(c@.take(c@.len() as int) =~= c@);
    }
    s.append("\n  ]\n}");
    proof {
        assert(s@ =~= cache_json(c@));
    }
    s
}

} // verus!
