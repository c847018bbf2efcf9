//! The in-memory archive: packing a set of named byte entries into one
//! compressed buffer and reading such a buffer back. The container format
//! is the zip crate's; what this module verifies is that the buffer that
//! leaves `pack_entries` reads back as exactly the entries handed in, and
//! that reading an arbitrary buffer yields its entries in order.

use vstd::prelude::*;

use std::io::Cursor;

use crate::paths::{
    base_name_spec, is_safe_entry_name, join_path, joined, lemma_join_then_relative, rel_of,
    safe_entry_name,
};

verus! {

/// One archive entry: a relative path (a name ending in `/` stands for a
/// directory) and the entry's bytes.
#[derive(Debug)]
pub struct ArchiveEntry {
    pub name: String,
    pub data: Vec<u8>,
}

impl View for ArchiveEntry {
    type V = (Seq<char>, Seq<u8>);

    open spec fn view(&self) -> (Seq<char>, Seq<u8>) {
        (self.name@, self.data@)
    }
}

/// The entries as (name, bytes) pairs.
pub open spec fn entries_model(es: Seq<ArchiveEntry>) -> Seq<(Seq<char>, Seq<u8>)> {
    es.map(|_i: int, e: ArchiveEntry| e@)
}

#[verifier::external_type_specification]
#[verifier::external_body]
#[verifier::reject_recursive_types(T)]
pub struct ExCursor<T>(Cursor<T>);

#[verifier::external_type_specification]
#[verifier::external_body]
#[verifier::reject_recursive_types(R)]
pub struct ExZipArchive<R>(zip::ZipArchive<R>);

/// An archive being written. The writer itself is the zip crate's; Verus
/// sees it only through `writer_entries` and the trusted operations below.
/// (Declaring the zip writer's type directly is not possible: its type
/// parameter carries trait bounds Verus does not know.)
#[verifier::external_body]
pub struct ArchiveWriter {
    inner: zip::ZipWriter<Cursor<Vec<u8>>>,
}

/// What a zip writer holds: the (name, bytes) entries written so far, in
/// order.
pub uninterp spec fn writer_entries(w: ArchiveWriter) -> Seq<(Seq<char>, Seq<u8>)>;

/// What fully reading a buffer as an archive yields: `Some(entries)` when
/// opening it and reading every entry succeeds, `None` otherwise. Reading
/// an in-memory buffer depends on its bytes alone.
pub uninterp spec fn archive_contents(bytes: Seq<u8>) -> Option<Seq<(Seq<char>, Seq<u8>)>>;

/// What an opened archive holds: its (name, bytes) entries when a full
/// read of it succeeds.
pub uninterp spec fn reader_entries(r: zip::ZipArchive<Cursor<Vec<u8>>>) -> Seq<
    (Seq<char>, Seq<u8>),
>;

/// How many entries an opened archive's directory lists.
pub uninterp spec fn reader_len(r: zip::ZipArchive<Cursor<Vec<u8>>>) -> nat;

/// Whether the zip writer accepts one more entry: writing `name` with
/// `data` to an in-memory archive holding `prior` succeeds or fails as a
/// function of these alone (it fails, for one, on a name the archive
/// already holds).
pub uninterp spec fn add_ok(prior: Seq<(Seq<char>, Seq<u8>)>, name: Seq<char>, data: Seq<u8>) -> bool;

/// Whether finalizing an in-memory archive holding `entries` succeeds; a
/// function of the entries alone.
pub uninterp spec fn finish_ok(entries: Seq<(Seq<char>, Seq<u8>)>) -> bool;

/// Why packing, reading or unpacking an archive failed.
#[derive(Clone, Copy, PartialEq, Eq, Structural, Debug)]
pub enum ArchiveError {
    /// An entry could not be opened or written while packing.
    EntryWrite,
    /// The archive's footer and index could not be finalized.
    Finish,
    /// The buffer could not be opened as an archive.
    Open,
    /// An entry could not be read back out of the archive.
    EntryRead,
    /// An entry's path could escape the unpack destination.
    UnsafeEntryName,
}

/// Relies on `zip::ZipWriter::new` over an empty in-memory cursor: a
/// fresh archive holds no entries.
#[verifier::external_body]
fn writer_new() -> (w: ArchiveWriter)
    ensures
        writer_entries(w) == Seq::<(Seq<char>, Seq<u8>)>::empty(),
{
    ArchiveWriter { inner: zip::ZipWriter::new(Cursor::new(Vec::new())) }
}

/// Relies on `zip::ZipWriter::start_file` with deflate compression and on
/// the writer's `std::io::Write::write_all`: on success the archive holds
/// one more entry, named `name`, with exactly `data`'s bytes. Writing to
/// an in-memory buffer, acceptance depends only on what the archive holds
/// and on the new entry (a duplicate name, for one, is rejected).
#[verifier::external_body]
fn writer_add(w: &mut ArchiveWriter, name: &str, data: &Vec<u8>) -> (r: Result<(), ArchiveError>)
    ensures
        r is Ok <==> add_ok(writer_entries(*old(w)), name@, data@),
        r is Ok ==> writer_entries(*final(w)) == writer_entries(*old(w)).push((name@, data@)),
{
    let options = zip::write::SimpleFileOptions::default().compression_method(
        zip::CompressionMethod::Deflated,
    );
    if w.inner.start_file(name, options).is_err() {
        return Err(ArchiveError::EntryWrite);
    }
    match std::io::Write::write_all(&mut w.inner, data.as_slice()) {
        Ok(()) => Ok(()),
        Err(_) => Err(ArchiveError::EntryWrite),
    }
}

/// Relies on `zip::ZipWriter::finish` and `Cursor::into_inner`: on
/// success the returned buffer is a finalized archive, and reading it
/// back yields exactly the entries written. Finalizing to an in-memory
/// buffer succeeds or fails as a function of the entries alone.
#[verifier::external_body]
fn writer_finish(w: ArchiveWriter) -> (r: Result<Vec<u8>, ArchiveError>)
    ensures
        r is Ok <==> finish_ok(writer_entries(w)),
        r matches Ok(bytes) ==> archive_contents(bytes@) == Some(writer_entries(w)),
{
    match w.inner.finish() {
        Ok(cursor) => Ok(cursor.into_inner()),
        Err(_) => Err(ArchiveError::Finish),
    }
}

/// Relies on `zip::ZipArchive::new`: opening succeeds on any buffer a
/// full read would succeed on, and yields the buffer's entries and their
/// count.
#[verifier::external_body]
fn reader_open(bytes: &Vec<u8>) -> (r: Result<zip::ZipArchive<Cursor<Vec<u8>>>, ArchiveError>)
    ensures
        archive_contents(bytes@) is Some ==> r is Ok,
        r matches Ok(a) ==> (archive_contents(bytes@) matches Some(es) ==> reader_entries(a) == es
            && reader_len(a) == es.len()),
{
    match zip::ZipArchive::new(Cursor::new(bytes.clone())) {
        Ok(a) => Ok(a),
        Err(_) => Err(ArchiveError::Open),
    }
}

/// Relies on `zip::ZipArchive::len`: the number of entries the archive's
/// directory lists.
#[verifier::external_body]
fn reader_count(r: &zip::ZipArchive<Cursor<Vec<u8>>>) -> (n: usize)
    ensures
        n as nat == reader_len(*r),
{
    r.len()
}

/// Relies on `zip::ZipArchive::by_index` and `std::io::Read::read_to_end`:
/// the stored name and decompressed bytes of entry `i`. Reading moves the
/// underlying cursor but leaves the archive's directory as it was; on an
/// archive a full read succeeds on, every entry read succeeds.
#[verifier::external_body]
fn reader_entry(r: &mut zip::ZipArchive<Cursor<Vec<u8>>>, i: usize) -> (res: Result<
    (String, Vec<u8>),
    ArchiveError,
>)
    requires
        i < reader_len(*old(r)),
    ensures
        reader_entries(*final(r)) == reader_entries(*old(r)),
        reader_len(*final(r)) == reader_len(*old(r)),
        reader_len(*old(r)) == reader_entries(*old(r)).len() ==> (res matches Ok(e) && (e.0@, e.1@)
            == reader_entries(*old(r))[i as int]),
{
    let mut f = match r.by_index(i) {
        Ok(f) => f,
        Err(_) => {
            return Err(ArchiveError::EntryRead);
        },
    };
    let name = f.name().to_owned();
    let mut data: Vec<u8> = Vec::new();
    match std::io::Read::read_to_end(&mut f, &mut data) {
        Ok(_) => Ok((name, data)),
        Err(_) => Err(ArchiveError::EntryRead),
    }
}

/// Whether the zip writer accepts a whole entry sequence: every entry in
/// turn, on top of those before it, and the finalization of the result.
pub open spec fn pack_ok(entries: Seq<(Seq<char>, Seq<u8>)>) -> bool {
    &&& forall|k: int|
        0 <= k < entries.len() ==> #[trigger] add_ok(entries.take(k), entries[k].0, entries[k].1)
    &&& finish_ok(entries)
}

/// Packs the entries, in order, into one finalized in-memory archive.
/// Packing succeeds exactly when the archive format accepts the entry
/// sequence (`pack_ok`), and then the buffer reads back as exactly the
/// entries given.
pub fn pack_entries(entries: &Vec<ArchiveEntry>) -> (r: Result<Vec<u8>, ArchiveError>)
    ensures
        r is Ok <==> pack_ok(entries_model(entries@)),
        r matches Ok(bytes) ==> archive_contents(bytes@) == Some(entries_model(entries@)),
{
    let ghost model = entries_model(entries@);
    let mut w = writer_new();
    let mut i: usize = 0;
    while i < entries.len()
        invariant
            i <= entries@.len(),
            model == entries_model(entries@),
            model.len() == entries@.len(),
            writer_entries(w) == entries_model(entries@.take(i as int)),
            writer_entries(w) == model.take(i as int),
            forall|k: int| 0 <= k < i ==> #[trigger] add_ok(model.take(k), model[k].0, model[k].1),
        decreases entries@.len() - i,
    {
        let e = &entries[i];
        let added = writer_add(&mut w, e.name.as_str(), &e.data);
        proof {
            assert(model[i as int] == entries@[i as int]@);
        }
        match added {
            Ok(()) => (),
            Err(err) => {
                proof {
                    assert(!add_ok(model.take(i as int), model[i as int].0, model[i as int].1));
                }
                return Err(err);
            },
        }
        proof {
            assert(entries_model(entries@.take(i + 1 as int)) =~= entries_model(
                entries@.take(i as int),
            ).push(entries@[i as int]@));
            assert(model.take(i + 1 as int) =~= model.take(i as int).push(model[i as int]));
        }
        i = i + 1;
    }
    proof {
        assert(entries@.take(entries@.len() as int) =~= entries@);
        assert(model.take(model.len() as int) =~= model);
    }
    let finished = writer_finish(w);
    proof {
        if finished is Ok {
            assert(pack_ok(model));
        } else {
            assert(!finish_ok(model));
        }
    }
    finished
}

/// Reads a buffer back as its entries, in archive order. On any buffer a
/// full read succeeds on — every buffer `pack_entries` produces — this
/// returns exactly the buffer's entries.
pub fn read_archive(bytes: &Vec<u8>) -> (r: Result<Vec<ArchiveEntry>, ArchiveError>)
    ensures
        archive_contents(bytes@) matches Some(es) ==> (r matches Ok(out) && entries_model(out@)
            == es),
{
    let ghost contents = archive_contents(bytes@);
    let mut a = match reader_open(bytes) {
        Ok(a) => a,
        Err(err) => {
            return Err(err);
        },
    };
    let n = reader_count(&a);
    let mut out: Vec<ArchiveEntry> = Vec::new();
    let mut i: usize = 0;
    while i < n
        invariant
            i <= n,
            contents == archive_contents(bytes@),
            n as nat == reader_len(a),
            contents matches Some(es) ==> reader_entries(a) == es && reader_len(a) == es.len(),
            contents matches Some(es) ==> entries_model(out@) == es.take(i as int),
        decreases n - i,
    {
        match reader_entry(&mut a, i) {
            Ok((name, data)) => {
                out.push(ArchiveEntry { name, data });
            },
            Err(err) => {
                return Err(err);
            },
        }
        proof {
            if contents is Some {
                let es = contents.unwrap();
                assert(entries_model(out@) =~= es.take(i + 1 as int));
            }
        }
        i = i + 1;
    }
    proof {
        if contents is Some {
            let es = contents.unwrap();
            assert(es.take(es.len() as int) =~= es);
        }
    }
    Ok(out)
}

/// The entry a single packed file becomes: its bytes under its base name.
pub fn single_file_entry(path: &str, data: Vec<u8>) -> (e: ArchiveEntry)
    ensures
        e@.0 == base_name_spec(path@),
        e@.1 == data@,
{
    let name = crate::paths::base_name(path);
    ArchiveEntry { name, data }
}

/// One filesystem step of an unpack, for the boundary layer to carry out
/// in order: create a directory (with its ancestors), or write a file
/// (creating absent ancestors first), overwriting what is there.
#[derive(Debug)]
pub enum FsAction {
    MakeDir(String),
    WriteFile(String, Vec<u8>),
}

/// An entry name ending in `/` stands for a directory.
pub open spec fn is_dir_name(name: Seq<char>) -> bool {
    name.len() > 0 && name.last() == '/'
}

/// The one filesystem step that entry `e`, unpacked into `dest`, asks
/// for.
pub open spec fn action_for(dest: Seq<char>, e: (Seq<char>, Seq<u8>), a: FsAction) -> bool {
    if is_dir_name(e.0) {
        a matches FsAction::MakeDir(p) && p@ == joined(dest, e.0)
    } else {
        a matches FsAction::WriteFile(p, d) && p@ == joined(dest, e.0) && d@ == e.1
    }
}

fn clone_bytes(v: &Vec<u8>) -> (r: Vec<u8>)
    ensures
        r@ == v@,
{
    let mut r: Vec<u8> = Vec::new();
    let mut i: usize = 0;
    while i < v.len()
        invariant
            i <= v@.len(),
            r@ == v@.take(i as int),
        decreases v@.len() - i,
    {
        r.push(v[i]);
        proof {
            assert(r@ =~= v@.take(i + 1 as int));
        }
        i = i + 1;
    }
    proof {
        assert(v@.take(v@.len() as int) =~= v@);
    }
    r
}

/// Turns an archive's entries into the filesystem steps that unpack them
/// into `dest`, in archive order, after checking that no entry can escape
/// the destination. Succeeds exactly when every entry name is safe; the
/// first unsafe name rejects the whole archive and nothing is planned.
pub fn unpack_plan(entries: &Vec<ArchiveEntry>, dest: &str) -> (r: Result<Vec<FsAction>, ArchiveError>)
    ensures
        r is Ok <==> (forall|k: int|
            0 <= k < entries@.len() ==> safe_entry_name(entries@[k]@.0)),
        r matches Err(err) ==> err == ArchiveError::UnsafeEntryName,
        r matches Ok(plan) ==> plan@.len() == entries@.len() && (forall|k: int|
            0 <= k < entries@.len() ==> action_for(dest@, entries@[k]@, #[trigger] plan@[k])),
{
    let mut plan: Vec<FsAction> = Vec::new();
    let mut i: usize = 0;
    while i < entries.len()
        invariant
            i <= entries@.len(),
            plan@.len() == i,
            forall|k: int| 0 <= k < i ==> safe_entry_name(entries@[k]@.0),
            forall|k: int| 0 <= k < i ==> action_for(dest@, entries@[k]@, #[trigger] plan@[k]),
        decreases entries@.len() - i,
    {
        let e = &entries[i];
        if !is_safe_entry_name(e.name.as_str()) {
            return Err(ArchiveError::UnsafeEntryName);
        }
        let full = join_path(dest, e.name.as_str());
        let n = e.name.as_str().unicode_len();
        if e.name.as_str().get_char(n - 1) == '/' {
            plan.push(FsAction::MakeDir(full));
        } else {
            plan.push(FsAction::WriteFile(full, clone_bytes(&e.data)));
        }
        i = i + 1;
    }
    Ok(plan)
}

/// Law: an archive packed from file entries unpacks to the same file set —
/// for each packed file entry, the plan writes exactly one file, at the
/// destination joined with the entry's relative path, with byte-identical
/// contents; and relative to the destination, the written file keeps the
/// path it was packed under.
pub proof fn lemma_pack_unpack_round_trip(
    entries: Seq<(Seq<char>, Seq<u8>)>,
    bytes: Seq<u8>,
    dest: Seq<char>,
    plan: Seq<FsAction>,
    i: int,
)
    requires
        archive_contents(bytes) == Some(entries),
        plan.len() == entries.len(),
        forall|k: int| 0 <= k < entries.len() ==> action_for(dest, entries[k], #[trigger] plan[k]),
        0 <= i < entries.len(),
        !is_dir_name(entries[i].0),
        entries[i].0.len() > 0,
    ensures
        plan[i] matches FsAction::WriteFile(p, d) && p@ == joined(dest, entries[i].0) && d@
            == entries[i].1,
        rel_of(dest, joined(dest, entries[i].0)) == entries[i].0,
{
    lemma_join_then_relative(dest, entries[i].0);
}

/// Law: a single packed file unpacks to exactly one file, named by the
/// packed file's base name, with identical contents.
pub proof fn lemma_single_file_round_trip(
    path: Seq<char>,
    data: Seq<u8>,
    bytes: Seq<u8>,
    dest: Seq<char>,
    plan: Seq<FsAction>,
)
    requires
        archive_contents(bytes) == Some(seq![(base_name_spec(path), data)]),
        plan.len() == 1,
        action_for(dest, (base_name_spec(path), data), plan[0]),
    ensures
        plan[0] matches FsAction::WriteFile(p, d) && p@ == joined(dest, base_name_spec(path)) && d@
            == data,
{
    crate::paths::lemma_base_name_not_dir(path);
}

} // verus!
