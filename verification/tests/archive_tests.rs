use devstore_sdk::archive::{
    pack_entries, read_archive, single_file_entry, unpack_plan, ArchiveEntry, ArchiveError,
    FsAction,
};
use devstore_sdk::paths::{base_name, is_safe_entry_name, join_path, relative_name};
use std::io::{Read, Write};

fn entry(name: &str, data: &[u8]) -> ArchiveEntry {
    ArchiveEntry { name: name.to_string(), data: data.to_vec() }
}

#[test]
fn pack_then_read_reproduces_the_file_set() {
    let entries = vec![
        entry("save.dat", b"\x00\x01\x02binary"),
        entry("sub/", b""),
        entry("sub/readme.txt", b"hello there"),
        entry("sub/deep/cfg.ini", b"[a]\nb=1\n"),
    ];
    let bytes = pack_entries(&entries).unwrap();
    let back = read_archive(&bytes).unwrap();
    assert_eq!(back.len(), entries.len());
    for (orig, got) in entries.iter().zip(back.iter()) {
        assert_eq!(got.name, orig.name);
        assert_eq!(got.data, orig.data);
    }
}

#[test]
fn round_trip_into_a_destination_keeps_relative_paths_and_bytes() {
    let entries = vec![entry("a.txt", b"alpha"), entry("d/b.bin", b"beta")];
    let bytes = pack_entries(&entries).unwrap();
    let back = read_archive(&bytes).unwrap();
    let plan = unpack_plan(&back, "dest").unwrap();
    assert_eq!(plan.len(), 2);
    for (orig, action) in entries.iter().zip(plan.iter()) {
        match action {
            FsAction::WriteFile(path, data) => {
                assert_eq!(path, &join_path("dest", &orig.name));
                assert_eq!(data, &orig.data);
                // The written file, taken relative to the destination,
                // keeps the path it was packed under.
                assert_eq!(relative_name("dest", path).unwrap(), orig.name);
            },
            FsAction::MakeDir(_) => panic!("file entry planned as a directory"),
        }
    }
}

#[test]
fn single_file_is_stored_under_its_base_name() {
    let data = b"slot one".to_vec();
    let e = single_file_entry("saves/slot1.dat", data.clone());
    assert_eq!(e.name, "slot1.dat");
    assert_eq!(e.data, data);

    let bytes = pack_entries(&vec![e]).unwrap();
    let back = read_archive(&bytes).unwrap();
    assert_eq!(back.len(), 1);
    assert_eq!(back[0].name, "slot1.dat");
    assert_eq!(back[0].data, data);
}

#[test]
fn directory_entries_become_directories() {
    let entries = vec![entry("only_dir/", b"")];
    let plan = unpack_plan(&entries, "out").unwrap();
    assert_eq!(plan.len(), 1);
    match &plan[0] {
        FsAction::MakeDir(path) => assert_eq!(path, "out/only_dir/"),
        FsAction::WriteFile(..) => panic!("directory entry planned as a file"),
    }
}

#[test]
fn escaping_entry_is_rejected() {
    let entries = vec![entry("fine.txt", b"ok"), entry("../escape.txt", b"evil")];
    assert_eq!(unpack_plan(&entries, "dest").unwrap_err(), ArchiveError::UnsafeEntryName);
}

#[test]
fn absolute_and_backslash_entries_are_rejected() {
    assert_eq!(
        unpack_plan(&vec![entry("/etc/shadow", b"")], "dest").unwrap_err(),
        ArchiveError::UnsafeEntryName
    );
    assert_eq!(
        unpack_plan(&vec![entry("a\\b.txt", b"")], "dest").unwrap_err(),
        ArchiveError::UnsafeEntryName
    );
    assert_eq!(
        unpack_plan(&vec![entry("", b"")], "dest").unwrap_err(),
        ArchiveError::UnsafeEntryName
    );
    assert_eq!(
        unpack_plan(&vec![entry("a/../b.txt", b"")], "dest").unwrap_err(),
        ArchiveError::UnsafeEntryName
    );
    assert_eq!(
        unpack_plan(&vec![entry("sub/..", b"")], "dest").unwrap_err(),
        ArchiveError::UnsafeEntryName
    );
}

#[test]
fn safe_names_are_accepted() {
    assert!(is_safe_entry_name("a.txt"));
    assert!(is_safe_entry_name("sub/dir/file.bin"));
    assert!(is_safe_entry_name("dots..in..middle"));
    assert!(is_safe_entry_name("..three"));
    assert!(!is_safe_entry_name(".."));
    assert!(!is_safe_entry_name("../x"));
    assert!(!is_safe_entry_name("x/../y"));
    assert!(!is_safe_entry_name("x/.."));
    assert!(!is_safe_entry_name("/rooted"));
    assert!(!is_safe_entry_name(""));
}

#[test]
fn archives_built_elsewhere_read_back_too() {
    let mut w = zip::ZipWriter::new(std::io::Cursor::new(Vec::new()));
    w.start_file("x.txt", zip::write::SimpleFileOptions::default()).unwrap();
    w.write_all(b"payload").unwrap();
    let bytes = w.finish().unwrap().into_inner();
    let back = read_archive(&bytes).unwrap();
    assert_eq!(back.len(), 1);
    assert_eq!(back[0].name, "x.txt");
    assert_eq!(back[0].data, b"payload");
}

#[test]
fn packed_archives_open_elsewhere_too() {
    let bytes = pack_entries(&vec![entry("y.bin", b"\x01\x02")]).unwrap();
    let mut archive = zip::ZipArchive::new(std::io::Cursor::new(bytes)).unwrap();
    assert_eq!(archive.len(), 1);
    let mut f = archive.by_index(0).unwrap();
    assert_eq!(f.name(), "y.bin");
    let mut data = Vec::new();
    f.read_to_end(&mut data).unwrap();
    assert_eq!(data, b"\x01\x02");
}

#[test]
fn garbage_bytes_do_not_open() {
    let r = read_archive(&b"this is not an archive at all".to_vec());
    assert_eq!(r.unwrap_err(), ArchiveError::Open);
}

#[test]
fn base_name_takes_what_follows_the_last_slash() {
    assert_eq!(base_name("a/b/c.txt"), "c.txt");
    assert_eq!(base_name("plain.bin"), "plain.bin");
    assert_eq!(base_name("dir/"), "file");
    assert_eq!(base_name(""), "file");
}

#[test]
fn relative_name_strips_the_walk_root() {
    assert_eq!(relative_name("root", "root/x/y.txt").unwrap(), "x/y.txt");
    assert_eq!(relative_name("root/", "root/x").unwrap(), "x");
    assert_eq!(relative_name("root", "rootx/y"), None);
    assert_eq!(relative_name("root", "root"), None);
}

#[test]
fn join_path_puts_one_separator() {
    assert_eq!(join_path("dest", "a/b"), "dest/a/b");
    assert_eq!(join_path("dest/", "a"), "dest/a");
}
