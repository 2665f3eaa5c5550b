use ar_archive::builder::{ArArchiveBuilder, ArchiveEntry, MemberNotFound, SourceArchive};

type Builder = ArArchiveBuilder<&'static str, u32>;

fn names(v: &[&str]) -> Vec<String> {
    v.iter().map(|s| s.to_string()).collect()
}

fn source(reader: &'static str, members: &[&str]) -> SourceArchive<&'static str> {
    SourceArchive { reader, member_names: names(members) }
}

fn reference(archive_index: usize, entry_index: usize) -> ArchiveEntry<u32> {
    ArchiveEntry::FromArchive { archive_index, entry_index }
}

#[test]
fn new_without_input_is_empty() {
    let b: Builder = ArArchiveBuilder::new("out.a".to_string(), true, None);
    assert!(b.src_files().is_empty());
    let plan = b.build();
    assert_eq!(plan.dst, "out.a");
    assert_eq!(plan.gnu_identifiers, Some(Vec::new()));
    assert!(plan.members.is_empty());
    assert!(plan.sources.is_empty());
}

#[test]
fn identity_round_trip() {
    let b: Builder = ArArchiveBuilder::new("out.a".to_string(), false, Some(source("A", &["x.o", "y.o", "rust.metadata.bin"])));
    assert_eq!(b.src_files(), names(&["x.o", "y.o", "rust.metadata.bin"]));
    let plan = b.build();
    assert_eq!(plan.gnu_identifiers, None);
    assert_eq!(plan.sources, vec!["A"]);
    assert_eq!(
        plan.members,
        vec![
            ("x.o".to_string(), reference(0, 0)),
            ("y.o".to_string(), reference(0, 1)),
            ("rust.metadata.bin".to_string(), reference(0, 2)),
        ]
    );
}

#[test]
fn removal_deletes_first_occurrence_only() {
    let mut b: Builder = ArArchiveBuilder::new("out.a".to_string(), true, Some(source("A", &["a", "b", "c", "b"])));
    assert_eq!(b.remove_file("b"), Ok(()));
    assert_eq!(b.src_files(), names(&["a", "c", "b"]));
    let plan = b.build();
    assert_eq!(plan.gnu_identifiers, Some(names(&["a", "c", "b"])));
    assert_eq!(
        plan.members,
        vec![("a".to_string(), reference(0, 0)), ("c".to_string(), reference(0, 2)), ("b".to_string(), reference(0, 3))]
    );
}

#[test]
fn removal_of_absent_name_fails_unchanged() {
    let mut b: Builder = ArArchiveBuilder::new("out.a".to_string(), true, Some(source("A", &["a", "b"])));
    assert_eq!(b.remove_file("zz"), Err(MemberNotFound { name: "zz".to_string() }));
    assert_eq!(b.remove_file("a.o"), Err(MemberNotFound { name: "a.o".to_string() }));
    assert_eq!(b.src_files(), names(&["a", "b"]));
}

#[test]
fn filtered_merge_keeps_objects() {
    let mut b: Builder = ArArchiveBuilder::new("out.a".to_string(), true, None);
    b.add_rlib(source("R", &["rust.metadata.bin", "a.bc.z", "libcrate.o", "other.o"]), "libcrate", false, false);
    assert_eq!(b.src_files(), names(&["libcrate.o", "other.o"]));
    let plan = b.build();
    assert_eq!(plan.members, vec![("libcrate.o".to_string(), reference(0, 2)), ("other.o".to_string(), reference(0, 3))]);
}

#[test]
fn filtered_merge_objects_only() {
    let mut b: Builder = ArArchiveBuilder::new("out.a".to_string(), true, None);
    b.add_rlib(source("R", &["rust.metadata.bin", "a.bc.z", "libcrate.o", "other.o"]), "libcrate", false, true);
    assert_eq!(b.src_files(), names(&["libcrate.o"]));
}

#[test]
fn filtered_merge_lto_drops_own_objects() {
    let mut b: Builder = ArArchiveBuilder::new("out.a".to_string(), true, None);
    b.add_rlib(source("R", &["rust.metadata.bin", "libcrate.cgu0.o", "libcrate.txt", "other.o"]), "libcrate", true, false);
    assert_eq!(b.src_files(), names(&["libcrate.txt", "other.o"]));
}

#[test]
fn filtered_merge_lto_and_objects_only_keeps_nothing() {
    let mut b: Builder = ArArchiveBuilder::new("out.a".to_string(), true, None);
    b.add_rlib(source("R", &["libcrate.o", "other.o", "x.bc.z"]), "libcrate", true, true);
    assert!(b.src_files().is_empty());
}

#[test]
fn native_library_is_absorbed_whole() {
    let mut b: Builder = ArArchiveBuilder::new("out.a".to_string(), true, Some(source("A", &["a.o"])));
    b.add_native_library(source("N", &["rust.metadata.bin", "n.bc.z", "n.o"]));
    let plan = b.build();
    assert_eq!(plan.sources, vec!["A", "N"]);
    assert_eq!(
        plan.members,
        vec![
            ("a.o".to_string(), reference(0, 0)),
            ("rust.metadata.bin".to_string(), reference(1, 0)),
            ("n.bc.z".to_string(), reference(1, 1)),
            ("n.o".to_string(), reference(1, 2)),
        ]
    );
}

#[test]
fn adds_are_not_deduplicated() {
    let mut b: Builder = ArArchiveBuilder::new("out.a".to_string(), true, None);
    b.add_file("dup.o".to_string(), 1);
    b.add_file("dup.o".to_string(), 2);
    assert_eq!(b.src_files(), names(&["dup.o", "dup.o"]));
    let plan = b.build();
    assert_eq!(plan.members, vec![("dup.o".to_string(), ArchiveEntry::File(1)), ("dup.o".to_string(), ArchiveEntry::File(2))]);
}

#[test]
fn order_preserved_in_flat_layout() {
    let mut b: Builder = ArArchiveBuilder::new("out.a".to_string(), false, Some(source("A", &["x"])));
    b.add_file("y".to_string(), 7);
    b.add_native_library(source("B", &["z"]));
    let plan = b.build();
    assert_eq!(plan.gnu_identifiers, None);
    assert_eq!(
        plan.members,
        vec![("x".to_string(), reference(0, 0)), ("y".to_string(), ArchiveEntry::File(7)), ("z".to_string(), reference(1, 0))]
    );
}

#[test]
fn order_preserved_in_gnu_layout() {
    let mut b: Builder = ArArchiveBuilder::new("out.a".to_string(), true, Some(source("A", &["x"])));
    b.add_file("y".to_string(), 7);
    b.add_native_library(source("B", &["z"]));
    let plan = b.build();
    assert_eq!(plan.gnu_identifiers, Some(names(&["x", "y", "z"])));
    assert_eq!(
        plan.members,
        vec![("x".to_string(), reference(0, 0)), ("y".to_string(), ArchiveEntry::File(7)), ("z".to_string(), reference(1, 0))]
    );
}

#[test]
fn update_symbols_keeps_catalog() {
    let mut b: Builder = ArArchiveBuilder::new("out.a".to_string(), true, Some(source("A", &["x", "y"])));
    b.update_symbols();
    assert_eq!(b.src_files(), names(&["x", "y"]));
}
