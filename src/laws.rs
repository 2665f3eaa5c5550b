//! Laws that relate the builder's operations.

use vstd::prelude::*;
use crate::builder::{absorbed, referenced_all, names_of, is_first_occurrence, ArchiveEntry, Member};

verus! {

/// A filter that skips nothing absorbs every member of an archive, in file
/// order, each referring to its own position.
pub proof fn lemma_keep_all_absorbs_everything<F>(names: Seq<Seq<char>>, skip: spec_fn(Seq<char>) -> bool, archive_index: usize)
    requires
        forall|fname: Seq<char>| !#[trigger] skip(fname),
    ensures
        absorbed::<F>(names, skip, archive_index) == referenced_all::<F>(names, archive_index),
    decreases names.len(),
{
    if names.len() > 0 {
        lemma_keep_all_absorbs_everything::<F>(names.drop_last(), skip, archive_index);
        let r: Seq<Member<F>> = referenced_all::<F>(names, archive_index);
        assert(r =~= referenced_all::<F>(names.drop_last(), archive_index).push(r.last()));
    } else {
        assert(referenced_all::<F>(names, archive_index) =~= Seq::empty());
    }
}

/// Opening an archive with members `names` and changing nothing gives a
/// catalog, and so a build, with the same names in the same order, member `i`
/// being copied (header included) from member `i` of the opened archive.
pub proof fn law_identity_round_trip<F>(names: Seq<Seq<char>>)
    requires
        names.len() <= usize::MAX,
    ensures
        names_of(referenced_all::<F>(names, 0)) == names,
        forall|i: int| 0 <= i < names.len() ==>
            (#[trigger] referenced_all::<F>(names, 0)[i]).1 == (ArchiveEntry::<F>::FromArchive { archive_index: 0, entry_index: i as usize }),
{
    assert(names_of(referenced_all::<F>(names, 0)) =~= names);
}

/// Removing the first occurrence of a name leaves exactly the other names, in
/// their order.
pub proof fn law_removal<F>(c: Seq<Member<F>>, name: Seq<char>, i: int)
    requires
        is_first_occurrence(names_of(c), name, i),
    ensures
        names_of(c.remove(i)) == names_of(c).remove(i),
        !names_of(c.remove(i)).take(i).contains(name),
{
    assert(names_of(c.remove(i)) =~= names_of(c).remove(i));
    assert(names_of(c.remove(i)).take(i) =~= names_of(c).take(i));
}

/// Adding two owned files under one name keeps both, in the order they came.
pub proof fn law_adds_not_deduplicated<F>(c: Seq<Member<F>>, name: Seq<char>, first: F, second: F)
    ensures
        names_of(c.push((name, ArchiveEntry::File(first))).push((name, ArchiveEntry::File(second))))
            == names_of(c) + seq![name, name],
        c.push((name, ArchiveEntry::File(first))).push((name, ArchiveEntry::File(second))).len() == c.len() + 2,
{
    assert(names_of(c.push((name, ArchiveEntry::File(first))).push((name, ArchiveEntry::File(second))))
        =~= names_of(c) + seq![name, name]);
}

} // verus!
