//! The member catalog of an archive under construction, and the plan that
//! writes it out.

use vstd::prelude::*;
use crate::filter::{MergeFilter, rlib_skips};
use crate::text::str_equal;
use crate::laws::lemma_keep_all_absorbs_everything;

verus! {

/// Where the content of a catalog member comes from.
#[derive(Debug, PartialEq, Eq)]
pub enum ArchiveEntry<F> {
    /// Member `entry_index` (in on-disk order) of source archive `archive_index`.
    FromArchive { archive_index: usize, entry_index: usize },
    /// A standalone file, owned by the catalog until it is written.
    File(F),
}

/// An opened archive handed to the builder: its reader and its members' names
/// in on-disk order.
pub struct SourceArchive<S> {
    pub reader: S,
    pub member_names: Vec<String>,
}

/// A catalog member as the contracts see it: its name and its origin.
pub type Member<F> = (Seq<char>, ArchiveEntry<F>);

/// The characters of each string.
pub open spec fn views_of(v: Seq<String>) -> Seq<Seq<char>> {
    v.map_values(|s: String| s@)
}

/// The members of a catalog as the contracts see them.
pub open spec fn members_of<F>(v: Seq<(String, ArchiveEntry<F>)>) -> Seq<Member<F>> {
    v.map_values(|e: (String, ArchiveEntry<F>)| (e.0@, e.1))
}

/// The names of a catalog's members, in catalog order.
pub open spec fn names_of<F>(c: Seq<Member<F>>) -> Seq<Seq<char>> {
    c.map_values(|m: Member<F>| m.0)
}

/// A referenced origin names an opened source archive and a position inside
/// it; `counts[a]` is the number of members of source `a`.
pub open spec fn ref_valid<F>(e: ArchiveEntry<F>, counts: Seq<usize>) -> bool {
    match e {
        ArchiveEntry::FromArchive { archive_index, entry_index } =>
            archive_index < counts.len() && entry_index < counts[archive_index as int],
        ArchiveEntry::File(_) => true,
    }
}

/// Every referenced member of `c` is valid for sources of sizes `counts`.
pub open spec fn refs_valid<F>(c: Seq<Member<F>>, counts: Seq<usize>) -> bool {
    forall|i: int| 0 <= i < c.len() ==> ref_valid(#[trigger] c[i].1, counts)
}

/// Every member of an archive, each referring to its own position in source
/// `archive_index`.
pub open spec fn referenced_all<F>(names: Seq<Seq<char>>, archive_index: usize) -> Seq<Member<F>> {
    Seq::new(names.len(), |i: int| (names[i], ArchiveEntry::FromArchive { archive_index, entry_index: i as usize }))
}

/// The members that absorbing an archive with members `names` appends, as
/// source `archive_index`, when `skip` tells which names to leave out: the
/// others, in file order, each referring to its position.
pub open spec fn absorbed<F>(names: Seq<Seq<char>>, skip: spec_fn(Seq<char>) -> bool, archive_index: usize) -> Seq<Member<F>>
    decreases names.len(),
{
    if names.len() == 0 {
        Seq::empty()
    } else {
        let rest = absorbed(names.drop_last(), skip, archive_index);
        if skip(names.last()) {
            rest
        } else {
            rest.push((names.last(), ArchiveEntry::FromArchive { archive_index, entry_index: (names.len() - 1) as usize }))
        }
    }
}

/// `i` is the position of the first occurrence of `name` in `names`.
pub open spec fn is_first_occurrence(names: Seq<Seq<char>>, name: Seq<char>, i: int) -> bool {
    &&& 0 <= i < names.len()
    &&& names[i] == name
    &&& forall|j: int| 0 <= j < i ==> names[j] != name
}

/// Removing a name that the catalog does not hold.
#[derive(Debug, PartialEq, Eq)]
pub struct MemberNotFound {
    pub name: String,
}

/// What a writer carries out to produce an archive: create `dst`; open the
/// GNU writer with `gnu_identifiers` when it is present, else the flat one;
/// append `members` in order, a referenced member by copying it with its
/// original header from `sources`, an owned file under its catalog name.
pub struct BuildPlan<S, F> {
    pub dst: String,
    pub gnu_identifiers: Option<Vec<String>>,
    pub members: Vec<(String, ArchiveEntry<F>)>,
    pub sources: Vec<S>,
}

/// Builds an archive: an ordered catalog of members, each referring into one of
/// the opened source archives (of reader type `S`) or owning a file (of handle
/// type `F`).
pub struct ArArchiveBuilder<S, F> {
    dst: String,
    use_gnu_style_archive: bool,
    src_archives: Vec<S>,
    src_member_counts: Vec<usize>,
    // A sequence, not a map: member order is kept, since the metadata member
    // must stay last for linkers.
    entries: Vec<(String, ArchiveEntry<F>)>,
    update_symbols: bool,
}

impl<S, F> ArArchiveBuilder<S, F> {
    /// The catalog, in order.
    pub closed spec fn catalog(&self) -> Seq<Member<F>> {
        members_of(self.entries@)
    }

    /// The opened source archives, by index.
    pub closed spec fn sources(&self) -> Seq<S> {
        self.src_archives@
    }

    /// The number of members of each opened source archive.
    pub closed spec fn member_counts(&self) -> Seq<usize> {
        self.src_member_counts@
    }

    /// The path the archive is written to.
    pub closed spec fn destination(&self) -> Seq<char> {
        self.dst@
    }

    /// Whether the GNU layout, with its upfront name table, is written.
    pub closed spec fn gnu_style(&self) -> bool {
        self.use_gnu_style_archive
    }

    /// Whether the symbol index was asked to be updated.
    pub closed spec fn symbols_requested(&self) -> bool {
        self.update_symbols
    }

    /// The builder's invariant.
    pub open spec fn wf(&self) -> bool {
        &&& self.member_counts().len() == self.sources().len()
        &&& refs_valid(self.catalog(), self.member_counts())
    }

    /// A builder for the archive at `dst`, starting from every member of
    /// `input` when there is one, in its order.
    pub fn new(dst: String, use_gnu_style_archive: bool, input: Option<SourceArchive<S>>) -> (r: Self)
        ensures
            r.wf(),
            r.destination() == dst@,
            r.gnu_style() == use_gnu_style_archive,
            !r.symbols_requested(),
            match input {
                Some(src) => {
                    &&& r.sources() == seq![src.reader]
                    &&& r.catalog() == referenced_all::<F>(views_of(src.member_names@), 0)
                },
                None => r.sources().len() == 0 && r.catalog().len() == 0,
            },
    {
        let mut b = ArArchiveBuilder {
            dst,
            use_gnu_style_archive,
            src_archives: Vec::new(),
            src_member_counts: Vec::new(),
            entries: Vec::new(),
            update_symbols: false,
        };
        proof {
            assert(b.catalog() =~= Seq::empty());
        }
        if let Some(src) = input {
            b.add_native_library(src);
            proof {
                assert(b.catalog() =~= referenced_all::<F>(views_of(src.member_names@), 0));
                assert(b.sources() =~= seq![src.reader]);
            }
        }
        b
    }

    /// The names of the members, in catalog order.
    pub fn src_files(&self) -> (r: Vec<String>)
        ensures
            views_of(r@) == names_of(self.catalog()),
    {
        let mut r: Vec<String> = Vec::new();
        let mut i: usize = 0;
        while i < self.entries.len()
            invariant
                i <= self.entries@.len(),
                views_of(r@) == names_of(self.catalog()).take(i as int),
            decreases self.entries@.len() - i,
        {
            let ghost prev = r@;
            r.push(self.entries[i].0.clone());
            assert(names_of(self.catalog())[i as int] == self.entries@[i as int].0@);
            assert(views_of(r@) =~= views_of(prev).push(self.entries@[i as int].0@));
            i += 1;
            assert(views_of(r@) =~= names_of(self.catalog()).take(i as int));
        }
        assert(names_of(self.catalog()).take(i as int) =~= names_of(self.catalog()));
        r
    }

    /// Removes the first member named `name`; when there is none the catalog
    /// is left as it was.
    pub fn remove_file(&mut self, name: &str) -> (r: Result<(), MemberNotFound>)
        requires
            old(self).wf(),
        ensures
            final(self).wf(),
            final(self).sources() == old(self).sources(),
            final(self).member_counts() == old(self).member_counts(),
            final(self).destination() == old(self).destination(),
            final(self).gnu_style() == old(self).gnu_style(),
            final(self).symbols_requested() == old(self).symbols_requested(),
            r is Ok <==> names_of(old(self).catalog()).contains(name@),
            r is Ok ==> exists|i: int|
                is_first_occurrence(names_of(old(self).catalog()), name@, i)
                    && final(self).catalog() == old(self).catalog().remove(i),
            r is Err ==> final(self).catalog() == old(self).catalog() && r->Err_0.name@ == name@,
    {
        let ghost names = names_of(self.catalog());
        let mut i: usize = 0;
        while i < self.entries.len()
            invariant
                i <= self.entries@.len(),
                *self == *old(self),
                self.wf(),
                names == names_of(self.catalog()),
                forall|j: int| 0 <= j < i ==> names[j] != name@,
            decreases self.entries@.len() - i,
        {
            if str_equal(self.entries[i].0.as_str(), name) {
                let ghost before = self.catalog();
                self.entries.remove(i);
                assert(self.catalog() =~= before.remove(i as int));
                assert forall|k: int| 0 <= k < self.catalog().len() implies
                    ref_valid(#[trigger] self.catalog()[k].1, self.member_counts()) by {
                    let j = if k < i { k } else { k + 1 };
                    assert(self.catalog()[k] == before[j]);
                    assert(ref_valid(before[j].1, old(self).member_counts()));
                }
                assert(is_first_occurrence(names, name@, i as int));
                return Ok(());
            }
            i += 1;
        }
        assert(!names.contains(name@));
        Err(MemberNotFound { name: name.to_owned() })
    }

    /// Appends a member named `name` that owns `file`.
    pub fn add_file(&mut self, name: String, file: F)
        requires
            old(self).wf(),
        ensures
            final(self).wf(),
            final(self).sources() == old(self).sources(),
            final(self).member_counts() == old(self).member_counts(),
            final(self).destination() == old(self).destination(),
            final(self).gnu_style() == old(self).gnu_style(),
            final(self).symbols_requested() == old(self).symbols_requested(),
            final(self).catalog() == old(self).catalog().push((name@, ArchiveEntry::File(file))),
    {
        let ghost before = self.catalog();
        self.entries.push((name, ArchiveEntry::File(file)));
        assert(self.catalog() =~= before.push((name@, ArchiveEntry::File(file))));
    }

    /// Absorbs `source` as a new source archive: in file order, each member
    /// that `filter` keeps is appended as a reference to its position. Returns
    /// the index the source is registered under.
    pub fn add_archive(&mut self, source: SourceArchive<S>, filter: &MergeFilter) -> (archive_index: usize)
        requires
            old(self).wf(),
        ensures
            final(self).wf(),
            archive_index == old(self).sources().len(),
            final(self).sources() == old(self).sources().push(source.reader),
            final(self).member_counts() == old(self).member_counts().push(source.member_names@.len() as usize),
            final(self).catalog() == old(self).catalog() + absorbed::<F>(views_of(source.member_names@), |f: Seq<char>| filter.spec_skips(f), archive_index),
            final(self).destination() == old(self).destination(),
            final(self).gnu_style() == old(self).gnu_style(),
            final(self).symbols_requested() == old(self).symbols_requested(),
    {
        let SourceArchive { reader, member_names } = source;
        let archive_index = self.src_archives.len();
        let ghost names = views_of(member_names@);
        let ghost start = self.catalog();
        let ghost counts = self.member_counts().push(member_names@.len() as usize);
        assert forall|k: int| 0 <= k < start.len() implies ref_valid(#[trigger] start[k].1, counts) by {
            assert(ref_valid(start[k].1, self.member_counts()));
        }
        let mut i: usize = 0;
        while i < member_names.len()
            invariant
                i <= member_names@.len(),
                names == views_of(member_names@),
                archive_index == self.src_archives@.len(),
                self.src_member_counts@.len() == self.src_archives@.len(),
                self.src_archives == old(self).src_archives,
                self.src_member_counts == old(self).src_member_counts,
                self.dst == old(self).dst,
                self.use_gnu_style_archive == old(self).use_gnu_style_archive,
                self.update_symbols == old(self).update_symbols,
                counts == self.member_counts().push(member_names@.len() as usize),
                self.catalog() == start + absorbed::<F>(names.take(i as int), |f: Seq<char>| filter.spec_skips(f), archive_index),
                refs_valid(self.catalog(), counts),
            decreases member_names@.len() - i,
        {
            let ghost before = self.catalog();
            let fname = &member_names[i];
            assert(names.take(i + 1).drop_last() =~= names.take(i as int));
            assert(names.take(i + 1).last() == fname@);
            if !filter.skips(fname.as_str()) {
                let m = (fname.clone(), ArchiveEntry::FromArchive { archive_index, entry_index: i });
                self.entries.push(m);
                assert(self.catalog() =~= before.push((fname@, ArchiveEntry::FromArchive { archive_index, entry_index: i })));
                assert forall|k: int| 0 <= k < self.catalog().len() implies ref_valid(#[trigger] self.catalog()[k].1, counts) by {
                    if k < before.len() {
                        assert(self.catalog()[k] == before[k]);
                        assert(ref_valid(before[k].1, counts));
                    }
                }
            }
            i += 1;
        }
        assert(names.take(i as int) =~= names);
        self.src_archives.push(reader);
        self.src_member_counts.push(member_names.len());
        archive_index
    }

    /// Absorbs a native library whole.
    pub fn add_native_library(&mut self, source: SourceArchive<S>)
        requires
            old(self).wf(),
        ensures
            final(self).wf(),
            final(self).sources() == old(self).sources().push(source.reader),
            final(self).member_counts() == old(self).member_counts().push(source.member_names@.len() as usize),
            final(self).catalog() == old(self).catalog() + referenced_all::<F>(views_of(source.member_names@), old(self).sources().len() as usize),
            final(self).destination() == old(self).destination(),
            final(self).gnu_style() == old(self).gnu_style(),
            final(self).symbols_requested() == old(self).symbols_requested(),
    {
        let filter = MergeFilter::native_library();
        let ghost names = views_of(source.member_names@);
        let archive_index = self.add_archive(source, &filter);
        proof {
            lemma_keep_all_absorbs_everything::<F>(names, |f: Seq<char>| filter.spec_skips(f), archive_index);
        }
    }

    /// Absorbs the compiled library `name` from `source`: its metadata and
    /// bytecode members are left out, its own objects too under whole-program
    /// optimisation, and everything but its own objects when `skip_objects`.
    pub fn add_rlib(&mut self, source: SourceArchive<S>, name: &str, lto: bool, skip_objects: bool)
        requires
            old(self).wf(),
        ensures
            final(self).wf(),
            final(self).sources() == old(self).sources().push(source.reader),
            final(self).member_counts() == old(self).member_counts().push(source.member_names@.len() as usize),
            final(self).catalog() == old(self).catalog() + absorbed::<F>(
                views_of(source.member_names@),
                |f: Seq<char>| rlib_skips(f, name@, lto, skip_objects),
                old(self).sources().len() as usize,
            ),
            final(self).destination() == old(self).destination(),
            final(self).gnu_style() == old(self).gnu_style(),
            final(self).symbols_requested() == old(self).symbols_requested(),
    {
        let filter = MergeFilter::rlib(name, lto, skip_objects);
        self.add_archive(source, &filter);
        proof {
            let p = |f: Seq<char>| filter.spec_skips(f);
            let q = |f: Seq<char>| rlib_skips(f, name@, lto, skip_objects);
            assert(p =~= q);
        }
    }

    /// Consumes the builder into the plan that writes the archive: the
    /// members in catalog order, never resorted, the opened sources they refer
    /// into, and for the GNU layout the full name table, in the same order.
    pub fn build(self) -> (r: BuildPlan<S, F>)
        requires
            self.wf(),
        ensures
            r.dst@ == self.destination(),
            members_of(r.members@) == self.catalog(),
            r.sources@ == self.sources(),
            refs_valid(members_of(r.members@), self.member_counts()),
            r.sources@.len() == self.member_counts().len(),
            self.gnu_style() ==> (r.gnu_identifiers matches Some(ids) && views_of(ids@) == names_of(self.catalog())),
            !self.gnu_style() ==> r.gnu_identifiers is None,
    {
        let gnu_identifiers = if self.use_gnu_style_archive {
            Some(self.src_files())
        } else {
            None
        };
        let ArArchiveBuilder { dst, src_archives, entries, .. } = self;
        BuildPlan { dst, gnu_identifiers, members: entries, sources: src_archives }
    }

    /// Asks for the symbol index to be updated.
    pub fn update_symbols(&mut self)
        requires
            old(self).wf(),
        ensures
            final(self).wf(),
            final(self).symbols_requested(),
            final(self).catalog() == old(self).catalog(),
            final(self).sources() == old(self).sources(),
            final(self).member_counts() == old(self).member_counts(),
            final(self).destination() == old(self).destination(),
            final(self).gnu_style() == old(self).gnu_style(),
    {
        self.update_symbols = true;
    }
}

} // verus!
