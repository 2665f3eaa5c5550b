//! Skip policies applied to the members of an archive that is being absorbed.

use vstd::prelude::*;
use crate::text::{is_prefix, is_suffix, starts_with, ends_with, str_equal};

verus! {

/// Name of the metadata member of a compiled-library archive.
pub const METADATA_FILENAME: &'static str = "rust.metadata.bin";

/// Suffix of the embedded-bytecode members of a compiled-library archive.
pub const RLIB_BYTECODE_EXTENSION: &'static str = "bc.z";

/// Suffix of an object file.
pub const OBJECT_SUFFIX: &'static str = ".o";

/// Decides, member by member, whether an absorbed archive's member is left out.
pub enum MergeFilter {
    /// Keep every member (a native library is taken whole).
    KeepAll,
    /// The policy for a compiled-library archive whose own objects start with
    /// `obj_start`.
    Rlib { obj_start: String, lto: bool, skip_objects: bool },
}

/// `fname` is one of the library's own object files: it starts with the
/// library's object prefix and ends with the object suffix.
pub open spec fn is_own_object(fname: Seq<char>, obj_start: Seq<char>) -> bool {
    is_prefix(obj_start, fname) && is_suffix(OBJECT_SUFFIX@, fname)
}

/// The compiled-library policy: skip the metadata and bytecode members; under
/// whole-program optimisation skip the library's own objects; when only
/// objects are wanted skip everything that is not one of its own objects.
pub open spec fn rlib_skips(fname: Seq<char>, obj_start: Seq<char>, lto: bool, skip_objects: bool) -> bool {
    ||| is_suffix(RLIB_BYTECODE_EXTENSION@, fname)
    ||| fname == METADATA_FILENAME@
    ||| (lto && is_own_object(fname, obj_start))
    ||| (skip_objects && !is_own_object(fname, obj_start))
}

impl MergeFilter {
    /// Whether this filter leaves out a member named `fname`.
    pub open spec fn spec_skips(&self, fname: Seq<char>) -> bool {
        match self {
            MergeFilter::KeepAll => false,
            MergeFilter::Rlib { obj_start, lto, skip_objects } => rlib_skips(fname, obj_start@, *lto, *skip_objects),
        }
    }

    /// The filter for a native library: nothing is skipped.
    pub fn native_library() -> (r: MergeFilter)
        ensures
            forall|fname: Seq<char>| !r.spec_skips(fname),
    {
        MergeFilter::KeepAll
    }

    /// The filter for the compiled library `name`.
    pub fn rlib(name: &str, lto: bool, skip_objects: bool) -> (r: MergeFilter)
        ensures
            forall|fname: Seq<char>| r.spec_skips(fname) == rlib_skips(fname, name@, lto, skip_objects),
    {
        MergeFilter::Rlib { obj_start: name.to_owned(), lto, skip_objects }
    }

    /// Whether this filter leaves out a member named `fname`; the conditions
    /// are tried in order and the first that holds decides.
    pub fn skips(&self, fname: &str) -> (r: bool)
        ensures
            r == self.spec_skips(fname@),
    {
        match self {
            MergeFilter::KeepAll => false,
            MergeFilter::Rlib { obj_start, lto, skip_objects } => {
                if ends_with(fname, RLIB_BYTECODE_EXTENSION) || str_equal(fname, METADATA_FILENAME) {
                    return true;
                }
                let own_object = starts_with(fname, obj_start.as_str()) && ends_with(fname, OBJECT_SUFFIX);
                if *lto && own_object {
                    return true;
                }
                if *skip_objects && !own_object {
                    return true;
                }
                false
            },
        }
    }
}

} // verus!
