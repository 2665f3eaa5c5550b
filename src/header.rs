//! The fixed header of an archive member.

use vstd::prelude::*;

verus! {

/// A member's header fields.
#[derive(Debug, PartialEq, Eq)]
pub struct MemberHeader {
    pub identifier: Vec<u8>,
    pub size: u64,
    pub mtime: u64,
    pub uid: u32,
    pub gid: u32,
    pub mode: u32,
}

impl MemberHeader {
    /// The header under which a referenced member is written again: its
    /// identifier and size re-used, its time, owner, group and mode copied
    /// verbatim, none of them made up.
    pub fn for_copy(&self) -> (r: MemberHeader)
        ensures
            r.identifier@ == self.identifier@,
            r.size == self.size,
            r.mtime == self.mtime,
            r.uid == self.uid,
            r.gid == self.gid,
            r.mode == self.mode,
    {
        let mut identifier: Vec<u8> = Vec::new();
        let mut i: usize = 0;
        while i < self.identifier.len()
            invariant
                i <= self.identifier@.len(),
                identifier@ == self.identifier@.take(i as int),
            decreases self.identifier@.len() - i,
        {
            identifier.push(self.identifier[i]);
            i += 1;
            assert(identifier@ =~= self.identifier@.take(i as int));
        }
        assert(self.identifier@.take(i as int) =~= self.identifier@);
        MemberHeader { identifier, size: self.size, mtime: self.mtime, uid: self.uid, gid: self.gid, mode: self.mode }
    }
}

} // verus!
