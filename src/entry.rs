//! What the filesystem reports about a path, as plain values, and what a
//! probe of it answered.
use vstd::prelude::*;

verus! {

/// The type of an entry as a stat reports it. Where the stat does not follow
/// symbolic links, a link is `Symlink` whatever it points to.
#[derive(PartialEq, Eq, Structural, Debug, Clone, Copy)]
pub enum EntryType {
    File,
    Directory,
    Symlink,
    Other,
}

/// What reading a directory showed.
#[derive(PartialEq, Eq, Structural, Debug, Clone, Copy)]
pub enum Listing {
    Empty,
    NonEmpty,
    Unreadable,
}

/// The identity of a filesystem entity: device and inode.
#[derive(PartialEq, Eq, Structural, Debug, Clone, Copy)]
pub struct FileId {
    pub dev: u64,
    pub ino: u64,
}

/// What a probe of one path found.
#[derive(PartialEq, Eq, Structural, Debug, Clone, Copy)]
pub struct PathInfo {
    /// The path lies in the authorised scope.
    pub allowed: bool,
    /// The type there, from a stat that does not follow a final link;
    /// `None` when nothing is there.
    pub entry: Option<EntryType>,
    /// The identity of what is there, where a stat gave it.
    pub id: Option<FileId>,
    /// What listing the path as a directory showed.
    pub listing: Listing,
}

/// The probe found `info` at the path `s`.
pub open spec fn found<F: Fn(&Vec<u8>) -> PathInfo>(probe: F, s: Seq<u8>, info: PathInfo) -> bool {
    exists|v: Vec<u8>| v@ == s && probe.ensures((&v,), info)
}

/// The probe answered `answer` for the path `s`.
pub open spec fn answered<F: Fn(&Vec<u8>) -> bool>(probe: F, s: Seq<u8>, answer: bool) -> bool {
    exists|v: Vec<u8>| v@ == s && probe.ensures((&v,), answer)
}

} // verus!
