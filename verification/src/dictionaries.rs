//! Watching the user dictionary directory: the directory is listed (path, modification
//! time, length of each dictionary file) every poll, and the extra dictionaries are
//! reloaded only when the listing differs from the one last applied — a file added,
//! removed or updated in place.

use vstd::prelude::*;

verus! {

/// One dictionary file as the directory listing shows it.
#[derive(Debug, Clone)]
pub struct FileStamp {
    pub path: String,
    /// Modification time, nanoseconds since the epoch, if the file gives one.
    pub modified: Option<u128>,
    pub len: u64,
}

/// What identifies a listing entry.
pub open spec fn stamp_view(s: FileStamp) -> (Seq<char>, Option<u128>, u64) {
    (s.path@, s.modified, s.len)
}

/// A listing as values.
pub open spec fn listing(files: Seq<FileStamp>) -> Seq<(Seq<char>, Option<u128>, u64)> {
    files.map_values(|s: FileStamp| stamp_view(s))
}

fn same_stamp(a: &FileStamp, b: &FileStamp) -> (r: bool)
    ensures
        r == (stamp_view(*a) == stamp_view(*b)),
{
    let same_time = match (a.modified, b.modified) {
        (Some(x), Some(y)) => x == y,
        (None, None) => true,
        _ => false,
    };
    same_time && a.len == b.len && a.path == b.path
}

/// Whether two listings are the same, entry by entry.
pub fn same_listing(a: &[FileStamp], b: &[FileStamp]) -> (r: bool)
    ensures
        r == (listing(a@) == listing(b@)),
{
    if a.len() != b.len() {
        assert(listing(a@).len() != listing(b@).len());
        return false;
    }
    let n = a.len();
    for i in 0..n
        invariant
            n == a@.len(),
            n == b@.len(),
            forall|j: int| 0 <= j < i ==> stamp_view(#[trigger] a@[j]) == stamp_view(b@[j]),
    {
        if !same_stamp(&a[i], &b[i]) {
            assert(listing(a@)[i as int] != listing(b@)[i as int]);
            return false;
        }
    }
    assert(listing(a@) =~= listing(b@));
    true
}

/// The user dictionary directory as last applied.
#[derive(Debug)]
pub struct DictionaryWatch {
    files: Vec<FileStamp>,
}

impl DictionaryWatch {
    pub closed spec fn applied(&self) -> Seq<(Seq<char>, Option<u128>, u64)> {
        listing(self.files@)
    }

    /// Nothing applied yet (no directory, or not loaded).
    pub fn new() -> (w: Self)
        ensures
            w.applied().len() == 0,
    {
        DictionaryWatch { files: Vec::new() }
    }

    /// Records the listing the dictionaries were just loaded from.
    pub fn applied_from(&mut self, files: Vec<FileStamp>)
        ensures
            final(self).applied() == listing(files@),
    {
        self.files = files;
    }

    /// A new poll: returns whether the listing changed since the last one applied (the
    /// caller then reloads and records the listing it loaded from).
    pub fn poll_dictionaries(&self, files: &[FileStamp]) -> (changed: bool)
        ensures
            changed == (listing(files@) != self.applied()),
    {
        !same_listing(files, self.files.as_slice())
    }
}

} // verus!
