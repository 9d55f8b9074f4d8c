//! Where each observed file stands: how far it has been consumed, and how
//! large it was when it was last looked at.

use vstd::hash_map::StringHashMap;
use vstd::prelude::*;

verus! {

/// The offset from which a file seen for the first time is shown: the last
/// `tail_bytes` bytes of a file longer than that, the whole file otherwise.
pub open spec fn spec_initial_offset(size: u64, tail_bytes: u64) -> u64 {
    if size > tail_bytes {
        (size - tail_bytes) as u64
    } else {
        0
    }
}

/// Computes [`spec_initial_offset`].
pub fn initial_offset(size: u64, tail_bytes: u64) -> (offset: u64)
    ensures
        offset == spec_initial_offset(size, tail_bytes),
        offset <= size,
{
    if size > tail_bytes {
        size - tail_bytes
    } else {
        0
    }
}

/// What is on record for one file.
#[derive(Clone, Copy, Debug, PartialEq, Eq)]
pub struct FilePosition {
    /// The offset up to which the file's content has been consumed.
    pub offset: u64,
    /// The file's size when it was last looked at.
    pub size: u64,
}

/// No file has been consumed beyond the size it was last seen with.
pub open spec fn within_size(positions: Map<Seq<char>, FilePosition>) -> bool {
    forall|path: Seq<char>|
        positions.contains_key(path) ==> (#[trigger] positions[path]).offset
            <= positions[path].size
}

/// What is on record for `path` in `positions`, if anything.
pub open spec fn recorded(positions: Map<Seq<char>, FilePosition>, path: Seq<char>) -> Option<
    FilePosition,
> {
    if positions.contains_key(path) {
        Some(positions[path])
    } else {
        None
    }
}

/// The positions of the files that have been observed, by absolute path.
/// No position in the table lies beyond its file's size.
pub struct PositionTable {
    entries: StringHashMap<FilePosition>,
}

impl View for PositionTable {
    type V = Map<Seq<char>, FilePosition>;

    closed spec fn view(&self) -> Map<Seq<char>, FilePosition> {
        self.entries@
    }
}

impl PositionTable {
    #[verifier::type_invariant]
    spec fn valid(self) -> bool {
        within_size(self.entries@)
    }

    /// A table that knows no file.
    pub fn new() -> (table: PositionTable)
        ensures
            table@ == Map::<Seq<char>, FilePosition>::empty(),
    {
        PositionTable { entries: StringHashMap::new() }
    }

    /// Whether `path` has been observed.
    pub fn contains(&self, path: &str) -> (known: bool)
        ensures
            known == self@.contains_key(path@),
    {
        self.entries.contains_key(path)
    }

    /// What is on record for `path`, if it has been observed.
    pub fn get(&self, path: &str) -> (position: Option<FilePosition>)
        ensures
            position == recorded(self@, path@),
            position matches Some(found) ==> found.offset <= found.size,
            within_size(self@),
    {
        proof {
            use_type_invariant(self);
        }
        match self.entries.get(path) {
            Some(found) => Some(*found),
            None => None,
        }
    }

    /// Records for `path` that it has been consumed up to `offset` and was
    /// last seen with `size` bytes, in place of what was on record.
    pub fn set(&mut self, path: &str, offset: u64, size: u64)
        requires
            offset <= size,
        ensures
            final(self)@ == old(self)@.insert(path@, FilePosition { offset, size }),
            within_size(final(self)@),
    {
        proof {
            use_type_invariant(&*self);
        }
        // The map changes outside the table, so that the table is valid at
        // every step.
        let mut entries: StringHashMap<FilePosition> = StringHashMap::new();
        std::mem::swap(&mut self.entries, &mut entries);
        entries.insert(path.to_owned(), FilePosition { offset, size });
        std::mem::swap(&mut self.entries, &mut entries);
    }

    /// Forgets `path` and returns what was on record for it.
    pub fn remove(&mut self, path: &str) -> (last: Option<FilePosition>)
        ensures
            final(self)@ == old(self)@.remove(path@),
            last == recorded(old(self)@, path@),
            within_size(final(self)@),
    {
        proof {
            use_type_invariant(&*self);
        }
        let last = self.get(path);
        let mut entries: StringHashMap<FilePosition> = StringHashMap::new();
        std::mem::swap(&mut self.entries, &mut entries);
        entries.remove(path);
        std::mem::swap(&mut self.entries, &mut entries);
        last
    }

    /// The number of files observed.
    pub fn len(&self) -> (count: usize)
        ensures
            count == self@.len(),
    {
        self.entries.len()
    }

    /// Whether no file has been observed.
    pub fn is_empty(&self) -> (empty: bool)
        ensures
            empty == self@.is_empty(),
    {
        self.entries.is_empty()
    }
}

} // verus!
