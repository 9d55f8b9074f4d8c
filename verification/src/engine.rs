//! The tailing state machine: from what was observed of a path to what is
//! shown of it, and to the offsets that are remembered.
//!
//! The driver looks a path up and reports what it found; the processor
//! answers with a [`Reaction`] that the driver carries out. Where the reaction
//! asks for a read, the driver reads from the given offset to the end of the
//! file and reports the bytes, or the failure, to
//! [`EventProcessor::complete_read`].
//!
//! A file that has shrunk below its recorded offset is taken to have been
//! rotated: its offset is reset to zero and it is shown from its start.

use crate::lines::{chunk_lines, spec_chunk_lines};
use crate::position::{
    initial_offset, recorded, spec_initial_offset, within_size, FilePosition, PositionTable,
};
use crate::text::same_text;
use vstd::prelude::*;

verus! {

/// What a look at a path's metadata showed.
#[derive(Clone, Copy, Debug, PartialEq, Eq)]
pub enum Lookup {
    /// The path is a directory.
    Directory,
    /// The path is a file of `size` bytes.
    File { size: u64 },
    /// The metadata could not be had.
    Failed,
}

/// What the kernel reported.
#[derive(Clone, Debug, PartialEq, Eq)]
pub enum Notification {
    /// Something happened to the file or directory at `path`.
    Changed { path: String },
    /// A report of a kind that the tailer did not ask for.
    Unknown,
}

/// What is done about a notification before anything else.
#[derive(Clone, Copy, Debug, PartialEq, Eq)]
pub enum Triage {
    /// Look the path up and process what the look shows.
    LookUp,
    /// Note the report in the log and go on; nothing on record changes.
    Ignore,
}

/// What is done about a kind of notification.
pub open spec fn spec_triage(notification: Notification) -> Triage {
    match notification {
        Notification::Changed { .. } => Triage::LookUp,
        Notification::Unknown => Triage::Ignore,
    }
}

/// Decides what is done about `notification`: a change is looked up, a
/// report of any other kind is ignored.
pub fn triage(notification: &Notification) -> (decision: Triage)
    ensures
        decision == spec_triage(*notification),
{
    match notification {
        Notification::Changed { .. } => Triage::LookUp,
        Notification::Unknown => Triage::Ignore,
    }
}

/// What stands at a path whose metadata could not be had.
#[derive(Clone, Copy, Debug, PartialEq, Eq)]
pub enum Found {
    /// A directory.
    Directory,
    /// A file.
    File,
    /// Something that is neither.
    Other,
    /// Nothing: the path no longer exists.
    Nothing,
}

/// One chunk of output for a file: a separator, the file's header where
/// `header` is set, then the lines read from offset `from` where `read` is
/// set.
#[derive(Clone, Copy, Debug, PartialEq, Eq)]
pub struct Emission {
    /// The offset at which the chunk starts.
    pub from: u64,
    /// Whether the chunk opens with the file's header.
    pub header: bool,
    /// Whether there are bytes to read from `from` on.
    pub read: bool,
}

/// What the driver is to do about a path.
#[derive(Clone, Copy, Debug, PartialEq, Eq)]
pub enum Reaction {
    /// Nothing.
    Nothing,
    /// Walk the tree under the path and watch every entry found.
    Enumerate,
    /// Stop watching the path, then see what stands there now and report it
    /// to [`EventProcessor::process_vanished`].
    Unwatch,
    /// Watch the path.
    Watch,
    /// Show a chunk of the file.
    Emit(Emission),
    /// The path is gone and forgotten; `last` is the offset that was
    /// recorded for it.
    Dropped { last: Option<u64> },
}

/// The processor's state as a mathematical value.
pub struct TailState {
    /// What is on record for each observed file.
    pub positions: Map<Seq<char>, FilePosition>,
    /// The path of the file whose chunk was shown last.
    pub last_shown: Option<Seq<char>>,
    /// How much of a file is shown when it is first observed.
    pub tail_bytes: u64,
}

/// Whether a chunk of `path` that starts at `position` opens with a header:
/// at the start of a file always, elsewhere when the chunk before it was
/// another file's.
pub open spec fn header_due(last_shown: Option<Seq<char>>, path: Seq<char>, position: u64) -> bool {
    position == 0 || last_shown != Some(path)
}

/// The chunk shown of `path`, of `size` bytes, from `position` on.
pub open spec fn spec_emission(
    state: TailState,
    position: u64,
    size: u64,
    path: Seq<char>,
) -> Emission {
    Emission {
        from: position,
        header: header_due(state.last_shown, path, position),
        read: position < size,
    }
}

/// The state once a chunk of `path` has been shown.
pub open spec fn after_emission(state: TailState, path: Seq<char>) -> TailState {
    TailState { last_shown: Some(path), ..state }
}

/// The offset on record for `path`, if any.
pub open spec fn recorded_offset(state: TailState, path: Seq<char>) -> Option<u64> {
    match recorded(state.positions, path) {
        Some(position) => Some(position.offset),
        None => None,
    }
}

/// The offset from which a file seen with `size` bytes is shown, if
/// anything of it is: a new file from its initial offset, a grown file from
/// its recorded offset, a shrunk file from zero, an unchanged file not at
/// all.
pub open spec fn start_offset(state: TailState, path: Seq<char>, size: u64) -> Option<u64> {
    match recorded_offset(state, path) {
        None => Some(spec_initial_offset(size, state.tail_bytes)),
        Some(offset) => if offset < size {
            Some(offset)
        } else if offset > size {
            Some(0)
        } else {
            None
        },
    }
}

/// The state once `path` has been seen as a file of `size` bytes: the size
/// and the offset from which the file is shown are on record, and where
/// something is shown the file is the one shown last.
pub open spec fn after_file_seen(state: TailState, path: Seq<char>, size: u64) -> TailState {
    match start_offset(state, path, size) {
        Some(from) => TailState {
            positions: state.positions.insert(path, FilePosition { offset: from, size }),
            last_shown: Some(path),
            ..state
        },
        None => TailState {
            positions: state.positions.insert(path, FilePosition { offset: size, size }),
            ..state
        },
    }
}

/// The reaction to `path` seen as a file of `size` bytes.
pub open spec fn reaction_to_file(state: TailState, path: Seq<char>, size: u64) -> Reaction {
    match start_offset(state, path, size) {
        Some(from) => Reaction::Emit(spec_emission(state, from, size, path)),
        None => Reaction::Nothing,
    }
}

/// The state once a look at `path` has been processed.
pub open spec fn after_event(state: TailState, path: Seq<char>, lookup: Lookup) -> TailState {
    match lookup {
        Lookup::File { size } => after_file_seen(state, path, size),
        _ => state,
    }
}

/// The reaction to a look at `path`.
pub open spec fn reaction_to_event(state: TailState, path: Seq<char>, lookup: Lookup) -> Reaction {
    match lookup {
        Lookup::Directory => Reaction::Enumerate,
        Lookup::File { size } => reaction_to_file(state, path, size),
        Lookup::Failed => Reaction::Unwatch,
    }
}

/// The state once it is known what stands at a path that could not be
/// looked up: a path that is gone is forgotten.
pub open spec fn after_vanished(state: TailState, path: Seq<char>, found: Found) -> TailState {
    match found {
        Found::Nothing => TailState { positions: state.positions.remove(path), ..state },
        _ => state,
    }
}

/// The reaction to what stands at a path that could not be looked up.
pub open spec fn reaction_to_vanished(state: TailState, path: Seq<char>, found: Found) -> Reaction {
    match found {
        Found::Directory => Reaction::Enumerate,
        Found::File => Reaction::Watch,
        Found::Other => Reaction::Nothing,
        Found::Nothing => Reaction::Dropped { last: recorded_offset(state, path) },
    }
}

/// The state once a read of `path` has ended: a read that gave bytes moves
/// the offset to the size that the file was last seen with, a failed read
/// moves nothing, and so does a read of a file that is not on record.
pub open spec fn after_read(state: TailState, path: Seq<char>, delta: Option<Seq<u8>>) -> TailState {
    match (delta, recorded(state.positions, path)) {
        (Some(_), Some(position)) => TailState {
            positions: state.positions.insert(
                path,
                FilePosition { offset: position.size, size: position.size },
            ),
            ..state
        },
        _ => state,
    }
}

/// Whether a file seen with `size` bytes is read.
pub open spec fn is_read(state: TailState, path: Seq<char>, size: u64) -> bool {
    reaction_to_file(state, path, size) matches Reaction::Emit(emission) && emission.read
}

/// The state once a file seen with `size` bytes has been dealt with: it has
/// been seen, and where that asked for a read, the read has ended with
/// `delta`.
pub open spec fn after_observation(
    state: TailState,
    path: Seq<char>,
    size: u64,
    delta: Option<Seq<u8>>,
) -> TailState {
    let seen = after_file_seen(state, path, size);
    if is_read(state, path, size) {
        after_read(seen, path, delta)
    } else {
        seen
    }
}

/// The state once a file has been dealt with as often as `sizes` is long,
/// seen with `sizes[k]` bytes and read with `deltas[k]` the `k`-th time.
pub open spec fn after_observations(
    state: TailState,
    path: Seq<char>,
    sizes: Seq<u64>,
    deltas: Seq<Option<Seq<u8>>>,
) -> TailState
    decreases sizes.len(),
{
    if sizes.len() == 0 || deltas.len() != sizes.len() {
        state
    } else {
        after_observation(
            after_observations(state, path, sizes.drop_last(), deltas.drop_last()),
            path,
            sizes.last(),
            deltas.last(),
        )
    }
}

/// The lines shown for a read: those of the delta, none for a failed read.
pub open spec fn lines_read(delta: Option<Seq<u8>>) -> Seq<Seq<char>> {
    match delta {
        Some(bytes) => spec_chunk_lines(bytes),
        None => Seq::empty(),
    }
}

/// What an optional slice of bytes holds.
pub open spec fn delta_view(delta: Option<&[u8]>) -> Option<Seq<u8>> {
    match delta {
        Some(bytes) => Some(bytes@),
        None => None,
    }
}

/// The state machine that turns observations of paths into output.
pub struct EventProcessor {
    table: PositionTable,
    last_shown: Option<String>,
    tail_bytes: u64,
}

impl View for EventProcessor {
    type V = TailState;

    closed spec fn view(&self) -> TailState {
        TailState {
            positions: self.table@,
            last_shown: match self.last_shown {
                Some(path) => Some(path@),
                None => None,
            },
            tail_bytes: self.tail_bytes,
        }
    }
}

impl EventProcessor {
    /// A processor that has observed no file and shown no chunk.
    pub fn new(tail_bytes: u64) -> (processor: EventProcessor)
        ensures
            processor@ == (TailState {
                positions: Map::<Seq<char>, FilePosition>::empty(),
                last_shown: None,
                tail_bytes,
            }),
    {
        EventProcessor { table: PositionTable::new(), last_shown: None, tail_bytes }
    }

    /// Decides the chunk of `path` from `position` on and notes `path` as
    /// the file shown last.
    pub fn handle_file_event(&mut self, position: u64, size: u64, path: &str) -> (emission:
        Emission)
        ensures
            emission == spec_emission(old(self)@, position, size, path@),
            final(self)@ == after_emission(old(self)@, path@),
    {
        let same = self.shown_last(path);
        let header = position == 0 || !same;
        self.last_shown = Some(path.to_owned());
        Emission { from: position, header, read: position < size }
    }

    /// Processes a file of `size` bytes at `path`: records its size and the
    /// offset from which it is shown, and decides the chunk, if anything is
    /// to be shown.
    pub fn calculate_position_and_handle(&mut self, size: u64, path: &str) -> (reaction: Reaction)
        ensures
            reaction == reaction_to_file(old(self)@, path@, size),
            final(self)@ == after_file_seen(old(self)@, path@, size),
            within_size(final(self)@.positions),
    {
        let from = match self.table.get(path) {
            None => initial_offset(size, self.tail_bytes),
            Some(position) => {
                if position.offset < size {
                    position.offset
                } else if position.offset > size {
                    0
                } else {
                    self.table.set(path, size, size);
                    return Reaction::Nothing;
                }
            },
        };
        self.table.set(path, from, size);
        let emission = self.handle_file_event(from, size, path);
        Reaction::Emit(emission)
    }

    /// Processes what a look at `path` showed.
    pub fn process_file_event(&mut self, path: &str, lookup: Lookup) -> (reaction: Reaction)
        ensures
            reaction == reaction_to_event(old(self)@, path@, lookup),
            final(self)@ == after_event(old(self)@, path@, lookup),
    {
        match lookup {
            Lookup::Directory => Reaction::Enumerate,
            Lookup::File { size } => self.calculate_position_and_handle(size, path),
            Lookup::Failed => Reaction::Unwatch,
        }
    }

    /// Processes what stands at `path` after its lookup failed.
    pub fn process_vanished(&mut self, path: &str, found: Found) -> (reaction: Reaction)
        ensures
            reaction == reaction_to_vanished(old(self)@, path@, found),
            final(self)@ == after_vanished(old(self)@, path@, found),
    {
        match found {
            Found::Directory => Reaction::Enumerate,
            Found::File => Reaction::Watch,
            Found::Other => Reaction::Nothing,
            Found::Nothing => {
                let last = match self.table.remove(path) {
                    Some(position) => Some(position.offset),
                    None => None,
                };
                Reaction::Dropped { last }
            },
        }
    }

    /// Ends the read of `path`: `delta` holds the bytes read, or nothing
    /// where the file could not be opened, positioned or read. Returns the
    /// lines to show.
    pub fn complete_read(&mut self, path: &str, delta: Option<&[u8]>) -> (lines: Vec<String>)
        ensures
            lines.deep_view() == lines_read(delta_view(delta)),
            final(self)@ == after_read(old(self)@, path@, delta_view(delta)),
    {
        match delta {
            Some(bytes) => {
                match self.table.get(path) {
                    Some(position) => {
                        self.table.set(path, position.size, position.size);
                    },
                    None => {},
                }
                chunk_lines(bytes)
            },
            None => {
                let lines: Vec<String> = Vec::new();
                assert(lines.deep_view() =~= Seq::<Seq<char>>::empty());
                lines
            },
        }
    }

    /// What is on record for `path`, if it has been observed: never an
    /// offset beyond the size.
    pub fn position_of(&self, path: &str) -> (position: Option<FilePosition>)
        ensures
            position == recorded(self@.positions, path@),
            position matches Some(found) ==> found.offset <= found.size,
            within_size(self@.positions),
    {
        self.table.get(path)
    }

    /// The offset on record for `path`, if it has been observed.
    pub fn offset_of(&self, path: &str) -> (offset: Option<u64>)
        ensures
            offset == recorded_offset(self@, path@),
    {
        match self.table.get(path) {
            Some(position) => Some(position.offset),
            None => None,
        }
    }

    /// The number of files on record.
    pub fn watched_files(&self) -> (count: usize)
        ensures
            count == self@.positions.len(),
    {
        self.table.len()
    }

    /// Whether the chunk shown last was one of `path`.
    pub fn shown_last(&self, path: &str) -> (same: bool)
        ensures
            same == (self@.last_shown == Some(path@)),
    {
        match &self.last_shown {
            Some(last) => same_text(last.as_str(), path),
            None => false,
        }
    }

    /// How much of a file is shown when it is first observed.
    pub fn tail_bytes(&self) -> (tail_bytes: u64)
        ensures
            tail_bytes == self@.tail_bytes,
    {
        self.tail_bytes
    }
}

} // verus!
