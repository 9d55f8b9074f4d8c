//! What holds of the tailing state machine over several steps.

use crate::engine::{
    after_emission, after_event, after_file_seen, after_observation, after_observations,
    after_read, after_vanished, header_due, lines_read, reaction_to_event, reaction_to_file,
    reaction_to_vanished, recorded_offset, spec_emission, start_offset, Emission, Found, Lookup,
    Reaction, TailState,
};
use crate::lines::{decoded, lemma_line_len, line_len, records, spec_text_lines, LINE_FEED};
use crate::position::{recorded, spec_initial_offset, within_size, FilePosition};
use crate::text::spec_decode;
use vstd::prelude::*;

verus! {

/// No step moves an offset beyond the size its file was last seen with.
pub proof fn law_offsets_stay_within_size(
    state: TailState,
    path: Seq<char>,
    lookup: Lookup,
    found: Found,
    delta: Option<Seq<u8>>,
)
    requires
        within_size(state.positions),
    ensures
        within_size(after_event(state, path, lookup).positions),
        within_size(after_vanished(state, path, found).positions),
        within_size(after_read(state, path, delta).positions),
        within_size(after_emission(state, path).positions),
{
    if let Lookup::File { size } = lookup {
        let seen = after_file_seen(state, path, size);
        assert(seen.positions[path].offset <= size);
        assert forall|other: Seq<char>| seen.positions.contains_key(other) implies (
        #[trigger] seen.positions[other]).offset <= seen.positions[other].size by {
            if other != path {
                assert(seen.positions[other] == state.positions[other]);
            }
        }
    }
    let read = after_read(state, path, delta);
    assert forall|other: Seq<char>| read.positions.contains_key(other) implies (
    #[trigger] read.positions[other]).offset <= read.positions[other].size by {
        if other != path {
            assert(read.positions[other] == state.positions[other]);
        }
    }
}

/// A file that has been seen is on record with the size it was seen with,
/// and its offset lies within that size, before its read and after.
pub proof fn law_seen_file_is_on_record(
    state: TailState,
    path: Seq<char>,
    size: u64,
    delta: Option<Seq<u8>>,
)
    ensures
        ({
            let seen = after_file_seen(state, path, size);
            let read = after_read(seen, path, delta);
            &&& recorded(seen.positions, path) matches Some(position) && position.size == size
                && position.offset <= size
            &&& recorded(read.positions, path) matches Some(position) && position.size == size
                && position.offset <= size
        }),
{
}

/// While a file does not shrink, its offset never moves backward: not when
/// the file is seen, and not when its read ends. A read that gives bytes
/// moves the offset to the size, a failed read leaves it.
pub proof fn law_offsets_never_decrease(
    state: TailState,
    path: Seq<char>,
    size: u64,
    delta: Option<Seq<u8>>,
)
    requires
        within_size(state.positions),
        recorded(state.positions, path) matches Some(position) && position.size <= size,
    ensures
        ({
            let before = state.positions[path].offset;
            let seen = after_file_seen(state, path, size);
            let read = after_read(seen, path, delta);
            &&& seen.positions[path].offset == before
            &&& read.positions[path].offset >= before
            &&& delta is Some ==> read.positions[path].offset == size
            &&& delta is None ==> read.positions[path].offset == before
            &&& after_observation(state, path, size, delta).positions[path].offset >= before
        }),
{
}

/// What a run of observations of a file that never shrinks leaves on
/// record: the size last seen, and an offset within it.
proof fn lemma_growing_file_on_record(
    state: TailState,
    path: Seq<char>,
    sizes: Seq<u64>,
    deltas: Seq<Option<Seq<u8>>>,
)
    requires
        within_size(state.positions),
        deltas.len() == sizes.len(),
        recorded(state.positions, path) is Some,
    ensures
        ({
            let position = after_observations(state, path, sizes, deltas).positions[path];
            &&& after_observations(state, path, sizes, deltas).positions.contains_key(path)
            &&& position.offset <= position.size
            &&& position.size == (if sizes.len() == 0 {
                state.positions[path].size
            } else {
                sizes.last()
            })
        }),
    decreases sizes.len(),
{
    if sizes.len() > 0 {
        lemma_growing_file_on_record(state, path, sizes.drop_last(), deltas.drop_last());
    }
}

/// Monotonicity. Over any run of observations of a file that does not
/// shrink, whatever its reads give, the offsets on record never decrease:
/// the offset after the first `earlier` observations is at most the offset
/// after the first `later` ones.
pub proof fn law_offsets_monotonic(
    state: TailState,
    path: Seq<char>,
    sizes: Seq<u64>,
    deltas: Seq<Option<Seq<u8>>>,
    earlier: int,
    later: int,
)
    requires
        within_size(state.positions),
        deltas.len() == sizes.len(),
        recorded(state.positions, path) matches Some(position) && (sizes.len() > 0
            ==> position.size <= sizes[0]),
        forall|a: int, b: int| 0 <= a <= b < sizes.len() ==> sizes[a] <= sizes[b],
        0 <= earlier <= later <= sizes.len(),
    ensures
        after_observations(
            state,
            path,
            sizes.take(earlier),
            deltas.take(earlier),
        ).positions[path].offset <= after_observations(
            state,
            path,
            sizes.take(later),
            deltas.take(later),
        ).positions[path].offset,
    decreases later - earlier,
{
    if earlier < later {
        law_offsets_monotonic(state, path, sizes, deltas, earlier, later - 1);
        let shorter = sizes.take(later - 1);
        let shorter_deltas = deltas.take(later - 1);
        assert(sizes.take(later).drop_last() =~= shorter);
        assert(deltas.take(later).drop_last() =~= shorter_deltas);
        lemma_growing_file_on_record(state, path, shorter, shorter_deltas);
        let before = after_observations(state, path, shorter, shorter_deltas);
        let size = sizes[later - 1];
        assert(sizes.take(later).last() == size);
        if later - 1 > 0 {
            assert(shorter.last() == sizes[later - 2]);
        }
        assert(before.positions[path].size <= size);
        assert(after_observations(state, path, sizes.take(later), deltas.take(later))
            == after_observation(before, path, size, deltas[later - 1]));
    }
}

/// What happens to one path leaves what is on record for all others alone.
pub proof fn law_other_paths_untouched(
    state: TailState,
    path: Seq<char>,
    other: Seq<char>,
    lookup: Lookup,
    found: Found,
    delta: Option<Seq<u8>>,
)
    requires
        other != path,
    ensures
        recorded(after_event(state, path, lookup).positions, other) == recorded(
            state.positions,
            other,
        ),
        recorded(after_vanished(state, path, found).positions, other) == recorded(
            state.positions,
            other,
        ),
        recorded(after_read(state, path, delta).positions, other) == recorded(
            state.positions,
            other,
        ),
{
}

/// Records that are all text decode one for one.
proof fn lemma_all_decoded(found: Seq<Seq<u8>>)
    requires
        forall|k: int| 0 <= k < found.len() ==> spec_decode(#[trigger] found[k]) is Some,
    ensures
        decoded(found).len() == found.len(),
    decreases found.len(),
{
    if found.len() > 0 {
        assert(spec_decode(found[found.len() - 1]) is Some);
        lemma_all_decoded(found.drop_last());
    }
}

/// Bytes that hold a line feed hold a record.
proof fn lemma_line_feed_gives_record(bytes: Seq<u8>, at: int)
    requires
        0 <= at < bytes.len(),
        bytes[at] == LINE_FEED,
    ensures
        records(bytes).len() > 0,
{
    lemma_line_len(bytes);
    if line_len(bytes) == bytes.len() {
        assert(bytes[at] != LINE_FEED);
    }
}

/// Steady growth loses and repeats nothing. A file that has been read to
/// its end, `seen`, and then grows by whole lines of text, `appended`, is
/// read from the old end on, without a header unless another file was shown
/// in between or the file was empty; the bytes from there are the appended
/// ones, the lines shown are exactly theirs, and the offset moves to the new
/// size.
pub proof fn law_steady_growth(
    state: TailState,
    path: Seq<char>,
    seen: Seq<u8>,
    appended: Seq<u8>,
)
    requires
        recorded_offset(state, path) == Some(seen.len() as u64),
        appended.len() > 0,
        appended.last() == LINE_FEED,
        forall|k: int|
            0 <= k < records(appended).len() ==> spec_decode(#[trigger] records(appended)[k])
                is Some,
        seen.len() + appended.len() <= u64::MAX,
    ensures
        ({
            let size = (seen.len() + appended.len()) as u64;
            let from = seen.len() as u64;
            let reading = after_file_seen(state, path, size);
            &&& reaction_to_file(state, path, size) == Reaction::Emit(
                Emission { from, header: header_due(state.last_shown, path, from), read: true },
            )
            &&& (seen + appended).skip(from as int) == appended
            &&& lines_read(Some(appended)) == spec_text_lines(appended)
            &&& lines_read(Some(appended)).len() == records(appended).len()
            &&& lines_read(Some(appended)).len() > 0
            &&& recorded_offset(after_read(reading, path, Some(appended)), path) == Some(size)
        }),
{
    lemma_all_decoded(records(appended));
    lemma_line_feed_gives_record(appended, appended.len() - 1);
    assert((seen + appended).skip(seen.len() as int) =~= appended);
}

/// A path that is gone is forgotten, and a file that appears at it later is
/// a new file: it is shown from its initial offset, whatever was on record
/// before.
pub proof fn law_vanished_then_fresh(state: TailState, path: Seq<char>, size: u64)
    ensures
        ({
            let gone = after_vanished(state, path, Found::Nothing);
            let from = spec_initial_offset(size, state.tail_bytes);
            &&& reaction_to_event(state, path, Lookup::Failed) == Reaction::Unwatch
            &&& reaction_to_vanished(state, path, Found::Nothing) == Reaction::Dropped {
                last: recorded_offset(state, path),
            }
            &&& recorded(gone.positions, path) is None
            &&& reaction_to_event(gone, path, Lookup::File { size }) == Reaction::Emit(
                spec_emission(gone, from, size, path),
            )
            &&& recorded(after_event(gone, path, Lookup::File { size }).positions, path) == Some(
                FilePosition { offset: from, size },
            )
        }),
{
}

/// Of two chunks in a row of one file, the second opens with a header only
/// where it starts at offset zero. A chunk that follows one of another file
/// always opens with a header, so that chunks of one file, of another and of
/// the first again show a header each.
pub proof fn law_header_suppression(
    state: TailState,
    path: Seq<char>,
    other: Seq<char>,
    position: u64,
    size: u64,
)
    requires
        other != path,
    ensures
        ({
            let shown = after_emission(state, path);
            let shown_other = after_emission(shown, other);
            &&& spec_emission(shown, position, size, path).header == (position == 0)
            &&& spec_emission(shown, position, size, other).header
            &&& spec_emission(shown_other, position, size, path).header
        }),
{
}

/// Every chunk that the processor decides for a file leaves that file as
/// the one shown last, so that the law of headers applies to the chunks as
/// they are decided.
pub proof fn law_chunk_marks_file(state: TailState, path: Seq<char>, size: u64)
    requires
        start_offset(state, path, size) is Some,
    ensures
        after_file_seen(state, path, size).last_shown == Some(path),
        reaction_to_file(state, path, size) matches Reaction::Emit(emission) && emission.header
            == header_due(state.last_shown, path, emission.from),
{
}

} // verus!
