//! From a delta of bytes to the lines that are shown for it.
//!
//! A record is a run of bytes that ends in a line feed. Bytes after the last
//! line feed belong to no record. A record that is well-formed UTF-8 is a
//! line of text; a delta without any such line is shown as one notice.

use crate::text::{decode, spec_decode};
use vstd::prelude::*;

verus! {

/// The byte that ends a record.
pub const LINE_FEED: u8 = 10;

/// The byte that, directly before the line feed, belongs to the terminator.
pub const CARRIAGE_RETURN: u8 = 13;

/// The one line shown for a delta that holds no line of text.
pub const BINARY_NOTICE: &'static str = "* binary file modification *";

/// The number of bytes before the first line feed; the length of `bytes`
/// where they hold none.
pub open spec fn line_len(bytes: Seq<u8>) -> int
    decreases bytes.len(),
{
    if bytes.len() == 0 || bytes[0] == LINE_FEED {
        0
    } else {
        1 + line_len(bytes.drop_first())
    }
}

/// A record's content: what stands before the line feed, less one carriage
/// return at its end.
pub open spec fn content(before_line_feed: Seq<u8>) -> Seq<u8> {
    if before_line_feed.len() > 0 && before_line_feed.last() == CARRIAGE_RETURN {
        before_line_feed.drop_last()
    } else {
        before_line_feed
    }
}

/// The contents of the records of `bytes`, in order.
pub open spec fn records(bytes: Seq<u8>) -> Seq<Seq<u8>>
    decreases bytes.len(),
{
    let n = line_len(bytes);
    if 0 <= n < bytes.len() {
        seq![content(bytes.take(n))] + records(bytes.skip(n + 1))
    } else {
        Seq::empty()
    }
}

/// The records that are text, decoded, in order.
pub open spec fn decoded(records: Seq<Seq<u8>>) -> Seq<Seq<char>> {
    records.filter_map(|record: Seq<u8>| spec_decode(record))
}

/// The lines of text in a delta.
pub open spec fn spec_text_lines(delta: Seq<u8>) -> Seq<Seq<char>> {
    decoded(records(delta))
}

/// What is shown for a delta: its lines of text, or the notice where it has
/// none.
pub open spec fn spec_chunk_lines(delta: Seq<u8>) -> Seq<Seq<char>> {
    let lines = spec_text_lines(delta);
    if lines.len() == 0 {
        seq![BINARY_NOTICE@]
    } else {
        lines
    }
}

/// `line_len` is the position of the first line feed.
pub proof fn lemma_line_len(bytes: Seq<u8>)
    ensures
        0 <= line_len(bytes) <= bytes.len(),
        forall|k: int| 0 <= k < line_len(bytes) ==> bytes[k] != LINE_FEED,
        line_len(bytes) < bytes.len() ==> bytes[line_len(bytes)] == LINE_FEED,
    decreases bytes.len(),
{
    if bytes.len() == 0 || bytes[0] == LINE_FEED {
    } else {
        let rest = bytes.drop_first();
        lemma_line_len(rest);
        assert forall|k: int| 0 <= k < line_len(bytes) implies bytes[k] != LINE_FEED by {
            if k > 0 {
                assert(bytes[k] == rest[k - 1]);
            }
        }
        assert(line_len(rest) < rest.len() ==> rest[line_len(rest)] == bytes[line_len(bytes)]);
    }
}

/// A position that no line feed precedes, and that holds one or is the end,
/// is `line_len`.
pub proof fn lemma_line_len_is(bytes: Seq<u8>, n: int)
    requires
        0 <= n <= bytes.len(),
        forall|k: int| 0 <= k < n ==> bytes[k] != LINE_FEED,
        n < bytes.len() ==> bytes[n] == LINE_FEED,
    ensures
        line_len(bytes) == n,
{
    lemma_line_len(bytes);
    let m = line_len(bytes);
    if m < n {
        assert(bytes[m] == LINE_FEED);
    } else if n < m {
        assert(bytes[n] != LINE_FEED);
    }
}

/// The line feeds among `bytes`.
pub open spec fn line_feeds(bytes: Seq<u8>) -> Seq<u8> {
    bytes.filter(|byte: u8| byte == LINE_FEED)
}

/// Bytes without a line feed have no line feeds among them.
proof fn lemma_no_line_feeds(bytes: Seq<u8>)
    requires
        forall|k: int| 0 <= k < bytes.len() ==> bytes[k] != LINE_FEED,
    ensures
        line_feeds(bytes).len() == 0,
    decreases bytes.len(),
{
    reveal(Seq::filter);
    if bytes.len() > 0 {
        lemma_no_line_feeds(bytes.drop_last());
    }
}

/// There is one record for each line feed, and no record holds a line feed.
pub proof fn law_one_record_per_line_feed(bytes: Seq<u8>)
    ensures
        records(bytes).len() == line_feeds(bytes).len(),
        forall|k: int, at: int|
            0 <= k < records(bytes).len() && 0 <= at < records(bytes)[k].len() ==> (
            #[trigger] records(bytes)[k][at]) != LINE_FEED,
    decreases bytes.len(),
{
    lemma_line_len(bytes);
    let n = line_len(bytes);
    if n < bytes.len() {
        let before = bytes.take(n);
        let rest = bytes.skip(n + 1);
        let is_line_feed = |byte: u8| byte == LINE_FEED;
        law_one_record_per_line_feed(rest);
        lemma_no_line_feeds(before);
        assert(bytes =~= (before + seq![LINE_FEED]) + rest);
        Seq::filter_distributes_over_add(before + seq![LINE_FEED], rest, is_line_feed);
        Seq::filter_distributes_over_add(before, seq![LINE_FEED], is_line_feed);
        assert(seq![LINE_FEED].filter(is_line_feed).len() == 1) by {
            reveal_with_fuel(Seq::filter, 2);
        }
        let first = content(before);
        assert forall|at: int| 0 <= at < first.len() implies first[at] != LINE_FEED by {
            assert(first[at] == bytes[at]);
        }
        assert forall|k: int, at: int|
            0 <= k < records(bytes).len() && 0 <= at < records(bytes)[k].len() implies (
        #[trigger] records(bytes)[k][at]) != LINE_FEED by {
            if k > 0 {
                assert(records(bytes)[k] == records(rest)[k - 1]);
            }
        }
    } else {
        lemma_no_line_feeds(bytes);
    }
}

/// Bytes that end at a record boundary split the records of what follows
/// from their own.
pub proof fn lemma_records_append(head: Seq<u8>, tail: Seq<u8>)
    requires
        head.len() == 0 || head.last() == LINE_FEED,
    ensures
        records(head + tail) == records(head) + records(tail),
    decreases head.len(),
{
    if head.len() == 0 {
        assert(head + tail =~= tail);
        assert(records(head) + records(tail) =~= records(tail));
    } else {
        lemma_line_len(head);
        let n = line_len(head);
        if n == head.len() {
            assert(head[head.len() - 1] != LINE_FEED);
        }
        let whole = head + tail;
        assert forall|k: int| 0 <= k < n implies whole[k] != LINE_FEED by {
            assert(whole[k] == head[k]);
        }
        assert(whole[n] == head[n]);
        lemma_line_len_is(whole, n);
        let rest = head.skip(n + 1);
        assert(whole.take(n) =~= head.take(n));
        assert(whole.skip(n + 1) =~= rest + tail);
        if rest.len() > 0 {
            assert(rest.last() == head.last());
        }
        lemma_records_append(rest, tail);
        assert(records(whole) =~= records(head) + records(tail));
    }
}

/// Decoding goes record by record.
pub proof fn lemma_decoded_append(first: Seq<Seq<u8>>, second: Seq<Seq<u8>>)
    ensures
        decoded(first + second) == decoded(first) + decoded(second),
    decreases second.len(),
{
    if second.len() == 0 {
        assert(first + second =~= first);
        assert(decoded(first) + decoded(second) =~= decoded(first));
    } else {
        let whole = first + second;
        assert(whole.drop_last() =~= first + second.drop_last());
        assert(whole.last() == second.last());
        lemma_decoded_append(first, second.drop_last());
        assert(decoded(whole) =~= decoded(first) + decoded(second));
    }
}

/// Steady growth loses and repeats nothing: where a file has been read up to
/// the end of a record, the lines of what is appended are exactly the lines
/// that the longer content has more than the shorter.
pub proof fn law_growth_shows_new_lines(seen: Seq<u8>, appended: Seq<u8>)
    requires
        seen.len() == 0 || seen.last() == LINE_FEED,
    ensures
        spec_text_lines(seen + appended) == spec_text_lines(seen) + spec_text_lines(appended),
{
    lemma_records_append(seen, appended);
    lemma_decoded_append(records(seen), records(appended));
}

/// Bytes without a line feed hold no record.
pub proof fn law_no_line_feed_no_record(delta: Seq<u8>)
    requires
        forall|k: int| 0 <= k < delta.len() ==> delta[k] != LINE_FEED,
    ensures
        records(delta) == Seq::<Seq<u8>>::empty(),
{
    lemma_line_len_is(delta, delta.len() as int);
}

/// A delta of which no record is text is shown as exactly one line, the
/// notice. A delta without a record is such a delta.
pub proof fn law_no_text_is_one_notice(delta: Seq<u8>)
    requires
        forall|k: int|
            0 <= k < records(delta).len() ==> spec_decode(#[trigger] records(delta)[k]) is None,
    ensures
        spec_text_lines(delta).len() == 0,
        spec_chunk_lines(delta) == seq![BINARY_NOTICE@],
{
    lemma_none_decoded(records(delta));
}

/// Records of which none is text decode to nothing.
proof fn lemma_none_decoded(found: Seq<Seq<u8>>)
    requires
        forall|k: int| 0 <= k < found.len() ==> spec_decode(#[trigger] found[k]) is None,
    ensures
        decoded(found).len() == 0,
    decreases found.len(),
{
    if found.len() > 0 {
        assert(spec_decode(found[found.len() - 1]) is None);
        lemma_none_decoded(found.drop_last());
    }
}

/// A copy of the bytes of `bytes` from `from` up to `to`.
fn copy_range(bytes: &[u8], from: usize, to: usize) -> (out: Vec<u8>)
    requires
        from <= to <= bytes@.len(),
    ensures
        out@ == bytes@.subrange(from as int, to as int),
{
    let mut out: Vec<u8> = Vec::new();
    let mut i: usize = from;
    while i < to
        invariant
            from <= i <= to <= bytes@.len(),
            out@ == bytes@.subrange(from as int, i as int),
        decreases to - i,
    {
        out.push(bytes[i]);
        i += 1;
        assert(out@ =~= bytes@.subrange(from as int, i as int));
    }
    out
}

/// What a vector of byte vectors holds.
pub open spec fn byte_views(out: Seq<Vec<u8>>) -> Seq<Seq<u8>> {
    out.map_values(|record: Vec<u8>| record@)
}

/// Splits `bytes` into the contents of its records.
pub fn split_records(bytes: &[u8]) -> (out: Vec<Vec<u8>>)
    ensures
        byte_views(out@) == records(bytes@),
{
    let mut out: Vec<Vec<u8>> = Vec::new();
    let mut start: usize = 0;
    let mut i: usize = 0;
    assert(bytes@.skip(0) =~= bytes@);
    assert(byte_views(out@) =~= Seq::<Seq<u8>>::empty());
    while i < bytes.len()
        invariant
            start <= i <= bytes@.len(),
            forall|k: int| start <= k < i ==> bytes@[k] != LINE_FEED,
            records(bytes@) == byte_views(out@) + records(bytes@.skip(start as int)),
        decreases bytes@.len() - i,
    {
        if bytes[i] == LINE_FEED {
            let end: usize = if start < i && bytes[i - 1] == CARRIAGE_RETURN {
                i - 1
            } else {
                i
            };
            let record = copy_range(bytes, start, end);
            proof {
                let rest = bytes@.skip(start as int);
                let n = i - start;
                lemma_line_len_is(rest, n);
                assert(rest.take(n) =~= bytes@.subrange(start as int, i as int));
                assert(record@ =~= content(rest.take(n)));
                assert(rest.skip(n + 1) =~= bytes@.skip(i + 1));
                let before = byte_views(out@);
                assert(before.push(record@) =~= before + seq![record@]);
                assert(before + (seq![record@] + records(bytes@.skip(i + 1))) =~= before.push(
                    record@,
                ) + records(bytes@.skip(i + 1)));
            }
            let ghost before = byte_views(out@);
            out.push(record);
            assert(byte_views(out@) =~= before.push(record@));
            start = i + 1;
        }
        i += 1;
    }
    proof {
        let rest = bytes@.skip(start as int);
        lemma_line_len_is(rest, rest.len() as int);
        assert(byte_views(out@) + Seq::<Seq<u8>>::empty() =~= byte_views(out@));
    }
    out
}

/// The lines of text in `delta`.
pub fn text_lines(delta: &[u8]) -> (lines: Vec<String>)
    ensures
        lines.deep_view() == spec_text_lines(delta@),
{
    let found = split_records(delta);
    let mut lines: Vec<String> = Vec::new();
    let mut i: usize = 0;
    assert(lines.deep_view() =~= Seq::<Seq<char>>::empty());
    assert(byte_views(found@).take(0) =~= Seq::<Seq<u8>>::empty());
    while i < found.len()
        invariant
            i <= found@.len(),
            lines.deep_view() == decoded(byte_views(found@).take(i as int)),
        decreases found@.len() - i,
    {
        let ghost seen = byte_views(found@).take(i as int);
        let ghost next = byte_views(found@).take(i + 1);
        let ghost before = lines.deep_view();
        assert(next.drop_last() =~= seen);
        assert(next.last() == found@[i as int]@);
        let text = decode(found[i].as_slice());
        match text {
            Some(line) => {
                let ghost shown = line@;
                lines.push(line);
                assert(lines.deep_view() =~= before + seq![shown]);
            },
            None => {},
        }
        i += 1;
    }
    assert(byte_views(found@).take(i as int) =~= byte_views(found@));
    lines
}

/// What is shown for `delta`: its lines of text, or the notice where it has
/// none. The result is never empty.
pub fn chunk_lines(delta: &[u8]) -> (lines: Vec<String>)
    ensures
        lines.deep_view() == spec_chunk_lines(delta@),
        lines@.len() >= 1,
{
    let mut lines = text_lines(delta);
    if lines.len() == 0 {
        lines.push(BINARY_NOTICE.to_owned());
        assert(lines.deep_view() =~= seq![BINARY_NOTICE@]);
    }
    lines
}

} // verus!
