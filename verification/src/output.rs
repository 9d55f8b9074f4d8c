//! The layout of a chunk of output.

use crate::engine::Emission;
use vstd::prelude::*;

verus! {

/// One line of output.
#[derive(Clone, Debug, PartialEq, Eq)]
pub enum OutputLine {
    /// An empty line that sets a chunk off from what came before.
    Separator,
    /// The line that names the file a chunk belongs to, and the offset at
    /// which the chunk starts.
    Header { path: String, offset: u64 },
    /// A line of the file's content, or the notice that stands for it.
    Content(String),
}

/// A line of output as a mathematical value.
pub enum LineView {
    /// An empty line.
    Separator,
    /// A file's header.
    Header { path: Seq<char>, offset: u64 },
    /// A line of content.
    Content(Seq<char>),
}

impl View for OutputLine {
    type V = LineView;

    open spec fn view(&self) -> LineView {
        match self {
            OutputLine::Separator => LineView::Separator,
            OutputLine::Header { path, offset } => LineView::Header { path: path@, offset: *offset },
            OutputLine::Content(line) => LineView::Content(line@),
        }
    }
}

/// What a vector of output lines holds.
pub open spec fn line_views(lines: Seq<OutputLine>) -> Seq<LineView> {
    lines.map_values(|line: OutputLine| line@)
}

/// The head of a chunk: the separator, then the header where one is due.
pub open spec fn spec_chunk_head(path: Seq<char>, emission: Emission) -> Seq<LineView> {
    if emission.header {
        seq![LineView::Separator, LineView::Header { path, offset: emission.from }]
    } else {
        seq![LineView::Separator]
    }
}

/// A chunk: its head, then the lines of content as they are.
pub open spec fn spec_chunk(
    path: Seq<char>,
    emission: Emission,
    lines: Seq<Seq<char>>,
) -> Seq<LineView> {
    spec_chunk_head(path, emission) + lines.map_values(|line: Seq<char>| LineView::Content(line))
}

/// Lays out the chunk of `path` that `emission` describes, with `lines` as
/// its content.
pub fn chunk(path: &str, emission: Emission, lines: &Vec<String>) -> (out: Vec<OutputLine>)
    ensures
        line_views(out@) == spec_chunk(path@, emission, lines.deep_view()),
{
    let mut out: Vec<OutputLine> = Vec::new();
    out.push(OutputLine::Separator);
    if emission.header {
        out.push(OutputLine::Header { path: path.to_owned(), offset: emission.from });
    }
    assert(line_views(out@) =~= spec_chunk_head(path@, emission));
    let mut i: usize = 0;
    while i < lines.len()
        invariant
            i <= lines@.len(),
            line_views(out@) == spec_chunk(path@, emission, lines.deep_view().take(i as int)),
        decreases lines@.len() - i,
    {
        let ghost before = line_views(out@);
        let line = lines[i].clone();
        out.push(OutputLine::Content(line));
        assert(line_views(out@) =~= before.push(LineView::Content(lines@[i as int]@)));
        i += 1;
        assert(line_views(out@) =~= spec_chunk(path@, emission, lines.deep_view().take(i as int)));
    }
    assert(lines.deep_view().take(i as int) =~= lines.deep_view());
    out
}

} // verus!
