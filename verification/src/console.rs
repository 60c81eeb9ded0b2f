//! Lines that the program shows to its user.
use vstd::prelude::*;

verus! {

/// A line for one of the two output streams.
#[derive(Debug)]
pub enum Line {
    /// For the standard output.
    Notice(String),
    /// For the standard error.
    Warning(String),
}

/// A line as contracts speak of it.
pub enum LineView {
    Notice(Seq<char>),
    Warning(Seq<char>),
}

impl View for Line {
    type V = LineView;

    open spec fn view(&self) -> LineView {
        match self {
            Line::Notice(text) => LineView::Notice(text@),
            Line::Warning(text) => LineView::Warning(text@),
        }
    }
}

/// The lines of a list.
pub open spec fn lines_view(lines: Seq<Line>) -> Seq<LineView> {
    lines.map_values(|line: Line| line@)
}

/// Adds a line for the standard output.
pub fn say(lines: &mut Vec<Line>, text: String)
    ensures
        lines_view(final(lines)@) == lines_view(old(lines)@).push(LineView::Notice(text@)),
{
    let ghost before = lines@;
    lines.push(Line::Notice(text));
    proof {
        assert(lines_view(lines@) =~= lines_view(before).push(LineView::Notice(text@)));
    }
}

/// Adds a line for the standard error.
pub fn warn(lines: &mut Vec<Line>, text: String)
    ensures
        lines_view(final(lines)@) == lines_view(old(lines)@).push(LineView::Warning(text@)),
{
    let ghost before = lines@;
    lines.push(Line::Warning(text));
    proof {
        assert(lines_view(lines@) =~= lines_view(before).push(LineView::Warning(text@)));
    }
}

/// No lines yet.
pub fn no_lines() -> (lines: Vec<Line>)
    ensures
        lines_view(lines@) == Seq::<LineView>::empty(),
{
    let lines: Vec<Line> = Vec::new();
    proof {
        assert(lines_view(lines@) =~= Seq::<LineView>::empty());
    }
    lines
}

// ---------------------------------------------------------------------------
// Laws
// ---------------------------------------------------------------------------


/// A line shows its text on its stream, and lines are shown in order.
pub proof fn lines_are_shown_as_they_are(lines: Seq<Line>, text: String)
    ensures
        Line::Notice(text)@ == LineView::Notice(text@),
        Line::Warning(text)@ == LineView::Warning(text@),
        lines_view(lines).len() == lines.len(),
        forall|i: int| 0 <= i < lines.len() ==> #[trigger] lines_view(lines)[i] == lines[i]@,
{
}

} // verus!
