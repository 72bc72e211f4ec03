//! Lines of terminal output, each with the style it is shown in.

use vstd::prelude::*;

verus! {

/// How a line is shown.
#[derive(PartialEq, Eq, Structural, Debug, Clone, Copy)]
pub enum Style {
    /// Plain text; an empty plain line separates entries.
    Plain,
    /// An article's title.
    Title,
    /// An article's link.
    Link,
    /// A source's name.
    Heading,
    /// A source's description or identifier.
    Detail,
    /// A notice that nothing was found.
    Warning,
}

/// One line of output.
#[derive(Debug)]
pub struct Line {
    pub style: Style,
    pub text: String,
}

impl View for Line {
    type V = (Style, Seq<char>);

    open spec fn view(&self) -> (Style, Seq<char>) {
        (self.style, self.text@)
    }
}

/// The views of a list of lines.
pub open spec fn lines_view(v: Seq<Line>) -> Seq<(Style, Seq<char>)> {
    v.map_values(|l: Line| l@)
}

/// Appends a line to `out`.
pub fn push_line(out: &mut Vec<Line>, style: Style, text: String)
    ensures
        lines_view(final(out)@) == lines_view(old(out)@).push((style, text@)),
{
    out.push(Line { style, text });
    assert(lines_view(final(out)@) =~= lines_view(old(out)@).push((style, text@)));
}

} // verus!
