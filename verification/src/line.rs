use vstd::prelude::*;

verus! {

/// How a line is painted.
#[derive(Clone, Copy, Debug, PartialEq, Eq, Structural)]
pub enum Style {
    /// The colour of a category. Category 0 holds every line and colours
    /// those that no filter claimed.
    Category(usize),
    /// Reverse video, which marks the selected row of a window.
    Reversed,
}

/// One captured line: its text and how it is painted.
#[derive(Debug, PartialEq, Eq)]
pub struct Line {
    pub text: String,
    pub style: Style,
}

/// The mathematical view of a [`Line`].
pub struct LineView {
    pub text: Seq<char>,
    pub style: Style,
}

impl View for Line {
    type V = LineView;

    open spec fn view(&self) -> LineView {
        LineView { text: self.text@, style: self.style }
    }
}

impl Clone for Line {
    fn clone(&self) -> (copy: Line)
        ensures
            copy == *self,
    {
        Line { text: self.text.clone(), style: self.style }
    }
}

impl LineView {
    /// The same text in reverse video.
    pub open spec fn reversed(self) -> LineView {
        LineView { text: self.text, style: Style::Reversed }
    }
}

impl Line {
    /// A line that holds a copy of `text`.
    pub fn new(text: &str, style: Style) -> (line: Line)
        ensures
            line@ == (LineView { text: text@, style }),
    {
        Line { text: text.to_owned(), style }
    }

    /// A copy of this line in reverse video.
    pub fn reversed(&self) -> (line: Line)
        ensures
            line@ == self@.reversed(),
    {
        Line { text: self.text.clone(), style: Style::Reversed }
    }
}

/// The views of a sequence of lines, in the same order.
pub open spec fn line_views(lines: Seq<Line>) -> Seq<LineView> {
    Seq::new(lines.len(), |i: int| lines[i]@)
}

/// The views of the lines pushed so far, plus one.
pub proof fn lemma_line_views_push(lines: Seq<Line>, line: Line)
    ensures
        line_views(lines.push(line)) == line_views(lines).push(line@),
{
}

} // verus!
