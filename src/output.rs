//! Lines of console output, as plain text with a stream and a style tag.
use vstd::prelude::*;

verus! {

/// Where a line goes.
#[derive(Clone, Copy, Debug, PartialEq, Eq, Structural)]
pub enum Stream {
    Stdout,
    Stderr,
}

/// How a line is decorated when printed on a terminal.
#[derive(Clone, Copy, Debug, PartialEq, Eq, Structural)]
pub enum Style {
    Dimmed,
    BoldGreen,
    BoldCyan,
    BoldRed,
    BoldYellow,
    BoldPurple,
    UnderlinedPurple,
    BoldBlue,
    BoldMagenta,
}

/// One line of output.
#[derive(Debug)]
pub struct Line {
    pub stream: Stream,
    pub style: Style,
    pub text: String,
}

/// The mathematical value of a [`Line`].
pub struct LineView {
    pub stream: Stream,
    pub style: Style,
    pub text: Seq<char>,
}

impl View for Line {
    type V = LineView;

    open spec fn view(&self) -> LineView {
        LineView { stream: self.stream, style: self.style, text: self.text@ }
    }
}

/// The view of each line of a sequence.
pub open spec fn lines_view(lines: Seq<Line>) -> Seq<LineView> {
    lines.map_values(|l: Line| l@)
}

/// A line on standard output.
pub open spec fn out_line(style: Style, text: Seq<char>) -> LineView {
    LineView { stream: Stream::Stdout, style, text }
}

/// A line on standard error.
pub open spec fn err_line(style: Style, text: Seq<char>) -> LineView {
    LineView { stream: Stream::Stderr, style, text }
}

impl Line {
    pub fn new(stream: Stream, style: Style, text: &str) -> (r: Line)
        ensures
            r@ == (LineView { stream, style, text: text@ }),
    {
        Line { stream, style, text: String::from_str(text) }
    }

    /// A copy of this line.
    pub fn duplicate(&self) -> (r: Line)
        ensures
            r@ == self@,
    {
        Line { stream: self.stream, style: self.style, text: self.text.clone() }
    }
}

/// Pushes a copy of each line of `src` onto `dst`.
pub fn push_copies(dst: &mut Vec<Line>, src: &Vec<Line>)
    ensures
        lines_view(final(dst)@) == lines_view(old(dst)@) + lines_view(src@),
{
    let ghost start = lines_view(dst@);
    let mut i: usize = 0;
    while i < src.len()
        invariant
            i <= src@.len(),
            lines_view(dst@) == start + lines_view(src@.subrange(0, i as int)),
        decreases src@.len() - i,
    {
        let ghost before = dst@;
        dst.push(src[i].duplicate());
        proof {
            assert(src@.subrange(0, i + 1) == src@.subrange(0, i as int).push(src@[i as int]));
            assert(lines_view(dst@) =~= lines_view(before).push(src@[i as int]@));
            assert(lines_view(src@.subrange(0, i + 1)) =~= lines_view(
                src@.subrange(0, i as int),
            ).push(src@[i as int]@));
        }
        i = i + 1;
    }
    proof {
        assert(src@.subrange(0, src@.len() as int) == src@);
    }
}

} // verus!
