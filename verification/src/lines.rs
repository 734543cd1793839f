use vstd::prelude::*;

verus! {

/// A terminal colour.
#[derive(Debug, Clone, Copy, PartialEq, Eq)]
pub enum Color {
    Black,
    Red,
    Green,
    Yellow,
    Blue,
    Magenta,
    Cyan,
    White,
    Color256(u8),
    TrueColor(u8, u8, u8),
}

/// How a span of text is shown: its foreground colour, if any, and whether
/// it is bold, dimmed or italic.
#[derive(Debug, Clone, Copy, PartialEq, Eq)]
pub struct Style {
    pub color: Option<Color>,
    pub bold: bool,
    pub dim: bool,
    pub italic: bool,
}

impl Style {
    /// The style of unstyled text.
    pub open spec fn spec_plain() -> Style {
        Style { color: None, bold: false, dim: false, italic: false }
    }

    /// This style with the foreground colour `color`.
    pub open spec fn spec_fg(self, color: Color) -> Style {
        Style { color: Some(color), ..self }
    }

    /// This style, bold.
    pub open spec fn spec_bold(self) -> Style {
        Style { bold: true, ..self }
    }

    /// This style, dimmed.
    pub open spec fn spec_dim(self) -> Style {
        Style { dim: true, ..self }
    }

    /// This style, italic.
    pub open spec fn spec_italic(self) -> Style {
        Style { italic: true, ..self }
    }

    /// The style of unstyled text.
    #[verifier::when_used_as_spec(spec_plain)]
    pub fn plain() -> (out: Style)
        ensures
            out == Style::spec_plain(),
    {
        Style { color: None, bold: false, dim: false, italic: false }
    }

    /// This style with the foreground colour `color`.
    #[verifier::when_used_as_spec(spec_fg)]
    pub fn fg(self, color: Color) -> (out: Style)
        ensures
            out == self.spec_fg(color),
    {
        Style { color: Some(color), bold: self.bold, dim: self.dim, italic: self.italic }
    }

    /// This style, bold.
    #[verifier::when_used_as_spec(spec_bold)]
    pub fn bold(self) -> (out: Style)
        ensures
            out == self.spec_bold(),
    {
        Style { color: self.color, bold: true, dim: self.dim, italic: self.italic }
    }

    /// This style, dimmed.
    #[verifier::when_used_as_spec(spec_dim)]
    pub fn dim(self) -> (out: Style)
        ensures
            out == self.spec_dim(),
    {
        Style { color: self.color, bold: self.bold, dim: true, italic: self.italic }
    }

    /// This style, italic.
    #[verifier::when_used_as_spec(spec_italic)]
    pub fn italic(self) -> (out: Style)
        ensures
            out == self.spec_italic(),
    {
        Style { color: self.color, bold: self.bold, dim: self.dim, italic: true }
    }
}

/// A run of text in one style.
#[derive(Debug, Clone, PartialEq, Eq)]
pub struct Span {
    pub style: Style,
    pub text: String,
}

/// The mathematical model of a [`Span`].
pub ghost struct SpanView {
    pub style: Style,
    pub text: Seq<char>,
}

impl DeepView for Span {
    type V = SpanView;

    open spec fn deep_view(&self) -> SpanView {
        SpanView { style: self.style, text: self.text@ }
    }
}

/// One line of output: its spans from left to right.
#[derive(Debug, Clone, PartialEq, Eq)]
pub struct Line {
    pub spans: Vec<Span>,
}

impl DeepView for Line {
    type V = Seq<SpanView>;

    open spec fn deep_view(&self) -> Seq<SpanView> {
        self.spans.deep_view()
    }
}

/// The texts of the first `count` spans of `line`, one after the other.
pub open spec fn plain_text_prefix(line: Seq<SpanView>, count: nat) -> Seq<char>
    decreases count,
{
    if count == 0 {
        Seq::empty()
    } else {
        plain_text_prefix(line, (count - 1) as nat) + line[count - 1].text
    }
}

/// What `line` reads as when its styles are left out.
pub open spec fn plain_text(line: Seq<SpanView>) -> Seq<char> {
    plain_text_prefix(line, line.len())
}

impl Line {
    /// A line without spans.
    pub fn new() -> (out: Line)
        ensures
            out.deep_view() == Seq::<SpanView>::empty(),
    {
        let out = Line { spans: Vec::new() };
        assert(out.deep_view() =~= Seq::<SpanView>::empty());
        out
    }

    /// Adds a span with the given style and text at the right end.
    pub fn push(&mut self, style: Style, text: String)
        ensures
            final(self).deep_view() == old(self).deep_view().push(
                SpanView { style: style, text: text@ },
            ),
    {
        self.spans.push(Span { style, text });
        assert(self.deep_view() =~= old(self).deep_view().push(
            SpanView { style: style, text: text@ },
        ));
    }

    /// Adds `span` at the right end.
    pub fn push_span(&mut self, span: Span)
        ensures
            final(self).deep_view() == old(self).deep_view().push(span.deep_view()),
    {
        self.spans.push(span);
        assert(self.deep_view() =~= old(self).deep_view().push(span.deep_view()));
    }

    /// The line's text without its styles.
    pub fn text(&self) -> (out: String)
        ensures
            out@ == plain_text(self.deep_view()),
    {
        let mut out = String::new();
        let mut index: usize = 0;
        while index < self.spans.len()
            invariant
                index <= self.spans.len(),
                out@ == plain_text_prefix(self.deep_view(), index as nat),
            decreases self.spans.len() - index,
        {
            out.append(self.spans[index].text.as_str());
            index = index + 1;
        }
        out
    }
}

/// Moves the lines of `more` to the end of `lines`, in order.
pub fn extend_lines(lines: &mut Vec<Line>, more: Vec<Line>)
    ensures
        final(lines).deep_view() == old(lines).deep_view() + more.deep_view(),
{
    let mut more = more;
    let ghost added = more;
    lines.append(&mut more);
    assert(lines.deep_view() =~= old(lines).deep_view() + added.deep_view());
}

/// Adds `line` at the end of `lines`.
pub fn push_line(lines: &mut Vec<Line>, line: Line)
    ensures
        final(lines).deep_view() == old(lines).deep_view().push(line.deep_view()),
{
    lines.push(line);
    assert(lines.deep_view() =~= old(lines).deep_view().push(line.deep_view()));
}

} // verus!
