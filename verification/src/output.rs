use crate::lines::{Line, SpanView, Style};
use crate::theme::Theme;
use vstd::prelude::*;

verus! {

/// One step of output, for the caller to carry out in order.
#[derive(Debug, Clone, PartialEq, Eq)]
pub enum Output {
    /// A line on standard output; the line break follows it.
    Line(Line),
    /// Text on standard output without a line break; the stream is flushed
    /// behind it.
    Inline(Line),
    /// A line on standard error.
    ErrorLine(Line),
    /// Markdown text for the highlighter, in the syntax theme that goes
    /// with the theme.
    Markdown(String, Theme),
    /// The progress indicator is started with this message.
    StartThinking(String),
    /// The progress indicator is stopped with this message.
    StopThinking(String),
    /// The progress indicator shows this message.
    ThinkingMessage(String),
    /// Standard output is flushed.
    Flush,
}

/// The mathematical model of an [`Output`].
pub ghost enum OutputView {
    Line(Seq<SpanView>),
    Inline(Seq<SpanView>),
    ErrorLine(Seq<SpanView>),
    Markdown(Seq<char>, Theme),
    StartThinking(Seq<char>),
    StopThinking(Seq<char>),
    ThinkingMessage(Seq<char>),
    Flush,
}

impl DeepView for Output {
    type V = OutputView;

    open spec fn deep_view(&self) -> OutputView {
        match self {
            Output::Line(line) => OutputView::Line(line.deep_view()),
            Output::Inline(line) => OutputView::Inline(line.deep_view()),
            Output::ErrorLine(line) => OutputView::ErrorLine(line.deep_view()),
            Output::Markdown(text, theme) => OutputView::Markdown(text@, *theme),
            Output::StartThinking(text) => OutputView::StartThinking(text@),
            Output::StopThinking(text) => OutputView::StopThinking(text@),
            Output::ThinkingMessage(text) => OutputView::ThinkingMessage(text@),
            Output::Flush => OutputView::Flush,
        }
    }
}

/// A span of `text` in `style`.
pub open spec fn styled(style: Style, text: Seq<char>) -> SpanView {
    SpanView { style: style, text: text }
}

/// Each of `lines` as a line on standard output, in order.
pub open spec fn as_lines(lines: Seq<Seq<SpanView>>) -> Seq<OutputView> {
    Seq::new(lines.len(), |i: int| OutputView::Line(lines[i]))
}

/// No output.
pub fn nothing() -> (out: Vec<Output>)
    ensures
        out.deep_view() == Seq::<OutputView>::empty(),
{
    let out: Vec<Output> = Vec::new();
    assert(out.deep_view() =~= Seq::<OutputView>::empty());
    out
}

/// Adds `item` at the end of `outputs`.
pub fn push_output(outputs: &mut Vec<Output>, item: Output)
    ensures
        final(outputs).deep_view() == old(outputs).deep_view().push(item.deep_view()),
{
    outputs.push(item);
    assert(outputs.deep_view() =~= old(outputs).deep_view().push(item.deep_view()));
}

/// Moves the items of `more` to the end of `outputs`, in order.
pub fn extend_outputs(outputs: &mut Vec<Output>, more: Vec<Output>)
    ensures
        final(outputs).deep_view() == old(outputs).deep_view() + more.deep_view(),
{
    let mut more = more;
    let ghost added = more;
    outputs.append(&mut more);
    assert(outputs.deep_view() =~= old(outputs).deep_view() + added.deep_view());
}

/// Adds each of `lines` to `outputs` as a line on standard output.
pub fn extend_with_lines(outputs: &mut Vec<Output>, lines: Vec<Line>)
    ensures
        final(outputs).deep_view() == old(outputs).deep_view() + as_lines(lines.deep_view()),
{
    let ghost views = lines.deep_view();
    let ghost before = outputs.deep_view();
    let mut lines = lines;
    let mut reversed: Vec<Line> = Vec::new();
    let count = lines.len();
    while lines.len() > 0
        invariant
            lines@.len() + reversed@.len() == count,
            count == views.len(),
            forall|i: int| 0 <= i < lines@.len() ==> lines@[i].deep_view() == views[i],
            forall|i: int|
                0 <= i < reversed@.len() ==> reversed@[i].deep_view() == views[count - 1 - i],
        decreases lines.len(),
    {
        let line = lines.pop().unwrap();
        reversed.push(line);
    }
    while reversed.len() > 0
        invariant
            reversed@.len() <= count,
            count == views.len(),
            forall|i: int|
                0 <= i < reversed@.len() ==> reversed@[i].deep_view() == views[count - 1 - i],
            outputs.deep_view() == before + as_lines(views).subrange(
                0,
                count - reversed@.len(),
            ),
        decreases reversed.len(),
    {
        let ghost earlier = outputs.deep_view();
        let line = reversed.pop().unwrap();
        push_output(outputs, Output::Line(line));
        assert(outputs.deep_view() =~= before + as_lines(views).subrange(
            0,
            count - reversed@.len(),
        ));
    }
    assert(as_lines(views).subrange(0, count as int) =~= as_lines(views));
}

/// A span of `text` in `style`, as a line of its own.
pub fn line_of(style: Style, text: &str) -> (out: Line)
    ensures
        out.deep_view() == seq![styled(style, text@)],
{
    let mut line = Line::new();
    line.push(style, text.to_owned());
    line
}

} // verus!
