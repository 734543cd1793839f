use crate::compact::{boolean_string, boolean_text, compact, compact_text};
use crate::lines::{extend_lines, Color, Line, Span, SpanView, Style};
use crate::text::{joined, joined_prefix, repeat, repeated, truncate, truncated};
use crate::value::{entries_view, items_view, StructuredValue, ValueView};
use crate::width::{display_width, text_width, RenderBudget};
use vstd::prelude::*;

verus! {

/// One level of indentation.
pub const INDENT: &'static str = "  ";

/// Whether long values are cut to the width that is left for them.
#[derive(Debug, Clone, Copy, PartialEq, Eq, Structural)]
pub enum DisplayMode {
    /// Values are cut to the width left for them, where it is known.
    Compact,
    /// Values are shown in full.
    Full,
}

impl DisplayMode {
    /// The mode that follows from the lasting toggle and the debug flag of
    /// one call: either of them asks for values in full.
    pub open spec fn spec_from_flags(show_full_tool_output: bool, debug: bool) -> DisplayMode {
        if debug || show_full_tool_output {
            DisplayMode::Full
        } else {
            DisplayMode::Compact
        }
    }

    /// The mode that follows from the lasting toggle and the debug flag of
    /// one call: either of them asks for values in full.
    #[verifier::when_used_as_spec(spec_from_flags)]
    pub fn from_flags(show_full_tool_output: bool, debug: bool) -> (out: DisplayMode)
        ensures
            out == DisplayMode::spec_from_flags(show_full_tool_output, debug),
    {
        if debug || show_full_tool_output {
            DisplayMode::Full
        } else {
            DisplayMode::Compact
        }
    }
}

/// The indentation of nesting depth `depth`.
pub open spec fn indentation(depth: nat) -> Seq<char> {
    repeated("  "@, depth)
}

/// A span of unstyled text.
pub open spec fn plain_span(text: Seq<char>) -> SpanView {
    SpanView { style: Style::plain(), text: text }
}

/// A span of dimmed text.
pub open spec fn dim_span(text: Seq<char>) -> SpanView {
    SpanView { style: Style::plain().dim(), text: text }
}

/// The text of a scalar: a string as it is, a number by its decimal text, a
/// truth value as `true` or `false`, and null as `null`.
pub open spec fn scalar_text(value: ValueView) -> Seq<char> {
    match value {
        ValueView::Text(s) => s,
        ValueView::Number(n) => n.text(),
        ValueView::Boolean(b) => boolean_text(b),
        _ => "null"@,
    }
}

/// The style of a scalar: strings green, numbers and truth values yellow,
/// null dimmed.
pub open spec fn scalar_style(value: ValueView) -> Style {
    match value {
        ValueView::Text(_) => Style::plain().fg(Color::Green),
        ValueView::Number(_) => Style::plain().fg(Color::Yellow),
        ValueView::Boolean(_) => Style::plain().fg(Color::Yellow),
        _ => Style::plain().dim(),
    }
}

/// `text` as it is shown in `mode` with `max_width` columns left: cut to
/// that width in compact mode where the width is known, whole otherwise.
pub open spec fn fitted(text: Seq<char>, mode: DisplayMode, max_width: Option<usize>) -> Seq<char> {
    match (mode, max_width) {
        (DisplayMode::Compact, Some(width)) => truncated(text, width as nat),
        _ => text,
    }
}

/// The span that shows the scalar `value`.
pub open spec fn value_span(value: ValueView, mode: DisplayMode, max_width: Option<usize>) -> SpanView {
    SpanView { style: scalar_style(value), text: fitted(scalar_text(value), mode, max_width) }
}

/// The line of a key that is followed by lines of its own.
pub open spec fn header_line(depth: nat, key: Seq<char>) -> Seq<SpanView> {
    seq![plain_span(indentation(depth)), dim_span(key), plain_span(":"@)]
}

/// What stands before the value on the line of a key with a scalar value.
pub open spec fn prefix_text(depth: nat, key: Seq<char>) -> Seq<char> {
    indentation(depth) + key + ": "@
}

/// The line of a key with the scalar `value`. The value has the columns that
/// the text before it leaves.
pub open spec fn leaf_line(
    depth: nat,
    key: Seq<char>,
    value: ValueView,
    mode: DisplayMode,
    budget: RenderBudget,
) -> Seq<SpanView> {
    seq![
        plain_span(indentation(depth)),
        dim_span(key),
        plain_span(": "@),
        value_span(value, mode, budget.spec_remaining(display_width(prefix_text(depth, key)))),
    ]
}

/// The bullet that stands before the entries of an object in an array.
pub open spec fn bare_bullet_line(depth: nat) -> Seq<SpanView> {
    seq![plain_span(indentation(depth + 1) + "- "@)]
}

/// The line of an element of an array that is shown element by element: a
/// bullet and the element's text.
pub open spec fn bullet_line(depth: nat, item: Seq<char>) -> Seq<SpanView> {
    seq![plain_span(indentation(depth + 1) + "- "@ + item)]
}

/// Every one of `items` is a scalar.
pub open spec fn all_scalars(items: Seq<ValueView>) -> bool {
    forall|i: int| 0 <= i < items.len() ==> (#[trigger] items[i]).is_scalar()
}

/// The texts of `items`, in order.
pub open spec fn scalar_texts(items: Seq<ValueView>) -> Seq<Seq<char>> {
    Seq::new(items.len(), |i: int| scalar_text(items[i]))
}

/// An array of scalars on one line: the texts of its elements with a comma
/// and a blank between each two neighbours.
pub open spec fn inline_text(items: Seq<ValueView>) -> Seq<char> {
    joined(scalar_texts(items), ", "@)
}

/// The lines of one entry at nesting depth `depth`.
pub open spec fn entry_lines(
    key: Seq<char>,
    value: ValueView,
    depth: nat,
    mode: DisplayMode,
    budget: RenderBudget,
) -> Seq<Seq<SpanView>>
    decreases value, 0nat,
{
    match value {
        ValueView::Object(entries) => seq![header_line(depth, key)] + entries_lines(
            entries,
            entries.len(),
            depth + 1,
            mode,
            budget,
        ),
        ValueView::Array(items) => if all_scalars(items) {
            seq![leaf_line(depth, key, ValueView::Text(inline_text(items)), mode, budget)]
        } else {
            seq![header_line(depth, key)] + items_lines(items, items.len(), depth, mode, budget)
        },
        _ => seq![leaf_line(depth, key, value, mode, budget)],
    }
}

/// The lines of the first `count` of `entries`, in order.
pub open spec fn entries_lines(
    entries: Seq<(Seq<char>, ValueView)>,
    count: nat,
    depth: nat,
    mode: DisplayMode,
    budget: RenderBudget,
) -> Seq<Seq<SpanView>>
    decreases entries, count,
{
    if count == 0 || count > entries.len() {
        Seq::empty()
    } else {
        entries_lines(entries, (count - 1) as nat, depth, mode, budget) + entry_lines(
            entries[count - 1].0,
            entries[count - 1].1,
            depth,
            mode,
            budget,
        )
    }
}

/// The lines of one element of an array that is shown element by element:
/// an object as a bare bullet with its entries two levels deeper, any other
/// element as a bullet with its compact text.
pub open spec fn item_lines(
    item: ValueView,
    depth: nat,
    mode: DisplayMode,
    budget: RenderBudget,
) -> Seq<Seq<SpanView>>
    decreases item, 0nat,
{
    match item {
        ValueView::Object(entries) => seq![bare_bullet_line(depth)] + entries_lines(
            entries,
            entries.len(),
            depth + 2,
            mode,
            budget,
        ),
        _ => seq![bullet_line(depth, compact(item))],
    }
}

/// The lines of the first `count` of `items`, in order.
pub open spec fn items_lines(
    items: Seq<ValueView>,
    count: nat,
    depth: nat,
    mode: DisplayMode,
    budget: RenderBudget,
) -> Seq<Seq<SpanView>>
    decreases items, count,
{
    if count == 0 || count > items.len() {
        Seq::empty()
    } else {
        items_lines(items, (count - 1) as nat, depth, mode, budget) + item_lines(
            items[count - 1],
            depth,
            mode,
            budget,
        )
    }
}

/// The lines of an object's entries at nesting depth `depth`, in the order
/// in which the object holds them.
pub open spec fn params_lines(
    entries: Seq<(Seq<char>, ValueView)>,
    depth: nat,
    mode: DisplayMode,
    budget: RenderBudget,
) -> Seq<Seq<SpanView>> {
    entries_lines(entries, entries.len(), depth, mode, budget)
}

/// The budget of an output whose width is not known.
pub open spec fn no_budget() -> RenderBudget {
    RenderBudget { columns: None }
}

/// In full mode, and where the width of the terminal is not known, the
/// line of a scalar shows all of its text.
pub proof fn law_leaf_is_whole(
    depth: nat,
    key: Seq<char>,
    value: ValueView,
    mode: DisplayMode,
    budget: RenderBudget,
)
    requires
        mode == DisplayMode::Full || budget.columns is None,
    ensures
        leaf_line(depth, key, value, mode, budget) == seq![
            plain_span(indentation(depth)),
            dim_span(key),
            plain_span(": "@),
            SpanView { style: scalar_style(value), text: scalar_text(value) },
        ],
{
}

proof fn lemma_entry_is_whole(
    key: Seq<char>,
    value: ValueView,
    depth: nat,
    mode: DisplayMode,
    budget: RenderBudget,
)
    requires
        mode == DisplayMode::Full || budget.columns is None,
    ensures
        entry_lines(key, value, depth, mode, budget) == entry_lines(
            key,
            value,
            depth,
            DisplayMode::Full,
            no_budget(),
        ),
    decreases value, 0nat,
{
    match value {
        ValueView::Object(entries) => {
            lemma_entries_are_whole(entries, entries.len(), depth + 1, mode, budget);
        },
        ValueView::Array(items) => {
            if all_scalars(items) {
                law_leaf_is_whole(depth, key, ValueView::Text(inline_text(items)), mode, budget);
                law_leaf_is_whole(
                    depth,
                    key,
                    ValueView::Text(inline_text(items)),
                    DisplayMode::Full,
                    no_budget(),
                );
            } else {
                lemma_items_are_whole(items, items.len(), depth, mode, budget);
            }
        },
        _ => {
            law_leaf_is_whole(depth, key, value, mode, budget);
            law_leaf_is_whole(depth, key, value, DisplayMode::Full, no_budget());
        },
    }
}

proof fn lemma_entries_are_whole(
    entries: Seq<(Seq<char>, ValueView)>,
    count: nat,
    depth: nat,
    mode: DisplayMode,
    budget: RenderBudget,
)
    requires
        mode == DisplayMode::Full || budget.columns is None,
    ensures
        entries_lines(entries, count, depth, mode, budget) == entries_lines(
            entries,
            count,
            depth,
            DisplayMode::Full,
            no_budget(),
        ),
    decreases entries, count,
{
    if count != 0 && count <= entries.len() {
        lemma_entries_are_whole(entries, (count - 1) as nat, depth, mode, budget);
        lemma_entry_is_whole(entries[count - 1].0, entries[count - 1].1, depth, mode, budget);
    }
}

proof fn lemma_item_is_whole(item: ValueView, depth: nat, mode: DisplayMode, budget: RenderBudget)
    requires
        mode == DisplayMode::Full || budget.columns is None,
    ensures
        item_lines(item, depth, mode, budget) == item_lines(
            item,
            depth,
            DisplayMode::Full,
            no_budget(),
        ),
    decreases item, 0nat,
{
    match item {
        ValueView::Object(entries) => {
            lemma_entries_are_whole(entries, entries.len(), depth + 2, mode, budget);
        },
        _ => {},
    }
}

proof fn lemma_items_are_whole(
    items: Seq<ValueView>,
    count: nat,
    depth: nat,
    mode: DisplayMode,
    budget: RenderBudget,
)
    requires
        mode == DisplayMode::Full || budget.columns is None,
    ensures
        items_lines(items, count, depth, mode, budget) == items_lines(
            items,
            count,
            depth,
            DisplayMode::Full,
            no_budget(),
        ),
    decreases items, count,
{
    if count != 0 && count <= items.len() {
        lemma_items_are_whole(items, (count - 1) as nat, depth, mode, budget);
        lemma_item_is_whole(items[count - 1], depth, mode, budget);
    }
}

/// In full mode, and where the width of the terminal is not known, nothing
/// is cut: the lines are those of full mode without a known width, which
/// has no value measured and every scalar shown whole.
pub proof fn law_nothing_is_cut_in_full_mode_or_without_a_width(
    entries: Seq<(Seq<char>, ValueView)>,
    depth: nat,
    mode: DisplayMode,
    budget: RenderBudget,
)
    requires
        mode == DisplayMode::Full || budget.columns is None,
    ensures
        params_lines(entries, depth, mode, budget) == params_lines(
            entries,
            depth,
            DisplayMode::Full,
            no_budget(),
        ),
{
    lemma_entries_are_whole(entries, entries.len(), depth, mode, budget);
}

/// The text of the scalar `value`.
pub fn scalar_string(value: &StructuredValue) -> (out: String)
    requires
        value.deep_view().is_scalar(),
    ensures
        out@ == scalar_text(value.deep_view()),
{
    match value {
        StructuredValue::Text(s) => s.clone(),
        StructuredValue::Number(n) => n.text(),
        StructuredValue::Boolean(b) => boolean_string(*b),
        _ => "null".to_owned(),
    }
}

/// Shows the scalar `value` in the style of its kind, cut to `max_width`
/// characters in compact mode where a width is given.
pub fn print_value(value: &StructuredValue, mode: DisplayMode, max_width: Option<usize>) -> (out:
    Span)
    requires
        value.deep_view().is_scalar(),
    ensures
        out.deep_view() == value_span(value.deep_view(), mode, max_width),
{
    let style = match value {
        StructuredValue::Text(_) => Style::plain().fg(Color::Green),
        StructuredValue::Number(_) => Style::plain().fg(Color::Yellow),
        StructuredValue::Boolean(_) => Style::plain().fg(Color::Yellow),
        _ => Style::plain().dim(),
    };
    let text = scalar_string(value);
    let shown = match (mode, max_width) {
        (DisplayMode::Compact, Some(width)) => truncate(text.as_str(), width),
        _ => text,
    };
    Span { style: style, text: shown }
}

/// The line of `key` with the scalar `value` behind the indentation
/// `indent`. The value has the columns that are left of `budget` after the
/// display width of what stands before it.
pub fn print_value_with_prefix(
    indent: &str,
    key: &str,
    value: &StructuredValue,
    mode: DisplayMode,
    budget: &RenderBudget,
) -> (out: Line)
    requires
        value.deep_view().is_scalar(),
    ensures
        out.deep_view() == seq![
            plain_span(indent@),
            dim_span(key@),
            plain_span(": "@),
            value_span(
                value.deep_view(),
                mode,
                budget.spec_remaining(display_width(indent@ + key@ + ": "@)),
            ),
        ],
{
    let mut prefix = indent.to_owned();
    prefix.append(key);
    prefix.append(": ");
    let reserve = text_width(prefix.as_str());
    let span = print_value(value, mode, budget.remaining(reserve));
    let mut line = Line::new();
    line.push(Style::plain(), indent.to_owned());
    line.push(Style::plain().dim(), key.to_owned());
    line.push(Style::plain(), ": ".to_owned());
    line.push_span(span);
    line
}

/// Whether every one of `items` is a scalar.
pub fn all_scalar(items: &Vec<StructuredValue>) -> (out: bool)
    ensures
        out == all_scalars(items_view(items@)),
{
    let mut index: usize = 0;
    while index < items.len()
        invariant
            index <= items.len(),
            forall|i: int| 0 <= i < index ==> (#[trigger] items_view(items@)[i]).is_scalar(),
        decreases items.len() - index,
    {
        if !items[index].is_scalar() {
            assert(!items_view(items@)[index as int].is_scalar());
            return false;
        }
        index = index + 1;
    }
    true
}

/// The texts of the scalars `items` on one line, with a comma and a blank
/// between each two neighbours.
pub fn inline_string(items: &Vec<StructuredValue>) -> (out: String)
    requires
        all_scalars(items_view(items@)),
    ensures
        out@ == inline_text(items_view(items@)),
{
    let ghost texts = scalar_texts(items_view(items@));
    let mut out = String::new();
    let mut index: usize = 0;
    while index < items.len()
        invariant
            index <= items.len(),
            all_scalars(items_view(items@)),
            texts == scalar_texts(items_view(items@)),
            out@ == joined_prefix(texts, ", "@, index as nat),
        decreases items.len() - index,
    {
        if index > 0 {
            out.append(", ");
        }
        assert(items_view(items@)[index as int].is_scalar());
        let text = scalar_string(&items[index]);
        out.append(text.as_str());
        index = index + 1;
    }
    out
}

fn header(indent: &str, key: &str) -> (out: Line)
    ensures
        out.deep_view() == seq![plain_span(indent@), dim_span(key@), plain_span(":"@)],
{
    let mut line = Line::new();
    line.push(Style::plain(), indent.to_owned());
    line.push(Style::plain().dim(), key.to_owned());
    line.push(Style::plain(), ":".to_owned());
    line
}

fn bare_bullet(indent: &str) -> (out: Line)
    ensures
        out.deep_view() == seq![plain_span(indent@ + "  "@ + "- "@)],
{
    let mut text = indent.to_owned();
    text.append(INDENT);
    text.append("- ");
    let mut line = Line::new();
    line.push(Style::plain(), text);
    line
}

fn bullet(indent: &str, item: &str) -> (out: Line)
    ensures
        out.deep_view() == seq![plain_span(indent@ + "  "@ + "- "@ + item@)],
{
    let mut text = indent.to_owned();
    text.append(INDENT);
    text.append("- ");
    text.append(item);
    let mut line = Line::new();
    line.push(Style::plain(), text);
    line
}

fn single(line: Line) -> (out: Vec<Line>)
    ensures
        out.deep_view() == seq![line.deep_view()],
{
    let mut out: Vec<Line> = Vec::new();
    out.push(line);
    assert(out.deep_view() =~= seq![line.deep_view()]);
    out
}

fn deeper_indent(indent: &str, Ghost(depth): Ghost<nat>) -> (out: String)
    requires
        indent@ == indentation(depth),
    ensures
        out@ == indentation(depth + 1),
{
    let mut deeper = indent.to_owned();
    deeper.append(INDENT);
    deeper
}

fn print_item(
    item: &StructuredValue,
    indent: &str,
    Ghost(depth): Ghost<nat>,
    mode: DisplayMode,
    budget: &RenderBudget,
) -> (out: Vec<Line>)
    requires
        indent@ == indentation(depth),
    ensures
        out.deep_view() == item_lines(item.deep_view(), depth, mode, *budget),
    decreases item,
{
    assert(indent@ + "  "@ == indentation(depth + 1));
    match item {
        StructuredValue::Object(entries) => {
            assert(item.deep_view() == ValueView::Object(entries_view(entries@)));
            let mut out = single(bare_bullet(indent));
            let deeper = deeper_indent(indent, Ghost(depth));
            let deepest = deeper_indent(deeper.as_str(), Ghost(depth + 1));
            let nested = print_entries(entries, deepest.as_str(), Ghost(depth + 2), mode, budget);
            extend_lines(&mut out, nested);
            out
        },
        _ => {
            let text = compact_text(item);
            single(bullet(indent, text.as_str()))
        },
    }
}

fn print_items(
    items: &Vec<StructuredValue>,
    indent: &str,
    Ghost(depth): Ghost<nat>,
    mode: DisplayMode,
    budget: &RenderBudget,
) -> (out: Vec<Line>)
    requires
        indent@ == indentation(depth),
    ensures
        out.deep_view() == items_lines(
            items_view(items@),
            items@.len() as nat,
            depth,
            mode,
            *budget,
        ),
    decreases items,
{
    let ghost views = items_view(items@);
    let mut out: Vec<Line> = Vec::new();
    assert(out.deep_view() =~= Seq::<Seq<SpanView>>::empty());
    let mut index: usize = 0;
    while index < items.len()
        invariant
            index <= items.len(),
            views == items_view(items@),
            indent@ == indentation(depth),
            out.deep_view() == items_lines(views, index as nat, depth, mode, *budget),
        decreases items.len() - index,
    {
        let lines = print_item(&items[index], indent, Ghost(depth), mode, budget);
        extend_lines(&mut out, lines);
        index = index + 1;
    }
    out
}

fn print_entry(
    key: &str,
    value: &StructuredValue,
    indent: &str,
    Ghost(depth): Ghost<nat>,
    mode: DisplayMode,
    budget: &RenderBudget,
) -> (out: Vec<Line>)
    requires
        indent@ == indentation(depth),
    ensures
        out.deep_view() == entry_lines(key@, value.deep_view(), depth, mode, *budget),
    decreases value,
{
    match value {
        StructuredValue::Object(inner) => {
            assert(value.deep_view() == ValueView::Object(entries_view(inner@)));
            let mut out = single(header(indent, key));
            let deeper = deeper_indent(indent, Ghost(depth));
            let nested = print_entries(inner, deeper.as_str(), Ghost(depth + 1), mode, budget);
            extend_lines(&mut out, nested);
            out
        },
        StructuredValue::Array(items) => {
            assert(value.deep_view() == ValueView::Array(items_view(items@)));
            if all_scalar(items) {
                let joined_values = StructuredValue::Text(inline_string(items));
                single(print_value_with_prefix(indent, key, &joined_values, mode, budget))
            } else {
                let mut out = single(header(indent, key));
                let nested = print_items(items, indent, Ghost(depth), mode, budget);
                extend_lines(&mut out, nested);
                out
            }
        },
        _ => single(print_value_with_prefix(indent, key, value, mode, budget)),
    }
}

fn print_entries(
    entries: &Vec<(String, StructuredValue)>,
    indent: &str,
    Ghost(depth): Ghost<nat>,
    mode: DisplayMode,
    budget: &RenderBudget,
) -> (out: Vec<Line>)
    requires
        indent@ == indentation(depth),
    ensures
        out.deep_view() == params_lines(entries_view(entries@), depth, mode, *budget),
    decreases entries,
{
    let ghost views = entries_view(entries@);
    let mut out: Vec<Line> = Vec::new();
    assert(out.deep_view() =~= Seq::<Seq<SpanView>>::empty());
    let mut index: usize = 0;
    while index < entries.len()
        invariant
            index <= entries.len(),
            views == entries_view(entries@),
            indent@ == indentation(depth),
            out.deep_view() == entries_lines(views, index as nat, depth, mode, *budget),
        decreases entries.len() - index,
    {
        let lines = print_entry(
            entries[index].0.as_str(),
            &entries[index].1,
            indent,
            Ghost(depth),
            mode,
            budget,
        );
        extend_lines(&mut out, lines);
        index = index + 1;
    }
    out
}

/// Lays out the entries of `value` at nesting depth `depth`, one line or
/// more for each entry, in the order in which the object holds them:
///
/// - an entry whose value is an object gives a line with its key and then
///   the lines of that object one level deeper;
/// - an array of scalars gives one line: the key and the elements' texts
///   with a comma between them, cut like a scalar;
/// - any other array gives a line with its key and then a bullet for each
///   element, an object's entries two levels deeper than the key;
/// - a scalar gives one line: the key and the value in the style of its
///   kind, cut in compact mode to the columns that the text before it leaves
///   of `budget`.
///
/// Nothing is laid out where there is no object.
pub fn print_params(
    value: &Option<Vec<(String, StructuredValue)>>,
    depth: usize,
    mode: DisplayMode,
    budget: &RenderBudget,
) -> (out: Vec<Line>)
    ensures
        out.deep_view() == match value {
            Some(entries) => params_lines(entries_view(entries@), depth as nat, mode, *budget),
            None => Seq::empty(),
        },
{
    match value {
        Some(entries) => {
            let indent = repeat(INDENT, depth);
            print_entries(entries, indent.as_str(), Ghost(depth as nat), mode, budget)
        },
        None => {
            let out: Vec<Line> = Vec::new();
            assert(out.deep_view() =~= Seq::<Seq<SpanView>>::empty());
            out
        },
    }
}

} // verus!
