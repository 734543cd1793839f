use crate::value::{entries_view, items_view, StructuredValue, ValueView};
use vstd::prelude::*;

verus! {

/// A string as a JSON string literal: between double quotes, with the
/// characters that JSON does not take as they are written as escapes.
pub uninterp spec fn json_string_text(text: Seq<char>) -> Seq<char>;

/// Writes `text` as a JSON string literal, as `serde_json` displays a
/// `Value::String` in its compact form. The result is a function of the
/// text alone.
#[verifier::external_body]
fn quote_string(text: &str) -> (quoted: String)
    ensures
        quoted@ == json_string_text(text@),
{
    serde_json::Value::String(text.to_owned()).to_string()
}

/// The text of a truth value: `true` or `false`.
pub open spec fn boolean_text(value: bool) -> Seq<char> {
    if value {
        "true"@
    } else {
        "false"@
    }
}

/// The compact JSON text of `value`: no blank between its tokens.
pub open spec fn compact(value: ValueView) -> Seq<char>
    decreases value, 0nat,
{
    match value {
        ValueView::Null => "null"@,
        ValueView::Boolean(b) => boolean_text(b),
        ValueView::Number(n) => n.text(),
        ValueView::Text(s) => json_string_text(s),
        ValueView::Array(items) => "["@ + compact_items(items, items.len()) + "]"@,
        ValueView::Object(entries) => "{"@ + compact_entries(entries, entries.len()) + "}"@,
    }
}

/// The compact texts of the first `count` of `items`, with a comma between
/// each two neighbours.
pub open spec fn compact_items(items: Seq<ValueView>, count: nat) -> Seq<char>
    decreases items, count,
{
    if count == 0 || count > items.len() {
        Seq::empty()
    } else if count == 1 {
        compact(items[0])
    } else {
        compact_items(items, (count - 1) as nat) + ","@ + compact(items[count - 1])
    }
}

/// The first `count` of `entries`, each as its key, a colon and its value,
/// with a comma between each two neighbours.
pub open spec fn compact_entries(entries: Seq<(Seq<char>, ValueView)>, count: nat) -> Seq<char>
    decreases entries, count,
{
    if count == 0 || count > entries.len() {
        Seq::empty()
    } else if count == 1 {
        json_string_text(entries[0].0) + ":"@ + compact(entries[0].1)
    } else {
        compact_entries(entries, (count - 1) as nat) + ","@ + json_string_text(
            entries[count - 1].0,
        ) + ":"@ + compact(entries[count - 1].1)
    }
}

/// The text of a truth value: `true` or `false`.
pub fn boolean_string(value: bool) -> (out: String)
    ensures
        out@ == boolean_text(value),
{
    if value {
        "true".to_owned()
    } else {
        "false".to_owned()
    }
}

/// Writes `value` as compact JSON text.
#[verifier::loop_isolation(false)]
pub fn compact_text(value: &StructuredValue) -> (out: String)
    ensures
        out@ == compact(value.deep_view()),
    decreases value,
{
    match value {
        StructuredValue::Null => "null".to_owned(),
        StructuredValue::Boolean(b) => boolean_string(*b),
        StructuredValue::Number(n) => n.text(),
        StructuredValue::Text(s) => quote_string(s.as_str()),
        StructuredValue::Array(items) => {
            let ghost views = items_view(items@);
            assert(value.deep_view() == ValueView::Array(views));
            let mut out = "[".to_owned();
            let mut index: usize = 0;
            while index < items.len()
                invariant
                    index <= items.len(),
                    out@ == "["@ + compact_items(views, index as nat),
                decreases items.len() - index,
            {
                if index > 0 {
                    out.append(",");
                }
                let item = compact_text(&items[index]);
                out.append(item.as_str());
                index = index + 1;
                assert(out@ =~= "["@ + compact_items(views, index as nat));
            }
            out.append("]");
            out
        },
        StructuredValue::Object(entries) => {
            let ghost views = entries_view(entries@);
            assert(value.deep_view() == ValueView::Object(views));
            let mut out = "{".to_owned();
            let mut index: usize = 0;
            while index < entries.len()
                invariant
                    index <= entries.len(),
                    out@ == "{"@ + compact_entries(views, index as nat),
                decreases entries.len() - index,
            {
                if index > 0 {
                    out.append(",");
                }
                let key = quote_string(entries[index].0.as_str());
                out.append(key.as_str());
                out.append(":");
                let item = compact_text(&entries[index].1);
                out.append(item.as_str());
                index = index + 1;
                assert(out@ =~= "{"@ + compact_entries(views, index as nat));
            }
            out.append("}");
            out
        },
    }
}

} // verus!
