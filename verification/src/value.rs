use crate::decimal::{decimal, decimal_text};
use crate::text::string_views;
use vstd::prelude::*;

verus! {

/// A number: a whole number that is not negative, a whole number with a
/// sign, or any other number as its decimal text.
#[derive(Debug, Clone, PartialEq, Eq)]
pub enum Number {
    Unsigned(u64),
    Signed(i64),
    Decimal(String),
}

/// The mathematical model of a [`Number`].
pub ghost enum NumberView {
    Unsigned(u64),
    Signed(i64),
    Decimal(Seq<char>),
}

impl DeepView for Number {
    type V = NumberView;

    open spec fn deep_view(&self) -> NumberView {
        match self {
            Number::Unsigned(n) => NumberView::Unsigned(*n),
            Number::Signed(n) => NumberView::Signed(*n),
            Number::Decimal(text) => NumberView::Decimal(text@),
        }
    }
}

impl NumberView {
    /// The text of the number: the decimal digits of a whole number, behind
    /// a minus sign where it is negative; the text of any other number as
    /// it is.
    pub open spec fn text(self) -> Seq<char> {
        match self {
            NumberView::Unsigned(n) => decimal_text(n as nat),
            NumberView::Signed(n) => if n < 0 {
                "-"@ + decimal_text((-n) as nat)
            } else {
                decimal_text(n as nat)
            },
            NumberView::Decimal(text) => text,
        }
    }

    /// The number as a whole number that is not negative, where it is one.
    pub open spec fn as_unsigned(self) -> Option<u64> {
        match self {
            NumberView::Unsigned(n) => Some(n),
            NumberView::Signed(n) => if n >= 0 {
                Some(n as u64)
            } else {
                None
            },
            NumberView::Decimal(_) => None,
        }
    }
}

impl Number {
    /// The text of the number.
    pub fn text(&self) -> (out: String)
        ensures
            out@ == self.deep_view().text(),
    {
        match self {
            Number::Unsigned(n) => decimal(*n as u128),
            Number::Signed(n) => {
                if *n < 0 {
                    let magnitude: u64 = (-(*n + 1)) as u64 + 1;
                    let mut out = "-".to_owned();
                    out.append(decimal(magnitude as u128).as_str());
                    out
                } else {
                    decimal(*n as u128)
                }
            },
            Number::Decimal(text) => text.clone(),
        }
    }

    /// The number as a whole number that is not negative, where it is one.
    pub fn as_u64(&self) -> (out: Option<u64>)
        ensures
            out == self.deep_view().as_unsigned(),
    {
        match self {
            Number::Unsigned(n) => Some(*n),
            Number::Signed(n) => if *n >= 0 {
                Some(*n as u64)
            } else {
                None
            },
            Number::Decimal(_) => None,
        }
    }

    /// A copy of the number.
    pub fn duplicate(&self) -> (out: Number)
        ensures
            out.deep_view() == self.deep_view(),
    {
        match self {
            Number::Unsigned(n) => Number::Unsigned(*n),
            Number::Signed(n) => Number::Signed(*n),
            Number::Decimal(text) => Number::Decimal(text.clone()),
        }
    }
}

/// A structured value: a scalar, an ordered sequence of values, or an ordered
/// mapping from keys to values that keeps the order in which its entries were
/// inserted.
#[derive(Debug, PartialEq, Eq)]
pub enum StructuredValue {
    Null,
    Boolean(bool),
    Number(Number),
    Text(String),
    Array(Vec<StructuredValue>),
    Object(Vec<(String, StructuredValue)>),
}

/// The mathematical model of a [`StructuredValue`].
pub ghost enum ValueView {
    Null,
    Boolean(bool),
    Number(NumberView),
    Text(Seq<char>),
    Array(Seq<ValueView>),
    Object(Seq<(Seq<char>, ValueView)>),
}

impl DeepView for StructuredValue {
    type V = ValueView;

    open spec fn deep_view(&self) -> ValueView
        decreases self,
    {
        match self {
            StructuredValue::Null => ValueView::Null,
            StructuredValue::Boolean(b) => ValueView::Boolean(*b),
            StructuredValue::Number(n) => ValueView::Number(n.deep_view()),
            StructuredValue::Text(s) => ValueView::Text(s@),
            StructuredValue::Array(items) => ValueView::Array(items_view(items@)),
            StructuredValue::Object(entries) => ValueView::Object(entries_view(entries@)),
        }
    }
}

/// The models of `items`, in order.
pub open spec fn items_view(items: Seq<StructuredValue>) -> Seq<ValueView>
    decreases items,
{
    Seq::new(
        items.len(),
        |i: int|
            if 0 <= i < items.len() {
                items[i].deep_view()
            } else {
                ValueView::Null
            },
    )
}

/// The models of `entries`, in order: each key's text with its value's model.
pub open spec fn entries_view(entries: Seq<(String, StructuredValue)>) -> Seq<
    (Seq<char>, ValueView),
>
    decreases entries,
{
    Seq::new(
        entries.len(),
        |i: int|
            if 0 <= i < entries.len() {
                (entries[i].0@, entries[i].1.deep_view())
            } else {
                (Seq::empty(), ValueView::Null)
            },
    )
}

impl ValueView {
    /// A scalar is a value that holds no other value.
    pub open spec fn is_scalar(self) -> bool {
        !(self is Array) && !(self is Object)
    }
}

/// The value of the first of `entries` with the key `key`.
pub open spec fn lookup(entries: Seq<(Seq<char>, ValueView)>, key: Seq<char>) -> Option<ValueView>
    decreases entries.len(),
{
    if entries.len() == 0 {
        None
    } else if entries[0].0 == key {
        Some(entries[0].1)
    } else {
        lookup(entries.drop_first(), key)
    }
}

/// The entries of `entries` whose key is none of `keys`, in order.
pub open spec fn without_keys(
    entries: Seq<(Seq<char>, ValueView)>,
    keys: Seq<Seq<char>>,
) -> Seq<(Seq<char>, ValueView)>
    decreases entries.len(),
{
    if entries.len() == 0 {
        Seq::empty()
    } else {
        let before = without_keys(entries.drop_last(), keys);
        if keys.contains(entries.last().0) {
            before
        } else {
            before.push(entries.last())
        }
    }
}

/// Finds the value of the first of `entries` with the key `key`.
pub fn get<'a>(entries: &'a Vec<(String, StructuredValue)>, key: &str) -> (out: Option<
    &'a StructuredValue,
>)
    ensures
        out.deep_view() == lookup(entries_view(entries@), key@),
{
    let wanted = key.to_owned();
    let ghost views = entries_view(entries@);
    let mut index: usize = 0;
    assert(views.subrange(0, views.len() as int) =~= views);
    while index < entries.len()
        invariant
            index <= entries.len(),
            wanted@ == key@,
            views == entries_view(entries@),
            lookup(views, key@) == lookup(views.subrange(index as int, views.len() as int), key@),
        decreases entries.len() - index,
    {
        let ghost rest = views.subrange(index as int, views.len() as int);
        assert(rest[0] == views[index as int]);
        assert(rest.drop_first() =~= views.subrange(index + 1, views.len() as int));
        if entries[index].0 == wanted {
            let found = &entries[index].1;
            assert(lookup(rest, key@) == Some(found.deep_view()));
            return Some(found);
        }
        index = index + 1;
    }
    assert(views.subrange(index as int, views.len() as int) =~= Seq::<(Seq<char>, ValueView)>::empty());
    None
}

impl StructuredValue {
    /// A copy of the value.
    pub fn duplicate(&self) -> (out: StructuredValue)
        ensures
            out.deep_view() == self.deep_view(),
        decreases self,
    {
        match self {
            StructuredValue::Null => StructuredValue::Null,
            StructuredValue::Boolean(b) => StructuredValue::Boolean(*b),
            StructuredValue::Number(n) => StructuredValue::Number(n.duplicate()),
            StructuredValue::Text(s) => StructuredValue::Text(s.clone()),
            StructuredValue::Array(items) => {
                assert(self.deep_view() == ValueView::Array(items_view(items@)));
                let copies = duplicate_items(items);
                let out = StructuredValue::Array(copies);
                assert(out.deep_view() == ValueView::Array(items_view(copies@)));
                out
            },
            StructuredValue::Object(entries) => {
                assert(self.deep_view() == ValueView::Object(entries_view(entries@)));
                let copies = duplicate_entries(entries);
                let out = StructuredValue::Object(copies);
                assert(out.deep_view() == ValueView::Object(entries_view(copies@)));
                out
            },
        }
    }

    /// Whether the value holds no other value.
    pub fn is_scalar(&self) -> (out: bool)
        ensures
            out == self.deep_view().is_scalar(),
    {
        match self {
            StructuredValue::Array(_) => false,
            StructuredValue::Object(_) => false,
            _ => true,
        }
    }
}

/// A copy of `items`.
pub fn duplicate_items(items: &Vec<StructuredValue>) -> (out: Vec<StructuredValue>)
    ensures
        items_view(out@) == items_view(items@),
    decreases items,
{
    let mut copies: Vec<StructuredValue> = Vec::new();
    let mut index: usize = 0;
    while index < items.len()
        invariant
            index <= items.len(),
            copies@.len() == index,
            forall|i: int| 0 <= i < index ==> copies@[i].deep_view() == items@[i].deep_view(),
        decreases items.len() - index,
    {
        copies.push(items[index].duplicate());
        index = index + 1;
    }
    assert(items_view(copies@) =~= items_view(items@));
    copies
}

/// A copy of `entries`.
pub fn duplicate_entries(entries: &Vec<(String, StructuredValue)>) -> (out: Vec<
    (String, StructuredValue),
>)
    ensures
        entries_view(out@) == entries_view(entries@),
    decreases entries,
{
    let mut copies: Vec<(String, StructuredValue)> = Vec::new();
    let mut index: usize = 0;
    while index < entries.len()
        invariant
            index <= entries.len(),
            copies@.len() == index,
            forall|i: int|
                0 <= i < index ==> copies@[i].0@ == entries@[i].0@ && copies@[i].1.deep_view()
                    == entries@[i].1.deep_view(),
        decreases entries.len() - index,
    {
        copies.push((entries[index].0.clone(), entries[index].1.duplicate()));
        index = index + 1;
    }
    assert(entries_view(copies@) =~= entries_view(entries@));
    copies
}

/// A copy of the entries of `entries` whose key is none of `keys`.
pub fn entries_without(entries: &Vec<(String, StructuredValue)>, keys: &Vec<String>) -> (out: Vec<
    (String, StructuredValue),
>)
    ensures
        entries_view(out@) == without_keys(entries_view(entries@), string_views(keys@)),
{
    let ghost views = entries_view(entries@);
    let ghost skipped = string_views(keys@);
    let mut kept: Vec<(String, StructuredValue)> = Vec::new();
    let mut index: usize = 0;
    assert(views.subrange(0, 0) =~= Seq::<(Seq<char>, ValueView)>::empty());
    assert(entries_view(kept@) =~= without_keys(views.subrange(0, 0), skipped));
    while index < entries.len()
        invariant
            index <= entries.len(),
            views == entries_view(entries@),
            skipped == string_views(keys@),
            entries_view(kept@) == without_keys(views.subrange(0, index as int), skipped),
        decreases entries.len() - index,
    {
        let ghost before = entries_view(kept@);
        assert(views.subrange(0, index + 1).drop_last() =~= views.subrange(0, index as int));
        assert(views.subrange(0, index + 1).last() == views[index as int]);
        if !holds_key(keys, &entries[index].0) {
            kept.push((entries[index].0.clone(), entries[index].1.duplicate()));
            assert(entries_view(kept@) =~= before.push(views[index as int]));
        }
        index = index + 1;
    }
    assert(views.subrange(0, index as int) =~= views);
    kept
}

/// Whether `key` is one of `keys`.
pub fn holds_key(keys: &Vec<String>, key: &String) -> (out: bool)
    ensures
        out == string_views(keys@).contains(key@),
{
    let ghost views = string_views(keys@);
    let mut index: usize = 0;
    while index < keys.len()
        invariant
            index <= keys.len(),
            views == string_views(keys@),
            forall|i: int| 0 <= i < index ==> views[i] != key@,
        decreases keys.len() - index,
    {
        if keys[index] == *key {
            assert(views[index as int] == key@);
            return true;
        }
        index = index + 1;
    }
    false
}

} // verus!
