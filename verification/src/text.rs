use vstd::prelude::*;
use vstd::utf8::{
    encode_scalar, encode_utf8, encode_utf8_first_scalar, encode_utf8_valid_utf8,
    is_char_boundary, pop_first_scalar,
};

verus! {

/// `text` cut down to its first `max_width` characters; `text` itself where
/// it has no more than that.
pub open spec fn truncated(text: Seq<char>, max_width: nat) -> Seq<char> {
    if text.len() <= max_width {
        text
    } else {
        text.subrange(0, max_width as int)
    }
}

/// `unit` written `count` times in a row.
pub open spec fn repeated(unit: Seq<char>, count: nat) -> Seq<char>
    decreases count,
{
    if count == 0 {
        Seq::empty()
    } else {
        repeated(unit, (count - 1) as nat) + unit
    }
}

/// The first `count` of `parts`, with `separator` between each two
/// neighbours.
pub open spec fn joined_prefix(parts: Seq<Seq<char>>, separator: Seq<char>, count: nat) -> Seq<
    char,
>
    decreases count,
{
    if count == 0 {
        Seq::empty()
    } else if count == 1 {
        parts[0]
    } else {
        joined_prefix(parts, separator, (count - 1) as nat) + separator + parts[count - 1]
    }
}

/// All of `parts`, with `separator` between each two neighbours.
pub open spec fn joined(parts: Seq<Seq<char>>, separator: Seq<char>) -> Seq<char> {
    joined_prefix(parts, separator, parts.len())
}

/// The pieces of `text` between its separators, empty pieces included: one
/// more than it has separators.
pub open spec fn split_on(text: Seq<char>, separator: char) -> Seq<Seq<char>>
    decreases text.len(),
{
    if text.len() == 0 {
        seq![Seq::empty()]
    } else {
        let before = split_on(text.drop_last(), separator);
        if text.last() == separator {
            before.push(Seq::empty())
        } else {
            before.drop_last().push(before.last().push(text.last()))
        }
    }
}

/// `text` holds the character `wanted`.
pub open spec fn has_char(text: Seq<char>, wanted: char) -> bool {
    exists|i: int| 0 <= i < text.len() && text[i] == wanted
}

/// The views of the strings of `parts`, in order.
pub open spec fn string_views(parts: Seq<String>) -> Seq<Seq<char>> {
    Seq::new(parts.len(), |i: int| parts[i]@)
}

/// The bytes of two texts in a row are the bytes of the first and then the
/// bytes of the second, and the place between them is the boundary of a
/// character.
pub proof fn lemma_bytes_of_concatenation(first: Seq<char>, second: Seq<char>)
    ensures
        encode_utf8(first + second) == encode_utf8(first) + encode_utf8(second),
        is_char_boundary(encode_utf8(first + second), encode_utf8(first).len() as int),
    decreases first.len(),
{
    let all = first + second;
    let bytes = encode_utf8(all);
    encode_utf8_valid_utf8(all);
    if first.len() == 0 {
        assert(all =~= second);
        assert(encode_utf8(first) + encode_utf8(second) =~= encode_utf8(second));
    } else {
        let head = encode_scalar(first[0] as u32);
        assert(all.drop_first() =~= first.drop_first() + second);
        lemma_bytes_of_concatenation(first.drop_first(), second);
        assert(bytes =~= encode_utf8(first) + encode_utf8(second));
        encode_utf8_first_scalar(all);
        assert(pop_first_scalar(bytes) =~= encode_utf8(all.drop_first()));
        assert(encode_utf8(first).len() == head.len() + encode_utf8(first.drop_first()).len());
    }
}

/// No piece between the separators of a text holds a separator, and there
/// is at least one piece.
pub proof fn lemma_pieces_hold_no_separator(text: Seq<char>, separator: char)
    ensures
        split_on(text, separator).len() >= 1,
        forall|i: int, j: int|
            0 <= i < split_on(text, separator).len() && 0 <= j < split_on(text, separator)[i].len()
                ==> split_on(text, separator)[i][j] != separator,
    decreases text.len(),
{
    if text.len() > 0 {
        lemma_pieces_hold_no_separator(text.drop_last(), separator);
    }
}

/// Parts that are joined begin with the first of them.
pub proof fn lemma_joined_begins_with_first(parts: Seq<Seq<char>>, separator: Seq<char>, count: nat)
    requires
        1 <= count <= parts.len(),
    ensures
        joined_prefix(parts, separator, count).len() >= parts[0].len(),
        joined_prefix(parts, separator, count).subrange(0, parts[0].len() as int) == parts[0],
    decreases count,
{
    if count == 1 {
        assert(parts[0].subrange(0, parts[0].len() as int) =~= parts[0]);
    } else {
        lemma_joined_begins_with_first(parts, separator, (count - 1) as nat);
        let before = joined_prefix(parts, separator, (count - 1) as nat);
        assert((before + separator + parts[count - 1]).subrange(0, parts[0].len() as int)
            =~= before.subrange(0, parts[0].len() as int));
    }
}

/// A text that is cut to `max_width` characters has that many, and is the
/// beginning of the text it was cut from; a text that has no more than
/// `max_width` characters stays as it is.
pub proof fn law_truncated(text: Seq<char>, max_width: nat)
    ensures
        text.len() > max_width ==> truncated(text, max_width).len() == max_width,
        truncated(text, max_width).len() <= text.len(),
        truncated(text, max_width) == text.subrange(0, truncated(text, max_width).len() as int),
        text.len() <= max_width ==> truncated(text, max_width) == text,
        encode_utf8(truncated(text, max_width)) == encode_utf8(text).subrange(
            0,
            encode_utf8(truncated(text, max_width)).len() as int,
        ),
        is_char_boundary(encode_utf8(text), encode_utf8(truncated(text, max_width)).len() as int),
{
    let kept = truncated(text, max_width);
    let rest = text.subrange(kept.len() as int, text.len() as int);
    assert(kept + rest =~= text);
    assert(text.subrange(0, kept.len() as int) =~= kept);
    lemma_bytes_of_concatenation(kept, rest);
    assert((encode_utf8(kept) + encode_utf8(rest)).subrange(0, encode_utf8(kept).len() as int)
        =~= encode_utf8(kept));
}

/// Shortens `text` to at most `max_width` characters. A text that already
/// fits comes back unchanged; a longer one loses everything after its first
/// `max_width` characters, and nothing is put in their place. The cut falls
/// between two characters, never inside one.
pub fn truncate(text: &str, max_width: usize) -> (out: String)
    ensures
        out@ == truncated(text@, max_width as nat),
        out@.len() <= text@.len(),
        out@ == text@.subrange(0, out@.len() as int),
        text@.len() <= max_width ==> out@ == text@,
        text@.len() > max_width ==> out@.len() == max_width,
        encode_utf8(out@) == encode_utf8(text@).subrange(0, encode_utf8(out@).len() as int),
        is_char_boundary(encode_utf8(text@), encode_utf8(out@).len() as int),
{
    proof {
        law_truncated(text@, max_width as nat);
    }
    let length = text.unicode_len();
    if length <= max_width {
        text.to_owned()
    } else {
        text.substring_char(0, max_width).to_owned()
    }
}

/// `unit` written `count` times in a row.
pub fn repeat(unit: &str, count: usize) -> (out: String)
    ensures
        out@ == repeated(unit@, count as nat),
{
    let mut out = String::new();
    let mut done: usize = 0;
    while done < count
        invariant
            done <= count,
            out@ == repeated(unit@, done as nat),
        decreases count - done,
    {
        out.append(unit);
        done = done + 1;
    }
    out
}

/// Joins `parts` into one string with `separator` between each two
/// neighbours.
pub fn join(parts: &Vec<String>, separator: &str) -> (out: String)
    ensures
        out@ == joined(string_views(parts@), separator@),
{
    let mut out = String::new();
    let mut index: usize = 0;
    while index < parts.len()
        invariant
            index <= parts.len(),
            out@ == joined_prefix(string_views(parts@), separator@, index as nat),
        decreases parts.len() - index,
    {
        if index > 0 {
            out.append(separator);
        }
        out.append(parts[index].as_str());
        index = index + 1;
    }
    out
}

/// Cuts `text` at every separator.
pub fn split_pieces(text: &str, separator: char) -> (out: Vec<String>)
    ensures
        string_views(out@) == split_on(text@, separator),
        out@.len() >= 1,
{
    let length = text.unicode_len();
    let mut pieces: Vec<String> = Vec::new();
    let mut start: usize = 0;
    let mut position: usize = 0;
    assert(text@.subrange(0, 0) =~= Seq::<char>::empty());
    assert(string_views(pieces@) =~= split_on(text@.subrange(0, 0), separator).drop_last());
    for c in it: text.chars()
        invariant
            length == text@.len(),
            it.seq() == text@,
            position == it.index(),
            start <= position <= length,
            split_on(text@.subrange(0, position as int), separator).len() >= 1,
            string_views(pieces@) == split_on(text@.subrange(0, position as int), separator).drop_last(),
            text@.subrange(start as int, position as int) == split_on(
                text@.subrange(0, position as int),
                separator,
            ).last(),
    {
        let ghost before = text@.subrange(0, position as int);
        let ghost after = text@.subrange(0, position + 1);
        assert(after.drop_last() =~= before);
        assert(after.last() == c);
        if c == separator {
            let ghost earlier = string_views(pieces@);
            let piece = text.substring_char(start, position).to_owned();
            pieces.push(piece);
            assert(string_views(pieces@) =~= earlier.push(piece@));
            assert(earlier.push(piece@) =~= split_on(before, separator));
            start = position + 1;
            assert(text@.subrange(start as int, start as int) =~= Seq::<char>::empty());
            assert(string_views(pieces@) =~= split_on(before, separator));
            assert(split_on(after, separator).drop_last() =~= split_on(before, separator));
        } else {
            assert(text@.subrange(start as int, position + 1) =~= text@.subrange(
                start as int,
                position as int,
            ).push(c));
            assert(split_on(after, separator).drop_last() =~= split_on(before, separator).drop_last());
        }
        position = position + 1;
    }
    assert(text@.subrange(0, position as int) =~= text@);
    let ghost earlier = string_views(pieces@);
    let piece = text.substring_char(start, position).to_owned();
    pieces.push(piece);
    assert(string_views(pieces@) =~= earlier.push(piece@));
    assert(earlier.push(piece@) =~= split_on(text@, separator));
    pieces
}

/// Whether `text` holds the character `wanted`.
pub fn contains_char(text: &str, wanted: char) -> (out: bool)
    ensures
        out == has_char(text@, wanted),
{
    let mut position: usize = 0;
    let length = text.unicode_len();
    for c in it: text.chars()
        invariant
            length == text@.len(),
            it.seq() == text@,
            position == it.index(),
            forall|i: int| 0 <= i < position ==> text@[i] != wanted,
    {
        if c == wanted {
            assert(text@[position as int] == wanted);
            return true;
        }
        position = position + 1;
    }
    false
}

/// Whether two texts are the same.
pub fn same_text(a: &str, b: &str) -> (out: bool)
    ensures
        out == (a@ == b@),
{
    a.to_owned() == b.to_owned()
}

/// What stands in `text` behind its last `separator`; all of `text` where
/// it holds none.
pub fn last_piece(text: &str, separator: char) -> (out: String)
    ensures
        out@ == split_on(text@, separator).last(),
{
    let mut pieces = split_pieces(text, separator);
    let ghost views = string_views(pieces@);
    let piece = pieces.pop().unwrap();
    assert(piece@ == views.last());
    piece
}

} // verus!
