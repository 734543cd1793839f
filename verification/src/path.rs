use crate::text::{
    joined_prefix, lemma_joined_begins_with_first, lemma_pieces_hold_no_separator, split_on,
    split_pieces, string_views,
};
use vstd::prelude::*;

verus! {

/// The path begins at the root.
pub open spec fn is_rooted(path: Seq<char>) -> bool {
    path.len() > 0 && path[0] == '/'
}

/// The piece names the directory it stands in.
pub open spec fn is_dot(piece: Seq<char>) -> bool {
    piece.len() == 1 && piece[0] == '.'
}

/// The piece at `index` is a component of the path: it is not empty, and it
/// is not a `.`, unless that stands at the very beginning of a path that
/// does not begin at the root.
pub open spec fn is_kept(pieces: Seq<Seq<char>>, index: int, rooted: bool) -> bool {
    pieces[index].len() > 0 && (!is_dot(pieces[index]) || (index == 0 && !rooted))
}

/// The indices of the components among the first `count` pieces, in order.
pub open spec fn kept_indices(pieces: Seq<Seq<char>>, count: nat, rooted: bool) -> Seq<int>
    decreases count,
{
    if count == 0 {
        Seq::empty()
    } else {
        let before = kept_indices(pieces, (count - 1) as nat, rooted);
        if is_kept(pieces, count - 1, rooted) {
            before.push(count - 1)
        } else {
            before
        }
    }
}

/// The pieces of `pieces` at the places `indices`, in order.
pub open spec fn picked(pieces: Seq<Seq<char>>, indices: Seq<int>) -> Seq<Seq<char>> {
    Seq::new(indices.len(), |i: int| pieces[indices[i]])
}

/// The names of `path` from left to right: what stands between two
/// separators. Empty pieces and `.` are no names, but for a `.` at the very
/// beginning of a path that does not begin at the root.
pub open spec fn component_names(path: Seq<char>) -> Seq<Seq<char>> {
    let pieces = split_on(path, '/');
    picked(pieces, kept_indices(pieces, pieces.len(), is_rooted(path)))
}

/// The number of components of `path`: its names, and the root marker
/// where it begins at the root.
pub open spec fn component_count(path: Seq<char>) -> nat {
    if is_rooted(path) {
        component_names(path).len() + 1
    } else {
        component_names(path).len()
    }
}

/// The pieces from `from` up to `to`, with a separator between each two
/// neighbours.
pub open spec fn joined_range(pieces: Seq<Seq<char>>, from: int, to: int) -> Seq<char> {
    joined_prefix(pieces.subrange(from, to), "/"@, (to - from) as nat)
}

/// The directory `home` holds `path`: the components of `home` are the
/// first components of `path`.
pub open spec fn home_matches(path: Seq<char>, home: Seq<char>) -> bool {
    ||| component_count(home) == 0
    ||| (is_rooted(home) == is_rooted(path) && component_names(home).is_prefix_of(
        component_names(path),
    ))
}

/// What is left of `path` behind the directory `home`, where `home` holds
/// `path`: the text of `path` from its first component behind those of
/// `home` to its last component.
pub open spec fn home_rest(path: Seq<char>, home: Seq<char>) -> Option<Seq<char>> {
    let pieces = split_on(path, '/');
    let kept = kept_indices(pieces, pieces.len(), is_rooted(path));
    let skipped = component_names(home).len() as int;
    if !home_matches(path, home) {
        None
    } else if component_count(home) == component_count(path) {
        Some(Seq::empty())
    } else if component_count(home) == 0 && is_rooted(path) {
        if kept.len() == 0 {
            Some("/"@)
        } else {
            Some(joined_range(pieces, 0, kept.last() + 1))
        }
    } else {
        Some(joined_range(pieces, kept[skipped], kept.last() + 1))
    }
}

/// `path` with the home directory written as `~`, where it lies in it.
pub open spec fn display_path(path: Seq<char>, home: Option<Seq<char>>) -> Seq<char> {
    match home {
        Some(home) => match home_rest(path, home) {
            Some(rest) => "~/"@ + rest,
            None => path,
        },
        None => path,
    }
}

/// A name as it stands in a path that is shown short: one of the last two
/// as it is, of any other its first character.
pub open spec fn short_name(names: Seq<Seq<char>>, index: int) -> Seq<char> {
    if index + 2 >= names.len() {
        names[index]
    } else {
        names[index].subrange(0, 1)
    }
}

/// The names of a path as they stand in the path that is shown short.
pub open spec fn short_names(names: Seq<Seq<char>>) -> Seq<Seq<char>> {
    Seq::new(names.len(), |i: int| short_name(names, i))
}

/// The longest path that is shown as it is, in characters.
pub open spec fn max_plain_length() -> nat {
    40
}

/// `path` as it is where it has no more than 40 characters or no more than
/// three components; otherwise with every name but the last two cut to its
/// first character, the names in their order, a separator between each two
/// neighbours, and the root marker kept where the path has one.
pub open spec fn abbreviated(path: Seq<char>) -> Seq<char> {
    let names = component_names(path);
    let body = joined_prefix(short_names(names), "/"@, names.len());
    if path.len() <= max_plain_length() || component_count(path) <= 3 {
        path
    } else if is_rooted(path) {
        "/"@ + body
    } else {
        body
    }
}

/// What `shorten_path` returns.
pub open spec fn shortened(path: Seq<char>, home: Option<Seq<char>>, debug: bool) -> Seq<char> {
    if debug {
        path
    } else {
        abbreviated(display_path(path, home))
    }
}

/// With `debug` set a path is shown as it is. Without it, a path that has
/// no more than 40 characters once the home directory is written as `~`
/// is shown as that text, unchanged.
pub proof fn law_short_paths_unchanged(path: Seq<char>, home: Option<Seq<char>>)
    ensures
        shortened(path, home, true) == path,
        display_path(path, home).len() <= max_plain_length() ==> shortened(path, home, false)
            == display_path(path, home),
        home is None ==> display_path(path, home) == path,
{
}

/// A path that is shown short begins at the root exactly where the path
/// itself does.
pub proof fn law_root_marker_is_kept(path: Seq<char>)
    ensures
        is_rooted(abbreviated(path)) == is_rooted(path),
{
    let names = component_names(path);
    let body = joined_prefix(short_names(names), "/"@, names.len());
    reveal_strlit("/");
    if path.len() <= max_plain_length() || component_count(path) <= 3 {
    } else if is_rooted(path) {
        assert(("/"@ + body)[0] == '/');
    } else {
        let pieces = split_on(path, '/');
        let kept = kept_indices(pieces, pieces.len(), false);
        lemma_kept_indices(pieces, pieces.len(), false);
        lemma_pieces_hold_no_separator(path, '/');
        lemma_joined_begins_with_first(short_names(names), "/"@, names.len());
        let first = short_names(names)[0];
        assert(names[0] == pieces[kept[0]]);
        assert(first == names[0].subrange(0, 1));
        assert(first[0] == pieces[kept[0]][0]);
        assert(body.subrange(0, first.len() as int)[0] == first[0]);
    }
}

/// The indices that `kept_indices` gives are in rising order, stay below
/// `count`, and are the places of pieces that are not empty.
pub proof fn lemma_kept_indices(pieces: Seq<Seq<char>>, count: nat, rooted: bool)
    ensures
        kept_indices(pieces, count, rooted).len() <= count,
        forall|i: int|
            0 <= i < kept_indices(pieces, count, rooted).len() ==> 0 <= #[trigger] kept_indices(
                pieces,
                count,
                rooted,
            )[i] < count,
        forall|i: int, j: int|
            0 <= i < j < kept_indices(pieces, count, rooted).len() ==> kept_indices(
                pieces,
                count,
                rooted,
            )[i] < kept_indices(pieces, count, rooted)[j],
        forall|i: int|
            0 <= i < kept_indices(pieces, count, rooted).len() ==> pieces[#[trigger] kept_indices(
                pieces,
                count,
                rooted,
            )[i]].len() > 0,
    decreases count,
{
    if count > 0 {
        lemma_kept_indices(pieces, (count - 1) as nat, rooted);
    }
}

/// The indices of `indices` as mathematical integers.
pub open spec fn index_views(indices: Seq<usize>) -> Seq<int> {
    Seq::new(indices.len(), |i: int| indices[i] as int)
}

fn is_rooted_path(path: &str) -> (out: bool)
    ensures
        out == is_rooted(path@),
{
    path.unicode_len() > 0 && path.get_char(0) == '/'
}

fn is_dot_piece(piece: &str) -> (out: bool)
    ensures
        out == is_dot(piece@),
{
    piece.unicode_len() == 1 && piece.get_char(0) == '.'
}

/// Finds the pieces that are components.
fn kept_piece_indices(pieces: &Vec<String>, rooted: bool) -> (out: Vec<usize>)
    ensures
        index_views(out@) == kept_indices(string_views(pieces@), pieces@.len(), rooted),
        forall|i: int| 0 <= i < out@.len() ==> #[trigger] out@[i] < pieces@.len(),
{
    let ghost views = string_views(pieces@);
    let mut kept: Vec<usize> = Vec::new();
    let mut index: usize = 0;
    assert(index_views(kept@) =~= kept_indices(views, 0, rooted));
    while index < pieces.len()
        invariant
            index <= pieces.len(),
            views == string_views(pieces@),
            index_views(kept@) == kept_indices(views, index as nat, rooted),
            forall|i: int| 0 <= i < kept@.len() ==> #[trigger] kept@[i] < pieces@.len(),
        decreases pieces.len() - index,
    {
        let piece = pieces[index].as_str();
        let ghost before = kept@;
        if piece.unicode_len() > 0 && (!is_dot_piece(piece) || (index == 0 && !rooted)) {
            kept.push(index);
            assert(index_views(kept@) =~= index_views(before).push(index as int));
        }
        index = index + 1;
    }
    kept
}

/// Joins the pieces from `from` up to `to` with a separator between each
/// two neighbours.
fn join_range(pieces: &Vec<String>, from: usize, to: usize) -> (out: String)
    requires
        from <= to <= pieces@.len(),
    ensures
        out@ == joined_range(string_views(pieces@), from as int, to as int),
{
    let ghost range = string_views(pieces@).subrange(from as int, to as int);
    let mut out = String::new();
    let mut index: usize = from;
    while index < to
        invariant
            from <= index <= to <= pieces@.len(),
            range == string_views(pieces@).subrange(from as int, to as int),
            out@ == joined_prefix(range, "/"@, (index - from) as nat),
        decreases to - index,
    {
        if index > from {
            out.append("/");
        }
        out.append(pieces[index].as_str());
        index = index + 1;
    }
    out
}

/// Whether the names of the home directory are the first names of the path.
fn names_match(
    home_pieces: &Vec<String>,
    home_kept: &Vec<usize>,
    path_pieces: &Vec<String>,
    path_kept: &Vec<usize>,
) -> (out: bool)
    requires
        forall|i: int| 0 <= i < home_kept@.len() ==> #[trigger] home_kept@[i] < home_pieces@.len(),
        forall|i: int| 0 <= i < path_kept@.len() ==> #[trigger] path_kept@[i] < path_pieces@.len(),
    ensures
        out == picked(string_views(home_pieces@), index_views(home_kept@)).is_prefix_of(
            picked(string_views(path_pieces@), index_views(path_kept@)),
        ),
{
    let ghost theirs = picked(string_views(home_pieces@), index_views(home_kept@));
    let ghost ours = picked(string_views(path_pieces@), index_views(path_kept@));
    if home_kept.len() > path_kept.len() {
        return false;
    }
    let mut index: usize = 0;
    while index < home_kept.len()
        invariant
            index <= home_kept@.len() <= path_kept@.len(),
            theirs == picked(string_views(home_pieces@), index_views(home_kept@)),
            ours == picked(string_views(path_pieces@), index_views(path_kept@)),
            forall|i: int|
                0 <= i < home_kept@.len() ==> #[trigger] home_kept@[i] < home_pieces@.len(),
            forall|i: int|
                0 <= i < path_kept@.len() ==> #[trigger] path_kept@[i] < path_pieces@.len(),
            forall|i: int| 0 <= i < index ==> theirs[i] == ours[i],
        decreases home_kept.len() - index,
    {
        if home_pieces[home_kept[index]] != path_pieces[path_kept[index]] {
            assert(theirs[index as int] != ours.subrange(0, theirs.len() as int)[index as int]);
            return false;
        }
        index = index + 1;
    }
    assert(theirs =~= ours.subrange(0, theirs.len() as int));
    true
}

/// What is left of `path` behind the directory `home`, where `home` holds
/// `path`.
fn strip_home(path: &str, home: &str) -> (out: Option<String>)
    ensures
        out.deep_view() == home_rest(path@, home@),
{
    let path_rooted = is_rooted_path(path);
    let home_rooted = is_rooted_path(home);
    let path_pieces = split_pieces(path, '/');
    let home_pieces = split_pieces(home, '/');
    let path_kept = kept_piece_indices(&path_pieces, path_rooted);
    let home_kept = kept_piece_indices(&home_pieces, home_rooted);
    proof {
        lemma_kept_indices(string_views(path_pieces@), path_pieces@.len(), path_rooted);
        lemma_kept_indices(string_views(home_pieces@), home_pieces@.len(), home_rooted);
        assert(index_views(path_kept@).len() == path_kept@.len());
        assert(index_views(home_kept@).len() == home_kept@.len());
    }
    let home_empty = !home_rooted && home_kept.len() == 0;
    if !home_empty {
        if home_rooted != path_rooted {
            return None;
        }
        if !names_match(&home_pieces, &home_kept, &path_pieces, &path_kept) {
            return None;
        }
    }
    if home_rooted == path_rooted && home_kept.len() == path_kept.len() {
        return Some(String::new());
    }
    if home_empty && path_rooted {
        if path_kept.len() == 0 {
            return Some("/".to_owned());
        }
        let last = path_kept[path_kept.len() - 1];
        assert(last == path_kept@[path_kept@.len() - 1]);
        assert(path_kept@[path_kept@.len() - 1] < path_pieces@.len());
        assert(last as int == index_views(path_kept@).last());
        assert(last < path_pieces.len());
        return Some(join_range(&path_pieces, 0, last + 1));
    }
    assert(home_kept@.len() < path_kept@.len());
    let first = path_kept[home_kept.len()];
    let last = path_kept[path_kept.len() - 1];
    assert(last == path_kept@[path_kept@.len() - 1]);
    assert(path_kept@[path_kept@.len() - 1] < path_pieces@.len());
    assert(first as int == index_views(path_kept@)[home_kept@.len() as int]);
    assert(last as int == index_views(path_kept@).last());
    assert(first <= last);
    assert(last < path_pieces.len());
    Some(join_range(&path_pieces, first, last + 1))
}

/// Cuts every name of `path` but the last two to its first character, where
/// the path has more than 40 characters and more than three components.
fn abbreviate(path: String) -> (out: String)
    ensures
        out@ == abbreviated(path@),
{
    if path.as_str().unicode_len() <= 40 {
        return path;
    }
    let rooted = is_rooted_path(path.as_str());
    let pieces = split_pieces(path.as_str(), '/');
    let kept = kept_piece_indices(&pieces, rooted);
    proof {
        lemma_kept_indices(string_views(pieces@), pieces@.len(), rooted);
        assert(index_views(kept@).len() == kept@.len());
    }
    let count = kept.len();
    if (rooted && count <= 2) || (!rooted && count <= 3) {
        return path;
    }
    let ghost names = component_names(path@);
    let mut out = String::new();
    if rooted {
        out.append("/");
    }
    let ghost lead = out@;
    let mut index: usize = 0;
    assert(out@ =~= lead + joined_prefix(short_names(names), "/"@, 0));
    while index < count
        invariant
            index <= count,
            count == kept@.len(),
            count == names.len(),
            names == picked(string_views(pieces@), index_views(kept@)),
            forall|i: int| 0 <= i < kept@.len() ==> #[trigger] kept@[i] < pieces@.len(),
            forall|i: int| 0 <= i < names.len() ==> (#[trigger] names[i]).len() > 0,
            out@ == lead + joined_prefix(short_names(names), "/"@, index as nat),
        decreases count - index,
    {
        let ghost before = out@;
        if index > 0 {
            out.append("/");
        }
        let name = pieces[kept[index]].as_str();
        assert(name@ == names[index as int]);
        if count - index <= 2 {
            out.append(name);
        } else {
            out.append(name.substring_char(0, 1));
        }
        index = index + 1;
        assert(out@ =~= lead + joined_prefix(short_names(names), "/"@, index as nat));
    }
    assert(lead + joined_prefix(short_names(names), "/"@, names.len()) =~= abbreviated(path@)) by {
        if !rooted {
            assert(lead =~= Seq::<char>::empty());
        }
    }
    out
}

/// Shortens a path for display. With `debug` set the path comes back as it
/// is. Otherwise the home directory `home`, where the path lies in it, is
/// written as `~`; a path that then has more than 40 characters and more
/// than three components has every name but its last two cut to its first
/// character.
pub fn shorten_path(path: &str, home: Option<&str>, debug: bool) -> (out: String)
    ensures
        out@ == shortened(path@, home.deep_view(), debug),
        debug ==> out@ == path@,
        !debug && display_path(path@, home.deep_view()).len() <= max_plain_length() ==> out@
            == display_path(path@, home.deep_view()),
{
    if debug {
        return path.to_owned();
    }
    let display = match home {
        Some(home) => match strip_home(path, home) {
            Some(rest) => {
                let mut display = "~/".to_owned();
                display.append(rest.as_str());
                display
            },
            None => path.to_owned(),
        },
        None => path.to_owned(),
    };
    abbreviate(display)
}

} // verus!
