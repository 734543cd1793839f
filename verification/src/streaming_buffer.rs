use vstd::prelude::*;

verus! {

/// A paragraph boundary of `text` ends at `end`: the two characters before
/// `end` are line breaks.
pub open spec fn boundary_at(text: Seq<char>, end: int) -> bool {
    2 <= end <= text.len() && text[end - 2] == '\n' && text[end - 1] == '\n'
}

/// `text` holds a paragraph boundary: a line break that follows a line
/// break.
pub open spec fn has_boundary(text: Seq<char>) -> bool {
    exists|end: int| boundary_at(text, end)
}

/// The end of the last paragraph boundary of `text` that ends at `limit` or
/// before it; 0 where there is none.
pub open spec fn last_boundary_upto(text: Seq<char>, limit: nat) -> nat
    decreases limit,
{
    if limit == 0 {
        0
    } else if boundary_at(text, limit as int) {
        limit
    } else {
        last_boundary_upto(text, (limit - 1) as nat)
    }
}

/// The end of the last paragraph boundary of `text`; 0 where it has none.
pub open spec fn split_point(text: Seq<char>) -> nat {
    last_boundary_upto(text, text.len())
}

/// What a push of `chunk` into a buffer that holds `buffer` hands out, and
/// what the buffer holds after it.
pub open spec fn pushed(buffer: Seq<char>, chunk: Seq<char>) -> (Option<Seq<char>>, Seq<char>) {
    let all = buffer + chunk;
    let split = split_point(all);
    if split == 0 {
        (None, all)
    } else {
        (Some(all.subrange(0, split as int)), all.subrange(split as int, all.len() as int))
    }
}

/// What a flush of a buffer that holds `buffer` hands out, and what the
/// buffer holds after it.
pub open spec fn flushed(buffer: Seq<char>) -> (Seq<char>, Seq<char>) {
    (buffer, Seq::empty())
}

/// The first `count` of `chunks`, one after the other.
pub open spec fn concatenated(chunks: Seq<Seq<char>>, count: nat) -> Seq<char>
    decreases count,
{
    if count == 0 {
        Seq::empty()
    } else {
        concatenated(chunks, (count - 1) as nat) + chunks[count - 1]
    }
}

/// The state of a buffer that was empty and then took the first `count` of
/// `chunks`, one push each: all that the pushes have handed out, in order,
/// and what the buffer holds.
pub open spec fn after_pushes(chunks: Seq<Seq<char>>, count: nat) -> (Seq<char>, Seq<char>)
    decreases count,
{
    if count == 0 {
        (Seq::empty(), Seq::empty())
    } else {
        let earlier = after_pushes(chunks, (count - 1) as nat);
        let step = pushed(earlier.1, chunks[count - 1]);
        match step.0 {
            Some(out) => (earlier.0 + out, step.1),
            None => (earlier.0, step.1),
        }
    }
}

/// `last_boundary_upto` finds the last boundary that ends at `limit` or
/// before it, and finds none only where there is none.
pub proof fn lemma_last_boundary_upto(text: Seq<char>, limit: nat)
    requires
        limit <= text.len(),
    ensures
        last_boundary_upto(text, limit) <= limit,
        last_boundary_upto(text, limit) != 0 ==> boundary_at(
            text,
            last_boundary_upto(text, limit) as int,
        ),
        forall|end: int|
            last_boundary_upto(text, limit) < end <= limit ==> !boundary_at(text, end),
    decreases limit,
{
    if limit != 0 && !boundary_at(text, limit as int) {
        lemma_last_boundary_upto(text, (limit - 1) as nat);
    }
}

/// The split point of a text is the end of its last paragraph boundary, and
/// it is 0 exactly where the text has no boundary.
pub proof fn lemma_split_point(text: Seq<char>)
    ensures
        split_point(text) <= text.len(),
        split_point(text) != 0 <==> has_boundary(text),
        split_point(text) != 0 ==> boundary_at(text, split_point(text) as int),
        forall|end: int| split_point(text) < end ==> !boundary_at(text, end),
{
    lemma_last_boundary_upto(text, text.len());
    if has_boundary(text) {
        let end = choose|end: int| boundary_at(text, end);
        assert(boundary_at(text, end));
    }
}

/// A push hands out text exactly where the buffer then holds a paragraph
/// boundary. What it hands out ends with the last boundary, and what it
/// hands out and what it keeps are together what the buffer held and the
/// chunk. What it keeps holds no boundary.
pub proof fn lemma_pushed(buffer: Seq<char>, chunk: Seq<char>)
    ensures
        pushed(buffer, chunk).0 is Some <==> has_boundary(buffer + chunk),
        pushed(buffer, chunk).0 matches Some(out) ==> {
            &&& out == (buffer + chunk).subrange(0, split_point(buffer + chunk) as int)
            &&& boundary_at(buffer + chunk, out.len() as int)
            &&& out + pushed(buffer, chunk).1 == buffer + chunk
        },
        pushed(buffer, chunk).0 is None ==> pushed(buffer, chunk).1 == buffer + chunk,
        !has_boundary(pushed(buffer, chunk).1),
{
    let all = buffer + chunk;
    let split = split_point(all);
    lemma_split_point(all);
    if split != 0 {
        let rest = all.subrange(split as int, all.len() as int);
        assert(all.subrange(0, split as int) + rest =~= all);
        assert forall|end: int| !boundary_at(rest, end) by {
            if boundary_at(rest, end) {
                assert(boundary_at(all, split + end));
            }
        }
    }
}

/// Two pushes into an empty buffer: where the first chunk `a` holds no
/// paragraph boundary, the push of `a` hands out nothing, and the push of
/// `b` that follows hands out text exactly where `a` and `b` together hold
/// a boundary: their text up to the end of the last boundary, and no more.
pub proof fn law_second_push_flushes_to_last_boundary(a: Seq<char>, b: Seq<char>)
    requires
        !has_boundary(a),
    ensures
        pushed(Seq::empty(), a).0 is None,
        pushed(pushed(Seq::empty(), a).1, b).0 is Some <==> has_boundary(a + b),
        has_boundary(a + b) ==> {
            &&& pushed(pushed(Seq::empty(), a).1, b).0 == Some(
                (a + b).subrange(0, split_point(a + b) as int),
            )
            &&& boundary_at(a + b, split_point(a + b) as int)
            &&& forall|end: int| split_point(a + b) < end ==> !boundary_at(a + b, end)
        },
{
    assert(Seq::<char>::empty() + a =~= a);
    lemma_pushed(Seq::empty(), a);
    lemma_pushed(a, b);
    lemma_split_point(a + b);
}

/// After any sequence of pushes into an empty buffer, the buffer holds what
/// was pushed and not handed out: what the pushes handed out and what the
/// buffer holds are, in this order, all that was pushed. The buffer holds
/// no paragraph boundary. A flush then hands out exactly what the buffer
/// holds and leaves it empty.
pub proof fn law_buffer_holds_what_was_not_handed_out(chunks: Seq<Seq<char>>, count: nat)
    requires
        count <= chunks.len(),
    ensures
        after_pushes(chunks, count).0 + after_pushes(chunks, count).1 == concatenated(
            chunks,
            count,
        ),
        !has_boundary(after_pushes(chunks, count).1),
        flushed(after_pushes(chunks, count).1).0 == after_pushes(chunks, count).1,
        flushed(after_pushes(chunks, count).1).1 == Seq::<char>::empty(),
    decreases count,
{
    if count == 0 {
        assert(Seq::<char>::empty() + Seq::<char>::empty() =~= Seq::<char>::empty());
        assert forall|end: int| !boundary_at(Seq::<char>::empty(), end) by {}
    } else {
        law_buffer_holds_what_was_not_handed_out(chunks, (count - 1) as nat);
        let earlier = after_pushes(chunks, (count - 1) as nat);
        let chunk = chunks[count - 1];
        lemma_pushed(earlier.1, chunk);
        let step = pushed(earlier.1, chunk);
        match step.0 {
            Some(out) => {
                assert((earlier.0 + out) + step.1 =~= earlier.0 + (out + step.1));
                assert(earlier.0 + (earlier.1 + chunk) =~= (earlier.0 + earlier.1) + chunk);
            },
            None => {
                assert(earlier.0 + (earlier.1 + chunk) =~= (earlier.0 + earlier.1) + chunk);
            },
        }
    }
}

/// A flush of an empty buffer hands out an empty text, so the second of
/// two flushes in a row does, whatever the buffer held before the first.
pub proof fn law_flush_twice(buffer: Seq<char>)
    ensures
        flushed(Seq::empty()).0 == Seq::<char>::empty(),
        flushed(flushed(buffer).1).0 == Seq::<char>::empty(),
        flushed(flushed(buffer).1).1 == Seq::<char>::empty(),
{
}

/// Finds the end of the last paragraph boundary of `text` in one pass.
fn split_position(text: &str) -> (out: (usize, usize))
    ensures
        out.0 == split_point(text@),
        out.1 == text@.len(),
{
    let length = text.unicode_len();
    let mut position: usize = 0;
    let mut after_break = false;
    let mut found: usize = 0;
    for c in it: text.chars()
        invariant
            length == text@.len(),
            it.seq() == text@,
            position == it.index(),
            after_break == (position > 0 && text@[position - 1] == '\n'),
            found == last_boundary_upto(text@, position as nat),
    {
        position = position + 1;
        if c == '\n' {
            if after_break {
                found = position;
            }
            after_break = true;
        } else {
            after_break = false;
        }
    }
    (found, length)
}

/// A buffer for text that arrives in pieces. It holds back what was pushed
/// until a paragraph boundary has come in: an empty line, that is two line
/// breaks in a row.
pub struct MarkdownBuffer {
    buffer: String,
}

impl View for MarkdownBuffer {
    type V = Seq<char>;

    /// The text that the buffer holds back.
    closed spec fn view(&self) -> Seq<char> {
        self.buffer@
    }
}

impl Default for MarkdownBuffer {
    /// An empty buffer.
    fn default() -> (out: MarkdownBuffer)
        ensures
            out@ == Seq::<char>::empty(),
    {
        MarkdownBuffer { buffer: String::new() }
    }
}

impl MarkdownBuffer {
    /// An empty buffer.
    pub fn new() -> (out: Self)
        ensures
            out@ == Seq::<char>::empty(),
    {
        MarkdownBuffer { buffer: String::new() }
    }

    /// Adds `chunk` to the buffer. Where the buffer then holds a paragraph
    /// boundary, everything up to the end of the last one is handed out and
    /// leaves the buffer; otherwise nothing is handed out and the buffer
    /// keeps all of it.
    pub fn push(&mut self, chunk: &str) -> (out: Option<String>)
        ensures
            out.deep_view() == pushed(old(self)@, chunk@).0,
            final(self)@ == pushed(old(self)@, chunk@).1,
            out is Some <==> has_boundary(old(self)@ + chunk@),
            out matches Some(flushed) ==> {
                &&& boundary_at(old(self)@ + chunk@, flushed@.len() as int)
                &&& flushed@ + final(self)@ == old(self)@ + chunk@
            },
            out is None ==> final(self)@ == old(self)@ + chunk@,
            !has_boundary(final(self)@),
    {
        self.buffer.append(chunk);
        let ghost all = self.buffer@;
        let (split, length) = split_position(self.buffer.as_str());
        proof {
            lemma_split_point(all);
            lemma_pushed(old(self)@, chunk@);
        }
        if split == 0 {
            None
        } else {
            let flushed = self.buffer.as_str().substring_char(0, split).to_owned();
            let rest = self.buffer.as_str().substring_char(split, length).to_owned();
            self.buffer = rest;
            Some(flushed)
        }
    }

    /// Hands out whatever the buffer still holds and leaves it empty.
    pub fn flush(&mut self) -> (out: String)
        ensures
            out@ == flushed(old(self)@).0,
            final(self)@ == flushed(old(self)@).1,
            out@ == old(self)@,
            final(self)@ == Seq::<char>::empty(),
    {
        let mut out = String::new();
        std::mem::swap(&mut self.buffer, &mut out);
        out
    }
}

} // verus!
