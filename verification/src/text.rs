//! Text as sequences of characters: the conversions between `str` and
//! `Vec<char>`, copying and comparing, and the splitting of a text at a
//! separator, with what holds of splitting and joining.

use vstd::prelude::*;

verus! {

/// Appends one character to a string, by `String::push`.
///
/// Trusted: the string afterwards is the string before followed by `c`.
#[verifier::external_body]
fn push_char(s: &mut String, c: char)
    ensures
        final(s)@ == old(s)@.push(c),
{
    s.push(c)
}

/// Whether a character is white space, as `char::is_whitespace` reports it:
/// whether it has the Unicode property `White_Space`.
pub uninterp spec fn white_space(c: char) -> bool;

/// Tells whether `c` is white space, by `char::is_whitespace`.
///
/// Trusted: the answer is the one that [`white_space`] names. Nothing is
/// claimed about which characters those are.
#[verifier::external_body]
pub(crate) fn is_white_space(c: char) -> (white: bool)
    ensures
        white == white_space(c),
{
    c.is_whitespace()
}

/// The lower-case form of a text, as `str::to_lowercase` gives it.
pub uninterp spec fn lowercase(s: Seq<char>) -> Seq<char>;

/// The lower-case form of `s`, by `str::to_lowercase`.
///
/// Trusted: the result is the text that [`lowercase`] names. Nothing is
/// claimed about which text that is.
#[verifier::external_body]
pub(crate) fn to_lowercase(s: &str) -> (lower: String)
    ensures
        lower@ == lowercase(s@),
{
    s.to_lowercase()
}

/// The characters of `s`, in order.
pub fn chars_of(s: &str) -> (out: Vec<char>)
    ensures
        out@ == s@,
{
    let mut out: Vec<char> = Vec::new();
    for c in it: s.chars()
        invariant
            it.seq() == s@,
            out@ == it.seq().subrange(0, it.index()),
    {
        out.push(c);
    }
    out
}

/// The string that holds exactly the characters of `chars`.
pub fn string_of(chars: &Vec<char>) -> (out: String)
    ensures
        out@ == chars@,
{
    let mut out = String::new();
    let mut i: usize = 0;
    while i < chars.len()
        invariant
            i <= chars.len(),
            out@ == chars@.subrange(0, i as int),
        decreases chars.len() - i,
    {
        push_char(&mut out, chars[i]);
        i += 1;
    }
    out
}

/// Whether `s` begins with `prefix`.
pub fn begins_with(s: &Vec<char>, prefix: &Vec<char>) -> (b: bool)
    ensures
        b == prefix@.is_prefix_of(s@),
{
    if prefix.len() > s.len() {
        return false;
    }
    let mut i: usize = 0;
    while i < prefix.len()
        invariant
            i <= prefix.len() <= s.len(),
            forall|j: int| 0 <= j < i ==> s@[j] == prefix@[j],
        decreases prefix.len() - i,
    {
        if s[i] != prefix[i] {
            return false;
        }
        i += 1;
    }
    true
}

/// Appends the characters of `tail` to `out`.
pub fn append(out: &mut Vec<char>, tail: &Vec<char>)
    ensures
        final(out)@ == old(out)@ + tail@,
{
    let mut i: usize = 0;
    while i < tail.len()
        invariant
            i <= tail.len(),
            out@ == old(out)@ + tail@.subrange(0, i as int),
        decreases tail.len() - i,
    {
        out.push(tail[i]);
        i += 1;
    }
}

/// The characters of `s` from position `from` up to, not including, `to`.
pub(crate) fn slice(s: &Vec<char>, from: usize, to: usize) -> (out: Vec<char>)
    requires
        from <= to <= s.len(),
    ensures
        out@ == s@.subrange(from as int, to as int),
{
    let mut out: Vec<char> = Vec::new();
    let mut i: usize = from;
    while i < to
        invariant
            from <= i <= to <= s.len(),
            out@ == s@.subrange(from as int, i as int),
        decreases to - i,
    {
        out.push(s[i]);
        i += 1;
    }
    out
}

/// Whether two texts hold the same characters.
pub fn same_text(a: &Vec<char>, b: &Vec<char>) -> (same: bool)
    ensures
        same == (a@ == b@),
{
    if a.len() != b.len() {
        return false;
    }
    let same = begins_with(a, b);
    assert(a@.subrange(0, a@.len() as int) == a@);
    same
}

/// The pieces of a text between the occurrences of a separator, empty ones
/// included. A text without the separator is its own single piece.
pub open spec fn pieces(text: Seq<char>, sep: char) -> Seq<Seq<char>>
    decreases text.len(),
{
    if text.len() == 0 {
        seq![Seq::<char>::empty()]
    } else {
        let before = pieces(text.drop_last(), sep);
        if text.last() == sep {
            before.push(Seq::<char>::empty())
        } else {
            before.update(before.len() - 1, before.last().push(text.last()))
        }
    }
}

/// Pieces put back together, one separator between neighbours.
pub open spec fn joined(parts: Seq<Seq<char>>, sep: char) -> Seq<char>
    decreases parts.len(),
{
    if parts.len() == 0 {
        Seq::<char>::empty()
    } else if parts.len() == 1 {
        parts[0]
    } else {
        joined(parts.drop_last(), sep).push(sep) + parts.last()
    }
}

/// A text has at least one piece, and more than one exactly when it holds
/// the separator.
pub proof fn lemma_pieces_count(text: Seq<char>, sep: char)
    ensures
        pieces(text, sep).len() >= 1,
        pieces(text, sep).len() >= 2 <==> text.contains(sep),
    decreases text.len(),
{
    if text.len() > 0 {
        let shorter = text.drop_last();
        lemma_pieces_count(shorter, sep);
        if text.last() != sep && text.contains(sep) {
            let i = choose|i: int| 0 <= i < text.len() && text[i] == sep;
            assert(shorter[i] == sep);
        }
    }
}

/// Splitting a text and joining the pieces gives the text back, and no piece
/// holds the separator.
pub proof fn lemma_pieces_rejoin(text: Seq<char>, sep: char)
    ensures
        joined(pieces(text, sep), sep) == text,
        forall|i: int, j: int|
            0 <= i < pieces(text, sep).len() && 0 <= j < pieces(text, sep)[i].len() ==> pieces(
                text,
                sep,
            )[i][j] != sep,
    decreases text.len(),
{
    lemma_pieces_count(text, sep);
    if text.len() > 0 {
        let shorter = text.drop_last();
        let before = pieces(shorter, sep);
        lemma_pieces_rejoin(shorter, sep);
        lemma_pieces_count(shorter, sep);
        if text.last() == sep {
            assert(before.push(Seq::<char>::empty()).drop_last() == before);
        } else {
            let grown = before.last().push(text.last());
            if before.len() > 1 {
                assert(before.update(before.len() - 1, grown).drop_last() == before.drop_last());
            }
            assert(shorter.push(text.last()) == text);
        }
    }
}

/// A text without the separator is its own single piece.
pub proof fn lemma_pieces_of_none(text: Seq<char>, sep: char)
    requires
        !text.contains(sep),
    ensures
        pieces(text, sep) == seq![text],
    decreases text.len(),
{
    if text.len() == 0 {
        assert(text =~= Seq::<char>::empty());
    } else {
        let shorter = text.drop_last();
        lemma_pieces_of_none(shorter, sep);
        assert(shorter.push(text.last()) == text);
    }
}

/// Two texts with a separator between them fall into the pieces of the
/// first followed by the pieces of the second.
pub proof fn lemma_pieces_of_two(first: Seq<char>, second: Seq<char>, sep: char)
    ensures
        pieces(first.push(sep) + second, sep) == pieces(first, sep) + pieces(second, sep),
    decreases second.len(),
{
    let text = first.push(sep) + second;
    lemma_pieces_count(first, sep);
    if second.len() == 0 {
        assert(text.drop_last() == first);
    } else {
        let shorter = second.drop_last();
        assert(text.drop_last() == first.push(sep) + shorter);
        lemma_pieces_of_two(first, shorter, sep);
        lemma_pieces_count(shorter, sep);
    }
}

/// Splitting undoes joining: pieces that hold no separator, joined and
/// split again, are the same pieces.
pub proof fn lemma_pieces_of_joined(parts: Seq<Seq<char>>, sep: char)
    requires
        parts.len() >= 1,
        forall|i: int| 0 <= i < parts.len() ==> !(#[trigger] parts[i]).contains(sep),
    ensures
        pieces(joined(parts, sep), sep) == parts,
    decreases parts.len(),
{
    if parts.len() == 1 {
        lemma_pieces_of_none(parts[0], sep);
    } else {
        let before = parts.drop_last();
        lemma_pieces_of_joined(before, sep);
        lemma_pieces_of_two(joined(before, sep), parts.last(), sep);
        lemma_pieces_of_none(parts.last(), sep);
    }
}

/// What pieces are joined to begins with the first of them, and where there
/// are more, a separator follows it.
pub proof fn lemma_joined_begins_with_first(parts: Seq<Seq<char>>, sep: char)
    requires
        parts.len() >= 1,
    ensures
        parts[0].is_prefix_of(joined(parts, sep)),
        parts.len() >= 2 ==> joined(parts, sep).len() > parts[0].len() && joined(
            parts,
            sep,
        )[parts[0].len() as int] == sep,
    decreases parts.len(),
{
    if parts.len() > 1 {
        lemma_joined_begins_with_first(parts.drop_last(), sep);
    }
}

/// Two lists of pieces joined in one go are the two joined apart, with a
/// separator between them.
pub proof fn lemma_joined_of_two(first: Seq<Seq<char>>, second: Seq<Seq<char>>, sep: char)
    requires
        first.len() >= 1,
        second.len() >= 1,
    ensures
        joined(first + second, sep) == joined(first, sep).push(sep) + joined(second, sep),
    decreases second.len(),
{
    assert((first + second).drop_last() == first + second.drop_last());
    if second.len() > 1 {
        lemma_joined_of_two(first, second.drop_last(), sep);
    }
}

/// A character that is no separator, put before a text, goes into the
/// first piece and leaves the others as they are.
pub proof fn lemma_pieces_behind_a_char(c: char, text: Seq<char>, sep: char)
    requires
        c != sep,
    ensures
        pieces(text, sep).len() >= 1,
        pieces(seq![c] + text, sep) == pieces(text, sep).update(
            0,
            seq![c] + pieces(text, sep)[0],
        ),
    decreases text.len(),
{
    lemma_pieces_count(text, sep);
    let whole = seq![c] + text;
    if text.len() == 0 {
        assert(whole.drop_last() == Seq::<char>::empty());
        assert(pieces(Seq::<char>::empty(), sep) == seq![Seq::<char>::empty()]);
    } else {
        let shorter = text.drop_last();
        assert(whole.drop_last() == seq![c] + shorter);
        lemma_pieces_behind_a_char(c, shorter, sep);
        lemma_pieces_count(shorter, sep);
    }
}

/// The first piece of a text is what the text begins with.
pub proof fn lemma_first_piece_is_a_prefix(text: Seq<char>, sep: char)
    ensures
        pieces(text, sep).len() >= 1,
        pieces(text, sep)[0].is_prefix_of(text),
{
    lemma_pieces_count(text, sep);
    lemma_pieces_rejoin(text, sep);
    lemma_joined_begins_with_first(pieces(text, sep), sep);
}

/// The views of a list of texts.
pub open spec fn views(parts: Seq<Vec<char>>) -> Seq<Seq<char>> {
    parts.map_values(|part: Vec<char>| part@)
}

/// Splits a text at every occurrence of `sep`.
pub fn split(text: &Vec<char>, sep: char) -> (parts: Vec<Vec<char>>)
    ensures
        views(parts@) == pieces(text@, sep),
        parts.len() >= 1,
{
    let mut done: Vec<Vec<char>> = Vec::new();
    let mut current: Vec<char> = Vec::new();
    let mut i: usize = 0;
    while i < text.len()
        invariant
            i <= text.len(),
            views(done@).push(current@) == pieces(text@.take(i as int), sep),
        decreases text.len() - i,
    {
        let c = text[i];
        assert(text@.take(i + 1).drop_last() == text@.take(i as int));
        if c == sep {
            done.push(current);
            current = Vec::new();
        } else {
            current.push(c);
        }
        i += 1;
    }
    assert(text@.take(text.len() as int) == text@);
    done.push(current);
    done
}

/// Joins pieces into one text, `sep` between neighbours.
pub fn join(parts: &Vec<Vec<char>>, sep: char) -> (text: Vec<char>)
    ensures
        text@ == joined(views(parts@), sep),
{
    let mut text: Vec<char> = Vec::new();
    let mut i: usize = 0;
    while i < parts.len()
        invariant
            i <= parts.len(),
            text@ == joined(views(parts@).take(i as int), sep),
        decreases parts.len() - i,
    {
        assert(views(parts@).take(i + 1).drop_last() == views(parts@).take(i as int));
        if i > 0 {
            text.push(sep);
        }
        append(&mut text, &parts[i]);
        i += 1;
    }
    assert(views(parts@).take(parts.len() as int) == views(parts@));
    text
}

} // verus!
