//! Scanning text character by character: trimming, searching, splitting.

use vstd::prelude::*;

verus! {

/// Whether a character has the Unicode property White_Space.
pub uninterp spec fn white_space(c: char) -> bool;

/// `char::is_whitespace` of std: whether the character has the Unicode
/// property White_Space.
#[verifier::external_body]
pub(crate) fn is_whitespace(c: char) -> (blank: bool)
    ensures
        blank == white_space(c),
{
    c.is_whitespace()
}

/// What is trimmed off the ends of a text.
#[derive(Clone, Copy, Debug, PartialEq, Eq, Structural)]
pub enum Trim {
    /// Double quotes.
    Quotes,
    /// White space.
    Space,
}

/// Whether `c` is trimmed off.
pub open spec fn trims(trim: Trim, c: char) -> bool {
    match trim {
        Trim::Quotes => c == '"',
        Trim::Space => white_space(c),
    }
}

/// The number of characters at the start of `text` that are trimmed off.
pub open spec fn leading(text: Seq<char>, trim: Trim) -> nat
    decreases text.len(),
{
    if text.len() == 0 || !trims(trim, text[0]) {
        0
    } else {
        1 + leading(text.drop_first(), trim)
    }
}

/// The number of characters at the end of `text` that are trimmed off.
pub open spec fn trailing(text: Seq<char>, trim: Trim) -> nat
    decreases text.len(),
{
    if text.len() == 0 || !trims(trim, text.last()) {
        0
    } else {
        1 + trailing(text.drop_last(), trim)
    }
}

/// `text` without the characters trimmed off its two ends.
pub open spec fn trimmed(text: Seq<char>, trim: Trim) -> Seq<char> {
    if leading(text, trim) == text.len() {
        Seq::empty()
    } else {
        text.subrange(leading(text, trim) as int, text.len() - trailing(text, trim))
    }
}

/// Whether `pattern` stands in `text` at `index`.
pub open spec fn matches_at(text: Seq<char>, pattern: Seq<char>, index: int) -> bool {
    0 <= index && index + pattern.len() <= text.len() && text.subrange(
        index,
        index + pattern.len(),
    ) == pattern
}

/// The first index at or behind `from` at which `pattern` stands in `text`.
pub open spec fn first_match(text: Seq<char>, pattern: Seq<char>, from: int) -> Option<int>
    decreases text.len() + 1 - from,
{
    if from < 0 || from + pattern.len() > text.len() {
        None
    } else if matches_at(text, pattern, from) {
        Some(from)
    } else {
        first_match(text, pattern, from + 1)
    }
}

/// The second of the pieces into which `pattern` splits `text`: what
/// stands between its first occurrence and the next one, or the end. None
/// where `pattern` does not occur.
pub open spec fn second_piece(text: Seq<char>, pattern: Seq<char>) -> Option<Seq<char>> {
    match first_match(text, pattern, 0) {
        Some(first) => {
            let start = first + pattern.len();
            match first_match(text, pattern, start) {
                Some(next) => Some(text.subrange(start, next)),
                None => Some(text.subrange(start, text.len() as int)),
            }
        },
        None => None,
    }
}

/// Whether `text` ends in `suffix`.
pub open spec fn ends_with(text: Seq<char>, suffix: Seq<char>) -> bool {
    suffix.len() <= text.len() && text.subrange(text.len() - suffix.len(), text.len() as int)
        == suffix
}

/// Whether `c` is trimmed off.
pub fn is_trimmed(trim: Trim, c: char) -> (off: bool)
    ensures
        off == trims(trim, c),
{
    match trim {
        Trim::Quotes => c == '"',
        Trim::Space => is_whitespace(c),
    }
}

proof fn lemma_leading(text: Seq<char>, trim: Trim, count: int)
    requires
        0 <= count <= text.len(),
        forall|j: int| 0 <= j < count ==> trims(trim, text[j]),
        count == text.len() || !trims(trim, text[count]),
    ensures
        leading(text, trim) == count,
    decreases text.len(),
{
    if count > 0 {
        let rest = text.drop_first();
        assert forall|j: int| 0 <= j < count - 1 implies trims(trim, rest[j]) by {
            assert(rest[j] == text[j + 1]);
        }
        if count < text.len() {
            assert(rest[count - 1] == text[count]);
        }
        lemma_leading(rest, trim, count - 1);
    }
}

proof fn lemma_trailing(text: Seq<char>, trim: Trim, end: int)
    requires
        0 <= end <= text.len(),
        forall|j: int| end <= j < text.len() ==> trims(trim, text[j]),
        end == 0 || !trims(trim, text[end - 1]),
    ensures
        trailing(text, trim) == text.len() - end,
    decreases text.len(),
{
    if end < text.len() {
        lemma_trailing(text.drop_last(), trim, end);
    }
}

/// A first match stands at or behind the index from which it was sought.
pub proof fn lemma_first_match(text: Seq<char>, pattern: Seq<char>, from: int)
    ensures
        first_match(text, pattern, from) matches Some(index) ==> from <= index && matches_at(
            text,
            pattern,
            index,
        ),
    decreases text.len() + 1 - from,
{
    if !(from < 0 || from + pattern.len() > text.len()) && !matches_at(text, pattern, from) {
        lemma_first_match(text, pattern, from + 1);
    }
}

/// The index `index`, or the length of `text` where it lies behind the end.
pub open spec fn within(text: Seq<char>, index: int) -> int {
    if index < text.len() {
        index
    } else {
        text.len() as int
    }
}

/// The characters of `text` from `from` up to `to`. An index behind the end
/// counts as the end; a range that ends before it starts is empty.
pub fn slice_chars(text: &Vec<char>, from: usize, to: usize) -> (piece: Vec<char>)
    ensures
        from <= to ==> piece@ == text@.subrange(
            within(text@, from as int),
            within(text@, to as int),
        ),
        from > to ==> piece@ == Seq::<char>::empty(),
{
    let end: usize = if to < text.len() {
        to
    } else {
        text.len()
    };
    let mut piece: Vec<char> = Vec::new();
    if from >= end {
        assert(from <= to ==> text@.subrange(within(text@, from as int), within(text@, to as int))
            =~= Seq::<char>::empty());
        return piece;
    }
    let mut next: usize = from;
    while next < end
        invariant
            from <= next <= end <= text.len(),
            piece@ == text@.subrange(from as int, next as int),
        decreases end - next,
    {
        piece.push(text[next]);
        assert(piece@ =~= text@.subrange(from as int, next + 1));
        next = next + 1;
    }
    piece
}

/// `text` without the characters trimmed off its two ends.
pub fn trim_chars(text: &Vec<char>, trim: Trim) -> (kept: Vec<char>)
    ensures
        kept@ == trimmed(text@, trim),
{
    let mut start: usize = 0;
    while start < text.len() && is_trimmed(trim, text[start])
        invariant
            start <= text.len(),
            forall|j: int| 0 <= j < start ==> trims(trim, text[j]),
        decreases text.len() - start,
    {
        start = start + 1;
    }
    proof {
        lemma_leading(text@, trim, start as int);
    }
    if start == text.len() {
        return Vec::new();
    }
    let mut end: usize = text.len();
    while end > start && is_trimmed(trim, text[end - 1])
        invariant
            start <= end <= text.len(),
            forall|j: int| end <= j < text.len() ==> trims(trim, text[j]),
        decreases end,
    {
        end = end - 1;
    }
    proof {
        lemma_trailing(text@, trim, end as int);
    }
    slice_chars(text, start, end)
}

/// Whether `pattern` stands in `text` at `index`.
pub fn stands_at(text: &Vec<char>, pattern: &Vec<char>, index: usize) -> (found: bool)
    ensures
        found == matches_at(text@, pattern@, index as int),
{
    if pattern.len() > text.len() || index > text.len() - pattern.len() {
        return false;
    }
    let mut next: usize = 0;
    while next < pattern.len()
        invariant
            next <= pattern.len(),
            index + pattern.len() <= text.len(),
            forall|j: int| 0 <= j < next ==> text[index + j] == pattern[j],
        decreases pattern.len() - next,
    {
        if text[index + next] != pattern[next] {
            proof {
                let piece = text@.subrange(index as int, index + pattern.len());
                assert(piece[next as int] == text[index + next]);
            }
            return false;
        }
        next = next + 1;
    }
    assert(text@.subrange(index as int, index + pattern.len()) =~= pattern@);
    true
}

/// The first index at or behind `from` at which `pattern` stands in `text`.
pub fn find_from(text: &Vec<char>, pattern: &Vec<char>, from: usize) -> (found: Option<usize>)
    ensures
        match found {
            Some(index) => first_match(text@, pattern@, from as int) == Some(index as int),
            None => first_match(text@, pattern@, from as int) is None,
        },
{
    if pattern.len() > text.len() {
        return None;
    }
    let last: usize = text.len() - pattern.len();
    let mut index: usize = from;
    while index <= last
        invariant
            last == text.len() - pattern.len(),
            from <= index,
            first_match(text@, pattern@, from as int) == first_match(
                text@,
                pattern@,
                index as int,
            ),
        decreases last + 1 - index,
    {
        if stands_at(text, pattern, index) {
            return Some(index);
        }
        if index == last {
            assert(first_match(text@, pattern@, index + 1) is None);
            return None;
        }
        index = index + 1;
    }
    None
}

/// The second of the pieces into which `pattern` splits `text`.
pub fn split_second(text: &Vec<char>, pattern: &Vec<char>) -> (piece: Option<Vec<char>>)
    ensures
        match piece {
            Some(chars) => second_piece(text@, pattern@) == Some(chars@),
            None => second_piece(text@, pattern@) is None,
        },
{
    match find_from(text, pattern, 0) {
        Some(first) => {
            let total: usize = text.len();
            proof {
                lemma_first_match(text@, pattern@, 0);
                lemma_first_match(text@, pattern@, first + pattern.len());
                assert(first + pattern.len() <= total);
            }
            let start: usize = first + pattern.len();
            match find_from(text, pattern, start) {
                Some(next) => Some(slice_chars(text, start, next)),
                None => Some(slice_chars(text, start, text.len())),
            }
        },
        None => None,
    }
}

/// Whether `text` ends in `suffix`.
pub fn has_suffix(text: &Vec<char>, suffix: &Vec<char>) -> (ends: bool)
    ensures
        ends == ends_with(text@, suffix@),
{
    if suffix.len() > text.len() {
        return false;
    }
    stands_at(text, suffix, text.len() - suffix.len())
}

} // verus!
