//! Building the short texts that the screens show.

use vstd::prelude::*;

verus! {

/// The text of an optional string.
pub open spec fn optional_text(value: Option<String>) -> Option<Seq<char>> {
    match value {
        Some(text) => Some(text@),
        None => None,
    }
}

/// The parts in order, with `separator` between each two neighbours.
pub open spec fn joined(parts: Seq<Seq<char>>, separator: Seq<char>) -> Seq<char>
    decreases parts.len(),
{
    if parts.len() == 0 {
        Seq::empty()
    } else if parts.len() == 1 {
        parts[0]
    } else {
        joined(parts.drop_last(), separator) + separator + parts.last()
    }
}

/// `String::push` of std: appends one character to the end of the string.
#[verifier::external_body]
pub(crate) fn push_char(text: &mut String, c: char)
    ensures
        final(text)@ == old(text)@.push(c),
{
    text.push(c);
}

/// `String::pop` of std: removes the last character and returns it; an
/// empty string stays empty and gives none.
#[verifier::external_body]
pub(crate) fn pop_char(text: &mut String) -> (last: Option<char>)
    ensures
        old(text)@.len() == 0 ==> last is None && final(text)@ == old(text)@,
        old(text)@.len() > 0 ==> last == Some(old(text)@.last()) && final(text)@ == old(
            text,
        )@.drop_last(),
{
    text.pop()
}

/// The characters of `text`, in order.
pub fn chars_of(text: &str) -> (chars: Vec<char>)
    ensures
        chars@ == text@,
{
    let mut chars: Vec<char> = Vec::new();
    for c in iter: text.chars()
        invariant
            iter.seq() == text@,
            chars@ == text@.take(iter.index() as int),
    {
        chars.push(c);
        assert(chars@ =~= text@.take(iter.index() + 1));
    }
    assert(text@.take(text@.len() as int) =~= text@);
    chars
}

/// The string that holds `chars`, in order.
pub fn string_of(chars: &Vec<char>) -> (text: String)
    ensures
        text@ == chars@,
{
    let mut text = String::new();
    let mut next: usize = 0;
    while next < chars.len()
        invariant
            next <= chars.len(),
            text@ == chars@.take(next as int),
        decreases chars.len() - next,
    {
        push_char(&mut text, chars[next]);
        assert(text@ =~= chars@.take(next + 1));
        next = next + 1;
    }
    assert(chars@.take(next as int) =~= chars@);
    text
}

/// `label` followed by `value`.
pub fn labelled(label: &str, value: &str) -> (text: String)
    ensures
        text@ == label@ + value@,
{
    let mut text = String::from_str(label);
    text.append(value);
    text
}

/// Joins `parts` with `separator` between each two neighbours.
pub fn join(parts: &Vec<String>, separator: &str) -> (text: String)
    ensures
        text@ == joined(parts.deep_view(), separator@),
{
    let mut text = String::new();
    let mut next: usize = 0;
    while next < parts.len()
        invariant
            next <= parts.len(),
            text@ == joined(parts.deep_view().take(next as int), separator@),
        decreases parts.len() - next,
    {
        let ghost done = parts.deep_view().take(next as int);
        let ghost more = parts.deep_view().take(next + 1);
        assert(more.drop_last() =~= done);
        assert(more.last() == parts[next as int]@);
        if next > 0 {
            text.append(separator);
        }
        text.append(parts[next].as_str());
        assert(text@ =~= joined(more, separator@)) by {
            if next == 0 {
                assert(done =~= Seq::empty());
                assert(more[0] == parts[0]@);
            }
        }
        next = next + 1;
    }
    assert(parts.deep_view().take(next as int) =~= parts.deep_view());
    text
}

} // verus!
