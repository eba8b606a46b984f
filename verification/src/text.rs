//! Texts by their characters: cutting, filling up and joining, and the
//! lines that are made of them. A character is a Unicode scalar value,
//! never a byte.

use vstd::prelude::*;
use vstd::string::*;
use crate::model::text_view;

verus! {

/// `String::push` of the standard library, taken on trust: the text after
/// the call is the text before it with `c` at its end.
pub assume_specification[ String::push ](s: &mut String, c: char)
    ensures
        final(s)@ == old(s)@.push(c),
;

/// `n` blanks.
pub open spec fn blanks(n: nat) -> Seq<char> {
    Seq::new(n, |i: int| ' ')
}

/// The first `limit` characters of `text`, or all of it where it has
/// fewer. Characters are Unicode scalar values, never bytes.
pub open spec fn spec_truncate(text: Seq<char>, limit: nat) -> Seq<char> {
    if text.len() <= limit {
        text
    } else {
        text.subrange(0, limit as int)
    }
}

/// `text` filled up with blanks on the right to `width` characters; a
/// longer text is left as it is.
pub open spec fn spec_pad(text: Seq<char>, width: nat) -> Seq<char> {
    if text.len() >= width {
        text
    } else {
        text + blanks((width - text.len()) as nat)
    }
}

/// The text of an optional value; nothing where it is absent.
pub open spec fn text_or_empty(text: Option<Seq<char>>) -> Seq<char> {
    match text {
        Some(t) => t,
        None => Seq::empty(),
    }
}

/// The characters of each line.
pub open spec fn line_views(lines: Seq<String>) -> Seq<Seq<char>> {
    Seq::new(lines.len(), |i: int| lines[i]@)
}

/// Cuts `text` to at most `limit` characters.
pub fn truncate_chars(text: &str, limit: usize) -> (r: String)
    ensures
        r@ == spec_truncate(text@, limit as nat),
        r@.len() == if text@.len() <= limit { text@.len() } else { limit as nat },
        r@.is_prefix_of(text@),
{
    let n = text.unicode_len();
    if n <= limit {
        String::from_str(text)
    } else {
        String::from_str(text.substring_char(0, limit))
    }
}

/// Fills `text` up with blanks on the right to `width` characters.
pub fn pad_right(text: &str, width: usize) -> (r: String)
    ensures
        r@ == spec_pad(text@, width as nat),
        r@.len() == if text@.len() >= width { text@.len() } else { width as nat },
{
    let n = text.unicode_len();
    let mut out = String::from_str(text);
    let mut count: usize = n;
    while count < width
        invariant
            n == text@.len(),
            n <= count,
            count <= width || count == n,
            out@ == text@ + blanks((count - n) as nat),
        decreases width - count,
    {
        out.push(' ');
        count = count + 1;
        assert(out@ == text@ + blanks((count - n) as nat));
    }
    assert(text@ + blanks(0) == text@);
    out
}

/// The text of an optional value; the empty text where it is absent.
pub fn text_of(text: &Option<String>) -> (r: &str)
    ensures
        r@ == text_or_empty(text_view(*text)),
{
    match text {
        Some(t) => t.as_str(),
        None => {
            proof {
                reveal_strlit("");
            }
            assert(""@ == Seq::<char>::empty());
            ""
        },
    }
}

/// A label and a value on one line.
pub fn labelled(label: &str, value: &str) -> (r: String)
    ensures
        r@ == label@ + value@,
{
    String::from_str(label).concat(value)
}

/// One line.
pub fn one_line(line: String) -> (lines: Vec<String>)
    ensures
        line_views(lines@) == seq![line@],
{
    let mut lines: Vec<String> = Vec::new();
    lines.push(line);
    assert(line_views(lines@) =~= seq![line@]);
    lines
}

/// No line.
pub fn no_lines() -> (lines: Vec<String>)
    ensures
        line_views(lines@) == Seq::<Seq<char>>::empty(),
{
    let lines: Vec<String> = Vec::new();
    assert(line_views(lines@) =~= Seq::<Seq<char>>::empty());
    lines
}

/// Appends one line.
pub fn push_line(lines: &mut Vec<String>, line: String)
    ensures
        line_views(final(lines)@) == line_views(old(lines)@).push(line@),
{
    let ghost before = line_views(lines@);
    lines.push(line);
    assert(line_views(lines@) =~= before.push(line@));
}

/// Appending in two steps is appending the two parts at once.
pub proof fn lemma_append_twice(a: Seq<Seq<char>>, b: Seq<Seq<char>>, c: Seq<Seq<char>>)
    ensures
        (a + b) + c == a + (b + c),
{
    assert((a + b) + c =~= a + (b + c));
}

} // verus!
