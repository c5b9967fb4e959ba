//! Lines as they come off a connection.
use vstd::prelude::*;

verus! {

/// Whether `c` is white space as Unicode defines it: the space, the controls
/// from tab to carriage return, the next-line control, and the spaces and
/// separators beyond ASCII.
pub open spec fn is_white_space(c: char) -> bool {
    c == ' ' || ('\u{9}' <= c <= '\u{d}') || c == '\u{85}' || c == '\u{a0}' || c == '\u{1680}' || (
    '\u{2000}' <= c <= '\u{200a}') || c == '\u{2028}' || c == '\u{2029}' || c == '\u{202f}' || c
        == '\u{205f}' || c == '\u{3000}'
}

/// `text` without the white space at its start.
pub open spec fn without_leading_space(text: Seq<char>) -> Seq<char>
    decreases text.len(),
{
    if text.len() > 0 && is_white_space(text.first()) {
        without_leading_space(text.drop_first())
    } else {
        text
    }
}

/// `text` without the white space at its end.
pub open spec fn without_trailing_space(text: Seq<char>) -> Seq<char>
    decreases text.len(),
{
    if text.len() > 0 && is_white_space(text.last()) {
        without_trailing_space(text.drop_last())
    } else {
        text
    }
}

/// `text` without the white space at either end.
pub open spec fn trimmed(text: Seq<char>) -> Seq<char> {
    without_trailing_space(without_leading_space(text))
}

/// What is left of a text without the white space at its start is its end,
/// and begins with what is no white space.
proof fn lemma_without_leading_space(text: Seq<char>)
    ensures
        without_leading_space(text).len() <= text.len(),
        without_leading_space(text) == text.subrange(
            text.len() - without_leading_space(text).len(),
            text.len() as int,
        ),
        without_leading_space(text).len() > 0 ==> !is_white_space(
            without_leading_space(text).first(),
        ),
    decreases text.len(),
{
    if text.len() > 0 && is_white_space(text.first()) {
        let shorter = text.drop_first();
        lemma_without_leading_space(shorter);
        let kept = without_leading_space(shorter).len();
        assert(shorter.subrange(shorter.len() - kept, shorter.len() as int) =~= text.subrange(
            text.len() - kept,
            text.len() as int,
        ));
    } else {
        assert(text.subrange(0, text.len() as int) =~= text);
    }
}

/// What is left of a text without the white space at its end is its
/// beginning, and ends with what is no white space.
proof fn lemma_without_trailing_space(text: Seq<char>)
    ensures
        without_trailing_space(text).len() <= text.len(),
        without_trailing_space(text) == text.subrange(
            0,
            without_trailing_space(text).len() as int,
        ),
        without_trailing_space(text).len() > 0 ==> !is_white_space(
            without_trailing_space(text).last(),
        ),
    decreases text.len(),
{
    if text.len() > 0 && is_white_space(text.last()) {
        let shorter = text.drop_last();
        lemma_without_trailing_space(shorter);
        let kept = without_trailing_space(shorter).len() as int;
        assert(shorter.subrange(0, kept) =~= text.subrange(0, kept));
    } else {
        assert(text.subrange(0, text.len() as int) =~= text);
    }
}

/// A trimmed text is a part of the text it was made from, and has no white
/// space at its start and none at its end.
pub proof fn lemma_trimmed(text: Seq<char>)
    ensures
        exists|from: int, to: int|
            0 <= from <= to <= text.len() && trimmed(text) == #[trigger] text.subrange(from, to),
        trimmed(text).len() > 0 ==> !is_white_space(trimmed(text).first()) && !is_white_space(
            trimmed(text).last(),
        ),
{
    let inner = without_leading_space(text);
    lemma_without_leading_space(text);
    lemma_without_trailing_space(inner);
    let from = text.len() - inner.len();
    let to = from + trimmed(text).len();
    assert(inner.subrange(0, trimmed(text).len() as int) =~= text.subrange(from, to));
    if trimmed(text).len() > 0 {
        assert(trimmed(text).first() == inner.first());
    }
}

/// `str::trim`: the part of the line that is left when the white space at
/// both of its ends is taken away.
#[verifier::external_body]
fn trim(line: &str) -> (text: &str)
    ensures
        text@ == trimmed(line@),
{
    line.trim()
}

/// The text of a line that was read: the line without its terminator and
/// without any other white space around it.
pub fn line_text(line: &str) -> (text: String)
    ensures
        text@ == trimmed(line@),
        text@.len() > 0 ==> !is_white_space(text@.first()) && !is_white_space(text@.last()),
{
    proof {
        lemma_trimmed(line@);
    }
    trim(line).to_owned()
}

} // verus!
