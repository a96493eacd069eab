//! Character-level string building for the commentary layer.

use vstd::prelude::*;

verus! {

/// `String::push`: appends one character to the end of the string.
#[verifier::external_body]
pub(crate) fn push_char(text: &mut String, ch: char)
    ensures
        final(text)@ == old(text)@.push(ch),
{
    text.push(ch);
}

/// Whether a character has the Unicode `White_Space` property, the test
/// `char::is_whitespace` makes: the ASCII tab, line feed, vertical tab, form
/// feed, carriage return and space, and NEL, NO-BREAK SPACE, OGHAM SPACE
/// MARK, the spaces from EN QUAD to HAIR SPACE, LINE SEPARATOR, PARAGRAPH
/// SEPARATOR, NARROW NO-BREAK SPACE, MEDIUM MATHEMATICAL SPACE and
/// IDEOGRAPHIC SPACE.
pub open spec fn char_is_whitespace(ch: char) -> bool {
    ||| '\u{9}' <= ch <= '\u{D}'
    ||| ch == ' '
    ||| ch == '\u{85}'
    ||| ch == '\u{A0}'
    ||| ch == '\u{1680}'
    ||| '\u{2000}' <= ch <= '\u{200A}'
    ||| ch == '\u{2028}'
    ||| ch == '\u{2029}'
    ||| ch == '\u{202F}'
    ||| ch == '\u{205F}'
    ||| ch == '\u{3000}'
}

pub(crate) fn is_whitespace(ch: char) -> (white: bool)
    ensures
        white == char_is_whitespace(ch),
{
    ('\u{9}' <= ch && ch <= '\u{D}') || ch == ' ' || ch == '\u{85}' || ch == '\u{A0}' || ch
        == '\u{1680}' || ('\u{2000}' <= ch && ch <= '\u{200A}') || ch == '\u{2028}' || ch
        == '\u{2029}' || ch == '\u{202F}' || ch == '\u{205F}' || ch == '\u{3000}'
}

} // verus!
