//! Character classes of the ledger grammar.

use vstd::prelude::*;

verus! {

/// Horizontal whitespace: a space or a tab.
pub open spec fn spec_is_hspace(c: char) -> bool {
    c == ' ' || c == '\t'
}

pub fn is_hspace(c: char) -> (r: bool)
    ensures
        r == spec_is_hspace(c),
{
    c == ' ' || c == '\t'
}

/// An ASCII decimal digit.
pub open spec fn spec_is_digit(c: char) -> bool {
    '0' <= c && c <= '9'
}

pub fn is_digit(c: char) -> (r: bool)
    ensures
        r == spec_is_digit(c),
{
    '0' <= c && c <= '9'
}

/// ASCII whitespace: space, tab, newline, carriage return or form feed.
/// An account path runs up to the first such character.
pub open spec fn spec_is_ascii_ws(c: char) -> bool {
    c == ' ' || c == '\t' || c == '\n' || c == '\r' || c == '\u{0c}'
}

pub fn is_ascii_ws(c: char) -> (r: bool)
    ensures
        r == spec_is_ascii_ws(c),
{
    c == ' ' || c == '\t' || c == '\n' || c == '\r' || c == '\u{0c}'
}

/// Whitespace in the Unicode sense (the `White_Space` property).
pub open spec fn spec_is_unicode_ws(c: char) -> bool {
    ('\u{09}' <= c && c <= '\u{0d}') || c == ' ' || c == '\u{85}' || c == '\u{a0}' || c
        == '\u{1680}' || ('\u{2000}' <= c && c <= '\u{200a}') || c == '\u{2028}' || c == '\u{2029}'
        || c == '\u{202f}' || c == '\u{205f}' || c == '\u{3000}'
}

pub fn is_unicode_ws(c: char) -> (r: bool)
    ensures
        r == spec_is_unicode_ws(c),
{
    ('\u{09}' <= c && c <= '\u{0d}') || c == ' ' || c == '\u{85}' || c == '\u{a0}' || c
        == '\u{1680}' || ('\u{2000}' <= c && c <= '\u{200a}') || c == '\u{2028}' || c == '\u{2029}'
        || c == '\u{202f}' || c == '\u{205f}' || c == '\u{3000}'
}

/// Punctuation that may not appear in a commodity unit.
pub open spec fn spec_is_unit_punct(c: char) -> bool {
    c == '.' || c == ',' || c == ';' || c == ':' || c == '?' || c == '!' || c == '-' || c == '+'
        || c == '*' || c == '/' || c == '^' || c == '&' || c == '|' || c == '=' || c == '<' || c
        == '>' || c == '[' || c == ']' || c == '(' || c == ')' || c == '{' || c == '}' || c == '@'
}

pub fn is_unit_punct(c: char) -> (r: bool)
    ensures
        r == spec_is_unit_punct(c),
{
    c == '.' || c == ',' || c == ';' || c == ':' || c == '?' || c == '!' || c == '-' || c == '+'
        || c == '*' || c == '/' || c == '^' || c == '&' || c == '|' || c == '=' || c == '<' || c
        == '>' || c == '[' || c == ']' || c == '(' || c == ')' || c == '{' || c == '}' || c == '@'
}

/// A character that may appear in a commodity unit: anything that is not
/// whitespace, not a digit and not in the excluded punctuation set.
pub open spec fn spec_is_unit_char(c: char) -> bool {
    !spec_is_unicode_ws(c) && !spec_is_digit(c) && !spec_is_unit_punct(c)
}

pub fn is_unit_char(c: char) -> (r: bool)
    ensures
        r == spec_is_unit_char(c),
{
    !is_unicode_ws(c) && !is_digit(c) && !is_unit_punct(c)
}

/// Every character of `s` is an ASCII digit.
pub open spec fn all_digits(s: Seq<char>) -> bool {
    forall|k: int| 0 <= k < s.len() ==> spec_is_digit(s[k])
}

} // verus!
