//! Maximal-run scanners over a character buffer, and the specification
//! function `run_end` that pins each of them down.

use vstd::prelude::*;
use crate::parser::chars;

verus! {

/// The end of the maximal run of characters satisfying `p` that starts at
/// `i`: the first index at or after `i` whose character fails `p`, or the
/// end of the buffer.
pub open spec fn run_end(s: Seq<char>, i: int, p: spec_fn(char) -> bool) -> int
    decreases s.len() - i,
{
    if 0 <= i < s.len() && p(s[i]) {
        run_end(s, i + 1, p)
    } else {
        i
    }
}

/// `run_end` lands between `i` and the end of the buffer, every character of
/// the run satisfies `p`, and the character at the end (if any) does not.
pub proof fn lemma_run_end(s: Seq<char>, i: int, p: spec_fn(char) -> bool)
    requires
        0 <= i <= s.len(),
    ensures
        i <= run_end(s, i, p) <= s.len(),
        forall|k: int| i <= k < run_end(s, i, p) ==> p(s[k]),
        run_end(s, i, p) < s.len() ==> !p(s[run_end(s, i, p)]),
    decreases s.len() - i,
{
    if i < s.len() && p(s[i]) {
        lemma_run_end(s, i + 1, p);
    }
}

pub open spec fn hspace_p() -> spec_fn(char) -> bool {
    |c: char| chars::spec_is_hspace(c)
}

pub open spec fn digit_p() -> spec_fn(char) -> bool {
    |c: char| chars::spec_is_digit(c)
}

pub open spec fn nonws_p() -> spec_fn(char) -> bool {
    |c: char| !chars::spec_is_ascii_ws(c)
}

pub open spec fn unit_p() -> spec_fn(char) -> bool {
    |c: char| chars::spec_is_unit_char(c)
}

/// Characters a description may hold: anything up to a comment marker or a
/// line terminator.
pub open spec fn desc_p() -> spec_fn(char) -> bool {
    |c: char| c != ';' && c != '\n'
}

/// Characters a comment may hold: anything up to a line terminator.
pub open spec fn line_p() -> spec_fn(char) -> bool {
    |c: char| c != '\n'
}

/// Characters the body of a code may hold: anything up to the closing
/// parenthesis or a line terminator.
pub open spec fn code_p() -> spec_fn(char) -> bool {
    |c: char| c != ')' && c != '\n'
}

/// Scans the maximal run of horizontal whitespace starting at `from`.
#[verifier::loop_isolation(false)]
pub fn scan_hspace(s: &str, from: usize) -> (r: usize)
    requires
        from as int <= s@.len(),
    ensures
        from <= r <= s@.len(),
        r as int == run_end(s@, from as int, hspace_p()),
        forall|k: int| from <= k < r ==> chars::spec_is_hspace(s@[k]),
        (r as int) < s@.len() ==> !chars::spec_is_hspace(s@[r as int]),
{
    let len = s.unicode_len();
    let mut j = from;
    while j < len && is_hspace_at(s, j)
        invariant
            from <= j <= len,
            run_end(s@, from as int, hspace_p()) == run_end(s@, j as int, hspace_p()),
        decreases len - j,
    {
        j = j + 1;
    }
    proof {
        lemma_run_end(s@, from as int, hspace_p());
    }
    j
}

fn is_hspace_at(s: &str, j: usize) -> (r: bool)
    requires
        (j as int) < s@.len(),
    ensures
        r == chars::spec_is_hspace(s@[j as int]),
{
    chars::is_hspace(s.get_char(j))
}

fn is_digit_at(s: &str, j: usize) -> (r: bool)
    requires
        (j as int) < s@.len(),
    ensures
        r == chars::spec_is_digit(s@[j as int]),
{
    chars::is_digit(s.get_char(j))
}

fn is_desc_at(s: &str, j: usize) -> (r: bool)
    requires
        (j as int) < s@.len(),
    ensures
        r == (s@[j as int] != ';' && s@[j as int] != '\n'),
{
    let c = s.get_char(j);
    c != ';' && c != '\n'
}

fn is_code_body_at(s: &str, j: usize) -> (r: bool)
    requires
        (j as int) < s@.len(),
    ensures
        r == (s@[j as int] != ')' && s@[j as int] != '\n'),
{
    let c = s.get_char(j);
    c != ')' && c != '\n'
}

/// Scans the maximal run of ASCII digits starting at `from`.
#[verifier::loop_isolation(false)]
pub fn scan_digits(s: &str, from: usize) -> (r: usize)
    requires
        from as int <= s@.len(),
    ensures
        from <= r <= s@.len(),
        r as int == run_end(s@, from as int, digit_p()),
        forall|k: int| from <= k < r ==> chars::spec_is_digit(s@[k]),
        (r as int) < s@.len() ==> !chars::spec_is_digit(s@[r as int]),
{
    let len = s.unicode_len();
    let mut j = from;
    while j < len && is_digit_at(s, j)
        invariant
            from <= j <= len,
            run_end(s@, from as int, digit_p()) == run_end(s@, j as int, digit_p()),
        decreases len - j,
    {
        j = j + 1;
    }
    proof {
        lemma_run_end(s@, from as int, digit_p());
    }
    j
}

/// Scans the maximal run of non-whitespace characters (an account token)
/// starting at `from`.
#[verifier::loop_isolation(false)]
pub fn scan_nonws(s: &str, from: usize) -> (r: usize)
    requires
        from as int <= s@.len(),
    ensures
        from <= r <= s@.len(),
        r as int == run_end(s@, from as int, nonws_p()),
        forall|k: int| from <= k < r ==> !chars::spec_is_ascii_ws(s@[k]),
        (r as int) < s@.len() ==> chars::spec_is_ascii_ws(s@[r as int]),
{
    let len = s.unicode_len();
    let mut j = from;
    while j < len && !chars::is_ascii_ws(s.get_char(j))
        invariant
            from <= j <= len,
            run_end(s@, from as int, nonws_p()) == run_end(s@, j as int, nonws_p()),
        decreases len - j,
    {
        j = j + 1;
    }
    proof {
        lemma_run_end(s@, from as int, nonws_p());
    }
    j
}

/// Scans the maximal run of commodity-unit characters starting at `from`.
#[verifier::loop_isolation(false)]
pub fn scan_unit(s: &str, from: usize) -> (r: usize)
    requires
        from as int <= s@.len(),
    ensures
        from <= r <= s@.len(),
        r as int == run_end(s@, from as int, unit_p()),
        forall|k: int| from <= k < r ==> chars::spec_is_unit_char(s@[k]),
        (r as int) < s@.len() ==> !chars::spec_is_unit_char(s@[r as int]),
{
    let len = s.unicode_len();
    let mut j = from;
    while j < len && chars::is_unit_char(s.get_char(j))
        invariant
            from <= j <= len,
            run_end(s@, from as int, unit_p()) == run_end(s@, j as int, unit_p()),
        decreases len - j,
    {
        j = j + 1;
    }
    proof {
        lemma_run_end(s@, from as int, unit_p());
    }
    j
}

/// Scans description text: everything up to a comment marker or a line
/// terminator.
#[verifier::loop_isolation(false)]
pub fn scan_desc(s: &str, from: usize) -> (r: usize)
    requires
        from as int <= s@.len(),
    ensures
        from <= r <= s@.len(),
        r as int == run_end(s@, from as int, desc_p()),
        forall|k: int| from <= k < r ==> s@[k] != ';' && s@[k] != '\n',
        (r as int) < s@.len() ==> (s@[r as int] == ';' || s@[r as int] == '\n'),
{
    let len = s.unicode_len();
    let mut j = from;
    while j < len && is_desc_at(s, j)
        invariant
            from <= j <= len,
            run_end(s@, from as int, desc_p()) == run_end(s@, j as int, desc_p()),
        decreases len - j,
    {
        j = j + 1;
    }
    proof {
        lemma_run_end(s@, from as int, desc_p());
    }
    j
}

/// Scans comment text: everything up to a line terminator.
#[verifier::loop_isolation(false)]
pub fn scan_line(s: &str, from: usize) -> (r: usize)
    requires
        from as int <= s@.len(),
    ensures
        from <= r <= s@.len(),
        r as int == run_end(s@, from as int, line_p()),
        forall|k: int| from <= k < r ==> s@[k] != '\n',
        (r as int) < s@.len() ==> s@[r as int] == '\n',
{
    let len = s.unicode_len();
    let mut j = from;
    while j < len && s.get_char(j) != '\n'
        invariant
            from <= j <= len,
            run_end(s@, from as int, line_p()) == run_end(s@, j as int, line_p()),
        decreases len - j,
    {
        j = j + 1;
    }
    proof {
        lemma_run_end(s@, from as int, line_p());
    }
    j
}

/// Scans the body of a code: everything up to a closing parenthesis or a
/// line terminator.
#[verifier::loop_isolation(false)]
pub fn scan_code(s: &str, from: usize) -> (r: usize)
    requires
        from as int <= s@.len(),
    ensures
        from <= r <= s@.len(),
        r as int == run_end(s@, from as int, code_p()),
        forall|k: int| from <= k < r ==> s@[k] != ')' && s@[k] != '\n',
        (r as int) < s@.len() ==> (s@[r as int] == ')' || s@[r as int] == '\n'),
{
    let len = s.unicode_len();
    let mut j = from;
    while j < len && is_code_body_at(s, j)
        invariant
            from <= j <= len,
            run_end(s@, from as int, code_p()) == run_end(s@, j as int, code_p()),
        decreases len - j,
    {
        j = j + 1;
    }
    proof {
        lemma_run_end(s@, from as int, code_p());
    }
    j
}

/// Copies the characters between two positions into an owned string.
pub fn extract(s: &str, from: usize, to: usize) -> (r: String)
    requires
        from <= to,
        to as int <= s@.len(),
    ensures
        r@ == s@.subrange(from as int, to as int),
{
    String::from_str(s.substring_char(from, to))
}

} // verus!
