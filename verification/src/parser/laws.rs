//! Grammar-wide laws, stated over the specification-level recognizers and
//! proved once for all inputs.

use vstd::prelude::*;
use crate::parser::chars;
use crate::parser::date;
use crate::parser::date::RawDateV;
use crate::parser::decimal;
use crate::parser::decimal::DecimalV;
use crate::parser::error::ParseError;
use crate::parser::posting;
use crate::parser::scan;
use crate::parser::scan::run_end;

verus! {

/// `t` with one leading plus sign removed, if there is one.
pub open spec fn strip_plus(t: Seq<char>) -> Seq<char> {
    if t.len() > 0 && t[0] == '+' {
        t.drop_first()
    } else {
        t
    }
}

/// Date format round-trip: whenever a date triple is recognized, the year,
/// month and day texts joined by the separator that was used give back
/// exactly the consumed input. Nothing of the original text is lost or
/// reordered.
pub proof fn lemma_date_round_trip(s: Seq<char>, i: int, j: int, rd: RawDateV)
    requires
        0 <= i <= s.len(),
        date::spec_date_raw(s, i) == Some((j, rd)),
    ensures
        ({
            let sep = s[i + rd.year.len()];
            &&& sep == '/' || sep == '-'
            &&& s.subrange(i, j) == rd.year + seq![sep] + rd.month + seq![sep] + rd.day
        }),
{
    let sep = if date::spec_date_sep(s, i, '/') is Some {
        '/'
    } else {
        '-'
    };
    let j1 = run_end(s, i, scan::digit_p());
    let j2 = run_end(s, j1 + 1, scan::digit_p());
    let j3 = run_end(s, j2 + 1, scan::digit_p());
    scan::lemma_run_end(s, i, scan::digit_p());
    scan::lemma_run_end(s, j1 + 1, scan::digit_p());
    scan::lemma_run_end(s, j2 + 1, scan::digit_p());
    assert(rd.year.len() == j1 - i);
    assert(s.subrange(i, j3) =~= rd.year + seq![sep] + rd.month + seq![sep] + rd.day);
}

/// Decimal round-trip: whenever a decimal token is recognized, the parsed
/// value keeps the source text exactly. The sign is the written sign, and
/// re-assembling the kept digits gives back the consumed text with only
/// the grouping commas and an explicit plus sign removed: no precision is
/// lost.
pub proof fn lemma_decimal_round_trip(s: Seq<char>, i: int, j: int, d: DecimalV)
    requires
        0 <= i <= s.len(),
        decimal::spec_decimal(s, i) == Some((j, d)),
    ensures
        i < s.len(),
        d.neg == (s[i] == '-'),
        decimal::strip_commas(strip_plus(s.subrange(i, j))) == d.chars(),
        d.wf(),
{
    let i0 = if s[i] == '+' || s[i] == '-' {
        i + 1
    } else {
        i
    };
    let j1 = run_end(s, i0, scan::digit_p());
    scan::lemma_run_end(s, i0, scan::digit_p());
    let j2 = decimal::groups_end(s, j1);
    decimal::lemma_groups_end(s, j1);
    let has_frac = j2 + 1 < s.len() && s[j2] == '.' && chars::spec_is_digit(s[j2 + 1]);
    let j3 = if has_frac {
        run_end(s, j2 + 1, scan::digit_p())
    } else {
        j2
    };
    if has_frac {
        scan::lemma_run_end(s, j2 + 1, scan::digit_p());
    }
    let body = s.subrange(i0, j3);
    assert(strip_plus(s.subrange(i, j)) =~= (if s[i] == '-' {
        seq!['-'] + body
    } else {
        body
    }));
    let int_text = s.subrange(i0, j2);
    let frac_text = if has_frac {
        seq!['.'] + s.subrange(j2 + 1, j3)
    } else {
        Seq::<char>::empty()
    };
    assert(body =~= int_text + frac_text);
    decimal::lemma_strip_commas_concat(int_text, frac_text);
    decimal::lemma_strip_commas_id(frac_text);
    decimal::lemma_strip_commas_digits(int_text);
    if s[i] == '-' {
        decimal::lemma_strip_commas_concat(seq!['-'], body);
        decimal::lemma_strip_commas_id(seq!['-']);
        assert(decimal::strip_commas(strip_plus(s.subrange(i, j))) =~= d.chars());
    } else {
        assert(decimal::strip_commas(strip_plus(s.subrange(i, j))) =~= d.chars());
    }
}

/// An un-indented line is never a posting: without two leading spaces or a
/// leading tab the posting recognizer rejects the line, on every input.
pub proof fn lemma_unindented_posting_rejected(s: Seq<char>, i: int)
    requires
        !posting::spec_has_indent(s, i),
    ensures
        posting::spec_posting(s, i) == Err::<(int, posting::PostingV), ParseError>(
            ParseError::MissingIndent,
        ),
{
}

} // verus!
