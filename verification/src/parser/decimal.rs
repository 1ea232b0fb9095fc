//! Exact decimal values and the decimal recognizer.
//!
//! A decimal token is an optional sign, a run of digits, optional
//! comma-separated digit groups, and an optional fractional part. The parsed
//! value keeps the written digits exactly: nothing is rounded and nothing is
//! approximated.

use vstd::prelude::*;
use crate::parser::chars;
use crate::parser::chars::all_digits;
use crate::parser::error::ParseError;
use crate::parser::scan;
use crate::parser::scan::run_end;

verus! {

/// `s` with every comma removed; all other characters stay in order.
pub open spec fn strip_commas(s: Seq<char>) -> Seq<char>
    decreases s.len(),
{
    if s.len() == 0 {
        Seq::empty()
    } else if s.last() == ',' {
        strip_commas(s.drop_last())
    } else {
        strip_commas(s.drop_last()).push(s.last())
    }
}

/// Removing commas from a run of digits and commas that opens with a digit
/// leaves a non-empty run of digits that opens with the same digit.
pub proof fn lemma_strip_commas_digits(s: Seq<char>)
    requires
        forall|k: int| 0 <= k < s.len() ==> chars::spec_is_digit(s[k]) || s[k] == ',',
    ensures
        all_digits(strip_commas(s)),
        strip_commas(s).len() <= s.len(),
        s.len() > 0 && chars::spec_is_digit(s[0]) ==> strip_commas(s).len() > 0 && strip_commas(
            s,
        )[0] == s[0],
    decreases s.len(),
{
    if s.len() > 0 {
        lemma_strip_commas_digits(s.drop_last());
    }
}

/// Removing commas distributes over concatenation.
pub proof fn lemma_strip_commas_concat(a: Seq<char>, b: Seq<char>)
    ensures
        strip_commas(a + b) == strip_commas(a) + strip_commas(b),
    decreases b.len(),
{
    if b.len() == 0 {
        assert(a + b =~= a);
        assert(strip_commas(a) + strip_commas(b) =~= strip_commas(a));
    } else {
        lemma_strip_commas_concat(a, b.drop_last());
        assert((a + b).drop_last() =~= a + b.drop_last());
        assert((a + b).last() == b.last());
        if b.last() == ',' {
            assert(strip_commas(a) + strip_commas(b) =~= strip_commas(a) + strip_commas(
                b.drop_last(),
            ));
        } else {
            assert(strip_commas(a) + strip_commas(b) =~= (strip_commas(a) + strip_commas(
                b.drop_last(),
            )).push(b.last()));
        }
    }
}

/// A sequence without commas is unchanged by comma removal.
pub proof fn lemma_strip_commas_id(s: Seq<char>)
    requires
        forall|k: int| 0 <= k < s.len() ==> s[k] != ',',
    ensures
        strip_commas(s) == s,
    decreases s.len(),
{
    if s.len() > 0 {
        lemma_strip_commas_id(s.drop_last());
        assert(strip_commas(s) =~= s);
    }
}

/// The specification-level image of a [`Decimal`].
pub struct DecimalV {
    pub neg: bool,
    pub int_digits: Seq<char>,
    pub frac_digits: Seq<char>,
}

impl DecimalV {
    /// The integer digits are a non-empty digit run and the fractional
    /// digits are a digit run.
    pub open spec fn wf(self) -> bool {
        &&& self.int_digits.len() > 0
        &&& all_digits(self.int_digits)
        &&& all_digits(self.frac_digits)
    }

    /// The same value with the opposite sign.
    pub open spec fn negated(self) -> DecimalV {
        DecimalV { neg: !self.neg, int_digits: self.int_digits, frac_digits: self.frac_digits }
    }

    /// The canonical text of the value: a minus sign when negative, the
    /// integer digits, and the fractional digits after a point when there
    /// are any.
    pub open spec fn chars(self) -> Seq<char> {
        (if self.neg {
            seq!['-']
        } else {
            Seq::empty()
        }) + self.int_digits + (if self.frac_digits.len() > 0 {
            seq!['.'] + self.frac_digits
        } else {
            Seq::empty()
        })
    }
}

/// An exact decimal number, kept as its written digits: a sign, the digits
/// before the point (grouping commas removed), and the digits after the
/// point. No precision is ever lost to a binary representation.
#[derive(Debug, Clone, PartialEq, Eq)]
pub struct Decimal {
    pub neg: bool,
    pub int_digits: String,
    pub frac_digits: String,
}

impl View for Decimal {
    type V = DecimalV;

    open spec fn view(&self) -> DecimalV {
        DecimalV { neg: self.neg, int_digits: self.int_digits@, frac_digits: self.frac_digits@ }
    }
}

impl Decimal {
    /// The same value with the opposite sign.
    pub fn negate(self) -> (r: Decimal)
        ensures
            r@ == self@.negated(),
    {
        Decimal { neg: !self.neg, int_digits: self.int_digits, frac_digits: self.frac_digits }
    }
}

/// The end of the comma-separated digit groups that start at `j`: as long
/// as a comma stands at the cursor with a digit right after it, the comma
/// and the following digit run are consumed.
pub open spec fn groups_end(s: Seq<char>, j: int) -> int
    decreases s.len() - j,
    when 0 <= j <= s.len()
    via groups_end_decreases
{
    if j < s.len() && s[j] == ',' && j + 1 < s.len() && chars::spec_is_digit(s[j + 1]) {
        groups_end(s, run_end(s, j + 1, scan::digit_p()))
    } else {
        j
    }
}

#[via_fn]
proof fn groups_end_decreases(s: Seq<char>, j: int) {
    if j < s.len() && s[j] == ',' && j + 1 < s.len() && chars::spec_is_digit(s[j + 1]) {
        scan::lemma_run_end(s, j + 1, scan::digit_p());
    }
}

/// `groups_end` lands between `j` and the end of the buffer, and every
/// character it passes over is a digit or a comma.
pub proof fn lemma_groups_end(s: Seq<char>, j: int)
    requires
        0 <= j <= s.len(),
    ensures
        j <= groups_end(s, j) <= s.len(),
        forall|k: int|
            j <= k < groups_end(s, j) ==> chars::spec_is_digit(s[k]) || s[k] == ',',
    decreases s.len() - j,
{
    if j < s.len() && s[j] == ',' && j + 1 < s.len() && chars::spec_is_digit(s[j + 1]) {
        let n = run_end(s, j + 1, scan::digit_p());
        scan::lemma_run_end(s, j + 1, scan::digit_p());
        lemma_groups_end(s, n);
    }
}

/// Recognizes a decimal token at `i`, yielding the end position and the
/// parsed value.
pub open spec fn spec_decimal(s: Seq<char>, i: int) -> Option<(int, DecimalV)> {
    let i0 = if i < s.len() && (s[i] == '+' || s[i] == '-') {
        i + 1
    } else {
        i
    };
    let j1 = run_end(s, i0, scan::digit_p());
    if j1 == i0 {
        None
    } else {
        let j2 = groups_end(s, j1);
        let has_frac = j2 + 1 < s.len() && s[j2] == '.' && chars::spec_is_digit(s[j2 + 1]);
        let j3 = if has_frac {
            run_end(s, j2 + 1, scan::digit_p())
        } else {
            j2
        };
        Some(
            (
                j3,
                DecimalV {
                    neg: i < s.len() && s[i] == '-',
                    int_digits: strip_commas(s.subrange(i0, j2)),
                    frac_digits: if has_frac {
                        s.subrange(j2 + 1, j3)
                    } else {
                        Seq::empty()
                    },
                },
            ),
        )
    }
}

/// Builds the digit string of `s[from..to]` with grouping commas removed.
#[verifier::loop_isolation(false)]
fn collect_digits(s: &str, from: usize, to: usize) -> (r: String)
    requires
        from <= to,
        to as int <= s@.len(),
    ensures
        r@ == strip_commas(s@.subrange(from as int, to as int)),
{
    let mut out = String::new();
    let mut k = from;
    while k < to
        invariant
            from <= k <= to,
            out@ == strip_commas(s@.subrange(from as int, k as int)),
        decreases to - k,
    {
        let c = s.get_char(k);
        proof {
            let pre = s@.subrange(from as int, k as int);
            let cur = s@.subrange(from as int, k + 1 as int);
            assert(cur.drop_last() =~= pre);
            assert(cur.last() == s@[k as int]);
        }
        if c != ',' {
            let piece = scan::extract(s, k, k + 1);
            out.append(piece.as_str());
            proof {
                assert(out@ =~= strip_commas(s@.subrange(from as int, k + 1 as int)));
            }
        }
        k = k + 1;
    }
    proof {
        assert(s@.subrange(from as int, to as int) =~= s@.subrange(from as int, k as int));
    }
    out
}

/// Recognizes a decimal token starting at `pos`.
#[verifier::loop_isolation(false)]
pub fn decimal_at(s: &str, pos: usize) -> (r: Option<(usize, Decimal)>)
    requires
        pos as int <= s@.len(),
    ensures
        ({
            match r {
                Some((j, d)) => {
                    &&& spec_decimal(s@, pos as int) == Some((j as int, d@))
                    &&& pos <= j <= s@.len()
                    &&& d@.wf()
                },
                None => spec_decimal(s@, pos as int) is None,
            }
        }),
{
    let len = s.unicode_len();
    let mut i0 = pos;
    if pos < len {
        let c = s.get_char(pos);
        if c == '+' || c == '-' {
            i0 = pos + 1;
        }
    }
    let j1 = scan::scan_digits(s, i0);
    if j1 == i0 {
        return None;
    }
    let mut j2 = j1;
    while j2 < len && s.get_char(j2) == ',' && j2 + 1 < len && is_digit_after(s, j2)
        invariant
            j1 <= j2 <= len,
            groups_end(s@, j1 as int) == groups_end(s@, j2 as int),
        decreases len - j2,
    {
        j2 = scan::scan_digits(s, j2 + 1);
    }
    proof {
        assert(groups_end(s@, j2 as int) == j2 as int);
    }
    let mut has_frac = false;
    if j2 < len && s.get_char(j2) == '.' && j2 + 1 < len {
        has_frac = chars::is_digit(s.get_char(j2 + 1));
    }
    let j3 = if has_frac {
        scan::scan_digits(s, j2 + 1)
    } else {
        j2
    };
    let neg = s.get_char(pos) == '-';
    let int_digits = collect_digits(s, i0, j2);
    let frac_digits = if has_frac {
        scan::extract(s, j2 + 1, j3)
    } else {
        String::new()
    };
    proof {
        lemma_groups_end(s@, j1 as int);
        lemma_strip_commas_digits(s@.subrange(i0 as int, j2 as int));
    }
    Some((j3, Decimal { neg, int_digits, frac_digits }))
}

fn is_digit_after(s: &str, j: usize) -> (r: bool)
    requires
        j < usize::MAX,
        (j as int) + 1 < s@.len(),
    ensures
        r == chars::spec_is_digit(s@[j as int + 1]),
{
    chars::is_digit(s.get_char(j + 1))
}

/// Recognizes a decimal token at the start of the input and returns the
/// remainder beside the matched text.
pub fn decimal(input: &str) -> (r: Result<(String, String), ParseError>)
    ensures
        ({
            match r {
                Ok((rest, text)) => ({
                    let sd = spec_decimal(input@, 0);
                    &&& sd is Some
                    &&& text@ == input@.subrange(0, sd->Some_0.0)
                    &&& rest@ == input@.subrange(sd->Some_0.0, input@.len() as int)
                }),
                Err(e) => spec_decimal(input@, 0) is None && e == ParseError::DecimalFormat,
            }
        }),
{
    match decimal_at(input, 0) {
        Some((j, _)) => {
            let text = scan::extract(input, 0, j);
            let rest = scan::extract(input, j, input.unicode_len());
            Ok((rest, text))
        },
        None => Err(ParseError::DecimalFormat),
    }
}

} // verus!
