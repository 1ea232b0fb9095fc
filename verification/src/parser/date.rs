//! Calendar dates: the raw textual triple, the validated date, and the date
//! recognizer accepting slash-separated or hyphen-separated triples.

use vstd::prelude::*;
use crate::parser::chars;
use crate::parser::chars::all_digits;
use crate::parser::error::ParseError;
use crate::parser::scan;
use crate::parser::scan::run_end;

verus! {

/// The numeric value of one digit character; zero on anything else.
pub open spec fn char_val(c: char) -> nat {
    if chars::spec_is_digit(c) {
        ((c as u32) - 48) as nat
    } else {
        0
    }
}

/// The number written by a run of digit characters, most significant first.
pub open spec fn digits_val(s: Seq<char>) -> nat
    decreases s.len(),
{
    if s.len() == 0 {
        0
    } else {
        digits_val(s.drop_last()) * 10 + char_val(s.last())
    }
}

/// Appending digits never shrinks the value: the value of a prefix bounds
/// the value of the whole run from below.
pub proof fn lemma_digits_val_prefix(s: Seq<char>, n: int)
    requires
        0 <= n <= s.len(),
    ensures
        digits_val(s.subrange(0, n)) <= digits_val(s),
    decreases s.len() - n,
{
    if n == s.len() {
        assert(s.subrange(0, n) =~= s);
    } else {
        lemma_digits_val_prefix(s, n + 1);
        let t = s.subrange(0, n + 1);
        assert(t.drop_last() =~= s.subrange(0, n));
        assert(digits_val(s.subrange(0, n)) <= digits_val(t));
    }
}

/// Converts the digit run `s[from..to]` into a 32-bit number, or reports
/// that the written number is too large for 32 bits.
#[verifier::loop_isolation(false)]
pub fn digits_to_u32(s: &str, from: usize, to: usize) -> (r: Option<u32>)
    requires
        from <= to,
        to as int <= s@.len(),
        forall|k: int| from <= k < to ==> chars::spec_is_digit(s@[k]),
    ensures
        ({
            let v = digits_val(s@.subrange(from as int, to as int));
            match r {
                Some(n) => n == v,
                None => v > u32::MAX,
            }
        }),
{
    let ghost whole = s@.subrange(from as int, to as int);
    let mut acc: u64 = 0;
    let mut k = from;
    while k < to
        invariant
            from <= k <= to,
            acc <= u32::MAX,
            acc == digits_val(s@.subrange(from as int, k as int)),
        decreases to - k,
    {
        let c = s.get_char(k);
        let d: u32 = (c as u32) - 48;
        proof {
            let pre = s@.subrange(from as int, k as int);
            let cur = s@.subrange(from as int, k + 1 as int);
            assert(cur.drop_last() =~= pre);
            assert(cur.last() == s@[k as int]);
        }
        acc = acc * 10 + (d as u64);
        k = k + 1;
        if acc > (u32::MAX as u64) {
            proof {
                assert(whole.subrange(0, k - from as int) =~= s@.subrange(
                    from as int,
                    k as int,
                ));
                lemma_digits_val_prefix(whole, k - from as int);
            }
            return None;
        }
    }
    proof {
        assert(s@.subrange(from as int, to as int) =~= s@.subrange(from as int, k as int));
    }
    Some(acc as u32)
}

/// A leap year of the Gregorian calendar.
pub open spec fn spec_is_leap_year(y: int) -> bool {
    y % 4 == 0 && (y % 100 != 0 || y % 400 == 0)
}

pub fn is_leap_year(y: u32) -> (r: bool)
    ensures
        r == spec_is_leap_year(y as int),
{
    y % 4 == 0 && (y % 100 != 0 || y % 400 == 0)
}

/// How many days the given month of the given year has.
pub open spec fn spec_days_in_month(y: int, m: int) -> int {
    if m == 4 || m == 6 || m == 9 || m == 11 {
        30
    } else if m == 2 {
        if spec_is_leap_year(y) {
            29
        } else {
            28
        }
    } else {
        31
    }
}

pub fn days_in_month(y: u32, m: u32) -> (r: u32)
    ensures
        r == spec_days_in_month(y as int, m as int),
{
    if m == 4 || m == 6 || m == 9 || m == 11 {
        30
    } else if m == 2 {
        if is_leap_year(y) {
            29
        } else {
            28
        }
    } else {
        31
    }
}

/// The triple names a real day of the Gregorian calendar.
pub open spec fn spec_valid_date(y: int, m: int, d: int) -> bool {
    1 <= m <= 12 && 1 <= d <= spec_days_in_month(y, m)
}

/// A calendar day. Values built by this crate always satisfy
/// [`Date::valid`].
#[derive(Debug, Clone, Copy, PartialEq, Eq, Structural)]
pub struct Date {
    pub year: u32,
    pub month: u32,
    pub day: u32,
}

impl Date {
    /// The date names a real day of the Gregorian calendar.
    pub open spec fn valid(self) -> bool {
        spec_valid_date(self.year as int, self.month as int, self.day as int)
    }

    /// Builds a date from a year, month and day already known to be a real
    /// calendar day.
    pub fn from_ymd(year: u32, month: u32, day: u32) -> (r: Date)
        requires
            spec_valid_date(year as int, month as int, day as int),
        ensures
            r == (Date { year, month, day }),
            r.valid(),
    {
        Date { year, month, day }
    }

    /// Builds a date when the triple names a real calendar day, and rejects
    /// it otherwise.
    pub fn from_ymd_checked(year: u32, month: u32, day: u32) -> (r: Option<Date>)
        ensures
            r == (if spec_valid_date(year as int, month as int, day as int) {
                Some(Date { year, month, day })
            } else {
                None::<Date>
            }),
    {
        if 1 <= month && month <= 12 && 1 <= day && day <= days_in_month(year, month) {
            Some(Date { year, month, day })
        } else {
            None
        }
    }
}

/// The specification-level image of a [`RawDate`].
pub struct RawDateV {
    pub year: Seq<char>,
    pub month: Seq<char>,
    pub day: Seq<char>,
}

/// The textual triple of a date token, exactly as it stood in the input.
#[derive(Debug, Clone, PartialEq, Eq)]
pub struct RawDate {
    pub year: String,
    pub month: String,
    pub day: String,
}

impl View for RawDate {
    type V = RawDateV;

    open spec fn view(&self) -> RawDateV {
        RawDateV { year: self.year@, month: self.month@, day: self.day@ }
    }
}

impl RawDate {
    pub fn from_ymd(y: &str, m: &str, d: &str) -> (r: Self)
        ensures
            r@.year == y@,
            r@.month == m@,
            r@.day == d@,
    {
        RawDate { year: String::from_str(y), month: String::from_str(m), day: String::from_str(d) }
    }

    pub fn from_triple(t: (&str, &str, &str)) -> (r: Self)
        ensures
            r@.year == t.0@,
            r@.month == t.1@,
            r@.day == t.2@,
    {
        Self::from_ymd(t.0, t.1, t.2)
    }

    /// Validates the triple against the calendar. Succeeds exactly when the
    /// written numbers name a real day whose year fits in 32 bits.
    pub fn into_date(self) -> (r: Result<Date, ParseError>)
        requires
            self@.year.len() > 0,
            self@.month.len() > 0,
            self@.day.len() > 0,
            all_digits(self@.year),
            all_digits(self@.month),
            all_digits(self@.day),
        ensures
            ({
                let y = digits_val(self@.year);
                let m = digits_val(self@.month);
                let d = digits_val(self@.day);
                if y <= u32::MAX && spec_valid_date(y as int, m as int, d as int) {
                    r == Ok::<Date, ParseError>(
                        Date { year: y as u32, month: m as u32, day: d as u32 },
                    )
                } else {
                    r == Err::<Date, ParseError>(ParseError::DateOutOfRange)
                }
            }),
    {
        let ys = self.year.as_str();
        let ms = self.month.as_str();
        let ds = self.day.as_str();
        let yn = digits_to_u32(ys, 0, ys.unicode_len());
        let mn = digits_to_u32(ms, 0, ms.unicode_len());
        let dn = digits_to_u32(ds, 0, ds.unicode_len());
        proof {
            assert(ys@.subrange(0, ys@.len() as int) =~= self@.year);
            assert(ms@.subrange(0, ms@.len() as int) =~= self@.month);
            assert(ds@.subrange(0, ds@.len() as int) =~= self@.day);
        }
        match (yn, mn, dn) {
            (Some(y), Some(m), Some(d)) => {
                match Date::from_ymd_checked(y, m, d) {
                    Some(dt) => Ok(dt),
                    None => Err(ParseError::DateOutOfRange),
                }
            },
            _ => Err(ParseError::DateOutOfRange),
        }
    }
}

/// Recognizes `digits sep digits sep digits` at `i` with the one given
/// separator, yielding the end position and the textual triple.
pub open spec fn spec_date_sep(s: Seq<char>, i: int, sep: char) -> Option<(int, RawDateV)> {
    let j1 = run_end(s, i, scan::digit_p());
    if j1 == i || j1 >= s.len() || s[j1] != sep {
        None
    } else {
        let j2 = run_end(s, j1 + 1, scan::digit_p());
        if j2 == j1 + 1 || j2 >= s.len() || s[j2] != sep {
            None
        } else {
            let j3 = run_end(s, j2 + 1, scan::digit_p());
            if j3 == j2 + 1 {
                None
            } else {
                Some(
                    (
                        j3,
                        RawDateV {
                            year: s.subrange(i, j1),
                            month: s.subrange(j1 + 1, j2),
                            day: s.subrange(j2 + 1, j3),
                        },
                    ),
                )
            }
        }
    }
}

/// Recognizes a date triple at `i`: the slash form first, the hyphen form
/// second. The separator is consistent within one token.
pub open spec fn spec_date_raw(s: Seq<char>, i: int) -> Option<(int, RawDateV)> {
    match spec_date_sep(s, i, '/') {
        Some(r) => Some(r),
        None => spec_date_sep(s, i, '-'),
    }
}

/// Recognizes a date token at `i` and validates it against the calendar.
pub open spec fn spec_date(s: Seq<char>, i: int) -> Result<(int, Date), ParseError> {
    match spec_date_raw(s, i) {
        None => Err(ParseError::DateFormat),
        Some((j, rd)) => {
            let y = digits_val(rd.year);
            let m = digits_val(rd.month);
            let d = digits_val(rd.day);
            if y <= u32::MAX && spec_valid_date(y as int, m as int, d as int) {
                Ok((j, Date { year: y as u32, month: m as u32, day: d as u32 }))
            } else {
                Err(ParseError::DateOutOfRange)
            }
        },
    }
}

/// Recognizes the textual date triple starting at `pos`.
pub fn date_raw_at(s: &str, pos: usize) -> (r: Option<(usize, RawDate)>)
    requires
        pos as int <= s@.len(),
    ensures
        ({
            match r {
                Some((j, rd)) => {
                    &&& spec_date_raw(s@, pos as int) == Some((j as int, rd@))
                    &&& pos <= j <= s@.len()
                    &&& rd@.year.len() > 0 && all_digits(rd@.year)
                    &&& rd@.month.len() > 0 && all_digits(rd@.month)
                    &&& rd@.day.len() > 0 && all_digits(rd@.day)
                },
                None => spec_date_raw(s@, pos as int) is None,
            }
        }),
{
    let len = s.unicode_len();
    let j1 = scan::scan_digits(s, pos);
    if j1 == pos || j1 == len {
        return None;
    }
    let sep = s.get_char(j1);
    if sep != '/' && sep != '-' {
        return None;
    }
    let j2 = scan::scan_digits(s, j1 + 1);
    if j2 == j1 + 1 || j2 == len || s.get_char(j2) != sep {
        return None;
    }
    let j3 = scan::scan_digits(s, j2 + 1);
    if j3 == j2 + 1 {
        return None;
    }
    let rd = RawDate {
        year: scan::extract(s, pos, j1),
        month: scan::extract(s, j1 + 1, j2),
        day: scan::extract(s, j2 + 1, j3),
    };
    Some((j3, rd))
}

/// Recognizes and validates a date starting at `pos`.
pub fn date_at(s: &str, pos: usize) -> (r: Result<(usize, Date), ParseError>)
    requires
        pos as int <= s@.len(),
    ensures
        ({
            match r {
                Ok((j, dt)) => {
                    &&& spec_date(s@, pos as int) == Ok::<(int, Date), ParseError>((j as int, dt))
                    &&& pos <= j <= s@.len()
                },
                Err(e) => spec_date(s@, pos as int) == Err::<(int, Date), ParseError>(e),
            }
        }),
{
    match date_raw_at(s, pos) {
        None => Err(ParseError::DateFormat),
        Some((j, rd)) => {
            match rd.into_date() {
                Ok(dt) => Ok((j, dt)),
                Err(e) => Err(e),
            }
        },
    }
}

/// Recognizes a date at the start of the input and returns the remainder
/// beside it.
pub fn date(input: &str) -> (r: Result<(String, Date), ParseError>)
    ensures
        ({
            match r {
                Ok((rest, dt)) => {
                    &&& spec_date(input@, 0) matches Ok((j, sdt)) && sdt == dt && rest@
                        == input@.subrange(j, input@.len() as int)
                },
                Err(e) => spec_date(input@, 0) == Err::<(int, Date), ParseError>(e),
            }
        }),
{
    match date_at(input, 0) {
        Ok((j, dt)) => Ok((scan::extract(input, j, input.unicode_len()), dt)),
        Err(e) => Err(e),
    }
}

} // verus!
