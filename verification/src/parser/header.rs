//! Transaction headers: the status marker, the parenthesized code, the
//! semicolon comment, and the header line that composes them with the dates
//! and the free-text description.

use vstd::prelude::*;
use crate::parser::chars;
use crate::parser::date;
use crate::parser::date::Date;
use crate::parser::error::ParseError;
use crate::parser::scan;
use crate::parser::scan::run_end;

verus! {

/// The clearing state of a transaction. Absence of a marker means
/// `Uncleared`.
#[derive(Debug, Clone, Copy, PartialEq, Eq, Structural)]
pub enum Status {
    Cleared,
    Pending,
    Uncleared,
}

/// The specification-level image of a [`TransactionHeader`].
pub struct TransactionHeaderV {
    pub date: Date,
    pub edate: Option<Date>,
    pub status: Status,
    pub code: Option<Seq<char>>,
    pub description: Seq<char>,
    pub comment: Option<Seq<char>>,
}

/// One ledger entry's metadata: the primary date, an optional effective
/// date, the status, an optional code, the description (kept verbatim,
/// trailing spaces included), and an optional comment.
#[derive(Debug, Clone, PartialEq, Eq)]
pub struct TransactionHeader {
    pub date: Date,
    pub edate: Option<Date>,
    pub status: Status,
    pub code: Option<String>,
    pub description: String,
    pub comment: Option<String>,
}

impl View for TransactionHeader {
    type V = TransactionHeaderV;

    open spec fn view(&self) -> TransactionHeaderV {
        TransactionHeaderV {
            date: self.date,
            edate: self.edate,
            status: self.status,
            code: match self.code {
                Some(ref c) => Some(c@),
                None => None,
            },
            description: self.description@,
            comment: match self.comment {
                Some(ref c) => Some(c@),
                None => None,
            },
        }
    }
}

/// Recognizes a status marker at `i`: `*` is cleared, `!` is pending.
pub open spec fn spec_status(s: Seq<char>, i: int) -> Option<(int, Status)> {
    if i < s.len() && s[i] == '*' {
        Some((i + 1, Status::Cleared))
    } else if i < s.len() && s[i] == '!' {
        Some((i + 1, Status::Pending))
    } else {
        None
    }
}

/// Recognizes a parenthesized code at `i`. The text between the
/// parentheses is the code; the closing parenthesis must come before the
/// end of the line.
pub open spec fn spec_code(s: Seq<char>, i: int) -> Result<(int, Seq<char>), ParseError> {
    if i < s.len() && s[i] == '(' {
        let j = run_end(s, i + 1, scan::code_p());
        if j < s.len() && s[j] == ')' {
            Ok((j + 1, s.subrange(i + 1, j)))
        } else {
            Err(ParseError::UnclosedCode)
        }
    } else {
        Err(ParseError::BeginningLine)
    }
}

/// Recognizes a comment at `i`: a semicolon, optional horizontal
/// whitespace, then the rest of the line kept verbatim.
pub open spec fn spec_comment(s: Seq<char>, i: int) -> Option<(int, Seq<char>)> {
    if i < s.len() && s[i] == ';' {
        let k = run_end(s, i + 1, scan::hspace_p());
        let j = run_end(s, k, scan::line_p());
        Some((j, s.subrange(k, j)))
    } else {
        None
    }
}

/// Recognizes a transaction header at `i`: the primary date, an optional
/// `=` and effective date, an optional status after whitespace, an optional
/// code after whitespace, mandatory whitespace, the description up to a
/// comment marker or line end, an optional comment, and an optional line
/// terminator.
pub open spec fn spec_header(s: Seq<char>, i: int) -> Result<(int, TransactionHeaderV), ParseError> {
    if !(i < s.len() && chars::spec_is_digit(s[i])) {
        Err(ParseError::BeginningLine)
    } else {
        match date::spec_date(s, i) {
            Err(e) => Err(e),
            Ok((j1, dt)) => {
                let edr = if j1 < s.len() && s[j1] == '=' {
                    match date::spec_date(s, j1 + 1) {
                        Err(e) => Err(e),
                        Ok((j2, ed)) => Ok((j2, Some(ed))),
                    }
                } else {
                    Ok((j1, None::<Date>))
                };
                match edr {
                    Err(e) => Err(e),
                    Ok((p1, edate)) => {
                        let k1 = run_end(s, p1, scan::hspace_p());
                        let marked = if k1 > p1 && spec_status(s, k1) is Some {
                            (spec_status(s, k1)->Some_0.0, spec_status(s, k1)->Some_0.1)
                        } else {
                            (p1, Status::Uncleared)
                        };
                        let p2 = marked.0;
                        let status = marked.1;
                        let k2 = run_end(s, p2, scan::hspace_p());
                        if k2 > p2 && k2 < s.len() && s[k2] == '(' {
                            match spec_code(s, k2) {
                                Err(e) => Err(e),
                                Ok((p3, c)) => spec_header_tail(s, p3, dt, edate, status, Some(c)),
                            }
                        } else {
                            spec_header_tail(s, p2, dt, edate, status, None)
                        }
                    },
                }
            },
        }
    }
}

/// The tail of the header after the optional code: mandatory whitespace,
/// description, optional comment, optional line terminator.
pub open spec fn spec_header_tail(
    s: Seq<char>,
    p: int,
    dt: Date,
    edate: Option<Date>,
    status: Status,
    code: Option<Seq<char>>,
) -> Result<(int, TransactionHeaderV), ParseError> {
    let k = run_end(s, p, scan::hspace_p());
    if k == p {
        Err(ParseError::BeginningLine)
    } else {
        let jd = run_end(s, k, scan::desc_p());
        let cm = spec_comment(s, jd);
        let p4 = if cm is Some {
            cm->Some_0.0
        } else {
            jd
        };
        let p5 = if p4 < s.len() && s[p4] == '\n' {
            p4 + 1
        } else {
            p4
        };
        Ok(
            (
                p5,
                TransactionHeaderV {
                    date: dt,
                    edate,
                    status,
                    code,
                    description: s.subrange(k, jd),
                    comment: match cm {
                        Some((_, c)) => Some(c),
                        None => None,
                    },
                },
            ),
        )
    }
}

/// Recognizes a status marker starting at `pos`.
pub fn status_at(s: &str, pos: usize) -> (r: Option<(usize, Status)>)
    requires
        pos as int <= s@.len(),
    ensures
        ({
            match r {
                Some((j, st)) => spec_status(s@, pos as int) == Some((j as int, st)) && pos < j
                    <= s@.len(),
                None => spec_status(s@, pos as int) is None,
            }
        }),
{
    let len = s.unicode_len();
    if pos < len {
        let c = s.get_char(pos);
        if c == '*' {
            Some((pos + 1, Status::Cleared))
        } else if c == '!' {
            Some((pos + 1, Status::Pending))
        } else {
            None
        }
    } else {
        None
    }
}

/// Recognizes a parenthesized code starting at `pos`.
pub fn code_at(s: &str, pos: usize) -> (r: Result<(usize, String), ParseError>)
    requires
        pos as int <= s@.len(),
    ensures
        ({
            match r {
                Ok((j, c)) => {
                    &&& spec_code(s@, pos as int) == Ok::<(int, Seq<char>), ParseError>(
                        (j as int, c@),
                    )
                    &&& pos < j <= s@.len()
                },
                Err(e) => spec_code(s@, pos as int) == Err::<(int, Seq<char>), ParseError>(e),
            }
        }),
{
    let len = s.unicode_len();
    if pos < len && s.get_char(pos) == '(' {
        let j = scan::scan_code(s, pos + 1);
        if j < len && s.get_char(j) == ')' {
            Ok((j + 1, scan::extract(s, pos + 1, j)))
        } else {
            Err(ParseError::UnclosedCode)
        }
    } else {
        Err(ParseError::BeginningLine)
    }
}

/// Recognizes a comment starting at `pos`.
pub fn comment_at(s: &str, pos: usize) -> (r: Option<(usize, String)>)
    requires
        pos as int <= s@.len(),
    ensures
        ({
            match r {
                Some((j, c)) => {
                    &&& spec_comment(s@, pos as int) == Some((j as int, c@))
                    &&& pos <= j <= s@.len()
                },
                None => spec_comment(s@, pos as int) is None,
            }
        }),
{
    let len = s.unicode_len();
    if pos < len && s.get_char(pos) == ';' {
        let k = scan::scan_hspace(s, pos + 1);
        let j = scan::scan_line(s, k);
        Some((j, scan::extract(s, k, j)))
    } else {
        None
    }
}

/// Recognizes a transaction header starting at `pos`.
pub fn transaction_header_at(s: &str, pos: usize) -> (r: Result<
    (usize, TransactionHeader),
    ParseError,
>)
    requires
        pos as int <= s@.len(),
    ensures
        ({
            match r {
                Ok((j, h)) => {
                    &&& spec_header(s@, pos as int) == Ok::<(int, TransactionHeaderV), ParseError>(
                        (j as int, h@),
                    )
                    &&& pos <= j <= s@.len()
                },
                Err(e) => spec_header(s@, pos as int) == Err::<
                    (int, TransactionHeaderV),
                    ParseError,
                >(e),
            }
        }),
{
    let len = s.unicode_len();
    if !(pos < len && chars::is_digit(s.get_char(pos))) {
        return Err(ParseError::BeginningLine);
    }
    let (j1, dt) = match date::date_at(s, pos) {
        Ok(x) => x,
        Err(e) => {
            return Err(e);
        },
    };
    let (p1, edate) = if j1 < len && s.get_char(j1) == '=' {
        match date::date_at(s, j1 + 1) {
            Ok((j2, ed)) => (j2, Some(ed)),
            Err(e) => {
                return Err(e);
            },
        }
    } else {
        (j1, None)
    };
    let k1 = scan::scan_hspace(s, p1);
    let (p2, status) = if k1 > p1 {
        match status_at(s, k1) {
            Some((j, st)) => (j, st),
            None => (p1, Status::Uncleared),
        }
    } else {
        (p1, Status::Uncleared)
    };
    let k2 = scan::scan_hspace(s, p2);
    let code = if k2 > p2 && k2 < len && s.get_char(k2) == '(' {
        match code_at(s, k2) {
            Ok((p3, c)) => Some((p3, c)),
            Err(e) => {
                return Err(e);
            },
        }
    } else {
        None
    };
    let (p3, code) = match code {
        Some((p3, c)) => (p3, Some(c)),
        None => (p2, None),
    };
    let k3 = scan::scan_hspace(s, p3);
    if k3 == p3 {
        return Err(ParseError::BeginningLine);
    }
    let jd = scan::scan_desc(s, k3);
    let description = scan::extract(s, k3, jd);
    let (p4, comment) = match comment_at(s, jd) {
        Some((j, c)) => (j, Some(c)),
        None => (jd, None),
    };
    let p5 = if p4 < len && s.get_char(p4) == '\n' {
        p4 + 1
    } else {
        p4
    };
    Ok((p5, TransactionHeader { date: dt, edate, status, code, description, comment }))
}

/// Recognizes a parenthesized code at the start of the input and returns
/// the remainder beside it.
pub fn code(input: &str) -> (r: Result<(String, String), ParseError>)
    ensures
        ({
            match r {
                Ok((rest, c)) => ({
                    let sc = spec_code(input@, 0);
                    &&& sc == Ok::<(int, Seq<char>), ParseError>((sc->Ok_0.0, c@))
                    &&& rest@ == input@.subrange(sc->Ok_0.0, input@.len() as int)
                }),
                Err(e) => spec_code(input@, 0) == Err::<(int, Seq<char>), ParseError>(e),
            }
        }),
{
    match code_at(input, 0) {
        Ok((j, c)) => Ok((scan::extract(input, j, input.unicode_len()), c)),
        Err(e) => Err(e),
    }
}

/// Recognizes a transaction header at the start of the input and returns
/// the remainder beside it.
pub fn transaction_header(input: &str) -> (r: Result<(String, TransactionHeader), ParseError>)
    ensures
        ({
            match r {
                Ok((rest, h)) => ({
                    let sh = spec_header(input@, 0);
                    &&& sh == Ok::<(int, TransactionHeaderV), ParseError>((sh->Ok_0.0, h@))
                    &&& rest@ == input@.subrange(sh->Ok_0.0, input@.len() as int)
                }),
                Err(e) => spec_header(input@, 0) == Err::<(int, TransactionHeaderV), ParseError>(
                    e,
                ),
            }
        }),
{
    match transaction_header_at(input, 0) {
        Ok((j, h)) => Ok((scan::extract(input, j, input.unicode_len()), h)),
        Err(e) => Err(e),
    }
}

} // verus!
