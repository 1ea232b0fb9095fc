//! Postings: one account leg of a transaction, with its optional amount,
//! balance assignment, cost and comment. A posting line must be indented;
//! an un-indented line never matches.

use vstd::prelude::*;
use crate::parser::amount;
use crate::parser::amount::Amount;
use crate::parser::amount::AmountV;
use crate::parser::error::ParseError;
use crate::parser::header;
use crate::parser::scan;
use crate::parser::scan::run_end;

verus! {

/// The specification-level image of a [`Posting`].
pub struct PostingV {
    pub account: Seq<char>,
    pub amount: Option<AmountV>,
    pub assign: Option<AmountV>,
    pub cost: Option<AmountV>,
    pub comment: Option<Seq<char>>,
}

impl PostingV {
    /// The posting is fully elided: no amount, no assignment, no cost. Its
    /// amount is to be inferred by a downstream balancing step.
    pub open spec fn elided(self) -> bool {
        self.amount is None && self.assign is None && self.cost is None
    }
}

/// One leg of a transaction: the account path and, each independently
/// optional, an amount, a balance assignment, a cost and a comment.
#[derive(Debug, Clone, PartialEq, Eq)]
pub struct Posting {
    pub account: String,
    pub amount: Option<Amount>,
    pub assign: Option<Amount>,
    pub cost: Option<Amount>,
    pub comment: Option<String>,
}

impl View for Posting {
    type V = PostingV;

    open spec fn view(&self) -> PostingV {
        PostingV {
            account: self.account@,
            amount: match self.amount {
                Some(ref a) => Some(a@),
                None => None,
            },
            assign: match self.assign {
                Some(ref a) => Some(a@),
                None => None,
            },
            cost: match self.cost {
                Some(ref a) => Some(a@),
                None => None,
            },
            comment: match self.comment {
                Some(ref c) => Some(c@),
                None => None,
            },
        }
    }
}

impl Posting {
    /// The posting is fully elided: no amount, no assignment, no cost.
    pub fn is_elided(&self) -> (r: bool)
        ensures
            r == self@.elided(),
    {
        self.amount.is_none() && self.assign.is_none() && self.cost.is_none()
    }
}

/// An indentation marker stands at `i`: two spaces or one tab.
pub open spec fn spec_has_indent(s: Seq<char>, i: int) -> bool {
    (i + 1 < s.len() && s[i] == ' ' && s[i + 1] == ' ') || (i < s.len() && s[i] == '\t')
}

/// The position right after the indentation marker at `i`.
pub open spec fn spec_indent_end(s: Seq<char>, i: int) -> int {
    if i < s.len() && s[i] == '\t' {
        i + 1
    } else {
        i + 2
    }
}

/// The amount and the assignment of one posting name conflicting units:
/// both are present, both units are non-empty, and the units differ. A
/// cost in another commodity is a conversion price, not a conflict, so it
/// is exempt.
pub open spec fn spec_dup_unit(amt: Option<AmountV>, assign: Option<AmountV>) -> bool {
    amt is Some && assign is Some && amt->Some_0.unit.len() > 0 && assign->Some_0.unit.len() > 0
        && amt->Some_0.unit != assign->Some_0.unit
}

/// Recognizes one posting at `i`: mandatory indentation, the account path,
/// then an optional amount, assignment, cost and comment separated by
/// horizontal whitespace, and an optional line terminator. A posting whose
/// amount and assignment name conflicting non-empty units is rejected.
pub open spec fn spec_posting(s: Seq<char>, i: int) -> Result<(int, PostingV), ParseError> {
    if !spec_has_indent(s, i) {
        Err(ParseError::MissingIndent)
    } else {
        let p0 = run_end(s, spec_indent_end(s, i), scan::hspace_p());
        let ja = run_end(s, p0, scan::nonws_p());
        if ja == p0 {
            Err(ParseError::MissingAccount)
        } else {
            let p1 = run_end(s, ja, scan::hspace_p());
            let am = amount::spec_amount(s, p1);
            let p2 = if am is Some {
                am->Some_0.0
            } else {
                p1
            };
            let amt = if am is Some {
                Some(am->Some_0.1)
            } else {
                None::<AmountV>
            };
            let p2h = run_end(s, p2, scan::hspace_p());
            let asn = amount::spec_assign(s, p2h);
            let p3 = if asn is Some {
                asn->Some_0.0
            } else {
                p2h
            };
            let assign = if asn is Some {
                Some(asn->Some_0.1)
            } else {
                None::<AmountV>
            };
            let p3h = run_end(s, p3, scan::hspace_p());
            let cst = amount::spec_cost(s, p3h);
            let p4 = if cst is Some {
                cst->Some_0.0
            } else {
                p3h
            };
            let cost = if cst is Some {
                Some(cst->Some_0.1)
            } else {
                None::<AmountV>
            };
            let p4h = run_end(s, p4, scan::hspace_p());
            let cm = header::spec_comment(s, p4h);
            let p5 = if cm is Some {
                cm->Some_0.0
            } else {
                p4h
            };
            let p6 = if p5 < s.len() && s[p5] == '\n' {
                p5 + 1
            } else {
                p5
            };
            if spec_dup_unit(amt, assign) {
                Err(ParseError::DupUnit)
            } else {
                Ok(
                    (
                        p6,
                        PostingV {
                            account: s.subrange(p0, ja),
                            amount: amt,
                            assign,
                            cost,
                            comment: match cm {
                                Some((_, c)) => Some(c),
                                None => None,
                            },
                        },
                    ),
                )
            }
        }
    }
}

/// Recognizes one posting starting at `pos`.
pub fn posting_at(s: &str, pos: usize) -> (r: Result<(usize, Posting), ParseError>)
    requires
        pos as int <= s@.len(),
    ensures
        ({
            match r {
                Ok((j, p)) => {
                    &&& spec_posting(s@, pos as int) == Ok::<(int, PostingV), ParseError>(
                        (j as int, p@),
                    )
                    &&& pos < j <= s@.len()
                },
                Err(e) => spec_posting(s@, pos as int) == Err::<(int, PostingV), ParseError>(e),
            }
        }),
{
    let len = s.unicode_len();
    let after: usize = if pos < len && s.get_char(pos) == '\t' {
        pos + 1
    } else if pos < len && s.get_char(pos) == ' ' && pos + 1 < len && s.get_char(pos + 1) == ' ' {
        pos + 2
    } else {
        return Err(ParseError::MissingIndent);
    };
    let p0 = scan::scan_hspace(s, after);
    let ja = scan::scan_nonws(s, p0);
    if ja == p0 {
        return Err(ParseError::MissingAccount);
    }
    let account = scan::extract(s, p0, ja);
    let p1 = scan::scan_hspace(s, ja);
    let (p2, amt) = match amount::amount_at(s, p1) {
        Some((j, a)) => (j, Some(a)),
        None => (p1, None),
    };
    let p2h = scan::scan_hspace(s, p2);
    let (p3, assign) = match amount::assign_at(s, p2h) {
        Some((j, a)) => (j, Some(a)),
        None => (p2h, None),
    };
    let p3h = scan::scan_hspace(s, p3);
    let (p4, cost) = match amount::cost_at(s, p3h) {
        Some((j, a)) => (j, Some(a)),
        None => (p3h, None),
    };
    let p4h = scan::scan_hspace(s, p4);
    let (p5, comment) = match header::comment_at(s, p4h) {
        Some((j, c)) => (j, Some(c)),
        None => (p4h, None),
    };
    let p6 = if p5 < len && s.get_char(p5) == '\n' {
        p5 + 1
    } else {
        p5
    };
    let dup = match (&amt, &assign) {
        (Some(a), Some(b)) => !a.unit.as_str().is_empty() && !b.unit.as_str().is_empty() && a.unit
            != b.unit,
        _ => false,
    };
    if dup {
        return Err(ParseError::DupUnit);
    }
    Ok((p6, Posting { account, amount: amt, assign, cost, comment }))
}

/// Recognizes one posting at the start of the input and returns the
/// remainder beside it.
pub fn posting(input: &str) -> (r: Result<(String, Posting), ParseError>)
    ensures
        ({
            match r {
                Ok((rest, p)) => ({
                    let sp = spec_posting(input@, 0);
                    &&& sp == Ok::<(int, PostingV), ParseError>((sp->Ok_0.0, p@))
                    &&& rest@ == input@.subrange(sp->Ok_0.0, input@.len() as int)
                }),
                Err(e) => spec_posting(input@, 0) == Err::<(int, PostingV), ParseError>(e),
            }
        }),
{
    match posting_at(input, 0) {
        Ok((j, p)) => Ok((scan::extract(input, j, input.unicode_len()), p)),
        Err(e) => Err(e),
    }
}

} // verus!
