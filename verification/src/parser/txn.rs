//! Transactions: one header followed by one or more postings. The posting
//! loop ends at the first line that is no posting; a transaction with no
//! postings at all is invalid.

use vstd::prelude::*;
use crate::parser::error::ParseError;
use crate::parser::header;
use crate::parser::header::TransactionHeader;
use crate::parser::header::TransactionHeaderV;
use crate::parser::posting;
use crate::parser::posting::Posting;
use crate::parser::posting::PostingV;
use crate::parser::scan;

verus! {

/// The specification-level image of a [`Transaction`].
pub struct TransactionV {
    pub header: TransactionHeaderV,
    pub posting: Seq<PostingV>,
}

/// One full ledger entry: a header and its postings, in file order.
#[derive(Debug, Clone, PartialEq, Eq)]
pub struct Transaction {
    pub header: TransactionHeader,
    pub posting: Vec<Posting>,
}

/// The images of a run of postings, in order.
pub open spec fn postings_view(q: Seq<Posting>) -> Seq<PostingV> {
    q.map(|idx: int, p: Posting| p.view())
}

impl View for Transaction {
    type V = TransactionV;

    open spec fn view(&self) -> TransactionV {
        TransactionV { header: self.header@, posting: postings_view(self.posting@) }
    }
}

/// Collects postings from `i` on, one after the other, until a line fails
/// to match the posting grammar. A posting rejected for conflicting units
/// is a hard error; a line that is not indented or holds no account merely
/// ends the run.
pub open spec fn spec_postings(s: Seq<char>, i: int) -> Result<(int, Seq<PostingV>), ParseError>
    decreases s.len() - i,
{
    match posting::spec_posting(s, i) {
        Ok((j, p)) => {
            if i < j <= s.len() {
                match spec_postings(s, j) {
                    Ok((k, ps)) => Ok((k, seq![p] + ps)),
                    Err(e) => Err(e),
                }
            } else {
                Ok((i, Seq::empty()))
            }
        },
        Err(e) => {
            if e == ParseError::DupUnit {
                Err(e)
            } else {
                Ok((i, Seq::empty()))
            }
        },
    }
}

/// The error with which the posting run starting at `i` stops.
pub open spec fn spec_postings_stop(s: Seq<char>, i: int) -> ParseError {
    match posting::spec_posting(s, i) {
        Err(e) => e,
        Ok(_) => ParseError::MissingAccount,
    }
}

/// Recognizes one transaction at `i`: a header, then one or more postings.
/// A header followed by no posting fails with the error of the first
/// posting attempt.
pub open spec fn spec_transaction(s: Seq<char>, i: int) -> Result<(int, TransactionV), ParseError> {
    match header::spec_header(s, i) {
        Err(e) => Err(e),
        Ok((j, h)) => match spec_postings(s, j) {
            Err(e) => Err(e),
            Ok((k, ps)) => {
                if ps.len() == 0 {
                    Err(spec_postings_stop(s, j))
                } else {
                    Ok((k, TransactionV { header: h, posting: ps }))
                }
            },
        },
    }
}

/// Recognizes one transaction starting at `pos`.
#[verifier::loop_isolation(false)]
pub fn transaction_at(s: &str, pos: usize) -> (r: Result<(usize, Transaction), ParseError>)
    requires
        pos as int <= s@.len(),
    ensures
        ({
            match r {
                Ok((j, t)) => {
                    &&& spec_transaction(s@, pos as int) == Ok::<(int, TransactionV), ParseError>(
                        (j as int, t@),
                    )
                    &&& pos <= j <= s@.len()
                },
                Err(e) => spec_transaction(s@, pos as int) == Err::<
                    (int, TransactionV),
                    ParseError,
                >(e),
            }
        }),
{
    let (hj, hdr) = match header::transaction_header_at(s, pos) {
        Ok(x) => x,
        Err(e) => {
            return Err(e);
        },
    };
    let mut ps: Vec<Posting> = Vec::new();
    let mut cur = hj;
    let stop: ParseError;
    loop
        invariant
            hj <= cur <= s@.len(),
            ps@.len() == 0 ==> cur == hj,
            ({
                match spec_postings(s@, cur as int) {
                    Ok((k, tail)) => spec_postings(s@, hj as int) == Ok::<
                        (int, Seq<PostingV>),
                        ParseError,
                    >((k, postings_view(ps@) + tail)),
                    Err(e) => spec_postings(s@, hj as int) == Err::<
                        (int, Seq<PostingV>),
                        ParseError,
                    >(e),
                }
            }),
        decreases s@.len() - cur,
    {
        match posting::posting_at(s, cur) {
            Ok((nj, p)) => {
                proof {
                    assert(postings_view(ps@.push(p)) =~= postings_view(ps@).push(p@));
                }
                let ghost old_ps = ps@;
                let ghost old_cur = cur as int;
                ps.push(p);
                cur = nj;
                proof {
                    match spec_postings(s@, cur as int) {
                        Ok((k, tail)) => {
                            assert(postings_view(old_ps) + (seq![p@] + tail) =~= postings_view(
                                old_ps.push(p),
                            ) + tail);
                        },
                        Err(_) => {},
                    }
                }
            },
            Err(e) => {
                match e {
                    ParseError::DupUnit => {
                        return Err(ParseError::DupUnit);
                    },
                    _ => {
                        stop = e;
                        break;
                    },
                }
            },
        }
    }
    if ps.len() == 0 {
        return Err(stop);
    }
    proof {
        assert(postings_view(ps@) + Seq::<PostingV>::empty() =~= postings_view(ps@));
    }
    Ok((cur, Transaction { header: hdr, posting: ps }))
}

/// Recognizes one transaction at the start of the input and returns the
/// remainder beside it.
pub fn transaction(input: &str) -> (r: Result<(String, Transaction), ParseError>)
    ensures
        ({
            match r {
                Ok((rest, t)) => ({
                    let st = spec_transaction(input@, 0);
                    &&& st == Ok::<(int, TransactionV), ParseError>((st->Ok_0.0, t@))
                    &&& rest@ == input@.subrange(st->Ok_0.0, input@.len() as int)
                }),
                Err(e) => spec_transaction(input@, 0) == Err::<(int, TransactionV), ParseError>(
                    e,
                ),
            }
        }),
{
    match transaction_at(input, 0) {
        Ok((j, t)) => Ok((scan::extract(input, j, input.unicode_len()), t)),
        Err(e) => Err(e),
    }
}

} // verus!
