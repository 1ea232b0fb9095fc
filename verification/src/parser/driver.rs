//! The ledger-item driver: a stateful, lazy walker over a ledger buffer
//! that yields one top-level item at a time — a transaction when the next
//! line starts with a digit, a blank line otherwise — and stops at the end
//! of the buffer or at the first malformed transaction.

use vstd::prelude::*;
use crate::parser::chars;
use crate::parser::error::ParseError;
use crate::parser::scan;
use crate::parser::scan::run_end;
use crate::parser::txn;
use crate::parser::txn::Transaction;
use crate::parser::txn::TransactionV;

verus! {

/// The specification-level image of a [`LedgerItem`].
pub enum LedgerItemV {
    Transaction(TransactionV),
    Blank,
}

/// One top-level unit of the ledger: a transaction, or a blank
/// (whitespace-only) line.
#[derive(Debug, PartialEq, Eq)]
pub enum LedgerItem {
    Transaction(Transaction),
    Blank,
}

impl View for LedgerItem {
    type V = LedgerItemV;

    open spec fn view(&self) -> LedgerItemV {
        match self {
            LedgerItem::Transaction(t) => LedgerItemV::Transaction(t@),
            LedgerItem::Blank => LedgerItemV::Blank,
        }
    }
}

/// The end of a blank line at `i`: a run of horizontal whitespace, then an
/// optional line terminator (a newline, or a carriage return and a
/// newline).
pub open spec fn spec_blank_end(s: Seq<char>, i: int) -> int {
    let k = run_end(s, i, scan::hspace_p());
    if k < s.len() && s[k] == '\n' {
        k + 1
    } else if k + 1 < s.len() && s[k] == '\r' && s[k + 1] == '\n' {
        k + 2
    } else {
        k
    }
}

/// Consumes a blank line starting at `pos`.
pub fn blank_line_at(s: &str, pos: usize) -> (r: usize)
    requires
        pos as int <= s@.len(),
    ensures
        r as int == spec_blank_end(s@, pos as int),
        pos <= r <= s@.len(),
{
    let len = s.unicode_len();
    let k = scan::scan_hspace(s, pos);
    if k < len && s.get_char(k) == '\n' {
        k + 1
    } else if k < len && s.get_char(k) == '\r' && k + 1 < len && s.get_char(k + 1) == '\n' {
        k + 2
    } else {
        k
    }
}

/// Recognizes a blank line at the start of the input: a run of horizontal
/// whitespace and an optional line terminator, possibly empty. Returns the
/// remainder and the matched text.
pub fn blank_line(input: &str) -> (r: (String, String))
    ensures
        ({
            let j = spec_blank_end(input@, 0);
            &&& r.0@ == input@.subrange(j, input@.len() as int)
            &&& r.1@ == input@.subrange(0, j)
        }),
{
    let j = blank_line_at(input, 0);
    (scan::extract(input, j, input.unicode_len()), scan::extract(input, 0, j))
}

/// What one driver step yields on the buffer `s` at position `pos`:
/// nothing when the buffer is exhausted; otherwise the next item and the
/// position after it, or the error of a malformed transaction.
pub open spec fn spec_next(s: Seq<char>, pos: int) -> Option<
    Result<(int, LedgerItemV), ParseError>,
> {
    if pos >= s.len() {
        None
    } else if chars::spec_is_digit(s[pos]) {
        match txn::spec_transaction(s, pos) {
            Ok((j, t)) => Some(Ok((j, LedgerItemV::Transaction(t)))),
            Err(e) => Some(Err(e)),
        }
    } else {
        Some(Ok((spec_blank_end(s, pos), LedgerItemV::Blank)))
    }
}

/// A lazy walker over a ledger buffer. Each call of [`LedgerParser::next`]
/// parses exactly one more top-level item; nothing is parsed ahead of time.
pub struct LedgerParser {
    s: String,
    pos: usize,
}

impl LedgerParser {
    /// The cursor never leaves the buffer.
    pub closed spec fn wf(&self) -> bool {
        self.pos as int <= self.s@.len()
    }

    /// The buffer the walker owns.
    pub closed spec fn buffer(&self) -> Seq<char> {
        self.s@
    }

    /// The position of the first unconsumed character.
    pub closed spec fn cursor(&self) -> int {
        self.pos as int
    }

    /// Starts a walker at the beginning of the given buffer.
    pub fn new(s: &str) -> (r: Self)
        ensures
            r.buffer() == s@,
            r.cursor() == 0,
            r.wf(),
    {
        Self { s: String::from_str(s), pos: 0 }
    }

    /// Yields the next top-level item, or the error of a malformed
    /// transaction, or nothing once the buffer is exhausted. After an
    /// error the walker is exhausted: no further item is produced.
    pub fn next(&mut self) -> (r: Option<Result<LedgerItem, ParseError>>)
        requires
            old(self).wf(),
        ensures
            final(self).wf(),
            final(self).buffer() == old(self).buffer(),
            ({
                match spec_next(old(self).buffer(), old(self).cursor()) {
                    None => r is None && final(self).cursor() == old(self).cursor(),
                    Some(Ok((j, item))) => {
                        &&& r matches Some(Ok(it)) && it@ == item
                        &&& final(self).cursor() == j
                    },
                    Some(Err(e)) => {
                        &&& r == Some(Err::<LedgerItem, ParseError>(e))
                        &&& final(self).cursor() == old(self).buffer().len()
                    },
                }
            }),
    {
        let len = self.s.as_str().unicode_len();
        if self.pos == len {
            return None;
        }
        if chars::is_digit(self.s.as_str().get_char(self.pos)) {
            match txn::transaction_at(self.s.as_str(), self.pos) {
                Ok((j, t)) => {
                    self.pos = j;
                    Some(Ok(LedgerItem::Transaction(t)))
                },
                Err(e) => {
                    self.pos = len;
                    Some(Err(e))
                },
            }
        } else {
            self.pos = blank_line_at(self.s.as_str(), self.pos);
            Some(Ok(LedgerItem::Blank))
        }
    }
}

} // verus!
