//! Priced quantities: a decimal magnitude with a commodity unit, in the
//! unit-suffixed form (`1000 JPY`), the dollar shorthand (`$12.50`), and the
//! assignment (`= amount`) and cost (`@ amount`) suffixes.

use vstd::prelude::*;
use crate::parser::chars;
use crate::parser::decimal;
use crate::parser::decimal::Decimal;
use crate::parser::decimal::DecimalV;
use crate::parser::error::ParseError;
use crate::parser::scan;
use crate::parser::scan::run_end;

verus! {

/// The specification-level image of an [`Amount`].
pub struct AmountV {
    pub price: DecimalV,
    pub unit: Seq<char>,
}

impl AmountV {
    pub open spec fn wf(self) -> bool {
        self.price.wf()
    }
}

/// A priced quantity: an exact decimal magnitude and a unit label. An empty
/// unit means a bare number.
#[derive(Debug, Clone, PartialEq, Eq)]
pub struct Amount {
    pub price: Decimal,
    pub unit: String,
}

impl View for Amount {
    type V = AmountV;

    open spec fn view(&self) -> AmountV {
        AmountV { price: self.price@, unit: self.unit@ }
    }
}

impl Amount {
    /// Parses a decimal text into an amount with the given unit. Succeeds
    /// exactly when the whole text matches the decimal grammar.
    pub fn from_str(price: &str, unit: &str) -> (r: Result<Amount, ParseError>)
        ensures
            ({
                match r {
                    Ok(a) => {
                        &&& decimal::spec_decimal(price@, 0) == Some(
                            (price@.len() as int, a@.price),
                        )
                        &&& a@.unit == unit@
                        &&& a@.wf()
                    },
                    Err(e) => {
                        &&& e == ParseError::DecimalFormat
                        &&& !(decimal::spec_decimal(price@, 0) matches Some((j, _)) && j
                            == price@.len())
                    },
                }
            }),
    {
        match decimal::decimal_at(price, 0) {
            Some((j, d)) => {
                if j == price.unicode_len() {
                    Ok(Amount { price: d, unit: String::from_str(unit) })
                } else {
                    Err(ParseError::DecimalFormat)
                }
            },
            None => Err(ParseError::DecimalFormat),
        }
    }

    /// Parses a decimal text into an amount whose unit is the dollar sign.
    pub fn dollar(price: &str) -> (r: Result<Amount, ParseError>)
        ensures
            ({
                match r {
                    Ok(a) => {
                        &&& decimal::spec_decimal(price@, 0) == Some(
                            (price@.len() as int, a@.price),
                        )
                        &&& a@.unit == "$"@
                        &&& a@.wf()
                    },
                    Err(e) => {
                        &&& e == ParseError::DecimalFormat
                        &&& !(decimal::spec_decimal(price@, 0) matches Some((j, _)) && j
                            == price@.len())
                    },
                }
            }),
    {
        Self::from_str(price, "$")
    }
}

/// Recognizes a unit-suffixed amount at `i`: a decimal, then optionally one
/// run of horizontal whitespace and a unit token. The unit is empty when
/// omitted.
pub open spec fn spec_unit_amount(s: Seq<char>, i: int) -> Option<(int, AmountV)> {
    match decimal::spec_decimal(s, i) {
        None => None,
        Some((j, d)) => {
            let k = run_end(s, j, scan::hspace_p());
            if k > j && k < s.len() && chars::spec_is_unit_char(s[k]) {
                let u = run_end(s, k, scan::unit_p());
                Some((u, AmountV { price: d, unit: s.subrange(k, u) }))
            } else {
                Some((j, AmountV { price: d, unit: Seq::empty() }))
            }
        },
    }
}

/// Recognizes an amount at `i`: either the dollar shorthand (an optional
/// minus sign, the dollar sign, then a decimal, with the unit forced to the
/// dollar sign) or a unit-suffixed amount.
pub open spec fn spec_amount(s: Seq<char>, i: int) -> Option<(int, AmountV)> {
    if i < s.len() && s[i] == '$' {
        match decimal::spec_decimal(s, i + 1) {
            None => None,
            Some((j, d)) => Some((j, AmountV { price: d, unit: seq!['$'] })),
        }
    } else if i + 1 < s.len() && s[i] == '-' && s[i + 1] == '$' {
        match decimal::spec_decimal(s, i + 2) {
            None => None,
            Some((j, d)) => Some((j, AmountV { price: d.negated(), unit: seq!['$'] })),
        }
    } else {
        spec_unit_amount(s, i)
    }
}

/// Recognizes a balance assignment at `i`: an equals sign, optional
/// horizontal whitespace, then a unit-suffixed amount.
pub open spec fn spec_assign(s: Seq<char>, i: int) -> Option<(int, AmountV)> {
    if i < s.len() && s[i] == '=' {
        spec_unit_amount(s, run_end(s, i + 1, scan::hspace_p()))
    } else {
        None
    }
}

/// Recognizes a cost at `i`: an at sign, optional horizontal whitespace,
/// then a unit-suffixed amount.
pub open spec fn spec_cost(s: Seq<char>, i: int) -> Option<(int, AmountV)> {
    if i < s.len() && s[i] == '@' {
        spec_unit_amount(s, run_end(s, i + 1, scan::hspace_p()))
    } else {
        None
    }
}

/// Recognizes a unit-suffixed amount starting at `pos`.
pub fn unit_amount_at(s: &str, pos: usize) -> (r: Option<(usize, Amount)>)
    requires
        pos as int <= s@.len(),
    ensures
        ({
            match r {
                Some((j, a)) => {
                    &&& spec_unit_amount(s@, pos as int) == Some((j as int, a@))
                    &&& pos <= j <= s@.len()
                    &&& a@.wf()
                },
                None => spec_unit_amount(s@, pos as int) is None,
            }
        }),
{
    let len = s.unicode_len();
    match decimal::decimal_at(s, pos) {
        None => None,
        Some((j, d)) => {
            let k = scan::scan_hspace(s, j);
            if k > j && k < len && chars::is_unit_char(s.get_char(k)) {
                let u = scan::scan_unit(s, k);
                Some((u, Amount { price: d, unit: scan::extract(s, k, u) }))
            } else {
                Some((j, Amount { price: d, unit: String::new() }))
            }
        },
    }
}

/// Recognizes an amount (dollar shorthand or unit-suffixed) starting at
/// `pos`.
pub fn amount_at(s: &str, pos: usize) -> (r: Option<(usize, Amount)>)
    requires
        pos as int <= s@.len(),
    ensures
        ({
            match r {
                Some((j, a)) => {
                    &&& spec_amount(s@, pos as int) == Some((j as int, a@))
                    &&& pos <= j <= s@.len()
                    &&& a@.wf()
                },
                None => spec_amount(s@, pos as int) is None,
            }
        }),
{
    let len = s.unicode_len();
    if pos < len && s.get_char(pos) == '$' {
        match decimal::decimal_at(s, pos + 1) {
            None => None,
            Some((j, d)) => {
                proof {
                    reveal_strlit("$");
                    assert("$"@ =~= seq!['$']);
                }
                Some((j, Amount { price: d, unit: String::from_str("$") }))
            },
        }
    } else if pos < len && s.get_char(pos) == '-' && pos + 1 < len && s.get_char(pos + 1) == '$' {
        match decimal::decimal_at(s, pos + 2) {
            None => None,
            Some((j, d)) => {
                proof {
                    reveal_strlit("$");
                    assert("$"@ =~= seq!['$']);
                }
                Some((j, Amount { price: d.negate(), unit: String::from_str("$") }))
            },
        }
    } else {
        unit_amount_at(s, pos)
    }
}

/// Recognizes a balance assignment starting at `pos`.
pub fn assign_at(s: &str, pos: usize) -> (r: Option<(usize, Amount)>)
    requires
        pos as int <= s@.len(),
    ensures
        ({
            match r {
                Some((j, a)) => {
                    &&& spec_assign(s@, pos as int) == Some((j as int, a@))
                    &&& pos <= j <= s@.len()
                    &&& a@.wf()
                },
                None => spec_assign(s@, pos as int) is None,
            }
        }),
{
    let len = s.unicode_len();
    if pos < len && s.get_char(pos) == '=' {
        let k = scan::scan_hspace(s, pos + 1);
        unit_amount_at(s, k)
    } else {
        None
    }
}

/// Recognizes a cost starting at `pos`.
pub fn cost_at(s: &str, pos: usize) -> (r: Option<(usize, Amount)>)
    requires
        pos as int <= s@.len(),
    ensures
        ({
            match r {
                Some((j, a)) => {
                    &&& spec_cost(s@, pos as int) == Some((j as int, a@))
                    &&& pos <= j <= s@.len()
                    &&& a@.wf()
                },
                None => spec_cost(s@, pos as int) is None,
            }
        }),
{
    let len = s.unicode_len();
    if pos < len && s.get_char(pos) == '@' {
        let k = scan::scan_hspace(s, pos + 1);
        unit_amount_at(s, k)
    } else {
        None
    }
}

/// Recognizes a unit-suffixed amount at the start of the input and returns
/// the remainder beside it.
pub fn amount_unit(input: &str) -> (r: Result<(String, Amount), ParseError>)
    ensures
        ({
            match r {
                Ok((rest, a)) => ({
                    let sa = spec_unit_amount(input@, 0);
                    &&& sa == Some((sa->Some_0.0, a@))
                    &&& rest@ == input@.subrange(sa->Some_0.0, input@.len() as int)
                    &&& a@.wf()
                }),
                Err(e) => spec_unit_amount(input@, 0) is None && e == ParseError::DecimalFormat,
            }
        }),
{
    match unit_amount_at(input, 0) {
        Some((j, a)) => Ok((scan::extract(input, j, input.unicode_len()), a)),
        None => Err(ParseError::DecimalFormat),
    }
}

/// Recognizes a balance assignment at the start of the input and returns
/// the remainder beside it.
pub fn assign_amount(input: &str) -> (r: Result<(String, Amount), ParseError>)
    ensures
        ({
            match r {
                Ok((rest, a)) => ({
                    let sa = spec_assign(input@, 0);
                    &&& sa == Some((sa->Some_0.0, a@))
                    &&& rest@ == input@.subrange(sa->Some_0.0, input@.len() as int)
                    &&& a@.wf()
                }),
                Err(e) => spec_assign(input@, 0) is None && e == ParseError::DecimalFormat,
            }
        }),
{
    match assign_at(input, 0) {
        Some((j, a)) => Ok((scan::extract(input, j, input.unicode_len()), a)),
        None => Err(ParseError::DecimalFormat),
    }
}

} // verus!
