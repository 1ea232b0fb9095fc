//! The error taxonomy of the grammar engine.

use vstd::prelude::*;

verus! {

/// One specific defect of the input. Every recognizer either succeeds with a
/// value and a remainder, or fails with exactly one of these kinds.
#[derive(Debug, Clone, Copy, PartialEq, Eq, Structural)]
pub enum ParseError {
    /// No recognizable date pattern.
    DateFormat,
    /// A date pattern was recognized but does not name a real calendar day.
    DateOutOfRange,
    /// A transaction-header start was expected and something else was found.
    BeginningLine,
    /// An opening parenthesis of a code with no closing parenthesis before
    /// the end of the line.
    UnclosedCode,
    /// A posting line with indentation but no account token.
    MissingAccount,
    /// A posting whose amount and assignment name conflicting non-empty
    /// units.
    DupUnit,
    /// A line offered as a posting that is not indented.
    MissingIndent,
    /// Text that cannot be converted into a decimal value.
    DecimalFormat,
}

impl ParseError {
    /// A short human-readable description of the defect.
    pub fn message(&self) -> (m: &'static str)
        ensures
            *self == ParseError::DateFormat ==> m@ == "Invalid date format"@,
            *self == ParseError::DateOutOfRange ==> m@ == "Out-of-range date"@,
            *self == ParseError::BeginningLine ==> m@ == "Invalid beginning line"@,
            *self == ParseError::UnclosedCode ==> m@ == "Unclosed code"@,
            *self == ParseError::MissingAccount ==> m@ == "Account is missing"@,
            *self == ParseError::DupUnit ==> m@ == "Duplicate unit"@,
            *self == ParseError::MissingIndent ==> m@ == "Posting is not indented"@,
            *self == ParseError::DecimalFormat ==> m@ == "Invalid decimal value"@,
    {
        match self {
            ParseError::DateFormat => "Invalid date format",
            ParseError::DateOutOfRange => "Out-of-range date",
            ParseError::BeginningLine => "Invalid beginning line",
            ParseError::UnclosedCode => "Unclosed code",
            ParseError::MissingAccount => "Account is missing",
            ParseError::DupUnit => "Duplicate unit",
            ParseError::MissingIndent => "Posting is not indented",
            ParseError::DecimalFormat => "Invalid decimal value",
        }
    }
}

} // verus!
