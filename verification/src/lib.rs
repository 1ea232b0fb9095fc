//! A verified parser for a plain-text, line-oriented personal-finance ledger.
//!
//! The crate turns a ledger buffer into a sequence of structured items:
//! dated transactions, each carrying one or more postings, or blank lines.
//! Every recognizer carries a contract that ties its result to a
//! specification-level description of the grammar.
//!
//! Parsed records hold owned copies of the matched text: they are immutable
//! once constructed and do not borrow from the input buffer, so they may
//! outlive it freely.

pub mod parser;
