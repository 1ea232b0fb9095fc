//! The grammar engine: recognizers for dates, decimals, units, statuses,
//! codes, comments and account paths, their composition into posting and
//! transaction records, and the driver that walks a ledger buffer one
//! top-level item at a time.

pub mod amount;
pub mod chars;
pub mod date;
pub mod decimal;
pub mod driver;
pub mod error;
pub mod header;
pub mod laws;
pub mod posting;
pub mod scan;
pub mod txn;

pub use amount::Amount;
pub use amount::AmountV;
pub use amount::amount_unit;
pub use amount::assign_amount;
pub use date::Date;
pub use date::RawDate;
pub use date::RawDateV;
pub use date::date;
pub use decimal::Decimal;
pub use decimal::DecimalV;
pub use decimal::decimal;
pub use driver::LedgerItem;
pub use driver::LedgerItemV;
pub use driver::LedgerParser;
pub use driver::blank_line;
pub use error::ParseError;
pub use header::Status;
pub use header::TransactionHeader;
pub use header::TransactionHeaderV;
pub use header::code;
pub use header::transaction_header;
pub use posting::Posting;
pub use posting::PostingV;
pub use posting::posting;
pub use txn::Transaction;
pub use txn::TransactionV;
pub use txn::transaction;
