use mini_ledger::parser::Amount;
use mini_ledger::parser::Date;
use mini_ledger::parser::Decimal;
use mini_ledger::parser::LedgerItem;
use mini_ledger::parser::LedgerParser;
use mini_ledger::parser::ParseError;
use mini_ledger::parser::amount_unit;
use mini_ledger::parser::blank_line;
use mini_ledger::parser::date;
use mini_ledger::parser::decimal;
use mini_ledger::parser::posting;
use mini_ledger::parser::transaction_header;
use mini_ledger::parser::date::RawDate;
use mini_ledger::parser::date::date_raw_at;

#[test]
fn date_text_round_trips() {
    let (end, rd) = date_raw_at("2021/12/23", 0).unwrap();
    assert_eq!(end, 10);
    assert_eq!(format!("{}/{}/{}", rd.year, rd.month, rd.day), "2021/12/23");

    let (end, rd) = date_raw_at("2020-01-04 rest", 0).unwrap();
    assert_eq!(end, 10);
    assert_eq!(format!("{}-{}-{}", rd.year, rd.month, rd.day), "2020-01-04");
}

#[test]
fn date_rejects_mixed_separators() {
    assert_eq!(date("2020-05/23"), Err(ParseError::DateFormat));
    assert_eq!(date("2020/05-23"), Err(ParseError::DateFormat));
    assert_eq!(date("hello"), Err(ParseError::DateFormat));
}

#[test]
fn date_calendar_validation() {
    assert_eq!(date("2021-02-30"), Err(ParseError::DateOutOfRange));
    assert_eq!(date("2021-13-01"), Err(ParseError::DateOutOfRange));
    assert_eq!(date("2021-00-10"), Err(ParseError::DateOutOfRange));
    assert_eq!(date("2021-04-31"), Err(ParseError::DateOutOfRange));
    // Leap-year rules: divisible by four, except centuries off the
    // four-hundred cycle.
    assert_eq!(
        date("2020-02-29"),
        Ok((String::from(""), Date::from_ymd(2020, 2, 29)))
    );
    assert_eq!(date("2021-02-29"), Err(ParseError::DateOutOfRange));
    assert_eq!(date("1900-02-29"), Err(ParseError::DateOutOfRange));
    assert_eq!(
        date("2000-02-29"),
        Ok((String::from(""), Date::from_ymd(2000, 2, 29)))
    );
}

#[test]
fn raw_date_into_date() {
    let rd = RawDate::from_triple(("2020", "2", "29"));
    assert_eq!(rd.into_date(), Ok(Date::from_ymd(2020, 2, 29)));
    let rd = RawDate::from_ymd("2020", "02", "30");
    assert_eq!(rd.into_date(), Err(ParseError::DateOutOfRange));
    // A year too large for 32 bits is out of range, not a panic.
    let rd = RawDate::from_ymd("99999999999", "01", "01");
    assert_eq!(rd.into_date(), Err(ParseError::DateOutOfRange));
}

#[test]
fn decimal_components_survive_parsing() {
    let (_, a) = amount_unit("+10.49").unwrap();
    assert_eq!(
        a.price,
        Decimal {
            neg: false,
            int_digits: String::from("10"),
            frac_digits: String::from("49"),
        }
    );
    let (_, a) = amount_unit("-9,900.25 JPY").unwrap();
    assert_eq!(
        a.price,
        Decimal {
            neg: true,
            int_digits: String::from("9900"),
            frac_digits: String::from("25"),
        }
    );
    assert_eq!(a.unit, "JPY");
    // Leading zeros and a zero fraction are kept exactly as written.
    let (_, a) = amount_unit("007.10").unwrap();
    assert_eq!(
        a.price,
        Decimal {
            neg: false,
            int_digits: String::from("007"),
            frac_digits: String::from("10"),
        }
    );
}

#[test]
fn decimal_grouping() {
    assert_eq!(
        decimal("1,234,567.89"),
        Ok((String::from(""), String::from("1,234,567.89")))
    );
    // A comma not followed by a digit is not grouping: it ends the token.
    assert_eq!(decimal("12,"), Ok((String::from(","), String::from("12"))));
    // A point not followed by a digit is not a fraction.
    assert_eq!(decimal("12."), Ok((String::from("."), String::from("12"))));
    assert_eq!(decimal("x12"), Err(ParseError::DecimalFormat));
    assert_eq!(decimal("-"), Err(ParseError::DecimalFormat));
}

#[test]
fn amount_from_str_checks_whole_text() {
    assert_eq!(Amount::from_str("abc", "JPY"), Err(ParseError::DecimalFormat));
    assert_eq!(Amount::from_str("12 x", ""), Err(ParseError::DecimalFormat));
    assert!(Amount::from_str("1,000.5", "JPY").is_ok());
}

#[test]
fn dollar_amounts() {
    assert_eq!(
        Amount::dollar("10.49").unwrap(),
        Amount::from_str("10.49", "$").unwrap()
    );
    let (rest, a) = posting("    Assets:Cash $12.50\n").unwrap();
    assert_eq!(rest, "");
    assert_eq!(a.amount, Some(Amount::from_str("12.50", "$").unwrap()));
    let (_, a) = posting("    Assets:Cash -$3\n").unwrap();
    assert_eq!(a.amount, Some(Amount::from_str("-3", "$").unwrap()));
}

#[test]
fn elided_posting_is_marked() {
    let (_, p) = posting("    Assets:Cash").unwrap();
    assert!(p.is_elided());
    let (_, p) = posting("    Assets:Cash 3000 JPY").unwrap();
    assert!(!p.is_elided());
    let (_, p) = posting("    Assets:Cash    =0 ; balance the cash\n").unwrap();
    assert!(!p.is_elided());
}

#[test]
fn assignment_without_unit_has_empty_unit() {
    let (rest, p) = posting("    Assets:Cash =0 ; balance").unwrap();
    assert_eq!(rest, "");
    assert_eq!(p.account, "Assets:Cash");
    assert_eq!(p.amount, None);
    let assign = p.assign.unwrap();
    assert_eq!(assign.unit, "");
    assert_eq!(
        assign.price,
        Decimal {
            neg: false,
            int_digits: String::from("0"),
            frac_digits: String::from(""),
        }
    );
    assert_eq!(p.comment, Some(String::from("balance")));
}

#[test]
fn unindented_lines_are_rejected() {
    assert_eq!(posting("Assets:Cash"), Err(ParseError::MissingIndent));
    assert_eq!(posting(" Assets:Cash"), Err(ParseError::MissingIndent));
    assert_eq!(posting(""), Err(ParseError::MissingIndent));
    // A tab alone is valid indentation.
    assert!(posting("\tAssets:Cash").is_ok());
}

#[test]
fn empty_posting_line_misses_account() {
    assert_eq!(posting("    "), Err(ParseError::MissingAccount));
    assert_eq!(posting("  "), Err(ParseError::MissingAccount));
}

#[test]
fn conflicting_units_are_rejected() {
    assert_eq!(
        posting("    Assets:Cash 10 JPY = 20 USD\n"),
        Err(ParseError::DupUnit)
    );
    // The same unit on amount and assignment is fine.
    assert!(posting("    Assets:Cash 10 JPY = 20 JPY\n").is_ok());
    // An assignment without a unit inherits no conflict.
    assert!(posting("    Assets:Cash 10 JPY = 20\n").is_ok());
    // A cost in another unit is a conversion price, not a conflict.
    assert!(posting("    Assets:ETF 1 VTI @ 12300 JPY\n").is_ok());
}

#[test]
fn header_error_kinds() {
    assert_eq!(transaction_header("Assets:Cash"), Err(ParseError::BeginningLine));
    assert_eq!(transaction_header(""), Err(ParseError::BeginningLine));
    assert_eq!(
        transaction_header("2020-11-30 * (abc Withdraw"),
        Err(ParseError::UnclosedCode)
    );
    assert_eq!(
        transaction_header("2020-13-30 * Withdraw"),
        Err(ParseError::DateOutOfRange)
    );
    assert_eq!(
        transaction_header("2020-11-30=9999-99-99 * Withdraw"),
        Err(ParseError::DateOutOfRange)
    );
}

#[test]
fn error_messages() {
    assert_eq!(ParseError::DateFormat.message(), "Invalid date format");
    assert_eq!(ParseError::DateOutOfRange.message(), "Out-of-range date");
    assert_eq!(ParseError::BeginningLine.message(), "Invalid beginning line");
    assert_eq!(ParseError::UnclosedCode.message(), "Unclosed code");
    assert_eq!(ParseError::MissingAccount.message(), "Account is missing");
    assert_eq!(ParseError::DupUnit.message(), "Duplicate unit");
}

#[test]
fn driver_single_newline_yields_one_blank() {
    let mut parser = LedgerParser::new("\n");
    assert_eq!(parser.next(), Some(Ok(LedgerItem::Blank)));
    assert_eq!(parser.next(), None);
    assert_eq!(parser.next(), None);
}

#[test]
fn driver_stops_after_error() {
    let mut parser = LedgerParser::new("2021-13-01 * Broken\n    A 1\n");
    assert_eq!(parser.next(), Some(Err(ParseError::DateOutOfRange)));
    assert_eq!(parser.next(), None);
}

#[test]
fn driver_walks_blanks_and_transactions() {
    let ledger = "\n2021-09-16 * Withdraw\n    Assets:Cash 100 JPY\n    Assets:Bank -100 JPY\n\n";
    let mut parser = LedgerParser::new(ledger);
    assert_eq!(parser.next(), Some(Ok(LedgerItem::Blank)));
    match parser.next() {
        Some(Ok(LedgerItem::Transaction(t))) => {
            assert_eq!(t.posting.len(), 2);
            assert_eq!(t.header.description, "Withdraw");
        },
        other => panic!("expected a transaction, got {:?}", other),
    }
    assert_eq!(parser.next(), Some(Ok(LedgerItem::Blank)));
    assert_eq!(parser.next(), None);
}

#[test]
fn blank_line_with_carriage_return() {
    assert_eq!(
        blank_line("  \r\nrest"),
        (String::from("rest"), String::from("  \r\n"))
    );
    assert_eq!(blank_line("x"), (String::from("x"), String::from("")));
}
