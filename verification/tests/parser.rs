use mini_ledger::parser::Amount;
use mini_ledger::parser::Date;
use mini_ledger::parser::LedgerItem;
use mini_ledger::parser::LedgerParser;
use mini_ledger::parser::Posting;
use mini_ledger::parser::Status;
use mini_ledger::parser::Transaction;
use mini_ledger::parser::TransactionHeader;
use mini_ledger::parser::amount_unit;
use mini_ledger::parser::assign_amount;
use mini_ledger::parser::blank_line;
use mini_ledger::parser::code;
use mini_ledger::parser::date;
use mini_ledger::parser::decimal;
use mini_ledger::parser::posting;
use mini_ledger::parser::transaction;
use mini_ledger::parser::transaction_header;

#[test]
fn parse_date() {
    assert_eq!(
        date("2021/12/23"),
        Ok((String::from(""), Date::from_ymd(2021, 12, 23)))
    );
    assert_eq!(
        date("2020/05/23"),
        Ok((String::from(""), Date::from_ymd(2020, 05, 23)))
    );
    assert_eq!(
        date("2020-01-04"),
        Ok((String::from(""), Date::from_ymd(2020, 01, 04)))
    );
}

#[test]
fn parse_code() {
    assert_eq!(code("(302)"), Ok((String::from(""), String::from("302"))));
}

#[test]
fn parse_simple_transaction_header() {
    assert_eq!(
        transaction_header("2020-11-30 * Withdraw\n    "),
        Ok((
            String::from("    "),
            TransactionHeader {
                date: Date::from_ymd(2020, 11, 30),
                edate: None,
                status: Status::Cleared,
                code: None,
                description: String::from("Withdraw"),
                comment: None,
            }
        ))
    );
    assert_eq!(
        transaction_header("2020-11-30 ! Withdraw   \n"),
        Ok((
            String::from(""),
            TransactionHeader {
                date: Date::from_ymd(2020, 11, 30),
                edate: None,
                status: Status::Pending,
                code: None,
                description: String::from("Withdraw   "),
                comment: None,
            }
        ))
    );
    assert_eq!(
        transaction_header("2020-11-30 Withdraw ; comment\n"),
        Ok((
            String::from(""),
            TransactionHeader {
                date: Date::from_ymd(2020, 11, 30),
                edate: None,
                status: Status::Uncleared,
                code: None,
                description: String::from("Withdraw "),
                comment: Some(String::from("comment")),
            }
        ))
    );
}

#[test]
fn parse_transaction_header_with_edate() {
    assert_eq!(
        transaction_header("2020-11-30=2020-12-14 * Withdraw"),
        Ok((
            String::from(""),
            TransactionHeader {
                date: Date::from_ymd(2020, 11, 30),
                edate: Some(Date::from_ymd(2020, 12, 14)),
                status: Status::Cleared,
                code: None,
                description: String::from("Withdraw"),
                comment: None,
            }
        ))
    );
}

#[test]
fn parse_transaction_header_with_code() {
    assert_eq!(
        transaction_header("2020-11-30 * (#100) Withdraw"),
        Ok((
            String::from(""),
            TransactionHeader {
                date: Date::from_ymd(2020, 11, 30),
                edate: None,
                status: Status::Cleared,
                code: Some(String::from("#100")),
                description: String::from("Withdraw"),
                comment: None,
            }
        ))
    );
}

#[test]
fn parse_transaction_header_with_full_options() {
    assert_eq!(
        transaction_header("2020-11-30=2020-12-11 * (#100) Withdraw ; modified\n    Assets"),
        Ok((
            String::from("    Assets"),
            TransactionHeader {
                date: Date::from_ymd(2020, 11, 30),
                edate: Some(Date::from_ymd(2020, 12, 11)),
                status: Status::Cleared,
                code: Some(String::from("#100")),
                description: String::from("Withdraw "),
                comment: Some(String::from("modified")),
            }
        ))
    );
}

#[test]
fn parse_decimal_values() {
    assert_eq!(decimal("1000"), Ok((String::from(""), String::from("1000"))));
    assert_eq!(decimal("-9900"), Ok((String::from(""), String::from("-9900"))));
    assert_eq!(decimal("+10.49"), Ok((String::from(""), String::from("+10.49"))));
}

#[test]
fn parse_plain_amount() {
    assert_eq!(
        amount_unit("0"),
        Ok((String::from(""), Amount::from_str("0", "").unwrap()))
    );
    assert_eq!(
        amount_unit("11.0"),
        Ok((String::from(""), Amount::from_str("11.0", "").unwrap()))
    );
}

#[test]
fn parse_unit_amount() {
    assert_eq!(
        amount_unit("320 JPY"),
        Ok((String::from(""), Amount::from_str("320", "JPY").unwrap()))
    );
    assert_eq!(
        amount_unit("-12.5 JPY"),
        Ok((String::from(""), Amount::from_str("-12.5", "JPY").unwrap()))
    );
    assert_eq!(
        amount_unit("1000 VTI"),
        Ok((String::from(""), Amount::from_str("1000", "VTI").unwrap()))
    );
}

#[test]
fn parse_assign_amount() {
    assert_eq!(
        assign_amount("= 100 JPY"),
        Ok((String::from(""), Amount::from_str("100", "JPY").unwrap()))
    );
    assert_eq!(
        assign_amount("= 0"),
        Ok((String::from(""), Amount::from_str("0", "").unwrap()))
    );
}

#[test]
fn parse_normal_posting() {
    assert_eq!(
        posting("    Assets:Cash 100.05 EUR\n"),
        Ok((
            String::from(""),
            Posting {
                account: String::from("Assets:Cash"),
                amount: Some(Amount::from_str("100.05", "EUR").unwrap()),
                assign: None,
                cost: None,
                comment: None,
            }
        ))
    );
    assert_eq!(
        posting("    Assets:Cash 3000 JPY   "),
        Ok((
            String::from(""),
            Posting {
                account: String::from("Assets:Cash"),
                amount: Some(Amount::from_str("3000", "JPY").unwrap()),
                assign: None,
                cost: None,
                comment: None,
            }
        ))
    );
    assert_eq!(
        posting("    Liabilities:CreditCard -3000 JPY ; comment"),
        Ok((
            String::from(""),
            Posting {
                account: String::from("Liabilities:CreditCard"),
                amount: Some(Amount::from_str("-3000", "JPY").unwrap()),
                assign: None,
                cost: None,
                comment: Some(String::from("comment")),
            }
        ))
    );
}

#[test]
fn parse_assign_posting() {
    assert_eq!(
        posting("    Assets:Cash    500 JPY = 3000 JPY\n"),
        Ok((
            String::from(""),
            Posting {
                account: String::from("Assets:Cash"),
                amount: Some(Amount::from_str("500", "JPY").unwrap()),
                assign: Some(Amount::from_str("3000", "JPY").unwrap()),
                cost: None,
                comment: None,
            }
        ))
    );
    assert_eq!(
        posting("    Assets:Cash    =0 ; balance the cash\n"),
        Ok((
            String::from(""),
            Posting {
                account: String::from("Assets:Cash"),
                amount: None,
                assign: Some(Amount::from_str("0", "").unwrap()),
                cost: None,
                comment: Some(String::from("balance the cash")),
            }
        ))
    );
}

#[test]
fn parse_posting_with_cost() {
    assert_eq!(
        posting("    Assets:ETF     1 VTI @ 12300 JPY\n"),
        Ok((
            String::from(""),
            Posting {
                account: String::from("Assets:ETF"),
                amount: Some(Amount::from_str("1", "VTI").unwrap()),
                assign: None,
                cost: Some(Amount::from_str("12300", "JPY").unwrap()),
                comment: None,
            }
        ))
    );
}

#[test]
fn parse_elided_posting() {
    assert_eq!(
        posting("    Assets:Cash"),
        Ok((
            String::from(""),
            Posting {
                account: String::from("Assets:Cash"),
                amount: None,
                assign: None,
                cost: None,
                comment: None,
            }
        ))
    );
}

#[test]
fn parse_posting_without_indent() {
    assert!(posting("Assets:Cash").is_err());
}

#[test]
fn parse_simple_transaction() {
    let s = "2021-09-16 * 引き出し\n    資産:現金           1000 JPY\n    資産:普通預金:JP    -1000 JPY";
    assert_eq!(
        transaction(s),
        Ok((
            String::from(""),
            Transaction {
                header: TransactionHeader {
                    date: Date::from_ymd(2021, 9, 16),
                    edate: None,
                    status: Status::Cleared,
                    code: None,
                    description: String::from("引き出し"),
                    comment: None,
                },
                posting: vec![
                    Posting {
                        account: String::from("資産:現金"),
                        amount: Amount::from_str("1000", "JPY").ok(),
                        assign: None,
                        cost: None,
                        comment: None,
                    },
                    Posting {
                        account: String::from("資産:普通預金:JP"),
                        amount: Amount::from_str("-1000", "JPY").ok(),
                        assign: None,
                        cost: None,
                        comment: None,
                    },
                ],
            }
        ))
    );
}

#[test]
fn parse_transaction_with_three_postings() {
    let s = "2021-09-20 * Tomod's\n    費用:食費           500 JPY\n    費用:消耗品費       1000 JPY\n    資産:現金\n";
    assert_eq!(
        transaction(s),
        Ok((
            String::from(""),
            Transaction {
                header: TransactionHeader {
                    date: Date::from_ymd(2021, 9, 20),
                    edate: None,
                    status: Status::Cleared,
                    code: None,
                    description: String::from("Tomod's"),
                    comment: None,
                },
                posting: vec![
                    Posting {
                        account: String::from("費用:食費"),
                        amount: Amount::from_str("500", "JPY").ok(),
                        assign: None,
                        cost: None,
                        comment: None,
                    },
                    Posting {
                        account: String::from("費用:消耗品費"),
                        amount: Amount::from_str("1000", "JPY").ok(),
                        assign: None,
                        cost: None,
                        comment: None,
                    },
                    Posting {
                        account: String::from("資産:現金"),
                        amount: None,
                        assign: None,
                        cost: None,
                        comment: None,
                    },
                ],
            }
        ))
    );
}

#[test]
fn test_blank_line() {
    assert_eq!(blank_line("\n"), (String::from(""), String::from("\n")));
    assert_eq!(blank_line("  \n"), (String::from(""), String::from("  \n")));
    assert_eq!(blank_line("\t\t\n2020"), (String::from("2020"), String::from("\t\t\n")));
}

#[test]
fn test_ledger_parser() {
    let ledger = "\n2021-01-01 * 開始残高\n    純資産:元入金               10000 JPY\n    負債:クレジットカード       -50000 JPY\n    資産:普通預金               50000 JPY\n    資産:現金                   10000 JPY\n";
    let mut parser = LedgerParser::new(ledger);

    assert_eq!(parser.next(), Some(Ok(LedgerItem::Blank)));

    let item = parser.next();
    println!("{:?}", item);
}
