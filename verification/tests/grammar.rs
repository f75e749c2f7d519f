use linda::chars::trim;
use linda::cmd::{Cmd, CmdKind, OrderKind};
use linda::errors::{NoSpecifiedOrderKindError, ParseCmdError};
use linda::parse_int::parse_i32;
use linda::record::Tr;
use linda::split::split_commas;
use linda::token::PartOfCmdKind;

fn word(s: &str) -> PartOfCmdKind {
    PartOfCmdKind::Word(String::from(s))
}

#[test]
fn income_line_builds_record() {
    let cmd = Cmd::from_line("&10,some word", 42).unwrap();
    assert_eq!(
        cmd.pack,
        vec![PartOfCmdKind::Mod('&'), PartOfCmdKind::Digit(10), word("some word")]
    );
    assert_eq!(cmd.created_at, 42);
    assert_eq!(
        cmd.kind_of(),
        Ok(Some(CmdKind::Order(OrderKind::Income)))
    );
    let tr = Tr::new(cmd).unwrap().unwrap();
    assert_eq!(
        tr,
        Tr { created_at: 42, tax: 10, category: String::from("some word") }
    );
}

#[test]
fn bad_first_character_is_malformed() {
    assert_eq!(Cmd::from_line("x100,10", 0), Err(ParseCmdError));
    assert_eq!(Cmd::from_line("100,10", 0), Err(ParseCmdError));
    assert_eq!(Cmd::from_line(" &10,a", 0), Err(ParseCmdError));
    assert_eq!(Cmd::from_line("", 0), Err(ParseCmdError));
    assert!(Cmd::from_str("!a,b").is_err());
    assert_eq!(
        ParseCmdError.message(),
        "The first character in the command line does not match the allowed characters"
    );
}

#[test]
fn plus_marker_fails_classification_loudly() {
    let cmd = Cmd::from_line("+10,word", 0).unwrap();
    assert_eq!(cmd.kind_of(), Err(NoSpecifiedOrderKindError));
    assert_eq!(Tr::new(cmd), Err(NoSpecifiedOrderKindError));
    assert_eq!(
        NoSpecifiedOrderKindError.message(),
        "There is no operation type for the specified command"
    );
}

#[test]
fn expense_classifies_but_yields_nothing() {
    let cmd = Cmd::from_line(">10,word", 0).unwrap();
    assert_eq!(cmd.kind_of(), Ok(Some(CmdKind::Order(OrderKind::Expense))));
    assert_eq!(cmd.to_sql(), Ok(None));
    assert_eq!(Tr::new(cmd), Ok(None));
}

#[test]
fn unmatched_shapes_are_no_operation() {
    // Two tokens only.
    let two = Cmd::from_line("&10", 0).unwrap();
    assert_eq!(two.kind_of(), Ok(None));
    // Second token is not a number.
    let text_second = Cmd::from_line("&a,b", 0).unwrap();
    assert_eq!(text_second.kind_of(), Ok(None));
    // Third token is a number, not a word.
    let num_third = Cmd::from_line("&1,2", 0).unwrap();
    assert_eq!(num_third.kind_of(), Ok(None));
    // Four tokens: a field beyond the word slot breaks the shape.
    let four = Cmd::from_line("&100,10,some word", 0).unwrap();
    assert_eq!(
        four.pack,
        vec![
            PartOfCmdKind::Mod('&'),
            PartOfCmdKind::Digit(100),
            PartOfCmdKind::Digit(10),
            word("some word"),
        ]
    );
    assert_eq!(four.kind_of(), Ok(None));
    assert_eq!(four.to_sql(), Ok(None));
    assert_eq!(Tr::new(four), Ok(None));
}

#[test]
fn marker_only_line_has_one_token() {
    let cmd = Cmd::from_line("&", 0).unwrap();
    assert_eq!(cmd.pack, vec![PartOfCmdKind::Mod('&')]);
    assert_eq!(cmd.kind_of(), Ok(None));
}

#[test]
fn fields_are_trimmed_and_typed() {
    let cmd = Cmd::from_line("& 10 ,  spaced words  ", 7).unwrap();
    assert_eq!(
        cmd.pack,
        vec![PartOfCmdKind::Mod('&'), PartOfCmdKind::Digit(10), word("spaced words")]
    );
    let empties = Cmd::from_line("&,", 0).unwrap();
    assert_eq!(empties.pack, vec![PartOfCmdKind::Mod('&'), word(""), word("")]);
    let inner_space = Cmd::from_line("&1 2,x", 0).unwrap();
    assert_eq!(
        inner_space.pack,
        vec![PartOfCmdKind::Mod('&'), word("1 2"), word("x")]
    );
}

#[test]
fn integer_fields_follow_i32_parsing() {
    assert_eq!(parse_i32("10"), Some(10));
    assert_eq!(parse_i32("-5"), Some(-5));
    assert_eq!(parse_i32("+7"), Some(7));
    assert_eq!(parse_i32("007"), Some(7));
    assert_eq!(parse_i32("0"), Some(0));
    assert_eq!(parse_i32("2147483647"), Some(i32::MAX));
    assert_eq!(parse_i32("-2147483648"), Some(i32::MIN));
    assert_eq!(parse_i32("2147483648"), None);
    assert_eq!(parse_i32("-2147483649"), None);
    assert_eq!(parse_i32("99999999999999999999"), None);
    assert_eq!(parse_i32(""), None);
    assert_eq!(parse_i32("+"), None);
    assert_eq!(parse_i32("-"), None);
    assert_eq!(parse_i32("1 2"), None);
    assert_eq!(parse_i32("12a"), None);
    assert_eq!(parse_i32(" 5"), None);
    // The same typing drives tokenization.
    let cmd = Cmd::from_line("&-5,x", 0).unwrap();
    assert_eq!(
        cmd.pack,
        vec![PartOfCmdKind::Mod('&'), PartOfCmdKind::Digit(-5), word("x")]
    );
    let overflow = Cmd::from_line("&2147483648,x", 0).unwrap();
    assert_eq!(
        overflow.pack,
        vec![PartOfCmdKind::Mod('&'), word("2147483648"), word("x")]
    );
}

#[test]
fn trim_strips_surrounding_whitespace() {
    assert_eq!(trim("  a b  "), "a b");
    assert_eq!(trim(""), "");
    assert_eq!(trim("   "), "");
    assert_eq!(trim("\t x \r\n"), "x");
    assert_eq!(trim("\u{3000}x\u{a0}"), "x");
    assert_eq!(trim("inner  kept"), "inner  kept");
}

#[test]
fn split_commas_keeps_empty_fields() {
    let parts = split_commas("a,b,,c");
    assert_eq!(parts, vec!["a", "b", "", "c"]);
    assert_eq!(split_commas(""), vec![""]);
    assert_eq!(split_commas(",,"), vec!["", "", ""]);
    assert_eq!(split_commas("no separator"), vec!["no separator"]);
}

#[test]
fn from_str_tokenizes_like_from_line() {
    let cmd = Cmd::from_str("&10,x").unwrap();
    assert_eq!(
        cmd.pack,
        vec![PartOfCmdKind::Mod('&'), PartOfCmdKind::Digit(10), word("x")]
    );
    assert!(Cmd::from_str("").is_err());
}

#[test]
fn token_extraction_returns_carried_values() {
    let d = PartOfCmdKind::Digit(-3);
    assert_eq!(d.unwrap_digit(), -3);
    let got: i32 = d.unwrap();
    assert_eq!(got, -3);
    let w = word("pay");
    assert_eq!(w.unwrap_word(), "pay");
    let got: String = w.unwrap();
    assert_eq!(got, "pay");
}
