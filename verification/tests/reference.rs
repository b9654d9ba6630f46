//! Tests for the workspace reference parser.

use niri_client::WorkspaceReferenceArg;

fn parse(s: &str) -> WorkspaceReferenceArg {
    WorkspaceReferenceArg::from_str(s).expect("reference parsing never fails")
}

#[test]
fn numeral_parses_as_id() {
    assert_eq!(parse("42"), WorkspaceReferenceArg::Id(42));
    assert_eq!(parse("0"), WorkspaceReferenceArg::Id(0));
}

#[test]
fn word_parses_as_name() {
    assert_eq!(parse("main"), WorkspaceReferenceArg::Name("main".to_owned()));
}

#[test]
fn negative_falls_back_to_name() {
    assert_eq!(parse("-1"), WorkspaceReferenceArg::Name("-1".to_owned()));
}

#[test]
fn plus_sign_is_accepted() {
    assert_eq!(parse("+7"), WorkspaceReferenceArg::Id(7));
}

#[test]
fn leading_zeros_are_accepted() {
    assert_eq!(parse("007"), WorkspaceReferenceArg::Id(7));
}

#[test]
fn largest_id_parses() {
    assert_eq!(
        parse("18446744073709551615"),
        WorkspaceReferenceArg::Id(u64::MAX)
    );
}

#[test]
fn overflowing_numeral_falls_back_to_name() {
    assert_eq!(
        parse("18446744073709551616"),
        WorkspaceReferenceArg::Name("18446744073709551616".to_owned())
    );
}

#[test]
fn empty_and_sign_only_are_names() {
    assert_eq!(parse(""), WorkspaceReferenceArg::Name(String::new()));
    assert_eq!(parse("+"), WorkspaceReferenceArg::Name("+".to_owned()));
}

#[test]
fn mixed_digits_and_letters_are_a_name() {
    assert_eq!(parse("4a"), WorkspaceReferenceArg::Name("4a".to_owned()));
    assert_eq!(parse("4 2"), WorkspaceReferenceArg::Name("4 2".to_owned()));
}
