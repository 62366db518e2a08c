use schema_generator::error::EmitError;
use schema_generator::source::Member;
use schema_generator::syntax::{
    check_identifier, holds_slash, is_identifier, is_plain_name, is_type_text, Identifier,
    TypeText,
};
use schema_generator::table::Table;

#[test]
fn plain_names_are_identifiers() {
    for name in ["user_id", "User", "_private", "a1", "InterestForUser", "__", "caf\u{e9}"] {
        assert!(is_identifier(name), "{name}");
    }
}

#[test]
fn malformed_names_are_no_identifiers() {
    for name in
        ["", "1abc", "user id", "user-id", "a.b", "a;", "\"x\"", "42", "a b c", "(a)", "r#type", "a$"]
    {
        assert!(!is_identifier(name), "{name}");
    }
}

#[test]
fn reserved_words_are_no_identifiers() {
    for name in ["type", "struct", "fn", "self", "Self", "_", "match", "async"] {
        assert!(!is_identifier(name), "{name}");
    }
}

#[test]
fn blanks_and_comments_do_not_spell_an_identifier() {
    for name in [" user_id", "user_id ", "user_id\n", "user_id // note", "/* note */ user_id"] {
        assert!(!is_identifier(name), "{name:?}");
    }
}

#[test]
fn rejected_identifier_is_reported_by_name() {
    assert!(check_identifier("username").is_none());
    match check_identifier("user name") {
        Some(EmitError::InvalidIdentifier(name)) => assert_eq!(name, "user name"),
        other => panic!("{other:?}"),
    }
}

#[test]
fn type_texts_are_told_from_other_text() {
    for text in ["i32", "Option<u32>", "Vec<Vec<u8>>", "DateTime<Utc>", "Option<Vec<String>>"] {
        assert_eq!(TypeText::parse(text).unwrap().as_str(), text);
    }
    for text in ["", "Vec<", "Option<u32>>", "let x", "i32 i32", "1"] {
        assert!(TypeText::parse(text).is_err(), "{text}");
    }
}

#[test]
fn rejected_type_is_reported_by_text() {
    match TypeText::parse("Vec<") {
        Err(EmitError::InvalidType(text)) => assert_eq!(text, "Vec<"),
        other => panic!("{other:?}"),
    }
}

#[test]
fn checked_identifier_keeps_its_spelling() {
    assert_eq!(Identifier::parse("user_id").unwrap().as_str(), "user_id");
    match Identifier::parse(" user_id") {
        Err(EmitError::InvalidIdentifier(name)) => assert_eq!(name, " user_id"),
        other => panic!("{other:?}"),
    }
}

#[test]
fn column_names_are_spelled_as_literals() {
    let members = vec![
        Member { name: Identifier::parse("plain").unwrap(), typ: TypeText::parse("i32").unwrap() },
        Member { name: Identifier::parse("caf\u{e9}").unwrap(), typ: TypeText::parse("i32").unwrap() },
    ];
    let text = Table::create_from_row_function(&Identifier::parse("T").unwrap(), &members);
    assert!(text.contains("plain: row.get(\"plain\"),\n"));
    assert!(text.contains("caf\u{e9}: row.get(\"caf\u{e9}\"),\n"));
}

#[test]
fn plain_names_hold_only_letters_digits_and_underscores() {
    for name in ["a", "A9", "_", "user_id", "type", "caf\u{e9}", "\u{4e2d}\u{6587}"] {
        assert!(is_plain_name(name), "{name}");
    }
    for name in ["", "9a", "a b", "a(", "a)", "a,", "a;", "a\"", "a'", "a/", "a\n", "a\t", "a-b", "a#"] {
        assert!(!is_plain_name(name), "{name:?}");
    }
}

#[test]
fn names_beyond_ascii_are_left_to_the_identifier_rules() {
    assert!(is_plain_name("a\u{a0}b"));
    assert!(!is_identifier("a\u{a0}b"));
    assert!(is_plain_name("a\u{2014}b"));
    assert!(!is_identifier("a\u{2014}b"));
}

#[test]
fn slashes_are_found_wherever_they_stand() {
    assert!(!holds_slash(""));
    assert!(!holds_slash("Vec<u8>"));
    assert!(holds_slash("/"));
    assert!(holds_slash("i32 // x"));
    assert!(holds_slash("caf\u{e9}/"));
}

#[test]
fn type_text_with_a_slash_is_no_type() {
    assert!(is_type_text("Option<Vec<String>>"));
    assert!(!is_type_text("i32 // x"));
    assert!(!is_type_text("i32 /* x */"));
    assert!(!is_type_text("Vec<"));
}
