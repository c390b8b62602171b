use icon_library::error::{DecodeError, ErrorKind};
use icon_library::json::{find, locate, same_text, Json, Member, Number};
use icon_library::parse::parse;

fn number(text: &str) -> Number {
    Number { text: text.to_string() }
}

fn member(name: &str, value: Json) -> Member {
    Member { name: name.to_string(), value }
}

#[test]
fn parse_reads_scalars() {
    assert_eq!(parse("null"), Ok(Json::Null));
    assert_eq!(parse("true"), Ok(Json::Bool(true)));
    assert_eq!(parse("false"), Ok(Json::Bool(false)));
    assert_eq!(parse(r#""a\nb""#), Ok(Json::Text("a\nb".to_string())));
}

#[test]
fn parse_keeps_numbers_as_text() {
    assert_eq!(parse("12"), Ok(Json::Number(number("12"))));
    assert_eq!(parse("-7"), Ok(Json::Number(number("-7"))));
    assert_eq!(parse("0.5"), Ok(Json::Number(number("0.5"))));
    assert_eq!(parse("1.0"), Ok(Json::Number(number("1.0"))));
}

#[test]
fn parse_keeps_the_order_of_items() {
    assert_eq!(
        parse("[3, 1, 2]"),
        Ok(Json::Array(vec![
            Json::Number(number("3")),
            Json::Number(number("1")),
            Json::Number(number("2")),
        ]))
    );
}

#[test]
fn parse_reads_nested_objects() {
    assert_eq!(
        parse(r#"{"a": {"b": [null]}}"#),
        Ok(Json::Object(vec![member(
            "a",
            Json::Object(vec![member("b", Json::Array(vec![Json::Null]))])
        )]))
    );
}

#[test]
fn parse_keeps_the_last_of_repeated_members() {
    assert_eq!(
        parse(r#"{"a": 1, "a": 2}"#),
        Ok(Json::Object(vec![member("a", Json::Number(number("2")))]))
    );
}

#[test]
fn parse_refuses_text_that_is_not_well_formed() {
    let malformed = DecodeError { kind: ErrorKind::Malformed, path: vec![] };
    assert_eq!(parse(""), Err(DecodeError { kind: ErrorKind::Malformed, path: vec![] }));
    assert_eq!(parse("{"), Err(DecodeError { kind: ErrorKind::Malformed, path: vec![] }));
    assert_eq!(parse(r#"{"a": }"#), Err(DecodeError { kind: ErrorKind::Malformed, path: vec![] }));
    assert_eq!(parse("[1, 2"), Err(DecodeError { kind: ErrorKind::Malformed, path: vec![] }));
    assert_eq!(parse("nul"), Err(malformed));
}

#[test]
fn number_to_i32_reads_integers() {
    assert_eq!(number("0").to_i32(), Some(0));
    assert_eq!(number("42").to_i32(), Some(42));
    assert_eq!(number("-42").to_i32(), Some(-42));
    assert_eq!(number("-0").to_i32(), Some(0));
    assert_eq!(number("7").to_i32(), Some(7));
    assert_eq!(number("10").to_i32(), Some(10));
    assert_eq!(number("1234567890").to_i32(), Some(1234567890));
}

#[test]
fn number_to_i32_holds_the_range() {
    assert_eq!(number("2147483647").to_i32(), Some(i32::MAX));
    assert_eq!(number("2147483648").to_i32(), None);
    assert_eq!(number("-2147483648").to_i32(), Some(i32::MIN));
    assert_eq!(number("-2147483649").to_i32(), None);
    assert_eq!(number("99999999999999999999999999999999999999").to_i32(), None);
    assert_eq!(number("-99999999999999999999999999999999999999").to_i32(), None);
}

#[test]
fn number_to_i32_refuses_what_is_no_integer() {
    assert_eq!(number("").to_i32(), None);
    assert_eq!(number("-").to_i32(), None);
    assert_eq!(number("1.0").to_i32(), None);
    assert_eq!(number("1e2").to_i32(), None);
    assert_eq!(number("+1").to_i32(), None);
    assert_eq!(number("--1").to_i32(), None);
    assert_eq!(number("1-").to_i32(), None);
    assert_eq!(number(" 1").to_i32(), None);
    assert_eq!(number("١٢").to_i32(), None);
    assert_eq!(number("1é").to_i32(), None);
    assert_eq!(number("007").to_i32(), None);
    assert_eq!(number("-01").to_i32(), None);
    assert_eq!(number("00").to_i32(), None);
    assert_eq!(number("-0.0").to_i32(), None);
}

#[test]
fn number_is_well_formed_accepts_the_number_grammar() {
    for text in [
        "0", "-0", "7", "10", "-12", "0.5", "-0.5", "12.25", "1e5", "1E5", "1e+5", "1e-5",
        "1.5e300", "-1.5E-300", "0e0", "0.0", "-0.0", "123456789012345678901234567890",
    ] {
        assert!(number(text).is_well_formed(), "{}", text);
    }
}

#[test]
fn number_is_well_formed_refuses_everything_else() {
    for text in [
        "", "-", "+1", "01", "-01", "00", "1.", ".5", "-.5", "1.e5", "1e", "1e+", "1e-",
        "1e5.5", "1.5.5", "1ee5", "e5", "0x10", "1 ", " 1", "1,5", "NaN", "Infinity", "abc",
        "1٢", "١", "1é", "--1", "1-", "1e5e5", "1.5e", "-e5",
    ] {
        assert!(!number(text).is_well_formed(), "{}", text);
    }
}

#[test]
fn every_number_from_the_parser_is_well_formed() {
    for text in [
        "0", "-0", "1", "-1", "0.1", "1.0", "1e-7", "1E-7", "1e21", "1.5e300", "2.5E+3",
        "123456789012345678901234567890", "-9223372036854775808", "18446744073709551615",
        "0.000001", "1e100", "4.9e-324",
    ] {
        match parse(text).unwrap() {
            Json::Number(n) => assert!(n.is_well_formed(), "{} as {}", text, n.text),
            other => panic!("{} parsed as {:?}", text, other),
        }
    }
}

#[test]
fn number_copy_is_equal() {
    assert_eq!(number("0.25").copy(), number("0.25"));
}

#[test]
fn same_text_compares_letter_for_letter() {
    assert!(same_text("", ""));
    assert!(same_text("type", "type"));
    assert!(same_text("é√", "é√"));
    assert!(!same_text("type", "Type"));
    assert!(!same_text("type", "typ"));
    assert!(!same_text("typ", "type"));
    assert!(!same_text("a", "b"));
}

#[test]
fn locate_finds_the_last_member_of_a_name() {
    let members = vec![
        member("a", Json::Null),
        member("b", Json::Bool(true)),
        member("a", Json::Bool(false)),
    ];
    assert_eq!(locate(&members, "a"), Some(2));
    assert_eq!(locate(&members, "b"), Some(1));
    assert_eq!(locate(&members, "c"), None);
    assert_eq!(locate(&vec![], "a"), None);
}

#[test]
fn find_gives_the_value_of_the_last_member_of_a_name() {
    let members = vec![
        member("a", Json::Null),
        member("b", Json::Bool(true)),
        member("a", Json::Bool(false)),
    ];
    assert_eq!(find(&members, "a"), Some(&Json::Bool(false)));
    assert_eq!(find(&members, "b"), Some(&Json::Bool(true)));
    assert_eq!(find(&members, "A"), None);
}

#[test]
fn json_copy_is_equal() {
    let j = parse(r#"{"a": [1, "x", null, {"b": true}], "c": 0.5}"#).unwrap();
    assert_eq!(j.copy(), j);
    assert_eq!(Json::Null.copy(), Json::Null);
}
