use iaqualink::{DecodeError, Json, Number};

fn text(s: &str) -> Json {
    Json::String(s.to_string())
}

fn unsigned(n: u64) -> Json {
    Json::Number(Number::Unsigned(n))
}

#[test]
fn parse_reads_null_and_booleans() {
    assert_eq!(Json::parse(b"null"), Ok(Json::Null));
    assert_eq!(Json::parse(b"true"), Ok(Json::Bool(true)));
    assert_eq!(Json::parse(b" false "), Ok(Json::Bool(false)));
}

#[test]
fn parse_reads_integers_from_zero_up() {
    assert_eq!(Json::parse(b"0"), Ok(unsigned(0)));
    assert_eq!(Json::parse(b"1686511306"), Ok(unsigned(1686511306)));
    assert_eq!(Json::parse(b"18446744073709551615"), Ok(unsigned(u64::MAX)));
}

#[test]
fn parse_reads_integers_below_zero() {
    assert_eq!(Json::parse(b"-1"), Ok(Json::Number(Number::Negative(-1))));
    assert_eq!(Json::parse(b"-94"), Ok(Json::Number(Number::Negative(-94))));
    assert_eq!(Json::parse(b"-9223372036854775808"), Ok(Json::Number(Number::Negative(i64::MIN))));
}

#[test]
fn parse_keeps_other_numbers_as_their_text() {
    assert_eq!(Json::parse(b"1.5"), Ok(Json::Number(Number::Real("1.5".to_string()))));
    assert_eq!(Json::parse(b"-0.25"), Ok(Json::Number(Number::Real("-0.25".to_string()))));
}

#[test]
fn parse_reads_strings() {
    assert_eq!(Json::parse(b"\"\""), Ok(text("")));
    assert_eq!(Json::parse(b"\"Water temp\""), Ok(text("Water temp")));
    assert_eq!(Json::parse(b"\"a\\nb\\u00e9\""), Ok(text("a\nb\u{e9}")));
}

#[test]
fn parse_reads_the_items_of_an_array_in_order() {
    assert_eq!(Json::parse(b"[]"), Ok(Json::Array(vec![])));
    assert_eq!(
        Json::parse(b"[1, \"x\", [true], null]"),
        Ok(Json::Array(vec![unsigned(1), text("x"), Json::Array(vec![Json::Bool(true)]), Json::Null]))
    );
}

#[test]
fn parse_reads_the_members_of_an_object() {
    assert_eq!(Json::parse(b"{}"), Ok(Json::Object(vec![])));
    assert_eq!(
        Json::parse(b"{\"a\": {\"c\": [true]}, \"b\": 1}"),
        Ok(Json::Object(vec![
            ("a".to_string(), Json::Object(vec![("c".to_string(), Json::Array(vec![Json::Bool(true)]))])),
            ("b".to_string(), unsigned(1)),
        ]))
    );
}

#[test]
fn parse_hands_out_each_name_of_an_object_once() {
    let parsed = Json::parse(b"{\"b\": 1, \"a\": 2, \"b\": 3}").unwrap();
    match parsed {
        Json::Object(members) => {
            assert_eq!(members.len(), 2);
            assert_eq!(iaqualink::find(&members, "a"), Some(&unsigned(2)));
            assert_eq!(iaqualink::find(&members, "b"), Some(&unsigned(3)));
            assert_eq!(iaqualink::find(&members, "c"), None);
        },
        other => panic!("not an object: {:?}", other),
    }
}

#[test]
fn parse_refuses_what_is_no_json() {
    assert_eq!(Json::parse(b""), Err(DecodeError::Syntax));
    assert_eq!(Json::parse(b"{"), Err(DecodeError::Syntax));
    assert_eq!(Json::parse(b"[1,]"), Err(DecodeError::Syntax));
    assert_eq!(Json::parse(b"nul"), Err(DecodeError::Syntax));
    assert_eq!(Json::parse(b"{\"a\": 1} x"), Err(DecodeError::Syntax));
    assert_eq!(Json::parse(&[0x22, 0xff, 0x22]), Err(DecodeError::Syntax));
}

#[test]
fn find_takes_the_first_member_of_a_name() {
    let members = vec![
        ("a".to_string(), unsigned(1)),
        ("b".to_string(), unsigned(2)),
        ("a".to_string(), unsigned(3)),
    ];
    assert_eq!(iaqualink::find(&members, "a"), Some(&unsigned(1)));
    assert_eq!(iaqualink::find(&members, "b"), Some(&unsigned(2)));
    assert_eq!(iaqualink::find(&members, ""), None);
}

#[test]
fn a_copy_of_a_document_equals_it() {
    let doc = Json::parse(b"{\"a\": [1, -2, 3.5, \"x\", null, {\"b\": false}]}").unwrap();
    assert_eq!(doc.clone(), doc);
}
