use openai_rst::error::{APIError, ErrorKind};
use openai_rst::json::Json;

fn s(text: &str) -> String {
    text.to_string()
}

#[test]
fn parse_reads_every_kind_of_value() {
    assert_eq!(Json::parse("null"), Ok(Json::Null));
    assert_eq!(Json::parse("true"), Ok(Json::Bool(true)));
    assert_eq!(Json::parse("false"), Ok(Json::Bool(false)));
    assert_eq!(Json::parse("42"), Ok(Json::Int(42)));
    assert_eq!(Json::parse("-7"), Ok(Json::Int(-7)));
    assert_eq!(Json::parse("\"hi\""), Ok(Json::Text(s("hi"))));
    assert_eq!(Json::parse("[1, \"a\", null]"), Ok(Json::List(vec![
        Json::Int(1),
        Json::Text(s("a")),
        Json::Null
    ])));
    assert_eq!(
        Json::parse("{\"a\": 1}"),
        Ok(Json::Object(vec![(s("a"), Json::Int(1))]))
    );
}

#[test]
fn parse_keeps_the_limits_of_64_bit_integers() {
    assert_eq!(Json::parse("9223372036854775807"), Ok(Json::Int(i64::MAX)));
    assert_eq!(Json::parse("-9223372036854775808"), Ok(Json::Int(i64::MIN)));
}

#[test]
fn parse_keeps_other_numbers_as_text() {
    assert_eq!(Json::parse("1.5"), Ok(Json::Decimal(s("1.5"))));
    assert_eq!(
        Json::parse("18446744073709551615"),
        Ok(Json::Decimal(s("18446744073709551615")))
    );
}

#[test]
fn parse_reads_nested_documents() {
    let document = Json::parse("{\"outer\": {\"inner\": [true, {\"x\": \"y\"}]}}").unwrap();
    let outer = document.get("outer").unwrap();
    let inner = outer.get("inner").unwrap().as_list().unwrap();
    assert_eq!(inner.len(), 2);
    assert_eq!(inner[0], Json::Bool(true));
    assert_eq!(inner[1].get("x"), Some(&Json::Text(s("y"))));
}

#[test]
fn parse_understands_escapes() {
    assert_eq!(Json::parse("\"a\\n\\u0041\\\"\""), Ok(Json::Text(s("a\nA\""))));
}

#[test]
fn parse_refuses_what_is_not_json() {
    for text in ["", "{", "{\"a\": }", "[1, 2", "nul", "{'a': 1}", "1 2"] {
        match Json::parse(text) {
            Err(APIError::DecodeError(_)) => {}
            other => panic!("{:?} gave {:?}", text, other),
        }
    }
    assert_eq!(Json::parse("not json").unwrap_err().kind(), ErrorKind::Decode);
}

#[test]
fn a_member_that_occurs_twice_counts_once_with_its_last_value() {
    let document = Json::parse("{\"a\": 1, \"a\": 2}").unwrap();
    assert_eq!(document.get("a"), Some(&Json::Int(2)));
    assert_eq!(document, Json::Object(vec![(s("a"), Json::Int(2))]));
}

#[test]
fn get_finds_the_last_member_of_a_name() {
    let document = Json::Object(vec![
        (s("a"), Json::Int(1)),
        (s("b"), Json::Int(2)),
        (s("a"), Json::Int(3)),
    ]);
    assert_eq!(document.get("a"), Some(&Json::Int(3)));
    assert_eq!(document.get("b"), Some(&Json::Int(2)));
    assert_eq!(document.get("c"), None);
}

#[test]
fn only_objects_have_members() {
    assert_eq!(Json::Null.get("a"), None);
    assert_eq!(Json::Text(s("a")).get("a"), None);
    assert_eq!(Json::List(vec![Json::Text(s("a"))]).get("a"), None);
    assert_eq!(Json::Object(vec![]).get("a"), None);
}

#[test]
fn the_typed_readers_of_a_value() {
    assert!(Json::Null.is_null());
    assert!(!Json::Int(0).is_null());
    assert_eq!(Json::Text(s("x")).as_text(), Some(&s("x")));
    assert_eq!(Json::Int(1).as_text(), None);
    assert_eq!(Json::Int(5).as_int(), Some(5));
    assert_eq!(Json::Decimal(s("5.0")).as_int(), None);
    assert_eq!(Json::Text(s("5")).as_int(), None);
    assert_eq!(Json::Bool(true).as_bool(), Some(true));
    assert_eq!(Json::Int(1).as_bool(), None);
    assert_eq!(Json::List(vec![Json::Null]).as_list(), Some(&vec![Json::Null]));
    assert_eq!(Json::Object(vec![]).as_list(), None);
    assert_eq!(Json::text("abc"), Json::Text(s("abc")));
}

#[test]
fn a_32_bit_reader_checks_the_range() {
    assert_eq!(Json::Int(2147483647).as_i32(), Some(i32::MAX));
    assert_eq!(Json::Int(-2147483648).as_i32(), Some(i32::MIN));
    assert_eq!(Json::Int(2147483648).as_i32(), None);
    assert_eq!(Json::Int(-2147483649).as_i32(), None);
    assert_eq!(Json::Text(s("1")).as_i32(), None);
}

#[test]
fn a_copy_of_a_document_is_equal_to_it() {
    let document = Json::parse("{\"a\":[1,2.5,{\"b\":null}],\"c\":\"d\",\"e\":true}").unwrap();
    assert_eq!(document.duplicate(), document);
    assert_eq!(document.clone(), document);
    assert_eq!(Json::Null.duplicate(), Json::Null);
}

#[test]
fn the_errors_of_decoding_name_what_is_wrong() {
    assert_eq!(
        openai_rst::json::bad_field("status"),
        APIError::DecodeError(s("missing or invalid field: status"))
    );
    assert_eq!(
        openai_rst::json::bad_value("Model"),
        APIError::DecodeError(s("unexpected value for Model"))
    );
}
