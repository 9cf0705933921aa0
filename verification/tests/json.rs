use gmo_coin::json::{put, JsonValue};
use gmo_coin::request::{query_pairs, value_to_query_string};

fn text(value: &str) -> JsonValue {
    JsonValue::String(String::from(value))
}

fn field(key: &str, value: JsonValue) -> (String, JsonValue) {
    (String::from(key), value)
}

#[test]
fn parse_reads_each_kind_of_value() {
    assert_eq!(JsonValue::parse("null"), Some(JsonValue::Null));
    assert_eq!(JsonValue::parse("true"), Some(JsonValue::Bool(true)));
    assert_eq!(JsonValue::parse("false"), Some(JsonValue::Bool(false)));
    assert_eq!(JsonValue::parse("0"), Some(JsonValue::Number(0)));
    assert_eq!(JsonValue::parse("18446744073709551615"), Some(JsonValue::Number(u64::MAX)));
    assert_eq!(JsonValue::parse("\"a\\nb\""), Some(text("a\nb")));
    assert_eq!(
        JsonValue::parse(" [1, \"x\", null] "),
        Some(JsonValue::Array(vec![JsonValue::Number(1), text("x"), JsonValue::Null]))
    );
    assert_eq!(
        JsonValue::parse("{\"b\":{\"c\":[]},\"a\":1}"),
        Some(JsonValue::Object(vec![
            field("a", JsonValue::Number(1)),
            field("b", JsonValue::Object(vec![field("c", JsonValue::Array(vec![]))])),
        ]))
    );
}

#[test]
fn parse_refuses_what_is_no_document() {
    assert_eq!(JsonValue::parse(""), None);
    assert_eq!(JsonValue::parse("{"), None);
    assert_eq!(JsonValue::parse("{\"a\":1,}"), None);
    assert_eq!(JsonValue::parse("[1] x"), None);
    assert_eq!(JsonValue::parse("<html></html>"), None);
}

#[test]
fn parse_refuses_numbers_that_are_no_unsigned_integers() {
    assert_eq!(JsonValue::parse("-1"), None);
    assert_eq!(JsonValue::parse("1.5"), None);
    assert_eq!(JsonValue::parse("1e3"), None);
    assert_eq!(JsonValue::parse("18446744073709551616"), None);
    assert_eq!(JsonValue::parse("{\"a\":[1,-2]}"), None);
}

#[test]
fn to_string_writes_compact_text_with_sorted_keys() {
    let value = JsonValue::Object(vec![
        field("symbol", text("BTC")),
        field("page", JsonValue::Number(1)),
        field("list", JsonValue::Array(vec![JsonValue::Bool(false), JsonValue::Null])),
    ]);
    assert_eq!(value.to_string(), "{\"list\":[false,null],\"page\":1,\"symbol\":\"BTC\"}");
    assert_eq!(JsonValue::Null.to_string(), "null");
    assert_eq!(JsonValue::Number(u64::MAX).to_string(), "18446744073709551615");
    assert_eq!(text("a\"b\\c\n").to_string(), "\"a\\\"b\\\\c\\n\"");
    assert_eq!(JsonValue::Array(vec![]).to_string(), "[]");
    assert_eq!(JsonValue::Object(vec![]).to_string(), "{}");
}

#[test]
fn a_later_field_hides_an_earlier_one_with_its_key() {
    let value = JsonValue::Object(vec![
        field("a", JsonValue::Number(1)),
        field("b", JsonValue::Number(2)),
        field("a", JsonValue::Number(3)),
    ]);
    assert_eq!(value.get("a"), Some(&JsonValue::Number(3)));
    assert_eq!(value.get("b"), Some(&JsonValue::Number(2)));
    assert_eq!(value.get("c"), None);
    assert_eq!(value.to_string(), "{\"a\":3,\"b\":2}");
}

#[test]
fn parsing_what_was_written_gives_the_document_back() {
    let value = JsonValue::Object(vec![
        field("data", JsonValue::Array(vec![JsonValue::Number(7), text("é\u{1F600}")])),
        field("status", JsonValue::Number(0)),
    ]);
    assert_eq!(JsonValue::parse(&value.to_string()), Some(value));
}

#[test]
fn accessors_tell_the_kinds_apart() {
    let object = JsonValue::Object(vec![
        field("name", text("x")),
        field("id", JsonValue::Number(12)),
        field("big", JsonValue::Number(u64::MAX)),
    ]);
    assert_eq!(object.get("name"), Some(&text("x")));
    assert_eq!(object.get("id"), Some(&JsonValue::Number(12)));
    assert_eq!(object.get("missing"), None);
    assert_eq!(text("x").as_str(), Some("x"));
    assert_eq!(JsonValue::Number(1).as_str(), None);
    assert_eq!(JsonValue::Number(1).as_u64(), Some(1));
    assert_eq!(JsonValue::Null.as_u64(), None);
    assert_eq!(JsonValue::Array(vec![JsonValue::Null]).as_array(), Some(&vec![JsonValue::Null]));
    assert_eq!(object.as_array(), None);
    assert_eq!(text("x").get("name"), None);
}

#[test]
fn constructors_and_put_build_documents() {
    let mut fields = Vec::new();
    put(&mut fields, "a", JsonValue::number(1));
    put(&mut fields, "b", JsonValue::text("x"));
    put(&mut fields, "c", JsonValue::string(String::from("y")));
    put(&mut fields, "d", JsonValue::array(vec![JsonValue::Null]));
    let value = JsonValue::object(fields);
    assert_eq!(
        value,
        JsonValue::Object(vec![
            field("a", JsonValue::Number(1)),
            field("b", text("x")),
            field("c", text("y")),
            field("d", JsonValue::Array(vec![JsonValue::Null])),
        ])
    );
    assert_eq!(value.clone(), value);
}

#[test]
fn value_to_query_string_follows_the_kind() {
    assert_eq!(value_to_query_string(&JsonValue::Null), None);
    assert_eq!(value_to_query_string(&JsonValue::Bool(true)), Some(String::from("true")));
    assert_eq!(value_to_query_string(&JsonValue::Bool(false)), Some(String::from("false")));
    assert_eq!(value_to_query_string(&JsonValue::Number(0)), Some(String::from("0")));
    assert_eq!(
        value_to_query_string(&JsonValue::Number(u64::MAX)),
        Some(String::from("18446744073709551615"))
    );
    assert_eq!(value_to_query_string(&text("BTC_JPY")), Some(String::from("BTC_JPY")));
    assert_eq!(value_to_query_string(&JsonValue::Object(vec![])), None);
}

#[test]
fn value_to_query_string_joins_the_items_of_an_array() {
    let items = JsonValue::Array(vec![
        JsonValue::Number(1),
        JsonValue::Null,
        text("x"),
        JsonValue::Object(vec![field("a", JsonValue::Number(1))]),
        JsonValue::Bool(true),
        JsonValue::Array(vec![JsonValue::Number(2), JsonValue::Number(3)]),
    ]);
    assert_eq!(value_to_query_string(&items), Some(String::from("1,x,true,2,3")));
    assert_eq!(value_to_query_string(&JsonValue::Array(vec![])), Some(String::new()));
    assert_eq!(
        value_to_query_string(&JsonValue::Array(vec![JsonValue::Null])),
        Some(String::new())
    );
    assert_eq!(
        value_to_query_string(&JsonValue::Array(vec![text(""), text("")])),
        Some(String::from(","))
    );
}

#[test]
fn query_pairs_keeps_the_fields_that_have_a_text() {
    let query = JsonValue::Object(vec![
        field("symbol", text("BTC")),
        field("none", JsonValue::Null),
        field("page", JsonValue::Number(2)),
        field("nested", JsonValue::Object(vec![])),
        field("ids", JsonValue::Array(vec![JsonValue::Number(1), JsonValue::Number(2)])),
    ]);
    assert_eq!(
        query_pairs(&query),
        vec![
            (String::from("symbol"), String::from("BTC")),
            (String::from("page"), String::from("2")),
            (String::from("ids"), String::from("1,2")),
        ]
    );
    assert!(query_pairs(&JsonValue::Array(vec![text("x")])).is_empty());
    assert!(query_pairs(&JsonValue::Null).is_empty());
    assert!(query_pairs(&text("symbol=BTC")).is_empty());
}
