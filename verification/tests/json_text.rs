use soar_metadata::json::{
    json_provide_list, json_quote, json_string_list, json_value_text, u64_to_dec,
};
use soar_metadata::models::PackageProvide;
use soar_metadata::raw::RawValue;

#[test]
fn numbers_serialize_in_decimal() {
    assert_eq!(u64_to_dec(0), "0");
    assert_eq!(u64_to_dec(7), "7");
    assert_eq!(u64_to_dec(1234567890), "1234567890");
    assert_eq!(u64_to_dec(u64::MAX), "18446744073709551615");
}

#[test]
fn strings_are_quoted_and_escaped() {
    assert_eq!(json_quote("plain"), "\"plain\"");
    assert_eq!(json_quote("a\"b"), "\"a\\\"b\"");
    assert_eq!(json_quote("a\\b"), "\"a\\\\b\"");
    assert_eq!(json_quote("a\nb\tc"), "\"a\\nb\\tc\"");
    assert_eq!(json_quote("\u{1}"), "\"\\u0001\"");
    assert_eq!(json_quote("\u{1f}"), "\"\\u001f\"");
    assert_eq!(json_quote(""), "\"\"");
}

#[test]
fn string_lists_serialize_as_arrays() {
    assert_eq!(json_string_list(&vec![]), "[]");
    assert_eq!(json_string_list(&vec!["a".to_string()]), "[\"a\"]");
    assert_eq!(
        json_string_list(&vec!["a".to_string(), "b\"c".to_string()]),
        "[\"a\",\"b\\\"c\"]"
    );
}

#[test]
fn encoding_matches_the_common_compact_form() {
    let values = vec!["a".to_string(), "b\"c\n".to_string(), "τ".to_string()];
    assert_eq!(json_string_list(&values), serde_json::to_string(&values).unwrap());
    let one = "x\\y\u{8}\u{c}\r";
    assert_eq!(json_quote(one), serde_json::to_string(one).unwrap());
}

#[test]
fn provide_lists_serialize_with_strategy_names() {
    let full = PackageProvide::from_string("foo==bar");
    let bare = PackageProvide::from_string("tool");
    assert_eq!(
        json_provide_list(&vec![full, bare]),
        "[{\"name\":\"foo\",\"target\":\"bar\",\"strategy\":\"KeepBoth\"},{\"name\":\"tool\",\"target\":null,\"strategy\":null}]"
    );
    assert_eq!(json_provide_list(&vec![]), "[]");
}

#[test]
fn raw_values_pass_through_as_their_serialized_form() {
    assert_eq!(json_value_text(None), "null");
    assert_eq!(json_value_text(Some(&RawValue::Null)), "null");
    assert_eq!(json_value_text(Some(&RawValue::Bool(true))), "true");
    assert_eq!(json_value_text(Some(&RawValue::Bool(false))), "false");
    assert_eq!(json_value_text(Some(&RawValue::Num(42))), "42");
    assert_eq!(json_value_text(Some(&RawValue::Str("x".to_string()))), "\"x\"");
    assert_eq!(
        json_value_text(Some(&RawValue::List(vec!["a".to_string()]))),
        "[\"a\"]"
    );
    assert_eq!(
        json_value_text(Some(&RawValue::Object {
            url: None,
            text: "{\"why\":1}".to_string(),
        })),
        "{\"why\":1}"
    );
    assert_eq!(
        json_value_text(Some(&RawValue::Other("[1,2]".to_string()))),
        "[1,2]"
    );
}
