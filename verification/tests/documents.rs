use currency_converter::document::{
    rate_table, read_integer, read_member, read_number, read_text,
};

fn document(text: &str) -> serde_json::Value {
    serde_json::from_str(text).unwrap()
}

#[test]
fn members_are_found_by_name() {
    let value = document("{\"a\":{\"b\":1},\"c\":null,\"\":true}");
    assert_eq!(read_member(&value, "a"), Some(&document("{\"b\":1}")));
    assert_eq!(read_member(&value, "c"), Some(&serde_json::Value::Null));
    assert_eq!(read_member(&value, ""), Some(&serde_json::Value::Bool(true)));
    assert_eq!(read_member(&value, "b"), None);
    assert_eq!(read_member(&value, "A"), None);
}

#[test]
fn only_objects_have_members() {
    for text in ["[1,2]", "\"a\"", "1", "null", "true", "[{\"a\":1}]"] {
        let value = document(text);
        assert_eq!(read_member(&value, "a"), None);
        assert_eq!(read_member(&value, "0"), None);
        assert_eq!(read_text(&value, "a"), None);
        assert_eq!(read_number(&value, "a"), None);
        assert_eq!(read_integer(&value, "a"), None);
    }
}

#[test]
fn text_is_read_from_strings_only() {
    let value = document("{\"s\":\"USD\",\"e\":\"\",\"n\":1,\"o\":{},\"l\":[\"x\"],\"z\":null}");
    assert_eq!(read_text(&value, "s"), Some("USD".to_string()));
    assert_eq!(read_text(&value, "e"), Some(String::new()));
    for key in ["n", "o", "l", "z", "missing"] {
        assert_eq!(read_text(&value, key), None);
    }
    let escaped = document("{\"s\":\"a\\u00e9\\n\\\"b\"}");
    assert_eq!(read_text(&escaped, "s"), Some("a\u{e9}\n\"b".to_string()));
}

#[test]
fn numbers_are_read_whole_or_fractional() {
    let value = document("{\"i\":7,\"f\":0.25,\"m\":-3,\"e\":1e3,\"s\":\"7\",\"b\":false}");
    assert_eq!(read_number(&value, "i").unwrap().as_f64(), Some(7.0));
    assert_eq!(read_number(&value, "f").unwrap().as_f64(), Some(0.25));
    assert_eq!(read_number(&value, "m").unwrap().as_f64(), Some(-3.0));
    assert_eq!(read_number(&value, "e").unwrap().as_f64(), Some(1000.0));
    assert_eq!(read_number(&value, "s"), None);
    assert_eq!(read_number(&value, "b"), None);
    assert_eq!(read_number(&value, "missing"), None);
}

#[test]
fn integers_are_read_from_whole_numbers_in_range() {
    let value = document(
        "{\"i\":7,\"z\":0,\"m\":-3,\"f\":7.0,\"e\":1e3,\"s\":\"7\",\
         \"max\":9223372036854775807,\"over\":9223372036854775808,\
         \"min\":-9223372036854775808,\"huge\":123456789012345678901234567890}",
    );
    assert_eq!(read_integer(&value, "i"), Some(7));
    assert_eq!(read_integer(&value, "z"), Some(0));
    assert_eq!(read_integer(&value, "m"), Some(-3));
    assert_eq!(read_integer(&value, "max"), Some(i64::MAX));
    assert_eq!(read_integer(&value, "min"), Some(i64::MIN));
    for key in ["f", "e", "s", "over", "huge", "missing"] {
        assert_eq!(read_integer(&value, key), None);
    }
}

#[test]
fn a_rate_table_is_an_object_of_numbers() {
    for text in [
        "{}",
        "{\"USD\":1}",
        "{\"USD\":1,\"EUR\":0.9013,\"JPY\":151.2,\"X\":-1,\"Y\":1e-7}",
        "{\"\":0}",
        "{\"a b\":18446744073709551615}",
    ] {
        assert!(rate_table(&document(text)), "{}", text);
    }
}

#[test]
fn other_values_are_no_rate_tables() {
    for text in [
        "null",
        "true",
        "0",
        "1.5",
        "\"USD\"",
        "\"\"",
        "[]",
        "[1,2,3]",
        "[{\"USD\":1}]",
        "{\"USD\":\"1\"}",
        "{\"USD\":null}",
        "{\"USD\":true}",
        "{\"USD\":[1]}",
        "{\"USD\":{\"EUR\":1}}",
        "{\"A\":1,\"B\":2,\"C\":\"3\"}",
        "{\"A\":\"1\",\"B\":2,\"C\":3}",
        "{\"A\":1,\"B\":{},\"C\":3}",
    ] {
        assert!(!rate_table(&document(text)), "{}", text);
    }
}
