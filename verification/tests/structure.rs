use json_color::{Color, Colorizer, FormatError, JsonValue};

fn strip(text: &str) -> String {
    let mut out = String::new();
    let mut chars = text.chars();
    while let Some(c) = chars.next() {
        if c == '\u{1b}' {
            for d in chars.by_ref() {
                if d == 'm' {
                    break;
                }
            }
        } else {
            out.push(c);
        }
    }
    out
}

fn plain() -> Colorizer {
    Colorizer::new().build()
}

fn number(text: &str) -> JsonValue {
    JsonValue::Number(text.to_string())
}

fn text(content: &str) -> JsonValue {
    JsonValue::Str(content.to_string())
}

#[test]
fn empty_array_is_two_brackets() {
    assert_eq!(plain().colorize_json_str("[]").unwrap(), "[]");
    assert_eq!(strip(&Colorizer::arbitrary().colorize_json_str("[]").unwrap()), "[]");
    assert_eq!(plain().colorize_json_str(" [ \n ] ").unwrap(), "[]");
}

#[test]
fn empty_object_is_two_braces() {
    assert_eq!(plain().colorize_json_str("{}").unwrap(), "{}");
    assert_eq!(strip(&Colorizer::arbitrary().colorize_json_str("{}").unwrap()), "{}");
}

#[test]
fn empty_containers_inside_a_container_stay_closed() {
    let out = plain().colorize_json_str("[[],{}]").unwrap();
    assert_eq!(out, "[\n  [],\n  {}\n]");
}

#[test]
fn keys_keep_their_order() {
    let out = strip(&Colorizer::arbitrary().colorize_json_str("{\"b\":1,\"a\":2}").unwrap());
    assert_eq!(out, "{\n  \"b\": 1,\n  \"a\": 2\n}");
    assert!(out.find("\"b\"").unwrap() < out.find("\"a\"").unwrap());
}

#[test]
fn keys_are_not_sorted_among_many() {
    let out = plain().colorize_json_str("{\"z\":0,\"m\":0,\"a\":0,\"q\":0}").unwrap();
    assert_eq!(out, "{\n  \"z\": 0,\n  \"m\": 0,\n  \"a\": 0,\n  \"q\": 0\n}");
}

#[test]
fn single_element_array_takes_three_lines() {
    assert_eq!(plain().colorize_json_str("[1]").unwrap(), "[\n  1\n]");
    assert_eq!(strip(&Colorizer::arbitrary().colorize_json_str("[1]").unwrap()), "[\n  1\n]");
}

#[test]
fn single_member_object_takes_three_lines() {
    assert_eq!(plain().colorize_json_str("{\"a\":null}").unwrap(), "{\n  \"a\": null\n}");
}

#[test]
fn nested_containers_indent_by_two_spaces_a_level() {
    let expected = "{\n  \"a\": [\n    1,\n    2\n  ]\n}";
    assert_eq!(plain().colorize_json_str("{\"a\":[1,2]}").unwrap(), expected);
    assert_eq!(
        strip(&Colorizer::arbitrary().colorize_json_str("{\"a\":[1,2]}").unwrap()),
        expected
    );
}

#[test]
fn three_levels_deep() {
    let out = plain().colorize_json_str("[[[true]],{\"k\":{\"l\":[]}}]").unwrap();
    let expected = "[\n  [\n    [\n      true\n    ]\n  ],\n  {\n    \"k\": {\n      \"l\": []\n    }\n  }\n]";
    assert_eq!(out, expected);
}

#[test]
fn scalars_at_the_root() {
    assert_eq!(plain().colorize_json_str("null").unwrap(), "null");
    assert_eq!(plain().colorize_json_str("true").unwrap(), "true");
    assert_eq!(plain().colorize_json_str("false").unwrap(), "false");
    assert_eq!(plain().colorize_json_str("12").unwrap(), "12");
    assert_eq!(plain().colorize_json_str("\"hi\"").unwrap(), "\"hi\"");
}

#[test]
fn numbers_read_as_the_parser_prints_them() {
    assert_eq!(plain().colorize_json_str("-7").unwrap(), "-7");
    assert_eq!(plain().colorize_json_str("1.5").unwrap(), "1.5");
    assert_eq!(plain().colorize_json_str("1e2").unwrap(), "100.0");
    assert_eq!(plain().colorize_json_str("18446744073709551615").unwrap(), "18446744073709551615");
}

#[test]
fn strings_are_quoted_and_not_escaped() {
    assert_eq!(plain().colorize_json_str("\"a\\\"b\"").unwrap(), "\"a\"b\"");
    assert_eq!(plain().colorize_json_str("\"tab\\there\"").unwrap(), "\"tab\there\"");
    assert_eq!(plain().colorize_json_str("\"\\u00e9\"").unwrap(), "\"\u{e9}\"");
    assert_eq!(plain().colorize_json_str("\"\"").unwrap(), "\"\"");
}

#[test]
fn keys_are_quoted_and_not_escaped() {
    let out = plain().colorize_json_str("{\"a\\\\b\":1,\"\":2}").unwrap();
    assert_eq!(out, "{\n  \"a\\b\": 1,\n  \"\": 2\n}");
}

#[test]
fn a_repeated_key_keeps_its_first_place_and_last_value() {
    let out = plain().colorize_json_str("{\"a\":1,\"b\":2,\"a\":3}").unwrap();
    assert_eq!(out, "{\n  \"a\": 3,\n  \"b\": 2\n}");
}

#[test]
fn invalid_text_is_rejected_with_the_parsers_diagnostic() {
    let error = plain().colorize_json_str("[1 2]").unwrap_err();
    match error {
        FormatError::InvalidJson(diagnostic) => {
            assert_eq!(diagnostic.message, "expected `,` or `]` at line 1 column 4");
            assert_eq!(diagnostic.line, 1);
            assert_eq!(diagnostic.column, 4);
        }
    }
}

#[test]
fn empty_text_is_rejected() {
    let error = Colorizer::arbitrary().colorize_json_str("").unwrap_err();
    match error {
        FormatError::InvalidJson(diagnostic) => {
            assert_eq!(diagnostic.message, "EOF while parsing a value at line 1 column 0");
            assert_eq!(diagnostic.line, 1);
            assert_eq!(diagnostic.column, 0);
        }
    }
}

#[test]
fn unfinished_and_overlong_texts_are_rejected() {
    for bad in ["[1,", "{\"a\":}", "{\"a\" 1}", "nul", "1 2", "{'a':1}", "[1,]", "\"open"] {
        let outcome = plain().colorize_json_str(bad);
        assert!(matches!(outcome, Err(FormatError::InvalidJson(_))), "{}", bad);
    }
}

#[test]
fn the_diagnostic_names_the_line() {
    let error = plain().colorize_json_str("[\n1,\n}").unwrap_err();
    let FormatError::InvalidJson(diagnostic) = error;
    assert_eq!(diagnostic.line, 3);
    assert_eq!(diagnostic.column, 1);
}

#[test]
fn stripped_output_parses_back_to_the_same_document() {
    let source = "{\"name\":\"x\",\"tags\":[\"a\",\"b\"],\"n\":{\"i\":-3,\"f\":2.5,\"t\":true,\"z\":null},\"e\":[],\"o\":{}}";
    let out = Colorizer::arbitrary().colorize_json_str(source).unwrap();
    let again: serde_json::Value = serde_json::from_str(&strip(&out)).unwrap();
    let first: serde_json::Value = serde_json::from_str(source).unwrap();
    assert_eq!(again, first);
}

#[test]
fn formatting_the_stripped_output_again_changes_nothing() {
    let source = "{\"b\":[1,{\"c\":[]}],\"a\":\"text\"}";
    let policy = Colorizer::arbitrary();
    let first = policy.colorize_json_str(source).unwrap();
    let second = policy.colorize_json_str(&strip(&first)).unwrap();
    assert_eq!(second, first);
    let once = plain().colorize_json_str(source).unwrap();
    assert_eq!(plain().colorize_json_str(&once).unwrap(), once);
}

#[test]
fn every_policy_gives_the_same_text_once_stripped() {
    let source = "{\"k\":[null,true,false,1,\"s\"]}";
    let uncoloured = plain().colorize_json_str(source).unwrap();
    let preset = Colorizer::arbitrary().colorize_json_str(source).unwrap();
    let red = Colorizer::new()
        .null(Color::Red)
        .boolean(Color::Red)
        .number(Color::Red)
        .string(Color::Red)
        .key(Color::Red)
        .build()
        .colorize_json_str(source)
        .unwrap();
    assert_eq!(
        uncoloured,
        "{\n  \"k\": [\n    null,\n    true,\n    false,\n    1,\n    \"s\"\n  ]\n}"
    );
    assert_eq!(strip(&preset), uncoloured);
    assert_eq!(strip(&red), uncoloured);
}

#[test]
fn a_value_is_formatted_as_its_text_is() {
    let value = JsonValue::Object(vec![
        ("b".to_string(), number("1")),
        ("a".to_string(), JsonValue::Array(vec![JsonValue::Null, JsonValue::Bool(false), text("x")])),
    ]);
    let from_value = plain().colorize_json_with_indentation(&value, 0);
    let from_text = plain().colorize_json_str("{\"b\":1,\"a\":[null,false,\"x\"]}").unwrap();
    assert_eq!(from_value, from_text);
    assert_eq!(from_value, "{\n  \"b\": 1,\n  \"a\": [\n    null,\n    false,\n    \"x\"\n  ]\n}");
}

#[test]
fn a_deeper_start_indents_all_lines_but_the_first() {
    let value = JsonValue::Array(vec![JsonValue::Null, JsonValue::Array(vec![number("2")])]);
    let out = plain().colorize_json_with_indentation(&value, 2);
    assert_eq!(out, "[\n      null,\n      [\n        2\n      ]\n    ]");
    assert_eq!(plain().colorize_json_with_indentation(&JsonValue::Array(vec![]), 7), "[]");
    assert_eq!(plain().colorize_json_with_indentation(&JsonValue::Bool(true), 3), "true");
}

#[test]
fn the_deepest_start_is_taken() {
    let value = JsonValue::Object(vec![("k".to_string(), JsonValue::Null)]);
    let out = plain().colorize_json_with_indentation(&value, 255);
    let outer = " ".repeat(510);
    assert_eq!(out, format!("{{\n{}  \"k\": null\n{}}}", outer, outer));
}

#[test]
fn a_number_is_written_as_it_is_held() {
    let out = plain().colorize_json_with_indentation(&number("1.50"), 0);
    assert_eq!(out, "1.50");
}
