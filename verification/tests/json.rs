use vault_mgmt::json::{json_parse, json_string};
use vault_mgmt::{Json, JsonMember};

fn member(name: &str, value: Json) -> JsonMember {
    JsonMember {
        name: name.to_string(),
        value,
    }
}

#[test]
fn json_string_quotes_and_escapes() {
    assert_eq!(json_string(""), "\"\"");
    assert_eq!(json_string("abc"), "\"abc\"");
    assert_eq!(json_string("a\"b"), "\"a\\\"b\"");
    assert_eq!(json_string("a\\b"), "\"a\\\\b\"");
    assert_eq!(json_string("line\nfeed"), "\"line\\nfeed\"");
    assert_eq!(json_string("tab\there"), "\"tab\\there\"");
    assert_eq!(json_string("\u{1}"), "\"\\u0001\"");
    assert_eq!(json_string("\u{e9}\u{1F511}"), "\"\u{e9}\u{1F511}\"");
    for text in ["", "plain", "a\"b\\c\n\r\t\u{8}\u{c}\u{1f}", "\u{e9}\u{1F511}/"] {
        let back: String = serde_json::from_str(&json_string(text)).unwrap();
        assert_eq!(back, text);
        assert_eq!(json_string(text), serde_json::to_string(text).unwrap());
    }
}

#[test]
fn json_parse_reads_every_kind_of_value() {
    assert_eq!(json_parse("null"), Some(Json::Null));
    assert_eq!(json_parse("true"), Some(Json::Bool(true)));
    assert_eq!(json_parse(" false "), Some(Json::Bool(false)));
    assert_eq!(json_parse("0"), Some(Json::Number(Some(0))));
    assert_eq!(json_parse("40"), Some(Json::Number(Some(40))));
    assert_eq!(
        json_parse("18446744073709551615"),
        Some(Json::Number(Some(u64::MAX)))
    );
    assert_eq!(json_parse("18446744073709551616"), Some(Json::Number(None)));
    assert_eq!(json_parse("-1"), Some(Json::Number(None)));
    assert_eq!(json_parse("1.0"), Some(Json::Number(None)));
    assert_eq!(json_parse("1e2"), Some(Json::Number(None)));
    assert_eq!(json_parse("\"a\\nb\""), Some(Json::Text("a\nb".to_string())));
    assert_eq!(json_parse("[]"), Some(Json::Array(vec![])));
    assert_eq!(
        json_parse("[1, \"two\", [null]]"),
        Some(Json::Array(vec![
            Json::Number(Some(1)),
            Json::Text("two".to_string()),
            Json::Array(vec![Json::Null]),
        ]))
    );
    assert_eq!(json_parse("{}"), Some(Json::Object(vec![])));
    assert_eq!(
        json_parse("{\"b\": {\"c\": true}, \"a\": 1}"),
        Some(Json::Object(vec![
            member("a", Json::Number(Some(1))),
            member("b", Json::Object(vec![member("c", Json::Bool(true))])),
        ]))
    );
}

#[test]
fn json_parse_keeps_the_last_of_two_members_with_one_name() {
    assert_eq!(
        json_parse("{\"a\": 1, \"a\": 2}"),
        Some(Json::Object(vec![member("a", Json::Number(Some(2)))]))
    );
}

#[test]
fn json_parse_refuses_what_is_no_document() {
    for text in [
        "",
        " ",
        "nul",
        "{",
        "}",
        "[1,]",
        "{\"a\":}",
        "{a: 1}",
        "'a'",
        "\"a",
        "1 2",
        "{} {}",
        "01",
        "\u{feff}{}",
    ] {
        assert_eq!(json_parse(text), None, "{:?}", text);
    }
}

#[test]
fn json_values_are_read_by_kind() {
    let document = json_parse(
        "{\"text\": \"abc\", \"flag\": true, \"small\": 255, \"big\": 256, \"list\": [1], \"none\": null}",
    )
    .unwrap();
    assert_eq!(document.get("text").unwrap().as_text().unwrap(), "abc");
    assert_eq!(document.get("text").unwrap().as_bool(), None);
    assert_eq!(document.get("flag").unwrap().as_bool(), Some(true));
    assert_eq!(document.get("flag").unwrap().as_text(), None);
    assert_eq!(document.get("small").unwrap().as_u8(), Some(255));
    assert_eq!(document.get("small").unwrap().as_u64(), Some(255));
    assert_eq!(document.get("big").unwrap().as_u8(), None);
    assert_eq!(document.get("big").unwrap().as_u64(), Some(256));
    assert_eq!(document.get("text").unwrap().as_u64(), None);
    assert_eq!(
        document.get("list").unwrap().as_array().unwrap(),
        &vec![Json::Number(Some(1))]
    );
    assert_eq!(document.get("text").unwrap().as_array(), None);
    assert!(document.get("none").unwrap().is_null());
    assert!(!document.get("flag").unwrap().is_null());
    assert_eq!(document.get("missing"), None);
    assert_eq!(document.get("Text"), None);
    assert_eq!(Json::Array(vec![]).get("text"), None);
    assert_eq!(Json::Null.get(""), None);
}

#[test]
fn json_get_takes_the_first_of_two_members_with_one_name() {
    let object = Json::Object(vec![
        member("a", Json::Number(Some(1))),
        member("a", Json::Number(Some(2))),
    ]);
    assert_eq!(object.get("a"), Some(&Json::Number(Some(1))));
}

#[test]
fn json_values_are_copied_whole() {
    let document = json_parse(
        "{\"a\": [1, 2.5, \"three\", {\"four\": [true, null]}], \"b\": {\"c\": {\"d\": \"e\"}}}",
    )
    .unwrap();
    assert_eq!(document.duplicate(), document);
    assert_eq!(Json::Null.duplicate(), Json::Null);
    assert_eq!(Json::Array(vec![]).duplicate(), Json::Array(vec![]));
}
