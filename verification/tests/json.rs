use duckduckgo::error::SearchError;
use duckduckgo::json::{Json, JsonNumber};

#[test]
fn parses_scalars() {
    assert!(matches!(Json::parse("null"), Ok(Json::Null)));
    assert!(matches!(Json::parse("true"), Ok(Json::Bool(true))));
    assert!(matches!(Json::parse("false"), Ok(Json::Bool(false))));
    assert!(matches!(Json::parse("17"), Ok(Json::Number(JsonNumber::Unsigned(17)))));
    assert!(matches!(Json::parse("-17"), Ok(Json::Number(JsonNumber::Negative(-17)))));
    match Json::parse("\"text\"") {
        Ok(Json::Text(s)) => assert_eq!(s, "text"),
        other => panic!("unexpected: {:?}", other),
    }
}

#[test]
fn parses_reals_as_literals() {
    match Json::parse("1.5") {
        Ok(Json::Number(JsonNumber::Real(literal))) => assert_eq!(literal, "1.5"),
        other => panic!("unexpected: {:?}", other),
    }
    match Json::parse("256.0") {
        Ok(json) => {
            assert_eq!(json.as_u64(), None);
            assert_eq!(json.as_i64(), None);
        },
        Err(error) => panic!("unexpected: {:?}", error),
    }
}

#[test]
fn parses_the_largest_integers() {
    assert_eq!(Json::parse("18446744073709551615").unwrap().as_u64(), Some(u64::MAX));
    assert_eq!(Json::parse("18446744073709551615").unwrap().as_i64(), None);
    assert_eq!(Json::parse("9223372036854775807").unwrap().as_i64(), Some(i64::MAX));
    assert_eq!(Json::parse("9223372036854775808").unwrap().as_i64(), None);
    assert_eq!(Json::parse("-9223372036854775808").unwrap().as_i64(), Some(i64::MIN));
    assert_eq!(Json::parse("-1").unwrap().as_u64(), None);
}

#[test]
fn parses_nested_documents() {
    let doc = Json::parse(r#"{"results": [{"title": "a", "n": 1}, {"title": "b"}], "next": "x"}"#).unwrap();
    let results = doc.get("results").unwrap().as_array().unwrap();
    assert_eq!(results.len(), 2);
    assert_eq!(results[0].get("title").unwrap().as_str(), Some("a"));
    assert_eq!(results[0].get("n").unwrap().as_u64(), Some(1));
    assert_eq!(results[1].get("title").unwrap().as_str(), Some("b"));
    assert!(results[1].get("n").is_none());
    assert_eq!(doc.get("next").unwrap().as_str(), Some("x"));
}

#[test]
fn rejects_what_is_no_document() {
    for text in ["", "{", "[1,", "{\"a\": }", "nul", "1 2", "<html></html>"] {
        match Json::parse(text) {
            Err(SearchError::Parse { body }) => assert_eq!(body, text),
            other => panic!("unexpected for {:?}: {:?}", text, other),
        }
    }
}

#[test]
fn get_reads_objects_only() {
    let array = Json::Array(vec![Json::Null]);
    assert!(array.get("0").is_none());
    assert!(Json::Null.get("a").is_none());
    assert!(Json::Text("a".to_string()).get("a").is_none());
}

#[test]
fn get_takes_the_first_of_equal_keys() {
    let object = Json::Object(vec![
        ("k".to_string(), Json::Bool(true)),
        ("k".to_string(), Json::Bool(false)),
    ]);
    assert!(matches!(object.get("k"), Some(Json::Bool(true))));
    assert!(object.get("K").is_none());
    assert!(object.get("").is_none());
}

#[test]
fn readers_give_the_defaults() {
    let item = Json::Object(vec![
        ("title".to_string(), Json::Text("t".to_string())),
        ("height".to_string(), Json::Number(JsonNumber::Unsigned(480))),
        ("width".to_string(), Json::Text("640".to_string())),
        ("date".to_string(), Json::Number(JsonNumber::Negative(-5))),
        ("flag".to_string(), Json::Bool(true)),
    ]);
    assert_eq!(item.str_field("title"), "t");
    assert_eq!(item.str_field("missing"), "");
    assert_eq!(item.str_field("height"), "");
    assert_eq!(item.optional_str_field("title"), Some("t".to_string()));
    assert_eq!(item.optional_str_field("missing"), None);
    assert_eq!(item.optional_str_field("flag"), None);
    assert_eq!(item.u64_field("height"), 480);
    assert_eq!(item.u64_field("width"), 0);
    assert_eq!(item.u64_field("missing"), 0);
    assert_eq!(item.u64_field("date"), 0);
    assert_eq!(item.i64_field("date"), Some(-5));
    assert_eq!(item.i64_field("height"), Some(480));
    assert_eq!(item.i64_field("title"), None);
    assert_eq!(item.i64_field("missing"), None);
}

#[test]
fn integer_readings_of_numbers() {
    assert_eq!(Json::Number(JsonNumber::Unsigned(5)).as_i64(), Some(5));
    assert_eq!(Json::Number(JsonNumber::Unsigned(u64::MAX)).as_i64(), None);
    assert_eq!(Json::Number(JsonNumber::Negative(-3)).as_u64(), None);
    assert_eq!(Json::Number(JsonNumber::Real("2.5".to_string())).as_u64(), None);
    assert_eq!(Json::Number(JsonNumber::Real("2.5".to_string())).as_i64(), None);
    assert_eq!(Json::Bool(true).as_u64(), None);
    assert_eq!(Json::Null.as_str(), None);
    assert!(Json::Null.as_array().is_none());
}
